use vstd::prelude::*;
use crate::prompt::{marker, process_prompt, replace_all};

verus! {

/// How the interactive loop treats the session between turns.
#[derive(Clone, Copy, Debug, PartialEq, Eq, Structural)]
pub enum Mode {
    /// Persistent: each turn keeps what it fed and generated, so context accumulates.
    Chat,
    /// Non-persistent: each turn starts again from the same baseline session.
    Completion,
}

/// Where the interactive loop stands.
#[derive(Clone, Copy, Debug, PartialEq, Eq, Structural)]
pub enum Phase {
    AwaitingLine,
    Feeding,
    Generating,
    Closed,
}

/// How a feed or a generation call ended.
#[derive(Clone, Copy, Debug, PartialEq, Eq, Structural)]
pub enum Outcome {
    Completed,
    /// The context window filled up; what fit was kept.
    ContextFull,
    /// The text could not be tokenized.
    TokenizationFailed,
}

/// What the loop is told: a line (or its absence) from the line source, or
/// how the last inference call ended.
#[derive(Clone, Debug, PartialEq, Eq)]
pub enum Event {
    Line(String),
    EndOfInput,
    Interrupted,
    LineError(String),
    Fed(Outcome),
    Generated(Outcome),
}

/// What should be reported to the user alongside an action.
#[derive(Clone, Debug, PartialEq, Eq)]
pub enum Notice {
    /// The prompt did not fit in the context window.
    PromptTooLong,
    /// The reply ran out of context window.
    ReplyTooLong,
    /// The prompt could not be fed; the turn was abandoned.
    FeedFailed,
    /// The line source reported this error; the loop goes on.
    LineSource(String),
}

/// What the loop asks its host to do next.
#[derive(Clone, Debug, PartialEq, Eq)]
pub enum Action {
    /// Read the next line.
    ReadLine,
    /// Clone the session as a backup first when `backup` holds, then feed `prompt`.
    Feed { prompt: String, backup: bool },
    /// Generate up to `max_tokens` tokens (without bound when `None`),
    /// streaming them out.
    Generate { max_tokens: Option<usize> },
    /// End the turn, putting the backup back in place of the session when
    /// `restore` holds, then read the next line.
    EndTurn { restore: bool },
    /// Stop: the line source is closed.
    Close,
}

/// What an action does to the session, without its text.
#[derive(Clone, Copy, Debug, PartialEq, Eq, Structural)]
pub enum Plan {
    ReadLine,
    Feed { backup: bool },
    Generate,
    EndTurn { restore: bool },
    Close,
}

/// An event without its text.
#[derive(Clone, Copy, Debug, PartialEq, Eq, Structural)]
pub enum EventKind {
    Line,
    EndOfInput,
    Interrupted,
    LineError,
    Fed(Outcome),
    Generated(Outcome),
}

/// The reaction to one event.
#[derive(Clone, Debug, PartialEq, Eq)]
pub struct Reaction {
    pub notice: Option<Notice>,
    pub action: Action,
}

pub open spec fn plan_of(a: Action) -> Plan {
    match a {
        Action::ReadLine => Plan::ReadLine,
        Action::Feed { backup, .. } => Plan::Feed { backup },
        Action::Generate { .. } => Plan::Generate,
        Action::EndTurn { restore } => Plan::EndTurn { restore },
        Action::Close => Plan::Close,
    }
}

pub open spec fn kind_of(e: Event) -> EventKind {
    match e {
        Event::Line(_) => EventKind::Line,
        Event::EndOfInput => EventKind::EndOfInput,
        Event::Interrupted => EventKind::Interrupted,
        Event::LineError(_) => EventKind::LineError,
        Event::Fed(o) => EventKind::Fed(o),
        Event::Generated(o) => EventKind::Generated(o),
    }
}

/// Whether an event of kind `k` can come in phase `p`.
pub open spec fn fits(p: Phase, k: EventKind) -> bool {
    match p {
        Phase::AwaitingLine => k is Line || k is EndOfInput || k is Interrupted || k is LineError,
        Phase::Feeding => k is Fed,
        Phase::Generating => k is Generated,
        Phase::Closed => false,
    }
}

/// The phase after an event of kind `k` in phase `p`. Only the end of input
/// or an interrupt closes the loop; a full context never does.
pub open spec fn next_phase(p: Phase, k: EventKind) -> Phase {
    match k {
        EventKind::Line => Phase::Feeding,
        EventKind::EndOfInput | EventKind::Interrupted => Phase::Closed,
        EventKind::LineError => Phase::AwaitingLine,
        EventKind::Fed(o) => if o is TokenizationFailed {
            Phase::AwaitingLine
        } else {
            Phase::Generating
        },
        EventKind::Generated(_) => Phase::AwaitingLine,
    }
}

/// What is asked of the host after an event of kind `k` in phase `p`.
pub open spec fn next_plan(m: Mode, p: Phase, k: EventKind) -> Plan {
    match k {
        EventKind::Line => Plan::Feed { backup: m is Completion },
        EventKind::EndOfInput | EventKind::Interrupted => Plan::Close,
        EventKind::LineError => Plan::ReadLine,
        EventKind::Fed(o) => if o is TokenizationFailed {
            Plan::EndTurn { restore: m is Completion }
        } else {
            Plan::Generate
        },
        EventKind::Generated(_) => Plan::EndTurn { restore: m is Completion },
    }
}

/// What is reported after event `e`.
pub open spec fn next_notice(e: Event) -> Option<Notice> {
    match e {
        Event::LineError(m) => Some(Notice::LineSource(m)),
        Event::Fed(Outcome::ContextFull) => Some(Notice::PromptTooLong),
        Event::Fed(Outcome::TokenizationFailed) => Some(Notice::FeedFailed),
        Event::Generated(Outcome::ContextFull) => Some(Notice::ReplyTooLong),
        _ => None,
    }
}

/// The text fed for input line `line` under an optional template.
pub open spec fn turn_prompt(template: Option<Seq<char>>, line: Seq<char>) -> Seq<char> {
    match template {
        Some(t) => replace_all(t, marker(), line),
        None => line,
    }
}

/// The decisions of the interactive loop: which turn step comes next, and
/// whether the session is backed up and restored around a turn.
pub struct Controller {
    mode: Mode,
    phase: Phase,
    template: Option<String>,
    num_predict: Option<usize>,
}

impl Controller {
    pub closed spec fn mode(&self) -> Mode {
        self.mode
    }

    pub closed spec fn phase(&self) -> Phase {
        self.phase
    }

    pub closed spec fn template(&self) -> Option<Seq<char>> {
        match self.template {
            Some(t) => Some(t@),
            None => None,
        }
    }

    pub closed spec fn num_predict(&self) -> Option<usize> {
        self.num_predict
    }

    /// A loop awaiting its first line. `template`, when given, is filled with
    /// each input line; `num_predict` bounds the tokens generated per turn.
    pub fn new(mode: Mode, template: Option<String>, num_predict: Option<usize>) -> (r: Controller)
        ensures
            r.mode() == mode,
            r.phase() == Phase::AwaitingLine,
            r.template() == (match template {
                Some(t) => Some(t@),
                None => None::<Seq<char>>,
            }),
            r.num_predict() == num_predict,
    {
        Controller { mode, phase: Phase::AwaitingLine, template, num_predict }
    }

    pub fn mode_of(&self) -> (r: Mode)
        ensures
            r == self.mode(),
    {
        self.mode
    }

    pub fn current_phase(&self) -> (r: Phase)
        ensures
            r == self.phase(),
    {
        self.phase
    }

    /// Whether `e` is an event that the loop can take now.
    pub fn expects(&self, e: &Event) -> (r: bool)
        ensures
            r == fits(self.phase(), kind_of(*e)),
    {
        match self.phase {
            Phase::AwaitingLine => match e {
                Event::Line(_) | Event::EndOfInput | Event::Interrupted | Event::LineError(_) => true,
                _ => false,
            },
            Phase::Feeding => match e {
                Event::Fed(_) => true,
                _ => false,
            },
            Phase::Generating => match e {
                Event::Generated(_) => true,
                _ => false,
            },
            Phase::Closed => false,
        }
    }

    /// Takes one event and says what the host does next.
    pub fn step(&mut self, e: Event) -> (r: Reaction)
        requires
            fits(old(self).phase(), kind_of(e)),
        ensures
            final(self).mode() == old(self).mode(),
            final(self).template() == old(self).template(),
            final(self).num_predict() == old(self).num_predict(),
            final(self).phase() == next_phase(old(self).phase(), kind_of(e)),
            plan_of(r.action) == next_plan(old(self).mode(), old(self).phase(), kind_of(e)),
            r.notice == next_notice(e),
            e matches Event::Line(line) ==> r.action matches Action::Feed { prompt, .. } && prompt@
                == turn_prompt(old(self).template(), line@),
            r.action matches Action::Generate { max_tokens } ==> max_tokens == old(self).num_predict(),
    {
        let completion = match self.mode {
            Mode::Chat => false,
            Mode::Completion => true,
        };
        match e {
            Event::Line(line) => {
                let prompt = match &self.template {
                    Some(t) => process_prompt(t.as_str(), line.as_str()),
                    None => line,
                };
                self.phase = Phase::Feeding;
                Reaction { notice: None, action: Action::Feed { prompt, backup: completion } }
            },
            Event::EndOfInput | Event::Interrupted => {
                self.phase = Phase::Closed;
                Reaction { notice: None, action: Action::Close }
            },
            Event::LineError(m) => {
                Reaction { notice: Some(Notice::LineSource(m)), action: Action::ReadLine }
            },
            Event::Fed(o) => match o {
                Outcome::Completed => {
                    self.phase = Phase::Generating;
                    Reaction {
                        notice: None,
                        action: Action::Generate { max_tokens: self.num_predict },
                    }
                },
                Outcome::ContextFull => {
                    self.phase = Phase::Generating;
                    Reaction {
                        notice: Some(Notice::PromptTooLong),
                        action: Action::Generate { max_tokens: self.num_predict },
                    }
                },
                Outcome::TokenizationFailed => {
                    self.phase = Phase::AwaitingLine;
                    Reaction {
                        notice: Some(Notice::FeedFailed),
                        action: Action::EndTurn { restore: completion },
                    }
                },
            },
            Event::Generated(o) => {
                self.phase = Phase::AwaitingLine;
                let notice = match o {
                    Outcome::ContextFull => Some(Notice::ReplyTooLong),
                    _ => None,
                };
                Reaction { notice, action: Action::EndTurn { restore: completion } }
            },
        }
    }
}

/// The host's side of the loop as far as the session goes: the tokens in the
/// session's context, and the backup taken at the start of a turn, if any.
pub struct Host {
    pub session: Seq<u32>,
    pub backup: Option<Seq<u32>>,
}

/// The host after carrying out `p`, where a feed or a generation appends
/// `added` to the context (whatever the engine produced, possibly nothing).
pub open spec fn perform(h: Host, p: Plan, added: Seq<u32>) -> Host {
    match p {
        Plan::Feed { backup } => Host {
            session: h.session + added,
            backup: if backup {
                Some(h.session)
            } else {
                None
            },
        },
        Plan::Generate => Host { session: h.session + added, backup: h.backup },
        Plan::EndTurn { restore } => Host {
            session: if restore && h.backup is Some {
                h.backup.unwrap()
            } else {
                h.session
            },
            backup: None,
        },
        Plan::ReadLine | Plan::Close => h,
    }
}

/// What happens in one turn: how the feed and the generation ended, and what
/// each appended to the context.
pub struct TurnRecord {
    pub fed: Outcome,
    pub generated: Outcome,
    pub fed_tokens: Seq<u32>,
    pub generated_tokens: Seq<u32>,
}

/// The phase after feeding ends with `fed`.
pub open spec fn phase_after_feed(fed: Outcome) -> Phase {
    next_phase(Phase::Feeding, EventKind::Fed(fed))
}

/// The phase in which a turn begun on a line ends.
pub open spec fn phase_after_turn(t: TurnRecord) -> Phase {
    if phase_after_feed(t.fed) == Phase::Generating {
        next_phase(Phase::Generating, EventKind::Generated(t.generated))
    } else {
        phase_after_feed(t.fed)
    }
}

/// The host after one turn that the loop drives from an input line.
pub open spec fn run_turn(m: Mode, h: Host, t: TurnRecord) -> Host {
    let h1 = perform(h, next_plan(m, Phase::AwaitingLine, EventKind::Line), t.fed_tokens);
    let h2 = perform(h1, next_plan(m, Phase::Feeding, EventKind::Fed(t.fed)), t.generated_tokens);
    if phase_after_feed(t.fed) == Phase::Generating {
        perform(
            h2,
            next_plan(m, Phase::Generating, EventKind::Generated(t.generated)),
            Seq::empty(),
        )
    } else {
        h2
    }
}

/// The host after the turns `ts`, one after another.
pub open spec fn run_turns(m: Mode, h: Host, ts: Seq<TurnRecord>) -> Host
    decreases ts.len(),
{
    if ts.len() == 0 {
        h
    } else {
        run_turn(m, run_turns(m, h, ts.drop_last()), ts.last())
    }
}

/// Every turn, however its feed and generation end (a full context
/// included), brings the loop back to awaiting the next line.
pub proof fn lemma_turn_returns_to_line(t: TurnRecord)
    ensures
        phase_after_turn(t) == Phase::AwaitingLine,
        fits(phase_after_turn(t), EventKind::Line),
        fits(Phase::Feeding, EventKind::Fed(t.fed)),
        phase_after_feed(t.fed) == Phase::Generating ==> fits(
            Phase::Generating,
            EventKind::Generated(t.generated),
        ),
{
}

/// A full context while feeding or generating never closes the loop: the
/// loop goes on to generate, or back to reading lines.
pub proof fn lemma_context_full_not_fatal()
    ensures
        next_phase(Phase::Feeding, EventKind::Fed(Outcome::ContextFull)) == Phase::Generating,
        next_phase(Phase::Generating, EventKind::Generated(Outcome::ContextFull))
            == Phase::AwaitingLine,
        fits(
            next_phase(Phase::Generating, EventKind::Generated(Outcome::ContextFull)),
            EventKind::Line,
        ),
{
}

/// In completion mode a turn leaves the session exactly as it found it,
/// whatever was fed or generated during the turn.
pub proof fn lemma_completion_turn_rolls_back(h: Host, t: TurnRecord)
    requires
        h.backup is None,
    ensures
        run_turn(Mode::Completion, h, t) == h,
{
}

/// In completion mode every turn starts from the same session.
pub proof fn lemma_completion_rolls_back(h: Host, ts: Seq<TurnRecord>)
    requires
        h.backup is None,
    ensures
        run_turns(Mode::Completion, h, ts) == h,
    decreases ts.len(),
{
    if ts.len() > 0 {
        lemma_completion_rolls_back(h, ts.drop_last());
        lemma_completion_turn_rolls_back(h, ts.last());
    }
}

/// In chat mode a turn extends the session: what was there before the turn
/// is a prefix of what is there after it, and strictly so when the feed
/// appended anything.
pub proof fn lemma_chat_turn_accumulates(h: Host, t: TurnRecord)
    ensures
        h.session.is_prefix_of(run_turn(Mode::Chat, h, t).session),
        t.fed_tokens.len() > 0 ==> run_turn(Mode::Chat, h, t).session.len() > h.session.len(),
{
    let r = run_turn(Mode::Chat, h, t);
    let h1 = h.session + t.fed_tokens;
    if phase_after_feed(t.fed) == Phase::Generating {
        assert(r.session == h1 + t.generated_tokens);
        assert(h.session.is_prefix_of(r.session)) by {
            assert forall|i: int| 0 <= i < h.session.len() implies r.session[i] == h.session[i] by {
                assert(h1[i] == h.session[i]);
            }
        }
    } else {
        assert(r.session == h1);
        assert(h.session.is_prefix_of(r.session));
    }
}

/// In chat mode the session only grows: at every turn, the session before it
/// is a prefix of the session after it, and so is the session before the first.
pub proof fn lemma_chat_accumulates(h: Host, ts: Seq<TurnRecord>)
    ensures
        h.session.is_prefix_of(run_turns(Mode::Chat, h, ts).session),
        forall|i: int|
            0 <= i < ts.len() ==> #[trigger] run_turns(Mode::Chat, h, ts.take(i)).session.is_prefix_of(
                run_turns(Mode::Chat, h, ts.take(i + 1)).session,
            ),
    decreases ts.len(),
{
    if ts.len() > 0 {
        lemma_chat_accumulates(h, ts.drop_last());
        let before = run_turns(Mode::Chat, h, ts.drop_last());
        lemma_chat_turn_accumulates(before, ts.last());
        assert(h.session.is_prefix_of(run_turns(Mode::Chat, h, ts).session)) by {
            let mid = before.session;
            let fin = run_turns(Mode::Chat, h, ts).session;
            assert forall|k: int| 0 <= k < h.session.len() implies fin[k] == h.session[k] by {
                assert(mid[k] == h.session[k]);
            }
        }
    }
    assert forall|i: int| 0 <= i < ts.len() implies #[trigger] run_turns(
        Mode::Chat,
        h,
        ts.take(i),
    ).session.is_prefix_of(run_turns(Mode::Chat, h, ts.take(i + 1)).session) by {
        let u = ts.take(i + 1);
        assert(u.drop_last() =~= ts.take(i));
        lemma_chat_turn_accumulates(run_turns(Mode::Chat, h, ts.take(i)), u.last());
    }
}

} // verus!
