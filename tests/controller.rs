use llm_cli::controller::{Action, Controller, Event, Mode, Notice, Outcome, Phase, Reaction};

fn feed(prompt: &str, backup: bool) -> Action {
    Action::Feed { prompt: prompt.to_string(), backup }
}

#[test]
fn completion_turn_backs_up_and_restores() {
    let mut c = Controller::new(Mode::Completion, Some("Q: {{PROMPT}} A:".to_string()), Some(8));
    let r = c.step(Event::Line("2+2?".to_string()));
    assert_eq!(r, Reaction { notice: None, action: feed("Q: 2+2? A:", true) });
    assert_eq!(c.current_phase(), Phase::Feeding);
    let r = c.step(Event::Fed(Outcome::Completed));
    assert_eq!(r, Reaction { notice: None, action: Action::Generate { max_tokens: Some(8) } });
    let r = c.step(Event::Generated(Outcome::Completed));
    assert_eq!(r, Reaction { notice: None, action: Action::EndTurn { restore: true } });
    assert_eq!(c.current_phase(), Phase::AwaitingLine);
}

#[test]
fn chat_turn_keeps_the_session() {
    let mut c = Controller::new(Mode::Chat, None, Some(3));
    let r = c.step(Event::Line("hello".to_string()));
    assert_eq!(r.action, feed("hello", false));
    c.step(Event::Fed(Outcome::Completed));
    let r = c.step(Event::Generated(Outcome::Completed));
    assert_eq!(r.action, Action::EndTurn { restore: false });
}

#[test]
fn context_full_does_not_end_the_loop() {
    let mut c = Controller::new(Mode::Completion, None, Some(4));
    c.step(Event::Line("a long prompt".to_string()));
    let r = c.step(Event::Fed(Outcome::ContextFull));
    assert_eq!(r.notice, Some(Notice::PromptTooLong));
    assert_eq!(r.action, Action::Generate { max_tokens: Some(4) });
    let r = c.step(Event::Generated(Outcome::ContextFull));
    assert_eq!(r.notice, Some(Notice::ReplyTooLong));
    assert_eq!(r.action, Action::EndTurn { restore: true });
    let next = Event::Line("next".to_string());
    assert!(c.expects(&next));
    let r = c.step(next);
    assert_eq!(r.action, feed("next", true));
}

#[test]
fn tokenization_failure_abandons_the_turn() {
    let mut c = Controller::new(Mode::Chat, None, Some(4));
    c.step(Event::Line("x".to_string()));
    let r = c.step(Event::Fed(Outcome::TokenizationFailed));
    assert_eq!(r.notice, Some(Notice::FeedFailed));
    assert_eq!(r.action, Action::EndTurn { restore: false });
    assert_eq!(c.current_phase(), Phase::AwaitingLine);
}

#[test]
fn end_of_input_and_interrupt_close() {
    let mut c = Controller::new(Mode::Chat, None, Some(1));
    assert_eq!(c.step(Event::EndOfInput).action, Action::Close);
    assert_eq!(c.current_phase(), Phase::Closed);
    assert!(!c.expects(&Event::Line("late".to_string())));
    let mut c = Controller::new(Mode::Completion, None, Some(1));
    assert_eq!(c.step(Event::Interrupted).action, Action::Close);
    assert_eq!(c.current_phase(), Phase::Closed);
}

#[test]
fn line_source_error_is_reported_and_reading_goes_on() {
    let mut c = Controller::new(Mode::Chat, None, Some(1));
    let r = c.step(Event::LineError("bad terminal".to_string()));
    assert_eq!(r.notice, Some(Notice::LineSource("bad terminal".to_string())));
    assert_eq!(r.action, Action::ReadLine);
    assert_eq!(c.current_phase(), Phase::AwaitingLine);
}

#[test]
fn events_out_of_phase_are_not_expected() {
    let c = Controller::new(Mode::Chat, None, Some(1));
    assert!(!c.expects(&Event::Fed(Outcome::Completed)));
    assert!(!c.expects(&Event::Generated(Outcome::Completed)));
    assert!(c.expects(&Event::EndOfInput));
    assert_eq!(c.mode_of(), Mode::Chat);
}

/// Drives the controller over `lines` against a session of token ids in
/// which feeding and generating append tokens, and returns the session at
/// the start of each turn and at the end.
fn simulate(mode: Mode, lines: &[&str], outcomes: &[(Outcome, Outcome)]) -> Vec<Vec<u32>> {
    let mut c = Controller::new(mode, None, Some(2));
    let mut session: Vec<u32> = vec![7, 7];
    let mut backup: Option<Vec<u32>> = None;
    let mut starts = Vec::new();
    for (n, line) in lines.iter().enumerate() {
        starts.push(session.clone());
        let (fed, generated) = outcomes[n];
        let mut event = Event::Line(line.to_string());
        loop {
            assert!(c.expects(&event));
            match c.step(event).action {
                Action::Feed { prompt, backup: b } => {
                    if b {
                        backup = Some(session.clone());
                    }
                    session.extend(prompt.chars().map(|ch| ch as u32));
                    event = Event::Fed(fed);
                }
                Action::Generate { max_tokens } => {
                    for t in 0..max_tokens.unwrap() {
                        session.push(100 + t as u32);
                    }
                    event = Event::Generated(generated);
                }
                Action::EndTurn { restore } => {
                    if restore {
                        session = backup.take().unwrap();
                    }
                    break;
                }
                other => panic!("unexpected action {:?}", other),
            }
        }
    }
    starts.push(session);
    starts
}

#[test]
fn completion_mode_every_turn_starts_alike() {
    let outcomes = [
        (Outcome::Completed, Outcome::Completed),
        (Outcome::ContextFull, Outcome::ContextFull),
        (Outcome::TokenizationFailed, Outcome::Completed),
    ];
    let starts = simulate(Mode::Completion, &["one", "two", "three"], &outcomes);
    for s in &starts {
        assert_eq!(s, &vec![7, 7]);
    }
}

#[test]
fn chat_mode_session_accumulates() {
    let outcomes = [
        (Outcome::Completed, Outcome::Completed),
        (Outcome::ContextFull, Outcome::ContextFull),
    ];
    let starts = simulate(Mode::Chat, &["ab", "c"], &outcomes);
    assert_eq!(starts[0], vec![7, 7]);
    assert_eq!(starts[1], vec![7, 7, 97, 98, 100, 101]);
    assert_eq!(starts[2], vec![7, 7, 97, 98, 100, 101, 99, 100, 101]);
    for w in starts.windows(2) {
        assert!(w[1].starts_with(&w[0]));
        assert!(w[1].len() > w[0].len());
    }
}
