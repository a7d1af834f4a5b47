use vstd::prelude::*;

verus! {

/// The placeholder for user text that a prompt template holds: `{{PROMPT}}`.
pub open spec fn marker() -> Seq<char> {
    seq!['{', '{', 'P', 'R', 'O', 'M', 'P', 'T', '}', '}']
}

/// `s` with every occurrence of the non-empty `pat`, found left to right
/// without overlap, replaced by `rep`.
pub open spec fn replace_all(s: Seq<char>, pat: Seq<char>, rep: Seq<char>) -> Seq<char>
    decreases s.len(),
{
    if pat.len() == 0 || s.len() < pat.len() {
        s
    } else if s.subrange(0, pat.len() as int) == pat {
        rep + replace_all(s.subrange(pat.len() as int, s.len() as int), pat, rep)
    } else {
        seq![s[0]] + replace_all(s.subrange(1, s.len() as int), pat, rep)
    }
}

/// A shorter text than the pattern holds no occurrence of it.
proof fn lemma_replace_short(s: Seq<char>, pat: Seq<char>, rep: Seq<char>)
    requires
        s.len() < pat.len(),
    ensures
        replace_all(s, pat, rep) == s,
{
}

/// Unfolds `replace_all` at position `i` of `s`.
proof fn lemma_replace_step(s: Seq<char>, i: int, pat: Seq<char>, rep: Seq<char>)
    requires
        pat.len() > 0,
        0 <= i,
        i + pat.len() <= s.len(),
    ensures
        s.subrange(i, i + pat.len()) == pat ==> replace_all(s.subrange(i, s.len() as int), pat, rep)
            == rep + replace_all(s.subrange(i + pat.len(), s.len() as int), pat, rep),
        s.subrange(i, i + pat.len()) != pat ==> replace_all(s.subrange(i, s.len() as int), pat, rep)
            == seq![s[i]] + replace_all(s.subrange(i + 1, s.len() as int), pat, rep),
{
    let t = s.subrange(i, s.len() as int);
    assert(t.subrange(0, pat.len() as int) =~= s.subrange(i, i + pat.len()));
    assert(t.subrange(pat.len() as int, t.len() as int) =~= s.subrange(i + pat.len(), s.len() as int));
    assert(t.subrange(1, t.len() as int) =~= s.subrange(i + 1, s.len() as int));
    assert(t[0] == s[i]);
}

/// The characters of `s`, one per element.
fn chars_of(s: &str) -> (r: Vec<char>)
    ensures
        r@ == s@,
{
    let n = s.unicode_len();
    let mut r: Vec<char> = Vec::new();
    let mut i: usize = 0;
    while i < n
        invariant
            n == s@.len(),
            i <= n,
            r@ == s@.subrange(0, i as int),
        decreases n - i,
    {
        r.push(s.get_char(i));
        i = i + 1;
        assert(r@ =~= s@.subrange(0, i as int));
    }
    assert(r@ =~= s@);
    r
}

/// Whether `pat` occurs in `s` at position `i`.
fn occurs_at(s: &Vec<char>, i: usize, pat: &Vec<char>) -> (r: bool)
    requires
        i + pat@.len() <= s@.len(),
    ensures
        r == (s@.subrange(i as int, i + pat@.len()) == pat@),
{
    let sl = s.len();
    let mut j: usize = 0;
    while j < pat.len()
        invariant
            sl == s@.len(),
            i + pat@.len() <= s@.len(),
            j <= pat@.len(),
            forall|k: int| 0 <= k < j ==> s@[i + k] == pat@[k],
        decreases pat@.len() - j,
    {
        if s[i + j] != pat[j] {
            assert(s@.subrange(i as int, i + pat@.len())[j as int] != pat@[j as int]);
            return false;
        }
        j = j + 1;
    }
    assert(s@.subrange(i as int, i + pat@.len()) =~= pat@);
    true
}

/// `s` with every occurrence of the non-empty `pat` replaced by `rep`.
fn replace(s: &str, pat: &str, rep: &str) -> (r: String)
    requires
        pat@.len() > 0,
    ensures
        r@ == replace_all(s@, pat@, rep@),
{
    let sv = chars_of(s);
    let pv = chars_of(pat);
    let n = sv.len();
    let plen = pv.len();
    let mut out = String::new();
    let mut seg: usize = 0;
    let mut i: usize = 0;
    assert(s@.subrange(0, n as int) =~= s@);
    assert(out@ + s@.subrange(0, 0) =~= Seq::<char>::empty());
    while i < n && plen <= n - i
        invariant
            sv@ == s@,
            pv@ == pat@,
            n == s@.len(),
            plen == pat@.len(),
            plen > 0,
            seg <= i <= n,
            replace_all(s@, pat@, rep@) == out@ + s@.subrange(seg as int, i as int) + replace_all(
                s@.subrange(i as int, n as int),
                pat@,
                rep@,
            ),
        decreases n - i,
    {
        proof {
            lemma_replace_step(s@, i as int, pat@, rep@);
        }
        if occurs_at(&sv, i, &pv) {
            out.append(s.substring_char(seg, i));
            out.append(rep);
            i = i + plen;
            seg = i;
            assert(s@.subrange(seg as int, i as int) =~= Seq::<char>::empty());
        } else {
            let ghost prev = s@.subrange(seg as int, i as int);
            i = i + 1;
            assert(s@.subrange(seg as int, i as int) =~= prev + seq![s@[i - 1]]);
        }
    }
    proof {
        if i < n {
            lemma_replace_short(s@.subrange(i as int, n as int), pat@, rep@);
        } else {
            assert(s@.subrange(i as int, n as int) =~= Seq::<char>::empty());
        }
        assert(s@.subrange(seg as int, i as int) + s@.subrange(i as int, n as int) =~= s@.subrange(
            seg as int,
            n as int,
        ));
    }
    out.append(s.substring_char(seg, n));
    out
}

/// Fills a prompt template: every `{{PROMPT}}` in `raw_prompt` becomes `prompt`.
/// The substitution is literal: no escaping, and the inserted text is not
/// searched again.
pub fn process_prompt(raw_prompt: &str, prompt: &str) -> (r: String)
    ensures
        r@ == replace_all(raw_prompt@, marker(), prompt@),
{
    let pat = "{{PROMPT}}";
    proof {
        reveal_strlit("{{PROMPT}}");
        assert(pat@ =~= marker());
    }
    replace(raw_prompt, pat, prompt)
}

/// Why no prompt text could be resolved.
#[derive(Clone, Copy, Debug, PartialEq, Eq, Structural)]
pub enum PromptError {
    /// Neither a prompt template nor a literal prompt was given.
    NoPrompt,
}

impl PromptError {
    /// The message shown to the user for this error.
    pub fn message(&self) -> (r: &'static str) {
        match self {
            PromptError::NoPrompt => "No prompt or prompt file was provided. See --help",
        }
    }
}

/// The text to feed for an optional template and an optional literal prompt:
/// the template filled with the prompt, the template alone, the prompt alone,
/// or nothing when neither is given.
pub open spec fn resolved(
    template: Option<Seq<char>>,
    prompt: Option<Seq<char>>,
) -> Option<Seq<char>> {
    match (template, prompt) {
        (Some(t), Some(p)) => Some(replace_all(t, marker(), p)),
        (Some(t), None) => Some(t),
        (None, Some(p)) => Some(p),
        (None, None) => None,
    }
}

/// The view of an optional string.
pub open spec fn opt_view(s: Option<&str>) -> Option<Seq<char>> {
    match s {
        Some(x) => Some(x@),
        None => None,
    }
}

/// Resolves the prompt to feed from the contents of a prompt file (a template
/// that may hold `{{PROMPT}}`) and a literal prompt. Having neither is a
/// configuration error.
pub fn load_prompt_file_with_prompt(prompt_file: Option<&str>, prompt: Option<&str>) -> (r: Result<
    String,
    PromptError,
>)
    ensures
        resolved(opt_view(prompt_file), opt_view(prompt)) matches Some(text) ==> r matches Ok(s)
            && s@ == text,
        resolved(opt_view(prompt_file), opt_view(prompt)) is None ==> r == Err::<
            String,
            PromptError,
        >(PromptError::NoPrompt),
{
    match prompt_file {
        Some(template) => match prompt {
            Some(p) => Ok(process_prompt(template, p)),
            None => Ok(template.to_owned()),
        },
        None => match prompt {
            Some(p) => Ok(p.to_owned()),
            None => Err(PromptError::NoPrompt),
        },
    }
}

} // verus!
