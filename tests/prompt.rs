use llm_cli::prompt::{load_prompt_file_with_prompt, process_prompt, PromptError};

#[test]
fn template_filled_with_input() {
    assert_eq!(process_prompt("Q: {{PROMPT}} A:", "2+2?"), "Q: 2+2? A:");
    assert_eq!(
        load_prompt_file_with_prompt(Some("Q: {{PROMPT}} A:"), Some("2+2?")),
        Ok("Q: 2+2? A:".to_string())
    );
}

#[test]
fn literal_prompt_alone_is_verbatim() {
    assert_eq!(load_prompt_file_with_prompt(None, Some("hi")), Ok("hi".to_string()));
}

#[test]
fn template_alone_is_verbatim() {
    assert_eq!(
        load_prompt_file_with_prompt(Some("Tell me {{PROMPT}}"), None),
        Ok("Tell me {{PROMPT}}".to_string())
    );
}

#[test]
fn neither_template_nor_prompt_is_an_error() {
    let r = load_prompt_file_with_prompt(None, None);
    assert_eq!(r, Err(PromptError::NoPrompt));
    assert_eq!(
        PromptError::NoPrompt.message(),
        "No prompt or prompt file was provided. See --help"
    );
}

#[test]
fn every_marker_is_replaced() {
    assert_eq!(process_prompt("{{PROMPT}}-{{PROMPT}}", "x"), "x-x");
    assert_eq!(process_prompt("{{PROMPT}}{{PROMPT}}", "ab"), "abab");
}

#[test]
fn inserted_text_is_not_expanded_again() {
    assert_eq!(process_prompt("<{{PROMPT}}>", "{{PROMPT}}"), "<{{PROMPT}}>");
    assert_eq!(process_prompt("{{{PROMPT}}}", "1"), "{1}");
}

#[test]
fn text_without_marker_is_unchanged() {
    assert_eq!(process_prompt("no marker {{PROMPT here", "z"), "no marker {{PROMPT here");
    assert_eq!(process_prompt("", "z"), "");
    assert_eq!(process_prompt("{{PROMPT}}", ""), "");
}

#[test]
fn non_ascii_text_is_kept() {
    assert_eq!(process_prompt("é {{PROMPT}} ü", "ß"), "é ß ü");
}
