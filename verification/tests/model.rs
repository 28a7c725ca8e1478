use chatbot_core::channel::token_channel;
use chatbot_core::config::GuiPrompt;
use chatbot_core::model::build_prompt;
use chatbot_core::model::strip_mentions;
use chatbot_core::model::GenerationError;
use chatbot_core::model::Request;
use chatbot_core::model::Token;

const SYSTEM_PREAMBLE: &str = "### System:\nYou are Stable Beluga, an AI that follows instructions extremely well. Help as much as you can. Remember, be safe, and don't do anything illegal.\n\n";

#[test]
fn custom_error_carries_its_message() {
    let e = GenerationError::custom("transport failed");
    assert_eq!(e, GenerationError::Custom("transport failed".to_string()));
    assert_eq!(e.message(), "transport failed");
}

#[test]
fn cancelled_error_message() {
    assert_eq!(GenerationError::Cancelled.message(), "The generation was cancelled.");
}

#[test]
fn tokens_compare_by_contents() {
    assert_eq!(Token::Token("a".to_string()), Token::Token("a".to_string()));
    assert_ne!(Token::Token("a".to_string()), Token::Token("b".to_string()));
    assert_eq!(
        Token::Error(GenerationError::Cancelled),
        Token::Error(GenerationError::Cancelled)
    );
}

#[test]
fn prompt_wraps_content_in_template() {
    let p = build_prompt("hi");
    assert_eq!(p, format!("{}### User: hi\n\n### Assistant:\n", SYSTEM_PREAMBLE));
}

#[test]
fn mentions_are_stripped_everywhere() {
    let cleaned = strip_mentions("<@42> hello <@42> and <@7>!", &vec![42, 7]);
    assert_eq!(cleaned, " hello  and !");
}

#[test]
fn stripping_no_mentions_changes_nothing() {
    assert_eq!(strip_mentions("hello", &vec![]), "hello");
}

#[test]
fn request_from_message_builds_the_full_prompt() {
    let (tx, _rx) = token_channel();
    let req = Request::from_message(5, "<@9> hi", &vec![9], tx);
    assert_eq!(req.prompt, format!("{}### User:  hi\n\n### Assistant:\n", SYSTEM_PREAMBLE));
}

#[test]
fn default_gui_prompt_uses_the_stock_template() {
    let p = GuiPrompt::default();
    assert_eq!(p.system_prompt, "");
    assert_eq!(p.prompt_template, "SYSTEM: {SYSTEM}\n\nUSER: {USER}\n\nASSISTANT:");
    assert_eq!(GuiPrompt::default_id(), 0);
}
