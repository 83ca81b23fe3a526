use llm_chain_azure::accounting::{num_tokens_from_messages, ChatMessage, PromptTokensError, Role};
use llm_chain_azure::executor::{Executor, TokenCount};
use llm_chain_azure::options::{Opt, Options};
use llm_chain_azure::tokenizer::{Encoder, Family, OpenAITokenizer, TokenizerError};

fn cl100k_len(text: &str) -> usize {
    Encoder::for_family(Family::Cl100kBase).unwrap().encode_with_special_tokens(text).len()
}

fn user(text: &str) -> ChatMessage {
    ChatMessage::new(Role::User, Some(text.to_string()), None)
}

#[test]
fn turbo_single_user_message() {
    let n = num_tokens_from_messages("gpt-3.5-turbo", &vec![user("hi")]).unwrap();
    assert_eq!(n, 4 + cl100k_len("user") + cl100k_len("hi") + 3);
    assert_eq!(n, 9);
}

#[test]
fn other_family_single_user_message() {
    let n = num_tokens_from_messages("gpt-4", &vec![user("hi")]).unwrap();
    assert_eq!(n, 8);
}

#[test]
fn empty_chat_costs_reply_priming() {
    assert_eq!(num_tokens_from_messages("gpt-4", &vec![]).unwrap(), 3);
}

#[test]
fn missing_content_counts_as_empty() {
    let m = ChatMessage::new(Role::Assistant, None, None);
    let n = num_tokens_from_messages("gpt-4", &vec![m]).unwrap();
    assert_eq!(n, 3 + cl100k_len("assistant") + 3);
}

#[test]
fn turbo_name_subtracts_one() {
    let bare = num_tokens_from_messages("gpt-3.5-turbo", &vec![user("hi")]).unwrap();
    let named = ChatMessage::new(Role::User, Some("hi".to_string()), Some("bob".to_string()));
    let n = num_tokens_from_messages("gpt-3.5-turbo", &vec![named]).unwrap();
    assert_eq!(n, bare + cl100k_len("bob") - 1);
    let empty_name = ChatMessage::new(Role::User, Some("hi".to_string()), Some(String::new()));
    let d = num_tokens_from_messages("gpt-3.5-turbo", &vec![empty_name]).unwrap();
    assert_eq!(d, bare - 1);
}

#[test]
fn other_family_name_adds_one() {
    let bare = num_tokens_from_messages("gpt-4", &vec![user("hi")]).unwrap();
    let named = ChatMessage::new(Role::User, Some("hi".to_string()), Some("bob".to_string()));
    let n = num_tokens_from_messages("gpt-4", &vec![named]).unwrap();
    assert_eq!(n, bare + cl100k_len("bob") + 1);
}

#[test]
fn every_role_is_counted() {
    let msgs = vec![
        ChatMessage::new(Role::System, Some("be brief".to_string()), None),
        user("hello there"),
        ChatMessage::new(Role::Assistant, Some("hi".to_string()), None),
        ChatMessage::new(Role::Tool, Some("42".to_string()), None),
        ChatMessage::new(Role::Function, Some("{}".to_string()), None),
    ];
    let mut expected = 3;
    for m in &msgs {
        expected += 3 + cl100k_len(m.role.as_str()) + cl100k_len(m.content.as_ref().unwrap());
    }
    assert_eq!(num_tokens_from_messages("gpt-4-0613", &msgs).unwrap(), expected);
}

#[test]
fn unknown_model_is_not_available() {
    let r = num_tokens_from_messages("unknown-model-xyz", &vec![user("hi")]);
    assert_eq!(r, Err(PromptTokensError::NotAvailable));
}

#[test]
fn other_encoding_is_not_available() {
    let r = num_tokens_from_messages("text-davinci-003", &vec![user("hi")]);
    assert_eq!(r, Err(PromptTokensError::NotAvailable));
}

#[test]
fn unknown_model_context_is_default() {
    let exec = Executor::new_with_options(Options::empty());
    let call = Options::from_vec(vec![Opt::Model("unknown-model-xyz".to_string())]);
    assert_eq!(exec.max_tokens_allowed(&call), 4096);
}

#[test]
fn known_model_context_sizes() {
    let exec = Executor::new_with_options(Options::empty());
    assert_eq!(exec.max_tokens_allowed(&Options::empty()), 16385);
    let call = Options::from_vec(vec![Opt::Model("gpt-4".to_string())]);
    assert_eq!(exec.max_tokens_allowed(&call), 8192);
}

#[test]
fn budget_of_a_prompt() {
    let exec = Executor::new_with_options(Options::from_vec(vec![Opt::Model("gpt-4".to_string())]));
    let t = exec.tokens_used(&Options::empty(), &vec![user("hi")]).unwrap();
    assert_eq!(t, TokenCount::new(8192, 8));
    assert_eq!(t.tokens_remaining(), 8184);
    assert!(t.has_tokens_remaining());
    let call = Options::from_vec(vec![Opt::Model("unknown-model-xyz".to_string())]);
    assert_eq!(exec.tokens_used(&call, &vec![user("hi")]), Err(PromptTokensError::NotAvailable));
}

#[test]
fn round_trip_every_family() {
    let text = "Hello, world! The quick brown fox jumps over 13 lazy dogs.";
    for model in ["gpt-4", "gpt-4o", "text-davinci-003", "gpt2", "text-davinci-edit-001"] {
        let t = OpenAITokenizer::for_model_name(model.to_string());
        let tokens = t.tokenize_str(text).unwrap();
        assert!(tokens.len() > 0);
        assert!(tokens.len() < text.len());
        assert_eq!(t.to_string(tokens).unwrap(), text);
    }
}

#[test]
fn tokenize_known_ids() {
    let t = OpenAITokenizer::for_model_name("gpt-4".to_string());
    let tokens = t.tokenize_str("hello").unwrap();
    assert_eq!(tokens.as_usize(), &vec![15339]);
    assert_eq!(tokens.family(), Family::Cl100kBase);
}

#[test]
fn unknown_model_cannot_tokenize() {
    let t = OpenAITokenizer::for_model_name("unknown-model-xyz".to_string());
    assert_eq!(t.tokenize_str("hi").err(), Some(TokenizerError::TokenizationError));
}

#[test]
fn tokens_of_another_encoding_are_refused() {
    let gpt4 = OpenAITokenizer::for_model_name("gpt-4".to_string());
    let davinci = OpenAITokenizer::for_model_name("text-davinci-003".to_string());
    let tokens = davinci.tokenize_str("hello").unwrap();
    assert_eq!(gpt4.to_string(tokens).err(), Some(TokenizerError::ToStringError));
}

#[test]
fn executor_tokenizer_follows_options() {
    let exec = Executor::new_with_options(Options::empty());
    let call = Options::from_vec(vec![Opt::Model("gpt-4".to_string())]);
    assert_eq!(exec.get_tokenizer(&call).model_name(), "gpt-4");
    assert_eq!(exec.get_tokenizer(&Options::empty()).model_name(), "gpt-3.5-turbo");
}

#[test]
fn missing_content_equals_empty_content() {
    let none = ChatMessage::new(Role::System, None, None);
    let empty = ChatMessage::new(Role::System, Some(String::new()), None);
    assert_eq!(
        num_tokens_from_messages("gpt-4", &vec![none]),
        num_tokens_from_messages("gpt-4", &vec![empty])
    );
}

#[test]
fn turbo_costs_one_more_per_message() {
    let msgs = || vec![user("hi"), user("how are you?"), ChatMessage::new(Role::Assistant, Some("fine".to_string()), None)];
    let other = num_tokens_from_messages("gpt-4", &msgs()).unwrap();
    let turbo = num_tokens_from_messages("gpt-3.5-turbo", &msgs()).unwrap();
    assert_eq!(turbo, other + 3);
}

#[test]
fn costs_add_over_concatenation() {
    let a = num_tokens_from_messages("gpt-4", &vec![user("one")]).unwrap();
    let b = num_tokens_from_messages("gpt-4", &vec![user("two"), user("three")]).unwrap();
    let ab = num_tokens_from_messages("gpt-4", &vec![user("one"), user("two"), user("three")]).unwrap();
    assert_eq!(ab, a + b - 3);
}
