use llm_chain_azure::google_search::{GoogleSearch, GoogleSearchError, GoogleSearchInput, GoogleSearchOutput};

#[test]
fn no_snippets_is_no_results() {
    let r = GoogleSearch::answer_from_snippets(&vec![]);
    assert!(matches!(r, Err(GoogleSearchError::NoResults)));
}

#[test]
fn first_snippet_answers() {
    let r = GoogleSearch::answer_from_snippets(&vec!["first".to_string(), "second".to_string()]);
    assert_eq!(r.unwrap().into_string(), "first");
}

#[test]
fn tool_keeps_credentials() {
    let g = GoogleSearch::new("key".to_string(), "engine".to_string());
    assert_eq!(g.api_key(), "key");
    assert_eq!(g.cse_id(), "engine");
}

#[test]
fn inputs_and_outputs_convert() {
    assert_eq!(GoogleSearchInput::from("rust").query, "rust");
    assert_eq!(GoogleSearchInput::from("verus".to_string()).query, "verus");
    assert_eq!(GoogleSearchOutput::from("answer".to_string()).result, "answer");
}

#[test]
fn tool_description() {
    let d = GoogleSearch::new(String::new(), String::new()).description();
    assert_eq!(d.name, "Google search");
    assert_eq!(d.description_context, "Use this to get information about current events.");
    assert_eq!(d.input_format.len(), 1);
    assert_eq!(d.input_format[0].key, "query");
    assert_eq!(d.output_format[0].key, "result");
    assert_eq!(
        d.output_format[0].purpose,
        "Information retrieved from the internet that should answer your query"
    );
}
