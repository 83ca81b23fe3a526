use llm_chain_azure::executor::Executor;
use llm_chain_azure::options::{Opt, OptDiscriminants, Options, OptionsCascade};

fn model_of(o: Option<&Opt>) -> Option<String> {
    match o {
        Some(Opt::Model(m)) => Some(m.clone()),
        _ => None,
    }
}

#[test]
fn higher_layer_wins() {
    let low = Options::from_vec(vec![Opt::Model("gpt-4".to_string())]);
    let high = Options::from_vec(vec![Opt::Model("gpt-3.5-turbo".to_string())]);
    let c = OptionsCascade::from_vec(vec![&low, &high]);
    assert_eq!(model_of(c.get(OptDiscriminants::Model)), Some("gpt-3.5-turbo".to_string()));
}

#[test]
fn lower_layer_used_when_higher_is_silent() {
    let low = Options::from_vec(vec![Opt::Model("gpt-4".to_string())]);
    let high = Options::from_vec(vec![Opt::ApiKey("k".to_string())]);
    let c = OptionsCascade::new().with_options(&low).with_options(&high);
    assert_eq!(model_of(c.get(OptDiscriminants::Model)), Some("gpt-4".to_string()));
}

#[test]
fn unset_key_is_undefined() {
    let low = Options::from_vec(vec![Opt::ApiKey("k".to_string())]);
    let high = Options::empty();
    let c = OptionsCascade::from_vec(vec![&low, &high]);
    assert!(c.get(OptDiscriminants::Model).is_none());
    assert!(OptionsCascade::new().get(OptDiscriminants::Stream).is_none());
}

#[test]
fn first_value_in_a_layer_wins() {
    let mut layer = Options::empty();
    layer.add_option(Opt::Model("a".to_string()));
    layer.add_option(Opt::Model("b".to_string()));
    assert_eq!(model_of(layer.get(OptDiscriminants::Model)), Some("a".to_string()));
}

#[test]
fn streaming_flag_follows_cascade() {
    let low = Options::from_vec(vec![Opt::Stream(true)]);
    let high = Options::from_vec(vec![Opt::Stream(false)]);
    assert!(!OptionsCascade::from_vec(vec![&low, &high]).is_streaming());
    assert!(OptionsCascade::from_vec(vec![&high, &low]).is_streaming());
    assert!(!OptionsCascade::new().is_streaming());
}

#[test]
fn plan_uses_call_overrides() {
    let exec = Executor::new_with_options(Options::from_vec(vec![
        Opt::Model("gpt-4".to_string()),
        Opt::Stream(true),
    ]));
    let call = Options::from_vec(vec![Opt::Model("gpt-3.5-turbo-16k".to_string())]);
    let plan = exec.plan_request(&call);
    assert_eq!(plan.model, "gpt-3.5-turbo-16k");
    assert!(plan.stream);
    let plain = Executor::new_with_options(Options::empty()).plan_request(&Options::empty());
    assert_eq!(plain.model, "gpt-3.5-turbo");
    assert!(!plain.stream);
}

#[test]
fn settings_come_from_executor_options() {
    let exec = Executor::new_with_options(Options::from_vec(vec![
        Opt::ApiKey("key".to_string()),
        Opt::AzureDeployment("dep".to_string()),
        Opt::AzureBaseUrl("https://example.test".to_string()),
    ]));
    let s = exec.azure_settings();
    assert_eq!(s.api_key, Some("key".to_string()));
    assert_eq!(s.deployment, Some("dep".to_string()));
    assert_eq!(s.base_url, Some("https://example.test".to_string()));
    assert_eq!(s.api_version, None);
    assert!(exec.answer_prefix().is_none());
}
