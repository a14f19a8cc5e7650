use zamm::api_keys::{setup_api_keys, ApiKey, ApiKeys, Source};

#[test]
fn test_get_empty_api_keys() {
    let api_keys = setup_api_keys(None::<String>);
    assert!(api_keys.openai.is_none());
}

#[test]
fn test_get_present_api_keys() {
    let api_keys = setup_api_keys(Some("dummy".to_string()));
    assert_eq!(
        api_keys.openai,
        Some(ApiKey {
            value: "dummy".to_string(),
            source: Source::Environment,
        })
    );
}

#[test]
fn default_api_keys_are_empty() {
    assert_eq!(ApiKeys::default(), ApiKeys { openai: None });
}

#[test]
fn empty_key_is_still_a_key() {
    let api_keys = setup_api_keys(Some(String::new()));
    assert_eq!(
        api_keys,
        ApiKeys { openai: Some(ApiKey { value: String::new(), source: Source::Environment }) }
    );
}

#[test]
fn keys_are_the_same_each_time() {
    let first = setup_api_keys(Some("sk-0123".to_string()));
    let second = setup_api_keys(Some("sk-0123".to_string()));
    assert_eq!(first, second);
    assert_eq!(setup_api_keys(None), setup_api_keys(None));
}
