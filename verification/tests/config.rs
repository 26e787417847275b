use mention_relay::config::BotConfig;

#[test]
fn default_greeting_names_the_model() {
    let config = BotConfig::new("gpt-4o-mini".to_string(), None).unwrap();
    assert_eq!(
        config.greeting_message(),
        "Hello! I'm an AI assistant bot using gpt-4o-mini. Mention me (@bot_username) in a message to talk to me."
    );
    assert_eq!(config.llm_model_name(), "gpt-4o-mini");
}

#[test]
fn given_greeting_replaces_the_default() {
    let config = BotConfig::new("gpt-4o-mini".to_string(), Some("Welcome!".to_string())).unwrap();
    assert_eq!(config.greeting_message(), "Welcome!");
    assert_eq!(config.llm_model_name(), "gpt-4o-mini");
}

#[test]
fn given_greeting_may_be_empty() {
    let config = BotConfig::new("m".to_string(), Some(String::new())).unwrap();
    assert_eq!(config.greeting_message(), "");
}

#[test]
fn empty_model_is_turned_down() {
    assert_eq!(BotConfig::new(String::new(), None), None);
    assert_eq!(BotConfig::new(String::new(), Some("Welcome!".to_string())), None);
}

#[test]
fn cloned_config_equals_its_source() {
    let config = BotConfig::new("m".to_string(), None).unwrap();
    assert_eq!(config.clone(), config);
}

fn shared_between_handlers<T: Send + Sync + 'static>(_: &T) {}

#[test]
fn config_can_be_shared_between_handlers() {
    let config = BotConfig::new("m".to_string(), None).unwrap();
    shared_between_handlers(&config);
}
