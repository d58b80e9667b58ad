use std::collections::BTreeMap;

use confiq::engine::{watch_step, LoadProgress, WatchAction, WatchEvent, WATCH_CAPACITY, WATCH_INTERVAL_SECS};
use confiq::json::to_json;
use confiq::source::env::EnvSource;
use confiq::value::{ConfigValue, ObjectMap};
use confiq::{ConfigEngine, ConfigError};

#[derive(Debug, Clone, PartialEq)]
struct TestConfig {
    name: String,
    port: u16,
}

fn number(n: u64) -> ConfigValue {
    ConfigValue::Number(serde_json::Number::from(n))
}

fn object(pairs: Vec<(&str, ConfigValue)>) -> ConfigValue {
    let mut map = ObjectMap::new();
    for (key, value) in pairs {
        map.insert(key.to_string(), value);
    }
    ConfigValue::Object(map)
}

fn absorb_all<T>(
    engine: &ConfigEngine<&'static str, T>,
    outcomes: Vec<Result<ConfigValue, ConfigError>>,
) -> Result<LoadProgress, ConfigError> {
    let mut progress = engine.begin_load();
    for outcome in outcomes {
        assert!(engine.pending_source(&progress).is_some());
        progress = engine.absorb(progress, outcome)?;
    }
    assert!(engine.pending_source(&progress).is_none());
    Ok(progress)
}

#[test]
fn test_basic_config_loading() {
    let initial_config = TestConfig { name: "test".to_string(), port: 8080 };

    let engine: ConfigEngine<(), TestConfig> = ConfigEngine::new(initial_config);
    let config = engine.get_current();

    assert_eq!(config.name, "test");
    assert_eq!(config.port, 8080);
}

#[test]
fn a_new_engine_has_no_sources() {
    let engine: ConfigEngine<&str, u8> = ConfigEngine::new(7);
    assert_eq!(engine.source_count(), 0);
    assert_eq!(*engine.get(), 7);
    let progress = engine.begin_load();
    assert!(engine.pending_source(&progress).is_none());
    assert_eq!(progress.absorbed(), 0);
    assert_eq!(*progress.merged(), ConfigValue::Object(ObjectMap::new()));
}

#[test]
fn sources_are_asked_in_the_order_they_were_added() {
    let mut engine: ConfigEngine<&str, u8> = ConfigEngine::new(0);
    engine.add_source("first").add_source("second");
    engine.add_source("third");
    assert_eq!(engine.source_count(), 3);
    let mut progress = engine.begin_load();
    assert_eq!(engine.pending_source(&progress), Some(&"first"));
    progress = engine.absorb(progress, Ok(object(vec![("a", number(1))]))).unwrap();
    assert_eq!(engine.pending_source(&progress), Some(&"second"));
    progress = engine.absorb(progress, Ok(object(vec![("b", number(2))]))).unwrap();
    assert_eq!(engine.pending_source(&progress), Some(&"third"));
    progress = engine.absorb(progress, Ok(object(vec![("a", number(3))]))).unwrap();
    assert_eq!(engine.pending_source(&progress), None);
    assert_eq!(progress.absorbed(), 3);
    assert_eq!(*progress.merged(), object(vec![("a", number(3)), ("b", number(2))]));
}

#[test]
fn a_load_replaces_the_current_configuration() {
    let mut initial = BTreeMap::new();
    initial.insert("port".to_string(), 1u16);
    let mut engine: ConfigEngine<&str, BTreeMap<String, u16>> = ConfigEngine::new(initial);
    engine.add_source("defaults").add_source("overrides");
    let progress = absorb_all(
        &engine,
        vec![
            Ok(object(vec![("port", number(8080)), ("workers", number(4))])),
            Ok(object(vec![("port", number(9090))])),
        ],
    )
    .unwrap();
    let decoded = serde_json::from_value::<BTreeMap<String, u16>>(to_json(progress.merged()));
    assert!(engine.finish_load(progress, decoded).is_ok());
    let current = engine.get_current();
    assert_eq!(current.get("port"), Some(&9090));
    assert_eq!(current.get("workers"), Some(&4));
    assert_eq!(current.len(), 2);
    assert_eq!(engine.source_count(), 2);
}

#[test]
fn the_initial_configuration_is_not_merged_in() {
    let mut initial = BTreeMap::new();
    initial.insert("only_initial".to_string(), 1u16);
    let mut engine: ConfigEngine<&str, BTreeMap<String, u16>> = ConfigEngine::new(initial);
    engine.add_source("one");
    let progress = absorb_all(&engine, vec![Ok(object(vec![("port", number(1))]))]).unwrap();
    let decoded = serde_json::from_value::<BTreeMap<String, u16>>(to_json(progress.merged()));
    engine.finish_load(progress, decoded).unwrap();
    assert_eq!(engine.get().get("only_initial"), None);
    assert_eq!(engine.get().get("port"), Some(&1));
}

#[test]
fn a_failing_source_leaves_the_current_configuration() {
    let initial = TestConfig { name: "test".to_string(), port: 8080 };
    let mut engine: ConfigEngine<&str, TestConfig> = ConfigEngine::new(initial.clone());
    engine.add_source("good").add_source("bad").add_source("never asked");
    let outcome = absorb_all(
        &engine,
        vec![
            Ok(object(vec![("port", number(1))])),
            Err(ConfigError::SourceError("disk on fire".to_string())),
        ],
    );
    match outcome {
        Err(ConfigError::SourceError(text)) => assert_eq!(text, "disk on fire"),
        _ => panic!("the failure of the source ends the load"),
    }
    assert_eq!(engine.get_current(), initial);
    assert_eq!(engine.source_count(), 3);
}

#[test]
fn an_io_failure_of_a_source_ends_the_load() {
    let mut engine: ConfigEngine<&str, u8> = ConfigEngine::new(5);
    engine.add_source("file");
    let cause = std::io::Error::new(std::io::ErrorKind::NotFound, "no such file");
    let progress = engine.begin_load();
    match engine.absorb(progress, Err(ConfigError::from(cause))) {
        Err(ConfigError::IoError(e)) => assert_eq!(e.kind(), std::io::ErrorKind::NotFound),
        _ => panic!("the failure of the source ends the load"),
    }
    assert_eq!(engine.get_current(), 5);
}

#[test]
fn a_failed_decode_leaves_the_current_configuration() {
    let mut initial = BTreeMap::new();
    initial.insert("port".to_string(), 1u16);
    let mut engine: ConfigEngine<&str, BTreeMap<String, u16>> = ConfigEngine::new(initial.clone());
    engine.add_source("one");
    let progress =
        absorb_all(&engine, vec![Ok(object(vec![("port", ConfigValue::String("not a number".to_string()))]))])
            .unwrap();
    let decoded = serde_json::from_value::<BTreeMap<String, u16>>(to_json(progress.merged()));
    let expected = match &decoded {
        Err(e) => e.to_string(),
        Ok(_) => panic!("a text is no number"),
    };
    match engine.finish_load(progress, decoded) {
        Err(ConfigError::DeserializationError(text)) => {
            assert_eq!(text, expected);
            assert!(text.contains("invalid type"));
        }
        _ => panic!("the failure to decode is reported"),
    }
    assert_eq!(engine.get_current(), initial);
}

#[test]
fn an_environment_value_stays_a_string_and_decodes_as_one() {
    let source = EnvSource::new("APP_".to_string());
    let value = source.load_vars(&vec![("APP_PORT".to_string(), "9090".to_string())]);
    assert_eq!(value, object(vec![("port", ConfigValue::String("9090".to_string()))]));

    let mut engine: ConfigEngine<EnvSource, BTreeMap<String, String>> = ConfigEngine::new(BTreeMap::new());
    engine.add_source(source);
    let progress = engine.begin_load();
    let progress = engine.absorb(progress, Ok(value)).unwrap();
    let decoded = serde_json::from_value::<BTreeMap<String, String>>(to_json(progress.merged()));
    engine.finish_load(progress, decoded).unwrap();
    assert_eq!(engine.get().get("port"), Some(&"9090".to_string()));
}

#[test]
fn an_environment_value_does_not_decode_as_a_number() {
    let source = EnvSource::new("APP_".to_string());
    let value = source.load_vars(&vec![("APP_PORT".to_string(), "9090".to_string())]);
    let mut engine: ConfigEngine<EnvSource, BTreeMap<String, u16>> = ConfigEngine::new(BTreeMap::new());
    engine.add_source(source);
    let progress = engine.begin_load();
    let progress = engine.absorb(progress, Ok(value)).unwrap();
    let decoded = serde_json::from_value::<BTreeMap<String, u16>>(to_json(progress.merged()));
    match engine.finish_load(progress, decoded) {
        Err(ConfigError::DeserializationError(text)) => {
            assert_eq!(text, "invalid type: string \"9090\", expected u16");
        }
        _ => panic!("a string is not taken for a number"),
    }
    assert!(engine.get().is_empty());
}

#[test]
fn get_current_gives_an_independent_copy() {
    let initial = TestConfig { name: "test".to_string(), port: 8080 };
    let engine: ConfigEngine<(), TestConfig> = ConfigEngine::new(initial.clone());
    let mut copy = engine.get_current();
    copy.name.push_str(" changed");
    copy.port = 1;
    assert_eq!(*engine.get(), initial);
    assert_eq!(engine.get_current(), initial);
}

#[test]
fn a_subscription_waits_publishes_and_stops_when_dropped() {
    assert_eq!(WATCH_INTERVAL_SECS, 5);
    assert_eq!(WATCH_CAPACITY, 16);
    assert_eq!(watch_step(WatchEvent::Subscribed), WatchAction::Wait(5));
    assert_eq!(watch_step(WatchEvent::Elapsed), WatchAction::Publish);
    assert_eq!(watch_step(WatchEvent::Delivered), WatchAction::Wait(5));
    assert_eq!(watch_step(WatchEvent::Dropped), WatchAction::Stop);
}
