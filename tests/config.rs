use kafka_consumer::{ConfigError, RunConfig, DEFAULT_BROKERS, DEFAULT_GROUP_ID};
use rdkafka::config::RDKafkaLogLevel;

fn strings(items: &[&str]) -> Vec<String> {
    items.iter().map(|s| s.to_string()).collect()
}

#[test]
fn missing_topics_are_refused() {
    let r = RunConfig::new(DEFAULT_BROKERS.to_string(), DEFAULT_GROUP_ID.to_string(), Vec::new());
    assert!(matches!(r, Err(ConfigError::NoTopics)));
}

#[test]
fn two_brokers_group_and_two_topics() {
    let cfg = RunConfig::new(
        "broker1:9092,broker2:9092".to_string(),
        "g1".to_string(),
        strings(&["t1", "t2"]),
    )
    .unwrap();
    assert_eq!(cfg.broker_list(), strings(&["broker1:9092", "broker2:9092"]));
    assert_eq!(cfg.group_id(), "g1");
    assert_eq!(cfg.topics(), &strings(&["t1", "t2"])[..]);
    let client = cfg.client_config();
    assert_eq!(client.get("bootstrap.servers"), Some("broker1:9092,broker2:9092"));
    assert_eq!(client.get("group.id"), Some("g1"));
}

#[test]
fn client_settings_are_fixed() {
    let cfg = RunConfig::new(DEFAULT_BROKERS.to_string(), DEFAULT_GROUP_ID.to_string(), strings(&["t"])).unwrap();
    let client = cfg.client_config();
    assert_eq!(client.get("bootstrap.servers"), Some("localhost:9092"));
    assert_eq!(client.get("group.id"), Some("kafka-console-consumer"));
    assert_eq!(client.get("enable.partition.eof"), Some("false"));
    assert_eq!(client.get("session.timeout.ms"), Some("6000"));
    assert_eq!(client.get("enable.auto.commit"), Some("true"));
    assert_eq!(client.get("auto.offset.reset"), Some("latest"));
    assert_eq!(client.config_map().len(), 6);
    assert!(matches!(client.log_level, RDKafkaLogLevel::Debug));
}

#[test]
fn brokers_are_kept_as_given() {
    let cfg = RunConfig::new("a:1,b:2".to_string(), "g".to_string(), strings(&["t"])).unwrap();
    assert_eq!(cfg.brokers(), "a:1,b:2");
}

#[test]
fn single_broker_is_one_piece() {
    let cfg = RunConfig::new("localhost:9092".to_string(), "g".to_string(), strings(&["t"])).unwrap();
    assert_eq!(cfg.broker_list(), strings(&["localhost:9092"]));
}

#[test]
fn empty_broker_list_is_one_empty_piece() {
    let cfg = RunConfig::new(String::new(), "g".to_string(), strings(&["t"])).unwrap();
    assert_eq!(cfg.broker_list(), strings(&[""]));
}

#[test]
fn commas_at_the_ends_give_empty_pieces() {
    let cfg = RunConfig::new(",h:1,,é:2,".to_string(), "g".to_string(), strings(&["t"])).unwrap();
    assert_eq!(cfg.broker_list(), strings(&["", "h:1", "", "é:2", ""]));
}
