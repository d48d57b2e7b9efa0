use socialnetwork::topics::{
    backend_setup_topics, consumed_topics, consumer_setup_topics, ensure_topic_exists, get_backend,
    get_db, get_topic, identity_setup_topics, ConsumerCursor, POLL_INTERVAL_SECS,
};

#[test]
fn existing_topic_is_not_created() {
    let existing = vec!["posts".to_string(), "identity".to_string()];
    assert!(ensure_topic_exists(&existing, "identity").is_none());
    assert!(ensure_topic_exists(&existing, "posts").is_none());
}

#[test]
fn missing_topic_is_created_with_two_partitions() {
    let t = ensure_topic_exists(&vec!["posts".to_string()], "game").unwrap();
    assert_eq!(t.name, "game");
    assert_eq!((t.partitions, t.replication_factor, t.timeout_ms), (2, 1, 5000));
    assert!(ensure_topic_exists(&vec![], "game").is_some());
    assert!(ensure_topic_exists(&vec!["Game".to_string()], "game").is_some());
}

#[test]
fn topic_lists() {
    assert_eq!(consumed_topics(), vec!["identity", "pageview", "posts", "follow", "game"]);
    assert_eq!(consumer_setup_topics(), vec!["identity", "pageview", "posts", "game"]);
    assert_eq!(backend_setup_topics(), vec!["identity", "pageview", "posts", "follow"]);
    assert_eq!(identity_setup_topics(), vec!["identity", "pageview"]);
}

#[test]
fn addresses_fall_back_to_local_defaults() {
    assert_eq!(get_db(None), "127.0.0.1:9042");
    assert_eq!(get_db(Some("db:9042".to_string())), "db:9042");
    assert_eq!(get_topic(None), "127.0.0.1:19092");
    assert_eq!(get_topic(Some("broker:9092".to_string())), "broker:9092");
    assert_eq!(get_backend(None), "127.0.0.1:3001");
    assert_eq!(get_backend(Some("backend:3001".to_string())), "backend:3001");
}

#[test]
fn cursor_follows_the_high_watermark() {
    let mut c = ConsumerCursor::new("posts".to_string());
    assert_eq!(c.offset, 0);
    let f = c.fetch_request();
    assert_eq!((f.topic.as_str(), f.partition, f.offset), ("posts", 0, 0));
    assert_eq!((f.min_bytes, f.max_bytes, f.max_wait_ms), (1, 1_000_000_000, 1000));
    c.advance(17);
    assert_eq!(c.offset, 17);
    assert_eq!(c.fetch_request().offset, 17);
    assert_eq!(c.topic, "posts");
    assert_eq!(POLL_INTERVAL_SECS, 5);
}
