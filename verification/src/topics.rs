//! Broker and database set-up: which topics each service makes sure exist,
//! when a topic is created and how, where the services connect, and how a
//! topic consumer moves through its topic.
use vstd::prelude::*;
use vstd::string::*;

verus! {

/// How a missing topic is created: its name, 2 partitions, replication
/// factor 1, and a 5-second timeout for the request.
pub struct TopicSpec {
    pub name: String,
    pub partitions: i32,
    pub replication_factor: i16,
    pub timeout_ms: i32,
}

/// The names of a list of strings.
pub open spec fn names_view(names: Seq<String>) -> Seq<Seq<char>> {
    names.map_values(|s: String| s@)
}

/// Whether the topic `name` has to be created, given the topics the broker
/// lists: exactly when none of them is named `name`; if so, how.
pub fn ensure_topic_exists(existing: &Vec<String>, topic_name: &str) -> (r: Option<TopicSpec>)
    ensures
        r is None <==> names_view(existing@).contains(topic_name@),
        r matches Some(t) ==> {
            &&& t.name@ == topic_name@
            &&& t.partitions == 2
            &&& t.replication_factor == 1
            &&& t.timeout_ms == 5000
        },
{
    let wanted = String::from_str(topic_name);
    let mut i: usize = 0;
    while i < existing.len()
        invariant
            0 <= i <= existing.len(),
            wanted@ == topic_name@,
            forall|j: int| 0 <= j < i ==> existing@[j]@ != topic_name@,
        decreases existing.len() - i,
    {
        if existing[i] == wanted {
            assert(names_view(existing@)[i as int] == topic_name@);
            return None;
        }
        i = i + 1;
    }
    assert(!names_view(existing@).contains(topic_name@));
    Some(TopicSpec { name: wanted, partitions: 2, replication_factor: 1, timeout_ms: 5000 })
}

fn topic_list(names: &[&str]) -> (r: Vec<String>)
    ensures
        names_view(r@) == names@.map_values(|s: &str| s@),
{
    let mut r: Vec<String> = Vec::new();
    let mut i: usize = 0;
    while i < names.len()
        invariant
            0 <= i <= names.len(),
            names_view(r@) == names@.take(i as int).map_values(|s: &str| s@),
        decreases names.len() - i,
    {
        let ghost before = r@;
        let s = String::from_str(names[i]);
        r.push(s);
        assert(names_view(r@) =~= names_view(before).push(names@[i as int]@));
        assert(names@.take(i + 1).map_values(|s: &str| s@) =~= names@.take(i as int).map_values(
            |s: &str| s@,
        ).push(names@[i as int]@));
        i = i + 1;
    }
    assert(names@.take(names.len() as int) =~= names@);
    r
}

/// The topics the consumer reads, one reader each.
pub open spec fn consumed_topics_spec() -> Seq<Seq<char>> {
    seq!["identity"@, "pageview"@, "posts"@, "follow"@, "game"@]
}

/// The topics the consumer reads, one reader each.
pub fn consumed_topics() -> (r: Vec<String>)
    ensures
        names_view(r@) == consumed_topics_spec(),
{
    let r = topic_list(&["identity", "pageview", "posts", "follow", "game"]);
    assert(names_view(r@) =~= consumed_topics_spec());
    r
}

/// The topics the consumer makes sure exist when it starts.
pub fn consumer_setup_topics() -> (r: Vec<String>)
    ensures
        names_view(r@) == seq!["identity"@, "pageview"@, "posts"@, "game"@],
{
    let r = topic_list(&["identity", "pageview", "posts", "game"]);
    assert(names_view(r@) =~= seq!["identity"@, "pageview"@, "posts"@, "game"@]);
    r
}

/// The topics the back end makes sure exist when it starts.
pub fn backend_setup_topics() -> (r: Vec<String>)
    ensures
        names_view(r@) == seq!["identity"@, "pageview"@, "posts"@, "follow"@],
{
    let r = topic_list(&["identity", "pageview", "posts", "follow"]);
    assert(names_view(r@) =~= seq!["identity"@, "pageview"@, "posts"@, "follow"@]);
    r
}

/// The topics the identity service makes sure exist when it starts.
pub fn identity_setup_topics() -> (r: Vec<String>)
    ensures
        names_view(r@) == seq!["identity"@, "pageview"@],
{
    let r = topic_list(&["identity", "pageview"]);
    assert(names_view(r@) =~= seq!["identity"@, "pageview"@]);
    r
}

/// The configured address if there is one, else `default`.
pub open spec fn address_spec(configured: Option<Seq<char>>, default: Seq<char>) -> Seq<char> {
    match configured {
        Some(s) => s,
        None => default,
    }
}

/// The database node to connect to: the configured one (`SCYLLA_URL`), else
/// `127.0.0.1:9042`.
pub fn get_db(configured: Option<String>) -> (r: String)
    ensures
        r@ == address_spec(configured.deep_view(), "127.0.0.1:9042"@),
{
    match configured {
        Some(s) => s,
        None => String::from_str("127.0.0.1:9042"),
    }
}

/// The broker to connect to: the configured one (`REDPANDA_URL`), else
/// `127.0.0.1:19092`.
pub fn get_topic(configured: Option<String>) -> (r: String)
    ensures
        r@ == address_spec(configured.deep_view(), "127.0.0.1:19092"@),
{
    match configured {
        Some(s) => s,
        None => String::from_str("127.0.0.1:19092"),
    }
}

/// The back end the front end asks: the configured one (`BACKEND_URL`), else
/// `127.0.0.1:3001`.
pub fn get_backend(configured: Option<String>) -> (r: String)
    ensures
        r@ == address_spec(configured.deep_view(), "127.0.0.1:3001"@),
{
    match configured {
        Some(s) => s,
        None => String::from_str("127.0.0.1:3001"),
    }
}

/// One fetch from partition 0 of a topic: from `offset`, between 1 byte and
/// 1 000 000 000 bytes, waiting at most one second.
pub struct FetchRequest {
    pub topic: String,
    pub partition: i32,
    pub offset: i64,
    pub min_bytes: i32,
    pub max_bytes: i32,
    pub max_wait_ms: i32,
}

/// How long a topic's reader waits between two fetches, in seconds.
pub const POLL_INTERVAL_SECS: u64 = 5;

/// Where a topic's reader stands: the offset of its next fetch.
pub struct ConsumerCursor {
    pub topic: String,
    pub offset: i64,
}

impl ConsumerCursor {
    /// A reader that starts at the beginning of `topic`.
    pub fn new(topic: String) -> (c: Self)
        ensures
            c.topic@ == topic@,
            c.offset == 0,
    {
        ConsumerCursor { topic, offset: 0 }
    }

    /// The next fetch of this reader.
    pub fn fetch_request(&self) -> (f: FetchRequest)
        ensures
            f.topic@ == self.topic@,
            f.partition == 0,
            f.offset == self.offset,
            f.min_bytes == 1,
            f.max_bytes == 1_000_000_000,
            f.max_wait_ms == 1000,
    {
        FetchRequest {
            topic: self.topic.clone(),
            partition: 0,
            offset: self.offset,
            min_bytes: 1,
            max_bytes: 1_000_000_000,
            max_wait_ms: 1000,
        }
    }

    /// After a fetch has been applied: the next fetch starts at the high
    /// watermark the broker reported.
    pub fn advance(&mut self, high_watermark: i64)
        ensures
            final(self).topic@ == old(self).topic@,
            final(self).offset == high_watermark,
    {
        self.offset = high_watermark;
    }
}

} // verus!
