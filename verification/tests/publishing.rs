use socialnetwork::events::{event_type_name, parse_event_type, topic_of, EventKind};
use socialnetwork::payload::{member_string, object_string};
use socialnetwork::produce::{
    create_user, create_user_with, follow, game_drawing, like_post, new_post, outgoing_record,
    user_increment, view, winner_submit, OutgoingEvent, ProducedRecord,
};
use socialnetwork::status;

const SAMPLE: u128 = 0x67e5504410b1426f9247bb680e5fe0c8;

fn text(bytes: &[u8]) -> String {
    String::from_utf8(bytes.to_vec()).unwrap()
}

fn event_header(r: &ProducedRecord) -> String {
    assert_eq!(r.headers.len(), 1);
    assert_eq!(r.headers[0].0, "EVENT_TYPE");
    text(&r.headers[0].1)
}

#[test]
fn uuid_is_written_hyphenated_in_lowercase() {
    assert_eq!(text(&like_post(0).1.value), "{ \"post_id\": \"00000000-0000-0000-0000-000000000000\" }");
    assert_eq!(
        text(&like_post(u128::MAX).1.value),
        "{ \"post_id\": \"ffffffff-ffff-ffff-ffff-ffffffffffff\" }"
    );
    assert_eq!(
        text(&like_post(SAMPLE).1.value),
        "{ \"post_id\": \"67e55044-10b1-426f-9247-bb680e5fe0c8\" }"
    );
}

#[test]
fn event_type_names_round_trip() {
    let kinds = [
        EventKind::Create,
        EventKind::PageView,
        EventKind::Post,
        EventKind::PostLike,
        EventKind::Follow,
        EventKind::UserView,
        EventKind::GameDraw,
        EventKind::WinnerSubmit,
    ];
    for k in kinds {
        assert_eq!(parse_event_type(event_type_name(k).as_str()), Some(k));
    }
    assert_eq!(event_type_name(EventKind::PageView), "PAGE_VIEW");
    assert_eq!(event_type_name(EventKind::WinnerSubmit), "WINNER_SUBMIT");
    assert_eq!(parse_event_type("create"), None);
    assert_eq!(parse_event_type(""), None);
    assert_eq!(parse_event_type("POST "), None);
}

#[test]
fn topics_of_event_kinds() {
    assert_eq!(topic_of(EventKind::Create), "identity");
    assert_eq!(topic_of(EventKind::UserView), "identity");
    assert_eq!(topic_of(EventKind::PageView), "pageview");
    assert_eq!(topic_of(EventKind::Post), "posts");
    assert_eq!(topic_of(EventKind::PostLike), "posts");
    assert_eq!(topic_of(EventKind::Follow), "follow");
    assert_eq!(topic_of(EventKind::GameDraw), "game");
    assert_eq!(topic_of(EventKind::WinnerSubmit), "game");
}

#[test]
fn payload_objects() {
    assert_eq!(member_string("id", "7"), "\"id\": \"7\"");
    let members = vec![
        ("id".to_string(), "a".to_string()),
        ("page".to_string(), "/".to_string()),
    ];
    assert_eq!(object_string(&members), "{ \"id\": \"a\", \"page\": \"/\" }");
    assert_eq!(object_string(&vec![]), "{  }");
    let quote = vec![("content".to_string(), "say \"hi\"".to_string())];
    assert_eq!(object_string(&quote), "{ \"content\": \"say \"hi\"\" }");
}

#[test]
fn game_drawing_publishes_on_game() {
    let (code, r) = game_drawing(SAMPLE);
    assert_eq!(code, status::OK);
    assert_eq!(r.topic, "game");
    assert_eq!(event_header(&r), "GAME_DRAW");
    assert_eq!(text(&r.value), "{ \"id\": \"67e55044-10b1-426f-9247-bb680e5fe0c8\" }");
}

#[test]
fn user_increment_publishes_on_identity() {
    let (code, r) = user_increment(SAMPLE);
    assert_eq!(code, 200);
    assert_eq!(r.topic, "identity");
    assert_eq!(event_header(&r), "USER_VIEW");
    assert_eq!(text(&r.value), "{ \"id\": \"67e55044-10b1-426f-9247-bb680e5fe0c8\" }");
}

#[test]
fn like_post_publishes_on_posts() {
    let (code, r) = like_post(1);
    assert_eq!(code, 200);
    assert_eq!(r.topic, "posts");
    assert_eq!(event_header(&r), "POST_LIKE");
    assert_eq!(text(&r.value), "{ \"post_id\": \"00000000-0000-0000-0000-000000000001\" }");
}

#[test]
fn follow_publishes_on_follow() {
    let (code, r) = follow("u1".to_string(), "u2".to_string());
    assert_eq!(code, status::CREATED);
    assert_eq!(r.topic, "follow");
    assert_eq!(event_header(&r), "FOLLOW");
    assert_eq!(text(&r.value), "{ \"id\": \"u1\", \"followed_id\": \"u2\" }");
}

#[test]
fn winner_submit_publishes_on_game() {
    let (code, r) = winner_submit("u1".to_string(), "me@example.com".to_string());
    assert_eq!(code, 201);
    assert_eq!(r.topic, "game");
    assert_eq!(event_header(&r), "WINNER_SUBMIT");
    assert_eq!(text(&r.value), "{ \"id\": \"u1\", \"email\": \"me@example.com\" }");
}

#[test]
fn new_post_publishes_on_posts() {
    let (code, r) = new_post("u1".to_string(), "Hi".to_string(), "Hello, world".to_string());
    assert_eq!(code, 201);
    assert_eq!(r.topic, "posts");
    assert_eq!(event_header(&r), "POST");
    assert_eq!(
        text(&r.value),
        "{ \"id\": \"u1\", \"subject\": \"Hi\", \"content\": \"Hello, world\" }"
    );
}

#[test]
fn view_publishes_on_pageview() {
    let (code, r) = view("u1".to_string(), "/community".to_string());
    assert_eq!(code, 201);
    assert_eq!(r.topic, "pageview");
    assert_eq!(event_header(&r), "PAGE_VIEW");
    assert_eq!(text(&r.value), "{ \"id\": \"u1\", \"page\": \"/community\" }");
}

#[test]
fn non_ascii_values_are_written_as_utf8() {
    let (_, r) = view("ü".to_string(), "/ß".to_string());
    assert_eq!(r.value, "{ \"id\": \"ü\", \"page\": \"/ß\" }".as_bytes().to_vec());
}

#[test]
fn create_user_with_publishes_creation_then_view() {
    let (code, user, records) =
        create_user_with("abc".to_string(), "synergy".to_string(), "Engineer".to_string());
    assert_eq!(code, 201);
    assert_eq!(user.id, "abc");
    assert_eq!(user.username, "synergy Engineer");
    assert_eq!(records.len(), 2);
    assert_eq!(records[0].topic, "identity");
    assert_eq!(event_header(&records[0]), "CREATE");
    assert_eq!(text(&records[0].value), "{ \"id\": \"abc\", \"username\": \"synergy Engineer\" }");
    assert_eq!(records[1].topic, "pageview");
    assert_eq!(event_header(&records[1]), "PAGE_VIEW");
    assert_eq!(text(&records[1].value), "{ \"id\": \"abc\", \"page\": \"/\" }");
}

#[test]
fn create_user_draws_a_v4_id_and_a_two_part_name() {
    let (code, user, records) = create_user();
    assert_eq!(code, 201);
    assert_eq!(user.id.len(), 36);
    let parsed = u128::from_str_radix(&user.id.replace('-', ""), 16).unwrap();
    assert_eq!((parsed >> 76) & 0xf, 4);
    assert_eq!((parsed >> 62) & 0x3, 2);
    assert_eq!(&user.id[14..15], "4");
    assert!(user.username.contains(' '));
    assert_eq!(records.len(), 2);
    assert_eq!(
        text(&records[0].value),
        format!("{{ \"id\": \"{}\", \"username\": \"{}\" }}", user.id, user.username)
    );
    let (_, other, _) = create_user();
    assert_ne!(other.id, user.id);
}

#[test]
fn outgoing_record_matches_handler() {
    let e = OutgoingEvent::Follow { id: "a".to_string(), followed_id: "b".to_string() };
    let r = outgoing_record(&e);
    let (_, h) = follow("a".to_string(), "b".to_string());
    assert_eq!(r.topic, h.topic);
    assert_eq!(r.value, h.value);
    assert_eq!(r.headers, h.headers);
}
