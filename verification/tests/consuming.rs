use socialnetwork::events::EventKind;
use socialnetwork::ingest::{
    classify_record, find_header, fits_in_millis, header_names_are_unique, plan_writes, plan_writes_with, utf8_text, DbWrite,
    IncomingEvent, IncomingRecord, RecordClass,
};
use socialnetwork::produce::{follow, view};

fn header(name: &str, value: &[u8]) -> (String, Vec<u8>) {
    (name.to_string(), value.to_vec())
}

fn record(value: Option<&[u8]>, headers: Vec<(String, Vec<u8>)>) -> IncomingRecord {
    IncomingRecord { value: value.map(|v| v.to_vec()), headers, timestamp_secs: 1_700_000_000 }
}

#[test]
fn utf8_text_decodes_valid_bytes_only() {
    assert_eq!(utf8_text(&"héllo".as_bytes().to_vec()), Some("héllo".to_string()));
    assert_eq!(utf8_text(&vec![0xff, 0x41]), None);
    assert_eq!(utf8_text(&vec![]), Some(String::new()));
}

#[test]
fn find_header_takes_the_first_match() {
    let hs = vec![header("A", b"1"), header("EVENT_TYPE", b"POST"), header("EVENT_TYPE", b"X")];
    assert_eq!(find_header(&hs, "EVENT_TYPE"), Some(b"POST".to_vec()));
    assert_eq!(find_header(&hs, "B"), None);
    assert_eq!(find_header(&vec![], "A"), None);
}

#[test]
fn record_without_value_is_skipped() {
    let r = record(None, vec![header("EVENT_TYPE", b"POST")]);
    assert!(matches!(classify_record(&r), RecordClass::NoValue));
}

#[test]
fn record_with_invalid_value_stops_the_consumer() {
    let r = record(Some(&[0xc3, 0x28]), vec![header("EVENT_TYPE", b"POST")]);
    assert!(matches!(classify_record(&r), RecordClass::ValueNotUtf8));
    // The value is looked at before the header.
    let r = record(Some(&[0xc3, 0x28]), vec![]);
    assert!(matches!(classify_record(&r), RecordClass::ValueNotUtf8));
}

#[test]
fn record_without_event_type_is_skipped() {
    let r = record(Some(b"{}"), vec![header("OTHER", b"POST")]);
    assert!(matches!(classify_record(&r), RecordClass::NoEventType));
}

#[test]
fn record_with_invalid_event_type_stops_the_consumer() {
    let r = record(Some(b"{}"), vec![header("EVENT_TYPE", &[0xff])]);
    assert!(matches!(classify_record(&r), RecordClass::EventTypeNotUtf8));
}

#[test]
fn unknown_event_type_is_reported_by_name() {
    let r = record(Some(b"{}"), vec![header("EVENT_TYPE", b"DELETE")]);
    match classify_record(&r) {
        RecordClass::Event { event_type, kind, body } => {
            assert_eq!(event_type, "DELETE");
            assert_eq!(kind, None);
            assert_eq!(body, "{}");
        },
        _ => panic!("expected an event"),
    }
}

#[test]
fn published_records_are_read_back() {
    let (_, p) = view("u1".to_string(), "/".to_string());
    let r = IncomingRecord { value: Some(p.value.clone()), headers: p.headers.clone(), timestamp_secs: 0 };
    match classify_record(&r) {
        RecordClass::Event { event_type, kind, body } => {
            assert_eq!(event_type, "PAGE_VIEW");
            assert_eq!(kind, Some(EventKind::PageView));
            assert_eq!(body, "{ \"id\": \"u1\", \"page\": \"/\" }");
        },
        _ => panic!("expected an event"),
    }
    let (_, p) = follow("a".to_string(), "b".to_string());
    let r = IncomingRecord { value: Some(p.value.clone()), headers: p.headers.clone(), timestamp_secs: 0 };
    match classify_record(&r) {
        RecordClass::Event { kind, .. } => assert_eq!(kind, Some(EventKind::Follow)),
        _ => panic!("expected an event"),
    }
}

fn store_event(w: &DbWrite) -> (u128, i64, String, Option<String>) {
    match w {
        DbWrite::StoreEvent { id, ts, event_type, src_page } => {
            (*id, *ts, event_type.clone(), src_page.clone())
        },
        _ => panic!("expected an event row"),
    }
}

#[test]
fn create_adds_the_user_and_an_event() {
    let e = IncomingEvent::Create { id: 5, username: "Ann".to_string() };
    let ws = plan_writes_with(&e, 1_700_000_000, 0);
    assert_eq!(ws.len(), 2);
    match &ws[0] {
        DbWrite::AddUser { id, name, registration_date } => {
            assert_eq!(*id, 5);
            assert_eq!(name, "Ann");
            assert_eq!(*registration_date, 1_700_000_000_000);
        },
        _ => panic!("expected a user row"),
    }
    assert_eq!(store_event(&ws[1]), (5, 1_700_000_000_000, "CREATE".to_string(), None));
}

#[test]
fn page_view_counts_the_page_and_records_it() {
    let e = IncomingEvent::PageView { id: 5, page: "/community".to_string() };
    let ws = plan_writes(&e, 2);
    assert_eq!(ws.len(), 2);
    match &ws[0] {
        DbWrite::CountPageView { page } => assert_eq!(page, "/community"),
        _ => panic!("expected a page count"),
    }
    assert_eq!(store_event(&ws[1]), (5, 2000, "PAGE_VIEW".to_string(), Some("/community".to_string())));
}

#[test]
fn post_is_saved_under_the_given_id() {
    let e = IncomingEvent::Post { id: 5, subject: "S".to_string(), content: "C".to_string() };
    let ws = plan_writes_with(&e, -3, 77);
    match &ws[0] {
        DbWrite::SavePost { id, ts, post_id, subject, content } => {
            assert_eq!((*id, *ts, *post_id), (5, -3000, 77));
            assert_eq!((subject.as_str(), content.as_str()), ("S", "C"));
        },
        _ => panic!("expected a post row"),
    }
    assert_eq!(store_event(&ws[1]), (5, -3000, "POST".to_string(), None));
}

#[test]
fn post_gets_a_fresh_v4_id() {
    let e = IncomingEvent::Post { id: 5, subject: "S".to_string(), content: "C".to_string() };
    let first = match &plan_writes(&e, 1)[0] {
        DbWrite::SavePost { post_id, .. } => *post_id,
        _ => panic!("expected a post row"),
    };
    let second = match &plan_writes(&e, 1)[0] {
        DbWrite::SavePost { post_id, .. } => *post_id,
        _ => panic!("expected a post row"),
    };
    assert_eq!((first >> 76) & 0xf, 4);
    assert_eq!((first >> 62) & 0x3, 2);
    assert_ne!(first, second);
}

#[test]
fn post_like_counts_the_like_under_the_post() {
    let ws = plan_writes(&IncomingEvent::PostLike { post_id: 9 }, 1);
    assert_eq!(ws.len(), 2);
    assert!(matches!(ws[0], DbWrite::CountPostLike { post_id: 9 }));
    assert_eq!(store_event(&ws[1]), (9, 1000, "POST_LIKE".to_string(), None));
}

#[test]
fn follow_adds_the_relation() {
    let ws = plan_writes(&IncomingEvent::Follow { id: 1, followed_id: 2 }, 1);
    assert_eq!(ws.len(), 2);
    assert!(matches!(ws[0], DbWrite::AddFollow { id: 1, follower: 2, ts: 1000 }));
    assert_eq!(store_event(&ws[1]), (1, 1000, "FOLLOW".to_string(), None));
}

#[test]
fn user_view_only_counts() {
    let ws = plan_writes(&IncomingEvent::UserView { id: 4 }, 1);
    assert_eq!(ws.len(), 1);
    assert!(matches!(ws[0], DbWrite::CountProfileView { id: 4 }));
}

#[test]
fn game_draw_enters_the_contestant() {
    let ws = plan_writes(&IncomingEvent::GameDraw { id: 4 }, 1);
    assert_eq!(ws.len(), 2);
    assert!(matches!(ws[0], DbWrite::EnterDraw { ts: 1000, winner: false, id: 4 }));
    assert_eq!(store_event(&ws[1]), (4, 1000, "GAME_DRAW".to_string(), None));
}

#[test]
fn winner_submit_sets_the_email_only() {
    let ws = plan_writes(&IncomingEvent::WinnerSubmit { id: 4, email: "a@b".to_string() }, 1);
    assert_eq!(ws.len(), 1);
    match &ws[0] {
        DbWrite::SetWinnerEmail { email, id } => {
            assert_eq!(email, "a@b");
            assert_eq!(*id, 4);
        },
        _ => panic!("expected an e-mail update"),
    }
}

#[test]
fn millisecond_timestamps_fit() {
    assert!(fits_in_millis(1_700_000_000));
    assert!(fits_in_millis(9_223_372_036_854_775));
    assert!(!fits_in_millis(9_223_372_036_854_776));
    assert!(fits_in_millis(-9_223_372_036_854_775));
    assert!(!fits_in_millis(i64::MIN));
}

#[test]
fn header_names_must_not_repeat() {
    assert!(header_names_are_unique(&vec![]));
    assert!(header_names_are_unique(&vec![header("A", b"1"), header("EVENT_TYPE", b"POST")]));
    assert!(!header_names_are_unique(&vec![header("A", b"1"), header("B", b"2"), header("A", b"3")]));
    let (_, p) = view("u".to_string(), "/".to_string());
    assert!(header_names_are_unique(&p.headers));
}
