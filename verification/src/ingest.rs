//! What the consumer makes of the records it fetches: which ones it applies,
//! which event each carries, and the database writes each event becomes.
use vstd::prelude::*;
use vstd::string::*;
use vstd::utf8::*;

use crate::events::{event_type_header_spec, event_type_name, event_type_spec, kind_of_name, parse_event_type, EventKind};
use crate::ids::{is_v4, new_v4};

verus! {

broadcast use vstd::utf8::group_utf8_lib;

/// A fetched record, as far as the consumer reads it: its value, its headers
/// (name and bytes; the broker keeps them in a map, so no name comes twice,
/// see `header_names_unique`) and its timestamp in seconds since the UNIX epoch.
pub struct IncomingRecord {
    pub value: Option<Vec<u8>>,
    pub headers: Vec<(String, Vec<u8>)>,
    pub timestamp_secs: i64,
}

/// The text that `bytes` encode in UTF-8, if they are valid UTF-8.
pub open spec fn utf8_text_spec(bytes: Seq<u8>) -> Option<Seq<char>> {
    if valid_utf8(bytes) {
        Some(decode_utf8(bytes))
    } else {
        None
    }
}

/// Decodes UTF-8 with `std::str::from_utf8`.
/// Trusted: the standard library accepts exactly the valid UTF-8 byte strings,
/// and the text it returns is made of those very bytes.
#[verifier::external_body]
fn decode_utf8_bytes(bytes: &Vec<u8>) -> (r: Option<String>)
    ensures
        r is Some <==> valid_utf8(bytes@),
        r matches Some(s) ==> encode_utf8(s@) == bytes@,
{
    match std::str::from_utf8(bytes.as_slice()) {
        Ok(s) => Some(s.to_string()),
        Err(_) => None,
    }
}

/// Decodes UTF-8; `None` where the bytes are not valid UTF-8.
pub fn utf8_text(bytes: &Vec<u8>) -> (r: Option<String>)
    ensures
        r.deep_view() == utf8_text_spec(bytes@),
{
    let r = decode_utf8_bytes(bytes);
    proof {
        if r is Some {
            assert(decode_utf8(encode_utf8(r->0@)) == r->0@);
        }
    }
    r
}

/// No two headers have the same name.
pub open spec fn header_names_unique(hs: Seq<(Seq<char>, Seq<u8>)>) -> bool {
    forall|i: int, j: int| 0 <= i < j < hs.len() ==> #[trigger] hs[i].0 != #[trigger] hs[j].0
}

/// Whether no two headers have the same name.
pub fn header_names_are_unique(headers: &Vec<(String, Vec<u8>)>) -> (b: bool)
    ensures
        b == header_names_unique(headers.deep_view()),
{
    let ghost hs = headers.deep_view();
    let mut i: usize = 0;
    while i < headers.len()
        invariant
            0 <= i <= headers.len(),
            hs == headers.deep_view(),
            hs.len() == headers.len(),
            forall|a: int, b: int| 0 <= a < b < hs.len() && a < i ==> #[trigger] hs[a].0 != #[trigger] hs[b].0,
        decreases headers.len() - i,
    {
        let mut j: usize = i + 1;
        while j < headers.len()
            invariant
                0 <= i < j <= headers.len(),
                hs == headers.deep_view(),
                hs.len() == headers.len(),
                forall|a: int, b: int| 0 <= a < b < hs.len() && a < i ==> #[trigger] hs[a].0 != #[trigger] hs[b].0,
                forall|b: int| i < b < j ==> hs[i as int].0 != #[trigger] hs[b].0,
            decreases headers.len() - j,
        {
            assert(hs[i as int].0 == headers@[i as int].0@);
            assert(hs[j as int].0 == headers@[j as int].0@);
            if headers[i].0 == headers[j].0 {
                return false;
            }
            j = j + 1;
        }
        i = i + 1;
    }
    true
}

/// The bytes of the first header named `name`.
pub open spec fn header_lookup(hs: Seq<(Seq<char>, Seq<u8>)>, name: Seq<char>) -> Option<Seq<u8>>
    decreases hs.len(),
{
    if hs.len() == 0 {
        None
    } else if hs[0].0 == name {
        Some(hs[0].1)
    } else {
        header_lookup(hs.drop_first(), name)
    }
}

proof fn lemma_header_lookup_skip(hs: Seq<(Seq<char>, Seq<u8>)>, name: Seq<char>, i: int)
    requires
        0 <= i < hs.len(),
        forall|j: int| 0 <= j < i ==> hs[j].0 != name,
    ensures
        header_lookup(hs, name) == header_lookup(hs.skip(i), name),
    decreases i,
{
    if i > 0 {
        assert(hs[0].0 != name);
        assert forall|j: int| 0 <= j < i - 1 implies hs.drop_first()[j].0 != name by {
            assert(hs.drop_first()[j] == hs[j + 1]);
        }
        lemma_header_lookup_skip(hs.drop_first(), name, i - 1);
        assert(hs.drop_first().skip(i - 1) =~= hs.skip(i));
    } else {
        assert(hs.skip(0) =~= hs);
    }
}

proof fn lemma_header_lookup_absent(hs: Seq<(Seq<char>, Seq<u8>)>, name: Seq<char>)
    requires
        forall|j: int| 0 <= j < hs.len() ==> hs[j].0 != name,
    ensures
        header_lookup(hs, name) is None,
    decreases hs.len(),
{
    if hs.len() > 0 {
        assert(hs[0].0 != name);
        assert forall|j: int| 0 <= j < hs.len() - 1 implies hs.drop_first()[j].0 != name by {
            assert(hs.drop_first()[j] == hs[j + 1]);
        }
        lemma_header_lookup_absent(hs.drop_first(), name);
    }
}

/// The bytes of the first header named `name`, if any.
pub fn find_header(headers: &Vec<(String, Vec<u8>)>, name: &str) -> (r: Option<Vec<u8>>)
    ensures
        r.deep_view() == header_lookup(headers.deep_view(), name@),
{
    let ghost hs = headers.deep_view();
    let wanted = String::from_str(name);
    let mut i: usize = 0;
    while i < headers.len()
        invariant
            0 <= i <= headers.len(),
            hs == headers.deep_view(),
            hs.len() == headers.len(),
            wanted@ == name@,
            forall|j: int| 0 <= j < i ==> hs[j].0 != name@,
        decreases headers.len() - i,
    {
        assert(hs[i as int] == (headers@[i as int].0@, headers@[i as int].1.deep_view()));
        if headers[i].0 == wanted {
            proof {
                lemma_header_lookup_skip(hs, name@, i as int);
                assert(hs.skip(i as int)[0] == hs[i as int]);
            }
            let v = headers[i].1.clone();
            assert(v.deep_view() =~= headers@[i as int].1.deep_view());
            return Some(v);
        }
        i = i + 1;
    }
    proof {
        lemma_header_lookup_absent(hs, name@);
    }
    None
}

/// How the consumer treats a fetched record.
pub enum RecordClass {
    /// The record has no value: skipped.
    NoValue,
    /// The value is not valid UTF-8: the consumer stops.
    ValueNotUtf8,
    /// The record has no event-type header: skipped.
    NoEventType,
    /// The event-type header is not valid UTF-8: the consumer stops.
    EventTypeNotUtf8,
    /// An event: its type name, the kind that name stands for (`None` for a
    /// name no event carries), and the text of the value.
    Event { event_type: String, kind: Option<EventKind>, body: String },
}

/// The abstract form of a `RecordClass`.
pub enum ClassView {
    NoValue,
    ValueNotUtf8,
    NoEventType,
    EventTypeNotUtf8,
    Event { event_type: Seq<char>, kind: Option<EventKind>, body: Seq<char> },
}

impl View for RecordClass {
    type V = ClassView;

    open spec fn view(&self) -> ClassView {
        match self {
            RecordClass::NoValue => ClassView::NoValue,
            RecordClass::ValueNotUtf8 => ClassView::ValueNotUtf8,
            RecordClass::NoEventType => ClassView::NoEventType,
            RecordClass::EventTypeNotUtf8 => ClassView::EventTypeNotUtf8,
            RecordClass::Event { event_type, kind, body } => ClassView::Event {
                event_type: event_type@,
                kind: *kind,
                body: body@,
            },
        }
    }
}

/// How a record with `value` and `headers` is treated: the value is looked at
/// first, then the event-type header.
pub open spec fn classify_spec(value: Option<Seq<u8>>, headers: Seq<(Seq<char>, Seq<u8>)>) -> ClassView {
    match value {
        None => ClassView::NoValue,
        Some(v) => match utf8_text_spec(v) {
            None => ClassView::ValueNotUtf8,
            Some(body) => match header_lookup(headers, event_type_header_spec()) {
                None => ClassView::NoEventType,
                Some(h) => match utf8_text_spec(h) {
                    None => ClassView::EventTypeNotUtf8,
                    Some(name) => ClassView::Event { event_type: name, kind: kind_of_name(name), body },
                },
            },
        },
    }
}

/// Classifies a fetched record.
pub fn classify_record(record: &IncomingRecord) -> (r: RecordClass)
    requires
        header_names_unique(record.headers.deep_view()),
    ensures
        r@ == classify_spec(record.value.deep_view(), record.headers.deep_view()),
{
    let value = match &record.value {
        None => {
            return RecordClass::NoValue;
        },
        Some(v) => v,
    };
    assert(value.deep_view() =~= value@);
    let body = match utf8_text(value) {
        None => {
            return RecordClass::ValueNotUtf8;
        },
        Some(b) => b,
    };
    let header = match find_header(&record.headers, "EVENT_TYPE") {
        None => {
            return RecordClass::NoEventType;
        },
        Some(h) => h,
    };
    assert(header.deep_view() =~= header@);
    let event_type = match utf8_text(&header) {
        None => {
            return RecordClass::EventTypeNotUtf8;
        },
        Some(t) => t,
    };
    let kind = parse_event_type(event_type.as_str());
    RecordClass::Event { event_type, kind, body }
}


/// An event as the consumer reads it from a record's value.
#[allow(inconsistent_fields)]
pub enum IncomingEvent {
    Create { id: u128, username: String },
    PageView { id: u128, page: String },
    Post { id: u128, subject: String, content: String },
    PostLike { post_id: u128 },
    Follow { id: u128, followed_id: u128 },
    UserView { id: u128 },
    GameDraw { id: u128 },
    WinnerSubmit { id: u128, email: String },
}

/// The kind of an incoming event.
pub open spec fn incoming_kind(e: IncomingEvent) -> EventKind {
    match e {
        IncomingEvent::Create { .. } => EventKind::Create,
        IncomingEvent::PageView { .. } => EventKind::PageView,
        IncomingEvent::Post { .. } => EventKind::Post,
        IncomingEvent::PostLike { .. } => EventKind::PostLike,
        IncomingEvent::Follow { .. } => EventKind::Follow,
        IncomingEvent::UserView { .. } => EventKind::UserView,
        IncomingEvent::GameDraw { .. } => EventKind::GameDraw,
        IncomingEvent::WinnerSubmit { .. } => EventKind::WinnerSubmit,
    }
}

/// One write to the database. Timestamps are milliseconds since the UNIX epoch.
#[allow(inconsistent_fields)]
pub enum DbWrite {
    /// Inserts a row into `users`.
    AddUser { id: u128, name: String, registration_date: i64 },
    /// Inserts a row into `events`.
    StoreEvent { id: u128, ts: i64, event_type: String, src_page: Option<String> },
    /// Adds one to the view count of `page` in `page_count`.
    CountPageView { page: String },
    /// Inserts a row into `posts`.
    SavePost { id: u128, ts: i64, post_id: u128, subject: String, content: String },
    /// Adds one to the view count of the profile `id` in `profile_views`.
    CountProfileView { id: u128 },
    /// Inserts a row into `follows`.
    AddFollow { id: u128, follower: u128, ts: i64 },
    /// Adds one to the like count of `post_id` in `post_likes`.
    CountPostLike { post_id: u128 },
    /// Sets the draw time and the winner flag of `id` in `game`.
    EnterDraw { ts: i64, winner: bool, id: u128 },
    /// Sets the e-mail address of `id` in `game`.
    SetWinnerEmail { email: String, id: u128 },
}

/// The abstract form of a `DbWrite`.
#[allow(inconsistent_fields)]
pub enum WriteView {
    AddUser { id: u128, name: Seq<char>, registration_date: int },
    StoreEvent { id: u128, ts: int, event_type: Seq<char>, src_page: Option<Seq<char>> },
    CountPageView { page: Seq<char> },
    SavePost { id: u128, ts: int, post_id: u128, subject: Seq<char>, content: Seq<char> },
    CountProfileView { id: u128 },
    AddFollow { id: u128, follower: u128, ts: int },
    CountPostLike { post_id: u128 },
    EnterDraw { ts: int, winner: bool, id: u128 },
    SetWinnerEmail { email: Seq<char>, id: u128 },
}

impl View for DbWrite {
    type V = WriteView;

    open spec fn view(&self) -> WriteView {
        match self {
            DbWrite::AddUser { id, name, registration_date } => WriteView::AddUser {
                id: *id,
                name: name@,
                registration_date: *registration_date as int,
            },
            DbWrite::StoreEvent { id, ts, event_type, src_page } => WriteView::StoreEvent {
                id: *id,
                ts: *ts as int,
                event_type: event_type@,
                src_page: src_page.deep_view(),
            },
            DbWrite::CountPageView { page } => WriteView::CountPageView { page: page@ },
            DbWrite::SavePost { id, ts, post_id, subject, content } => WriteView::SavePost {
                id: *id,
                ts: *ts as int,
                post_id: *post_id,
                subject: subject@,
                content: content@,
            },
            DbWrite::CountProfileView { id } => WriteView::CountProfileView { id: *id },
            DbWrite::AddFollow { id, follower, ts } => WriteView::AddFollow {
                id: *id,
                follower: *follower,
                ts: *ts as int,
            },
            DbWrite::CountPostLike { post_id } => WriteView::CountPostLike { post_id: *post_id },
            DbWrite::EnterDraw { ts, winner, id } => WriteView::EnterDraw {
                ts: *ts as int,
                winner: *winner,
                id: *id,
            },
            DbWrite::SetWinnerEmail { email, id } => WriteView::SetWinnerEmail {
                email: email@,
                id: *id,
            },
        }
    }
}

/// The abstract forms of a list of writes.
pub open spec fn writes_view(ws: Seq<DbWrite>) -> Seq<WriteView> {
    ws.map_values(|w: DbWrite| w@)
}

/// A timestamp in seconds that fits in milliseconds as an `i64`.
pub open spec fn millis_fit(secs: i64) -> bool {
    i64::MIN <= secs * 1000 <= i64::MAX
}

/// Whether a record stamped `secs` seconds has a timestamp in milliseconds.
pub fn fits_in_millis(secs: i64) -> (b: bool)
    ensures
        b == millis_fit(secs),
{
    -9_223_372_036_854_775 <= secs && secs <= 9_223_372_036_854_775
}

/// The writes that apply `e`, recorded at `ts` milliseconds; a post is saved
/// under the id `post_id`.
pub open spec fn plan_spec(e: IncomingEvent, ts: int, post_id: u128) -> Seq<WriteView> {
    let name = event_type_spec(incoming_kind(e));
    match e {
        IncomingEvent::Create { id, username } => seq![
            WriteView::AddUser { id, name: username@, registration_date: ts },
            WriteView::StoreEvent { id, ts, event_type: name, src_page: None },
        ],
        IncomingEvent::PageView { id, page } => seq![
            WriteView::CountPageView { page: page@ },
            WriteView::StoreEvent { id, ts, event_type: name, src_page: Some(page@) },
        ],
        IncomingEvent::Post { id, subject, content } => seq![
            WriteView::SavePost { id, ts, post_id, subject: subject@, content: content@ },
            WriteView::StoreEvent { id, ts, event_type: name, src_page: None },
        ],
        IncomingEvent::PostLike { post_id: liked } => seq![
            WriteView::CountPostLike { post_id: liked },
            WriteView::StoreEvent { id: liked, ts, event_type: name, src_page: None },
        ],
        IncomingEvent::Follow { id, followed_id } => seq![
            WriteView::AddFollow { id, follower: followed_id, ts },
            WriteView::StoreEvent { id, ts, event_type: name, src_page: None },
        ],
        IncomingEvent::UserView { id } => seq![WriteView::CountProfileView { id }],
        IncomingEvent::GameDraw { id } => seq![
            WriteView::EnterDraw { ts, winner: false, id },
            WriteView::StoreEvent { id, ts, event_type: name, src_page: None },
        ],
        IncomingEvent::WinnerSubmit { id, email } => seq![
            WriteView::SetWinnerEmail { email: email@, id },
        ],
    }
}

/// The writes that apply `e`, fetched with a record stamped `timestamp_secs`;
/// a post is saved under the id `post_id`.
pub fn plan_writes_with(e: &IncomingEvent, timestamp_secs: i64, post_id: u128) -> (ws: Vec<DbWrite>)
    requires
        millis_fit(timestamp_secs),
    ensures
        writes_view(ws@) == plan_spec(*e, timestamp_secs * 1000, post_id),
{
    let ts: i64 = timestamp_secs * 1000;
    let mut ws: Vec<DbWrite> = Vec::new();
    match e {
        IncomingEvent::Create { id, username } => {
            ws.push(DbWrite::AddUser { id: *id, name: username.clone(), registration_date: ts });
            ws.push(DbWrite::StoreEvent {
                id: *id,
                ts,
                event_type: event_type_name(EventKind::Create),
                src_page: None,
            });
        },
        IncomingEvent::PageView { id, page } => {
            ws.push(DbWrite::CountPageView { page: page.clone() });
            ws.push(DbWrite::StoreEvent {
                id: *id,
                ts,
                event_type: event_type_name(EventKind::PageView),
                src_page: Some(page.clone()),
            });
        },
        IncomingEvent::Post { id, subject, content } => {
            ws.push(DbWrite::SavePost {
                id: *id,
                ts,
                post_id,
                subject: subject.clone(),
                content: content.clone(),
            });
            ws.push(DbWrite::StoreEvent {
                id: *id,
                ts,
                event_type: event_type_name(EventKind::Post),
                src_page: None,
            });
        },
        IncomingEvent::PostLike { post_id: liked } => {
            ws.push(DbWrite::CountPostLike { post_id: *liked });
            ws.push(DbWrite::StoreEvent {
                id: *liked,
                ts,
                event_type: event_type_name(EventKind::PostLike),
                src_page: None,
            });
        },
        IncomingEvent::Follow { id, followed_id } => {
            ws.push(DbWrite::AddFollow { id: *id, follower: *followed_id, ts });
            ws.push(DbWrite::StoreEvent {
                id: *id,
                ts,
                event_type: event_type_name(EventKind::Follow),
                src_page: None,
            });
        },
        IncomingEvent::UserView { id } => {
            ws.push(DbWrite::CountProfileView { id: *id });
        },
        IncomingEvent::GameDraw { id } => {
            ws.push(DbWrite::EnterDraw { ts, winner: false, id: *id });
            ws.push(DbWrite::StoreEvent {
                id: *id,
                ts,
                event_type: event_type_name(EventKind::GameDraw),
                src_page: None,
            });
        },
        IncomingEvent::WinnerSubmit { id, email } => {
            ws.push(DbWrite::SetWinnerEmail { email: email.clone(), id: *id });
        },
    }
    assert(writes_view(ws@) =~= plan_spec(*e, timestamp_secs * 1000, post_id));
    ws
}

/// The writes that apply `e`, fetched with a record stamped `timestamp_secs`.
/// A post is saved under a fresh random version-4 id; no other event uses one.
pub fn plan_writes(e: &IncomingEvent, timestamp_secs: i64) -> (ws: Vec<DbWrite>)
    requires
        millis_fit(timestamp_secs),
    ensures
        incoming_kind(*e) == EventKind::Post ==> exists|post_id: u128|
            is_v4(post_id) && writes_view(ws@) == #[trigger] plan_spec(*e, timestamp_secs * 1000, post_id),
        incoming_kind(*e) != EventKind::Post ==> writes_view(ws@) == plan_spec(*e, timestamp_secs * 1000, 0),
{
    match e {
        IncomingEvent::Post { .. } => {
            let post_id = new_v4();
            let ws = plan_writes_with(e, timestamp_secs, post_id);
            assert(is_v4(post_id) && writes_view(ws@) == plan_spec(*e, timestamp_secs * 1000, post_id));
            ws
        },
        _ => plan_writes_with(e, timestamp_secs, 0),
    }
}

} // verus!
