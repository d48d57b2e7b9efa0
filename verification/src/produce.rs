//! What the web services publish: for each request that records an event,
//! the record (topic, `EVENT_TYPE` header, payload) and the status answered.
use vstd::prelude::*;
use vstd::string::*;
use vstd::utf8::*;

use crate::events::{
    event_type_header, event_type_header_spec, event_type_name, event_type_spec, topic_of,
    topic_spec, EventKind,
};
use crate::ingest::header_names_unique;
use crate::ids::{is_v4, new_v4, uuid_text, uuid_to_string};
use crate::payload::{object_string, object_text, utf8_bytes};
use crate::status;

verus! {

/// A record ready to be published: its topic, its headers and its value.
pub struct ProducedRecord {
    pub topic: String,
    pub headers: Vec<(String, Vec<u8>)>,
    pub value: Vec<u8>,
}

/// The abstract content of a record.
pub struct RecordView {
    pub topic: Seq<char>,
    pub headers: Seq<(Seq<char>, Seq<u8>)>,
    pub value: Seq<u8>,
}

impl View for ProducedRecord {
    type V = RecordView;

    open spec fn view(&self) -> RecordView {
        RecordView { topic: self.topic@, headers: self.headers.deep_view(), value: self.value@ }
    }
}

/// An event as the web services publish it.
#[allow(inconsistent_fields)]
pub enum OutgoingEvent {
    Create { id: String, username: String },
    PageView { id: String, page: String },
    Post { id: String, subject: String, content: String },
    PostLike { post_id: u128 },
    Follow { id: String, followed_id: String },
    UserView { id: u128 },
    GameDraw { id: u128 },
    WinnerSubmit { id: String, email: String },
}

/// The kind of an outgoing event.
pub open spec fn outgoing_kind(e: OutgoingEvent) -> EventKind {
    match e {
        OutgoingEvent::Create { .. } => EventKind::Create,
        OutgoingEvent::PageView { .. } => EventKind::PageView,
        OutgoingEvent::Post { .. } => EventKind::Post,
        OutgoingEvent::PostLike { .. } => EventKind::PostLike,
        OutgoingEvent::Follow { .. } => EventKind::Follow,
        OutgoingEvent::UserView { .. } => EventKind::UserView,
        OutgoingEvent::GameDraw { .. } => EventKind::GameDraw,
        OutgoingEvent::WinnerSubmit { .. } => EventKind::WinnerSubmit,
    }
}

/// The members of an outgoing event's payload, in order.
pub open spec fn outgoing_members(e: OutgoingEvent) -> Seq<(Seq<char>, Seq<char>)> {
    match e {
        OutgoingEvent::Create { id, username } => seq![("id"@, id@), ("username"@, username@)],
        OutgoingEvent::PageView { id, page } => seq![("id"@, id@), ("page"@, page@)],
        OutgoingEvent::Post { id, subject, content } => seq![
            ("id"@, id@),
            ("subject"@, subject@),
            ("content"@, content@),
        ],
        OutgoingEvent::PostLike { post_id } => seq![("post_id"@, uuid_text(post_id))],
        OutgoingEvent::Follow { id, followed_id } => seq![
            ("id"@, id@),
            ("followed_id"@, followed_id@),
        ],
        OutgoingEvent::UserView { id } => seq![("id"@, uuid_text(id))],
        OutgoingEvent::GameDraw { id } => seq![("id"@, uuid_text(id))],
        OutgoingEvent::WinnerSubmit { id, email } => seq![("id"@, id@), ("email"@, email@)],
    }
}

/// The record published for an event of kind `k` whose payload has `members`.
pub open spec fn record_spec(k: EventKind, members: Seq<(Seq<char>, Seq<char>)>) -> RecordView {
    RecordView {
        topic: topic_spec(k),
        headers: seq![(event_type_header_spec(), encode_utf8(event_type_spec(k)))],
        value: encode_utf8(object_text(members)),
    }
}

/// The record published for `e`.
pub open spec fn outgoing_record_spec(e: OutgoingEvent) -> RecordView {
    record_spec(outgoing_kind(e), outgoing_members(e))
}

fn pair(key: &str, value: String) -> (p: (String, String))
    ensures
        p.0@ == key@,
        p.1@ == value@,
{
    (String::from_str(key), value)
}

fn outgoing_member_list(e: &OutgoingEvent) -> (ms: Vec<(String, String)>)
    ensures
        ms.deep_view() == outgoing_members(*e),
{
    let mut ms: Vec<(String, String)> = Vec::new();
    match e {
        OutgoingEvent::Create { id, username } => {
            ms.push(pair("id", id.clone()));
            ms.push(pair("username", username.clone()));
        },
        OutgoingEvent::PageView { id, page } => {
            ms.push(pair("id", id.clone()));
            ms.push(pair("page", page.clone()));
        },
        OutgoingEvent::Post { id, subject, content } => {
            ms.push(pair("id", id.clone()));
            ms.push(pair("subject", subject.clone()));
            ms.push(pair("content", content.clone()));
        },
        OutgoingEvent::PostLike { post_id } => {
            ms.push(pair("post_id", uuid_to_string(*post_id)));
        },
        OutgoingEvent::Follow { id, followed_id } => {
            ms.push(pair("id", id.clone()));
            ms.push(pair("followed_id", followed_id.clone()));
        },
        OutgoingEvent::UserView { id } => {
            ms.push(pair("id", uuid_to_string(*id)));
        },
        OutgoingEvent::GameDraw { id } => {
            ms.push(pair("id", uuid_to_string(*id)));
        },
        OutgoingEvent::WinnerSubmit { id, email } => {
            ms.push(pair("id", id.clone()));
            ms.push(pair("email", email.clone()));
        },
    }
    assert(ms.deep_view() =~= outgoing_members(*e));
    ms
}

/// Builds the record that publishes `e`.
pub fn outgoing_record(e: &OutgoingEvent) -> (r: ProducedRecord)
    ensures
        r@ == outgoing_record_spec(*e),
        header_names_unique(r@.headers),
{
    let k = match e {
        OutgoingEvent::Create { .. } => EventKind::Create,
        OutgoingEvent::PageView { .. } => EventKind::PageView,
        OutgoingEvent::Post { .. } => EventKind::Post,
        OutgoingEvent::PostLike { .. } => EventKind::PostLike,
        OutgoingEvent::Follow { .. } => EventKind::Follow,
        OutgoingEvent::UserView { .. } => EventKind::UserView,
        OutgoingEvent::GameDraw { .. } => EventKind::GameDraw,
        OutgoingEvent::WinnerSubmit { .. } => EventKind::WinnerSubmit,
    };
    let members = outgoing_member_list(e);
    let text = object_string(&members);
    let value = utf8_bytes(&text);
    let name = event_type_name(k);
    let mut headers: Vec<(String, Vec<u8>)> = Vec::new();
    headers.push((event_type_header(), utf8_bytes(&name)));
    let r = ProducedRecord { topic: topic_of(k), headers, value };
    assert(k == outgoing_kind(*e));
    assert(r.headers@[0].1.deep_view() =~= r.headers@[0].1@);
    assert(r@.headers =~= outgoing_record_spec(*e).headers);
    r
}


/// The response body of a user creation: the new user's id and name.
pub struct User {
    pub id: String,
    pub username: String,
}

/// Enters `id` in the game draw: answered `200 OK`.
pub fn game_drawing(id: u128) -> (r: (u16, ProducedRecord))
    ensures
        r.0 == status::OK,
        r.1@ == outgoing_record_spec(OutgoingEvent::GameDraw { id }),
        r.1@ == record_spec(EventKind::GameDraw, seq![("id"@, uuid_text(id))]),
{
    (status::OK, outgoing_record(&OutgoingEvent::GameDraw { id }))
}

/// Counts a visit of the profile of `user_id`: answered `200 OK`.
pub fn user_increment(user_id: u128) -> (r: (u16, ProducedRecord))
    ensures
        r.0 == status::OK,
        r.1@ == outgoing_record_spec(OutgoingEvent::UserView { id: user_id }),
        r.1@ == record_spec(EventKind::UserView, seq![("id"@, uuid_text(user_id))]),
{
    (status::OK, outgoing_record(&OutgoingEvent::UserView { id: user_id }))
}

/// Likes the post `post_id`: answered `200 OK`.
pub fn like_post(post_id: u128) -> (r: (u16, ProducedRecord))
    ensures
        r.0 == status::OK,
        r.1@ == outgoing_record_spec(OutgoingEvent::PostLike { post_id }),
        r.1@ == record_spec(EventKind::PostLike, seq![("post_id"@, uuid_text(post_id))]),
{
    (status::OK, outgoing_record(&OutgoingEvent::PostLike { post_id }))
}

/// `id` follows `followed_id`: answered `201 Created`.
pub fn follow(id: String, followed_id: String) -> (r: (u16, ProducedRecord))
    ensures
        r.0 == status::CREATED,
        r.1@ == outgoing_record_spec(OutgoingEvent::Follow { id, followed_id }),
        r.1@ == record_spec(EventKind::Follow, seq![("id"@, id@), ("followed_id"@, followed_id@)]),
{
    let e = OutgoingEvent::Follow { id, followed_id };
    (status::CREATED, outgoing_record(&e))
}

/// A contestant leaves an e-mail address: answered `201 Created`.
pub fn winner_submit(id: String, email: String) -> (r: (u16, ProducedRecord))
    ensures
        r.0 == status::CREATED,
        r.1@ == outgoing_record_spec(OutgoingEvent::WinnerSubmit { id, email }),
        r.1@ == record_spec(EventKind::WinnerSubmit, seq![("id"@, id@), ("email"@, email@)]),
{
    let e = OutgoingEvent::WinnerSubmit { id, email };
    (status::CREATED, outgoing_record(&e))
}

/// A user posts: answered `201 Created`.
pub fn new_post(id: String, subject: String, content: String) -> (r: (u16, ProducedRecord))
    ensures
        r.0 == status::CREATED,
        r.1@ == outgoing_record_spec(OutgoingEvent::Post { id, subject, content }),
        r.1@ == record_spec(
            EventKind::Post,
            seq![("id"@, id@), ("subject"@, subject@), ("content"@, content@)],
        ),
{
    let e = OutgoingEvent::Post { id, subject, content };
    (status::CREATED, outgoing_record(&e))
}

/// A page was browsed: answered `201 Created`.
pub fn view(id: String, page: String) -> (r: (u16, ProducedRecord))
    ensures
        r.0 == status::CREATED,
        r.1@ == outgoing_record_spec(OutgoingEvent::PageView { id, page }),
        r.1@ == record_spec(EventKind::PageView, seq![("id"@, id@), ("page"@, page@)]),
{
    let e = OutgoingEvent::PageView { id, page };
    (status::CREATED, outgoing_record(&e))
}

/// The user name made of a buzzword and a profession.
pub open spec fn username_text(buzz: Seq<char>, profession: Seq<char>) -> Seq<char> {
    buzz + seq![' '] + profession
}

/// A user name holds the whole buzzword, then one space, then the whole
/// profession, and nothing else.
pub proof fn lemma_username_parts(buzz: Seq<char>, profession: Seq<char>)
    ensures
        username_text(buzz, profession).len() == buzz.len() + 1 + profession.len(),
        username_text(buzz, profession).subrange(0, buzz.len() as int) == buzz,
        username_text(buzz, profession)[buzz.len() as int] == ' ',
        username_text(buzz, profession).subrange(
            buzz.len() + 1int,
            buzz.len() + 1int + profession.len(),
        ) == profession,
{
    let u = username_text(buzz, profession);
    assert(u.subrange(0, buzz.len() as int) =~= buzz);
    assert(u.subrange(buzz.len() + 1int, buzz.len() + 1int + profession.len()) =~= profession);
}

/// What a user creation with id `id` and user name `username` answers and
/// publishes: `201 Created` with the user, then the creation on `identity` and
/// a view of the page `/` by the new user on `pageview`.
pub open spec fn user_created(r: (u16, User, Vec<ProducedRecord>), id: Seq<char>, username: Seq<char>) -> bool {
    &&& r.0 == status::CREATED
    &&& r.1.id@ == id
    &&& r.1.username@ == username
    &&& r.2.len() == 2
    &&& r.2[0]@ == record_spec(EventKind::Create, seq![("id"@, id), ("username"@, username)])
    &&& r.2[1]@ == record_spec(EventKind::PageView, seq![("id"@, id), ("page"@, "/"@)])
}

/// Creates the user `id` named after `buzz` and `profession`.
pub fn create_user_with(id: String, buzz: String, profession: String) -> (r: (
    u16,
    User,
    Vec<ProducedRecord>,
))
    ensures
        user_created(r, id@, username_text(buzz@, profession@)),
{
    let mut username = buzz;
    username.append(" ");
    username.append(profession.as_str());
    proof {
        reveal_strlit(" ");
        assert(username@ =~= username_text(buzz@, profession@));
    }
    let create = outgoing_record(&OutgoingEvent::Create { id: id.clone(), username: username.clone() });
    let browse = outgoing_record(&OutgoingEvent::PageView { id: id.clone(), page: String::from_str("/") });
    let mut records: Vec<ProducedRecord> = Vec::new();
    records.push(create);
    records.push(browse);
    (status::CREATED, User { id, username }, records)
}

/// A random buzzword from the `fake` crate (`Buzzword().fake::<String>()`).
/// Trusted: the word is not empty, as no word of the list it is drawn from
/// (`COMPANY_BUZZWORD_HEAD`) is. Which word comes is not stated: it is drawn
/// at random.
#[verifier::external_body]
fn fake_buzzword() -> (w: String)
    ensures
        w@.len() > 0,
{
    fake::Fake::fake::<String>(&fake::faker::company::en::Buzzword())
}

/// A random profession from the `fake` crate (`Profession().fake::<String>()`).
/// Trusted: the word is not empty, as no word of the list it is drawn from
/// (`COMPANY_PROFESSION`) is. Which word comes is not stated: it is drawn at
/// random.
#[verifier::external_body]
fn fake_profession() -> (w: String)
    ensures
        w@.len() > 0,
{
    fake::Fake::fake::<String>(&fake::faker::company::en::Profession())
}

/// Creates a user with a random version-4 UUID and a random name made of a
/// non-empty buzzword, one space and a non-empty profession.
pub fn create_user() -> (r: (u16, User, Vec<ProducedRecord>))
    ensures
        exists|x: u128, buzz: Seq<char>, profession: Seq<char>|
            is_v4(x) && buzz.len() > 0 && profession.len() > 0
                && #[trigger] user_created(r, uuid_text(x), username_text(buzz, profession)),
{
    let x = new_v4();
    let id = uuid_to_string(x);
    let buzz = fake_buzzword();
    let profession = fake_profession();
    let r = create_user_with(id, buzz, profession);
    assert(is_v4(x) && buzz@.len() > 0 && profession@.len() > 0
        && user_created(r, uuid_text(x), username_text(buzz@, profession@)));
    r
}

} // verus!
