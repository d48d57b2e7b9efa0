//! The kinds of events that travel through the message broker: the name each
//! carries in its `EVENT_TYPE` header and the topic it is published on.
use vstd::prelude::*;
use vstd::string::*;

verus! {

/// Every event that the web services publish and the consumer applies.
#[derive(Clone, Copy, Debug, PartialEq, Eq, Structural)]
pub enum EventKind {
    Create,
    PageView,
    Post,
    PostLike,
    Follow,
    UserView,
    GameDraw,
    WinnerSubmit,
}

/// The name of the record header that carries the event type.
pub open spec fn event_type_header_spec() -> Seq<char> {
    "EVENT_TYPE"@
}

/// The event-type name of each kind.
pub open spec fn event_type_spec(k: EventKind) -> Seq<char> {
    match k {
        EventKind::Create => "CREATE"@,
        EventKind::PageView => "PAGE_VIEW"@,
        EventKind::Post => "POST"@,
        EventKind::PostLike => "POST_LIKE"@,
        EventKind::Follow => "FOLLOW"@,
        EventKind::UserView => "USER_VIEW"@,
        EventKind::GameDraw => "GAME_DRAW"@,
        EventKind::WinnerSubmit => "WINNER_SUBMIT"@,
    }
}

/// The topic each kind is published on.
pub open spec fn topic_spec(k: EventKind) -> Seq<char> {
    match k {
        EventKind::Create | EventKind::UserView => "identity"@,
        EventKind::PageView => "pageview"@,
        EventKind::Post | EventKind::PostLike => "posts"@,
        EventKind::Follow => "follow"@,
        EventKind::GameDraw | EventKind::WinnerSubmit => "game"@,
    }
}

/// The kind an event-type name stands for, if any.
pub open spec fn kind_of_name(s: Seq<char>) -> Option<EventKind> {
    if s == "CREATE"@ {
        Some(EventKind::Create)
    } else if s == "PAGE_VIEW"@ {
        Some(EventKind::PageView)
    } else if s == "POST"@ {
        Some(EventKind::Post)
    } else if s == "POST_LIKE"@ {
        Some(EventKind::PostLike)
    } else if s == "FOLLOW"@ {
        Some(EventKind::Follow)
    } else if s == "USER_VIEW"@ {
        Some(EventKind::UserView)
    } else if s == "GAME_DRAW"@ {
        Some(EventKind::GameDraw)
    } else if s == "WINNER_SUBMIT"@ {
        Some(EventKind::WinnerSubmit)
    } else {
        None
    }
}

/// The name of the header that carries the event type.
pub fn event_type_header() -> (s: String)
    ensures
        s@ == event_type_header_spec(),
{
    String::from_str("EVENT_TYPE")
}

/// The event-type name of `k`.
pub fn event_type_name(k: EventKind) -> (s: String)
    ensures
        s@ == event_type_spec(k),
{
    match k {
        EventKind::Create => String::from_str("CREATE"),
        EventKind::PageView => String::from_str("PAGE_VIEW"),
        EventKind::Post => String::from_str("POST"),
        EventKind::PostLike => String::from_str("POST_LIKE"),
        EventKind::Follow => String::from_str("FOLLOW"),
        EventKind::UserView => String::from_str("USER_VIEW"),
        EventKind::GameDraw => String::from_str("GAME_DRAW"),
        EventKind::WinnerSubmit => String::from_str("WINNER_SUBMIT"),
    }
}

/// The topic that events of kind `k` are published on.
pub fn topic_of(k: EventKind) -> (s: String)
    ensures
        s@ == topic_spec(k),
{
    match k {
        EventKind::Create | EventKind::UserView => String::from_str("identity"),
        EventKind::PageView => String::from_str("pageview"),
        EventKind::Post | EventKind::PostLike => String::from_str("posts"),
        EventKind::Follow => String::from_str("follow"),
        EventKind::GameDraw | EventKind::WinnerSubmit => String::from_str("game"),
    }
}

/// Recognises an event-type name; `None` for a name no event carries.
pub fn parse_event_type(s: &str) -> (r: Option<EventKind>)
    ensures
        r == kind_of_name(s@),
{
    let t = String::from_str(s);
    if t == String::from_str("CREATE") {
        Some(EventKind::Create)
    } else if t == String::from_str("PAGE_VIEW") {
        Some(EventKind::PageView)
    } else if t == String::from_str("POST") {
        Some(EventKind::Post)
    } else if t == String::from_str("POST_LIKE") {
        Some(EventKind::PostLike)
    } else if t == String::from_str("FOLLOW") {
        Some(EventKind::Follow)
    } else if t == String::from_str("USER_VIEW") {
        Some(EventKind::UserView)
    } else if t == String::from_str("GAME_DRAW") {
        Some(EventKind::GameDraw)
    } else if t == String::from_str("WINNER_SUBMIT") {
        Some(EventKind::WinnerSubmit)
    } else {
        None
    }
}

/// Each event-type name is recognised as the kind it names.
pub proof fn lemma_event_type_round_trip(k: EventKind)
    ensures
        kind_of_name(event_type_spec(k)) == Some(k),
{
    reveal_strlit("CREATE");
    reveal_strlit("PAGE_VIEW");
    reveal_strlit("POST");
    reveal_strlit("POST_LIKE");
    reveal_strlit("FOLLOW");
    reveal_strlit("USER_VIEW");
    reveal_strlit("GAME_DRAW");
    reveal_strlit("WINNER_SUBMIT");
    // The names differ in length or in one of their first two characters.
    assert("CREATE"@.len() == 6 && "CREATE"@[0] == 'C');
    assert("PAGE_VIEW"@.len() == 9 && "PAGE_VIEW"@[0] == 'P' && "PAGE_VIEW"@[1] == 'A');
    assert("POST"@.len() == 4);
    assert("POST_LIKE"@.len() == 9 && "POST_LIKE"@[0] == 'P' && "POST_LIKE"@[1] == 'O');
    assert("FOLLOW"@.len() == 6 && "FOLLOW"@[0] == 'F');
    assert("USER_VIEW"@.len() == 9 && "USER_VIEW"@[0] == 'U');
    assert("GAME_DRAW"@.len() == 9 && "GAME_DRAW"@[0] == 'G');
    assert("WINNER_SUBMIT"@.len() == 13);
}

} // verus!
