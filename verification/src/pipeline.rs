//! Laws that tie what the web services publish to what the consumer reads.
use vstd::prelude::*;
use vstd::utf8::encode_utf8;

use crate::events::{event_type_header_spec, event_type_spec, lemma_event_type_round_trip, topic_spec};
use crate::ingest::{classify_spec, header_lookup, header_names_unique, utf8_text_spec, ClassView};
use crate::payload::{lemma_object_text_three, lemma_object_text_two, object_text};
use crate::produce::{outgoing_kind, outgoing_members, outgoing_record_spec, OutgoingEvent};
use crate::topics::consumed_topics_spec;

verus! {

broadcast use vstd::utf8::group_utf8_lib;

/// Text written as UTF-8 decodes back to itself.
pub proof fn lemma_utf8_round_trip(s: Seq<char>)
    ensures
        utf8_text_spec(vstd::utf8::encode_utf8(s)) == Some(s),
{
}

/// Every record a web service publishes has headers with distinct names, and
/// is read by the consumer as the event it was published as: the event-type
/// name of its kind, that kind, and the payload text.
pub proof fn lemma_published_event_is_read_back(e: OutgoingEvent)
    ensures
        header_names_unique(outgoing_record_spec(e).headers),
        ({
            let r = outgoing_record_spec(e);
            classify_spec(Some(r.value), r.headers) == ClassView::Event {
                event_type: event_type_spec(outgoing_kind(e)),
                kind: Some(outgoing_kind(e)),
                body: object_text(outgoing_members(e)),
            }
        }),
{
    let r = outgoing_record_spec(e);
    let k = outgoing_kind(e);
    lemma_utf8_round_trip(object_text(outgoing_members(e)));
    lemma_utf8_round_trip(event_type_spec(k));
    assert(r.headers[0].0 == event_type_header_spec());
    assert(header_lookup(r.headers, event_type_header_spec()) == Some(r.headers[0].1));
    lemma_event_type_round_trip(k);
}

/// Every record a web service publishes goes to a topic the consumer reads.
pub proof fn lemma_published_topic_is_consumed(e: OutgoingEvent)
    ensures
        consumed_topics_spec().contains(outgoing_record_spec(e).topic),
{
    let t = topic_spec(outgoing_kind(e));
    let c = consumed_topics_spec();
    if t == "identity"@ {
        assert(c[0] == t);
    } else if t == "pageview"@ {
        assert(c[1] == t);
    } else if t == "posts"@ {
        assert(c[2] == t);
    } else if t == "follow"@ {
        assert(c[3] == t);
    } else {
        assert(c[4] == t);
    }
}

/// The record published when `id` follows `followed_id` carries, in UTF-8,
/// `{ "id": "<id>", "followed_id": "<followed_id>" }`: the follower under
/// `id`, the user followed under `followed_id`, each in full.
pub proof fn lemma_follow_payload(id: String, followed_id: String)
    ensures
        outgoing_members(OutgoingEvent::Follow { id, followed_id })
            == seq![("id"@, id@), ("followed_id"@, followed_id@)],
        outgoing_record_spec(OutgoingEvent::Follow { id, followed_id }).value == encode_utf8(
            seq!['{', ' ', '"'] + "id"@ + seq!['"', ':', ' ', '"'] + id@
                + seq!['"', ',', ' ', '"'] + "followed_id"@ + seq!['"', ':', ' ', '"'] + followed_id@
                + seq!['"', ' ', '}'],
        ),
{
    lemma_object_text_two(("id"@, id@), ("followed_id"@, followed_id@));
}

/// The record published for a new post carries, in UTF-8,
/// `{ "id": "<id>", "subject": "<subject>", "content": "<content>" }`: the
/// author, the subject and the content, each in full, whatever its length.
pub proof fn lemma_post_payload(id: String, subject: String, content: String)
    ensures
        outgoing_members(OutgoingEvent::Post { id, subject, content })
            == seq![("id"@, id@), ("subject"@, subject@), ("content"@, content@)],
        outgoing_record_spec(OutgoingEvent::Post { id, subject, content }).value == encode_utf8(
            seq!['{', ' ', '"'] + "id"@ + seq!['"', ':', ' ', '"'] + id@
                + seq!['"', ',', ' ', '"'] + "subject"@ + seq!['"', ':', ' ', '"'] + subject@
                + seq!['"', ',', ' ', '"'] + "content"@ + seq!['"', ':', ' ', '"'] + content@
                + seq!['"', ' ', '}'],
        ),
{
    lemma_object_text_three(("id"@, id@), ("subject"@, subject@), ("content"@, content@));
}

} // verus!
