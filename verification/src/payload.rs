//! The text of a published event: a flat object of string members, written
//! as `{ "key": "value", "key2": "value2" }`. Values are written as they are,
//! without escaping.
use vstd::prelude::*;
use vstd::string::*;
use vstd::utf8::*;

verus! {

/// `s` between double quotes.
pub open spec fn quoted(s: Seq<char>) -> Seq<char> {
    seq!['"'] + s + seq!['"']
}

/// One member: `"key": "value"`.
pub open spec fn member_text(m: (Seq<char>, Seq<char>)) -> Seq<char> {
    quoted(m.0) + seq![':', ' '] + quoted(m.1)
}

/// The members in order, separated by `, `.
pub open spec fn members_text(ms: Seq<(Seq<char>, Seq<char>)>) -> Seq<char>
    decreases ms.len(),
{
    if ms.len() == 0 {
        Seq::empty()
    } else if ms.len() == 1 {
        member_text(ms[0])
    } else {
        members_text(ms.drop_last()) + seq![',', ' '] + member_text(ms.last())
    }
}

/// The whole object: `{ ` members ` }`.
pub open spec fn object_text(ms: Seq<(Seq<char>, Seq<char>)>) -> Seq<char> {
    seq!['{', ' '] + members_text(ms) + seq![' ', '}']
}

/// An object of two members is written `{ "k1": "v1", "k2": "v2" }`, each key
/// and value in full.
pub proof fn lemma_object_text_two(m0: (Seq<char>, Seq<char>), m1: (Seq<char>, Seq<char>))
    ensures
        object_text(seq![m0, m1]) == seq!['{', ' ', '"'] + m0.0 + seq!['"', ':', ' ', '"'] + m0.1
            + seq!['"', ',', ' ', '"'] + m1.0 + seq!['"', ':', ' ', '"'] + m1.1 + seq!['"', ' ', '}'],
{
    let ms = seq![m0, m1];
    assert(ms.drop_last() =~= seq![m0]);
    assert(members_text(ms.drop_last()) == member_text(m0));
    assert(object_text(ms) =~= seq!['{', ' ', '"'] + m0.0 + seq!['"', ':', ' ', '"'] + m0.1
        + seq!['"', ',', ' ', '"'] + m1.0 + seq!['"', ':', ' ', '"'] + m1.1 + seq!['"', ' ', '}']);
}

/// An object of three members is written
/// `{ "k1": "v1", "k2": "v2", "k3": "v3" }`, each key and value in full.
pub proof fn lemma_object_text_three(
    m0: (Seq<char>, Seq<char>),
    m1: (Seq<char>, Seq<char>),
    m2: (Seq<char>, Seq<char>),
)
    ensures
        object_text(seq![m0, m1, m2]) == seq!['{', ' ', '"'] + m0.0 + seq!['"', ':', ' ', '"'] + m0.1
            + seq!['"', ',', ' ', '"'] + m1.0 + seq!['"', ':', ' ', '"'] + m1.1
            + seq!['"', ',', ' ', '"'] + m2.0 + seq!['"', ':', ' ', '"'] + m2.1 + seq!['"', ' ', '}'],
{
    let ms = seq![m0, m1, m2];
    assert(ms.drop_last() =~= seq![m0, m1]);
    assert(seq![m0, m1].drop_last() =~= seq![m0]);
    assert(members_text(seq![m0, m1].drop_last()) == member_text(m0));
    assert(members_text(ms.drop_last()) == member_text(m0) + seq![',', ' '] + member_text(m1));
    assert(object_text(ms) =~= seq!['{', ' ', '"'] + m0.0 + seq!['"', ':', ' ', '"'] + m0.1
        + seq!['"', ',', ' ', '"'] + m1.0 + seq!['"', ':', ' ', '"'] + m1.1
        + seq!['"', ',', ' ', '"'] + m2.0 + seq!['"', ':', ' ', '"'] + m2.1 + seq!['"', ' ', '}']);
}

/// Writes one member `"key": "value"`.
pub fn member_string(key: &str, value: &str) -> (s: String)
    ensures
        s@ == member_text((key@, value@)),
{
    let mut s = String::from_str("\"");
    s.append(key);
    s.append("\": \"");
    s.append(value);
    s.append("\"");
    proof {
        reveal_strlit("\"");
        reveal_strlit("\": \"");
        assert(s@ =~= member_text((key@, value@)));
    }
    s
}

/// Writes the object whose members are `members`, in order.
pub fn object_string(members: &Vec<(String, String)>) -> (s: String)
    ensures
        s@ == object_text(members.deep_view()),
{
    let ghost ms = members.deep_view();
    let mut body = String::new();
    let mut i: usize = 0;
    while i < members.len()
        invariant
            0 <= i <= members.len(),
            ms == members.deep_view(),
            ms.len() == members.len(),
            body@ == members_text(ms.take(i as int)),
        decreases members.len() - i,
    {
        let m = member_string(members[i].0.as_str(), members[i].1.as_str());
        let ghost before = body@;
        if i > 0 {
            body.append(", ");
        }
        body.append(m.as_str());
        proof {
            reveal_strlit(", ");
            assert(ms[i as int] == (members@[i as int].0@, members@[i as int].1@));
            assert(ms.take(i + 1).drop_last() =~= ms.take(i as int));
            assert(ms.take(i + 1).last() == ms[i as int]);
            if i == 0 {
                assert(body@ =~= members_text(ms.take(1)));
            } else {
                assert(body@ =~= members_text(ms.take(i + 1)));
            }
        }
        i = i + 1;
    }
    assert(ms.take(members.len() as int) =~= ms);
    let mut s = String::from_str("{ ");
    s.append(body.as_str());
    s.append(" }");
    proof {
        reveal_strlit("{ ");
        reveal_strlit(" }");
        assert(s@ =~= object_text(ms));
    }
    s
}

/// The UTF-8 bytes of `s`.
pub fn utf8_bytes(s: &String) -> (b: Vec<u8>)
    ensures
        b@ == encode_utf8(s@),
{
    s.as_str().as_bytes_vec()
}

} // verus!
