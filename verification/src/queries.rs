//! The back end's read side: the rows its queries return, shaped into the
//! responses it answers with. Timestamps are milliseconds since the UNIX epoch.
use vstd::prelude::*;
use vstd::string::*;

use crate::ids::{uuid_text, uuid_to_string};
use crate::status;

verus! {

/// A user: id, name and registration (or follow) time.
pub struct UserInfo {
    pub id: u128,
    pub name: String,
    pub regdate: i64,
}

/// How often a page was viewed.
pub struct Pages {
    pub page: String,
    pub count: i64,
}

/// How often a profile was viewed, with the profile's name.
pub struct ProfileHits {
    pub profile_id: u128,
    pub profile_name: String,
    pub count: i64,
}

/// A post as the back end answers it; the post id is written as text.
pub struct PostResponse {
    pub post_id: String,
    pub subject: String,
    pub content: String,
    pub ts: i64,
}

/// How often a post was liked.
pub struct PostLike {
    pub count: i64,
}

/// A user's follower count and profile views.
pub struct UserResponse {
    pub id: u128,
    pub follower_count: i64,
    pub profile_views: i64,
}

/// One row of a follow relation: the other user's id and when.
pub struct FollowerInfo {
    pub id: u128,
    pub ts: i64,
}

/// `u` holds the row `(id, name, regdate)`.
pub open spec fn user_matches(u: UserInfo, row: (u128, String, i64)) -> bool {
    u.id == row.0 && u.name@ == row.1@ && u.regdate == row.2
}

/// All users, one per row of `users`, in row order.
pub fn userlist(rows: &Vec<(u128, String, i64)>) -> (r: (u16, Vec<UserInfo>))
    ensures
        r.0 == status::OK,
        r.1.len() == rows.len(),
        forall|i: int| 0 <= i < rows.len() ==> user_matches(#[trigger] r.1@[i], rows@[i]),
{
    let mut out: Vec<UserInfo> = Vec::new();
    let mut i: usize = 0;
    while i < rows.len()
        invariant
            0 <= i <= rows.len(),
            out.len() == i,
            forall|j: int| 0 <= j < i ==> user_matches(#[trigger] out@[j], rows@[j]),
        decreases rows.len() - i,
    {
        out.push(UserInfo { id: rows[i].0, name: rows[i].1.clone(), regdate: rows[i].2 });
        i = i + 1;
    }
    (status::OK, out)
}

/// The view count of each page, one per row of `page_count`, in row order.
pub fn page_hits(rows: &Vec<(String, i64)>) -> (r: (u16, Vec<Pages>))
    ensures
        r.0 == status::OK,
        r.1.len() == rows.len(),
        forall|i: int|
            0 <= i < rows.len() ==> (#[trigger] r.1@[i]).page@ == rows@[i].0@ && r.1@[i].count
                == rows@[i].1,
{
    let mut out: Vec<Pages> = Vec::new();
    let mut i: usize = 0;
    while i < rows.len()
        invariant
            0 <= i <= rows.len(),
            out.len() == i,
            forall|j: int|
                0 <= j < i ==> (#[trigger] out@[j]).page@ == rows@[j].0@ && out@[j].count
                    == rows@[j].1,
        decreases rows.len() - i,
    {
        out.push(Pages { page: rows[i].0.clone(), count: rows[i].1 });
        i = i + 1;
    }
    (status::OK, out)
}

/// `r` holds one entry per row `(id, count)`, in row order, named by `names`.
pub open spec fn profile_hits_answer(rows: Seq<(u128, i64)>, names: Seq<String>, r: Seq<ProfileHits>) -> bool {
    &&& r.len() == rows.len()
    &&& forall|i: int|
        0 <= i < rows.len() ==> {
            &&& (#[trigger] r[i]).profile_id == rows[i].0
            &&& r[i].profile_name@ == names[i]@
            &&& r[i].count == rows[i].1
        }
}

/// The view count of each profile, one per row `(id, count)` of
/// `profile_views`, with the name looked up for that row.
pub fn profile_hits(rows: &Vec<(u128, i64)>, names: &Vec<String>) -> (r: (u16, Vec<ProfileHits>))
    requires
        names.len() == rows.len(),
    ensures
        r.0 == status::OK,
        profile_hits_answer(rows@, names@, r.1@),
{
    let mut out: Vec<ProfileHits> = Vec::new();
    let mut i: usize = 0;
    while i < rows.len()
        invariant
            0 <= i <= rows.len(),
            names.len() == rows.len(),
            out.len() == i,
            forall|j: int|
                0 <= j < i ==> {
                    &&& (#[trigger] out@[j]).profile_id == rows@[j].0
                    &&& out@[j].profile_name@ == names@[j]@
                    &&& out@[j].count == rows@[j].1
                },
        decreases rows.len() - i,
    {
        out.push(ProfileHits { profile_id: rows[i].0, profile_name: names[i].clone(), count: rows[i].1 });
        i = i + 1;
    }
    (status::OK, out)
}

/// `r` holds one user per row `(id, ts)`, in row order, named by `names`,
/// with the follow time as `regdate`.
pub open spec fn named_rows_answer(rows: Seq<(u128, i64)>, names: Seq<String>, r: Seq<UserInfo>) -> bool {
    &&& r.len() == rows.len()
    &&& forall|i: int|
        0 <= i < rows.len() ==> user_matches(#[trigger] r[i], (rows[i].0, names[i], rows[i].1))
}

/// The other users of a follow relation, one per row `(id, ts)`, each with
/// the name looked up for that row; the follow time stands as `regdate`.
pub fn named_follows(rows: &Vec<(u128, i64)>, names: &Vec<String>) -> (r: Vec<UserInfo>)
    requires
        names.len() == rows.len(),
    ensures
        named_rows_answer(rows@, names@, r@),
{
    let mut follows: Vec<FollowerInfo> = Vec::new();
    let mut i: usize = 0;
    while i < rows.len()
        invariant
            0 <= i <= rows.len(),
            follows.len() == i,
            forall|j: int| 0 <= j < i ==> (#[trigger] follows@[j]).id == rows@[j].0 && follows@[j].ts == rows@[j].1,
        decreases rows.len() - i,
    {
        follows.push(FollowerInfo { id: rows[i].0, ts: rows[i].1 });
        i = i + 1;
    }
    let mut out: Vec<UserInfo> = Vec::new();
    let mut k: usize = 0;
    while k < follows.len()
        invariant
            0 <= k <= follows.len(),
            follows.len() == rows.len(),
            names.len() == rows.len(),
            forall|j: int| 0 <= j < rows.len() ==> (#[trigger] follows@[j]).id == rows@[j].0 && follows@[j].ts == rows@[j].1,
            out.len() == k,
            forall|j: int| 0 <= j < k ==> user_matches(#[trigger] out@[j], (rows@[j].0, names@[j], rows@[j].1)),
        decreases follows.len() - k,
    {
        out.push(UserInfo { id: follows[k].id, name: names[k].clone(), regdate: follows[k].ts });
        k = k + 1;
    }
    out
}

/// The users that follow the user asked for (rows of `followers`), each named.
pub fn followers_by_id(rows: &Vec<(u128, i64)>, names: &Vec<String>) -> (r: (u16, Vec<UserInfo>))
    requires
        names.len() == rows.len(),
    ensures
        r.0 == status::OK,
        named_rows_answer(rows@, names@, r.1@),
{
    (status::OK, named_follows(rows, names))
}

/// The users that the user asked for follows (rows of `follows`), each named.
pub fn followed_by_id(rows: &Vec<(u128, i64)>, names: &Vec<String>) -> (r: (u16, Vec<UserInfo>))
    requires
        names.len() == rows.len(),
    ensures
        r.0 == status::OK,
        named_rows_answer(rows@, names@, r.1@),
{
    (status::OK, named_follows(rows, names))
}

/// The like count of a post: that of its `post_likes` row, 0 without one.
pub fn post_likes(counts: &Vec<i64>) -> (r: (u16, PostLike))
    ensures
        r.0 == status::OK,
        r.1.count == if counts.len() == 0 { 0 } else { counts@[0] },
{
    let mut like_count: i64 = 0;
    if counts.len() > 0 {
        like_count = counts[0];
    }
    (status::OK, PostLike { count: like_count })
}

/// The answer to a lookup of the user `id` whose rows are `rows`.
pub open spec fn user_answer(id: u128, rows: Seq<(u128, String, i64)>, r: (u16, UserInfo)) -> bool {
    &&& rows.len() == 0 ==> r.0 == status::NOT_FOUND && r.1.id == id && r.1.name@ == "Dummy"@
        && r.1.regdate == 0
    &&& rows.len() > 0 ==> r.0 == status::OK && user_matches(r.1, rows.last())
}

/// The user `id` as `users` holds it: `404 Not Found` with a placeholder named
/// `Dummy` registered at 0 when there is no row; else `200 OK` with the last row.
pub fn user(id: u128, rows: &Vec<(u128, String, i64)>) -> (r: (u16, UserInfo))
    ensures
        user_answer(id, rows@, r),
{
    if rows.len() == 0 {
        (status::NOT_FOUND, UserInfo { id, name: String::from_str("Dummy"), regdate: 0 })
    } else {
        let mut y = UserInfo { id, name: String::new(), regdate: 0 };
        let mut i: usize = 0;
        while i < rows.len()
            invariant
                0 <= i <= rows.len(),
                rows.len() > 0,
                i > 0 ==> user_matches(y, rows@[i - 1]),
            decreases rows.len() - i,
        {
            y = UserInfo { id: rows[i].0, name: rows[i].1.clone(), regdate: rows[i].2 };
            i = i + 1;
        }
        (status::OK, y)
    }
}

/// `r` holds one post per row `(ts, content, post_id, subject)`, in row
/// order, the post id written as a hyphenated UUID.
pub open spec fn posts_answer(rows: Seq<(i64, String, u128, String)>, r: Seq<PostResponse>) -> bool {
    &&& r.len() == rows.len()
    &&& forall|i: int|
        0 <= i < rows.len() ==> {
            &&& (#[trigger] r[i]).post_id@ == uuid_text(rows[i].2)
            &&& r[i].subject@ == rows[i].3@
            &&& r[i].content@ == rows[i].1@
            &&& r[i].ts == rows[i].0
        }
}

/// A user's posts, one per row `(ts, content, post_id, subject)` of `posts`,
/// in row order, the post id written as a hyphenated UUID.
pub fn posts_by_user(rows: &Vec<(i64, String, u128, String)>) -> (r: (u16, Vec<PostResponse>))
    ensures
        r.0 == status::OK,
        posts_answer(rows@, r.1@),
{
    let mut out: Vec<PostResponse> = Vec::new();
    let mut i: usize = 0;
    while i < rows.len()
        invariant
            0 <= i <= rows.len(),
            out.len() == i,
            forall|j: int|
                0 <= j < i ==> {
                    &&& (#[trigger] out@[j]).post_id@ == uuid_text(rows@[j].2)
                    &&& out@[j].subject@ == rows@[j].3@
                    &&& out@[j].content@ == rows@[j].1@
                    &&& out@[j].ts == rows@[j].0
                },
        decreases rows.len() - i,
    {
        out.push(
            PostResponse {
                post_id: uuid_to_string(rows[i].2),
                subject: rows[i].3.clone(),
                content: rows[i].1.clone(),
                ts: rows[i].0,
            },
        );
        i = i + 1;
    }
    (status::OK, out)
}

/// Whether a user query of kind `kind` asks for counts: only the kind `count`.
pub fn wants_counts(kind: &str) -> (b: bool)
    ensures
        b == (kind@ == "count"@),
{
    String::from_str(kind) == String::from_str("count")
}

/// The answer to a user query about `id`. With `counts`, the query asked for
/// counts and `counts` holds the follower count and the `profile_views` count
/// column (no row, no view); without, both counts are 0.
pub fn query_users(id: u128, counts: Option<(i64, Vec<i64>)>) -> (r: (u16, UserResponse))
    ensures
        r.0 == status::OK,
        r.1.id == id,
        counts is None ==> r.1.follower_count == 0 && r.1.profile_views == 0,
        counts matches Some(c) ==> r.1.follower_count == c.0 && r.1.profile_views == if c.1.len()
            == 0 {
            0
        } else {
            c.1@[0]
        },
{
    match counts {
        Some((followers, views)) => {
            let pviews: i64 = if views.len() == 0 {
                0
            } else {
                views[0]
            };
            (status::OK, UserResponse { id, follower_count: followers, profile_views: pviews })
        },
        None => (status::OK, UserResponse { id, follower_count: 0, profile_views: 0 }),
    }
}

} // verus!
