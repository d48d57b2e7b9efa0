//! The database tables as the consumer's writes change them, and the laws
//! that tie an applied event to what the back end's queries then answer.
//! Timestamps are milliseconds since the UNIX epoch.
use vstd::prelude::*;

use crate::events::{event_type_spec, EventKind};
use crate::ingest::{plan_spec, IncomingEvent, WriteView};
use crate::game::{
    after_reset, apply_game_writes, lemma_draw_records_winner, lemma_reset_undoes_draw,
    winner_writes_spec, GameTables,
};
use crate::ids::uuid_text;
use crate::queries::{
    named_rows_answer, posts_answer, profile_hits_answer, user_answer, PostResponse, ProfileHits,
    UserInfo,
};
use crate::status;

verus! {

/// The tables the consumer writes, each keyed by its primary key.
pub struct Tables {
    /// `users`: id to (name, registration date).
    pub users: Map<u128, (Seq<char>, int)>,
    /// `events`: (id, event type, ts) to the source page.
    pub events: Map<(u128, Seq<char>, int), Option<Seq<char>>>,
    /// `page_count`: page to view count.
    pub page_count: Map<Seq<char>, int>,
    /// `profile_views`: profile id to view count.
    pub profile_views: Map<u128, int>,
    /// `posts`: (author id, ts, post id) to (subject, content).
    pub posts: Map<(u128, int, u128), (Seq<char>, Seq<char>)>,
    /// `post_likes`: post id to like count.
    pub post_likes: Map<u128, int>,
    /// `follows`: (id, follower) to the follow time.
    pub follows: Map<(u128, u128), int>,
    /// `game`: contestant id to (draw time, winner flag).
    pub game: Map<u128, (int, bool)>,
    /// `game`: contestant id to e-mail address.
    pub emails: Map<u128, Seq<char>>,
    /// `winner`: the drawn winners.
    pub winners: Set<u128>,
}

/// Adds one to the counter at `k`; a missing counter counts as 0.
pub open spec fn bump<K>(m: Map<K, int>, k: K) -> Map<K, int> {
    m.insert(k, if m.contains_key(k) { m[k] + 1 } else { 1 })
}

/// The tables after one write. An insert or update writes the row whether or
/// not it was there; a counter update adds one.
pub open spec fn apply_write(t: Tables, w: WriteView) -> Tables {
    match w {
        WriteView::AddUser { id, name, registration_date } => Tables {
            users: t.users.insert(id, (name, registration_date)),
            ..t
        },
        WriteView::StoreEvent { id, ts, event_type, src_page } => Tables {
            events: t.events.insert((id, event_type, ts), src_page),
            ..t
        },
        WriteView::CountPageView { page } => Tables { page_count: bump(t.page_count, page), ..t },
        WriteView::SavePost { id, ts, post_id, subject, content } => Tables {
            posts: t.posts.insert((id, ts, post_id), (subject, content)),
            ..t
        },
        WriteView::CountProfileView { id } => Tables { profile_views: bump(t.profile_views, id), ..t },
        WriteView::AddFollow { id, follower, ts } => Tables {
            follows: t.follows.insert((id, follower), ts),
            ..t
        },
        WriteView::CountPostLike { post_id } => Tables { post_likes: bump(t.post_likes, post_id), ..t },
        WriteView::EnterDraw { ts, winner, id } => Tables { game: t.game.insert(id, (ts, winner)), ..t },
        WriteView::SetWinnerEmail { email, id } => Tables { emails: t.emails.insert(id, email), ..t },
    }
}

/// The tables after a list of writes, applied in order.
pub open spec fn apply_writes(t: Tables, ws: Seq<WriteView>) -> Tables
    decreases ws.len(),
{
    if ws.len() == 0 {
        t
    } else {
        apply_writes(apply_write(t, ws[0]), ws.drop_first())
    }
}

/// The tables after the consumer applied `e`, recorded at `ts` milliseconds
/// (a post saved under `post_id`).
pub open spec fn apply_event(t: Tables, e: IncomingEvent, ts: int, post_id: u128) -> Tables {
    apply_writes(t, plan_spec(e, ts, post_id))
}

proof fn lemma_apply_two(t: Tables, w0: WriteView, w1: WriteView)
    ensures
        apply_writes(t, seq![w0, w1]) == apply_write(apply_write(t, w0), w1),
{
    let ws = seq![w0, w1];
    assert(ws.drop_first() =~= seq![w1]);
    assert(seq![w1].drop_first() =~= Seq::<WriteView>::empty());
    let t1 = apply_write(t, w0);
    assert(apply_writes(t1, seq![w1]) == apply_writes(apply_write(t1, w1), Seq::<WriteView>::empty()));
}

proof fn lemma_apply_one(t: Tables, w0: WriteView)
    ensures
        apply_writes(t, seq![w0]) == apply_write(t, w0),
{
    assert(seq![w0].drop_first() =~= Seq::<WriteView>::empty());
    assert(apply_writes(t, seq![w0]) == apply_writes(apply_write(t, w0), Seq::<WriteView>::empty()));
}


/// The keys `(id, follower)` of `follows` whose follower is `y`: the rows of
/// the `followers` view for `y`.
pub open spec fn follower_keys(t: Tables, y: u128) -> Set<(u128, u128)> {
    t.follows.dom().filter(|k: (u128, u128)| k.1 == y)
}

/// The follower count of `y`, as `SELECT COUNT(1) FROM ks.followers WHERE follower = y` answers it.
pub open spec fn follower_count(t: Tables, y: u128) -> int {
    follower_keys(t, y).len() as int
}

/// A follow of `y` by `x` that was not there before raises the follower count
/// of `y` by one and leaves the profile views as they were.
pub proof fn lemma_follow_raises_follower_count(t: Tables, x: u128, y: u128, ts: int, post_id: u128)
    requires
        t.follows.dom().finite(),
        !t.follows.contains_key((x, y)),
    ensures
        ({
            let after = apply_event(t, IncomingEvent::Follow { id: x, followed_id: y }, ts, post_id);
            &&& follower_keys(after, y).finite()
            &&& follower_count(after, y) == follower_count(t, y) + 1
            &&& after.profile_views == t.profile_views
        }),
{
    let e = IncomingEvent::Follow { id: x, followed_id: y };
    let ws = plan_spec(e, ts, post_id);
    lemma_apply_two(t, ws[0], ws[1]);
    assert(ws =~= seq![ws[0], ws[1]]);
    let after = apply_event(t, e, ts, post_id);
    assert(after.follows == t.follows.insert((x, y), ts));
    assert(follower_keys(after, y) =~= follower_keys(t, y).insert((x, y)));
    t.follows.dom().lemma_len_filter(|k: (u128, u128)| k.1 == y);
    assert(!follower_keys(t, y).contains((x, y)));
}

/// `rows` list the `followers` view for `y`: each follower `x` of `y` appears
/// with its follow time.
pub open spec fn lists_followers(t: Tables, y: u128, rows: Seq<(u128, i64)>) -> bool {
    forall|x: u128|
        #[trigger] t.follows.contains_key((x, y)) ==> exists|i: int|
            0 <= i < rows.len() && rows[i].0 == x && rows[i].1 as int == t.follows[(x, y)]
}

/// `names` are the names `users` holds for the ids of `rows`.
pub open spec fn names_looked_up(t: Tables, rows: Seq<(u128, i64)>, names: Seq<String>) -> bool {
    &&& names.len() == rows.len()
    &&& forall|i: int|
        0 <= i < rows.len() ==> t.users.contains_key(rows[i].0) && #[trigger] names[i]@
            == t.users[rows[i].0].0
}

/// After `x`, named `n`, follows `y` at `ts`, the followers of `y` that the
/// back end lists (from the view's rows and the looked-up names) include `x`
/// named `n` with the follow time `ts`.
pub proof fn lemma_follow_is_listed(
    t: Tables,
    x: u128,
    y: u128,
    n: Seq<char>,
    ts: int,
    post_id: u128,
    rows: Seq<(u128, i64)>,
    names: Seq<String>,
    r: Seq<UserInfo>,
)
    requires
        t.users.contains_key(x),
        t.users[x].0 == n,
        lists_followers(apply_event(t, IncomingEvent::Follow { id: x, followed_id: y }, ts, post_id), y, rows),
        names_looked_up(apply_event(t, IncomingEvent::Follow { id: x, followed_id: y }, ts, post_id), rows, names),
        named_rows_answer(rows, names, r),
    ensures
        exists|i: int| 0 <= i < r.len() && r[i].id == x && r[i].name@ == n && r[i].regdate == ts,
{
    let e = IncomingEvent::Follow { id: x, followed_id: y };
    let ws = plan_spec(e, ts, post_id);
    lemma_apply_two(t, ws[0], ws[1]);
    assert(ws =~= seq![ws[0], ws[1]]);
    let after = apply_event(t, e, ts, post_id);
    assert(after.follows.contains_key((x, y)) && after.follows[(x, y)] == ts);
    assert(after.users == t.users);
    let i = choose|i: int| 0 <= i < rows.len() && rows[i].0 == x && rows[i].1 as int == after.follows[(x, y)];
    assert(names[i]@ == n);
    assert(r[i].id == x && r[i].name@ == n && r[i].regdate == ts);
}

/// `rows` are what a lookup of the user `u` in `users` returns: its one row
/// when there is one, else none.
pub open spec fn lists_user(t: Tables, u: u128, rows: Seq<(u128, String, i64)>) -> bool {
    if t.users.contains_key(u) {
        rows.len() == 1 && rows[0].0 == u && rows[0].1@ == t.users[u].0 && rows[0].2 as int == t.users[u].1
    } else {
        rows.len() == 0
    }
}

/// After the creation of the user `u` named `n` at `ts`, the back end's
/// lookup of `u` answers `200 OK` with `u`, `n` and `ts`.
pub proof fn lemma_created_user_is_returned(
    t: Tables,
    u: u128,
    n: String,
    ts: int,
    post_id: u128,
    rows: Seq<(u128, String, i64)>,
    r: (u16, UserInfo),
)
    requires
        lists_user(apply_event(t, IncomingEvent::Create { id: u, username: n }, ts, post_id), u, rows),
        user_answer(u, rows, r),
    ensures
        r.0 == status::OK,
        r.1.id == u,
        r.1.name@ == n@,
        r.1.regdate == ts,
{
    let e = IncomingEvent::Create { id: u, username: n };
    let ws = plan_spec(e, ts, post_id);
    lemma_apply_two(t, ws[0], ws[1]);
    assert(ws =~= seq![ws[0], ws[1]]);
    let after = apply_event(t, e, ts, post_id);
    assert(after.users.contains_key(u) && after.users[u] == (n@, ts));
    assert(rows.last() == rows[0]);
}


/// The tables after one view of the profile `u` per time in `stamps`.
pub open spec fn after_profile_views(t: Tables, u: u128, stamps: Seq<int>) -> Tables
    decreases stamps.len(),
{
    if stamps.len() == 0 {
        t
    } else {
        apply_event(after_profile_views(t, u, stamps.drop_last()), IncomingEvent::UserView { id: u }, stamps.last(), 0)
    }
}

proof fn lemma_profile_views_counted(t: Tables, u: u128, stamps: Seq<int>)
    requires
        !t.profile_views.contains_key(u),
    ensures
        after_profile_views(t, u, stamps).users == t.users,
        stamps.len() > 0 ==> after_profile_views(t, u, stamps).profile_views.contains_key(u),
        stamps.len() > 0 ==> after_profile_views(t, u, stamps).profile_views[u] == stamps.len(),
        stamps.len() == 0 ==> !after_profile_views(t, u, stamps).profile_views.contains_key(u),
        forall|k: u128|
            k != u ==> (#[trigger] after_profile_views(t, u, stamps).profile_views.contains_key(k)
                == t.profile_views.contains_key(k)),
        forall|k: u128|
            k != u && t.profile_views.contains_key(k) ==> #[trigger] after_profile_views(t, u, stamps).profile_views[k]
                == t.profile_views[k],
    decreases stamps.len(),
{
    if stamps.len() > 0 {
        lemma_profile_views_counted(t, u, stamps.drop_last());
        let before = after_profile_views(t, u, stamps.drop_last());
        let e = IncomingEvent::UserView { id: u };
        let ws = plan_spec(e, stamps.last(), 0);
        lemma_apply_one(before, ws[0]);
        assert(ws =~= seq![ws[0]]);
        assert(after_profile_views(t, u, stamps).profile_views == bump(before.profile_views, u));
    }
}

/// `rows` list the counters of `m`, each key once.
pub open spec fn lists_counts(m: Map<u128, int>, rows: Seq<(u128, i64)>) -> bool {
    &&& forall|i: int|
        0 <= i < rows.len() ==> m.contains_key(#[trigger] rows[i].0) && rows[i].1 as int == m[rows[i].0]
    &&& forall|i: int, j: int| 0 <= i < j < rows.len() ==> #[trigger] rows[i].0 != #[trigger] rows[j].0
    &&& forall|k: u128| #[trigger] m.contains_key(k) ==> exists|i: int| 0 <= i < rows.len() && rows[i].0 == k
}

/// After `n >= 1` views of the profile `u`, named `name`, that had no view
/// before, the back end's profile hits hold exactly one entry for `u`: `u`,
/// `name`, and the count `n`.
pub proof fn lemma_profile_views_are_counted(
    t: Tables,
    u: u128,
    name: Seq<char>,
    stamps: Seq<int>,
    rows: Seq<(u128, i64)>,
    names: Seq<String>,
    r: Seq<ProfileHits>,
)
    requires
        !t.profile_views.contains_key(u),
        t.users.contains_key(u),
        t.users[u].0 == name,
        stamps.len() >= 1,
        lists_counts(after_profile_views(t, u, stamps).profile_views, rows),
        names_looked_up(after_profile_views(t, u, stamps), rows, names),
        profile_hits_answer(rows, names, r),
    ensures
        exists|i: int|
            0 <= i < r.len() && r[i].profile_id == u && r[i].profile_name@ == name && r[i].count
                == stamps.len(),
        forall|i: int, j: int|
            0 <= i < r.len() && 0 <= j < r.len() && r[i].profile_id == u && r[j].profile_id == u ==> i == j,
{
    lemma_profile_views_counted(t, u, stamps);
    let after = after_profile_views(t, u, stamps);
    assert(after.profile_views.contains_key(u));
    let i = choose|i: int| 0 <= i < rows.len() && rows[i].0 == u;
    assert(r[i].profile_id == u && r[i].profile_name@ == name && r[i].count == stamps.len());
    assert forall|i: int, j: int|
        0 <= i < r.len() && 0 <= j < r.len() && r[i].profile_id == u && r[j].profile_id == u implies i == j by {
        if i < j {
            assert(rows[i].0 != rows[j].0);
        } else if j < i {
            assert(rows[j].0 != rows[i].0);
        }
    }
}


/// The keys `(author, ts, post id)` of the posts of `u`.
pub open spec fn post_keys_of(t: Tables, u: u128) -> Set<(u128, int, u128)> {
    t.posts.dom().filter(|k: (u128, int, u128)| k.0 == u)
}

/// Whether some row of `rows` is the post with time `ts` and id `p`.
pub open spec fn lists_post(rows: Seq<(i64, String, u128, String)>, ts: int, p: u128) -> bool {
    exists|i: int| 0 <= i < rows.len() && rows[i].0 as int == ts && rows[i].2 == p
}

/// `rows` `(ts, content, post id, subject)` are what the query of the latest
/// posts of `u` (newest first, at most 9) returns: distinct posts of `u`,
/// newest first, and a post of `u` is left out only when 9 rows are returned,
/// none of them older than it.
pub open spec fn lists_latest_posts(t: Tables, u: u128, rows: Seq<(i64, String, u128, String)>) -> bool {
    &&& rows.len() <= 9
    &&& forall|i: int|
        0 <= i < rows.len() ==> {
            &&& t.posts.contains_key((u, #[trigger] rows[i].0 as int, rows[i].2))
            &&& t.posts[(u, rows[i].0 as int, rows[i].2)] == (rows[i].3@, rows[i].1@)
        }
    &&& forall|i: int, j: int|
        0 <= i < j < rows.len() ==> #[trigger] rows[i].0 >= #[trigger] rows[j].0 && (rows[i].0 != rows[j].0
            || rows[i].2 != rows[j].2)
    &&& forall|k: (u128, int, u128)|
        #[trigger] post_keys_of(t, u).contains(k) && !lists_post(rows, k.1, k.2) ==> rows.len() == 9
            && forall|i: int| 0 <= i < rows.len() ==> k.1 <= rows[i].0
}

/// The other posts of `u` that are not older than `ts`, besides the post `p`.
pub open spec fn newer_posts(t: Tables, u: u128, ts: int, p: u128) -> Set<(u128, int, u128)> {
    post_keys_of(t, u).filter(|k: (u128, int, u128)| k != (u, ts, p) && k.1 >= ts)
}

/// After `u` posts `subject` and `content` at `ts`, saved as `p`, the back
/// end's latest posts of `u` include that post, as long as fewer than 9
/// other posts of `u` are not older than it.
pub proof fn lemma_new_post_is_returned(
    t: Tables,
    u: u128,
    subject: String,
    content: String,
    ts: int,
    p: u128,
    rows: Seq<(i64, String, u128, String)>,
    r: Seq<PostResponse>,
)
    requires
        t.posts.dom().finite(),
        newer_posts(apply_event(t, IncomingEvent::Post { id: u, subject, content }, ts, p), u, ts, p).len() < 9,
        lists_latest_posts(apply_event(t, IncomingEvent::Post { id: u, subject, content }, ts, p), u, rows),
        posts_answer(rows, r),
    ensures
        exists|i: int|
            0 <= i < r.len() && r[i].post_id@ == uuid_text(p) && r[i].subject@ == subject@
                && r[i].content@ == content@ && r[i].ts == ts,
{
    let e = IncomingEvent::Post { id: u, subject, content };
    let ws = plan_spec(e, ts, p);
    lemma_apply_two(t, ws[0], ws[1]);
    assert(ws =~= seq![ws[0], ws[1]]);
    let after = apply_event(t, e, ts, p);
    let k0 = (u, ts, p);
    assert(after.posts == t.posts.insert(k0, (subject@, content@)));
    assert(post_keys_of(after, u).contains(k0));
    if !lists_post(rows, ts, p) {
        assert(rows.len() == 9);
        let keys = Seq::new(9, |i: int| (u, rows[i].0 as int, rows[i].2));
        assert forall|i: int, j: int| 0 <= i < keys.len() && 0 <= j < keys.len() && i != j implies keys[i]
            != keys[j] by {
            if i < j {
                assert(rows[i].0 != rows[j].0 || rows[i].2 != rows[j].2);
            } else {
                assert(rows[j].0 != rows[i].0 || rows[j].2 != rows[i].2);
            }
        }
        assert(keys.no_duplicates());
        keys.unique_seq_to_set();
        let newer = newer_posts(after, u, ts, p);
        assert forall|k: (u128, int, u128)| keys.to_set().contains(k) implies newer.contains(k) by {
            let i = choose|i: int| 0 <= i < keys.len() && keys[i] == k;
            assert(after.posts.contains_key((u, rows[i].0 as int, rows[i].2)));
            assert(k.1 >= ts);
            if k == k0 {
                assert(lists_post(rows, ts, p));
            }
        }
        after.posts.dom().lemma_len_filter(|k: (u128, int, u128)| k.0 == u);
        post_keys_of(after, u).lemma_len_filter(|k: (u128, int, u128)| k != (u, ts, p) && k.1 >= ts);
        vstd::set_lib::lemma_len_subset(keys.to_set(), newer);
        assert(false);
    }
    let i = choose|i: int| 0 <= i < rows.len() && rows[i].0 as int == ts && rows[i].2 == p;
    assert(after.posts[(u, rows[i].0 as int, rows[i].2)] == (rows[i].3@, rows[i].1@));
    assert(r[i].post_id@ == uuid_text(p) && r[i].subject@ == subject@ && r[i].content@ == content@
        && r[i].ts == ts);
}


/// A page view of `page` raises that page's count by one (from nothing to
/// one) and leaves the other pages' counts as they were.
pub proof fn lemma_page_view_counted(t: Tables, id: u128, page: String, ts: int, post_id: u128)
    ensures
        ({
            let after = apply_event(t, IncomingEvent::PageView { id, page }, ts, post_id);
            &&& after.page_count.contains_key(page@)
            &&& after.page_count[page@] == if t.page_count.contains_key(page@) {
                t.page_count[page@] + 1
            } else {
                1
            }
            &&& forall|p: Seq<char>|
                p != page@ ==> (#[trigger] after.page_count.contains_key(p) == t.page_count.contains_key(p)
                    && after.page_count[p] == t.page_count[p])
        }),
{
    let e = IncomingEvent::PageView { id, page };
    let ws = plan_spec(e, ts, post_id);
    lemma_apply_two(t, ws[0], ws[1]);
    assert(ws =~= seq![ws[0], ws[1]]);
}

/// A like of `post_id` raises that post's like count by one (from nothing to
/// one) and leaves the other posts' counts as they were.
pub proof fn lemma_like_counted(t: Tables, liked: u128, ts: int, post_id: u128)
    ensures
        ({
            let after = apply_event(t, IncomingEvent::PostLike { post_id: liked }, ts, post_id);
            &&& after.post_likes.contains_key(liked)
            &&& after.post_likes[liked] == if t.post_likes.contains_key(liked) {
                t.post_likes[liked] + 1
            } else {
                1
            }
            &&& forall|p: u128|
                p != liked ==> (#[trigger] after.post_likes.contains_key(p) == t.post_likes.contains_key(p)
                    && after.post_likes[p] == t.post_likes[p])
        }),
{
    let e = IncomingEvent::PostLike { post_id: liked };
    let ws = plan_spec(e, ts, post_id);
    lemma_apply_two(t, ws[0], ws[1]);
    assert(ws =~= seq![ws[0], ws[1]]);
}

/// A winner's e-mail address, once applied, is the address of that
/// contestant, whatever its id; no other table and no other contestant's
/// address changes.
pub proof fn lemma_winner_email_recorded(t: Tables, x: u128, email: String, ts: int, post_id: u128)
    ensures
        apply_event(t, IncomingEvent::WinnerSubmit { id: x, email }, ts, post_id)
            == (Tables { emails: t.emails.insert(x, email@), ..t }),
        ({
            let after = apply_event(t, IncomingEvent::WinnerSubmit { id: x, email }, ts, post_id);
            &&& after.emails.contains_key(x)
            &&& after.emails[x] == email@
            &&& forall|y: u128|
                y != x ==> (#[trigger] after.emails.contains_key(y) == t.emails.contains_key(y)
                    && after.emails[y] == t.emails[y])
        }),
{
    let e = IncomingEvent::WinnerSubmit { id: x, email };
    let ws = plan_spec(e, ts, post_id);
    lemma_apply_one(t, ws[0]);
    assert(ws =~= seq![ws[0]]);
}

/// A user creation, once applied, adds the user `id` with its name and the
/// time as registration date, and records the event; nothing else changes.
pub proof fn lemma_create_effect(t: Tables, id: u128, username: String, ts: int, post_id: u128)
    ensures
        apply_event(t, IncomingEvent::Create { id, username }, ts, post_id) == (Tables {
            users: t.users.insert(id, (username@, ts)),
            events: t.events.insert((id, event_type_spec(EventKind::Create), ts), None),
            ..t
        }),
{
    let e = IncomingEvent::Create { id, username };
    let ws = plan_spec(e, ts, post_id);
    lemma_apply_two(t, ws[0], ws[1]);
    assert(ws =~= seq![ws[0], ws[1]]);
}

/// A post, once applied, is saved under its author, time and post id with its
/// subject and content, and the event is recorded; nothing else changes.
pub proof fn lemma_post_effect(t: Tables, id: u128, subject: String, content: String, ts: int, post_id: u128)
    ensures
        apply_event(t, IncomingEvent::Post { id, subject, content }, ts, post_id) == (Tables {
            posts: t.posts.insert((id, ts, post_id), (subject@, content@)),
            events: t.events.insert((id, event_type_spec(EventKind::Post), ts), None),
            ..t
        }),
{
    let e = IncomingEvent::Post { id, subject, content };
    let ws = plan_spec(e, ts, post_id);
    lemma_apply_two(t, ws[0], ws[1]);
    assert(ws =~= seq![ws[0], ws[1]]);
}

/// A follow of `followed_id` by `id`, once applied, adds the row
/// `(id, followed_id)` with the time and records the event under `id`;
/// nothing else changes.
pub proof fn lemma_follow_effect(t: Tables, id: u128, followed_id: u128, ts: int, post_id: u128)
    ensures
        apply_event(t, IncomingEvent::Follow { id, followed_id }, ts, post_id) == (Tables {
            follows: t.follows.insert((id, followed_id), ts),
            events: t.events.insert((id, event_type_spec(EventKind::Follow), ts), None),
            ..t
        }),
{
    let e = IncomingEvent::Follow { id, followed_id };
    let ws = plan_spec(e, ts, post_id);
    lemma_apply_two(t, ws[0], ws[1]);
    assert(ws =~= seq![ws[0], ws[1]]);
}

/// A visit of the profile `id`, once applied, adds one to its view count and
/// changes nothing else.
pub proof fn lemma_profile_view_effect(t: Tables, id: u128, ts: int, post_id: u128)
    ensures
        apply_event(t, IncomingEvent::UserView { id }, ts, post_id)
            == (Tables { profile_views: bump(t.profile_views, id), ..t }),
{
    let e = IncomingEvent::UserView { id };
    let ws = plan_spec(e, ts, post_id);
    lemma_apply_one(t, ws[0]);
    assert(ws =~= seq![ws[0]]);
}

/// A draw entry of `id`, once applied, sets its row of `game` to the time and
/// no winner, and records the event; nothing else changes.
pub proof fn lemma_draw_entry_effect(t: Tables, id: u128, ts: int, post_id: u128)
    ensures
        apply_event(t, IncomingEvent::GameDraw { id }, ts, post_id) == (Tables {
            game: t.game.insert(id, (ts, false)),
            events: t.events.insert((id, event_type_spec(EventKind::GameDraw), ts), None),
            ..t
        }),
{
    let e = IncomingEvent::GameDraw { id };
    let ws = plan_spec(e, ts, post_id);
    lemma_apply_two(t, ws[0], ws[1]);
    assert(ws =~= seq![ws[0], ws[1]]);
}

/// The game tables as the draw sees them: the winner flag of each row of
/// `game`, and `winner`.
pub open spec fn game_view(t: Tables) -> GameTables {
    GameTables { flags: t.game.map_values(|r: (int, bool)| r.1), winners: t.winners }
}

/// `contestants` are what `SELECT id FROM ks.game` returns: the ids of the
/// rows of `game`, each of them.
pub open spec fn lists_contestants(t: Tables, contestants: Seq<u128>) -> bool {
    &&& forall|i: int| 0 <= i < contestants.len() ==> t.game.contains_key(#[trigger] contestants[i])
    &&& forall|k: u128| #[trigger] t.game.contains_key(k) ==> contestants.contains(k)
}

/// Once the draw entry of `x` has been applied, `x` is a contestant, not
/// flagged as the winner, and every listing of the contestants holds it.
pub proof fn lemma_draw_entry_makes_contestant(t: Tables, x: u128, ts: int, post_id: u128, contestants: Seq<u128>)
    requires
        lists_contestants(apply_event(t, IncomingEvent::GameDraw { id: x }, ts, post_id), contestants),
    ensures
        ({
            let after = apply_event(t, IncomingEvent::GameDraw { id: x }, ts, post_id);
            &&& after.game.contains_key(x)
            &&& after.game[x] == (ts, false)
            &&& !game_view(after).flags[x]
            &&& contestants.contains(x)
        }),
{
    let e = IncomingEvent::GameDraw { id: x };
    let ws = plan_spec(e, ts, post_id);
    lemma_apply_two(t, ws[0], ws[1]);
    assert(ws =~= seq![ws[0], ws[1]]);
    let after = apply_event(t, e, ts, post_id);
    assert(after.game.contains_key(x));
}

/// A draw picks among the users whose draw entry was applied: a winner drawn
/// from the listed contestants has a row in `game`, and after the draw's
/// writes it is flagged and recorded in `winner`.
pub proof fn lemma_draw_picks_an_entrant(t: Tables, contestants: Seq<u128>, w: u128)
    requires
        t.winners.finite(),
        lists_contestants(t, contestants),
        contestants.contains(w),
    ensures
        t.game.contains_key(w),
        ({
            let drawn = apply_game_writes(game_view(t), winner_writes_spec(w));
            drawn.flags.contains_key(w) && drawn.flags[w] && drawn.winners.contains(w)
        }),
{
    let i = choose|i: int| 0 <= i < contestants.len() && contestants[i] == w;
    assert(t.game.contains_key(contestants[i]));
    lemma_draw_records_winner(game_view(t), w);
}

/// A reset clears what a draw set: after a draw of `w` and then a reset of
/// the listed contestants, `winner` is empty and the contestant `c` is not
/// flagged.
pub proof fn lemma_reset_clears_draw(t: Tables, contestants: Seq<u128>, w: u128, c: u128)
    requires
        lists_contestants(t, contestants),
        t.game.contains_key(c),
    ensures
        ({
            let drawn = apply_game_writes(game_view(t), winner_writes_spec(w));
            let reset = after_reset(drawn, contestants);
            &&& reset.winners.finite() && reset.winners.len() == 0
            &&& reset.flags.contains_key(c) && !reset.flags[c]
        }),
{
    assert(contestants.contains(c));
    let drawn = apply_game_writes(game_view(t), winner_writes_spec(w));
    lemma_reset_undoes_draw(drawn, contestants, c);
}

} // verus!
