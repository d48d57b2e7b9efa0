//! The front end's pages: the values each page template is rendered from,
//! built from what the back end answered, and the back-end addresses asked.
use vstd::prelude::*;
use vstd::string::*;

use crate::answers::{
    decimal_i64, field_views, json_list_fields, json_object_fields, key_views, parse_i64,
    parse_json_list, parse_json_object, row_views, FieldView, JsonField,
};
use crate::clock::{display_time, displayable_millis, is_displayable, minute_text, whole_seconds};

verus! {

/// A user as a page lists it; the registration time is shown to the minute.
pub struct Users {
    pub id: String,
    pub name: String,
    pub regdate: String,
}

/// A post as a page lists it; the posting time is shown to the minute.
pub struct Posts {
    pub subject: String,
    pub content: String,
    pub ts: String,
    pub post_id: String,
}

/// A page and how often it was viewed.
pub struct Pages {
    pub page: String,
    pub count: i64,
}

/// A profile and how often it was viewed.
pub struct Profiles {
    pub name: String,
    pub id: String,
    pub count: i64,
}

/// The outcome of the draw for one visitor: whether a winner has been drawn,
/// and whether it is the visitor.
pub struct GameResult {
    pub available: bool,
    pub win: bool,
}

/// The home page.
pub struct PageTemplate {
    pub title: String,
}

/// Who follows a user, and whom the user follows.
pub struct FollowerTemplate {
    pub title: String,
    pub followers: Vec<Users>,
    pub followed: Vec<Users>,
}

/// The page that asks whose followers to show.
pub struct RedirectFTemplate {
    pub title: String,
}

/// Page views and profile views.
pub struct AnalyticsTemplate {
    pub title: String,
    pub pages: Vec<Pages>,
    pub profiles: Vec<Profiles>,
}

/// All users.
pub struct CommunityTemplate {
    pub title: String,
    pub users: Vec<Users>,
}

/// A user and the user's posts.
pub struct ProfileTemplate {
    pub title: String,
    pub posts: Vec<Posts>,
    pub user: Users,
}

/// The page to write a post.
pub struct PostTemplate {
    pub title: String,
}

/// The wheel of fortune.
pub struct FortuneTemplate {
    pub title: String,
}

/// The outcome of the draw for one visitor.
pub struct FortuneResultTemplate {
    pub title: String,
    pub status: GameResult,
}

/// The page for an address that leads nowhere.
pub struct NotFoundTemplate {
    pub title: String,
    pub uri: String,
}

/// A listed user: id and name as given, the registration time `regdate_ms`
/// (milliseconds) shown to the minute.
pub fn user_entry(id: String, name: String, regdate_ms: i64) -> (u: Users)
    requires
        displayable_millis(regdate_ms),
    ensures
        u.id@ == id@,
        u.name@ == name@,
        u.regdate@ == minute_text(whole_seconds(regdate_ms) as i64),
{
    let regdate = display_time(regdate_ms);
    Users { id, name, regdate }
}

/// A listed post: subject, content and id as given, the time `ts_ms`
/// (milliseconds) shown to the minute.
pub fn post_entry(subject: String, content: String, post_id: String, ts_ms: i64) -> (p: Posts)
    requires
        displayable_millis(ts_ms),
    ensures
        p.subject@ == subject@,
        p.content@ == content@,
        p.post_id@ == post_id@,
        p.ts@ == minute_text(whole_seconds(ts_ms) as i64),
{
    let ts = display_time(ts_ms);
    Posts { subject, content, ts, post_id }
}

/// The home page, titled `Home`.
pub fn index() -> (t: PageTemplate)
    ensures
        t.title@ == "Home"@,
{
    PageTemplate { title: String::from_str("Home") }
}

/// All users, titled `Community`.
pub fn community(users: Vec<Users>) -> (t: CommunityTemplate)
    ensures
        t.title@ == "Community"@,
        t.users == users,
{
    CommunityTemplate { title: String::from_str("Community"), users }
}

/// A user's profile with the user's posts, titled `View Profile`.
pub fn profile_view(posts: Vec<Posts>, user: Users) -> (t: ProfileTemplate)
    ensures
        t.title@ == "View Profile"@,
        t.posts == posts,
        t.user == user,
{
    ProfileTemplate { title: String::from_str("View Profile"), posts, user }
}

/// A user's followers and followed users, titled `Followers`.
pub fn followers(follower_list: Vec<Users>, followed_list: Vec<Users>) -> (t: FollowerTemplate)
    ensures
        t.title@ == "Followers"@,
        t.followers == follower_list,
        t.followed == followed_list,
{
    FollowerTemplate {
        title: String::from_str("Followers"),
        followers: follower_list,
        followed: followed_list,
    }
}

/// The page to write a post, titled `Speak Up!`.
pub fn post() -> (t: PostTemplate)
    ensures
        t.title@ == "Speak Up!"@,
{
    PostTemplate { title: String::from_str("Speak Up!") }
}

/// The page that asks whose followers to show, titled `Followers`.
pub fn redirect_follower() -> (t: RedirectFTemplate)
    ensures
        t.title@ == "Followers"@,
{
    RedirectFTemplate { title: String::from_str("Followers") }
}

/// The wheel of fortune, titled `Wheel of Fortune`.
pub fn fortune() -> (t: FortuneTemplate)
    ensures
        t.title@ == "Wheel of Fortune"@,
{
    FortuneTemplate { title: String::from_str("Wheel of Fortune") }
}

/// The outcome of the draw for the visitor `id`, titled `Draw Result`:
/// `status` tells whether a winner has been drawn, and `winner` is the
/// winner's id, asked for only when one has been drawn. The visitor wins
/// exactly when a winner has been drawn and it is the visitor.
pub fn fortune_profile(id: &str, status: bool, winner: Option<String>) -> (t: FortuneResultTemplate)
    requires
        winner is Some <==> status,
    ensures
        t.title@ == "Draw Result"@,
        t.status.available == status,
        t.status.win == (status && winner->0@ == id@),
{
    let mut i = GameResult { available: status, win: false };
    if status {
        match winner {
            Some(w) => {
                if w == String::from_str(id) {
                    i = GameResult { available: status, win: true };
                }
            },
            None => {},
        }
    }
    FortuneResultTemplate { title: String::from_str("Draw Result"), status: i }
}

/// Page views and profile views, titled `Analytics`.
pub fn analytics(pages: Vec<Pages>, profiles: Vec<Profiles>) -> (t: AnalyticsTemplate)
    ensures
        t.title@ == "Analytics"@,
        t.pages == pages,
        t.profiles == profiles,
{
    AnalyticsTemplate { title: String::from_str("Analytics"), pages, profiles }
}

/// The page for the address `uri` that leads nowhere, titled `404`.
pub fn handle_404(uri: String) -> (t: NotFoundTemplate)
    ensures
        t.title@ == "404"@,
        t.uri@ == uri@,
{
    NotFoundTemplate { title: String::from_str("404"), uri }
}

/// The back-end requests the front end makes.
pub enum BackendRoute {
    /// All users.
    List,
    /// A user's posts.
    Posts(String),
    /// A user.
    User(String),
    /// Counts a visit of a user's profile.
    UserCount(String),
    /// A user's followers.
    Followers(String),
    /// The users a user follows.
    Followed(String),
    /// Whether a winner has been drawn.
    DrawStatus,
    /// The drawn winner.
    DrawResult,
    /// Page views.
    PageHits,
    /// Profile views.
    ProfileHits,
}

/// The path of a back-end request.
pub open spec fn route_path(route: BackendRoute) -> Seq<char> {
    match route {
        BackendRoute::List => "/list"@,
        BackendRoute::Posts(id) => "/posts/"@ + id@,
        BackendRoute::User(id) => "/user/"@ + id@,
        BackendRoute::UserCount(id) => "/user/"@ + id@ + "/count"@,
        BackendRoute::Followers(id) => "/followers/"@ + id@,
        BackendRoute::Followed(id) => "/followed/"@ + id@,
        BackendRoute::DrawStatus => "/draw/status"@,
        BackendRoute::DrawResult => "/draw/result"@,
        BackendRoute::PageHits => "/page_hits"@,
        BackendRoute::ProfileHits => "/profile_hits"@,
    }
}

/// The address of a back-end request to the back end at `backend`:
/// `http://`, the back end, the path.
pub fn backend_url(backend: &str, route: &BackendRoute) -> (u: String)
    ensures
        u@ == "http://"@ + backend@ + route_path(*route),
{
    let mut u = String::from_str("http://");
    u.append(backend);
    match route {
        BackendRoute::List => u.append("/list"),
        BackendRoute::Posts(id) => {
            u.append("/posts/");
            u.append(id.as_str());
        },
        BackendRoute::User(id) => {
            u.append("/user/");
            u.append(id.as_str());
        },
        BackendRoute::UserCount(id) => {
            u.append("/user/");
            u.append(id.as_str());
            u.append("/count");
        },
        BackendRoute::Followers(id) => {
            u.append("/followers/");
            u.append(id.as_str());
        },
        BackendRoute::Followed(id) => {
            u.append("/followed/");
            u.append(id.as_str());
        },
        BackendRoute::DrawStatus => u.append("/draw/status"),
        BackendRoute::DrawResult => u.append("/draw/result"),
        BackendRoute::PageHits => u.append("/page_hits"),
        BackendRoute::ProfileHits => u.append("/profile_hits"),
    }
    assert(u@ =~= "http://"@ + backend@ + route_path(*route));
    u
}


/// The members read from each user the back end answers.
pub open spec fn user_keys() -> Seq<Seq<char>> {
    seq!["id"@, "name"@, "regdate"@]
}

/// The members read from each post the back end answers.
pub open spec fn post_keys() -> Seq<Seq<char>> {
    seq!["subject"@, "content"@, "post_id"@, "ts"@]
}

/// The members read from each page count the back end answers.
pub open spec fn page_keys() -> Seq<Seq<char>> {
    seq!["page"@, "count"@]
}

/// The members read from each profile count the back end answers.
pub open spec fn profile_keys() -> Seq<Seq<char>> {
    seq!["count"@, "profile_id"@, "profile_name"@]
}

/// A time member that can be shown: its JSON text is a decimal integer of
/// milliseconds that can be shown.
pub open spec fn time_ok(f: FieldView) -> bool {
    decimal_i64(f.rendered) matches Some(ms) && displayable_millis(ms)
}

/// The text shown for a time member.
pub open spec fn time_text(f: FieldView) -> Seq<char> {
    minute_text(whole_seconds(decimal_i64(f.rendered)->0) as i64)
}

/// A user answer (`id`, `name`, `regdate`) can be listed: string id and name,
/// and a time that can be shown.
pub open spec fn user_fields_ok(f: Seq<FieldView>) -> bool {
    f.len() == 3 && f[0].text is Some && f[1].text is Some && time_ok(f[2])
}

/// `u` lists the user answer `f`.
pub open spec fn user_from_fields(u: Users, f: Seq<FieldView>) -> bool {
    u.id@ == f[0].text->0 && u.name@ == f[1].text->0 && u.regdate@ == time_text(f[2])
}

/// `users` list the user answers `rows`, one each, in order.
pub open spec fn users_from_rows(rows: Seq<Seq<FieldView>>, users: Seq<Users>) -> bool {
    users.len() == rows.len() && forall|i: int| 0 <= i < rows.len() ==> user_from_fields(#[trigger] users[i], rows[i])
}

/// A list of users can be read from `text`: it is a JSON list, and each user can be listed.
pub open spec fn user_list_ok(text: Seq<char>) -> bool {
    json_list_fields(text, user_keys()) matches Some(rows) && forall|i: int|
        0 <= i < rows.len() ==> user_fields_ok(#[trigger] rows[i])
}

/// A post answer (`subject`, `content`, `post_id`, `ts`) can be listed.
pub open spec fn post_fields_ok(f: Seq<FieldView>) -> bool {
    f.len() == 4 && f[0].text is Some && f[1].text is Some && f[2].text is Some && time_ok(f[3])
}

/// `p` lists the post answer `f`.
pub open spec fn post_from_fields(p: Posts, f: Seq<FieldView>) -> bool {
    p.subject@ == f[0].text->0 && p.content@ == f[1].text->0 && p.post_id@ == f[2].text->0
        && p.ts@ == time_text(f[3])
}

/// `posts` list the post answers `rows`, one each, in order.
pub open spec fn posts_from_rows(rows: Seq<Seq<FieldView>>, posts: Seq<Posts>) -> bool {
    posts.len() == rows.len() && forall|i: int| 0 <= i < rows.len() ==> post_from_fields(#[trigger] posts[i], rows[i])
}

/// A page count answer (`page`, `count`) can be listed.
pub open spec fn page_fields_ok(f: Seq<FieldView>) -> bool {
    f.len() == 2 && f[0].text is Some && f[1].int is Some
}

/// `p` lists the page count answer `f`.
pub open spec fn page_from_fields(p: Pages, f: Seq<FieldView>) -> bool {
    p.page@ == f[0].text->0 && p.count == f[1].int->0
}

/// A profile count answer (`count`, `profile_id`, `profile_name`) can be listed.
pub open spec fn profile_fields_ok(f: Seq<FieldView>) -> bool {
    f.len() == 3 && f[0].int is Some && f[1].text is Some && f[2].text is Some
}

/// `p` lists the profile count answer `f`.
pub open spec fn profile_from_fields(p: Profiles, f: Seq<FieldView>) -> bool {
    p.count == f[0].int->0 && p.id@ == f[1].text->0 && p.name@ == f[2].text->0
}

fn read_time(f: &JsonField) -> (r: Option<i64>)
    ensures
        r is Some <==> time_ok(f@),
        r matches Some(ms) ==> ms == decimal_i64(f@.rendered)->0,
{
    match parse_i64(f.rendered.as_str()) {
        Some(ms) => if is_displayable(ms) {
            Some(ms)
        } else {
            None
        },
        None => None,
    }
}

fn read_text(f: &JsonField) -> (r: Option<String>)
    ensures
        r.deep_view() == f@.text,
{
    match &f.text {
        Some(t) => Some(t.clone()),
        None => None,
    }
}

/// Lists the user answers `rows`; `None` when one of them cannot be listed.
pub fn users_from_json(rows: &Vec<Vec<JsonField>>) -> (r: Option<Vec<Users>>)
    ensures
        r is Some <==> forall|i: int| 0 <= i < rows.len() ==> user_fields_ok(#[trigger] row_views(rows@)[i]),
        r matches Some(us) ==> users_from_rows(row_views(rows@), us@),
{
    let ghost rv = row_views(rows@);
    let mut out: Vec<Users> = Vec::new();
    let mut i: usize = 0;
    while i < rows.len()
        invariant
            0 <= i <= rows.len(),
            rv == row_views(rows@),
            rv.len() == rows.len(),
            out.len() == i,
            forall|j: int| 0 <= j < i ==> user_fields_ok(#[trigger] rv[j]),
            forall|j: int| 0 <= j < i ==> user_from_fields(#[trigger] out@[j], rv[j]),
        decreases rows.len() - i,
    {
        let f = &rows[i];
        assert(rv[i as int] == field_views(f@));
        if f.len() != 3 {
            return None;
        }
        assert(field_views(f@)[0] == f@[0]@ && field_views(f@)[1] == f@[1]@ && field_views(f@)[2] == f@[2]@);
        let id = match read_text(&f[0]) {
            Some(t) => t,
            None => return None,
        };
        let name = match read_text(&f[1]) {
            Some(t) => t,
            None => return None,
        };
        let ms = match read_time(&f[2]) {
            Some(ms) => ms,
            None => return None,
        };
        out.push(user_entry(id, name, ms));
        i = i + 1;
    }
    Some(out)
}

/// Lists the post answers `rows`; `None` when one of them cannot be listed.
pub fn posts_from_json(rows: &Vec<Vec<JsonField>>) -> (r: Option<Vec<Posts>>)
    ensures
        r is Some <==> forall|i: int| 0 <= i < rows.len() ==> post_fields_ok(#[trigger] row_views(rows@)[i]),
        r matches Some(ps) ==> posts_from_rows(row_views(rows@), ps@),
{
    let ghost rv = row_views(rows@);
    let mut out: Vec<Posts> = Vec::new();
    let mut i: usize = 0;
    while i < rows.len()
        invariant
            0 <= i <= rows.len(),
            rv == row_views(rows@),
            rv.len() == rows.len(),
            out.len() == i,
            forall|j: int| 0 <= j < i ==> post_fields_ok(#[trigger] rv[j]),
            forall|j: int| 0 <= j < i ==> post_from_fields(#[trigger] out@[j], rv[j]),
        decreases rows.len() - i,
    {
        let f = &rows[i];
        assert(rv[i as int] == field_views(f@));
        if f.len() != 4 {
            return None;
        }
        assert(field_views(f@)[0] == f@[0]@ && field_views(f@)[1] == f@[1]@ && field_views(f@)[2] == f@[2]@
            && field_views(f@)[3] == f@[3]@);
        let ms = match read_time(&f[3]) {
            Some(ms) => ms,
            None => return None,
        };
        let subject = match read_text(&f[0]) {
            Some(t) => t,
            None => return None,
        };
        let content = match read_text(&f[1]) {
            Some(t) => t,
            None => return None,
        };
        let post_id = match read_text(&f[2]) {
            Some(t) => t,
            None => return None,
        };
        out.push(post_entry(subject, content, post_id, ms));
        i = i + 1;
    }
    Some(out)
}

fn users_from_list(text: &str) -> (r: Option<Vec<Users>>)
    ensures
        r is Some <==> user_list_ok(text@),
        r matches Some(us) ==> users_from_rows(json_list_fields(text@, user_keys())->0, us@),
{
    let keys: [&str; 3] = ["id", "name", "regdate"];
    assert(key_views(keys@) =~= user_keys());
    let rows = match parse_json_list(text, &keys) {
        Some(rows) => rows,
        None => return None,
    };
    assert(json_list_fields(text@, user_keys()) == Some(row_views(rows@)));
    match users_from_json(&rows) {
        Some(us) => Some(us),
        None => {
            let ghost k = choose|k: int| 0 <= k < rows.len() && !user_fields_ok(#[trigger] row_views(rows@)[k]);
            assert(!user_fields_ok(json_list_fields(text@, user_keys())->0[k]));
            None
        },
    }
}

/// The followers page from the back end's answers to `/followers/{id}` and
/// `/followed/{id}`; `None` when a user cannot be read.
pub fn followers_page(followers_text: &str, followed_text: &str) -> (r: Option<FollowerTemplate>)
    ensures
        r is Some <==> user_list_ok(followers_text@) && user_list_ok(followed_text@),
        r matches Some(t) ==> {
            &&& t.title@ == "Followers"@
            &&& users_from_rows(json_list_fields(followers_text@, user_keys())->0, t.followers@)
            &&& users_from_rows(json_list_fields(followed_text@, user_keys())->0, t.followed@)
        },
{
    let follower_list = match users_from_list(followers_text) {
        Some(us) => us,
        None => return None,
    };
    let followed_list = match users_from_list(followed_text) {
        Some(us) => us,
        None => return None,
    };
    Some(followers(follower_list, followed_list))
}

/// A list of posts can be read from `text`: it is a JSON list, and each post can be listed.
pub open spec fn post_list_ok(text: Seq<char>) -> bool {
    json_list_fields(text, post_keys()) matches Some(rows) && forall|i: int|
        0 <= i < rows.len() ==> post_fields_ok(#[trigger] rows[i])
}

/// A user can be read from `text`: it is JSON, and the user can be listed.
pub open spec fn user_object_ok(text: Seq<char>) -> bool {
    json_object_fields(text, user_keys()) matches Some(f) && user_fields_ok(f)
}

/// The profile page from the back end's answers to `/posts/{id}` and
/// `/user/{id}`; `None` when a post or the user cannot be read.
pub fn profile_page(posts_text: &str, user_text: &str) -> (r: Option<ProfileTemplate>)
    ensures
        r is Some <==> post_list_ok(posts_text@) && user_object_ok(user_text@),
        r matches Some(t) ==> {
            &&& t.title@ == "View Profile"@
            &&& posts_from_rows(json_list_fields(posts_text@, post_keys())->0, t.posts@)
            &&& user_from_fields(t.user, json_object_fields(user_text@, user_keys())->0)
        },
{
    let post_names: [&str; 4] = ["subject", "content", "post_id", "ts"];
    assert(key_views(post_names@) =~= post_keys());
    let user_names: [&str; 3] = ["id", "name", "regdate"];
    assert(key_views(user_names@) =~= user_keys());
    let rows = match parse_json_list(posts_text, &post_names) {
        Some(rows) => rows,
        None => return None,
    };
    let uf = match parse_json_object(user_text, &user_names) {
        Some(f) => f,
        None => return None,
    };
    assert(json_list_fields(posts_text@, post_keys()) == Some(row_views(rows@)));
    let posts = match posts_from_json(&rows) {
        Some(ps) => ps,
        None => {
            let ghost k = choose|k: int| 0 <= k < rows.len() && !post_fields_ok(#[trigger] row_views(rows@)[k]);
            assert(!post_fields_ok(json_list_fields(posts_text@, post_keys())->0[k]));
            return None;
        },
    };
    assert(field_views(uf@)[0] == uf@[0]@ && field_views(uf@)[1] == uf@[1]@ && field_views(uf@)[2] == uf@[2]@);
    let ms = match read_time(&uf[2]) {
        Some(ms) => ms,
        None => return None,
    };
    let id = match read_text(&uf[0]) {
        Some(t) => t,
        None => return None,
    };
    let name = match read_text(&uf[1]) {
        Some(t) => t,
        None => return None,
    };
    let user = user_entry(id, name, ms);
    Some(profile_view(posts, user))
}

/// Page counts can be read from `text`: a JSON list of page counts.
pub open spec fn page_list_ok(text: Seq<char>) -> bool {
    json_list_fields(text, page_keys()) matches Some(rows) && forall|i: int|
        0 <= i < rows.len() ==> page_fields_ok(#[trigger] rows[i])
}

/// Profile counts can be read from `text`: a JSON list of profile counts.
pub open spec fn profile_list_ok(text: Seq<char>) -> bool {
    json_list_fields(text, profile_keys()) matches Some(rows) && forall|i: int|
        0 <= i < rows.len() ==> profile_fields_ok(#[trigger] rows[i])
}

fn pages_from_list(text: &str) -> (r: Option<Vec<Pages>>)
    ensures
        r is Some <==> page_list_ok(text@),
        r matches Some(ps) ==> {
            let rows = json_list_fields(text@, page_keys())->0;
            &&& ps.len() == rows.len()
            &&& forall|i: int| 0 <= i < rows.len() ==> page_from_fields(#[trigger] ps@[i], rows[i])
        },
{
    let names: [&str; 2] = ["page", "count"];
    assert(key_views(names@) =~= page_keys());
    let rows = match parse_json_list(text, &names) {
        Some(rows) => rows,
        None => return None,
    };
    let ghost rv = row_views(rows@);
    assert(json_list_fields(text@, page_keys()) == Some(rv));
    let mut out: Vec<Pages> = Vec::new();
    let mut i: usize = 0;
    while i < rows.len()
        invariant
            0 <= i <= rows.len(),
            rv == row_views(rows@),
            rv.len() == rows.len(),
            json_list_fields(text@, page_keys()) == Some(rv),
            out.len() == i,
            forall|j: int| 0 <= j < i ==> page_fields_ok(#[trigger] rv[j]),
            forall|j: int| 0 <= j < i ==> page_from_fields(#[trigger] out@[j], rv[j]),
        decreases rows.len() - i,
    {
        let f = &rows[i];
        assert(rv[i as int] == field_views(f@));
        if f.len() != 2 {
            return None;
        }
        assert(field_views(f@)[0] == f@[0]@ && field_views(f@)[1] == f@[1]@);
        let page = match read_text(&f[0]) {
            Some(t) => t,
            None => return None,
        };
        let count = match f[1].int {
            Some(c) => c,
            None => return None,
        };
        out.push(Pages { page, count });
        i = i + 1;
    }
    Some(out)
}

fn profiles_from_list(text: &str) -> (r: Option<Vec<Profiles>>)
    ensures
        r is Some <==> profile_list_ok(text@),
        r matches Some(ps) ==> {
            let rows = json_list_fields(text@, profile_keys())->0;
            &&& ps.len() == rows.len()
            &&& forall|i: int| 0 <= i < rows.len() ==> profile_from_fields(#[trigger] ps@[i], rows[i])
        },
{
    let names: [&str; 3] = ["count", "profile_id", "profile_name"];
    assert(key_views(names@) =~= profile_keys());
    let rows = match parse_json_list(text, &names) {
        Some(rows) => rows,
        None => return None,
    };
    let ghost rv = row_views(rows@);
    assert(json_list_fields(text@, profile_keys()) == Some(rv));
    let mut out: Vec<Profiles> = Vec::new();
    let mut i: usize = 0;
    while i < rows.len()
        invariant
            0 <= i <= rows.len(),
            rv == row_views(rows@),
            rv.len() == rows.len(),
            json_list_fields(text@, profile_keys()) == Some(rv),
            out.len() == i,
            forall|j: int| 0 <= j < i ==> profile_fields_ok(#[trigger] rv[j]),
            forall|j: int| 0 <= j < i ==> profile_from_fields(#[trigger] out@[j], rv[j]),
        decreases rows.len() - i,
    {
        let f = &rows[i];
        assert(rv[i as int] == field_views(f@));
        if f.len() != 3 {
            return None;
        }
        assert(field_views(f@)[0] == f@[0]@ && field_views(f@)[1] == f@[1]@ && field_views(f@)[2] == f@[2]@);
        let count = match f[0].int {
            Some(c) => c,
            None => return None,
        };
        let id = match read_text(&f[1]) {
            Some(t) => t,
            None => return None,
        };
        let name = match read_text(&f[2]) {
            Some(t) => t,
            None => return None,
        };
        out.push(Profiles { name, id, count });
        i = i + 1;
    }
    Some(out)
}

/// The analytics page from the back end's answers to `/page_hits` and
/// `/profile_hits`; `None` when a count cannot be read.
pub fn analytics_page(pages_text: &str, profiles_text: &str) -> (r: Option<AnalyticsTemplate>)
    ensures
        r is Some <==> page_list_ok(pages_text@) && profile_list_ok(profiles_text@),
        r matches Some(t) ==> {
            let prs = json_list_fields(pages_text@, page_keys())->0;
            let qrs = json_list_fields(profiles_text@, profile_keys())->0;
            &&& t.title@ == "Analytics"@
            &&& t.pages.len() == prs.len()
            &&& forall|i: int| 0 <= i < prs.len() ==> page_from_fields(#[trigger] t.pages@[i], prs[i])
            &&& t.profiles.len() == qrs.len()
            &&& forall|i: int| 0 <= i < qrs.len() ==> profile_from_fields(#[trigger] t.profiles@[i], qrs[i])
        },
{
    let page_res = match pages_from_list(pages_text) {
        Some(ps) => ps,
        None => return None,
    };
    let profile_res = match profiles_from_list(profiles_text) {
        Some(ps) => ps,
        None => return None,
    };
    Some(analytics(page_res, profile_res))
}

/// Whether a winner has been drawn, as read from the back end's answer to
/// `/draw/status` (its boolean member `status`).
pub open spec fn draw_status_spec(text: Seq<char>) -> Option<bool> {
    match json_object_fields(text, seq!["status"@]) {
        Some(fs) => fs[0].flag,
        None => None,
    }
}

/// The winner's id, as read from the back end's answer to `/draw/result`
/// (its string member `id`).
pub open spec fn winner_spec(text: Seq<char>) -> Option<Seq<char>> {
    match json_object_fields(text, seq!["id"@]) {
        Some(fs) => fs[0].text,
        None => None,
    }
}

/// Reads whether a winner has been drawn; `None` when the answer has no
/// boolean `status`.
pub fn draw_status_read(status_text: &str) -> (r: Option<bool>)
    ensures
        r == draw_status_spec(status_text@),
{
    let names: [&str; 1] = ["status"];
    assert(key_views(names@) =~= seq!["status"@]);
    match parse_json_object(status_text, &names) {
        Some(fs) => {
            assert(field_views(fs@)[0] == fs@[0]@);
            fs[0].flag
        },
        None => None,
    }
}

/// The outcome of the draw for the visitor `id`, from the back end's answer
/// to `/draw/status` and, once a winner has been drawn, its answer to
/// `/draw/result`; `None` when an answer cannot be read, or when a winner has
/// been drawn and no answer to `/draw/result` is given.
pub fn fortune_profile_page(id: &str, status_text: &str, winner_text: Option<&str>) -> (r: Option<
    FortuneResultTemplate,
>)
    ensures
        draw_status_spec(status_text@) is None ==> r is None,
        draw_status_spec(status_text@) == Some(false) ==> (r is Some && r->0.title@ == "Draw Result"@
            && !r->0.status.available && !r->0.status.win),
        draw_status_spec(status_text@) == Some(true) && (winner_text is None || winner_spec(
            winner_text->0@,
        ) is None) ==> r is None,
        draw_status_spec(status_text@) == Some(true) && winner_text is Some && winner_spec(
            winner_text->0@,
        ) is Some ==> (r is Some && r->0.title@ == "Draw Result"@ && r->0.status.available
            && r->0.status.win == (winner_spec(winner_text->0@)->0 == id@)),
{
    let status = match draw_status_read(status_text) {
        Some(b) => b,
        None => return None,
    };
    if !status {
        return Some(fortune_profile(id, false, None));
    }
    let w = match winner_text {
        Some(w) => w,
        None => return None,
    };
    let names: [&str; 1] = ["id"];
    assert(key_views(names@) =~= seq!["id"@]);
    let fs = match parse_json_object(w, &names) {
        Some(fs) => fs,
        None => return None,
    };
    assert(field_views(fs@)[0] == fs@[0]@);
    let wid = match read_text(&fs[0]) {
        Some(t) => t,
        None => return None,
    };
    Some(fortune_profile(id, true, Some(wid)))
}

/// The community page from the back end's answer `text` to `/list`; `None`
/// when a user cannot be read.
pub fn community_page(text: &str) -> (r: Option<CommunityTemplate>)
    ensures
        r is Some <==> user_list_ok(text@),
        r matches Some(t) ==> t.title@ == "Community"@ && users_from_rows(
            json_list_fields(text@, user_keys())->0,
            t.users@,
        ),
{
    match users_from_list(text) {
        Some(users) => Some(community(users)),
        None => None,
    }
}

} // verus!
