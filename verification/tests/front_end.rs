use socialnetwork::clock::{display_time, is_displayable};
use socialnetwork::pages::{
    analytics, backend_url, community, followers, fortune, fortune_profile, handle_404, index,
    post, post_entry, profile_view, redirect_follower, user_entry, BackendRoute, Pages, Profiles,
};

#[test]
fn times_are_shown_to_the_minute() {
    assert_eq!(display_time(1_700_000_000_000), "2023-11-14 22:13");
    assert_eq!(display_time(0), "1970-01-01 00:00");
    assert_eq!(display_time(86_399_999), "1970-01-01 23:59");
    assert_eq!(display_time(1_725_029_869_123), "2024-08-30 14:57");
}

#[test]
fn negative_millis_round_toward_zero() {
    assert_eq!(display_time(-1), "1970-01-01 00:00");
    assert_eq!(display_time(-999), "1970-01-01 00:00");
    assert_eq!(display_time(-1000), "1969-12-31 23:59");
}

#[test]
fn extreme_displayable_times() {
    assert!(display_time(8_210_266_876_799_999).ends_with("262142-12-31 23:59"));
    assert!(display_time(-8_334_601_228_800_999).ends_with("262143-01-01 00:00"));
}

#[test]
fn displayable_range() {
    assert!(is_displayable(0));
    assert!(is_displayable(8_210_266_876_799_999));
    assert!(!is_displayable(8_210_266_876_800_000));
    assert!(is_displayable(-8_334_601_228_800_999));
    assert!(!is_displayable(-8_334_601_228_801_000));
    assert!(!is_displayable(i64::MAX));
    assert!(!is_displayable(i64::MIN));
}

#[test]
fn listed_users_and_posts() {
    let u = user_entry("id1".to_string(), "Ann".to_string(), 1_700_000_000_000);
    assert_eq!((u.id.as_str(), u.name.as_str(), u.regdate.as_str()), ("id1", "Ann", "2023-11-14 22:13"));
    let p = post_entry("S".to_string(), "C".to_string(), "p1".to_string(), 0);
    assert_eq!(
        (p.subject.as_str(), p.content.as_str(), p.post_id.as_str(), p.ts.as_str()),
        ("S", "C", "p1", "1970-01-01 00:00")
    );
}

#[test]
fn page_titles() {
    assert_eq!(index().title, "Home");
    assert_eq!(post().title, "Speak Up!");
    assert_eq!(redirect_follower().title, "Followers");
    assert_eq!(fortune().title, "Wheel of Fortune");
    let nf = handle_404("/nowhere".to_string());
    assert_eq!((nf.title.as_str(), nf.uri.as_str()), ("404", "/nowhere"));
    let c = community(vec![user_entry("a".to_string(), "A".to_string(), 0)]);
    assert_eq!(c.title, "Community");
    assert_eq!(c.users[0].name, "A");
    let f = followers(vec![], vec![user_entry("b".to_string(), "B".to_string(), 0)]);
    assert_eq!(f.title, "Followers");
    assert!(f.followers.is_empty());
    assert_eq!(f.followed[0].id, "b");
    let pv = profile_view(vec![], user_entry("c".to_string(), "C".to_string(), 0));
    assert_eq!(pv.title, "View Profile");
    assert_eq!(pv.user.name, "C");
    let an = analytics(
        vec![Pages { page: "/".to_string(), count: 2 }],
        vec![Profiles { name: "A".to_string(), id: "a".to_string(), count: 1 }],
    );
    assert_eq!(an.title, "Analytics");
    assert_eq!(an.pages[0].count, 2);
    assert_eq!(an.profiles[0].id, "a");
}

#[test]
fn fortune_outcomes() {
    let t = fortune_profile("me", false, None);
    assert_eq!(t.title, "Draw Result");
    assert!(!t.status.available && !t.status.win);
    let t = fortune_profile("me", true, Some("me".to_string()));
    assert!(t.status.available && t.status.win);
    let t = fortune_profile("me", true, Some("you".to_string()));
    assert!(t.status.available && !t.status.win);
}

#[test]
fn backend_addresses() {
    let b = "127.0.0.1:3001";
    assert_eq!(backend_url(b, &BackendRoute::List), "http://127.0.0.1:3001/list");
    assert_eq!(backend_url(b, &BackendRoute::Posts("u".to_string())), "http://127.0.0.1:3001/posts/u");
    assert_eq!(backend_url(b, &BackendRoute::User("u".to_string())), "http://127.0.0.1:3001/user/u");
    assert_eq!(
        backend_url(b, &BackendRoute::UserCount("u".to_string())),
        "http://127.0.0.1:3001/user/u/count"
    );
    assert_eq!(
        backend_url(b, &BackendRoute::Followers("u".to_string())),
        "http://127.0.0.1:3001/followers/u"
    );
    assert_eq!(
        backend_url(b, &BackendRoute::Followed("u".to_string())),
        "http://127.0.0.1:3001/followed/u"
    );
    assert_eq!(backend_url(b, &BackendRoute::DrawStatus), "http://127.0.0.1:3001/draw/status");
    assert_eq!(backend_url(b, &BackendRoute::DrawResult), "http://127.0.0.1:3001/draw/result");
    assert_eq!(backend_url(b, &BackendRoute::PageHits), "http://127.0.0.1:3001/page_hits");
    assert_eq!(backend_url(b, &BackendRoute::ProfileHits), "http://127.0.0.1:3001/profile_hits");
}
