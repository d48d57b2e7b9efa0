use socialnetwork::pages::{
    analytics_page, community_page, draw_status_read, followers_page, fortune_profile_page,
    profile_page,
};

#[test]
fn community_lists_the_users_in_order() {
    let text = r#"[{"id":"a","name":"Ann","regdate":1700000000000},{"id":"b","name":"Bob","regdate":59999}]"#;
    let page = community_page(text).unwrap();
    assert_eq!(page.title, "Community");
    assert_eq!(page.users.len(), 2);
    assert_eq!(
        (page.users[0].id.as_str(), page.users[0].name.as_str(), page.users[0].regdate.as_str()),
        ("a", "Ann", "2023-11-14 22:13")
    );
    assert_eq!(
        (page.users[1].id.as_str(), page.users[1].name.as_str(), page.users[1].regdate.as_str()),
        ("b", "Bob", "1970-01-01 00:00")
    );
    assert!(community_page("[]").unwrap().users.is_empty());
}

#[test]
fn community_refuses_unreadable_users() {
    assert!(community_page(r#"[{"id":"a","name":"Ann","regdate":"0"}]"#).is_none());
    assert!(community_page(r#"[{"id":"a","regdate":0}]"#).is_none());
    assert!(community_page(r#"[{"id":7,"name":"Ann","regdate":0}]"#).is_none());
    assert!(community_page(r#"[{"id":"a","name":"Ann","regdate":1.5}]"#).is_none());
    assert!(community_page(r#"[{"id":"a","name":"Ann","regdate":18446744073709551615}]"#).is_none());
    assert!(community_page(r#"[{"id":"a","name":"Ann","regdate":9223372036854775807}]"#).is_none());
    assert!(community_page(r#"{"id":"a","name":"Ann","regdate":0}"#).is_none());
    assert!(community_page("not json").is_none());
}

#[test]
fn negative_times_round_toward_zero() {
    let page = community_page(r#"[{"id":"a","name":"A","regdate":-1}]"#).unwrap();
    assert_eq!(page.users[0].regdate, "1970-01-01 00:00");
    let page = community_page(r#"[{"id":"a","name":"A","regdate":-1000}]"#).unwrap();
    assert_eq!(page.users[0].regdate, "1969-12-31 23:59");
}

#[test]
fn followers_keeps_both_lists_apart() {
    let f = r#"[{"id":"f","name":"F","regdate":0}]"#;
    let g = r#"[{"id":"g1","name":"G1","regdate":0},{"id":"g2","name":"G2","regdate":60000}]"#;
    let page = followers_page(f, g).unwrap();
    assert_eq!(page.title, "Followers");
    assert_eq!(page.followers.len(), 1);
    assert_eq!(page.followers[0].id, "f");
    assert_eq!(page.followed.len(), 2);
    assert_eq!(page.followed[1].name, "G2");
    assert_eq!(page.followed[1].regdate, "1970-01-01 00:01");
    assert!(followers_page(f, "[{}]").is_none());
    assert!(followers_page("nope", g).is_none());
}

#[test]
fn profile_lists_posts_and_user() {
    let posts = r#"[{"post_id":"p1","subject":"S","content":"C","ts":1700000000000},{"post_id":"p2","subject":"T","content":"D","ts":0}]"#;
    let user = r#"{"id":"u","name":"Ann","regdate":0}"#;
    let page = profile_page(posts, user).unwrap();
    assert_eq!(page.title, "View Profile");
    assert_eq!(page.posts.len(), 2);
    assert_eq!(
        (page.posts[0].subject.as_str(), page.posts[0].content.as_str(), page.posts[0].post_id.as_str(), page.posts[0].ts.as_str()),
        ("S", "C", "p1", "2023-11-14 22:13")
    );
    assert_eq!(page.posts[1].post_id, "p2");
    assert_eq!((page.user.id.as_str(), page.user.name.as_str(), page.user.regdate.as_str()), ("u", "Ann", "1970-01-01 00:00"));
    assert!(profile_page(posts, r#"{"id":"u","name":"Ann"}"#).is_none());
    assert!(profile_page(r#"[{"post_id":"p1","subject":"S","ts":0}]"#, user).is_none());
    assert!(profile_page("[]", user).unwrap().posts.is_empty());
}

#[test]
fn analytics_lists_counts() {
    let pages = r#"[{"page":"/","count":3},{"page":"/post","count":1}]"#;
    let profiles = r#"[{"profile_id":"u","profile_name":"Ann","count":7}]"#;
    let page = analytics_page(pages, profiles).unwrap();
    assert_eq!(page.title, "Analytics");
    assert_eq!((page.pages[0].page.as_str(), page.pages[0].count), ("/", 3));
    assert_eq!((page.pages[1].page.as_str(), page.pages[1].count), ("/post", 1));
    assert_eq!(
        (page.profiles[0].name.as_str(), page.profiles[0].id.as_str(), page.profiles[0].count),
        ("Ann", "u", 7)
    );
    assert!(analytics_page(r#"[{"page":"/","count":"3"}]"#, profiles).is_none());
    assert!(analytics_page(pages, r#"[{"profile_id":"u","count":7}]"#).is_none());
}

#[test]
fn fortune_reads_the_draw() {
    assert_eq!(draw_status_read(r#"{"status":true}"#), Some(true));
    assert_eq!(draw_status_read(r#"{"status":false}"#), Some(false));
    assert_eq!(draw_status_read(r#"{"status":1}"#), None);
    assert_eq!(draw_status_read("x"), None);
    let t = fortune_profile_page("me", r#"{"status":false}"#, None).unwrap();
    assert_eq!(t.title, "Draw Result");
    assert!(!t.status.available && !t.status.win);
    let t = fortune_profile_page("me", r#"{"status":true}"#, Some(r#"{"id":"me"}"#)).unwrap();
    assert!(t.status.available && t.status.win);
    let t = fortune_profile_page("me", r#"{"status":true}"#, Some(r#"{"id":"you"}"#)).unwrap();
    assert!(t.status.available && !t.status.win);
    assert!(fortune_profile_page("me", r#"{"status":true}"#, None).is_none());
    assert!(fortune_profile_page("me", r#"{"status":true}"#, Some(r#"{"id":3}"#)).is_none());
    assert!(fortune_profile_page("me", "{}", None).is_none());
}
