use socialnetwork::game::{draw_result, draw_status, draw_winner, reset_winner, winner_writes, GameWrite};
use socialnetwork::queries::{
    followed_by_id, followers_by_id, page_hits, post_likes, posts_by_user, profile_hits,
    query_users, user, userlist, wants_counts,
};
use socialnetwork::status;

#[test]
fn userlist_keeps_rows_in_order() {
    let rows = vec![(1u128, "Ann".to_string(), 10i64), (2u128, "Bob".to_string(), 20i64)];
    let (code, users) = userlist(&rows);
    assert_eq!(code, 200);
    assert_eq!(users.len(), 2);
    assert_eq!((users[1].id, users[1].name.as_str(), users[1].regdate), (2, "Bob", 20));
    assert_eq!(userlist(&vec![]).1.len(), 0);
}

#[test]
fn page_hits_keep_counts() {
    let (code, pages) = page_hits(&vec![("/".to_string(), 3), ("/post".to_string(), 1)]);
    assert_eq!(code, 200);
    assert_eq!((pages[0].page.as_str(), pages[0].count), ("/", 3));
    assert_eq!((pages[1].page.as_str(), pages[1].count), ("/post", 1));
}

#[test]
fn profile_hits_are_named() {
    let (code, hits) = profile_hits(&vec![(7, 4)], &vec!["Ann".to_string()]);
    assert_eq!(code, 200);
    assert_eq!((hits[0].profile_id, hits[0].profile_name.as_str(), hits[0].count), (7, "Ann", 4));
}

#[test]
fn follows_are_named_and_dated_by_the_follow() {
    let rows = vec![(3u128, 100i64), (4u128, 200i64)];
    let names = vec!["C".to_string(), "D".to_string()];
    let (code, users) = followers_by_id(&rows, &names);
    assert_eq!(code, 200);
    assert_eq!((users[0].id, users[0].name.as_str(), users[0].regdate), (3, "C", 100));
    assert_eq!((users[1].id, users[1].name.as_str(), users[1].regdate), (4, "D", 200));
    let (_, same) = followed_by_id(&rows, &names);
    assert_eq!(same.len(), 2);
    assert_eq!(same[1].name, "D");
}

#[test]
fn post_likes_default_to_zero() {
    assert_eq!(post_likes(&vec![]).1.count, 0);
    assert_eq!(post_likes(&vec![12, 5]).1.count, 12);
    assert_eq!(post_likes(&vec![12]).0, 200);
}

#[test]
fn unknown_user_is_a_placeholder() {
    let (code, u) = user(9, &vec![]);
    assert_eq!(code, status::NOT_FOUND);
    assert_eq!((u.id, u.name.as_str(), u.regdate), (9, "Dummy", 0));
}

#[test]
fn known_user_is_the_last_row() {
    let rows = vec![(9u128, "Old".to_string(), 1i64), (9u128, "New".to_string(), 2i64)];
    let (code, u) = user(9, &rows);
    assert_eq!(code, 200);
    assert_eq!((u.id, u.name.as_str(), u.regdate), (9, "New", 2));
}

#[test]
fn posts_carry_their_id_as_text() {
    let rows = vec![(1000i64, "Body".to_string(), 0x67e5504410b1426f9247bb680e5fe0c8u128, "Subj".to_string())];
    let (code, posts) = posts_by_user(&rows);
    assert_eq!(code, 200);
    assert_eq!(posts[0].post_id, "67e55044-10b1-426f-9247-bb680e5fe0c8");
    assert_eq!(posts[0].subject, "Subj");
    assert_eq!(posts[0].content, "Body");
    assert_eq!(posts[0].ts, 1000);
}

#[test]
fn only_count_queries_ask_for_counts() {
    assert!(wants_counts("count"));
    assert!(!wants_counts("Count"));
    assert!(!wants_counts("other"));
    assert!(!wants_counts(""));
}

#[test]
fn query_users_answers() {
    let (code, r) = query_users(5, Some((3, vec![8])));
    assert_eq!(code, 200);
    assert_eq!((r.id, r.follower_count, r.profile_views), (5, 3, 8));
    let (_, r) = query_users(5, Some((3, vec![])));
    assert_eq!((r.follower_count, r.profile_views), (3, 0));
    let (_, r) = query_users(5, None);
    assert_eq!((r.id, r.follower_count, r.profile_views), (5, 0, 0));
}

#[test]
fn draw_status_follows_the_winner_table() {
    assert!(!draw_status(0).1.status);
    assert!(draw_status(1).1.status);
    assert!(draw_status(-1).1.status);
    assert_eq!(draw_status(0).0, 200);
}

#[test]
fn draw_result_is_the_first_winner() {
    assert_eq!(draw_result(&vec![8, 9]).1.id, 8);
}

#[test]
fn drawn_winner_is_a_contestant() {
    let contestants = vec![10u128, 20, 30];
    for _ in 0..20 {
        let (code, ws) = draw_winner(&contestants);
        assert_eq!(code, 200);
        assert_eq!(ws.len(), 2);
        match (ws[0], ws[1]) {
            (GameWrite::MarkWinner { id, winner: true }, GameWrite::RecordWinner { id: rec }) => {
                assert!(contestants.contains(&id));
                assert_eq!(id, rec);
            },
            _ => panic!("unexpected writes"),
        }
    }
    let (_, ws) = draw_winner(&vec![42]);
    assert_eq!(ws, winner_writes(42));
}

#[test]
fn reset_clears_every_flag() {
    let (code, ws) = reset_winner(&vec![1, 2]);
    assert_eq!(code, 200);
    assert_eq!(
        ws,
        vec![GameWrite::MarkWinner { id: 1, winner: false }, GameWrite::MarkWinner { id: 2, winner: false }]
    );
    assert!(reset_winner(&vec![]).1.is_empty());
}
