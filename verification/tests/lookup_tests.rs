use records_api::errors::Error;
use records_api::records::{get_post_by_id, get_user_by_id, list_posts, list_users};

#[test]
fn store_is_fixed_and_ordered() {
    let users = list_users();
    assert_eq!(users.len(), 6);
    let ids: Vec<i32> = users.iter().map(|u| u.id).collect();
    assert_eq!(ids, vec![1, 2, 3, 4, 5, 6]);
    assert_eq!(users[1].name, "Bob");
    assert_eq!(users[1].bio, None);

    let posts = list_posts();
    assert_eq!(posts.len(), 9);
    let ids: Vec<i32> = posts.iter().map(|p| p.id).collect();
    assert_eq!(ids, vec![1, 2, 3, 4, 5, 6, 7, 8, 9]);
    assert_eq!(posts[4].content, "Content of post 5");
    assert_eq!(posts[4].author_id, 5);
}

#[test]
fn store_is_identical_on_every_call() {
    assert_eq!(list_users(), list_users());
    assert_eq!(list_posts(), list_posts());
}

#[test]
fn user_three_is_charlie() {
    let u = get_user_by_id(3).unwrap();
    assert_eq!(u.name, "Charlie");
    assert_eq!(u.age, 35);
    assert_eq!(u.bio.as_deref(), Some("I am a data scientist"));
}

#[test]
fn lookup_covers_the_whole_store() {
    let u = get_user_by_id(6).unwrap();
    assert_eq!(u.name, "Another Alice");
    for expected in list_users() {
        assert_eq!(get_user_by_id(expected.id).unwrap(), expected);
    }
    for expected in list_posts() {
        assert_eq!(get_post_by_id(expected.id).unwrap(), expected);
    }
}

#[test]
fn missing_user_maps_to_not_found() {
    let e = get_user_by_id(999).unwrap_err();
    match e {
        Error::UserNotFound(id) => assert_eq!(id, 999),
        _ => panic!("expected UserNotFound"),
    }
    assert_eq!(e.http_status(), 404);
    assert_eq!(e.label(), "User not found");
    assert_eq!(e.details(), "User with id 999 not found");
}

#[test]
fn post_nine_has_author_four() {
    let p = get_post_by_id(9).unwrap();
    assert_eq!(p.title, "Post 9");
    assert_eq!(p.author_id, 4);
}

#[test]
fn missing_post_maps_to_not_found() {
    let e = get_post_by_id(42).unwrap_err();
    match e {
        Error::PostNotFound(id) => assert_eq!(id, 42),
        _ => panic!("expected PostNotFound"),
    }
    assert_eq!(e.http_status(), 404);
    assert_eq!(e.label(), "Post not found");
    assert_eq!(e.details(), "Post with id 42 not found");
}

#[test]
fn details_render_negative_ids() {
    let e = get_user_by_id(-17).unwrap_err();
    assert_eq!(e.details(), "User with id -17 not found");
}

#[test]
fn details_render_extreme_ids() {
    let e = get_post_by_id(i32::MAX).unwrap_err();
    assert_eq!(e.details(), format!("Post with id {} not found", i32::MAX));
    let e = get_post_by_id(i32::MIN).unwrap_err();
    assert_eq!(e.details(), format!("Post with id {} not found", i32::MIN));
}

#[test]
fn invalid_range_details_pass_through() {
    let e = Error::InvalidRange("File not found".to_string());
    assert_eq!(e.http_status(), 400);
    assert_eq!(e.label(), "Invalid range");
    assert_eq!(e.details(), "File not found");
}
