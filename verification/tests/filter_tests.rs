use records_api::query::{PostFilter, UserFilter, filter_posts, filter_users};
use records_api::records::{list_posts, list_users};

fn no_user_filter() -> UserFilter {
    UserFilter { id: None, name: None, age: None }
}

fn no_post_filter() -> PostFilter {
    PostFilter { id: None, title: None, content: None, author_id: None }
}

#[test]
fn absent_filter_returns_all_users_in_order() {
    let users = list_users();
    let filtered = filter_users(&users, &no_user_filter());
    assert_eq!(filtered, users);
}

#[test]
fn absent_filter_returns_all_posts_in_order() {
    let posts = list_posts();
    let filtered = filter_posts(&posts, &no_post_filter());
    assert_eq!(filtered, posts);
}

#[test]
fn filtering_is_idempotent_for_users() {
    let users = list_users();
    let f = UserFilter { id: None, name: None, age: Some(25) };
    let once = filter_users(&users, &f);
    let twice = filter_users(&once, &f);
    assert_eq!(twice, once);
}

#[test]
fn filtering_is_idempotent_for_posts() {
    let posts = list_posts();
    let f = PostFilter { id: None, title: None, content: None, author_id: Some(2) };
    let once = filter_posts(&posts, &f);
    let twice = filter_posts(&once, &f);
    assert_eq!(twice, once);
}

#[test]
fn name_filter_matches_exactly_one_alice() {
    let users = list_users();
    let f = UserFilter { id: None, name: Some("Alice".to_string()), age: None };
    let filtered = filter_users(&users, &f);
    assert_eq!(filtered.len(), 1);
    assert_eq!(filtered[0].id, 1);
    assert_eq!(filtered[0].name, "Alice");
    assert_eq!(filtered[0].age, 25);
}

#[test]
fn author_filter_returns_posts_one_and_six_in_order() {
    let posts = list_posts();
    let f = PostFilter { id: None, title: None, content: None, author_id: Some(1) };
    let filtered = filter_posts(&posts, &f);
    assert_eq!(filtered.len(), 2);
    assert_eq!(filtered[0].id, 1);
    assert_eq!(filtered[1].id, 6);
}

#[test]
fn string_matching_is_case_sensitive_and_exact() {
    let users = list_users();
    let lower = UserFilter { id: None, name: Some("alice".to_string()), age: None };
    assert!(filter_users(&users, &lower).is_empty());
    let partial = UserFilter { id: None, name: Some("Alic".to_string()), age: None };
    assert!(filter_users(&users, &partial).is_empty());
}

#[test]
fn combined_fields_are_anded() {
    let users = list_users();
    let f = UserFilter { id: None, name: Some("Alice".to_string()), age: Some(30) };
    assert!(filter_users(&users, &f).is_empty());
    let f = UserFilter { id: Some(6), name: None, age: Some(25) };
    let filtered = filter_users(&users, &f);
    assert_eq!(filtered.len(), 1);
    assert_eq!(filtered[0].name, "Another Alice");
}

#[test]
fn empty_input_filters_to_empty() {
    let f = UserFilter { id: Some(1), name: None, age: None };
    assert!(filter_users(&Vec::new(), &f).is_empty());
}
