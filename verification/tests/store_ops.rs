use user_posts::models::PostCreateJson;
use user_posts::store::{EntityError, Store};

#[test]
fn create_then_get_roundtrip() {
    let mut store = Store::new();
    let created = store
        .create_user("Alice", "a@x.com")
        .expect("creation must succeed on a fresh store");
    assert_eq!(created.id, 1);
    assert!(created.created_at.len() > 0);
    let fetched = store.get_user(created.id).expect("the created user must be found");
    assert!(fetched == created);
}

#[test]
fn get_absent_not_found() {
    let store = Store::new();
    match store.get_user(42) {
        Err(EntityError::NotFound) => {}
        _ => panic!("an absent id must yield NotFound"),
    }
    match store.get_post(42) {
        Err(EntityError::NotFound) => {}
        _ => panic!("an absent id must yield NotFound"),
    }
}

#[test]
fn delete_absent_succeeds() {
    let mut store = Store::new();
    let u = store.create_user("Bob", "b@x.com").unwrap();
    store.delete_user(99);
    store.delete_post(99);
    assert_eq!(store.list_users().len(), 1);
    assert!(store.get_user(u.id).is_ok());
}

#[test]
fn delete_is_idempotent() {
    let mut store = Store::new();
    let u = store.create_user("Bob", "b@x.com").unwrap();
    store.delete_user(u.id);
    store.delete_user(u.id);
    assert_eq!(store.list_users().len(), 0);
    match store.get_user(u.id) {
        Err(EntityError::NotFound) => {}
        _ => panic!("a deleted id must yield NotFound"),
    }
}

#[test]
fn update_roundtrip() {
    let mut store = Store::new();
    let created = store.create_user("Carol", "c@x.com").unwrap();
    let updated = store
        .update_user(created.id, String::from("Carola"), String::from("carola@x.com"))
        .expect("updating an existing user must succeed");
    assert_eq!(updated.id, created.id);
    assert_eq!(updated.name, "Carola");
    assert_eq!(updated.email, "carola@x.com");
    assert_eq!(updated.created_at, created.created_at);
    let fetched = store.get_user(created.id).unwrap();
    assert!(fetched == updated);
}

#[test]
fn update_missing_user_not_found() {
    let mut store = Store::new();
    match store.update_user(5, String::from("X"), String::from("x@x.com")) {
        Err(EntityError::NotFound) => {}
        _ => panic!("updating an absent id must yield NotFound"),
    }
}

#[test]
fn set_author_then_get() {
    let mut store = Store::new();
    let author = store.create_user("Dora", "d@x.com").unwrap();
    let post = store
        .create_post(PostCreateJson { title: String::from("First"), user_id: None })
        .unwrap();
    assert_eq!(post.id, 1);
    assert_eq!(post.user_id, None);

    let linked = store.set_author(post.id, Some(author.id)).unwrap();
    assert_eq!(linked.user_id, Some(author.id));
    assert_eq!(linked.title, "First");
    let fetched = store.get_post(post.id).unwrap();
    assert_eq!(fetched.user_id, Some(author.id));
    assert_eq!(fetched.title, "First");

    let unlinked = store.set_author(post.id, None).unwrap();
    assert_eq!(unlinked.user_id, None);
    assert_eq!(unlinked.title, "First");
    let fetched_again = store.get_post(post.id).unwrap();
    assert_eq!(fetched_again.user_id, None);
}

#[test]
fn set_author_missing_post() {
    let mut store = Store::new();
    store.create_user("Eve", "e@x.com").unwrap();
    match store.set_author(3, Some(1)) {
        Err(EntityError::NotFound) => {}
        _ => panic!("linking an absent post must yield NotFound"),
    }
}

#[test]
fn set_author_missing_user_is_constraint() {
    let mut store = Store::new();
    let post = store
        .create_post(PostCreateJson { title: String::from("Hi"), user_id: None })
        .unwrap();
    match store.set_author(post.id, Some(12)) {
        Err(EntityError::Constraint) => {}
        _ => panic!("an author reference to an absent user must be refused"),
    }
    assert_eq!(store.get_post(post.id).unwrap().user_id, None);
}

#[test]
fn create_post_missing_author_is_constraint() {
    let mut store = Store::new();
    match store.create_post(PostCreateJson { title: String::from("Hi"), user_id: Some(1) }) {
        Err(EntityError::Constraint) => {}
        _ => panic!("an author reference to an absent user must be refused"),
    }
    assert_eq!(store.list_posts().len(), 0);
}

#[test]
fn list_by_user_is_exactly_the_authored_posts() {
    let mut store = Store::new();
    let u1 = store.create_user("Fay", "f@x.com").unwrap();
    let u2 = store.create_user("Gil", "g@x.com").unwrap();
    let p1 = store
        .create_post(PostCreateJson { title: String::from("a"), user_id: Some(u1.id) })
        .unwrap();
    let p2 = store
        .create_post(PostCreateJson { title: String::from("b"), user_id: Some(u2.id) })
        .unwrap();
    let p3 = store
        .create_post(PostCreateJson { title: String::from("c"), user_id: None })
        .unwrap();
    let p4 = store
        .create_post(PostCreateJson { title: String::from("d"), user_id: Some(u1.id) })
        .unwrap();

    store.update_post(p2.id, String::from("b2"), Some(u1.id)).unwrap();
    store.set_author(p4.id, None).unwrap();

    let listed = store.list_by_user(u1.id);
    let ids: Vec<i32> = listed.iter().map(|p| p.id).collect();
    assert_eq!(ids, vec![p1.id, p2.id]);
    for p in &listed {
        assert_eq!(p.user_id, Some(u1.id));
    }
    let _ = p3;
}

#[test]
fn ids_are_assigned_in_order() {
    let mut store = Store::new();
    let a = store.create_user("A", "a@x.com").unwrap();
    let b = store.create_user("B", "b@x.com").unwrap();
    let c = store.create_user("C", "c@x.com").unwrap();
    assert_eq!((a.id, b.id, c.id), (1, 2, 3));
    let users = store.list_users();
    assert_eq!(users.len(), 3);
    assert_eq!(users[0].name, "A");
    assert_eq!(users[2].name, "C");
}

#[test]
fn deleting_a_user_keeps_its_posts_dangling() {
    let mut store = Store::new();
    let u = store.create_user("Hana", "h@x.com").unwrap();
    let p = store
        .create_post(PostCreateJson { title: String::from("kept"), user_id: Some(u.id) })
        .unwrap();
    store.delete_user(u.id);
    let fetched = store.get_post(p.id).unwrap();
    assert_eq!(fetched.user_id, Some(u.id));
}
