use user_posts::models::{PostCreateJson, PostUpdateJson, UserJson, UserUpdateJson};
use user_posts::routes::{
    create_post, create_user, delete_post, delete_user, get_post, get_posts, get_user,
    get_user_with_posts, get_users, get_users_posts, link_post_author, unlink_post_author,
    update_post, update_user, Body, Response, UpdatePostAuthorJson, MAX_BODY_BYTES,
};
use user_posts::store::Store;
use user_posts::text::i32_dec_string;

fn user_body(name: &str, email: &str) -> Option<UserJson> {
    Some(UserJson { name: String::from(name), email: String::from(email) })
}

fn message_of(r: &Response) -> &str {
    match &r.body {
        Body::Message(m) => m.as_str(),
        _ => panic!("expected a message body"),
    }
}

#[test]
fn user_lifecycle_scenario() {
    let mut store = Store::new();

    let created = create_user(&mut store, 64, user_body("Alice", "a@x.com"));
    assert_eq!(created.status, 201);
    let (id, name, email, created_at) = match created.body {
        Body::OneUser(u) => (u.id, u.name, u.email, u.created_at),
        _ => panic!("creation must answer with the stored user"),
    };
    assert_eq!(id, 1);
    assert_eq!(name, "Alice");
    assert_eq!(email, "a@x.com");
    assert!(!created_at.is_empty());

    let fetched = get_user(&store, 1);
    assert_eq!(fetched.status, 200);
    match fetched.body {
        Body::OneUser(u) => {
            assert_eq!(u.id, 1);
            assert_eq!(u.name, "Alice");
            assert_eq!(u.email, "a@x.com");
            assert_eq!(u.created_at, created_at);
        }
        _ => panic!("a found user must be answered as a user"),
    }

    let deleted = delete_user(&mut store, 1);
    assert_eq!(deleted.status, 204);
    assert!(matches!(deleted.body, Body::Empty));

    let gone = get_user(&store, 1);
    assert_eq!(gone.status, 404);
    assert_eq!(message_of(&gone), "Couldn't find such a user with id 1");
}

#[test]
fn link_post_author_against_missing_user() {
    let mut store = Store::new();

    let created = create_post(
        &mut store,
        32,
        Some(PostCreateJson { title: String::from("Hi"), user_id: None }),
    );
    assert_eq!(created.status, 201);
    match created.body {
        Body::OnePost(p) => {
            assert_eq!(p.id, 1);
            assert_eq!(p.user_id, None);
        }
        _ => panic!("creation must answer with the stored post"),
    }

    // User 1 does not exist: the store's referential check refuses the
    // write, reported as a store failure.
    let linked = link_post_author(
        &mut store,
        32,
        Some(UpdatePostAuthorJson { post_id: 1, user_id: 1 }),
    );
    assert_eq!(linked.status, 500);
    assert!(matches!(linked.body, Body::Empty));

    let fetched = get_post(&store, 1);
    assert_eq!(fetched.status, 200);
    match fetched.body {
        Body::OnePost(p) => assert_eq!(p.user_id, None),
        _ => panic!("the post must be unchanged"),
    }
}

#[test]
fn oversized_body_rejected_and_store_untouched() {
    let mut store = Store::new();
    let too_long = MAX_BODY_BYTES + 1;

    let r = create_user(&mut store, too_long, user_body("A", "a@x.com"));
    assert_eq!(r.status, 400);
    let r = update_user(
        &mut store,
        too_long,
        Some(UserUpdateJson { id: 1, name: String::from("B"), email: String::from("b@x.com") }),
    );
    assert_eq!(r.status, 400);
    let r = create_post(
        &mut store,
        too_long,
        Some(PostCreateJson { title: String::from("T"), user_id: None }),
    );
    assert_eq!(r.status, 400);
    let r = update_post(
        &mut store,
        too_long,
        Some(PostUpdateJson { id: 1, title: String::from("T"), user_id: None }),
    );
    assert_eq!(r.status, 400);
    let r = link_post_author(
        &mut store,
        too_long,
        Some(UpdatePostAuthorJson { post_id: 1, user_id: 1 }),
    );
    assert_eq!(r.status, 400);

    match get_users(&store).body {
        Body::UserList(us) => assert_eq!(us.len(), 0),
        _ => panic!("expected the user list"),
    }
    match get_posts(&store).body {
        Body::PostList(ps) => assert_eq!(ps.len(), 0),
        _ => panic!("expected the post list"),
    }
}

#[test]
fn body_at_the_limit_is_accepted() {
    let mut store = Store::new();
    let r = create_user(&mut store, MAX_BODY_BYTES, user_body("A", "a@x.com"));
    assert_eq!(r.status, 201);
}

#[test]
fn unparsable_body_rejected() {
    let mut store = Store::new();
    assert_eq!(create_user(&mut store, 8, None).status, 400);
    assert_eq!(update_user(&mut store, 8, None).status, 400);
    assert_eq!(create_post(&mut store, 8, None).status, 400);
    assert_eq!(update_post(&mut store, 8, None).status, 400);
    assert_eq!(link_post_author(&mut store, 8, None).status, 400);
    match get_users(&store).body {
        Body::UserList(us) => assert_eq!(us.len(), 0),
        _ => panic!("expected the user list"),
    }
}

#[test]
fn update_user_flow() {
    let mut store = Store::new();
    create_user(&mut store, 16, user_body("Ann", "ann@x.com"));
    let r = update_user(
        &mut store,
        64,
        Some(UserUpdateJson {
            id: 1,
            name: String::from("Anne"),
            email: String::from("anne@x.com"),
        }),
    );
    assert_eq!(r.status, 200);
    match r.body {
        Body::OneUser(u) => {
            assert_eq!(u.id, 1);
            assert_eq!(u.name, "Anne");
            assert_eq!(u.email, "anne@x.com");
        }
        _ => panic!("an update must answer with the stored user"),
    }

    let missing = update_user(
        &mut store,
        64,
        Some(UserUpdateJson { id: 9, name: String::from("X"), email: String::from("x@x.com") }),
    );
    assert_eq!(missing.status, 404);
    assert_eq!(message_of(&missing), "Couldn't find such a user with id 9");
}

#[test]
fn update_post_flow() {
    let mut store = Store::new();
    create_user(&mut store, 16, user_body("Ben", "ben@x.com"));
    create_post(&mut store, 16, Some(PostCreateJson { title: String::from("Old"), user_id: None }));
    let r = update_post(
        &mut store,
        64,
        Some(PostUpdateJson { id: 1, title: String::from("New"), user_id: Some(1) }),
    );
    assert_eq!(r.status, 200);
    match r.body {
        Body::OnePost(p) => {
            assert_eq!(p.id, 1);
            assert_eq!(p.title, "New");
            assert_eq!(p.user_id, Some(1));
        }
        _ => panic!("an update must answer with the stored post"),
    }

    let missing = update_post(
        &mut store,
        64,
        Some(PostUpdateJson { id: 7, title: String::from("X"), user_id: None }),
    );
    assert_eq!(missing.status, 404);
    assert_eq!(message_of(&missing), "Couldn't find such a post with id 7");
}

#[test]
fn delete_post_flow() {
    let mut store = Store::new();
    create_post(&mut store, 16, Some(PostCreateJson { title: String::from("Gone"), user_id: None }));
    let r = delete_post(&mut store, 1);
    assert_eq!(r.status, 204);
    let gone = get_post(&store, 1);
    assert_eq!(gone.status, 404);
    assert_eq!(message_of(&gone), "Couldn't find such a post with id 1");
    // Idempotent: deleting again still answers 204.
    let again = delete_post(&mut store, 1);
    assert_eq!(again.status, 204);
}

#[test]
fn link_and_unlink_flow() {
    let mut store = Store::new();
    create_user(&mut store, 16, user_body("Cleo", "c@x.com"));
    create_post(&mut store, 16, Some(PostCreateJson { title: String::from("Hi"), user_id: None }));

    let linked = link_post_author(
        &mut store,
        32,
        Some(UpdatePostAuthorJson { post_id: 1, user_id: 1 }),
    );
    assert_eq!(linked.status, 200);
    match linked.body {
        Body::OnePost(p) => {
            assert_eq!(p.user_id, Some(1));
            assert_eq!(p.title, "Hi");
        }
        _ => panic!("linking must answer with the stored post"),
    }

    let unlinked = unlink_post_author(&mut store, 1);
    assert_eq!(unlinked.status, 200);
    match unlinked.body {
        Body::OnePost(p) => {
            assert_eq!(p.user_id, None);
            assert_eq!(p.title, "Hi");
        }
        _ => panic!("unlinking must answer with the stored post"),
    }

    let missing = unlink_post_author(&mut store, 5);
    assert_eq!(missing.status, 404);
    assert_eq!(message_of(&missing), "Couldn't find such a post with id 5");
}

#[test]
fn user_with_posts_flows() {
    let mut store = Store::new();
    create_user(&mut store, 16, user_body("Dee", "d@x.com"));
    create_post(&mut store, 16, Some(PostCreateJson { title: String::from("p1"), user_id: Some(1) }));
    create_post(&mut store, 16, Some(PostCreateJson { title: String::from("p2"), user_id: None }));
    create_post(&mut store, 16, Some(PostCreateJson { title: String::from("p3"), user_id: Some(1) }));

    let both = get_user_with_posts(&store, 1);
    assert_eq!(both.status, 200);
    match both.body {
        Body::UserAndPosts(u, ps) => {
            assert_eq!(u.id, 1);
            let titles: Vec<&str> = ps.iter().map(|p| p.title.as_str()).collect();
            assert_eq!(titles, vec!["p1", "p3"]);
        }
        _ => panic!("expected the user with its posts"),
    }

    let only_posts = get_users_posts(&store, 1);
    assert_eq!(only_posts.status, 200);
    match only_posts.body {
        Body::PostsOfUser(ps) => assert_eq!(ps.len(), 2),
        _ => panic!("expected only the posts"),
    }

    let missing = get_user_with_posts(&store, 2);
    assert_eq!(missing.status, 404);
    assert_eq!(message_of(&missing), "Couldn't find such a user with id 2");
    assert_eq!(get_users_posts(&store, 2).status, 404);
}

#[test]
fn decimal_text_of_ids() {
    assert_eq!(i32_dec_string(0), "0");
    assert_eq!(i32_dec_string(7), "7");
    assert_eq!(i32_dec_string(1024), "1024");
    assert_eq!(i32_dec_string(-123), "-123");
    assert_eq!(i32_dec_string(i32::MAX), "2147483647");
    assert_eq!(i32_dec_string(i32::MIN), "-2147483648");
}

#[test]
fn creation_timestamp_comes_from_the_clock() {
    let mut store = Store::new();
    let r = create_user(&mut store, 16, user_body("Eli", "e@x.com"));
    match r.body {
        Body::OneUser(u) => {
            // The stored timestamp is the formatted local time: it names a
            // date and a time, not the empty string and not the inputs.
            assert!(u.created_at.contains('-') && u.created_at.contains(':'));
        }
        _ => panic!("creation must answer with the stored user"),
    }
}
