//! One handler per endpoint: each applies the body-size limit, rejects a
//! body the boundary could not parse, performs the store operation, and
//! maps the outcome to an HTTP status and a structured body.

use vstd::prelude::*;

use crate::models::{Post, PostCreateJson, PostModel, PostUpdateJson, User, UserJson, UserModel,
    UserUpdateJson};
use crate::store::{has_post, has_user, models_of_posts, models_of_users, overwrite_post,
    overwrite_user, post_at, posts_of_author, user_at, without_post, without_user, EntityError,
    Store};
use crate::text::{missing_post_message, missing_post_msg, missing_user_message, missing_user_msg};

verus! {

/// Upper bound on an accepted request body, in bytes; a larger body is
/// rejected before it reaches the store.
pub const MAX_BODY_BYTES: usize = 4096;

/// Body of a link request: which post, and which user becomes its author.
pub struct UpdatePostAuthorJson {
    pub post_id: i32,
    pub user_id: i32,
}

/// Structured content of a response; the wire encoding of each variant is
/// the boundary's business.
pub enum Body {
    /// No content: deletions, rejected bodies, and store failures.
    Empty,
    /// A single user row.
    OneUser(User),
    /// A single post row.
    OnePost(Post),
    /// Every user row.
    UserList(Vec<User>),
    /// Every post row.
    PostList(Vec<Post>),
    /// A user together with the posts it authored.
    UserAndPosts(User, Vec<Post>),
    /// Only the posts of one user.
    PostsOfUser(Vec<Post>),
    /// A human-readable message naming a missing id.
    Message(String),
}

/// An HTTP response: the status code and the structured body.
pub struct Response {
    pub status: u16,
    pub body: Body,
}

/// GET /users: every user row.
pub fn get_users(store: &Store) -> (r: Response)
    ensures
        r.status == 200,
        r.body matches Body::UserList(us) && models_of_users(us@) == store@.users,
{
    Response { status: 200, body: Body::UserList(store.list_users()) }
}

/// GET /users/{id}: the row, or 404 naming the id.
pub fn get_user(store: &Store, user_id: i32) -> (r: Response)
    requires
        store.inv(),
    ensures
        has_user(store@.users, user_id as int) ==> r.status == 200 && (r.body matches
            Body::OneUser(u) && u@ == user_at(store@.users, user_id as int)),
        !has_user(store@.users, user_id as int) ==> r.status == 404 && (r.body matches
            Body::Message(m) && m@ == missing_user_msg(user_id as int)),
{
    match store.get_user(user_id) {
        Ok(u) => Response { status: 200, body: Body::OneUser(u) },
        Err(_) => Response { status: 404, body: Body::Message(missing_user_message(user_id)) },
    }
}

/// POST /users: creates a user from the parsed body; 400 for an oversized
/// or unparsable body, 201 with the stored row otherwise.
pub fn create_user(store: &mut Store, body_len: usize, item: Option<UserJson>) -> (r: Response)
    requires
        old(store).inv(),
    ensures
        final(store).inv(),
        final(store)@.posts == old(store)@.posts,
        final(store)@.next_post_id == old(store)@.next_post_id,
        body_len > MAX_BODY_BYTES ==> r.status == 400 && final(store)@ == old(store)@,
        body_len <= MAX_BODY_BYTES && item is None ==> r.status == 400 && final(store)@ == old(
            store,
        )@,
        body_len <= MAX_BODY_BYTES ==> (item matches Some(u) ==> if old(store)@.next_user_id
            < i32::MAX as int {
            &&& r.status == 201
            &&& (r.body matches Body::OneUser(nu) && {
                &&& nu@.id == old(store)@.next_user_id
                &&& nu@.name == u.name@
                &&& nu@.email == u.email@
                &&& nu@.created_at.len() > 0
                &&& final(store)@.users == old(store)@.users.push(nu@)
            })
            &&& final(store)@.next_user_id == old(store)@.next_user_id + 1
        } else {
            &&& r.status == 500
            &&& r.body is Empty
            &&& final(store)@ == old(store)@
        }),
{
    if body_len > MAX_BODY_BYTES {
        return Response { status: 400, body: Body::Empty };
    }
    let parsed = match item {
        Some(p) => p,
        None => {
            return Response { status: 400, body: Body::Empty };
        },
    };
    match store.create_user(parsed.name.as_str(), parsed.email.as_str()) {
        Ok(u) => Response { status: 201, body: Body::OneUser(u) },
        Err(_) => Response { status: 500, body: Body::Empty },
    }
}

/// PUT /users: overwrites name and email of the row named in the body;
/// 404 when the id is absent.
pub fn update_user(store: &mut Store, body_len: usize, item: Option<UserUpdateJson>) -> (r:
    Response)
    requires
        old(store).inv(),
    ensures
        final(store).inv(),
        final(store)@.posts == old(store)@.posts,
        final(store)@.next_user_id == old(store)@.next_user_id,
        final(store)@.next_post_id == old(store)@.next_post_id,
        body_len > MAX_BODY_BYTES ==> r.status == 400 && final(store)@ == old(store)@,
        body_len <= MAX_BODY_BYTES && item is None ==> r.status == 400 && final(store)@ == old(
            store,
        )@,
        body_len <= MAX_BODY_BYTES ==> (item matches Some(u) ==> if has_user(
            old(store)@.users,
            u.id as int,
        ) {
            &&& r.status == 200
            &&& (r.body matches Body::OneUser(ru) && ru@ == (UserModel {
                id: u.id as int,
                name: u.name@,
                email: u.email@,
                created_at: user_at(old(store)@.users, u.id as int).created_at,
            }))
            &&& final(store)@.users == overwrite_user(
                old(store)@.users,
                u.id as int,
                u.name@,
                u.email@,
            )
        } else {
            &&& r.status == 404
            &&& (r.body matches Body::Message(m) && m@ == missing_user_msg(u.id as int))
            &&& final(store)@ == old(store)@
        }),
{
    if body_len > MAX_BODY_BYTES {
        return Response { status: 400, body: Body::Empty };
    }
    let parsed = match item {
        Some(p) => p,
        None => {
            return Response { status: 400, body: Body::Empty };
        },
    };
    let missing_id = parsed.id;
    match store.update_user(parsed.id, parsed.name, parsed.email) {
        Ok(u) => Response { status: 200, body: Body::OneUser(u) },
        Err(_) => Response {
            status: 404,
            body: Body::Message(missing_user_message(missing_id)),
        },
    }
}

/// DELETE /users/{id}: idempotent; 204 whether or not the row existed.
pub fn delete_user(store: &mut Store, user_id: i32) -> (r: Response)
    requires
        old(store).inv(),
    ensures
        final(store).inv(),
        r.status == 204,
        r.body is Empty,
        final(store)@.users == without_user(old(store)@.users, user_id as int),
        final(store)@.posts == old(store)@.posts,
        final(store)@.next_user_id == old(store)@.next_user_id,
        final(store)@.next_post_id == old(store)@.next_post_id,
{
    store.delete_user(user_id);
    Response { status: 204, body: Body::Empty }
}

/// GET /posts: every post row.
pub fn get_posts(store: &Store) -> (r: Response)
    ensures
        r.status == 200,
        r.body matches Body::PostList(ps) && models_of_posts(ps@) == store@.posts,
{
    Response { status: 200, body: Body::PostList(store.list_posts()) }
}

/// GET /posts/{id}: the row, or 404 naming the id.
pub fn get_post(store: &Store, post_id: i32) -> (r: Response)
    requires
        store.inv(),
    ensures
        has_post(store@.posts, post_id as int) ==> r.status == 200 && (r.body matches
            Body::OnePost(p) && p@ == post_at(store@.posts, post_id as int)),
        !has_post(store@.posts, post_id as int) ==> r.status == 404 && (r.body matches
            Body::Message(m) && m@ == missing_post_msg(post_id as int)),
{
    match store.get_post(post_id) {
        Ok(p) => Response { status: 200, body: Body::OnePost(p) },
        Err(_) => Response { status: 404, body: Body::Message(missing_post_message(post_id)) },
    }
}

/// POST /posts: creates a post; a non-null author must name an existing
/// user, otherwise the write fails as a store failure.
pub fn create_post(store: &mut Store, body_len: usize, item: Option<PostCreateJson>) -> (r:
    Response)
    requires
        old(store).inv(),
    ensures
        final(store).inv(),
        final(store)@.users == old(store)@.users,
        final(store)@.next_user_id == old(store)@.next_user_id,
        body_len > MAX_BODY_BYTES ==> r.status == 400 && final(store)@ == old(store)@,
        body_len <= MAX_BODY_BYTES && item is None ==> r.status == 400 && final(store)@ == old(
            store,
        )@,
        body_len <= MAX_BODY_BYTES ==> (item matches Some(p) ==> if (p.user_id matches Some(u)
            && !has_user(old(store)@.users, u as int)) || old(store)@.next_post_id == i32::MAX
            as int {
            &&& r.status == 500
            &&& r.body is Empty
            &&& final(store)@ == old(store)@
        } else {
            &&& r.status == 201
            &&& (r.body matches Body::OnePost(np) && np@ == (PostModel {
                id: old(store)@.next_post_id,
                title: p.title@,
                user_id: crate::store::opt_model(p.user_id),
            }) && final(store)@.posts == old(store)@.posts.push(np@))
            &&& final(store)@.next_post_id == old(store)@.next_post_id + 1
        }),
{
    if body_len > MAX_BODY_BYTES {
        return Response { status: 400, body: Body::Empty };
    }
    let parsed = match item {
        Some(p) => p,
        None => {
            return Response { status: 400, body: Body::Empty };
        },
    };
    match store.create_post(parsed) {
        Ok(p) => Response { status: 201, body: Body::OnePost(p) },
        Err(_) => Response { status: 500, body: Body::Empty },
    }
}

/// Performs the shared write of the post-update and author-link endpoints:
/// overwrites title and author of the named post, or reports the error
/// response (404 naming the post, 500 on a broken author reference).
pub fn update_post_helper(
    store: &mut Store,
    post_id: i32,
    post_title: String,
    post_user_id: Option<i32>,
) -> (r: Result<Post, Response>)
    requires
        old(store).inv(),
    ensures
        final(store).inv(),
        final(store)@.users == old(store)@.users,
        final(store)@.next_user_id == old(store)@.next_user_id,
        final(store)@.next_post_id == old(store)@.next_post_id,
        match r {
            Ok(p) => {
                &&& has_post(old(store)@.posts, post_id as int)
                &&& (post_user_id matches Some(u) ==> has_user(old(store)@.users, u as int))
                &&& p@ == (PostModel {
                    id: post_id as int,
                    title: post_title@,
                    user_id: crate::store::opt_model(post_user_id),
                })
                &&& final(store)@.posts == overwrite_post(
                    old(store)@.posts,
                    post_id as int,
                    post_title@,
                    crate::store::opt_model(post_user_id),
                )
            },
            Err(resp) => {
                &&& final(store)@ == old(store)@
                &&& if !has_post(old(store)@.posts, post_id as int) {
                    resp.status == 404 && (resp.body matches Body::Message(m) && m@
                        == missing_post_msg(post_id as int))
                } else {
                    resp.status == 500 && resp.body is Empty && (post_user_id matches Some(u)
                        && !has_user(old(store)@.users, u as int))
                }
            },
        },
{
    match store.update_post(post_id, post_title, post_user_id) {
        Ok(p) => Ok(p),
        Err(EntityError::NotFound) => Err(
            Response { status: 404, body: Body::Message(missing_post_message(post_id)) },
        ),
        Err(_) => Err(Response { status: 500, body: Body::Empty }),
    }
}

/// PUT /update_post: overwrites title and author of the row named in the
/// body; 404 when the id is absent.
pub fn update_post(store: &mut Store, body_len: usize, item: Option<PostUpdateJson>) -> (r:
    Response)
    requires
        old(store).inv(),
    ensures
        final(store).inv(),
        final(store)@.users == old(store)@.users,
        final(store)@.next_user_id == old(store)@.next_user_id,
        final(store)@.next_post_id == old(store)@.next_post_id,
        body_len > MAX_BODY_BYTES ==> r.status == 400 && final(store)@ == old(store)@,
        body_len <= MAX_BODY_BYTES && item is None ==> r.status == 400 && final(store)@ == old(
            store,
        )@,
        body_len <= MAX_BODY_BYTES ==> (item matches Some(p) ==> if !has_post(
            old(store)@.posts,
            p.id as int,
        ) {
            &&& r.status == 404
            &&& (r.body matches Body::Message(m) && m@ == missing_post_msg(p.id as int))
            &&& final(store)@ == old(store)@
        } else if p.user_id matches Some(u) && !has_user(old(store)@.users, u as int) {
            &&& r.status == 500
            &&& r.body is Empty
            &&& final(store)@ == old(store)@
        } else {
            &&& r.status == 200
            &&& (r.body matches Body::OnePost(rp) && rp@ == (PostModel {
                id: p.id as int,
                title: p.title@,
                user_id: crate::store::opt_model(p.user_id),
            }))
            &&& final(store)@.posts == overwrite_post(
                old(store)@.posts,
                p.id as int,
                p.title@,
                crate::store::opt_model(p.user_id),
            )
        }),
{
    if body_len > MAX_BODY_BYTES {
        return Response { status: 400, body: Body::Empty };
    }
    let parsed = match item {
        Some(p) => p,
        None => {
            return Response { status: 400, body: Body::Empty };
        },
    };
    match update_post_helper(store, parsed.id, parsed.title, parsed.user_id) {
        Ok(p) => Response { status: 200, body: Body::OnePost(p) },
        Err(resp) => resp,
    }
}

/// DELETE /posts/{id}: idempotent; 204 whether or not the row existed.
pub fn delete_post(store: &mut Store, post_id: i32) -> (r: Response)
    requires
        old(store).inv(),
    ensures
        final(store).inv(),
        r.status == 204,
        r.body is Empty,
        final(store)@.posts == without_post(old(store)@.posts, post_id as int),
        final(store)@.users == old(store)@.users,
        final(store)@.next_user_id == old(store)@.next_user_id,
        final(store)@.next_post_id == old(store)@.next_post_id,
{
    store.delete_post(post_id);
    Response { status: 204, body: Body::Empty }
}

/// Reads the user and the posts it authored; the error is the ready 404
/// response naming the user.
pub fn get_user_with_posts_helper(store: &Store, user_id: i32) -> (r: Result<
    (User, Vec<Post>),
    Response,
>)
    requires
        store.inv(),
    ensures
        match r {
            Ok((u, ps)) => {
                &&& has_user(store@.users, user_id as int)
                &&& u@ == user_at(store@.users, user_id as int)
                &&& models_of_posts(ps@) == posts_of_author(store@.posts, user_id as int)
            },
            Err(resp) => {
                &&& !has_user(store@.users, user_id as int)
                &&& resp.status == 404
                &&& (resp.body matches Body::Message(m) && m@ == missing_user_msg(user_id as int))
            },
        },
{
    let user = match store.get_user(user_id) {
        Ok(u) => u,
        Err(_) => {
            return Err(
                Response { status: 404, body: Body::Message(missing_user_message(user_id)) },
            );
        },
    };
    let posts = store.list_by_user(user_id);
    Ok((user, posts))
}

/// GET /user_with_posts/{id}: the user and its posts, or 404.
pub fn get_user_with_posts(store: &Store, user_id: i32) -> (r: Response)
    requires
        store.inv(),
    ensures
        has_user(store@.users, user_id as int) ==> r.status == 200 && (r.body matches
            Body::UserAndPosts(u, ps) && u@ == user_at(store@.users, user_id as int)
            && models_of_posts(ps@) == posts_of_author(store@.posts, user_id as int)),
        !has_user(store@.users, user_id as int) ==> r.status == 404 && (r.body matches
            Body::Message(m) && m@ == missing_user_msg(user_id as int)),
{
    match get_user_with_posts_helper(store, user_id) {
        Ok((user, posts)) => Response { status: 200, body: Body::UserAndPosts(user, posts) },
        Err(resp) => resp,
    }
}

/// GET /users_posts/{id}: only the posts of the user, the user row itself
/// checked and discarded; 404 when the user is absent.
pub fn get_users_posts(store: &Store, user_id: i32) -> (r: Response)
    requires
        store.inv(),
    ensures
        has_user(store@.users, user_id as int) ==> r.status == 200 && (r.body matches
            Body::PostsOfUser(ps) && models_of_posts(ps@) == posts_of_author(
                store@.posts,
                user_id as int,
            )),
        !has_user(store@.users, user_id as int) ==> r.status == 404 && (r.body matches
            Body::Message(m) && m@ == missing_user_msg(user_id as int)),
{
    match get_user_with_posts_helper(store, user_id) {
        Ok((_user, posts)) => Response { status: 200, body: Body::PostsOfUser(posts) },
        Err(resp) => resp,
    }
}

/// PUT /link_post_author: loads the post named in the body and rewrites it
/// with the given author; 404 when the post is absent, a store failure
/// when the user is.
pub fn link_post_author(store: &mut Store, body_len: usize, item: Option<UpdatePostAuthorJson>)
    -> (r: Response)
    requires
        old(store).inv(),
    ensures
        final(store).inv(),
        final(store)@.users == old(store)@.users,
        final(store)@.next_user_id == old(store)@.next_user_id,
        final(store)@.next_post_id == old(store)@.next_post_id,
        body_len > MAX_BODY_BYTES ==> r.status == 400 && final(store)@ == old(store)@,
        body_len <= MAX_BODY_BYTES && item is None ==> r.status == 400 && final(store)@ == old(
            store,
        )@,
        body_len <= MAX_BODY_BYTES ==> (item matches Some(req) ==> if !has_post(
            old(store)@.posts,
            req.post_id as int,
        ) {
            &&& r.status == 404
            &&& (r.body matches Body::Message(m) && m@ == missing_post_msg(req.post_id as int))
            &&& final(store)@ == old(store)@
        } else if !has_user(old(store)@.users, req.user_id as int) {
            &&& r.status == 500
            &&& r.body is Empty
            &&& final(store)@ == old(store)@
        } else {
            &&& r.status == 200
            &&& (r.body matches Body::OnePost(rp) && rp@ == (PostModel {
                id: req.post_id as int,
                title: post_at(old(store)@.posts, req.post_id as int).title,
                user_id: Some(req.user_id as int),
            }))
            &&& final(store)@.posts == overwrite_post(
                old(store)@.posts,
                req.post_id as int,
                post_at(old(store)@.posts, req.post_id as int).title,
                Some(req.user_id as int),
            )
        }),
{
    if body_len > MAX_BODY_BYTES {
        return Response { status: 400, body: Body::Empty };
    }
    let parsed = match item {
        Some(p) => p,
        None => {
            return Response { status: 400, body: Body::Empty };
        },
    };
    match store.set_author(parsed.post_id, Some(parsed.user_id)) {
        Ok(p) => Response { status: 200, body: Body::OnePost(p) },
        Err(EntityError::NotFound) => Response {
            status: 404,
            body: Body::Message(missing_post_message(parsed.post_id)),
        },
        Err(_) => Response { status: 500, body: Body::Empty },
    }
}

/// PUT /unlink_post_author/{id}: loads the post and rewrites it with no
/// author; 404 when the post is absent.
pub fn unlink_post_author(store: &mut Store, post_id: i32) -> (r: Response)
    requires
        old(store).inv(),
    ensures
        final(store).inv(),
        final(store)@.users == old(store)@.users,
        final(store)@.next_user_id == old(store)@.next_user_id,
        final(store)@.next_post_id == old(store)@.next_post_id,
        has_post(old(store)@.posts, post_id as int) ==> {
            &&& r.status == 200
            &&& (r.body matches Body::OnePost(rp) && rp@ == (PostModel {
                id: post_id as int,
                title: post_at(old(store)@.posts, post_id as int).title,
                user_id: None,
            }))
            &&& final(store)@.posts == overwrite_post(
                old(store)@.posts,
                post_id as int,
                post_at(old(store)@.posts, post_id as int).title,
                None,
            )
        },
        !has_post(old(store)@.posts, post_id as int) ==> {
            &&& r.status == 404
            &&& (r.body matches Body::Message(m) && m@ == missing_post_msg(post_id as int))
            &&& final(store)@ == old(store)@
        },
{
    match store.set_author(post_id, None) {
        Ok(p) => Response { status: 200, body: Body::OnePost(p) },
        Err(_) => Response {
            status: 404,
            body: Body::Message(missing_post_message(post_id)),
        },
    }
}

} // verus!
