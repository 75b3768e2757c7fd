//! Laws relating the store operations, proved over the same spec functions
//! that the operations' contracts use.

use vstd::prelude::*;

use crate::models::{PostModel, UserModel};
use crate::store::{has_post, has_user, lemma_filter_all_pass, overwrite_post, overwrite_user,
    post_at, post_index, posts_of_author, unique_post_ids, unique_user_ids, user_at, user_index,
    without_post, without_user};

verus! {

/// Law: a user just created is found under the id it was handed out with,
/// and the row found equals the created one. `create_user` appends the row
/// under an id no other row carries; `get_user` reads `user_at`.
pub proof fn lemma_create_then_get(users: Seq<UserModel>, u: UserModel)
    requires
        !has_user(users, u.id),
    ensures
        has_user(users.push(u), u.id),
        user_at(users.push(u), u.id) == u,
{
    let after = users.push(u);
    assert(after[users.len() as int] == u);
    assert(has_user(after, u.id));
    let k = user_index(after, u.id);
    assert(0 <= k < after.len() && after[k].id == u.id);
    if k < users.len() {
        assert(users[k].id == u.id);
        assert(false);
    }
}

/// Law: for an id no user row carries, the lookup is empty — `get_user`
/// answers `NotFound` by its contract — and deletion returns the table
/// unchanged, so `delete_user` succeeds without touching anything.
pub proof fn lemma_absent_user_id(users: Seq<UserModel>, id: int)
    requires
        !has_user(users, id),
    ensures
        without_user(users, id) == users,
{
    assert forall|i: int| 0 <= i < users.len() implies (#[trigger] users[i]).id != id by {
        if users[i].id == id {
            assert(has_user(users, id));
        }
    }
    lemma_filter_all_pass(users, |m: UserModel| m.id != id);
}

/// Law: for an id no post row carries, the lookup is empty and deletion
/// returns the table unchanged.
pub proof fn lemma_absent_post_id(posts: Seq<PostModel>, id: int)
    requires
        !has_post(posts, id),
    ensures
        without_post(posts, id) == posts,
{
    assert forall|i: int| 0 <= i < posts.len() implies (#[trigger] posts[i]).id != id by {
        if posts[i].id == id {
            assert(has_post(posts, id));
        }
    }
    lemma_filter_all_pass(posts, |m: PostModel| m.id != id);
}

/// Law: after `update_user(id, name, email)`, the row `get_user(id)` reads
/// carries the new name and email and keeps its id and creation timestamp.
pub proof fn lemma_update_then_get(
    users: Seq<UserModel>,
    id: int,
    name: Seq<char>,
    email: Seq<char>,
)
    requires
        unique_user_ids(users),
        has_user(users, id),
    ensures
        has_user(overwrite_user(users, id, name, email), id),
        user_at(overwrite_user(users, id, name, email), id) == (UserModel {
            id: id,
            name: name,
            email: email,
            created_at: user_at(users, id).created_at,
        }),
{
    let after = overwrite_user(users, id, name, email);
    let k0 = user_index(users, id);
    assert(0 <= k0 < users.len() && users[k0].id == id);
    assert(after[k0].id == id);
    assert(has_user(after, id));
    let k = user_index(after, id);
    assert(0 <= k < after.len() && after[k].id == id);
    assert(users[k].id == id);
    if k != k0 {
        assert(users[k].id != users[k0].id);
    }
}

/// Law: after `set_author(post_id, author)`, the row `get_post(post_id)`
/// reads carries the given author — a user id when linking, `None` when
/// unlinking — and keeps its id and title.
pub proof fn lemma_set_author_then_get(posts: Seq<PostModel>, id: int, author: Option<int>)
    requires
        unique_post_ids(posts),
        has_post(posts, id),
    ensures
        has_post(overwrite_post(posts, id, post_at(posts, id).title, author), id),
        post_at(overwrite_post(posts, id, post_at(posts, id).title, author), id) == (PostModel {
            id: id,
            title: post_at(posts, id).title,
            user_id: author,
        }),
{
    let title = post_at(posts, id).title;
    let after = overwrite_post(posts, id, title, author);
    let k0 = post_index(posts, id);
    assert(0 <= k0 < posts.len() && posts[k0].id == id);
    assert(after[k0].id == id);
    assert(has_post(after, id));
    let k = post_index(after, id);
    assert(0 <= k < after.len() && after[k].id == id);
    assert(posts[k].id == id);
    if k != k0 {
        assert(posts[k].id != posts[k0].id);
    }
}

/// Every element of a filtered sequence stands in the original.
proof fn lemma_filter_subset<A>(s: Seq<A>, pred: spec_fn(A) -> bool)
    ensures
        forall|i: int| 0 <= i < s.filter(pred).len() ==> s.contains(#[trigger] s.filter(pred)[i]),
    decreases s.len(),
{
    reveal(Seq::filter);
    if s.len() > 0 {
        let d = s.drop_last();
        lemma_filter_subset(d, pred);
        let f = s.filter(pred);
        assert forall|i: int| 0 <= i < f.len() implies s.contains(f[i]) by {
            if pred(s.last()) && i == f.len() - 1 {
                assert(f[i] == s.last());
                assert(s[s.len() - 1] == s.last());
            } else {
                assert(f[i] == d.filter(pred)[i]);
                assert(d.contains(f[i]));
                let j = choose|j: int| 0 <= j < d.len() && d[j] == f[i];
                assert(s[j] == f[i]);
            }
        }
    }
}

/// Law: whatever creations, updates and unlinkings produced the table,
/// `list_by_user(author)` holds exactly the posts whose author is `author`:
/// a row is listed if and only if it stands in the table with that author.
pub proof fn lemma_list_by_user_exact(posts: Seq<PostModel>, author: int)
    ensures
        forall|p: PostModel| #[trigger] posts_of_author(posts, author).contains(p) <==> (
        posts.contains(p) && p.user_id == Some(author)),
{
    let pred = |m: PostModel| m.user_id == Some(author);
    let listed = posts.filter(pred);
    lemma_filter_subset(posts, pred);
    assert forall|p: PostModel| #[trigger] listed.contains(p) implies posts.contains(p)
        && p.user_id == Some(author) by {
        let i = choose|i: int| 0 <= i < listed.len() && listed[i] == p;
        posts.lemma_filter_pred(pred, i);
        assert(posts.contains(listed[i]));
    }
    assert forall|p: PostModel| posts.contains(p) && p.user_id == Some(author) implies #[trigger]
        listed.contains(p) by {
        let i = choose|i: int| 0 <= i < posts.len() && posts[i] == p;
        posts.lemma_filter_contains(pred, i);
    }
}

} // verus!
