//! The entity store: two in-memory tables (users and posts) with
//! store-assigned ids, full-overwrite updates, idempotent deletes and an
//! author link from post to user that must point at an existing user when
//! it is set.

use vstd::prelude::*;

use crate::models::{Post, PostCreateJson, PostModel, User, UserModel, UserNew};

verus! {

/// Failure of a store operation.
#[derive(PartialEq, Eq, Structural, Clone, Copy, Debug)]
pub enum EntityError {
    /// No row carries the requested id.
    NotFound,
    /// A non-null author reference names a user that does not exist.
    Constraint,
    /// No fresh id can be assigned any more.
    IdsExhausted,
}

/// Models of a sequence of user rows.
pub open spec fn models_of_users(s: Seq<User>) -> Seq<UserModel> {
    s.map_values(|u: User| u@)
}

/// Models of a sequence of post rows.
pub open spec fn models_of_posts(s: Seq<Post>) -> Seq<PostModel> {
    s.map_values(|p: Post| p@)
}

/// The author reference a request carries, as a mathematical value.
pub open spec fn opt_model(o: Option<i32>) -> Option<int> {
    match o {
        Some(u) => Some(u as int),
        None => None,
    }
}

/// Whether some user row carries `id`.
pub open spec fn has_user(s: Seq<UserModel>, id: int) -> bool {
    exists|i: int| 0 <= i < s.len() && s[i].id == id
}

/// Index of the user row carrying `id`.
pub open spec fn user_index(s: Seq<UserModel>, id: int) -> int {
    choose|i: int| 0 <= i < s.len() && s[i].id == id
}

/// The user row carrying `id`.
pub open spec fn user_at(s: Seq<UserModel>, id: int) -> UserModel {
    s[user_index(s, id)]
}

/// Whether some post row carries `id`.
pub open spec fn has_post(s: Seq<PostModel>, id: int) -> bool {
    exists|i: int| 0 <= i < s.len() && s[i].id == id
}

/// Index of the post row carrying `id`.
pub open spec fn post_index(s: Seq<PostModel>, id: int) -> int {
    choose|i: int| 0 <= i < s.len() && s[i].id == id
}

/// The post row carrying `id`.
pub open spec fn post_at(s: Seq<PostModel>, id: int) -> PostModel {
    s[post_index(s, id)]
}

/// No two user rows share an id.
pub open spec fn unique_user_ids(s: Seq<UserModel>) -> bool {
    forall|i: int, j: int| 0 <= i < j < s.len() ==> s[i].id != s[j].id
}

/// No two post rows share an id.
pub open spec fn unique_post_ids(s: Seq<PostModel>) -> bool {
    forall|i: int, j: int| 0 <= i < j < s.len() ==> s[i].id != s[j].id
}

/// The table after a full-overwrite update of the user carrying `id`:
/// name and email are replaced, id and creation timestamp kept.
pub open spec fn overwrite_user(
    s: Seq<UserModel>,
    id: int,
    name: Seq<char>,
    email: Seq<char>,
) -> Seq<UserModel> {
    s.map_values(
        |m: UserModel|
            if m.id == id {
                UserModel { id: m.id, name: name, email: email, created_at: m.created_at }
            } else {
                m
            },
    )
}

/// The table after a full-overwrite update of the post carrying `id`:
/// title and author are replaced, the id kept.
pub open spec fn overwrite_post(
    s: Seq<PostModel>,
    id: int,
    title: Seq<char>,
    author: Option<int>,
) -> Seq<PostModel> {
    s.map_values(
        |m: PostModel|
            if m.id == id {
                PostModel { id: m.id, title: title, user_id: author }
            } else {
                m
            },
    )
}

/// The user table after deleting `id`; deleting an absent id keeps the
/// table as it is.
pub open spec fn without_user(s: Seq<UserModel>, id: int) -> Seq<UserModel> {
    s.filter(|m: UserModel| m.id != id)
}

/// The post table after deleting `id`.
pub open spec fn without_post(s: Seq<PostModel>, id: int) -> Seq<PostModel> {
    s.filter(|m: PostModel| m.id != id)
}

/// The posts whose author is `author`, in table order.
pub open spec fn posts_of_author(s: Seq<PostModel>, author: int) -> Seq<PostModel> {
    s.filter(|m: PostModel| m.user_id == Some(author))
}

/// Mathematical state of the whole store.
#[verifier::ext_equal]
pub ghost struct StoreModel {
    pub users: Seq<UserModel>,
    pub posts: Seq<PostModel>,
    pub next_user_id: int,
    pub next_post_id: int,
}

/// Well-formedness of a store state: ids are unique, positive, and below
/// the next id to be assigned.
pub open spec fn store_inv(m: StoreModel) -> bool {
    &&& unique_user_ids(m.users)
    &&& unique_post_ids(m.posts)
    &&& 1 <= m.next_user_id <= i32::MAX as int
    &&& 1 <= m.next_post_id <= i32::MAX as int
    &&& forall|i: int| 0 <= i < m.users.len() ==> 1 <= (#[trigger] m.users[i]).id < m.next_user_id
    &&& forall|i: int| 0 <= i < m.posts.len() ==> 1 <= (#[trigger] m.posts[i]).id < m.next_post_id
}

/// Relies on `chrono::Local::now` and the `Display` of `NaiveDateTime`:
/// the formatted local timestamp writes a date, a space and a time, so it
/// is never empty. Nothing else is assumed of the text.
#[verifier::external_body]
fn now_string() -> (r: String)
    ensures
        r@.len() > 0,
{
    format!("{}", chrono::Local::now().naive_local())
}

/// The entity store over the two tables.
pub struct Store {
    users: Vec<User>,
    posts: Vec<Post>,
    next_user_id: i32,
    next_post_id: i32,
}

impl View for Store {
    type V = StoreModel;

    closed spec fn view(&self) -> StoreModel {
        StoreModel {
            users: models_of_users(self.users@),
            posts: models_of_posts(self.posts@),
            next_user_id: self.next_user_id as int,
            next_post_id: self.next_post_id as int,
        }
    }
}

impl Store {
    /// Well-formedness carried by every store a caller can hold.
    pub open spec fn inv(&self) -> bool {
        store_inv(self@)
    }

    /// An empty store; the first id assigned on either table is 1.
    pub fn new() -> (s: Store)
        ensures
            s.inv(),
            s@.users == Seq::<UserModel>::empty(),
            s@.posts == Seq::<PostModel>::empty(),
            s@.next_user_id == 1,
            s@.next_post_id == 1,
    {
        let s = Store { users: Vec::new(), posts: Vec::new(), next_user_id: 1, next_post_id: 1 };
        proof {
            assert(s@.users =~= Seq::<UserModel>::empty());
            assert(s@.posts =~= Seq::<PostModel>::empty());
        }
        s
    }

    /// All user rows, in table order.
    pub fn list_users(&self) -> (r: Vec<User>)
        ensures
            models_of_users(r@) == self@.users,
    {
        let n = self.users.len();
        let mut out: Vec<User> = Vec::new();
        let mut i: usize = 0;
        while i < n
            invariant
                n == self.users.len(),
                i <= n,
                models_of_users(out@) == self@.users.take(i as int),
            decreases n - i,
        {
            let u = self.users[i].snapshot();
            let ghost out0 = out@;
            out.push(u);
            proof {
                let su = self@.users;
                assert(out@ == out0.push(u));
                assert(u@ == su[i as int]);
                assert(models_of_users(out@) =~= models_of_users(out0).push(su[i as int]));
                assert(su.take(i as int).push(su[i as int]) =~= su.take(i as int + 1));
            }
            i += 1;
        }
        proof {
            assert(self@.users.take(n as int) =~= self@.users);
        }
        out
    }

    /// All post rows, in table order.
    pub fn list_posts(&self) -> (r: Vec<Post>)
        ensures
            models_of_posts(r@) == self@.posts,
    {
        let n = self.posts.len();
        let mut out: Vec<Post> = Vec::new();
        let mut i: usize = 0;
        while i < n
            invariant
                n == self.posts.len(),
                i <= n,
                models_of_posts(out@) == self@.posts.take(i as int),
            decreases n - i,
        {
            let p = self.posts[i].snapshot();
            let ghost out0 = out@;
            out.push(p);
            proof {
                let sp = self@.posts;
                assert(out@ == out0.push(p));
                assert(p@ == sp[i as int]);
                assert(models_of_posts(out@) =~= models_of_posts(out0).push(sp[i as int]));
                assert(sp.take(i as int).push(sp[i as int]) =~= sp.take(i as int + 1));
            }
            i += 1;
        }
        proof {
            assert(self@.posts.take(n as int) =~= self@.posts);
        }
        out
    }

    /// The user carrying `user_id`, or `NotFound`.
    pub fn get_user(&self, user_id: i32) -> (r: Result<User, EntityError>)
        requires
            self.inv(),
        ensures
            match r {
                Ok(u) => has_user(self@.users, user_id as int) && u@ == user_at(
                    self@.users,
                    user_id as int,
                ),
                Err(e) => e == EntityError::NotFound && !has_user(self@.users, user_id as int),
            },
    {
        let n = self.users.len();
        let mut i: usize = 0;
        while i < n
            invariant
                self.inv(),
                n == self.users.len(),
                i <= n,
                forall|j: int| 0 <= j < i ==> self@.users[j].id != user_id as int,
            decreases n - i,
        {
            if self.users[i].id == user_id {
                let u = self.users[i].snapshot();
                proof {
                    let su = self@.users;
                    assert(su[i as int].id == user_id as int);
                    let k = user_index(su, user_id as int);
                    assert(0 <= k < su.len() && su[k].id == user_id as int);
                    assert(k == i as int);
                }
                return Ok(u);
            }
            i += 1;
        }
        Err(EntityError::NotFound)
    }

    /// The post carrying `post_id`, or `NotFound`.
    pub fn get_post(&self, post_id: i32) -> (r: Result<Post, EntityError>)
        requires
            self.inv(),
        ensures
            match r {
                Ok(p) => has_post(self@.posts, post_id as int) && p@ == post_at(
                    self@.posts,
                    post_id as int,
                ),
                Err(e) => e == EntityError::NotFound && !has_post(self@.posts, post_id as int),
            },
    {
        let n = self.posts.len();
        let mut i: usize = 0;
        while i < n
            invariant
                self.inv(),
                n == self.posts.len(),
                i <= n,
                forall|j: int| 0 <= j < i ==> self@.posts[j].id != post_id as int,
            decreases n - i,
        {
            if self.posts[i].id == post_id {
                let p = self.posts[i].snapshot();
                proof {
                    let sp = self@.posts;
                    assert(sp[i as int].id == post_id as int);
                    let k = post_index(sp, post_id as int);
                    assert(0 <= k < sp.len() && sp[k].id == post_id as int);
                    assert(k == i as int);
                }
                return Ok(p);
            }
            i += 1;
        }
        Err(EntityError::NotFound)
    }

    /// Whether some user row carries `user_id`.
    fn user_exists(&self, user_id: i32) -> (r: bool)
        ensures
            r == has_user(self@.users, user_id as int),
    {
        let n = self.users.len();
        let mut i: usize = 0;
        while i < n
            invariant
                n == self.users.len(),
                i <= n,
                forall|j: int| 0 <= j < i ==> self@.users[j].id != user_id as int,
            decreases n - i,
        {
            if self.users[i].id == user_id {
                proof {
                    assert(self@.users[i as int].id == user_id as int);
                }
                return true;
            }
            i += 1;
        }
        false
    }

    /// Inserts the prepared user record under a fresh id.
    fn insert_user(&mut self, new_user: UserNew<'_>) -> (r: Result<User, EntityError>)
        requires
            old(self).inv(),
        ensures
            final(self).inv(),
            final(self)@.posts == old(self)@.posts,
            final(self)@.next_post_id == old(self)@.next_post_id,
            match r {
                Ok(u) => {
                    &&& old(self)@.next_user_id < i32::MAX as int
                    &&& u@ == (UserModel {
                        id: old(self)@.next_user_id,
                        name: new_user.name@,
                        email: new_user.email@,
                        created_at: new_user.created_at@,
                    })
                    &&& final(self)@.users == old(self)@.users.push(u@)
                    &&& final(self)@.next_user_id == old(self)@.next_user_id + 1
                },
                Err(e) => {
                    &&& e == EntityError::IdsExhausted
                    &&& old(self)@.next_user_id == i32::MAX as int
                    &&& final(self)@ == old(self)@
                },
            },
    {
        if self.next_user_id == i32::MAX {
            return Err(EntityError::IdsExhausted);
        }
        let id = self.next_user_id;
        let row = User {
            id,
            name: String::from_str(new_user.name),
            email: String::from_str(new_user.email),
            created_at: String::from_str(new_user.created_at),
        };
        let snap = row.snapshot();
        self.users.push(row);
        self.next_user_id = id + 1;
        proof {
            let before = old(self)@.users;
            let after = self@.users;
            assert(after =~= before.push(snap@));
            assert forall|i: int, j: int| 0 <= i < j < after.len() implies after[i].id
                != after[j].id by {
                if j < before.len() {
                    assert(before[i].id != before[j].id);
                } else {
                    assert(after[j].id == id as int);
                    assert(1 <= before[i].id < id as int);
                }
            }
            assert(self.inv());
        }
        Ok(snap)
    }

    /// Creates a user: the store assigns the id and the creation timestamp,
    /// which is the current local time and never empty.
    pub fn create_user(&mut self, name: &str, email: &str) -> (r: Result<User, EntityError>)
        requires
            old(self).inv(),
        ensures
            final(self).inv(),
            final(self)@.posts == old(self)@.posts,
            final(self)@.next_post_id == old(self)@.next_post_id,
            match r {
                Ok(u) => {
                    &&& old(self)@.next_user_id < i32::MAX as int
                    &&& u@.id == old(self)@.next_user_id
                    &&& u@.name == name@
                    &&& u@.email == email@
                    &&& u@.created_at.len() > 0
                    &&& final(self)@.users == old(self)@.users.push(u@)
                    &&& final(self)@.next_user_id == old(self)@.next_user_id + 1
                },
                Err(e) => {
                    &&& e == EntityError::IdsExhausted
                    &&& old(self)@.next_user_id == i32::MAX as int
                    &&& final(self)@ == old(self)@
                },
            },
    {
        let stamp = now_string();
        let new_user = UserNew { name, email, created_at: stamp.as_str() };
        self.insert_user(new_user)
    }

    /// Overwrites both mutable fields of the user carrying `user_id` and
    /// returns the row as it stands after the write; `NotFound` when no
    /// row carries that id.
    pub fn update_user(&mut self, user_id: i32, name: String, email: String) -> (r: Result<
        User,
        EntityError,
    >)
        requires
            old(self).inv(),
        ensures
            final(self).inv(),
            final(self)@.posts == old(self)@.posts,
            final(self)@.next_user_id == old(self)@.next_user_id,
            final(self)@.next_post_id == old(self)@.next_post_id,
            match r {
                Ok(u) => {
                    &&& has_user(old(self)@.users, user_id as int)
                    &&& u@ == (UserModel {
                        id: user_id as int,
                        name: name@,
                        email: email@,
                        created_at: user_at(old(self)@.users, user_id as int).created_at,
                    })
                    &&& final(self)@.users == overwrite_user(
                        old(self)@.users,
                        user_id as int,
                        name@,
                        email@,
                    )
                },
                Err(e) => {
                    &&& e == EntityError::NotFound
                    &&& !has_user(old(self)@.users, user_id as int)
                    &&& final(self)@ == old(self)@
                },
            },
    {
        let n = self.users.len();
        let mut i: usize = 0;
        while i < n
            invariant
                old(self) == self,
                old(self).inv(),
                n == self.users.len(),
                i <= n,
                forall|j: int| 0 <= j < i ==> self@.users[j].id != user_id as int,
            decreases n - i,
        {
            if self.users[i].id == user_id {
                let created_at = self.users[i].created_at.clone();
                let row = User { id: user_id, name, email, created_at };
                let snap = row.snapshot();
                self.users.set(i, row);
                proof {
                    let before = old(self)@.users;
                    let after = self@.users;
                    assert(before[i as int].id == user_id as int);
                    let k = user_index(before, user_id as int);
                    assert(0 <= k < before.len() && before[k].id == user_id as int);
                    assert(k == i as int);
                    assert forall|j: int| 0 <= j < after.len() implies after[j] == overwrite_user(
                        before,
                        user_id as int,
                        name@,
                        email@,
                    )[j] by {
                        if j != i as int {
                            assert(before[j].id != user_id as int);
                        }
                    }
                    assert(after =~= overwrite_user(before, user_id as int, name@, email@));
                    assert forall|a: int, b: int| 0 <= a < b < after.len() implies after[a].id
                        != after[b].id by {
                        assert(before[a].id != before[b].id);
                    }
                    assert(self.inv());
                }
                return Ok(snap);
            }
            i += 1;
        }
        Err(EntityError::NotFound)
    }

    /// Deletes the user carrying `user_id`; deletion is idempotent and
    /// never fails.
    pub fn delete_user(&mut self, user_id: i32)
        requires
            old(self).inv(),
        ensures
            final(self).inv(),
            final(self)@.users == without_user(old(self)@.users, user_id as int),
            final(self)@.posts == old(self)@.posts,
            final(self)@.next_user_id == old(self)@.next_user_id,
            final(self)@.next_post_id == old(self)@.next_post_id,
    {
        let n = self.users.len();
        let mut i: usize = 0;
        while i < n
            invariant
                old(self) == self,
                old(self).inv(),
                n == self.users.len(),
                i <= n,
                forall|j: int| 0 <= j < i ==> self@.users[j].id != user_id as int,
            decreases n - i,
        {
            if self.users[i].id == user_id {
                proof {
                    lemma_remove_found_is_filter_user(self@.users, user_id as int, i as int);
                }
                self.users.remove(i);
                proof {
                    let before = old(self)@.users;
                    let after = self@.users;
                    assert(after =~= before.remove(i as int));
                    assert forall|a: int, b: int| 0 <= a < b < after.len() implies after[a].id
                        != after[b].id by {
                        let a0 = if a < i as int { a } else { a + 1 };
                        let b0 = if b < i as int { b } else { b + 1 };
                        assert(before[a0].id != before[b0].id);
                    }
                    assert(self.inv());
                }
                return ;
            }
            i += 1;
        }
        proof {
            lemma_filter_all_pass(self@.users, |m: UserModel| m.id != user_id as int);
        }
    }

    /// Deletes the post carrying `post_id`; deletion is idempotent and
    /// never fails.
    pub fn delete_post(&mut self, post_id: i32)
        requires
            old(self).inv(),
        ensures
            final(self).inv(),
            final(self)@.posts == without_post(old(self)@.posts, post_id as int),
            final(self)@.users == old(self)@.users,
            final(self)@.next_user_id == old(self)@.next_user_id,
            final(self)@.next_post_id == old(self)@.next_post_id,
    {
        let n = self.posts.len();
        let mut i: usize = 0;
        while i < n
            invariant
                old(self) == self,
                old(self).inv(),
                n == self.posts.len(),
                i <= n,
                forall|j: int| 0 <= j < i ==> self@.posts[j].id != post_id as int,
            decreases n - i,
        {
            if self.posts[i].id == post_id {
                proof {
                    lemma_remove_found_is_filter_post(self@.posts, post_id as int, i as int);
                }
                self.posts.remove(i);
                proof {
                    let before = old(self)@.posts;
                    let after = self@.posts;
                    assert(after =~= before.remove(i as int));
                    assert forall|a: int, b: int| 0 <= a < b < after.len() implies after[a].id
                        != after[b].id by {
                        let a0 = if a < i as int { a } else { a + 1 };
                        let b0 = if b < i as int { b } else { b + 1 };
                        assert(before[a0].id != before[b0].id);
                    }
                    assert(self.inv());
                }
                return ;
            }
            i += 1;
        }
        proof {
            lemma_filter_all_pass(self@.posts, |m: PostModel| m.id != post_id as int);
        }
    }

    /// Creates a post from the prepared record: the store assigns the id,
    /// and a non-null author must name an existing user.
    pub fn create_post(&mut self, new_post: PostCreateJson) -> (r: Result<Post, EntityError>)
        requires
            old(self).inv(),
        ensures
            final(self).inv(),
            final(self)@.users == old(self)@.users,
            final(self)@.next_user_id == old(self)@.next_user_id,
            match r {
                Ok(p) => {
                    &&& old(self)@.next_post_id < i32::MAX as int
                    &&& (new_post.user_id matches Some(u) ==> has_user(old(self)@.users, u as int))
                    &&& p@ == (PostModel {
                        id: old(self)@.next_post_id,
                        title: new_post.title@,
                        user_id: opt_model(new_post.user_id),
                    })
                    &&& final(self)@.posts == old(self)@.posts.push(p@)
                    &&& final(self)@.next_post_id == old(self)@.next_post_id + 1
                },
                Err(e) => {
                    &&& final(self)@ == old(self)@
                    &&& match e {
                        EntityError::Constraint => new_post.user_id matches Some(u) && !has_user(
                            old(self)@.users,
                            u as int,
                        ),
                        EntityError::IdsExhausted => (new_post.user_id matches Some(u)
                            ==> has_user(old(self)@.users, u as int)) && old(self)@.next_post_id
                            == i32::MAX as int,
                        EntityError::NotFound => false,
                    }
                },
            },
    {
        if let Some(author) = new_post.user_id {
            if !self.user_exists(author) {
                return Err(EntityError::Constraint);
            }
        }
        if self.next_post_id == i32::MAX {
            return Err(EntityError::IdsExhausted);
        }
        let id = self.next_post_id;
        let row = Post { id, title: new_post.title, user_id: new_post.user_id };
        let snap = row.snapshot();
        self.posts.push(row);
        self.next_post_id = id + 1;
        proof {
            let before = old(self)@.posts;
            let after = self@.posts;
            assert(after =~= before.push(snap@));
            assert forall|i: int, j: int| 0 <= i < j < after.len() implies after[i].id
                != after[j].id by {
                if j < before.len() {
                    assert(before[i].id != before[j].id);
                } else {
                    assert(after[j].id == id as int);
                    assert(1 <= before[i].id < id as int);
                }
            }
            assert(self.inv());
        }
        Ok(snap)
    }

    /// Overwrites both mutable fields of the post carrying `post_id` and
    /// returns the row as it stands after the write. `NotFound` when no
    /// row carries that id; a non-null author must name an existing user.
    pub fn update_post(&mut self, post_id: i32, title: String, author: Option<i32>) -> (r: Result<
        Post,
        EntityError,
    >)
        requires
            old(self).inv(),
        ensures
            final(self).inv(),
            final(self)@.users == old(self)@.users,
            final(self)@.next_user_id == old(self)@.next_user_id,
            final(self)@.next_post_id == old(self)@.next_post_id,
            match r {
                Ok(p) => {
                    &&& has_post(old(self)@.posts, post_id as int)
                    &&& (author matches Some(u) ==> has_user(old(self)@.users, u as int))
                    &&& p@ == (PostModel {
                        id: post_id as int,
                        title: title@,
                        user_id: opt_model(author),
                    })
                    &&& final(self)@.posts == overwrite_post(
                        old(self)@.posts,
                        post_id as int,
                        title@,
                        opt_model(author),
                    )
                },
                Err(e) => {
                    &&& final(self)@ == old(self)@
                    &&& match e {
                        EntityError::NotFound => !has_post(old(self)@.posts, post_id as int),
                        EntityError::Constraint => has_post(old(self)@.posts, post_id as int)
                            && (author matches Some(u) && !has_user(old(self)@.users, u as int)),
                        EntityError::IdsExhausted => false,
                    }
                },
            },
    {
        let n = self.posts.len();
        let mut i: usize = 0;
        while i < n
            invariant
                old(self) == self,
                old(self).inv(),
                n == self.posts.len(),
                i <= n,
                forall|j: int| 0 <= j < i ==> self@.posts[j].id != post_id as int,
            decreases n - i,
        {
            if self.posts[i].id == post_id {
                if let Some(author_id) = author {
                    if !self.user_exists(author_id) {
                        return Err(EntityError::Constraint);
                    }
                }
                let row = Post { id: post_id, title, user_id: author };
                let snap = row.snapshot();
                self.posts.set(i, row);
                proof {
                    let before = old(self)@.posts;
                    let after = self@.posts;
                    assert(before[i as int].id == post_id as int);
                    assert forall|j: int| 0 <= j < after.len() implies after[j] == overwrite_post(
                        before,
                        post_id as int,
                        title@,
                        opt_model(author),
                    )[j] by {
                        if j != i as int {
                            assert(before[j].id != post_id as int);
                        }
                    }
                    assert(after =~= overwrite_post(
                        before,
                        post_id as int,
                        title@,
                        opt_model(author),
                    ));
                    assert forall|a: int, b: int| 0 <= a < b < after.len() implies after[a].id
                        != after[b].id by {
                        assert(before[a].id != before[b].id);
                    }
                    assert(self.inv());
                }
                return Ok(snap);
            }
            i += 1;
        }
        Err(EntityError::NotFound)
    }

    /// Reads the post carrying `post_id` and rewrites it with its own
    /// title and the given author; linking passes a user id, unlinking
    /// passes `None`.
    pub fn set_author(&mut self, post_id: i32, author: Option<i32>) -> (r: Result<
        Post,
        EntityError,
    >)
        requires
            old(self).inv(),
        ensures
            final(self).inv(),
            final(self)@.users == old(self)@.users,
            final(self)@.next_user_id == old(self)@.next_user_id,
            final(self)@.next_post_id == old(self)@.next_post_id,
            match r {
                Ok(p) => {
                    &&& has_post(old(self)@.posts, post_id as int)
                    &&& (author matches Some(u) ==> has_user(old(self)@.users, u as int))
                    &&& p@ == (PostModel {
                        id: post_id as int,
                        title: post_at(old(self)@.posts, post_id as int).title,
                        user_id: opt_model(author),
                    })
                    &&& final(self)@.posts == overwrite_post(
                        old(self)@.posts,
                        post_id as int,
                        post_at(old(self)@.posts, post_id as int).title,
                        opt_model(author),
                    )
                },
                Err(e) => {
                    &&& final(self)@ == old(self)@
                    &&& match e {
                        EntityError::NotFound => !has_post(old(self)@.posts, post_id as int),
                        EntityError::Constraint => has_post(old(self)@.posts, post_id as int)
                            && (author matches Some(u) && !has_user(old(self)@.users, u as int)),
                        EntityError::IdsExhausted => false,
                    }
                },
            },
    {
        let existing = match self.get_post(post_id) {
            Ok(p) => p,
            Err(e) => {
                return Err(e);
            },
        };
        self.update_post(post_id, existing.title, author)
    }

    /// All posts whose author is `user_id`, in table order.
    pub fn list_by_user(&self, user_id: i32) -> (r: Vec<Post>)
        ensures
            models_of_posts(r@) == posts_of_author(self@.posts, user_id as int),
    {
        broadcast use vstd::seq_lib::group_seq_properties;

        let n = self.posts.len();
        let mut out: Vec<Post> = Vec::new();
        let mut i: usize = 0;
        while i < n
            invariant
                n == self.posts.len(),
                i <= n,
                models_of_posts(out@) == posts_of_author(self@.posts.take(i as int), user_id as int),
            decreases n - i,
        {
            let matches_author = match self.posts[i].user_id {
                Some(u) => u == user_id,
                None => false,
            };
            proof {
                let pred = |m: PostModel| m.user_id == Some(user_id as int);
                let sp = self@.posts;
                assert(sp.take(i + 1 as int).drop_last() =~= sp.take(i as int));
                assert(sp.take(i as int).push(sp[i as int]) =~= sp.take(i + 1 as int));
                Seq::lemma_filter_push(sp.take(i as int), sp[i as int], pred);
                assert(matches_author == pred(sp[i as int]));
            }
            if matches_author {
                out.push(self.posts[i].snapshot());
                proof {
                    let pred = |m: PostModel| m.user_id == Some(user_id as int);
                    assert(models_of_posts(out@) =~= posts_of_author(
                        self@.posts.take(i as int),
                        user_id as int,
                    ).push(self@.posts[i as int]));
                }
            }
            i += 1;
        }
        proof {
            assert(self@.posts.take(n as int) =~= self@.posts);
        }
        out
    }
}

/// Filtering keeps a sequence whole when every element passes.
pub(crate) proof fn lemma_filter_all_pass<A>(s: Seq<A>, pred: spec_fn(A) -> bool)
    requires
        forall|i: int| 0 <= i < s.len() ==> pred(#[trigger] s[i]),
    ensures
        s.filter(pred) == s,
    decreases s.len(),
{
    reveal(Seq::filter);
    if s.len() > 0 {
        lemma_filter_all_pass(s.drop_last(), pred);
        assert(pred(s.last()));
        assert(s.filter(pred) =~= s);
    } else {
        assert(s.filter(pred) =~= s);
    }
}

/// When only index `i` fails the keep-predicate, deleting by predicate is
/// removing that one row.
proof fn lemma_remove_found_is_filter_user(s: Seq<UserModel>, id: int, i: int)
    requires
        unique_user_ids(s),
        0 <= i < s.len(),
        s[i].id == id,
        forall|j: int| 0 <= j < i ==> s[j].id != id,
    ensures
        s.remove(i) == without_user(s, id),
{
    broadcast use Seq::filter_distributes_over_add;

    let pred = |m: UserModel| m.id != id;
    let front = s.take(i);
    let middle = seq![s[i]];
    let back = s.skip(i + 1);
    assert(s =~= front + middle + back);
    lemma_filter_all_pass(front, pred);
    reveal_with_fuel(Seq::filter, 2);
    assert(middle.filter(pred) =~= Seq::<UserModel>::empty());
    assert forall|j: int| 0 <= j < back.len() implies pred(#[trigger] back[j]) by {
        assert(s[i].id != s[j + i + 1].id);
    }
    lemma_filter_all_pass(back, pred);
    assert(without_user(s, id) == (front + middle).filter(pred) + back.filter(pred));
    assert(without_user(s, id) =~= front + back);
    assert(s.remove(i) =~= front + back);
}

/// When only index `i` fails the keep-predicate, deleting by predicate is
/// removing that one row.
proof fn lemma_remove_found_is_filter_post(s: Seq<PostModel>, id: int, i: int)
    requires
        unique_post_ids(s),
        0 <= i < s.len(),
        s[i].id == id,
        forall|j: int| 0 <= j < i ==> s[j].id != id,
    ensures
        s.remove(i) == without_post(s, id),
{
    broadcast use Seq::filter_distributes_over_add;

    let pred = |m: PostModel| m.id != id;
    let front = s.take(i);
    let middle = seq![s[i]];
    let back = s.skip(i + 1);
    assert(s =~= front + middle + back);
    lemma_filter_all_pass(front, pred);
    reveal_with_fuel(Seq::filter, 2);
    assert(middle.filter(pred) =~= Seq::<PostModel>::empty());
    assert forall|j: int| 0 <= j < back.len() implies pred(#[trigger] back[j]) by {
        assert(s[i].id != s[j + i + 1].id);
    }
    lemma_filter_all_pass(back, pred);
    assert(without_post(s, id) == (front + middle).filter(pred) + back.filter(pred));
    assert(without_post(s, id) =~= front + back);
    assert(s.remove(i) =~= front + back);
}

} // verus!
