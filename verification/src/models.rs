//! Entity types of the store and the plain records that request bodies
//! carry, together with their mathematical models.

use vstd::prelude::*;

verus! {

/// Mathematical value of a stored user row.
#[verifier::ext_equal]
pub ghost struct UserModel {
    pub id: int,
    pub name: Seq<char>,
    pub email: Seq<char>,
    pub created_at: Seq<char>,
}

/// Mathematical value of a stored post row. `user_id` is `None` when the
/// post has no author.
#[verifier::ext_equal]
pub ghost struct PostModel {
    pub id: int,
    pub title: Seq<char>,
    pub user_id: Option<int>,
}

/// A user row: `id` and `created_at` are assigned by the store at creation
/// and immutable afterwards.
#[derive(PartialEq)]
pub struct User {
    pub id: i32,
    pub name: String,
    pub email: String,
    pub created_at: String,
}

impl View for User {
    type V = UserModel;

    open spec fn view(&self) -> UserModel {
        UserModel {
            id: self.id as int,
            name: self.name@,
            email: self.email@,
            created_at: self.created_at@,
        }
    }
}

impl User {
    /// An owned copy of the row, equal to the original.
    pub fn snapshot(&self) -> (r: User)
        ensures
            r == *self,
    {
        User {
            id: self.id,
            name: self.name.clone(),
            email: self.email.clone(),
            created_at: self.created_at.clone(),
        }
    }
}

/// A post row with an optional author reference.
#[derive(PartialEq)]
pub struct Post {
    pub id: i32,
    pub title: String,
    pub user_id: Option<i32>,
}

impl View for Post {
    type V = PostModel;

    open spec fn view(&self) -> PostModel {
        PostModel {
            id: self.id as int,
            title: self.title@,
            user_id: match self.user_id {
                Some(u) => Some(u as int),
                None => None,
            },
        }
    }
}

impl Post {
    /// An owned copy of the row, equal to the original.
    pub fn snapshot(&self) -> (r: Post)
        ensures
            r == *self,
    {
        Post { id: self.id, title: self.title.clone(), user_id: self.user_id }
    }
}

/// Body of a user-creation request.
pub struct UserJson {
    pub name: String,
    pub email: String,
}

/// Body of a user-update request: both fields overwrite the row.
pub struct UserUpdateJson {
    pub id: i32,
    pub name: String,
    pub email: String,
}

/// The record inserted for a new user; the store has already chosen the
/// creation timestamp when this is built.
pub struct UserNew<'a> {
    pub name: &'a str,
    pub email: &'a str,
    pub created_at: &'a str,
}

/// Body of a post-creation request; also the record inserted for a new post.
pub struct PostCreateJson {
    pub title: String,
    pub user_id: Option<i32>,
}

/// Body of a post-update request: both fields overwrite the row.
pub struct PostUpdateJson {
    pub id: i32,
    pub title: String,
    pub user_id: Option<i32>,
}

} // verus!
