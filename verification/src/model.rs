//! Domain records: accounts and posts, with their status enumerations.
//!
//! Timestamps are plain integer seconds since the epoch; the caller decides
//! where they come from.

use vstd::prelude::*;

verus! {

/// Lifecycle state of an account.
#[derive(Copy, Clone, PartialEq, Eq, Structural, Debug)]
pub enum UserStatus {
    Active,
    Blocked,
}

/// Lifecycle state of a post.
#[derive(Copy, Clone, PartialEq, Eq, Structural, Debug)]
pub enum PostStatus {
    Draft,
    Published,
}

/// The wire code of an account status.
pub open spec fn user_status_code(s: UserStatus) -> i32 {
    match s {
        UserStatus::Active => 1,
        UserStatus::Blocked => 2,
    }
}

/// The account status a wire code stands for; unknown codes fall back to
/// `Active`.
pub open spec fn user_status_of_code(v: i32) -> UserStatus {
    if v == 2 {
        UserStatus::Blocked
    } else {
        UserStatus::Active
    }
}

/// The wire code of a post status.
pub open spec fn post_status_code(s: PostStatus) -> i32 {
    match s {
        PostStatus::Draft => 1,
        PostStatus::Published => 2,
    }
}

/// The post status a wire code stands for; unknown codes fall back to
/// `Draft`.
pub open spec fn post_status_of_code(v: i32) -> PostStatus {
    if v == 2 {
        PostStatus::Published
    } else {
        PostStatus::Draft
    }
}

impl From<i32> for UserStatus {
    fn from(value: i32) -> (r: UserStatus) {
        match value {
            2 => UserStatus::Blocked,
            _ => UserStatus::Active,
        }
    }
}

impl vstd::std_specs::convert::FromSpecImpl<i32> for UserStatus {
    open spec fn obeys_from_spec() -> bool {
        true
    }

    open spec fn from_spec(v: i32) -> UserStatus {
        user_status_of_code(v)
    }
}

impl From<UserStatus> for i32 {
    fn from(value: UserStatus) -> (r: i32) {
        match value {
            UserStatus::Active => 1,
            UserStatus::Blocked => 2,
        }
    }
}

impl vstd::std_specs::convert::FromSpecImpl<UserStatus> for i32 {
    open spec fn obeys_from_spec() -> bool {
        true
    }

    open spec fn from_spec(v: UserStatus) -> i32 {
        user_status_code(v)
    }
}

impl From<i32> for PostStatus {
    fn from(value: i32) -> (r: PostStatus) {
        match value {
            2 => PostStatus::Published,
            _ => PostStatus::Draft,
        }
    }
}

impl vstd::std_specs::convert::FromSpecImpl<i32> for PostStatus {
    open spec fn obeys_from_spec() -> bool {
        true
    }

    open spec fn from_spec(v: i32) -> PostStatus {
        post_status_of_code(v)
    }
}

impl From<PostStatus> for i32 {
    fn from(value: PostStatus) -> (r: i32) {
        match value {
            PostStatus::Draft => 1,
            PostStatus::Published => 2,
        }
    }
}

impl vstd::std_specs::convert::FromSpecImpl<PostStatus> for i32 {
    open spec fn obeys_from_spec() -> bool {
        true
    }

    open spec fn from_spec(v: PostStatus) -> i32 {
        post_status_code(v)
    }
}

/// Identity record. The password field always holds a salted hash, never the
/// plaintext.
#[derive(Debug)]
pub struct User {
    pub id: i64,
    pub username: String,
    pub password: String,
    pub status: UserStatus,
    pub created: i64,
    pub updated: i64,
    pub last_login: Option<i64>,
}

impl Clone for User {
    fn clone(&self) -> (res: User)
        ensures
            res == *self,
    {
        User {
            id: self.id,
            username: self.username.clone(),
            password: self.password.clone(),
            status: self.status,
            created: self.created,
            updated: self.updated,
            last_login: self.last_login,
        }
    }
}

/// Content record authored by an account.
#[derive(Debug)]
pub struct Post {
    pub id: i64,
    pub author_id: i64,
    pub slug: String,
    pub title: String,
    pub content: String,
    pub status: PostStatus,
    pub created: i64,
    pub updated: i64,
}

impl Clone for Post {
    fn clone(&self) -> (res: Post)
        ensures
            res == *self,
    {
        Post {
            id: self.id,
            author_id: self.author_id,
            slug: self.slug.clone(),
            title: self.title.clone(),
            content: self.content.clone(),
            status: self.status,
            created: self.created,
            updated: self.updated,
        }
    }
}

} // verus!
