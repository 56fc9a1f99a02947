//! Post resource service over an in-memory store, mirroring the account
//! service: a monotonic id counter plus a vector of records with
//! pairwise-distinct ids, and full scans for the slug lookup.

use crate::apperr::ServiceError;
use crate::model::{Post, PostStatus};
use crate::strutil::str_eq;
use vstd::prelude::*;

verus! {

/// Input for creating a post.
pub struct CreatePostRequest {
    pub author_id: i64,
    pub title: String,
    pub slug: String,
    pub content: String,
    pub status: PostStatus,
}

/// Input for replacing a post's caller-owned fields.
pub struct UpdatePostRequest {
    pub id: i64,
    pub author_id: i64,
    pub title: String,
    pub slug: String,
    pub content: String,
    pub status: PostStatus,
}

/// Whether some record in `posts` carries the id.
pub open spec fn contains_post_id(posts: Seq<Post>, id: i64) -> bool {
    exists|i: int| 0 <= i < posts.len() && #[trigger] posts[i].id == id
}

/// The record a full scan finds first for a slug, if any.
pub open spec fn first_with_slug(posts: Seq<Post>, slug: Seq<char>) -> Option<Post>
    decreases posts.len(),
{
    if posts.len() == 0 {
        None
    } else if posts[0].slug@ == slug {
        Some(posts[0])
    } else {
        first_with_slug(posts.skip(1), slug)
    }
}

/// Well-formedness of a store: ids are positive, never ahead of the counter,
/// and pairwise distinct.
pub open spec fn post_store_inv(counter: i64, posts: Seq<Post>) -> bool {
    &&& 0 <= counter
    &&& forall|i: int| 0 <= i < posts.len() ==> 0 < (#[trigger] posts[i].id) <= counter
    &&& forall|i: int, j: int|
        0 <= i < j < posts.len() ==> (#[trigger] posts[i].id) != (#[trigger] posts[j].id)
}

/// The map-plus-counter pair behind the in-memory post service.
pub struct InMemoryPostStore {
    pub counter: i64,
    pub items: Vec<Post>,
}

/// Post service bound to the in-memory store.
pub struct InMemoryPostService {
    pub data: InMemoryPostStore,
}

/// The capability surface of a post store, shared by every backend.
pub trait PostService: Sized {
    /// The records currently held, in insertion order.
    spec fn posts(&self) -> Seq<Post>;

    /// The id allocation counter.
    spec fn counter(&self) -> i64;

    /// The backend's internal invariant.
    spec fn inv(&self) -> bool;

    fn get_all_posts(&self) -> (r: Vec<Post>)
        requires
            self.inv(),
        ensures
            r@ == self.posts(),
    ;

    fn get_post_by_id(&self, id: i64) -> (r: Option<Post>)
        requires
            self.inv(),
        ensures
            match r {
                Some(p) => p.id == id && self.posts().contains(p),
                None => !contains_post_id(self.posts(), id),
            },
    ;

    fn get_post_by_slug(&self, name: &str) -> (r: Option<Post>)
        requires
            self.inv(),
        ensures
            r == first_with_slug(self.posts(), name@),
    ;

    /// Creates a post: allocates the next id and appends the record with
    /// both timestamps set to `now`. The new id is strictly above every id
    /// already in the store.
    fn create_post(&mut self, req: CreatePostRequest, now: i64) -> (p: Post)
        requires
            old(self).inv(),
            old(self).counter() < i64::MAX,
        ensures
            final(self).inv(),
            final(self).counter() == old(self).counter() + 1,
            p.id == final(self).counter(),
            p.author_id == req.author_id,
            p.title@ == req.title@,
            p.slug@ == req.slug@,
            p.content@ == req.content@,
            p.status == req.status,
            p.created == now,
            p.updated == now,
            final(self).posts() == old(self).posts().push(p),
            forall|i: int|
                0 <= i < old(self).posts().len() ==> (#[trigger] old(self).posts()[i].id) < p.id,
    ;

    /// Replaces the caller-owned fields of the record with the id;
    /// refreshes `updated` and preserves `created`. `NotFound` exactly when
    /// the id is absent, leaving the store unchanged.
    fn update_post(&mut self, id: i64, req: UpdatePostRequest, now: i64) -> (r: Result<
        Post,
        ServiceError,
    >)
        requires
            old(self).inv(),
        ensures
            final(self).inv(),
            final(self).counter() == old(self).counter(),
            r is Ok <==> contains_post_id(old(self).posts(), id),
            match r {
                Ok(p) => exists|i: int|
                    {
                        &&& 0 <= i < old(self).posts().len()
                        &&& (#[trigger] old(self).posts()[i]).id == id
                        &&& p.id == id
                        &&& p.author_id == req.author_id
                        &&& p.title@ == req.title@
                        &&& p.slug@ == req.slug@
                        &&& p.content@ == req.content@
                        &&& p.status == req.status
                        &&& p.created == old(self).posts()[i].created
                        &&& p.updated == now
                        &&& final(self).posts() == old(self).posts().update(i, p)
                    },
                Err(e) => e == ServiceError::NotFound && *final(self) == *old(self),
            },
    ;

    /// Removes the record with the id. Succeeds exactly when the id is
    /// present; afterwards the id is gone either way, so a second call with
    /// the same id reports `NotFound`.
    fn delete_post(&mut self, id: i64) -> (r: Result<(), ServiceError>)
        requires
            old(self).inv(),
        ensures
            final(self).inv(),
            final(self).counter() == old(self).counter(),
            r is Ok <==> contains_post_id(old(self).posts(), id),
            !contains_post_id(final(self).posts(), id),
            match r {
                Ok(_) => exists|i: int|
                    {
                        &&& 0 <= i < old(self).posts().len()
                        &&& (#[trigger] old(self).posts()[i]).id == id
                        &&& final(self).posts() == old(self).posts().remove(i)
                    },
                Err(e) => e == ServiceError::NotFound && *final(self) == *old(self),
            },
    ;
}

/// Index of the record with the id, by linear scan.
fn find_post_index(items: &Vec<Post>, id: i64) -> (r: Option<usize>)
    ensures
        match r {
            Some(i) => i < items@.len() && items@[i as int].id == id,
            None => !contains_post_id(items@, id),
        },
{
    let n = items.len();
    let mut idx: usize = 0;
    while idx < n
        invariant
            n == items@.len(),
            0 <= idx <= n,
            forall|j: int| 0 <= j < idx ==> (#[trigger] items@[j].id) != id,
        decreases n - idx,
    {
        if items[idx].id == id {
            return Some(idx);
        }
        idx += 1;
    }
    None
}

/// Skipping past a non-matching head leaves the first slug match unchanged.
proof fn lemma_first_with_slug_step(posts: Seq<Post>, slug: Seq<char>, i: int)
    requires
        0 <= i < posts.len(),
        posts[i].slug@ != slug,
        first_with_slug(posts, slug) == first_with_slug(posts.skip(i), slug),
    ensures
        first_with_slug(posts, slug) == first_with_slug(posts.skip(i + 1), slug),
{
    assert(posts.skip(i).len() > 0);
    assert(posts.skip(i)[0] == posts[i]);
    assert(posts.skip(i).skip(1) =~= posts.skip(i + 1));
}

impl Default for InMemoryPostService {
    /// An empty store with the counter at zero.
    fn default() -> (s: Self)
        ensures
            s.inv(),
            s.posts() == Seq::<Post>::empty(),
            s.counter() == 0,
    {
        InMemoryPostService { data: InMemoryPostStore { counter: 0, items: Vec::new() } }
    }
}

impl PostService for InMemoryPostService {
    open spec fn posts(&self) -> Seq<Post> {
        self.data.items@
    }

    open spec fn counter(&self) -> i64 {
        self.data.counter
    }

    open spec fn inv(&self) -> bool {
        post_store_inv(self.data.counter, self.data.items@)
    }

    fn get_all_posts(&self) -> (r: Vec<Post>) {
        let r = self.data.items.clone();
        proof {
            assert(r@ =~= self.data.items@);
        }
        r
    }

    fn get_post_by_id(&self, id: i64) -> (r: Option<Post>) {
        match find_post_index(&self.data.items, id) {
            Some(idx) => Some(self.data.items[idx].clone()),
            None => None,
        }
    }

    fn get_post_by_slug(&self, name: &str) -> (r: Option<Post>) {
        let n = self.data.items.len();
        let mut idx: usize = 0;
        proof {
            assert(self.posts().skip(0) =~= self.posts());
        }
        while idx < n
            invariant
                n == self.data.items@.len(),
                0 <= idx <= n,
                first_with_slug(self.data.items@, name@) == first_with_slug(
                    self.data.items@.skip(idx as int),
                    name@,
                ),
            decreases n - idx,
        {
            if str_eq(self.data.items[idx].slug.as_str(), name) {
                proof {
                    assert(self.data.items@.skip(idx as int)[0] == self.data.items@[idx as int]);
                }
                return Some(self.data.items[idx].clone());
            }
            proof {
                lemma_first_with_slug_step(self.data.items@, name@, idx as int);
            }
            idx += 1;
        }
        proof {
            assert(self.data.items@.skip(n as int) =~= Seq::<Post>::empty());
        }
        None
    }

    fn create_post(&mut self, req: CreatePostRequest, now: i64) -> (p: Post) {
        self.data.counter = self.data.counter + 1;
        let post = Post {
            id: self.data.counter,
            author_id: req.author_id,
            slug: req.slug,
            title: req.title,
            content: req.content,
            status: req.status,
            created: now,
            updated: now,
        };
        let result = post.clone();
        self.data.items.push(post);
        result
    }

    fn update_post(&mut self, id: i64, req: UpdatePostRequest, now: i64) -> (r: Result<
        Post,
        ServiceError,
    >) {
        let idx = match find_post_index(&self.data.items, id) {
            Some(idx) => idx,
            None => {
                return Err(ServiceError::NotFound);
            },
        };
        let post = Post {
            id,
            author_id: req.author_id,
            slug: req.slug,
            title: req.title,
            content: req.content,
            status: req.status,
            created: self.data.items[idx].created,
            updated: now,
        };
        let result = post.clone();
        self.data.items[idx] = post;
        Ok(result)
    }

    fn delete_post(&mut self, id: i64) -> (r: Result<(), ServiceError>) {
        let idx = match find_post_index(&self.data.items, id) {
            Some(idx) => idx,
            None => {
                return Err(ServiceError::NotFound);
            },
        };
        self.data.items.remove(idx);
        proof {
            old(self).posts().remove_ensures(idx as int);
        }
        Ok(())
    }
}

} // verus!
