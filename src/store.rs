use vstd::prelude::*;

use crate::error::{AppError, StatusCode};
use crate::pagination::{
    in_page, page_rejected, page_window, post_views, select_window, window_pred, PageLimit,
};
use crate::post::{
    empty_field_message, first_empty_field, validate_new_post, DeletePostResponse,
    GetPostResponse, PostView,
};

verus! {

/// The largest id the store can assign.
pub const MAX_POST_ID: i32 = 0x7fff_fffe;

/// Whether some post in `posts` has id `id`.
pub open spec fn has_post(posts: Seq<PostView>, id: int) -> bool {
    exists|i: int| 0 <= i < posts.len() && #[trigger] posts[i].id == id
}

/// Whether a post's id lies on page `offset` of size `limit`.
pub open spec fn page_pred(offset: int, limit: PageLimit) -> spec_fn(PostView) -> bool {
    |p: PostView| in_page(offset, limit, p.id)
}

/// What `list(offset, limit)` returns: the posts on that page, in id order.
pub open spec fn page_of(posts: Seq<PostView>, offset: int, limit: PageLimit) -> Seq<PostView> {
    posts.filter(page_pred(offset, limit))
}

/// The post created from the given fields under id `id`.
pub open spec fn new_post_view(id: int, title: Seq<char>, excerpt: Seq<char>, content: Seq<char>) -> PostView {
    PostView { id, title, excerpt, content }
}

/// An in-memory post repository. Ids are assigned in increasing order,
/// starting at 1, and never reused after a deletion.
pub struct Database {
    rows: Vec<GetPostResponse>,
    next_id: i32,
    assigned: Ghost<Set<int>>,
}

impl Database {
    /// The stored posts, in increasing id order.
    pub closed spec fn posts(&self) -> Seq<PostView> {
        post_views(self.rows@)
    }

    /// The id the next created post receives.
    pub closed spec fn next_id(&self) -> int {
        self.next_id as int
    }

    /// Every id this store has ever assigned, deleted posts' ids included.
    pub closed spec fn assigned_ids(&self) -> Set<int> {
        self.assigned@
    }

    pub open spec fn wf(&self) -> bool {
        &&& 1 <= self.next_id() <= MAX_POST_ID + 1
        &&& forall|i: int, j: int|
            0 <= i < j < self.posts().len() ==> #[trigger] self.posts()[i].id < #[trigger] self.posts()[j].id
        &&& forall|i: int|
            0 <= i < self.posts().len() ==> 1 <= #[trigger] self.posts()[i].id < self.next_id()
        &&& forall|i: int|
            0 <= i < self.posts().len() ==> self.assigned_ids().contains(#[trigger] self.posts()[i].id)
        &&& forall|a: int| #[trigger] self.assigned_ids().contains(a) ==> 1 <= a < self.next_id()
    }

    /// An empty store whose first post receives id 1.
    pub fn new() -> (db: Database)
        ensures
            db.wf(),
            db.posts() == Seq::<PostView>::empty(),
            db.next_id() == 1,
            db.assigned_ids() == Set::<int>::empty(),
    {
        let db = Database { rows: Vec::new(), next_id: 1, assigned: Ghost(Set::empty()) };
        assert(db.posts() =~= Seq::<PostView>::empty());
        db
    }

    /// Creates a post from non-empty fields and returns its fresh id.
    pub fn add_post(&mut self, title: &str, excerpt: &str, content: &str) -> (r: Result<i32, AppError>)
        requires
            old(self).wf(),
        ensures
            final(self).wf(),
            first_empty_field(title@, excerpt@, content@) matches Some(f) ==> {
                &&& r matches Err(e)
                &&& e.status_code == StatusCode::BadRequest
                &&& e.err_msg@ == empty_field_message(f)
                &&& final(self).posts() == old(self).posts()
                &&& final(self).next_id() == old(self).next_id()
                &&& final(self).assigned_ids() == old(self).assigned_ids()
            },
            first_empty_field(title@, excerpt@, content@) is None && old(self).next_id() > MAX_POST_ID ==> {
                &&& r matches Err(e)
                &&& e.status_code == StatusCode::InternalServerError
                &&& e.err_msg@ == "post ids exhausted"@
                &&& final(self).posts() == old(self).posts()
                &&& final(self).next_id() == old(self).next_id()
                &&& final(self).assigned_ids() == old(self).assigned_ids()
            },
            first_empty_field(title@, excerpt@, content@) is None && old(self).next_id() <= MAX_POST_ID ==> {
                &&& r == Ok::<i32, AppError>(old(self).next_id() as i32)
                &&& final(self).posts() == old(self).posts().push(
                    new_post_view(old(self).next_id(), title@, excerpt@, content@),
                )
                &&& final(self).next_id() == old(self).next_id() + 1
                &&& final(self).assigned_ids() == old(self).assigned_ids().insert(old(self).next_id())
            },
            r matches Ok(id) ==> forall|i: int|
                0 <= i < old(self).posts().len() ==> #[trigger] old(self).posts()[i].id < id,
            r matches Ok(id) ==> forall|a: int| #[trigger] old(self).assigned_ids().contains(a) ==> a < id,
    {
        match validate_new_post(title, excerpt, content) {
            Err(e) => {
                return Err(e);
            },
            Ok(()) => {},
        }
        if self.next_id > MAX_POST_ID {
            return Err(AppError::internal("post ids exhausted"));
        }
        let id = self.next_id;
        let ghost before = self.posts();
        let ghost before_ids = self.assigned_ids();
        self.rows.push(
            GetPostResponse {
                post_id: id,
                title: title.to_owned(),
                excerpt: excerpt.to_owned(),
                content: content.to_owned(),
            },
        );
        self.next_id = id + 1;
        self.assigned = Ghost(self.assigned@.insert(id as int));
        assert(self.posts() =~= before.push(new_post_view(id as int, title@, excerpt@, content@)));
        assert forall|i: int| 0 <= i < self.posts().len() implies self.assigned_ids().contains(
            #[trigger] self.posts()[i].id) by {
            if i < before.len() {
                assert(self.posts()[i] == before[i]);
            }
        }
        assert forall|a: int| #[trigger] self.assigned_ids().contains(a) implies 1 <= a < self.next_id() by {
            if a != id {
                assert(before_ids.contains(a));
            }
        }
        Ok(id)
    }

    /// The index of the post with id `post_id`, if there is one.
    fn position(&self, post_id: i32) -> (r: Option<usize>)
        requires
            self.wf(),
        ensures
            r is None <==> !has_post(self.posts(), post_id as int),
            r matches Some(i) ==> i < self.posts().len() && self.posts()[i as int].id == post_id,
    {
        let mut i: usize = 0;
        while i < self.rows.len()
            invariant
                i <= self.rows.len(),
                forall|j: int| 0 <= j < i ==> #[trigger] self.posts()[j].id != post_id,
            decreases self.rows.len() - i,
        {
            if self.rows[i].post_id == post_id {
                assert(self.posts()[i as int].id == post_id);
                return Some(i);
            }
            i += 1;
        }
        None
    }

    /// The post with id `post_id`; a bad request if there is none.
    pub fn get_post(&self, post_id: i32) -> (r: Result<GetPostResponse, AppError>)
        requires
            self.wf(),
        ensures
            r is Ok <==> has_post(self.posts(), post_id as int),
            r matches Ok(p) ==> forall|i: int|
                0 <= i < self.posts().len() && #[trigger] self.posts()[i].id == post_id ==> p@ == self.posts()[i],
            r matches Err(e) ==> e.status_code == StatusCode::BadRequest
                && e.err_msg@ == "could not find post id in database"@,
    {
        match self.position(post_id) {
            Some(i) => {
                let p = self.rows[i].duplicate();
                assert forall|j: int|
                    0 <= j < self.posts().len() && #[trigger] self.posts()[j].id == post_id implies p@
                    == self.posts()[j] by {
                    if j < i {
                        assert(self.posts()[j].id < self.posts()[i as int].id);
                    } else if j > i {
                        assert(self.posts()[i as int].id < self.posts()[j].id);
                    }
                }
                Ok(p)
            },
            None => Err(AppError::bad_request("could not find post id in database")),
        }
    }

    /// Removes the post with id `post_id` and echoes the id; a bad request,
    /// with the store unchanged, if there is none.
    pub fn delete_post(&mut self, post_id: i32) -> (r: Result<DeletePostResponse, AppError>)
        requires
            old(self).wf(),
        ensures
            final(self).wf(),
            r is Ok <==> has_post(old(self).posts(), post_id as int),
            r matches Ok(d) ==> d.post_id == post_id && forall|i: int|
                0 <= i < old(self).posts().len() && #[trigger] old(self).posts()[i].id == post_id
                    ==> final(self).posts() == old(self).posts().remove(i),
            r matches Err(e) ==> e.status_code == StatusCode::BadRequest
                && e.err_msg@ == "could not find post id in database"@
                && final(self).posts() == old(self).posts(),
            final(self).next_id() == old(self).next_id(),
            final(self).assigned_ids() == old(self).assigned_ids(),
    {
        match self.position(post_id) {
            Some(i) => {
                let ghost before = self.posts();
                let _removed = self.rows.remove(i);
                assert(self.posts() =~= before.remove(i as int));
                assert forall|j: int|
                    0 <= j < before.len() && #[trigger] before[j].id == post_id implies j == i by {
                    if j < i {
                        assert(before[j].id < before[i as int].id);
                    } else if j > i {
                        assert(before[i as int].id < before[j].id);
                    }
                }
                assert forall|a: int, b: int|
                    0 <= a < b < self.posts().len() implies #[trigger] self.posts()[a].id
                    < #[trigger] self.posts()[b].id by {
                    let a0 = if a < i { a } else { a + 1 };
                    let b0 = if b < i { b } else { b + 1 };
                    assert(self.posts()[a] == before[a0]);
                    assert(self.posts()[b] == before[b0]);
                }
                assert forall|a: int| 0 <= a < self.posts().len() implies 1 <= #[trigger] self.posts()[a].id
                    < self.next_id() by {
                    let a0 = if a < i { a } else { a + 1 };
                    assert(self.posts()[a] == before[a0]);
                }
                assert forall|a: int| 0 <= a < self.posts().len() implies self.assigned_ids().contains(
                    #[trigger] self.posts()[a].id) by {
                    let a0 = if a < i { a } else { a + 1 };
                    assert(self.posts()[a] == before[a0]);
                }
                Ok(DeletePostResponse { post_id })
            },
            None => Err(AppError::bad_request("could not find post id in database")),
        }
    }

    /// The posts on page `offset` of size `limit`, in id order; a bad request
    /// on a negative offset or a negative bounded limit.
    pub fn get_posts(&self, offset: i32, limit: PageLimit) -> (r: Result<Vec<GetPostResponse>, AppError>)
        requires
            self.wf(),
        ensures
            r is Err <==> page_rejected(offset as int, limit),
            r matches Err(e) ==> e.status_code == StatusCode::BadRequest
                && e.err_msg@ == "page number cannot be negative"@,
            r matches Ok(v) ==> post_views(v@) == page_of(self.posts(), offset as int, limit),
    {
        let w = page_window(offset, limit)?;
        let page = select_window(&self.rows, &w);
        assert(window_pred(w) =~= page_pred(offset as int, limit));
        Ok(page)
    }
}

} // verus!
