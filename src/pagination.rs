use vstd::prelude::*;

use crate::error::{AppError, StatusCode};
use crate::post::{GetPostResponse, PostView};

verus! {

/// Page number used when a request gives none.
pub fn default_page_num() -> (r: i32)
    ensures
        r == 0,
{
    0
}

/// Offset used when a request gives none.
pub fn default_offset() -> (r: i32)
    ensures
        r == 0,
{
    0
}

/// Page size used when a request gives none.
pub fn default_limit() -> (r: i32)
    ensures
        r == 10,
{
    10
}

/// The page size of a listing: a number of ids, or no bound at all.
#[derive(Debug, Clone, Copy, PartialEq, Eq, Structural)]
pub enum PageLimit {
    Bounded(i32),
    Unbounded,
}

/// Whether post id `id` lies on page `offset` of size `limit`: the half-open
/// id range `[offset * limit, (offset + 1) * limit)`. An unbounded page 0 covers
/// every id from 0 on; later unbounded pages cover nothing.
pub open spec fn in_page(offset: int, limit: PageLimit, id: int) -> bool {
    match limit {
        PageLimit::Bounded(l) => offset * l <= id < (offset + 1) * l,
        PageLimit::Unbounded => offset == 0 && 0 <= id,
    }
}

/// Whether a listing request is rejected: a negative offset or a negative
/// bounded limit.
pub open spec fn page_rejected(offset: int, limit: PageLimit) -> bool {
    offset < 0 || (limit matches PageLimit::Bounded(l) && l < 0)
}

/// A half-open range of post ids; `end == None` means no upper bound.
#[derive(Debug, Clone, Copy, PartialEq, Eq, Structural)]
pub struct IdWindow {
    pub start: i64,
    pub end: Option<i64>,
}

impl IdWindow {
    pub open spec fn spec_contains(self, id: int) -> bool {
        self.start <= id && match self.end {
            Some(e) => id < e,
            None => true,
        }
    }

    pub fn contains(&self, id: i32) -> (r: bool)
        ensures
            r == self.spec_contains(id as int),
    {
        self.start <= id as i64 && match self.end {
            Some(e) => (id as i64) < e,
            None => true,
        }
    }
}

/// Validates a listing request and computes the id window it covers.
pub fn page_window(offset: i32, limit: PageLimit) -> (r: Result<IdWindow, AppError>)
    ensures
        r is Err <==> page_rejected(offset as int, limit),
        r matches Err(e) ==> e.status_code == StatusCode::BadRequest
            && e.err_msg@ == "page number cannot be negative"@,
        r matches Ok(w) ==> forall|id: int| #[trigger] w.spec_contains(id) <==> in_page(offset as int, limit, id),
        r matches Ok(w) ==> (limit matches PageLimit::Bounded(l) ==> w.start == offset * l
            && w.end == Some(((offset + 1) * l) as i64)),
{
    if offset < 0 {
        return Err(AppError::bad_request("page number cannot be negative"));
    }
    match limit {
        PageLimit::Bounded(l) => {
            if l < 0 {
                return Err(AppError::bad_request("page number cannot be negative"));
            }
            assert(0 <= offset * l <= 0x7fff_ffff * 0x7fff_ffff) by (nonlinear_arith)
                requires 0 <= offset <= 0x7fff_ffff, 0 <= l <= 0x7fff_ffff;
            assert((offset + 1) * l == offset * l + l) by (nonlinear_arith);
            let start = offset as i64 * l as i64;
            let end = start + l as i64;
            Ok(IdWindow { start, end: Some(end) })
        },
        PageLimit::Unbounded => {
            if offset == 0 {
                Ok(IdWindow { start: 0, end: None })
            } else {
                Ok(IdWindow { start: 0, end: Some(0) })
            }
        },
    }
}

/// The posts of `posts` whose id lies in `w`, in their order.
pub open spec fn posts_in_window(posts: Seq<PostView>, w: IdWindow) -> Seq<PostView> {
    posts.filter(window_pred(w))
}

/// Whether a post's id lies in `w`.
pub open spec fn window_pred(w: IdWindow) -> spec_fn(PostView) -> bool {
    |p: PostView| w.spec_contains(p.id)
}

/// The views of a sequence of posts.
pub open spec fn post_views(v: Seq<GetPostResponse>) -> Seq<PostView> {
    v.map_values(|p: GetPostResponse| p@)
}

/// Copies, in order, the posts whose id lies in `w`.
pub fn select_window(posts: &Vec<GetPostResponse>, w: &IdWindow) -> (r: Vec<GetPostResponse>)
    ensures
        post_views(r@) == posts_in_window(post_views(posts@), *w),
{
    let ghost pred = window_pred(*w);
    let mut out: Vec<GetPostResponse> = Vec::new();
    let mut i: usize = 0;
    while i < posts.len()
        invariant
            i <= posts.len(),
            pred == window_pred(*w),
            post_views(out@) == post_views(posts@).take(i as int).filter(pred),
        decreases posts.len() - i,
    {
        let ghost all = post_views(posts@);
        let ghost before = post_views(out@);
        proof {
            let t = all.take(i + 1);
            assert(t.drop_last() =~= all.take(i as int));
            assert(t.last() == posts@[i as int]@);
            reveal(Seq::filter);
            assert(t.filter(pred) == if pred(t.last()) {
                t.drop_last().filter(pred).push(t.last())
            } else {
                t.drop_last().filter(pred)
            });
        }
        if w.contains(posts[i].post_id) {
            out.push(posts[i].duplicate());
            assert(post_views(out@) =~= before.push(posts@[i as int]@));
        }
        assert(post_views(out@) == all.take(i + 1).filter(pred));
        i += 1;
    }
    assert(post_views(posts@).take(posts.len() as int) =~= post_views(posts@));
    out
}

} // verus!
