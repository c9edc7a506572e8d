use vstd::prelude::*;

use crate::pagination::PageLimit;
use crate::post::PostView;
use crate::store::{has_post, new_post_view, page_of, page_pred, Database};

verus! {

/// Whether the ids of `s` strictly increase.
pub open spec fn ids_ascending(s: Seq<PostView>) -> bool {
    forall|i: int, j: int| 0 <= i < j < s.len() ==> #[trigger] s[i].id < #[trigger] s[j].id
}

proof fn lemma_filter_keeps_ascending(s: Seq<PostView>, pred: spec_fn(PostView) -> bool)
    requires
        ids_ascending(s),
    ensures
        ids_ascending(s.filter(pred)),
    decreases s.len(),
{
    reveal(Seq::filter);
    if s.len() > 0 {
        let d = s.drop_last();
        assert(ids_ascending(d));
        lemma_filter_keeps_ascending(d, pred);
        let f = s.filter(pred);
        if pred(s.last()) {
            assert forall|i: int, j: int| 0 <= i < j < f.len() implies #[trigger] f[i].id < #[trigger] f[j].id by {
                if j == f.len() - 1 {
                    let x = d.filter(pred)[i];
                    assert(d.filter(pred).contains(x));
                    d.lemma_filter_contains_rev(pred, x);
                    let k = choose|k: int| 0 <= k < d.len() && d[k] == x;
                    assert(s[k] == x);
                } else {
                    assert(f[i] == d.filter(pred)[i]);
                    assert(f[j] == d.filter(pred)[j]);
                }
            }
        }
    }
}

/// A listing comes back in strictly increasing id order.
pub proof fn law_page_ascending(db: Database, offset: int, limit: PageLimit)
    requires
        db.wf(),
    ensures
        ids_ascending(page_of(db.posts(), offset, limit)),
{
    lemma_filter_keeps_ascending(db.posts(), page_pred(offset, limit));
}

/// A page of a bounded listing holds exactly those stored posts whose id lies
/// in `[offset * limit, (offset + 1) * limit)`.
pub proof fn law_page_is_id_window(posts: Seq<PostView>, offset: i32, limit: i32)
    requires
        offset >= 0,
        limit >= 0,
    ensures
        forall|p: PostView| #[trigger] page_of(posts, offset as int, PageLimit::Bounded(limit)).contains(p)
            ==> posts.contains(p) && offset * limit <= p.id < (offset + 1) * limit,
        forall|p: PostView|
            posts.contains(p) && offset * limit <= p.id < (offset + 1) * limit
                ==> #[trigger] page_of(posts, offset as int, PageLimit::Bounded(limit)).contains(p),
{
    let pred = page_pred(offset as int, PageLimit::Bounded(limit));
    let page = page_of(posts, offset as int, PageLimit::Bounded(limit));
    assert forall|p: PostView| #[trigger] page.contains(p)
        implies posts.contains(p) && offset * limit <= p.id < (offset + 1) * limit by {
        posts.lemma_filter_contains_rev(pred, p);
        let k = choose|k: int| 0 <= k < page.len() && page[k] == p;
        posts.lemma_filter_pred(pred, k);
    }
    assert forall|p: PostView|
        posts.contains(p) && offset * limit <= p.id < (offset + 1) * limit implies #[trigger] page.contains(p) by {
        let k = choose|k: int| 0 <= k < posts.len() && posts[k] == p;
        posts.lemma_filter_contains(pred, k);
    }
}

/// Reading a post right after it was created finds it, with the fields it
/// was created from.
pub proof fn law_get_after_create(
    db: Database,
    after: Database,
    title: Seq<char>,
    excerpt: Seq<char>,
    content: Seq<char>,
)
    requires
        db.wf(),
        after.posts() == db.posts().push(new_post_view(db.next_id(), title, excerpt, content)),
    ensures
        has_post(after.posts(), db.next_id()),
        forall|i: int|
            0 <= i < after.posts().len() && #[trigger] after.posts()[i].id == db.next_id()
                ==> after.posts()[i] == new_post_view(db.next_id(), title, excerpt, content),
{
    let last = db.posts().len() as int;
    assert(after.posts()[last].id == db.next_id());
    assert forall|i: int|
        0 <= i < after.posts().len() && #[trigger] after.posts()[i].id == db.next_id()
            implies after.posts()[i] == new_post_view(db.next_id(), title, excerpt, content) by {
        if i < last {
            assert(after.posts()[i] == db.posts()[i]);
        }
    }
}

/// Once a post is deleted, or when the id was absent to begin with, looking
/// the id up finds nothing.
pub proof fn law_get_after_delete(db: Database, after: Database, id: int)
    requires
        db.wf(),
        (has_post(db.posts(), id) && forall|i: int|
            0 <= i < db.posts().len() && #[trigger] db.posts()[i].id == id
                ==> after.posts() == db.posts().remove(i))
        || (!has_post(db.posts(), id) && after.posts() == db.posts()),
    ensures
        !has_post(after.posts(), id),
{
    if has_post(db.posts(), id) {
        let i = choose|i: int| 0 <= i < db.posts().len() && #[trigger] db.posts()[i].id == id;
        assert forall|j: int| 0 <= j < after.posts().len() implies #[trigger] after.posts()[j].id != id by {
            let j0 = if j < i { j } else { j + 1 };
            assert(after.posts()[j] == db.posts()[j0]);
            if j0 < i {
                assert(db.posts()[j0].id < db.posts()[i].id);
            } else {
                assert(db.posts()[i].id < db.posts()[j0].id);
            }
        }
    }
}

/// Every stored id is recorded as assigned and lies below the id the next
/// created post receives; since deletion keeps both the record and the next
/// id, an id freed by a deletion is never handed out again.
pub proof fn law_stored_ids_below_next(db: Database, id: int)
    requires
        db.wf(),
        has_post(db.posts(), id),
    ensures
        db.assigned_ids().contains(id),
        id < db.next_id(),
{
    let i = choose|i: int| 0 <= i < db.posts().len() && #[trigger] db.posts()[i].id == id;
    assert(db.assigned_ids().contains(db.posts()[i].id));
}

} // verus!
