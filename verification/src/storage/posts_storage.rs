//! The post collection: keyed by post id, filtered and paged for listings.

use vstd::prelude::*;

use crate::errors::AppError;
use crate::pagination::{
    spec_page_items, spec_total_pages, total_pages, valid_page_params, validate_page_params,
};
use crate::post::{ListPostsResult, Post, Status};

verus! {

broadcast use vstd::seq_lib::group_seq_lib_default;

/// Post records, with unique ids and well-formed contents.
#[derive(Debug)]
pub struct PostsStorage {
    posts: Vec<Post>,
}

impl View for PostsStorage {
    type V = Seq<Post>;

    closed spec fn view(&self) -> Seq<Post> {
        self.posts@
    }
}

/// Whether some record in `s` carries the id.
pub open spec fn contains_post_id(s: Seq<Post>, id: u128) -> bool {
    exists|i: int| 0 <= i < s.len() && s[i].id == id
}

/// The index of the record carrying the id.
pub open spec fn post_idx_of(s: Seq<Post>, id: u128) -> int {
    choose|i: int| 0 <= i < s.len() && s[i].id == id
}

/// Whether a post belongs to the author and passes the status filter.
pub open spec fn post_matches(p: Post, author_id: u128, f: Option<Status>) -> bool {
    &&& p.author_id == author_id
    &&& f matches Some(st) ==> p.status == st
}

/// The author's posts passing the filter, in store order.
pub open spec fn filtered_posts(s: Seq<Post>, author_id: u128, f: Option<Status>) -> Seq<Post> {
    s.filter(|p: Post| post_matches(p, author_id, f))
}

/// In a store with unique ids, the id determines the record: a created
/// post read back by its id is that post, field for field.
pub proof fn lemma_post_read_back(s: Seq<Post>, p: Post, q: Post)
    requires
        forall|i: int, j: int|
            #![trigger s[i], s[j]]
            0 <= i < j < s.len() ==> s[i].id != s[j].id,
        s.contains(p),
        s.contains(q),
        q.id == p.id,
    ensures
        q == p,
{
    let i = choose|i: int| 0 <= i < s.len() && s[i] == p;
    let j = choose|j: int| 0 <= j < s.len() && s[j] == q;
    assert(s[i].id == s[j].id);
}

impl PostsStorage {
    /// Structural invariant: ids unique, every record well formed, and the
    /// count within the wire's 32-bit totals.
    pub open spec fn wf(self) -> bool {
        &&& forall|i: int, j: int|
            #![trigger self@[i], self@[j]]
            0 <= i < j < self@.len() ==> self@[i].id != self@[j].id
        &&& forall|i: int| 0 <= i < self@.len() ==> (#[trigger] self@[i]).wf()
        &&& self@.len() <= 0xffff_ffff
    }

    /// An empty store.
    pub fn new() -> (r: Self)
        ensures
            r@ == Seq::<Post>::empty(),
            r.wf(),
    {
        PostsStorage { posts: Vec::new() }
    }

    /// Index of the record with this id, if any.
    fn find_index(&self, id: u128) -> (r: Option<usize>)
        ensures
            r matches Some(i) ==> i < self@.len() && self@[i as int].id == id,
            r is None ==> !contains_post_id(self@, id),
    {
        let mut i: usize = 0;
        while i < self.posts.len()
            invariant
                0 <= i <= self@.len(),
                forall|k: int| 0 <= k < i ==> (#[trigger] self@[k]).id != id,
            decreases self@.len() - i,
        {
            if self.posts[i].id == id {
                return Some(i);
            }
            i = i + 1;
        }
        None
    }

    /// The record with this id, copied out; absence is distinct from any
    /// stored value.
    pub fn get(&self, id: u128) -> (r: Option<Post>)
        ensures
            r is Some <==> contains_post_id(self@, id),
            r matches Some(p) ==> self@.contains(p) && p.id == id,
    {
        match self.find_index(id) {
            Some(i) => Some(self.posts[i].clone()),
            None => None,
        }
    }

    /// How many records the store holds.
    pub fn len(&self) -> (r: usize)
        ensures
            r == self@.len(),
    {
        self.posts.len()
    }

    /// Every stored record, copied out in store order; the scheduler's
    /// full rescan reads the collection through this.
    pub fn all(&self) -> (r: Vec<Post>)
        ensures
            r@ == self@,
    {
        let mut out: Vec<Post> = Vec::new();
        let mut i: usize = 0;
        proof {
            assert(self@.subrange(0, 0) =~= Seq::<Post>::empty());
        }
        while i < self.posts.len()
            invariant
                0 <= i <= self@.len(),
                out@ == self@.subrange(0, i as int),
            decreases self@.len() - i,
        {
            out.push(self.posts[i].clone());
            proof {
                assert(self@.subrange(0, i + 1) =~= self@.subrange(0, i as int).push(
                    self@[i as int],
                ));
            }
            i = i + 1;
        }
        proof {
            assert(self@.subrange(0, self@.len() as int) =~= self@);
        }
        out
    }

    /// Inserts a new record; a duplicate id leaves the store unchanged.
    pub fn create(&mut self, post: &Post) -> (r: Result<Post, AppError>)
        requires
            post.wf(),
            old(self).wf(),
            old(self)@.len() < 0xffff_ffff,
        ensures
            final(self).wf(),
            r is Ok <==> !contains_post_id(old(self)@, post.id),
            r matches Ok(p) ==> p == *post && final(self)@ == old(self)@.push(*post),
            r matches Err(e) ==> e is Internal && final(self)@ == old(self)@,
    {
        match self.find_index(post.id) {
            Some(_) => Err(AppError::Internal),
            None => {
                self.posts.push(post.clone());
                Ok(post.clone())
            },
        }
    }

    /// Replaces the record with the same id; an unknown id is reported as
    /// absent and changes nothing.
    pub fn update(&mut self, post: &Post) -> (r: Result<Post, AppError>)
        requires
            post.wf(),
            old(self).wf(),
        ensures
            final(self).wf(),
            r is Ok <==> contains_post_id(old(self)@, post.id),
            r matches Ok(p) ==> p == *post && final(self)@ == old(self)@.update(
                post_idx_of(old(self)@, post.id),
                *post,
            ),
            r matches Err(e) ==> e is NotFound && final(self)@ == old(self)@,
    {
        match self.find_index(post.id) {
            Some(i) => {
                proof {
                    let k = post_idx_of(self@, post.id);
                    assert(self@[k].id == post.id);
                    assert(k == i);
                }
                self.posts.set(i, post.clone());
                Ok(post.clone())
            },
            None => Err(AppError::NotFound),
        }
    }

    /// Removes the record with this id; an unknown id is reported as absent.
    pub fn delete(&mut self, id: u128) -> (r: Result<(), AppError>)
        requires
            old(self).wf(),
        ensures
            final(self).wf(),
            r is Ok <==> contains_post_id(old(self)@, id),
            r is Ok ==> final(self)@ == old(self)@.remove(post_idx_of(old(self)@, id)),
            r matches Err(e) ==> e is NotFound && final(self)@ == old(self)@,
    {
        match self.find_index(id) {
            Some(i) => {
                proof {
                    let k = post_idx_of(self@, id);
                    assert(self@[k].id == id);
                    assert(k == i);
                    self@.remove_ensures(i as int);
                }
                self.posts.remove(i);
                Ok(())
            },
            None => Err(AppError::NotFound),
        }
    }

    /// One page of the author's posts under the status filter.
    ///
    /// The page items are the slice of the filtered store at offset
    /// `(page - 1) * page_size`; the totals follow the pagination rules.
    pub fn list_posts(
        &self,
        author_id: u128,
        page: u32,
        page_size: u32,
        status_filter: Option<Status>,
    ) -> (r: Result<ListPostsResult, AppError>)
        requires
            self.wf(),
        ensures
            r is Ok <==> valid_page_params(page, page_size),
            r matches Ok(l) ==> {
                let f = filtered_posts(self@, author_id, status_filter);
                &&& l.posts@ == spec_page_items(f, page as nat, page_size as nat)
                &&& l.total_count == f.len()
                &&& l.current_page == page
                &&& l.total_pages == spec_total_pages(f.len(), page_size as nat)
            },
            r matches Err(e) ==> e is InvalidArgument,
    {
        match validate_page_params(page, page_size) {
            Err(e) => {
                return Err(e);
            },
            Ok(()) => {},
        }
        let ghost pred = |p: Post| post_matches(p, author_id, status_filter);
        let mut matching: Vec<Post> = Vec::new();
        let mut i: usize = 0;
        proof {
            reveal(Seq::filter);
            assert(self@.subrange(0, 0).filter(pred) =~= Seq::<Post>::empty());
        }
        while i < self.posts.len()
            invariant
                0 <= i <= self@.len(),
                matching@ == self@.subrange(0, i as int).filter(pred),
                pred == (|p: Post| post_matches(p, author_id, status_filter)),
            decreases self@.len() - i,
        {
            let p = &self.posts[i];
            let keep = p.author_id == author_id && (match status_filter {
                Some(st) => p.status == st,
                None => true,
            });
            proof {
                reveal(Seq::filter);
                assert(self@.subrange(0, i + 1).drop_last() =~= self@.subrange(0, i as int));
                assert(self@.subrange(0, i + 1).last() == self@[i as int]);
            }
            if keep {
                matching.push(p.clone());
            }
            i = i + 1;
        }
        proof {
            assert(self@.subrange(0, self@.len() as int) =~= self@);
            self@.lemma_filter_len(pred);
        }
        let total: usize = matching.len();
        let total_count: u32 = total as u32;
        let tp = total_pages(total_count, page_size);
        proof {
            assert((page - 1) * (page_size as int) <= 0xffff_ffff * 100) by (nonlinear_arith)
                requires
                    1 <= page <= 0xffff_ffffu64,
                    page_size <= 100,
            ;
        }
        let off64: u64 = (page as u64 - 1) * (page_size as u64);
        let mut page_items: Vec<Post> = Vec::new();
        if off64 < total as u64 {
            let end64: u64 = if off64 + page_size as u64 > total as u64 {
                total as u64
            } else {
                off64 + page_size as u64
            };
            let off: usize = off64 as usize;
            let end: usize = end64 as usize;
            let mut j: usize = off;
            while j < end
                invariant
                    off <= j <= end <= matching@.len(),
                    page_items@ == matching@.subrange(off as int, j as int),
                decreases end - j,
            {
                page_items.push(matching[j].clone());
                proof {
                    assert(matching@.subrange(off as int, j + 1) =~= matching@.subrange(
                        off as int,
                        j as int,
                    ).push(matching@[j as int]));
                }
                j = j + 1;
            }
        }
        proof {
            let f = filtered_posts(self@, author_id, status_filter);
            assert(f == matching@);
            assert(page_items@ == spec_page_items(f, page as nat, page_size as nat));
        }
        Ok(ListPostsResult {
            posts: page_items,
            total_count,
            current_page: page,
            total_pages: tp,
        })
    }
}

} // verus!
