//! The transactional page/object store.
//!
//! A [`PageStore`] manages the fixed-size pages drawn from the Database-role
//! devices through an allocation bitmap with a first-fit policy. A [`Store`]
//! lays the rows of every class over those pages: each stored row owns one
//! allocated page, so committed object storage can never exceed the space
//! the devices provide — running out of pages is reported as exhaustion,
//! distinct from any programming error.

use vstd::prelude::*;
use vstd::slice::slice_to_vec;

use crate::sql::value::{copy_row, Value, ValShape, Type};
use crate::{CoreCode, CoreError, Error};

verus! {

/// The page heap of a database: fixed-size pages and their allocation
/// bitmap.
pub struct PageStore {
    /// Bytes per page; always at least one.
    pub page_size: u32,
    /// One flag per page; `true` marks an allocated page.
    pub bitmap: Vec<bool>,
}

impl PageStore {
    /// The number of pages.
    pub open spec fn n_pages(self) -> nat {
        self.bitmap@.len()
    }

    /// True if page `p` exists and is allocated.
    pub open spec fn is_allocated(self, p: int) -> bool {
        0 <= p < self.bitmap@.len() && self.bitmap@[p]
    }

    /// True if no page is free.
    pub open spec fn is_full(self) -> bool {
        forall|p: int| 0 <= p < self.bitmap@.len() ==> self.bitmap@[p]
    }

    /// Creates a page store of `total_bytes / page_size` pages, all free.
    pub fn new(page_size: u32, total_bytes: u64) -> (r: PageStore)
        requires
            page_size >= 1,
            total_bytes / (page_size as u64) <= usize::MAX,
        ensures
            r.page_size == page_size,
            r.n_pages() == total_bytes as nat / page_size as nat,
            forall|p: int| 0 <= p < r.n_pages() ==> !r.bitmap@[p],
    {
        let n = (total_bytes / (page_size as u64)) as usize;
        PageStore { page_size, bitmap: vec![false; n] }
    }

    /// Allocates the lowest free page (first fit) and marks it, or reports
    /// exhaustion when every page is taken.
    pub fn alloc_page(&mut self) -> (r: Result<usize, Error>)
        ensures
            final(self).page_size == old(self).page_size,
            (r matches Ok(p) ==> p < old(self).n_pages() && !old(self).bitmap@[p as int] && (forall|
                j: int,
            | 0 <= j < p ==> old(self).bitmap@[j]) && final(self).bitmap@ == old(
                self,
            ).bitmap@.update(p as int, true)),
            (r is Err ==> r == Err::<usize, Error>(Error::Core(CoreError(CoreCode::NoMem)))
                && *final(self) == *old(self) && old(self).is_full()),
    {
        let n = self.bitmap.len();
        let mut i: usize = 0;
        while i < n
            invariant
                i <= n,
                n == self.bitmap@.len(),
                *self == *old(self),
                forall|j: int| 0 <= j < i ==> self.bitmap@[j],
            decreases n - i,
        {
            if !self.bitmap[i] {
                self.bitmap.set(i, true);
                return Ok(i);
            }
            i = i + 1;
        }
        Err(Error::Core(CoreError(CoreCode::NoMem)))
    }

    /// Frees page `p`. Freeing an out-of-range page is a no-op.
    pub fn free_page(&mut self, p: usize)
        ensures
            final(self).page_size == old(self).page_size,
            (p < old(self).n_pages() ==> final(self).bitmap@ == old(self).bitmap@.update(
                p as int,
                false,
            )),
            (p >= old(self).n_pages() ==> *final(self) == *old(self)),
    {
        if p < self.bitmap.len() {
            self.bitmap.set(p, false);
        }
    }
}

/// A column of a class: its name and declared type.
pub struct Column {
    /// The column name.
    pub name: String,
    /// The declared column type.
    pub ty: Type,
}

/// The mathematical shape of a column.
pub struct ColShape {
    /// The column name.
    pub name: Seq<char>,
    /// The declared column type.
    pub ty: Type,
}

impl DeepView for Column {
    type V = ColShape;

    open spec fn deep_view(&self) -> ColShape {
        ColShape { name: self.name@, ty: self.ty }
    }
}

impl View for Column {
    type V = ColShape;

    open spec fn view(&self) -> ColShape {
        self.deep_view()
    }
}

/// A stored row: its identifier, the page backing it, and its values.
pub struct StoredRow {
    /// The row identifier, unique and increasing within its class.
    pub id: u64,
    /// The page that backs this row.
    pub page: usize,
    /// The column values.
    pub vals: Vec<Value>,
}

/// The rows of one class.
pub struct ClassData {
    /// The identifier the next inserted row receives.
    pub next_id: u64,
    /// The stored rows, in insertion order.
    pub rows: Vec<StoredRow>,
}

/// The shapes of the values of each row of a class, in insertion order.
pub open spec fn rows_view(rows: Seq<StoredRow>) -> Seq<Seq<ValShape>> {
    Seq::new(rows.len(), |i: int| rows[i].vals.deep_view())
}

/// The object store: the page heap plus the rows of every class, indexed
/// by class ordinal.
pub struct Store {
    /// The page heap.
    pub pages: PageStore,
    /// Per-class row storage, parallel to the dictionary's class list.
    pub data: Vec<ClassData>,
}

impl Store {
    /// The row shapes of class `c`.
    pub open spec fn class_rows(self, c: int) -> Seq<Seq<ValShape>> {
        rows_view(self.data@[c].rows@)
    }

    /// Well-formedness: every row is backed by an allocated page, no two
    /// rows share a page, and row identifiers increase in insertion order
    /// and stay below the class's next identifier.
    pub open spec fn wf(self) -> bool {
        &&& (forall|c: int, i: int|
            #![trigger self.data@[c].rows@[i]]
            0 <= c < self.data@.len() && 0 <= i < self.data@[c].rows@.len() ==> self.pages.is_allocated(
                self.data@[c].rows@[i].page as int,
            ))
        &&& (forall|c1: int, i1: int, c2: int, i2: int|
            #![trigger self.data@[c1].rows@[i1].page, self.data@[c2].rows@[i2].page]
            0 <= c1 < self.data@.len() && 0 <= i1 < self.data@[c1].rows@.len() && 0 <= c2
                < self.data@.len() && 0 <= i2 < self.data@[c2].rows@.len() && (c1 != c2 || i1 != i2)
                ==> self.data@[c1].rows@[i1].page != self.data@[c2].rows@[i2].page)
        &&& (forall|c: int, i: int, j: int|
            #![trigger self.data@[c].rows@[i].id, self.data@[c].rows@[j].id]
            0 <= c < self.data@.len() && 0 <= i < j < self.data@[c].rows@.len() ==> self.data@[c].rows@[i].id
                < self.data@[c].rows@[j].id)
        &&& (forall|c: int, i: int|
            #![trigger self.data@[c].rows@[i].id]
            0 <= c < self.data@.len() && 0 <= i < self.data@[c].rows@.len() ==> self.data@[c].rows@[i].id
                < self.data@[c].next_id)
    }

    /// Creates a store over `pages` with no classes.
    pub fn new(pages: PageStore) -> (r: Store)
        ensures
            r.pages == pages,
            r.data@.len() == 0,
            r.wf(),
    {
        Store { pages, data: Vec::new() }
    }

    /// Adds storage for a new class; its ordinal is the previous class
    /// count.
    pub fn add_class(&mut self) -> (c: usize)
        requires
            old(self).wf(),
        ensures
            final(self).wf(),
            c == old(self).data@.len(),
            final(self).pages == old(self).pages,
            final(self).data@.len() == old(self).data@.len() + 1,
            (forall|d: int| 0 <= d < old(self).data@.len() ==> final(self).data@[d] == old(
                self,
            ).data@[d]),
            final(self).data@[c as int].rows@.len() == 0,
            final(self).data@[c as int].next_id == 0,
    {
        let c = self.data.len();
        self.data.push(ClassData { next_id: 0, rows: Vec::new() });
        c
    }

    /// Returns the number of classes.
    pub fn n_classes(&self) -> (r: usize)
        ensures
            r == self.data@.len(),
    {
        self.data.len()
    }

    /// Returns the number of rows of class `c`.
    pub fn class_len(&self, c: usize) -> (r: usize)
        requires
            c < self.data@.len(),
        ensures
            r == self.class_rows(c as int).len(),
    {
        self.data[c].rows.len()
    }

    /// Returns the values of row `i` of class `c`.
    pub fn row_at(&self, c: usize, i: usize) -> (r: &Vec<Value>)
        requires
            c < self.data@.len(),
            i < self.data@[c as int].rows@.len(),
        ensures
            r.deep_view() == self.class_rows(c as int)[i as int],
    {
        &self.data[c].rows[i].vals
    }

    /// Returns the number of free pages of the heap.
    pub fn count_free(&self) -> (r: usize)
        ensures
            r == free_pages(self.pages.bitmap@),
    {
        let n = self.pages.bitmap.len();
        let mut i: usize = 0;
        let mut cnt: usize = 0;
        while i < n
            invariant
                i <= n,
                n == self.pages.bitmap@.len(),
                cnt == free_pages(self.pages.bitmap@.subrange(0, i as int)),
                cnt <= i,
            decreases n - i,
        {
            proof {
                assert(self.pages.bitmap@.subrange(0, i + 1).drop_last() =~= self.pages.bitmap@.subrange(
                    0,
                    i as int,
                ));
                assert(self.pages.bitmap@.subrange(0, i + 1).last() == self.pages.bitmap@[i as int]);
            }
            if !self.pages.bitmap[i] {
                cnt = cnt + 1;
            }
            i = i + 1;
        }
        proof {
            assert(self.pages.bitmap@.subrange(0, n as int) =~= self.pages.bitmap@);
        }
        cnt
    }

    /// Inserts a row into class `c`, drawing one page from the heap.
    ///
    /// Fails with `NoMem` exactly when the page heap is exhausted or the
    /// class's row-identifier space is spent; the store is then unchanged.
    pub fn insert_row(&mut self, c: usize, vals: Vec<Value>) -> (r: Result<u64, Error>)
        requires
            old(self).wf(),
            c < old(self).data@.len(),
        ensures
            final(self).wf(),
            final(self).data@.len() == old(self).data@.len(),
            (r is Err <==> (old(self).pages.is_full() || old(self).data@[c as int].next_id
                == u64::MAX)),
            (r is Err ==> r == Err::<u64, Error>(Error::Core(CoreError(CoreCode::NoMem)))
                && *final(self) == *old(self)),
            (r matches Ok(id) ==> id == old(self).data@[c as int].next_id && final(self).class_rows(
                c as int,
            ) == old(self).class_rows(c as int).push(vals.deep_view())),
            (r is Ok ==> forall|d: int|
                0 <= d < old(self).data@.len() && d != c ==> final(self).data@[d] == old(
                    self,
                ).data@[d]),
            (r is Ok ==> final(self).data@[c as int].next_id == old(self).data@[c as int].next_id
                + 1),
            final(self).pages.page_size == old(self).pages.page_size,
            final(self).pages.n_pages() == old(self).pages.n_pages(),
            (r is Ok ==> exists|p: int|
                0 <= p < old(self).pages.n_pages() && !old(self).pages.bitmap@[p] && final(self).pages.bitmap@ == #[trigger] old(self).pages.bitmap@.update(p, true)),
    {
        let next_id = self.data[c].next_id;
        if next_id == u64::MAX {
            return Err(Error::Core(CoreError(CoreCode::NoMem)));
        }
        let page = match self.pages.alloc_page() {
            Ok(p) => p,
            Err(e) => {
                return Err(Error::Core(CoreError(CoreCode::NoMem)));
            },
        };
        let ghost pre = *self;
        let row = StoredRow { id: next_id, page, vals };
        let mut cd = ClassData { next_id: 0, rows: Vec::new() };
        // Swap the class data out, extend it, and swap it back: the store
        // is whole again right after.
        swap_class(&mut self.data, c, &mut cd);
        cd.rows.push(row);
        cd.next_id = next_id + 1;
        swap_class(&mut self.data, c, &mut cd);
        proof {
            let s = old(self);
            let t = self;
            assert(t.data@[c as int].rows@ == s.data@[c as int].rows@.push(
                StoredRow { id: next_id, page, vals },
            ));
            assert(t.class_rows(c as int) =~= s.class_rows(c as int).push(vals.deep_view()));
            assert forall|c1: int, i1: int|
                0 <= c1 < t.data@.len() && 0 <= i1 < t.data@[c1].rows@.len() implies t.pages.is_allocated(
                (#[trigger] t.data@[c1].rows@[i1]).page as int,
            ) by {
                if c1 == c && i1 == s.data@[c as int].rows@.len() {
                } else {
                    assert(s.data@[c1].rows@[i1] == t.data@[c1].rows@[i1]);
                    assert(s.pages.is_allocated(s.data@[c1].rows@[i1].page as int));
                }
            }
            assert forall|c1: int, i1: int, c2: int, i2: int|
                0 <= c1 < t.data@.len() && 0 <= i1 < t.data@[c1].rows@.len() && 0 <= c2
                    < t.data@.len() && 0 <= i2 < t.data@[c2].rows@.len() && (c1 != c2 || i1
                    != i2) implies (#[trigger] t.data@[c1].rows@[i1].page)
                != (#[trigger] t.data@[c2].rows@[i2].page) by {
                let newi = s.data@[c as int].rows@.len() as int;
                if c1 == c && i1 == newi {
                    assert(s.pages.is_allocated(s.data@[c2].rows@[i2].page as int));
                } else if c2 == c && i2 == newi {
                    assert(s.pages.is_allocated(s.data@[c1].rows@[i1].page as int));
                } else {
                    assert(s.data@[c1].rows@[i1] == t.data@[c1].rows@[i1]);
                    assert(s.data@[c2].rows@[i2] == t.data@[c2].rows@[i2]);
                }
            }
        }
        Ok(next_id)
    }

    /// Deletes row `i` of class `c` and returns its page to the heap.
    pub fn delete_row_at(&mut self, c: usize, i: usize)
        requires
            old(self).wf(),
            c < old(self).data@.len(),
            i < old(self).data@[c as int].rows@.len(),
        ensures
            final(self).wf(),
            final(self).data@.len() == old(self).data@.len(),
            final(self).class_rows(c as int) == old(self).class_rows(c as int).remove(i as int),
            (forall|d: int|
                0 <= d < old(self).data@.len() && d != c ==> final(self).data@[d] == old(
                    self,
                ).data@[d]),
            final(self).data@[c as int].next_id == old(self).data@[c as int].next_id,
            final(self).pages.page_size == old(self).pages.page_size,
            final(self).pages.n_pages() == old(self).pages.n_pages(),
    {
        let mut cd = ClassData { next_id: 0, rows: Vec::new() };
        swap_class(&mut self.data, c, &mut cd);
        let row = cd.rows.remove(i);
        swap_class(&mut self.data, c, &mut cd);
        self.pages.free_page(row.page);
        proof {
            let s = old(self);
            let t = self;
            assert(t.data@[c as int].rows@ == s.data@[c as int].rows@.remove(i as int));
            assert(t.class_rows(c as int) =~= s.class_rows(c as int).remove(i as int));
            let gone = s.data@[c as int].rows@[i as int].page;
            assert forall|c1: int, i1: int|
                0 <= c1 < t.data@.len() && 0 <= i1 < t.data@[c1].rows@.len() implies t.pages.is_allocated(
                (#[trigger] t.data@[c1].rows@[i1]).page as int,
            ) by {
                let oi = if c1 == c && i1 >= i { i1 + 1 } else { i1 };
                assert(t.data@[c1].rows@[i1] == s.data@[c1].rows@[oi]);
                assert(s.pages.is_allocated(s.data@[c1].rows@[oi].page as int));
                assert(s.data@[c1].rows@[oi].page != gone) by {
                    assert(s.data@[c as int].rows@[i as int].page == gone);
                }
            }
            assert forall|c1: int, i1: int, c2: int, i2: int|
                0 <= c1 < t.data@.len() && 0 <= i1 < t.data@[c1].rows@.len() && 0 <= c2
                    < t.data@.len() && 0 <= i2 < t.data@[c2].rows@.len() && (c1 != c2 || i1
                    != i2) implies (#[trigger] t.data@[c1].rows@[i1].page)
                != (#[trigger] t.data@[c2].rows@[i2].page) by {
                let o1 = if c1 == c && i1 >= i { i1 + 1 } else { i1 };
                let o2 = if c2 == c && i2 >= i { i2 + 1 } else { i2 };
                assert(t.data@[c1].rows@[i1] == s.data@[c1].rows@[o1]);
                assert(t.data@[c2].rows@[i2] == s.data@[c2].rows@[o2]);
            }
            assert forall|c1: int, i1: int, j1: int|
                0 <= c1 < t.data@.len() && 0 <= i1 < j1 < t.data@[c1].rows@.len() implies (
            #[trigger] t.data@[c1].rows@[i1].id) < (#[trigger] t.data@[c1].rows@[j1].id) by {
                let o1 = if c1 == c && i1 >= i { i1 + 1 } else { i1 };
                let o2 = if c1 == c && j1 >= i { j1 + 1 } else { j1 };
                assert(t.data@[c1].rows@[i1] == s.data@[c1].rows@[o1]);
                assert(t.data@[c1].rows@[j1] == s.data@[c1].rows@[o2]);
                assert(s.data@[c1].rows@[o1].id < s.data@[c1].rows@[o2].id);
            }
            assert forall|c1: int, i1: int|
                0 <= c1 < t.data@.len() && 0 <= i1 < t.data@[c1].rows@.len() implies (
            #[trigger] t.data@[c1].rows@[i1].id) < t.data@[c1].next_id by {
                let o1 = if c1 == c && i1 >= i { i1 + 1 } else { i1 };
                assert(t.data@[c1].rows@[i1] == s.data@[c1].rows@[o1]);
            }
        }
    }
    /// Replaces the values of row `i` of class `c` in place; the row keeps
    /// its identifier and page, and the page heap is untouched.
    pub fn update_row_at(&mut self, c: usize, i: usize, vals: Vec<Value>)
        requires
            old(self).wf(),
            c < old(self).data@.len(),
            i < old(self).data@[c as int].rows@.len(),
        ensures
            final(self).wf(),
            final(self).data@.len() == old(self).data@.len(),
            final(self).class_rows(c as int) == old(self).class_rows(c as int).update(
                i as int,
                vals.deep_view(),
            ),
            (forall|d: int|
                0 <= d < old(self).data@.len() && d != c ==> final(self).data@[d] == old(
                    self,
                ).data@[d]),
            final(self).data@[c as int].next_id == old(self).data@[c as int].next_id,
            final(self).pages == old(self).pages,
    {
        let id = self.data[c].rows[i].id;
        let page = self.data[c].rows[i].page;
        let mut cd = ClassData { next_id: 0, rows: Vec::new() };
        swap_class(&mut self.data, c, &mut cd);
        cd.rows.set(i, StoredRow { id, page, vals });
        swap_class(&mut self.data, c, &mut cd);
        proof {
            let s = old(self);
            let t = self;
            assert(t.class_rows(c as int) =~= s.class_rows(c as int).update(
                i as int,
                t.data@[c as int].rows@[i as int].vals.deep_view(),
            ));
            assert forall|c1: int, i1: int|
                0 <= c1 < t.data@.len() && 0 <= i1 < t.data@[c1].rows@.len() implies t.pages.is_allocated(
                (#[trigger] t.data@[c1].rows@[i1]).page as int,
            ) by {
                assert(t.data@[c1].rows@[i1].page == s.data@[c1].rows@[i1].page);
                assert(s.pages.is_allocated(s.data@[c1].rows@[i1].page as int));
            }
            assert forall|c1: int, i1: int, c2: int, i2: int|
                0 <= c1 < t.data@.len() && 0 <= i1 < t.data@[c1].rows@.len() && 0 <= c2
                    < t.data@.len() && 0 <= i2 < t.data@[c2].rows@.len() && (c1 != c2 || i1
                    != i2) implies (#[trigger] t.data@[c1].rows@[i1].page)
                != (#[trigger] t.data@[c2].rows@[i2].page) by {
                assert(t.data@[c1].rows@[i1].page == s.data@[c1].rows@[i1].page);
                assert(t.data@[c2].rows@[i2].page == s.data@[c2].rows@[i2].page);
            }
            assert forall|c1: int, i1: int, j1: int|
                0 <= c1 < t.data@.len() && 0 <= i1 < j1 < t.data@[c1].rows@.len() implies (
            #[trigger] t.data@[c1].rows@[i1].id) < (#[trigger] t.data@[c1].rows@[j1].id) by {
                assert(t.data@[c1].rows@[i1].id == s.data@[c1].rows@[i1].id);
                assert(t.data@[c1].rows@[j1].id == s.data@[c1].rows@[j1].id);
            }
            assert forall|c1: int, i1: int|
                0 <= c1 < t.data@.len() && 0 <= i1 < t.data@[c1].rows@.len() implies (
            #[trigger] t.data@[c1].rows@[i1].id) < t.data@[c1].next_id by {
                assert(t.data@[c1].rows@[i1].id == s.data@[c1].rows@[i1].id);
            }
        }
    }
}

/// Observable equality of stored rows: same identifier, page and value
/// shapes.
pub open spec fn row_eq(a: StoredRow, b: StoredRow) -> bool {
    a.id == b.id && a.page == b.page && a.vals.deep_view() == b.vals.deep_view()
}

/// Observable equality of class data.
pub open spec fn class_eq(a: ClassData, b: ClassData) -> bool {
    &&& a.next_id == b.next_id
    &&& a.rows@.len() == b.rows@.len()
    &&& (forall|i: int| 0 <= i < a.rows@.len() ==> row_eq(#[trigger] a.rows@[i], #[trigger] b.rows@[i]))
}

/// Observable equality of whole stores: same pages and, class by class and
/// row by row, the same identifiers, pages and value shapes.
pub open spec fn store_eq(a: Store, b: Store) -> bool {
    &&& a.pages.page_size == b.pages.page_size
    &&& a.pages.bitmap@ == b.pages.bitmap@
    &&& a.data@.len() == b.data@.len()
    &&& (forall|c: int| 0 <= c < a.data@.len() ==> class_eq(#[trigger] a.data@[c], #[trigger] b.data@[c]))
}

/// Well-formedness carries over observable equality.
pub proof fn lemma_store_eq_wf(a: Store, b: Store)
    requires
        store_eq(a, b),
        a.wf(),
    ensures
        b.wf(),
{
    assert forall|c: int, i: int|
        0 <= c < b.data@.len() && 0 <= i < b.data@[c].rows@.len() implies b.pages.is_allocated(
        (#[trigger] b.data@[c].rows@[i]).page as int,
    ) by {
        assert(row_eq(a.data@[c].rows@[i], b.data@[c].rows@[i]));
        assert(a.pages.is_allocated(a.data@[c].rows@[i].page as int));
    }
    assert forall|c1: int, i1: int, c2: int, i2: int|
        0 <= c1 < b.data@.len() && 0 <= i1 < b.data@[c1].rows@.len() && 0 <= c2 < b.data@.len()
            && 0 <= i2 < b.data@[c2].rows@.len() && (c1 != c2 || i1 != i2) implies (
    #[trigger] b.data@[c1].rows@[i1].page) != (#[trigger] b.data@[c2].rows@[i2].page) by {
        assert(row_eq(a.data@[c1].rows@[i1], b.data@[c1].rows@[i1]));
        assert(row_eq(a.data@[c2].rows@[i2], b.data@[c2].rows@[i2]));
    }
    assert forall|c: int, i: int, j: int|
        0 <= c < b.data@.len() && 0 <= i < j < b.data@[c].rows@.len() implies (
    #[trigger] b.data@[c].rows@[i].id) < (#[trigger] b.data@[c].rows@[j].id) by {
        assert(row_eq(a.data@[c].rows@[i], b.data@[c].rows@[i]));
        assert(row_eq(a.data@[c].rows@[j], b.data@[c].rows@[j]));
    }
    assert forall|c: int, i: int|
        0 <= c < b.data@.len() && 0 <= i < b.data@[c].rows@.len() implies (
    #[trigger] b.data@[c].rows@[i].id) < b.data@[c].next_id by {
        assert(row_eq(a.data@[c].rows@[i], b.data@[c].rows@[i]));
    }
}

/// Copies one stored row, preserving its observable state.
fn copy_stored_row(r: &StoredRow) -> (out: StoredRow)
    ensures
        row_eq(*r, out),
{
    StoredRow { id: r.id, page: r.page, vals: copy_row(&r.vals) }
}

/// Copies one class's data, preserving its observable state.
fn copy_class(cd: &ClassData) -> (out: ClassData)
    ensures
        class_eq(*cd, out),
{
    let mut rows: Vec<StoredRow> = Vec::new();
    let mut i: usize = 0;
    while i < cd.rows.len()
        invariant
            i <= cd.rows@.len(),
            rows@.len() == i,
            forall|j: int| 0 <= j < i ==> row_eq(#[trigger] cd.rows@[j], #[trigger] rows@[j]),
        decreases cd.rows@.len() - i,
    {
        rows.push(copy_stored_row(&cd.rows[i]));
        i = i + 1;
    }
    ClassData { next_id: cd.next_id, rows }
}

impl Store {
    /// Takes a deep copy of the store: a snapshot whose observable state —
    /// pages, classes, rows and value shapes — equals this store's.
    pub fn snapshot(&self) -> (out: Store)
        ensures
            store_eq(*self, out),
    {
        let pages = PageStore {
            page_size: self.pages.page_size,
            bitmap: slice_to_vec(self.pages.bitmap.as_slice()),
        };
        let mut data: Vec<ClassData> = Vec::new();
        let mut c: usize = 0;
        while c < self.data.len()
            invariant
                c <= self.data@.len(),
                data@.len() == c,
                forall|d: int| 0 <= d < c ==> class_eq(#[trigger] self.data@[d], #[trigger] data@[d]),
            decreases self.data@.len() - c,
        {
            data.push(copy_class(&self.data[c]));
            c = c + 1;
        }
        Store { pages, data }
    }
}

/// Swaps the class data at ordinal `c` with `cd`.
fn swap_class(data: &mut Vec<ClassData>, c: usize, cd: &mut ClassData)
    requires
        c < old(data)@.len(),
    ensures
        final(data)@ == old(data)@.update(c as int, *old(cd)),
        *final(cd) == old(data)@[c as int],
{
    data.set_and_swap(c, cd);
}

/// The number of free pages in an allocation bitmap.
pub open spec fn free_pages(s: Seq<bool>) -> nat
    decreases s.len(),
{
    if s.len() == 0 {
        0
    } else {
        free_pages(s.drop_last()) + (if s.last() {
            0nat
        } else {
            1nat
        })
    }
}

/// A full bitmap has no free page, and conversely.
pub proof fn lemma_free_pages_zero(s: Seq<bool>)
    ensures
        (free_pages(s) == 0) <==> (forall|p: int| 0 <= p < s.len() ==> s[p]),
    decreases s.len(),
{
    if s.len() > 0 {
        lemma_free_pages_zero(s.drop_last());
        if free_pages(s) == 0 {
            assert forall|p: int| 0 <= p < s.len() implies s[p] by {
                if p < s.len() - 1 {
                    assert(s.drop_last()[p] == s[p]);
                }
            }
        }
        if forall|p: int| 0 <= p < s.len() ==> s[p] {
            assert forall|p: int| 0 <= p < s.drop_last().len() implies s.drop_last()[p] by {
                assert(s.drop_last()[p] == s[p]);
            }
        }
    }
}

/// Allocating a free page reduces the free count by one.
pub proof fn lemma_free_pages_update(s: Seq<bool>, p: int)
    requires
        0 <= p < s.len(),
        !s[p],
    ensures
        free_pages(s) == free_pages(s.update(p, true)) + 1,
    decreases s.len(),
{
    let t = s.update(p, true);
    if p == s.len() - 1 {
        assert(t.drop_last() =~= s.drop_last());
    } else {
        lemma_free_pages_update(s.drop_last(), p);
        assert(t.drop_last() =~= s.drop_last().update(p, true));
        assert(t.last() == s.last());
    }
}

} // verus!
