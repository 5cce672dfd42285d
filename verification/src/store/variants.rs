//! In-memory variant table: rows with unique, auto-incremented ids.

use vstd::prelude::*;
use crate::models::variants::{same_variant, VariantRecord};
use crate::models::page::{page_window, Page};

verus! {

pub struct VariantStore {
    next_id: i32,
    rows: Vec<VariantRecord>,
}

impl VariantStore {
    pub closed spec fn rows(self) -> Seq<VariantRecord> {
        self.rows@
    }

    pub closed spec fn next_id(self) -> i32 {
        self.next_id
    }

    /// Ids are positive, below the next id to hand out, and pairwise
    /// distinct.
    pub open spec fn wf(self) -> bool {
        &&& 1 <= self.next_id()
        &&& (forall|i: int|
            0 <= i < self.rows().len() ==> 1 <= #[trigger] self.rows()[i].id
                < self.next_id())
        &&& (forall|i: int, j: int|
            0 <= i < j < self.rows().len() ==> #[trigger] self.rows()[i].id
                != #[trigger] self.rows()[j].id)
    }

    pub open spec fn contains_id(self, id: i32) -> bool {
        exists|i: int| 0 <= i < self.rows().len() && #[trigger] self.rows()[i].id == id
    }

    /// Index of the row with the given id, where one exists.
    pub open spec fn index_of(self, id: i32) -> int {
        choose|i: int| 0 <= i < self.rows().len() && #[trigger] self.rows()[i].id == id
    }

    /// The row with the given id, where one exists.
    pub open spec fn spec_get(self, id: i32) -> VariantRecord {
        self.rows()[self.index_of(id)]
    }

    pub fn new() -> (s: Self)
        ensures
            s.wf(),
            s.rows().len() == 0,
            s.next_id() == 1,
    {
        VariantStore { next_id: 1, rows: Vec::new() }
    }

    /// Append a variant row carrying the given fields under a fresh id.
    pub fn create(
        &mut self,
        product_id: i32,
        name: String,
        sale_price: i32,
        purchase_price: i32,
    ) -> (rec: VariantRecord)
        requires
            old(self).wf(),
            old(self).next_id() < i32::MAX,
        ensures
            final(self).wf(),
            rec.id == old(self).next_id(),
            rec.product_id == product_id,
            rec.name@ == name@,
            rec.sale_price == sale_price,
            rec.purchase_price == purchase_price,
            final(self).next_id() == old(self).next_id() + 1,
            final(self).rows().len() == old(self).rows().len() + 1,
            final(self).rows().subrange(0, old(self).rows().len() as int) == old(self).rows(),
            same_variant(final(self).rows().last(), rec),
    {
        let rec = VariantRecord { id: self.next_id, product_id, name, sale_price, purchase_price };
        let stored = rec.clone();
        self.rows.push(stored);
        self.next_id = self.next_id + 1;
        proof {
            assert(self.rows().subrange(0, self.rows().len() - 1) =~= old(self).rows());
            assert(self.rows().last().id == old(self).next_id());
            assert forall|i: int|
                0 <= i < self.rows().len() - 1 implies #[trigger] self.rows()[i].id < old(self).next_id() by {
                assert(self.rows()[i] == old(self).rows()[i]);
            }
        }
        rec
    }


    /// Whether a fresh id can still be handed out.
    pub fn has_capacity(&self) -> (r: bool)
        ensures
            r == (self.next_id() < i32::MAX),
    {
        self.next_id < i32::MAX
    }

    /// The row with the given id, if any.
    pub fn get(&self, id: i32) -> (r: Option<&VariantRecord>)
        requires
            self.wf(),
        ensures
            r is Some <==> self.contains_id(id),
            r matches Some(rec) ==> rec.id == id && *rec == self.spec_get(id),
    {
        let n = self.rows.len();
        let mut i: usize = 0;
        while i < n
            invariant
                0 <= i <= n,
                n == self.rows().len(),
                self.wf(),
                forall|j: int| 0 <= j < i ==> #[trigger] self.rows()[j].id != id,
            decreases n - i,
        {
            if self.rows[i].id == id {
                return Some(&self.rows[i]);
            }
            i += 1;
        }
        None
    }

    /// Remove the row with the given id; report whether one was there.
    pub fn delete(&mut self, id: i32) -> (found: bool)
        requires
            old(self).wf(),
        ensures
            final(self).wf(),
            found == old(self).contains_id(id),
            !final(self).contains_id(id),
            found ==> final(self).rows() == old(self).rows().remove(old(self).index_of(id)),
            !found ==> final(self).rows() == old(self).rows(),
            final(self).next_id() == old(self).next_id(),
    {
        let n = self.rows.len();
        let mut i: usize = 0;
        while i < n
            invariant
                0 <= i <= n,
                *self == *old(self),
                n == self.rows().len(),
                self.wf(),
                forall|j: int| 0 <= j < i ==> #[trigger] self.rows()[j].id != id,
            decreases n - i,
        {
            if self.rows[i].id == id {
                proof {
                    assert(old(self).rows()[i as int].id == id);
                    assert(old(self).contains_id(id));
                    let j = old(self).index_of(id);
                    assert(0 <= j < old(self).rows().len() && old(self).rows()[j].id == id);
                    assert(j == i as int);
                }
                self.rows.remove(i);
                proof {
                    assert forall|k: int|
                        0 <= k < self.rows().len() implies #[trigger] self.rows()[k].id
                        != id by {
                        if k < i {
                            assert(self.rows()[k] == old(self).rows()[k]);
                        } else {
                            assert(self.rows()[k] == old(self).rows()[k + 1]);
                        }
                    }
                }
                return true;
            }
            i += 1;
        }
        false
    }

    /// The rows of one product, in storage order.
    pub open spec fn of_product(self, product_id: i32) -> Seq<VariantRecord> {
        self.rows().filter(|r: VariantRecord| r.product_id == product_id)
    }

    /// One page of the rows of one product.
    pub fn list(&self, product_id: i32, limit: u64, offset: u64) -> (p: Page<VariantRecord>)
        requires
            self.wf(),
        ensures
            p.limit == limit,
            p.offset == offset,
            p.total == self.of_product(product_id).len(),
            p.data@.len() == page_window(self.of_product(product_id), limit, offset).len(),
            forall|i: int|
                0 <= i < p.data@.len() ==> same_variant(
                    #[trigger] p.data@[i],
                    page_window(self.of_product(product_id), limit, offset)[i],
                ),
    {
        let filtered = self.collect_of_product(product_id);
        let data = window_of(&filtered, limit, offset);
        proof {
            assert forall|i: int|
                0 <= i < data@.len() implies same_variant(
                #[trigger] data@[i],
                page_window(self.of_product(product_id), limit, offset)[i],
            ) by {
                let start = crate::models::page::window_start(filtered@.len() as int, offset);
                assert(same_variant(data@[i], filtered@[start + i]));
            }
        }
        Page { limit, offset, total: filtered.len() as u64, data }
    }

    /// Copies of the rows of one product, in storage order.
    fn collect_of_product(&self, product_id: i32) -> (out: Vec<VariantRecord>)
        ensures
            out@.len() == self.of_product(product_id).len(),
            forall|i: int|
                0 <= i < out@.len() ==> same_variant(
                    #[trigger] out@[i],
                    self.of_product(product_id)[i],
                ),
    {
        let n = self.rows.len();
        let mut out: Vec<VariantRecord> = Vec::new();
        let mut i: usize = 0;
        while i < n
            invariant
                0 <= i <= n,
                n == self.rows().len(),
                out@.len() == self.rows().subrange(0, i as int).filter(
                    |r: VariantRecord| r.product_id == product_id,
                ).len(),
                forall|k: int|
                    0 <= k < out@.len() ==> same_variant(
                        #[trigger] out@[k],
                        self.rows().subrange(0, i as int).filter(
                            |r: VariantRecord| r.product_id == product_id,
                        )[k],
                    ),
            decreases n - i,
        {
            proof {
                reveal(Seq::filter);
                assert(self.rows().subrange(0, i + 1).drop_last() =~= self.rows().subrange(
                    0,
                    i as int,
                ));
                assert(self.rows().subrange(0, i + 1).last() == self.rows()[i as int]);
            }
            if self.rows[i].product_id == product_id {
                out.push(self.rows[i].clone());
            }
            i += 1;
        }
        proof {
            assert(self.rows().subrange(0, n as int) =~= self.rows());
        }
        out
    }
}

/// Copies of the rows of the window `[offset, offset + limit)` of `rows`,
/// clamped to its length.
fn window_of(rows: &Vec<VariantRecord>, limit: u64, offset: u64) -> (out: Vec<
    VariantRecord,
>)
    ensures
        out@.len() == page_window(rows@, limit, offset).len(),
        forall|i: int|
            0 <= i < out@.len() ==> same_variant(
                #[trigger] out@[i],
                page_window(rows@, limit, offset)[i],
            ),
{
    let n = rows.len();
    let start: usize = if offset < n as u64 {
        offset as usize
    } else {
        n
    };
    let room: u64 = (n - start) as u64;
    let take: usize = if limit < room {
        limit as usize
    } else {
        room as usize
    };
    let mut out: Vec<VariantRecord> = Vec::new();
    let mut k: usize = 0;
    while k < take
        invariant
            0 <= k <= take,
            start + take <= n,
            n == rows@.len(),
            out@.len() == k,
            forall|i: int|
                0 <= i < k ==> same_variant(#[trigger] out@[i], rows@[start + i]),
        decreases take - k,
    {
        out.push(rows[start + k].clone());
        k += 1;
    }
    out
}

} // verus!
