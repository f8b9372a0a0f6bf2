//! Fee schedules: named, versioned tables of per-price fees.
//!
//! A schedule holds ranges ordered by ascending minimum price; the fee of a
//! price is taken from the last range whose minimum does not exceed it.
//! Committing a schedule under an existing name creates the next version of
//! that name.

use vstd::prelude::*;
use crate::errors::{DatabaseError, ErrorCode};
use crate::lex::str_eq;

verus! {

/// One fee range: from this minimum price upward (until the next range) the
/// fee applies.
#[derive(Clone, Copy, PartialEq, Eq, Structural, Debug)]
pub struct FeeScheduleRange {
    pub min_price: i64,
    pub fee_in_cents: i64,
}

/// A fee range prepared for insertion.
#[derive(Clone, Copy, PartialEq, Eq, Structural, Debug)]
pub struct NewFeeScheduleRange {
    pub min_price: i64,
    pub fee_in_cents: i64,
}

/// Whether the ranges are ordered by ascending minimum price, as the store
/// hands them out.
pub open spec fn ranges_sorted(rs: Seq<FeeScheduleRange>) -> bool {
    forall|i: int, j: int|
        0 <= i < j < rs.len() ==> (#[trigger] rs[i]).min_price <= (#[trigger] rs[j]).min_price
}

/// A named, versioned fee schedule and its ranges.
#[derive(Debug)]
pub struct FeeSchedule {
    pub id: u128,
    pub name: String,
    pub version: i16,
    pub ranges: Vec<FeeScheduleRange>,
}

/// Whether some schedule carries the id.
pub open spec fn has_schedule_id(ss: Seq<FeeSchedule>, id: u128) -> bool {
    exists|i: int| 0 <= i < ss.len() && (#[trigger] ss[i]).id == id
}

/// The index of the schedule carrying the id; meaningful when ids are
/// unique and the id is present.
pub open spec fn schedule_idx_of(ss: Seq<FeeSchedule>, id: u128) -> int {
    choose|i: int| 0 <= i < ss.len() && (#[trigger] ss[i]).id == id
}

/// All schedule ids are distinct.
pub open spec fn schedule_ids_unique(ss: Seq<FeeSchedule>) -> bool {
    forall|i: int, j: int|
        0 <= i < j < ss.len() ==> (#[trigger] ss[i]).id != (#[trigger] ss[j]).id
}

/// With unique ids, any index found to carry the id is the index
/// `schedule_idx_of` denotes.
pub proof fn lemma_schedule_idx_of_unique(ss: Seq<FeeSchedule>, id: u128, i: int)
    requires
        schedule_ids_unique(ss),
        0 <= i < ss.len(),
        ss[i].id == id,
    ensures
        schedule_idx_of(ss, id) == i,
        has_schedule_id(ss, id),
{
    assert(has_schedule_id(ss, id));
    let j = schedule_idx_of(ss, id);
    if i < j {
        assert(ss[i].id != ss[j].id);
    } else if j < i {
        assert(ss[j].id != ss[i].id);
    }
}

/// Whether two schedules hold the same data. Field-wise equality; names are
/// compared by their characters.
pub open spec fn schedule_like(a: FeeSchedule, b: FeeSchedule) -> bool {
    &&& a.id == b.id
    &&& a.name@ == b.name@
    &&& a.version == b.version
    &&& a.ranges@ == b.ranges@
}

/// A copy of a string with the same characters.
fn clone_string(s: &String) -> (r: String)
    ensures
        r@ == s@,
{
    s.clone()
}

/// A copy of a range vector with the same contents.
fn clone_ranges(rs: &Vec<FeeScheduleRange>) -> (r: Vec<FeeScheduleRange>)
    ensures
        r@ == rs@,
{
    let mut out: Vec<FeeScheduleRange> = Vec::new();
    let mut i: usize = 0;
    while i < rs.len()
        invariant
            0 <= i <= rs@.len(),
            out@ == rs@.take(i as int),
        decreases rs@.len() - i,
    {
        out.push(rs[i]);
        proof {
            assert(out@ =~= rs@.take(i as int + 1));
        }
        i = i + 1;
    }
    proof {
        assert(rs@.take(rs@.len() as int) =~= rs@);
    }
    out
}

/// A copy of a schedule holding the same data.
fn clone_schedule(s: &FeeSchedule) -> (r: FeeSchedule)
    ensures
        schedule_like(r, *s),
{
    FeeSchedule {
        id: s.id,
        name: clone_string(&s.name),
        version: s.version,
        ranges: clone_ranges(&s.ranges),
    }
}

impl FeeSchedule {
    /// A new fee schedule of the given name and ranges, not yet committed.
    pub fn create(name: String, ranges: Vec<NewFeeScheduleRange>) -> (r: NewFeeSchedule)
        ensures
            r.name@ == name@,
            r.ranges@ == ranges@,
    {
        NewFeeSchedule { name, ranges }
    }

    /// The schedule's ranges, ordered by ascending minimum price.
    pub fn ranges(&self) -> (r: &Vec<FeeScheduleRange>)
        ensures
            r@ == self.ranges@,
    {
        &self.ranges
    }

    /// The stored schedule with the given id, or a not-found error.
    pub fn find(schedules: &Vec<FeeSchedule>, id: u128) -> (r: Result<FeeSchedule, DatabaseError>)
        requires
            schedule_ids_unique(schedules@),
        ensures
            r is Ok <==> has_schedule_id(schedules@, id),
            r matches Ok(s) ==> schedule_like(s, schedules@[schedule_idx_of(schedules@, id)]),
            r matches Err(e) ==> e.error_code is NoResults,
    {
        let mut i: usize = 0;
        while i < schedules.len()
            invariant
                schedule_ids_unique(schedules@),
                0 <= i <= schedules@.len(),
                forall|j: int| 0 <= j < i ==> (#[trigger] schedules@[j]).id != id,
            decreases schedules@.len() - i,
        {
            if schedules[i].id == id {
                proof {
                    lemma_schedule_idx_of_unique(schedules@, id, i as int);
                }
                return Ok(clone_schedule(&schedules[i]));
            }
            i = i + 1;
        }
        Err(DatabaseError::no_results("Error loading Fee Schedule"))
    }

    /// The fee range applying to a price: the last range whose minimum price
    /// does not exceed it, or nothing when the price lies below every range.
    pub fn get_range(&self, price: i64) -> (r: Option<FeeScheduleRange>)
        requires
            ranges_sorted(self.ranges@),
        ensures
            r is Some <==> self.ranges@.len() > 0 && self.ranges@[0].min_price <= price,
            r matches Some(rg) ==> exists|k: int|
                0 <= k < self.ranges@.len() && rg == #[trigger] self.ranges@[k]
                    && self.ranges@[k].min_price <= price && (k + 1 == self.ranges@.len()
                    || self.ranges@[k + 1].min_price > price),
    {
        let mut found: Option<FeeScheduleRange> = None;
        let mut i: usize = 0;
        while i < self.ranges.len()
            invariant
                ranges_sorted(self.ranges@),
                0 <= i <= self.ranges@.len(),
                forall|j: int| 0 <= j < i ==> (#[trigger] self.ranges@[j]).min_price <= price,
                i == 0 ==> found is None,
                i > 0 ==> found == Some(self.ranges@[i - 1]),
            decreases self.ranges@.len() - i,
        {
            if self.ranges[i].min_price > price {
                return found;
            }
            found = Some(self.ranges[i]);
            i = i + 1;
        }
        found
    }
}

/// A fee schedule prepared for insertion: committing it creates the next
/// version of its name.
#[derive(Debug)]
pub struct NewFeeSchedule {
    pub name: String,
    pub ranges: Vec<NewFeeScheduleRange>,
}

/// The version the next schedule of this name gets: one more than the last
/// stored schedule of the same name, or zero for a fresh name.
pub open spec fn spec_next_version(ss: Seq<FeeSchedule>, name: Seq<char>) -> int {
    if exists|i: int| 0 <= i < ss.len() && (#[trigger] ss[i]).name@ == name {
        let last = choose|i: int|
            0 <= i < ss.len() && (#[trigger] ss[i]).name@ == name && (forall|j: int|
                i < j < ss.len() ==> (#[trigger] ss[j]).name@ != name);
        ss[last].version + 1
    } else {
        0
    }
}

impl NewFeeSchedule {
    /// Commits the schedule to the store under a fresh id: its version is
    /// one more than the last stored version of the same name, or zero for a
    /// fresh name. Fails when the id is taken or the name's versions are
    /// exhausted.
    pub fn commit(self, id: u128, store: &mut Vec<FeeSchedule>) -> (r: Result<
        FeeSchedule,
        DatabaseError,
    >)
        requires
            schedule_ids_unique(old(store)@),
        ensures
            schedule_ids_unique(final(store)@),
            r is Err ==> final(store)@ == old(store)@,
            r matches Err(e) ==> e.error_code is InsertError,
            r matches Ok(s) ==> !has_schedule_id(old(store)@, id) && s.id == id && s.name@
                == self.name@ && s.version as int == spec_next_version(old(store)@, self.name@)
                && s.ranges@.len() == self.ranges@.len() && (forall|k: int|
                0 <= k < s.ranges@.len() ==> (#[trigger] s.ranges@[k]).min_price
                    == self.ranges@[k].min_price && s.ranges@[k].fee_in_cents
                    == self.ranges@[k].fee_in_cents) && final(store)@.len() == old(store)@.len()
                + 1 && final(store)@.take(old(store)@.len() as int) == old(store)@ && schedule_like(
                final(store)@.last(),
                s,
            ),
    {
        let ghost old_store = store@;
        // The last stored schedule of the same name decides the version.
        let mut previous: Option<i16> = None;
        let mut i: usize = 0;
        while i < store.len()
            invariant
                store@ == old_store,
                0 <= i <= store@.len(),
                previous matches Some(v) ==> exists|p: int|
                    0 <= p < i && (#[trigger] store@[p]).name@ == self.name@ && store@[p].version
                        == v && (forall|j: int| p < j < i ==> (#[trigger] store@[j]).name@ != self.name@),
                previous is None ==> forall|j: int|
                    0 <= j < i ==> (#[trigger] store@[j]).name@ != self.name@,
            decreases store@.len() - i,
        {
            if str_eq(store[i].name.as_str(), self.name.as_str()) {
                previous = Some(store[i].version);
            }
            i = i + 1;
        }
        let next_version: i16 = match previous {
            None => 0,
            Some(v) => {
                if v == i16::MAX {
                    return Err(
                        DatabaseError::new(
                            ErrorCode::InsertError,
                            Some("Could not create fee schedule".to_owned()),
                        ),
                    );
                }
                v + 1
            },
        };
        if Self::store_has_id(store, id) {
            return Err(
                DatabaseError::new(
                    ErrorCode::InsertError,
                    Some("Could not create fee schedule".to_owned()),
                ),
            );
        }
        let mut ranges: Vec<FeeScheduleRange> = Vec::new();
        let mut k: usize = 0;
        while k < self.ranges.len()
            invariant
                0 <= k <= self.ranges@.len(),
                ranges@.len() == k,
                forall|j: int|
                    0 <= j < k ==> (#[trigger] ranges@[j]).min_price == self.ranges@[j].min_price
                        && ranges@[j].fee_in_cents == self.ranges@[j].fee_in_cents,
            decreases self.ranges@.len() - k,
        {
            ranges.push(
                FeeScheduleRange {
                    min_price: self.ranges[k].min_price,
                    fee_in_cents: self.ranges[k].fee_in_cents,
                },
            );
            k = k + 1;
        }
        let stored = FeeSchedule { id, name: self.name, version: next_version, ranges };
        let copy = clone_schedule(&stored);
        store.push(stored);
        proof {
            assert forall|a: int, b: int|
                0 <= a < b < store@.len() implies (#[trigger] store@[a]).id != (
            #[trigger] store@[b]).id by {
                if b == store@.len() - 1 {
                    assert(old_store[a].id != id);
                }
            }
            assert(store@.take(old_store.len() as int) =~= old_store);
        }
        Ok(copy)
    }

    /// Whether some stored schedule carries the id.
    fn store_has_id(store: &Vec<FeeSchedule>, id: u128) -> (r: bool)
        ensures
            r == has_schedule_id(store@, id),
    {
        let mut i: usize = 0;
        while i < store.len()
            invariant
                0 <= i <= store@.len(),
                forall|j: int| 0 <= j < i ==> (#[trigger] store@[j]).id != id,
            decreases store@.len() - i,
        {
            if store[i].id == id {
                return true;
            }
            i = i + 1;
        }
        false
    }
}

} // verus!
