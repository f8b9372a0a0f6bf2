//! Ticket pricing periods and their validation.
//!
//! A ticket type carries a schedule of time-bounded price windows. Among the
//! published windows of one ticket type no two half-open intervals
//! `[start_date, end_date)` may overlap; deleted windows are kept for
//! historical order linkage but take no part in validation or price lookup.
//! The check-then-insert sequence is a single operation on the schedule, so
//! the non-overlap invariant holds across it.

use vstd::prelude::*;
use crate::errors::{DatabaseError, ErrorCode, FieldValidationErrors, ValidationErrorItem};

verus! {

/// Status of a pricing period: published periods take part in overlap
/// validation and current-price lookup, deleted ones are retained only for
/// historical order linkage.
#[derive(Clone, Copy, PartialEq, Eq, Structural, Debug)]
pub enum TicketPricingStatus {
    Published,
    Deleted,
}

/// A time-bounded price window of one ticket type. Timestamps are seconds
/// since the epoch; the interval is half-open: `[start_date, end_date)`.
#[derive(Debug)]
pub struct TicketPricing {
    pub id: u128,
    pub ticket_type_id: u128,
    pub name: String,
    pub status: TicketPricingStatus,
    pub price_in_cents: i64,
    pub start_date: i64,
    pub end_date: i64,
}

/// Whether two periods hold the same data. Field-wise equality; names are
/// compared by their characters.
pub open spec fn period_like(a: TicketPricing, b: TicketPricing) -> bool {
    &&& a.id == b.id
    &&& a.ticket_type_id == b.ticket_type_id
    &&& a.name@ == b.name@
    &&& a.status == b.status
    &&& a.price_in_cents == b.price_in_cents
    &&& a.start_date == b.start_date
    &&& a.end_date == b.end_date
}

impl TicketPricing {
    /// A pricing period is well formed when its window is non-empty and its
    /// price is not negative.
    pub open spec fn wf(self) -> bool {
        self.start_date < self.end_date && self.price_in_cents >= 0
    }

    /// Whether two periods overlap as half-open intervals.
    pub open spec fn spec_overlaps(self, other: TicketPricing) -> bool {
        self.start_date < other.end_date && other.start_date < self.end_date
    }

    /// Whether the period is published and active at the given time:
    /// `start_date <= now < end_date`.
    pub open spec fn spec_active_at(self, now: i64) -> bool {
        self.status is Published && self.start_date <= now < self.end_date
    }
}

/// Whether the half-open intervals of two periods intersect:
/// `a.start < b.end && b.start < a.end`.
pub fn overlaps(a: &TicketPricing, b: &TicketPricing) -> (r: bool)
    ensures
        r == a.spec_overlaps(*b),
{
    a.start_date < b.end_date && b.start_date < a.end_date
}

/// Overlap of half-open intervals is symmetric:
/// `overlaps(a, b) == overlaps(b, a)` for every pair of periods.
pub proof fn lemma_overlaps_symmetric(a: TicketPricing, b: TicketPricing)
    ensures
        a.spec_overlaps(b) == b.spec_overlaps(a),
{
}

/// Whether some published period of the given ticket type, other than the
/// period `id` itself, overlaps the half-open window `[start_date, end_date)`.
pub open spec fn window_conflicts(
    ps: Seq<TicketPricing>,
    id: u128,
    ticket_type_id: u128,
    start_date: i64,
    end_date: i64,
) -> bool {
    exists|i: int|
        0 <= i < ps.len() && (#[trigger] ps[i]).id != id && ps[i].ticket_type_id == ticket_type_id
            && ps[i].status is Published && ps[i].start_date < end_date && start_date
            < ps[i].end_date
}

/// Whether the published period at index `i` overlaps another published
/// period of the same ticket type.
pub open spec fn period_conflicted(ps: Seq<TicketPricing>, p: TicketPricing) -> bool {
    p.status is Published && window_conflicts(ps, p.id, p.ticket_type_id, p.start_date, p.end_date)
}

/// No two published periods of the sequence overlap.
pub open spec fn no_published_overlap(ps: Seq<TicketPricing>) -> bool {
    forall|i: int, j: int|
        0 <= i < ps.len() && 0 <= j < ps.len() && i != j && (#[trigger] ps[i]).status is Published
            && (#[trigger] ps[j]).status is Published ==> !ps[i].spec_overlaps(ps[j])
}

/// All period ids are distinct.
pub open spec fn ids_unique(ps: Seq<TicketPricing>) -> bool {
    forall|i: int, j: int|
        0 <= i < j < ps.len() ==> (#[trigger] ps[i]).id != (#[trigger] ps[j]).id
}

/// Whether some period carries the id.
pub open spec fn has_id(ps: Seq<TicketPricing>, id: u128) -> bool {
    exists|i: int| 0 <= i < ps.len() && (#[trigger] ps[i]).id == id
}

/// The index of the period carrying the id; meaningful when ids are unique
/// and the id is present.
pub open spec fn idx_of(ps: Seq<TicketPricing>, id: u128) -> int {
    choose|i: int| 0 <= i < ps.len() && (#[trigger] ps[i]).id == id
}

/// With unique ids, any index found to carry the id is the index `idx_of`
/// denotes.
pub proof fn lemma_idx_of_unique(ps: Seq<TicketPricing>, id: u128, i: int)
    requires
        ids_unique(ps),
        0 <= i < ps.len(),
        ps[i].id == id,
    ensures
        idx_of(ps, id) == i,
        has_id(ps, id),
{
    assert(has_id(ps, id));
    let j = idx_of(ps, id);
    if i < j {
        assert(ps[i].id != ps[j].id);
    } else if j < i {
        assert(ps[j].id != ps[i].id);
    }
}

impl TicketPricing {
    /// A new published period for the given ticket type and window.
    pub fn create(
        ticket_type_id: u128,
        name: String,
        start_date: i64,
        end_date: i64,
        price_in_cents: i64,
    ) -> (r: NewTicketPricing)
        ensures
            r.ticket_type_id == ticket_type_id,
            r.name@ == name@,
            r.status == TicketPricingStatus::Published,
            r.start_date == start_date,
            r.end_date == end_date,
            r.price_in_cents == price_in_cents,
    {
        NewTicketPricing {
            ticket_type_id,
            name,
            status: TicketPricingStatus::Published,
            start_date,
            end_date,
            price_in_cents,
        }
    }

    /// The status of the period.
    pub fn status(&self) -> (r: TicketPricingStatus)
        ensures
            r == self.status,
    {
        self.status
    }

    /// A copy of the period with the given editable attributes applied;
    /// attributes left out keep their old value.
    pub fn update(&self, attributes: &TicketPricingEditableAttributes) -> (r: TicketPricing)
        ensures
            r.id == self.id,
            r.ticket_type_id == self.ticket_type_id,
            r.status == self.status,
            attributes.name matches Some(n) ==> r.name@ == n@,
            attributes.name is None ==> r.name@ == self.name@,
            attributes.price_in_cents matches Some(p) ==> r.price_in_cents == p,
            attributes.price_in_cents is None ==> r.price_in_cents == self.price_in_cents,
            attributes.start_date matches Some(s) ==> r.start_date == s,
            attributes.start_date is None ==> r.start_date == self.start_date,
            attributes.end_date matches Some(e) ==> r.end_date == e,
            attributes.end_date is None ==> r.end_date == self.end_date,
    {
        let name = match &attributes.name {
            Some(n) => clone_string(n),
            None => clone_string(&self.name),
        };
        let price_in_cents = match attributes.price_in_cents {
            Some(p) => p,
            None => self.price_in_cents,
        };
        let start_date = match attributes.start_date {
            Some(s) => s,
            None => self.start_date,
        };
        let end_date = match attributes.end_date {
            Some(e) => e,
            None => self.end_date,
        };
        TicketPricing {
            id: self.id,
            ticket_type_id: self.ticket_type_id,
            name,
            status: self.status,
            price_in_cents,
            start_date,
            end_date,
        }
    }

    /// The stored period with the given id, or a not-found error.
    pub fn find(schedule: &PricingSchedule, id: u128) -> (r: Result<TicketPricing, DatabaseError>)
        requires
            schedule.wf(),
        ensures
            r is Ok <==> has_id(schedule.periods@, id),
            r matches Ok(p) ==> period_like(p, schedule.periods@[idx_of(schedule.periods@, id)]),
            r matches Err(e) ==> e.error_code is NoResults,
    {
        schedule.find(id)
    }

    /// The price window of the schedule active at the given time.
    pub fn get_current_ticket_pricing(schedule: &PricingSchedule, now: i64) -> (r: Result<
        TicketPricing,
        DatabaseError,
    >)
        ensures
            r is Ok <==> schedule.active_periods(now).len() == 1,
            r matches Ok(p) ==> period_like(p, schedule.active_periods(now)[0]),
            r matches Err(e) ==> if schedule.active_periods(now).len() == 0 {
                e.error_code is NoResults
            } else {
                e.error_code is MultipleResultsWhenOneExpected
            },
    {
        schedule.get_current_ticket_pricing(now)
    }

    /// Removes or soft-deletes this period from its schedule, given how many
    /// order items reference it.
    pub fn destroy(&self, schedule: &mut PricingSchedule, order_ref_count: u64) -> (r: Result<
        usize,
        DatabaseError,
    >)
        requires
            old(schedule).wf(),
        ensures
            final(schedule).wf(),
            final(schedule).ticket_type_id == old(schedule).ticket_type_id,
            r is Ok <==> has_id(old(schedule).periods@, self.id),
            r is Err ==> final(schedule).periods@ == old(schedule).periods@,
            r matches Err(e) ==> e.error_code is NoResults,
            r matches Ok(n) ==> {
                let i = idx_of(old(schedule).periods@, self.id);
                if order_ref_count == 0 {
                    n == 1 && final(schedule).periods@ == old(schedule).periods@.remove(i)
                } else {
                    n == 0 && final(schedule).periods@ == old(schedule).periods@.update(
                        i,
                        TicketPricing {
                            status: TicketPricingStatus::Deleted,
                            ..old(schedule).periods@[i]
                        },
                    )
                }
            },
    {
        schedule.destroy(self.id, order_ref_count)
    }

    /// Checks a period's window against the published periods of its ticket
    /// type, excluding the period itself by id. On violation the error names
    /// the period and its attempted bounds.
    pub fn ticket_pricing_no_overlapping_periods(
        periods: &Vec<TicketPricing>,
        id: u128,
        ticket_type_id: u128,
        start_date: i64,
        end_date: i64,
    ) -> (r: Result<(), ValidationErrorItem>)
        ensures
            r is Ok <==> !window_conflicts(periods@, id, ticket_type_id, start_date, end_date),
            r matches Err(v) ==> v.code@ == "ticket_pricing_overlapping_periods"@ && v.period_id
                == id && v.ticket_type_id == ticket_type_id && v.start_date == start_date
                && v.end_date == end_date,
    {
        let mut i: usize = 0;
        while i < periods.len()
            invariant
                0 <= i <= periods@.len(),
                forall|j: int|
                    0 <= j < i ==> !((#[trigger] periods@[j]).id != id
                        && periods@[j].ticket_type_id == ticket_type_id
                        && periods@[j].status is Published && periods@[j].start_date < end_date
                        && start_date < periods@[j].end_date),
            decreases periods@.len() - i,
        {
            let p = &periods[i];
            if p.id != id && p.ticket_type_id == ticket_type_id && matches!(
                p.status,
                TicketPricingStatus::Published,
            ) && p.start_date < end_date && start_date < p.end_date {
                return Err(
                    ValidationErrorItem {
                        code: "ticket_pricing_overlapping_periods".to_owned(),
                        period_id: id,
                        ticket_type_id,
                        start_date,
                        end_date,
                    },
                );
            }
            i = i + 1;
        }
        Ok(())
    }
}

/// A copy of a string with the same characters.
fn clone_string(s: &String) -> (r: String)
    ensures
        r@ == s@,
{
    s.clone()
}

/// A copy of a period holding the same data.
fn clone_period(p: &TicketPricing) -> (r: TicketPricing)
    ensures
        period_like(r, *p),
{
    TicketPricing {
        id: p.id,
        ticket_type_id: p.ticket_type_id,
        name: clone_string(&p.name),
        status: p.status,
        price_in_cents: p.price_in_cents,
        start_date: p.start_date,
        end_date: p.end_date,
    }
}

/// The editable attributes of a pricing period; an attribute left `None`
/// keeps its value.
#[derive(Debug)]
pub struct TicketPricingEditableAttributes {
    pub name: Option<String>,
    pub price_in_cents: Option<i64>,
    pub start_date: Option<i64>,
    pub end_date: Option<i64>,
}

impl TicketPricingEditableAttributes {
    /// Attributes that change nothing.
    pub fn new() -> (r: TicketPricingEditableAttributes)
        ensures
            r.name is None,
            r.price_in_cents is None,
            r.start_date is None,
            r.end_date is None,
    {
        TicketPricingEditableAttributes {
            name: None,
            price_in_cents: None,
            start_date: None,
            end_date: None,
        }
    }
}

/// A pricing period prepared for insertion, not yet part of a schedule.
#[derive(Debug)]
pub struct NewTicketPricing {
    pub ticket_type_id: u128,
    pub name: String,
    pub status: TicketPricingStatus,
    pub price_in_cents: i64,
    pub start_date: i64,
    pub end_date: i64,
}

impl NewTicketPricing {
    /// The period this value becomes once stored under the given id.
    pub open spec fn spec_period(self, id: u128) -> TicketPricing {
        TicketPricing {
            id,
            ticket_type_id: self.ticket_type_id,
            name: self.name,
            status: self.status,
            price_in_cents: self.price_in_cents,
            start_date: self.start_date,
            end_date: self.end_date,
        }
    }

    /// Stores the period in the schedule of its ticket type under a fresh
    /// id. The store enforces no rule beyond id freshness: overlap is
    /// checked by validation, not on insertion.
    pub fn commit(self, id: u128, schedule: &mut PricingSchedule) -> (r: Result<
        TicketPricing,
        DatabaseError,
    >)
        requires
            old(schedule).wf(),
            self.ticket_type_id == old(schedule).ticket_type_id,
            self.start_date < self.end_date,
            self.price_in_cents >= 0,
        ensures
            final(schedule).wf(),
            final(schedule).ticket_type_id == old(schedule).ticket_type_id,
            r is Ok <==> !has_id(old(schedule).periods@, id),
            r is Ok ==> final(schedule).periods@ == old(schedule).periods@.push(
                self.spec_period(id),
            ),
            r matches Ok(p) ==> period_like(p, self.spec_period(id)),
            r is Err ==> final(schedule).periods@ == old(schedule).periods@,
            r matches Err(e) ==> e.error_code is InsertError,
    {
        if schedule.contains_id(id) {
            return Err(
                DatabaseError::new(
                    ErrorCode::InsertError,
                    Some("Could not create ticket pricing".to_owned()),
                ),
            );
        }
        let stored = TicketPricing {
            id,
            ticket_type_id: self.ticket_type_id,
            name: self.name,
            status: self.status,
            price_in_cents: self.price_in_cents,
            start_date: self.start_date,
            end_date: self.end_date,
        };
        let copy = clone_period(&stored);
        let ghost old_periods = schedule.periods@;
        schedule.periods.push(stored);
        proof {
            assert forall|i: int, j: int|
                0 <= i < j < schedule.periods@.len() implies (#[trigger] schedule.periods@[i]).id
                != (#[trigger] schedule.periods@[j]).id by {
                if j == schedule.periods@.len() - 1 {
                    assert(old_periods[i].id != id);
                }
            }
            assert(schedule.wf());
        }
        Ok(copy)
    }
}

/// The pricing schedule of one ticket type: every period it ever held,
/// published or deleted, each under a distinct id.
#[derive(Debug)]
pub struct PricingSchedule {
    pub ticket_type_id: u128,
    pub periods: Vec<TicketPricing>,
}

/// The published periods of the sequence that overlap another published
/// period of the same ticket type, in schedule order.
pub open spec fn conflicted_periods(ps: Seq<TicketPricing>) -> Seq<TicketPricing> {
    ps.filter(|p: TicketPricing| period_conflicted(ps, p))
}

/// Validation covers exactly the pairwise invariant: the schedule reports
/// no conflicted period precisely when no two published periods of the
/// ticket type overlap.
pub proof fn lemma_validation_covers_overlaps(ps: Seq<TicketPricing>, ticket_type_id: u128)
    requires
        ids_unique(ps),
        forall|i: int|
            0 <= i < ps.len() ==> (#[trigger] ps[i]).ticket_type_id == ticket_type_id,
    ensures
        conflicted_periods(ps).len() == 0 <==> no_published_overlap(ps),
{
    let pred = |p: TicketPricing| period_conflicted(ps, p);
    if conflicted_periods(ps).len() == 0 {
        assert forall|i: int, j: int|
            0 <= i < ps.len() && 0 <= j < ps.len() && i != j && (
        #[trigger] ps[i]).status is Published && (
        #[trigger] ps[j]).status is Published implies !ps[i].spec_overlaps(ps[j]) by {
            if ps[i].spec_overlaps(ps[j]) {
                assert(ps[j].id != ps[i].id) by {
                    if i < j {
                        assert(ps[i].id != ps[j].id);
                    } else {
                        assert(ps[j].id != ps[i].id);
                    }
                }
                assert(period_conflicted(ps, ps[i]));
                ps.lemma_filter_contains(pred, i);
                assert(ps.filter(pred).len() > 0);
            }
        }
    }
    if no_published_overlap(ps) {
        if conflicted_periods(ps).len() > 0 {
            ps.lemma_filter_pred(pred, 0);
            let p = ps.filter(pred)[0];
            assert(ps.filter(pred).contains(p));
            ps.lemma_filter_contains_rev(pred, p);
            let k = choose|k: int| 0 <= k < ps.len() && ps[k] == p;
            let i = choose|i: int|
                0 <= i < ps.len() && (#[trigger] ps[i]).id != p.id && ps[i].ticket_type_id
                    == p.ticket_type_id && ps[i].status is Published && ps[i].start_date
                    < p.end_date && p.start_date < ps[i].end_date;
            assert(ps[k].spec_overlaps(ps[i]));
            assert(i != k);
        }
    }
}

/// At most one element of a sequence satisfies a predicate no two distinct
/// elements may share.
proof fn lemma_filter_mutex_len(s: Seq<TicketPricing>, pred: spec_fn(TicketPricing) -> bool)
    requires
        forall|i: int, j: int|
            0 <= i < j < s.len() && pred(#[trigger] s[i]) ==> !pred(#[trigger] s[j]),
    ensures
        s.filter(pred).len() <= 1,
    decreases s.len(),
{
    reveal(Seq::filter);
    if s.len() > 0 {
        let dl = s.drop_last();
        lemma_filter_mutex_len(dl, pred);
        if pred(s.last()) && dl.filter(pred).len() > 0 {
            dl.lemma_filter_pred(pred, 0);
            let e = dl.filter(pred)[0];
            assert(dl.filter(pred).contains(e));
            dl.lemma_filter_contains_rev(pred, e);
            let i = choose|i: int| 0 <= i < dl.len() && dl[i] == e;
            assert(pred(s[i]) && pred(s[s.len() - 1]));
        }
    }
}

/// A schedule whose published periods do not overlap has at most one period
/// active at any time: a lookup finding several marks a data-integrity
/// fault, never an expected path.
pub proof fn lemma_no_overlap_gives_unique_active(ps: Seq<TicketPricing>, now: i64)
    requires
        no_published_overlap(ps),
    ensures
        ps.filter(|p: TicketPricing| p.spec_active_at(now)).len() <= 1,
{
    let pred = |p: TicketPricing| p.spec_active_at(now);
    assert forall|i: int, j: int|
        0 <= i < j < ps.len() && pred(#[trigger] ps[i]) implies !pred(#[trigger] ps[j]) by {
        if pred(ps[j]) {
            assert(ps[i].spec_overlaps(ps[j]));
        }
    }
    lemma_filter_mutex_len(ps, pred);
}

/// Whether a validation item reports the overlap of the given period: the
/// overlap code, the period's id, its ticket type, and its attempted bounds.
pub open spec fn item_reports(it: ValidationErrorItem, p: TicketPricing) -> bool {
    &&& it.code@ == "ticket_pricing_overlapping_periods"@
    &&& it.period_id == p.id
    &&& it.ticket_type_id == p.ticket_type_id
    &&& it.start_date == p.start_date
    &&& it.end_date == p.end_date
}

impl PricingSchedule {
    /// Every period belongs to this ticket type and ids are distinct.
    pub open spec fn wf(self) -> bool {
        &&& forall|i: int|
            0 <= i < self.periods@.len() ==> (#[trigger] self.periods@[i]).ticket_type_id
                == self.ticket_type_id
        &&& ids_unique(self.periods@)
    }

    /// An empty schedule for the given ticket type.
    pub fn new(ticket_type_id: u128) -> (r: PricingSchedule)
        ensures
            r.wf(),
            r.ticket_type_id == ticket_type_id,
            r.periods@.len() == 0,
    {
        PricingSchedule { ticket_type_id, periods: Vec::new() }
    }

    /// Whether some stored period carries the id.
    pub fn contains_id(&self, id: u128) -> (r: bool)
        ensures
            r == has_id(self.periods@, id),
    {
        let mut i: usize = 0;
        while i < self.periods.len()
            invariant
                0 <= i <= self.periods@.len(),
                forall|j: int| 0 <= j < i ==> (#[trigger] self.periods@[j]).id != id,
            decreases self.periods@.len() - i,
        {
            if self.periods[i].id == id {
                return true;
            }
            i = i + 1;
        }
        false
    }

    /// The stored period with the given id, or a not-found error.
    pub fn find(&self, id: u128) -> (r: Result<TicketPricing, DatabaseError>)
        requires
            self.wf(),
        ensures
            r is Ok <==> has_id(self.periods@, id),
            r matches Ok(p) ==> period_like(p, self.periods@[idx_of(self.periods@, id)]),
            r matches Err(e) ==> e.error_code is NoResults,
    {
        let mut i: usize = 0;
        while i < self.periods.len()
            invariant
                self.wf(),
                0 <= i <= self.periods@.len(),
                forall|j: int| 0 <= j < i ==> (#[trigger] self.periods@[j]).id != id,
            decreases self.periods@.len() - i,
        {
            if self.periods[i].id == id {
                proof {
                    lemma_idx_of_unique(self.periods@, id, i as int);
                }
                return Ok(clone_period(&self.periods[i]));
            }
            i = i + 1;
        }
        Err(DatabaseError::no_results("Error loading ticket pricing"))
    }

    /// Stores a period only if its window conflicts with no published period
    /// already in the schedule: the check and the insertion form one
    /// operation on the schedule, so no concurrent insertion can slip
    /// between them.
    pub fn insert_validated(&mut self, new_pricing: NewTicketPricing, id: u128) -> (r: Result<
        TicketPricing,
        DatabaseError,
    >)
        requires
            old(self).wf(),
            new_pricing.ticket_type_id == old(self).ticket_type_id,
            new_pricing.start_date < new_pricing.end_date,
            new_pricing.price_in_cents >= 0,
        ensures
            final(self).wf(),
            final(self).ticket_type_id == old(self).ticket_type_id,
            r is Ok <==> !has_id(old(self).periods@, id) && !(new_pricing.status is Published
                && window_conflicts(
                old(self).periods@,
                id,
                new_pricing.ticket_type_id,
                new_pricing.start_date,
                new_pricing.end_date,
            )),
            r is Ok ==> final(self).periods@ == old(self).periods@.push(
                new_pricing.spec_period(id),
            ),
            r matches Ok(p) ==> period_like(p, new_pricing.spec_period(id)),
            r is Err ==> final(self).periods@ == old(self).periods@,
            r matches Err(e) ==> if new_pricing.status is Published && window_conflicts(
                old(self).periods@,
                id,
                new_pricing.ticket_type_id,
                new_pricing.start_date,
                new_pricing.end_date,
            ) {
                e.error_code matches ErrorCode::ValidationError { errors } && errors@.len() == 1
                    && errors@[0].field@ == "ticket_pricing"@ && errors@[0].errors@.len() == 1
                    && errors@[0].errors@[0].code@ == "ticket_pricing_overlapping_periods"@
                    && errors@[0].errors@[0].period_id == id
                    && errors@[0].errors@[0].ticket_type_id == new_pricing.ticket_type_id
                    && errors@[0].errors@[0].start_date == new_pricing.start_date
                    && errors@[0].errors@[0].end_date == new_pricing.end_date
            } else {
                e.error_code is InsertError
            },
    {
        if matches!(new_pricing.status, TicketPricingStatus::Published) {
            let check = TicketPricing::ticket_pricing_no_overlapping_periods(
                &self.periods,
                id,
                new_pricing.ticket_type_id,
                new_pricing.start_date,
                new_pricing.end_date,
            );
            if let Err(violation) = check {
                let mut items: Vec<ValidationErrorItem> = Vec::new();
                items.push(violation);
                let mut fields: Vec<FieldValidationErrors> = Vec::new();
                fields.push(
                    FieldValidationErrors { field: "ticket_pricing".to_owned(), errors: items },
                );
                return Err(
                    DatabaseError::new(ErrorCode::ValidationError { errors: fields }, None),
                );
            }
        }
        new_pricing.commit(id, self)
    }

    /// The published periods active at the given time, in schedule order.
    pub open spec fn active_periods(self, now: i64) -> Seq<TicketPricing> {
        self.periods@.filter(|p: TicketPricing| p.spec_active_at(now))
    }

    /// The price window active at the given time: the published period with
    /// `start_date <= now < end_date`. No active period is a configuration
    /// error (nothing to sell at this time); several active periods are a
    /// data-integrity fault, since validation prevents published overlaps.
    pub fn get_current_ticket_pricing(&self, now: i64) -> (r: Result<TicketPricing, DatabaseError>)
        ensures
            r is Ok <==> self.active_periods(now).len() == 1,
            r matches Ok(p) ==> period_like(p, self.active_periods(now)[0]),
            r matches Err(e) ==> if self.active_periods(now).len() == 0 {
                e.error_code is NoResults
            } else {
                e.error_code is MultipleResultsWhenOneExpected
            },
    {
        let ghost f = |p: TicketPricing| p.spec_active_at(now);
        let mut count: usize = 0;
        let mut found: usize = 0;
        let mut i: usize = 0;
        while i < self.periods.len()
            invariant
                0 <= i <= self.periods@.len(),
                f == (|p: TicketPricing| p.spec_active_at(now)),
                count as int == self.periods@.take(i as int).filter(f).len(),
                count <= i,
                count > 0 ==> found < i && self.periods@.take(i as int).filter(f)[0]
                    == self.periods@[found as int],
            decreases self.periods@.len() - i,
        {
            let ghost pref = self.periods@.take(i as int);
            let ghost next = self.periods@.take(i as int + 1);
            proof {
                reveal(Seq::filter);
                assert(next.drop_last() =~= pref);
                assert(next.last() == self.periods@[i as int]);
            }
            let p = &self.periods[i];
            if matches!(p.status, TicketPricingStatus::Published) && p.start_date <= now && now
                < p.end_date {
                if count == 0 {
                    found = i;
                }
                count = count + 1;
            }
            i = i + 1;
        }
        proof {
            assert(self.periods@.take(self.periods@.len() as int) =~= self.periods@);
        }
        if count == 0 {
            Err(DatabaseError::no_results("No ticket pricing found"))
        } else if count > 1 {
            Err(
                DatabaseError::new(
                    ErrorCode::MultipleResultsWhenOneExpected,
                    Some(
                        "Expected a single ticket pricing period but multiple were found".to_owned(),
                    ),
                ),
            )
        } else {
            Ok(clone_period(&self.periods[found]))
        }
    }

    /// Validates the whole schedule: every published period is checked
    /// against the other published periods, and each one whose window
    /// overlaps another is reported, under the `ticket_pricing` field, with
    /// its id and attempted bounds. Two overlapping periods are thus both
    /// reported.
    pub fn validate_record(&self) -> (r: Result<(), DatabaseError>)
        requires
            self.wf(),
        ensures
            r is Ok <==> conflicted_periods(self.periods@).len() == 0,
            r matches Err(e) ==> e.error_code matches ErrorCode::ValidationError { errors }
                && errors@.len() == 1 && errors@[0].field@ == "ticket_pricing"@
                && errors@[0].errors@.len() == conflicted_periods(self.periods@).len() && forall|
                k: int,
            |
                0 <= k < errors@[0].errors@.len() ==> item_reports(
                    #[trigger] errors@[0].errors@[k],
                    conflicted_periods(self.periods@)[k],
                ),
    {
        let ghost f = |p: TicketPricing| period_conflicted(self.periods@, p);
        let mut items: Vec<ValidationErrorItem> = Vec::new();
        let mut i: usize = 0;
        while i < self.periods.len()
            invariant
                self.wf(),
                0 <= i <= self.periods@.len(),
                f == (|p: TicketPricing| period_conflicted(self.periods@, p)),
                items@.len() == self.periods@.take(i as int).filter(f).len(),
                forall|k: int|
                    0 <= k < items@.len() ==> item_reports(
                        #[trigger] items@[k],
                        self.periods@.take(i as int).filter(f)[k],
                    ),
            decreases self.periods@.len() - i,
        {
            let ghost pref = self.periods@.take(i as int);
            let ghost next = self.periods@.take(i as int + 1);
            proof {
                reveal(Seq::filter);
                assert(next.drop_last() =~= pref);
                assert(next.last() == self.periods@[i as int]);
            }
            let p = &self.periods[i];
            if matches!(p.status, TicketPricingStatus::Published) {
                let check = TicketPricing::ticket_pricing_no_overlapping_periods(
                    &self.periods,
                    p.id,
                    p.ticket_type_id,
                    p.start_date,
                    p.end_date,
                );
                if let Err(violation) = check {
                    items.push(violation);
                }
            }
            i = i + 1;
        }
        proof {
            assert(self.periods@.take(self.periods@.len() as int) =~= self.periods@);
        }
        if items.len() == 0 {
            Ok(())
        } else {
            let mut fields: Vec<FieldValidationErrors> = Vec::new();
            fields.push(
                FieldValidationErrors { field: "ticket_pricing".to_owned(), errors: items },
            );
            Err(DatabaseError::new(ErrorCode::ValidationError { errors: fields }, None))
        }
    }

    /// Applies editable attributes to the stored period with the given id
    /// and returns the updated period. The store enforces no rule here:
    /// callers re-validate the schedule against overlaps afterwards,
    /// excluding nothing, since the update replaced the old window.
    pub fn update_period(&mut self, id: u128, attributes: &TicketPricingEditableAttributes) -> (r:
        Result<TicketPricing, DatabaseError>)
        requires
            old(self).wf(),
        ensures
            final(self).wf(),
            final(self).ticket_type_id == old(self).ticket_type_id,
            r is Ok <==> has_id(old(self).periods@, id),
            r is Err ==> final(self).periods@ == old(self).periods@,
            r matches Err(e) ==> e.error_code is NoResults,
            r is Ok ==> {
                let i = idx_of(old(self).periods@, id);
                let before = old(self).periods@[i];
                let after = final(self).periods@[i];
                &&& final(self).periods@.len() == old(self).periods@.len()
                &&& forall|j: int|
                    0 <= j < old(self).periods@.len() && j != i ==> final(self).periods@[j] == old(
                        self,
                    ).periods@[j]
                &&& after.id == before.id
                &&& after.ticket_type_id == before.ticket_type_id
                &&& after.status == before.status
                &&& (attributes.name matches Some(n) ==> after.name@ == n@)
                &&& (attributes.name is None ==> after.name@ == before.name@)
                &&& (attributes.price_in_cents matches Some(p) ==> after.price_in_cents == p)
                &&& (attributes.price_in_cents is None ==> after.price_in_cents
                    == before.price_in_cents)
                &&& (attributes.start_date matches Some(s) ==> after.start_date == s)
                &&& (attributes.start_date is None ==> after.start_date == before.start_date)
                &&& (attributes.end_date matches Some(e) ==> after.end_date == e)
                &&& (attributes.end_date is None ==> after.end_date == before.end_date)
            },
            r matches Ok(p) ==> period_like(
                p,
                final(self).periods@[idx_of(old(self).periods@, id)],
            ),
    {
        let ghost old_periods = self.periods@;
        let mut i: usize = 0;
        while i < self.periods.len()
            invariant
                self.wf(),
                self.periods@ == old_periods,
                old_periods == old(self).periods@,
                self.ticket_type_id == old(self).ticket_type_id,
                0 <= i <= self.periods@.len(),
                forall|j: int| 0 <= j < i ==> (#[trigger] self.periods@[j]).id != id,
            decreases self.periods@.len() - i,
        {
            if self.periods[i].id == id {
                proof {
                    lemma_idx_of_unique(self.periods@, id, i as int);
                }
                let updated = self.periods[i].update(attributes);
                let copy = clone_period(&updated);
                let _taken = self.periods.remove(i);
                self.periods.insert(i, updated);
                proof {
                    assert forall|a: int, b: int|
                        0 <= a < b < self.periods@.len() implies (#[trigger] self.periods@[a]).id
                        != (#[trigger] self.periods@[b]).id by {
                        assert(self.periods@[a] == if a == i as int {
                            self.periods@[i as int]
                        } else {
                            old_periods[a]
                        });
                        assert(self.periods@[b] == if b == i as int {
                            self.periods@[i as int]
                        } else {
                            old_periods[b]
                        });
                        assert(old_periods[a].id != old_periods[b].id);
                    }
                }
                return Ok(copy);
            }
            i = i + 1;
        }
        Err(DatabaseError::no_results("Error loading ticket pricing"))
    }

    /// Removes or soft-deletes the period with the given id. A period
    /// referenced by order items is kept under status `Deleted` for
    /// historical linkage and the call reports no removed row; an
    /// unreferenced one is removed outright and the call reports one removed
    /// row.
    pub fn destroy(&mut self, id: u128, order_ref_count: u64) -> (r: Result<usize, DatabaseError>)
        requires
            old(self).wf(),
        ensures
            final(self).wf(),
            final(self).ticket_type_id == old(self).ticket_type_id,
            r is Ok <==> has_id(old(self).periods@, id),
            r is Err ==> final(self).periods@ == old(self).periods@,
            r matches Err(e) ==> e.error_code is NoResults,
            r matches Ok(n) ==> {
                let i = idx_of(old(self).periods@, id);
                if order_ref_count == 0 {
                    n == 1 && final(self).periods@ == old(self).periods@.remove(i)
                } else {
                    n == 0 && final(self).periods@ == old(self).periods@.update(
                        i,
                        TicketPricing {
                            status: TicketPricingStatus::Deleted,
                            ..old(self).periods@[i]
                        },
                    )
                }
            },
    {
        let ghost old_periods = self.periods@;
        let mut i: usize = 0;
        while i < self.periods.len()
            invariant
                self.wf(),
                self.periods@ == old_periods,
                old_periods == old(self).periods@,
                self.ticket_type_id == old(self).ticket_type_id,
                0 <= i <= self.periods@.len(),
                forall|j: int| 0 <= j < i ==> (#[trigger] self.periods@[j]).id != id,
            decreases self.periods@.len() - i,
        {
            if self.periods[i].id == id {
                proof {
                    lemma_idx_of_unique(self.periods@, id, i as int);
                }
                if order_ref_count == 0 {
                    self.periods.remove(i);
                    proof {
                        assert forall|a: int, b: int|
                            0 <= a < b < self.periods@.len() implies (
                        #[trigger] self.periods@[a]).id != (#[trigger] self.periods@[b]).id by {
                            let pa = if a < i as int {
                                a
                            } else {
                                a + 1
                            };
                            let pb = if b < i as int {
                                b
                            } else {
                                b + 1
                            };
                            assert(self.periods@[a] == old_periods[pa]);
                            assert(self.periods@[b] == old_periods[pb]);
                        }
                    }
                    return Ok(1);
                } else {
                    let taken = self.periods.remove(i);
                    let flipped = TicketPricing {
                        status: TicketPricingStatus::Deleted,
                        ..taken
                    };
                    self.periods.insert(i, flipped);
                    proof {
                        assert(self.periods@ =~= old_periods.update(
                            i as int,
                            TicketPricing { status: TicketPricingStatus::Deleted, ..old_periods[
                                i as int] },
                        ));
                    }
                    return Ok(0);
                }
            }
            i = i + 1;
        }
        Err(DatabaseError::no_results("Error loading ticket pricing"))
    }
}

} // verus!
