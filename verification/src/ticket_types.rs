//! Ticket types: a category of ticket for an event, with its capacity, its
//! validity window, its pricing schedule and its inventory.

use vstd::prelude::*;
use crate::errors::{DatabaseError, ErrorCode};
use crate::inventory::InventoryLedger;
use crate::pricing::PricingSchedule;

verus! {

/// A category of ticket belonging to one event.
#[derive(Debug)]
pub struct TicketType {
    pub id: u128,
    pub event_id: u128,
    pub name: String,
    /// How many tickets of this type may ever be active at once.
    pub capacity: u32,
    /// Start of the validity window, seconds since the epoch.
    pub start_date: i64,
    /// End of the validity window, seconds since the epoch.
    pub end_date: i64,
}

/// Whether two ticket types hold the same data. Field-wise equality; names
/// are compared by their characters.
pub open spec fn ticket_type_like(a: TicketType, b: TicketType) -> bool {
    &&& a.id == b.id
    &&& a.event_id == b.event_id
    &&& a.name@ == b.name@
    &&& a.capacity == b.capacity
    &&& a.start_date == b.start_date
    &&& a.end_date == b.end_date
}

/// Whether some ticket type carries the id.
pub open spec fn has_ticket_type_id(ts: Seq<TicketType>, id: u128) -> bool {
    exists|i: int| 0 <= i < ts.len() && (#[trigger] ts[i]).id == id
}

/// The index of the ticket type carrying the id; meaningful when ids are
/// unique and the id is present.
pub open spec fn ticket_type_idx_of(ts: Seq<TicketType>, id: u128) -> int {
    choose|i: int| 0 <= i < ts.len() && (#[trigger] ts[i]).id == id
}

/// All ticket type ids are distinct.
pub open spec fn ticket_type_ids_unique(ts: Seq<TicketType>) -> bool {
    forall|i: int, j: int|
        0 <= i < j < ts.len() ==> (#[trigger] ts[i]).id != (#[trigger] ts[j]).id
}

/// With unique ids, any index found to carry the id is the index
/// `ticket_type_idx_of` denotes.
pub proof fn lemma_ticket_type_idx_of_unique(ts: Seq<TicketType>, id: u128, i: int)
    requires
        ticket_type_ids_unique(ts),
        0 <= i < ts.len(),
        ts[i].id == id,
    ensures
        ticket_type_idx_of(ts, id) == i,
        has_ticket_type_id(ts, id),
{
    assert(has_ticket_type_id(ts, id));
    let j = ticket_type_idx_of(ts, id);
    if i < j {
        assert(ts[i].id != ts[j].id);
    } else if j < i {
        assert(ts[j].id != ts[i].id);
    }
}

/// A copy of a string with the same characters.
fn clone_string(s: &String) -> (r: String)
    ensures
        r@ == s@,
{
    s.clone()
}

/// A copy of a ticket type holding the same data.
fn clone_ticket_type(t: &TicketType) -> (r: TicketType)
    ensures
        ticket_type_like(r, *t),
{
    TicketType {
        id: t.id,
        event_id: t.event_id,
        name: clone_string(&t.name),
        capacity: t.capacity,
        start_date: t.start_date,
        end_date: t.end_date,
    }
}

/// The editable attributes of a ticket type; an attribute left `None` keeps
/// its value.
#[derive(Debug)]
pub struct TicketTypeEditableAttributes {
    pub name: Option<String>,
    pub capacity: Option<u32>,
    pub start_date: Option<i64>,
    pub end_date: Option<i64>,
}

impl Default for TicketTypeEditableAttributes {
    /// Attributes that change nothing.
    fn default() -> (r: TicketTypeEditableAttributes)
        ensures
            r.name is None,
            r.capacity is None,
            r.start_date is None,
            r.end_date is None,
    {
        TicketTypeEditableAttributes {
            name: None,
            capacity: None,
            start_date: None,
            end_date: None,
        }
    }
}

impl TicketType {
    /// A copy of the ticket type with the given editable attributes applied;
    /// attributes left out keep their old value.
    pub fn update(&self, attributes: TicketTypeEditableAttributes) -> (r: TicketType)
        ensures
            r.id == self.id,
            r.event_id == self.event_id,
            attributes.name matches Some(n) ==> r.name@ == n@,
            attributes.name is None ==> r.name@ == self.name@,
            attributes.capacity matches Some(c) ==> r.capacity == c,
            attributes.capacity is None ==> r.capacity == self.capacity,
            attributes.start_date matches Some(s) ==> r.start_date == s,
            attributes.start_date is None ==> r.start_date == self.start_date,
            attributes.end_date matches Some(e) ==> r.end_date == e,
            attributes.end_date is None ==> r.end_date == self.end_date,
    {
        let name = match attributes.name {
            Some(n) => n,
            None => clone_string(&self.name),
        };
        let capacity = match attributes.capacity {
            Some(c) => c,
            None => self.capacity,
        };
        let start_date = match attributes.start_date {
            Some(s) => s,
            None => self.start_date,
        };
        let end_date = match attributes.end_date {
            Some(e) => e,
            None => self.end_date,
        };
        TicketType { id: self.id, event_id: self.event_id, name, capacity, start_date, end_date }
    }

    /// The stored ticket type with the given id, or a not-found error.
    pub fn find(ticket_types: &Vec<TicketType>, id: u128) -> (r: Result<TicketType, DatabaseError>)
        requires
            ticket_type_ids_unique(ticket_types@),
        ensures
            r is Ok <==> has_ticket_type_id(ticket_types@, id),
            r matches Ok(t) ==> ticket_type_like(
                t,
                ticket_types@[ticket_type_idx_of(ticket_types@, id)],
            ),
            r matches Err(e) ==> e.error_code is NoResults,
    {
        let mut i: usize = 0;
        while i < ticket_types.len()
            invariant
                ticket_type_ids_unique(ticket_types@),
                0 <= i <= ticket_types@.len(),
                forall|j: int| 0 <= j < i ==> (#[trigger] ticket_types@[j]).id != id,
            decreases ticket_types@.len() - i,
        {
            if ticket_types[i].id == id {
                proof {
                    lemma_ticket_type_idx_of_unique(ticket_types@, id, i as int);
                }
                return Ok(clone_ticket_type(&ticket_types[i]));
            }
            i = i + 1;
        }
        Err(DatabaseError::no_results("Error loading ticket type"))
    }

    /// Validates the ticket type's pricing schedule: no two published
    /// periods may overlap.
    pub fn validate_record(&self, schedule: &PricingSchedule) -> (r: Result<(), DatabaseError>)
        requires
            schedule.wf(),
            schedule.ticket_type_id == self.id,
        ensures
            r is Ok <==> crate::pricing::conflicted_periods(schedule.periods@).len() == 0,
            r matches Err(e) ==> e.error_code matches ErrorCode::ValidationError { errors }
                && errors@.len() == 1 && errors@[0].field@ == "ticket_pricing"@
                && errors@[0].errors@.len() == crate::pricing::conflicted_periods(
                schedule.periods@,
            ).len() && forall|k: int|
                0 <= k < errors@[0].errors@.len() ==> crate::pricing::item_reports(
                    #[trigger] errors@[0].errors@[k],
                    crate::pricing::conflicted_periods(schedule.periods@)[k],
                ),
    {
        schedule.validate_record()
    }

    /// The remaining availability of the ticket type according to its
    /// inventory ledger.
    pub fn remaining_ticket_count(&self, ledger: &InventoryLedger) -> (r: u32)
        requires
            ledger.wf(),
            ledger.ticket_type_id == self.id,
            ledger.capacity == self.capacity,
        ensures
            r as int == ledger.spec_remaining(),
    {
        ledger.remaining_ticket_count()
    }
}

/// An event, as far as ticket types are concerned: the organization that
/// owns it and the ticket types it sells.
#[derive(Debug)]
pub struct Event {
    pub id: u128,
    pub organization_id: u128,
    pub name: String,
    pub ticket_types: Vec<TicketType>,
}

impl Event {
    /// Every ticket type belongs to this event and ids are distinct.
    pub open spec fn wf(self) -> bool {
        &&& forall|i: int|
            0 <= i < self.ticket_types@.len() ==> (#[trigger] self.ticket_types@[i]).event_id
                == self.id
        &&& ticket_type_ids_unique(self.ticket_types@)
    }

    /// An event without ticket types.
    pub fn new(id: u128, organization_id: u128, name: String) -> (r: Event)
        ensures
            r.wf(),
            r.id == id,
            r.organization_id == organization_id,
            r.name@ == name@,
            r.ticket_types@.len() == 0,
    {
        Event { id, organization_id, name, ticket_types: Vec::new() }
    }

    /// Adds a ticket type of the given capacity and validity window to the
    /// event, stored under a fresh id, and returns it.
    pub fn add_ticket_type(
        &mut self,
        name: String,
        capacity: u32,
        start_date: i64,
        end_date: i64,
        ticket_type_id: u128,
    ) -> (r: Result<TicketType, DatabaseError>)
        requires
            old(self).wf(),
        ensures
            final(self).wf(),
            final(self).id == old(self).id,
            final(self).organization_id == old(self).organization_id,
            final(self).name@ == old(self).name@,
            r is Ok <==> !has_ticket_type_id(old(self).ticket_types@, ticket_type_id),
            r is Ok ==> final(self).ticket_types@ == old(self).ticket_types@.push(
                TicketType {
                    id: ticket_type_id,
                    event_id: old(self).id,
                    name,
                    capacity,
                    start_date,
                    end_date,
                },
            ),
            r matches Ok(t) ==> t.id == ticket_type_id && t.event_id == old(self).id && t.name@
                == name@ && t.capacity == capacity && t.start_date == start_date && t.end_date
                == end_date,
            r is Err ==> final(self).ticket_types@ == old(self).ticket_types@,
            r matches Err(e) ==> e.error_code is InsertError,
    {
        let mut i: usize = 0;
        while i < self.ticket_types.len()
            invariant
                *self == *old(self),
                self.wf(),
                0 <= i <= self.ticket_types@.len(),
                forall|j: int|
                    0 <= j < i ==> (#[trigger] self.ticket_types@[j]).id != ticket_type_id,
            decreases self.ticket_types@.len() - i,
        {
            if self.ticket_types[i].id == ticket_type_id {
                return Err(
                    DatabaseError::new(
                        ErrorCode::InsertError,
                        Some("Could not create ticket type".to_owned()),
                    ),
                );
            }
            i = i + 1;
        }
        let stored = TicketType {
            id: ticket_type_id,
            event_id: self.id,
            name,
            capacity,
            start_date,
            end_date,
        };
        let copy = clone_ticket_type(&stored);
        let ghost old_types = self.ticket_types@;
        self.ticket_types.push(stored);
        proof {
            assert forall|a: int, b: int|
                0 <= a < b < self.ticket_types@.len() implies (
            #[trigger] self.ticket_types@[a]).id != (#[trigger] self.ticket_types@[b]).id by {
                if b == self.ticket_types@.len() - 1 {
                    assert(old_types[a].id != ticket_type_id);
                }
            }
        }
        Ok(copy)
    }

    /// The event's ticket types.
    pub fn ticket_types(&self) -> (r: &Vec<TicketType>)
        ensures
            r@ == self.ticket_types@,
    {
        &self.ticket_types
    }
}

} // verus!
