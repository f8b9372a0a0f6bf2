//! Inventory accounting for one ticket type: capacity, reservations and
//! releases.
//!
//! The ledger tracks every order item that consumed inventory. Remaining
//! availability is the capacity minus all active reservations, whichever
//! pricing period they were bought under (consumption persists when a period
//! is later soft-deleted). A reservation and the remaining-check it depends
//! on form one operation on the ledger, mirroring a serialized transaction:
//! two reservations that together exceed what remains can never both
//! succeed.

use vstd::prelude::*;
use crate::errors::InventoryError;

verus! {

/// One order item: a reservation of tickets under a pricing period, and the
/// part of it released back so far (partial refunds).
#[derive(Clone, Copy, PartialEq, Eq, Structural, Debug)]
pub struct OrderItem {
    pub id: u128,
    pub ticket_pricing_id: u128,
    /// The quantity originally reserved.
    pub reserved: u32,
    /// The total quantity released back; never exceeds `reserved`.
    pub released: u32,
}

impl OrderItem {
    /// No item releases more than it reserved.
    pub open spec fn wf(self) -> bool {
        self.released <= self.reserved
    }

    /// The quantity the item still consumes.
    pub open spec fn active(self) -> int {
        self.reserved - self.released
    }
}

/// The total quantity the first `n` items consume.
pub open spec fn consumed_up_to(items: Seq<OrderItem>, n: int) -> int
    decreases n,
{
    if n <= 0 {
        0
    } else {
        consumed_up_to(items, n - 1) + items[n - 1].active()
    }
}

/// The total quantity all items consume.
pub open spec fn spec_consumed(items: Seq<OrderItem>) -> int {
    consumed_up_to(items, items.len() as int)
}

/// Whether some item carries the id.
pub open spec fn has_item_id(items: Seq<OrderItem>, id: u128) -> bool {
    exists|i: int| 0 <= i < items.len() && (#[trigger] items[i]).id == id
}

/// The index of the item carrying the id; meaningful when ids are unique
/// and the id is present.
pub open spec fn item_idx_of(items: Seq<OrderItem>, id: u128) -> int {
    choose|i: int| 0 <= i < items.len() && (#[trigger] items[i]).id == id
}

/// All item ids are distinct.
pub open spec fn item_ids_unique(items: Seq<OrderItem>) -> bool {
    forall|i: int, j: int|
        0 <= i < j < items.len() ==> (#[trigger] items[i]).id != (#[trigger] items[j]).id
}

/// With unique ids, any index found to carry the id is the index
/// `item_idx_of` denotes.
pub proof fn lemma_item_idx_of_unique(items: Seq<OrderItem>, id: u128, i: int)
    requires
        item_ids_unique(items),
        0 <= i < items.len(),
        items[i].id == id,
    ensures
        item_idx_of(items, id) == i,
        has_item_id(items, id),
{
    assert(has_item_id(items, id));
    let j = item_idx_of(items, id);
    if i < j {
        assert(items[i].id != items[j].id);
    } else if j < i {
        assert(items[j].id != items[i].id);
    }
}

/// When all items are well formed, consumption grows with the prefix
/// length.
proof fn lemma_consumed_monotone(items: Seq<OrderItem>, m: int, n: int)
    requires
        forall|i: int| 0 <= i < items.len() ==> (#[trigger] items[i]).wf(),
        0 <= m <= n <= items.len(),
    ensures
        consumed_up_to(items, m) <= consumed_up_to(items, n),
        consumed_up_to(items, n) >= 0,
    decreases n,
{
    if n > 0 {
        if m == n {
            lemma_consumed_monotone(items, 0, n - 1);
        } else {
            lemma_consumed_monotone(items, m, n - 1);
        }
    }
}

/// Two sequences that agree on their first `n` items consume the same
/// quantity over them.
proof fn lemma_consumed_prefix(a: Seq<OrderItem>, b: Seq<OrderItem>, n: int)
    requires
        0 <= n <= a.len(),
        n <= b.len(),
        forall|i: int| 0 <= i < n ==> a[i] == b[i],
    ensures
        consumed_up_to(a, n) == consumed_up_to(b, n),
    decreases n,
{
    if n > 0 {
        lemma_consumed_prefix(a, b, n - 1);
    }
}

/// Replacing the item at one index changes the total consumption by the
/// difference of the active quantities.
proof fn lemma_consumed_update(items: Seq<OrderItem>, i: int, it: OrderItem, n: int)
    requires
        0 <= i < items.len(),
        0 <= n <= items.len(),
    ensures
        consumed_up_to(items.update(i, it), n) == consumed_up_to(items, n) + if i < n {
            it.active() - items[i].active()
        } else {
            0
        },
    decreases n,
{
    if n > 0 {
        lemma_consumed_update(items, i, it, n - 1);
    }
}

/// The inventory ledger of one ticket type.
#[derive(Debug)]
pub struct InventoryLedger {
    pub ticket_type_id: u128,
    /// The capacity of the ticket type; consumption never exceeds it.
    pub capacity: u32,
    pub items: Vec<OrderItem>,
}

impl InventoryLedger {
    /// Every item is well formed, ids are distinct, and total consumption
    /// stays within capacity.
    pub open spec fn wf(self) -> bool {
        &&& forall|i: int| 0 <= i < self.items@.len() ==> (#[trigger] self.items@[i]).wf()
        &&& item_ids_unique(self.items@)
        &&& spec_consumed(self.items@) <= self.capacity
    }

    /// The remaining availability: capacity minus all active reservations.
    pub open spec fn spec_remaining(self) -> int {
        self.capacity - spec_consumed(self.items@)
    }

    /// Whether a reservation of the given quantity under the given fresh
    /// order item id would succeed.
    pub open spec fn spec_reserve_succeeds(self, quantity: u32, order_item_id: u128) -> bool {
        quantity as int <= self.spec_remaining() && !has_item_id(self.items@, order_item_id)
    }

    /// The order item a successful reservation stores.
    pub open spec fn spec_reserved_item(
        self,
        ticket_pricing_id: u128,
        quantity: u32,
        order_item_id: u128,
    ) -> OrderItem {
        OrderItem { id: order_item_id, ticket_pricing_id, reserved: quantity, released: 0 }
    }

    /// An empty ledger for a ticket type of the given capacity.
    pub fn new(ticket_type_id: u128, capacity: u32) -> (r: InventoryLedger)
        ensures
            r.wf(),
            r.ticket_type_id == ticket_type_id,
            r.capacity == capacity,
            r.items@.len() == 0,
            r.spec_remaining() == capacity,
    {
        InventoryLedger { ticket_type_id, capacity, items: Vec::new() }
    }

    /// The number of tickets still available: capacity minus the active
    /// quantity of every order item, never negative.
    pub fn remaining_ticket_count(&self) -> (r: u32)
        requires
            self.wf(),
        ensures
            r as int == self.spec_remaining(),
    {
        let mut acc: u32 = 0;
        let mut i: usize = 0;
        while i < self.items.len()
            invariant
                self.wf(),
                0 <= i <= self.items@.len(),
                acc as int == consumed_up_to(self.items@, i as int),
            decreases self.items@.len() - i,
        {
            proof {
                lemma_consumed_monotone(self.items@, i as int + 1, self.items@.len() as int);
            }
            let item = self.items[i];
            acc = acc + (item.reserved - item.released);
            i = i + 1;
        }
        self.capacity - acc
    }

    /// Reserves a quantity of tickets under a pricing period, storing a new
    /// order item under the given fresh id. The remaining-check and the
    /// reservation form one operation on the ledger: the reservation
    /// succeeds exactly when the quantity does not exceed what remained
    /// before it and the id is fresh, and what remains afterwards shrinks by
    /// the quantity.
    pub fn reserve(&mut self, ticket_pricing_id: u128, quantity: u32, order_item_id: u128) -> (r:
        Result<OrderItem, InventoryError>)
        requires
            old(self).wf(),
        ensures
            final(self).wf(),
            final(self).capacity == old(self).capacity,
            final(self).ticket_type_id == old(self).ticket_type_id,
            r is Ok <==> old(self).spec_reserve_succeeds(quantity, order_item_id),
            r matches Ok(item) ==> item == old(self).spec_reserved_item(
                ticket_pricing_id,
                quantity,
                order_item_id,
            ) && final(self).items@ == old(self).items@.push(item) && final(self).spec_remaining()
                == old(self).spec_remaining() - quantity,
            r is Err ==> final(self).items@ == old(self).items@,
            r matches Err(e) ==> if has_item_id(old(self).items@, order_item_id) {
                e is DuplicateOrderItem
            } else {
                e is InsufficientInventory
            },
    {
        if self.contains_item_id(order_item_id) {
            return Err(InventoryError::DuplicateOrderItem);
        }
        let available = self.remaining_ticket_count();
        if quantity > available {
            return Err(InventoryError::InsufficientInventory);
        }
        let item = OrderItem {
            id: order_item_id,
            ticket_pricing_id,
            reserved: quantity,
            released: 0,
        };
        let ghost old_items = self.items@;
        self.items.push(item);
        proof {
            lemma_consumed_prefix(old_items, self.items@, old_items.len() as int);
            assert forall|a: int, b: int|
                0 <= a < b < self.items@.len() implies (#[trigger] self.items@[a]).id != (
            #[trigger] self.items@[b]).id by {
                if b == self.items@.len() - 1 {
                    assert(old_items[a].id != order_item_id);
                }
            }
        }
        Ok(item)
    }

    /// Whether some order item carries the id.
    pub fn contains_item_id(&self, id: u128) -> (r: bool)
        ensures
            r == has_item_id(self.items@, id),
    {
        let mut i: usize = 0;
        while i < self.items.len()
            invariant
                0 <= i <= self.items@.len(),
                forall|j: int| 0 <= j < i ==> (#[trigger] self.items@[j]).id != id,
            decreases self.items@.len() - i,
        {
            if self.items[i].id == id {
                return true;
            }
            i = i + 1;
        }
        false
    }

    /// Releases part of a reservation back to the inventory, for a partial
    /// refund. The released quantity may never exceed what the order item
    /// still holds: releasing more than was reserved is a logic error and is
    /// rejected, never clamped.
    pub fn release(&mut self, order_item_id: u128, quantity: u32) -> (r: Result<
        (),
        InventoryError,
    >)
        requires
            old(self).wf(),
        ensures
            final(self).wf(),
            final(self).capacity == old(self).capacity,
            final(self).ticket_type_id == old(self).ticket_type_id,
            r is Ok <==> has_item_id(old(self).items@, order_item_id) && quantity as int <= old(
                self,
            ).items@[item_idx_of(old(self).items@, order_item_id)].active(),
            r is Ok ==> {
                let i = item_idx_of(old(self).items@, order_item_id);
                let it = old(self).items@[i];
                final(self).items@ == old(self).items@.update(
                    i,
                    OrderItem { released: (it.released + quantity) as u32, ..it },
                ) && final(self).spec_remaining() == old(self).spec_remaining() + quantity
            },
            r is Err ==> final(self).items@ == old(self).items@,
            r matches Err(e) ==> if has_item_id(old(self).items@, order_item_id) {
                e is ReleaseExceedsReserved
            } else {
                e is UnknownOrderItem
            },
    {
        let ghost old_items = self.items@;
        let mut i: usize = 0;
        while i < self.items.len()
            invariant
                self.wf(),
                self.items@ == old_items,
                old_items == old(self).items@,
                self.capacity == old(self).capacity,
                self.ticket_type_id == old(self).ticket_type_id,
                0 <= i <= self.items@.len(),
                forall|j: int| 0 <= j < i ==> (#[trigger] self.items@[j]).id != order_item_id,
            decreases self.items@.len() - i,
        {
            if self.items[i].id == order_item_id {
                proof {
                    lemma_item_idx_of_unique(self.items@, order_item_id, i as int);
                }
                let item = self.items[i];
                if quantity > item.reserved - item.released {
                    return Err(InventoryError::ReleaseExceedsReserved);
                }
                let updated = OrderItem {
                    id: item.id,
                    ticket_pricing_id: item.ticket_pricing_id,
                    reserved: item.reserved,
                    released: item.released + quantity,
                };
                self.items[i] = updated;
                proof {
                    assert(self.items@ =~= old_items.update(i as int, updated));
                    lemma_consumed_update(
                        old_items,
                        i as int,
                        updated,
                        old_items.len() as int,
                    );
                    assert forall|a: int, b: int|
                        0 <= a < b < self.items@.len() implies (#[trigger] self.items@[a]).id != (
                    #[trigger] self.items@[b]).id by {
                        assert(old_items[a].id != old_items[b].id);
                    }
                    lemma_consumed_monotone(self.items@, 0, self.items@.len() as int);
                }
                return Ok(());
            }
            i = i + 1;
        }
        Err(InventoryError::UnknownOrderItem)
    }
}

/// Pushing an item onto the ledger raises the total consumption by the
/// item's active quantity.
proof fn lemma_consumed_push(items: Seq<OrderItem>, it: OrderItem)
    ensures
        spec_consumed(items.push(it)) == spec_consumed(items) + it.active(),
{
    lemma_consumed_prefix(items, items.push(it), items.len() as int);
}

/// Two reservations that together exceed the remaining availability can
/// never both succeed, whichever order the store serializes them in: once
/// the first one is applied, the second exceeds what remains.
pub proof fn lemma_concurrent_reserve_exclusive(
    before: InventoryLedger,
    after_first: InventoryLedger,
    pricing_id1: u128,
    quantity1: u32,
    item_id1: u128,
    quantity2: u32,
    item_id2: u128,
)
    requires
        before.wf(),
        quantity1 as int + quantity2 as int > before.spec_remaining(),
        after_first.capacity == before.capacity,
        after_first.items@ == before.items@.push(
            before.spec_reserved_item(pricing_id1, quantity1, item_id1),
        ),
    ensures
        before.spec_reserve_succeeds(quantity1, item_id1) ==> !after_first.spec_reserve_succeeds(
            quantity2,
            item_id2,
        ),
{
    lemma_consumed_push(before.items@, before.spec_reserved_item(pricing_id1, quantity1, item_id1));
}

} // verus!
