//! Venues: publicly listed or private to their owning organization.
//!
//! A private venue is visible only to members of the organization that owns
//! it; listings filter by that rule and come back ordered by name.

use vstd::prelude::*;
use vstd::multiset::Multiset;
use vstd::seq_lib::group_to_multiset_ensures;
use crate::errors::{DatabaseError, ErrorCode};
use crate::lex::{lex_le, str_lex_le};
use crate::lex::{lemma_lex_le_transitive, lemma_lex_lt_connected};

verus! {

/// A venue: its owning organization, if any, its privacy flag, and its
/// address data.
#[derive(Debug)]
pub struct Venue {
    pub id: u128,
    pub region_id: Option<u128>,
    pub organization_id: Option<u128>,
    pub is_private: bool,
    pub name: String,
    pub address: Option<String>,
    pub city: Option<String>,
    pub state: Option<String>,
    pub country: Option<String>,
    pub postal_code: Option<String>,
    pub phone: Option<String>,
}

/// The characters of an optional string.
pub open spec fn opt_view(o: Option<String>) -> Option<Seq<char>> {
    match o {
        Some(s) => Some(s@),
        None => None,
    }
}

/// Whether two venues hold the same data. Field-wise equality; strings are
/// compared by their characters.
pub open spec fn venue_like(a: Venue, b: Venue) -> bool {
    &&& a.id == b.id
    &&& a.region_id == b.region_id
    &&& a.organization_id == b.organization_id
    &&& a.is_private == b.is_private
    &&& a.name@ == b.name@
    &&& opt_view(a.address) == opt_view(b.address)
    &&& opt_view(a.city) == opt_view(b.city)
    &&& opt_view(a.state) == opt_view(b.state)
    &&& opt_view(a.country) == opt_view(b.country)
    &&& opt_view(a.postal_code) == opt_view(b.postal_code)
    &&& opt_view(a.phone) == opt_view(b.phone)
}

/// The organizations a viewer belongs to; none for an anonymous request.
pub open spec fn orgs_view(user_organization_ids: Option<&Vec<u128>>) -> Option<Seq<u128>> {
    match user_organization_ids {
        Some(orgs) => Some(orgs@),
        None => None,
    }
}

/// Whether a viewer belonging to the given organizations may see the venue:
/// every public venue, and the private venues of the viewer's own
/// organizations.
pub open spec fn spec_visible_to(v: Venue, viewer_orgs: Option<Seq<u128>>) -> bool {
    !v.is_private || (match (viewer_orgs, v.organization_id) {
        (Some(orgs), Some(org)) => orgs.contains(org),
        _ => false,
    })
}

/// Whether the venues come ordered by name.
pub open spec fn sorted_by_name(vs: Seq<Venue>) -> bool {
    forall|i: int, j: int|
        0 <= i < j < vs.len() ==> lex_le((#[trigger] vs[i]).name@, (#[trigger] vs[j]).name@)
}

/// Whether some venue carries the id.
pub open spec fn has_venue_id(vs: Seq<Venue>, id: u128) -> bool {
    exists|i: int| 0 <= i < vs.len() && (#[trigger] vs[i]).id == id
}

/// The index of the venue carrying the id; meaningful when ids are unique
/// and the id is present.
pub open spec fn venue_idx_of(vs: Seq<Venue>, id: u128) -> int {
    choose|i: int| 0 <= i < vs.len() && (#[trigger] vs[i]).id == id
}

/// All venue ids are distinct.
pub open spec fn venue_ids_unique(vs: Seq<Venue>) -> bool {
    forall|i: int, j: int|
        0 <= i < j < vs.len() ==> (#[trigger] vs[i]).id != (#[trigger] vs[j]).id
}

/// With unique ids, any index found to carry the id is the index
/// `venue_idx_of` denotes.
pub proof fn lemma_venue_idx_of_unique(vs: Seq<Venue>, id: u128, i: int)
    requires
        venue_ids_unique(vs),
        0 <= i < vs.len(),
        vs[i].id == id,
    ensures
        venue_idx_of(vs, id) == i,
        has_venue_id(vs, id),
{
    assert(has_venue_id(vs, id));
    let j = venue_idx_of(vs, id);
    if i < j {
        assert(vs[i].id != vs[j].id);
    } else if j < i {
        assert(vs[j].id != vs[i].id);
    }
}

/// A copy of a string with the same characters.
fn clone_string(s: &String) -> (r: String)
    ensures
        r@ == s@,
{
    s.clone()
}

/// A copy of an optional string with the same characters.
fn clone_opt_string(o: &Option<String>) -> (r: Option<String>)
    ensures
        opt_view(r) == opt_view(*o),
{
    match o {
        Some(s) => Some(clone_string(s)),
        None => None,
    }
}

/// A copy of a venue holding the same data.
fn clone_venue(v: &Venue) -> (r: Venue)
    ensures
        venue_like(r, *v),
{
    Venue {
        id: v.id,
        region_id: v.region_id,
        organization_id: v.organization_id,
        is_private: v.is_private,
        name: clone_string(&v.name),
        address: clone_opt_string(&v.address),
        city: clone_opt_string(&v.city),
        state: clone_opt_string(&v.state),
        country: clone_opt_string(&v.country),
        postal_code: clone_opt_string(&v.postal_code),
        phone: clone_opt_string(&v.phone),
    }
}

/// Whether the viewer may see the venue.
fn is_visible_to(v: &Venue, user_organization_ids: Option<&Vec<u128>>) -> (r: bool)
    ensures
        r == spec_visible_to(*v, orgs_view(user_organization_ids)),
{
    if !v.is_private {
        return true;
    }
    let org = match v.organization_id {
        Some(o) => o,
        None => {
            return false;
        },
    };
    let orgs = match user_organization_ids {
        Some(orgs) => orgs,
        None => {
            return false;
        },
    };
    let mut i: usize = 0;
    while i < orgs.len()
        invariant
            orgs_view(user_organization_ids) == Some(orgs@),
            v.organization_id == Some(org),
            v.is_private,
            0 <= i <= orgs@.len(),
            forall|j: int| 0 <= j < i ==> orgs@[j] != org,
        decreases orgs@.len() - i,
    {
        if orgs[i] == org {
            proof {
                assert(orgs@[i as int] == org);
                assert(orgs@.contains(org));
            }
            return true;
        }
        i = i + 1;
    }
    proof {
        assert(!orgs@.contains(org));
    }
    false
}

/// Inserts a venue into a name-ordered vector, keeping the order.
fn insert_by_name(out: &mut Vec<Venue>, v: Venue)
    requires
        sorted_by_name(old(out)@),
    ensures
        sorted_by_name(final(out)@),
        final(out)@.to_multiset() == old(out)@.to_multiset().insert(v),
{
    broadcast use group_to_multiset_ensures;

    let ghost old_out = out@;
    let mut pos: usize = 0;
    while pos < out.len() && !str_lex_le(v.name.as_str(), out[pos].name.as_str())
        invariant
            sorted_by_name(out@),
            out@ == old_out,
            0 <= pos <= out@.len(),
            forall|j: int| 0 <= j < pos ==> lex_le((#[trigger] out@[j]).name@, v.name@),
        decreases out@.len() - pos,
    {
        proof {
            // Not at-or-below means strictly above: the orders are connected.
            if out@[pos as int].name@ != v.name@ {
                lemma_lex_lt_connected(v.name@, out@[pos as int].name@);
            }
        }
        pos = pos + 1;
    }
    proof {
        if (pos as int) < out@.len() {
            assert(lex_le(v.name@, out@[pos as int].name@));
        }
    }
    out.insert(pos, v);
    proof {
        assert forall|i: int, j: int|
            0 <= i < j < out@.len() implies lex_le(
            (#[trigger] out@[i]).name@,
            (#[trigger] out@[j]).name@,
        ) by {
            let p = pos as int;
            if i < p && j < p {
                assert(out@[i] == old_out[i] && out@[j] == old_out[j]);
            } else if i < p && j == p {
                assert(out@[i] == old_out[i]);
                assert(lex_le(old_out[i].name@, v.name@));
            } else if i < p && j > p {
                assert(out@[i] == old_out[i] && out@[j] == old_out[j - 1]);
            } else if i == p {
                assert(out@[j] == old_out[j - 1]);
                assert(lex_le(v.name@, old_out[p].name@));
                if j - 1 > p {
                    assert(lex_le(old_out[p].name@, old_out[j - 1].name@));
                    lemma_lex_le_transitive(v.name@, old_out[p].name@, old_out[j - 1].name@);
                }
            } else {
                assert(out@[i] == old_out[i - 1] && out@[j] == old_out[j - 1]);
            }
        }
        // The inserted vector splits around the new element.
        assert(out@ =~= old_out.take(pos as int) + (seq![v] + old_out.skip(pos as int)));
        vstd::seq_lib::lemma_multiset_commutative(
            old_out.take(pos as int),
            seq![v] + old_out.skip(pos as int),
        );
        vstd::seq_lib::lemma_multiset_commutative(seq![v], old_out.skip(pos as int));
        assert(seq![v].to_multiset() =~= Multiset::empty().insert(v)) by {
            assert(seq![v] =~= Seq::empty().push(v));
        }
        assert(old_out.take(pos as int) + old_out.skip(pos as int) =~= old_out);
        vstd::seq_lib::lemma_multiset_commutative(
            old_out.take(pos as int),
            old_out.skip(pos as int),
        );
        assert(out@.to_multiset() =~= old_out.to_multiset().insert(v));
    }
}

/// The venues the viewer may see, ordered by name: every public venue, and
/// the private venues of the organizations the viewer belongs to.
#[verifier::loop_isolation(false)]
fn filter_visible_sorted(user_organization_ids: Option<&Vec<u128>>, venues: Vec<Venue>) -> (r: Vec<
    Venue,
>)
    ensures
        sorted_by_name(r@),
        r@.to_multiset() == venues@.filter(
            |v: Venue| spec_visible_to(v, orgs_view(user_organization_ids)),
        ).to_multiset(),
{
    broadcast use group_to_multiset_ensures;

    let ghost pred = |v: Venue| spec_visible_to(v, orgs_view(user_organization_ids));
    let ghost full = venues@;
    let mut source = venues;
    let mut out: Vec<Venue> = Vec::new();
    proof {
        assert(out@.to_multiset() =~= Multiset::empty());
    }
    loop
        invariant
            pred == (|v: Venue| spec_visible_to(v, orgs_view(user_organization_ids))),
            sorted_by_name(out@),
            out@.to_multiset().add(source@.filter(pred).to_multiset()) == full.filter(
                pred,
            ).to_multiset(),
        decreases source@.len(),
    {
        let ghost before = source@;
        let next = source.pop();
        match next {
            None => {
                proof {
                    broadcast use vstd::multiset::group_multiset_axioms;
                    broadcast use group_to_multiset_ensures;

                    reveal(Seq::filter);
                    assert(before.len() == 0);
                    assert(before.filter(pred) =~= before);
                    assert(before.to_multiset().len() == 0);
                    vstd::multiset::lemma_multiset_empty_len(before.to_multiset());
                    assert(out@.to_multiset() =~= full.filter(pred).to_multiset());
                }
                return out;
            },
            Some(v) => {
                proof {
                    reveal(Seq::filter);
                    assert(before.drop_last() =~= source@);
                }
                if is_visible_to(&v, user_organization_ids) {
                    let ghost out_before = out@;
                    insert_by_name(&mut out, v);
                    proof {
                        broadcast use vstd::multiset::group_multiset_axioms;
                        broadcast use group_to_multiset_ensures;

                        assert(before.filter(pred) =~= source@.filter(pred).push(v));
                        assert(before.filter(pred).to_multiset() =~= source@.filter(
                            pred,
                        ).to_multiset().insert(v));
                        assert(out@.to_multiset().add(source@.filter(pred).to_multiset())
                            =~= full.filter(pred).to_multiset());
                    }
                } else {
                    proof {
                        assert(before.filter(pred) =~= source@.filter(pred));
                    }
                }
            },
        }
    }
}

/// The venues of one organization the viewer may see, ordered by name.
#[verifier::loop_isolation(false)]
fn filter_organization_sorted(
    user_organization_ids: Option<&Vec<u128>>,
    organization_id: u128,
    venues: Vec<Venue>,
) -> (r: Vec<Venue>)
    ensures
        sorted_by_name(r@),
        r@.to_multiset() == venues@.filter(
            |v: Venue| v.organization_id == Some(organization_id) && spec_visible_to(
                v,
                orgs_view(user_organization_ids),
            ),
        ).to_multiset(),
{
    broadcast use group_to_multiset_ensures;

    let ghost pred = |v: Venue|
        v.organization_id == Some(organization_id) && spec_visible_to(
            v,
            orgs_view(user_organization_ids),
        );
    let ghost full = venues@;
    let mut source = venues;
    let mut out: Vec<Venue> = Vec::new();
    proof {
        assert(out@.to_multiset() =~= Multiset::empty());
    }
    loop
        invariant
            pred == (|v: Venue|
                v.organization_id == Some(organization_id) && spec_visible_to(
                    v,
                    orgs_view(user_organization_ids),
                )),
            sorted_by_name(out@),
            out@.to_multiset().add(source@.filter(pred).to_multiset()) == full.filter(
                pred,
            ).to_multiset(),
        decreases source@.len(),
    {
        let ghost before = source@;
        let next = source.pop();
        match next {
            None => {
                proof {
                    broadcast use vstd::multiset::group_multiset_axioms;
                    broadcast use group_to_multiset_ensures;

                    reveal(Seq::filter);
                    assert(before.len() == 0);
                    assert(before.filter(pred) =~= before);
                    assert(before.to_multiset().len() == 0);
                    vstd::multiset::lemma_multiset_empty_len(before.to_multiset());
                    assert(out@.to_multiset() =~= full.filter(pred).to_multiset());
                }
                return out;
            },
            Some(v) => {
                proof {
                    reveal(Seq::filter);
                    assert(before.drop_last() =~= source@);
                }
                let belongs = match v.organization_id {
                    Some(org) => org == organization_id,
                    None => false,
                };
                if belongs && is_visible_to(&v, user_organization_ids) {
                    insert_by_name(&mut out, v);
                    proof {
                        broadcast use vstd::multiset::group_multiset_axioms;
                        broadcast use group_to_multiset_ensures;

                        assert(before.filter(pred) =~= source@.filter(pred).push(v));
                        assert(before.filter(pred).to_multiset() =~= source@.filter(
                            pred,
                        ).to_multiset().insert(v));
                        assert(out@.to_multiset().add(source@.filter(pred).to_multiset())
                            =~= full.filter(pred).to_multiset());
                    }
                } else {
                    proof {
                        assert(before.filter(pred) =~= source@.filter(pred));
                    }
                }
            },
        }
    }
}

impl Venue {
    /// The venues the viewer may see, ordered by name: every public venue,
    /// and the private venues of the organizations the viewer belongs to.
    pub fn all(user_organization_ids: Option<&Vec<u128>>, venues: Vec<Venue>) -> (r: Vec<Venue>)
        ensures
            sorted_by_name(r@),
            r@.to_multiset() == venues@.filter(
                |v: Venue| spec_visible_to(v, orgs_view(user_organization_ids)),
            ).to_multiset(),
    {
        filter_visible_sorted(user_organization_ids, venues)
    }

    /// The venues of one organization the viewer may see, ordered by name.
    pub fn find_for_organization(
        user_organization_ids: Option<&Vec<u128>>,
        organization_id: u128,
        venues: Vec<Venue>,
    ) -> (r: Vec<Venue>)
        ensures
            sorted_by_name(r@),
            r@.to_multiset() == venues@.filter(
                |v: Venue| v.organization_id == Some(organization_id) && spec_visible_to(
                    v,
                    orgs_view(user_organization_ids),
                ),
            ).to_multiset(),
    {
        filter_organization_sorted(user_organization_ids, organization_id, venues)
    }

    /// A new public venue of the given name, region and organization, with
    /// no address data yet.
    pub fn create(name: &str, region_id: Option<u128>, organization_id: Option<u128>) -> (r:
        NewVenue)
        ensures
            r.name@ == name@,
            r.region_id == region_id,
            r.organization_id == organization_id,
            r.address is None,
            r.city is None,
            r.state is None,
            r.country is None,
            r.postal_code is None,
            r.phone is None,
    {
        NewVenue {
            name: name.to_owned(),
            region_id,
            organization_id,
            address: None,
            city: None,
            state: None,
            country: None,
            postal_code: None,
            phone: None,
        }
    }

    /// The stored venue with the given id, or a not-found error.
    pub fn find(venues: &Vec<Venue>, id: u128) -> (r: Result<Venue, DatabaseError>)
        requires
            venue_ids_unique(venues@),
        ensures
            r is Ok <==> has_venue_id(venues@, id),
            r matches Ok(v) ==> venue_like(v, venues@[venue_idx_of(venues@, id)]),
            r matches Err(e) ==> e.error_code is NoResults,
    {
        let mut i: usize = 0;
        while i < venues.len()
            invariant
                venue_ids_unique(venues@),
                0 <= i <= venues@.len(),
                forall|j: int| 0 <= j < i ==> (#[trigger] venues@[j]).id != id,
            decreases venues@.len() - i,
        {
            if venues[i].id == id {
                proof {
                    lemma_venue_idx_of_unique(venues@, id, i as int);
                }
                return Ok(clone_venue(&venues[i]));
            }
            i = i + 1;
        }
        Err(DatabaseError::no_results("Error loading venue"))
    }

    /// A copy of the venue with the given editable attributes applied;
    /// attributes left out keep their old value.
    pub fn update(&self, attributes: &VenueEditableAttributes) -> (r: Venue)
        ensures
            r.id == self.id,
            r.organization_id == self.organization_id,
            r.is_private == self.is_private,
            attributes.region_id matches Some(x) ==> r.region_id == Some(x),
            attributes.region_id is None ==> r.region_id == self.region_id,
            attributes.name matches Some(n) ==> r.name@ == n@,
            attributes.name is None ==> r.name@ == self.name@,
            attributes.address matches Some(a) ==> opt_view(r.address) == Some(a@),
            attributes.address is None ==> opt_view(r.address) == opt_view(self.address),
            attributes.city matches Some(c) ==> opt_view(r.city) == Some(c@),
            attributes.city is None ==> opt_view(r.city) == opt_view(self.city),
            attributes.state matches Some(s) ==> opt_view(r.state) == Some(s@),
            attributes.state is None ==> opt_view(r.state) == opt_view(self.state),
            attributes.country matches Some(c) ==> opt_view(r.country) == Some(c@),
            attributes.country is None ==> opt_view(r.country) == opt_view(self.country),
            attributes.postal_code matches Some(p) ==> opt_view(r.postal_code) == Some(p@),
            attributes.postal_code is None ==> opt_view(r.postal_code) == opt_view(
                self.postal_code,
            ),
            attributes.phone matches Some(p) ==> opt_view(r.phone) == Some(p@),
            attributes.phone is None ==> opt_view(r.phone) == opt_view(self.phone),
    {
        let region_id = match attributes.region_id {
            Some(x) => Some(x),
            None => self.region_id,
        };
        let name = match &attributes.name {
            Some(n) => clone_string(n),
            None => clone_string(&self.name),
        };
        let address = match &attributes.address {
            Some(a) => Some(clone_string(a)),
            None => clone_opt_string(&self.address),
        };
        let city = match &attributes.city {
            Some(c) => Some(clone_string(c)),
            None => clone_opt_string(&self.city),
        };
        let state = match &attributes.state {
            Some(s) => Some(clone_string(s)),
            None => clone_opt_string(&self.state),
        };
        let country = match &attributes.country {
            Some(c) => Some(clone_string(c)),
            None => clone_opt_string(&self.country),
        };
        let postal_code = match &attributes.postal_code {
            Some(p) => Some(clone_string(p)),
            None => clone_opt_string(&self.postal_code),
        };
        let phone = match &attributes.phone {
            Some(p) => Some(clone_string(p)),
            None => clone_opt_string(&self.phone),
        };
        Venue {
            id: self.id,
            region_id,
            organization_id: self.organization_id,
            is_private: self.is_private,
            name,
            address,
            city,
            state,
            country,
            postal_code,
            phone,
        }
    }

    /// A copy of the venue assigned to the organization.
    pub fn add_to_organization(&self, organization_id: u128) -> (r: Venue)
        ensures
            venue_like(
                r,
                Venue { organization_id: Some(organization_id), ..*self },
            ),
    {
        let mut updated = clone_venue(self);
        updated.organization_id = Some(organization_id);
        updated
    }

    /// A copy of the venue with the privacy flag set as given.
    pub fn set_privacy(&self, is_private: bool) -> (r: Venue)
        ensures
            venue_like(r, Venue { is_private, ..*self }),
    {
        let mut updated = clone_venue(self);
        updated.is_private = is_private;
        updated
    }

    /// The organization owning the venue, if any.
    pub fn organization(&self) -> (r: Option<u128>)
        ensures
            r == self.organization_id,
    {
        self.organization_id
    }
}

/// The editable attributes of a venue; an attribute left `None` keeps its
/// value.
#[derive(Debug)]
pub struct VenueEditableAttributes {
    pub region_id: Option<u128>,
    pub name: Option<String>,
    pub address: Option<String>,
    pub city: Option<String>,
    pub state: Option<String>,
    pub country: Option<String>,
    pub postal_code: Option<String>,
    pub phone: Option<String>,
}

impl Default for VenueEditableAttributes {
    /// Attributes that change nothing.
    fn default() -> (r: VenueEditableAttributes)
        ensures
            r.region_id is None,
            r.name is None,
            r.address is None,
            r.city is None,
            r.state is None,
            r.country is None,
            r.postal_code is None,
            r.phone is None,
    {
        VenueEditableAttributes {
            region_id: None,
            name: None,
            address: None,
            city: None,
            state: None,
            country: None,
            postal_code: None,
            phone: None,
        }
    }
}

/// A venue prepared for insertion, not yet stored.
#[derive(Debug)]
pub struct NewVenue {
    pub name: String,
    pub region_id: Option<u128>,
    pub organization_id: Option<u128>,
    pub address: Option<String>,
    pub city: Option<String>,
    pub state: Option<String>,
    pub country: Option<String>,
    pub postal_code: Option<String>,
    pub phone: Option<String>,
}

impl NewVenue {
    /// The public venue this value becomes once stored under the given id.
    pub open spec fn spec_venue(self, id: u128) -> Venue {
        Venue {
            id,
            region_id: self.region_id,
            organization_id: self.organization_id,
            is_private: false,
            name: self.name,
            address: self.address,
            city: self.city,
            state: self.state,
            country: self.country,
            postal_code: self.postal_code,
            phone: self.phone,
        }
    }

    /// Stores the venue under a fresh id; a new venue starts public.
    pub fn commit(self, id: u128, store: &mut Vec<Venue>) -> (r: Result<Venue, DatabaseError>)
        requires
            venue_ids_unique(old(store)@),
        ensures
            venue_ids_unique(final(store)@),
            r is Ok <==> !has_venue_id(old(store)@, id),
            r is Ok ==> final(store)@ == old(store)@.push(self.spec_venue(id)),
            r matches Ok(v) ==> venue_like(v, self.spec_venue(id)),
            r is Err ==> final(store)@ == old(store)@,
            r matches Err(e) ==> e.error_code is InsertError,
    {
        let mut i: usize = 0;
        while i < store.len()
            invariant
                venue_ids_unique(store@),
                store@ == old(store)@,
                0 <= i <= store@.len(),
                forall|j: int| 0 <= j < i ==> (#[trigger] store@[j]).id != id,
            decreases store@.len() - i,
        {
            if store[i].id == id {
                return Err(
                    DatabaseError::new(
                        ErrorCode::InsertError,
                        Some("Could not create new venue".to_owned()),
                    ),
                );
            }
            i = i + 1;
        }
        let stored = Venue {
            id,
            region_id: self.region_id,
            organization_id: self.organization_id,
            is_private: false,
            name: self.name,
            address: self.address,
            city: self.city,
            state: self.state,
            country: self.country,
            postal_code: self.postal_code,
            phone: self.phone,
        };
        let copy = clone_venue(&stored);
        let ghost old_store = store@;
        store.push(stored);
        proof {
            assert forall|a: int, b: int|
                0 <= a < b < store@.len() implies (#[trigger] store@[a]).id != (
            #[trigger] store@[b]).id by {
                if b == store@.len() - 1 {
                    assert(old_store[a].id != id);
                }
            }
        }
        Ok(copy)
    }
}

} // verus!
