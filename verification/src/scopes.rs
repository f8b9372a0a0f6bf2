//! Scope resolution: mapping role names to permission scopes.
//!
//! Each role grants a set of direct scopes and inherits every scope of its
//! parent role; the chain is `Admin` -> `OrgOwner` -> `OrgMember` -> `User`.
//! Resolving a set of roles unions the scopes of every role in the set and
//! yields their canonical names sorted lexicographically, without duplicates.
//! Unknown role names resolve to no scopes at all, so a holder of only
//! unknown roles is denied every scope-gated operation.

use vstd::prelude::*;
use crate::lex::{lex_lt, str_eq};
use crate::lex::{lemma_lex_lt_at, lemma_lex_lt_irreflexive, lemma_lex_lt_transitive};

verus! {

/// A permission token required to perform a specific operation. Scopes are
/// derived from roles and never assigned to a user directly.
#[derive(Clone, Copy, PartialEq, Eq, Structural, Debug)]
pub enum Scopes {
    ArtistWrite,
    EventWrite,
    EventInterest,
    OrderMakeExternalPayment,
    OrgAdmin,
    OrgRead,
    OrgWrite,
    RegionWrite,
    UserRead,
    TicketAdmin,
    VenueWrite,
}

/// The canonical name of a scope.
pub open spec fn scope_name(s: Scopes) -> Seq<char> {
    match s {
        Scopes::ArtistWrite => "artist:write"@,
        Scopes::EventWrite => "event:write"@,
        Scopes::EventInterest => "event:interest"@,
        Scopes::OrderMakeExternalPayment => "order::make-external-payment"@,
        Scopes::OrgAdmin => "org:admin"@,
        Scopes::OrgRead => "org:read"@,
        Scopes::OrgWrite => "org:write"@,
        Scopes::RegionWrite => "region:write"@,
        Scopes::UserRead => "user:read"@,
        Scopes::TicketAdmin => "ticket:admin"@,
        Scopes::VenueWrite => "venue:write"@,
    }
}

/// Every scope, in lexicographic order of its canonical name.
pub open spec fn all_scopes_ordered() -> Seq<Scopes> {
    seq![
        Scopes::ArtistWrite,
        Scopes::EventInterest,
        Scopes::EventWrite,
        Scopes::OrderMakeExternalPayment,
        Scopes::OrgAdmin,
        Scopes::OrgRead,
        Scopes::OrgWrite,
        Scopes::RegionWrite,
        Scopes::TicketAdmin,
        Scopes::UserRead,
        Scopes::VenueWrite,
    ]
}

/// Direct scopes of the `User` role.
pub open spec fn user_scopes() -> Seq<Scopes> {
    seq![Scopes::EventInterest]
}

/// Scopes of the `OrgMember` role: its direct scopes followed by everything
/// inherited from `User`.
pub open spec fn org_member_scopes() -> Seq<Scopes> {
    seq![
        Scopes::ArtistWrite,
        Scopes::EventWrite,
        Scopes::OrgRead,
        Scopes::TicketAdmin,
        Scopes::VenueWrite,
    ] + user_scopes()
}

/// Scopes of the `OrgOwner` role: its direct scopes followed by everything
/// inherited from `OrgMember`.
pub open spec fn org_owner_scopes() -> Seq<Scopes> {
    seq![Scopes::OrgWrite, Scopes::UserRead] + org_member_scopes()
}

/// Scopes of the `Admin` role: its direct scopes followed by everything
/// inherited from `OrgOwner`.
pub open spec fn admin_scopes() -> Seq<Scopes> {
    seq![Scopes::OrderMakeExternalPayment, Scopes::OrgAdmin, Scopes::RegionWrite]
        + org_owner_scopes()
}

/// The scopes a role name resolves to, in the order they are collected:
/// direct scopes first, inherited ones after. Unknown roles resolve to
/// nothing.
pub open spec fn role_scopes(role: Seq<char>) -> Seq<Scopes> {
    if role == "User"@ {
        user_scopes()
    } else if role == "OrgMember"@ {
        org_member_scopes()
    } else if role == "OrgOwner"@ {
        org_owner_scopes()
    } else if role == "Admin"@ {
        admin_scopes()
    } else {
        Seq::empty()
    }
}

/// Position of a role in the inheritance chain, root first; unknown roles
/// sit at the root. Bounds the recursion of `get_scopes_for_role`.
pub open spec fn role_depth(role: Seq<char>) -> nat {
    if role == "OrgMember"@ {
        1nat
    } else if role == "OrgOwner"@ {
        2nat
    } else if role == "Admin"@ {
        3nat
    } else {
        0nat
    }
}

/// The four known role names differ from one another (their lengths differ).
proof fn lemma_role_names_distinct()
    ensures
        "User"@ != "OrgMember"@,
        "User"@ != "OrgOwner"@,
        "User"@ != "Admin"@,
        "OrgMember"@ != "OrgOwner"@,
        "OrgMember"@ != "Admin"@,
        "OrgOwner"@ != "Admin"@,
{
    reveal_strlit("User");
    reveal_strlit("OrgMember");
    reveal_strlit("OrgOwner");
    reveal_strlit("Admin");
    assert("User"@.len() == 4);
    assert("OrgMember"@.len() == 9);
    assert("OrgOwner"@.len() == 8);
    assert("Admin"@.len() == 5);
}

/// The scopes granted by a role name: its own direct scopes followed by the
/// scopes of the role it inherits from.
pub fn get_scopes_for_role(role: &str) -> (out: Vec<Scopes>)
    ensures
        out@ == role_scopes(role@),
    decreases role_depth(role@),
{
    if str_eq(role, "User") {
        let mut v: Vec<Scopes> = Vec::new();
        v.push(Scopes::EventInterest);
        proof {
            lemma_role_names_distinct();
            assert(v@ =~= user_scopes());
        }
        v
    } else if str_eq(role, "OrgMember") {
        let mut v: Vec<Scopes> = Vec::new();
        v.push(Scopes::ArtistWrite);
        v.push(Scopes::EventWrite);
        v.push(Scopes::OrgRead);
        v.push(Scopes::TicketAdmin);
        v.push(Scopes::VenueWrite);
        proof {
            lemma_role_names_distinct();
        }
        let mut inherited = get_scopes_for_role("User");
        v.append(&mut inherited);
        proof {
            lemma_role_names_distinct();
            assert(v@ =~= org_member_scopes());
        }
        v
    } else if str_eq(role, "OrgOwner") {
        let mut v: Vec<Scopes> = Vec::new();
        v.push(Scopes::OrgWrite);
        v.push(Scopes::UserRead);
        proof {
            lemma_role_names_distinct();
        }
        let mut inherited = get_scopes_for_role("OrgMember");
        v.append(&mut inherited);
        proof {
            lemma_role_names_distinct();
            assert(v@ =~= org_owner_scopes());
        }
        v
    } else if str_eq(role, "Admin") {
        let mut v: Vec<Scopes> = Vec::new();
        v.push(Scopes::OrderMakeExternalPayment);
        v.push(Scopes::OrgAdmin);
        v.push(Scopes::RegionWrite);
        proof {
            lemma_role_names_distinct();
        }
        let mut inherited = get_scopes_for_role("OrgOwner");
        v.append(&mut inherited);
        proof {
            lemma_role_names_distinct();
            assert(v@ =~= admin_scopes());
        }
        v
    } else {
        let v: Vec<Scopes> = Vec::new();
        proof {
            assert(v@ =~= Seq::<Scopes>::empty());
        }
        v
    }
}

/// The views of a sequence of strings.
pub open spec fn string_views(v: Seq<String>) -> Seq<Seq<char>> {
    v.map_values(|s: String| s@)
}

/// Whether some role in the set grants the scope, directly or by
/// inheritance.
pub open spec fn grants(roles: Seq<Seq<char>>, s: Scopes) -> bool {
    exists|i: int| 0 <= i < roles.len() && role_scopes(roles[i]).contains(s)
}

/// The union of the scopes of all the roles, as a subsequence of the
/// canonical scope order.
pub open spec fn resolved_scopes(roles: Seq<Seq<char>>) -> Seq<Scopes> {
    all_scopes_ordered().filter(|s: Scopes| grants(roles, s))
}

/// The canonical names of the resolved scopes: the value `get_scopes`
/// returns, sorted lexicographically and free of duplicates.
pub open spec fn resolved_names(roles: Seq<Seq<char>>) -> Seq<Seq<char>> {
    resolved_scopes(roles).map_values(|s: Scopes| scope_name(s))
}

/// Whether the scope list of one role contains the given scope.
fn contains_scope(v: &Vec<Scopes>, s: Scopes) -> (r: bool)
    ensures
        r == v@.contains(s),
{
    let mut i: usize = 0;
    while i < v.len()
        invariant
            0 <= i <= v@.len(),
            forall|j: int| 0 <= j < i ==> v@[j] != s,
        decreases v@.len() - i,
    {
        if v[i] == s {
            return true;
        }
        i = i + 1;
    }
    false
}

/// Whether any of the roles grants the scope.
pub fn roles_grant(roles: &Vec<String>, scope: Scopes) -> (r: bool)
    ensures
        r == grants(string_views(roles@), scope),
{
    let ghost rv = string_views(roles@);
    let mut i: usize = 0;
    while i < roles.len()
        invariant
            0 <= i <= roles@.len(),
            rv == string_views(roles@),
            forall|j: int| 0 <= j < i ==> !role_scopes(rv[j]).contains(scope),
        decreases roles@.len() - i,
    {
        let role_scope_list = get_scopes_for_role(roles[i].as_str());
        if contains_scope(&role_scope_list, scope) {
            proof {
                assert(rv[i as int] == roles@[i as int]@);
                assert(role_scopes(rv[i as int]).contains(scope));
            }
            return true;
        }
        i = i + 1;
    }
    false
}

/// The scopes in canonical order, as a vector.
fn all_scopes_vec() -> (v: Vec<Scopes>)
    ensures
        v@ == all_scopes_ordered(),
{
    let mut v: Vec<Scopes> = Vec::new();
    v.push(Scopes::ArtistWrite);
    v.push(Scopes::EventInterest);
    v.push(Scopes::EventWrite);
    v.push(Scopes::OrderMakeExternalPayment);
    v.push(Scopes::OrgAdmin);
    v.push(Scopes::OrgRead);
    v.push(Scopes::OrgWrite);
    v.push(Scopes::RegionWrite);
    v.push(Scopes::TicketAdmin);
    v.push(Scopes::UserRead);
    v.push(Scopes::VenueWrite);
    proof {
        assert(v@ =~= all_scopes_ordered());
    }
    v
}

/// Resolves a set of role names to the canonical names of every scope those
/// roles grant, sorted lexicographically and deduplicated. The result
/// depends only on the set of roles, not on their order or multiplicity.
pub fn get_scopes(roles: Vec<String>) -> (out: Vec<String>)
    ensures
        string_views(out@) == resolved_names(string_views(roles@)),
{
    let ghost rv = string_views(roles@);
    let ghost pred = |s: Scopes| grants(rv, s);
    let all = all_scopes_vec();
    let mut out: Vec<String> = Vec::new();
    let mut k: usize = 0;
    while k < all.len()
        invariant
            all@ == all_scopes_ordered(),
            rv == string_views(roles@),
            pred == (|s: Scopes| grants(rv, s)),
            0 <= k <= all@.len(),
            string_views(out@) == all_scopes_ordered().take(k as int).filter(pred).map_values(
                |s: Scopes| scope_name(s),
            ),
        decreases all@.len() - k,
    {
        let ghost names = |s: Scopes| scope_name(s);
        let ghost pref = all_scopes_ordered().take(k as int);
        let ghost next = all_scopes_ordered().take(k as int + 1);
        proof {
            reveal(Seq::filter);
            assert(next.drop_last() =~= pref);
            assert(next.last() == all_scopes_ordered()[k as int]);
        }
        let scope = all[k];
        if roles_grant(&roles, scope) {
            let ghost old_out = out@;
            out.push(scope.to_string());
            proof {
                assert(string_views(out@) =~= string_views(old_out).push(scope_name(scope)));
                assert(next.filter(pred) =~= pref.filter(pred).push(scope));
                assert(next.filter(pred).map_values(names) =~= pref.filter(pred).map_values(
                    names,
                ).push(scope_name(scope)));
            }
        } else {
            proof {
                assert(next.filter(pred) =~= pref.filter(pred));
            }
        }
        k = k + 1;
    }
    proof {
        assert(all_scopes_ordered().take(11) =~= all_scopes_ordered());
    }
    out
}

/// Each scope name in the canonical order is lexicographically below the
/// next one.
proof fn lemma_scope_names_adjacent(i: int)
    requires
        0 <= i < 10,
    ensures
        lex_lt(scope_name(all_scopes_ordered()[i]), scope_name(all_scopes_ordered()[i + 1])),
{
    let a = scope_name(all_scopes_ordered()[i]);
    let b = scope_name(all_scopes_ordered()[i + 1]);
    if i == 0 {
        reveal_strlit("artist:write");
        reveal_strlit("event:interest");
        lemma_lex_lt_at(a, b, 0);
    } else if i == 1 {
        reveal_strlit("event:interest");
        reveal_strlit("event:write");
        lemma_lex_lt_at(a, b, 6);
    } else if i == 2 {
        reveal_strlit("event:write");
        reveal_strlit("order::make-external-payment");
        lemma_lex_lt_at(a, b, 0);
    } else if i == 3 {
        reveal_strlit("order::make-external-payment");
        reveal_strlit("org:admin");
        lemma_lex_lt_at(a, b, 2);
    } else if i == 4 {
        reveal_strlit("org:admin");
        reveal_strlit("org:read");
        lemma_lex_lt_at(a, b, 4);
    } else if i == 5 {
        reveal_strlit("org:read");
        reveal_strlit("org:write");
        lemma_lex_lt_at(a, b, 4);
    } else if i == 6 {
        reveal_strlit("org:write");
        reveal_strlit("region:write");
        lemma_lex_lt_at(a, b, 0);
    } else if i == 7 {
        reveal_strlit("region:write");
        reveal_strlit("ticket:admin");
        lemma_lex_lt_at(a, b, 0);
    } else if i == 8 {
        reveal_strlit("ticket:admin");
        reveal_strlit("user:read");
        lemma_lex_lt_at(a, b, 0);
    } else {
        reveal_strlit("user:read");
        reveal_strlit("venue:write");
        lemma_lex_lt_at(a, b, 0);
    }
}

/// Scope names earlier in the canonical order are lexicographically below
/// later ones.
proof fn lemma_scope_names_lt(i: int, j: int)
    requires
        0 <= i < j < 11,
    ensures
        lex_lt(scope_name(all_scopes_ordered()[i]), scope_name(all_scopes_ordered()[j])),
    decreases j - i,
{
    if j == i + 1 {
        lemma_scope_names_adjacent(i);
    } else {
        lemma_scope_names_lt(i, j - 1);
        lemma_scope_names_adjacent(j - 1);
        lemma_lex_lt_transitive(
            scope_name(all_scopes_ordered()[i]),
            scope_name(all_scopes_ordered()[j - 1]),
            scope_name(all_scopes_ordered()[j]),
        );
    }
}

/// Filtering a sequence whose scope names are strictly increasing leaves
/// them strictly increasing.
proof fn lemma_filter_keeps_names_sorted(s: Seq<Scopes>, pred: spec_fn(Scopes) -> bool)
    requires
        forall|i: int, j: int|
            0 <= i < j < s.len() ==> lex_lt(scope_name(s[i]), scope_name(s[j])),
    ensures
        forall|i: int, j: int|
            0 <= i < j < s.filter(pred).len() ==> lex_lt(
                scope_name(#[trigger] s.filter(pred)[i]),
                scope_name(#[trigger] s.filter(pred)[j]),
            ),
    decreases s.len(),
{
    reveal(Seq::filter);
    if s.len() > 0 {
        let dl = s.drop_last();
        let f = s.filter(pred);
        lemma_filter_keeps_names_sorted(dl, pred);
        if pred(s.last()) {
            assert forall|i: int, j: int| 0 <= i < j < f.len() implies lex_lt(
                scope_name(f[i]),
                scope_name(f[j]),
            ) by {
                if j == f.len() - 1 {
                    assert(dl.filter(pred).contains(f[i]));
                    dl.lemma_filter_contains_rev(pred, f[i]);
                    let k = choose|k: int| 0 <= k < dl.len() && dl[k] == f[i];
                    assert(s[k] == f[i]);
                    assert(lex_lt(scope_name(s[k]), scope_name(s.last())));
                }
            }
        }
    }
}

/// The list `get_scopes` returns is sorted: each name is lexicographically
/// below the next, so the list also holds no duplicates.
pub proof fn lemma_resolved_names_sorted(roles: Seq<Seq<char>>)
    ensures
        forall|i: int, j: int|
            0 <= i < j < resolved_names(roles).len() ==> lex_lt(
                #[trigger] resolved_names(roles)[i],
                #[trigger] resolved_names(roles)[j],
            ),
        forall|i: int, j: int|
            0 <= i < j < resolved_names(roles).len() ==> resolved_names(roles)[i]
                != resolved_names(roles)[j],
{
    let pred = |s: Scopes| grants(roles, s);
    let base = all_scopes_ordered();
    assert forall|i: int, j: int| 0 <= i < j < base.len() implies lex_lt(
        scope_name(base[i]),
        scope_name(base[j]),
    ) by {
        lemma_scope_names_lt(i, j);
    }
    lemma_filter_keeps_names_sorted(base, pred);
    let f = base.filter(pred);
    let out = resolved_names(roles);
    assert(out.len() == f.len());
    assert forall|i: int, j: int| 0 <= i < j < out.len() implies lex_lt(out[i], out[j]) by {
        assert(out[i] == scope_name(f[i]));
        assert(out[j] == scope_name(f[j]));
    }
    assert forall|i: int, j: int| 0 <= i < j < out.len() implies out[i] != out[j] by {
        lemma_lex_lt_irreflexive(out[i]);
    }
}

/// Filtering by predicates that agree on every element gives the same
/// result.
proof fn lemma_filter_congruent<A>(s: Seq<A>, p: spec_fn(A) -> bool, q: spec_fn(A) -> bool)
    requires
        forall|x: A| #[trigger] p(x) == q(x),
    ensures
        s.filter(p) == s.filter(q),
    decreases s.len(),
{
    reveal(Seq::filter);
    if s.len() > 0 {
        lemma_filter_congruent(s.drop_last(), p, q);
    }
}

/// Scope resolution is order-independent: two role lists holding the same
/// set of role names resolve to the same scope name list, whatever their
/// order or multiplicity.
pub proof fn lemma_resolution_order_independent(r1: Seq<Seq<char>>, r2: Seq<Seq<char>>)
    requires
        r1.to_set() == r2.to_set(),
    ensures
        resolved_names(r1) == resolved_names(r2),
{
    assert forall|s: Scopes| #[trigger] grants(r1, s) == grants(r2, s) by {
        if grants(r1, s) {
            let i = choose|i: int| 0 <= i < r1.len() && role_scopes(r1[i]).contains(s);
            assert(r1.to_set().contains(r1[i]));
            assert(r2.to_set().contains(r1[i]));
            let j = choose|j: int| 0 <= j < r2.len() && r2[j] == r1[i];
            assert(role_scopes(r2[j]).contains(s));
        }
        if grants(r2, s) {
            let i = choose|i: int| 0 <= i < r2.len() && role_scopes(r2[i]).contains(s);
            assert(r2.to_set().contains(r2[i]));
            assert(r1.to_set().contains(r2[i]));
            let j = choose|j: int| 0 <= j < r1.len() && r1[j] == r2[i];
            assert(role_scopes(r1[j]).contains(s));
        }
    }
    lemma_filter_congruent(
        all_scopes_ordered(),
        |s: Scopes| grants(r1, s),
        |s: Scopes| grants(r2, s),
    );
}

impl Scopes {
    /// The canonical name of the scope, e.g. `org:admin` for `OrgAdmin`.
    pub fn to_string(&self) -> (r: String)
        ensures
            r@ == scope_name(*self),
    {
        match self {
            Scopes::ArtistWrite => "artist:write".to_owned(),
            Scopes::EventWrite => "event:write".to_owned(),
            Scopes::EventInterest => "event:interest".to_owned(),
            Scopes::OrderMakeExternalPayment => "order::make-external-payment".to_owned(),
            Scopes::OrgAdmin => "org:admin".to_owned(),
            Scopes::OrgRead => "org:read".to_owned(),
            Scopes::OrgWrite => "org:write".to_owned(),
            Scopes::RegionWrite => "region:write".to_owned(),
            Scopes::UserRead => "user:read".to_owned(),
            Scopes::TicketAdmin => "ticket:admin".to_owned(),
            Scopes::VenueWrite => "venue:write".to_owned(),
        }
    }
}

} // verus!
