//! Paging metadata for list endpoints: the page window and the search
//! parameters echoed back as tags.

use vstd::prelude::*;
use crate::numbers::{dec_str, dec_str_signed, i64_to_string, u128_to_string};
use crate::scopes::string_views;

verus! {

/// The direction a listing is sorted in.
#[derive(Clone, Copy, PartialEq, Eq, Structural, Debug)]
pub enum SortingDir {
    Asc,
    Desc,
    Unsorted,
}

/// One search parameter echoed back to the client: its name and the values
/// it was given.
#[derive(Debug)]
pub struct SearchParam {
    pub name: String,
    pub values: Vec<String>,
}

/// The name and values of a search parameter, as character sequences.
pub open spec fn param_view(p: SearchParam) -> (Seq<char>, Seq<Seq<char>>) {
    (p.name@, string_views(p.values@))
}

/// The views of a tag list.
pub open spec fn tag_views(tags: Seq<SearchParam>) -> Seq<(Seq<char>, Seq<Seq<char>>)> {
    tags.map_values(|p: SearchParam| param_view(p))
}

/// The paging metadata of a list response.
#[derive(Debug)]
pub struct Paging {
    pub page: u64,
    pub limit: u64,
    pub sort: String,
    pub dir: SortingDir,
    pub total: u64,
    pub tags: Vec<SearchParam>,
}

/// The search parameters of an event listing.
#[derive(Debug)]
pub struct SearchParameters {
    pub query: Option<String>,
    pub region_id: Option<u128>,
    pub status: Vec<String>,
    pub start_utc: Option<i64>,
    pub end_utc: Option<i64>,
}

/// The tags an event search echoes back: each parameter that was given, in
/// a fixed order, with ids and timestamps in decimal form.
pub open spec fn spec_search_tags(p: SearchParameters) -> Seq<(Seq<char>, Seq<Seq<char>>)> {
    (match p.query {
        Some(q) => seq![("query"@, seq![q@])],
        None => Seq::empty(),
    }) + (match p.region_id {
        Some(id) => seq![("region_id"@, seq![dec_str(id as int)])],
        None => Seq::empty(),
    }) + p.status@.map_values(|s: String| ("status"@, seq![s@])) + (match p.start_utc {
        Some(t) => seq![("start_utc"@, seq![dec_str_signed(t as int)])],
        None => Seq::empty(),
    }) + (match p.end_utc {
        Some(t) => seq![("end_utc"@, seq![dec_str_signed(t as int)])],
        None => Seq::empty(),
    })
}

/// A search parameter of one value.
fn single_value_param(name: &str, value: String) -> (r: SearchParam)
    ensures
        r.name@ == name@,
        string_views(r.values@) =~~= seq![value@],
{
    let mut values: Vec<String> = Vec::new();
    values.push(value);
    SearchParam { name: name.to_owned(), values }
}

/// A copy of a string with the same characters.
fn clone_string(s: &String) -> (r: String)
    ensures
        r@ == s@,
{
    s.clone()
}

impl SearchParameters {
    /// The paging metadata of an event search: the first page of one hundred
    /// entries, unsorted, with every given parameter echoed as a tag.
    pub fn create_paging_struct(&self) -> (r: Paging)
        ensures
            r.page == 0,
            r.limit == 100,
            r.sort@ == ""@,
            r.dir is Unsorted,
            r.total == 0,
            tag_views(r.tags@) == spec_search_tags(*self),
    {
        let mut default_tags: Vec<SearchParam> = Vec::new();
        let ghost q_part = match &self.query {
            Some(q) => seq![("query"@, seq![q@])],
            None => Seq::<(Seq<char>, Seq<Seq<char>>)>::empty(),
        };
        if let Some(q) = &self.query {
            default_tags.push(single_value_param("query", clone_string(q)));
        }
        proof {
            assert(tag_views(default_tags@) =~~= q_part);
        }
        let ghost region_part = match self.region_id {
            Some(id) => seq![("region_id"@, seq![dec_str(id as int)])],
            None => Seq::<(Seq<char>, Seq<Seq<char>>)>::empty(),
        };
        if let Some(id) = self.region_id {
            default_tags.push(single_value_param("region_id", u128_to_string(id)));
        }
        proof {
            assert(tag_views(default_tags@) =~~= q_part + region_part);
        }
        let ghost status_map = |s: String| ("status"@, seq![s@]);
        let mut k: usize = 0;
        while k < self.status.len()
            invariant
                0 <= k <= self.status@.len(),
                status_map == (|s: String| ("status"@, seq![s@])),
                tag_views(default_tags@) =~~= q_part + region_part + self.status@.take(
                    k as int,
                ).map_values(status_map),
            decreases self.status@.len() - k,
        {
            let ghost before_push = default_tags@;
            default_tags.push(single_value_param("status", clone_string(&self.status[k])));
            proof {
                assert(tag_views(default_tags@) =~~= tag_views(before_push).push(
                    param_view(default_tags@.last()),
                ));
                assert(self.status@.take(k as int + 1).drop_last() =~~= self.status@.take(k as int));
                assert(self.status@.take(k as int + 1).map_values(status_map) =~~= self.status@.take(
                    k as int,
                ).map_values(status_map).push(status_map(self.status@[k as int])));
                assert(tag_views(default_tags@) =~~= q_part + region_part + self.status@.take(
                    k as int + 1,
                ).map_values(status_map));
            }
            k = k + 1;
        }
        let ghost status_part = self.status@.map_values(status_map);
        proof {
            assert(self.status@.take(self.status@.len() as int) =~~= self.status@);
        }
        let ghost start_part = match self.start_utc {
            Some(t) => seq![("start_utc"@, seq![dec_str_signed(t as int)])],
            None => Seq::<(Seq<char>, Seq<Seq<char>>)>::empty(),
        };
        if let Some(t) = self.start_utc {
            default_tags.push(single_value_param("start_utc", i64_to_string(t)));
        }
        proof {
            assert(tag_views(default_tags@) =~~= q_part + region_part + status_part + start_part);
        }
        let ghost end_part = match self.end_utc {
            Some(t) => seq![("end_utc"@, seq![dec_str_signed(t as int)])],
            None => Seq::<(Seq<char>, Seq<Seq<char>>)>::empty(),
        };
        if let Some(t) = self.end_utc {
            default_tags.push(single_value_param("end_utc", i64_to_string(t)));
        }
        proof {
            assert(tag_views(default_tags@) =~~= q_part + region_part + status_part + start_part
                + end_part);
            assert(tag_views(default_tags@) =~~= spec_search_tags(*self));
        }
        Paging {
            page: 0,
            limit: 100,
            sort: "".to_owned(),
            dir: SortingDir::Unsorted,
            total: 0,
            tags: default_tags,
        }
    }
}

/// The search parameter of a guest list lookup.
#[derive(Debug)]
pub struct GuestListQueryParameters {
    pub query: String,
}

impl GuestListQueryParameters {
    /// The paging metadata of a guest list lookup: the first page of one
    /// hundred entries, unsorted, with the query echoed as its only tag.
    pub fn create_paging_struct(&self) -> (r: Paging)
        ensures
            r.page == 0,
            r.limit == 100,
            r.sort@ == ""@,
            r.dir is Unsorted,
            r.total == 0,
            tag_views(r.tags@) =~~= seq![("query"@, seq![self.query@])],
    {
        let mut default_tags: Vec<SearchParam> = Vec::new();
        default_tags.push(single_value_param("query", clone_string(&self.query)));
        proof {
            assert(tag_views(default_tags@) =~~= seq![("query"@, seq![self.query@])]);
        }
        Paging {
            page: 0,
            limit: 100,
            sort: "".to_owned(),
            dir: SortingDir::Unsorted,
            total: 0,
            tags: default_tags,
        }
    }
}

/// A page of data together with its paging metadata.
#[derive(Debug)]
pub struct Payload<T> {
    pub data: Vec<T>,
    pub paging: Paging,
}

impl<T> Payload<T> {
    /// A page of data under plain paging metadata: the given window, no
    /// sort, no tags, and the data's own length as the total.
    pub fn from_data(data: Vec<T>, page: u64, limit: u64) -> (r: Payload<T>)
        ensures
            r.data@ == data@,
            r.paging.page == page,
            r.paging.limit == limit,
            r.paging.sort@ == ""@,
            r.paging.dir is Unsorted,
            r.paging.total == data@.len(),
            r.paging.tags@.len() == 0,
    {
        let total = data.len() as u64;
        Payload {
            data,
            paging: Paging {
                page,
                limit,
                sort: "".to_owned(),
                dir: SortingDir::Unsorted,
                total,
                tags: Vec::new(),
            },
        }
    }
}

impl Paging {
    /// A copy of the paging metadata carrying a new total, for a response
    /// holding `total` matching entries in all.
    pub fn clone_with_new_total(&self, total: u64) -> (r: Paging)
        ensures
            r.page == self.page,
            r.limit == self.limit,
            r.sort@ == self.sort@,
            r.dir == self.dir,
            r.total == total,
            tag_views(r.tags@) =~~= tag_views(self.tags@),
    {
        let mut tags: Vec<SearchParam> = Vec::new();
        let mut i: usize = 0;
        while i < self.tags.len()
            invariant
                0 <= i <= self.tags@.len(),
                tag_views(tags@) =~~= tag_views(self.tags@.take(i as int)),
            decreases self.tags@.len() - i,
        {
            let source = &self.tags[i];
            let mut values: Vec<String> = Vec::new();
            let mut j: usize = 0;
            while j < source.values.len()
                invariant
                    0 <= j <= source.values@.len(),
                    string_views(values@) =~~= string_views(source.values@.take(j as int)),
                decreases source.values@.len() - j,
            {
                let ghost values_before = values@;
                values.push(clone_string(&source.values[j]));
                proof {
                    assert(string_views(values@) =~~= string_views(values_before).push(
                        values@.last()@,
                    ));
                    assert(source.values@.take(j as int + 1).drop_last() =~~= source.values@.take(
                        j as int,
                    ));
                    assert(string_views(source.values@.take(j as int + 1)) =~~= string_views(
                        source.values@.take(j as int),
                    ).push(source.values@[j as int]@));
                    assert(string_views(values@) =~~= string_views(
                        source.values@.take(j as int + 1),
                    ));
                }
                j = j + 1;
            }
            proof {
                assert(source.values@.take(source.values@.len() as int) =~~= source.values@);
            }
            let ghost tags_before = tags@;
            tags.push(SearchParam { name: clone_string(&source.name), values });
            proof {
                assert(tag_views(tags@) =~~= tag_views(tags_before).push(
                    param_view(tags@.last()),
                ));
                assert(self.tags@.take(i as int + 1).drop_last() =~~= self.tags@.take(i as int));
                assert(tag_views(self.tags@.take(i as int + 1)) =~~= tag_views(
                    self.tags@.take(i as int),
                ).push(param_view(self.tags@[i as int])));
                assert(tag_views(tags@) =~~= tag_views(self.tags@.take(i as int + 1)));
            }
            i = i + 1;
        }
        proof {
            assert(self.tags@.take(self.tags@.len() as int) =~~= self.tags@);
        }
        Paging {
            page: self.page,
            limit: self.limit,
            sort: clone_string(&self.sort),
            dir: self.dir,
            total,
            tags,
        }
    }
}

} // verus!
