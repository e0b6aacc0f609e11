//! Cross-reference enumeration for a person record.
//!
//! A person carries lists of URLs referencing the films, species, starships
//! and vehicles it appears in, and optionally its homeworld.  The projection
//! here reports the non-empty ones; it is a convenience over already-fetched
//! data and performs no fetch itself.

use vstd::prelude::*;
use crate::models::clone_strings;
use crate::models::people::{Person, PersonV};
use crate::store::views;

verus! {

/// One non-empty reference list (or field) carried by a record.
#[derive(Debug, Clone, PartialEq, Eq)]
pub enum ListItems {
    Planets(Vec<String>),
    People(Vec<String>),
    Films(Vec<String>),
    Species(Vec<String>),
    Starships(Vec<String>),
    Vehicles(Vec<String>),
    Homeworld(String),
}

/// The mathematical view of a reference list.
pub enum ListItemsV {
    Planets(Seq<Seq<char>>),
    People(Seq<Seq<char>>),
    Films(Seq<Seq<char>>),
    Species(Seq<Seq<char>>),
    Starships(Seq<Seq<char>>),
    Vehicles(Seq<Seq<char>>),
    Homeworld(Seq<char>),
}

impl View for ListItems {
    type V = ListItemsV;

    open spec fn view(&self) -> ListItemsV {
        match self {
            ListItems::Planets(v) => ListItemsV::Planets(v.deep_view()),
            ListItems::People(v) => ListItemsV::People(v.deep_view()),
            ListItems::Films(v) => ListItemsV::Films(v.deep_view()),
            ListItems::Species(v) => ListItemsV::Species(v.deep_view()),
            ListItems::Starships(v) => ListItemsV::Starships(v.deep_view()),
            ListItems::Vehicles(v) => ListItemsV::Vehicles(v.deep_view()),
            ListItems::Homeworld(s) => ListItemsV::Homeworld(s@),
        }
    }
}

/// The reference lists a person carries, in a fixed order: films, species,
/// starships, vehicles, then the homeworld — each only when non-empty
/// (respectively present).
pub open spec fn related_items_of(p: PersonV) -> Seq<ListItemsV> {
    let s0 = Seq::<ListItemsV>::empty();
    let s1 = if p.films.len() > 0 {
        s0.push(ListItemsV::Films(p.films))
    } else {
        s0
    };
    let s2 = if p.species.len() > 0 {
        s1.push(ListItemsV::Species(p.species))
    } else {
        s1
    };
    let s3 = if p.starships.len() > 0 {
        s2.push(ListItemsV::Starships(p.starships))
    } else {
        s2
    };
    let s4 = if p.vehicles.len() > 0 {
        s3.push(ListItemsV::Vehicles(p.vehicles))
    } else {
        s3
    };
    match p.homeworld {
        Some(h) => s4.push(ListItemsV::Homeworld(h)),
        None => s4,
    }
}

/// Reports which non-empty reference lists and fields `person` carries.
pub fn person_related_items(person: &Person) -> (r: Vec<ListItems>)
    ensures
        views(r@) == related_items_of(person@),
{
    let mut items: Vec<ListItems> = Vec::new();
    if !person.films.is_empty() {
        items.push(ListItems::Films(clone_strings(&person.films)));
    }
    if !person.species.is_empty() {
        items.push(ListItems::Species(clone_strings(&person.species)));
    }
    if !person.starships.is_empty() {
        items.push(ListItems::Starships(clone_strings(&person.starships)));
    }
    if !person.vehicles.is_empty() {
        items.push(ListItems::Vehicles(clone_strings(&person.vehicles)));
    }
    match &person.homeworld {
        Some(hw) => items.push(ListItems::Homeworld(hw.clone())),
        None => {},
    }
    proof {
        assert(views(items@) =~= related_items_of(person@));
    }
    items
}

} // verus!
