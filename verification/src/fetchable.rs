//! The closed set of resource kinds.
//!
//! Each kind maps totally to a display name and to its fixed collection
//! endpoint under the catalog's base URL; adding a kind is one enumerated
//! addition plus matching cases.

use vstd::prelude::*;
use vstd::string::StringExecFns;

verus! {

/// A resource kind of the remote catalog.
#[derive(Debug, Clone, Copy, PartialEq, Eq, Structural)]
pub enum Fetchable {
    Planets,
    People,
    Films,
    Species,
    Starships,
    Vehicles,
}

/// Every resource kind, in presentation order.
pub fn all_fetchable() -> (r: Vec<Fetchable>)
    ensures
        r@ == seq![
            Fetchable::Planets,
            Fetchable::People,
            Fetchable::Films,
            Fetchable::Species,
            Fetchable::Starships,
            Fetchable::Vehicles,
        ],
{
    let mut v: Vec<Fetchable> = Vec::new();
    v.push(Fetchable::Planets);
    v.push(Fetchable::People);
    v.push(Fetchable::Films);
    v.push(Fetchable::Species);
    v.push(Fetchable::Starships);
    v.push(Fetchable::Vehicles);
    proof {
        assert(v@ =~= seq![
            Fetchable::Planets,
            Fetchable::People,
            Fetchable::Films,
            Fetchable::Species,
            Fetchable::Starships,
            Fetchable::Vehicles,
        ]);
    }
    v
}

impl Fetchable {
    /// The human-readable name of the kind.
    pub open spec fn spec_display_name(self) -> Seq<char> {
        match self {
            Fetchable::Planets => "Planets"@,
            Fetchable::People => "People"@,
            Fetchable::Films => "Films"@,
            Fetchable::Species => "Species"@,
            Fetchable::Starships => "Starships"@,
            Fetchable::Vehicles => "Vehicles"@,
        }
    }

    /// The canonical collection endpoint of the kind.
    pub open spec fn spec_url(self) -> Seq<char> {
        match self {
            Fetchable::Planets => "https://swapi.dev/api/planets"@,
            Fetchable::People => "https://swapi.dev/api/people"@,
            Fetchable::Films => "https://swapi.dev/api/films"@,
            Fetchable::Species => "https://swapi.dev/api/species"@,
            Fetchable::Starships => "https://swapi.dev/api/starships"@,
            Fetchable::Vehicles => "https://swapi.dev/api/vehicles"@,
        }
    }

    /// The human-readable name of the kind.
    pub fn display_name(&self) -> (r: String)
        ensures
            r@ == self.spec_display_name(),
    {
        match self {
            Fetchable::Planets => String::from_str("Planets"),
            Fetchable::People => String::from_str("People"),
            Fetchable::Films => String::from_str("Films"),
            Fetchable::Species => String::from_str("Species"),
            Fetchable::Starships => String::from_str("Starships"),
            Fetchable::Vehicles => String::from_str("Vehicles"),
        }
    }

    /// The canonical collection endpoint of the kind.
    pub fn url(&self) -> (r: String)
        ensures
            r@ == self.spec_url(),
    {
        match self {
            Fetchable::Planets => String::from_str("https://swapi.dev/api/planets"),
            Fetchable::People => String::from_str("https://swapi.dev/api/people"),
            Fetchable::Films => String::from_str("https://swapi.dev/api/films"),
            Fetchable::Species => String::from_str("https://swapi.dev/api/species"),
            Fetchable::Starships => String::from_str("https://swapi.dev/api/starships"),
            Fetchable::Vehicles => String::from_str("https://swapi.dev/api/vehicles"),
        }
    }
}

} // verus!
