//! A single selected record of any kind.

use vstd::prelude::*;
use crate::models::films::Film;
use crate::models::people::Person;
use crate::models::planets::Planet;
use crate::models::species::Species;
use crate::models::starships::Starship;
use crate::models::vehicles::Vehicle;

verus! {

/// A record of one of the six resource kinds, tagged by kind.
#[derive(Debug, Clone, PartialEq, Eq)]
pub enum Selected {
    Film(Film),
    Person(Person),
    Planet(Planet),
    Species(Species),
    Starship(Starship),
    Vehicle(Vehicle),
}

} // verus!
