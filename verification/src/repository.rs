//! The in-memory cache.
//!
//! One URL-keyed [`Store`] per resource kind.  Each kind's storage is
//! independent: an insert into one kind leaves every other kind untouched,
//! which the `*_become` predicates state field by field.  Within a kind,
//! inserts are idempotent upserts and bulk retrieval is sorted by URL and
//! reports an empty store as absent, never as an empty list.

use vstd::prelude::*;
use crate::models::films::{Film, FilmV};
use crate::models::people::{Person, PersonV};
use crate::models::planets::{Planet, PlanetV};
use crate::models::species::{Species, SpeciesV};
use crate::models::starships::{Starship, StarshipV};
use crate::models::vehicles::{Vehicle, VehicleV};
use crate::store::{Store, lookup, sorted_by_key, upsert, views};

verus! {

/// The cache: one store per resource kind.
pub struct DataRepository {
    pub planets: Store<Planet>,
    pub people: Store<Person>,
    pub films: Store<Film>,
    pub species: Store<Species>,
    pub starships: Store<Starship>,
    pub vehicles: Store<Vehicle>,
}

impl DataRepository {
    /// Every per-kind store is well-formed.
    pub open spec fn wf(self) -> bool {
        &&& self.planets.wf()
        &&& self.people.wf()
        &&& self.films.wf()
        &&& self.species.wf()
        &&& self.starships.wf()
        &&& self.vehicles.wf()
    }

    /// An empty repository.
    pub fn new() -> (r: Self)
        ensures
            r.wf(),
            r.planets@ == Seq::<PlanetV>::empty(),
            r.people@ == Seq::<PersonV>::empty(),
            r.films@ == Seq::<FilmV>::empty(),
            r.species@ == Seq::<SpeciesV>::empty(),
            r.starships@ == Seq::<StarshipV>::empty(),
            r.vehicles@ == Seq::<VehicleV>::empty(),
    {
        DataRepository {
            planets: Store::new(),
            people: Store::new(),
            films: Store::new(),
            species: Store::new(),
            starships: Store::new(),
            vehicles: Store::new(),
        }
    }
}

impl Default for DataRepository {
    /// Same as [`DataRepository::new`].
    fn default() -> (r: Self)
        ensures
            r.wf(),
            r.planets@ == Seq::<PlanetV>::empty(),
            r.people@ == Seq::<PersonV>::empty(),
            r.films@ == Seq::<FilmV>::empty(),
            r.species@ == Seq::<SpeciesV>::empty(),
            r.starships@ == Seq::<StarshipV>::empty(),
            r.vehicles@ == Seq::<VehicleV>::empty(),
    {
        DataRepository::new()
    }
}

/// The planets store holds `v` and every other kind is untouched.
pub open spec fn planets_become(pre: DataRepository, post: DataRepository, v: Seq<PlanetV>) -> bool {
    &&& post.planets@ == v
    &&& post.people == pre.people
    &&& post.films == pre.films
    &&& post.species == pre.species
    &&& post.starships == pre.starships
    &&& post.vehicles == pre.vehicles
}

impl DataRepository {
    /// Upserts the record at its URL; every other kind is untouched.
    pub fn insert_planet(&mut self, planet: &Planet)
        requires
            old(self).wf(),
        ensures
            final(self).wf(),
            planets_become(
                *old(self),
                *final(self),
                upsert::<Planet>(old(self).planets@, planet@),
            ),
    {
        self.planets.insert(planet);
    }

    /// Point lookup by canonical URL.
    pub fn get_planet(&self, url: &str) -> (r: Option<Planet>)
        ensures
            match r {
                Some(rec) => lookup::<Planet>(self.planets@, url@) == Some(rec@),
                None => lookup::<Planet>(self.planets@, url@) is None,
            },
    {
        self.planets.get(url)
    }

    /// Every stored record in ascending URL order, or `None` when none is
    /// stored.
    pub fn get_planets(&self) -> (r: Option<Vec<Planet>>)
        requires
            self.wf(),
        ensures
            match r {
                Some(list) => self.planets@.len() > 0 && views(list@) == self.planets@
                    && sorted_by_key::<Planet>(views(list@)),
                None => self.planets@.len() == 0,
            },
    {
        self.planets.get_all()
    }
}

/// The people store holds `v` and every other kind is untouched.
pub open spec fn people_become(pre: DataRepository, post: DataRepository, v: Seq<PersonV>) -> bool {
    &&& post.people@ == v
    &&& post.planets == pre.planets
    &&& post.films == pre.films
    &&& post.species == pre.species
    &&& post.starships == pre.starships
    &&& post.vehicles == pre.vehicles
}

impl DataRepository {
    /// Upserts the record at its URL; every other kind is untouched.
    pub fn insert_person(&mut self, person: &Person)
        requires
            old(self).wf(),
        ensures
            final(self).wf(),
            people_become(
                *old(self),
                *final(self),
                upsert::<Person>(old(self).people@, person@),
            ),
    {
        self.people.insert(person);
    }

    /// Point lookup by canonical URL.
    pub fn get_person(&self, url: &str) -> (r: Option<Person>)
        ensures
            match r {
                Some(rec) => lookup::<Person>(self.people@, url@) == Some(rec@),
                None => lookup::<Person>(self.people@, url@) is None,
            },
    {
        self.people.get(url)
    }

    /// Every stored record in ascending URL order, or `None` when none is
    /// stored.
    pub fn get_people(&self) -> (r: Option<Vec<Person>>)
        requires
            self.wf(),
        ensures
            match r {
                Some(list) => self.people@.len() > 0 && views(list@) == self.people@
                    && sorted_by_key::<Person>(views(list@)),
                None => self.people@.len() == 0,
            },
    {
        self.people.get_all()
    }
}

/// The films store holds `v` and every other kind is untouched.
pub open spec fn films_become(pre: DataRepository, post: DataRepository, v: Seq<FilmV>) -> bool {
    &&& post.films@ == v
    &&& post.planets == pre.planets
    &&& post.people == pre.people
    &&& post.species == pre.species
    &&& post.starships == pre.starships
    &&& post.vehicles == pre.vehicles
}

impl DataRepository {
    /// Upserts the record at its URL; every other kind is untouched.
    pub fn insert_film(&mut self, film: &Film)
        requires
            old(self).wf(),
        ensures
            final(self).wf(),
            films_become(
                *old(self),
                *final(self),
                upsert::<Film>(old(self).films@, film@),
            ),
    {
        self.films.insert(film);
    }

    /// Point lookup by canonical URL.
    pub fn get_film(&self, url: &str) -> (r: Option<Film>)
        ensures
            match r {
                Some(rec) => lookup::<Film>(self.films@, url@) == Some(rec@),
                None => lookup::<Film>(self.films@, url@) is None,
            },
    {
        self.films.get(url)
    }

    /// Every stored record in ascending URL order, or `None` when none is
    /// stored.
    pub fn get_films(&self) -> (r: Option<Vec<Film>>)
        requires
            self.wf(),
        ensures
            match r {
                Some(list) => self.films@.len() > 0 && views(list@) == self.films@
                    && sorted_by_key::<Film>(views(list@)),
                None => self.films@.len() == 0,
            },
    {
        self.films.get_all()
    }
}

/// The species store holds `v` and every other kind is untouched.
pub open spec fn species_become(pre: DataRepository, post: DataRepository, v: Seq<SpeciesV>) -> bool {
    &&& post.species@ == v
    &&& post.planets == pre.planets
    &&& post.people == pre.people
    &&& post.films == pre.films
    &&& post.starships == pre.starships
    &&& post.vehicles == pre.vehicles
}

impl DataRepository {
    /// Upserts the record at its URL; every other kind is untouched.
    pub fn insert_species(&mut self, species: &Species)
        requires
            old(self).wf(),
        ensures
            final(self).wf(),
            species_become(
                *old(self),
                *final(self),
                upsert::<Species>(old(self).species@, species@),
            ),
    {
        self.species.insert(species);
    }

    /// Point lookup by canonical URL.
    pub fn get_species(&self, url: &str) -> (r: Option<Species>)
        ensures
            match r {
                Some(rec) => lookup::<Species>(self.species@, url@) == Some(rec@),
                None => lookup::<Species>(self.species@, url@) is None,
            },
    {
        self.species.get(url)
    }

    /// Every stored record in ascending URL order, or `None` when none is
    /// stored.
    pub fn get_species_list(&self) -> (r: Option<Vec<Species>>)
        requires
            self.wf(),
        ensures
            match r {
                Some(list) => self.species@.len() > 0 && views(list@) == self.species@
                    && sorted_by_key::<Species>(views(list@)),
                None => self.species@.len() == 0,
            },
    {
        self.species.get_all()
    }
}

/// The starships store holds `v` and every other kind is untouched.
pub open spec fn starships_become(pre: DataRepository, post: DataRepository, v: Seq<StarshipV>) -> bool {
    &&& post.starships@ == v
    &&& post.planets == pre.planets
    &&& post.people == pre.people
    &&& post.films == pre.films
    &&& post.species == pre.species
    &&& post.vehicles == pre.vehicles
}

impl DataRepository {
    /// Upserts the record at its URL; every other kind is untouched.
    pub fn insert_starship(&mut self, starship: &Starship)
        requires
            old(self).wf(),
        ensures
            final(self).wf(),
            starships_become(
                *old(self),
                *final(self),
                upsert::<Starship>(old(self).starships@, starship@),
            ),
    {
        self.starships.insert(starship);
    }

    /// Point lookup by canonical URL.
    pub fn get_starship(&self, url: &str) -> (r: Option<Starship>)
        ensures
            match r {
                Some(rec) => lookup::<Starship>(self.starships@, url@) == Some(rec@),
                None => lookup::<Starship>(self.starships@, url@) is None,
            },
    {
        self.starships.get(url)
    }

    /// Every stored record in ascending URL order, or `None` when none is
    /// stored.
    pub fn get_starships(&self) -> (r: Option<Vec<Starship>>)
        requires
            self.wf(),
        ensures
            match r {
                Some(list) => self.starships@.len() > 0 && views(list@) == self.starships@
                    && sorted_by_key::<Starship>(views(list@)),
                None => self.starships@.len() == 0,
            },
    {
        self.starships.get_all()
    }
}

/// The vehicles store holds `v` and every other kind is untouched.
pub open spec fn vehicles_become(pre: DataRepository, post: DataRepository, v: Seq<VehicleV>) -> bool {
    &&& post.vehicles@ == v
    &&& post.planets == pre.planets
    &&& post.people == pre.people
    &&& post.films == pre.films
    &&& post.species == pre.species
    &&& post.starships == pre.starships
}

impl DataRepository {
    /// Upserts the record at its URL; every other kind is untouched.
    pub fn insert_vehicle(&mut self, vehicle: &Vehicle)
        requires
            old(self).wf(),
        ensures
            final(self).wf(),
            vehicles_become(
                *old(self),
                *final(self),
                upsert::<Vehicle>(old(self).vehicles@, vehicle@),
            ),
    {
        self.vehicles.insert(vehicle);
    }

    /// Point lookup by canonical URL.
    pub fn get_vehicle(&self, url: &str) -> (r: Option<Vehicle>)
        ensures
            match r {
                Some(rec) => lookup::<Vehicle>(self.vehicles@, url@) == Some(rec@),
                None => lookup::<Vehicle>(self.vehicles@, url@) is None,
            },
    {
        self.vehicles.get(url)
    }

    /// Every stored record in ascending URL order, or `None` when none is
    /// stored.
    pub fn get_vehicles(&self) -> (r: Option<Vec<Vehicle>>)
        requires
            self.wf(),
        ensures
            match r {
                Some(list) => self.vehicles@.len() > 0 && views(list@) == self.vehicles@
                    && sorted_by_key::<Vehicle>(views(list@)),
                None => self.vehicles@.len() == 0,
            },
    {
        self.vehicles.get_all()
    }
}

} // verus!
