//! The deserializing fetcher and the fetch coordinator.
//!
//! [`ApiClient`] orchestrates, per resource kind, "check cache unless
//! bypassed, fetch one page, populate cache, return" for collections and
//! "check cache, fetch by URL, populate cache, return" for single records.
//! Collections take an `ignore_cache` bypass because a listing may go
//! stale; item lookups always prefer the cache.  The fetch itself goes
//! through the injected [`HttpClient`] capability, whose outcome is never
//! assumed: the contracts state what holds for every possible response,
//! and on every error path the cache is left exactly as it was.

use vstd::prelude::*;
use vstd::string::StringExecFns;
use crate::api_error::ApiError;
use crate::fetchable::Fetchable;
use crate::http_client::HttpClient;
use crate::json::{
    Json, arr_field, get_array_field, get_opt_string_field, get_u32_field, json_model,
    opt_str_field, parse_json_bytes, u32_field,
};
use crate::models::films::{Film, Films};
use crate::models::people::{People, Person};
use crate::models::planets::{Planet, Planets};
use crate::models::species::{Species, SpeciesList};
use crate::models::starships::{Starship, Starships};
use crate::models::vehicles::{Vehicle, Vehicles};
use crate::repository::{
    DataRepository, films_become, people_become, planets_become, species_become,
    starships_become, vehicles_become,
};
use crate::store::{Resource, Store, lookup, sorted_by_key, upsert, upsert_all, upsert_prefix, views};

verus! {

/// Whether every element decodes as a `T` record.
pub open spec fn all_records_ok<T: Resource>(elems: Seq<Json>) -> bool {
    forall|i: int| 0 <= i < elems.len() ==> T::json_ok(#[trigger] elems[i])
}

/// Whether `rs` are exactly the record views decoded from `elems`.
pub open spec fn records_match<T: Resource>(rs: Seq<T::V>, elems: Seq<Json>) -> bool {
    &&& rs.len() == elems.len()
    &&& forall|i: int| 0 <= i < elems.len() ==> T::json_matches(#[trigger] rs[i], elems[i])
}

/// Whether a JSON document is a well-formed collection page of `T`.
pub open spec fn page_ok<T: Resource>(j: Json) -> bool {
    &&& u32_field(j, "count"@) is Some
    &&& opt_str_field(j, "next"@) is Some
    &&& opt_str_field(j, "previous"@) is Some
    &&& (arr_field(j, "results"@) matches Some(elems) && all_records_ok::<T>(elems))
}

/// A deserialization failure for a body of the wrong shape.
fn shape_error() -> (e: ApiError)
    ensures
        e is DeserializationError,
{
    ApiError::DeserializationError {
        reason: String::from_str("response body does not have the expected shape"),
    }
}

/// Decodes a collection page into count, pagination links and records,
/// accepting exactly the documents that [`page_ok`] allows.
fn decode_page<T: Resource>(doc: &serde_json::Value) -> (r: Option<
    (u32, Option<String>, Option<String>, Vec<T>),
>)
    ensures
        match r {
            Some(p) => {
                &&& page_ok::<T>(json_model(*doc))
                &&& u32_field(json_model(*doc), "count"@) == Some(p.0)
                &&& opt_str_field(json_model(*doc), "next"@) == Some(p.1.deep_view())
                &&& opt_str_field(json_model(*doc), "previous"@) == Some(p.2.deep_view())
                &&& (arr_field(json_model(*doc), "results"@) matches Some(elems)
                    && records_match::<T>(views(p.3@), elems))
            },
            None => !page_ok::<T>(json_model(*doc)),
        },
{
    let count = match get_u32_field(doc, "count") {
        Some(c) => c,
        None => {
            return None;
        },
    };
    let next = match get_opt_string_field(doc, "next") {
        Some(x) => x,
        None => {
            return None;
        },
    };
    let previous = match get_opt_string_field(doc, "previous") {
        Some(x) => x,
        None => {
            return None;
        },
    };
    let arr = match get_array_field(doc, "results") {
        Some(a) => a,
        None => {
            return None;
        },
    };
    let ghost elems = arr_field(json_model(*doc), "results"@)->Some_0;
    let n = arr.len();
    let mut results: Vec<T> = Vec::new();
    let mut i: usize = 0;
    while i < n
        invariant
            n == arr@.len(),
            i <= n,
            elems.len() == n,
            arr_field(json_model(*doc), "results"@) == Some(elems),
            forall|k: int| 0 <= k < n ==> #[trigger] json_model(arr@[k]) == elems[k],
            results@.len() == i,
            forall|k: int| 0 <= k < i ==> T::json_ok(#[trigger] elems[k]),
            forall|k: int| 0 <= k < i ==> T::json_matches(#[trigger] results@[k]@, elems[k]),
        decreases n - i,
    {
        match T::from_json(&arr[i]) {
            None => {
                proof {
                    assert(!T::json_ok(elems[i as int]));
                    assert(!all_records_ok::<T>(elems));
                }
                return None;
            },
            Some(t) => {
                results.push(t);
            },
        }
        i = i + 1;
    }
    proof {
        assert forall|k: int| 0 <= k < n implies T::json_matches(
            #[trigger] views(results@)[k],
            elems[k],
        ) by {
            assert(views(results@)[k] == results@[k]@);
        }
        assert(records_match::<T>(views(results@), elems));
    }
    Some((count, next, previous, results))
}

/// Fetches `url` through the capability and decodes a single record.
/// Transport failures pass through as `NetworkError`; bad bodies become
/// `DeserializationError`.
fn fetch_record<C: HttpClient, T: Resource>(client: &mut C, url: &str) -> (r: Result<T, ApiError>)
    ensures
        r matches Err(e) ==> (e is NetworkError || e is DeserializationError),
{
    let bytes = match client.fetch(url) {
        Ok(b) => b,
        Err(e) => {
            return Err(ApiError::NetworkError(e));
        },
    };
    let doc = match parse_json_bytes(&bytes) {
        Ok(v) => v,
        Err(e) => {
            return Err(e);
        },
    };
    match T::from_json(&doc) {
        Some(t) => Ok(t),
        None => Err(shape_error()),
    }
}

/// Fetches `url` through the capability and decodes a collection page.
/// Transport failures pass through as `NetworkError`; bad bodies become
/// `DeserializationError`.
fn fetch_page_parts<C: HttpClient, T: Resource>(client: &mut C, url: &str) -> (r: Result<
    (u32, Option<String>, Option<String>, Vec<T>),
    ApiError,
>)
    ensures
        r matches Err(e) ==> (e is NetworkError || e is DeserializationError),
{
    let bytes = match client.fetch(url) {
        Ok(b) => b,
        Err(e) => {
            return Err(ApiError::NetworkError(e));
        },
    };
    let doc = match parse_json_bytes(&bytes) {
        Ok(v) => v,
        Err(e) => {
            return Err(e);
        },
    };
    match decode_page::<T>(&doc) {
        Some(p) => Ok(p),
        None => Err(shape_error()),
    }
}

/// Upserts every record of `recs` into `store`, in order.
fn insert_all_records<T: Resource>(store: &mut Store<T>, recs: &Vec<T>)
    requires
        old(store).wf(),
    ensures
        final(store).wf(),
        final(store)@ == upsert_all::<T>(old(store)@, views(recs@)),
{
    let ghost pre = old(store)@;
    let ghost vs = views(recs@);
    let n = recs.len();
    let mut i: usize = 0;
    while i < n
        invariant
            n == recs@.len(),
            i <= n,
            vs == views(recs@),
            vs.len() == n,
            store.wf(),
            store@ == upsert_prefix::<T>(pre, vs, i as int),
        decreases n - i,
    {
        store.insert(&recs[i]);
        proof {
            assert(recs@[i as int]@ == vs[i as int]);
            assert(store@ == upsert_prefix::<T>(pre, vs, i as int + 1));
        }
        i = i + 1;
    }
}

/// The fetch coordinator: cache-first fetching over an injected transport.
pub struct ApiClient<C: HttpClient> {
    pub http_client: C,
    pub repository: DataRepository,
}

impl<C: HttpClient> ApiClient<C> {
    /// A coordinator that fetches through `http_client` and serves from
    /// `repository`.
    pub fn new(http_client: C, repository: DataRepository) -> (r: Self)
        ensures
            r.repository == repository,
    {
        ApiClient { http_client, repository }
    }

    /// Fetches the collection endpoint of `fetch` and decodes one page of
    /// `T` records: count, pagination links and results.  The cache is not
    /// consulted and not touched.
    pub fn fetch_page<T: Resource>(&mut self, fetch: Fetchable) -> (r: Result<
        (u32, Option<String>, Option<String>, Vec<T>),
        ApiError,
    >)
        ensures
            final(self).repository == old(self).repository,
            r matches Err(e) ==> (e is NetworkError || e is DeserializationError),
    {
        let url = fetch.url();
        fetch_page_parts::<C, T>(&mut self.http_client, url.as_str())
    }

    /// Fetches `url` and decodes a single `T` record.  The cache is not
    /// consulted and not touched.
    pub fn fetch_url<T: Resource>(&mut self, url: String) -> (r: Result<T, ApiError>)
        ensures
            final(self).repository == old(self).repository,
            r matches Err(e) ==> (e is NetworkError || e is DeserializationError),
    {
        fetch_record::<C, T>(&mut self.http_client, url.as_str())
    }
}

impl<C: HttpClient> ApiClient<C> {
    /// Fetches the film collection.
    ///
    /// Unless bypassed, a non-empty cache answers immediately, sorted by
    /// URL and without a transport call; otherwise one page is fetched,
    /// decoded, and its records are upserted into the cache and returned
    /// in page order.  On any error the cache is left exactly as it was.
    pub fn fetch_films(&mut self, ignore_cache: bool) -> (r: Result<Vec<Film>, ApiError>)
        requires
            old(self).repository.wf(),
        ensures
            final(self).repository.wf(),
            !ignore_cache && old(self).repository.films@.len() > 0 ==> {
                &&& *final(self) == *old(self)
                &&& (r matches Ok(list) && views(list@) == old(self).repository.films@
                    && sorted_by_key::<Film>(views(list@)))
            },
            ignore_cache || old(self).repository.films@.len() == 0 ==> match r {
                Ok(list) => films_become(
                    old(self).repository,
                    final(self).repository,
                    upsert_all::<Film>(old(self).repository.films@, views(list@)),
                ),
                Err(e) => {
                    &&& final(self).repository == old(self).repository
                    &&& (e is NetworkError || e is DeserializationError)
                },
            },
    {
        if !ignore_cache {
            match self.repository.get_films() {
                Some(cached) => {
                    return Ok(cached);
                },
                None => {},
            }
        }
        let page = match self.fetch_page::<Film>(Fetchable::Films) {
            Ok(p) => p,
            Err(e) => {
                return Err(e);
            },
        };
        let envelope = Films { count: page.0, next: page.1, previous: page.2, results: page.3 };
        let records = envelope.results;
        insert_all_records::<Film>(&mut self.repository.films, &records);
        Ok(records)
    }

    /// Fetches a single film by URL.
    ///
    /// A cached record under `url` answers immediately without a transport
    /// call — item lookups always prefer the cache.  Otherwise the URL is
    /// fetched, decoded, upserted into the cache under its own canonical
    /// URL, and returned.  On any error the cache is left exactly as it
    /// was.
    pub fn fetch_film(&mut self, url: String) -> (r: Result<Film, ApiError>)
        requires
            old(self).repository.wf(),
        ensures
            final(self).repository.wf(),
            lookup::<Film>(old(self).repository.films@, url@) matches Some(cached) ==> {
                &&& *final(self) == *old(self)
                &&& (r matches Ok(rec) && rec@ == cached)
            },
            lookup::<Film>(old(self).repository.films@, url@) is None ==> match r {
                Ok(rec) => films_become(
                    old(self).repository,
                    final(self).repository,
                    upsert::<Film>(old(self).repository.films@, rec@),
                ),
                Err(e) => {
                    &&& final(self).repository == old(self).repository
                    &&& (e is NetworkError || e is DeserializationError)
                },
            },
    {
        match self.repository.get_film(url.as_str()) {
            Some(item) => {
                return Ok(item);
            },
            None => {},
        }
        let rec = match self.fetch_url::<Film>(url) {
            Ok(x) => x,
            Err(e) => {
                return Err(e);
            },
        };
        self.repository.insert_film(&rec);
        Ok(rec)
    }
}

impl<C: HttpClient> ApiClient<C> {
    /// Fetches the people collection.
    ///
    /// Unless bypassed, a non-empty cache answers immediately, sorted by
    /// URL and without a transport call; otherwise one page is fetched,
    /// decoded, and its records are upserted into the cache and returned
    /// in page order.  On any error the cache is left exactly as it was.
    pub fn fetch_people(&mut self, ignore_cache: bool) -> (r: Result<Vec<Person>, ApiError>)
        requires
            old(self).repository.wf(),
        ensures
            final(self).repository.wf(),
            !ignore_cache && old(self).repository.people@.len() > 0 ==> {
                &&& *final(self) == *old(self)
                &&& (r matches Ok(list) && views(list@) == old(self).repository.people@
                    && sorted_by_key::<Person>(views(list@)))
            },
            ignore_cache || old(self).repository.people@.len() == 0 ==> match r {
                Ok(list) => people_become(
                    old(self).repository,
                    final(self).repository,
                    upsert_all::<Person>(old(self).repository.people@, views(list@)),
                ),
                Err(e) => {
                    &&& final(self).repository == old(self).repository
                    &&& (e is NetworkError || e is DeserializationError)
                },
            },
    {
        if !ignore_cache {
            match self.repository.get_people() {
                Some(cached) => {
                    return Ok(cached);
                },
                None => {},
            }
        }
        let page = match self.fetch_page::<Person>(Fetchable::People) {
            Ok(p) => p,
            Err(e) => {
                return Err(e);
            },
        };
        let envelope = People { count: page.0, next: page.1, previous: page.2, results: page.3 };
        let records = envelope.results;
        insert_all_records::<Person>(&mut self.repository.people, &records);
        Ok(records)
    }

    /// Fetches a single person by URL.
    ///
    /// A cached record under `url` answers immediately without a transport
    /// call — item lookups always prefer the cache.  Otherwise the URL is
    /// fetched, decoded, upserted into the cache under its own canonical
    /// URL, and returned.  On any error the cache is left exactly as it
    /// was.
    pub fn fetch_person(&mut self, url: String) -> (r: Result<Person, ApiError>)
        requires
            old(self).repository.wf(),
        ensures
            final(self).repository.wf(),
            lookup::<Person>(old(self).repository.people@, url@) matches Some(cached) ==> {
                &&& *final(self) == *old(self)
                &&& (r matches Ok(rec) && rec@ == cached)
            },
            lookup::<Person>(old(self).repository.people@, url@) is None ==> match r {
                Ok(rec) => people_become(
                    old(self).repository,
                    final(self).repository,
                    upsert::<Person>(old(self).repository.people@, rec@),
                ),
                Err(e) => {
                    &&& final(self).repository == old(self).repository
                    &&& (e is NetworkError || e is DeserializationError)
                },
            },
    {
        match self.repository.get_person(url.as_str()) {
            Some(item) => {
                return Ok(item);
            },
            None => {},
        }
        let rec = match self.fetch_url::<Person>(url) {
            Ok(x) => x,
            Err(e) => {
                return Err(e);
            },
        };
        self.repository.insert_person(&rec);
        Ok(rec)
    }
}

impl<C: HttpClient> ApiClient<C> {
    /// Fetches the planet collection.
    ///
    /// Unless bypassed, a non-empty cache answers immediately, sorted by
    /// URL and without a transport call; otherwise one page is fetched,
    /// decoded, and its records are upserted into the cache and returned
    /// in page order.  On any error the cache is left exactly as it was.
    pub fn fetch_planets(&mut self, ignore_cache: bool) -> (r: Result<Vec<Planet>, ApiError>)
        requires
            old(self).repository.wf(),
        ensures
            final(self).repository.wf(),
            !ignore_cache && old(self).repository.planets@.len() > 0 ==> {
                &&& *final(self) == *old(self)
                &&& (r matches Ok(list) && views(list@) == old(self).repository.planets@
                    && sorted_by_key::<Planet>(views(list@)))
            },
            ignore_cache || old(self).repository.planets@.len() == 0 ==> match r {
                Ok(list) => planets_become(
                    old(self).repository,
                    final(self).repository,
                    upsert_all::<Planet>(old(self).repository.planets@, views(list@)),
                ),
                Err(e) => {
                    &&& final(self).repository == old(self).repository
                    &&& (e is NetworkError || e is DeserializationError)
                },
            },
    {
        if !ignore_cache {
            match self.repository.get_planets() {
                Some(cached) => {
                    return Ok(cached);
                },
                None => {},
            }
        }
        let page = match self.fetch_page::<Planet>(Fetchable::Planets) {
            Ok(p) => p,
            Err(e) => {
                return Err(e);
            },
        };
        let envelope = Planets { count: page.0, next: page.1, previous: page.2, results: page.3 };
        let records = envelope.results;
        insert_all_records::<Planet>(&mut self.repository.planets, &records);
        Ok(records)
    }

    /// Fetches a single planet by URL.
    ///
    /// A cached record under `url` answers immediately without a transport
    /// call — item lookups always prefer the cache.  Otherwise the URL is
    /// fetched, decoded, upserted into the cache under its own canonical
    /// URL, and returned.  On any error the cache is left exactly as it
    /// was.
    pub fn fetch_planet(&mut self, url: String) -> (r: Result<Planet, ApiError>)
        requires
            old(self).repository.wf(),
        ensures
            final(self).repository.wf(),
            lookup::<Planet>(old(self).repository.planets@, url@) matches Some(cached) ==> {
                &&& *final(self) == *old(self)
                &&& (r matches Ok(rec) && rec@ == cached)
            },
            lookup::<Planet>(old(self).repository.planets@, url@) is None ==> match r {
                Ok(rec) => planets_become(
                    old(self).repository,
                    final(self).repository,
                    upsert::<Planet>(old(self).repository.planets@, rec@),
                ),
                Err(e) => {
                    &&& final(self).repository == old(self).repository
                    &&& (e is NetworkError || e is DeserializationError)
                },
            },
    {
        match self.repository.get_planet(url.as_str()) {
            Some(item) => {
                return Ok(item);
            },
            None => {},
        }
        let rec = match self.fetch_url::<Planet>(url) {
            Ok(x) => x,
            Err(e) => {
                return Err(e);
            },
        };
        self.repository.insert_planet(&rec);
        Ok(rec)
    }
}

impl<C: HttpClient> ApiClient<C> {
    /// Fetches the species collection.
    ///
    /// Unless bypassed, a non-empty cache answers immediately, sorted by
    /// URL and without a transport call; otherwise one page is fetched,
    /// decoded, and its records are upserted into the cache and returned
    /// in page order.  On any error the cache is left exactly as it was.
    pub fn fetch_species_list(&mut self, ignore_cache: bool) -> (r: Result<Vec<Species>, ApiError>)
        requires
            old(self).repository.wf(),
        ensures
            final(self).repository.wf(),
            !ignore_cache && old(self).repository.species@.len() > 0 ==> {
                &&& *final(self) == *old(self)
                &&& (r matches Ok(list) && views(list@) == old(self).repository.species@
                    && sorted_by_key::<Species>(views(list@)))
            },
            ignore_cache || old(self).repository.species@.len() == 0 ==> match r {
                Ok(list) => species_become(
                    old(self).repository,
                    final(self).repository,
                    upsert_all::<Species>(old(self).repository.species@, views(list@)),
                ),
                Err(e) => {
                    &&& final(self).repository == old(self).repository
                    &&& (e is NetworkError || e is DeserializationError)
                },
            },
    {
        if !ignore_cache {
            match self.repository.get_species_list() {
                Some(cached) => {
                    return Ok(cached);
                },
                None => {},
            }
        }
        let page = match self.fetch_page::<Species>(Fetchable::Species) {
            Ok(p) => p,
            Err(e) => {
                return Err(e);
            },
        };
        let envelope = SpeciesList { count: page.0, next: page.1, previous: page.2, results: page.3 };
        let records = envelope.results;
        insert_all_records::<Species>(&mut self.repository.species, &records);
        Ok(records)
    }

    /// Fetches a single species record by URL.
    ///
    /// A cached record under `url` answers immediately without a transport
    /// call — item lookups always prefer the cache.  Otherwise the URL is
    /// fetched, decoded, upserted into the cache under its own canonical
    /// URL, and returned.  On any error the cache is left exactly as it
    /// was.
    pub fn fetch_species(&mut self, url: String) -> (r: Result<Species, ApiError>)
        requires
            old(self).repository.wf(),
        ensures
            final(self).repository.wf(),
            lookup::<Species>(old(self).repository.species@, url@) matches Some(cached) ==> {
                &&& *final(self) == *old(self)
                &&& (r matches Ok(rec) && rec@ == cached)
            },
            lookup::<Species>(old(self).repository.species@, url@) is None ==> match r {
                Ok(rec) => species_become(
                    old(self).repository,
                    final(self).repository,
                    upsert::<Species>(old(self).repository.species@, rec@),
                ),
                Err(e) => {
                    &&& final(self).repository == old(self).repository
                    &&& (e is NetworkError || e is DeserializationError)
                },
            },
    {
        match self.repository.get_species(url.as_str()) {
            Some(item) => {
                return Ok(item);
            },
            None => {},
        }
        let rec = match self.fetch_url::<Species>(url) {
            Ok(x) => x,
            Err(e) => {
                return Err(e);
            },
        };
        self.repository.insert_species(&rec);
        Ok(rec)
    }
}

impl<C: HttpClient> ApiClient<C> {
    /// Fetches the starship collection.
    ///
    /// Unless bypassed, a non-empty cache answers immediately, sorted by
    /// URL and without a transport call; otherwise one page is fetched,
    /// decoded, and its records are upserted into the cache and returned
    /// in page order.  On any error the cache is left exactly as it was.
    pub fn fetch_starships(&mut self, ignore_cache: bool) -> (r: Result<Vec<Starship>, ApiError>)
        requires
            old(self).repository.wf(),
        ensures
            final(self).repository.wf(),
            !ignore_cache && old(self).repository.starships@.len() > 0 ==> {
                &&& *final(self) == *old(self)
                &&& (r matches Ok(list) && views(list@) == old(self).repository.starships@
                    && sorted_by_key::<Starship>(views(list@)))
            },
            ignore_cache || old(self).repository.starships@.len() == 0 ==> match r {
                Ok(list) => starships_become(
                    old(self).repository,
                    final(self).repository,
                    upsert_all::<Starship>(old(self).repository.starships@, views(list@)),
                ),
                Err(e) => {
                    &&& final(self).repository == old(self).repository
                    &&& (e is NetworkError || e is DeserializationError)
                },
            },
    {
        if !ignore_cache {
            match self.repository.get_starships() {
                Some(cached) => {
                    return Ok(cached);
                },
                None => {},
            }
        }
        let page = match self.fetch_page::<Starship>(Fetchable::Starships) {
            Ok(p) => p,
            Err(e) => {
                return Err(e);
            },
        };
        let envelope = Starships { count: page.0, next: page.1, previous: page.2, results: page.3 };
        let records = envelope.results;
        insert_all_records::<Starship>(&mut self.repository.starships, &records);
        Ok(records)
    }

    /// Fetches a single starship by URL.
    ///
    /// A cached record under `url` answers immediately without a transport
    /// call — item lookups always prefer the cache.  Otherwise the URL is
    /// fetched, decoded, upserted into the cache under its own canonical
    /// URL, and returned.  On any error the cache is left exactly as it
    /// was.
    pub fn fetch_starship(&mut self, url: String) -> (r: Result<Starship, ApiError>)
        requires
            old(self).repository.wf(),
        ensures
            final(self).repository.wf(),
            lookup::<Starship>(old(self).repository.starships@, url@) matches Some(cached) ==> {
                &&& *final(self) == *old(self)
                &&& (r matches Ok(rec) && rec@ == cached)
            },
            lookup::<Starship>(old(self).repository.starships@, url@) is None ==> match r {
                Ok(rec) => starships_become(
                    old(self).repository,
                    final(self).repository,
                    upsert::<Starship>(old(self).repository.starships@, rec@),
                ),
                Err(e) => {
                    &&& final(self).repository == old(self).repository
                    &&& (e is NetworkError || e is DeserializationError)
                },
            },
    {
        match self.repository.get_starship(url.as_str()) {
            Some(item) => {
                return Ok(item);
            },
            None => {},
        }
        let rec = match self.fetch_url::<Starship>(url) {
            Ok(x) => x,
            Err(e) => {
                return Err(e);
            },
        };
        self.repository.insert_starship(&rec);
        Ok(rec)
    }
}

impl<C: HttpClient> ApiClient<C> {
    /// Fetches the vehicle collection.
    ///
    /// Unless bypassed, a non-empty cache answers immediately, sorted by
    /// URL and without a transport call; otherwise one page is fetched,
    /// decoded, and its records are upserted into the cache and returned
    /// in page order.  On any error the cache is left exactly as it was.
    pub fn fetch_vehicles(&mut self, ignore_cache: bool) -> (r: Result<Vec<Vehicle>, ApiError>)
        requires
            old(self).repository.wf(),
        ensures
            final(self).repository.wf(),
            !ignore_cache && old(self).repository.vehicles@.len() > 0 ==> {
                &&& *final(self) == *old(self)
                &&& (r matches Ok(list) && views(list@) == old(self).repository.vehicles@
                    && sorted_by_key::<Vehicle>(views(list@)))
            },
            ignore_cache || old(self).repository.vehicles@.len() == 0 ==> match r {
                Ok(list) => vehicles_become(
                    old(self).repository,
                    final(self).repository,
                    upsert_all::<Vehicle>(old(self).repository.vehicles@, views(list@)),
                ),
                Err(e) => {
                    &&& final(self).repository == old(self).repository
                    &&& (e is NetworkError || e is DeserializationError)
                },
            },
    {
        if !ignore_cache {
            match self.repository.get_vehicles() {
                Some(cached) => {
                    return Ok(cached);
                },
                None => {},
            }
        }
        let page = match self.fetch_page::<Vehicle>(Fetchable::Vehicles) {
            Ok(p) => p,
            Err(e) => {
                return Err(e);
            },
        };
        let envelope = Vehicles { count: page.0, next: page.1, previous: page.2, results: page.3 };
        let records = envelope.results;
        insert_all_records::<Vehicle>(&mut self.repository.vehicles, &records);
        Ok(records)
    }

    /// Fetches a single vehicle by URL.
    ///
    /// A cached record under `url` answers immediately without a transport
    /// call — item lookups always prefer the cache.  Otherwise the URL is
    /// fetched, decoded, upserted into the cache under its own canonical
    /// URL, and returned.  On any error the cache is left exactly as it
    /// was.
    pub fn fetch_vehicle(&mut self, url: String) -> (r: Result<Vehicle, ApiError>)
        requires
            old(self).repository.wf(),
        ensures
            final(self).repository.wf(),
            lookup::<Vehicle>(old(self).repository.vehicles@, url@) matches Some(cached) ==> {
                &&& *final(self) == *old(self)
                &&& (r matches Ok(rec) && rec@ == cached)
            },
            lookup::<Vehicle>(old(self).repository.vehicles@, url@) is None ==> match r {
                Ok(rec) => vehicles_become(
                    old(self).repository,
                    final(self).repository,
                    upsert::<Vehicle>(old(self).repository.vehicles@, rec@),
                ),
                Err(e) => {
                    &&& final(self).repository == old(self).repository
                    &&& (e is NetworkError || e is DeserializationError)
                },
            },
    {
        match self.repository.get_vehicle(url.as_str()) {
            Some(item) => {
                return Ok(item);
            },
            None => {},
        }
        let rec = match self.fetch_url::<Vehicle>(url) {
            Ok(x) => x,
            Err(e) => {
                return Err(e);
            },
        };
        self.repository.insert_vehicle(&rec);
        Ok(rec)
    }
}

} // verus!
