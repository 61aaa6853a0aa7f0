//! The snapshot: the latest value of each facet of the dashboard's state.

use vstd::prelude::*;

verus! {

/// One of the three input sources, and the facet that it feeds.
#[derive(Clone, Copy, Debug, PartialEq, Eq, Structural)]
pub enum Source {
    /// The query log.
    Queries,
    /// The aggregate statistics.
    Statistics,
    /// The service status.
    Status,
}

/// A set of sources.
#[derive(Clone, Copy, Debug, PartialEq, Eq, Structural)]
pub struct Sources {
    pub queries: bool,
    pub statistics: bool,
    pub status: bool,
}

impl Sources {
    /// The three sources.
    pub open spec fn all_of() -> Sources {
        Sources { queries: true, statistics: true, status: true }
    }

    /// Whether `source` is in the set.
    pub open spec fn has(self, source: Source) -> bool {
        match source {
            Source::Queries => self.queries,
            Source::Statistics => self.statistics,
            Source::Status => self.status,
        }
    }

    /// The set without `source`.
    pub open spec fn without(self, source: Source) -> Sources {
        match source {
            Source::Queries => Sources { queries: false, ..self },
            Source::Statistics => Sources { statistics: false, ..self },
            Source::Status => Sources { status: false, ..self },
        }
    }

    /// Whether the set holds no source.
    pub open spec fn none_left(self) -> bool {
        !self.queries && !self.statistics && !self.status
    }

    /// The three sources.
    pub fn all() -> (sources: Sources)
        ensures
            sources == Sources::all_of(),
    {
        Sources { queries: true, statistics: true, status: true }
    }

    /// Whether `source` is in the set.
    pub fn contains(&self, source: Source) -> (found: bool)
        ensures
            found == self.has(source),
    {
        match source {
            Source::Queries => self.queries,
            Source::Statistics => self.statistics,
            Source::Status => self.status,
        }
    }

    /// Takes `source` out of the set.
    pub fn remove(&mut self, source: Source)
        ensures
            *final(self) == old(self).without(source),
    {
        match source {
            Source::Queries => {
                self.queries = false;
            },
            Source::Statistics => {
                self.statistics = false;
            },
            Source::Status => {
                self.status = false;
            },
        }
    }

    /// Whether the set holds no source.
    pub fn is_empty(&self) -> (empty: bool)
        ensures
            empty == self.none_left(),
    {
        !self.queries && !self.statistics && !self.status
    }
}

/// A value that one of the sources delivered: the whole new value of its
/// facet.
#[derive(Clone, Debug, PartialEq, Eq)]
pub enum Delivery<Q, S, T> {
    /// A query log.
    Queries(Q),
    /// Statistics.
    Statistics(S),
    /// A service status.
    Status(T),
}

impl<Q, S, T> Delivery<Q, S, T> {
    /// The source that delivered the value.
    pub open spec fn source_of(self) -> Source {
        match self {
            Delivery::Queries(_) => Source::Queries,
            Delivery::Statistics(_) => Source::Statistics,
            Delivery::Status(_) => Source::Status,
        }
    }

    /// The source that delivered the value.
    pub fn source(&self) -> (source: Source)
        ensures
            source == self.source_of(),
    {
        match self {
            Delivery::Queries(_) => Source::Queries,
            Delivery::Statistics(_) => Source::Statistics,
            Delivery::Status(_) => Source::Status,
        }
    }
}

/// The latest known value of each facet. A facet is absent until its source
/// has delivered for the first time.
#[derive(Clone, Debug, PartialEq, Eq)]
pub struct Snapshot<Q, S, T> {
    pub queries: Option<Q>,
    pub statistics: Option<S>,
    pub status: Option<T>,
}

impl<Q, S, T> Snapshot<Q, S, T> {
    /// The snapshot in which every facet is absent.
    pub open spec fn empty_of() -> Snapshot<Q, S, T> {
        Snapshot { queries: None, statistics: None, status: None }
    }

    /// Whether the facet fed by `source` is present.
    pub open spec fn has(self, source: Source) -> bool {
        match source {
            Source::Queries => self.queries is Some,
            Source::Statistics => self.statistics is Some,
            Source::Status => self.status is Some,
        }
    }

    /// Whether every facet is present.
    pub open spec fn complete(self) -> bool {
        self.queries is Some && self.statistics is Some && self.status is Some
    }

    /// The snapshot after `delivery`: the delivered value replaces its facet
    /// as a whole, and the other facets keep their values.
    pub open spec fn with(self, delivery: Delivery<Q, S, T>) -> Snapshot<Q, S, T> {
        match delivery {
            Delivery::Queries(queries) => Snapshot { queries: Some(queries), ..self },
            Delivery::Statistics(statistics) => Snapshot { statistics: Some(statistics), ..self },
            Delivery::Status(status) => Snapshot { status: Some(status), ..self },
        }
    }

    /// Whether two snapshots hold the same value, or both none, in the facet
    /// fed by `source`.
    pub open spec fn same_facet(self, other: Snapshot<Q, S, T>, source: Source) -> bool {
        match source {
            Source::Queries => self.queries == other.queries,
            Source::Statistics => self.statistics == other.statistics,
            Source::Status => self.status == other.status,
        }
    }

    /// The snapshot in which every facet is absent.
    pub fn empty() -> (snapshot: Snapshot<Q, S, T>)
        ensures
            snapshot == Snapshot::<Q, S, T>::empty_of(),
    {
        Snapshot { queries: None, statistics: None, status: None }
    }

    /// Whether the facet fed by `source` is present.
    pub fn is_present(&self, source: Source) -> (present: bool)
        ensures
            present == self.has(source),
    {
        match source {
            Source::Queries => self.queries.is_some(),
            Source::Statistics => self.statistics.is_some(),
            Source::Status => self.status.is_some(),
        }
    }

    /// Whether every facet is present.
    pub fn is_complete(&self) -> (complete: bool)
        ensures
            complete == self.complete(),
    {
        self.queries.is_some() && self.statistics.is_some() && self.status.is_some()
    }

    /// Stores a delivered value in its facet.
    pub fn store(&mut self, delivery: Delivery<Q, S, T>)
        ensures
            *final(self) == old(self).with(delivery),
    {
        match delivery {
            Delivery::Queries(queries) => {
                self.queries = Some(queries);
            },
            Delivery::Statistics(statistics) => {
                self.statistics = Some(statistics);
            },
            Delivery::Status(status) => {
                self.status = Some(status);
            },
        }
    }

    /// The three facets, where all of them are present.
    pub fn facets(&self) -> (facets: Option<(&Q, &S, &T)>)
        ensures
            facets is Some <==> self.complete(),
            facets matches Some((queries, statistics, status)) ==> {
                &&& self.queries == Some(*queries)
                &&& self.statistics == Some(*statistics)
                &&& self.status == Some(*status)
            },
    {
        match (&self.queries, &self.statistics, &self.status) {
            (Some(queries), Some(statistics), Some(status)) => Some((queries, statistics, status)),
            _ => None,
        }
    }
}

} // verus!
