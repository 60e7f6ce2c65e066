//! Deferred relations: an association is attached to its owner unloaded and
//! is filled at most once, with data of the shape its multiplicity fixes.

use crate::attributes::{Entity, Queryable};
use vstd::prelude::*;

verus! {

/// How many related records an association yields. It is fixed when the
/// association is made.
#[derive(Clone, Copy, Debug, PartialEq, Eq, Structural)]
pub enum Multiplicity {
    Many,
    One,
}

/// The loaded payload: no record, one record, or any number of them in the
/// order of the read.
#[derive(Debug, PartialEq, Eq)]
pub enum Data<T> {
    Empty,
    One(T),
    Many(Vec<T>),
}

/// The load state of an association.
#[derive(Debug, PartialEq, Eq)]
pub enum Loadable<T> {
    Loaded(Data<T>),
    NotLoaded,
}

impl<T> Loadable<T> {
    /// Whether data has been stored.
    pub fn is_loaded(&self) -> (r: bool)
        ensures
            r == (self is Loaded),
    {
        match self {
            Loadable::Loaded(_) => true,
            Loadable::NotLoaded => false,
        }
    }

    /// The stored data. Only a loaded value has any.
    pub fn unwrap_to_inner_ref(&self) -> (d: &Data<T>)
        requires
            self is Loaded,
        ensures
            *self == Loadable::Loaded(*d),
    {
        match self {
            Loadable::Loaded(t) => t,
            Loadable::NotLoaded => vstd::pervasive::unreached(),
        }
    }
}

impl<T> Data<T> {
    /// The records of a payload of many, `None` for no payload. A payload of
    /// one has no such reading.
    pub fn unwrap_option_many(&self) -> (r: Option<&[T]>)
        requires
            !(self is One),
        ensures
            match r {
                Some(s) => *self matches Data::Many(v) && s@ == v@,
                None => *self is Empty,
            },
    {
        match self {
            Data::Empty => None,
            Data::Many(d) => Some(d.as_slice()),
            Data::One(_) => vstd::pervasive::unreached(),
        }
    }

    /// The record of a payload of one, `None` for no payload. A payload of
    /// many has no such reading.
    pub fn unwrap_option_one(&self) -> (r: Option<&T>)
        requires
            !(self is Many),
        ensures
            match r {
                Some(t) => *self == Data::One(*t),
                None => *self is Empty,
            },
    {
        match self {
            Data::Empty => None,
            Data::One(d) => Some(d),
            Data::Many(_) => vstd::pervasive::unreached(),
        }
    }
}

/// Whether a payload has the shape that a multiplicity asks for: at most one
/// record for `One`, a sequence of records for `Many`.
pub open spec fn fits<T>(data: Data<T>, multiplicity: Multiplicity) -> bool {
    match multiplicity {
        Multiplicity::Many => data is Many,
        Multiplicity::One => !(data is Many),
    }
}

/// The state of an association after it was handed `data`: an unloaded
/// association takes a payload of its shape; in every other case nothing
/// changes.
pub open spec fn after_load<T>(
    state: Loadable<T>,
    multiplicity: Multiplicity,
    data: Loadable<T>,
) -> Loadable<T> {
    match (state, data) {
        (Loadable::NotLoaded, Loadable::Loaded(d)) => if fits(d, multiplicity) {
            data
        } else {
            state
        },
        _ => state,
    }
}

/// The side of an association that the repository works with: the read that
/// fills it, its multiplicity, and a place to put the data.
pub trait AssociationLoader<T: Entity> {
    type Query: Queryable<Output = T::Record>;

    /// The read that fills the association.
    open spec fn spec_query(&self) -> Self::Query {
        arbitrary()
    }

    /// The multiplicity fixed at construction.
    open spec fn spec_multiplicity(&self) -> Multiplicity {
        arbitrary()
    }

    /// The load state.
    open spec fn loadable(&self) -> Loadable<T> {
        arbitrary()
    }

    fn query(&self) -> (q: &Self::Query)
        ensures
            *q == self.spec_query(),
    ;

    fn multiplicity(&self) -> (m: Multiplicity)
        ensures
            m == self.spec_multiplicity(),
    ;

    /// Whether data has been stored. No backend is asked.
    fn is_loaded(&self) -> (r: bool)
        ensures
            r == (self.loadable() is Loaded),
    ;

    /// Hands the association its data. An unloaded association takes a
    /// payload of its shape; otherwise nothing changes. Neither the read nor
    /// the multiplicity ever changes.
    fn load(&mut self, data: Loadable<T>)
        ensures
            final(self).loadable() == after_load(
                old(self).loadable(),
                old(self).spec_multiplicity(),
                data,
            ),
            final(self).spec_multiplicity() == old(self).spec_multiplicity(),
            final(self).spec_query() == old(self).spec_query(),
    ;
}

/// The side of an association that its owner works with.
pub trait Association<'a, T: Entity + 'a>: AssociationLoader<T> + PartialEq + Eq {
    type Unwrapped;

    /// The loaded data. Asking before the association is loaded is an error
    /// of the caller's.
    fn unwrap(&'a self) -> Self::Unwrapped
        requires
            self.loadable() is Loaded,
    ;
}

/// A one-to-many association of `T`, filled by the read `Q`.
#[derive(Debug, PartialEq, Eq)]
pub struct HasMany<T: Entity, Q: Queryable<Output = T::Record>> {
    data: Loadable<T>,
    load_query: Q,
}

impl<T: Entity, Q: Queryable<Output = T::Record>> HasMany<T, Q> {
    #[verifier::type_invariant]
    spec fn shaped(self) -> bool {
        match self.data {
            Loadable::NotLoaded => true,
            Loadable::Loaded(d) => d is Many,
        }
    }

    /// The association that is not loaded and will be filled by `load_query`.
    pub closed spec fn unloaded(load_query: Q) -> Self {
        HasMany { data: Loadable::NotLoaded, load_query }
    }

    /// An unloaded association has no data, and its read is the one it was
    /// made with.
    pub proof fn lemma_unloaded(load_query: Q)
        ensures
            Self::unloaded(load_query).loadable() is NotLoaded,
            Self::unloaded(load_query).spec_query() == load_query,
    {
    }

    /// An association that is not loaded and will be filled by `load_query`.
    pub fn new(load_query: Q) -> (r: Self)
        ensures
            r == Self::unloaded(load_query),
            r.loadable() is NotLoaded,
            r.spec_query() == load_query,
    {
        HasMany { data: Loadable::NotLoaded, load_query }
    }

    /// The loaded records, in the order of the read.
    pub open spec fn records(self) -> Seq<T>
        recommends
            self.loadable() is Loaded,
    {
        match self.loadable() {
            Loadable::Loaded(Data::Many(v)) => v@,
            _ => Seq::empty(),
        }
    }
}

impl<T: Entity, Q: Queryable<Output = T::Record>> AssociationLoader<T> for HasMany<T, Q> {
    type Query = Q;

    closed spec fn spec_query(&self) -> Q {
        self.load_query
    }

    open spec fn spec_multiplicity(&self) -> Multiplicity {
        Multiplicity::Many
    }

    closed spec fn loadable(&self) -> Loadable<T> {
        self.data
    }

    fn query(&self) -> (q: &Q) {
        &self.load_query
    }

    fn multiplicity(&self) -> (m: Multiplicity) {
        Multiplicity::Many
    }

    fn is_loaded(&self) -> (r: bool) {
        self.data.is_loaded()
    }

    fn load(&mut self, data: Loadable<T>) {
        let take = match (&self.data, &data) {
            (Loadable::NotLoaded, Loadable::Loaded(Data::Many(_))) => true,
            _ => false,
        };
        if take {
            self.data = data;
        }
    }
}

impl<
    'a,
    T: Entity + PartialEq + Eq + 'a,
    Q: Queryable<Output = T::Record> + PartialEq + Eq,
> Association<'a, T> for HasMany<T, Q> {
    type Unwrapped = &'a [T];

    fn unwrap(&'a self) -> (r: &'a [T])
        ensures
            r@ == self.records(),
    {
        proof {
            use_type_invariant(self);
        }
        match self.data.unwrap_to_inner_ref().unwrap_option_many() {
            Some(records) => records,
            None => vstd::pervasive::unreached(),
        }
    }
}

/// A one-to-one association of `T`, filled by the read `Q`.
#[derive(Debug, PartialEq, Eq)]
pub struct HasOne<T: Entity, Q: Queryable<Output = T::Record>> {
    data: Loadable<T>,
    load_query: Q,
}

impl<T: Entity, Q: Queryable<Output = T::Record>> HasOne<T, Q> {
    #[verifier::type_invariant]
    spec fn shaped(self) -> bool {
        match self.data {
            Loadable::NotLoaded => true,
            Loadable::Loaded(d) => !(d is Many),
        }
    }

    /// The association that is not loaded and will be filled by `load_query`.
    pub closed spec fn unloaded(load_query: Q) -> Self {
        HasOne { data: Loadable::NotLoaded, load_query }
    }

    /// An association that is not loaded and will be filled by `load_query`.
    pub fn new(load_query: Q) -> (r: Self)
        ensures
            r == Self::unloaded(load_query),
            r.loadable() is NotLoaded,
            r.spec_query() == load_query,
    {
        HasOne { data: Loadable::NotLoaded, load_query }
    }

    /// The loaded record, if there is one.
    pub open spec fn record(self) -> Option<T>
        recommends
            self.loadable() is Loaded,
    {
        match self.loadable() {
            Loadable::Loaded(Data::One(t)) => Some(t),
            _ => None,
        }
    }
}

impl<T: Entity, Q: Queryable<Output = T::Record>> AssociationLoader<T> for HasOne<T, Q> {
    type Query = Q;

    closed spec fn spec_query(&self) -> Q {
        self.load_query
    }

    open spec fn spec_multiplicity(&self) -> Multiplicity {
        Multiplicity::One
    }

    closed spec fn loadable(&self) -> Loadable<T> {
        self.data
    }

    fn query(&self) -> (q: &Q) {
        &self.load_query
    }

    fn multiplicity(&self) -> (m: Multiplicity) {
        Multiplicity::One
    }

    fn is_loaded(&self) -> (r: bool) {
        self.data.is_loaded()
    }

    fn load(&mut self, data: Loadable<T>) {
        let take = match (&self.data, &data) {
            (Loadable::NotLoaded, Loadable::Loaded(Data::One(_))) => true,
            (Loadable::NotLoaded, Loadable::Loaded(Data::Empty)) => true,
            _ => false,
        };
        if take {
            self.data = data;
        }
    }
}

impl<
    'a,
    T: Entity + PartialEq + Eq + 'a,
    Q: Queryable<Output = T::Record> + PartialEq + Eq,
> Association<'a, T> for HasOne<T, Q> {
    type Unwrapped = Option<&'a T>;

    fn unwrap(&'a self) -> (r: Option<&'a T>)
        ensures
            match r {
                Some(t) => self.record() == Some(*t),
                None => self.record() is None,
            },
    {
        proof {
            use_type_invariant(self);
        }
        self.data.unwrap_to_inner_ref().unwrap_option_one()
    }
}

} // verus!
