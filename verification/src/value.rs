//! Plain values that travel between the data-access layer and the backend:
//! instants, column kinds and column values.

use vstd::prelude::*;

verus! {

/// Earliest second a [`Timestamp`] can hold: midnight of 1 January of the
/// proleptic year -262143.
pub const MIN_SECS: i64 = -8_334_601_228_800;

/// Latest second a [`Timestamp`] can hold: the last second of the year 262142.
pub const MAX_SECS: i64 = 8_210_266_876_799;

/// Nanoseconds in one second.
pub const NANOS_PER_SEC: u32 = 1_000_000_000;

/// Seconds in one day.
pub const SECS_PER_DAY: i64 = 86_400;

/// An instant in UTC: whole seconds since the Unix epoch and the nanoseconds
/// into that second. Every value lies in the range that `chrono` can hold.
#[derive(Clone, Copy, Debug, PartialEq, Eq, Hash)]
pub struct Timestamp {
    secs: i64,
    nanos: u32,
}

/// The text that `chrono` prints for the UTC instant `secs` seconds and
/// `nanos` nanoseconds after the Unix epoch.
pub uninterp spec fn utc_text(secs: int, nanos: int) -> Seq<char>;

/// Whether `secs` seconds and `nanos` nanoseconds after the Unix epoch is an
/// instant that a [`Timestamp`] can hold.
pub open spec fn instant_in_range(secs: int, nanos: int) -> bool {
    MIN_SECS <= secs <= MAX_SECS && 0 <= nanos < NANOS_PER_SEC
}

/// The last instant that a [`Timestamp`] can hold, as nanoseconds since the
/// Unix epoch.
pub open spec fn last_instant() -> int {
    MAX_SECS * (NANOS_PER_SEC as int) + (NANOS_PER_SEC as int) - 1
}

/// Reads the system clock through `chrono::Utc::now` and gives the seconds
/// and nanoseconds of the instant (`timestamp`, `timestamp_subsec_nanos`).
/// Which instant comes back is not known; `chrono` makes it from a count of
/// seconds since the Unix epoch and a count of nanoseconds below a second,
/// so it is in range and not before the epoch. `chrono` panics where the
/// system clock stands before 1970 or beyond its own range.
#[verifier::external_body]
fn utc_now() -> (r: (i64, u32))
    ensures
        instant_in_range(r.0 as int, r.1 as int),
        r.0 >= 0,
{
    let t = chrono::Utc::now();
    (t.timestamp(), t.timestamp_subsec_nanos())
}

/// Calls `chrono::DateTime::<Utc>::checked_add_days` on the instant made by
/// `DateTime::from_timestamp`. In UTC a day is 86 400 seconds, so the call
/// moves the instant by that many seconds per day and keeps the nanoseconds;
/// it gives `None` exactly when the moved instant would lie after the last
/// instant that `chrono` can hold.
#[verifier::external_body]
fn utc_add_days(secs: i64, nanos: u32, days: u64) -> (r: Option<(i64, u32)>)
    requires
        instant_in_range(secs as int, nanos as int),
    ensures
        match r {
            Some(moved) => moved.0 == secs + SECS_PER_DAY * days && moved.0 <= MAX_SECS && moved.1
                == nanos,
            None => secs + SECS_PER_DAY * days > MAX_SECS,
        },
{
    chrono::DateTime::from_timestamp(secs, nanos)
        .and_then(|d| d.checked_add_days(chrono::Days::new(days)))
        .map(|d| (d.timestamp(), d.timestamp_subsec_nanos()))
}

/// Prints the instant made by `DateTime::from_timestamp` with the `Display`
/// impl of `chrono::DateTime<Utc>`.
#[verifier::external_body]
fn utc_display(secs: i64, nanos: u32) -> (r: String)
    requires
        instant_in_range(secs as int, nanos as int),
    ensures
        r@ == utc_text(secs as int, nanos as int),
{
    chrono::DateTime::from_timestamp(secs, nanos).map(|d| d.to_string()).unwrap_or_default()
}

impl Timestamp {
    #[verifier::type_invariant]
    spec fn in_range(self) -> bool {
        instant_in_range(self.secs as int, self.nanos as int)
    }

    /// Whole seconds since the Unix epoch.
    pub closed spec fn spec_secs(self) -> int {
        self.secs as int
    }

    /// Nanoseconds into the second.
    pub closed spec fn spec_nanos(self) -> int {
        self.nanos as int
    }

    /// The instant as nanoseconds since the Unix epoch.
    pub open spec fn instant(self) -> int {
        self.spec_secs() * (NANOS_PER_SEC as int) + self.spec_nanos()
    }

    /// The timestamp of `secs` seconds and `nanos` nanoseconds after the Unix
    /// epoch, if that instant is in range.
    pub fn new(secs: i64, nanos: u32) -> (r: Option<Timestamp>)
        ensures
            match r {
                Some(t) => instant_in_range(secs as int, nanos as int) && t.spec_secs() == secs
                    && t.spec_nanos() == nanos,
                None => !instant_in_range(secs as int, nanos as int),
            },
    {
        if MIN_SECS <= secs && secs <= MAX_SECS && nanos < NANOS_PER_SEC {
            Some(Timestamp { secs, nanos })
        } else {
            None
        }
    }

    /// Whole seconds since the Unix epoch.
    pub fn secs(&self) -> (s: i64)
        ensures
            s == self.spec_secs(),
            MIN_SECS <= s <= MAX_SECS,
    {
        proof {
            use_type_invariant(self);
        }
        self.secs
    }

    /// Nanoseconds into the second.
    pub fn nanos(&self) -> (n: u32)
        ensures
            n == self.spec_nanos(),
            n < NANOS_PER_SEC,
    {
        proof {
            use_type_invariant(self);
        }
        self.nanos
    }

    /// Whether this instant lies strictly after `other`.
    pub fn is_after(&self, other: &Timestamp) -> (r: bool)
        ensures
            r == (self.instant() > other.instant()),
    {
        proof {
            use_type_invariant(self);
            use_type_invariant(other);
        }
        self.secs > other.secs || (self.secs == other.secs && self.nanos > other.nanos)
    }

    /// The current instant, as the system clock gives it. It is not before
    /// the Unix epoch.
    pub fn now() -> (t: Timestamp)
        ensures
            t.spec_secs() >= 0,
            instant_in_range(t.spec_secs(), t.spec_nanos()),
    {
        let (secs, nanos) = utc_now();
        Timestamp { secs, nanos }
    }

    /// The instant `days` days later, or `None` if that would lie after
    /// [`MAX_SECS`].
    pub fn checked_add_days(&self, days: u64) -> (r: Option<Timestamp>)
        ensures
            match r {
                Some(t) => {
                    &&& self.spec_secs() + SECS_PER_DAY * days <= MAX_SECS
                    &&& t.spec_secs() == self.spec_secs() + SECS_PER_DAY * days
                    &&& t.spec_nanos() == self.spec_nanos()
                },
                None => self.spec_secs() + SECS_PER_DAY * days > MAX_SECS,
            },
    {
        proof {
            use_type_invariant(self);
        }
        match utc_add_days(self.secs, self.nanos, days) {
            Some((secs, nanos)) => Some(Timestamp { secs, nanos }),
            None => None,
        }
    }

    /// The instant as text, in the form `2023-02-03 13:51:54.123456 UTC`.
    pub fn to_text(&self) -> (r: String)
        ensures
            r@ == utc_text(self.spec_secs(), self.spec_nanos()),
    {
        proof {
            use_type_invariant(self);
        }
        utc_display(self.secs, self.nanos)
    }
}

/// The kind of value that a column holds.
#[derive(Clone, Copy, Debug, PartialEq, Eq, Hash, Structural)]
pub enum SqlType {
    Int,
    Text,
    Timestamp,
}

/// One value bound to a statement or read from a row. A null carries the kind
/// of the column it stands in.
#[derive(Debug, PartialEq, Eq)]
pub enum SqlValue {
    Int(i32),
    Text(String),
    Timestamp(Timestamp),
    Null(SqlType),
}

/// What a [`SqlValue`] holds, with text as a sequence of characters.
pub ghost enum SqlValueView {
    Int(i32),
    Text(Seq<char>),
    Timestamp(Timestamp),
    Null(SqlType),
}

impl View for SqlValue {
    type V = SqlValueView;

    open spec fn view(&self) -> SqlValueView {
        match self {
            SqlValue::Int(i) => SqlValueView::Int(*i),
            SqlValue::Text(s) => SqlValueView::Text(s@),
            SqlValue::Timestamp(t) => SqlValueView::Timestamp(*t),
            SqlValue::Null(k) => SqlValueView::Null(*k),
        }
    }
}

impl Clone for SqlValue {
    fn clone(&self) -> (r: SqlValue)
        ensures
            r@ == self@,
    {
        match self {
            SqlValue::Int(i) => SqlValue::Int(*i),
            SqlValue::Text(s) => SqlValue::Text(s.clone()),
            SqlValue::Timestamp(t) => SqlValue::Timestamp(*t),
            SqlValue::Null(k) => SqlValue::Null(*k),
        }
    }
}

impl SqlValue {
    /// An integer, or a null of an integer column.
    pub fn from_opt_int(v: Option<i32>) -> (r: SqlValue)
        ensures
            r@ == (match v {
                Some(i) => SqlValueView::Int(i),
                None => SqlValueView::Null(SqlType::Int),
            }),
    {
        match v {
            Some(i) => SqlValue::Int(i),
            None => SqlValue::Null(SqlType::Int),
        }
    }

    /// A text, or a null of a text column.
    pub fn from_opt_text(v: Option<&str>) -> (r: SqlValue)
        ensures
            r@ == (match v {
                Some(s) => SqlValueView::Text(s@),
                None => SqlValueView::Null(SqlType::Text),
            }),
    {
        match v {
            Some(s) => SqlValue::Text(s.to_owned()),
            None => SqlValue::Null(SqlType::Text),
        }
    }

    /// An instant, or a null of a timestamp column.
    pub fn from_opt_timestamp(v: Option<Timestamp>) -> (r: SqlValue)
        ensures
            r@ == (match v {
                Some(t) => SqlValueView::Timestamp(t),
                None => SqlValueView::Null(SqlType::Timestamp),
            }),
    {
        match v {
            Some(t) => SqlValue::Timestamp(t),
            None => SqlValue::Null(SqlType::Timestamp),
        }
    }
}

/// The views of a sequence of values, in order.
pub open spec fn values_view(values: Seq<SqlValue>) -> Seq<SqlValueView> {
    values.map_values(|v: SqlValue| v@)
}

/// The characters of each name of a sequence, in order.
pub open spec fn names_view(names: Seq<&'static str>) -> Seq<Seq<char>> {
    names.map_values(|n: &'static str| n@)
}

/// Whether two string slices hold the same characters.
pub(crate) fn str_eq(a: &str, b: &str) -> (r: bool)
    ensures
        r == (a@ == b@),
{
    a.to_owned() == b.to_owned()
}

} // verus!
