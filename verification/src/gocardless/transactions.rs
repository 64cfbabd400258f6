//! Transactions as the provider reports them, and the date and instant that
//! stand for one in bucketing and ordering.

use crate::calendar::{can_begin, midnight_in_zone, zone_midnight, Date, Timestamp};
use vstd::prelude::*;

verus! {

/// A JSON value; opaque here. It carries the fields of a record that this
/// library does not read.
#[verifier::external_type_specification]
#[verifier::external_body]
pub struct ExJsonValue(serde_json::Value);

/// One transaction. Every field the provider may leave out is optional;
/// `other` holds every field not named here, untouched.
#[derive(Debug)]
pub struct Transaction {
    pub booking_date: Option<Date>,
    pub booking_date_time: Option<Timestamp>,
    pub value_date: Option<Date>,
    pub value_date_time: Option<Timestamp>,
    pub transaction_id: Option<String>,
    pub internal_transaction_id: Option<String>,
    pub other: serde_json::Value,
}

/// The two lists in which the provider returns an account's transactions.
#[derive(Debug)]
pub struct TransactionsInner {
    pub booked: Vec<Transaction>,
    pub pending: Vec<Transaction>,
}

/// The provider's answer to a transactions query.
#[derive(Debug)]
pub struct Transactions {
    pub transactions: TransactionsInner,
}

/// The range of dates a transactions query asks for, both ends included.
#[derive(Clone, Copy, Debug, PartialEq, Eq, Structural)]
pub struct TransactionsQuery {
    pub date_from: Date,
    pub date_to: Date,
}

/// A date whose first instant the reference time zone does not fix: its
/// midnight is skipped or repeated there.
#[derive(Clone, Copy, Debug, PartialEq, Eq, Structural)]
pub struct NoLocalMidnight {
    pub date: Date,
}

impl Transaction {
    /// Whether every date and instant present is well formed.
    pub open spec fn wf(self) -> bool {
        &&& self.booking_date matches Some(d) ==> d.wf()
        &&& self.booking_date_time matches Some(t) ==> t.wf()
        &&& self.value_date matches Some(d) ==> d.wf()
        &&& self.value_date_time matches Some(t) ==> t.wf()
    }

    /// The date that stands for this transaction: the booking date, else the
    /// date of the booking instant, else the value date. A value instant
    /// alone does not date a transaction.
    pub open spec fn best_effort_date(self) -> Option<Date> {
        if self.booking_date is Some {
            self.booking_date
        } else if self.booking_date_time is Some {
            Some(self.booking_date_time->0.date)
        } else {
            self.value_date
        }
    }

    /// The instant that stands for this transaction, given the instants at
    /// which its booking date and its value date begin in the reference time
    /// zone: the booking instant, else the start of the booking date, else
    /// the value instant, else the start of the value date.
    pub open spec fn best_effort_timestamp(
        self,
        booking_midnight: Option<Timestamp>,
        value_midnight: Option<Timestamp>,
    ) -> Option<Timestamp> {
        if self.booking_date_time is Some {
            self.booking_date_time
        } else if self.booking_date is Some {
            booking_midnight
        } else if self.value_date_time is Some {
            self.value_date_time
        } else if self.value_date is Some {
            value_midnight
        } else {
            None
        }
    }

    /// The date whose first instant in the reference time zone stands for
    /// this transaction, where a date decides and not an instant.
    pub open spec fn deciding_date(self) -> Option<Date> {
        if self.booking_date_time is Some {
            None
        } else if self.booking_date is Some {
            self.booking_date
        } else if self.value_date_time is Some {
            None
        } else {
            self.value_date
        }
    }

    /// The instant that stands for this transaction where no date decides.
    pub open spec fn own_timestamp(self) -> Option<Timestamp> {
        if self.booking_date_time is Some {
            self.booking_date_time
        } else if self.booking_date is Some {
            None
        } else {
            self.value_date_time
        }
    }

    /// Whether `t` can stand for this transaction: where no date decides it
    /// is [`Self::own_timestamp`]; where one does it is an instant at which
    /// that date can begin, which one being left to the time zone.
    pub open spec fn admits_timestamp(self, t: Option<Timestamp>) -> bool {
        match self.deciding_date() {
            None => t == self.own_timestamp(),
            Some(date) => t matches Some(at) && can_begin(date, at),
        }
    }

    /// The instant that stands for this transaction, with dates taken at
    /// their first instant in `zone`: its own instant where no date decides;
    /// else the instant at which the deciding date begins in the zone; and
    /// the error that names that date where the zone has no single such
    /// instant.
    pub open spec fn timestamp_in(self, zone: tzfile::Tz) -> Result<
        Option<Timestamp>,
        NoLocalMidnight,
    > {
        match self.deciding_date() {
            None => Ok(self.own_timestamp()),
            Some(date) => match zone_midnight(zone, date) {
                Some(t) => Ok(Some(t)),
                None => Err(NoLocalMidnight { date }),
            },
        }
    }

    /// The date that stands for this transaction, if any of its fields gives one.
    pub fn date_best_effort(&self) -> (r: Option<Date>)
        ensures
            r == self.best_effort_date(),
            self.wf() ==> (r matches Some(d) ==> d.wf()),
    {
        match self.booking_date {
            Some(d) => Some(d),
            None => match self.booking_date_time {
                Some(t) => Some(t.date),
                None => self.value_date,
            },
        }
    }

    /// The instant that stands for this transaction, once the starts of its
    /// two dates in the reference time zone are known.
    pub fn timestamp_from_midnights(
        &self,
        booking_midnight: Option<Timestamp>,
        value_midnight: Option<Timestamp>,
    ) -> (r: Option<Timestamp>)
        ensures
            r == self.best_effort_timestamp(booking_midnight, value_midnight),
    {
        if self.booking_date_time.is_some() {
            self.booking_date_time
        } else if self.booking_date.is_some() {
            booking_midnight
        } else if self.value_date_time.is_some() {
            self.value_date_time
        } else if self.value_date.is_some() {
            value_midnight
        } else {
            None
        }
    }

    /// The instant that stands for this transaction, with dates taken at
    /// their first instant in `zone`.
    ///
    /// A booking or value instant is returned as it is, in the order of
    /// [`Self::best_effort_timestamp`]. Where a date decides, the result is
    /// the instant the zone gives for its midnight, or the error naming that
    /// date where the zone gives none or two.
    pub fn timestamp_best_effort(&self, zone: &tzfile::Tz) -> (r: Result<
        Option<Timestamp>,
        NoLocalMidnight,
    >)
        ensures
            r == self.timestamp_in(*zone),
            r matches Ok(t) ==> self.admits_timestamp(t),
    {
        let midnight = match self.deciding() {
            Some(date) => match midnight_in_zone(zone, &date) {
                Some(t) => Some(t),
                None => { return Err(NoLocalMidnight { date }); },
            },
            None => None,
        };
        Ok(self.timestamp_from_midnights(midnight, midnight))
    }

    /// The date whose first instant stands for this transaction, where a
    /// date decides.
    pub fn deciding(&self) -> (r: Option<Date>)
        ensures
            r == self.deciding_date(),
    {
        if self.booking_date_time.is_some() {
            None
        } else if self.booking_date.is_some() {
            self.booking_date
        } else if self.value_date_time.is_some() {
            None
        } else {
            self.value_date
        }
    }
}

/// Two transactions whose instant the same date decides get the same
/// instant in one zone, or fail alike.
pub proof fn one_date_has_one_instant(a: Transaction, b: Transaction, zone: tzfile::Tz)
    requires
        a.deciding_date() is Some,
        a.deciding_date() == b.deciding_date(),
    ensures
        a.timestamp_in(zone) == b.timestamp_in(zone),
{
}

/// The instant chosen from the four fields agrees with the split into a
/// deciding date and an instant of the transaction's own: where no date
/// decides, the choice does not depend on any midnight; where one does, the
/// choice is the midnight given for that date.
pub proof fn timestamp_choice_agrees(
    t: Transaction,
    booking_midnight: Option<Timestamp>,
    value_midnight: Option<Timestamp>,
)
    ensures
        t.deciding_date() is None ==> t.best_effort_timestamp(booking_midnight, value_midnight)
            == t.own_timestamp(),
        t.deciding_date() is Some && t.deciding_date() == t.booking_date
            && t.booking_date_time is None ==> t.best_effort_timestamp(
            booking_midnight,
            value_midnight,
        ) == booking_midnight,
        t.deciding_date() is Some && t.booking_date is None ==> t.best_effort_timestamp(
            booking_midnight,
            value_midnight,
        ) == value_midnight,
{
}

} // verus!
