//! CIF schedule data as NROD delivers it: the days a schedule runs, and the
//! small enumerations and records of the schedule feed.

use vstd::prelude::*;
use crate::time::Time;

verus! {

/// Whether a record creates or deletes an entry.
#[derive(Clone, Copy, Debug, PartialEq, Eq, Structural)]
pub enum CreateOrDelete {
    Create,
    Delete,
}

impl CreateOrDelete {
    pub fn is_create(&self) -> (res: bool)
        ensures
            res == (*self == CreateOrDelete::Create),
    {
        match self {
            CreateOrDelete::Create => true,
            CreateOrDelete::Delete => false,
        }
    }

    pub fn is_delete(&self) -> (res: bool)
        ensures
            res == (*self == CreateOrDelete::Delete),
    {
        match self {
            CreateOrDelete::Create => false,
            CreateOrDelete::Delete => true,
        }
    }
}

/// The days of the week on which a schedule runs.
#[derive(Clone, Copy, Debug, PartialEq, Eq, Structural)]
pub struct Days {
    pub mon: bool,
    pub tue: bool,
    pub wed: bool,
    pub thu: bool,
    pub fri: bool,
    pub sat: bool,
    pub sun: bool,
}

impl Default for Days {
    fn default() -> (res: Self)
        ensures
            res == (Days { mon: false, tue: false, wed: false, thu: false, fri: false, sat: false, sun: false }),
    {
        Days { mon: false, tue: false, wed: false, thu: false, fri: false, sat: false, sun: false }
    }
}

/// Whether the schedule runs on ISO weekday `wd` (1 is Monday, 7 is
/// Sunday); no answer for any other number.
pub open spec fn spec_value_for_iso_weekday(d: Days, wd: u32) -> Option<bool> {
    if wd == 1 {
        Some(d.mon)
    } else if wd == 2 {
        Some(d.tue)
    } else if wd == 3 {
        Some(d.wed)
    } else if wd == 4 {
        Some(d.thu)
    } else if wd == 5 {
        Some(d.fri)
    } else if wd == 6 {
        Some(d.sat)
    } else if wd == 7 {
        Some(d.sun)
    } else {
        None
    }
}

/// The running days in the order of the ISO week, Monday first.
pub open spec fn iso_week(d: Days) -> Seq<bool> {
    seq![d.mon, d.tue, d.wed, d.thu, d.fri, d.sat, d.sun]
}

/// ISO weekdays count from Monday as 1: weekday `wd` answers with the
/// `wd`-th flag of the week, Monday first and Sunday last.
pub proof fn lemma_iso_weekday_counts_from_monday(d: Days, wd: u32)
    requires
        1 <= wd <= 7,
    ensures
        spec_value_for_iso_weekday(d, wd) == Some(iso_week(d)[wd - 1]),
{
}

impl Days {
    /// Whether the schedule runs on the given ISO weekday.
    pub fn value_for_iso_weekday(&self, wd: u32) -> (res: Option<bool>)
        ensures
            res == spec_value_for_iso_weekday(*self, wd),
            res is Some <==> 1 <= wd <= 7,
            wd == 1 ==> res == Some(self.mon),
            wd == 2 ==> res == Some(self.tue),
            wd == 3 ==> res == Some(self.wed),
            wd == 4 ==> res == Some(self.thu),
            wd == 5 ==> res == Some(self.fri),
            wd == 6 ==> res == Some(self.sat),
            wd == 7 ==> res == Some(self.sun),
    {
        match wd {
            1 => Some(self.mon),
            2 => Some(self.tue),
            3 => Some(self.wed),
            4 => Some(self.thu),
            5 => Some(self.fri),
            6 => Some(self.sat),
            7 => Some(self.sun),
            _ => None,
        }
    }

    /// The SQL that creates the composite type `Days` in the database, if
    /// it does not exist yet.
    pub fn create_type() -> (res: &'static str)
        ensures
            res@ == DAYS_TYPE_SQL@,
    {
        DAYS_TYPE_SQL
    }
}

/// The SQL that creates the `Days` type.
pub const DAYS_TYPE_SQL: &'static str = r#"
DO $$
BEGIN
IF NOT EXISTS (SELECT 1 FROM pg_type WHERE typname = 'Days') THEN
CREATE TYPE "Days" AS (
mon BOOL,
tue BOOL,
wed BOOL,
thu BOOL,
fri BOOL,
sat BOOL,
sun BOOL
);
END IF;
END$$;"#;

/// A yes or no flag; yes unless given.
#[derive(Clone, Copy, Debug, PartialEq, Eq, Structural)]
pub enum YesOrNo {
    Y,
    N,
}

impl Default for YesOrNo {
    fn default() -> (res: Self)
        ensures
            res == YesOrNo::Y,
    {
        YesOrNo::Y
    }
}

impl YesOrNo {
    pub fn is_y(&self) -> (res: bool)
        ensures
            res == (*self == YesOrNo::Y),
    {
        match self {
            YesOrNo::Y => true,
            YesOrNo::N => false,
        }
    }

    pub fn is_n(&self) -> (res: bool)
        ensures
            res == (*self == YesOrNo::N),
    {
        match self {
            YesOrNo::Y => false,
            YesOrNo::N => true,
        }
    }
}

/// The kind of a schedule location record (`LO`, `LI`, `LT`).
#[derive(Clone, Copy, Debug, PartialEq, Eq, Structural)]
pub enum RecordIdentity {
    Originating,
    Intermediate,
    Terminating,
}

impl RecordIdentity {
    pub fn is_originating(&self) -> (res: bool)
        ensures
            res == (*self == RecordIdentity::Originating),
    {
        match self {
            RecordIdentity::Originating => true,
            _ => false,
        }
    }

    pub fn is_intermediate(&self) -> (res: bool)
        ensures
            res == (*self == RecordIdentity::Intermediate),
    {
        match self {
            RecordIdentity::Intermediate => true,
            _ => false,
        }
    }

    pub fn is_terminating(&self) -> (res: bool)
        ensures
            res == (*self == RecordIdentity::Terminating),
    {
        match self {
            RecordIdentity::Terminating => true,
            _ => false,
        }
    }
}

/// How two trains of an association relate (`JJ`, `VV`, `NP`, blank).
#[derive(Clone, Copy, Debug, PartialEq, Eq, Structural)]
pub enum AssociationType {
    Join,
    Divide,
    Next,
    /// No association type given (a blank field).
    NoAssociation,
}

impl AssociationType {
    pub fn is_join(&self) -> (res: bool)
        ensures
            res == (*self == AssociationType::Join),
    {
        match self {
            AssociationType::Join => true,
            _ => false,
        }
    }

    pub fn is_divide(&self) -> (res: bool)
        ensures
            res == (*self == AssociationType::Divide),
    {
        match self {
            AssociationType::Divide => true,
            _ => false,
        }
    }

    pub fn is_next(&self) -> (res: bool)
        ensures
            res == (*self == AssociationType::Next),
    {
        match self {
            AssociationType::Next => true,
            _ => false,
        }
    }

    pub fn is_none(&self) -> (res: bool)
        ensures
            res == (*self == AssociationType::NoAssociation),
    {
        match self {
            AssociationType::NoAssociation => true,
            _ => false,
        }
    }
}

/// On which day an association applies relative to the main train
/// (`S`, `N`, `P`).
#[derive(Clone, Copy, Debug, PartialEq, Eq, Structural)]
pub enum DateIndicator {
    Standard,
    NextMidnight,
    PrevMidnight,
}

impl DateIndicator {
    pub fn is_standard(&self) -> (res: bool)
        ensures
            res == (*self == DateIndicator::Standard),
    {
        match self {
            DateIndicator::Standard => true,
            _ => false,
        }
    }

    pub fn is_next_midnight(&self) -> (res: bool)
        ensures
            res == (*self == DateIndicator::NextMidnight),
    {
        match self {
            DateIndicator::NextMidnight => true,
            _ => false,
        }
    }

    pub fn is_prev_midnight(&self) -> (res: bool)
        ensures
            res == (*self == DateIndicator::PrevMidnight),
    {
        match self {
            DateIndicator::PrevMidnight => true,
            _ => false,
        }
    }
}

/// The sender of a timetable file.
#[derive(Clone, Debug)]
pub struct Sender {
    pub organisation: String,
    pub application: String,
    pub component: String,
}

/// The type and sequence number of a timetable file.
#[derive(Clone, Debug)]
pub struct TimetableMetadata {
    pub ty: String,
    pub sequence: u32,
}

/// The header record of a timetable file.
#[derive(Clone, Debug)]
pub struct TimetableRecord {
    pub classification: String,
    pub timestamp: u32,
    pub owner: String,
    pub sender: Sender,
    pub metadata: TimetableMetadata,
}

/// A TIPLOC insert, amend or delete.
#[derive(Clone, Debug)]
pub struct TiplocRecord {
    pub transaction_type: CreateOrDelete,
    pub tiploc_code: String,
    pub nalco: Option<String>,
    pub stanox: Option<String>,
    pub crs_code: Option<String>,
    pub description: Option<String>,
    pub tps_description: Option<String>,
}

/// The `LO` marker of an originating location.
#[derive(Clone, Copy, Debug, PartialEq, Eq, Structural)]
pub enum OriginatingLocation {
    Originating,
}

/// The `LI` marker of an intermediate location.
#[derive(Clone, Copy, Debug, PartialEq, Eq, Structural)]
pub enum IntermediateLocation {
    Intermediate,
}

/// The `LT` marker of a terminating location.
#[derive(Clone, Copy, Debug, PartialEq, Eq, Structural)]
pub enum TerminatingLocation {
    Terminating,
}

/// One location of a schedule: where the train starts, calls, passes or
/// terminates, with its working and public times.
#[derive(Clone, Debug)]
pub enum LocationRecord {
    Originating {
        record_identity: OriginatingLocation,
        tiploc_code: String,
        departure: Time,
        public_departure: Option<Time>,
        platform: Option<String>,
        line: Option<String>,
        engineering_allowance: Option<String>,
        pathing_allowance: Option<String>,
        performance_allowance: Option<String>,
    },
    Intermediate {
        record_identity: IntermediateLocation,
        tiploc_code: String,
        arrival: Time,
        departure: Time,
        public_arrival: Option<Time>,
        public_departure: Option<Time>,
        platform: Option<String>,
        line: Option<String>,
        path: Option<String>,
        engineering_allowance: Option<String>,
        pathing_allowance: Option<String>,
        performance_allowance: Option<String>,
    },
    Pass {
        record_identity: IntermediateLocation,
        tiploc_code: String,
        pass: Time,
        engineering_allowance: Option<String>,
        pathing_allowance: Option<String>,
        performance_allowance: Option<String>,
    },
    Terminating {
        record_identity: TerminatingLocation,
        tiploc_code: String,
        arrival: Time,
        public_arrival: Option<Time>,
        platform: Option<String>,
        path: Option<String>,
    },
}

impl LocationRecord {
    pub fn is_originating(&self) -> (res: bool)
        ensures
            res == (*self is Originating),
    {
        match self {
            LocationRecord::Originating { .. } => true,
            _ => false,
        }
    }

    pub fn is_intermediate(&self) -> (res: bool)
        ensures
            res == (*self is Intermediate),
    {
        match self {
            LocationRecord::Intermediate { .. } => true,
            _ => false,
        }
    }

    pub fn is_pass(&self) -> (res: bool)
        ensures
            res == (*self is Pass),
    {
        match self {
            LocationRecord::Pass { .. } => true,
            _ => false,
        }
    }

    pub fn is_terminating(&self) -> (res: bool)
        ensures
            res == (*self is Terminating),
    {
        match self {
            LocationRecord::Terminating { .. } => true,
            _ => false,
        }
    }
}

} // verus!
