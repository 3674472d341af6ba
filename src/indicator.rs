use vstd::prelude::*;

verus! {

/// Indicator value reporting that the value retrieved is NULL.
pub const SQL_NULL_DATA: i64 = -1;

/// Indicator value reporting that the driver can not tell how much data is available.
pub const SQL_NO_TOTAL: i64 = -4;

/// Used to indicate the required target buffer length.
#[derive(Debug, Clone, Copy, PartialEq, Eq, Structural)]
pub enum Indicator {
    /// The length required to hold all the data.
    Length(i64),
    /// Driver does not know how much data is available.
    NoTotal,
    /// The value to be retrieved is NULL.
    Null,
}

impl Indicator {
    /// What the length-or-indicator value `source` written by the native layer stands for.
    pub open spec fn of(source: i64) -> Indicator {
        if source == SQL_NO_TOTAL {
            Indicator::NoTotal
        } else if source == SQL_NULL_DATA {
            Indicator::Null
        } else {
            Indicator::Length(source)
        }
    }
}

impl From<i64> for Indicator {
    fn from(source: i64) -> (r: Indicator)
        ensures
            r == Indicator::of(source),
    {
        if source == SQL_NO_TOTAL {
            Indicator::NoTotal
        } else if source == SQL_NULL_DATA {
            Indicator::Null
        } else {
            Indicator::Length(source)
        }
    }
}

impl vstd::std_specs::convert::FromSpecImpl<i64> for Indicator {
    open spec fn obeys_from_spec() -> bool {
        true
    }

    open spec fn from_spec(v: i64) -> Indicator {
        Indicator::of(v)
    }
}

} // verus!
