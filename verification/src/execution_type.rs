//! The execution event kind reported for an order.

use vstd::prelude::*;

verus! {

#[derive(Clone, Copy, Debug, PartialEq, Eq, Structural)]
pub enum ExecutionType {
    New,
    Canceled,
    Replaced,
    Rejected,
    Trade,
    Expired,
    TradePrevention,
    Unknown,
    NullVal,
}

/// The wire byte each `ExecutionType` value is encoded as.
pub open spec fn execution_type_to_byte(v: ExecutionType) -> u8 {
    match v {
        ExecutionType::New => 0,
        ExecutionType::Canceled => 1,
        ExecutionType::Replaced => 2,
        ExecutionType::Rejected => 3,
        ExecutionType::Trade => 4,
        ExecutionType::Expired => 5,
        ExecutionType::TradePrevention => 8,
        ExecutionType::Unknown => 254,
        ExecutionType::NullVal => 255,
    }
}

/// The `ExecutionType` value a wire byte decodes to; an unrecognized byte
/// maps to the reserved null value, never to a failure.
pub open spec fn execution_type_from_byte(b: u8) -> ExecutionType {
    if b == 0 {
        ExecutionType::New
    } else if b == 1 {
        ExecutionType::Canceled
    } else if b == 2 {
        ExecutionType::Replaced
    } else if b == 3 {
        ExecutionType::Rejected
    } else if b == 4 {
        ExecutionType::Trade
    } else if b == 5 {
        ExecutionType::Expired
    } else if b == 8 {
        ExecutionType::TradePrevention
    } else if b == 254 {
        ExecutionType::Unknown
    } else {
        ExecutionType::NullVal
    }
}

impl ExecutionType {
    /// The byte this value is encoded as.
    pub fn value(self) -> (r: u8)
        ensures
            r == execution_type_to_byte(self),
    {
        match self {
            ExecutionType::New => 0,
            ExecutionType::Canceled => 1,
            ExecutionType::Replaced => 2,
            ExecutionType::Rejected => 3,
            ExecutionType::Trade => 4,
            ExecutionType::Expired => 5,
            ExecutionType::TradePrevention => 8,
            ExecutionType::Unknown => 254,
            ExecutionType::NullVal => 255,
        }
    }
}

impl From<u8> for ExecutionType {
    fn from(v: u8) -> (r: ExecutionType) {
        if v == 0 {
            ExecutionType::New
        } else if v == 1 {
            ExecutionType::Canceled
        } else if v == 2 {
            ExecutionType::Replaced
        } else if v == 3 {
            ExecutionType::Rejected
        } else if v == 4 {
            ExecutionType::Trade
        } else if v == 5 {
            ExecutionType::Expired
        } else if v == 8 {
            ExecutionType::TradePrevention
        } else if v == 254 {
            ExecutionType::Unknown
        } else {
            ExecutionType::NullVal
        }
    }
}

impl vstd::std_specs::convert::FromSpecImpl<u8> for ExecutionType {
    open spec fn obeys_from_spec() -> bool {
        true
    }

    open spec fn from_spec(v: u8) -> ExecutionType {
        execution_type_from_byte(v)
    }
}

impl Default for ExecutionType {
    fn default() -> (r: ExecutionType)
        ensures
            r == ExecutionType::NullVal,
    {
        ExecutionType::NullVal
    }
}
} // verus!
