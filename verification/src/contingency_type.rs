//! The contingency relationship between the orders of a list.

use vstd::prelude::*;

verus! {

#[derive(Clone, Copy, Debug, PartialEq, Eq, Structural)]
pub enum ContingencyType {
    Oco,
    Oto,
    NullVal,
}

/// The wire byte each `ContingencyType` value is encoded as.
pub open spec fn contingency_type_to_byte(v: ContingencyType) -> u8 {
    match v {
        ContingencyType::Oco => 1,
        ContingencyType::Oto => 2,
        ContingencyType::NullVal => 255,
    }
}

/// The `ContingencyType` value a wire byte decodes to; an unrecognized byte
/// maps to the reserved null value, never to a failure.
pub open spec fn contingency_type_from_byte(b: u8) -> ContingencyType {
    if b == 1 {
        ContingencyType::Oco
    } else if b == 2 {
        ContingencyType::Oto
    } else {
        ContingencyType::NullVal
    }
}

impl ContingencyType {
    /// The byte this value is encoded as.
    pub fn value(self) -> (r: u8)
        ensures
            r == contingency_type_to_byte(self),
    {
        match self {
            ContingencyType::Oco => 1,
            ContingencyType::Oto => 2,
            ContingencyType::NullVal => 255,
        }
    }
}

impl From<u8> for ContingencyType {
    fn from(v: u8) -> (r: ContingencyType) {
        if v == 1 {
            ContingencyType::Oco
        } else if v == 2 {
            ContingencyType::Oto
        } else {
            ContingencyType::NullVal
        }
    }
}

impl vstd::std_specs::convert::FromSpecImpl<u8> for ContingencyType {
    open spec fn obeys_from_spec() -> bool {
        true
    }

    open spec fn from_spec(v: u8) -> ContingencyType {
        contingency_type_from_byte(v)
    }
}

impl Default for ContingencyType {
    fn default() -> (r: ContingencyType)
        ensures
            r == ContingencyType::NullVal,
    {
        ContingencyType::NullVal
    }
}
} // verus!
