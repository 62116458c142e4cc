//! The operating state of the device.

use vstd::prelude::*;
use vstd::string::StringExecFns;
use crate::apis::text::str_eq;

verus! {
/// The state the device is in.
#[derive(Clone, Copy, Debug, PartialEq, Eq, Structural, PartialOrd, Ord, Hash)]
pub enum SystemState {
    Unprovisioned,
    Locked,
    Operational,
}

impl SystemState {
    /// The name of the value in the API's JSON and in messages.
    pub open spec fn wire_name(self) -> Seq<char> {
        match self {
            SystemState::Unprovisioned => "Unprovisioned"@,
            SystemState::Locked => "Locked"@,
            SystemState::Operational => "Operational"@,
        }
    }

    /// The value whose name is `name`, if there is one.
    pub open spec fn from_wire_name(name: Seq<char>) -> Option<SystemState> {
        if name == "Unprovisioned"@ {
            Some(SystemState::Unprovisioned)
        } else if name == "Locked"@ {
            Some(SystemState::Locked)
        } else if name == "Operational"@ {
            Some(SystemState::Operational)
        } else {
            None
        }
    }

    /// The name of the value.
    pub fn to_string(&self) -> (r: String)
        ensures
            r@ == self.wire_name(),
    {
        match self {
            SystemState::Unprovisioned => String::from_str("Unprovisioned"),
            SystemState::Locked => String::from_str("Locked"),
            SystemState::Operational => String::from_str("Operational"),
        }
    }

    /// The value named `name`; `None` when no value has that name.
    pub fn from_name(name: &str) -> (r: Option<SystemState>)
        ensures
            r == SystemState::from_wire_name(name@),
    {
        if str_eq(name, "Unprovisioned") {
            Some(SystemState::Unprovisioned)
        } else if str_eq(name, "Locked") {
            Some(SystemState::Locked)
        } else if str_eq(name, "Operational") {
            Some(SystemState::Operational)
        } else {
            None
        }
    }
}

/// Every value is read back from its name: the names of the values are
/// pairwise distinct, so `from_name` undoes `to_string`.
pub proof fn lemma_system_state_name_roundtrip(v: SystemState)
    ensures
        SystemState::from_wire_name(v.wire_name()) == Some(v),
{
    reveal_strlit("Unprovisioned");
    reveal_strlit("Locked");
    reveal_strlit("Operational");
    assert("Unprovisioned"@.len() == 13);
    assert("Locked"@.len() == 6);
    assert("Operational"@.len() == 11);
}

/// A name is read only as the value that has that name.
pub proof fn lemma_system_state_name_read_back(name: Seq<char>)
    ensures
        SystemState::from_wire_name(name) matches Some(v) ==> v.wire_name() == name,
{
}

impl Default for SystemState {
    fn default() -> (r: Self)
        ensures
            r == SystemState::Unprovisioned,
    {
        SystemState::Unprovisioned
    }
}

} // verus!
