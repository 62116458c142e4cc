//! Logging levels.

use vstd::prelude::*;
use vstd::string::StringExecFns;
use crate::apis::text::str_eq;

verus! {
/// How much the device logs.
#[derive(Clone, Copy, Debug, PartialEq, Eq, Structural, PartialOrd, Ord, Hash)]
pub enum LogLevel {
    Debug,
    Info,
    Warning,
    Error,
}

impl LogLevel {
    /// The name of the value in the API's JSON and in messages.
    pub open spec fn wire_name(self) -> Seq<char> {
        match self {
            LogLevel::Debug => "Debug"@,
            LogLevel::Info => "Info"@,
            LogLevel::Warning => "Warning"@,
            LogLevel::Error => "Error"@,
        }
    }

    /// The value whose name is `name`, if there is one.
    pub open spec fn from_wire_name(name: Seq<char>) -> Option<LogLevel> {
        if name == "Debug"@ {
            Some(LogLevel::Debug)
        } else if name == "Info"@ {
            Some(LogLevel::Info)
        } else if name == "Warning"@ {
            Some(LogLevel::Warning)
        } else if name == "Error"@ {
            Some(LogLevel::Error)
        } else {
            None
        }
    }

    /// The name of the value.
    pub fn to_string(&self) -> (r: String)
        ensures
            r@ == self.wire_name(),
    {
        match self {
            LogLevel::Debug => String::from_str("Debug"),
            LogLevel::Info => String::from_str("Info"),
            LogLevel::Warning => String::from_str("Warning"),
            LogLevel::Error => String::from_str("Error"),
        }
    }

    /// The value named `name`; `None` when no value has that name.
    pub fn from_name(name: &str) -> (r: Option<LogLevel>)
        ensures
            r == LogLevel::from_wire_name(name@),
    {
        if str_eq(name, "Debug") {
            Some(LogLevel::Debug)
        } else if str_eq(name, "Info") {
            Some(LogLevel::Info)
        } else if str_eq(name, "Warning") {
            Some(LogLevel::Warning)
        } else if str_eq(name, "Error") {
            Some(LogLevel::Error)
        } else {
            None
        }
    }
}

/// Every value is read back from its name: the names of the values are
/// pairwise distinct, so `from_name` undoes `to_string`.
pub proof fn lemma_log_level_name_roundtrip(v: LogLevel)
    ensures
        LogLevel::from_wire_name(v.wire_name()) == Some(v),
{
    reveal_strlit("Debug");
    reveal_strlit("Info");
    reveal_strlit("Warning");
    reveal_strlit("Error");
    assert("Debug"@.len() == 5);
    assert("Info"@.len() == 4);
    assert("Warning"@.len() == 7);
    assert("Error"@.len() == 5);
    assert("Error"@[0] != "Debug"@[0]);
}

/// A name is read only as the value that has that name.
pub proof fn lemma_log_level_name_read_back(name: Seq<char>)
    ensures
        LogLevel::from_wire_name(name) matches Some(v) ==> v.wire_name() == name,
{
}

impl Default for LogLevel {
    fn default() -> (r: Self)
        ensures
            r == LogLevel::Debug,
    {
        LogLevel::Debug
    }
}

} // verus!
