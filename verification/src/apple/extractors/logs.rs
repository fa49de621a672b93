use vstd::prelude::*;

verus! {

/// The log lines that a device sends.
#[derive(Debug, PartialEq, Eq)]
pub struct Logs {
    pub logs: Vec<String>,
}

} // verus!
