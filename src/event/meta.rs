use vstd::prelude::*;

verus! {

/// An event about the connection itself (a heartbeat, the connector
/// starting or stopping), named by its kind.
#[derive(Clone, Debug, PartialEq, Default)]
pub struct MetaEvent {
    pub kind: String,
    pub detail: Option<String>,
}

} // verus!
