//! Script records, the entries of the registry.

use vstd::prelude::*;

verus! {

/// A moment in UTC: whole seconds since the start of 1970 and the nanoseconds
/// past that second.
#[derive(Clone, Copy, Debug, PartialEq, Eq, Structural)]
pub struct Timestamp {
    pub secs: i64,
    pub nanos: u32,
}

/// One runnable script: a number, a description, the file to run and the
/// moment the record was made. Nothing is checked when a record is made; the
/// numbers of two records may coincide and the file need not exist.
#[derive(Clone, Debug, PartialEq, Eq)]
pub struct RunPy {
    pub id: usize,
    pub label: String,
    pub target: String,
    pub created_at: Timestamp,
}

/// What a record says, with its texts as sequences of characters.
pub struct RunPyView {
    pub id: nat,
    pub label: Seq<char>,
    pub target: Seq<char>,
    pub created_at: Timestamp,
}

impl View for RunPy {
    type V = RunPyView;

    open spec fn view(&self) -> RunPyView {
        RunPyView {
            id: self.id as nat,
            label: self.label@,
            target: self.target@,
            created_at: self.created_at,
        }
    }
}

/// What the records of a registry say, in the registry's order.
pub open spec fn registry_view(records: Seq<RunPy>) -> Seq<RunPyView> {
    Seq::new(records.len(), |i: int| records[i]@)
}

impl RunPy {
    /// A record with the given contents.
    pub fn new(id: usize, label: String, target: String, created_at: Timestamp) -> (record: Self)
        ensures
            record@ == (RunPyView {
                id: id as nat,
                label: label@,
                target: target@,
                created_at,
            }),
    {
        RunPy { id, label, target, created_at }
    }
}

} // verus!
