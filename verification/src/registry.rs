//! The registry of script records: how it grows, shrinks and starts out.
//!
//! The registry lives in a file that this library never touches. Every
//! function here works on the records as they were read and gives back the
//! records to write.

use crate::outside::{
    all_ascii_alphanumeric, parent_of, path_parent, random_alphanumeric, random_below, utc_now,
};
use crate::record::{registry_view, RunPy, RunPyView, Timestamp};
use vstd::prelude::*;
use vstd::string::*;

verus! {

/// Why the registry, or the interpreter, could not be used. Each variant
/// carries what the failing operation reported.
#[derive(Clone, Debug, PartialEq, Eq)]
pub enum Error {
    /// The registry file could not be read or written.
    ReadDBError(String),
    /// The registry file does not hold a list of records.
    ParseDBError(String),
    /// The interpreter could not be started.
    SpawnError(String),
}

/// The line that reports an error to the operator.
pub open spec fn error_text(error: Error) -> Seq<char> {
    match error {
        Error::ReadDBError(detail) => "error reading the DB file: "@ + detail@,
        Error::ParseDBError(detail) => "error parsing the DB file: "@ + detail@,
        Error::SpawnError(detail) => "error starting the interpreter: "@ + detail@,
    }
}

impl Error {
    /// The line that reports this error to the operator.
    pub fn message(&self) -> (text: String)
        ensures
            text@ == error_text(*self),
    {
        match self {
            Error::ReadDBError(detail) => {
                String::from_str("error reading the DB file: ").concat(detail.as_str())
            },
            Error::ParseDBError(detail) => {
                String::from_str("error parsing the DB file: ").concat(detail.as_str())
            },
            Error::SpawnError(detail) => {
                String::from_str("error starting the interpreter: ").concat(detail.as_str())
            },
        }
    }
}

/// The record that a fresh registry starts with, made at `now`.
pub open spec fn default_record(now: Timestamp) -> RunPyView {
    RunPyView {
        id: 1,
        label: "init description"@,
        target: "default_script.py"@,
        created_at: now,
    }
}

/// A registry that holds the default record and nothing else.
pub open spec fn is_fresh_registry(records: Seq<RunPy>) -> bool {
    records.len() == 1 && records[0]@ == default_record(records[0].created_at)
}

/// The record that the draws `tag`, `pick` and `id` describe: the description
/// carries the tag, and the file is a fixed name when `pick` is zero and a
/// name made from the tag otherwise.
pub open spec fn random_record(tag: Seq<char>, pick: nat, id: nat, now: Timestamp) -> RunPyView {
    RunPyView {
        id,
        label: "mock$ "@ + tag,
        target: if pick == 0 {
            "script.py"@
        } else {
            "Rand_"@ + tag + ".py"@
        },
        created_at: now,
    }
}

/// A record that some admissible draws describe: a tag of five ASCII letters
/// or digits, a pick of zero or one, a number below 99.
pub open spec fn is_random_record(record: RunPyView) -> bool {
    exists|tag: Seq<char>, pick: nat|
        {
            &&& tag.len() == 5
            &&& all_ascii_alphanumeric(tag)
            &&& pick < 2
            &&& record.id < 99
            &&& record == #[trigger] random_record(tag, pick, record.id, record.created_at)
        }
}

/// Adds `record` at the end of the registry.
pub fn append(registry: &mut Vec<RunPy>, record: RunPy)
    ensures
        final(registry)@ == old(registry)@.push(record),
{
    registry.push(record);
}

/// Takes the record at `index` out of the registry, unless that would leave
/// the registry empty or `index` names no record; the registry is then left
/// as it was. Tells whether a record was taken out.
pub fn remove_at(registry: &mut Vec<RunPy>, index: usize) -> (removed: bool)
    ensures
        removed <==> (old(registry)@.len() > 1 && index < old(registry)@.len()),
        removed ==> final(registry)@ == old(registry)@.remove(index as int),
        !removed ==> final(registry)@ == old(registry)@,
        old(registry)@.len() > 0 ==> final(registry)@.len() > 0,
{
    if registry.len() > 1 && index < registry.len() {
        registry.remove(index);
        true
    } else {
        false
    }
}

/// The records that a fresh registry holds: the default record, made at
/// `now`.
pub fn build_seeds(now: Timestamp) -> (seeds: Vec<RunPy>)
    ensures
        registry_view(seeds@) == seq![default_record(now)],
        is_fresh_registry(seeds@),
{
    let mut seeds: Vec<RunPy> = Vec::new();
    seeds.push(
        RunPy::new(
            1,
            String::from_str("init description"),
            String::from_str("default_script.py"),
            now,
        ),
    );
    assert(registry_view(seeds@) =~= seq![default_record(now)]);
    seeds
}

/// The directory to use, given the directory part of a path: that part,
/// and `./data` where the path has none.
pub open spec fn directory_or(parent: Option<Seq<char>>) -> Seq<char> {
    match parent {
        Some(directory) => directory,
        None => "./data"@,
    }
}

/// The directory that holds the file at `path`: the path's directory part,
/// and `./data` for a path that has none.
pub open spec fn directory_of(path: Seq<char>) -> Seq<char> {
    directory_or(path_parent(path))
}

/// What to create for a registry that is not there yet.
#[derive(Clone, Debug, PartialEq, Eq)]
pub struct SeedPlan {
    /// The directory to create, with those above it. Empty where the file
    /// stands in the working directory.
    pub directory: String,
    /// The records to write into the file.
    pub records: Vec<RunPy>,
}

impl SeedPlan {
    /// Whether there is a directory to create: not so where the path of the
    /// registry file has an empty directory part.
    pub fn needs_directory(&self) -> (needed: bool)
        ensures
            needed == (self.directory@.len() > 0),
    {
        !self.directory.as_str().is_empty()
    }
}

/// The directory to use, given the directory part of a path if it has one:
/// that part, and `./data` where there is none.
pub fn directory_or_default(parent: Option<String>) -> (directory: String)
    ensures
        directory@ == directory_or(
            match parent {
                Some(part) => Some(part@),
                None => None,
            },
        ),
{
    match parent {
        Some(directory) => directory,
        None => String::from_str("./data"),
    }
}

/// The directory that holds the file at `file_path`.
pub fn get_directory_from_path(file_path: &str) -> (directory: String)
    ensures
        directory@ == directory_of(file_path@),
{
    directory_or_default(parent_of(file_path))
}

/// What to do about the registry file at `db_p` when the program starts:
/// nothing if the file is there; if it is not, create its directory and
/// write a fresh registry, stamped with the current time.
pub fn seed_database(db_p: &str, db_exists: bool) -> (plan: Option<SeedPlan>)
    ensures
        db_exists ==> plan is None,
        !db_exists ==> {
            &&& plan matches Some(seeding)
            &&& seeding.directory@ == directory_of(db_p@)
            &&& is_fresh_registry(seeding.records@)
        },
{
    if db_exists {
        None
    } else {
        Some(SeedPlan { directory: get_directory_from_path(db_p), records: build_seeds(utc_now()) })
    }
}

/// What to write when the operator asks for the registry to be started
/// over: a fresh registry stamped with the current time, whatever the file
/// held.
pub fn overwrite_json() -> (seeds: Vec<RunPy>)
    ensures
        is_fresh_registry(seeds@),
{
    build_seeds(utc_now())
}

/// The record that the draws describe.
pub fn random_script(tag: &str, pick: usize, id: usize, now: Timestamp) -> (record: RunPy)
    ensures
        record@ == random_record(tag@, pick as nat, id as nat, now),
{
    let label = String::from_str("mock$ ").concat(tag);
    let target = if pick == 0 {
        String::from_str("script.py")
    } else {
        String::from_str("Rand_").concat(tag).concat(".py")
    };
    RunPy::new(id, label, target, now)
}

/// Draws a record and adds it at the end of the registry. The records that
/// were there stay as they are, in their order.
pub fn add_random_script_to_db(registry: Vec<RunPy>) -> (grown: Vec<RunPy>)
    ensures
        grown@.len() == registry@.len() + 1,
        grown@.drop_last() == registry@,
        is_random_record(grown@.last()@),
{
    let mut grown = registry;
    let tag = random_alphanumeric(5);
    let pick = random_below(2);
    let id = random_below(99);
    let record = random_script(tag.as_str(), pick, id, utc_now());
    proof {
        assert(record@ == random_record(tag@, pick as nat, record@.id, record@.created_at));
        assert(is_random_record(record@));
    }
    append(&mut grown, record);
    assert(grown@.drop_last() =~= registry@);
    grown
}

/// A record added to the registry becomes its last record: the registry is
/// one record longer, and the records before it are those that were there.
pub proof fn lemma_append_puts_record_last(records: Seq<RunPy>, record: RunPy)
    ensures
        records.push(record).len() == records.len() + 1,
        records.push(record).last() == record,
        records.push(record).drop_last() == records,
{
    assert(records.push(record).drop_last() =~= records);
}

/// Taking a record out leaves the registry one record shorter and without
/// that record only: the records before it stay in place, those after it
/// move up by one.
pub proof fn lemma_removal_excludes_one_record(records: Seq<RunPy>, index: int)
    requires
        0 <= index < records.len(),
    ensures
        records.remove(index).len() == records.len() - 1,
        forall|i: int| 0 <= i < index ==> records.remove(index)[i] == records[i],
        forall|i: int| index <= i < records.len() - 1 ==> records.remove(index)[i] == records[i + 1],
{
}

} // verus!
