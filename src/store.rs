use vstd::prelude::*;
use crate::task::{Task, texts};
use crate::codec::{
    decode_tasks, decoded, encode_tasks, encoded, json_records, record_text, DecodeError,
};
use crate::text::{decimal, push_decimal};

verus! {

/// What became of the attempt to read the storage file.
pub enum StoredFile {
    /// There is no file yet: the first run.
    Missing,
    /// The file exists but could not be opened; the system's description.
    OpenFailed(String),
    /// The file was opened but could not be read as text; the system's description.
    ReadFailed(String),
    /// The file's text.
    Contents(String),
}

/// The tasks to work on, and the line to report on the error channel, if any.
pub struct Loaded {
    pub tasks: Vec<Task>,
    pub report: Option<String>,
}

pub open spec fn open_failed_prefix() -> Seq<char> {
    "Error opening file: "@
}

pub open spec fn read_failed_prefix() -> Seq<char> {
    "Failed to read file: "@
}

pub open spec fn decode_failed_prefix() -> Seq<char> {
    "Failed to deserialize "@
}

pub open spec fn missing_field_message(index: nat) -> Seq<char> {
    decode_failed_prefix() + "missing field `text` in task "@ + decimal(index)
}

/// Turns what was read from storage into the task list. Every failure is
/// reported and then treated as an empty list; a missing file is the silent
/// first-run case.
pub fn load_tasks(stored: StoredFile) -> (r: Loaded)
    ensures
        stored is Missing ==> r.tasks@.len() == 0 && r.report is None,
        stored matches StoredFile::OpenFailed(e) ==> r.tasks@.len() == 0 && r.report.deep_view()
            == Some(open_failed_prefix() + e@),
        stored matches StoredFile::ReadFailed(e) ==> r.tasks@.len() == 0 && r.report.deep_view()
            == Some(read_failed_prefix() + e@),
        stored matches StoredFile::Contents(s) ==> match decoded(s@) {
            Some(ts) => texts(r.tasks@) == ts && r.report is None,
            None => r.tasks@.len() == 0 && (r.report matches Some(m)
                && m@.len() >= decode_failed_prefix().len()
                && m@.subrange(0, decode_failed_prefix().len() as int) == decode_failed_prefix())
                && (json_records(s@) matches Some(recs) ==> exists|i: nat| {
                    &&& i < recs.len()
                    &&& record_text(recs[i as int]) is None
                    &&& forall|j: int| 0 <= j < i ==> (#[trigger] record_text(recs[j])) is Some
                    &&& r.report.deep_view() == Some(#[trigger] missing_field_message(i))
                }),
        },
{
    match stored {
        StoredFile::Missing => Loaded { tasks: Vec::new(), report: None },
        StoredFile::OpenFailed(e) => {
            let mut m = String::from_str("Error opening file: ");
            m.append(e.as_str());
            Loaded { tasks: Vec::new(), report: Some(m) }
        },
        StoredFile::ReadFailed(e) => {
            let mut m = String::from_str("Failed to read file: ");
            m.append(e.as_str());
            Loaded { tasks: Vec::new(), report: Some(m) }
        },
        StoredFile::Contents(s) => match decode_tasks(s.as_str()) {
            Ok(tasks) => Loaded { tasks, report: None },
            Err(DecodeError::Syntax(d)) => {
                let mut m = String::from_str("Failed to deserialize ");
                m.append(d.as_str());
                assert(m@.subrange(0, decode_failed_prefix().len() as int) =~= decode_failed_prefix());
                Loaded { tasks: Vec::new(), report: Some(m) }
            },
            Err(DecodeError::MissingText(i)) => {
                let m = missing_field_text(i);
                assert(m@.subrange(0, decode_failed_prefix().len() as int) =~= decode_failed_prefix());
                Loaded { tasks: Vec::new(), report: Some(m) }
            },
        },
    }
}

fn missing_field_text(index: usize) -> (r: String)
    ensures
        r@ == missing_field_message(index as nat),
{
    let mut m = String::from_str("Failed to deserialize ");
    m.append("missing field `text` in task ");
    push_decimal(&mut m, index);
    m
}

/// The text to write to storage for the tasks: the whole file, replaced.
pub fn save_text(tasks: &Vec<Task>) -> (r: String)
    ensures
        r@ == encoded(texts(tasks@)),
{
    encode_tasks(tasks)
}

/// Why the storage file could not be written.
pub enum SaveFault {
    /// The file could not be created; the system's description.
    Create(String),
    /// Writing failed partway; the system's description.
    Write(String),
}

pub open spec fn create_failed_prefix() -> Seq<char> {
    "Failed to create file: "@
}

pub open spec fn write_failed_prefix() -> Seq<char> {
    "Failed to write file: "@
}

/// The line reported when saving failed.
pub fn save_fault_message(fault: &SaveFault) -> (r: String)
    ensures
        fault matches SaveFault::Create(e) ==> r@ == create_failed_prefix() + e@,
        fault matches SaveFault::Write(e) ==> r@ == write_failed_prefix() + e@,
{
    match fault {
        SaveFault::Create(e) => {
            let mut m = String::from_str("Failed to create file: ");
            m.append(e.as_str());
            m
        },
        SaveFault::Write(e) => {
            let mut m = String::from_str("Failed to write file: ");
            m.append(e.as_str());
            m
        },
    }
}

} // verus!
