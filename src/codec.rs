use vstd::prelude::*;
use crate::task::{Task, texts};

verus! {

#[verifier::external_type_specification]
#[verifier::external_body]
pub struct ExJsonError(serde_json::Error);

/// The JSON text that serde_json writes for a string: the characters in
/// double quotes, escaped where JSON asks for it.
pub uninterp spec fn json_quoted(s: Seq<char>) -> Seq<char>;

/// Relies on `serde_json::to_string` applied to a `str`: the quoted and
/// escaped text, which depends on the characters alone. Serialising a string
/// into serde_json's in-memory buffer has no way to fail.
#[verifier::external_body]
fn quote(s: &str) -> (r: Result<String, serde_json::Error>)
    ensures
        r is Ok,
        r matches Ok(q) ==> q@ == json_quoted(s@),
{
    serde_json::to_string(s)
}

/// The records that serde_json reads from a JSON text that is an array of
/// objects with string values, each record the object's entries in key order;
/// `None` for any other text.
pub uninterp spec fn json_records(s: Seq<char>) -> Option<Seq<Seq<(Seq<char>, Seq<char>)>>>;

/// Relies on `serde_json::from_str` into a vector of `BTreeMap<String, String>`:
/// it succeeds exactly on the texts that hold such an array, and what it reads
/// depends on the text alone.
#[verifier::external_body]
fn parse_records(s: &str) -> (r: Result<Vec<Vec<(String, String)>>, serde_json::Error>)
    ensures
        r is Ok <==> json_records(s@) is Some,
        r matches Ok(v) ==> v.deep_view() == json_records(s@)->0,
{
    serde_json::from_str::<Vec<std::collections::BTreeMap<String, String>>>(s).map(
        |v| v.into_iter().map(|m| m.into_iter().collect()).collect(),
    )
}

/// Relies on the `Display` text of `serde_json::Error`, which says what was
/// wrong with the input and where.
#[verifier::external_body]
fn error_description(e: &serde_json::Error) -> String {
    e.to_string()
}

/// The key under which a record keeps its task's text.
pub open spec fn text_key() -> Seq<char> {
    "text"@
}

/// The value of the first entry of the record whose key is `text`.
pub open spec fn record_text(rec: Seq<(Seq<char>, Seq<char>)>) -> Option<Seq<char>>
    decreases rec.len(),
{
    if rec.len() == 0 {
        None
    } else if rec[0].0 == text_key() {
        Some(rec[0].1)
    } else {
        record_text(rec.drop_first())
    }
}

/// The texts of the records, when every record has one.
pub open spec fn records_texts(recs: Seq<Seq<(Seq<char>, Seq<char>)>>) -> Option<Seq<Seq<char>>> {
    if forall|i: int| 0 <= i < recs.len() ==> (#[trigger] record_text(recs[i])) is Some {
        Some(Seq::new(recs.len(), |i: int| record_text(recs[i])->0))
    } else {
        None
    }
}

/// The task texts that a stored JSON text holds, if it holds a list of tasks.
pub open spec fn decoded(s: Seq<char>) -> Option<Seq<Seq<char>>> {
    match json_records(s) {
        Some(recs) => records_texts(recs),
        None => None,
    }
}

/// The JSON array of one-field objects `{"text":q}`, for already quoted texts.
pub open spec fn framed(qs: Seq<Seq<char>>) -> Seq<char> {
    "["@ + framed_items(qs) + "]"@
}

pub open spec fn framed_item(q: Seq<char>) -> Seq<char> {
    "{\"text\":"@ + q + "}"@
}

/// The objects of `framed`, separated by commas.
pub open spec fn framed_items(qs: Seq<Seq<char>>) -> Seq<char>
    decreases qs.len(),
{
    if qs.len() == 0 {
        Seq::empty()
    } else if qs.len() == 1 {
        framed_item(qs[0])
    } else {
        framed_items(qs.drop_last()) + ","@ + framed_item(qs.last())
    }
}

/// The JSON text under which task texts are stored.
pub open spec fn encoded(ts: Seq<Seq<char>>) -> Seq<char> {
    framed(ts.map_values(|t: Seq<char>| json_quoted(t)))
}

/// The records of the stored form: one record per task, holding only its text.
pub open spec fn text_records(ts: Seq<Seq<char>>) -> Seq<Seq<(Seq<char>, Seq<char>)>> {
    ts.map_values(|t: Seq<char>| seq![(text_key(), t)])
}

/// Reading back the records that hold one `text` entry per task gives the
/// task texts again, in the same order.
pub proof fn lemma_text_records_read_back(ts: Seq<Seq<char>>)
    ensures
        records_texts(text_records(ts)) == Some(ts),
{
    let recs = text_records(ts);
    assert forall|i: int| 0 <= i < recs.len() implies (#[trigger] record_text(recs[i])) == Some(ts[i]) by {
        assert(recs[i][0].0 == text_key());
    }
    assert(Seq::new(recs.len(), |i: int| record_text(recs[i])->0) =~= ts);
}

/// Why a stored text does not hold a list of tasks.
pub enum DecodeError {
    /// The text is not a JSON array of objects with string values; serde_json's
    /// description of the fault.
    Syntax(String),
    /// The record at this 0-based index has no `text` entry.
    MissingText(usize),
}

fn find_text(rec: &Vec<(String, String)>) -> (r: Option<String>)
    ensures
        r.deep_view() == record_text(rec.deep_view()),
{
    let key = String::from_str("text");
    let mut i: usize = 0;
    assert(rec.deep_view().subrange(0, rec.len() as int) =~= rec.deep_view());
    while i < rec.len()
        invariant
            key@ == text_key(),
            i <= rec.len(),
            record_text(rec.deep_view()) == record_text(rec.deep_view().subrange(i as int, rec.len() as int)),
        decreases rec.len() - i,
    {
        let ghost rest = rec.deep_view().subrange(i as int, rec.len() as int);
        assert(rest.drop_first() =~= rec.deep_view().subrange(i as int + 1, rec.len() as int));
        if rec[i].0 == key {
            return Some(rec[i].1.clone());
        }
        i = i + 1;
    }
    None
}

/// The tasks of decoded records: the first record without a `text` entry is
/// reported by its index.
pub fn tasks_from_records(recs: &Vec<Vec<(String, String)>>) -> (r: Result<Vec<Task>, usize>)
    ensures
        r is Ok <==> records_texts(recs.deep_view()) is Some,
        r matches Ok(ts) ==> texts(ts@) == records_texts(recs.deep_view())->0,
        r matches Err(i) ==> {
            &&& i < recs@.len()
            &&& record_text(recs.deep_view()[i as int]) is None
            &&& forall|j: int| 0 <= j < i ==> (#[trigger] record_text(recs.deep_view()[j])) is Some
        },
{
    let ghost rv = recs.deep_view();
    let mut tasks: Vec<Task> = Vec::new();
    let mut i: usize = 0;
    while i < recs.len()
        invariant
            rv == recs.deep_view(),
            i <= recs.len(),
            tasks@.len() == i,
            forall|j: int| 0 <= j < i ==> (#[trigger] record_text(rv[j])) is Some,
            forall|j: int| 0 <= j < i ==> #[trigger] tasks@[j].text@ == record_text(rv[j])->0,
        decreases recs.len() - i,
    {
        match find_text(&recs[i]) {
            Some(text) => {
                tasks.push(Task { text });
            },
            None => {
                return Err(i);
            },
        }
        i = i + 1;
    }
    assert(texts(tasks@) =~= records_texts(rv)->0);
    Ok(tasks)
}

/// Reads the tasks out of a stored JSON text.
pub fn decode_tasks(s: &str) -> (r: Result<Vec<Task>, DecodeError>)
    ensures
        r is Ok <==> decoded(s@) is Some,
        r matches Ok(ts) ==> texts(ts@) == decoded(s@)->0,
        r matches Err(DecodeError::Syntax(_)) <==> json_records(s@) is None,
        r matches Err(DecodeError::MissingText(i)) ==> json_records(s@) matches Some(recs) && {
            &&& i < recs.len()
            &&& record_text(recs[i as int]) is None
            &&& forall|j: int| 0 <= j < i ==> (#[trigger] record_text(recs[j])) is Some
        },
{
    match parse_records(s) {
        Ok(recs) => match tasks_from_records(&recs) {
            Ok(ts) => Ok(ts),
            Err(i) => Err(DecodeError::MissingText(i)),
        },
        Err(e) => Err(DecodeError::Syntax(error_description(&e))),
    }
}

/// Frames already quoted texts as a JSON array of `{"text":...}` objects.
pub fn frame_quoted(qs: &Vec<String>) -> (r: String)
    ensures
        r@ == framed(qs.deep_view()),
{
    let ghost qv = qs.deep_view();
    let mut s = String::from_str("[");
    let mut i: usize = 0;
    while i < qs.len()
        invariant
            qv == qs.deep_view(),
            i <= qs.len(),
            s@ == "["@ + framed_items(qv.subrange(0, i as int)),
        decreases qs.len() - i,
    {
        assert(qv.subrange(0, i as int + 1).drop_last() =~= qv.subrange(0, i as int));
        if i > 0 {
            s.append(",");
        } else {
            assert(framed_items(qv.subrange(0, 0)) =~= Seq::empty());
        }
        s.append("{\"text\":");
        s.append(qs[i].as_str());
        s.append("}");
        i = i + 1;
    }
    s.append("]");
    assert(qv.subrange(0, qs.len() as int) =~= qv);
    s
}

/// The JSON text under which the tasks are stored.
pub fn encode_tasks(tasks: &Vec<Task>) -> (r: String)
    ensures
        r@ == encoded(texts(tasks@)),
{
    let mut qs: Vec<String> = Vec::new();
    let mut i: usize = 0;
    while i < tasks.len()
        invariant
            i <= tasks.len(),
            qs@.len() == i,
            forall|j: int| 0 <= j < i ==> #[trigger] qs@[j]@ == json_quoted(tasks@[j].text@),
        decreases tasks.len() - i,
    {
        let q = quote(tasks[i].text.as_str()).unwrap();
        qs.push(q);
        i = i + 1;
    }
    assert(qs.deep_view() =~= texts(tasks@).map_values(|t: Seq<char>| json_quoted(t)));
    frame_quoted(&qs)
}

} // verus!
