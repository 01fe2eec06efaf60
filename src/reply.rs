use vstd::prelude::*;
use crate::messages::NOT_FOUND_NOTICE;
use crate::text::{strip_quotes, without_quotes};

verus! {

/// The metadata of a known sample, each field as the service's JSON writes it
/// (a string keeps its quotes, a list its brackets, a missing field reads `null`).
#[derive(Debug)]
pub struct Record {
    pub tags: String,
    pub file_type: String,
    pub md5_hash: String,
    pub sha256_hash: String,
    pub sha1_hash: String,
}

/// What a metadata lookup came to.
#[derive(Debug)]
pub enum QueryReply {
    /// The service knows the hash; `sha256` is the sample's SHA-256 without quotes.
    Found { record: Record, sha256: String },
    /// The service does not know the hash.
    NotFound,
    /// The body was not JSON; it is kept verbatim.
    Unreadable { raw: String },
}

/// The five report lines of a known sample, in their fixed order.
pub open spec fn report_text(rec: Record) -> Seq<Seq<char>> {
    seq![
        "--- tags:     "@ + rec.tags@,
        "--- type:     "@ + rec.file_type@,
        "--- MD5:      "@ + rec.md5_hash@,
        "--- SHA256:   "@ + rec.sha256_hash@,
        "--- SHA1:     "@ + rec.sha1_hash@,
    ]
}

/// The lines as text.
pub open spec fn lines_view(lines: Seq<String>) -> Seq<Seq<char>> {
    lines.map_values(|s: String| s@)
}

impl QueryReply {
    /// The reply for the first entry of the service's data list: `None` when that
    /// entry is absent or null, else the entry's fields.
    pub fn from_record(entry: Option<Record>) -> (r: QueryReply)
        ensures
            entry is None ==> r is NotFound,
            entry matches Some(rec) ==> r matches QueryReply::Found { record, sha256 } && record
                == rec && sha256@ == without_quotes(rec.sha256_hash@),
    {
        match entry {
            None => QueryReply::NotFound,
            Some(rec) => {
                let sha256 = strip_quotes(rec.sha256_hash.as_str());
                QueryReply::Found { record: rec, sha256 }
            },
        }
    }
}

fn labeled(label: &str, value: &String) -> (r: String)
    ensures
        r@ == label@ + value@,
{
    String::from_str(label).concat(value.as_str())
}

/// The report printed for a known sample: tags, type, MD5, SHA256, SHA1, one per line.
pub fn report_lines(rec: &Record) -> (r: Vec<String>)
    ensures
        lines_view(r@) == report_text(*rec),
{
    let mut r: Vec<String> = Vec::new();
    r.push(labeled("--- tags:     ", &rec.tags));
    r.push(labeled("--- type:     ", &rec.file_type));
    r.push(labeled("--- MD5:      ", &rec.md5_hash));
    r.push(labeled("--- SHA256:   ", &rec.sha256_hash));
    r.push(labeled("--- SHA1:     ", &rec.sha1_hash));
    assert(lines_view(r@) =~= report_text(*rec));
    r
}

/// The lines printed on standard output for a reply: the report of a known
/// sample, the not-found notice, or none for an unreadable body (which goes to
/// the error stream instead).
pub open spec fn reply_text(reply: QueryReply) -> Seq<Seq<char>> {
    match reply {
        QueryReply::Found { record, .. } => report_text(record),
        QueryReply::NotFound => seq![NOT_FOUND_NOTICE@],
        QueryReply::Unreadable { .. } => seq![],
    }
}

/// The lines to print on standard output for `reply`.
pub fn reply_lines(reply: &QueryReply) -> (r: Vec<String>)
    ensures
        lines_view(r@) == reply_text(*reply),
{
    match reply {
        QueryReply::Found { record, .. } => report_lines(record),
        QueryReply::NotFound => {
            let mut r: Vec<String> = Vec::new();
            r.push(String::from_str(NOT_FOUND_NOTICE));
            assert(lines_view(r@) =~= reply_text(*reply));
            r
        },
        QueryReply::Unreadable { .. } => {
            let r: Vec<String> = Vec::new();
            assert(lines_view(r@) =~= reply_text(*reply));
            r
        },
    }
}

} // verus!
