use vstd::prelude::*;
use crate::reply::{QueryReply, Record};
use crate::text::{lemma_strip_quoted, without_quotes};

verus! {

/// A JSON value as the library reasons about it.
pub enum JsonV {
    Null,
    Bool(bool),
    /// A number, held as the text that serde_json writes for it.
    Number(Seq<char>),
    Str(Seq<char>),
    Array(Seq<JsonV>),
    Object(Map<Seq<char>, JsonV>),
}

/// What `serde_json::from_str` reads from `body` into a `Value`: `None` when
/// it refuses the text. It depends on the text alone.
pub uninterp spec fn json_of(body: Seq<char>) -> Option<JsonV>;

/// The compact text that `Value`'s `Display` writes for `v`. With serde_json's
/// default sorted object map it depends on the value alone.
pub uninterp spec fn json_text(v: JsonV) -> Seq<char>;

/// The member `key` of an object; `Null` when there is none or `v` is no object.
pub open spec fn member_of(v: JsonV, key: Seq<char>) -> JsonV {
    match v {
        JsonV::Object(m) => if m.contains_key(key) {
            m[key]
        } else {
            JsonV::Null
        },
        _ => JsonV::Null,
    }
}

/// The element `i` of an array; `Null` when there is none or `v` is no array.
pub open spec fn element_of(v: JsonV, i: int) -> JsonV {
    match v {
        JsonV::Array(items) => if 0 <= i < items.len() {
            items[i]
        } else {
            JsonV::Null
        },
        _ => JsonV::Null,
    }
}

/// A string that JSON writes without any escape: no quote, no backslash and
/// no control character below U+0020.
pub open spec fn plain_text(s: Seq<char>) -> bool {
    forall|i: int| 0 <= i < s.len() ==> #[trigger] s[i] != '"' && s[i] != '\\' && s[i] as u32 >= 0x20
}

/// `s` between double quotes.
pub open spec fn quoted(s: Seq<char>) -> Seq<char> {
    seq!['"'] + s + seq!['"']
}

/// The first entry of a reply's `data` list (`Null` when absent).
pub open spec fn entry_of(doc: JsonV) -> JsonV {
    element_of(member_of(doc, "data"@), 0)
}

/// The JSON text of the member `key` of `entry`.
pub open spec fn field_text(entry: JsonV, key: Seq<char>) -> Seq<char> {
    json_text(member_of(entry, key))
}

/// `serde_json::Value`, a parsed JSON document.
#[verifier::external_type_specification]
#[verifier::external_body]
pub struct ExValue(serde_json::Value);

/// `serde_json::Error`, what `serde_json::from_str` gives for a text it cannot read.
#[verifier::external_type_specification]
#[verifier::external_body]
pub struct ExJsonError(serde_json::Error);

/// A parsed document with its model.
struct Doc {
    value: serde_json::Value,
    model: Ghost<JsonV>,
}

/// A value inside a parsed document, with its model.
struct Node<'a> {
    value: &'a serde_json::Value,
    model: Ghost<JsonV>,
}

/// Relies on `serde_json::from_str` into a `Value`: `Ok` with the value read
/// from `body`, or `Err` when the text is no JSON.
#[verifier::external_body]
fn parse_json(body: &str) -> (r: Result<Doc, serde_json::Error>)
    ensures
        match r {
            Ok(d) => json_of(body@) == Some(d.model@),
            Err(_) => json_of(body@) is None,
        },
{
    match serde_json::from_str(body) {
        Ok(value) => Ok(Doc { value, model: Ghost(json_of(body@).unwrap()) }),
        Err(e) => Err(e),
    }
}

/// Relies on `Index<&str>` of `serde_json::Value`: the member `key` of an object,
/// `Null` when there is none or `v` is no object; it does not panic.
#[verifier::external_body]
fn member<'a>(v: &Node<'a>, key: &str) -> (r: Node<'a>)
    ensures
        r.model@ == member_of(v.model@, key@),
{
    Node { value: &v.value[key], model: Ghost(member_of(v.model@, key@)) }
}

/// Relies on `Index<usize>` of `serde_json::Value`: the element `i` of an array,
/// `Null` when there is none or `v` is no array; it does not panic.
#[verifier::external_body]
fn element<'a>(v: &Node<'a>, i: usize) -> (r: Node<'a>)
    ensures
        r.model@ == element_of(v.model@, i as int),
{
    Node { value: &v.value[i], model: Ghost(element_of(v.model@, i as int)) }
}

/// Relies on `serde_json::Value::is_null`: true exactly on a JSON `null`.
#[verifier::external_body]
fn is_null(v: &Node) -> (r: bool)
    ensures
        r == (v.model@ is Null),
{
    v.value.is_null()
}

/// Relies on `Value`'s `Display` (through `to_string`): the compact JSON text;
/// a string is written between quotes, escaping only quotes, backslashes and
/// control characters.
#[verifier::external_body]
fn text(v: &Node) -> (r: String)
    ensures
        r@ == json_text(v.model@),
        match v.model@ {
            JsonV::Str(s) => plain_text(s) ==> r@ == quoted(s),
            _ => true,
        },
{
    v.value.to_string()
}

fn root(d: &Doc) -> (r: Node<'_>)
    ensures
        r.model@ == d.model@,
{
    Node { value: &d.value, model: Ghost(d.model@) }
}

/// Whether `reply` is what a metadata reply with body `body` comes to: a text
/// that is no JSON is `Unreadable` and kept verbatim; a null or absent first
/// `data` entry is `NotFound`; any other entry is `Found`, with the JSON text
/// of its five fields and its SHA-256 with the quotes taken out.
pub open spec fn reply_for_body(body: Seq<char>, reply: QueryReply) -> bool {
    match json_of(body) {
        None => reply matches QueryReply::Unreadable { raw } && raw@ == body,
        Some(doc) => {
            let e = entry_of(doc);
            if e is Null {
                reply is NotFound
            } else {
                &&& reply matches QueryReply::Found { record, sha256 }
                &&& record.tags@ == field_text(e, "tags"@)
                &&& record.file_type@ == field_text(e, "file_type"@)
                &&& record.md5_hash@ == field_text(e, "md5_hash"@)
                &&& record.sha256_hash@ == field_text(e, "sha256_hash"@)
                &&& record.sha1_hash@ == field_text(e, "sha1_hash"@)
                &&& sha256@ == without_quotes(record.sha256_hash@)
                &&& match member_of(e, "sha256_hash"@) {
                    JsonV::Str(s) => plain_text(s) ==> sha256@ == s,
                    _ => true,
                }
            }
        },
    }
}

/// Reads the body of a metadata reply.
pub fn read_reply(body: &str) -> (r: QueryReply)
    ensures
        reply_for_body(body@, r),
{
    match parse_json(body) {
        Err(_) => QueryReply::Unreadable { raw: String::from_str(body) },
        Ok(doc) => {
            let top = root(&doc);
            let entry = element(&member(&top, "data"), 0);
            if is_null(&entry) {
                QueryReply::NotFound
            } else {
                let sha_node = member(&entry, "sha256_hash");
                let record = Record {
                    tags: text(&member(&entry, "tags")),
                    file_type: text(&member(&entry, "file_type")),
                    md5_hash: text(&member(&entry, "md5_hash")),
                    sha256_hash: text(&sha_node),
                    sha1_hash: text(&member(&entry, "sha1_hash")),
                };
                proof {
                    if let JsonV::Str(s) = sha_node.model@ {
                        if plain_text(s) {
                            assert(!s.contains('"'));
                            lemma_strip_quoted(s);
                        }
                    }
                }
                QueryReply::from_record(Some(record))
            }
        },
    }
}

} // verus!
