use vstd::prelude::*;
use crate::flow::{first_step, safe_file_name, step_after_query, Step};
use crate::json::{entry_of, field_text, json_of, member_of, plain_text, reply_for_body, JsonV};
use crate::messages::NOT_FOUND_NOTICE;
use crate::reply::{reply_text, QueryReply};
use crate::text::{lemma_no_quotes_remain, without_quotes};

verus! {

/// A hexadecimal digit, in either case.
pub open spec fn is_hex_digit(c: char) -> bool {
    ('0' <= c && c <= '9') || ('a' <= c && c <= 'f') || ('A' <= c && c <= 'F')
}

/// Any argument count other than one shows the usage text, and no lookup or
/// download is started.
pub proof fn lemma_usage_sends_nothing(args: Seq<Seq<char>>)
    requires
        args.len() != 1,
    ensures
        first_step(args) == Step::ShowUsage,
{
}

/// A reply is `Found` exactly when its `data` member is a non-empty list whose
/// first element is not null.
pub proof fn lemma_found_exactly_on_entry(body: Seq<char>, reply: QueryReply, doc: JsonV)
    requires
        reply_for_body(body, reply),
        json_of(body) == Some(doc),
    ensures
        reply is Found <==> match member_of(doc, "data"@) {
            JsonV::Array(items) => items.len() > 0 && items[0] != JsonV::Null,
            _ => false,
        },
{
}

/// A reply whose first `data` entry is null or absent is not-found: only the
/// not-found notice is printed, and the run ends without a download.
pub proof fn lemma_not_found_never_downloads(body: Seq<char>, reply: QueryReply, doc: JsonV)
    requires
        reply_for_body(body, reply),
        json_of(body) == Some(doc),
        entry_of(doc) is Null,
    ensures
        reply is NotFound,
        reply_text(reply) == seq![NOT_FOUND_NOTICE@],
        step_after_query(reply) == Step::Finish,
{
}

/// A found entry prints exactly five labeled lines, tags, type, MD5, SHA256 and
/// SHA1 in this order, each with the compact JSON text of its field.
pub proof fn lemma_found_prints_five_lines(body: Seq<char>, reply: QueryReply, doc: JsonV)
    requires
        reply_for_body(body, reply),
        json_of(body) == Some(doc),
        entry_of(doc) !is Null,
    ensures
        reply_text(reply) == seq![
            "--- tags:     "@ + field_text(entry_of(doc), "tags"@),
            "--- type:     "@ + field_text(entry_of(doc), "file_type"@),
            "--- MD5:      "@ + field_text(entry_of(doc), "md5_hash"@),
            "--- SHA256:   "@ + field_text(entry_of(doc), "sha256_hash"@),
            "--- SHA1:     "@ + field_text(entry_of(doc), "sha1_hash"@),
        ],
{
}

/// When the found entry's SHA-256 is a JSON string `s` that needs no escape,
/// the lookup gives `s` itself, without the quotes of its JSON text, and a
/// safe `s` is the name the sample is fetched and written under.
pub proof fn lemma_found_sha256_is_string_value(
    body: Seq<char>,
    reply: QueryReply,
    doc: JsonV,
    s: Seq<char>,
)
    requires
        reply_for_body(body, reply),
        json_of(body) == Some(doc),
        entry_of(doc) !is Null,
        member_of(entry_of(doc), "sha256_hash"@) == JsonV::Str(s),
        plain_text(s),
    ensures
        reply matches QueryReply::Found { sha256, .. } && sha256@ == s,
        safe_file_name(s) ==> step_after_query(reply) == Step::Download(s),
{
}

/// A body that is not JSON is reported verbatim, and no download follows.
pub proof fn lemma_unreadable_body_reported(body: Seq<char>, reply: QueryReply)
    requires
        reply_for_body(body, reply),
        json_of(body) is None,
    ensures
        step_after_query(reply) == Step::ReportUnreadable(body),
        reply_text(reply) == Seq::<Seq<char>>::empty(),
{
}

/// Whatever the entry holds, a sample is fetched under its SHA-256 text with
/// every quote taken out, so the file name never holds a quote.
pub proof fn lemma_download_uses_unquoted_sha256(body: Seq<char>, reply: QueryReply)
    requires
        reply_for_body(body, reply),
        reply is Found,
    ensures
        step_after_query(reply) matches Step::Download(name) ==> {
            &&& name == without_quotes(reply->record.sha256_hash@)
            &&& !name.contains('"')
        },
{
    lemma_no_quotes_remain(reply->record.sha256_hash@);
}

/// The file-name check refuses no well-formed hash: a non-empty run of
/// hexadecimal digits is always accepted.
pub proof fn lemma_hex_hash_is_safe_name(s: Seq<char>)
    requires
        s.len() > 0,
        forall|i: int| 0 <= i < s.len() ==> is_hex_digit(#[trigger] s[i]),
    ensures
        safe_file_name(s),
{
    assert(s != seq!['.']) by {
        assert(is_hex_digit(s[0]));
    }
    assert(s != seq!['.', '.']) by {
        assert(is_hex_digit(s[0]));
    }
}

} // verus!
