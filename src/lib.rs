//! Client logic for a malware-sample lookup service: the form fields sent to
//! the service, the reading of its metadata reply, the report printed for a
//! known sample, and the decision of what the program does next.

mod flow;
mod json;
mod laws;
mod messages;
mod protocol;
mod reply;
mod text;

pub use flow::{
    action_after_query, args_view, first_action, first_step, is_safe_file_name,
    name_char_allowed, safe_file_name, step_after_query, Action, Step,
};
pub use json::{
    element_of, entry_of, field_text, json_of, json_text, member_of, plain_text, quoted,
    read_reply, reply_for_body, JsonV,
};
pub use laws::{
    is_hex_digit, lemma_download_uses_unquoted_sha256, lemma_found_exactly_on_entry,
    lemma_found_prints_five_lines, lemma_found_sha256_is_string_value, lemma_hex_hash_is_safe_name,
    lemma_not_found_never_downloads, lemma_unreadable_body_reported, lemma_usage_sends_nothing,
};
pub use messages::{
    downloading_notice, querying_notice, refused_name_notice, unreadable_notice, writing_notice,
    DOWNLOAD_DONE_NOTICE, NOT_FOUND_NOTICE, USAGE_HASHES, USAGE_LINE,
};
pub use protocol::{download_form, file_fields, form_view, info_fields, query_form, ENDPOINT};
pub use reply::{
    lines_view, reply_lines, reply_text, report_lines, report_text, QueryReply, Record,
};
pub use text::{
    lemma_no_quotes_remain, lemma_strip_quoted, lemma_unquoted_unchanged,
    lemma_without_quotes_concat, strip_quotes, without_quotes,
};
