use vstd::prelude::*;

verus! {

/// The one address that both requests are posted to.
pub const ENDPOINT: &'static str = "https://mb-api.abuse.ch/api/v1/";

/// A form body as the service reads it: name and value of each field, in order.
pub open spec fn form_view(f: Seq<(String, String)>) -> Seq<(Seq<char>, Seq<char>)> {
    f.map_values(|p: (String, String)| (p.0@, p.1@))
}

/// The fields of a metadata lookup: `query=get_info`, `hash=<hash>`.
pub open spec fn info_fields(hash: Seq<char>) -> Seq<(Seq<char>, Seq<char>)> {
    seq![("query"@, "get_info"@), ("hash"@, hash)]
}

/// The fields of a sample retrieval: `query=get_file`, `sha256_hash=<sha256>`.
pub open spec fn file_fields(sha256: Seq<char>) -> Seq<(Seq<char>, Seq<char>)> {
    seq![("query"@, "get_file"@), ("sha256_hash"@, sha256)]
}

fn field(name: &str, value: &str) -> (r: (String, String))
    ensures
        r.0@ == name@,
        r.1@ == value@,
{
    (String::from_str(name), String::from_str(value))
}

/// The form body that asks the service for what it knows of `hash`.
/// The hash is passed on as it is: the service decides whether it is valid.
pub fn query_form(hash: &str) -> (r: Vec<(String, String)>)
    ensures
        form_view(r@) == info_fields(hash@),
{
    let mut r: Vec<(String, String)> = Vec::new();
    r.push(field("query", "get_info"));
    r.push(field("hash", hash));
    assert(form_view(r@) =~= info_fields(hash@));
    r
}

/// The form body that asks the service for the sample whose SHA-256 is `sha256`.
pub fn download_form(sha256: &str) -> (r: Vec<(String, String)>)
    ensures
        form_view(r@) == file_fields(sha256@),
{
    let mut r: Vec<(String, String)> = Vec::new();
    r.push(field("query", "get_file"));
    r.push(field("sha256_hash", sha256));
    assert(form_view(r@) =~= file_fields(sha256@));
    r
}

} // verus!
