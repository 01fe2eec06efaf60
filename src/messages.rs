use vstd::prelude::*;

verus! {

/// First line of the usage text.
pub const USAGE_LINE: &'static str = "[usage] ./malquery [HASH]";

/// Second line of the usage text.
pub const USAGE_HASHES: &'static str = "        HASH: MD5, SHA256, SHA1";

/// Printed when the service does not know the hash.
pub const NOT_FOUND_NOTICE: &'static str = "[!] hash not found";

/// Printed once the sample is on disk.
pub const DOWNLOAD_DONE_NOTICE: &'static str = "[+] download success";

fn prefixed(prefix: &str, value: &str) -> (r: String)
    ensures
        r@ == prefix@ + value@,
{
    String::from_str(prefix).concat(value)
}

/// Printed before the metadata lookup.
pub fn querying_notice(hash: &str) -> (r: String)
    ensures
        r@ == "[+] querying "@ + hash@,
{
    prefixed("[+] querying ", hash)
}

/// Printed before the sample is fetched.
pub fn downloading_notice(sha256: &str) -> (r: String)
    ensures
        r@ == "[+] downloading "@ + sha256@,
{
    prefixed("[+] downloading ", sha256)
}

/// Printed before the sample is written to its file.
pub fn writing_notice(file_name: &str) -> (r: String)
    ensures
        r@ == "[+] writing file to: "@ + file_name@,
{
    prefixed("[+] writing file to: ", file_name)
}

/// Written to the error stream when the reply is not JSON: the body follows verbatim.
pub fn unreadable_notice(raw: &str) -> (r: String)
    ensures
        r@ == "error, showing raw response "@ + raw@,
{
    prefixed("error, showing raw response ", raw)
}

/// Printed when the hash is refused as a file name.
pub fn refused_name_notice(name: &str) -> (r: String)
    ensures
        r@ == "[!] refusing to write to file name: "@ + name@,
{
    prefixed("[!] refusing to write to file name: ", name)
}

} // verus!
