use vstd::prelude::*;

verus! {

/// The character sequence that lenient UTF-8 decoding produces from a byte
/// sequence: a pure function of the bytes alone.
pub uninterp spec fn lossy_decode(bytes: Seq<u8>) -> Seq<char>;

/// The character sequence left after removing leading and trailing
/// whitespace: a pure function of the characters alone.
pub uninterp spec fn trimmed(text: Seq<char>) -> Seq<char>;

/// Relies on `String::from_utf8_lossy`: decodes bytes as UTF-8 with invalid
/// sequences replaced by the replacement character, never a decode error;
/// the result depends on the bytes alone.
#[verifier::external_body]
pub fn decode_lossy(bytes: &Vec<u8>) -> (r: String)
    ensures
        r@ == lossy_decode(bytes@),
{
    String::from_utf8_lossy(bytes).into_owned()
}

/// Relies on `str::trim`: returns the input without leading and trailing
/// whitespace; the result depends on the characters alone.
#[verifier::external_body]
pub fn trim_text(text: &String) -> (r: String)
    ensures
        r@ == trimmed(text@),
{
    text.trim().to_string()
}

/// The version string a probe reports for captured output: the bytes decoded
/// leniently, then trimmed.
pub open spec fn version_view(stdout: Seq<u8>) -> Seq<char> {
    trimmed(lossy_decode(stdout))
}

/// Turn a probe's captured standard output into the reported version string.
pub fn version_text(stdout: &Vec<u8>) -> (r: String)
    ensures
        r@ == version_view(stdout@),
{
    let decoded = decode_lossy(stdout);
    trim_text(&decoded)
}

} // verus!
