use vstd::prelude::*;
use vstd::string::*;
use vstd::utf8::*;

verus! {

/// Relies on std::str::from_utf8: it succeeds exactly on well-formed UTF-8,
/// and the text it hands back is encoded by the very bytes it was given.
#[verifier::external_body]
pub(crate) fn utf8_text(b: &[u8]) -> (r: Option<&str>)
    ensures
        r is Some <==> valid_utf8(b@),
        r matches Some(s) ==> s.spec_bytes() == b@,
{
    std::str::from_utf8(b).ok()
}

/// Text whose encoding is `b` is the UTF-8 decoding of `b`.
pub proof fn lemma_text_of_bytes(s: &str, b: Seq<u8>)
    requires
        s.spec_bytes() == b,
    ensures
        valid_utf8(b),
        s@ == decode_utf8(b),
{
    encode_utf8_valid_utf8(s@);
    encode_utf8_decode_utf8(s@);
}

} // verus!
