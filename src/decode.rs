use vstd::prelude::*;

verus! {

#[verifier::external_type_specification]
#[verifier::external_body]
pub struct ExFromUtf8Error(std::string::FromUtf8Error);

/// What `urlencoding::decode` makes of `s`: the percent-decoded text, or `None`
/// when the decoded bytes are not valid UTF-8.
pub uninterp spec fn url_decoded(s: Seq<char>) -> Option<Seq<char>>;

/// Relies on `urlencoding::decode`: its result, owned. Text without `%` comes back
/// unchanged (the source returns the input borrowed when no `%` occurs).
#[verifier::external_body]
fn url_decode(s: &str) -> (r: Result<String, std::string::FromUtf8Error>)
    ensures
        url_decoded(s@) == match r {
            Ok(d) => Some(d@),
            Err(_) => None,
        },
        r is Err ==> s@.contains('%'),
        r matches Ok(d) ==> (!s@.contains('%') ==> d@ == s@),
{
    match urlencoding::decode(s) {
        Ok(d) => Ok(d.into_owned()),
        Err(e) => Err(e),
    }
}

/// Best-effort decoding: the percent-decoded text, or the input itself when
/// decoding fails.
pub open spec fn decoded_or_raw(s: Seq<char>) -> Seq<char> {
    match url_decoded(s) {
        Some(d) => d,
        None => s,
    }
}

/// Percent-decodes `input`; when decoding fails the input is used unchanged.
/// Text that holds no `%` is returned as it is.
pub fn percent_decode(input: &str) -> (r: String)
    ensures
        r@ == decoded_or_raw(input@),
        !input@.contains('%') ==> r@ == input@,
{
    match url_decode(input) {
        Ok(d) => d,
        Err(_) => input.to_owned(),
    }
}

} // verus!
