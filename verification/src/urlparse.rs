use vstd::prelude::*;

verus! {

/// What `url::Url::parse` makes of a string: `Some` of the parsed URL's
/// normalized serialization when the string parses as a URL, `None` when it
/// does not. The parse outcome is a function of the input string alone.
pub uninterp spec fn spec_url_parse(s: Seq<char>) -> Option<Seq<char>>;

#[verifier::external_type_specification]
#[verifier::external_body]
pub struct ExParseError(url::ParseError);

/// Relies on `url::Url::parse` to decide whether the string is a well-formed
/// URL, and on `url::Url::as_str` for the normalized serialization of the
/// parsed URL; both depend on the input string alone.
#[verifier::external_body]
pub(crate) fn parse_url(s: &str) -> (r: Result<String, url::ParseError>)
    ensures
        r is Ok <==> spec_url_parse(s@) is Some,
        r is Ok ==> (r->Ok_0)@ == (spec_url_parse(s@))->0,
{
    match url::Url::parse(s) {
        Ok(u) => Ok(u.as_str().to_string()),
        Err(e) => Err(e),
    }
}

} // verus!
