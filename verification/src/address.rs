//! The address of a relay.

use url::Url;
use vstd::prelude::*;

verus! {

/// A parsed URL.
#[derive(Debug, Clone)]
pub struct ParsedUrl {
    /// Its scheme, in lower case and without the colon.
    pub scheme: String,
    /// The URL in its normal form.
    pub text: String,
}

/// What the URL parser makes of a text: the scheme and the normal form of the URL,
/// or the text of the error.
pub uninterp spec fn parsed_url(input: Seq<char>) -> Result<(Seq<char>, Seq<char>), Seq<char>>;

/// `Url::try_from`, with the parts of the `Url` that `Url::scheme` and
/// `Url::as_str` give, and the text that `ParseError` displays. All of it depends
/// on the input alone.
#[verifier::external_body]
fn parse_url(input: &str) -> (parsed: Result<ParsedUrl, String>)
    ensures
        match parsed_url(input@) {
            Ok((scheme, text)) => parsed matches Ok(url) && url.scheme@ == scheme && url.text@
                == text,
            Err(reason) => parsed matches Err(error) && error@ == reason,
        },
{
    match Url::try_from(input) {
        Ok(url) => Ok(ParsedUrl { scheme: url.scheme().to_string(), text: url.as_str().to_string() }),
        Err(error) => Err(error.to_string()),
    }
}

/// Whether a relay can be reached by a scheme: `https` for WebTransport, `moqt` for
/// QUIC.
pub open spec fn is_relay_scheme(scheme: Seq<char>) -> bool {
    scheme == "https"@ || scheme == "moqt"@
}

/// The relay's address that a parsed URL is.
pub fn relay_address(parsed: Result<ParsedUrl, String>) -> (address: Result<ParsedUrl, String>)
    ensures
        match parsed {
            Ok(url) => if is_relay_scheme(url.scheme@) {
                address == parsed
            } else {
                address matches Err(error) && error@
                    == "url scheme must be https:// for WebTransport & moqt:// for QUIC"@
            },
            Err(_) => address == parsed,
        },
{
    let url: ParsedUrl = parsed?;
    if url.scheme != "https".to_owned() && url.scheme != "moqt".to_owned() {
        return Err("url scheme must be https:// for WebTransport & moqt:// for QUIC".to_owned());
    }
    Ok(url)
}

/// Reads the address of a relay.
pub fn moq_url(s: &str) -> (address: Result<ParsedUrl, String>)
    ensures
        match parsed_url(s@) {
            Ok((scheme, text)) => if is_relay_scheme(scheme) {
                address matches Ok(url) && url.scheme@ == scheme && url.text@ == text
            } else {
                address matches Err(error) && error@
                    == "url scheme must be https:// for WebTransport & moqt:// for QUIC"@
            },
            Err(reason) => address matches Err(error) && error@ == reason,
        },
{
    relay_address(parse_url(s))
}

/// A relay is reached by the schemes `https` and `moqt`, letter for letter, and by
/// no other.
pub proof fn relays_have_two_schemes(scheme: Seq<char>)
    ensures
        is_relay_scheme(scheme) <==> scheme == seq!['h', 't', 't', 'p', 's'] || scheme == seq![
            'm',
            'o',
            'q',
            't',
        ],
{
    reveal_strlit("https");
    reveal_strlit("moqt");
    assert("https"@ =~= seq!['h', 't', 't', 'p', 's']);
    assert("moqt"@ =~= seq!['m', 'o', 'q', 't']);
}

} // verus!
