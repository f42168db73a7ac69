use vstd::prelude::*;

verus! {

/// The base64 rendering (standard alphabet, `=`-padded) of the UTF-8
/// bytes of a string.
pub uninterp spec fn base64_of(s: Seq<char>) -> Seq<char>;

/// Relies on base64::encode: the standard-alphabet, padded base64
/// encoding of the argument's bytes, a function of the argument alone.
#[verifier::external_body]
fn base64_encode_str(s: &str) -> (r: String)
    ensures
        r@ == base64_of(s@),
{
    base64::encode(s)
}

/// The HTTP Basic authorization value for a client id and secret: the
/// word `Basic` and the base64 rendering of `id:secret`.
pub open spec fn spec_basic_auth(id: Seq<char>, secret: Seq<char>) -> Seq<char> {
    "Basic "@ + base64_of(id + ":"@ + secret)
}

/// Build the Basic authorization header value used to request an API
/// token for the external music catalog.
pub fn spotify_basic_auth(client_id: &str, client_secret: &str) -> (r: String)
    ensures
        r@ == spec_basic_auth(client_id@, client_secret@),
{
    let mut joined = client_id.to_owned();
    joined.append(":");
    joined.append(client_secret);
    let encoded = base64_encode_str(joined.as_str());
    let mut r = String::from_str("Basic ");
    r.append(encoded.as_str());
    proof {
        assert(joined@ =~= client_id@ + ":"@ + client_secret@);
        assert(r@ =~= spec_basic_auth(client_id@, client_secret@));
    }
    r
}

/// The whole seconds named by an ISO 8601 duration string, or nothing
/// when the string is not a valid ISO 8601 duration.
pub uninterp spec fn iso_duration_secs(s: Seq<char>) -> Option<u64>;

/// Relies on iso8601::duration and the crate's conversion to a std
/// duration: the seconds an ISO 8601 duration string names, a function
/// of the string alone.
#[verifier::external_body]
fn parse_iso_duration(s: &str) -> (r: Option<u64>)
    ensures
        r == iso_duration_secs(s@),
{
    match iso8601::duration(s) {
        Ok(d) => Some(core::time::Duration::from(d).as_secs()),
        Err(_) => None,
    }
}

/// The length in whole seconds that a video's ISO 8601 duration string
/// declares, or nothing when the string is malformed.
pub fn duration_from_iso_8601(duration_string: &str) -> (r: Option<u64>)
    ensures
        r == iso_duration_secs(duration_string@),
{
    parse_iso_duration(duration_string)
}

} // verus!
