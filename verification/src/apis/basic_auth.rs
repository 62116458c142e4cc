//! The `Authorization` header value for HTTP basic authentication.

use vstd::prelude::*;
use vstd::string::StringExecFns;
use vstd::string::StringSliceAdditionalSpecFns;
use base64::engine::general_purpose;
use base64::Engine;
use crate::apis::configuration::BasicAuth;
use crate::apis::text::push_char;
use crate::apis::base64_text;
use vstd::utf8::encode_utf8;

verus! {

/// Whether the padded base64 encoding of `n` bytes, `4 * ceil(n / 3)`
/// characters, has a length that fits in a `usize`.
pub open spec fn base64_len_fits(n: nat) -> bool {
    4 * ((n + 2) / 3) <= usize::MAX
}

/// Calls `Engine::encode` of `base64::engine::general_purpose::STANDARD` on
/// the UTF-8 bytes of `text`. The contract claims that the result is the
/// standard base64 encoding (RFC 4648 alphabet, `=` padding) of those bytes,
/// which is what that engine is documented to produce. `requires` leaves out
/// the inputs whose encoded length overflows a `usize`, on which `encode`
/// panics.
#[verifier::external_body]
fn encode_base64_standard(text: &str) -> (r: String)
    requires
        base64_len_fits(text.spec_bytes().len()),
    ensures
        r@ == base64_text::base64_encoded(text.spec_bytes()),
{
    general_purpose::STANDARD.encode(text)
}

/// `user:password`, with an empty password when there is none.
pub open spec fn basic_credentials(auth: BasicAuth) -> Seq<char> {
    auth.0@ + seq![':'] + match auth.1 {
        Some(password) => password@,
        None => Seq::empty(),
    }
}

/// The scheme prefix `Basic `.
pub open spec fn basic_scheme() -> Seq<char> {
    seq!['B', 'a', 's', 'i', 'c', ' ']
}

/// The credentials text `user:password` of `auth`.
pub fn basic_auth_credentials(auth: &BasicAuth) -> (r: String)
    ensures
        r@ == basic_credentials(*auth),
{
    let mut r = String::from_str(auth.0.as_str());
    push_char(&mut r, ':');
    match &auth.1 {
        Some(password) => r.append(password.as_str()),
        None => {},
    }
    assert(r@ =~= basic_credentials(*auth));
    r
}

/// The header value `Basic <encoded>` for already encoded credentials.
pub fn basic_auth_header(encoded: &str) -> (r: String)
    ensures
        r@ == basic_scheme() + encoded@,
{
    let mut r = String::new();
    push_char(&mut r, 'B');
    push_char(&mut r, 'a');
    push_char(&mut r, 's');
    push_char(&mut r, 'i');
    push_char(&mut r, 'c');
    push_char(&mut r, ' ');
    r.append(encoded);
    assert(r@ =~= basic_scheme() + encoded@);
    r
}

/// The `Authorization` header value for `auth`: `Basic ` followed by the
/// standard base64 encoding of the UTF-8 bytes of `user:password`; decoding
/// the part after `Basic ` gives those bytes back.
pub fn basic_auth(auth: &BasicAuth) -> (r: String)
    requires
        base64_len_fits(encode_utf8(basic_credentials(*auth)).len()),
    ensures
        r@ == basic_scheme() + base64_text::base64_encoded(encode_utf8(basic_credentials(*auth))),
        base64_text::base64_decoded(r@.skip(6)) == encode_utf8(basic_credentials(*auth)),
{
    let credentials = basic_auth_credentials(auth);
    let encoded = encode_base64_standard(credentials.as_str());
    let r = basic_auth_header(encoded.as_str());
    proof {
        assert(r@.skip(6) =~= encoded@);
        base64_text::lemma_base64_decodes_back(encode_utf8(basic_credentials(*auth)));
    }
    r
}

} // verus!
