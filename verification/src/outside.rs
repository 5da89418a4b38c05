//! Everything this crate takes on trust: the calls into other crates, each
//! behind a contract that Verus believes without proof.

use crate::auth::Payload;
use crate::text::{text_of, texts};
use vstd::prelude::*;

verus! {

/// `jsonwebtoken::errors::Error`, carried through and never looked into.
#[verifier::external_type_specification]
#[verifier::external_body]
pub struct ExTokenError(jsonwebtoken::errors::Error);

/// `serde_json::Error`, carried through and never looked into.
#[verifier::external_type_specification]
#[verifier::external_body]
pub struct ExJsonError(serde_json::Error);

/// The token that `jsonwebtoken::encode` writes for the claims `sub`,
/// `company` and `exp`, in that order, under an HS512 header and the given
/// secret.
pub uninterp spec fn signed_token(
    sub: Seq<char>,
    company: Seq<char>,
    exp: u64,
    secret: Seq<char>,
) -> Seq<char>;

/// What `jsonwebtoken::decode` finds in a token when it accepts HS512 alone and
/// leaves expiry and audience unchecked: `None` where it reports an error, as
/// it does for a token of another shape or algorithm, for a signature that
/// does not hold under the given secret, and for a payload without an `exp`
/// that is a number; else the three claims as far as the payload holds them,
/// a `sub` or `company` that is no text and an `exp` that is no unsigned
/// integer counting as absent.
pub uninterp spec fn verified_payload(token: Seq<char>, secret: Seq<char>) -> Option<
    (Option<Seq<char>>, Option<Seq<char>>, Option<u64>),
>;

/// The JSON text that `serde_json::to_string` writes for a list of strings,
/// `None` where it reports an error.
pub uninterp spec fn commands_json(commands: Seq<Seq<char>>) -> Option<Seq<char>>;

/// Whether `dir` begins with the home shorthand that `shellexpand::tilde`
/// replaces: a tilde that ends the text or is followed by a separator.
pub open spec fn has_home_shorthand(dir: Seq<char>) -> bool {
    &&& dir.len() >= 1
    &&& dir[0] == '~'
    &&& (dir.len() == 1 || dir[1] == '/' || dir[1] == '\\')
}

/// Whether `out` can be the expansion of `dir`: `dir` itself where it has no
/// home shorthand, else some text in place of the tilde, then the rest of
/// `dir` unchanged.
pub open spec fn expands_to(dir: Seq<char>, out: Seq<char>) -> bool {
    if has_home_shorthand(dir) {
        &&& out.len() >= dir.len() - 1
        &&& out.subrange(out.len() - (dir.len() - 1), out.len() as int) == dir.skip(1)
    } else {
        out == dir
    }
}

/// Whether `c` is a decimal digit.
pub open spec fn is_digit(c: char) -> bool {
    '0' <= c && c <= '9'
}

/// The shape of a time in RFC 3339 with milliseconds, in UTC: a year of at
/// least four characters, then `-MM-DDTHH:MM:SS.mmmZ`.
pub open spec fn is_utc_stamp(stamp: Seq<char>) -> bool {
    let n = stamp.len() as int;
    &&& n >= 24
    &&& stamp[n - 20] == '-'
    &&& is_digit(stamp[n - 19]) && is_digit(stamp[n - 18])
    &&& stamp[n - 17] == '-'
    &&& is_digit(stamp[n - 16]) && is_digit(stamp[n - 15])
    &&& stamp[n - 14] == 'T'
    &&& is_digit(stamp[n - 13]) && is_digit(stamp[n - 12])
    &&& stamp[n - 11] == ':'
    &&& is_digit(stamp[n - 10]) && is_digit(stamp[n - 9])
    &&& stamp[n - 8] == ':'
    &&& is_digit(stamp[n - 7]) && is_digit(stamp[n - 6])
    &&& stamp[n - 5] == '.'
    &&& is_digit(stamp[n - 4]) && is_digit(stamp[n - 3]) && is_digit(stamp[n - 2])
    &&& stamp[n - 1] == 'Z'
}

/// Whether `c` belongs to the alphabet that identifiers are drawn from.
pub open spec fn is_id_char(c: char) -> bool {
    ||| c == '_'
    ||| c == '-'
    ||| ('0' <= c && c <= '9')
    ||| ('a' <= c && c <= 'z')
    ||| ('A' <= c && c <= 'Z')
}

/// `jsonwebtoken::encode` with an HS512 header, on a JSON object of the three
/// claims. Trusted: the call succeeds, since a secret is a key of the HMAC
/// family as HS512 asks, a header and an object with text keys always
/// serialize, and signing with HMAC cannot fail; the token is the one
/// `signed_token` names; and `jsonwebtoken::decode` under the same secret
/// reads the same three claims out of it again, since it recomputes the
/// signature as `encode` made it and parses the JSON that `encode` wrote.
#[verifier::external_body]
pub(crate) fn sign_claims(sub: &str, company: &str, exp: u64, secret: &str) -> (signed: Result<
    String,
    jsonwebtoken::errors::Error,
>)
    ensures
        signed is Ok,
        signed matches Ok(token) ==> {
            &&& token@ == signed_token(sub@, company@, exp, secret@)
            &&& verified_payload(token@, secret@) == Some((Some(sub@), Some(company@), Some(exp)))
        },
{
    let mut claims = serde_json::Map::new();
    claims.insert("sub".to_owned(), serde_json::Value::from(sub));
    claims.insert("company".to_owned(), serde_json::Value::from(company));
    claims.insert("exp".to_owned(), serde_json::Value::from(exp));
    let header = jsonwebtoken::Header::new(jsonwebtoken::Algorithm::HS512);
    let key = jsonwebtoken::EncodingKey::from_secret(secret.as_bytes());
    jsonwebtoken::encode(&header, &claims, &key)
}

/// `jsonwebtoken::decode` for HS512 with the checks of expiry and audience
/// switched off, so that the clock is not read and the answer depends on the
/// token and the secret alone. Trusted: the call succeeds exactly where
/// `verified_payload` is `Some`, and the claims handed back are the ones it
/// names.
#[verifier::external_body]
pub(crate) fn decode_payload(token: &str, secret: &str) -> (decoded: Result<
    Payload,
    jsonwebtoken::errors::Error,
>)
    ensures
        match decoded {
            Ok(payload) => verified_payload(token@, secret@) == Some(
                (text_of(payload.sub), text_of(payload.company), payload.exp),
            ),
            Err(_) => verified_payload(token@, secret@) is None,
        },
{
    let mut validation = jsonwebtoken::Validation::new(jsonwebtoken::Algorithm::HS512);
    validation.validate_exp = false;
    validation.validate_aud = false;
    let key = jsonwebtoken::DecodingKey::from_secret(secret.as_bytes());
    let claims = jsonwebtoken::decode::<serde_json::Value>(token, &key, &validation)?.claims;
    Ok(Payload {
        sub: claims.get("sub").and_then(serde_json::Value::as_str).map(str::to_owned),
        company: claims.get("company").and_then(serde_json::Value::as_str).map(str::to_owned),
        exp: claims.get("exp").and_then(serde_json::Value::as_u64),
    })
}

/// `jsonwebtoken::get_current_timestamp`: the seconds since the Unix epoch on
/// this machine's clock. Nothing is claimed of the value.
#[verifier::external_body]
pub(crate) fn current_timestamp() -> (now: u64) {
    jsonwebtoken::get_current_timestamp()
}

/// `chrono::Utc::now` written by `DateTime::to_rfc3339_opts` with millisecond
/// precision and `Z` for the offset. Trusted: the text has the shape that
/// `is_utc_stamp` describes, which the format writes for every moment.
/// Nothing is claimed of the moment.
#[verifier::external_body]
pub(crate) fn now() -> (stamp: String)
    ensures
        is_utc_stamp(stamp@),
{
    chrono::Utc::now().to_rfc3339_opts(chrono::SecondsFormat::Millis, true)
}

/// `nanoid::format` with the crate's default generator, its URL-safe alphabet
/// and size 21, which is what `nanoid!()` stands for. Trusted: 21 characters,
/// each from that alphabet. Nothing is claimed of which.
#[verifier::external_body]
pub(crate) fn fresh_id() -> (id: String)
    ensures
        id@.len() == 21,
        forall|i: int| 0 <= i < id@.len() ==> is_id_char(#[trigger] id@[i]),
{
    nanoid::format(nanoid::rngs::default, &nanoid::alphabet::SAFE, 21)
}

/// `shellexpand::tilde`. Trusted: text without the home shorthand comes back
/// unchanged; with it, only the tilde is replaced, by whatever the machine
/// gives as the home directory, or by itself where it gives none.
#[verifier::external_body]
pub(crate) fn expand_tilde(dir: &str) -> (out: String)
    ensures
        expands_to(dir@, out@),
{
    shellexpand::tilde(dir).into_owned()
}

/// `serde_json::to_string` on a list of strings. Trusted: the call succeeds
/// exactly where `commands_json` is `Some`, with the text it names.
#[verifier::external_body]
pub(crate) fn commands_to_json(commands: &Vec<String>) -> (written: Result<
    String,
    serde_json::Error,
>)
    ensures
        match written {
            Ok(json) => commands_json(texts(commands@)) == Some(json@),
            Err(_) => commands_json(texts(commands@)) is None,
        },
{
    serde_json::to_string(commands)
}

} // verus!
