use base64::Engine;
use rand::Rng;
use vstd::prelude::*;


verus! {

/// The text that base64's `STANDARD` engine gives for the UTF-8 bytes of `text`.
pub uninterp spec fn base64_encoding(text: Seq<char>) -> Seq<char>;

/// The bytes that base64's `STANDARD` engine decodes from `text`, or `None` where it refuses
/// the text.
pub uninterp spec fn base64_decoding(text: Seq<char>) -> Option<Seq<u8>>;

/// The compact JSON text that serde_json writes for an object of string members.
pub uninterp spec fn json_object_text_of(members: Seq<(Seq<char>, Seq<char>)>) -> Seq<char>;

/// What serde_json finds in `text` under the top-level member `field`: `None` where `text` is
/// not JSON, `Some(None)` where there is no string member of that name, `Some(Some(s))` where
/// the member is the string `s`.
pub uninterp spec fn json_string_member(text: Seq<char>, field: Seq<char>) -> Option<
    Option<Seq<char>>,
>;

/// What `str::to_lowercase` gives for `text`.
pub uninterp spec fn unicode_lowercase(text: Seq<char>) -> Seq<char>;

/// A character of the standard base64 alphabet or its padding.
pub open spec fn is_base64_char(c: char) -> bool {
    ||| 'A' <= c <= 'Z'
    ||| 'a' <= c <= 'z'
    ||| '0' <= c <= '9'
    ||| c == '+'
    ||| c == '/'
    ||| c == '='
}

/// Calls `rand::Rng::gen_range` on `rand::thread_rng()` with the range `'a'..='z'`. The
/// contract claims only that the letter lies in that range; which letter comes back is left
/// to chance. (`thread_rng` panics only where the operating system gives no randomness.)
#[verifier::external_body]
pub(crate) fn random_lowercase_letter() -> (c: char)
    ensures
        'a' <= c <= 'z',
{
    rand::thread_rng().gen_range('a'..='z')
}

/// Calls `String::push`: the character is appended to the string.
#[verifier::external_body]
pub(crate) fn push_char(s: &mut String, c: char)
    ensures
        final(s)@ == old(s)@.push(c),
{
    s.push(c)
}

/// Calls `base64::Engine::encode` on `base64::engine::general_purpose::STANDARD` with the
/// UTF-8 bytes of `text`. Claimed: the result is the named encoding of `text`, it is made of
/// the base64 alphabet and `=` only, and the same engine decodes it back to those bytes (the
/// encoding is lossless). `encode` panics only where the encoded length overflows `usize`,
/// which the bound on the input rules out.
#[verifier::external_body]
pub(crate) fn encode_base64(text: &str) -> (r: String)
    requires
        vstd::utf8::encode_utf8(text@).len() <= isize::MAX,
    ensures
        r@ == base64_encoding(text@),
        forall|i: int| 0 <= i < r@.len() ==> is_base64_char(#[trigger] r@[i]),
        base64_decoding(r@) == Some(vstd::utf8::encode_utf8(text@)),
{
    base64::engine::general_purpose::STANDARD.encode(text)
}

/// Calls `base64::Engine::decode` on `base64::engine::general_purpose::STANDARD` with the
/// UTF-8 bytes of `text`; an error becomes `None`.
#[verifier::external_body]
pub(crate) fn decode_base64(text: &str) -> (r: Option<Vec<u8>>)
    ensures
        match r {
            Some(b) => base64_decoding(text@) == Some(b@),
            None => base64_decoding(text@) is None,
        },
{
    base64::engine::general_purpose::STANDARD.decode(text).ok()
}

/// Builds a `serde_json::Value::Object` from the string members and writes it with its
/// `Display` impl (compact JSON, as `serde_json::to_string` writes it). The text is named,
/// not stated; claimed beside the name is only that, as any `String`, it holds at most
/// `isize::MAX` bytes.
#[verifier::external_body]
pub(crate) fn json_object_text(members: &Vec<(String, String)>) -> (r: String)
    ensures
        r@ == json_object_text_of(members@.map_values(|m: (String, String)| (m.0@, m.1@))),
        vstd::utf8::encode_utf8(r@).len() <= isize::MAX,
{
    let map: serde_json::Map<String, serde_json::Value> = members.iter().map(
        |m| (m.0.clone(), serde_json::Value::String(m.1.clone())),
    ).collect();
    serde_json::Value::Object(map).to_string()
}

/// Calls `serde_json::from_str::<serde_json::Value>` on `text`, then indexes the value with
/// `field` and takes `as_str`: `None` where parsing fails. The result is named, not stated.
#[verifier::external_body]
pub(crate) fn json_string_field(text: &str, field: &str) -> (r: Option<Option<String>>)
    ensures
        match r {
            None => json_string_member(text@, field@) is None,
            Some(None) => json_string_member(text@, field@) == Some(None::<Seq<char>>),
            Some(Some(s)) => json_string_member(text@, field@) == Some(Some(s@)),
        },
{
    match serde_json::from_str::<serde_json::Value>(text) {
        Ok(v) => Some(v[field].as_str().map(str::to_owned)),
        Err(_) => None,
    }
}

/// Calls `String::from_utf8`: the bytes become a string exactly when they are valid UTF-8,
/// and the string holds the characters they encode.
#[verifier::external_body]
pub(crate) fn utf8_to_string(bytes: Vec<u8>) -> (r: Option<String>)
    ensures
        match r {
            Some(s) => vstd::utf8::valid_utf8(bytes@) && s@ == vstd::utf8::decode_utf8(bytes@),
            None => !vstd::utf8::valid_utf8(bytes@),
        },
{
    String::from_utf8(bytes).ok()
}

/// Calls `str::to_lowercase`. The result is named, not stated.
#[verifier::external_body]
pub(crate) fn to_lowercase(text: &str) -> (r: String)
    ensures
        r@ == unicode_lowercase(text@),
{
    text.to_lowercase()
}

} // verus!
