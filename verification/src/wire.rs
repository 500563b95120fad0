//! Trusted interface to the wire envelope library (`blather`) and to the
//! byte-buffer types that travel through it.
//!
//! The envelope types are declared opaque; their contents are named by
//! uninterpreted spec functions (`tg_topic`, `tg_params`, `params_map`,
//! `bytes_view`), and each method the protocol logic calls is wrapped by an
//! `external_body` function whose contract states, over those names, what the
//! library's source shows.

use vstd::prelude::*;

use crate::err::Error;

verus! {

#[verifier::external_type_specification]
#[verifier::external_body]
pub struct ExTelegram(blather::Telegram);

#[verifier::external_type_specification]
#[verifier::external_body]
pub struct ExParams(blather::Params);

#[verifier::external_type_specification]
#[verifier::external_body]
pub struct ExKVLines(blather::KVLines);

#[verifier::external_type_specification]
#[verifier::external_body]
pub struct ExBytes(bytes::Bytes);

#[verifier::external_type_specification]
#[verifier::external_body]
pub struct ExBytesMut(bytes::BytesMut);

/// The key/value pairs held by a parameter buffer.
pub uninterp spec fn params_map(p: blather::Params) -> Map<Seq<char>, Seq<char>>;

/// The topic string of a telegram.
pub uninterp spec fn tg_topic(t: blather::Telegram) -> Seq<char>;

/// The key/value pairs held by a telegram.
pub uninterp spec fn tg_params(t: blather::Telegram) -> Map<Seq<char>, Seq<char>>;

/// The size of the serialized form of a parameter buffer; a function of the
/// stored pairs alone.
pub uninterp spec fn params_wire_size(p: blather::Params) -> nat;

/// The bytes held by an immutable byte buffer.
pub uninterp spec fn bytes_view(b: bytes::Bytes) -> Seq<u8>;

/// An ASCII letter.
pub open spec fn ascii_alpha(c: char) -> bool {
    ('a' <= c && c <= 'z') || ('A' <= c && c <= 'Z')
}

/// An ASCII digit.
pub open spec fn ascii_digit(c: char) -> bool {
    '0' <= c && c <= '9'
}

/// An ASCII punctuation character.
pub open spec fn ascii_punct(c: char) -> bool {
    ('!' <= c && c <= '/') || (':' <= c && c <= '@') || ('[' <= c && c <= '`') || ('{' <= c
        && c <= '~')
}

/// A topic that the envelope library is sure to accept: a leading ASCII
/// letter followed by ASCII letters, digits, `_` or `-`.  (The library also
/// accepts some non-ASCII topics; this predicate only has to cover the
/// topics this crate sends.)
pub open spec fn topic_ok(s: Seq<char>) -> bool {
    &&& s.len() > 0
    &&& ascii_alpha(s[0])
    &&& forall|i: int|
        1 <= i < s.len() ==> ascii_alpha(#[trigger] s[i]) || ascii_digit(s[i]) || s[i] == '_'
            || s[i] == '-'
}

/// A parameter key that the envelope library is sure to accept: non-empty,
/// ASCII letters, digits or punctuation.
pub open spec fn key_ok(s: Seq<char>) -> bool {
    &&& s.len() > 0
    &&& forall|i: int|
        0 <= i < s.len() ==> ascii_alpha(#[trigger] s[i]) || ascii_digit(s[i]) || ascii_punct(s[i])
}

/// A parameter value that the envelope library accepts: no newline.
pub open spec fn value_ok(s: Seq<char>) -> bool {
    forall|i: int| 0 <= i < s.len() ==> #[trigger] s[i] != '\n'
}

/// The empty key/value mapping.
pub open spec fn empty_fields() -> Map<Seq<char>, Seq<char>> {
    Map::empty()
}

/// Relies on `blather::Telegram::try_new`: returns `Ok` when the topic is
/// well-formed (leading alphabetic character, then alphanumeric, `_` or `-`);
/// the new telegram carries that topic and no parameters.
#[verifier::external_body]
pub fn tg_new(topic: &str) -> (r: Result<blather::Telegram, Error>)
    ensures
        r is Err ==> !topic_ok(topic@),
        r matches Ok(t) ==> tg_topic(t) == topic@ && tg_params(t) == empty_fields(),
{
    blather::Telegram::try_new(topic).map_err(|e| Error::Blather(e.to_string()))
}

/// Relies on `blather::Params::add_str` (reached through the telegram's
/// `DerefMut`): validates the key and value, then inserts the pair,
/// replacing any previous value under the same key.
#[verifier::external_body]
pub fn tg_add_str(t: &mut blather::Telegram, key: &str, value: &str) -> (r: Result<(), Error>)
    ensures
        r is Err ==> !(key_ok(key@) && value_ok(value@)),
        r is Ok ==> value_ok(value@),
        r is Ok ==> tg_topic(*final(t)) == tg_topic(*old(t)) && tg_params(*final(t)) == tg_params(
            *old(t),
        ).insert(key@, value@),
        r is Err ==> *final(t) == *old(t),
{
    t.add_str(key, value).map_err(|e| Error::Blather(e.to_string()))
}

/// Relies on `blather::Telegram::get_topic`: returns the telegram's topic.
#[verifier::external_body]
pub fn tg_get_topic<'a>(t: &'a blather::Telegram) -> (r: &'a str)
    ensures
        r@ == tg_topic(*t),
{
    t.get_topic()
}

/// Relies on `blather::Telegram::into_params`: consumes the telegram and
/// hands back its parameter buffer.
#[verifier::external_body]
pub fn tg_into_params(t: blather::Telegram) -> (r: blather::Params)
    ensures
        params_map(r) == tg_params(t),
{
    t.into_params()
}

/// Relies on `blather::Params::get_str`: returns the value stored under the
/// key, or `None` if the key is absent.
#[verifier::external_body]
pub fn params_get_str<'a>(p: &'a blather::Params, key: &str) -> (r: Option<&'a str>)
    ensures
        r matches Some(v) ==> params_map(*p).contains_key(key@) && v@ == params_map(*p)[key@],
        r is None ==> !params_map(*p).contains_key(key@),
{
    p.get_str(key)
}

/// Relies on `blather::Params::calc_buf_size`: the size of the serialized
/// parameter block, a function of the stored pairs alone.
#[verifier::external_body]
pub fn params_size(p: &blather::Params) -> (r: usize)
    ensures
        r as nat == params_wire_size(*p),
{
    p.calc_buf_size()
}

/// Relies on `bytes::Bytes::len`.
#[verifier::external_body]
pub fn bytes_len(b: &bytes::Bytes) -> (r: usize)
    ensures
        r as nat == bytes_view(*b).len(),
{
    b.len()
}

} // verus!
