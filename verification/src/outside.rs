//! The trusted boundary: every call that leaves verified code stands here.
use crate::encoding::{component_encoded, form_encoded, is_value_text};
use crate::text::is_ascii_whitespace;
use crate::urls::{is_plain_host, is_plain_path, keeps_form, page_with_fragment, reads_back};
use crate::urls::{pair_texts, url_parts, with_params, ParsedUrl, UrlParts};
use base64::Engine;
use rand::Rng;
use vstd::prelude::*;
use vstd::utf8::{decode_utf8, encode_utf8, valid_utf8};

verus! {

/// `String::push` of std: appends one character to the end of the text.
pub assume_specification[ String::push ](text: &mut String, c: char)
    ensures
        final(text)@ == old(text)@.push(c),
;

/// `String::from_utf8` of std: succeeds exactly on valid UTF-8, and then holds the characters
/// that the bytes encode. The reason for a failure is not kept.
#[verifier::external_body]
pub(crate) fn text_from_utf8(bytes: Vec<u8>) -> (text: Option<String>)
    ensures
        text is Some <==> valid_utf8(bytes@),
        text matches Some(t) ==> t@ == decode_utf8(bytes@),
{
    String::from_utf8(bytes).ok()
}

/// What `str::to_lowercase` of std makes of a text: each character in lower case as Unicode has
/// it.
pub uninterp spec fn lowercased(text: Seq<char>) -> Seq<char>;

/// `str::to_lowercase` of std, whose result goes by the name `lowercased`.
#[verifier::external_body]
pub(crate) fn lowercase(text: &str) -> (lower: String)
    ensures
        lower@ == lowercased(text@),
{
    text.to_lowercase()
}

/// What `Url::parse` of the crate `url` makes of a text: the parts of an absolute URL, or nothing
/// if the text is none.
pub uninterp spec fn url_parse(input: Seq<char>) -> Option<UrlParts>;

/// `Url::parse` of the crate `url`, whose result goes by the name `url_parse`. The parts are what
/// `as_str`, `scheme` and `host_str` give; the URL begins with its scheme and a colon. The reason
/// for a failure is not kept.
///
/// A URL with a host holds no ASCII white space, since the parser drops it, encodes it or refuses
/// it. It parses back from its own text to the same parts, which the crate takes for an invariant.
/// This is stated for schemes other than `file`, because `file://a//C:/` becomes `file://a/C:/`,
/// which then loses its host, and for hosts of up to `HOST_LIMIT` characters, because Punycode that
/// is longer is written but not read. A page whose host and path are plain letters, with nothing
/// behind it but a fragment of value characters, is its own normal form.
#[verifier::external_body]
pub(crate) fn parse_url(input: &str) -> (url: Option<ParsedUrl>)
    ensures
        url_parts(url) == url_parse(input@),
        url matches Some(u) ==> u.scheme@.push(':').is_prefix_of(u.text@),
        url matches Some(u) ==> (u.host is Some ==> forall|i: int|
            0 <= i < u.text@.len() ==> !is_ascii_whitespace(#[trigger] u.text@[i])),
        url matches Some(u) ==> (keeps_form(u@) ==> reads_back(u@)),
        forall|host: Seq<char>, path: Seq<char>, fragment: Seq<char>|
            is_plain_host(host) && is_plain_path(path) && is_value_text(fragment) && input@ == (
            #[trigger] page_with_fragment(host, path, fragment)).text ==> url_parts(url) == Some(
                page_with_fragment(host, path, fragment),
            ),
{
    let url = url::Url::parse(input).ok()?;
    Some(ParsedUrl {
        text: url.as_str().to_owned(),
        scheme: url.scheme().to_owned(),
        host: url.host_str().map(str::to_owned),
    })
}

/// `Url::parse_with_params` of the crate `url`: parses as `Url::parse` does, and appends the pairs
/// to the query, in front of the fragment. Texts of more than four thousand characters are kept
/// out, since the call panics where a URL outgrows 32 bits.
#[verifier::external_body]
pub(crate) fn parse_url_with_params(
    input: &str,
    pairs: &Vec<(&'static str, &'static str)>,
) -> (url: Option<String>)
    requires
        input@.len() <= 4096,
        pairs@.len() <= 16,
        forall|i: int|
            0 <= i < pairs@.len() ==> (#[trigger] pairs@[i]).0@.len() <= 4096 && pairs@[i].1@.len()
                <= 4096,
    ensures
        url is Some <==> url_parse(input@) is Some,
        url matches Some(u) ==> u@ == with_params(
            url_parse(input@)->0.text,
            pair_texts(pairs@),
        ),
{
    url::Url::parse_with_params(input, pairs).ok().map(String::from)
}

/// `form_urlencoded::byte_serialize` of the crate `url`, with its pieces put together: the bytes
/// as a form value.
#[verifier::external_body]
pub(crate) fn form_value(bytes: &[u8]) -> (text: String)
    ensures
        text@ == form_encoded(bytes@),
{
    url::form_urlencoded::byte_serialize(bytes).collect::<String>()
}

/// `encode` of the crate `urlencoding`: the UTF-8 bytes of the text, percent-encoded.
#[verifier::external_body]
pub(crate) fn url_component(text: &str) -> (encoded: String)
    ensures
        encoded@ == component_encoded(encode_utf8(text@)),
{
    urlencoding::encode(text).into_owned()
}

/// What the standard engine of the crate `base64` decodes a text to: the standard alphabet, with
/// padding; nothing if the text is not written so.
pub uninterp spec fn base64_decoded(text: Seq<char>) -> Option<Seq<u8>>;

/// The bytes of an optional vector.
pub open spec fn optional_bytes(bytes: Option<Vec<u8>>) -> Option<Seq<u8>> {
    match bytes {
        Some(bytes) => Some(bytes@),
        None => None,
    }
}

/// `Engine::decode` of the crate `base64` on its `STANDARD` engine, whose result goes by the name
/// `base64_decoded`. The reason for a failure is not kept.
#[verifier::external_body]
pub(crate) fn decode_base64(text: &str) -> (bytes: Option<Vec<u8>>)
    ensures
        optional_bytes(bytes) == base64_decoded(text@),
{
    base64::engine::general_purpose::STANDARD.decode(text).ok()
}

/// `Rng::gen_range` of the crate `rand` on the generator of the thread: some index below `n`.
/// Which one it is, is left to chance.
#[verifier::external_body]
pub(crate) fn random_index(n: usize) -> (index: usize)
    requires
        n > 0,
    ensures
        index < n,
{
    rand::thread_rng().gen_range(0..n)
}

} // verus!
