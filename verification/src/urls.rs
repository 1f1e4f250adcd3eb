//! URLs, as far as the shell looks at them.
use crate::encoding::form_encoded;
use crate::outside::url_parse;
use crate::text::{lemma_position, position};
use vstd::prelude::*;
use vstd::utf8::encode_utf8;

verus! {

/// The parts of a URL that the shell looks at.
#[derive(Debug, Clone, PartialEq, Eq)]
pub struct ParsedUrl {
    /// The whole URL, as it is written in its normal form.
    pub text: String,
    /// The scheme, without the colon.
    pub scheme: String,
    /// The domain or address of the host; an IPv6 address stands in square brackets.
    pub host: Option<String>,
}

/// The texts of a `ParsedUrl`.
#[verifier::ext_equal]
pub struct UrlParts {
    pub text: Seq<char>,
    pub scheme: Seq<char>,
    pub host: Option<Seq<char>>,
}

impl View for ParsedUrl {
    type V = UrlParts;

    open spec fn view(&self) -> UrlParts {
        UrlParts {
            text: self.text@,
            scheme: self.scheme@,
            host: match self.host {
                Some(host) => Some(host@),
                None => None,
            },
        }
    }
}

/// The texts of an optional `ParsedUrl`.
pub open spec fn url_parts(url: Option<ParsedUrl>) -> Option<UrlParts> {
    match url {
        Some(url) => Some(url@),
        None => None,
    }
}

/// Whether the URL parser reads a URL back from its own text.
pub open spec fn reads_back(url: UrlParts) -> bool {
    url_parse(url.text) == Some(url)
}

/// The length up to which the URL parser reads every host back, whatever it encodes.
pub const HOST_LIMIT: usize = 2000;

/// Whether a URL is of the kind that the URL parser reads back from its own text: one with a host
/// that is not overlong. File URLs are left out, since the parser may take a drive letter in their
/// path as a reason to drop their host.
pub open spec fn keeps_form(url: UrlParts) -> bool {
    &&& url.host is Some
    &&& url.host->0.len() <= HOST_LIMIT
    &&& url.scheme != "file"@
}

/// Whether `host` is a name in small letters, with single dots between its labels.
pub open spec fn is_plain_host(host: Seq<char>) -> bool {
    &&& 0 < host.len() <= 253
    &&& forall|i: int|
        0 <= i < host.len() ==> ('a' <= #[trigger] host[i] && host[i] <= 'z') || (host[i] == '.' && 0
            < i < host.len() - 1 && host[i - 1] != '.')
}

/// Whether `path` is made of small letters.
pub open spec fn is_plain_path(path: Seq<char>) -> bool {
    &&& path.len() <= 253
    &&& forall|i: int| 0 <= i < path.len() ==> 'a' <= #[trigger] path[i] && path[i] <= 'z'
}

/// A page on the web with a fragment behind it.
pub open spec fn page_with_fragment(
    host: Seq<char>,
    path: Seq<char>,
    fragment: Seq<char>,
) -> UrlParts {
    UrlParts {
        text: "https://"@ + host + "/"@ + path + "#"@ + fragment,
        scheme: "https"@,
        host: Some(host),
    }
}

/// A URL without its fragment.
pub open spec fn before_fragment(url: Seq<char>) -> Seq<char> {
    url.take(position(url, '#'))
}

/// The texts of a list of pairs.
pub open spec fn pair_texts(pairs: Seq<(&'static str, &'static str)>) -> Seq<
    (Seq<char>, Seq<char>),
> {
    pairs.map_values(|pair: (&'static str, &'static str)| (pair.0@, pair.1@))
}

/// The pairs behind a query that begins at `start`: form values, an equals sign in each pair and
/// an ampersand in front of each but the first.
pub open spec fn with_pairs(
    url: Seq<char>,
    start: int,
    pairs: Seq<(Seq<char>, Seq<char>)>,
) -> Seq<char>
    decreases pairs.len(),
{
    if pairs.len() == 0 {
        url
    } else {
        let separated = if url.len() > start {
            url.push('&')
        } else {
            url
        };
        with_pairs(
            separated + form_encoded(encode_utf8(pairs[0].0)) + seq!['='] + form_encoded(
                encode_utf8(pairs[0].1),
            ),
            start,
            pairs.drop_first(),
        )
    }
}

/// A URL in its normal form with more pairs in its query, which is added if there is none.
pub open spec fn with_params(
    url: Seq<char>,
    pairs: Seq<(Seq<char>, Seq<char>)>,
) -> Seq<char> {
    let front = before_fragment(url);
    let queried = if front.contains('?') {
        front
    } else {
        front.push('?')
    };
    with_pairs(queried, position(queried, '?') + 1, pairs) + url.skip(front.len() as int)
}

/// Pairs go behind what they are appended to.
proof fn lemma_pairs_behind(url: Seq<char>, start: int, pairs: Seq<(Seq<char>, Seq<char>)>)
    ensures
        url.is_prefix_of(with_pairs(url, start, pairs)),
    decreases pairs.len(),
{
    if pairs.len() > 0 {
        let separated = if url.len() > start {
            url.push('&')
        } else {
            url
        };
        let longer = separated + form_encoded(encode_utf8(pairs[0].0)) + seq!['='] + form_encoded(
            encode_utf8(pairs[0].1),
        );
        lemma_pairs_behind(longer, start, pairs.drop_first());
        assert(url.is_prefix_of(longer));
    }
}

/// Parameters change neither what a URL says in front of its query nor the query that it has, nor
/// its fragment: the new URL begins with the old one up to its fragment, and ends with that.
pub proof fn law_params_are_appended(url: Seq<char>, pairs: Seq<(Seq<char>, Seq<char>)>)
    ensures
        before_fragment(url).is_prefix_of(with_params(url, pairs)),
        url.skip(before_fragment(url).len() as int).is_suffix_of(with_params(url, pairs)),
{
    lemma_position(url, '#');
    let front = before_fragment(url);
    let queried = if front.contains('?') {
        front
    } else {
        front.push('?')
    };
    let start = position(queried, '?') + 1;
    lemma_pairs_behind(queried, start, pairs);
    let middle = with_pairs(queried, start, pairs);
    let tail = url.skip(front.len() as int);
    assert(with_params(url, pairs) == middle + tail);
    assert(queried =~= middle.subrange(0, queried.len() as int));
    assert(front =~= (middle + tail).subrange(0, front.len() as int)) by {
        assert forall|i: int| 0 <= i < front.len() implies front[i] == (middle + tail)[i] by {
            assert(queried[i] == middle.subrange(0, queried.len() as int)[i]);
        }
    }
    assert((middle + tail).subrange(middle.len() as int, (middle + tail).len() as int) =~= tail);
}

/// A parsed URL stands for its own text, scheme and host.
pub proof fn law_url_parts_are_those_of_the_url(url: ParsedUrl)
    ensures
        url@.text == url.text@,
        url@.scheme == url.scheme@,
        url.host matches Some(host) ==> url@.host == Some(host@),
        url.host is None ==> url@.host is None,
        url_parts(Some(url)) == Some(url@),
        url_parts(None) is None,
{
}

} // verus!
