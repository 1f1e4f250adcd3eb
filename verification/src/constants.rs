//! The addresses that the shell knows, and what it makes of addresses that it is given.
use crate::encoding::{component_encoded, form_encoded, read_back};
use crate::encoding::{is_value_text, law_component_is_confined, law_component_reads_back};
use crate::encoding::law_form_value_reads_back;
use crate::outside::{form_value, lowercase, lowercased, parse_url, url_component, url_parse};
use crate::text::{law_trim_end, optional_text, same_text, starts_with, trim_end, trim_end_text};
use crate::urls::{is_plain_host, is_plain_path, page_with_fragment, reads_back, url_parts};
use crate::urls::{ParsedUrl, UrlParts, HOST_LIMIT};
use vstd::prelude::*;
use vstd::utf8::encode_utf8;

verus! {

pub const APP_NAME: &'static str = "Stremio";

/// The named pipe of the single application, without the user's part.
pub const IPC_PATH: &'static str = "//./pipe/com.stremio5.";

pub const DEV_ENDPOINT: &'static str = "http://127.0.0.1:11470";

pub const WEB_ENDPOINT: &'static str = "https://web.stremio.com/";

pub const STA_ENDPOINT: &'static str = "https://staging.strem.io/";

pub const WINDOW_MIN_WIDTH: i32 = 0;

pub const WINDOW_MIN_HEIGHT: i32 = 0;

/// The seconds between two looks for an update.
pub const UPDATE_INTERVAL: u64 = 43200;

pub const STREMIO_SERVER_DEV_MODE: &'static str = "STREMIO_SERVER_DEV_MODE";

pub const SRV_BUFFER_SIZE: usize = 1024;

pub const SERVER_IPC_KEY: &'static str = "SERVER_IPC_KEY";

pub const SRV_LOG_SIZE: usize = 20;

/// The page that warns of a foreign address, which stands in its fragment.
pub const WARNING_URL: &'static str = "https://www.stremio.com/warning#";

/// The hosts that are opened without a warning.
pub open spec fn whitelist() -> Seq<Seq<char>> {
    seq![
        "stremio.com"@,
        "www.stremio.com"@,
        "web.stremio.com"@,
        "app.stremio.com"@,
        "strem.io"@,
        "api.strem.io"@,
        "stremio.zendesk.com"@,
        "google.com"@,
        "www.google.com"@,
        "youtube.com"@,
        "www.youtube.com"@,
        "twitch.tv"@,
        "twitter.com"@,
        "x.com"@,
        "netflix.com"@,
        "adex.network"@,
        "amazon.com"@,
        "forms.gle"@,
        "www.hbomax.com"@,
        "play.hbomax.com"@,
        "www.disneyplus.com"@,
        "imdb.com"@,
    ]
}

/// The texts of a list of constant texts.
pub open spec fn literals(list: Seq<&'static str>) -> Seq<Seq<char>> {
    list.map_values(|s: &'static str| s@)
}

/// The hosts that are opened without a warning.
pub fn whitelisted_hosts() -> (hosts: Vec<&'static str>)
    ensures
        literals(hosts@) == whitelist(),
{
    let hosts = vec![
        "stremio.com",
        "www.stremio.com",
        "web.stremio.com",
        "app.stremio.com",
        "strem.io",
        "api.strem.io",
        "stremio.zendesk.com",
        "google.com",
        "www.google.com",
        "youtube.com",
        "www.youtube.com",
        "twitch.tv",
        "twitter.com",
        "x.com",
        "netflix.com",
        "adex.network",
        "amazon.com",
        "forms.gle",
        "www.hbomax.com",
        "play.hbomax.com",
        "www.disneyplus.com",
        "imdb.com",
    ];
    assert(literals(hosts@) =~= whitelist());
    hosts
}

/// Whether `text` is one of `list`.
pub fn is_one_of(text: &str, list: &Vec<&'static str>) -> (found: bool)
    ensures
        found == literals(list@).contains(text@),
{
    let mut i: usize = 0;
    while i < list.len()
        invariant
            i <= list.len(),
            forall|k: int| 0 <= k < i ==> literals(list@)[k] != text@,
        decreases list.len() - i,
    {
        if same_text(text, list[i]) {
            assert(literals(list@)[i as int] == text@);
            return true;
        }
        i += 1;
    }
    false
}

/// The address of the web interface, with the address of the streaming server in its fragment.
pub open spec fn web_endpoint_for(server_url: Seq<char>) -> Seq<char> {
    trim_end(WEB_ENDPOINT@, '/') + "/#/?streamingServerUrl="@ + form_encoded(
        encode_utf8(trim_end(server_url, '/')),
    )
}

/// The address of the web interface that is to use the streaming server at `server_url`.
pub fn web_endpoint_with_streaming_server(server_url: &str) -> (endpoint: String)
    ensures
        endpoint@ == web_endpoint_for(server_url@),
{
    let server_url = trim_end_text(server_url, '/');
    let streaming_server_url = form_value(server_url.as_str().as_bytes());
    let mut endpoint = trim_end_text(WEB_ENDPOINT, '/');
    endpoint.append("/#/?streamingServerUrl=");
    endpoint.append(streaming_server_url.as_str());
    endpoint
}

/// Whether the host of a URL is known.
pub open spec fn is_known(url: UrlParts) -> bool {
    url.host is Some && whitelist().contains(url.host->0)
}

/// The page that warns of a URL, and what is to be read in its address.
pub open spec fn warning_page(url: Seq<char>) -> UrlParts {
    UrlParts {
        text: WARNING_URL@ + component_encoded(encode_utf8(url)),
        scheme: "https"@,
        host: Some("www.stremio.com"@),
    }
}

/// The address that is opened for a URL: the URL itself if its host is known, else the page that
/// warns of it. There is none for what is no URL.
pub open spec fn shown_url(url: Option<UrlParts>) -> Option<Seq<char>> {
    match url {
        Some(parts) => if is_known(parts) {
            Some(parts.text)
        } else {
            Some(warning_page(parts.text).text)
        },
        None => None,
    }
}

/// The address that is opened for a URL.
pub fn safe_url_of(url: Option<ParsedUrl>) -> (shown: Option<String>)
    ensures
        optional_text(shown) == shown_url(url_parts(url)),
{
    match url {
        Some(url) => {
            let is_whitelisted = match &url.host {
                Some(host) => is_one_of(host.as_str(), &whitelisted_hosts()),
                None => false,
            };
            if is_whitelisted {
                Some(url.text)
            } else {
                let mut shown = WARNING_URL.to_owned();
                shown.append(url_component(url.text.as_str()).as_str());
                Some(shown)
            }
        },
        None => None,
    }
}

/// The address that is opened for the text `uri`. An address with a known host is opened again as
/// it is, unless it is that of a file.
pub fn safe_url(uri: &str) -> (shown: Option<String>)
    ensures
        optional_text(shown) == shown_url(url_parse(uri@)),
        url_parse(uri@) matches Some(url) ==> (is_known(url) && is_settled(url) ==> {
            &&& reads_back(url)
            &&& shown_url(url_parse(url.text)) == Some(url.text)
        }),
{
    let url = parse_url(uri);
    proof {
        if url is Some && is_known(url->0@) {
            lemma_known_host_is_short(url->0@);
        }
    }
    safe_url_of(url)
}

/// Whether what is opened for a URL has a settled form: it has unless it is the address of a file
/// on a known host.
pub open spec fn is_settled(url: UrlParts) -> bool {
    !(is_known(url) && url.scheme == "file"@)
}

/// The page that is opened for the text `uri`, as the URL parser reads its address. Its host is
/// known, and when it is opened in turn, it is opened as it is; only the address of a file on a
/// known host may change.
pub fn safe_page(uri: &str) -> (page: Option<ParsedUrl>)
    ensures
        url_parts(page) == match shown_url(url_parse(uri@)) {
            Some(shown) => url_parse(shown),
            None => None,
        },
        url_parse(uri@) matches Some(url) ==> (is_settled(url) ==> page is Some && {
            let parts = page->0@;
            &&& shown_url(url_parse(uri@)) == Some(parts.text)
            &&& is_known(parts)
            &&& shown_url(url_parse(parts.text)) == Some(parts.text)
        }),
{
    match safe_url(uri) {
        Some(shown) => {
            let page = parse_url(shown.as_str());
            proof {
                let url = url_parse(uri@)->0;
                law_shown_is_shown_again(uri@);
                if !is_known(url) {
                    lemma_warning_page(url.text);
                }
            }
            page
        },
        None => None,
    }
}

/// A known host is a short name.
proof fn lemma_known_host_is_short(url: UrlParts)
    requires
        is_known(url),
    ensures
        url.host->0.len() <= HOST_LIMIT,
{
    reveal_strlit("stremio.com");
    reveal_strlit("www.stremio.com");
    reveal_strlit("web.stremio.com");
    reveal_strlit("app.stremio.com");
    reveal_strlit("strem.io");
    reveal_strlit("api.strem.io");
    reveal_strlit("stremio.zendesk.com");
    reveal_strlit("google.com");
    reveal_strlit("www.google.com");
    reveal_strlit("youtube.com");
    reveal_strlit("www.youtube.com");
    reveal_strlit("twitch.tv");
    reveal_strlit("twitter.com");
    reveal_strlit("x.com");
    reveal_strlit("netflix.com");
    reveal_strlit("adex.network");
    reveal_strlit("amazon.com");
    reveal_strlit("forms.gle");
    reveal_strlit("www.hbomax.com");
    reveal_strlit("play.hbomax.com");
    reveal_strlit("www.disneyplus.com");
    reveal_strlit("imdb.com");
}

/// The page that warns of a URL is a plain page with a fragment.
proof fn lemma_warning_page(url: Seq<char>)
    ensures
        ({
            let fragment = component_encoded(encode_utf8(url));
            &&& is_plain_host("www.stremio.com"@)
            &&& is_plain_path("warning"@)
            &&& is_value_text(fragment)
            &&& warning_page(url) == page_with_fragment("www.stremio.com"@, "warning"@, fragment)
        }),
{
    reveal_strlit("https://www.stremio.com/warning#");
    reveal_strlit("https://");
    reveal_strlit("www.stremio.com");
    reveal_strlit("/");
    reveal_strlit("warning");
    reveal_strlit("#");
    law_component_is_confined(encode_utf8(url));
    assert("https://"@ + "www.stremio.com"@ + "/"@ + "warning"@ + "#"@ =~= WARNING_URL@);
}

/// The beginnings of the addresses that may be opened outside of the shell.
pub open spec fn has_open_scheme(lower: Seq<char>) -> bool {
    ||| "http://"@.is_prefix_of(lower)
    ||| "https://"@.is_prefix_of(lower)
    ||| "rtp://"@.is_prefix_of(lower)
    ||| "rtps://"@.is_prefix_of(lower)
    ||| "ftp://"@.is_prefix_of(lower)
    ||| "ipfs://"@.is_prefix_of(lower)
}

/// Whether an address in lower case may be opened outside of the shell.
pub fn may_open(lower: &str) -> (may: bool)
    ensures
        may == has_open_scheme(lower@),
{
    starts_with(lower, "http://") || starts_with(lower, "https://") || starts_with(lower, "rtp://")
        || starts_with(lower, "rtps://") || starts_with(lower, "ftp://") || starts_with(
        lower,
        "ipfs://",
    )
}

/// What is opened outside of the shell when the web interface asks for `arg`.
pub open spec fn external_target(arg: Seq<char>) -> Option<Seq<char>> {
    if has_open_scheme(lowercased(arg)) {
        shown_url(url_parse(arg))
    } else {
        None
    }
}

/// What is opened outside of the shell when the web interface asks for `arg`.
pub fn open_external(arg: &str) -> (target: Option<String>)
    ensures
        optional_text(target) == external_target(arg@),
{
    if may_open(lowercase(arg).as_str()) {
        safe_url(arg)
    } else {
        None
    }
}

/// A URL is shown as it is only if its host is known. Of any other URL the warning is shown, and
/// the page finds the URL, byte for byte, in the fragment of its own address.
pub proof fn law_foreign_hosts_are_warned_of(url: UrlParts)
    ensures
        shown_url(Some(url)) is Some,
        ({
            let shown = shown_url(Some(url))->0;
            if is_known(url) {
                shown == url.text
            } else {
                &&& WARNING_URL@.is_prefix_of(shown)
                &&& read_back(shown.skip(WARNING_URL@.len() as int), 0x2B) == encode_utf8(url.text)
            }
        }),
{
    if !is_known(url) {
        let shown = shown_url(Some(url))->0;
        assert(shown.skip(WARNING_URL@.len() as int) =~= component_encoded(encode_utf8(url.text)));
        law_component_reads_back(encode_utf8(url.text));
    }
}

/// Nothing is opened outside of the shell but what begins, in lower case, as one of the addresses
/// that may be opened; and of those what is opened is a known address, or the warning.
pub proof fn law_only_listed_schemes_are_opened(arg: Seq<char>)
    ensures
        external_target(arg) matches Some(target) ==> {
            &&& has_open_scheme(lowercased(arg))
            &&& url_parse(arg) is Some
            &&& target == url_parse(arg)->0.text || WARNING_URL@.is_prefix_of(target)
        },
        has_open_scheme(lowercased(arg)) && url_parse(arg) is Some ==> external_target(arg) is Some,
{
    if external_target(arg) is Some {
        law_foreign_hosts_are_warned_of(url_parse(arg)->0);
    }
}

/// What is shown for a URL is an address with a known host, and is shown again unchanged, where the
/// URL parser reads that address back as it was written: the URL itself if its host is known, and
/// the page of the warning otherwise. `safe_page` shows that it does.
pub proof fn law_shown_is_shown_again(uri: Seq<char>)
    ensures
        url_parse(uri) matches Some(url) ==> {
            let page = if is_known(url) {
                url
            } else {
                warning_page(url.text)
            };
            reads_back(page) ==> {
                &&& shown_url(url_parse(uri)) == Some(page.text)
                &&& url_parse(page.text) == Some(page)
                &&& is_known(page)
                &&& shown_url(url_parse(page.text)) == Some(page.text)
            }
        },
{
    assert(whitelist()[1] == "www.stremio.com"@);
    assert(whitelist().contains("www.stremio.com"@));
}

/// The web interface finds the address of the streaming server, byte for byte and without the
/// slashes at its end, behind the equals sign of its own address.
pub proof fn law_streaming_server_reads_back(server_url: Seq<char>)
    ensures
        ({
            let front = trim_end(WEB_ENDPOINT@, '/') + "/#/?streamingServerUrl="@;
            &&& front.is_prefix_of(web_endpoint_for(server_url))
            &&& read_back(web_endpoint_for(server_url).skip(front.len() as int), 0x20)
                == encode_utf8(trim_end(server_url, '/'))
        }),
{
    let front = trim_end(WEB_ENDPOINT@, '/') + "/#/?streamingServerUrl="@;
    let bytes = encode_utf8(trim_end(server_url, '/'));
    assert(web_endpoint_for(server_url).skip(front.len() as int) =~= form_encoded(bytes));
    law_form_value_reads_back(bytes);
}

/// A URL is opened as it is exactly if its host is one of the twenty-two that are trusted, whatever
/// else it says; any other URL is opened as the page of the warning, with the URL in its fragment.
/// What is no URL is not opened.
pub proof fn law_trusted_hosts_are_opened(url: UrlParts, host: Seq<char>)
    requires
        url.host == Some(host),
    ensures
        shown_url(Some(url)) == Some(
            if is_trusted_host(host) {
                url.text
            } else {
                "https://www.stremio.com/warning#"@ + component_encoded(encode_utf8(url.text))
            },
        ),
        shown_url(Some(UrlParts { host: None, ..url })) == Some(
            "https://www.stremio.com/warning#"@ + component_encoded(encode_utf8(url.text)),
        ),
        shown_url(None) is None,
{
    assert(whitelist().len() == 22);
    assert(whitelist()[0] == "stremio.com"@);
    assert(whitelist()[1] == "www.stremio.com"@);
    assert(whitelist()[2] == "web.stremio.com"@);
    assert(whitelist()[3] == "app.stremio.com"@);
    assert(whitelist()[4] == "strem.io"@);
    assert(whitelist()[5] == "api.strem.io"@);
    assert(whitelist()[6] == "stremio.zendesk.com"@);
    assert(whitelist()[7] == "google.com"@);
    assert(whitelist()[8] == "www.google.com"@);
    assert(whitelist()[9] == "youtube.com"@);
    assert(whitelist()[10] == "www.youtube.com"@);
    assert(whitelist()[11] == "twitch.tv"@);
    assert(whitelist()[12] == "twitter.com"@);
    assert(whitelist()[13] == "x.com"@);
    assert(whitelist()[14] == "netflix.com"@);
    assert(whitelist()[15] == "adex.network"@);
    assert(whitelist()[16] == "amazon.com"@);
    assert(whitelist()[17] == "forms.gle"@);
    assert(whitelist()[18] == "www.hbomax.com"@);
    assert(whitelist()[19] == "play.hbomax.com"@);
    assert(whitelist()[20] == "www.disneyplus.com"@);
    assert(whitelist()[21] == "imdb.com"@);
    if whitelist().contains(host) {
        let i = choose|i: int| 0 <= i < whitelist().len() && whitelist()[i] == host;
        assert(whitelist()[i] == host);
    }
}

/// The hosts that are trusted.
pub open spec fn is_trusted_host(host: Seq<char>) -> bool {
    {
        ||| host == "stremio.com"@
        ||| host == "www.stremio.com"@
        ||| host == "web.stremio.com"@
        ||| host == "app.stremio.com"@
        ||| host == "strem.io"@
        ||| host == "api.strem.io"@
        ||| host == "stremio.zendesk.com"@
        ||| host == "google.com"@
        ||| host == "www.google.com"@
        ||| host == "youtube.com"@
        ||| host == "www.youtube.com"@
        ||| host == "twitch.tv"@
        ||| host == "twitter.com"@
        ||| host == "x.com"@
        ||| host == "netflix.com"@
        ||| host == "adex.network"@
        ||| host == "amazon.com"@
        ||| host == "forms.gle"@
        ||| host == "www.hbomax.com"@
        ||| host == "play.hbomax.com"@
        ||| host == "www.disneyplus.com"@
        ||| host == "imdb.com"@
    }
}

/// An address is opened outside of the shell exactly if it begins, in lower case, with one of the
/// six schemes and is a URL; what is opened is then what is shown for it.
pub proof fn law_listed_schemes_are_opened(arg: Seq<char>, scheme: Seq<char>)
    ensures
        (scheme == "http://"@ || scheme == "https://"@ || scheme == "rtp://"@ || scheme
            == "rtps://"@ || scheme == "ftp://"@ || scheme == "ipfs://"@) && scheme.is_prefix_of(
            lowercased(arg),
        ) ==> external_target(arg) == shown_url(url_parse(arg)),
        !("http://"@.is_prefix_of(lowercased(arg)) || "https://"@.is_prefix_of(lowercased(arg))
            || "rtp://"@.is_prefix_of(lowercased(arg)) || "rtps://"@.is_prefix_of(lowercased(arg))
            || "ftp://"@.is_prefix_of(lowercased(arg)) || "ipfs://"@.is_prefix_of(
            lowercased(arg),
        )) ==> external_target(arg) is None,
{
}

/// The address of the web interface is that of the service, with the address of the streaming
/// server, without the slashes at its end, as a form value behind the equals sign.
pub proof fn law_web_endpoint_names_the_server(server_url: Seq<char>)
    ensures
        web_endpoint_for(server_url) == "https://web.stremio.com/#/?streamingServerUrl="@
            + form_encoded(encode_utf8(trim_end(server_url, '/'))),
{
    reveal_strlit("https://web.stremio.com/");
    reveal_strlit("/#/?streamingServerUrl=");
    reveal_strlit("https://web.stremio.com/#/?streamingServerUrl=");
    let base = WEB_ENDPOINT@;
    law_trim_end(base, '/');
    let front = trim_end(base, '/');
    assert(base.len() == 24 && base[23] == '/' && base[22] == 'm');
    assert(front.len() == 23);
    assert(front + "/#/?streamingServerUrl="@
        =~= "https://web.stremio.com/#/?streamingServerUrl="@);
}

/// A list of constants has as many texts as constants, each at its place.
pub proof fn law_literals_are_those_of_the_list(list: Seq<&'static str>)
    ensures
        literals(list).len() == list.len(),
        forall|i: int| 0 <= i < list.len() ==> #[trigger] literals(list)[i] == list[i]@,
{
}

/// What others know the shell by: its name, its pipe, the addresses of the service and of the local
/// server, and the names that it shares with the server. It looks for updates twice a day.
pub proof fn law_names_of_the_shell()
    ensures
        APP_NAME@ == "Stremio"@,
        IPC_PATH@ == "//./pipe/com.stremio5."@,
        DEV_ENDPOINT@ == "http://127.0.0.1:11470"@,
        WEB_ENDPOINT@ == "https://web.stremio.com/"@,
        STA_ENDPOINT@ == "https://staging.strem.io/"@,
        STREMIO_SERVER_DEV_MODE@ == "STREMIO_SERVER_DEV_MODE"@,
        SERVER_IPC_KEY@ == "SERVER_IPC_KEY"@,
        WARNING_URL@ == "https://www.stremio.com/warning#"@,
        2 * UPDATE_INTERVAL == 24 * 60 * 60,
        SRV_BUFFER_SIZE == 1024 && SRV_LOG_SIZE == 20,
        WINDOW_MIN_WIDTH == 0 && WINDOW_MIN_HEIGHT == 0,
{
}

} // verus!
