use stremio_shell::constants::{
    is_one_of, may_open, open_external, safe_page, safe_url, safe_url_of,
    web_endpoint_with_streaming_server, whitelisted_hosts, UPDATE_INTERVAL,
};
use stremio_shell::urls::ParsedUrl;

#[test]
fn the_streaming_server_stands_in_the_fragment() {
    assert_eq!(
        web_endpoint_with_streaming_server("http://127.0.0.1:11470/"),
        "https://web.stremio.com/#/?streamingServerUrl=http%3A%2F%2F127.0.0.1%3A11470"
    );
    assert_eq!(
        web_endpoint_with_streaming_server("a b*-._~ä//"),
        "https://web.stremio.com/#/?streamingServerUrl=a+b*-._%7E%C3%A4"
    );
    assert_eq!(
        web_endpoint_with_streaming_server(""),
        "https://web.stremio.com/#/?streamingServerUrl="
    );
}

#[test]
fn the_streaming_server_reads_back() {
    let endpoint = web_endpoint_with_streaming_server("http://[::1]:1/ä b?c=d&e");
    let value = endpoint.strip_prefix("https://web.stremio.com/#/?").unwrap();
    let pairs: Vec<(String, String)> = url::form_urlencoded::parse(value.as_bytes())
        .into_owned()
        .collect();
    assert_eq!(
        pairs,
        vec![(
            "streamingServerUrl".to_owned(),
            "http://[::1]:1/ä b?c=d&e".to_owned()
        )]
    );
}

#[test]
fn known_hosts_are_opened_as_they_are() {
    assert_eq!(
        safe_url("https://WWW.stremio.com"),
        Some("https://www.stremio.com/".to_owned())
    );
    assert_eq!(
        safe_url("https://imdb.com/title/tt1?a=b#c"),
        Some("https://imdb.com/title/tt1?a=b#c".to_owned())
    );
}

#[test]
fn other_hosts_are_warned_of() {
    assert_eq!(
        safe_url("https://example.com/a b"),
        Some("https://www.stremio.com/warning#https%3A%2F%2Fexample.com%2Fa%2520b".to_owned())
    );
    assert_eq!(
        safe_url("https://stremio.com.example.com/"),
        Some("https://www.stremio.com/warning#https%3A%2F%2Fstremio.com.example.com%2F".to_owned())
    );
    assert_eq!(
        safe_url("mailto:a@imdb.com"),
        Some("https://www.stremio.com/warning#mailto%3Aa%40imdb.com".to_owned())
    );
    assert_eq!(safe_url("imdb.com"), None);
    assert_eq!(safe_url(""), None);
}

#[test]
fn the_warning_reads_back() {
    let shown = safe_url("https://example.com/ä?b=c+d&e~").unwrap();
    let fragment = shown.strip_prefix("https://www.stremio.com/warning#").unwrap();
    assert_eq!(
        urlencoding::decode(fragment).unwrap(),
        "https://example.com/%C3%A4?b=c+d&e~"
    );
}

#[test]
fn what_is_shown_is_shown_again() {
    for uri in [
        "https://WWW.google.com/a b?c#d e",
        "https://example.com/\u{e4}?b=c+d&e~",
        "mailto:a@b",
        "ipfs://x.com/y",
    ] {
        let shown = safe_url(uri).unwrap();
        let page = safe_page(uri).unwrap();
        assert_eq!(page.text, shown);
        assert!(is_one_of(&page.host.unwrap(), &whitelisted_hosts()));
        assert_eq!(safe_url(&shown), Some(shown));
    }
    assert_eq!(safe_page("imdb.com"), None);
}

#[test]
fn the_address_of_a_file_may_change_when_it_is_read_again() {
    let shown = safe_url("file://x.com//C:/y").unwrap();
    assert_eq!(shown, "file://x.com/C:/y");
    assert_eq!(safe_page("file://x.com//C:/y").unwrap().host, None);
    assert_eq!(
        safe_url(&shown),
        Some("https://www.stremio.com/warning#file%3A%2F%2F%2FC%3A%2Fy".to_owned())
    );
}

#[test]
fn web_addresses_read_back_from_their_own_text() {
    for uri in [
        "HTTP://B\u{fc}cher.example:80/a/../b c?d e'#f \t g",
        "https://0x7f.1/%2e%2e//x\\y",
        "ftp://u:p@[0:0::1]:21/;x",
        "foo://h%20st:7/./a//..?<>",
        "http://:p@a.b./",
    ] {
        let first = url::Url::parse(uri).unwrap();
        let again = url::Url::parse(first.as_str()).unwrap();
        assert_eq!(first.as_str(), again.as_str());
        assert_eq!(first.scheme(), again.scheme());
        assert_eq!(first.host_str(), again.host_str());
        assert!(!first.as_str().bytes().any(|byte| byte.is_ascii_whitespace()));
    }
}

#[test]
fn what_is_shown_goes_by_the_host() {
    let url = |host: Option<&str>| {
        Some(ParsedUrl {
            text: "t:x".to_owned(),
            scheme: "t".to_owned(),
            host: host.map(str::to_owned),
        })
    };
    assert_eq!(safe_url_of(url(Some("x.com"))), Some("t:x".to_owned()));
    assert_eq!(
        safe_url_of(url(Some("X.com"))),
        Some("https://www.stremio.com/warning#t%3Ax".to_owned())
    );
    assert_eq!(
        safe_url_of(url(None)),
        Some("https://www.stremio.com/warning#t%3Ax".to_owned())
    );
    assert_eq!(safe_url_of(None), None);
}

#[test]
fn only_some_schemes_are_opened_outside() {
    for scheme in ["http", "https", "rtp", "rtps", "ftp", "ipfs"] {
        assert!(may_open(&format!("{}://a", scheme)));
        assert_eq!(
            open_external(&format!("{}://example.com/", scheme.to_uppercase())),
            Some(format!(
                "https://www.stremio.com/warning#{}%3A%2F%2Fexample.com%2F",
                scheme
            ))
        );
    }
    assert!(!may_open("HTTP://a"));
    for arg in ["", "calc", "file:///a", "mailto:a@b", "http:/a", " http://a"] {
        assert_eq!(open_external(arg), None, "{}", arg);
    }
    assert_eq!(open_external("http://"), None);
    assert_eq!(
        open_external("HTTPS://Google.com/x"),
        Some("https://google.com/x".to_owned())
    );
}

#[test]
fn the_list_of_hosts() {
    let hosts = whitelisted_hosts();
    assert_eq!(hosts.len(), 22);
    assert_eq!(hosts[0], "stremio.com");
    assert_eq!(hosts[21], "imdb.com");
    assert!(is_one_of("forms.gle", &hosts));
    assert!(!is_one_of("gle", &hosts));
    assert!(!is_one_of("", &hosts));
    assert_eq!(UPDATE_INTERVAL, 12 * 60 * 60);
}
