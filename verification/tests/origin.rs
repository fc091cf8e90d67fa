use lotion::origin::{is_from_notion, is_notion_host, is_notion_url, is_trusted_origin, UrlParts};

fn parts(scheme: &str, host: Option<&str>) -> UrlParts {
    UrlParts {
        scheme: scheme.into(),
        host: host.map(String::from),
    }
}

#[test]
fn notion_hosts() {
    for host in ["notion.so", "www.notion.so", "notion.com", "a.b.notion.com", ".notion.so"] {
        assert!(is_notion_host(host), "{}", host);
    }
    for host in ["", "notion.so.evil.com", "evilnotion.so", "notion.org", "so", "Notion.so"] {
        assert!(!is_notion_host(host), "{}", host);
    }
}

#[test]
fn pages_from_notion_are_secure() {
    assert!(is_from_notion(&parts("https", Some("www.notion.so"))));
    assert!(!is_from_notion(&parts("http", Some("www.notion.so"))));
    assert!(!is_from_notion(&parts("https", None)));
    assert!(!is_from_notion(&parts("https", Some("example.com"))));
}

#[test]
fn addresses_are_parsed() {
    assert!(is_notion_url("https://www.notion.so/page?x=1#y"));
    assert!(is_notion_url("HTTPS://WWW.NOTION.SO"));
    assert!(is_notion_url("https://user:pw@notion.com:8443/"));
    assert!(!is_notion_url("https://notion.so@evil.com/"));
    assert!(!is_notion_url("http://www.notion.so"));
    assert!(!is_notion_url("www.notion.so"));
    assert!(!is_notion_url("about:blank"));
    assert!(!is_notion_url(""));
}

#[test]
fn trusted_origins() {
    for (scheme, host) in [
        ("https", "notion.so"),
        ("https", "app.notion.com"),
        ("tauri", "localhost"),
        ("wry", "localhost"),
        ("http", "tauri.localhost"),
        ("https", "tauri.localhost"),
    ] {
        assert!(is_trusted_origin(&Some(parts(scheme, Some(host)))), "{} {}", scheme, host);
    }
    for (scheme, host) in [
        ("http", "notion.so"),
        ("http", "localhost"),
        ("https", "localhost"),
        ("tauri", "tauri.localhost"),
        ("file", "notion.so"),
        ("https", "example.com"),
    ] {
        assert!(!is_trusted_origin(&Some(parts(scheme, Some(host)))), "{} {}", scheme, host);
    }
    assert!(!is_trusted_origin(&Some(parts("https", None))));
    assert!(!is_trusted_origin(&Some(parts("tauri", None))));
    assert!(!is_trusted_origin(&None));
}
