use opencadstudio::sys::{percent_encode, web_hyperlink, web_page};

#[test]
fn drawing_hyperlinks_only_open_web_pages() {
    for value in ["https://example.com/path", " HTTP://example.com "] {
        assert!(web_hyperlink(value).is_some(), "{value}");
    }
    for value in [
        "", "https://", "javascript:alert(1)", "data:text/html,example",
        "file:///tmp/program.desktop", "/tmp/program.desktop", "custom:run",
        "mailto:user@example.com", "https://example.com/\npath",
    ] {
        assert!(web_hyperlink(value).is_none(), "{value}");
    }
}

#[test]
fn a_hyperlink_comes_back_normalised_not_as_typed() {
    assert_eq!(web_hyperlink(" HTTP://Example.com ").as_deref(), Some("http://example.com/"));
    assert_eq!(web_hyperlink("https://example.com/path").as_deref(), Some("https://example.com/path"));
}

#[test]
fn percent_encode_keeps_the_unreserved_set() {
    assert_eq!(percent_encode("AZaz09-_.~"), "AZaz09-_.~");
}

#[test]
fn percent_encode_escapes_every_other_byte_in_upper_case_hex() {
    assert_eq!(percent_encode("a b&c=d/e"), "a%20b%26c%3Dd%2Fe");
    assert_eq!(percent_encode("é"), "%C3%A9");
    assert_eq!(percent_encode("\n"), "%0A");
    assert_eq!(percent_encode(""), "");
}

#[test]
fn web_page_decides_on_the_parse_outcome() {

    let parsed = |scheme: &str, host: bool, href: &str| Some((scheme.to_string(), host, href.to_string()));
    assert_eq!(web_page(parsed("https", true, "https://a.b/")).as_deref(), Some("https://a.b/"));
    assert_eq!(web_page(parsed("http", true, "http://a.b/")).as_deref(), Some("http://a.b/"));
    assert_eq!(web_page(parsed("https", false, "https:x")), None);
    assert_eq!(web_page(parsed("file", true, "file://h/x")), None);
    assert_eq!(web_page(None), None);
}

#[test]
fn percent_encoding_grows_by_two_per_reserved_byte_and_decodes_back() {
    let text = "a b/é~";
    let encoded = percent_encode(text);
    let reserved = text.bytes().filter(|b| !(b.is_ascii_alphanumeric() || b"-_.~".contains(b))).count();
    assert_eq!(encoded.len(), text.len() + 2 * reserved);
    let mut decoded = Vec::new();
    let chars: Vec<char> = encoded.chars().collect();
    let mut i = 0;
    while i < chars.len() {
        if chars[i] == '%' && i + 2 < chars.len() {
            let hex: String = chars[i + 1..i + 3].iter().collect();
            decoded.push(u8::from_str_radix(&hex, 16).unwrap());
            i += 3;
        } else {
            decoded.push(chars[i] as u8);
            i += 1;
        }
    }
    assert_eq!(decoded, text.as_bytes());
}
