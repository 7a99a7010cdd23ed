use ddns_sync::domain::extract_root_domain;

#[test]
fn root_of_a_subdomain_drops_the_leading_label() {
    assert_eq!(extract_root_domain("sub.example.com"), "example.com");
}

#[test]
fn root_of_a_two_label_name_is_the_name() {
    assert_eq!(extract_root_domain("example.com"), "example.com");
}

#[test]
fn root_of_a_single_label_is_the_label() {
    assert_eq!(extract_root_domain("localhost"), "localhost");
}

#[test]
fn root_of_a_deep_name_keeps_only_the_last_two_labels() {
    assert_eq!(extract_root_domain("a.b.c.d.example.org"), "example.org");
    assert_eq!(extract_root_domain("foo.example.com"), "example.com");
}

#[test]
fn root_of_the_empty_name_is_empty() {
    assert_eq!(extract_root_domain(""), "");
}

#[test]
fn empty_labels_count_as_labels() {
    assert_eq!(extract_root_domain("."), ".");
    assert_eq!(extract_root_domain("a."), "a.");
    assert_eq!(extract_root_domain(".a"), ".a");
    assert_eq!(extract_root_domain("a..b"), ".b");
    assert_eq!(extract_root_domain("example.com."), "com.");
    assert_eq!(extract_root_domain("..."), ".");
}

#[test]
fn labels_are_not_checked_for_legality() {
    assert_eq!(extract_root_domain("www.exa mple!.c*m"), "exa mple!.c*m");
}

#[test]
fn labels_beyond_ascii_are_kept_whole() {
    assert_eq!(extract_root_domain("www.bücher.example"), "bücher.example");
    assert_eq!(extract_root_domain("点.例え.テスト"), "例え.テスト");
}

#[test]
fn root_agrees_with_splitting_and_joining() {
    let names = [
        "sub.example.com",
        "example.com",
        "localhost",
        "",
        ".",
        "a..b.",
        "x.y.z",
        "one.two.three.four",
    ];
    for name in names {
        let parts: Vec<&str> = name.split('.').collect();
        let expected = if parts.len() >= 2 {
            parts[parts.len() - 2..].join(".")
        } else {
            name.to_string()
        };
        assert_eq!(extract_root_domain(name), expected);
    }
}

#[test]
fn root_of_a_root_is_itself() {
    for name in ["sub.example.com", "a.b", "plain", "a..b", "x.y.z."] {
        let once = extract_root_domain(name);
        assert_eq!(extract_root_domain(&once), once);
    }
}
