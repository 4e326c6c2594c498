use pond_deployment::domain::base_domain;

#[test]
fn test_base_domain() {
    assert_eq!(base_domain("example.com"), "example.com");
    assert_eq!(base_domain("hello.example.com"), "example.com");
    assert_eq!(base_domain("com"), "com");
}

#[test]
fn test_base_domain_with_sub_sub_domain() {
    assert_eq!(base_domain("sub.sub.example.com"), "example.com");
}

#[test]
fn base_domain_keeps_last_two_labels_of_long_names() {
    assert_eq!(base_domain("a.b.c.d.example.org"), "example.org");
    assert_eq!(base_domain("www.example.co"), "example.co");
}

#[test]
fn base_domain_of_empty_and_odd_names() {
    assert_eq!(base_domain(""), "");
    assert_eq!(base_domain("a..b"), ".b");
    assert_eq!(base_domain(".example.com"), "example.com");
}
