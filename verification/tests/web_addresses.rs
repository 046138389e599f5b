use screenguard_agent::url::wss_to_http;

#[test]
fn scheme_changes_and_path_goes() {
    assert_eq!(wss_to_http("wss://api.screenguard.cc/ws"), "https://api.screenguard.cc");
    assert_eq!(wss_to_http("ws://10.0.0.2:8080/ws/agent"), "http://10.0.0.2:8080");
    assert_eq!(wss_to_http("wss://host:1"), "https://host:1");
    assert_eq!(wss_to_http("ws://host"), "http://host");
    assert_eq!(wss_to_http("wss:///x"), "https://");
}

#[test]
fn paths_with_addresses_in_them_do_not_matter() {
    assert_eq!(wss_to_http("wss://h/ws://x"), "https://h");
    assert_eq!(wss_to_http("ws://h/wss://x"), "http://h");
    assert_eq!(wss_to_http("wss://h//x"), "https://h");
}

#[test]
fn only_the_scheme_is_replaced() {
    assert_eq!(wss_to_http("wss://aws://x"), "https://aws:");
    assert_eq!(wss_to_http("ws://awss://x"), "http://awss:");
    assert_eq!(wss_to_http("https://aws://x"), "https://aws:");
    assert_eq!(wss_to_http("x?wss://h/p"), "x?https://h");
}

#[test]
fn other_addresses_keep_their_scheme() {
    assert_eq!(wss_to_http("https://h:2/p"), "https://h:2");
    assert_eq!(wss_to_http("host:8080/ws"), "host:8080/ws");
    assert_eq!(wss_to_http(""), "");
    assert_eq!(wss_to_http("//h/p"), "//h");
    assert_eq!(wss_to_http("wss://\u{e9}/\u{e9}"), "https://\u{e9}");
}
