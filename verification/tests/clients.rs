use openpacketloss_server::client_ip;

fn local(forwarded_for: &[u8]) -> String {
    client_ip(true, "127.0.0.1".to_string(), Some(forwarded_for))
}

#[test]
fn forwarded_client_is_believed_of_a_local_proxy() {
    assert_eq!(local(b"203.0.113.5"), "203.0.113.5");
    assert_eq!(local(b" \t203.0.113.5\t , 10.0.0.1, 10.0.0.2"), "203.0.113.5");
    assert_eq!(local(b"2001:db8::1,127.0.0.1"), "2001:db8::1");
}

#[test]
fn header_is_not_believed_of_strangers() {
    let ip = client_ip(false, "198.51.100.7".to_string(), Some(b"203.0.113.5"));
    assert_eq!(ip, "198.51.100.7");
    assert_eq!(client_ip(false, "198.51.100.7".to_string(), None), "198.51.100.7");
}

#[test]
fn local_request_without_header_is_local() {
    assert_eq!(client_ip(true, "::1".to_string(), None), "::1");
}

#[test]
fn unreadable_header_is_passed_over() {
    assert_eq!(local(b"203.0.113.5\n"), "127.0.0.1");
    assert_eq!(local(b"caf\xc3\xa9"), "127.0.0.1");
    assert_eq!(local(b"\x7f"), "127.0.0.1");
}

#[test]
fn empty_field_is_an_empty_address() {
    assert_eq!(local(b""), "");
    assert_eq!(local(b" \t "), "");
    assert_eq!(local(b",203.0.113.5"), "");
}

#[test]
fn forwarded_client_is_cut_as_std_cuts_it() {
    for header in ["a b , c", "  x", "y  ", "\tz\t,", "no comma", ",,", " , "] {
        let expected = header.split(',').next().unwrap().trim();
        assert_eq!(local(header.as_bytes()), expected);
    }
}
