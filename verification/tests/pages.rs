use website::net::IpAddress;
use website::pages::{
    car, car_text, matrix_homeserver_base_url, matrix_server_address, motd, robots_txt,
    root_messages, root_messages_for, ServerError, IPV6_NOTE, MOTD, SECRET_NOTE,
};

#[test]
fn motd_is_one_of_the_messages() {
    for _ in 0..50 {
        let m = motd().unwrap();
        assert!(MOTD.contains(&m));
    }
    assert_eq!(MOTD.len(), 182);
    assert_eq!(MOTD[0], "0x41414141");
    assert_eq!(MOTD[181], "ISO = ASA/DIN");
}

#[test]
fn car_page_text() {
    assert_eq!(car_text("N52"), "N52\nunder construction, just use the back button");
    let t = car().unwrap();
    assert!(t.ends_with("\nunder construction, just use the back button"));
    let m = &t[..t.len() - "\nunder construction, just use the back button".len()];
    assert!(MOTD.contains(&m));
}

#[test]
fn root_notes() {
    assert_eq!(root_messages_for(false, false), Vec::<&str>::new());
    assert_eq!(root_messages_for(true, false), vec![IPV6_NOTE]);
    assert_eq!(root_messages_for(false, true), vec![SECRET_NOTE]);
    assert_eq!(root_messages_for(true, true), vec![IPV6_NOTE, SECRET_NOTE]);
    assert_eq!(
        IPV6_NOTE,
        "you are connected over IPv6 and participating in the transition away from a fundamentally broken internet"
    );
    assert_eq!(SECRET_NOTE, "something is at /i/am/very/smart");
}

#[test]
fn root_notes_by_address() {
    for _ in 0..50 {
        let v6 = root_messages(IpAddress::V6(1));
        assert_eq!(v6[0], IPV6_NOTE);
        let v4 = root_messages(IpAddress::V4(1));
        assert!(v4.is_empty() || v4 == vec![SECRET_NOTE]);
    }
}

#[test]
fn fixed_texts() {
    assert_eq!(
        robots_txt(),
        "# if robot: beep boop beep beep boop\n# if human: hello there, please leave this is not your domain\nUser-agent: *\nDisallow: /\n"
    );
    assert_eq!(matrix_homeserver_base_url(), "https://matrix.aamaruvi.com");
    assert_eq!(matrix_server_address(), "matrix.aamaruvi.com:443");
}

#[test]
fn server_errors() {
    let e = ServerError::MotdUnavailable;
    assert_eq!(e.status(), 500);
    assert_eq!(e.title(), "Internal Server Error");
    assert_eq!(e.detail(false), Some("motd machine broke ask again tomorrow"));
    assert_eq!(e.detail(true), Some("motd machine broke ask again tomorrow"));
    assert_eq!(ServerError::AbsoluteBlogPath.title(), "Internal Error");
    assert_eq!(ServerError::AbsoluteBlogPath.detail(false), None);
    assert_eq!(ServerError::AbsoluteBlogPath.detail(true), Some("error"));
    assert_eq!(ServerError::MarkdownFailed.detail(false), Some("Failed to render markdown"));
}

#[test]
fn ip_addresses() {
    assert_eq!(IpAddress::unspecified(), IpAddress::V4(0));
    assert!(IpAddress::V6(0).is_ipv6());
    assert!(!IpAddress::V4(0).is_ipv6());
}
