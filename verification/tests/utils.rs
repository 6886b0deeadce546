use rs9p::utils::fd_from;
use rs9p::utils::parse_proto;
use rs9p::utils::split_bang;
use rs9p::utils::AddrSpec;

fn error_of(arg: &str) -> String {
    match AddrSpec::parse(arg) {
        Ok(_) => panic!("{} was read as an address", arg),
        Err(e) => e.message().to_owned(),
    }
}

#[test]
fn tcp_address() {
    match AddrSpec::parse("tcp!127.0.0.1!564") {
        Ok(AddrSpec::Tcp(a)) => assert_eq!(a, "127.0.0.1:564"),
        _ => panic!("no tcp address"),
    }
    match "tcp!localhost!564!more".parse::<AddrSpec>() {
        Ok(AddrSpec::Tcp(a)) => assert_eq!(a, "localhost:564"),
        _ => panic!("no tcp address"),
    }
}

#[test]
fn unix_address() {
    match AddrSpec::parse("unix!/tmp/sock!0") {
        Ok(AddrSpec::Unix(a)) => assert_eq!(a, "/tmp/sock:0"),
        _ => panic!("no unix address"),
    }
}

#[test]
fn fd_address() {
    match AddrSpec::parse("fd!0!1") {
        Ok(AddrSpec::Fd(r, w)) => assert_eq!((r, w), (0, 1)),
        _ => panic!("no fd address"),
    }
    match AddrSpec::parse("fd!-3!+12") {
        Ok(AddrSpec::Fd(r, w)) => assert_eq!((r, w), (-3, 12)),
        _ => panic!("no fd address"),
    }
}

#[test]
fn missing_fields() {
    assert_eq!(error_of("tcp"), "No listen address specified");
    assert_eq!(error_of("tcp!host"), "No listen port specified");
    assert_eq!(error_of("unix"), "No listen socket path specified");
    assert_eq!(error_of("unix!/p"), "No listen socket port specified");
    assert_eq!(error_of("fd"), "No read file descriptor specified");
    assert_eq!(error_of("fd!3"), "No file descriptor specified");
}

#[test]
fn fields_that_are_no_numbers() {
    assert_eq!(
        error_of("fd!x!1"),
        "Invalid read file descriptor: invalid digit found in string"
    );
    assert_eq!(
        error_of("fd!1!"),
        "Invalid write file descriptor: cannot parse integer from empty string"
    );
    assert_eq!(
        error_of("fd!99999999999!1"),
        "Invalid read file descriptor: number too large to fit in target type"
    );
    // the first field that fails is the one reported
    assert_eq!(
        error_of("fd!x"),
        "Invalid read file descriptor: invalid digit found in string"
    );
}

#[test]
fn unsupported_protocol() {
    assert_eq!(error_of("udp!host!1"), "Unsupported protocol udp");
    assert_eq!(error_of(""), "Unsupported protocol ");
    assert_eq!(error_of("TCP!host!1"), "Unsupported protocol TCP");
    assert_eq!(error_of("tcpx"), "Unsupported protocol tcpx");
}

#[test]
fn parse_proto_cuts_three_fields() {
    assert_eq!(
        parse_proto("tcp!127.0.0.1!564"),
        Some(("tcp", "127.0.0.1:564".to_owned()))
    );
    assert_eq!(parse_proto("x!!"), Some(("x", ":".to_owned())));
    assert_eq!(parse_proto("a!b!c!d"), Some(("a", "b:c".to_owned())));
    assert_eq!(parse_proto("tcp!127.0.0.1"), None);
    assert_eq!(parse_proto("tcp"), None);
    assert_eq!(parse_proto(""), None);
}

#[test]
fn split_at_the_first_bang() {
    assert_eq!(split_bang("a!b!c"), ("a", Some("b!c")));
    assert_eq!(split_bang("abc"), ("abc", None));
    assert_eq!(split_bang("!"), ("", Some("")));
    assert_eq!(split_bang(""), ("", None));
    assert_eq!(split_bang("\u{e9}t\u{e9}!\u{fc}"), ("\u{e9}t\u{e9}", Some("\u{fc}")));
}

#[test]
fn field_as_file_descriptor() {
    assert_eq!(fd_from(Ok(7), "x: ").unwrap(), 7);
    assert_eq!(fd_from(Err("bad".to_owned()), "x: ").unwrap_err().message(), "x: bad");
}
