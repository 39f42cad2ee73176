use cargo_hfuzz::args::split_whitespace_args;
use cargo_hfuzz::triple::parse_host_triple;

#[test]
fn host_triple_from_verbose_output() {
    let out = "rustc 1.81.0 (eeb90cda1 2024-09-04)\n\
               binary: rustc\n\
               host: x86_64-unknown-linux-gnu\n\
               release: 1.81.0\n";
    assert_eq!(
        parse_host_triple(out),
        Some("x86_64-unknown-linux-gnu".to_string())
    );
}

#[test]
fn host_triple_takes_first_matching_line() {
    let out = "host: first-triple\nhost: second-triple\n";
    assert_eq!(parse_host_triple(out), Some("first-triple".to_string()));
}

#[test]
fn host_triple_strips_carriage_return() {
    let out = "binary: rustc\r\nhost: aarch64-apple-darwin\r\n";
    assert_eq!(
        parse_host_triple(out),
        Some("aarch64-apple-darwin".to_string())
    );
}

#[test]
fn host_triple_requires_line_start() {
    // The marker must begin the line; no fallback triple exists.
    assert_eq!(parse_host_triple("the host: x\n"), None);
    assert_eq!(parse_host_triple(""), None);
    assert_eq!(parse_host_triple("release: 1.81.0\n"), None);
}

#[test]
fn host_triple_empty_remainder() {
    assert_eq!(parse_host_triple("host: \n"), Some(String::new()));
}

#[test]
fn split_empty_and_blank() {
    assert_eq!(split_whitespace_args(""), Vec::<String>::new());
    assert_eq!(split_whitespace_args("   \t \n"), Vec::<String>::new());
}

#[test]
fn split_single_token() {
    assert_eq!(split_whitespace_args("--verbose"), vec!["--verbose"]);
}

#[test]
fn split_many_tokens() {
    assert_eq!(
        split_whitespace_args("  -n 4\t--timeout  10 "),
        vec!["-n", "4", "--timeout", "10"]
    );
}

#[test]
fn split_does_not_respect_quoting() {
    // Known limitation kept on purpose: quotes are not interpreted, so an
    // argument containing a space cannot pass through this channel.
    assert_eq!(
        split_whitespace_args("--name \"a b\""),
        vec!["--name", "\"a", "b\""]
    );
}
