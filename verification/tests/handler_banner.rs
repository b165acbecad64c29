use dual_server::banner::{finish_banner, hello_from_ferris};
use dual_server::handler::{serve_req, Reply, STATUS_OK};

#[test]
fn serve_req_says_hello() {
    let reply = serve_req("GET /anything");
    assert_eq!(reply, Reply { status: 200, body: "hello, world!".to_string() });
    assert_eq!(STATUS_OK, 200);
}

#[test]
fn serve_req_ignores_the_request() {
    assert_eq!(serve_req(()), serve_req(vec![1u8, 2, 3]));
}

#[test]
fn finish_banner_appends_an_empty_line() {
    assert_eq!(finish_banner(vec![0x61, 0x0a]), vec![0x61, 0x0a, 0x0a]);
    assert_eq!(finish_banner(vec![]), vec![0x0a]);
}

#[test]
fn hello_from_ferris_draws_the_crab() {
    let mut expected = String::new();
    expected.push_str(" ________________________\n");
    expected.push_str("< Hello fellow ChatBros! >\n");
    expected.push_str(" ------------------------\n");
    expected.push_str("        \\\n");
    expected.push_str("         \\\n");
    expected.push_str("            _~^~^~_\n");
    expected.push_str("        \\) /  o o  \\ (/\n");
    expected.push_str("          '_   -   _'\n");
    expected.push_str("          / '-----' \\\n");
    expected.push_str("\n");
    let banner = hello_from_ferris();
    assert_eq!(String::from_utf8(banner).unwrap(), expected);
}
