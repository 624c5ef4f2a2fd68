use account_auth::text::decimal_text;
use account_auth::api_response::ApiResponse;

#[test]
fn new_keeps_status_and_body() {
    let reply = ApiResponse::new(404, String::from("not here"));
    assert_eq!(reply.status_code, 404);
    assert_eq!(reply.body, "not here");
    let reply = ApiResponse::with_text(100, "");
    assert_eq!(reply.status_code, 100);
    assert_eq!(reply.body, "");
}

#[test]
fn describe_gives_body_then_status() {
    let reply = ApiResponse::new(401, String::from("Unauthorized"));
    assert_eq!(reply.describe(), "Error: Unauthorized\nStatus Code: 401");
    let reply = ApiResponse::new(999, String::new());
    assert_eq!(reply.describe(), "Error: \nStatus Code: 999");
}

#[test]
fn decimal_text_writes_every_number_as_the_standard_library_does() {
    assert_eq!(decimal_text(0), "0");
    assert_eq!(decimal_text(7), "7");
    assert_eq!(decimal_text(10), "10");
    assert_eq!(decimal_text(500), "500");
    assert_eq!(decimal_text(65535), "65535");
    let mut n: u16 = 0;
    loop {
        assert_eq!(decimal_text(n), format!("{}", n));
        if n == u16::MAX {
            break;
        }
        n += 1;
    }
}
