use rust_web_server::response::{compose_response, decimal_text, route, Page};

#[test]
fn home_request_selects_home_page() {
    assert_eq!(route("GET / HTTP/1.1"), Page::Home);
    assert_eq!(Page::Home.status_line(), "HTTP/1.1 200 OK");
    assert_eq!(Page::Home.file_name(), "hello.html");
}

#[test]
fn any_other_request_selects_error_page() {
    for line in [
        "",
        "GET /",
        "GET / HTTP/1.0",
        "GET / HTTP/1.1 ",
        " GET / HTTP/1.1",
        "get / http/1.1",
        "GET /index.html HTTP/1.1",
        "POST / HTTP/1.1",
        "GET / HTTP/1.1\r",
    ] {
        assert_eq!(route(line), Page::NotFound, "request line {:?}", line);
    }
    assert_eq!(Page::NotFound.status_line(), "HTTP/1.1 404 NOT FOUND");
    assert_eq!(Page::NotFound.file_name(), "404.html");
}

#[test]
fn decimal_text_writes_numbers_exactly() {
    assert_eq!(decimal_text(0), "0");
    assert_eq!(decimal_text(7), "7");
    assert_eq!(decimal_text(9), "9");
    assert_eq!(decimal_text(10), "10");
    assert_eq!(decimal_text(42), "42");
    assert_eq!(decimal_text(100), "100");
    assert_eq!(decimal_text(1234567890), "1234567890");
    assert_eq!(decimal_text(usize::MAX), usize::MAX.to_string());
}

#[test]
fn decimal_text_agrees_with_std_on_many_numbers() {
    let mut n: usize = 0;
    while n < 5000 {
        assert_eq!(decimal_text(n), n.to_string());
        n += 1;
    }
}

#[test]
fn response_has_status_length_blank_line_body() {
    let response = compose_response("HTTP/1.1 200 OK", "<h1>Hello!</h1>");
    assert_eq!(
        response,
        "HTTP/1.1 200 OK\r\nContent-Length: 15\r\n\r\n<h1>Hello!</h1>"
    );
}

#[test]
fn response_for_empty_body() {
    assert_eq!(
        compose_response("HTTP/1.1 404 NOT FOUND", ""),
        "HTTP/1.1 404 NOT FOUND\r\nContent-Length: 0\r\n\r\n"
    );
}

#[test]
fn content_length_counts_bytes_not_characters() {
    let body = "h\u{e9}llo \u{4e16}\u{754c}";
    assert_eq!(body.chars().count(), 8);
    assert_eq!(body.len(), 13);
    assert_eq!(
        compose_response("HTTP/1.1 200 OK", body),
        format!("HTTP/1.1 200 OK\r\nContent-Length: 13\r\n\r\n{}", body)
    );
}

#[test]
fn home_request_gets_ok_response_with_home_page_length() {
    let home = "<!DOCTYPE html>\n<html><body><h1>Hello!</h1><p>Hi from Rust</p></body></html>\n";
    let page = route("GET / HTTP/1.1");
    let response = page.respond(home);
    let head = format!("HTTP/1.1 200 OK\r\nContent-Length: {}\r\n\r\n", home.len());
    assert!(response.starts_with("HTTP/1.1 200 OK\r\nContent-Length: "));
    assert!(response.starts_with(&head));
    assert_eq!(response, format!("{}{}", head, home));
}

#[test]
fn other_request_gets_not_found_response_with_error_page_length() {
    let missing = "<!DOCTYPE html>\n<html><body><h1>Oops!</h1><p>Sorry, I don't know what you're asking for.</p></body></html>\n";
    let page = route("GET /nowhere HTTP/1.1");
    let response = page.respond(missing);
    let head = format!(
        "HTTP/1.1 404 NOT FOUND\r\nContent-Length: {}\r\n\r\n",
        missing.len()
    );
    assert!(response.starts_with("HTTP/1.1 404 NOT FOUND\r\nContent-Length: "));
    assert!(response.starts_with(&head));
    assert_eq!(response, format!("{}{}", head, missing));
}
