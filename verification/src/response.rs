//! The single-route protocol served through the pool: which page a request
//! line selects, and the response text built around a page's contents.

use vstd::prelude::*;
use vstd::string::*;
use vstd::utf8::encode_utf8;

verus! {

/// The page a request is answered with.
#[derive(Clone, Copy, Debug, PartialEq, Eq, Structural)]
pub enum Page {
    /// The home page, served for the one known request line.
    Home,
    /// The error page, served for everything else.
    NotFound,
}

/// The one request line that selects the home page.
pub open spec fn home_request() -> Seq<char> {
    "GET / HTTP/1.1"@
}

/// The page selected by a request line: the home page on an exact match,
/// the error page otherwise.
pub open spec fn spec_route(request_line: Seq<char>) -> Page {
    if request_line == home_request() {
        Page::Home
    } else {
        Page::NotFound
    }
}

/// The character of a single decimal digit.
pub open spec fn digit_char(digit: nat) -> char
    recommends
        digit < 10,
{
    if digit == 0 {
        '0'
    } else if digit == 1 {
        '1'
    } else if digit == 2 {
        '2'
    } else if digit == 3 {
        '3'
    } else if digit == 4 {
        '4'
    } else if digit == 5 {
        '5'
    } else if digit == 6 {
        '6'
    } else if digit == 7 {
        '7'
    } else if digit == 8 {
        '8'
    } else {
        '9'
    }
}

/// A number written in decimal, without sign or leading zeros.
pub open spec fn decimal(n: nat) -> Seq<char>
    decreases n,
{
    if n < 10 {
        seq![digit_char(n)]
    } else {
        decimal(n / 10).push(digit_char(n % 10))
    }
}

/// The number of bytes a text takes on the wire, in UTF-8.
pub open spec fn byte_length(text: Seq<char>) -> nat {
    encode_utf8(text).len()
}

/// The response text for a status line and a body: status line, a header
/// giving the body's length in bytes, blank line, body.
pub open spec fn spec_response(status_line: Seq<char>, contents: Seq<char>) -> Seq<char> {
    status_line + "\r\nContent-Length: "@ + decimal(byte_length(contents)) + "\r\n\r\n"@
        + contents
}

impl Page {
    /// The status line sent with this page.
    pub open spec fn spec_status_line(self) -> Seq<char> {
        match self {
            Page::Home => "HTTP/1.1 200 OK"@,
            Page::NotFound => "HTTP/1.1 404 NOT FOUND"@,
        }
    }

    /// The name of the file that holds this page.
    pub open spec fn spec_file_name(self) -> Seq<char> {
        match self {
            Page::Home => "hello.html"@,
            Page::NotFound => "404.html"@,
        }
    }

    /// The status line sent with this page.
    pub fn status_line(&self) -> (line: &'static str)
        ensures
            line@ == self.spec_status_line(),
    {
        match self {
            Page::Home => "HTTP/1.1 200 OK",
            Page::NotFound => "HTTP/1.1 404 NOT FOUND",
        }
    }

    /// The name of the file that holds this page.
    pub fn file_name(&self) -> (name: &'static str)
        ensures
            name@ == self.spec_file_name(),
    {
        match self {
            Page::Home => "hello.html",
            Page::NotFound => "404.html",
        }
    }

    /// The whole response for this page, given the contents of its file.
    pub fn respond(&self, contents: &str) -> (response: String)
        ensures
            response@ == spec_response(self.spec_status_line(), contents@),
    {
        compose_response(self.status_line(), contents)
    }
}

/// Selects the page for a request line.
pub fn route(request_line: &str) -> (page: Page)
    ensures
        page == spec_route(request_line@),
{
    let line = String::from_str(request_line);
    let home = String::from_str("GET / HTTP/1.1");
    if line == home {
        Page::Home
    } else {
        Page::NotFound
    }
}

/// The text of one decimal digit.
fn digit_text(digit: usize) -> (text: &'static str)
    requires
        digit < 10,
    ensures
        text@ == seq![digit_char(digit as nat)],
{
    proof {
        reveal_strlit("0");
        reveal_strlit("1");
        reveal_strlit("2");
        reveal_strlit("3");
        reveal_strlit("4");
        reveal_strlit("5");
        reveal_strlit("6");
        reveal_strlit("7");
        reveal_strlit("8");
        reveal_strlit("9");
    }
    let text = if digit == 0 {
        "0"
    } else if digit == 1 {
        "1"
    } else if digit == 2 {
        "2"
    } else if digit == 3 {
        "3"
    } else if digit == 4 {
        "4"
    } else if digit == 5 {
        "5"
    } else if digit == 6 {
        "6"
    } else if digit == 7 {
        "7"
    } else if digit == 8 {
        "8"
    } else {
        "9"
    };
    assert(text@ =~= seq![digit_char(digit as nat)]);
    text
}

/// Writes `n` in decimal.
pub fn decimal_text(n: usize) -> (text: String)
    ensures
        text@ == decimal(n as nat),
    decreases n,
{
    if n < 10 {
        String::from_str(digit_text(n))
    } else {
        let mut text = decimal_text(n / 10);
        text.append(digit_text(n % 10));
        assert(text@ =~= decimal(n as nat));
        text
    }
}

/// Builds the response for a status line and a body: the status line, a
/// header giving the body's length in bytes, a blank line, and the body.
pub fn compose_response(status_line: &str, contents: &str) -> (response: String)
    ensures
        response@ == spec_response(status_line@, contents@),
{
    let mut response = String::from_str(status_line);
    response.append("\r\nContent-Length: ");
    let length = decimal_text(contents.as_bytes().len());
    response.append(length.as_str());
    response.append("\r\n\r\n");
    response.append(contents);
    response
}

} // verus!
