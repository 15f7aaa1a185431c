//! The connection responder's decisions: which page answers a request line,
//! and how the answer is framed.

use vstd::prelude::*;
use vstd::std_specs::iter::IteratorSpec;
use vstd::utf8::encode_utf8;

verus! {

/// What answers a request: the status line, the file whose contents are the
/// body, and how long to wait before answering.
pub struct Route {
    pub status_line: &'static str,
    pub filename: &'static str,
    pub delay_seconds: u64,
}

/// The answer to a request line. The home page answers two request lines, one
/// of them after a delay; the not-found page answers every other.
pub open spec fn route_of(request_line: Seq<char>) -> Route {
    if request_line == "GET / HTTP/1.1"@ {
        Route { status_line: "HTTP/1.1 200 OK", filename: "index.html", delay_seconds: 0 }
    } else if request_line == "GET /sleep HTTP/1.1"@ {
        Route { status_line: "HTTP/1.1 200 OK", filename: "index.html", delay_seconds: 5 }
    } else {
        Route { status_line: "HTTP/1.1 404 NOT FOUND", filename: "404.html", delay_seconds: 0 }
    }
}

/// The character of a decimal digit.
pub open spec fn digit(d: nat) -> char {
    if d == 0 {
        '0'
    } else if d == 1 {
        '1'
    } else if d == 2 {
        '2'
    } else if d == 3 {
        '3'
    } else if d == 4 {
        '4'
    } else if d == 5 {
        '5'
    } else if d == 6 {
        '6'
    } else if d == 7 {
        '7'
    } else if d == 8 {
        '8'
    } else {
        '9'
    }
}

/// `n` in decimal digits, without leading zeros.
pub open spec fn decimal(n: nat) -> Seq<char>
    decreases n,
{
    if n < 10 {
        seq![digit(n)]
    } else {
        decimal(n / 10).push(digit(n % 10))
    }
}

/// The framed answer: the status line, the length of the body in bytes of
/// its UTF-8 form, an empty line, and the body.
pub open spec fn response_of(status_line: Seq<char>, body: Seq<char>) -> Seq<char> {
    status_line + "\r\nContent-Length: "@ + decimal(encode_utf8(body).len()) + "\r\n\r\n"@
        + body
}

/// Whether two string slices hold the same text.
fn same_text(a: &str, b: &str) -> (r: bool)
    ensures
        r == (a@ == b@),
{
    let mut left = a.chars();
    let mut right = b.chars();
    let ghost mut seen: Seq<char> = Seq::empty();
    loop
        invariant
            left.obeys_prophetic_iter_laws(),
            right.obeys_prophetic_iter_laws(),
            left.decrease() is Some,
            seen + left.remaining() == a@,
            seen + right.remaining() == b@,
        decreases left.decrease()->0,
    {
        let ghost before_left = left.remaining();
        let ghost before_right = right.remaining();
        let x = left.next();
        let y = right.next();
        match (x, y) {
            (Some(c), Some(d)) => {
                if c != d {
                    assert(a@[seen.len() as int] == c);
                    assert(b@[seen.len() as int] == d);
                    return false;
                }
                proof {
                    seen = seen.push(c);
                    assert(seen + left.remaining() =~= seen.drop_last() + before_left);
                    assert(seen + right.remaining() =~= seen.drop_last() + before_right);
                }
            },
            (None, None) => {
                assert(a@ =~= seen);
                assert(b@ =~= seen);
                return true;
            },
            _ => {
                assert(a@.len() != b@.len());
                return false;
            },
        }
    }
}

/// Decides what answers `request_line`.
pub fn route(request_line: &str) -> (r: Route)
    ensures
        r.status_line@ == route_of(request_line@).status_line@,
        r.filename@ == route_of(request_line@).filename@,
        r.delay_seconds == route_of(request_line@).delay_seconds,
{
    if same_text(request_line, "GET / HTTP/1.1") {
        Route { status_line: "HTTP/1.1 200 OK", filename: "index.html", delay_seconds: 0 }
    } else if same_text(request_line, "GET /sleep HTTP/1.1") {
        Route { status_line: "HTTP/1.1 200 OK", filename: "index.html", delay_seconds: 5 }
    } else {
        Route { status_line: "HTTP/1.1 404 NOT FOUND", filename: "404.html", delay_seconds: 0 }
    }
}

/// The text of one decimal digit.
fn digit_text(d: usize) -> (s: &'static str)
    requires
        d < 10,
    ensures
        s@ == seq![digit(d as nat)],
{
    proof {
        reveal_strlit("0");
        reveal_strlit("1");
        reveal_strlit("2");
        reveal_strlit("3");
        reveal_strlit("4");
        reveal_strlit("5");
        reveal_strlit("6");
        reveal_strlit("7");
        reveal_strlit("8");
        reveal_strlit("9");
    }
    let s = if d == 0 {
        "0"
    } else if d == 1 {
        "1"
    } else if d == 2 {
        "2"
    } else if d == 3 {
        "3"
    } else if d == 4 {
        "4"
    } else if d == 5 {
        "5"
    } else if d == 6 {
        "6"
    } else if d == 7 {
        "7"
    } else if d == 8 {
        "8"
    } else {
        "9"
    };
    assert(s@ =~= seq![digit(d as nat)]);
    s
}

/// `n` written in decimal digits.
pub fn decimal_text(n: usize) -> (s: String)
    ensures
        s@ == decimal(n as nat),
    decreases n,
{
    if n < 10 {
        String::from_str(digit_text(n))
    } else {
        let mut s = decimal_text(n / 10);
        s.append(digit_text(n % 10));
        assert(s@ =~= decimal((n / 10) as nat).push(digit((n % 10) as nat)));
        s
    }
}

/// Frames `contents` as the body of an answer with the given status line.
pub fn response(status_line: &str, contents: &str) -> (out: String)
    ensures
        out@ == response_of(status_line@, contents@),
{
    let mut out = String::from_str(status_line);
    out.append("\r\nContent-Length: ");
    let length = decimal_text(contents.as_bytes().len());
    out.append(length.as_str());
    out.append("\r\n\r\n");
    out.append(contents);
    out
}

} // verus!
