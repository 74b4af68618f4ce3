use vstd::prelude::*;
use vstd::string::*;

use crate::status::ThreadPoolStatus;

verus! {

pub const GET_HELLO: &'static str = "GET / HTTP/1.1\r\n";

pub const GET_SLEEP: &'static str = "GET /sleep HTTP/1.1\r\n";

pub const GET_CSS: &'static str = "GET /styles.css HTTP/1.1\r\n";

pub const SHUTDOWN_REQ: &'static str = "GET /shutdown HTTP/1.1\r\n";

pub const SHUTDOWN_POST: &'static str = "POST /shutdown HTTP/1.1\r\n";

pub const SHUTDOWN: &'static str = "GET /totalshutdown HTTP/1.1\r\n";

/// The form field that carries the shutdown password.
pub const PASSWORD_FIELD: &'static str = "password=";

/// Whether `p` stands in `s` at position `i`.
pub open spec fn occurs_at(s: Seq<char>, p: Seq<char>, i: int) -> bool {
    0 <= i && i + p.len() <= s.len() && s.subrange(i, i + p.len()) == p
}

/// Whether `p` stands anywhere in `s`.
pub open spec fn contains(s: Seq<char>, p: Seq<char>) -> bool {
    exists|i: int| occurs_at(s, p, i)
}

/// What a request asks the server for.
#[derive(Clone, Copy, Debug, PartialEq, Eq, Structural)]
pub enum Route {
    Hello,
    Sleep,
    ShutdownForm,
    Styles,
    ShutdownAccepted,
    ShutdownRejected,
    TotalShutdown,
    NotFound,
}

/// The route of a request, by the first request line that it starts with; a
/// shutdown form counts as accepted when the request holds the password field
/// followed by `password`.
pub open spec fn route_spec(request: Seq<char>, password: Seq<char>) -> Route {
    if occurs_at(request, GET_HELLO@, 0) {
        Route::Hello
    } else if occurs_at(request, GET_SLEEP@, 0) {
        Route::Sleep
    } else if occurs_at(request, SHUTDOWN_REQ@, 0) {
        Route::ShutdownForm
    } else if occurs_at(request, GET_CSS@, 0) {
        Route::Styles
    } else if occurs_at(request, SHUTDOWN_POST@, 0) {
        if contains(request, PASSWORD_FIELD@ + password) {
            Route::ShutdownAccepted
        } else {
            Route::ShutdownRejected
        }
    } else if occurs_at(request, SHUTDOWN@, 0) {
        Route::TotalShutdown
    } else {
        Route::NotFound
    }
}

/// Whether `p` stands in `s` at position `i`.
pub fn matches_at(s: &str, i: usize, p: &str) -> (r: bool)
    ensures
        r == occurs_at(s@, p@, i as int),
{
    let n = s.unicode_len();
    let m = p.unicode_len();
    if i > n || m > n - i {
        return false;
    }
    let mut k: usize = 0;
    while k < m
        invariant
            i + m <= n,
            n == s@.len(),
            m == p@.len(),
            k <= m,
            forall|j: int| 0 <= j < k ==> s@[i + j] == p@[j],
        decreases m - k,
    {
        if s.get_char(i + k) != p.get_char(k) {
            assert(s@.subrange(i as int, i + m)[k as int] != p@[k as int]);
            return false;
        }
        k = k + 1;
    }
    assert(s@.subrange(i as int, i + m) =~= p@);
    true
}

/// Whether `key` followed by `value` stands in `s` at position `i`.
fn pair_at(s: &str, i: usize, key: &str, value: &str) -> (r: bool)
    ensures
        r == occurs_at(s@, key@ + value@, i as int),
{
    let kv = Ghost(key@ + value@);
    if !matches_at(s, i, key) {
        proof {
            if occurs_at(s@, kv@, i as int) {
                assert(s@.subrange(i as int, i + key@.len()) =~= s@.subrange(
                    i as int,
                    i + kv@.len(),
                ).subrange(0, key@.len() as int));
                assert(kv@.subrange(0, key@.len() as int) =~= key@);
            }
        }
        return false;
    }
    let n = s.unicode_len();
    let kl = key.unicode_len();
    assert(i + kl <= n);
    let r = matches_at(s, i + kl, value);
    proof {
        if r {
            assert(s@.subrange(i as int, i + kv@.len()) =~= s@.subrange(i as int, i + kl)
                + s@.subrange(i + kl, i + kv@.len()));
        } else if occurs_at(s@, kv@, i as int) {
            assert(s@.subrange(i + kl, i + kv@.len()) =~= s@.subrange(
                i as int,
                i + kv@.len(),
            ).subrange(kl as int, kv@.len() as int));
            assert(kv@.subrange(kl as int, kv@.len() as int) =~= value@);
        }
    }
    r
}

/// Whether `key` followed by `value` stands anywhere in `s`.
pub fn contains_pair(s: &str, key: &str, value: &str) -> (r: bool)
    ensures
        r == contains(s@, key@ + value@),
{
    let n = s.unicode_len();
    let mut i: usize = 0;
    while i < n
        invariant
            n == s@.len(),
            i <= n,
            forall|j: int| 0 <= j < i ==> !occurs_at(s@, key@ + value@, j),
        decreases n - i,
    {
        if pair_at(s, i, key, value) {
            return true;
        }
        i = i + 1;
    }
    let r = pair_at(s, n, key, value);
    assert(!r ==> forall|j: int| !occurs_at(s@, key@ + value@, j)) by {
        if !r {
            assert forall|j: int| !occurs_at(s@, key@ + value@, j) by {
                if j > n {
                    assert(j + (key@ + value@).len() > s@.len());
                }
            }
        }
    }
    r
}

/// Decides what a request asks for.
pub fn route(request: &str, password: &str) -> (r: Route)
    ensures
        r == route_spec(request@, password@),
{
    if matches_at(request, 0, GET_HELLO) {
        Route::Hello
    } else if matches_at(request, 0, GET_SLEEP) {
        Route::Sleep
    } else if matches_at(request, 0, SHUTDOWN_REQ) {
        Route::ShutdownForm
    } else if matches_at(request, 0, GET_CSS) {
        Route::Styles
    } else if matches_at(request, 0, SHUTDOWN_POST) {
        if contains_pair(request, PASSWORD_FIELD, password) {
            Route::ShutdownAccepted
        } else {
            Route::ShutdownRejected
        }
    } else if matches_at(request, 0, SHUTDOWN) {
        Route::TotalShutdown
    } else {
        Route::NotFound
    }
}

impl Route {
    /// The status line of the response, or none where no response is sent.
    pub open spec fn status_line_spec(self) -> Option<&'static str> {
        match self {
            Route::TotalShutdown => None,
            Route::NotFound => Some("HTTP/1.1 404 NOT FOUND"),
            _ => Some("HTTP/1.1 200 OK"),
        }
    }

    /// The file whose contents make the response's body, or none where no
    /// response is sent.
    pub open spec fn page_spec(self) -> Option<&'static str> {
        match self {
            Route::Hello => Some("./front/hello.html"),
            Route::Sleep => Some("./front/sleep.html"),
            Route::ShutdownForm => Some("./front/shutdown.html"),
            Route::Styles => Some("./front/styles.css"),
            Route::ShutdownAccepted => Some("./front/shutdown_successful.html"),
            Route::ShutdownRejected => Some("./front/shutdown.html"),
            Route::TotalShutdown => None,
            Route::NotFound => Some("./front/404.html"),
        }
    }

    /// The status line of the response, or none where no response is sent.
    pub fn status_line(&self) -> (r: Option<&'static str>)
        ensures
            r == self.status_line_spec(),
    {
        match self {
            Route::TotalShutdown => None,
            Route::NotFound => Some("HTTP/1.1 404 NOT FOUND"),
            _ => Some("HTTP/1.1 200 OK"),
        }
    }

    /// The file whose contents make the response's body, or none where no
    /// response is sent.
    pub fn page(&self) -> (r: Option<&'static str>)
        ensures
            r == self.page_spec(),
    {
        match self {
            Route::Hello => Some("./front/hello.html"),
            Route::Sleep => Some("./front/sleep.html"),
            Route::ShutdownForm => Some("./front/shutdown.html"),
            Route::Styles => Some("./front/styles.css"),
            Route::ShutdownAccepted => Some("./front/shutdown_successful.html"),
            Route::ShutdownRejected => Some("./front/shutdown.html"),
            Route::TotalShutdown => None,
            Route::NotFound => Some("./front/404.html"),
        }
    }

    /// Whether the request is answered only after a delay.
    pub fn delays(&self) -> (r: bool)
        ensures
            r == (*self == Route::Sleep),
    {
        match self {
            Route::Sleep => true,
            _ => false,
        }
    }

    /// The status that the job serving the request reports: only a total
    /// shutdown request asks the pool's owner to stop.
    pub fn job_status(&self) -> (r: ThreadPoolStatus)
        ensures
            r == (if *self == Route::TotalShutdown {
                ThreadPoolStatus::Terminate
            } else {
                ThreadPoolStatus::Active
            }),
    {
        match self {
            Route::TotalShutdown => ThreadPoolStatus::Terminate,
            _ => ThreadPoolStatus::Active,
        }
    }
}

pub const DIGITS: &'static str = "0123456789";

pub const LENGTH_HEADER: &'static str = "\r\nContent-Length: ";

pub const HEADER_END: &'static str = "\r\n\r\n";

/// The decimal digits of `n`, most significant first, with no leading zero.
pub open spec fn decimal(n: nat) -> Seq<char>
    decreases n,
{
    if n < 10 {
        seq![DIGITS@[n as int]]
    } else {
        decimal(n / 10).push(DIGITS@[(n % 10) as int])
    }
}

/// Appends the decimal digits of `n` to `out`.
pub fn push_decimal(out: &mut String, n: usize)
    ensures
        final(out)@ == old(out)@ + decimal(n as nat),
    decreases n,
{
    if n >= 10 {
        push_decimal(out, n / 10);
    }
    proof {
        reveal_strlit("0123456789");
    }
    let d = n % 10;
    let digit = DIGITS.substring_char(d, d + 1);
    proof {
        assert(digit@ =~= seq![DIGITS@[d as int]]);
    }
    out.append(digit);
    proof {
        if n >= 10 {
            assert(final(out)@ =~= old(out)@ + decimal(n as nat));
        } else {
            assert(final(out)@ =~= old(out)@ + decimal(n as nat));
        }
    }
}

/// The text of a response: the status line, a header giving the body's
/// length in bytes, a blank line, and the body.
pub open spec fn response_spec(status_line: Seq<char>, body: &str) -> Seq<char> {
    status_line + LENGTH_HEADER@ + decimal(body.len() as nat) + HEADER_END@ + body@
}

/// Frames a response around `body`.
pub fn frame_response(status_line: &str, body: &str) -> (r: String)
    ensures
        r@ == response_spec(status_line@, body),
{
    let mut out = String::from_str(status_line);
    out.append(LENGTH_HEADER);
    push_decimal(&mut out, body.len());
    out.append(HEADER_END);
    out.append(body);
    out
}

} // verus!
