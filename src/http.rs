//! The decision a request handler makes from the start of a request: which
//! status line and page to answer with, and whether to delay the answer.
use vstd::prelude::*;
use vstd::string::StringExecFns;

verus! {

/// What a request asks for.
#[derive(Debug, Clone, Copy, PartialEq, Eq, Structural)]
pub enum Route {
    /// The index page.
    Index,
    /// The index page, after a delay.
    Sleep,
    /// Anything else.
    NotFound,
}

/// The request line `GET / HTTP/1.1` with its line break.
pub open spec fn index_request() -> Seq<u8> {
    seq![71u8, 69, 84, 32, 47, 32, 72, 84, 84, 80, 47, 49, 46, 49, 13, 10]
}

/// The request line `GET /sleep HTTP/1.1` with its line break.
pub open spec fn sleep_request() -> Seq<u8> {
    seq![71u8, 69, 84, 32, 47, 115, 108, 101, 101, 112, 32, 72, 84, 84, 80, 47, 49, 46, 49, 13, 10]
}

/// `s` begins with `p`.
pub open spec fn has_prefix(s: Seq<u8>, p: Seq<u8>) -> bool {
    p.len() <= s.len() && s.subrange(0, p.len() as int) == p
}

/// The route a request takes.
pub open spec fn route_of(request: Seq<u8>) -> Route {
    if has_prefix(request, index_request()) {
        Route::Index
    } else if has_prefix(request, sleep_request()) {
        Route::Sleep
    } else {
        Route::NotFound
    }
}

/// The status line answered on a route.
pub open spec fn status_line_of(route: Route) -> Seq<char> {
    match route {
        Route::NotFound => "HTTP/1.1 404 NOT FOUND\r\n\r\n"@,
        _ => "HTTP/1.1 200 OK\r\n\r\n"@,
    }
}

/// The name of the page file answered on a route.
pub open spec fn page_of(route: Route) -> Seq<char> {
    match route {
        Route::NotFound => "404.html"@,
        _ => "hello.html"@,
    }
}

fn starts_with(s: &[u8], p: &Vec<u8>) -> (r: bool)
    ensures
        r == has_prefix(s@, p@),
{
    if p.len() > s.len() {
        return false;
    }
    let mut i: usize = 0;
    while i < p.len()
        invariant
            p@.len() <= s@.len(),
            i <= p@.len(),
            forall|j: int| 0 <= j < i ==> s@[j] == p@[j],
        decreases p@.len() - i,
    {
        if s[i] != p[i] {
            assert(s@.subrange(0, p@.len() as int)[i as int] != p@[i as int]);
            return false;
        }
        i = i + 1;
    }
    assert(s@.subrange(0, p@.len() as int) =~= p@);
    true
}

/// The route of a request, from its first bytes.
pub fn route(request: &[u8]) -> (r: Route)
    ensures
        r == route_of(request@),
{
    let index: Vec<u8> = vec![71u8, 69, 84, 32, 47, 32, 72, 84, 84, 80, 47, 49, 46, 49, 13, 10];
    let sleep: Vec<u8> = vec![71u8, 69, 84, 32, 47, 115, 108, 101, 101, 112, 32, 72, 84, 84, 80, 47, 49, 46, 49, 13, 10];
    assert(index@ =~= index_request());
    assert(sleep@ =~= sleep_request());
    if starts_with(request, &index) {
        Route::Index
    } else if starts_with(request, &sleep) {
        Route::Sleep
    } else {
        Route::NotFound
    }
}

/// The status line answered on `route`.
pub fn status_line(route: Route) -> (r: String)
    ensures
        r@ == status_line_of(route),
{
    match route {
        Route::NotFound => String::from_str("HTTP/1.1 404 NOT FOUND\r\n\r\n"),
        _ => String::from_str("HTTP/1.1 200 OK\r\n\r\n"),
    }
}

/// The name of the page file answered on `route`.
pub fn page(route: Route) -> (r: String)
    ensures
        r@ == page_of(route),
{
    match route {
        Route::NotFound => String::from_str("404.html"),
        _ => String::from_str("hello.html"),
    }
}

/// The answer on `route`: its status line followed by the page's contents.
pub fn response(route: Route, contents: &str) -> (r: String)
    ensures
        r@ == status_line_of(route) + contents@,
{
    status_line(route).concat(contents)
}

} // verus!
