use green_thread::greeting::_safe;
use green_thread::http::{page, response, route, status_line, Route};

#[test]
fn safe_returns_hello() {
    assert_eq!(_safe(), "hello");
}

fn buffer(prefix: &[u8]) -> [u8; 512] {
    let mut b = [0u8; 512];
    b[..prefix.len()].copy_from_slice(prefix);
    b
}

#[test]
fn route_index() {
    assert_eq!(route(&buffer(b"GET / HTTP/1.1\r\nHost: x\r\n\r\n")), Route::Index);
    assert_eq!(route(b"GET / HTTP/1.1\r\n"), Route::Index);
}

#[test]
fn route_sleep() {
    assert_eq!(route(&buffer(b"GET /sleep HTTP/1.1\r\n")), Route::Sleep);
}

#[test]
fn route_not_found() {
    assert_eq!(route(&buffer(b"GET /other HTTP/1.1\r\n")), Route::NotFound);
    assert_eq!(route(&buffer(b"POST / HTTP/1.1\r\n")), Route::NotFound);
    assert_eq!(route(b"GET / HTTP/1.1\r"), Route::NotFound);
    assert_eq!(route(b""), Route::NotFound);
    assert_eq!(route(&[0u8; 512]), Route::NotFound);
}

#[test]
fn status_lines_and_pages() {
    assert_eq!(status_line(Route::Index), "HTTP/1.1 200 OK\r\n\r\n");
    assert_eq!(status_line(Route::Sleep), "HTTP/1.1 200 OK\r\n\r\n");
    assert_eq!(status_line(Route::NotFound), "HTTP/1.1 404 NOT FOUND\r\n\r\n");
    assert_eq!(page(Route::Index), "hello.html");
    assert_eq!(page(Route::Sleep), "hello.html");
    assert_eq!(page(Route::NotFound), "404.html");
}

#[test]
fn response_joins_status_and_contents() {
    assert_eq!(response(Route::Index, "<p>hi</p>"), "HTTP/1.1 200 OK\r\n\r\n<p>hi</p>");
    assert_eq!(response(Route::NotFound, ""), "HTTP/1.1 404 NOT FOUND\r\n\r\n");
}
