use http_message::handlers::{PageNotFoundHandler, StaticPageHandler, WebServiceHandler};
use http_message::request::HttpRequest;
use http_message::router::{Route, Router};

fn request(raw: &str) -> HttpRequest {
    HttpRequest::parse(raw)
}

#[test]
fn get_api_goes_to_web_service() {
    let req = request("GET /api/orders HTTP/1.1\r\n\r\n");
    assert_eq!(Router::select(&req), Route::WebService);
    let req = request("GET /api HTTP/1.1\r\n\r\n");
    assert_eq!(Router::select(&req), Route::WebService);
}

#[test]
fn get_page_goes_to_static_pages() {
    let req = request("GET /index.html HTTP/1.1\r\n\r\n");
    assert_eq!(Router::select(&req), Route::StaticPage);
    let req = request("GET / HTTP/1.1\r\n\r\n");
    assert_eq!(Router::select(&req), Route::StaticPage);
    let req = request("GET api HTTP/1.1\r\n\r\n");
    assert_eq!(Router::select(&req), Route::StaticPage);
    let req = request("GET /apis/x HTTP/1.1\r\n\r\n");
    assert_eq!(Router::select(&req), Route::StaticPage);
}

#[test]
fn non_get_is_not_found() {
    let req = request("POST /api/orders HTTP/1.1\r\n\r\n");
    assert_eq!(Router::select(&req), Route::PageNotFound);
    let req = request("POST /index.html HTTP/1.1\r\n\r\n");
    assert_eq!(Router::select(&req), Route::PageNotFound);
    let req = request("PUT /index.html HTTP/1.1\r\n\r\n");
    assert_eq!(Router::select(&req), Route::PageNotFound);
}

#[test]
fn not_found_response_carries_page() {
    let req = request("POST / HTTP/1.1\r\n\r\n");
    let resp = Router::route(req, Some("<h1>gone</h1>".to_string()));
    assert_eq!(resp.status_code(), "404");
    assert_eq!(resp.status_text(), "Not Found");
    assert_eq!(
        resp.to_wire(),
        "HTTP/1.1 404 Not Found\r\nContent-Type: text/html\r\nContent-Length: 13\r\n\r\n<h1>gone</h1>"
    );
    let req = request("POST / HTTP/1.1\r\n\r\n");
    let resp = PageNotFoundHandler::handle(&req, None);
    assert_eq!(resp.to_wire(), "HTTP/1.1 404 Not Found\r\nContent-Type: text/html\r\n\r\n");
}

#[test]
fn served_routes_answer_ok() {
    let req = request("GET /api/orders HTTP/1.1\r\n\r\n");
    assert_eq!(WebServiceHandler::handle(&req).status_code(), "200");
    let resp = Router::route(req, Some("unused".to_string()));
    assert_eq!(resp.to_wire(), "HTTP/1.1 200 OK\r\n\r\n");
    let req = request("GET /index.html HTTP/1.1\r\n\r\n");
    assert_eq!(StaticPageHandler::handle(&req).status_text(), "OK");
    let resp = Router::route(req, None);
    assert_eq!(resp.body(), None);
}
