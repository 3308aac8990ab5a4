//! The request handlers. Each turns a request into a response; loading page
//! files is left to the caller, which hands the contents in.
use vstd::prelude::*;

use crate::request::HttpRequest;
use crate::response::{built, default_response, opt_view, HttpResponse};

verus! {

/// A record that the web service reports on.
#[derive(Debug, Clone, PartialEq)]
pub struct OrderStatus {
    pub order_id: i32,
    pub order_date: String,
    pub order_status: String,
}

/// Serves static pages.
pub struct StaticPageHandler;

/// Answers requests that no other handler takes.
pub struct PageNotFoundHandler;

/// Serves the web-service endpoints under `/api`.
pub struct WebServiceHandler;

impl PageNotFoundHandler {
    /// A `404` response whose body is the not-found page, when it could be
    /// loaded, and no body otherwise. The request itself is not consulted.
    pub fn handle(req: &HttpRequest, page: Option<String>) -> (r: HttpResponse)
        ensures
            r@ == built("404"@, None, opt_view(page)),
    {
        HttpResponse::new("404", None, page)
    }
}

impl StaticPageHandler {
    /// The default `200 OK` response.
    pub fn handle(req: &HttpRequest) -> (r: HttpResponse)
        ensures
            r@ == default_response(),
    {
        HttpResponse::default()
    }
}

impl WebServiceHandler {
    /// The default `200 OK` response.
    pub fn handle(req: &HttpRequest) -> (r: HttpResponse)
        ensures
            r@ == default_response(),
    {
        HttpResponse::default()
    }
}

} // verus!
