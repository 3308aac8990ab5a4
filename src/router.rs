//! Dispatch of a parsed request to exactly one handler, by method and path.
use vstd::prelude::*;

use crate::handlers::{PageNotFoundHandler, StaticPageHandler, WebServiceHandler};
use crate::request::{HttpRequest, Method, Resource};
use crate::response::{built, default_response, opt_view, HttpResponse};
use crate::text::{chars_of, find, find_char, same_text};

verus! {

/// The handler that a request goes to.
#[derive(Debug, Clone, Copy, PartialEq, Eq, Structural)]
pub enum Route {
    StaticPage,
    WebService,
    PageNotFound,
}

/// The second `/`-separated segment of `path`: what lies between its first
/// and second slash (or its end), and empty when it holds no slash.
pub open spec fn second_segment(path: Seq<char>) -> Seq<char> {
    let a = find_char(path, '/', 0);
    if a >= path.len() {
        Seq::empty()
    } else {
        path.subrange(a + 1, find_char(path, '/', a + 1))
    }
}

/// The route for a request: anything but `GET` is not found; a `GET` whose
/// path's second segment is `api` goes to the web service; any other `GET` to
/// the static pages.
pub open spec fn route_of(method: Method, path: Seq<char>) -> Route {
    if method != Method::Get {
        Route::PageNotFound
    } else if second_segment(path) == "api"@ {
        Route::WebService
    } else {
        Route::StaticPage
    }
}

/// What the router answers for a request, given the not-found page's contents.
pub open spec fn routed_response(method: Method, path: Seq<char>, page: Option<Seq<char>>) -> crate::response::ResponseView {
    match route_of(method, path) {
        Route::PageNotFound => built("404"@, None, page),
        _ => default_response(),
    }
}

/// Requests that are not `GET` are never served, whatever their path.
pub proof fn lemma_non_get_not_found(method: Method, path: Seq<char>)
    requires
        method != Method::Get,
    ensures
        route_of(method, path) == Route::PageNotFound,
{
}

pub struct Router;

impl Router {
    /// The handler that `req` goes to.
    pub fn select(req: &HttpRequest) -> (r: Route)
        ensures
            r == route_of(req.method, req.resource@),
    {
        if req.method != Method::Get {
            return Route::PageNotFound;
        }
        let path = match &req.resource {
            Resource::Path(s) => s.as_str(),
        };
        let cs = chars_of(path);
        let n = cs.len();
        let a = find(&cs, '/', 0);
        proof {
            crate::text::lemma_find_char(cs@, '/', 0);
        }
        if a >= n {
            proof {
                reveal_strlit("api");
                assert("api"@.len() == 3);
            }
            return Route::StaticPage;
        }
        let b = find(&cs, '/', a + 1);
        proof {
            crate::text::lemma_find_char(cs@, '/', a + 1);
        }
        if same_text(path.substring_char(a + 1, b), "api") {
            Route::WebService
        } else {
            Route::StaticPage
        }
    }

    /// Dispatches `req` to its handler and returns that handler's response.
    /// `not_found_page` is the not-found page's contents, if it could be loaded.
    pub fn route(req: HttpRequest, not_found_page: Option<String>) -> (r: HttpResponse)
        ensures
            r@ == routed_response(req.method, req.resource@, opt_view(not_found_page)),
    {
        match Router::select(&req) {
            Route::WebService => WebServiceHandler::handle(&req),
            Route::StaticPage => StaticPageHandler::handle(&req),
            Route::PageNotFound => PageNotFoundHandler::handle(&req, not_found_page),
        }
    }
}

} // verus!
