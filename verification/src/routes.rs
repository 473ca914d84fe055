//! The route table: which handler answers a method and a path.

use vstd::prelude::*;
use vstd::string::*;

verus! {

/// The request methods that the table tells apart.
#[derive(Clone, Copy, Debug, PartialEq, Eq, Structural)]
pub enum Method {
    Get,
    Post,
    Other,
}

/// Where a request goes.
#[derive(Clone, Copy, Debug, PartialEq, Eq, Structural)]
pub enum Route {
    Home,
    About,
    Contact,
    Login,
    LoginSubmit,
    Signup,
    SignupSubmit,
    ServerError,
    /// A file under the static directory.
    Static,
    /// A known path asked for with a method it does not serve.
    MethodNotAllowed,
    /// No route has this path.
    NotFound,
}

pub open spec fn static_root() -> Seq<char> {
    "/static"@
}

pub open spec fn static_prefix() -> Seq<char> {
    "/static/"@
}

/// The path is the static directory or lies under it.
pub open spec fn under_static(path: Seq<char>) -> bool {
    path == static_root() || (path.len() >= 8 && path.subrange(0, 8) == static_prefix())
}

/// The route of a page that is only read.
pub open spec fn page_route(method: Method, page: Route) -> Route {
    if method == Method::Get {
        page
    } else {
        Route::MethodNotAllowed
    }
}

/// The route of a page with a form behind it.
pub open spec fn form_route(method: Method, page: Route, submit: Route) -> Route {
    match method {
        Method::Get => page,
        Method::Post => submit,
        Method::Other => Route::MethodNotAllowed,
    }
}

/// The route table.
pub open spec fn route_of(method: Method, path: Seq<char>) -> Route {
    if path == "/"@ {
        page_route(method, Route::Home)
    } else if path == "/login"@ {
        form_route(method, Route::Login, Route::LoginSubmit)
    } else if path == "/about"@ {
        page_route(method, Route::About)
    } else if path == "/contact"@ {
        page_route(method, Route::Contact)
    } else if path == "/signup"@ {
        form_route(method, Route::Signup, Route::SignupSubmit)
    } else if path == "/servererror"@ {
        page_route(method, Route::ServerError)
    } else if under_static(path) {
        Route::Static
    } else {
        Route::NotFound
    }
}

/// The path is one of the six pages.
pub open spec fn is_page_path(path: Seq<char>) -> bool {
    path == "/"@ || path == "/login"@ || path == "/about"@ || path == "/contact"@ || path
        == "/signup"@ || path == "/servererror"@
}

fn same_text(a: &str, b: &str) -> (r: bool)
    ensures
        r == (a@ == b@),
{
    let x: String = a.to_owned();
    let y: String = b.to_owned();
    x == y
}

fn is_under_static(path: &str) -> (r: bool)
    ensures
        r == under_static(path@),
{
    if same_text(path, "/static") {
        return true;
    }
    if path.unicode_len() < 8 {
        return false;
    }
    same_text(path.substring_char(0, 8), "/static/")
}

fn for_page(method: Method, page: Route) -> (r: Route)
    ensures
        r == page_route(method, page),
{
    match method {
        Method::Get => page,
        _ => Route::MethodNotAllowed,
    }
}

fn for_form(method: Method, page: Route, submit: Route) -> (r: Route)
    ensures
        r == form_route(method, page, submit),
{
    match method {
        Method::Get => page,
        Method::Post => submit,
        Method::Other => Route::MethodNotAllowed,
    }
}

/// Looks a request up in the route table. A path that is neither a page nor
/// under the static directory goes to `NotFound`, whatever the method.
pub fn router(method: Method, path: &str) -> (route: Route)
    ensures
        route == route_of(method, path@),
        !is_page_path(path@) && !under_static(path@) ==> route == Route::NotFound,
{
    if same_text(path, "/") {
        for_page(method, Route::Home)
    } else if same_text(path, "/login") {
        for_form(method, Route::Login, Route::LoginSubmit)
    } else if same_text(path, "/about") {
        for_page(method, Route::About)
    } else if same_text(path, "/contact") {
        for_page(method, Route::Contact)
    } else if same_text(path, "/signup") {
        for_form(method, Route::Signup, Route::SignupSubmit)
    } else if same_text(path, "/servererror") {
        for_page(method, Route::ServerError)
    } else if is_under_static(path) {
        Route::Static
    } else {
        Route::NotFound
    }
}

/// The page paths are six different texts, none of them under the static
/// directory, so each reaches its own handler: a `GET` of `/servererror`
/// goes to the error page.
pub proof fn page_paths_are_distinct()
    ensures
        route_of(Method::Get, "/"@) == Route::Home,
        route_of(Method::Get, "/login"@) == Route::Login,
        route_of(Method::Post, "/login"@) == Route::LoginSubmit,
        route_of(Method::Get, "/about"@) == Route::About,
        route_of(Method::Get, "/contact"@) == Route::Contact,
        route_of(Method::Get, "/signup"@) == Route::Signup,
        route_of(Method::Post, "/signup"@) == Route::SignupSubmit,
        route_of(Method::Get, "/servererror"@) == Route::ServerError,
{
    reveal_strlit("/");
    reveal_strlit("/login");
    reveal_strlit("/about");
    reveal_strlit("/contact");
    reveal_strlit("/signup");
    reveal_strlit("/servererror");
    assert("/"@.len() == 1);
    assert("/login"@.len() == 6);
    assert("/login"@[1] == 'l');
    assert("/about"@[1] == 'a');
    assert("/contact"@[1] == 'c');
    assert("/signup"@[1] == 's');
    assert("/servererror"@[2] == 'e');
    assert("/signup"@[2] == 'i');
}

} // verus!
