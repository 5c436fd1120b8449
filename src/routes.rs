//! The routes a web front end mounts.
use vstd::prelude::*;
use vstd::string::*;

verus! {

/// An HTTP method.
#[derive(Clone, Copy, Debug, PartialEq, Eq, Structural)]
pub enum Method {
    Get,
    Post,
}

/// One route: its method, the base it is mounted under, and its path there.
#[derive(Clone, Debug)]
pub struct Route {
    pub method: Method,
    pub base: String,
    pub path: String,
}

/// A route as plain values.
pub open spec fn route_view(r: Route) -> (Method, Seq<char>, Seq<char>) {
    (r.method, r.base@, r.path@)
}

/// The route table: the home page, the login, signup and logout pages, the
/// user pages, and the device API.
pub open spec fn route_table() -> Seq<(Method, Seq<char>, Seq<char>)> {
    seq![
        (Method::Get, "/"@, "/"@),
        (Method::Get, "/"@, "/login"@),
        (Method::Post, "/"@, "/login"@),
        (Method::Get, "/"@, "/signup"@),
        (Method::Post, "/"@, "/signup"@),
        (Method::Get, "/"@, "/logout"@),
        (Method::Get, "/"@, "/user/<id>"@),
        (Method::Get, "/"@, "/user"@),
        (Method::Get, "/"@, "/users"@),
        (Method::Get, "/api"@, "/api/devices"@),
        (Method::Post, "/api"@, "/api/devices"@),
    ]
}

/// Appends one route.
fn push_route(routes: &mut Vec<Route>, method: Method, base: &str, path: &str)
    ensures
        final(routes)@.len() == old(routes)@.len() + 1,
        forall|i: int| 0 <= i < old(routes)@.len() ==> final(routes)@[i] == old(routes)@[i],
        route_view(final(routes)@[old(routes)@.len() as int]) == (method, base@, path@),
{
    routes.push(Route { method, base: String::from_str(base), path: String::from_str(path) });
}

/// The routes to mount, in order.
pub fn mount() -> (r: Vec<Route>)
    ensures
        r@.map_values(|x: Route| route_view(x)) == route_table(),
{
    let mut routes: Vec<Route> = Vec::new();
    push_route(&mut routes, Method::Get, "/", "/");
    push_route(&mut routes, Method::Get, "/", "/login");
    push_route(&mut routes, Method::Post, "/", "/login");
    push_route(&mut routes, Method::Get, "/", "/signup");
    push_route(&mut routes, Method::Post, "/", "/signup");
    push_route(&mut routes, Method::Get, "/", "/logout");
    push_route(&mut routes, Method::Get, "/", "/user/<id>");
    push_route(&mut routes, Method::Get, "/", "/user");
    push_route(&mut routes, Method::Get, "/", "/users");
    push_route(&mut routes, Method::Get, "/api", "/api/devices");
    push_route(&mut routes, Method::Post, "/api", "/api/devices");
    assert(routes@.map_values(|x: Route| route_view(x)) =~= route_table());
    routes
}

} // verus!
