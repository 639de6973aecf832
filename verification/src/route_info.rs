//! Route descriptors: the HTTP method, the path pattern with its `<param>`
//! placeholders, and the name of the handler that serves it.
use vstd::prelude::*;

verus! {

/// HTTP methods the front end serves.
#[derive(Clone, Copy, Debug, PartialEq, Eq, Structural)]
pub enum Method {
    Get,
    Post,
    Delete,
}

/// One route of the front end.
#[derive(Debug)]
pub struct RouteInfo {
    pub method: Method,
    /// Path pattern, with the query part where the handler takes one,
    /// e.g. `/<project_id>/import_reqif?<error>`.
    pub uri: String,
    /// Name of the handler.
    pub name: String,
}

/// Mathematical view of a route.
pub struct RouteView {
    pub method: Method,
    pub uri: Seq<char>,
    pub name: Seq<char>,
}

impl View for RouteInfo {
    type V = RouteView;

    open spec fn view(&self) -> RouteView {
        RouteView { method: self.method, uri: self.uri@, name: self.name@ }
    }
}

pub open spec fn route_view(method: Method, uri: Seq<char>, name: Seq<char>) -> RouteView {
    RouteView { method, uri, name }
}

/// Views of a sequence of routes.
pub open spec fn route_views(routes: Seq<RouteInfo>) -> Seq<RouteView> {
    routes.map_values(|r: RouteInfo| r@)
}

/// A route descriptor.
pub fn route(method: Method, uri: &str, name: &str) -> (r: RouteInfo)
    ensures
        r@ == route_view(method, uri@, name@),
{
    RouteInfo { method, uri: String::from_str(uri), name: String::from_str(name) }
}

/// Moves the routes of `more` to the end of `routes`.
pub fn extend_routes(routes: &mut Vec<RouteInfo>, more: Vec<RouteInfo>)
    ensures
        route_views(final(routes)@) == route_views(old(routes)@) + route_views(more@),
{
    let ghost more_v = more@;
    let mut more = more;
    routes.append(&mut more);
    assert(route_views(routes@) =~= route_views(old(routes)@) + route_views(more_v));
}

} // verus!
