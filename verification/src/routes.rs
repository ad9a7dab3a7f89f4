use vstd::prelude::*;

verus! {

/// Request bodies longer than this are rejected before any handler runs.
pub const MAX_BODY_BYTES: usize = 16384;

/// The HTTP methods the service routes.
#[derive(Clone, Copy, Debug, PartialEq, Eq, Structural)]
pub enum Method {
    Get,
    Post,
    Put,
    Delete,
}

/// The handler a request is dispatched to, carrying the guid extracted from
/// the path where the route has one. `NoMatch` stands for every request no
/// route claims.
#[derive(Debug, PartialEq)]
pub enum Route {
    ListCustomers,
    CreateCustomer,
    GetCustomer(String),
    UpdateCustomer(String),
    DeleteCustomer(String),
    NoMatch,
}

/// The mathematical value of a `Route`: the extracted guid as a character
/// sequence.
pub ghost enum RouteView {
    ListCustomers,
    CreateCustomer,
    GetCustomer(Seq<char>),
    UpdateCustomer(Seq<char>),
    DeleteCustomer(Seq<char>),
    NoMatch,
}

impl View for Route {
    type V = RouteView;

    open spec fn view(&self) -> RouteView {
        match self {
            Route::ListCustomers => RouteView::ListCustomers,
            Route::CreateCustomer => RouteView::CreateCustomer,
            Route::GetCustomer(g) => RouteView::GetCustomer(g@),
            Route::UpdateCustomer(g) => RouteView::UpdateCustomer(g@),
            Route::DeleteCustomer(g) => RouteView::DeleteCustomer(g@),
            Route::NoMatch => RouteView::NoMatch,
        }
    }
}

/// The routing rules over a method and the non-empty path segments:
/// `GET /customers` lists, `POST /customers` creates, and
/// `GET | PUT | DELETE /customers/{guid}` read, update and delete one record.
pub open spec fn spec_route(method: Method, segments: Seq<Seq<char>>) -> RouteView {
    if segments.len() == 1 && segments[0] == "customers"@ {
        match method {
            Method::Get => RouteView::ListCustomers,
            Method::Post => RouteView::CreateCustomer,
            _ => RouteView::NoMatch,
        }
    } else if segments.len() == 2 && segments[0] == "customers"@ {
        match method {
            Method::Get => RouteView::GetCustomer(segments[1]),
            Method::Put => RouteView::UpdateCustomer(segments[1]),
            Method::Delete => RouteView::DeleteCustomer(segments[1]),
            Method::Post => RouteView::NoMatch,
        }
    } else {
        RouteView::NoMatch
    }
}

/// Maps a request's method and path segments to the one route that claims
/// it, exactly as `spec_route` states.
pub fn match_route(method: &Method, segments: &Vec<String>) -> (r: Route)
    ensures
        r@ == spec_route(*method, segments@.map_values(|s: String| s@)),
{
    let collection: String = "customers".to_owned();
    if segments.len() == 1 && segments[0] == collection {
        match method {
            Method::Get => Route::ListCustomers,
            Method::Post => Route::CreateCustomer,
            _ => Route::NoMatch,
        }
    } else if segments.len() == 2 && segments[0] == collection {
        let guid = segments[1].clone();
        match method {
            Method::Get => Route::GetCustomer(guid),
            Method::Put => Route::UpdateCustomer(guid),
            Method::Delete => Route::DeleteCustomer(guid),
            Method::Post => Route::NoMatch,
        }
    } else {
        Route::NoMatch
    }
}

} // verus!
