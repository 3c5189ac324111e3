//! The route table: which handler answers which method on which path, and
//! what a request that no route takes is answered with.

use vstd::prelude::*;
use vstd::string::StringExecFns;
use crate::reply::{
    bench_delete, bench_get, bench_post, bench_put, index, index_page, is_ok_reply, html_type,
    json_type, Reply, DELETE_FIXTURE, GET_FIXTURE, POST_FIXTURE, PUT_FIXTURE,
};

verus! {

#[derive(Clone, Copy, Debug, PartialEq, Eq, Structural)]
pub enum Method {
    Get,
    Post,
    Put,
    Delete,
    /// Any method that no route of the server takes.
    Other,
}

#[derive(Clone, Copy, Debug, PartialEq, Eq, Structural)]
pub enum Endpoint {
    Index,
    BenchGet,
    BenchPost,
    BenchPut,
    BenchDelete,
}

/// Why a request was not routed to a handler.
#[derive(Clone, Copy, Debug, PartialEq, Eq, Structural)]
pub enum RouteError {
    /// No route has the request's path.
    NotFound,
    /// Routes have the request's path, none with its method.
    MethodNotAllowed,
}

pub const STATUS_NOT_FOUND: u16 = 404;

pub const STATUS_METHOD_NOT_ALLOWED: u16 = 405;

#[derive(Clone, Debug)]
pub struct Route {
    pub method: Method,
    pub path: String,
    pub endpoint: Endpoint,
}

pub ghost struct RouteView {
    pub method: Method,
    pub path: Seq<char>,
    pub endpoint: Endpoint,
}

impl View for Route {
    type V = RouteView;

    open spec fn view(&self) -> RouteView {
        RouteView { method: self.method, path: self.path@, endpoint: self.endpoint }
    }
}

pub open spec fn table_view(t: Seq<Route>) -> Seq<RouteView> {
    t.map_values(|r: Route| r@)
}

pub open spec fn route_of(method: Method, path: Seq<char>, endpoint: Endpoint) -> RouteView {
    RouteView { method, path, endpoint }
}

/// The routes of the server's own pages.
pub open spec fn server_route_views() -> Seq<RouteView> {
    seq![route_of(Method::Get, "/"@, Endpoint::Index)]
}

/// The routes of the benchmark endpoints.
pub open spec fn benchmark_route_views() -> Seq<RouteView> {
    seq![
        route_of(Method::Get, "/"@, Endpoint::Index),
        route_of(Method::Get, "/get"@, Endpoint::BenchGet),
        route_of(Method::Post, "/post"@, Endpoint::BenchPost),
        route_of(Method::Put, "/put"@, Endpoint::BenchPut),
        route_of(Method::Delete, "/delete"@, Endpoint::BenchDelete),
    ]
}

/// The server's table: its own pages, then the benchmark endpoints.
pub open spec fn route_table_views() -> Seq<RouteView> {
    server_route_views() + benchmark_route_views()
}

pub open spec fn takes(r: RouteView, method: Method, path: Seq<char>) -> bool {
    r.method == method && r.path == path
}

/// Whether the `i`-th route of `t` is the first that takes the request.
pub open spec fn first_taker(t: Seq<RouteView>, method: Method, path: Seq<char>, i: int) -> bool {
    &&& 0 <= i < t.len()
    &&& takes(t[i], method, path)
    &&& forall|j: int| 0 <= j < i ==> !takes(#[trigger] t[j], method, path)
}

pub open spec fn has_path(t: Seq<RouteView>, path: Seq<char>) -> bool {
    exists|j: int| 0 <= j < t.len() && (#[trigger] t[j]).path == path
}

/// The handler of the first route that takes the request; else
/// `MethodNotAllowed` where a route has its path, and `NotFound` where none
/// has.
pub open spec fn dispatched(t: Seq<RouteView>, method: Method, path: Seq<char>) -> Result<
    Endpoint,
    RouteError,
> {
    if exists|i: int| first_taker(t, method, path, i) {
        Ok(t[choose|i: int| first_taker(t, method, path, i)].endpoint)
    } else if has_path(t, path) {
        Err(RouteError::MethodNotAllowed)
    } else {
        Err(RouteError::NotFound)
    }
}

fn add_route(table: &mut Vec<Route>, method: Method, path: &str, endpoint: Endpoint)
    ensures
        table_view(final(table)@) == table_view(old(table)@).push(route_of(method, path@, endpoint)),
{
    table.push(Route { method, path: String::from_str(path), endpoint });
    assert(table_view(final(table)@) =~= table_view(old(table)@).push(route_of(method, path@, endpoint)));
}

/// Adds the routes of the server's own pages to `table`.
pub fn server_routes(table: &mut Vec<Route>)
    ensures
        table_view(final(table)@) == table_view(old(table)@) + server_route_views(),
{
    add_route(table, Method::Get, "/", Endpoint::Index);
    assert(table_view(final(table)@) =~= table_view(old(table)@) + server_route_views());
}

/// Adds the routes of the benchmark endpoints to `table`.
pub fn benchmark_routes(table: &mut Vec<Route>)
    ensures
        table_view(final(table)@) == table_view(old(table)@) + benchmark_route_views(),
{
    add_route(table, Method::Get, "/", Endpoint::Index);
    add_route(table, Method::Get, "/get", Endpoint::BenchGet);
    add_route(table, Method::Post, "/post", Endpoint::BenchPost);
    add_route(table, Method::Put, "/put", Endpoint::BenchPut);
    add_route(table, Method::Delete, "/delete", Endpoint::BenchDelete);
    assert(table_view(final(table)@) =~= table_view(old(table)@) + benchmark_route_views());
}

/// The server's route table.
pub fn route_table() -> (r: Vec<Route>)
    ensures
        table_view(r@) == route_table_views(),
{
    let mut table: Vec<Route> = Vec::new();
    assert(table_view(table@) =~= Seq::<RouteView>::empty());
    server_routes(&mut table);
    benchmark_routes(&mut table);
    assert(table_view(table@) =~= route_table_views());
    table
}

/// Finds the handler of a request in `table`.
pub fn dispatch(table: &Vec<Route>, method: Method, path: &String) -> (r: Result<Endpoint, RouteError>)
    ensures
        r == dispatched(table_view(table@), method, path@),
{
    let ghost t = table_view(table@);
    let mut seen = false;
    let mut i: usize = 0;
    while i < table.len()
        invariant
            i <= table@.len(),
            t == table_view(table@),
            forall|j: int| 0 <= j < i ==> !takes(#[trigger] t[j], method, path@),
            seen == exists|j: int| 0 <= j < i && (#[trigger] t[j]).path == path@,
        decreases table.len() - i,
    {
        let same_path = table[i].path == *path;
        assert(t[i as int] == table@[i as int]@);
        if same_path && table[i].method == method {
            proof {
                assert(first_taker(t, method, path@, i as int));
                let k = choose|k: int| first_taker(t, method, path@, k);
                if k < i {
                    assert(!takes(t[k], method, path@));
                } else if k > i {
                    assert(!takes(t[i as int], method, path@));
                }
            }
            return Ok(table[i].endpoint);
        }
        seen = seen || same_path;
        i = i + 1;
    }
    assert(!exists|k: int| first_taker(t, method, path@, k));
    if seen {
        Err(RouteError::MethodNotAllowed)
    } else {
        Err(RouteError::NotFound)
    }
}

/// The reply of each handler: its content type and its body.
pub open spec fn endpoint_reply(e: Endpoint) -> (Seq<char>, Seq<char>) {
    match e {
        Endpoint::Index => (html_type(), index_page()),
        Endpoint::BenchGet => (json_type(), GET_FIXTURE@),
        Endpoint::BenchPost => (json_type(), POST_FIXTURE@),
        Endpoint::BenchPut => (json_type(), PUT_FIXTURE@),
        Endpoint::BenchDelete => (json_type(), DELETE_FIXTURE@),
    }
}

/// Runs the handler `e`.
pub fn respond(e: Endpoint) -> (r: Reply)
    ensures
        is_ok_reply(r, endpoint_reply(e).0, endpoint_reply(e).1),
{
    match e {
        Endpoint::Index => index(),
        Endpoint::BenchGet => bench_get(),
        Endpoint::BenchPost => bench_post(),
        Endpoint::BenchPut => bench_put(),
        Endpoint::BenchDelete => bench_delete(),
    }
}

/// The status of a request that no route takes.
pub fn error_status(e: RouteError) -> (r: u16)
    ensures
        e is NotFound ==> r == STATUS_NOT_FOUND,
        e is MethodNotAllowed ==> r == STATUS_METHOD_NOT_ALLOWED,
{
    match e {
        RouteError::NotFound => STATUS_NOT_FOUND,
        RouteError::MethodNotAllowed => STATUS_METHOD_NOT_ALLOWED,
    }
}

/// Answers a request: the reply of the handler that `table` routes it to,
/// else an empty reply with status 404 or 405.
pub fn handle(table: &Vec<Route>, method: Method, path: &String) -> (r: Reply)
    ensures
        dispatched(table_view(table@), method, path@) matches Ok(e) ==> is_ok_reply(
            r,
            endpoint_reply(e).0,
            endpoint_reply(e).1,
        ),
        dispatched(table_view(table@), method, path@) matches Err(e) ==> {
            &&& e is NotFound ==> r.status == STATUS_NOT_FOUND
            &&& e is MethodNotAllowed ==> r.status == STATUS_METHOD_NOT_ALLOWED
            &&& r.content_type is None
            &&& r.body@ == Seq::<char>::empty()
        },
{
    match dispatch(table, method, path) {
        Ok(e) => respond(e),
        Err(e) => Reply { status: error_status(e), content_type: None, body: String::new() },
    }
}

proof fn reveal_paths()
    ensures
        "/"@ == seq!['/'],
        "/get"@ == seq!['/', 'g', 'e', 't'],
        "/post"@ == seq!['/', 'p', 'o', 's', 't'],
        "/put"@ == seq!['/', 'p', 'u', 't'],
        "/delete"@ == seq!['/', 'd', 'e', 'l', 'e', 't', 'e'],
        "/"@.len() == 1,
        "/get"@.len() == 4,
        "/post"@.len() == 5,
        "/put"@.len() == 4,
        "/delete"@.len() == 7,
        "/get"@ != "/put"@,
{
    reveal_strlit("/");
    reveal_strlit("/get");
    reveal_strlit("/post");
    reveal_strlit("/put");
    reveal_strlit("/delete");
    assert("/"@ =~= seq!['/']);
    assert("/get"@ =~= seq!['/', 'g', 'e', 't']);
    assert("/post"@ =~= seq!['/', 'p', 'o', 's', 't']);
    assert("/put"@ =~= seq!['/', 'p', 'u', 't']);
    assert("/delete"@ =~= seq!['/', 'd', 'e', 'l', 'e', 't', 'e']);
    assert("/get"@[1] != "/put"@[1]);
}

proof fn lemma_table_entries()
    ensures
        route_table_views().len() == 6,
        route_table_views()[0] == route_of(Method::Get, "/"@, Endpoint::Index),
        route_table_views()[1] == route_of(Method::Get, "/"@, Endpoint::Index),
        route_table_views()[2] == route_of(Method::Get, "/get"@, Endpoint::BenchGet),
        route_table_views()[3] == route_of(Method::Post, "/post"@, Endpoint::BenchPost),
        route_table_views()[4] == route_of(Method::Put, "/put"@, Endpoint::BenchPut),
        route_table_views()[5] == route_of(Method::Delete, "/delete"@, Endpoint::BenchDelete),
{
}

proof fn lemma_first_taker_unique(t: Seq<RouteView>, method: Method, path: Seq<char>, i: int)
    requires
        first_taker(t, method, path, i),
    ensures
        dispatched(t, method, path) == Ok::<Endpoint, RouteError>(t[i].endpoint),
{
    let k = choose|k: int| first_taker(t, method, path, k);
    if k < i {
        assert(!takes(t[k], method, path));
    } else if k > i {
        assert(!takes(t[i], method, path));
    }
}

/// In the server's table, each page and benchmark endpoint asked with its
/// own method is answered by its handler.
pub proof fn routes_reach_their_handlers()
    ensures
        dispatched(route_table_views(), Method::Get, "/"@) == Ok::<Endpoint, RouteError>(Endpoint::Index),
        dispatched(route_table_views(), Method::Get, "/get"@) == Ok::<Endpoint, RouteError>(Endpoint::BenchGet),
        dispatched(route_table_views(), Method::Post, "/post"@) == Ok::<Endpoint, RouteError>(Endpoint::BenchPost),
        dispatched(route_table_views(), Method::Put, "/put"@) == Ok::<Endpoint, RouteError>(Endpoint::BenchPut),
        dispatched(route_table_views(), Method::Delete, "/delete"@) == Ok::<Endpoint, RouteError>(Endpoint::BenchDelete),
{
    reveal_paths();
    lemma_table_entries();
    let t = route_table_views();
    assert(first_taker(t, Method::Get, "/"@, 0));
    lemma_first_taker_unique(t, Method::Get, "/"@, 0);
    assert(first_taker(t, Method::Get, "/get"@, 2));
    lemma_first_taker_unique(t, Method::Get, "/get"@, 2);
    assert(first_taker(t, Method::Post, "/post"@, 3));
    lemma_first_taker_unique(t, Method::Post, "/post"@, 3);
    assert(first_taker(t, Method::Put, "/put"@, 4));
    lemma_first_taker_unique(t, Method::Put, "/put"@, 4);
    assert(first_taker(t, Method::Delete, "/delete"@, 5));
    lemma_first_taker_unique(t, Method::Delete, "/delete"@, 5);
}

/// The method that the server's table takes on each benchmark path.
pub open spec fn benchmark_method(path: Seq<char>) -> Option<Method> {
    if path == "/get"@ {
        Some(Method::Get)
    } else if path == "/post"@ {
        Some(Method::Post)
    } else if path == "/put"@ {
        Some(Method::Put)
    } else if path == "/delete"@ {
        Some(Method::Delete)
    } else {
        None
    }
}

/// A benchmark path asked with any other method than its own is refused
/// as `MethodNotAllowed` (status 405), not routed.
pub proof fn wrong_method_is_refused(method: Method, path: Seq<char>)
    requires
        benchmark_method(path) is Some,
        benchmark_method(path) != Some(method),
    ensures
        dispatched(route_table_views(), method, path) == Err::<Endpoint, RouteError>(RouteError::MethodNotAllowed),
{
    reveal_paths();
    lemma_table_entries();
    let t = route_table_views();
    assert forall|i: int| 0 <= i < t.len() implies !takes(#[trigger] t[i], method, path) by {}
    assert(t[2].path == "/get"@);
    assert(t[3].path == "/post"@);
    assert(t[4].path == "/put"@);
    assert(t[5].path == "/delete"@);
}

} // verus!
