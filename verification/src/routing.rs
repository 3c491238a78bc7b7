use vstd::prelude::*;

verus! {

/// The request methods the dispatcher distinguishes. Only `GET` routes
/// exist today; the table still records the method so that dispatch is
/// an exact match on both path and method.
#[derive(Clone, Copy, PartialEq, Eq, Structural, Debug)]
pub enum Method {
    Get,
}

/// Names one of the console's handlers. The dispatcher returns the
/// name; producing the payload is the responders' job, so the table
/// itself never depends on the configuration or the session.
#[derive(Clone, Copy, PartialEq, Eq, Structural, Debug)]
pub enum HandlerId {
    BufferView,
    Index,
    OrgIndex,
}

/// One registered route: an exact path, a method, and the handler
/// serving it.
pub struct Route {
    pub path: String,
    pub method: Method,
    pub handler: HandlerId,
}

/// The mathematical image of a route: the path as a character sequence.
#[verifier::ext_equal]
pub struct RouteView {
    pub path: Seq<char>,
    pub method: Method,
    pub handler: HandlerId,
}

impl View for Route {
    type V = RouteView;

    open spec fn view(&self) -> RouteView {
        RouteView { path: self.path@, method: self.method, handler: self.handler }
    }
}

/// A method together with the handler it leads to, ready to be put
/// under a path.
pub struct MethodRoute {
    pub method: Method,
    pub handler: HandlerId,
}

impl MethodRoute {
    /// The route entry this target makes when registered under `path`.
    pub open spec fn route_view(&self, path: Seq<char>) -> RouteView {
        RouteView { path, method: self.method, handler: self.handler }
    }
}

/// A `GET` target for the given handler.
pub fn get(handler: HandlerId) -> (r: MethodRoute)
    ensures
        r.method == Method::Get,
        r.handler == handler,
{
    MethodRoute { method: Method::Get, handler }
}

/// The handler serving `path` with `method` in `routes`: the first
/// entry matching both exactly, if any.
pub open spec fn dispatch_spec(routes: Seq<RouteView>, path: Seq<char>, method: Method) -> Option<
    HandlerId,
>
    decreases routes.len(),
{
    if routes.len() == 0 {
        None
    } else if routes[0].path == path && routes[0].method == method {
        Some(routes[0].handler)
    } else {
        dispatch_spec(routes.drop_first(), path, method)
    }
}

/// A route table: dispatch is exact match on path and method, first
/// registration wins. No precedence or pattern logic exists beyond
/// that.
pub struct Router {
    routes: Vec<Route>,
}

impl View for Router {
    type V = Seq<RouteView>;

    closed spec fn view(&self) -> Seq<RouteView> {
        self.routes@.map_values(|r: Route| r@)
    }
}

impl Router {
    /// An empty table.
    pub fn new() -> (r: Router)
        ensures
            r@ == Seq::<RouteView>::empty(),
    {
        let r = Router { routes: Vec::new() };
        proof {
            assert(r@ =~= Seq::<RouteView>::empty());
        }
        r
    }

    /// Registers `target` under `path`, after every route already
    /// present.
    pub fn route(self, path: &str, target: MethodRoute) -> (r: Router)
        ensures
            r@ == self@.push(target.route_view(path@)),
    {
        let ghost before = self@;
        let entry = Route {
            path: String::from_str(path),
            method: target.method,
            handler: target.handler,
        };
        let ghost entry_view = entry@;
        let mut routes = self.routes;
        routes.push(entry);
        let r = Router { routes };
        proof {
            assert(r@ =~~= before.push(entry_view));
        }
        r
    }

    /// Joins two tables: every route of `self`, then every route of
    /// `other`.
    pub fn merge(self, other: Router) -> (r: Router)
        ensures
            r@ == self@ + other@,
    {
        let ghost left = self@;
        let ghost right = other@;
        let mut routes = self.routes;
        let mut tail = other.routes;
        routes.append(&mut tail);
        let r = Router { routes };
        proof {
            assert(r@ =~~= left + right);
        }
        r
    }

    /// Looks the pair up in the table; `None` reports the not-found
    /// condition.
    pub fn dispatch(&self, path: &str, method: Method) -> (r: Option<HandlerId>)
        ensures
            r == dispatch_spec(self@, path@, method),
    {
        let wanted = String::from_str(path);
        let n = self.routes.len();
        let mut i: usize = 0;
        proof {
            assert(self@.skip(0) =~= self@);
        }
        while i < n
            invariant
                i <= n,
                n == self.routes.len(),
                wanted@ == path@,
                dispatch_spec(self@, path@, method) == dispatch_spec(
                    self@.skip(i as int),
                    path@,
                    method,
                ),
            decreases n - i,
        {
            let entry = &self.routes[i];
            proof {
                assert(self@.skip(i as int)[0] == self@[i as int]);
            }
            if entry.path == wanted && entry.method == method {
                return Some(entry.handler);
            }
            proof {
                assert(self@.skip(i as int).drop_first() =~= self@.skip(i as int + 1));
            }
            i = i + 1;
        }
        proof {
            assert(self@.skip(i as int) =~= Seq::<RouteView>::empty());
        }
        None
    }
}

} // verus!
