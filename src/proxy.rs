//! The dispatcher: route resolution and the failover walk over endpoints.
use vstd::prelude::*;
use vstd::string::*;
use crate::client::{error_text, CallResult, RpcProxyError};
use crate::config::{lists_method, names, EndpointConfig, MethodEndpointCollection, RpcConfig};
use crate::endpoint::{attempt_step, AttemptStep, Endpoint, EndpointResult};
use crate::message::{local_error, local_view, ResponseView, METHOD_NOT_FOUND, UPSTREAM_FAILURE};
pub use crate::message::{RpcRequest, RpcResponse};

verus! {

/// A group of methods and the endpoints that serve them, in failover order.
struct Route {
    methods: Vec<String>,
    endpoints: Vec<Endpoint>,
}

/// The router: its routes, fixed once built.
pub struct RpcProxy {
    routes: Vec<Route>,
}

/// The retry budgets of a list of endpoint configurations.
pub open spec fn budgets(endpoints: Seq<EndpointConfig>) -> Seq<int> {
    endpoints.map_values(|e: EndpointConfig| e.retries as int)
}

/// The method names of each route of a configuration.
pub open spec fn config_methods(config: RpcConfig) -> Seq<Seq<Seq<char>>> {
    config.routes@.map_values(|c: MethodEndpointCollection| names(c.methods@))
}

/// The retry budgets of the endpoints of each route of a configuration.
pub open spec fn config_retries(config: RpcConfig) -> Seq<Seq<int>> {
    config.routes@.map_values(|c: MethodEndpointCollection| budgets(c.endpoints@))
}

/// Route `i` is the one that serves method `m`: it lists `m` and no earlier
/// route does.
pub open spec fn first_match(routes: Seq<Seq<Seq<char>>>, m: Seq<char>, i: int) -> bool {
    &&& 0 <= i < routes.len()
    &&& routes[i].contains(m)
    &&& forall|k: int| 0 <= k < i ==> !routes[k].contains(m)
}

/// No route lists method `m`.
pub open spec fn no_match(routes: Seq<Seq<Seq<char>>>, m: Seq<char>) -> bool {
    forall|k: int| 0 <= k < routes.len() ==> !routes[k].contains(m)
}

/// The retry budgets of a list of endpoints.
pub open spec fn endpoint_budgets(endpoints: Seq<Endpoint>) -> Seq<int> {
    endpoints.map_values(|e: Endpoint| e.spec_config().retries as int)
}

/// The configurations of a list of endpoints.
pub open spec fn endpoint_configs(endpoints: Seq<Endpoint>) -> Seq<EndpointConfig> {
    endpoints.map_values(|e: Endpoint| e.spec_config())
}

/// The endpoint configurations of each route of a configuration.
pub open spec fn config_endpoints(config: RpcConfig) -> Seq<Seq<EndpointConfig>> {
    config.routes@.map_values(|c: MethodEndpointCollection| c.endpoints@)
}

/// Wraps each endpoint configuration in an endpoint, keeping the order.
fn make_endpoints(configs: Vec<EndpointConfig>) -> (r: Vec<Endpoint>)
    ensures
        endpoint_budgets(r@) == budgets(configs@),
        endpoint_configs(r@) == configs@,
        r@.len() == configs@.len(),
        forall|i: int| 0 <= i < r@.len() ==> r@[i].spec_config() == configs@[i],
{
    let ghost all = configs@;
    let mut rest = configs;
    let mut out: Vec<Endpoint> = Vec::new();
    while rest.len() > 0
        invariant
            out@.len() + rest@.len() == all.len(),
            forall|i: int| 0 <= i < out@.len() ==> out@[i].spec_config() == all[i],
            forall|j: int| 0 <= j < rest@.len() ==> rest@[j] == all[out@.len() + j],
        decreases rest@.len(),
    {
        let c = rest.remove(0);
        out.push(Endpoint::new(c));
    }
    assert(endpoint_budgets(out@) =~= budgets(all));
    assert(endpoint_configs(out@) =~= all);
    out
}

impl RpcProxy {
    /// The method names of each route, in matching order.
    pub closed spec fn route_methods(&self) -> Seq<Seq<Seq<char>>> {
        self.routes@.map_values(|r: Route| names(r.methods@))
    }

    /// The endpoint configurations of each route, in failover order.
    pub closed spec fn route_endpoints(&self) -> Seq<Seq<EndpointConfig>> {
        self.routes@.map_values(|r: Route| endpoint_configs(r.endpoints@))
    }

    /// The retry budgets of the endpoints of each route, in failover order.
    pub closed spec fn route_retries(&self) -> Seq<Seq<int>> {
        self.routes@.map_values(|r: Route| endpoint_budgets(r.endpoints@))
    }

    /// Every route has its methods, its endpoints and their budgets, and
    /// the budgets are those of the endpoints.
    pub proof fn lemma_table_shape(&self)
        ensures
            self.route_methods().len() == self.route_endpoints().len(),
            self.route_retries().len() == self.route_endpoints().len(),
            forall|i: int| 0 <= i < self.route_retries().len() ==> #[trigger] self.route_retries()[i] == budgets(self.route_endpoints()[i]),
    {
        assert forall|i: int| 0 <= i < self.route_retries().len() implies #[trigger] self.route_retries()[i] == budgets(self.route_endpoints()[i]) by {
            assert(self.route_retries()[i] =~= budgets(self.route_endpoints()[i]));
        }
    }

    /// Builds the router from its configuration, keeping the order of the
    /// routes and of the endpoints of each.
    pub fn new(config: RpcConfig) -> (r: RpcProxy)
        ensures
            r.route_methods() == config_methods(config),
            r.route_retries() == config_retries(config),
            r.route_endpoints() == config_endpoints(config),
    {
        let ghost all = config.routes@;
        let mut rest = config.routes;
        let mut routes: Vec<Route> = Vec::new();
        while rest.len() > 0
            invariant
                routes@.len() + rest@.len() == all.len(),
                forall|i: int| 0 <= i < routes@.len() ==> names(routes@[i].methods@) == names(all[i].methods@)
                    && endpoint_budgets(routes@[i].endpoints@) == budgets(all[i].endpoints@)
                    && endpoint_configs(routes@[i].endpoints@) == all[i].endpoints@,
                forall|j: int| 0 <= j < rest@.len() ==> rest@[j] == all[routes@.len() + j],
            decreases rest@.len(),
        {
            let collection = rest.remove(0);
            let MethodEndpointCollection { methods, endpoints } = collection;
            let endpoints = make_endpoints(endpoints);
            routes.push(Route { methods, endpoints });
        }
        let r = RpcProxy { routes };
        assert(r.route_methods() =~= config_methods(config));
        assert(r.route_retries() =~= config_retries(config));
        assert(r.route_endpoints() =~= config_endpoints(config));
        r
    }

    /// Resolves a method to its route: the first route, in order, that lists
    /// it.
    pub fn find_route(&self, method: &String) -> (r: Option<usize>)
        ensures
            r matches Some(i) ==> first_match(self.route_methods(), method@, i as int),
            r is None ==> no_match(self.route_methods(), method@),
    {
        let mut i: usize = 0;
        while i < self.routes.len()
            invariant
                0 <= i <= self.routes@.len(),
                forall|k: int| 0 <= k < i ==> !self.route_methods()[k].contains(method@),
            decreases self.routes@.len() - i,
        {
            if lists_method(&self.routes[i].methods, method) {
                return Some(i);
            }
            i = i + 1;
        }
        None
    }
}

/// The state of one request's walk over the endpoints of its route.
pub struct DispatchView {
    /// The retry budget of each endpoint of the route, in failover order.
    pub retries: Seq<int>,
    /// The endpoint being tried; the length of `retries` once the walk is over.
    pub endpoint: int,
    /// The number of the attempt being made at that endpoint, from 1.
    pub attempt: int,
    /// The most recent answer without a result, kept to be sent back should
    /// no endpoint answer with one.
    pub last: Option<ResponseView>,
    /// The id of the request.
    pub id: serde_json::Value,
}

/// What the caller is to do next, with responses as views.
pub enum ActionView {
    Send { endpoint: int, attempt: int },
    Reply(ResponseView),
}

/// What the caller is to do next.
pub enum Action {
    /// Make attempt number `attempt` at endpoint number `endpoint` of the
    /// route, and hand back what the call produced.
    Send { endpoint: usize, attempt: usize },
    /// Send this response back; the request is done.
    Reply(RpcResponse),
}

impl View for Action {
    type V = ActionView;

    open spec fn view(&self) -> ActionView {
        match self {
            Action::Send { endpoint, attempt } => ActionView::Send { endpoint: *endpoint as int, attempt: *attempt as int },
            Action::Reply(r) => ActionView::Reply(r@),
        }
    }
}

/// What a step counts towards: the requests answered by an endpoint, or
/// those that an endpoint failed, or neither.
#[derive(Debug, PartialEq, Eq)]
pub enum Tally {
    Nothing,
    Success,
    Failure,
}

/// The view of an optional response.
pub open spec fn opt_view(r: Option<RpcResponse>) -> Option<ResponseView> {
    match r {
        Some(x) => Some(x@),
        None => None,
    }
}

/// The first endpoint at or after `from` that has at least one attempt; the
/// number of endpoints where there is none.
pub open spec fn next_live(retries: Seq<int>, from: int) -> int
    decreases retries.len() - from,
{
    if from < 0 || from >= retries.len() {
        retries.len() as int
    } else if retries[from] >= 1 {
        from
    } else {
        next_live(retries, from + 1)
    }
}

/// A response with the id of the request put in its place.
pub open spec fn with_id(r: ResponseView, id: serde_json::Value) -> ResponseView {
    ResponseView { id, ..r }
}

/// The response sent back once every endpoint has been tried without a
/// result: the last answer kept, with the request's id, else a generic
/// upstream failure.
pub open spec fn fallback(last: Option<ResponseView>, id: serde_json::Value) -> ResponseView {
    match last {
        Some(r) => with_id(r, id),
        None => local_view(id, UPSTREAM_FAILURE, "Failed to process request"@),
    }
}

/// The walk once it is over.
pub open spec fn finished(d: DispatchView) -> DispatchView {
    DispatchView { endpoint: d.retries.len() as int, attempt: 1, last: None, ..d }
}

/// Moves on to the first endpoint at or after `from` that has attempts,
/// keeping `last`; where there is none, the walk ends with the fallback.
pub open spec fn advance(d: DispatchView, from: int, last: Option<ResponseView>) -> (DispatchView, ActionView) {
    let e = next_live(d.retries, from);
    if e < d.retries.len() {
        (DispatchView { endpoint: e, attempt: 1, last, ..d }, ActionView::Send { endpoint: e, attempt: 1 })
    } else {
        (finished(d), ActionView::Reply(fallback(last, d.id)))
    }
}

/// How the walk over a route with these budgets begins, for the request
/// with this `id`.
pub open spec fn start(retries: Seq<int>, id: serde_json::Value) -> (DispatchView, ActionView) {
    advance(DispatchView { retries, endpoint: 0, attempt: 1, last: None, id }, 0, None)
}

/// One step of the walk, given what the call of the current attempt
/// produced: the next state, what the caller is to do, and what the step
/// counts towards.
pub open spec fn step(d: DispatchView, call: Result<CallResult, RpcProxyError>) -> (DispatchView, ActionView, Tally) {
    match attempt_step(call, d.attempt, d.retries[d.endpoint]) {
        AttemptStep::Retry => (
            DispatchView { attempt: d.attempt + 1, ..d },
            ActionView::Send { endpoint: d.endpoint, attempt: d.attempt + 1 },
            Tally::Nothing,
        ),
        AttemptStep::Done(EndpointResult::Response(r)) => if r.result is Some {
            (finished(d), ActionView::Reply(with_id(r@, d.id)), Tally::Success)
        } else {
            let a = advance(d, d.endpoint + 1, Some(r@));
            (a.0, a.1, Tally::Failure)
        },
        AttemptStep::Done(EndpointResult::SkipToNext(None)) => {
            let a = advance(d, d.endpoint + 1, d.last);
            (a.0, a.1, Tally::Failure)
        },
        AttemptStep::Done(EndpointResult::SkipToNext(Some(r))) => {
            let a = advance(d, d.endpoint + 1, Some(r@));
            (a.0, a.1, Tally::Failure)
        },
        AttemptStep::Done(EndpointResult::Error(e)) => {
            let a = advance(d, d.endpoint + 1, Some(local_view(d.id, UPSTREAM_FAILURE, error_text(e))));
            (a.0, a.1, Tally::Failure)
        },
    }
}

/// The walk is at an endpoint that has attempts left, or over.
pub open spec fn well_formed(d: DispatchView) -> bool {
    &&& 0 <= d.endpoint <= d.retries.len()
    &&& d.endpoint < d.retries.len() ==> 1 <= d.attempt <= d.retries[d.endpoint]
}

/// The walk is over.
pub open spec fn is_over(d: DispatchView) -> bool {
    d.endpoint == d.retries.len()
}

/// One request's walk over the endpoints of its route.
pub struct Dispatch<'a> {
    endpoints: &'a [Endpoint],
    endpoint: usize,
    attempt: usize,
    last_response: Option<RpcResponse>,
    id: serde_json::Value,
}

impl<'a> View for Dispatch<'a> {
    type V = DispatchView;

    closed spec fn view(&self) -> DispatchView {
        DispatchView {
            retries: endpoint_budgets(self.endpoints@),
            endpoint: self.endpoint as int,
            attempt: self.attempt as int,
            last: opt_view(self.last_response),
            id: self.id,
        }
    }
}

impl<'a> Dispatch<'a> {
    /// The configurations of the endpoints of the route, in failover order.
    pub closed spec fn configs(&self) -> Seq<EndpointConfig> {
        endpoint_configs(self.endpoints@)
    }

    /// The walk's budgets are those of its endpoints, and it is well formed.
    pub open spec fn inv(&self) -> bool {
        &&& self.configs().len() == self@.retries.len()
        &&& budgets(self.configs()) == self@.retries
        &&& well_formed(self@)
    }

    /// The budgets of the view are those of the endpoints.
    proof fn lemma_budgets(&self)
        ensures
            self.endpoints@.len() == self@.retries.len(),
            self.configs().len() == self@.retries.len(),
            budgets(self.configs()) == self@.retries,
    {
        assert(budgets(self.configs()) =~= self@.retries);
    }

    /// The configuration of endpoint number `i` of the route.
    pub fn endpoint_config(&self, i: usize) -> (r: &EndpointConfig)
        requires
            self.inv(),
            i < self@.retries.len(),
        ensures
            *r == self.configs()[i as int],
            r.retries as int == self@.retries[i as int],
    {
        proof {
            self.lemma_budgets();
        }
        self.endpoints[i].config()
    }

    /// Whether the walk is over.
    pub fn is_done(&self) -> (r: bool)
        requires
            self.inv(),
        ensures
            r == is_over(self@),
    {
        proof {
            self.lemma_budgets();
        }
        self.endpoint == self.endpoints.len()
    }

    /// The response sent back when no endpoint answered with a result.
    fn fallback(&self, last: Option<RpcResponse>) -> (r: RpcResponse)
        ensures
            r@ == fallback(opt_view(last), self.id),
    {
        match last {
            Some(r) => {
                let mut r = r;
                r.id = self.id.clone();
                r
            },
            None => local_error(self.id.clone(), UPSTREAM_FAILURE, String::from_str("Failed to process request")),
        }
    }

    /// Takes what the call of the current attempt produced and decides what
    /// follows: another attempt at the same endpoint, the next endpoint, or
    /// the response to send back.
    pub fn on_call(&mut self, call: Result<CallResult, RpcProxyError>) -> (r: (Action, Tally))
        requires
            old(self).inv(),
            !is_over(old(self)@),
        ensures
            final(self).inv(),
            final(self).configs() == old(self).configs(),
            (r.0 is Send) == !is_over(final(self)@),
            final(self)@ == step(old(self)@, call).0,
            r.0@ == step(old(self)@, call).1,
            r.1 == step(old(self)@, call).2,
            r.0@ matches ActionView::Reply(x) ==> x.id == old(self)@.id,
    {
        proof {
            self.lemma_budgets();
        }
        let endpoints = self.endpoints;
        let current = &endpoints[self.endpoint];
        let next = self.endpoint + 1;
        match current.send_request(call, self.attempt) {
            AttemptStep::Retry => {
                self.attempt = self.attempt + 1;
                proof {
                    self.lemma_budgets();
                }
                (Action::Send { endpoint: self.endpoint, attempt: self.attempt }, Tally::Nothing)
            },
            AttemptStep::Done(EndpointResult::Response(response)) => {
                if response.result.is_some() {
                    self.endpoint = endpoints.len();
                    self.attempt = 1;
                    self.last_response = None;
                    let mut response = response;
                    response.id = self.id.clone();
                    proof {
                        self.lemma_budgets();
                    }
                    (Action::Reply(response), Tally::Success)
                } else {
                    (self.advance(next, Some(response)), Tally::Failure)
                }
            },
            AttemptStep::Done(EndpointResult::SkipToNext(None)) => {
                let last = self.last_response.take();
                (self.advance(next, last), Tally::Failure)
            },
            AttemptStep::Done(EndpointResult::SkipToNext(Some(null_response))) => {
                (self.advance(next, Some(null_response)), Tally::Failure)
            },
            AttemptStep::Done(EndpointResult::Error(err)) => {
                let synthesized = local_error(self.id.clone(), UPSTREAM_FAILURE, err.message());
                (self.advance(next, Some(synthesized)), Tally::Failure)
            },
        }
    }

    /// Moves on to the first endpoint at or after `from` that has attempts.
    fn advance(&mut self, from: usize, last: Option<RpcResponse>) -> (a: Action)
        requires
            from <= old(self).endpoints@.len(),
            old(self).endpoints@.len() == old(self)@.retries.len(),
        ensures
            (final(self)@, a@) == advance(old(self)@, from as int, opt_view(last)),
            final(self).inv(),
            final(self).endpoints == old(self).endpoints,
            (a is Send) == !is_over(final(self)@),
    {
        proof {
            self.lemma_budgets();
        }
        let ghost d = self@;
        let mut e: usize = from;
        while e < self.endpoints.len() && self.endpoints[e].config().retries == 0
            invariant
                from <= e <= self.endpoints@.len(),
                self@ == d,
                self.endpoints@.len() == d.retries.len(),
                next_live(d.retries, from as int) == next_live(d.retries, e as int),
            decreases self.endpoints@.len() - e,
        {
            e = e + 1;
        }
        if e < self.endpoints.len() {
            self.endpoint = e;
            self.attempt = 1;
            self.last_response = last;
            proof {
                self.lemma_budgets();
            }
            Action::Send { endpoint: e, attempt: 1 }
        } else {
            self.endpoint = e;
            self.attempt = 1;
            self.last_response = None;
            proof {
                self.lemma_budgets();
            }
            Action::Reply(self.fallback(last))
        }
    }
}

impl RpcProxy {
    /// Begins forwarding a request. A method that no route lists is answered
    /// at once with a method-not-found error; otherwise the walk over the
    /// endpoints of the first route that lists it begins, and the returned
    /// action says what to do first.
    pub fn forward_request<'a>(&'a self, request: &RpcRequest) -> (r: (Dispatch<'a>, Action, Tally))
        ensures
            r.0.inv(),
            (r.1 is Send) == !is_over(r.0@),
            r.1@ matches ActionView::Reply(x) ==> x.id == request.id,
            no_match(self.route_methods(), request.method@) ==> {
                &&& r.1@ == ActionView::Reply(local_view(request.id, METHOD_NOT_FOUND, "Method not found"@))
                &&& r.2 == Tally::Failure
                &&& is_over(r.0@)
            },
            forall|i: int| first_match(self.route_methods(), request.method@, i) ==> {
                &&& (r.0@, r.1@) == start(self.route_retries()[i], request.id)
                &&& r.0.configs() == self.route_endpoints()[i]
                &&& r.2 == Tally::Nothing
            },
    {
        match self.find_route(&request.method) {
            None => {
                let none: &'a [Endpoint] = &[];
                let d = Dispatch { endpoints: none, endpoint: 0, attempt: 1, last_response: None, id: request.id.clone() };
                let reply = local_error(request.id.clone(), METHOD_NOT_FOUND, String::from_str("Method not found"));
                assert(d@.retries =~= Seq::<int>::empty());
                proof {
                    d.lemma_budgets();
                }
                (d, Action::Reply(reply), Tally::Failure)
            },
            Some(i) => {
                let mut d = Dispatch {
                    endpoints: self.routes[i].endpoints.as_slice(),
                    endpoint: 0,
                    attempt: 1,
                    last_response: None,
                    id: request.id.clone(),
                };
                proof {
                    assert forall|k: int| first_match(self.route_methods(), request.method@, k) implies k == i by {
                        if k < i {
                            assert(!self.route_methods()[k].contains(request.method@));
                        } else if k > i {
                            assert(!self.route_methods()[i as int].contains(request.method@));
                        }
                    }
                }
                let a = d.advance(0, None);
                (d, a, Tally::Nothing)
            },
        }
    }
}

} // verus!
