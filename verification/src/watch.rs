//! Routing of HTTP requests to functions while they are being watched.
use vstd::prelude::*;
use matchit::Router;
use crate::strmap::StringMap;
use crate::text::{opt_views, views};
use crate::cargo_meta::{json_get, Json};

verus! {

#[verifier::external_type_specification]
#[verifier::external_body]
#[verifier::reject_recursive_types(T)]
pub struct ExRouter<T>(Router<T>);

/// The routes registered in a router: each route pattern with its value.
pub uninterp spec fn route_table(r: Router<usize>) -> Map<Seq<char>, usize>;

/// `matchit::Router::new`: a router without routes.
#[verifier::external_body]
fn router_new() -> (res: Router<usize>)
    ensures
        route_table(res).dom().len() == 0 && route_table(res).dom().finite(),
{
    matchit::Router::new()
}

/// The number of opening braces in a route pattern; every parameter takes one.
pub open spec fn brace_count(route: Seq<char>) -> nat
    decreases route.len(),
{
    if route.len() == 0 {
        0
    } else {
        brace_count(route.drop_last()) + if route.last() == '{' {
            1nat
        } else {
            0nat
        }
    }
}

/// The most opening braces a pattern may hold: matchit names the parameters of a pattern
/// `a` to `z` and panics on the twenty-sixth.
pub open spec fn max_braces() -> nat {
    25
}

/// Whether a route pattern holds few enough opening braces for matchit.
pub fn pattern_fits(route: &str) -> (res: bool)
    ensures
        res == (brace_count(route@) <= max_braces()),
{
    let v = crate::text::chars_of(route);
    let mut n: usize = 0;
    let mut i: usize = 0;
    while i < v.len()
        invariant
            i <= v@.len(),
            n == brace_count(v@.take(i as int)),
            n <= i,
        decreases v@.len() - i,
    {
        assert(v@.take(i + 1).drop_last() =~= v@.take(i as int));
        if v[i] == '{' {
            n = n + 1;
        }
        i = i + 1;
    }
    assert(v@.take(v@.len() as int) =~= route@);
    n <= 25
}

/// `matchit::Router::insert`: registers `value` under the pattern `route`. When it succeeds,
/// no route with that pattern was registered and the pattern now has the value. When it
/// fails, the registered routes are as they were: matchit stores a value only on its paths to
/// success, and a node that it splits on the way keeps its value and parameter names with the
/// part of the route that leads to it. Which patterns it accepts is not stated: that depends
/// on the shape of its tree, which failed inserts before can also change. A pattern with more
/// than twenty-five parameters makes matchit panic, so the opening braces are bounded.
#[verifier::external_body]
fn router_insert(r: &mut Router<usize>, route: &str, value: usize) -> (res: bool)
    requires
        brace_count(route@) <= max_braces(),
    ensures
        res ==> !route_table(*old(r)).dom().contains(route@) && route_table(*final(r))
            == route_table(*old(r)).insert(route@, value),
        !res ==> route_table(*final(r)) == route_table(*old(r)),
{
    r.insert(route, value).is_ok()
}

/// The route that matchit's `at` finds for `path` among the registered patterns: the value
/// of the matched pattern and the parameters it binds, in the order of the pattern.
pub uninterp spec fn route_match(table: Map<Seq<char>, usize>, path: Seq<char>) -> Option<
    (usize, Seq<(Seq<char>, Seq<char>)>),
>;

/// Whether some pattern of `table` has the value `v`.
pub open spec fn has_value(table: Map<Seq<char>, usize>, v: usize) -> bool {
    exists|p: Seq<char>| #[trigger] table.dom().contains(p) && table[p] == v
}

/// `path` is a registered pattern without parameters.
pub open spec fn static_match(table: Map<Seq<char>, usize>, path: Seq<char>) -> bool {
    table.dom().contains(path) && is_static_route(path)
}

/// A pattern without parameters, which matches only itself.
pub open spec fn is_static_route(p: Seq<char>) -> bool {
    forall|i: int| 0 <= i < p.len() ==> p[i] != '{' && p[i] != '}'
}

/// `matchit::Router::at`: the value and parameters of the route that `path` matches, as
/// `route_match` names them. What it finds is a registered value; a path that is itself a
/// registered route without parameters finds that route, with no parameters.
#[verifier::external_body]
fn router_at(r: &Router<usize>, path: &str) -> (res: Option<RouteMatch>)
    ensures
        res matches Some(m) ==> route_match(route_table(*r), path@) == Some(
            (m.index, crate::strmap::pairs_view(m.params@)),
        ),
        res is None ==> route_match(route_table(*r), path@) is None,
        res matches Some(m) ==> has_value(route_table(*r), m.index),
        res matches Some(m) ==> (static_match(route_table(*r), path@) ==> m.index == route_table(
            *r,
        )[path@] && m.params@.len() == 0),
        res is None ==> !static_match(route_table(*r), path@),
{
    match r.at(path) {
        Ok(m) => Some(RouteMatch {
            index: *m.value,
            params: m.params.iter().map(|(k, v)| (k.to_string(), v.to_string())).collect(),
        }),
        Err(_) => None,
    }
}

/// What a router lookup finds: the value of the matched route and the path parameters.
pub struct RouteMatch {
    pub index: usize,
    pub params: Vec<(String, String)>,
}

/// A route as written in the configuration: a path, its methods (all when none are
/// given), and the function that serves it.
#[derive(Debug)]
pub struct Route {
    pub path: String,
    pub methods: Option<Vec<String>>,
    pub function: String,
}

/// A route taken by value: its path, methods and function.
pub open spec fn route_view(r: Route) -> (Seq<char>, Option<Seq<Seq<char>>>, Seq<char>) {
    (r.path@, crate::text::opt_views(r.methods), r.function@)
}

impl Route {
    /// A copy of the route.
    pub fn copy(&self) -> (res: Route)
        ensures
            route_view(res) == route_view(*self),
    {
        Route {
            path: self.path.clone(),
            methods: crate::text::copy_opt_strings(&self.methods),
            function: self.function.clone(),
        }
    }
}

/// The functions that serve a path: one for every method, or one per method.
#[derive(Debug)]
pub enum FunctionRoutes {
    Single(String),
    Multiple(StringMap),
}

/// The functions of a path, taken by value.
pub enum RoutesView {
    /// One function for every method.
    Single(Seq<char>),
    /// One function per method.
    Multiple(Map<Seq<char>, Seq<char>>),
}

/// The value of a `FunctionRoutes`.
pub open spec fn routes_view(r: FunctionRoutes) -> RoutesView {
    match r {
        FunctionRoutes::Single(f) => RoutesView::Single(f@),
        FunctionRoutes::Multiple(m) => RoutesView::Multiple(m@),
    }
}

/// The function that serves `method`.
pub open spec fn routes_at(r: RoutesView, method: Seq<char>) -> Option<Seq<char>> {
    match r {
        RoutesView::Single(f) => Some(f),
        RoutesView::Multiple(m) => if m.dom().contains(method) {
            Some(m[method])
        } else {
            None
        },
    }
}

/// The methods of `methods` all mapped to `function`, later ones set last.
pub open spec fn methods_to(base: Map<Seq<char>, Seq<char>>, methods: Seq<Seq<char>>, function: Seq<char>) -> Map<Seq<char>, Seq<char>>
    decreases methods.len(),
{
    if methods.len() == 0 {
        base
    } else {
        methods_to(base, methods.drop_last(), function).insert(methods.last(), function)
    }
}

/// What a route says of its path on its own.
pub open spec fn decoded(methods: Option<Seq<Seq<char>>>, function: Seq<char>) -> RoutesView {
    match methods {
        Some(ms) => RoutesView::Multiple(methods_to(Map::empty(), ms, function)),
        None => RoutesView::Single(function),
    }
}

/// The functions of a path after one more route for it: a route without methods makes its
/// function serve every method; a route with methods adds them, a single function first
/// being replaced by the route's own methods.
pub open spec fn merged(current: RoutesView, methods: Option<Seq<Seq<char>>>, function: Seq<char>) -> RoutesView {
    let ms = match methods {
        Some(ms) => ms,
        None => Seq::empty(),
    };
    match current {
        RoutesView::Single(f) => if ms.len() > 0 {
            RoutesView::Multiple(methods_to(Map::empty(), ms, f))
        } else {
            RoutesView::Single(function)
        },
        RoutesView::Multiple(m) => if ms.len() == 0 {
            RoutesView::Single(function)
        } else {
            RoutesView::Multiple(methods_to(m, ms, function))
        },
    }
}

impl FunctionRoutes {
    /// The function that serves `method`.
    pub fn at(&self, method: &str) -> (res: Option<&str>)
        ensures
            match res {
                Some(f) => routes_at(routes_view(*self), method@) == Some(f@),
                None => routes_at(routes_view(*self), method@) is None,
            },
    {
        match self {
            FunctionRoutes::Single(function) => Some(function.as_str()),
            FunctionRoutes::Multiple(routes) => match routes.get(method) {
                Some(f) => Some(f.as_str()),
                None => None,
            },
        }
    }

    /// A copy of the routes.
    pub fn copy(&self) -> (res: FunctionRoutes)
        ensures
            routes_view(res) == routes_view(*self),
    {
        match self {
            FunctionRoutes::Single(f) => FunctionRoutes::Single(f.clone()),
            FunctionRoutes::Multiple(m) => FunctionRoutes::Multiple(m.copy()),
        }
    }
}

/// The text of the string member `key` of an object.
pub open spec fn str_member(j: Json, key: Seq<char>) -> Option<Seq<char>> {
    match json_get(j, key) {
        Some(Json::Str(s)) => Some(s@),
        _ => None,
    }
}

/// The error of a list item that is not an object.
pub open spec fn item_shape_message() -> Seq<char> {
    "Array items must be objects with method and function fields"@
}

/// The error of a list item without a string `method`.
pub open spec fn item_method_message() -> Seq<char> {
    "Missing or invalid method field"@
}

/// The error of a list item without a string `function`.
pub open spec fn item_function_message() -> Seq<char> {
    "Missing or invalid function field"@
}

/// The error of a value that is neither a string nor a list.
pub open spec fn routes_shape_message() -> Seq<char> {
    "Function routes must be either a string or an array of objects with method and function fields"@
}

/// What is wrong with one item of a list of method routes, if anything.
pub open spec fn route_item_error(j: Json) -> Option<Seq<char>> {
    if !(j is Object) {
        Some(item_shape_message())
    } else if str_member(j, "method"@) is None {
        Some(item_method_message())
    } else if str_member(j, "function"@) is None {
        Some(item_function_message())
    } else {
        None
    }
}

/// The error of the first faulty item of a list, if any.
pub open spec fn first_item_error(items: Seq<Json>) -> Option<Seq<char>>
    decreases items.len(),
{
    if items.len() == 0 {
        None
    } else {
        match first_item_error(items.drop_last()) {
            Some(e) => Some(e),
            None => route_item_error(items.last()),
        }
    }
}

/// The methods of a list of method routes, each mapped to its function; a later item for
/// a method wins.
pub open spec fn item_methods(items: Seq<Json>) -> Map<Seq<char>, Seq<char>>
    decreases items.len(),
{
    if items.len() == 0 {
        Map::empty()
    } else {
        item_methods(items.drop_last()).insert(
            str_member(items.last(), "method"@)->0,
            str_member(items.last(), "function"@)->0,
        )
    }
}

/// The functions of a path written as a value: a string serves every method, a list of
/// `{method, function}` objects serves one method each.
pub open spec fn routes_from_json(j: Json) -> Result<RoutesView, Seq<char>> {
    match j {
        Json::Str(s) => Ok(RoutesView::Single(s@)),
        Json::Array(items) => match first_item_error(items@) {
            Some(e) => Err(e),
            None => Ok(RoutesView::Multiple(item_methods(items@))),
        },
        _ => Err(routes_shape_message()),
    }
}

/// A faulty item after a faultless prefix is the first faulty item.
proof fn lemma_first_item_error(items: Seq<Json>, i: int)
    requires
        0 <= i < items.len(),
        first_item_error(items.take(i)) is None,
        route_item_error(items[i]) is Some,
    ensures
        first_item_error(items) == route_item_error(items[i]),
    decreases items.len(),
{
    if i == items.len() - 1 {
        assert(items.drop_last() =~= items.take(i));
    } else {
        assert(items.drop_last().take(i) =~= items.take(i));
        lemma_first_item_error(items.drop_last(), i);
    }
}

impl FunctionRoutes {
    /// The functions of a path read from a configuration value: a string names the function
    /// of every method; a list of `{method, function}` objects names one function per
    /// method. Other values, and faulty items, are refused with a message.
    pub fn from_json(value: &Json) -> (res: Result<FunctionRoutes, String>)
        ensures
            match res {
                Ok(r) => routes_from_json(*value) == Ok::<RoutesView, Seq<char>>(routes_view(r)),
                Err(e) => routes_from_json(*value) == Err::<RoutesView, Seq<char>>(e@),
            },
    {
        match value {
            Json::Str(s) => Ok(FunctionRoutes::Single(s.clone())),
            Json::Array(items) => {
                let mut routes = StringMap::new();
                let mut i: usize = 0;
                while i < items.len()
                    invariant
                        *value == Json::Array(*items),
                        i <= items@.len(),
                        first_item_error(items@.take(i as int)) is None,
                        routes@ == item_methods(items@.take(i as int)),
                    decreases items@.len() - i,
                {
                    let item = &items[i];
                    if !item.is_object() {
                        proof {
                            lemma_first_item_error(items@, i as int);
                        }
                        return Err(crate::text::owned(
                            "Array items must be objects with method and function fields",
                        ));
                    }
                    let method = match item.get("method") {
                        Some(Json::Str(m)) => m,
                        _ => {
                            proof {
                                lemma_first_item_error(items@, i as int);
                            }
                            return Err(crate::text::owned("Missing or invalid method field"));
                        },
                    };
                    let function = match item.get("function") {
                        Some(Json::Str(f)) => f,
                        _ => {
                            proof {
                                lemma_first_item_error(items@, i as int);
                            }
                            return Err(crate::text::owned("Missing or invalid function field"));
                        },
                    };
                    routes.insert(method.clone(), function.clone());
                    proof {
                        assert(items@.take(i + 1).drop_last() =~= items@.take(i as int));
                    }
                    i = i + 1;
                }
                proof {
                    assert(items@.take(items@.len() as int) =~= items@);
                }
                Ok(FunctionRoutes::Multiple(routes))
            },
            _ => Err(crate::text::owned(
                "Function routes must be either a string or an array of objects with method and function fields",
            )),
        }
    }
}

/// Maps every method of `methods` to `function` in `map`.
fn insert_methods(map: &mut StringMap, methods: &Vec<String>, function: &String)
    ensures
        final(map)@ == methods_to(old(map)@, views(methods@), function@),
{
    let ghost ms = views(methods@);
    let mut i: usize = 0;
    while i < methods.len()
        invariant
            i <= methods@.len(),
            ms == views(methods@),
            map@ == methods_to(old(map)@, ms.take(i as int), function@),
        decreases methods@.len() - i,
    {
        map.insert(methods[i].clone(), function.clone());
        assert(ms.take(i + 1).drop_last() =~= ms.take(i as int));
        i = i + 1;
    }
    assert(ms.take(ms.len() as int) =~= ms);
}

/// The functions that a route on its own says serve its path.
pub fn decode_route(route: &Route) -> (res: FunctionRoutes)
    ensures
        routes_view(res) == decoded(opt_views(route.methods), route.function@),
{
    match &route.methods {
        Some(methods) => {
            let mut routes = StringMap::new();
            insert_methods(&mut routes, methods, &route.function);
            FunctionRoutes::Multiple(routes)
        },
        None => FunctionRoutes::Single(route.function.clone()),
    }
}

/// Adds one more route for a path to the functions that serve it.
pub fn merge_routes(routes: &mut FunctionRoutes, route: &Route)
    ensures
        routes_view(*final(routes)) == merged(
            routes_view(*old(routes)),
            opt_views(route.methods),
            route.function@,
        ),
{
    let methods: Vec<String> = match &route.methods {
        Some(m) => crate::text::copy_strings(m),
        None => Vec::new(),
    };
    assert(views(methods@) =~= match opt_views(route.methods) {
        Some(ms) => ms,
        None => Seq::<Seq<char>>::empty(),
    });
    let has_methods = methods.len() > 0;
    let mut current = FunctionRoutes::Single(String::new());
    std::mem::swap(&mut current, routes);
    let next = match current {
        FunctionRoutes::Single(function) => {
            if has_methods {
                let mut tmp = StringMap::new();
                insert_methods(&mut tmp, &methods, &function);
                FunctionRoutes::Multiple(tmp)
            } else {
                FunctionRoutes::Single(route.function.clone())
            }
        },
        FunctionRoutes::Multiple(mut map) => {
            if !has_methods {
                FunctionRoutes::Single(route.function.clone())
            } else {
                insert_methods(&mut map, &methods, &route.function);
                FunctionRoutes::Multiple(map)
            }
        },
    };
    *routes = next;
}

/// The functions of `path` after the routes of a list, in order: the first route for it
/// says them on its own, each later one is merged in; `None` when no route is for it.
pub open spec fn path_routes(routes: Seq<Route>, path: Seq<char>) -> Option<RoutesView>
    decreases routes.len(),
{
    if routes.len() == 0 {
        None
    } else {
        let r = routes.last();
        let before = path_routes(routes.drop_last(), path);
        if r.path@ == path {
            match before {
                Some(cur) => Some(merged(cur, opt_views(r.methods), r.function@)),
                None => Some(decoded(opt_views(r.methods), r.function@)),
            }
        } else {
            before
        }
    }
}

/// The routes of a list by path.
pub open spec fn list_table(routes: Seq<Route>) -> Map<Seq<char>, RoutesView> {
    Map::new(|p: Seq<char>| path_routes(routes, p) is Some, |p: Seq<char>| path_routes(routes, p)->0)
}

/// A route taken by value: its path, methods (all when none are given) and function.
pub type RouteView = (Seq<char>, Option<Seq<Seq<char>>>, Seq<char>);

/// The keys of a map of routes.
pub open spec fn route_keys(entries: Seq<(String, FunctionRoutes)>) -> Seq<Seq<char>> {
    entries.map_values(|e: (String, FunctionRoutes)| e.0@)
}

/// No path occurs twice in a map of routes.
pub open spec fn distinct_keys(entries: Seq<(String, FunctionRoutes)>) -> bool {
    forall|i: int, j: int|
        0 <= i < j < entries.len() ==> (#[trigger] entries[i]).0@ != (#[trigger] entries[j]).0@
}

/// The routes of a map by path.
pub open spec fn map_table(entries: Seq<(String, FunctionRoutes)>) -> Map<Seq<char>, RoutesView>
    decreases entries.len(),
{
    if entries.len() == 0 {
        Map::empty()
    } else {
        map_table(entries.drop_last()).insert(entries.last().0@, routes_view(entries.last().1))
    }
}

/// The routes of a path that serve every method with one function, as written.
pub open spec fn single_routes(entries: Seq<(String, FunctionRoutes)>) -> Seq<RouteView>
    decreases entries.len(),
{
    if entries.len() == 0 {
        Seq::empty()
    } else {
        let before = single_routes(entries.drop_last());
        match entries.last().1 {
            FunctionRoutes::Single(f) => before.push((entries.last().0@, None, f@)),
            FunctionRoutes::Multiple(_) => before,
        }
    }
}

/// The method routes of one path: path, method and function, in the map's order.
pub open spec fn path_method_routes(path: Seq<char>, r: FunctionRoutes) -> Seq<
    (Seq<char>, Seq<char>, Seq<char>),
> {
    match r {
        FunctionRoutes::Single(_) => Seq::empty(),
        FunctionRoutes::Multiple(m) => m.entries().map_values(
            |e: (Seq<char>, Seq<char>)| (path, e.0, e.1),
        ),
    }
}

/// The method routes of a map, path by path.
pub open spec fn method_routes(entries: Seq<(String, FunctionRoutes)>) -> Seq<
    (Seq<char>, Seq<char>, Seq<char>),
>
    decreases entries.len(),
{
    if entries.len() == 0 {
        Seq::empty()
    } else {
        method_routes(entries.drop_last()) + path_method_routes(
            entries.last().0@,
            entries.last().1,
        )
    }
}

/// The position of the first route for `path` and `function`, `-1` when there is none.
pub open spec fn group_index(groups: Seq<RouteView>, path: Seq<char>, function: Seq<char>) -> int
    decreases groups.len(),
{
    if groups.len() == 0 {
        -1
    } else {
        let i = group_index(groups.drop_last(), path, function);
        if i >= 0 {
            i
        } else if groups.last().0 == path && groups.last().2 == function {
            groups.len() - 1
        } else {
            -1
        }
    }
}

/// Method routes gathered into one route per path and function, with its methods in
/// order; the routes in the order in which their first method comes.
pub open spec fn grouped(triples: Seq<(Seq<char>, Seq<char>, Seq<char>)>) -> Seq<RouteView>
    decreases triples.len(),
{
    if triples.len() == 0 {
        Seq::empty()
    } else {
        let g = grouped(triples.drop_last());
        let t = triples.last();
        let i = group_index(g, t.0, t.2);
        if i >= 0 {
            g.update(i, (g[i].0, Some(g[i].1->0.push(t.1)), g[i].2))
        } else {
            g.push((t.0, Some(seq![t.1]), t.2))
        }
    }
}

/// The routes as a map of routes writes them: first the paths that one function serves,
/// then one route per path and function with its methods.
pub open spec fn map_routes(entries: Seq<(String, FunctionRoutes)>) -> Seq<RouteView> {
    single_routes(entries) + grouped(method_routes(entries))
}

/// The first route for a path and function, searched in a prefix that holds one.
proof fn lemma_group_index_take(groups: Seq<RouteView>, path: Seq<char>, function: Seq<char>, k: int)
    requires
        0 <= k <= groups.len(),
        group_index(groups.take(k), path, function) >= 0,
    ensures
        group_index(groups, path, function) == group_index(groups.take(k), path, function),
    decreases groups.len() - k,
{
    if k < groups.len() {
        assert(groups.take(k + 1).drop_last() =~= groups.take(k));
        lemma_group_index_take(groups, path, function, k + 1);
    } else {
        assert(groups.take(k) =~= groups);
    }
}

/// The first route of `groups` for `path` and `function`.
fn find_group(groups: &Vec<Route>, path: &str, function: &str) -> (res: Option<usize>)
    ensures
        match res {
            Some(k) => k < groups@.len() && group_index(
                groups@.map_values(|r: Route| route_view(r)),
                path@,
                function@,
            ) == k as int,
            None => group_index(groups@.map_values(|r: Route| route_view(r)), path@, function@)
                == -1,
        },
{
    let ghost gs = groups@.map_values(|r: Route| route_view(r));
    let mut k: usize = 0;
    while k < groups.len()
        invariant
            k <= groups@.len(),
            gs == groups@.map_values(|r: Route| route_view(r)),
            group_index(gs.take(k as int), path@, function@) == -1,
        decreases groups@.len() - k,
    {
        assert(gs.take(k + 1).drop_last() =~= gs.take(k as int));
        assert(gs[k as int] == route_view(groups@[k as int]));
        if crate::text::str_eq(groups[k].path.as_str(), path) && crate::text::str_eq(
            groups[k].function.as_str(),
            function,
        ) {
            proof {
                lemma_group_index_take(gs, path@, function@, k + 1);
            }
            return Some(k);
        }
        k = k + 1;
    }
    assert(gs.take(groups@.len() as int) =~= gs);
    None
}

/// Adds the method route of `method` on `path` to `function` to its group, or starts one.
fn add_method_route(groups: &mut Vec<Route>, path: &String, method: &String, function: &String)
    requires
        forall|k: int| 0 <= k < old(groups)@.len() ==> (#[trigger] old(groups)@[k]).methods is Some,
    ensures
        forall|k: int| 0 <= k < final(groups)@.len() ==> (#[trigger] final(groups)@[k]).methods is Some,
        ({
            let g = old(groups)@.map_values(|r: Route| route_view(r));
            let i = group_index(g, path@, function@);
            final(groups)@.map_values(|r: Route| route_view(r)) == if i >= 0 {
                g.update(i, (g[i].0, Some(g[i].1->0.push(method@)), g[i].2))
            } else {
                g.push((path@, Some(seq![method@]), function@))
            }
        }),
{
    let ghost g = groups@.map_values(|r: Route| route_view(r));
    match find_group(groups, path.as_str(), function.as_str()) {
        Some(k) => {
            let mut methods: Vec<String> = match &groups[k].methods {
                Some(m) => crate::text::copy_strings(m),
                None => Vec::new(),
            };
            let ghost old_methods = views(methods@);
            methods.push(method.clone());
            assert(views(methods@) =~= old_methods.push(method@));
            let route = Route {
                path: groups[k].path.clone(),
                methods: Some(methods),
                function: groups[k].function.clone(),
            };
            groups.set(k, route);
            assert(groups@.map_values(|r: Route| route_view(r)) =~= g.update(
                k as int,
                (g[k as int].0, Some(g[k as int].1->0.push(method@)), g[k as int].2),
            ));
        },
        None => {
            let mut methods: Vec<String> = Vec::new();
            methods.push(method.clone());
            assert(views(methods@) =~= seq![method@]);
            groups.push(Route { path: path.clone(), methods: Some(methods), function: function.clone() });
            assert(groups@.map_values(|r: Route| route_view(r)) =~= g.push(
                (path@, Some(seq![method@]), function@),
            ));
        },
    }
}

/// Every pattern holds few enough opening braces for matchit.
pub open spec fn patterns_fit(paths: Seq<Seq<char>>) -> bool {
    forall|i: int| 0 <= i < paths.len() ==> brace_count(#[trigger] paths[i]) <= max_braces()
}

/// The first `k + 1` patterns are the first `k` and the next one.
proof fn lemma_take_push_set(paths: Seq<Seq<char>>, k: int)
    requires
        0 <= k < paths.len(),
    ensures
        paths.take(k + 1).to_set() == paths.take(k).to_set().insert(paths[k]),
{
    assert(paths.take(k + 1) =~= paths.take(k).push(paths[k]));
    paths.take(k).lemma_push_to_set_commute(paths[k]);
}

/// The paths of a list of routes, each once, in the order in which they first come.
pub open spec fn first_paths(routes: Seq<Route>) -> Seq<Seq<char>>
    decreases routes.len(),
{
    if routes.len() == 0 {
        Seq::empty()
    } else {
        let p = first_paths(routes.drop_last());
        if p.contains(routes.last().path@) {
            p
        } else {
            p.push(routes.last().path@)
        }
    }
}

/// What the routes of a path come to depends only on the routes taken by value.
proof fn lemma_path_routes_by_value(a: Seq<Route>, b: Seq<Route>, p: Seq<char>)
    requires
        a.map_values(|r: Route| route_view(r)) == b.map_values(|r: Route| route_view(r)),
    ensures
        path_routes(a, p) == path_routes(b, p),
        first_paths(a) == first_paths(b),
    decreases a.len(),
{
    assert(a.len() == a.map_values(|r: Route| route_view(r)).len());
    assert(b.len() == b.map_values(|r: Route| route_view(r)).len());
    if a.len() > 0 {
        let n = a.len() - 1;
        assert(route_view(a[n]) == a.map_values(|r: Route| route_view(r))[n]);
        assert(route_view(b[n]) == b.map_values(|r: Route| route_view(r))[n]);
        assert(a.drop_last().map_values(|r: Route| route_view(r)) =~= a.map_values(
            |r: Route| route_view(r),
        ).drop_last());
        assert(b.drop_last().map_values(|r: Route| route_view(r)) =~= b.map_values(
            |r: Route| route_view(r),
        ).drop_last());
        lemma_path_routes_by_value(a.drop_last(), b.drop_last(), p);
    }
}

/// Rebuilding a router from copies of the routes it was built from, as `routes` gives
/// them, registers the same paths in the same order and gives the same routing table.
pub proof fn law_rebuild_from_routes(routes: Seq<Route>, copies: Seq<Route>)
    requires
        copies.map_values(|r: Route| route_view(r)) == routes.map_values(|r: Route| route_view(r)),
    ensures
        first_paths(copies) == first_paths(routes),
        list_table(copies) == list_table(routes),
{
    assert forall|p: Seq<char>| path_routes(copies, p) == path_routes(routes, p) by {
        lemma_path_routes_by_value(copies, routes, p);
    }
    lemma_path_routes_by_value(copies, routes, Seq::empty());
    assert(list_table(copies) =~= list_table(routes));
}

/// Which function serves requests, by path and method.
pub struct FunctionRouter {
    inner: Router<usize>,
    routes: Vec<FunctionRoutes>,
    raw: Vec<Route>,
}

/// The error of a lookup that finds no function.
#[derive(Debug, Clone, Copy, PartialEq, Eq, Structural)]
pub enum MatchError {
    NotFound,
}

/// The error of a route that cannot be registered.
#[derive(Debug, Clone)]
pub struct InsertError {
    /// The pattern of the route.
    pub path: String,
}

impl FunctionRouter {
    /// Every registered value is the index of a set of functions.
    pub closed spec fn wf(&self) -> bool {
        forall|p: Seq<char>| #[trigger] route_table(self.inner).dom().contains(p) ==> route_table(
            self.inner,
        )[p] < self.routes@.len()
    }

    /// The routes by pattern.
    pub closed spec fn table(&self) -> Map<Seq<char>, RoutesView> {
        Map::new(
            |p: Seq<char>| route_table(self.inner).dom().contains(p),
            |p: Seq<char>| routes_view(self.routes@[route_table(self.inner)[p] as int]),
        )
    }

    /// The routes as written in the configuration.
    pub closed spec fn raw_routes(&self) -> Seq<Route> {
        self.raw@
    }

    /// Copies of the routes as written in the configuration, in order.
    pub fn routes(&self) -> (res: Vec<Route>)
        ensures
            res@.map_values(|r: Route| route_view(r)) == self.raw_routes().map_values(
                |r: Route| route_view(r),
            ),
    {
        let mut out: Vec<Route> = Vec::new();
        let mut i: usize = 0;
        while i < self.raw.len()
            invariant
                i <= self.raw@.len(),
                out@.len() == i,
                forall|j: int| 0 <= j < i ==> route_view(#[trigger] out@[j]) == route_view(self.raw@[j]),
            decreases self.raw@.len() - i,
        {
            out.push(self.raw[i].copy());
            i = i + 1;
        }
        assert(out@.map_values(|r: Route| route_view(r)) =~= self.raw_routes().map_values(
            |r: Route| route_view(r),
        ));
        out
    }

    /// A router without routes.
    pub fn new() -> (res: FunctionRouter)
        ensures
            res.wf(),
            res.table() == Map::<Seq<char>, RoutesView>::empty(),
            res.raw_routes().len() == 0,
    {
        let res = FunctionRouter { inner: router_new(), routes: Vec::new(), raw: Vec::new() };
        assert(res.table() =~= Map::<Seq<char>, RoutesView>::empty());
        res
    }

    /// What matchit finds for `path`: the functions of the matched pattern and the
    /// parameters it binds.
    pub closed spec fn matched(&self, path: Seq<char>) -> Option<
        (RoutesView, Seq<(Seq<char>, Seq<char>)>),
    > {
        match route_match(route_table(self.inner), path) {
            Some((i, ps)) => if i < self.routes@.len() {
                Some((routes_view(self.routes@[i as int]), ps))
            } else {
                None
            },
            None => None,
        }
    }

    /// Registers the functions of a route pattern; fails, naming the pattern and leaving the
    /// routes as they were, when matchit refuses it (a pattern that is not well formed, or
    /// conflicts with a registered one, such as the same pattern again).
    pub fn insert(&mut self, path: &str, routes: FunctionRoutes) -> (res: Result<(), InsertError>)
        requires
            old(self).wf(),
            brace_count(path@) <= max_braces(),
        ensures
            old(self).table().dom().contains(path@) ==> res is Err,
            res is Err ==> final(self).wf() && final(self).table() == old(self).table(),
            res is Ok ==> final(self).wf() && !old(self).table().dom().contains(path@)
                && final(self).table() == old(self).table().insert(path@, routes_view(routes)),
            res matches Err(e) ==> e.path@ == path@,
            final(self).raw_routes() == old(self).raw_routes(),
    {
        let idx = self.routes.len();
        let ghost rv = routes_view(routes);
        let ghost old_table = route_table(self.inner);
        assert(old(self).table().dom() =~= old_table.dom());
        self.routes.push(routes);
        if router_insert(&mut self.inner, path, idx) {
            proof {
                assert forall|p: Seq<char>| #[trigger] route_table(self.inner).dom().contains(
                    p,
                ) implies route_table(self.inner)[p] < self.routes@.len() by {
                    if p != path@ {
                        assert(old_table.dom().contains(p));
                    }
                }
                assert(self.table() =~= old(self).table().insert(path@, rv));
            }
            Ok(())
        } else {
            proof {
                assert forall|p: Seq<char>| #[trigger] route_table(self.inner).dom().contains(
                    p,
                ) implies route_table(self.inner)[p] < self.routes@.len() by {
                    assert(old_table.dom().contains(p));
                }
                assert forall|p: Seq<char>| route_table(self.inner).dom().contains(p) implies
                    #[trigger] self.routes@[route_table(self.inner)[p] as int] == old(self).routes@[
                    route_table(self.inner)[p] as int] by {
                    assert(old_table.dom().contains(p));
                }
                assert(self.table() =~= old(self).table());
            }
            Err(InsertError { path: crate::text::owned(path) })
        }
    }

    /// Whether no route was written in the configuration.
    pub fn is_empty(&self) -> (res: bool)
        ensures
            res == (self.raw_routes().len() == 0),
    {
        self.raw.len() == 0
    }

    /// The function that serves `method` on `path`, with the parameters of the matched
    /// pattern: what matchit matches, and the function of that pattern for the method; not
    /// found when nothing matches or the pattern serves no function for the method. A
    /// function found serves `method` on some registered pattern; a path that is itself a
    /// registered pattern without parameters is served by its own functions.
    pub fn at(&self, path: &str, method: &str) -> (res: Result<(String, StringMap), MatchError>)
        ensures
            match self.matched(path@) {
                Some((r, ps)) => match routes_at(r, method@) {
                    Some(f) => res matches Ok((g, m)) && g@ == f && m@ == crate::strmap::map_of(ps),
                    None => res is Err,
                },
                None => res is Err,
            },
            self.wf() && res is Ok ==> exists|p: Seq<char>| #[trigger] self.table().dom().contains(
                p,
            ) && routes_at(self.table()[p], method@) == Some(res->Ok_0.0@),
            self.wf() && self.table().dom().contains(path@) && is_static_route(path@) ==> match res {
                Ok((f, params)) => routes_at(self.table()[path@], method@) == Some(f@) && params@
                    == Map::<Seq<char>, Seq<char>>::empty(),
                Err(_) => routes_at(self.table()[path@], method@) is None,
            },
    {
        let (idx, params) = match router_at(&self.inner, path) {
            Some(m) => (m.index, m.params),
            None => {
                return Err(MatchError::NotFound);
            },
        };
        if idx >= self.routes.len() {
            return Err(MatchError::NotFound);
        }
        let ghost p = choose|p: Seq<char>| #[trigger] route_table(self.inner).dom().contains(p)
            && route_table(self.inner)[p] == idx;
        let function = match self.routes[idx].at(method) {
            Some(f) => crate::text::owned(f),
            None => {
                return Err(MatchError::NotFound);
            },
        };
        let ghost ps = crate::strmap::pairs_view(params@);
        let mut map = StringMap::new();
        let mut i: usize = 0;
        while i < params.len()
            invariant
                i <= params@.len(),
                ps == crate::strmap::pairs_view(params@),
                map@ == crate::strmap::map_of(ps.take(i as int)),
                params@.len() == 0 ==> map@ == Map::<Seq<char>, Seq<char>>::empty(),
            decreases params@.len() - i,
        {
            map.insert(params[i].0.clone(), params[i].1.clone());
            proof {
                assert(ps.take(i + 1).drop_last() =~= ps.take(i as int));
                assert(ps[i as int] == (params@[i as int].0@, params@[i as int].1@));
            }
            i = i + 1;
        }
        proof {
            assert(ps.take(params@.len() as int) =~= ps);
            assert(self.table().dom().contains(p));
        }
        Ok((function, map))
    }

    /// The router of a map of routes, path by path. Its routes as written are first those of
    /// the paths that one function serves, then one route per path and function with the
    /// methods it serves. When matchit refuses a path, the error names a path of the map.
    pub fn from_route_map(entries: Vec<(String, FunctionRoutes)>) -> (res: Result<
        FunctionRouter,
        InsertError,
    >)
        requires
            distinct_keys(entries@),
            patterns_fit(route_keys(entries@)),
        ensures
            res matches Ok(r) ==> r.wf() && r.table() == map_table(entries@)
                && r.raw_routes().map_values(|x: Route| route_view(x)) == map_routes(entries@),
            res matches Err(e) ==> route_keys(entries@).contains(e.path@),
    {
        let mut router = FunctionRouter::new();
        let mut singles: Vec<Route> = Vec::new();
        let mut groups: Vec<Route> = Vec::new();
        let mut i: usize = 0;
        proof {
            assert(entries@.take(0) =~= Seq::<(String, FunctionRoutes)>::empty());
            assert(singles@.map_values(|x: Route| route_view(x)) =~= Seq::<RouteView>::empty());
            assert(groups@.map_values(|x: Route| route_view(x)) =~= Seq::<RouteView>::empty());
        }
        proof {
            assert(router.table().dom() =~= route_keys(entries@).take(0).to_set());
        }
        while i < entries.len()
            invariant
                i <= entries@.len(),
                patterns_fit(route_keys(entries@)),
                router.table().dom() == route_keys(entries@).take(i as int).to_set(),
                router.wf(),
                router.table() == map_table(entries@.take(i as int)),
                router.raw_routes().len() == 0,
                singles@.map_values(|x: Route| route_view(x)) == single_routes(
                    entries@.take(i as int),
                ),
                groups@.map_values(|x: Route| route_view(x)) == grouped(
                    method_routes(entries@.take(i as int)),
                ),
                forall|k: int| 0 <= k < groups@.len() ==> (#[trigger] groups@[k]).methods is Some,
            decreases entries@.len() - i,
        {
            let path = &entries[i].0;
            let routes = &entries[i].1;
            let ghost before = entries@.take(i as int);
            let ghost after = entries@.take(i + 1);
            proof {
                assert(after.drop_last() =~= before);
                assert(after.last() == entries@[i as int]);
            }
            let ghost keys = route_keys(entries@);
            proof {
                assert(keys[i as int] == path@);
                assert(brace_count(keys[i as int]) <= max_braces());
            }
            match router.insert(path.as_str(), routes.copy()) {
                Ok(()) => {
                    proof {
                        lemma_take_push_set(keys, i as int);
                    }
                },
                Err(e) => {
                    proof {
                        assert(keys[i as int] == e.path@);
                    }
                    return Err(e);
                },
            }
            match routes {
                FunctionRoutes::Single(f) => {
                    let ghost old_singles = singles@.map_values(|x: Route| route_view(x));
                    singles.push(Route { path: path.clone(), methods: None, function: f.clone() });
                    assert(singles@.map_values(|x: Route| route_view(x)) =~= old_singles.push(
                        (path@, None, f@),
                    ));
                    assert(path_method_routes(path@, *routes) =~= Seq::<
                        (Seq<char>, Seq<char>, Seq<char>),
                    >::empty());
                    assert(method_routes(after) =~= method_routes(before));
                },
                FunctionRoutes::Multiple(m) => {
                    let pairs = m.pairs();
                    let ghost base = method_routes(before);
                    let ghost mine = path_method_routes(path@, *routes);
                    let mut j: usize = 0;
                    proof {
                        assert(base + mine.take(0) =~= base);
                    }
                    while j < pairs.len()
                        invariant
                            j <= pairs@.len(),
                            crate::strmap::pairs_view(pairs@) == m.entries(),
                            *routes == FunctionRoutes::Multiple(*m),
                            mine == path_method_routes(path@, *routes),
                            groups@.map_values(|x: Route| route_view(x)) == grouped(
                                base + mine.take(j as int),
                            ),
                            forall|k: int|
                                0 <= k < groups@.len() ==> (#[trigger] groups@[k]).methods is Some,
                        decreases pairs@.len() - j,
                    {
                        proof {
                            let t = base + mine.take(j + 1);
                            assert(t.drop_last() =~= base + mine.take(j as int));
                            assert(mine[j as int] == (path@, pairs@[j as int].0@, pairs@[j as int].1@));
                            assert(t.last() == mine[j as int]);
                        }
                        add_method_route(&mut groups, path, &pairs[j].0, &pairs[j].1);
                        j = j + 1;
                    }
                    proof {
                        assert(mine.take(pairs@.len() as int) =~= mine);
                        assert(method_routes(after) =~= base + mine);
                    }
                },
            }
            i = i + 1;
        }
        proof {
            assert(entries@.take(entries@.len() as int) =~= entries@);
            assert(route_keys(entries@).take(entries@.len() as int) =~= route_keys(entries@));
        }
        let ghost sv = singles@.map_values(|x: Route| route_view(x));
        let ghost gv = groups@.map_values(|x: Route| route_view(x));
        let mut raw = singles;
        raw.append(&mut groups);
        assert(raw@.map_values(|x: Route| route_view(x)) =~= sv + gv);
        router.raw = raw;
        Ok(router)
    }

    /// The router of routes written as a list: the routes of a path are merged in order,
    /// and each path is registered once, in the order in which it first comes. When matchit
    /// refuses a path, the error names a path of the list.
    pub fn from_routes(routes: Vec<Route>) -> (res: Result<FunctionRouter, InsertError>)
        requires
            forall|i: int| 0 <= i < routes@.len() ==> brace_count((#[trigger] routes@[i]).path@)
                <= max_braces(),
        ensures
            res matches Ok(r) ==> r.wf() && r.raw_routes() == routes@ && r.table() == list_table(
                routes@,
            ),
            res matches Err(e) ==> path_routes(routes@, e.path@) is Some,
    {
        let mut paths: Vec<String> = Vec::new();
        let mut merged: Vec<FunctionRoutes> = Vec::new();
        let mut i: usize = 0;
        assert(views(paths@) =~= first_paths(routes@.take(0)));
        while i < routes.len()
            invariant
                i <= routes@.len(),
                forall|i: int| 0 <= i < routes@.len() ==> brace_count((#[trigger] routes@[i]).path@)
                    <= max_braces(),
                views(paths@) == first_paths(routes@.take(i as int)),
                patterns_fit(views(paths@)),
                paths@.len() == merged@.len(),
                forall|a: int, b: int|
                    0 <= a < b < paths@.len() ==> (#[trigger] paths@[a])@ != (#[trigger] paths@[b])@,
                forall|j: int|
                    0 <= j < paths@.len() ==> path_routes(routes@.take(i as int), (#[trigger] paths@[j])@)
                        == Some(routes_view(merged@[j])),
                forall|p: Seq<char>|
                    #[trigger] path_routes(routes@.take(i as int), p) is Some ==> views(paths@).contains(p),
            decreases routes@.len() - i,
        {
            let route = &routes[i];
            let ghost before = routes@.take(i as int);
            let ghost after = routes@.take(i + 1);
            proof {
                assert(after.drop_last() =~= before);
                assert(after.last() == routes@[i as int]);
            }
            match crate::config::position_of(&paths, route.path.as_str()) {
                Some(j) => {
                    let mut current = merged[j].copy();
                    merge_routes(&mut current, route);
                    merged.set(j, current);
                    proof {
                        assert forall|k: int| 0 <= k < paths@.len() implies path_routes(
                            after,
                            (#[trigger] paths@[k])@,
                        ) == Some(routes_view(merged@[k])) by {
                            if k != j {
                                if k < j {
                                    assert(paths@[k]@ != paths@[j as int]@);
                                } else {
                                    assert(paths@[j as int]@ != paths@[k]@);
                                }
                            }
                        }
                        assert forall|p: Seq<char>| #[trigger]
                            path_routes(after, p) is Some implies views(paths@).contains(p) by {
                            if p == route.path@ {
                                assert(views(paths@)[j as int] == p);
                            } else {
                                assert(path_routes(before, p) is Some);
                            }
                        }
                        assert(views(paths@)[j as int] == route.path@);
                        assert(first_paths(before).contains(route.path@));
                    }
                },
                None => {
                    let ghost old_paths = paths@;
                    paths.push(route.path.clone());
                    merged.push(decode_route(route));
                    proof {
                        let n = old_paths.len() as int;
                        assert(views(paths@) =~= views(old_paths).push(route.path@));
                        assert(!first_paths(before).contains(route.path@));
                        assert forall|q: int| 0 <= q < views(paths@).len() implies brace_count(
                            #[trigger] views(paths@)[q],
                        ) <= max_braces() by {
                            if q < n {
                                assert(views(paths@)[q] == views(old_paths)[q]);
                            } else {
                                assert(brace_count(routes@[i as int].path@) <= max_braces());
                            }
                        }
                        assert(path_routes(before, route.path@) is None) by {
                            if path_routes(before, route.path@) is Some {
                                assert(views(old_paths).contains(route.path@));
                            }
                        }
                        assert forall|a: int, b: int|
                            0 <= a < b < paths@.len() implies (#[trigger] paths@[a])@
                                != (#[trigger] paths@[b])@ by {
                            if b == n {
                                assert(views(old_paths)[a] == paths@[a]@);
                            }
                        }
                        assert forall|k: int| 0 <= k < paths@.len() implies path_routes(
                            after,
                            (#[trigger] paths@[k])@,
                        ) == Some(routes_view(merged@[k])) by {
                            if k < n {
                                assert(paths@[k] == old_paths[k]);
                                assert(views(old_paths)[k] == paths@[k]@);
                            }
                        }
                        assert forall|p: Seq<char>| #[trigger]
                            path_routes(after, p) is Some implies views(paths@).contains(p) by {
                            if p == route.path@ {
                                assert(views(paths@)[n] == p);
                            } else {
                                assert(path_routes(before, p) is Some);
                                let w = choose|w: int| 0 <= w < views(old_paths).len() && views(old_paths)[w] == p;
                                assert(views(paths@)[w] == p);
                            }
                        }
                    }
                },
            }
            i = i + 1;
        }
        proof {
            assert(routes@.take(routes@.len() as int) =~= routes@);
        }
        let mut router = FunctionRouter::new();
        let mut k: usize = 0;
        let ghost ps = views(paths@);
        proof {
            assert(router.table().dom() =~= ps.take(0).to_set());
        }
        while k < paths.len()
            invariant
                k <= paths@.len(),
                ps == views(paths@),
                ps == first_paths(routes@),
                patterns_fit(ps),
                router.table().dom() == ps.take(k as int).to_set(),
                paths@.len() == merged@.len(),
                forall|j: int|
                    0 <= j < paths@.len() ==> path_routes(routes@, (#[trigger] paths@[j])@) == Some(
                        routes_view(merged@[j]),
                    ),
                router.wf(),
                router.raw_routes().len() == 0,
                forall|p: Seq<char>| #[trigger]
                    router.table().dom().contains(p) ==> path_routes(routes@, p) == Some(
                        router.table()[p],
                    ),
                forall|j: int| 0 <= j < k ==> router.table().dom().contains((#[trigger] paths@[j])@),
            decreases paths@.len() - k,
        {
            let r = merged[k].copy();
            proof {
                assert(ps[k as int] == paths@[k as int]@);
                assert(brace_count(ps[k as int]) <= max_braces());
            }
            match router.insert(paths[k].as_str(), r) {
                Ok(()) => {
                    proof {
                        lemma_take_push_set(ps, k as int);
                    }
                },
                Err(e) => {
                    assert(path_routes(routes@, paths@[k as int]@) is Some);
                    return Err(e);
                },
            }
            k = k + 1;
        }
        proof {
            assert(ps.take(ps.len() as int) =~= ps);
            assert forall|p: Seq<char>| #[trigger] path_routes(routes@, p) is Some implies router.table().dom().contains(p) by {
                let w = choose|w: int| 0 <= w < views(paths@).len() && views(paths@)[w] == p;
                assert(paths@[w]@ == p);
            }
            assert(router.table() =~= list_table(routes@));
        }
        router.raw = routes;
        Ok(router)
    }
}

} // verus!
