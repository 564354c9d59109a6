//! How a map of routes and the list of routes that it is written as relate: read back as a
//! list, the routes of a map give the map's routing table again.
use vstd::prelude::*;
use crate::strmap::{keys_unique, lemma_map_of_contains, lemma_map_of_index, map_of};
use crate::watch::{
    decoded, distinct_keys, grouped, group_index, list_table, map_routes, map_table, merged,
    method_routes, methods_to, path_method_routes, path_routes, route_view, routes_view,
    single_routes, FunctionRoutes, Route, RouteView, RoutesView,
};

verus! {

/// `path_routes` over routes taken by value.
pub open spec fn view_routes(vs: Seq<RouteView>, path: Seq<char>) -> Option<RoutesView>
    decreases vs.len(),
{
    if vs.len() == 0 {
        None
    } else {
        let r = vs.last();
        let before = view_routes(vs.drop_last(), path);
        if r.0 == path {
            match before {
                Some(cur) => Some(merged(cur, r.1, r.2)),
                None => Some(decoded(r.1, r.2)),
            }
        } else {
            before
        }
    }
}

/// Some route of `vs` is for `path`.
pub open spec fn has_path(vs: Seq<RouteView>, path: Seq<char>) -> bool {
    exists|j: int| 0 <= j < vs.len() && (#[trigger] vs[j]).0 == path
}

/// Every route of `vs` names at least one method.
pub open spec fn all_with_methods(vs: Seq<RouteView>) -> bool {
    forall|j: int| 0 <= j < vs.len() ==> ((#[trigger] vs[j]).1 matches Some(ms) && ms.len() > 0)
}

/// The routes of a list come to the same as the routes taken by value.
proof fn lemma_view_routes(rs: Seq<Route>, path: Seq<char>)
    ensures
        path_routes(rs, path) == view_routes(rs.map_values(|r: Route| route_view(r)), path),
    decreases rs.len(),
{
    let vs = rs.map_values(|r: Route| route_view(r));
    if rs.len() > 0 {
        assert(rs.drop_last().map_values(|r: Route| route_view(r)) =~= vs.drop_last());
        assert(vs.last() == route_view(rs.last()));
        lemma_view_routes(rs.drop_last(), path);
    }
}

/// Without a route for `path`, nothing is found for it.
proof fn lemma_view_routes_none(vs: Seq<RouteView>, path: Seq<char>)
    requires
        !has_path(vs, path),
    ensures
        view_routes(vs, path) is None,
    decreases vs.len(),
{
    if vs.len() > 0 {
        assert(vs.last() == vs[vs.len() - 1]);
        assert(!has_path(vs.drop_last(), path)) by {
            if has_path(vs.drop_last(), path) {
                let j = choose|j: int| 0 <= j < vs.drop_last().len() && (#[trigger] vs.drop_last()[j]).0 == path;
                assert(vs[j] == vs.drop_last()[j]);
            }
        }
        lemma_view_routes_none(vs.drop_last(), path);
    }
}

/// Routes for other paths added after `a` change nothing for `path`.
proof fn lemma_view_routes_append_other(a: Seq<RouteView>, b: Seq<RouteView>, path: Seq<char>)
    requires
        !has_path(b, path),
    ensures
        view_routes(a + b, path) == view_routes(a, path),
    decreases b.len(),
{
    if b.len() == 0 {
        assert(a + b =~= a);
    } else {
        assert((a + b).drop_last() =~= a + b.drop_last());
        assert(b.last() == b[b.len() - 1]);
        assert((a + b).last() == b.last());
        assert(!has_path(b.drop_last(), path)) by {
            if has_path(b.drop_last(), path) {
                let j = choose|j: int| 0 <= j < b.drop_last().len() && (#[trigger] b.drop_last()[j]).0 == path;
                assert(b[j] == b.drop_last()[j]);
            }
        }
        lemma_view_routes_append_other(a, b.drop_last(), path);
    }
}

/// Routes for other paths before `b` change nothing for `path`.
proof fn lemma_view_routes_prepend_other(a: Seq<RouteView>, b: Seq<RouteView>, path: Seq<char>)
    requires
        !has_path(a, path),
    ensures
        view_routes(a + b, path) == view_routes(b, path),
    decreases b.len(),
{
    if b.len() == 0 {
        assert(a + b =~= a);
        lemma_view_routes_none(a, path);
    } else {
        assert((a + b).drop_last() =~= a + b.drop_last());
        assert((a + b).last() == b.last());
        lemma_view_routes_prepend_other(a, b.drop_last(), path);
    }
}

/// `methods_to` sets each listed method to the function and keeps the others.
proof fn lemma_methods_to(
    base: Map<Seq<char>, Seq<char>>,
    ms: Seq<Seq<char>>,
    f: Seq<char>,
    k: Seq<char>,
)
    ensures
        methods_to(base, ms, f).dom().contains(k) <==> (base.dom().contains(k) || ms.contains(k)),
        ms.contains(k) ==> methods_to(base, ms, f)[k] == f,
        !ms.contains(k) && base.dom().contains(k) ==> methods_to(base, ms, f)[k] == base[k],
    decreases ms.len(),
{
    if ms.len() > 0 {
        lemma_methods_to(base, ms.drop_last(), f, k);
        assert(ms.last() == ms[ms.len() - 1]);
        if ms.drop_last().contains(k) {
            let j = choose|j: int| 0 <= j < ms.drop_last().len() && ms.drop_last()[j] == k;
            assert(ms[j] == k);
        }
        if ms.contains(k) && k != ms.last() {
            let j = choose|j: int| 0 <= j < ms.len() && ms[j] == k;
            assert(ms.drop_last()[j] == k);
        }
    }
}

/// What routes that all name methods say of a path: one function per method, each method
/// of a route for the path being served, by the function of some route for it.
pub open spec fn methods_gathered(vs: Seq<RouteView>, path: Seq<char>, m: Map<Seq<char>, Seq<char>>) -> bool {
    &&& forall|k: Seq<char>|
        #[trigger] m.dom().contains(k) <==> exists|j: int|
            0 <= j < vs.len() && (#[trigger] vs[j]).0 == path && vs[j].1->0.contains(k)
    &&& forall|k: Seq<char>|
        #[trigger] m.dom().contains(k) ==> exists|j: int|
            0 <= j < vs.len() && (#[trigger] vs[j]).0 == path && vs[j].1->0.contains(k) && vs[j].2
                == m[k]
}

/// Routes that all name methods give a path the methods of its routes.
proof fn lemma_view_routes_methods(vs: Seq<RouteView>, path: Seq<char>)
    requires
        all_with_methods(vs),
        has_path(vs, path),
    ensures
        (view_routes(vs, path) matches Some(RoutesView::Multiple(m)) && methods_gathered(vs, path, m)),
    decreases vs.len(),
{
    let n = vs.len() - 1;
    let d = vs.drop_last();
    let r = vs.last();
    assert(r == vs[n]);
    assert(all_with_methods(d)) by {
        assert forall|j: int| 0 <= j < d.len() implies ((#[trigger] d[j]).1 matches Some(ms) && ms.len() > 0) by {
            assert(d[j] == vs[j]);
        }
    }
    assert(r.1 matches Some(ms) && ms.len() > 0);
    let ms = r.1->0;
    if has_path(d, path) {
        lemma_view_routes_methods(d, path);
        if r.0 == path {
            let m0 = view_routes(d, path)->0->Multiple_0;
            let m = methods_to(m0, ms, r.2);
            assert(view_routes(vs, path) == Some(RoutesView::Multiple(m)));
            assert forall|k: Seq<char>| #[trigger] m.dom().contains(k) <==> exists|j: int|
                0 <= j < vs.len() && (#[trigger] vs[j]).0 == path && vs[j].1->0.contains(k) by {
                lemma_methods_to(m0, ms, r.2, k);
                if m.dom().contains(k) {
                    if !ms.contains(k) {
                        let j = choose|j: int| 0 <= j < d.len() && (#[trigger] d[j]).0 == path && d[j].1->0.contains(k);
                        assert(vs[j] == d[j]);
                    }
                }
                if exists|j: int| 0 <= j < vs.len() && (#[trigger] vs[j]).0 == path && vs[j].1->0.contains(k) {
                    let j = choose|j: int| 0 <= j < vs.len() && (#[trigger] vs[j]).0 == path && vs[j].1->0.contains(k);
                    if j < n {
                        assert(d[j] == vs[j]);
                    }
                }
            }
            assert forall|k: Seq<char>| #[trigger] m.dom().contains(k) implies exists|j: int|
                0 <= j < vs.len() && (#[trigger] vs[j]).0 == path && vs[j].1->0.contains(k) && vs[j].2
                    == m[k] by {
                lemma_methods_to(m0, ms, r.2, k);
                if !ms.contains(k) {
                    let j = choose|j: int| 0 <= j < d.len() && (#[trigger] d[j]).0 == path && d[j].1->0.contains(k) && d[j].2 == m0[k];
                    assert(vs[j] == d[j]);
                }
            }
        } else {
            let m = view_routes(d, path)->0->Multiple_0;
            assert forall|k: Seq<char>| #[trigger] m.dom().contains(k) <==> exists|j: int|
                0 <= j < vs.len() && (#[trigger] vs[j]).0 == path && vs[j].1->0.contains(k) by {
                if exists|j: int| 0 <= j < vs.len() && (#[trigger] vs[j]).0 == path && vs[j].1->0.contains(k) {
                    let j = choose|j: int| 0 <= j < vs.len() && (#[trigger] vs[j]).0 == path && vs[j].1->0.contains(k);
                    assert(d[j] == vs[j]);
                }
                if m.dom().contains(k) {
                    let j = choose|j: int| 0 <= j < d.len() && (#[trigger] d[j]).0 == path && d[j].1->0.contains(k);
                    assert(d[j] == vs[j]);
                }
            }
            assert forall|k: Seq<char>| #[trigger] m.dom().contains(k) implies exists|j: int|
                0 <= j < vs.len() && (#[trigger] vs[j]).0 == path && vs[j].1->0.contains(k) && vs[j].2
                    == m[k] by {
                let j = choose|j: int| 0 <= j < d.len() && (#[trigger] d[j]).0 == path && d[j].1->0.contains(k) && d[j].2 == m[k];
                assert(d[j] == vs[j]);
            }
        }
    } else {
        lemma_view_routes_none(d, path);
        assert(r.0 == path) by {
            let j = choose|j: int| 0 <= j < vs.len() && (#[trigger] vs[j]).0 == path;
            if j < n {
                assert(d[j] == vs[j]);
            }
        }
        let m = methods_to(Map::empty(), ms, r.2);
        assert(view_routes(vs, path) == Some(RoutesView::Multiple(m)));
        assert forall|k: Seq<char>| #[trigger] m.dom().contains(k) <==> exists|j: int|
            0 <= j < vs.len() && (#[trigger] vs[j]).0 == path && vs[j].1->0.contains(k) by {
            lemma_methods_to(Map::empty(), ms, r.2, k);
            if exists|j: int| 0 <= j < vs.len() && (#[trigger] vs[j]).0 == path && vs[j].1->0.contains(k) {
                let j = choose|j: int| 0 <= j < vs.len() && (#[trigger] vs[j]).0 == path && vs[j].1->0.contains(k);
                if j < n {
                    assert(d[j] == vs[j]);
                }
            }
        }
        assert forall|k: Seq<char>| #[trigger] m.dom().contains(k) implies exists|j: int|
            0 <= j < vs.len() && (#[trigger] vs[j]).0 == path && vs[j].1->0.contains(k) && vs[j].2
                == m[k] by {
            lemma_methods_to(Map::empty(), ms, r.2, k);
            assert(vs[n].0 == path && vs[n].1->0.contains(k) && vs[n].2 == m[k]);
        }
    }
}

/// A route for a path, method and function.
pub type MethodRoute = (Seq<char>, Seq<char>, Seq<char>);

/// `t` is one of `ts`.
pub open spec fn has_triple(ts: Seq<MethodRoute>, t: MethodRoute) -> bool {
    exists|i: int| 0 <= i < ts.len() && ts[i] == t
}

/// Some route of `vs` is for the path and function of `t` and names its method.
pub open spec fn group_has(vs: Seq<RouteView>, t: MethodRoute) -> bool {
    exists|j: int|
        0 <= j < vs.len() && (#[trigger] vs[j]).0 == t.0 && vs[j].2 == t.2 && vs[j].1->0.contains(t.1)
}

/// The route that `group_index` finds is for the path and function asked for.
proof fn lemma_group_index(groups: Seq<RouteView>, path: Seq<char>, function: Seq<char>)
    ensures
        group_index(groups, path, function) >= 0 ==> {
            let i = group_index(groups, path, function);
            0 <= i < groups.len() && groups[i].0 == path && groups[i].2 == function
        },
    decreases groups.len(),
{
    if groups.len() > 0 {
        lemma_group_index(groups.drop_last(), path, function);
    }
}

/// The routes that method routes are gathered into name methods, name only methods of
/// method routes for their path and function, and name every method route.
proof fn lemma_grouped(ts: Seq<MethodRoute>)
    ensures
        all_with_methods(grouped(ts)),
        forall|j: int, k: Seq<char>|
            #![trigger grouped(ts)[j].1->0.contains(k)]
            0 <= j < grouped(ts).len() && grouped(ts)[j].1->0.contains(k) ==> has_triple(
                ts,
                (grouped(ts)[j].0, k, grouped(ts)[j].2),
            ),
        forall|i: int| 0 <= i < ts.len() ==> group_has(grouped(ts), #[trigger] ts[i]),
    decreases ts.len(),
{
    if ts.len() > 0 {
        let d = ts.drop_last();
        let t = ts.last();
        let g0 = grouped(d);
        let g = grouped(ts);
        lemma_grouped(d);
        lemma_group_index(g0, t.0, t.2);
        let i = group_index(g0, t.0, t.2);
        assert(t == ts[ts.len() - 1]);
        assert forall|x: MethodRoute| has_triple(d, x) implies has_triple(ts, x) by {
            let a = choose|a: int| 0 <= a < d.len() && d[a] == x;
            assert(ts[a] == d[a]);
        }
        if i >= 0 {
            let ms = g0[i].1->0;
            assert(g == g0.update(i, (g0[i].0, Some(ms.push(t.1)), g0[i].2)));
            assert forall|j: int| 0 <= j < g.len() implies ((#[trigger] g[j]).1 matches Some(m) && m.len() > 0) by {
                if j != i {
                    assert(g[j] == g0[j]);
                }
            }
            assert forall|j: int, k: Seq<char>|
                #![trigger g[j].1->0.contains(k)]
                0 <= j < g.len() && g[j].1->0.contains(k) implies has_triple(ts, (g[j].0, k, g[j].2)) by {
                if j != i {
                    assert(g[j] == g0[j]);
                    assert(has_triple(d, (g0[j].0, k, g0[j].2)));
                } else {
                    let a = choose|a: int| 0 <= a < ms.push(t.1).len() && ms.push(t.1)[a] == k;
                    if a < ms.len() {
                        assert(ms[a] == k);
                        assert(ms.contains(k));
                        assert(has_triple(d, (g0[j].0, k, g0[j].2)));
                    } else {
                        assert(ts[ts.len() - 1] == (g[j].0, k, g[j].2));
                    }
                }
            }
            assert forall|a: int| 0 <= a < ts.len() implies group_has(g, #[trigger] ts[a]) by {
                if a < d.len() {
                    assert(ts[a] == d[a]);
                    assert(group_has(g0, d[a]));
                    let j = choose|j: int|
                        0 <= j < g0.len() && (#[trigger] g0[j]).0 == d[a].0 && g0[j].2 == d[a].2
                            && g0[j].1->0.contains(d[a].1);
                    if j != i {
                        assert(g[j] == g0[j]);
                    } else {
                        let b = choose|b: int| 0 <= b < ms.len() && ms[b] == d[a].1;
                        assert(ms.push(t.1)[b] == d[a].1);
                        assert(g[j].1->0.contains(d[a].1));
                    }
                } else {
                    assert(ms.push(t.1)[ms.len() as int] == t.1);
                    assert(g[i].1->0.contains(t.1));
                }
            }
        } else {
            let ng: RouteView = (t.0, Some(seq![t.1]), t.2);
            assert(g == g0.push(ng));
            assert forall|j: int| 0 <= j < g.len() implies ((#[trigger] g[j]).1 matches Some(m) && m.len() > 0) by {
                if j < g0.len() {
                    assert(g[j] == g0[j]);
                }
            }
            assert forall|j: int, k: Seq<char>|
                #![trigger g[j].1->0.contains(k)]
                0 <= j < g.len() && g[j].1->0.contains(k) implies has_triple(ts, (g[j].0, k, g[j].2)) by {
                if j < g0.len() {
                    assert(g[j] == g0[j]);
                    assert(has_triple(d, (g0[j].0, k, g0[j].2)));
                } else {
                    assert(seq![t.1][0] == t.1);
                    assert(k == t.1);
                    assert(ts[ts.len() - 1] == (g[j].0, k, g[j].2));
                }
            }
            assert forall|a: int| 0 <= a < ts.len() implies group_has(g, #[trigger] ts[a]) by {
                if a < d.len() {
                    assert(ts[a] == d[a]);
                    assert(group_has(g0, d[a]));
                    let j = choose|j: int|
                        0 <= j < g0.len() && (#[trigger] g0[j]).0 == d[a].0 && g0[j].2 == d[a].2
                            && g0[j].1->0.contains(d[a].1);
                    assert(g[j] == g0[j]);
                } else {
                    assert(seq![t.1][0] == t.1);
                    assert(g[g0.len() as int].1->0.contains(t.1));
                }
            }
        }
    }
}

/// Dropping the last entry keeps the keys distinct.
proof fn lemma_distinct_prefix(entries: Seq<(String, FunctionRoutes)>)
    requires
        distinct_keys(entries),
        entries.len() > 0,
    ensures
        distinct_keys(entries.drop_last()),
        forall|i: int|
            0 <= i < entries.len() - 1 ==> (#[trigger] entries[i]).0@ != entries.last().0@,
{
    let d = entries.drop_last();
    assert forall|i: int, j: int| 0 <= i < j < d.len() implies (#[trigger] d[i]).0@ != (#[trigger] d[j]).0@ by {
        assert(d[i] == entries[i]);
        assert(d[j] == entries[j]);
    }
    assert forall|i: int| 0 <= i < entries.len() - 1 implies (#[trigger] entries[i]).0@ != entries.last().0@ by {
        assert(entries.last() == entries[entries.len() - 1]);
    }
}

/// The method routes of a map come from its maps of methods.
proof fn lemma_method_routes_from(entries: Seq<(String, FunctionRoutes)>, t: MethodRoute)
    requires
        has_triple(method_routes(entries), t),
    ensures
        exists|i: int|
            0 <= i < entries.len() && (#[trigger] entries[i]).0@ == t.0 && (entries[i].1 matches FunctionRoutes::Multiple(m)
                && m.entries().contains((t.1, t.2))),
    decreases entries.len(),
{
    let d = entries.drop_last();
    let e = entries.last();
    let n = entries.len() - 1;
    assert(e == entries[n]);
    let a = method_routes(d);
    let b = path_method_routes(e.0@, e.1);
    assert(method_routes(entries) == a + b);
    let x = choose|x: int| 0 <= x < (a + b).len() && (a + b)[x] == t;
    if x < a.len() {
        assert(a[x] == t);
        lemma_method_routes_from(d, t);
        let i = choose|i: int|
            0 <= i < d.len() && (#[trigger] d[i]).0@ == t.0 && (d[i].1 matches FunctionRoutes::Multiple(m)
                && m.entries().contains((t.1, t.2)));
        assert(entries[i] == d[i]);
    } else {
        let y = x - a.len();
        assert(b[y] == t);
        match e.1 {
            FunctionRoutes::Single(_) => {
                assert(b.len() == 0);
            },
            FunctionRoutes::Multiple(m) => {
                assert(b[y] == (e.0@, m.entries()[y].0, m.entries()[y].1));
                assert(m.entries()[y] == (t.1, t.2));
                assert(m.entries().contains((t.1, t.2)));
                assert(entries[n].0@ == t.0);
            },
        }
    }
}

/// Each method of a map of methods in a map of routes is a method route.
proof fn lemma_method_routes_has(entries: Seq<(String, FunctionRoutes)>, i: int, j: int)
    requires
        0 <= i < entries.len(),
        entries[i].1 matches FunctionRoutes::Multiple(m) && 0 <= j < m.entries().len(),
    ensures
        entries[i].1 matches FunctionRoutes::Multiple(m) && has_triple(
            method_routes(entries),
            (entries[i].0@, m.entries()[j].0, m.entries()[j].1),
        ),
    decreases entries.len(),
{
    let d = entries.drop_last();
    let e = entries.last();
    let n = entries.len() - 1;
    assert(e == entries[n]);
    let a = method_routes(d);
    let b = path_method_routes(e.0@, e.1);
    assert(method_routes(entries) == a + b);
    let m = entries[i].1->Multiple_0;
    let t = (entries[i].0@, m.entries()[j].0, m.entries()[j].1);
    if i < n {
        assert(d[i] == entries[i]);
        lemma_method_routes_has(d, i, j);
        let x = choose|x: int| 0 <= x < a.len() && a[x] == t;
        assert((a + b)[x] == t);
    } else {
        assert(b[j] == t);
        assert((a + b)[a.len() + j] == t);
    }
}

/// The single routes of a map are for paths that one function serves.
proof fn lemma_single_routes_from(entries: Seq<(String, FunctionRoutes)>, path: Seq<char>)
    requires
        has_path(single_routes(entries), path),
    ensures
        exists|i: int|
            0 <= i < entries.len() && (#[trigger] entries[i]).0@ == path && entries[i].1 is Single,
    decreases entries.len(),
{
    let d = entries.drop_last();
    let e = entries.last();
    let n = entries.len() - 1;
    assert(e == entries[n]);
    let s0 = single_routes(d);
    let x = choose|x: int| 0 <= x < single_routes(entries).len() && (#[trigger] single_routes(entries)[x]).0 == path;
    match e.1 {
        FunctionRoutes::Single(f) => {
            assert(single_routes(entries) == s0.push((e.0@, None, f@)));
            if x < s0.len() {
                assert(s0[x] == single_routes(entries)[x]);
                lemma_single_routes_from(d, path);
                let i = choose|i: int| 0 <= i < d.len() && (#[trigger] d[i]).0@ == path && d[i].1 is Single;
                assert(entries[i] == d[i]);
            } else {
                assert(entries[n].0@ == path);
            }
        },
        FunctionRoutes::Multiple(_) => {
            assert(single_routes(entries) == s0);
            lemma_single_routes_from(d, path);
            let i = choose|i: int| 0 <= i < d.len() && (#[trigger] d[i]).0@ == path && d[i].1 is Single;
            assert(entries[i] == d[i]);
        },
    }
}

/// A path that one function serves reads back as that function.
proof fn lemma_single_routes_path(entries: Seq<(String, FunctionRoutes)>, i: int)
    requires
        distinct_keys(entries),
        0 <= i < entries.len(),
        entries[i].1 is Single,
    ensures
        view_routes(single_routes(entries), entries[i].0@) == Some(routes_view(entries[i].1)),
    decreases entries.len(),
{
    let d = entries.drop_last();
    let e = entries.last();
    let n = entries.len() - 1;
    let p = entries[i].0@;
    assert(e == entries[n]);
    lemma_distinct_prefix(entries);
    let s0 = single_routes(d);
    if i < n {
        assert(d[i] == entries[i]);
        lemma_single_routes_path(d, i);
        assert(e.0@ != p);
        match e.1 {
            FunctionRoutes::Single(f) => {
                assert(single_routes(entries) == s0.push((e.0@, None, f@)));
                assert(single_routes(entries).drop_last() =~= s0);
            },
            FunctionRoutes::Multiple(_) => {},
        }
    } else {
        let f = e.1->Single_0;
        assert(single_routes(entries) == s0.push((e.0@, None, f@)));
        assert(single_routes(entries).drop_last() =~= s0);
        assert(!has_path(s0, p)) by {
            if has_path(s0, p) {
                lemma_single_routes_from(d, p);
                let j = choose|j: int| 0 <= j < d.len() && (#[trigger] d[j]).0@ == p && d[j].1 is Single;
                assert(entries[j] == d[j]);
            }
        }
        lemma_view_routes_none(s0, p);
    }
}

/// With distinct keys, the table of a map holds each key with its routes.
proof fn lemma_map_table(entries: Seq<(String, FunctionRoutes)>, path: Seq<char>)
    requires
        distinct_keys(entries),
    ensures
        map_table(entries).dom().contains(path) <==> exists|i: int|
            0 <= i < entries.len() && (#[trigger] entries[i]).0@ == path,
        forall|i: int|
            0 <= i < entries.len() && (#[trigger] entries[i]).0@ == path ==> map_table(entries)[path]
                == routes_view(entries[i].1),
    decreases entries.len(),
{
    if entries.len() > 0 {
        let d = entries.drop_last();
        let n = entries.len() - 1;
        assert(entries.last() == entries[n]);
        lemma_distinct_prefix(entries);
        lemma_map_table(d, path);
        if map_table(entries).dom().contains(path) && path != entries[n].0@ {
            let i = choose|i: int| 0 <= i < d.len() && (#[trigger] d[i]).0@ == path;
            assert(entries[i] == d[i]);
        }
        if exists|i: int| 0 <= i < entries.len() && (#[trigger] entries[i]).0@ == path {
            let i = choose|i: int| 0 <= i < entries.len() && (#[trigger] entries[i]).0@ == path;
            if i < n {
                assert(d[i] == entries[i]);
            }
        }
        assert forall|i: int|
            0 <= i < entries.len() && (#[trigger] entries[i]).0@ == path implies map_table(entries)[path]
                == routes_view(entries[i].1) by {
            if i < n {
                assert(d[i] == entries[i]);
            }
        }
    }
}

/// Every path served per method names at least one method, and each map of methods keeps
/// its keys once, as its type does.
pub open spec fn methods_named(entries: Seq<(String, FunctionRoutes)>) -> bool {
    forall|i: int|
        0 <= i < entries.len() ==> ((#[trigger] entries[i]).1 matches FunctionRoutes::Multiple(m)
            ==> keys_unique(m.entries()) && m@ != Map::<Seq<char>, Seq<char>>::empty())
}

/// No method route and no gathered route is for a path that no map of methods has.
proof fn lemma_no_groups_for(entries: Seq<(String, FunctionRoutes)>, path: Seq<char>)
    requires
        distinct_keys(entries),
        forall|i: int|
            0 <= i < entries.len() && (#[trigger] entries[i]).0@ == path ==> entries[i].1 is Single,
    ensures
        !has_path(grouped(method_routes(entries)), path),
{
    let ts = method_routes(entries);
    let g = grouped(ts);
    lemma_grouped(ts);
    if has_path(g, path) {
        let j = choose|j: int| 0 <= j < g.len() && (#[trigger] g[j]).0 == path;
        let ms = g[j].1->0;
        assert(ms.len() > 0);
        assert(ms[0] == ms[0]);
        assert(ms.contains(ms[0]));
        assert(g[j].1->0.contains(ms[0]));
        assert(has_triple(ts, (g[j].0, ms[0], g[j].2)));
        lemma_method_routes_from(entries, (path, ms[0], g[j].2));
        let i = choose|i: int|
            0 <= i < entries.len() && (#[trigger] entries[i]).0@ == path && (entries[i].1 matches FunctionRoutes::Multiple(m)
                && m.entries().contains((ms[0], g[j].2)));
        assert(entries[i].1 is Single);
    }
}

/// A path of a map that is served per method reads back as its map of methods.
proof fn lemma_multiple_path(entries: Seq<(String, FunctionRoutes)>, i: int)
    requires
        distinct_keys(entries),
        methods_named(entries),
        0 <= i < entries.len(),
        entries[i].1 is Multiple,
    ensures
        view_routes(map_routes(entries), entries[i].0@) == Some(routes_view(entries[i].1)),
{
    let p = entries[i].0@;
    let m = entries[i].1->Multiple_0;
    let es = m.entries();
    let sr = single_routes(entries);
    let ts = method_routes(entries);
    let g = grouped(ts);
    lemma_grouped(ts);
    assert(keys_unique(es) && m@ != Map::<Seq<char>, Seq<char>>::empty());
    m.lemma_view_is_entries();
    assert(!has_path(sr, p)) by {
        if has_path(sr, p) {
            lemma_single_routes_from(entries, p);
            let a = choose|a: int| 0 <= a < entries.len() && (#[trigger] entries[a]).0@ == p && entries[a].1 is Single;
            if a < i {
                assert(entries[a].0@ != entries[i].0@);
            } else if a > i {
                assert(entries[i].0@ != entries[a].0@);
            }
        }
    }
    lemma_view_routes_prepend_other(sr, g, p);
    // the path has at least one method route
    assert(es.len() > 0) by {
        if es.len() == 0 {
            assert(map_of(es) == Map::<Seq<char>, Seq<char>>::empty());
        }
    }
    lemma_method_routes_has(entries, i, 0);
    let t0: MethodRoute = (p, es[0].0, es[0].1);
    let x0 = choose|x: int| 0 <= x < ts.len() && ts[x] == t0;
    assert(group_has(g, ts[x0]));
    let j0 = choose|j: int|
        0 <= j < g.len() && (#[trigger] g[j]).0 == ts[x0].0 && g[j].2 == ts[x0].2 && g[j].1->0.contains(ts[x0].1);
    assert(has_path(g, p));
    lemma_view_routes_methods(g, p);
    let mm = view_routes(g, p)->0->Multiple_0;
    // what a method route for the path says of the map of methods
    assert forall|k: Seq<char>, f: Seq<char>| #[trigger] has_triple(ts, (p, k, f)) implies es.contains((k, f)) by {
        lemma_method_routes_from(entries, (p, k, f));
        let a = choose|a: int|
            0 <= a < entries.len() && (#[trigger] entries[a]).0@ == p && (entries[a].1 matches FunctionRoutes::Multiple(m2)
                && m2.entries().contains((k, f)));
        if a < i {
            assert(entries[a].0@ != entries[i].0@);
        } else if a > i {
            assert(entries[i].0@ != entries[a].0@);
        }
    }
    assert forall|k: Seq<char>| mm.dom().contains(k) <==> m@.dom().contains(k) by {
        lemma_map_of_contains(es, k);
        if mm.dom().contains(k) {
            let j = choose|j: int| 0 <= j < g.len() && (#[trigger] g[j]).0 == p && g[j].1->0.contains(k);
            assert(has_triple(ts, (g[j].0, k, g[j].2)));
            assert(es.contains((k, g[j].2)));
            let a = choose|a: int| 0 <= a < es.len() && es[a] == (k, g[j].2);
            assert(es[a].0 == k);
        }
        if m@.dom().contains(k) {
            let a = choose|a: int| 0 <= a < es.len() && #[trigger] es[a].0 == k;
            lemma_method_routes_has(entries, i, a);
            let t: MethodRoute = (p, k, es[a].1);
            let x = choose|x: int| 0 <= x < ts.len() && ts[x] == t;
            assert(group_has(g, ts[x]));
            let j = choose|j: int|
                0 <= j < g.len() && (#[trigger] g[j]).0 == ts[x].0 && g[j].2 == ts[x].2 && g[j].1->0.contains(ts[x].1);
            assert(g[j].0 == p && g[j].1->0.contains(k));
        }
    }
    assert forall|k: Seq<char>| mm.dom().contains(k) implies mm[k] == m@[k] by {
        let j = choose|j: int| 0 <= j < g.len() && (#[trigger] g[j]).0 == p && g[j].1->0.contains(k) && g[j].2 == mm[k];
        assert(has_triple(ts, (g[j].0, k, g[j].2)));
        assert(es.contains((k, g[j].2)));
        let a = choose|a: int| 0 <= a < es.len() && es[a] == (k, g[j].2);
        lemma_map_of_index(es, a);
    }
    assert(mm =~= m@);
}

/// What the routes that a map is written as give a path: the path's routes in the map, or
/// nothing when the map does not have the path.
proof fn lemma_path_result(entries: Seq<(String, FunctionRoutes)>, path: Seq<char>)
    requires
        distinct_keys(entries),
        methods_named(entries),
    ensures
        view_routes(map_routes(entries), path) == (if map_table(entries).dom().contains(path) {
            Some(map_table(entries)[path])
        } else {
            None
        }),
{
    let sr = single_routes(entries);
    let g = grouped(method_routes(entries));
    lemma_map_table(entries, path);
    if exists|i: int| 0 <= i < entries.len() && (#[trigger] entries[i]).0@ == path {
        let i = choose|i: int| 0 <= i < entries.len() && (#[trigger] entries[i]).0@ == path;
        if entries[i].1 is Single {
            assert forall|a: int|
                0 <= a < entries.len() && (#[trigger] entries[a]).0@ == path implies entries[a].1 is Single by {
                if a < i {
                    assert(entries[a].0@ != entries[i].0@);
                } else if a > i {
                    assert(entries[i].0@ != entries[a].0@);
                }
            }
            lemma_no_groups_for(entries, path);
            lemma_view_routes_append_other(sr, g, path);
            lemma_single_routes_path(entries, i);
        } else {
            lemma_multiple_path(entries, i);
        }
    } else {
        assert(!has_path(sr, path)) by {
            if has_path(sr, path) {
                lemma_single_routes_from(entries, path);
            }
        }
        lemma_no_groups_for(entries, path);
        lemma_view_routes_prepend_other(sr, g, path);
        lemma_view_routes_none(g, path);
    }
}

/// Read back as a list, the routes that a map of routes is written as give the map's
/// routing table again: merged path by path, they are the routes of the map.
pub proof fn law_rebuild_from_map(entries: Seq<(String, FunctionRoutes)>, routes: Seq<Route>)
    requires
        distinct_keys(entries),
        methods_named(entries),
        routes.map_values(|r: Route| route_view(r)) == map_routes(entries),
    ensures
        list_table(routes) == map_table(entries),
{
    assert forall|p: Seq<char>|
        #[trigger] path_routes(routes, p) == (if map_table(entries).dom().contains(p) {
            Some(map_table(entries)[p])
        } else {
            None
        }) by {
        lemma_view_routes(routes, p);
        lemma_path_result(entries, p);
    }
    assert(list_table(routes) =~= map_table(entries));
}

} // verus!
