//! Routes written as JSON, as a router's routes are serialized, and read back.
//!
//! A route is an object with a `path`, the `methods` when it names some, and a `function`;
//! a list of routes is an array of them.
use vstd::prelude::*;
use crate::cargo_meta::{json_get, member_index, member_keys, Json};
use crate::config::first_named;
use crate::text::{opt_views, views};
use crate::watch::{route_view, str_member, Route, RouteView};

verus! {

/// The error of a route that is not an object.
pub open spec fn route_shape_message() -> Seq<char> {
    "a route must be an object with path and function fields"@
}

/// The error of a route without a string `path`.
pub open spec fn route_path_message() -> Seq<char> {
    "missing or invalid path field"@
}

/// The error of a route whose `methods` is not a list of strings.
pub open spec fn route_methods_message() -> Seq<char> {
    "invalid methods field"@
}

/// The error of a route without a string `function`.
pub open spec fn route_function_message() -> Seq<char> {
    "missing or invalid function field"@
}

/// The error of routes that are not a list.
pub open spec fn route_list_message() -> Seq<char> {
    "routes must be a list of route objects"@
}

/// The texts of a list of strings; `None` when an item is not a string.
pub open spec fn strs_of_json(items: Seq<Json>) -> Option<Seq<Seq<char>>>
    decreases items.len(),
{
    if items.len() == 0 {
        Some(Seq::empty())
    } else {
        match (strs_of_json(items.drop_last()), items.last()) {
            (Some(v), Json::Str(s)) => Some(v.push(s@)),
            _ => None,
        }
    }
}

/// The methods of a route: none when the member is missing or null, else a list of
/// strings; `Err` for anything else.
pub open spec fn methods_of_json(m: Option<Json>) -> Result<Option<Seq<Seq<char>>>, ()> {
    match m {
        None => Ok(None),
        Some(Json::Null) => Ok(None),
        Some(Json::Array(items)) => match strs_of_json(items@) {
            Some(v) => Ok(Some(v)),
            None => Err(()),
        },
        _ => Err(()),
    }
}

/// A route read from JSON: its path, methods and function, or what is wrong with it.
pub open spec fn route_of_json(j: Json) -> Result<RouteView, Seq<char>> {
    if !(j is Object) {
        Err(route_shape_message())
    } else {
        match str_member(j, "path"@) {
            None => Err(route_path_message()),
            Some(p) => match methods_of_json(json_get(j, "methods"@)) {
                Err(_) => Err(route_methods_message()),
                Ok(ms) => match str_member(j, "function"@) {
                    None => Err(route_function_message()),
                    Some(f) => Ok((p, ms, f)),
                },
            },
        }
    }
}

/// The routes of a list of items, or the error of the first faulty one.
pub open spec fn routes_of_items(items: Seq<Json>) -> Result<Seq<RouteView>, Seq<char>>
    decreases items.len(),
{
    if items.len() == 0 {
        Ok(Seq::empty())
    } else {
        match routes_of_items(items.drop_last()) {
            Err(e) => Err(e),
            Ok(v) => match route_of_json(items.last()) {
                Err(e) => Err(e),
                Ok(r) => Ok(v.push(r)),
            },
        }
    }
}

/// A list of routes read from JSON.
pub open spec fn route_list_of_json(j: Json) -> Result<Seq<RouteView>, Seq<char>> {
    match j {
        Json::Array(items) => routes_of_items(items@),
        _ => Err(route_list_message()),
    }
}

/// `items` are strings with the texts `texts`.
pub open spec fn strings_json(items: Seq<Json>, texts: Seq<Seq<char>>) -> bool {
    &&& items.len() == texts.len()
    &&& forall|i: int|
        0 <= i < items.len() ==> ((#[trigger] items[i]) matches Json::Str(s) && s@ == texts[i])
}

/// `j` is the route `r` as it is written: an object with the member `path`, then `methods`
/// when the route names methods, then `function`.
pub open spec fn route_json(j: Json, r: RouteView) -> bool {
    j matches Json::Object(ms) && {
        let n = ms@.len();
        &&& n == if r.1 is Some {
            3int
        } else {
            2int
        }
        &&& ms@[0].0@ == "path"@ && (ms@[0].1 matches Json::Str(p) && p@ == r.0)
        &&& r.1 matches Some(m) ==> ms@[1].0@ == "methods"@ && (ms@[1].1 matches Json::Array(
            items,
        ) && strings_json(items@, m))
        &&& ms@[n - 1].0@ == "function"@ && (ms@[n - 1].1 matches Json::Str(f) && f@ == r.2)
    }
}

/// `j` is the list of routes `rs` as it is written.
pub open spec fn route_list_json(j: Json, rs: Seq<RouteView>) -> bool {
    j matches Json::Array(items) && items@.len() == rs.len() && forall|i: int|
        0 <= i < rs.len() ==> route_json(#[trigger] items@[i], rs[i])
}

/// Strings read back as their texts.
proof fn lemma_strs_of_json(items: Seq<Json>, texts: Seq<Seq<char>>)
    requires
        strings_json(items, texts),
    ensures
        strs_of_json(items) == Some(texts),
    decreases items.len(),
{
    if items.len() > 0 {
        let n = items.len() - 1;
        assert(strings_json(items.drop_last(), texts.drop_last())) by {
            assert forall|i: int| 0 <= i < items.drop_last().len() implies ((#[trigger] items.drop_last()[i]) matches Json::Str(s) && s@ == texts.drop_last()[i]) by {
                assert(items.drop_last()[i] == items[i]);
            }
        }
        lemma_strs_of_json(items.drop_last(), texts.drop_last());
        assert(items.last() == items[n]);
        assert(texts.drop_last().push(texts[n]) =~= texts);
    }
}

/// A route as it is written reads back as the same route.
proof fn lemma_route_round_trip(j: Json, r: RouteView)
    requires
        route_json(j, r),
    ensures
        route_of_json(j) == Ok::<RouteView, Seq<char>>(r),
{
    reveal_strlit("path");
    reveal_strlit("methods");
    reveal_strlit("function");
    assert("path"@.len() == 4 && "methods"@.len() == 7 && "function"@.len() == 8);
    let ms = j->Object_0@;
    let keys = member_keys(ms);
    assert(ms[0].0@ == "path"@);
    assert(ms.len() >= 2);
    assert(keys.len() == ms.len());
    assert(keys[0] == ms[0].0@);
    assert(first_named(keys.take(1), "path"@) == 0) by {
        assert(keys.take(1).drop_last() =~= Seq::<Seq<char>>::empty());
        assert(keys.take(1).last() == keys[0]);
        reveal_with_fuel(first_named, 2);
    }
    if r.1 is Some {
        assert(keys[1] == ms[1].0@);
        assert(keys[2] == ms[2].0@);
        assert(keys.take(2).drop_last() =~= keys.take(1));
        assert(keys.take(2).last() == keys[1]);
        assert(keys.take(3) =~= keys);
        assert(keys.take(3).drop_last() =~= keys.take(2));
        assert(keys.take(3).last() == keys[2]);
        assert(first_named(keys.take(1), "methods"@) == -1) by {
            assert(keys.take(1).drop_last() =~= Seq::<Seq<char>>::empty());
            assert(keys.take(1).last() == keys[0]);
            reveal_with_fuel(first_named, 2);
        }
        assert(first_named(keys.take(1), "function"@) == -1) by {
            assert(keys.take(1).drop_last() =~= Seq::<Seq<char>>::empty());
            assert(keys.take(1).last() == keys[0]);
            reveal_with_fuel(first_named, 2);
        }
        assert(first_named(keys.take(2), "path"@) == 0);
        assert(first_named(keys.take(2), "methods"@) == 1);
        assert(first_named(keys.take(2), "function"@) == -1);
        assert(member_index(ms, "path"@) == 0);
        assert(member_index(ms, "methods"@) == 1);
        assert(member_index(ms, "function"@) == 2);
        let items = ms[1].1->Array_0;
        lemma_strs_of_json(items@, r.1->0);
    } else {
        assert(keys[1] == ms[1].0@);
        assert(keys.take(2) =~= keys);
        assert(keys.take(2).drop_last() =~= keys.take(1));
        assert(keys.take(2).last() == keys[1]);
        assert(first_named(keys.take(1), "methods"@) == -1) by {
            assert(keys.take(1).drop_last() =~= Seq::<Seq<char>>::empty());
            assert(keys.take(1).last() == keys[0]);
            reveal_with_fuel(first_named, 2);
        }
        assert(first_named(keys.take(1), "function"@) == -1) by {
            assert(keys.take(1).drop_last() =~= Seq::<Seq<char>>::empty());
            assert(keys.take(1).last() == keys[0]);
            reveal_with_fuel(first_named, 2);
        }
        assert(member_index(ms, "path"@) == 0);
        assert(member_index(ms, "methods"@) == -1);
        assert(member_index(ms, "function"@) == 1);
    }
}


/// Routes as they are written read back as the same routes.
proof fn lemma_routes_round_trip(items: Seq<Json>, rs: Seq<RouteView>)
    requires
        items.len() == rs.len(),
        forall|i: int| 0 <= i < rs.len() ==> route_json(#[trigger] items[i], rs[i]),
    ensures
        routes_of_items(items) == Ok::<Seq<RouteView>, Seq<char>>(rs),
    decreases items.len(),
{
    if items.len() > 0 {
        let n = items.len() - 1;
        assert forall|i: int| 0 <= i < rs.drop_last().len() implies route_json(
            #[trigger] items.drop_last()[i],
            rs.drop_last()[i],
        ) by {
            assert(items.drop_last()[i] == items[i]);
        }
        lemma_routes_round_trip(items.drop_last(), rs.drop_last());
        assert(items.last() == items[n]);
        assert(route_json(items[n], rs[n]));
        lemma_route_round_trip(items[n], rs[n]);
        assert(rs.drop_last().push(rs[n]) =~= rs);
    } else {
        assert(rs =~= Seq::<RouteView>::empty());
    }
}

/// A list of routes written as JSON reads back as the same routes, in the same order: a
/// router's routes, serialized and read again, are the routes it was built from.
pub proof fn law_routes_json_round_trip(j: Json, rs: Seq<RouteView>)
    requires
        route_list_json(j, rs),
    ensures
        route_list_of_json(j) == Ok::<Seq<RouteView>, Seq<char>>(rs),
{
    lemma_routes_round_trip(j->Array_0@, rs);
}

/// Strings as JSON.
fn strings_to_json(v: &Vec<String>) -> (res: Vec<Json>)
    ensures
        strings_json(res@, views(v@)),
{
    let mut out: Vec<Json> = Vec::new();
    let mut i: usize = 0;
    while i < v.len()
        invariant
            i <= v@.len(),
            out@.len() == i,
            forall|k: int| 0 <= k < i ==> ((#[trigger] out@[k]) matches Json::Str(s) && s@ == v@[k]@),
        decreases v@.len() - i,
    {
        out.push(Json::Str(v[i].clone()));
        i = i + 1;
    }
    out
}

/// A route as JSON: its path, its methods when it names some, and its function.
pub fn route_to_json(r: &Route) -> (res: Json)
    ensures
        route_json(res, route_view(*r)),
{
    let mut ms: Vec<(String, Json)> = Vec::new();
    ms.push((crate::text::owned("path"), Json::Str(r.path.clone())));
    match &r.methods {
        Some(m) => {
            ms.push((crate::text::owned("methods"), Json::Array(strings_to_json(m))));
        },
        None => {},
    }
    ms.push((crate::text::owned("function"), Json::Str(r.function.clone())));
    Json::Object(ms)
}

/// A list of routes as JSON.
pub fn routes_to_json(rs: &Vec<Route>) -> (res: Json)
    ensures
        route_list_json(res, rs@.map_values(|r: Route| route_view(r))),
{
    let mut items: Vec<Json> = Vec::new();
    let mut i: usize = 0;
    while i < rs.len()
        invariant
            i <= rs@.len(),
            items@.len() == i,
            forall|k: int| 0 <= k < i ==> route_json(#[trigger] items@[k], route_view(rs@[k])),
        decreases rs@.len() - i,
    {
        items.push(route_to_json(&rs[i]));
        i = i + 1;
    }
    let res = Json::Array(items);
    assert forall|k: int| 0 <= k < rs@.len() implies route_json(
        #[trigger] items@[k],
        rs@.map_values(|r: Route| route_view(r))[k],
    ) by {}
    res
}

/// The texts of a list of strings; `None` when an item is not a string.
fn strs_from_json(items: &Vec<Json>) -> (res: Option<Vec<String>>)
    ensures
        match res {
            Some(v) => strs_of_json(items@) == Some(views(v@)),
            None => strs_of_json(items@) is None,
        },
{
    let mut out: Vec<String> = Vec::new();
    let mut i: usize = 0;
    while i < items.len()
        invariant
            i <= items@.len(),
            strs_of_json(items@.take(i as int)) == Some(views(out@)),
        decreases items@.len() - i,
    {
        proof {
            assert(items@.take(i + 1).drop_last() =~= items@.take(i as int));
            assert(items@.take(i + 1).last() == items@[i as int]);
        }
        match &items[i] {
            Json::Str(s) => {
                let ghost before = out@;
                out.push(s.clone());
                assert(views(out@) =~= views(before).push(s@));
            },
            _ => {
                proof {
                    lemma_strs_none_after(items@, i as int);
                }
                return None;
            },
        }
        i = i + 1;
    }
    assert(items@.take(items@.len() as int) =~= items@);
    Some(out)
}

/// A prefix with an item that is not a string spoils the whole list.
proof fn lemma_strs_none_after(items: Seq<Json>, i: int)
    requires
        0 <= i < items.len(),
        !(items[i] is Str),
    ensures
        strs_of_json(items) is None,
    decreases items.len(),
{
    if i < items.len() - 1 {
        assert(items.drop_last()[i] == items[i]);
        lemma_strs_none_after(items.drop_last(), i);
    } else {
        assert(items.last() == items[i]);
    }
}

/// A route read from JSON, or what is wrong with it.
pub fn route_from_json(j: &Json) -> (res: Result<Route, String>)
    ensures
        match res {
            Ok(r) => route_of_json(*j) == Ok::<RouteView, Seq<char>>(route_view(r)),
            Err(e) => route_of_json(*j) == Err::<RouteView, Seq<char>>(e@),
        },
{
    if !j.is_object() {
        return Err(crate::text::owned("a route must be an object with path and function fields"));
    }
    let path = match j.get("path") {
        Some(Json::Str(p)) => p.clone(),
        _ => {
            return Err(crate::text::owned("missing or invalid path field"));
        },
    };
    let methods = match j.get("methods") {
        None => None,
        Some(Json::Null) => None,
        Some(Json::Array(items)) => match strs_from_json(items) {
            Some(v) => Some(v),
            None => {
                return Err(crate::text::owned("invalid methods field"));
            },
        },
        _ => {
            return Err(crate::text::owned("invalid methods field"));
        },
    };
    let function = match j.get("function") {
        Some(Json::Str(f)) => f.clone(),
        _ => {
            return Err(crate::text::owned("missing or invalid function field"));
        },
    };
    Ok(Route { path, methods, function })
}

/// A list of routes read from JSON, or the error of the first faulty route.
pub fn route_list_from_json(j: &Json) -> (res: Result<Vec<Route>, String>)
    ensures
        match res {
            Ok(rs) => route_list_of_json(*j) == Ok::<Seq<RouteView>, Seq<char>>(
                rs@.map_values(|r: Route| route_view(r)),
            ),
            Err(e) => route_list_of_json(*j) == Err::<Seq<RouteView>, Seq<char>>(e@),
        },
{
    let items = match j {
        Json::Array(items) => items,
        _ => {
            return Err(crate::text::owned("routes must be a list of route objects"));
        },
    };
    let mut out: Vec<Route> = Vec::new();
    let mut i: usize = 0;
    assert(items@.take(0) =~= Seq::<Json>::empty());
    assert(out@.map_values(|r: Route| route_view(r)) =~= Seq::<RouteView>::empty());
    while i < items.len()
        invariant
            *j == Json::Array(*items),
            i <= items@.len(),
            routes_of_items(items@.take(i as int)) == Ok::<Seq<RouteView>, Seq<char>>(
                out@.map_values(|r: Route| route_view(r)),
            ),
        decreases items@.len() - i,
    {
        proof {
            assert(items@.take(i + 1).drop_last() =~= items@.take(i as int));
            assert(items@.take(i + 1).last() == items@[i as int]);
        }
        match route_from_json(&items[i]) {
            Ok(r) => {
                let ghost before = out@;
                out.push(r);
                assert(out@.map_values(|r: Route| route_view(r)) =~= before.map_values(
                    |r: Route| route_view(r),
                ).push(route_view(r)));
            },
            Err(e) => {
                proof {
                    lemma_routes_error_after(items@, i as int);
                }
                return Err(e);
            },
        }
        i = i + 1;
    }
    assert(items@.take(items@.len() as int) =~= items@);
    Ok(out)
}

/// A faulty route after faultless ones is the error of the whole list.
proof fn lemma_routes_error_after(items: Seq<Json>, i: int)
    requires
        0 <= i < items.len(),
        routes_of_items(items.take(i)) is Ok,
        route_of_json(items[i]) is Err,
    ensures
        routes_of_items(items) == Err::<Seq<RouteView>, Seq<char>>(route_of_json(items[i])->Err_0),
    decreases items.len(),
{
    if i == items.len() - 1 {
        assert(items.drop_last() =~= items.take(i));
    } else {
        assert(items.drop_last().take(i) =~= items.take(i));
        assert(items.drop_last()[i] == items[i]);
        lemma_routes_error_after(items.drop_last(), i);
    }
}

} // verus!
