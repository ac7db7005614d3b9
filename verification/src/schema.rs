//! Structured decoding of model output: the route schema the backend agent
//! extracts from generated code, and the scope flags a scoping agent
//! derives. The JSON reading itself is done by an outside parser; everything
//! the pipeline needs from the decoded values is extracted by verified code.

use vstd::prelude::*;
use vstd::string::StringExecFns;
use crate::agent_traits::{ProjectScope, RouteObject};

verus! {

/// First-match lookup in an association list.
pub open spec fn lookup<V>(pairs: Seq<(Seq<char>, V)>, key: Seq<char>) -> Option<V>
    decreases pairs.len(),
{
    if pairs.len() == 0 {
        None
    } else if pairs[0].0 == key {
        Some(pairs[0].1)
    } else {
        lookup(pairs.drop_first(), key)
    }
}

/// What `serde_json::from_str`, read at a list of string-to-string objects,
/// returns for the given text: a function of the text alone. `None` stands
/// for a parse error.
pub uninterp spec fn string_maps_of(s: Seq<char>) -> Option<Seq<Seq<(Seq<char>, Seq<char>)>>>;

/// Relies on serde_json::from_str: parses JSON text as a list of objects
/// whose values are all strings; deterministic in the text alone.
#[verifier::external_body]
fn decode_string_maps(s: &str) -> (r: Option<Vec<Vec<(String, String)>>>)
    ensures
        r is Some <==> string_maps_of(s@) is Some,
        r matches Some(v) ==> string_maps_of(s@) == Some(v.deep_view()),
{
    match serde_json::from_str::<Vec<std::collections::BTreeMap<String, String>>>(s) {
        Ok(maps) => Some(maps.into_iter().map(|m| m.into_iter().collect()).collect()),
        Err(_) => None,
    }
}

/// What `serde_json::from_str`, read at an object of boolean fields, returns
/// for the given text: a function of the text alone. `None` stands for a
/// parse error.
pub uninterp spec fn bool_pairs_of(s: Seq<char>) -> Option<Seq<(Seq<char>, bool)>>;

/// Relies on serde_json::from_str: parses JSON text as one object whose
/// values are all booleans; deterministic in the text alone.
#[verifier::external_body]
fn decode_bool_pairs(s: &str) -> (r: Option<Vec<(String, bool)>>)
    ensures
        r is Some <==> bool_pairs_of(s@) is Some,
        r matches Some(v) ==> bool_pairs_of(s@) == Some(v.deep_view()),
{
    match serde_json::from_str::<std::collections::BTreeMap<String, bool>>(s) {
        Ok(pairs) => Some(pairs.into_iter().collect()),
        Err(_) => None,
    }
}

/// First-match lookup of a string value, following `lookup` exactly.
fn lookup_string(pairs: &Vec<(String, String)>, key: &String) -> (r: Option<String>)
    ensures
        match r {
            Some(v) => lookup(pairs.deep_view(), key@) == Some(v@),
            None => lookup(pairs.deep_view(), key@) is None,
        },
{
    let ghost all = pairs.deep_view();
    proof {
        assert(all.subrange(0, all.len() as int) =~= all);
    }
    let mut i: usize = 0;
    while i < pairs.len()
        invariant
            i <= pairs.len(),
            all == pairs.deep_view(),
            lookup(all, key@) == lookup(all.subrange(i as int, all.len() as int), key@),
        decreases pairs.len() - i,
    {
        proof {
            assert(all.subrange(i as int, all.len() as int)[0] == all[i as int]);
        }
        if pairs[i].0 == *key {
            return Some(pairs[i].1.clone());
        }
        proof {
            assert(all.subrange(i as int, all.len() as int).drop_first() =~= all.subrange(
                i + 1 as int,
                all.len() as int,
            ));
        }
        i = i + 1;
    }
    proof {
        assert(all.subrange(i as int, all.len() as int).len() == 0);
    }
    None
}

/// First-match lookup of a boolean value, following `lookup` exactly.
fn lookup_flag(pairs: &Vec<(String, bool)>, key: &String) -> (r: Option<bool>)
    ensures
        r == lookup(pairs.deep_view(), key@),
{
    let ghost all = pairs.deep_view();
    proof {
        assert(all.subrange(0, all.len() as int) =~= all);
    }
    let mut i: usize = 0;
    while i < pairs.len()
        invariant
            i <= pairs.len(),
            all == pairs.deep_view(),
            lookup(all, key@) == lookup(all.subrange(i as int, all.len() as int), key@),
        decreases pairs.len() - i,
    {
        proof {
            assert(all.subrange(i as int, all.len() as int)[0] == all[i as int]);
        }
        if pairs[i].0 == *key {
            return Some(pairs[i].1);
        }
        proof {
            assert(all.subrange(i as int, all.len() as int).drop_first() =~= all.subrange(
                i + 1 as int,
                all.len() as int,
            ));
        }
        i = i + 1;
    }
    proof {
        assert(all.subrange(i as int, all.len() as int).len() == 0);
    }
    None
}

/// The route one decoded object describes: its `path` and `method` fields,
/// or nothing if either is missing.
pub open spec fn route_of_map(map: Seq<(Seq<char>, Seq<char>)>) -> Option<(Seq<char>, Seq<char>)> {
    match (lookup(map, "path"@), lookup(map, "method"@)) {
        (Some(p), Some(m)) => Some((p, m)),
        _ => None,
    }
}

/// The routes a decoded object list describes: one per object, or nothing if
/// any object lacks a `path` or a `method` field.
pub open spec fn routes_spec(maps: Seq<Seq<(Seq<char>, Seq<char>)>>) -> Option<
    Seq<(Seq<char>, Seq<char>)>,
> {
    if forall|i: int| 0 <= i < maps.len() ==> route_of_map(maps[i]) is Some {
        Some(Seq::new(maps.len(), |i: int| route_of_map(maps[i])->Some_0))
    } else {
        None
    }
}

/// Extracts the route of every decoded object, following `routes_spec`
/// exactly.
pub fn routes_from_maps(maps: &Vec<Vec<(String, String)>>) -> (r: Option<Vec<RouteObject>>)
    ensures
        r is Some <==> routes_spec(maps.deep_view()) is Some,
        r matches Some(v) ==> {
            let pairs = routes_spec(maps.deep_view())->Some_0;
            &&& v@.len() == pairs.len()
            &&& forall|i: int|
                0 <= i < pairs.len() ==> v@[i].path@ == pairs[i].0 && v@[i].method@ == pairs[i].1
        },
{
    let ghost all = maps.deep_view();
    let path_key = String::from_str("path");
    let method_key = String::from_str("method");
    let mut out: Vec<RouteObject> = Vec::new();
    let mut i: usize = 0;
    while i < maps.len()
        invariant
            i <= maps.len(),
            all == maps.deep_view(),
            path_key@ == "path"@,
            method_key@ == "method"@,
            out@.len() == i,
            forall|j: int|
                0 <= j < i ==> route_of_map(all[j]) is Some && out@[j].path@ == route_of_map(
                    all[j],
                )->Some_0.0 && out@[j].method@ == route_of_map(all[j])->Some_0.1,
        decreases maps.len() - i,
    {
        let path = lookup_string(&maps[i], &path_key);
        let method = lookup_string(&maps[i], &method_key);
        match (path, method) {
            (Some(p), Some(m)) => {
                out.push(RouteObject { path: p, method: m });
            },
            _ => {
                proof {
                    assert(route_of_map(all[i as int]) is None);
                }
                return None;
            },
        }
        i = i + 1;
    }
    Some(out)
}

/// The routes the given text describes, through the outside parser and then
/// `routes_spec`.
pub open spec fn parsed_routes(s: Seq<char>) -> Option<Seq<(Seq<char>, Seq<char>)>> {
    match string_maps_of(s) {
        Some(maps) => routes_spec(maps),
        None => None,
    }
}

/// Decodes model output into route objects: parses the text as a list of
/// string objects and extracts each one's `path` and `method`. `None` means
/// the decode failed, which callers treat as fatal.
pub fn parse_route_schema(s: &str) -> (r: Option<Vec<RouteObject>>)
    ensures
        r is Some <==> parsed_routes(s@) is Some,
        r matches Some(v) ==> {
            let pairs = parsed_routes(s@)->Some_0;
            &&& v@.len() == pairs.len()
            &&& forall|i: int|
                0 <= i < pairs.len() ==> v@[i].path@ == pairs[i].0 && v@[i].method@ == pairs[i].1
        },
{
    match decode_string_maps(s) {
        Some(maps) => routes_from_maps(&maps),
        None => None,
    }
}

/// The scope one decoded object of boolean fields describes, or nothing if
/// any flag is missing.
pub open spec fn scope_of_pairs(pairs: Seq<(Seq<char>, bool)>) -> Option<ProjectScope> {
    match (
        lookup(pairs, "is_crud_required"@),
        lookup(pairs, "is_user_login_and_logout"@),
        lookup(pairs, "is_external_urls_required"@),
    ) {
        (Some(c), Some(l), Some(u)) => Some(
            ProjectScope {
                is_crud_required: c,
                is_user_login_and_logout: l,
                is_external_urls_required: u,
            },
        ),
        _ => None,
    }
}

/// The scope the given text describes, through the outside parser and then
/// `scope_of_pairs`.
pub open spec fn parsed_scope(s: Seq<char>) -> Option<ProjectScope> {
    match bool_pairs_of(s) {
        Some(pairs) => scope_of_pairs(pairs),
        None => None,
    }
}

/// Decodes model output into the project scope flags. `None` means the
/// decode failed, which callers treat as fatal.
pub fn parse_project_scope(s: &str) -> (r: Option<ProjectScope>)
    ensures
        r == parsed_scope(s@),
{
    let pairs = match decode_bool_pairs(s) {
        Some(pairs) => pairs,
        None => {
            return None;
        },
    };
    let crud = lookup_flag(&pairs, &String::from_str("is_crud_required"));
    let login = lookup_flag(&pairs, &String::from_str("is_user_login_and_logout"));
    let urls = lookup_flag(&pairs, &String::from_str("is_external_urls_required"));
    match (crud, login, urls) {
        (Some(c), Some(l), Some(u)) => Some(
            ProjectScope {
                is_crud_required: c,
                is_user_login_and_logout: l,
                is_external_urls_required: u,
            },
        ),
        _ => None,
    }
}

} // verus!
