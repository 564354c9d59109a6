use cargo_lambda::cargo_meta::Json;
use cargo_lambda::route_json::{route_list_from_json, routes_to_json};
use cargo_lambda::strmap::StringMap;
use cargo_lambda::watch::{pattern_fits, decode_route, merge_routes, FunctionRouter, FunctionRoutes, MatchError, Route};

fn multiple(pairs: &[(&str, &str)]) -> FunctionRoutes {
    FunctionRoutes::Multiple(StringMap::from_pairs(pairs))
}

#[test]
fn test_router_get() {
    let router = FunctionRouter::new();
    assert!(matches!(router.at("/api/v1/users", "GET"), Err(MatchError::NotFound)));

    let mut router = FunctionRouter::new();
    router.insert("/api/v1/users", FunctionRoutes::Single("user_handler".to_string())).unwrap();
    let (f, params) = router.at("/api/v1/users", "GET").unwrap();
    assert_eq!("user_handler", f);
    assert!(params.is_empty());
    let (f, _) = router.at("/api/v1/users", "POST").unwrap();
    assert_eq!("user_handler", f);

    let mut router = FunctionRouter::new();
    router
        .insert("/api/v1/users", multiple(&[("GET", "get_user"), ("POST", "create_user")]))
        .unwrap();
    assert_eq!("get_user", router.at("/api/v1/users", "GET").unwrap().0);
    assert_eq!("create_user", router.at("/api/v1/users", "POST").unwrap().0);
    assert!(matches!(router.at("/api/v1/users", "PUT"), Err(MatchError::NotFound)));

    let mut router = FunctionRouter::new();
    router.insert("/api/v1/users/{id}", FunctionRoutes::Single("user_handler".to_string())).unwrap();
    let (function, params) = router.at("/api/v1/users/1", "GET").unwrap();
    assert_eq!(function, "user_handler");
    assert_eq!(1, params.len());
    assert_eq!("1", params.get("id").unwrap());
}

#[test]
fn router_rejects_conflicting_routes() {
    let mut router = FunctionRouter::new();
    router.insert("/a", FunctionRoutes::Single("f".to_string())).unwrap();
    assert!(router.insert("/a", FunctionRoutes::Single("g".to_string())).is_err());
}

#[test]
fn routes_decode_and_merge() {
    let r = Route { path: "/a".to_string(), methods: Some(vec!["GET".to_string()]), function: "get".to_string() };
    let mut routes = decode_route(&r);
    assert_eq!(Some("get"), routes.at("GET"));
    assert_eq!(None, routes.at("POST"));

    let post = Route { path: "/a".to_string(), methods: Some(vec!["POST".to_string()]), function: "post".to_string() };
    merge_routes(&mut routes, &post);
    assert_eq!(Some("get"), routes.at("GET"));
    assert_eq!(Some("post"), routes.at("POST"));

    let all = Route { path: "/a".to_string(), methods: None, function: "all".to_string() };
    merge_routes(&mut routes, &all);
    assert_eq!(Some("all"), routes.at("DELETE"));

    merge_routes(&mut routes, &post);
    assert_eq!(Some("all"), routes.at("POST"));
    assert_eq!(None, routes.at("GET"));
}

#[test]
fn router_from_route_list() {
    let routes = vec![
        Route { path: "/api/v1/users".to_string(), methods: Some(vec!["GET".to_string()]), function: "get_user".to_string() },
        Route { path: "/api/v1/users".to_string(), methods: Some(vec!["POST".to_string()]), function: "create_user".to_string() },
        Route { path: "/api/v1/all".to_string(), methods: None, function: "all_methods".to_string() },
    ];
    let router = FunctionRouter::from_routes(routes).unwrap();
    assert!(!router.is_empty());
    assert_eq!("get_user", router.at("/api/v1/users", "GET").unwrap().0);
    assert_eq!("create_user", router.at("/api/v1/users", "POST").unwrap().0);
    assert_eq!("all_methods", router.at("/api/v1/all", "PATCH").unwrap().0);
    assert!(FunctionRouter::from_routes(vec![]).unwrap().is_empty());
}

fn s(v: &str) -> Json {
    Json::Str(v.to_string())
}

fn method_route(method: &str, function: &str) -> Json {
    Json::Object(vec![("method".to_string(), s(method)), ("function".to_string(), s(function))])
}

#[test]
fn function_routes_from_configuration_values() {
    match FunctionRoutes::from_json(&s("handler")) {
        Ok(FunctionRoutes::Single(f)) => assert_eq!(f, "handler"),
        other => panic!("unexpected {:?}", other),
    }
    let list = Json::Array(vec![method_route("GET", "get"), method_route("POST", "post"), method_route("GET", "get2")]);
    let routes = FunctionRoutes::from_json(&list).unwrap();
    assert_eq!(Some("get2"), routes.at("GET"));
    assert_eq!(Some("post"), routes.at("POST"));
    assert_eq!(None, routes.at("PUT"));
}

#[test]
fn function_routes_refuse_faulty_values() {
    let err = |j: Json| FunctionRoutes::from_json(&j).unwrap_err();
    assert_eq!(err(Json::Array(vec![s("GET")])), "Array items must be objects with method and function fields");
    assert_eq!(
        err(Json::Array(vec![Json::Object(vec![("function".to_string(), s("f"))])])),
        "Missing or invalid method field"
    );
    assert_eq!(
        err(Json::Array(vec![method_route("GET", "a"), Json::Object(vec![("method".to_string(), s("GET"))])])),
        "Missing or invalid function field"
    );
    assert_eq!(
        err(Json::Number("1".to_string())),
        "Function routes must be either a string or an array of objects with method and function fields"
    );
}

#[test]
fn router_from_route_list_merges_paths_in_order() {
    let routes = vec![
        Route { path: "/a".to_string(), methods: None, function: "all".to_string() },
        Route { path: "/a".to_string(), methods: Some(vec!["GET".to_string()]), function: "get".to_string() },
    ];
    let router = FunctionRouter::from_routes(routes).unwrap();
    assert_eq!("all", router.at("/a", "GET").unwrap().0);
    assert!(matches!(router.at("/a", "POST"), Err(MatchError::NotFound)));
    assert_eq!(router.routes().len(), 2);
}

#[test]
fn router_from_route_map_groups_methods_by_function() {
    let entries = vec![
        ("/a".to_string(), FunctionRoutes::Single("all".to_string())),
        ("/b".to_string(), multiple(&[("GET", "f"), ("POST", "g"), ("PUT", "f")])),
    ];
    let router = FunctionRouter::from_route_map(entries).unwrap();
    assert_eq!("all", router.at("/a", "DELETE").unwrap().0);
    assert_eq!("f", router.at("/b", "PUT").unwrap().0);
    assert_eq!("g", router.at("/b", "POST").unwrap().0);
    assert!(matches!(router.at("/b", "DELETE"), Err(MatchError::NotFound)));
    let raw = router.routes();
    assert_eq!(raw.len(), 3);
    assert_eq!((raw[0].path.as_str(), raw[0].methods.clone(), raw[0].function.as_str()), ("/a", None, "all"));
    assert_eq!(
        (raw[1].path.as_str(), raw[1].methods.clone(), raw[1].function.as_str()),
        ("/b", Some(vec!["GET".to_string(), "PUT".to_string()]), "f")
    );
    assert_eq!(
        (raw[2].path.as_str(), raw[2].methods.clone(), raw[2].function.as_str()),
        ("/b", Some(vec!["POST".to_string()]), "g")
    );
}

#[test]
fn router_from_route_map_reports_conflicting_path() {
    let entries = vec![
        ("/users/{id}".to_string(), FunctionRoutes::Single("a".to_string())),
        ("/users/{name}".to_string(), FunctionRoutes::Single("b".to_string())),
    ];
    match FunctionRouter::from_route_map(entries) {
        Err(e) => assert_eq!(e.path, "/users/{name}"),
        Ok(_) => panic!("conflicting routes were accepted"),
    }
}

fn json_of_toml(value: &toml::Value) -> Json {
    match value {
        toml::Value::String(s) => Json::Str(s.clone()),
        toml::Value::Integer(i) => Json::Number(i.to_string()),
        toml::Value::Float(f) => Json::Number(f.to_string()),
        toml::Value::Boolean(b) => Json::Bool(*b),
        toml::Value::Datetime(d) => Json::Str(d.to_string()),
        toml::Value::Array(items) => Json::Array(items.iter().map(json_of_toml).collect()),
        toml::Value::Table(t) => Json::Object(t.iter().map(|(k, v)| (k.clone(), json_of_toml(v))).collect()),
    }
}

fn router_of_toml(text: &str) -> FunctionRouter {
    let table: toml::Table = toml::from_str(text).unwrap();
    let mut entries = Vec::new();
    for (path, routes) in &table {
        entries.push((path.clone(), FunctionRoutes::from_json(&json_of_toml(routes)).unwrap()));
    }
    FunctionRouter::from_route_map(entries).unwrap()
}

const ROUTER_CONFIG: &str = r#"
            "/api/v1/users" = [
                { function = "get_user", method = "GET" },
                { function = "create_user", method = "POST" }
            ]
            "/api/v1/all_methods" = "all_methods"
        "#;

#[test]
fn test_router_deserialize() {
    let router = router_of_toml(ROUTER_CONFIG);
    let users = router.at("/api/v1/users", "GET").unwrap();
    assert_eq!(users.0, "get_user");
    assert_eq!(router.at("/api/v1/users", "POST").unwrap().0, "create_user");
    assert!(matches!(router.at("/api/v1/users", "PUT"), Err(MatchError::NotFound)));
    assert_eq!(router.at("/api/v1/all_methods", "GET").unwrap().0, "all_methods");
    assert_eq!(router.at("/api/v1/all_methods", "DELETE").unwrap().0, "all_methods");
}

fn route_key(r: &Route) -> (String, Option<Vec<String>>, String) {
    (r.path.clone(), r.methods.clone(), r.function.clone())
}

#[test]
fn test_router_serialize() {
    let router = router_of_toml(ROUTER_CONFIG);
    let json = routes_to_json(&router.routes());
    let routes: Vec<Route> = route_list_from_json(&json).unwrap();
    let new_router = FunctionRouter::from_routes(routes).unwrap();
    let old_raw: Vec<_> = router.routes().iter().map(route_key).collect();
    let new_raw: Vec<_> = new_router.routes().iter().map(route_key).collect();
    assert_eq!(new_raw, old_raw);
    assert_eq!(new_router.at("/api/v1/users", "GET").unwrap().0, "get_user");
    assert_eq!(new_router.at("/api/v1/users", "POST").unwrap().0, "create_user");
    assert_eq!(new_router.at("/api/v1/all_methods", "PATCH").unwrap().0, "all_methods");
}

#[test]
fn patterns_with_too_many_parameters_do_not_fit() {
    assert!(pattern_fits("/users/{id}/posts/{post}"));
    let many: String = (0..26).map(|i| format!("/{{p{i}}}")).collect();
    assert!(!pattern_fits(&many));
    let enough: String = (0..25).map(|i| format!("/{{p{i}}}")).collect();
    assert!(pattern_fits(&enough));
}

fn ok_route() -> Json {
    Json::Object(vec![
        ("path".to_string(), Json::Str("/a".to_string())),
        ("function".to_string(), Json::Str("f".to_string())),
    ])
}

#[test]
fn route_lists_report_their_first_faulty_route() {
    let bad_methods = Json::Object(vec![
        ("path".to_string(), Json::Str("/b".to_string())),
        ("methods".to_string(), Json::Str("GET".to_string())),
        ("function".to_string(), Json::Str("g".to_string())),
    ]);
    let no_function = Json::Object(vec![("path".to_string(), Json::Str("/c".to_string()))]);
    assert_eq!(
        route_list_from_json(&Json::Array(vec![ok_route(), Json::Null])).err().as_deref(),
        Some("a route must be an object with path and function fields")
    );
    assert_eq!(
        route_list_from_json(&Json::Array(vec![ok_route(), bad_methods])).err().as_deref(),
        Some("invalid methods field")
    );
    assert_eq!(
        route_list_from_json(&Json::Array(vec![no_function])).err().as_deref(),
        Some("missing or invalid function field")
    );
    assert_eq!(
        route_list_from_json(&Json::Str("x".to_string())).err().as_deref(),
        Some("routes must be a list of route objects")
    );
    let read = route_list_from_json(&Json::Array(vec![ok_route()])).unwrap();
    assert_eq!(read[0].path, "/a");
    assert!(read[0].methods.is_none());
    assert_eq!(read[0].function, "f");
}
