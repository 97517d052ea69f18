use fbapi::graph::{Edge, Method};

#[test]
fn test_method_to_str() {
    assert_eq!(Method::Get.to_str(), "GET");
    assert_eq!(Method::Post.to_str(), "POST");
    assert_eq!(Method::Update.to_str(), "UPDATE");
    assert_eq!(Method::Delete.to_str(), "DELETE");
}

#[test]
fn test_user_edge_path() {
    let e = Edge::user("42");
    assert_eq!(e.get_path(), "/42");
    let me = Edge::user_me();
    assert_eq!(me.get_path(), "/me");
}

#[test]
fn test_body_empty_edge_ends_with_method() {
    let e = Edge::user_me();
    assert_eq!(e.build_body(), "&method=GET");
}

#[test]
fn test_body_fields_comma_joined() {
    let mut e = Edge::user_me();
    e.add_fields(vec!["a", "b", "c"]);
    assert_eq!(e.build_body(), "fields=a,b,c&method=GET");
}

#[test]
fn test_body_single_field_no_comma() {
    let mut e = Edge::user_me();
    e.add_fields(vec!["a"]);
    assert_eq!(e.build_body(), "fields=a&method=GET");
}

#[test]
fn test_body_parameters_in_order() {
    let mut e = Edge::user("42");
    e.add_parameters(vec![("height", "200"), ("width", "100")]);
    assert_eq!(e.build_body(), "&height=200&width=100&method=GET");
}

#[test]
fn test_body_ends_with_method_always() {
    let mut e = Edge::user_me();
    e.add_fields(vec!["id"]);
    e.add_parameters(vec![("k", "v")]);
    e.set_method(Method::Post);
    let b = e.build_body();
    assert!(b.ends_with("&method=POST"));
    assert_eq!(b, "fields=id&k=v&method=POST");
}

#[test]
fn test_set_method_overwrites() {
    let mut e = Edge::user_me();
    e.set_method(Method::Delete);
    e.set_method(Method::Update);
    assert_eq!(e.build_body(), "&method=UPDATE");
}

#[test]
fn test_build_body_idempotent() {
    let mut e = Edge::user_me();
    e.add_fields(vec!["id", "name"]);
    e.add_parameters(vec![("redirect", "false")]);
    let b1 = e.build_body();
    let b2 = e.build_body();
    assert_eq!(b1, b2);
}

#[test]
fn test_fields_appended_across_calls() {
    let mut e = Edge::user_me();
    e.add_fields(vec!["id"]);
    e.add_fields(vec!["id", "name"]);
    assert_eq!(e.build_body(), "fields=id,id,name&method=GET");
}
