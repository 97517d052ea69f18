use fbapi::json::JsonValue;
use fbapi::user::{decode_picture, decode_user, encode_user, User, UserPicture};

fn s(t: &str) -> String {
    String::from(t)
}

fn obj(entries: Vec<(&str, JsonValue)>) -> JsonValue {
    JsonValue::Object(entries.into_iter().map(|(k, v)| (String::from(k), v)).collect())
}

#[test]
fn test_decode_user_basic() {
    let tree = obj(vec![
        ("id", JsonValue::Str(s("123"))),
        ("name", JsonValue::Str(s("Jane Doe"))),
        (
            "picture",
            obj(vec![(
                "data",
                obj(vec![
                    ("is_silhouette", JsonValue::Bool(false)),
                    ("url", JsonValue::Str(s("http://x"))),
                ]),
            )]),
        ),
    ]);
    let u = decode_user(&tree).unwrap();
    assert_eq!(u.id, "123");
    assert_eq!(u.name, Some(s("Jane Doe")));
    assert_eq!(u.gender, None);
    let p = u.picture.unwrap();
    assert!(!p.is_silhouette);
    assert_eq!(p.url, "http://x");
    assert_eq!(p.width, None);
    assert_eq!(p.height, None);
}

#[test]
fn test_decode_user_defaults() {
    let u = decode_user(&obj(vec![])).unwrap();
    assert_eq!(u.id, "");
    assert_eq!(u.gender, None);
    assert_eq!(u.first_name, None);
    assert_eq!(u.last_name, None);
    assert_eq!(u.name, None);
    assert!(u.picture.is_none());
}

#[test]
fn test_decode_user_null_clears_optional_string() {
    let tree = obj(vec![("gender", JsonValue::Null), ("name", JsonValue::Str(s("n")))]);
    let u = decode_user(&tree).unwrap();
    assert_eq!(u.gender, None);
    assert_eq!(u.name, Some(s("n")));
}

#[test]
fn test_decode_user_unknown_keys_ignored() {
    let tree = obj(vec![
        ("id", JsonValue::Str(s("7"))),
        ("birthday", JsonValue::Str(s("1990-01-01"))),
        ("likes", JsonValue::Int(44)),
    ]);
    let u = decode_user(&tree).unwrap();
    assert_eq!(u.id, "7");
}

#[test]
fn test_decode_user_bad_id_type_fails() {
    let tree = obj(vec![("id", JsonValue::Int(3))]);
    assert!(decode_user(&tree).is_none());
}

#[test]
fn test_decode_user_picture_data_null() {
    let tree = obj(vec![("picture", obj(vec![("data", JsonValue::Null)]))]);
    let u = decode_user(&tree).unwrap();
    assert!(u.picture.is_none());
}

#[test]
fn test_decode_user_picture_missing_data_fails() {
    let tree = obj(vec![("picture", obj(vec![("height", JsonValue::Int(50))]))]);
    assert!(decode_user(&tree).is_none());
}

#[test]
fn test_decode_user_picture_not_object_fails() {
    let tree = obj(vec![("picture", JsonValue::Str(s("url")))]);
    assert!(decode_user(&tree).is_none());
}

#[test]
fn test_decode_picture_required_fields() {
    let tree = obj(vec![
        ("is_silhouette", JsonValue::Bool(true)),
        ("url", JsonValue::Str(s("u"))),
    ]);
    let p = decode_picture(&tree).unwrap();
    assert!(p.is_silhouette);
    assert_eq!(p.url, "u");
    assert_eq!(p.width, None);
    assert_eq!(p.height, None);
}

#[test]
fn test_decode_picture_missing_url_fails() {
    let tree = obj(vec![("is_silhouette", JsonValue::Bool(true))]);
    assert!(decode_picture(&tree).is_none());
}

#[test]
fn test_decode_picture_dimensions() {
    let tree = obj(vec![
        ("is_silhouette", JsonValue::Bool(false)),
        ("url", JsonValue::Str(s("u"))),
        ("width", JsonValue::Int(200)),
        ("height", JsonValue::Int(100)),
    ]);
    let p = decode_picture(&tree).unwrap();
    assert_eq!(p.width, Some(200));
    assert_eq!(p.height, Some(100));
}

#[test]
fn test_decode_picture_dimension_out_of_range_fails() {
    let neg = obj(vec![
        ("is_silhouette", JsonValue::Bool(false)),
        ("url", JsonValue::Str(s("u"))),
        ("width", JsonValue::Int(-1)),
    ]);
    assert!(decode_picture(&neg).is_none());
    let huge = obj(vec![
        ("is_silhouette", JsonValue::Bool(false)),
        ("url", JsonValue::Str(s("u"))),
        ("height", JsonValue::Int(5_000_000_000)),
    ]);
    assert!(decode_picture(&huge).is_none());
}

#[test]
fn test_new_empty() {
    let u = User::new_empty();
    assert_eq!(u.id, "");
    assert!(u.gender.is_none() && u.first_name.is_none() && u.last_name.is_none());
    assert!(u.name.is_none() && u.picture.is_none());
}

#[test]
fn test_encode_decode_round_trip_full() {
    let u = User {
        id: s("99"),
        gender: Some(s("female")),
        first_name: Some(s("Jane")),
        last_name: Some(s("Doe")),
        name: Some(s("Jane Doe")),
        picture: Some(UserPicture {
            is_silhouette: false,
            url: s("http://pic"),
            width: Some(320),
            height: Some(240),
        }),
    };
    let back = decode_user(&encode_user(&u)).unwrap();
    assert_eq!(back.id, u.id);
    assert_eq!(back.gender, u.gender);
    assert_eq!(back.first_name, u.first_name);
    assert_eq!(back.last_name, u.last_name);
    assert_eq!(back.name, u.name);
    let bp = back.picture.unwrap();
    let up = u.picture.unwrap();
    assert_eq!(bp.is_silhouette, up.is_silhouette);
    assert_eq!(bp.url, up.url);
    assert_eq!(bp.width, up.width);
    assert_eq!(bp.height, up.height);
}

#[test]
fn test_encode_decode_round_trip_minimal() {
    let u = User {
        id: s(""),
        gender: None,
        first_name: None,
        last_name: None,
        name: None,
        picture: None,
    };
    let back = decode_user(&encode_user(&u)).unwrap();
    assert_eq!(back.id, "");
    assert!(back.gender.is_none() && back.name.is_none() && back.picture.is_none());
}
