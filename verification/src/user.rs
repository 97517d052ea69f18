//! The user models and their decode mappings: field-by-field decoding of
//! a JSON tree, with the nested `picture.data` unwrap kept as an explicit
//! special case.

use vstd::prelude::*;
use vstd::string::*;
use crate::json::{JsonValue, spec_lookup, lookup};
use crate::model::FBModel;

verus! {

/// The spec-level image of a [`UserPicture`].
#[verifier::ext_equal]
pub struct UserPictureView {
    pub is_silhouette: bool,
    pub url: Seq<char>,
    pub width: Option<u32>,
    pub height: Option<u32>,
}

/// The spec-level image of a [`User`].
#[verifier::ext_equal]
pub struct UserView {
    pub id: Seq<char>,
    pub gender: Option<Seq<char>>,
    pub first_name: Option<Seq<char>>,
    pub last_name: Option<Seq<char>>,
    pub name: Option<Seq<char>>,
    pub picture: Option<UserPictureView>,
}

/// A user's picture.
#[derive(Debug, Clone)]
pub struct UserPicture {
    pub is_silhouette: bool,
    pub url: String,
    /// Width of the picture — only filled when requesting a picture via
    /// the picture edge, not when requesting it as a field of a user.
    pub width: Option<u32>,
    /// Height of the picture — only filled when requesting a picture via
    /// the picture edge, not when requesting it as a field of a user.
    pub height: Option<u32>,
}

/// A user of the graph API. Fields the API documents but this library
/// does not model are ignored by the decoder.
#[derive(Debug, Clone)]
pub struct User {
    /// The user's app-specific id; left empty when the response does not
    /// carry one.
    pub id: String,
    /// The user's gender, when the response carries one.
    pub gender: Option<String>,
    pub first_name: Option<String>,
    pub last_name: Option<String>,
    /// The user's full name.
    pub name: Option<String>,
    /// The user's picture, when requested as a field of the user. On the
    /// wire it arrives wrapped one level deeper, as `{"data": {...}}`.
    pub picture: Option<UserPicture>,
}

/// The view of an optional string, field for field.
pub open spec fn opt_str_view(o: Option<String>) -> Option<Seq<char>> {
    match o {
        Some(s) => Some(s@),
        None => None,
    }
}

/// The view of an optional picture, field for field.
pub open spec fn opt_pic_view(o: Option<UserPicture>) -> Option<UserPictureView> {
    match o {
        Some(p) => Some(p@),
        None => None,
    }
}

impl View for UserPicture {
    type V = UserPictureView;

    open spec fn view(&self) -> UserPictureView {
        UserPictureView {
            is_silhouette: self.is_silhouette,
            url: self.url@,
            width: self.width,
            height: self.height,
        }
    }
}

impl View for User {
    type V = UserView;

    open spec fn view(&self) -> UserView {
        UserView {
            id: self.id@,
            gender: opt_str_view(self.gender),
            first_name: opt_str_view(self.first_name),
            last_name: opt_str_view(self.last_name),
            name: opt_str_view(self.name),
            picture: opt_pic_view(self.picture),
        }
    }
}

/// Whether one member of a picture object obeys its field's type rule;
/// a key the picture does not know obeys trivially.
pub open spec fn picture_entry_ok(k: Seq<char>, v: JsonValue) -> bool {
    if k == "is_silhouette"@ {
        v is Bool
    } else if k == "url"@ {
        v is Str
    } else if k == "width"@ || k == "height"@ {
        v is Null || (v matches JsonValue::Int(n) && 0 <= n <= u32::MAX)
    } else {
        true
    }
}

/// The value of an optional dimension field: set only by an integral
/// member, absent or null leaves it unset.
pub open spec fn spec_opt_dim(v: Option<JsonValue>) -> Option<u32> {
    match v {
        Some(JsonValue::Int(n)) => Some(n as u32),
        _ => None,
    }
}

/// The decode mapping of [`UserPicture`]: an object whose known members
/// are well-typed and which carries `is_silhouette` and `url`; anything
/// else fails. When a key repeats, the last occurrence wins.
pub open spec fn spec_decode_picture(v: JsonValue) -> Option<UserPictureView> {
    match v {
        JsonValue::Object(es) => if (forall|i: int|
            0 <= i < es@.len() ==> picture_entry_ok(#[trigger] es@[i].0@, es@[i].1))
            && (spec_lookup(es@, "is_silhouette"@) matches Some(JsonValue::Bool(_)))
            && (spec_lookup(es@, "url"@) matches Some(JsonValue::Str(_))) {
            Some(
                UserPictureView {
                    is_silhouette: (match spec_lookup(es@, "is_silhouette"@) {
                        Some(JsonValue::Bool(b)) => b,
                        _ => false,
                    }),
                    url: (match spec_lookup(es@, "url"@) {
                        Some(JsonValue::Str(s)) => s@,
                        _ => Seq::empty(),
                    }),
                    width: spec_opt_dim(spec_lookup(es@, "width"@)),
                    height: spec_opt_dim(spec_lookup(es@, "height"@)),
                },
            )
        } else {
            None
        },
        _ => None,
    }
}

/// Decode a JSON tree as a picture object.
#[verifier::loop_isolation(false)]
pub fn decode_picture(v: &JsonValue) -> (r: Option<UserPicture>)
    ensures
        (match r {
            Some(p) => spec_decode_picture(*v) == Some(p@),
            None => spec_decode_picture(*v) is None,
        }),
{
    let es = match v {
        JsonValue::Object(es) => es,
        _ => {
            return None;
        },
    };
    let k_sil = String::from_str("is_silhouette");
    let k_url = String::from_str("url");
    let k_width = String::from_str("width");
    let k_height = String::from_str("height");
    let n = es.len();
    let mut sil: Option<bool> = None;
    let mut url: Option<String> = None;
    let mut width: Option<u32> = None;
    let mut height: Option<u32> = None;
    let mut i: usize = 0;
    while i < n
        invariant
            i <= n,
            n == es.len(),
            k_sil@ == "is_silhouette"@,
            k_url@ == "url"@,
            k_width@ == "width"@,
            k_height@ == "height"@,
            forall|k: int| 0 <= k < i ==> picture_entry_ok(#[trigger] es@[k].0@, es@[k].1),
            (match spec_lookup(es@.take(i as int), "is_silhouette"@) {
                Some(JsonValue::Bool(b)) => sil == Some(b),
                Some(_) => false,
                None => sil is None,
            }),
            (match spec_lookup(es@.take(i as int), "url"@) {
                Some(JsonValue::Str(s)) => url matches Some(u) && u@ == s@,
                Some(_) => false,
                None => url is None,
            }),
            width == spec_opt_dim(spec_lookup(es@.take(i as int), "width"@)),
            height == spec_opt_dim(spec_lookup(es@.take(i as int), "height"@)),
        decreases n - i,
    {
        proof {
            reveal_strlit("is_silhouette");
            reveal_strlit("url");
            reveal_strlit("width");
            reveal_strlit("height");
            let cur = es@.take(i + 1);
            assert(cur.last() == es@[i as int]);
            assert(cur.drop_last() =~= es@.take(i as int));
            assert("is_silhouette"@.len() == 13 && "url"@.len() == 3 && "width"@.len() == 5
                && "height"@.len() == 6);
        }
        if es[i].0 == k_sil {
            match &es[i].1 {
                JsonValue::Bool(b) => {
                    sil = Some(*b);
                },
                _ => {
                    proof {
                        assert(!picture_entry_ok(es@[i as int].0@, es@[i as int].1));
                    }
                    return None;
                },
            }
        } else if es[i].0 == k_url {
            match &es[i].1 {
                JsonValue::Str(s) => {
                    url = Some(s.clone());
                },
                _ => {
                    proof {
                        assert(!picture_entry_ok(es@[i as int].0@, es@[i as int].1));
                    }
                    return None;
                },
            }
        } else if es[i].0 == k_width {
            match &es[i].1 {
                JsonValue::Null => {
                    width = None;
                },
                JsonValue::Int(d) => {
                    if *d < 0 || *d > u32::MAX as i64 {
                        proof {
                            assert(!picture_entry_ok(es@[i as int].0@, es@[i as int].1));
                        }
                        return None;
                    }
                    width = Some(*d as u32);
                },
                _ => {
                    proof {
                        assert(!picture_entry_ok(es@[i as int].0@, es@[i as int].1));
                    }
                    return None;
                },
            }
        } else if es[i].0 == k_height {
            match &es[i].1 {
                JsonValue::Null => {
                    height = None;
                },
                JsonValue::Int(d) => {
                    if *d < 0 || *d > u32::MAX as i64 {
                        proof {
                            assert(!picture_entry_ok(es@[i as int].0@, es@[i as int].1));
                        }
                        return None;
                    }
                    height = Some(*d as u32);
                },
                _ => {
                    proof {
                        assert(!picture_entry_ok(es@[i as int].0@, es@[i as int].1));
                    }
                    return None;
                },
            }
        }
        i = i + 1;
    }
    proof {
        assert(es@.take(n as int) =~= es@);
    }
    match (sil, url) {
        (Some(b), Some(u)) => Some(
            UserPicture { is_silhouette: b, url: u, width, height },
        ),
        _ => None,
    }
}

/// Whether a `picture` member of a user object has the shape the wire
/// format promises: an object wrapping the picture one level deeper under
/// `data`, whose value is null or a decodable picture. Anything else is a
/// structural mismatch, reported as a decode failure rather than dropped.
pub open spec fn picture_field_ok(v: JsonValue) -> bool {
    match v {
        JsonValue::Object(es) => (match spec_lookup(es@, "data"@) {
            Some(d) => d is Null || spec_decode_picture(d) is Some,
            None => false,
        }),
        _ => false,
    }
}

/// The picture a well-formed `picture` member carries: none when `data`
/// is null.
pub open spec fn spec_picture_of(v: JsonValue) -> Option<UserPictureView> {
    match v {
        JsonValue::Object(es) => (match spec_lookup(es@, "data"@) {
            Some(d) => spec_decode_picture(d),
            None => None,
        }),
        _ => None,
    }
}

/// Whether one member of a user object obeys its field's type rule; a key
/// the user does not know obeys trivially, and a null clears an optional
/// string field.
pub open spec fn user_entry_ok(k: Seq<char>, v: JsonValue) -> bool {
    if k == "id"@ {
        v is Str
    } else if k == "gender"@ || k == "first_name"@ || k == "last_name"@ || k == "name"@ {
        v is Str || v is Null
    } else if k == "picture"@ {
        picture_field_ok(v)
    } else {
        true
    }
}

/// The value of an optional string field: set only by a string member.
pub open spec fn spec_opt_str(v: Option<JsonValue>) -> Option<Seq<char>> {
    match v {
        Some(JsonValue::Str(s)) => Some(s@),
        _ => None,
    }
}

/// The decode mapping of [`User`]: an object whose known members are all
/// well-typed; unknown keys are ignored, absent fields stay at their
/// defaults, and when a key repeats the last occurrence wins.
pub open spec fn spec_decode_user(v: JsonValue) -> Option<UserView> {
    match v {
        JsonValue::Object(es) => if (forall|i: int|
            0 <= i < es@.len() ==> user_entry_ok(#[trigger] es@[i].0@, es@[i].1)) {
            Some(
                UserView {
                    id: (match spec_lookup(es@, "id"@) {
                        Some(JsonValue::Str(s)) => s@,
                        _ => Seq::empty(),
                    }),
                    gender: spec_opt_str(spec_lookup(es@, "gender"@)),
                    first_name: spec_opt_str(spec_lookup(es@, "first_name"@)),
                    last_name: spec_opt_str(spec_lookup(es@, "last_name"@)),
                    name: spec_opt_str(spec_lookup(es@, "name"@)),
                    picture: (match spec_lookup(es@, "picture"@) {
                        Some(p) => spec_picture_of(p),
                        None => None,
                    }),
                },
            )
        } else {
            None
        },
        _ => None,
    }
}

impl User {
    /// A user with every field at its decode default: an empty id and
    /// nothing else set.
    pub fn new_empty() -> (r: User)
        ensures
            r@ == (UserView {
                id: Seq::<char>::empty(),
                gender: None,
                first_name: None,
                last_name: None,
                name: None,
                picture: None,
            }),
    {
        let r = User {
            id: String::new(),
            gender: None,
            first_name: None,
            last_name: None,
            name: None,
            picture: None,
        };
        proof {
            assert(r@ =~= (UserView {
                id: Seq::<char>::empty(),
                gender: None,
                first_name: None,
                last_name: None,
                name: None,
                picture: None,
            }));
        }
        r
    }
}

/// Decode a JSON tree as a user object, unwrapping `picture.data`.
#[verifier::loop_isolation(false)]
pub fn decode_user(v: &JsonValue) -> (r: Option<User>)
    ensures
        (match r {
            Some(u) => spec_decode_user(*v) == Some(u@),
            None => spec_decode_user(*v) is None,
        }),
{
    let es = match v {
        JsonValue::Object(es) => es,
        _ => {
            return None;
        },
    };
    let k_id = String::from_str("id");
    let k_gender = String::from_str("gender");
    let k_first = String::from_str("first_name");
    let k_last = String::from_str("last_name");
    let k_name = String::from_str("name");
    let k_picture = String::from_str("picture");
    let k_data = String::from_str("data");
    let n = es.len();
    let mut res = User::new_empty();
    let mut i: usize = 0;
    while i < n
        invariant
            i <= n,
            n == es.len(),
            forall|k: int| 0 <= k < i ==> user_entry_ok(#[trigger] es@[k].0@, es@[k].1),
            res@.id == (match spec_lookup(es@.take(i as int), "id"@) {
                Some(JsonValue::Str(s)) => s@,
                _ => Seq::<char>::empty(),
            }),
            res@.gender == spec_opt_str(spec_lookup(es@.take(i as int), "gender"@)),
            res@.first_name == spec_opt_str(spec_lookup(es@.take(i as int), "first_name"@)),
            res@.last_name == spec_opt_str(spec_lookup(es@.take(i as int), "last_name"@)),
            res@.name == spec_opt_str(spec_lookup(es@.take(i as int), "name"@)),
            res@.picture == (match spec_lookup(es@.take(i as int), "picture"@) {
                Some(p) => spec_picture_of(p),
                None => None::<UserPictureView>,
            }),
        decreases n - i,
    {
        proof {
            reveal_strlit("id");
            reveal_strlit("gender");
            reveal_strlit("first_name");
            reveal_strlit("last_name");
            reveal_strlit("name");
            reveal_strlit("picture");
            reveal_strlit("data");
            let cur = es@.take(i + 1);
            assert(cur.last() == es@[i as int]);
            assert(cur.drop_last() =~= es@.take(i as int));
            assert("id"@.len() == 2 && "gender"@.len() == 6 && "first_name"@.len() == 10
                && "last_name"@.len() == 9 && "name"@.len() == 4 && "picture"@.len() == 7);
        }
        if es[i].0 == k_id {
            match &es[i].1 {
                JsonValue::Str(s) => {
                    res.id = s.clone();
                },
                _ => {
                    proof {
                        assert(!user_entry_ok(es@[i as int].0@, es@[i as int].1));
                    }
                    return None;
                },
            }
        } else if es[i].0 == k_gender {
            match &es[i].1 {
                JsonValue::Str(s) => {
                    res.gender = Some(s.clone());
                },
                JsonValue::Null => {
                    res.gender = None;
                },
                _ => {
                    proof {
                        assert(!user_entry_ok(es@[i as int].0@, es@[i as int].1));
                    }
                    return None;
                },
            }
        } else if es[i].0 == k_first {
            match &es[i].1 {
                JsonValue::Str(s) => {
                    res.first_name = Some(s.clone());
                },
                JsonValue::Null => {
                    res.first_name = None;
                },
                _ => {
                    proof {
                        assert(!user_entry_ok(es@[i as int].0@, es@[i as int].1));
                    }
                    return None;
                },
            }
        } else if es[i].0 == k_last {
            match &es[i].1 {
                JsonValue::Str(s) => {
                    res.last_name = Some(s.clone());
                },
                JsonValue::Null => {
                    res.last_name = None;
                },
                _ => {
                    proof {
                        assert(!user_entry_ok(es@[i as int].0@, es@[i as int].1));
                    }
                    return None;
                },
            }
        } else if es[i].0 == k_name {
            match &es[i].1 {
                JsonValue::Str(s) => {
                    res.name = Some(s.clone());
                },
                JsonValue::Null => {
                    res.name = None;
                },
                _ => {
                    proof {
                        assert(!user_entry_ok(es@[i as int].0@, es@[i as int].1));
                    }
                    return None;
                },
            }
        } else if es[i].0 == k_picture {
            match &es[i].1 {
                JsonValue::Object(pes) => {
                    match lookup(pes, &k_data) {
                        Some(d) => {
                            match d {
                                JsonValue::Null => {
                                    res.picture = None;
                                },
                                _ => {
                                    match decode_picture(d) {
                                        Some(p) => {
                                            res.picture = Some(p);
                                        },
                                        None => {
                                            proof {
                                                assert(!user_entry_ok(
                                                    es@[i as int].0@,
                                                    es@[i as int].1,
                                                ));
                                            }
                                            return None;
                                        },
                                    }
                                },
                            }
                        },
                        None => {
                            proof {
                                assert(!user_entry_ok(es@[i as int].0@, es@[i as int].1));
                            }
                            return None;
                        },
                    }
                },
                _ => {
                    proof {
                        assert(!user_entry_ok(es@[i as int].0@, es@[i as int].1));
                    }
                    return None;
                },
            }
        }
        i = i + 1;
    }
    proof {
        assert(es@.take(n as int) =~= es@);
        assert(spec_decode_user(*v) == Some(res@)) by {
            assert(spec_decode_user(*v) matches Some(u) && u =~= res@);
        }
    }
    Some(res)
}

/// Appending one well-typed member keeps a picture object well-typed and
/// moves each known field's lookup as one member can.
proof fn lemma_push_picture_entry(es0: Seq<(String, JsonValue)>, e: (String, JsonValue))
    requires
        forall|i: int| 0 <= i < es0.len() ==> picture_entry_ok(#[trigger] es0[i].0@, es0[i].1),
        picture_entry_ok(e.0@, e.1),
    ensures
        forall|i: int|
            0 <= i < es0.push(e).len() ==> picture_entry_ok(
                #[trigger] es0.push(e)[i].0@,
                es0.push(e)[i].1,
            ),
        spec_lookup(es0.push(e), "is_silhouette"@) == (if e.0@ == "is_silhouette"@ {
            Some(e.1)
        } else {
            spec_lookup(es0, "is_silhouette"@)
        }),
        spec_lookup(es0.push(e), "url"@) == (if e.0@ == "url"@ {
            Some(e.1)
        } else {
            spec_lookup(es0, "url"@)
        }),
        spec_lookup(es0.push(e), "width"@) == (if e.0@ == "width"@ {
            Some(e.1)
        } else {
            spec_lookup(es0, "width"@)
        }),
        spec_lookup(es0.push(e), "height"@) == (if e.0@ == "height"@ {
            Some(e.1)
        } else {
            spec_lookup(es0, "height"@)
        }),
{
    crate::json::lemma_lookup_push(es0, e, "is_silhouette"@);
    crate::json::lemma_lookup_push(es0, e, "url"@);
    crate::json::lemma_lookup_push(es0, e, "width"@);
    crate::json::lemma_lookup_push(es0, e, "height"@);
    assert forall|i: int| 0 <= i < es0.push(e).len() implies picture_entry_ok(
        #[trigger] es0.push(e)[i].0@,
        es0.push(e)[i].1,
    ) by {
        if i < es0.len() {
            assert(picture_entry_ok(es0[i].0@, es0[i].1));
        } else {
            assert(es0.push(e)[i] == e);
        }
    }
}

/// Appending one well-typed member keeps a user object well-typed and
/// moves each known field's lookup as one member can.
proof fn lemma_push_user_entry(es0: Seq<(String, JsonValue)>, e: (String, JsonValue))
    requires
        forall|i: int| 0 <= i < es0.len() ==> user_entry_ok(#[trigger] es0[i].0@, es0[i].1),
        user_entry_ok(e.0@, e.1),
    ensures
        forall|i: int|
            0 <= i < es0.push(e).len() ==> user_entry_ok(
                #[trigger] es0.push(e)[i].0@,
                es0.push(e)[i].1,
            ),
        spec_lookup(es0.push(e), "id"@) == (if e.0@ == "id"@ {
            Some(e.1)
        } else {
            spec_lookup(es0, "id"@)
        }),
        spec_lookup(es0.push(e), "gender"@) == (if e.0@ == "gender"@ {
            Some(e.1)
        } else {
            spec_lookup(es0, "gender"@)
        }),
        spec_lookup(es0.push(e), "first_name"@) == (if e.0@ == "first_name"@ {
            Some(e.1)
        } else {
            spec_lookup(es0, "first_name"@)
        }),
        spec_lookup(es0.push(e), "last_name"@) == (if e.0@ == "last_name"@ {
            Some(e.1)
        } else {
            spec_lookup(es0, "last_name"@)
        }),
        spec_lookup(es0.push(e), "name"@) == (if e.0@ == "name"@ {
            Some(e.1)
        } else {
            spec_lookup(es0, "name"@)
        }),
        spec_lookup(es0.push(e), "picture"@) == (if e.0@ == "picture"@ {
            Some(e.1)
        } else {
            spec_lookup(es0, "picture"@)
        }),
{
    crate::json::lemma_lookup_push(es0, e, "id"@);
    crate::json::lemma_lookup_push(es0, e, "gender"@);
    crate::json::lemma_lookup_push(es0, e, "first_name"@);
    crate::json::lemma_lookup_push(es0, e, "last_name"@);
    crate::json::lemma_lookup_push(es0, e, "name"@);
    crate::json::lemma_lookup_push(es0, e, "picture"@);
    assert forall|i: int| 0 <= i < es0.push(e).len() implies user_entry_ok(
        #[trigger] es0.push(e)[i].0@,
        es0.push(e)[i].1,
    ) by {
        if i < es0.len() {
            assert(user_entry_ok(es0[i].0@, es0[i].1));
        } else {
            assert(es0.push(e)[i] == e);
        }
    }
}

/// Serialize a user into the JSON tree the wire format uses for it, the
/// picture wrapped under `data`. Law: feeding the result back through the
/// user's decode mapping yields the user again, field for field.
pub fn encode_user(u: &User) -> (r: JsonValue)
    ensures
        spec_decode_user(r) == Some(u@),
{
    proof {
        reveal_strlit("id");
        reveal_strlit("gender");
        reveal_strlit("first_name");
        reveal_strlit("last_name");
        reveal_strlit("name");
        reveal_strlit("picture");
        reveal_strlit("data");
        reveal_strlit("is_silhouette");
        reveal_strlit("url");
        reveal_strlit("width");
        reveal_strlit("height");
        assert("id"@.len() == 2 && "gender"@.len() == 6 && "first_name"@.len() == 10
            && "last_name"@.len() == 9 && "name"@.len() == 4 && "picture"@.len() == 7);
        assert("is_silhouette"@.len() == 13 && "url"@.len() == 3 && "width"@.len() == 5
            && "height"@.len() == 6 && "data"@.len() == 4);
        assert("gender"@[0] != "height"@[0]);
        assert("name"@[0] != "data"@[0]);
    }
    let mut es: Vec<(String, JsonValue)> = Vec::new();
    let ghost e0 = es@;
    es.push((String::from_str("id"), JsonValue::Str(u.id.clone())));
    proof {
        lemma_push_user_entry(e0, es@.last());
    }
    let ghost e1 = es@;
    if let Some(g) = &u.gender {
        es.push((String::from_str("gender"), JsonValue::Str(g.clone())));
        proof {
            lemma_push_user_entry(e1, es@.last());
        }
    }
    let ghost e2 = es@;
    if let Some(fnm) = &u.first_name {
        es.push((String::from_str("first_name"), JsonValue::Str(fnm.clone())));
        proof {
            lemma_push_user_entry(e2, es@.last());
        }
    }
    let ghost e3 = es@;
    if let Some(lnm) = &u.last_name {
        es.push((String::from_str("last_name"), JsonValue::Str(lnm.clone())));
        proof {
            lemma_push_user_entry(e3, es@.last());
        }
    }
    let ghost e4 = es@;
    if let Some(nm) = &u.name {
        es.push((String::from_str("name"), JsonValue::Str(nm.clone())));
        proof {
            lemma_push_user_entry(e4, es@.last());
        }
    }
    let ghost e5 = es@;
    if let Some(p) = &u.picture {
        let mut pes: Vec<(String, JsonValue)> = Vec::new();
        let ghost p0 = pes@;
        pes.push((String::from_str("is_silhouette"), JsonValue::Bool(p.is_silhouette)));
        proof {
            lemma_push_picture_entry(p0, pes@.last());
        }
        let ghost p1 = pes@;
        pes.push((String::from_str("url"), JsonValue::Str(p.url.clone())));
        proof {
            lemma_push_picture_entry(p1, pes@.last());
        }
        let ghost p2 = pes@;
        if let Some(w) = p.width {
            pes.push((String::from_str("width"), JsonValue::Int(w as i64)));
            proof {
                lemma_push_picture_entry(p2, pes@.last());
            }
        }
        let ghost p3 = pes@;
        if let Some(h) = p.height {
            pes.push((String::from_str("height"), JsonValue::Int(h as i64)));
            proof {
                lemma_push_picture_entry(p3, pes@.last());
            }
        }
        proof {
            assert(spec_decode_picture(JsonValue::Object(pes)) matches Some(pv) && pv =~= p@);
        }
        let mut des: Vec<(String, JsonValue)> = Vec::new();
        let ghost d0 = des@;
        des.push((String::from_str("data"), JsonValue::Object(pes)));
        proof {
            crate::json::lemma_lookup_push(d0, des@.last(), "data"@);
            assert(picture_field_ok(JsonValue::Object(des)));
            assert(spec_picture_of(JsonValue::Object(des)) == Some(p@));
        }
        es.push((String::from_str("picture"), JsonValue::Object(des)));
        proof {
            lemma_push_user_entry(e5, es@.last());
        }
    }
    let r = JsonValue::Object(es);
    proof {
        assert(spec_decode_user(r) matches Some(uv) && uv =~= u@);
    }
    r
}

impl FBModel for User {
    open spec fn spec_decode(v: JsonValue) -> Option<UserView> {
        spec_decode_user(v)
    }

    fn decode_tree(v: &JsonValue) -> (r: Option<User>) {
        decode_user(v)
    }
}

impl FBModel for UserPicture {
    open spec fn spec_decode(v: JsonValue) -> Option<UserPictureView> {
        spec_decode_picture(v)
    }

    fn decode_tree(v: &JsonValue) -> (r: Option<UserPicture>) {
        decode_picture(v)
    }
}

} // verus!
