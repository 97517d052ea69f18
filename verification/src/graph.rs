//! Request descriptors for the graph API: an edge is a path on the graph
//! together with the fields, extra parameters and HTTP method of one call.

use vstd::prelude::*;
use vstd::string::*;

verus! {

/// The HTTP method of a request. It is sent as a `method` body parameter,
/// not as the actual HTTP verb, so every method can ride on a POST.
#[derive(Clone, Copy, Debug, PartialEq, Eq, Structural)]
pub enum Method {
    Get,
    Post,
    Update,
    Delete,
}

impl Method {
    /// The wire spelling of the method.
    pub open spec fn spec_str(self) -> Seq<char> {
        match self {
            Method::Get => "GET"@,
            Method::Post => "POST"@,
            Method::Update => "UPDATE"@,
            Method::Delete => "DELETE"@,
        }
    }

    /// Returns "GET", "POST", "UPDATE", or "DELETE" depending on the value
    /// of this method.
    pub fn to_str(&self) -> (r: &'static str)
        ensures
            r@ == self.spec_str(),
    {
        match *self {
            Method::Get => "GET",
            Method::Post => "POST",
            Method::Update => "UPDATE",
            Method::Delete => "DELETE",
        }
    }
}

/// The field names joined by single commas: `a,b,c` — no leading or
/// trailing comma.
pub open spec fn comma_join(fs: Seq<Seq<char>>) -> Seq<char>
    decreases fs.len(),
{
    if fs.len() == 0 {
        Seq::empty()
    } else if fs.len() == 1 {
        fs[0]
    } else {
        comma_join(fs.drop_last()) + ","@ + fs.last()
    }
}

/// The `fields=` segment of a request body: empty when no field was added.
pub open spec fn spec_fields_segment(fields: Seq<Seq<char>>) -> Seq<char> {
    if fields.len() == 0 {
        Seq::empty()
    } else {
        "fields="@ + comma_join(fields)
    }
}

/// The parameter segment of a request body: `&name=value` for each pair,
/// in insertion order.
pub open spec fn spec_params_segment(params: Seq<(Seq<char>, Seq<char>)>) -> Seq<char>
    decreases params.len(),
{
    if params.len() == 0 {
        Seq::empty()
    } else {
        spec_params_segment(params.drop_last()) + "&"@ + params.last().0 + "="@ + params.last().1
    }
}

/// The trailing method segment, present on every body.
pub open spec fn spec_method_segment(m: Method) -> Seq<char> {
    "&method="@ + m.spec_str()
}

/// The whole serialized request body of an edge.
pub open spec fn spec_body_of(
    fields: Seq<Seq<char>>,
    params: Seq<(Seq<char>, Seq<char>)>,
    m: Method,
) -> Seq<char> {
    spec_fields_segment(fields) + spec_params_segment(params) + spec_method_segment(m)
}

/// An edge on the graph API: one declarative request description.
pub struct Edge {
    /// The path of the edge, for example `/me/picture`.
    path: String,
    /// Fields requested of the edge, for example `/me?fields=picture`
    /// where `picture` is a field.
    fields: Vec<String>,
    method: Method,
    parameters: Vec<(String, String)>,
}

impl Edge {
    /// The edge's path.
    pub closed spec fn spec_path(self) -> Seq<char> {
        self.path@
    }

    /// The requested field names, in insertion order, duplicates kept.
    pub closed spec fn spec_fields(self) -> Seq<Seq<char>> {
        self.fields.deep_view()
    }

    /// The extra parameters, in insertion order, duplicates kept.
    pub closed spec fn spec_params(self) -> Seq<(Seq<char>, Seq<char>)> {
        self.parameters.deep_view()
    }

    /// The method the edge will ask for.
    pub closed spec fn spec_method(self) -> Method {
        self.method
    }

    fn new() -> (r: Edge)
        ensures
            r.spec_path() == Seq::<char>::empty(),
            r.spec_fields() == Seq::<Seq<char>>::empty(),
            r.spec_params() == Seq::<(Seq<char>, Seq<char>)>::empty(),
            r.spec_method() == Method::Get,
    {
        let r = Edge {
            path: String::new(),
            fields: Vec::new(),
            parameters: Vec::new(),
            method: Method::Get,
        };
        proof {
            assert(r.spec_fields() =~= Seq::<Seq<char>>::empty());
            assert(r.spec_params() =~= Seq::<(Seq<char>, Seq<char>)>::empty());
        }
        r
    }

    /// Create an edge for requesting a user by id: the path is `/<id>`.
    pub fn user(id: &str) -> (r: Edge)
        ensures
            r.spec_path() == "/"@ + id@,
            r.spec_fields() == Seq::<Seq<char>>::empty(),
            r.spec_params() == Seq::<(Seq<char>, Seq<char>)>::empty(),
            r.spec_method() == Method::Get,
    {
        let mut r = Edge::new();
        let mut path = String::from_str("/");
        path.append(id);
        r.path = path;
        r
    }

    /// Create an edge for requesting the user that owns the access token:
    /// the path is `/me`.
    pub fn user_me() -> (r: Edge)
        ensures
            r.spec_path() == "/me"@,
            r.spec_fields() == Seq::<Seq<char>>::empty(),
            r.spec_params() == Seq::<(Seq<char>, Seq<char>)>::empty(),
            r.spec_method() == Method::Get,
    {
        let r = Edge::user("me");
        proof {
            reveal_strlit("/");
            reveal_strlit("me");
            reveal_strlit("/me");
            assert(r.spec_path() =~= "/me"@);
        }
        r
    }

    /// Append each name to the field list; nothing is deduplicated.
    pub fn add_fields(&mut self, fields: Vec<&str>)
        ensures
            final(self).spec_fields() == old(self).spec_fields() + fields.deep_view(),
            final(self).spec_path() == old(self).spec_path(),
            final(self).spec_params() == old(self).spec_params(),
            final(self).spec_method() == old(self).spec_method(),
    {
        let n = fields.len();
        let mut i: usize = 0;
        while i < n
            invariant
                i <= n,
                n == fields.len(),
                self.spec_fields() == old(self).spec_fields() + fields.deep_view().take(i as int),
                self.spec_path() == old(self).spec_path(),
                self.spec_params() == old(self).spec_params(),
                self.spec_method() == old(self).spec_method(),
            decreases n - i,
        {
            let ghost pre = *self;
            self.fields.push(fields[i].to_owned());
            proof {
                let goal = old(self).spec_fields() + fields.deep_view().take(i + 1);
                assert(pre.spec_fields().len() == pre.fields@.len());
                assert(pre.fields@.len() == old(self).spec_fields().len() + i);
                assert forall|k: int| 0 <= k < goal.len() implies self.spec_fields()[k]
                    == goal[k] by {
                    assert(self.fields@ == pre.fields@.push(self.fields@.last()));
                    if k < goal.len() - 1 {
                        assert(self.fields@[k] == pre.fields@[k]);
                        assert(pre.spec_fields()[k] == (old(self).spec_fields()
                            + fields.deep_view().take(i as int))[k]);
                    } else {
                        assert(self.fields@[k]@ == fields@[i as int]@);
                    }
                }
                assert(self.spec_fields() =~= goal);
            }
            i = i + 1;
        }
        proof {
            assert(fields.deep_view().take(n as int) =~= fields.deep_view());
        }
    }

    /// Append each (name, value) pair to the parameter list.
    pub fn add_parameters(&mut self, parameters: Vec<(&str, &str)>)
        ensures
            final(self).spec_params() == old(self).spec_params() + parameters.deep_view(),
            final(self).spec_path() == old(self).spec_path(),
            final(self).spec_fields() == old(self).spec_fields(),
            final(self).spec_method() == old(self).spec_method(),
    {
        let n = parameters.len();
        let mut i: usize = 0;
        while i < n
            invariant
                i <= n,
                n == parameters.len(),
                self.spec_params() == old(self).spec_params() + parameters.deep_view().take(
                    i as int,
                ),
                self.spec_path() == old(self).spec_path(),
                self.spec_fields() == old(self).spec_fields(),
                self.spec_method() == old(self).spec_method(),
            decreases n - i,
        {
            let (name, val) = parameters[i];
            let ghost pre = *self;
            self.parameters.push((name.to_owned(), val.to_owned()));
            proof {
                let goal = old(self).spec_params() + parameters.deep_view().take(i + 1);
                assert(pre.spec_params().len() == pre.parameters@.len());
                assert(pre.parameters@.len() == old(self).spec_params().len() + i);
                assert forall|k: int| 0 <= k < goal.len() implies self.spec_params()[k]
                    == goal[k] by {
                    assert(self.parameters@ == pre.parameters@.push(self.parameters@.last()));
                    if k < goal.len() - 1 {
                        assert(self.parameters@[k] == pre.parameters@[k]);
                        assert(pre.spec_params()[k] == (old(self).spec_params()
                            + parameters.deep_view().take(i as int))[k]);
                    } else {
                        assert(self.parameters@[k].0@ == parameters@[i as int].0@);
                        assert(self.parameters@[k].1@ == parameters@[i as int].1@);
                    }
                }
                assert(self.spec_params() =~= goal);
            }
            i = i + 1;
        }
        proof {
            assert(parameters.deep_view().take(n as int) =~= parameters.deep_view());
        }
    }

    /// Overwrite the method.
    pub fn set_method(&mut self, m: Method)
        ensures
            final(self).spec_method() == m,
            final(self).spec_path() == old(self).spec_path(),
            final(self).spec_fields() == old(self).spec_fields(),
            final(self).spec_params() == old(self).spec_params(),
    {
        self.method = m;
    }

    /// The edge's path, as given to the constructor.
    pub fn get_path(&self) -> (r: &str)
        ensures
            r@ == self.spec_path(),
    {
        return self.path.as_str();
    }

    /// Serialize the edge into a request body: the `fields=` segment when
    /// any field was added, then `&name=value` per parameter, then
    /// `&method=<METHOD>`, always last.
    pub fn build_body(&self) -> (r: String)
        ensures
            r@ == spec_body_of(self.spec_fields(), self.spec_params(), self.spec_method()),
    {
        let mut body = String::new();
        let nf = self.fields.len();
        if nf > 0 {
            body.append("fields=");
            let mut i: usize = 0;
            while i < nf
                invariant
                    i <= nf,
                    nf == self.fields.len(),
                    body@ == "fields="@ + comma_join(self.spec_fields().take(i as int)),
                decreases nf - i,
            {
                if i > 0 {
                    body.append(",");
                }
                body.append(self.fields[i].as_str());
                proof {
                    let pre = self.spec_fields().take(i as int);
                    let cur = self.spec_fields().take(i + 1);
                    assert(cur.drop_last() =~= pre);
                    assert(cur.last() == self.spec_fields()[i as int]);
                    if i == 0 {
                        assert(comma_join(cur) == cur[0]);
                        assert(body@ =~= "fields="@ + comma_join(cur));
                    } else {
                        assert(comma_join(cur) == comma_join(pre) + ","@ + cur.last());
                        assert(body@ =~= "fields="@ + comma_join(cur));
                    }
                }
                i = i + 1;
            }
            proof {
                assert(self.spec_fields().take(nf as int) =~= self.spec_fields());
            }
        }
        proof {
            assert(body@ =~= spec_fields_segment(self.spec_fields()));
        }
        let np = self.parameters.len();
        let mut j: usize = 0;
        while j < np
            invariant
                j <= np,
                np == self.parameters.len(),
                body@ == spec_fields_segment(self.spec_fields()) + spec_params_segment(
                    self.spec_params().take(j as int),
                ),
            decreases np - j,
        {
            body.append("&");
            body.append(self.parameters[j].0.as_str());
            body.append("=");
            body.append(self.parameters[j].1.as_str());
            proof {
                let pre = self.spec_params().take(j as int);
                let cur = self.spec_params().take(j + 1);
                assert(cur.drop_last() =~= pre);
                assert(cur.last() == self.spec_params()[j as int]);
                assert(body@ =~= spec_fields_segment(self.spec_fields()) + spec_params_segment(
                    cur,
                ));
            }
            j = j + 1;
        }
        proof {
            assert(self.spec_params().take(np as int) =~= self.spec_params());
            assert(spec_params_segment(self.spec_params().take(np as int)) == spec_params_segment(
                self.spec_params(),
            ));
        }
        body.append("&method=");
        body.append(self.method.to_str());
        proof {
            assert(body@ =~= spec_body_of(
                self.spec_fields(),
                self.spec_params(),
                self.spec_method(),
            ));
        }
        body
    }
}

/// Law: a serialized body always ends with `&method=<METHOD>`, whatever
/// fields and parameters the edge holds.
pub proof fn lemma_body_ends_with_method(
    fields: Seq<Seq<char>>,
    params: Seq<(Seq<char>, Seq<char>)>,
    m: Method,
)
    ensures
        spec_body_of(fields, params, m).len() >= spec_method_segment(m).len(),
        spec_body_of(fields, params, m).skip(
            spec_body_of(fields, params, m).len() - spec_method_segment(m).len(),
        ) == spec_method_segment(m),
{
    let body = spec_body_of(fields, params, m);
    let tail = spec_method_segment(m);
    assert(body.skip(body.len() - tail.len()) =~= tail);
}

/// Law: the serialized body is a function of the edge's contents alone, so
/// two builds of one unmutated edge agree letter for letter.
pub proof fn lemma_build_body_deterministic(e: Edge, r1: Seq<char>, r2: Seq<char>)
    requires
        r1 == spec_body_of(e.spec_fields(), e.spec_params(), e.spec_method()),
        r2 == spec_body_of(e.spec_fields(), e.spec_params(), e.spec_method()),
    ensures
        r1 == r2,
{
}

} // verus!
