use vstd::prelude::*;

verus! {

/// The mathematical shape of a JSON document. Strings are character
/// sequences; a number is kept as its decimal token, so that a document
/// survives a round trip unchanged whatever precision the number was
/// written with.
#[verifier::ext_equal]
pub enum JsonV {
    Null,
    Bool(bool),
    Num(Seq<char>),
    Str(Seq<char>),
    Arr(Seq<JsonV>),
    Obj(Seq<(Seq<char>, JsonV)>),
}

/// A JSON document. Object members keep the order in which they were
/// given; a number is kept as its decimal token.
#[derive(Debug, PartialEq)]
pub enum Json {
    Null,
    Bool(bool),
    Num(String),
    Str(String),
    Arr(Vec<Json>),
    Obj(Vec<(String, Json)>),
}

/// The view of an object's member list.
pub open spec fn fields_view(f: Seq<(String, Json)>) -> Seq<(Seq<char>, JsonV)> {
    Seq::new(f.len(), |i: int| (f[i].0@, json_view(f[i].1)))
}

pub open spec fn json_view(j: Json) -> JsonV
    decreases j,
    via json_view_decreases
{
    match j {
        Json::Null => JsonV::Null,
        Json::Bool(b) => JsonV::Bool(b),
        Json::Num(s) => JsonV::Num(s@),
        Json::Str(s) => JsonV::Str(s@),
        Json::Arr(v) => JsonV::Arr(
            Seq::new(
                v@.len(),
                |i: int|
                    if 0 <= i < v@.len() {
                        json_view(v@[i])
                    } else {
                        JsonV::Null
                    },
            ),
        ),
        Json::Obj(f) => JsonV::Obj(
            Seq::new(
                f@.len(),
                |i: int|
                    if 0 <= i < f@.len() {
                        (f@[i].0@, json_view(f@[i].1))
                    } else {
                        (Seq::empty(), JsonV::Null)
                    },
            ),
        ),
    }
}

#[via_fn]
proof fn json_view_decreases(j: Json) {
    match j {
        Json::Arr(v) => {
            assert forall|i: int| 0 <= i < v@.len() implies decreases_to!(j => v@[i]) by {
                assert(decreases_to!(j => v));
                assert(decreases_to!(v => v@));
                assert(decreases_to!(v@ => v@[i]));
            }
        },
        Json::Obj(f) => {
            assert forall|i: int| 0 <= i < f@.len() implies decreases_to!(j => f@[i].1) by {
                assert(decreases_to!(j => f));
                assert(decreases_to!(f => f@));
                assert(decreases_to!(f@ => f@[i]));
                assert(decreases_to!(f@[i] => f@[i].1));
            }
        },
        _ => {},
    }
}

impl View for Json {
    type V = JsonV;

    open spec fn view(&self) -> JsonV {
        json_view(*self)
    }
}

/// The views of an array's elements.
pub open spec fn arr_elems_view(s: Seq<Json>) -> Seq<JsonV> {
    Seq::new(s.len(), |i: int| json_view(s[i]))
}

/// An object's view is the view of its member list.
pub proof fn lemma_obj_view(v: Vec<(String, Json)>)
    ensures
        json_view(Json::Obj(v)) == JsonV::Obj(fields_view(v@)),
{
    assert(json_view(Json::Obj(v))->Obj_0 =~= fields_view(v@));
}

/// An array's view is the views of its elements.
pub proof fn lemma_arr_view(v: Vec<Json>)
    ensures
        json_view(Json::Arr(v)) == JsonV::Arr(arr_elems_view(v@)),
{
    assert(json_view(Json::Arr(v))->Arr_0 =~= arr_elems_view(v@));
}

/// The first member of `fields` named `key`, if any; later members of the
/// same name are shadowed, so an added member of a fresh name changes no
/// earlier binding.
pub open spec fn lookup_field(fields: Seq<(Seq<char>, JsonV)>, key: Seq<char>) -> Option<JsonV>
    decreases fields.len(),
{
    if fields.len() == 0 {
        None
    } else if fields[0].0 == key {
        Some(fields[0].1)
    } else {
        lookup_field(fields.skip(1), key)
    }
}

/// A lookup passes over every member whose name differs from the key.
pub proof fn lemma_lookup_skip(f: Seq<(Seq<char>, JsonV)>, key: Seq<char>, i: int)
    requires
        0 <= i <= f.len(),
        forall|k: int| 0 <= k < i ==> (#[trigger] f[k]).0 != key,
    ensures
        lookup_field(f, key) == lookup_field(f.skip(i), key),
    decreases i,
{
    if i > 0 {
        assert(f[0].0 != key);
        lemma_lookup_skip(f.skip(1), key, i - 1);
        assert(f.skip(1).skip(i - 1) =~= f.skip(i));
        assert(forall|k: int| 0 <= k < i - 1 ==> (#[trigger] f.skip(1)[k]).0 == f[k + 1].0);
    } else {
        assert(f.skip(0) =~= f);
    }
}

/// A lookup finds the first member that carries the key.
pub proof fn lemma_lookup_at(f: Seq<(Seq<char>, JsonV)>, key: Seq<char>, i: int)
    requires
        0 <= i < f.len(),
        forall|k: int| 0 <= k < i ==> (#[trigger] f[k]).0 != key,
        f[i].0 == key,
    ensures
        lookup_field(f, key) == Some(f[i].1),
{
    lemma_lookup_skip(f, key, i);
    assert(f.skip(i)[0] == f[i]);
}

/// A member inserted anywhere under another name changes no lookup of the
/// key.
pub proof fn lemma_lookup_insert(
    f: Seq<(Seq<char>, JsonV)>,
    key: Seq<char>,
    i: int,
    k2: Seq<char>,
    v: JsonV,
)
    requires
        0 <= i <= f.len(),
        k2 != key,
    ensures
        lookup_field(f.insert(i, (k2, v)), key) == lookup_field(f, key),
    decreases i,
{
    let g = f.insert(i, (k2, v));
    if i == 0 {
        assert(g[0] == (k2, v));
        assert(g.skip(1) =~= f);
    } else {
        assert(g[0] == f[0]);
        lemma_lookup_insert(f.skip(1), key, i - 1, k2, v);
        assert(g.skip(1) =~= f.skip(1).insert(i - 1, (k2, v)));
    }
}

/// Character-wise string comparison.
pub fn str_eq(a: &str, b: &str) -> (r: bool)
    ensures
        r == (a@ == b@),
{
    let na = a.unicode_len();
    let nb = b.unicode_len();
    if na != nb {
        return false;
    }
    let mut i: usize = 0;
    while i < na
        invariant
            na == a@.len(),
            na == b@.len(),
            0 <= i <= na,
            forall|k: int| 0 <= k < i ==> a@[k] == b@[k],
        decreases na - i,
    {
        if a.get_char(i) != b.get_char(i) {
            return false;
        }
        i = i + 1;
    }
    proof {
        assert(a@ =~= b@);
    }
    true
}

/// Finds the first member named `key` in an object's member list.
pub fn obj_get<'a>(fields: &'a Vec<(String, Json)>, key: &str) -> (r: Option<&'a Json>)
    ensures
        match r {
            Some(j) => lookup_field(fields_view(fields@), key@) == Some(j@),
            None => lookup_field(fields_view(fields@), key@) is None,
        },
{
    let ghost fv = fields_view(fields@);
    proof {
        assert(fv.skip(0) =~= fv);
    }
    let mut i: usize = 0;
    while i < fields.len()
        invariant
            fv == fields_view(fields@),
            fv.len() == fields@.len(),
            0 <= i <= fields@.len(),
            lookup_field(fv, key@) == lookup_field(fv.skip(i as int), key@),
        decreases fields@.len() - i,
    {
        if str_eq(fields[i].0.as_str(), key) {
            proof {
                assert(fv.skip(i as int)[0] == fv[i as int]);
            }
            return Some(&fields[i].1);
        }
        proof {
            assert(fv.skip(i as int)[0] == fv[i as int]);
            assert(fv.skip(i as int).skip(1) =~= fv.skip(i + 1));
        }
        i = i + 1;
    }
    proof {
        assert(fv.skip(i as int).len() == 0);
    }
    None
}

} // verus!
