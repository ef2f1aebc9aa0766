use vstd::prelude::*;

verus! {

broadcast use vstd::std_specs::vec::group_vec_axioms;

/// A JSON document modelled with plain values.
///
/// Upstream replies arrive as loosely typed JSON; the widget logic reads a
/// handful of fields out of such documents with a per-field default. This
/// enum carries exactly what those readers need: integer numbers are kept,
/// split at the `i64` range, and a number that is not an integer is carried
/// without its value, since no reader of this tree ever looks at one.
#[derive(Debug, PartialEq, Eq)]
pub enum Json {
    Null,
    Bool(bool),
    /// An integer within the `i64` range.
    Int(i64),
    /// An integer above `i64::MAX`.
    BigInt(u64),
    /// A number that is not an integer.
    Inexact,
    Str(String),
    Arr(Vec<Json>),
    Obj(Vec<(String, Json)>),
}

/// The mathematical shape of a `Json` tree.
#[verifier::ext_equal]
pub enum JsonV {
    Null,
    Bool(bool),
    Int(int),
    Inexact,
    Str(Seq<char>),
    Arr(Seq<JsonV>),
    Obj(Seq<(Seq<char>, JsonV)>),
}

pub open spec fn json_view(j: Json) -> JsonV
    decreases j,
{
    match j {
        Json::Null => JsonV::Null,
        Json::Bool(b) => JsonV::Bool(b),
        Json::Int(n) => JsonV::Int(n as int),
        Json::BigInt(n) => JsonV::Int(n as int),
        Json::Inexact => JsonV::Inexact,
        Json::Str(s) => JsonV::Str(s@),
        Json::Arr(v) => JsonV::Arr(
            Seq::new(
                v.len() as nat,
                |i: int|
                    if 0 <= i < v.len() {
                        json_view(v[i])
                    } else {
                        JsonV::Null
                    },
            ),
        ),
        Json::Obj(v) => JsonV::Obj(
            Seq::new(
                v.len() as nat,
                |i: int|
                    if 0 <= i < v.len() {
                        (v[i].0@, json_view(v[i].1))
                    } else {
                        (Seq::empty(), JsonV::Null)
                    },
            ),
        ),
    }
}

impl View for Json {
    type V = JsonV;

    open spec fn view(&self) -> JsonV {
        json_view(*self)
    }
}

/// The value under `key` in an ordered field list; `Null` when the key is
/// absent, mirroring what indexing into upstream JSON yields.
pub open spec fn lookup_field(fields: Seq<(Seq<char>, JsonV)>, key: Seq<char>) -> JsonV
    decreases fields.len(),
{
    if fields.len() == 0 {
        JsonV::Null
    } else if fields[0].0 == key {
        fields[0].1
    } else {
        lookup_field(fields.drop_first(), key)
    }
}

/// The value under `key` of an object; `Null` when the key is absent or the
/// document is not an object — the reading that indexing upstream JSON gives.
pub open spec fn get_field(j: JsonV, key: Seq<char>) -> JsonV {
    match j {
        JsonV::Obj(fields) => lookup_field(fields, key),
        _ => JsonV::Null,
    }
}

pub open spec fn as_bool_v(j: JsonV) -> Option<bool> {
    match j {
        JsonV::Bool(b) => Some(b),
        _ => None,
    }
}

pub open spec fn as_str_v(j: JsonV) -> Option<Seq<char>> {
    match j {
        JsonV::Str(s) => Some(s),
        _ => None,
    }
}

pub open spec fn as_u64_v(j: JsonV) -> Option<u64> {
    match j {
        JsonV::Int(n) => if 0 <= n <= u64::MAX {
            Some(n as u64)
        } else {
            None
        },
        _ => None,
    }
}

pub open spec fn as_arr_v(j: JsonV) -> Option<Seq<JsonV>> {
    match j {
        JsonV::Arr(items) => Some(items),
        _ => None,
    }
}

impl Json {
    /// Field lookup on an object. `None` stands for the `Null` that indexing
    /// a missing key — or a non-object — yields.
    pub fn get<'a>(&'a self, key: &str) -> (r: Option<&'a Json>)
        ensures
            match r {
                Some(v) => v@ == get_field(self@, key@),
                None => get_field(self@, key@) == JsonV::Null,
            },
    {
        match self {
            Json::Obj(fields) => {
                let ghost fs = self@->Obj_0;
                let key_owned = key.to_owned();
                proof {
                    assert(fs.skip(0) =~= fs);
                }
                let mut i: usize = 0;
                while i < fields.len()
                    invariant
                        i <= fields.len(),
                        key_owned@ == key@,
                        self@ == JsonV::Obj(fs),
                        fs.len() == fields@.len(),
                        forall|k: int| 0 <= k < fs.len() ==> #[trigger] fs[k]
                            == (fields@[k].0@, fields@[k].1@),
                        lookup_field(fs, key@) == lookup_field(fs.skip(i as int), key@),
                    decreases fields.len() - i,
                {
                    if fields[i].0 == key_owned {
                        proof {
                            assert(fs.skip(i as int)[0] == fs[i as int]);
                        }
                        return Some(&fields[i].1);
                    }
                    proof {
                        assert(fs.skip(i as int)[0] == fs[i as int]);
                        assert(fs.skip(i as int).drop_first() =~= fs.skip(i as int + 1));
                    }
                    i = i + 1;
                }
                proof {
                    assert(fs.skip(fs.len() as int) =~= Seq::empty());
                }
                None
            },
            _ => None,
        }
    }

    pub fn as_bool(&self) -> (r: Option<bool>)
        ensures
            r == as_bool_v(self@),
    {
        match self {
            Json::Bool(b) => Some(*b),
            _ => None,
        }
    }

    pub fn as_u64(&self) -> (r: Option<u64>)
        ensures
            r == as_u64_v(self@),
    {
        match self {
            Json::Int(n) => if *n >= 0 {
                Some(*n as u64)
            } else {
                None
            },
            Json::BigInt(n) => Some(*n),
            _ => None,
        }
    }

    pub fn as_str(&self) -> (r: Option<&String>)
        ensures
            match r {
                Some(s) => as_str_v(self@) == Some(s@),
                None => as_str_v(self@) is None,
            },
    {
        match self {
            Json::Str(s) => Some(s),
            _ => None,
        }
    }

    pub fn as_array(&self) -> (r: Option<&Vec<Json>>)
        ensures
            match r {
                Some(v) => {
                    &&& as_arr_v(self@) matches Some(s)
                    &&& s.len() == v@.len()
                    &&& forall|i: int| 0 <= i < v@.len() ==> s[i] == #[trigger] v@[i]@
                },
                None => as_arr_v(self@) is None,
            },
    {
        match self {
            Json::Arr(items) => Some(items),
            _ => None,
        }
    }

    pub fn is_object(&self) -> (r: bool)
        ensures
            r == (self@ is Obj),
    {
        match self {
            Json::Obj(_) => true,
            _ => false,
        }
    }
}

} // verus!
