//! The library's model of a JSON document.
//!
//! Wire text is parsed into a [`JsonValue`] tree and responses are rendered
//! from one. The mathematical model of a tree is [`SpecJson`], built from
//! `Seq` and `int`; every contract about JSON data is stated over it.
//!
//! A JSON number that fits in an `i64` is held as [`JsonValue::Num`]. Any
//! other number (a float, or an integer beyond `i64`) is held as
//! [`JsonValue::NumText`]: its decimal text, carried through unread, so that
//! such values survive from parse to render without the library doing float
//! arithmetic.

use vstd::prelude::*;

verus! {

/// A JSON value.
#[derive(Debug)]
pub enum JsonValue {
    Null,
    Bool(bool),
    /// A number that fits in a signed 64-bit integer.
    Num(i64),
    /// Any other number, kept as its decimal text.
    NumText(String),
    Str(String),
    Arr(Vec<JsonValue>),
    Obj(Vec<(String, JsonValue)>),
}

/// The mathematical model of a JSON value.
pub enum SpecJson {
    Null,
    Bool(bool),
    Num(int),
    NumText(Seq<char>),
    Str(Seq<char>),
    Arr(Seq<SpecJson>),
    Obj(Seq<(Seq<char>, SpecJson)>),
}

/// Model of the first `n` elements of a JSON array.
pub open spec fn view_arr(elems: Seq<JsonValue>, n: int) -> Seq<SpecJson>
    decreases elems, n,
{
    if n <= 0 || n > elems.len() {
        Seq::empty()
    } else {
        view_arr(elems, n - 1).push(spec_view(elems[n - 1]))
    }
}

/// Model of the first `n` members of a JSON object.
pub open spec fn view_obj(pairs: Seq<(String, JsonValue)>, n: int) -> Seq<(Seq<char>, SpecJson)>
    decreases pairs, n,
{
    if n <= 0 || n > pairs.len() {
        Seq::empty()
    } else {
        view_obj(pairs, n - 1).push((pairs[n - 1].0@, spec_view(pairs[n - 1].1)))
    }
}

/// Model of a JSON value.
pub open spec fn spec_view(v: JsonValue) -> SpecJson
    decreases v,
{
    match v {
        JsonValue::Null => SpecJson::Null,
        JsonValue::Bool(b) => SpecJson::Bool(b),
        JsonValue::Num(n) => SpecJson::Num(n as int),
        JsonValue::NumText(s) => SpecJson::NumText(s@),
        JsonValue::Str(s) => SpecJson::Str(s@),
        JsonValue::Arr(elems) => SpecJson::Arr(view_arr(elems@, elems@.len() as int)),
        JsonValue::Obj(pairs) => SpecJson::Obj(view_obj(pairs@, pairs@.len() as int)),
    }
}

impl View for JsonValue {
    type V = SpecJson;

    open spec fn view(&self) -> SpecJson {
        spec_view(*self)
    }
}

pub broadcast proof fn lemma_view_arr_len(elems: Seq<JsonValue>, n: int)
    requires
        0 <= n <= elems.len(),
    ensures
        (#[trigger] view_arr(elems, n)).len() == n,
    decreases n,
{
    if n > 0 {
        lemma_view_arr_len(elems, n - 1);
    }
}

pub broadcast proof fn lemma_view_arr_index(elems: Seq<JsonValue>, n: int, i: int)
    requires
        0 <= n <= elems.len(),
        0 <= i < n,
    ensures
        #[trigger] view_arr(elems, n)[i] == spec_view(elems[i]),
    decreases n,
{
    lemma_view_arr_len(elems, n);
    if i < n - 1 {
        lemma_view_arr_index(elems, n - 1, i);
        lemma_view_arr_len(elems, n - 1);
    } else {
        lemma_view_arr_len(elems, n - 1);
    }
}

pub broadcast proof fn lemma_view_obj_len(pairs: Seq<(String, JsonValue)>, n: int)
    requires
        0 <= n <= pairs.len(),
    ensures
        (#[trigger] view_obj(pairs, n)).len() == n,
    decreases n,
{
    if n > 0 {
        lemma_view_obj_len(pairs, n - 1);
    }
}

pub broadcast proof fn lemma_view_obj_index(pairs: Seq<(String, JsonValue)>, n: int, i: int)
    requires
        0 <= n <= pairs.len(),
        0 <= i < n,
    ensures
        #[trigger] view_obj(pairs, n)[i] == (pairs[i].0@, spec_view(pairs[i].1)),
    decreases n,
{
    lemma_view_obj_len(pairs, n);
    if i < n - 1 {
        lemma_view_obj_index(pairs, n - 1, i);
        lemma_view_obj_len(pairs, n - 1);
    } else {
        lemma_view_obj_len(pairs, n - 1);
    }
}

impl SpecJson {
    /// Whether this model value is an object.
    pub open spec fn is_obj(self) -> bool {
        self matches SpecJson::Obj(_)
    }

    /// The members of an object model value.
    pub open spec fn obj_pairs(self) -> Seq<(Seq<char>, SpecJson)>
        recommends
            self.is_obj(),
    {
        self->Obj_0
    }
}

/// The value of the first member named `key` at position `j` or later, if
/// any.
pub open spec fn spec_obj_get_from(
    pairs: Seq<(Seq<char>, SpecJson)>,
    key: Seq<char>,
    j: int,
) -> Option<SpecJson>
    decreases pairs.len() - j,
{
    if j < 0 || j >= pairs.len() {
        None
    } else if pairs[j].0 == key {
        Some(pairs[j].1)
    } else {
        spec_obj_get_from(pairs, key, j + 1)
    }
}

/// The value of the first member named `key`, if any.
pub open spec fn spec_obj_get(pairs: Seq<(Seq<char>, SpecJson)>, key: Seq<char>) -> Option<
    SpecJson,
> {
    spec_obj_get_from(pairs, key, 0)
}

/// Whether an object model value has a member named `key`.
pub open spec fn spec_obj_has(pairs: Seq<(Seq<char>, SpecJson)>, key: Seq<char>) -> bool {
    spec_obj_get(pairs, key) is Some
}

impl JsonValue {
    /// Look up a member of a JSON object by name; the first match wins.
    ///
    /// Returns `None` when `self` is not an object or has no such member.
    pub fn get(&self, key: &String) -> (r: Option<&JsonValue>)
        ensures
            match r {
                Some(x) => self@.is_obj() && spec_obj_get(self@.obj_pairs(), key@) == Some(x@),
                None => !self@.is_obj() || spec_obj_get(self@.obj_pairs(), key@) is None,
            },
    {
        match self {
            JsonValue::Obj(pairs) => {
                let ghost vo = view_obj(pairs@, pairs@.len() as int);
                proof {
                    lemma_view_obj_len(pairs@, pairs@.len() as int);
                }
                let n = pairs.len();
                let mut i: usize = 0;
                while i < n
                    invariant
                        n == pairs@.len(),
                        0 <= i <= n,
                        vo == view_obj(pairs@, pairs@.len() as int),
                        vo.len() == n,
                        self@ == SpecJson::Obj(vo),
                        spec_obj_get_from(vo, key@, 0) == spec_obj_get_from(vo, key@, i as int),
                    decreases n - i,
                {
                    proof {
                        lemma_view_obj_index(pairs@, pairs@.len() as int, i as int);
                    }
                    if pairs[i].0 == *key {
                        return Some(&pairs[i].1);
                    }
                    i = i + 1;
                }
                None
            },
            _ => None,
        }
    }
}


impl JsonValue {
    /// An identical copy of this value.
    pub fn dup(&self) -> (r: JsonValue)
        ensures
            r@ == self@,
        decreases *self,
    {
        match self {
            JsonValue::Null => JsonValue::Null,
            JsonValue::Bool(b) => JsonValue::Bool(*b),
            JsonValue::Num(n) => JsonValue::Num(*n),
            JsonValue::NumText(s) => JsonValue::NumText(s.clone()),
            JsonValue::Str(s) => JsonValue::Str(s.clone()),
            JsonValue::Arr(elems) => JsonValue::Arr(dup_arr(elems)),
            JsonValue::Obj(pairs) => JsonValue::Obj(dup_obj(pairs)),
        }
    }
}

/// An identical copy of an array's elements.
fn dup_arr(elems: &Vec<JsonValue>) -> (r: Vec<JsonValue>)
    ensures
        view_arr(r@, r@.len() as int) == view_arr(elems@, elems@.len() as int),
        r@.len() == elems@.len(),
    decreases *elems,
{
    let ghost velems = view_arr(elems@, elems@.len() as int);
    proof {
        lemma_view_arr_len(elems@, elems@.len() as int);
    }
    let n = elems.len();
    let mut out: Vec<JsonValue> = Vec::new();
    let mut i: usize = 0;
    while i < n
        invariant
            n == elems@.len(),
            i == out@.len(),
            0 <= i <= n,
            velems == view_arr(elems@, elems@.len() as int),
            velems.len() == n,
            forall|k: int| 0 <= k < i ==> #[trigger] out@[k]@ == velems[k],
        decreases n - i,
    {
        proof {
            assert(decreases_to!(*elems => elems@));
            assert(decreases_to!(elems@ => elems@[i as int]));
            lemma_view_arr_index(elems@, elems@.len() as int, i as int);
        }
        let e = elems[i].dup();
        out.push(e);
        i = i + 1;
    }
    proof {
        lemma_view_arr_len(out@, out@.len() as int);
        assert forall|k: int| 0 <= k < n implies #[trigger] view_arr(out@, out@.len() as int)[k]
            == velems[k] by {
            lemma_view_arr_index(out@, out@.len() as int, k);
            assert(out@[k]@ == velems[k]);
        }
        assert(view_arr(out@, out@.len() as int) =~= velems);
    }
    out
}

/// An identical copy of an object's members.
fn dup_obj(pairs: &Vec<(String, JsonValue)>) -> (r: Vec<(String, JsonValue)>)
    ensures
        view_obj(r@, r@.len() as int) == view_obj(pairs@, pairs@.len() as int),
        r@.len() == pairs@.len(),
    decreases *pairs,
{
    let ghost vpairs = view_obj(pairs@, pairs@.len() as int);
    proof {
        lemma_view_obj_len(pairs@, pairs@.len() as int);
    }
    let n = pairs.len();
    let mut out: Vec<(String, JsonValue)> = Vec::new();
    let mut i: usize = 0;
    while i < n
        invariant
            n == pairs@.len(),
            i == out@.len(),
            0 <= i <= n,
            vpairs == view_obj(pairs@, pairs@.len() as int),
            vpairs.len() == n,
            forall|k: int|
                0 <= k < i ==> #[trigger] out@[k].0@ == vpairs[k].0 && out@[k].1@ == vpairs[k].1,
        decreases n - i,
    {
        proof {
            assert(decreases_to!(*pairs => pairs@));
            assert(decreases_to!(pairs@ => pairs@[i as int]));
            assert(decreases_to!(pairs@[i as int] => pairs@[i as int].1));
            lemma_view_obj_index(pairs@, pairs@.len() as int, i as int);
        }
        let k = pairs[i].0.clone();
        let v = pairs[i].1.dup();
        out.push((k, v));
        i = i + 1;
    }
    proof {
        lemma_view_obj_len(out@, out@.len() as int);
        assert forall|k: int| 0 <= k < n implies #[trigger] view_obj(out@, out@.len() as int)[k]
            == vpairs[k] by {
            lemma_view_obj_index(out@, out@.len() as int, k);
        }
        assert(view_obj(out@, out@.len() as int) =~= vpairs);
    }
    out
}

} // verus!
