//! A JSON document tree and its mathematical model.
//!
//! [`JsonValue`] is the executable tree; [`JsonV`] is its ghost counterpart,
//! used by every codec contract. Objects keep their members as an ordered
//! sequence of key/value pairs; lookup takes the first pair with a matching
//! key.

use vstd::prelude::*;

verus! {

broadcast use vstd::std_specs::vec::axiom_vec_index_decreases, vstd::std_specs::vec::axiom_vec_decreases_to_view, vstd::seq::axiom_seq_index_decreases;

/// Ghost form of a JSON document.
///
/// `Num` carries an unbounded integer: every number the HAR model can put on
/// the wire is an integer. A number in the input that is not representable as
/// a 64-bit integer is kept as `NumOther`, so that it can sit under an
/// unknown key without making the whole document unreadable; no schema field
/// accepts it.
#[verifier::ext_equal]
pub enum JsonV {
    Null,
    Bool(bool),
    Num(int),
    NumOther,
    Str(Seq<char>),
    Arr(Seq<JsonV>),
    Obj(Seq<(Seq<char>, JsonV)>),
}

/// Executable JSON document tree.
#[derive(Debug, PartialEq)]
pub enum JsonValue {
    Null,
    Bool(bool),
    Num(i64),
    NumOther,
    Str(String),
    Arr(Vec<JsonValue>),
    Obj(Vec<(String, JsonValue)>),
}

/// The ghost form of a sequence of array elements.
pub open spec fn arr_view(s: Seq<JsonValue>) -> Seq<JsonV>
    decreases s,
{
    Seq::new(
        s.len(),
        |i: int|
            if 0 <= i < s.len() {
                s[i]@
            } else {
                JsonV::Null
            },
    )
}

/// The ghost form of a sequence of object members.
pub open spec fn pairs_view(s: Seq<(String, JsonValue)>) -> Seq<(Seq<char>, JsonV)>
    decreases s,
{
    Seq::new(
        s.len(),
        |i: int|
            if 0 <= i < s.len() {
                (s[i].0@, s[i].1@)
            } else {
                (Seq::empty(), JsonV::Null)
            },
    )
}

impl View for JsonValue {
    type V = JsonV;

    open spec fn view(&self) -> JsonV
        decreases self,
    {
        match self {
            JsonValue::Null => JsonV::Null,
            JsonValue::Bool(b) => JsonV::Bool(*b),
            JsonValue::Num(n) => JsonV::Num(*n as int),
            JsonValue::NumOther => JsonV::NumOther,
            JsonValue::Str(s) => JsonV::Str(s@),
            JsonValue::Arr(a) => JsonV::Arr(arr_view(a@)),
            JsonValue::Obj(o) => JsonV::Obj(pairs_view(o@)),
        }
    }
}

/// The value under the first member of `o` whose key is `k`, if any.
pub open spec fn obj_get(o: Seq<(Seq<char>, JsonV)>, k: Seq<char>) -> Option<JsonV>
    decreases o.len(),
{
    if o.len() == 0 {
        None
    } else if o[0].0 == k {
        Some(o[0].1)
    } else {
        obj_get(o.drop_first(), k)
    }
}

/// Whether `o` has a member with key `k`.
pub open spec fn obj_has(o: Seq<(Seq<char>, JsonV)>, k: Seq<char>) -> bool {
    obj_get(o, k) is Some
}

/// A single object member, as a segment of an object under construction.
pub open spec fn fld(k: Seq<char>, v: JsonV) -> Seq<(Seq<char>, JsonV)> {
    seq![(k, v)]
}

/// An optional object member: one pair when the value is present, nothing
/// when it is absent.
pub open spec fn opt_fld(k: Seq<char>, v: Option<JsonV>) -> Seq<(Seq<char>, JsonV)> {
    match v {
        Some(v) => seq![(k, v)],
        None => seq![],
    }
}

pub broadcast proof fn lemma_obj_get_concat(a: Seq<(Seq<char>, JsonV)>, b: Seq<(Seq<char>, JsonV)>, k: Seq<char>)
    ensures
        #[trigger] obj_get(a + b, k) == if obj_has(a, k) {
            obj_get(a, k)
        } else {
            obj_get(b, k)
        },
    decreases a.len(),
{
    if a.len() == 0 {
        assert(a + b =~= b);
    } else {
        assert((a + b)[0] == a[0]);
        assert((a + b).drop_first() =~= a.drop_first() + b);
        lemma_obj_get_concat(a.drop_first(), b, k);
    }
}

pub broadcast proof fn lemma_obj_get_fld(k0: Seq<char>, v: JsonV, k: Seq<char>)
    ensures
        #[trigger] obj_get(fld(k0, v), k) == if k0 == k {
            Some(v)
        } else {
            None::<JsonV>
        },
{
    let s = fld(k0, v);
    assert(s.len() == 1 && s[0] == (k0, v));
    if k0 != k {
        assert(s.drop_first() =~= Seq::<(Seq<char>, JsonV)>::empty());
        assert(obj_get(s.drop_first(), k) is None);
    }
}

pub broadcast proof fn lemma_obj_get_opt_fld(k0: Seq<char>, v: Option<JsonV>, k: Seq<char>)
    ensures
        #[trigger] obj_get(opt_fld(k0, v), k) == if k0 == k && v is Some {
            v
        } else {
            None::<JsonV>
        },
{
    match v {
        Some(v0) => lemma_obj_get_fld(k0, v0, k),
        None => {},
    }
}

pub broadcast proof fn lemma_pairs_view_push(s: Seq<(String, JsonValue)>, p: (String, JsonValue))
    ensures
        #[trigger] pairs_view(s.push(p)) == pairs_view(s) + seq![(p.0@, p.1@)],
{
    assert(pairs_view(s.push(p)) =~= pairs_view(s) + seq![(p.0@, p.1@)]);
}

pub broadcast proof fn lemma_arr_view_push(s: Seq<JsonValue>, v: JsonValue)
    ensures
        #[trigger] arr_view(s.push(v)) == arr_view(s) + seq![v@],
{
    assert(arr_view(s.push(v)) =~= arr_view(s) + seq![v@]);
}

/// All the object-lookup lemmas the codec proofs lean on.
pub broadcast group group_json_lemmas {
    lemma_obj_get_concat,
    lemma_obj_get_fld,
    lemma_obj_get_opt_fld,
    lemma_pairs_view_push,
    lemma_arr_view_push,
}

/// The first member of `o` with key `key`, if any.
pub fn lookup<'a>(o: &'a Vec<(String, JsonValue)>, key: &str) -> (r: Option<&'a JsonValue>)
    ensures
        match r {
            Some(v) => obj_get(pairs_view(o@), key@) == Some(v@),
            None => obj_get(pairs_view(o@), key@) is None,
        },
{
    let k: String = key.to_owned();
    let n = o.len();
    for i in 0..n
        invariant
            n == o.len(),
            k@ == key@,
            obj_get(pairs_view(o@.subrange(0, i as int)), key@) is None,
    {
        proof {
            lemma_pairs_view_push(o@.subrange(0, i as int), o@[i as int]);
            assert(o@.subrange(0, i as int).push(o@[i as int]) =~= o@.subrange(0, i as int + 1));
            lemma_obj_get_concat(
                pairs_view(o@.subrange(0, i as int)),
                seq![(o@[i as int].0@, o@[i as int].1@)],
                key@,
            );
            lemma_obj_get_fld(o@[i as int].0@, o@[i as int].1@, key@);
        }
        if o[i].0 == k {
            proof {
                assert(pairs_view(o@.subrange(0, i as int + 1)) =~= pairs_view(o@).subrange(
                    0,
                    i as int + 1,
                ));
                lemma_obj_get_prefix(pairs_view(o@.subrange(0, i as int + 1)), pairs_view(o@), key@);
            }
            return Some(&o[i].1);
        }
    }
    proof {
        assert(o@.subrange(0, n as int) =~= o@);
    }
    None
}

/// Once a lookup has succeeded on a prefix of an object, the longer object
/// gives the same answer.
proof fn lemma_obj_get_prefix(a: Seq<(Seq<char>, JsonV)>, full: Seq<(Seq<char>, JsonV)>, k: Seq<char>)
    requires
        a.len() <= full.len(),
        a == full.subrange(0, a.len() as int),
        obj_get(a, k) is Some,
    ensures
        obj_get(full, k) == obj_get(a, k),
{
    let b = full.subrange(a.len() as int, full.len() as int);
    assert(full =~= a + b);
    lemma_obj_get_concat(a, b, k);
}

} // verus!
