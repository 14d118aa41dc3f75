//! The document tree that a persisted record parses into, and the field
//! lookup primitives that every decoder is specified with.

use vstd::prelude::*;

verus! {

broadcast use vstd::string::group_string_axioms;

/// A number as it appears in a serialized document: either an exact integer
/// or the literal text of a non-integral value, kept verbatim.
#[derive(Debug, Clone, PartialEq, Eq)]
pub enum Num {
    Int(i64),
    Dec(String),
}

/// One parsed structured document: a tree of maps, lists, strings, numbers,
/// booleans and nulls. A map is kept as a list of entries, in the order the
/// parser yields them; a lookup takes the first entry under a name.
#[derive(Debug, PartialEq)]
pub enum Doc {
    Null,
    Bool(bool),
    Num(Num),
    Str(String),
    Arr(Vec<Doc>),
    Obj(Vec<(String, Doc)>),
}

/// The value stored under the first entry named `name`, if any.
pub open spec fn lookup(entries: Seq<(String, Doc)>, name: Seq<char>) -> Option<Doc>
    decreases entries.len(),
{
    if entries.len() == 0 {
        None
    } else if entries[0].0@ == name {
        Some(entries[0].1)
    } else {
        lookup(entries.drop_first(), name)
    }
}

/// The value under the canonical name where present, else the value under the
/// legacy alternate name: the field-name normalization applied before any
/// structural decoding.
pub open spec fn lookup_aliased(
    entries: Seq<(String, Doc)>,
    canonical: Seq<char>,
    legacy: Seq<char>,
) -> Option<Doc> {
    match lookup(entries, canonical) {
        Some(d) => Some(d),
        None => lookup(entries, legacy),
    }
}

/// Relies on `str`'s `PartialEq`: two string slices compare equal exactly when
/// their character sequences do.
#[verifier::external_body]
pub fn str_eq(a: &str, b: &str) -> (r: bool)
    ensures
        r == (a@ == b@),
{
    a == b
}

/// No two of the names designate the same field.
pub open spec fn distinct_names(names: Seq<&str>) -> bool {
    forall|i: int, j: int| 0 <= i < j < names.len() ==> names[i]@ != names[j]@
}

/// Collects, for each field name, the value stored under the first entry with
/// that name. Entries under other names (producer markers among them) are
/// discarded, never reported: absence of a name is the caller's concern.
pub fn collect_fields(entries: Vec<(String, Doc)>, names: &Vec<&str>) -> (slots: Vec<
    Option<Doc>,
>)
    requires
        distinct_names(names@),
    ensures
        slots@.len() == names@.len(),
        forall|j: int| 0 <= j < names@.len() ==> slots@[j] == lookup(entries@, names@[j]@),
{
    let ghost all = entries@;
    let mut entries = entries;
    let mut slots: Vec<Option<Doc>> = Vec::new();
    let mut j: usize = 0;
    while j < names.len()
        invariant
            j <= names@.len(),
            slots@.len() == j as int,
            forall|t: int| 0 <= t < j ==> slots@[t] is None,
        decreases names@.len() - j,
    {
        slots.push(None);
        j += 1;
    }
    proof {
        assert(all.take(all.len() as int) =~= all);
        assert(all.skip(all.len() as int) =~= Seq::<(String, Doc)>::empty());
    }
    while entries.len() > 0
        invariant
            distinct_names(names@),
            slots@.len() == names@.len(),
            entries@.len() <= all.len(),
            entries@ == all.take(entries@.len() as int),
            forall|t: int| 0 <= t < names@.len() ==> slots@[t] == lookup(
                all.skip(entries@.len() as int),
                names@[t]@,
            ),
        decreases entries@.len(),
    {
        let ghost n = entries@.len() as int;
        let pair = entries.pop().unwrap();
        proof {
            assert(all.take(n).last() == all[n - 1]);
            assert(all.take(n).drop_last() =~= all.take(n - 1));
            assert(all.skip(n - 1)[0] == all[n - 1]);
            assert(all.skip(n - 1).drop_first() =~= all.skip(n));
        }
        let key = pair.0;
        let val = pair.1;
        let mut t: usize = 0;
        let mut hit: usize = names.len();
        while t < names.len()
            invariant
                t <= names@.len(),
                hit <= names@.len(),
                hit == names@.len() ==> forall|u: int| 0 <= u < t ==> names@[u]@ != key@,
                hit < names@.len() ==> names@[hit as int]@ == key@,
            decreases names@.len() - t,
        {
            if hit == names.len() && str_eq(key.as_str(), names[t]) {
                hit = t;
            }
            t += 1;
        }
        if hit < names.len() {
            slots[hit] = Some(val);
        }
    }
    proof {
        assert(all.skip(0) =~= all);
    }
    slots
}

/// What a required string field holds, when it has the right shape.
pub open spec fn req_str_s(o: Option<Doc>) -> Option<String> {
    match o {
        Some(Doc::Str(s)) => Some(s),
        _ => None,
    }
}

pub fn req_str(o: Option<Doc>) -> (r: Option<String>)
    ensures
        r == req_str_s(o),
{
    match o {
        Some(Doc::Str(s)) => Some(s),
        _ => None,
    }
}

/// What a required boolean field holds, when it has the right shape.
pub open spec fn req_bool_s(o: Option<Doc>) -> Option<bool> {
    match o {
        Some(Doc::Bool(b)) => Some(b),
        _ => None,
    }
}

pub fn req_bool(o: Option<Doc>) -> (r: Option<bool>)
    ensures
        r == req_bool_s(o),
{
    match o {
        Some(Doc::Bool(b)) => Some(b),
        _ => None,
    }
}

/// What a required numeric field holds, when it has the right shape.
pub open spec fn req_num_s(o: Option<Doc>) -> Option<Num> {
    match o {
        Some(Doc::Num(n)) => Some(n),
        _ => None,
    }
}

pub fn req_num(o: Option<Doc>) -> (r: Option<Num>)
    ensures
        r == req_num_s(o),
{
    match o {
        Some(Doc::Num(n)) => Some(n),
        _ => None,
    }
}

/// What a required unsigned counter field holds: an exact integer within
/// `u32` range, anything else being a shape mismatch.
pub open spec fn req_u32_s(o: Option<Doc>) -> Option<u32> {
    match o {
        Some(Doc::Num(Num::Int(i))) => if 0 <= i <= u32::MAX {
            Some(i as u32)
        } else {
            None
        },
        _ => None,
    }
}

pub fn req_u32(o: Option<Doc>) -> (r: Option<u32>)
    ensures
        r == req_u32_s(o),
{
    match o {
        Some(Doc::Num(Num::Int(i))) => if 0 <= i && i <= u32::MAX as i64 {
            Some(i as u32)
        } else {
            None
        },
        _ => None,
    }
}

/// An optional field's effective value: an absent field and an explicit null
/// both count as absent, a known and accepted condition rather than an error.
pub open spec fn opt_field_s(o: Option<Doc>) -> Option<Doc> {
    match o {
        None => None,
        Some(Doc::Null) => None,
        Some(d) => Some(d),
    }
}

} // verus!


