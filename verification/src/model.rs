//! The typed core model: references, identity, access rules, the entity
//! envelope, and the error kinds — with the decoders for the shapes that
//! several record kinds share.

use vstd::prelude::*;

use crate::doc::{
    collect_fields, distinct_names, lookup, opt_field_s, req_str, req_str_s, req_u32, req_u32_s,
    Doc,
};

verus! {

broadcast use vstd::string::group_string_axioms;

/// The opaque, stable identifier of one entity.
pub type EntityKey = String;

/// A non-owning reference to another entity: its key, plus a denormalized
/// class name and display name for presentation. Holding one never implies
/// ownership; resolving it is the caller's concern.
#[derive(Debug, Clone, PartialEq)]
pub struct EntityRef {
    pub key: EntityKey,
    pub klass: String,
    pub name: String,
}

/// An entity's cryptographic identity. A missing signature is a known,
/// accepted condition, not an error.
#[derive(Debug, Clone, PartialEq)]
pub struct Identity {
    pub public: String,
    pub private: String,
    pub signature: Option<String>,
}

/// A kind descriptor: the identity of the kind an item belongs to.
#[derive(Debug, Clone, PartialEq)]
pub struct Kind {
    pub identity: Identity,
}

/// The string tag naming an entity's behavioral type.
#[derive(Debug, Clone, PartialEq)]
pub struct EntityClass {
    pub name: String,
}

/// One access rule: a set of capability keys paired with a permission.
#[derive(Debug, Clone, PartialEq)]
pub struct AclRule {
    pub keys: Vec<String>,
    pub perm: String,
}

/// An ordered list of access rules.
#[derive(Debug, Clone, PartialEq)]
pub struct Acls {
    pub rules: Vec<AclRule>,
}

#[verifier::ext_equal]
pub struct AclRuleV {
    pub keys: Seq<String>,
    pub perm: String,
}

impl View for AclRule {
    type V = AclRuleV;

    open spec fn view(&self) -> AclRuleV {
        AclRuleV { keys: self.keys@, perm: self.perm }
    }
}

#[verifier::ext_equal]
pub struct AclsV {
    pub rules: Seq<AclRuleV>,
}

impl View for Acls {
    type V = AclsV;

    open spec fn view(&self) -> AclsV {
        AclsV { rules: self.rules@.map_values(|r: AclRule| r@) }
    }
}

/// Why decoding one entity failed. Every kind is fatal to that entity's
/// decode alone; unknown component tags are deliberately not among them.
#[derive(Debug, Clone, PartialEq)]
pub enum DecodeError {
    /// The serialized text is not a well-formed document.
    DocumentParseError,
    /// A required top-level entity field is missing or has the wrong shape.
    MalformedEnvelope { field: String },
    /// A recognized component tag's document does not match its schema.
    ComponentShapeMismatch { tag: String, field: String },
}

pub enum DecodeErrorV {
    DocumentParseError,
    MalformedEnvelope(Seq<char>),
    ComponentShapeMismatch(Seq<char>, Seq<char>),
}

impl View for DecodeError {
    type V = DecodeErrorV;

    open spec fn view(&self) -> DecodeErrorV {
        match self {
            DecodeError::DocumentParseError => DecodeErrorV::DocumentParseError,
            DecodeError::MalformedEnvelope { field } => DecodeErrorV::MalformedEnvelope(field@),
            DecodeError::ComponentShapeMismatch { tag, field } => DecodeErrorV::ComponentShapeMismatch(
                tag@,
                field@,
            ),
        }
    }
}

// ------------------------------------------------------------------
// Shared shape decoders, each an exact mirror of its spec function.
// ------------------------------------------------------------------
/// What a reference document denotes: key, class and display name, with any
/// producer markers ignored.
pub open spec fn ref_s(d: Doc) -> Option<EntityRef> {
    match d {
        Doc::Obj(entries) => match (
            req_str_s(lookup(entries@, "key"@)),
            req_str_s(lookup(entries@, "klass"@)),
            req_str_s(lookup(entries@, "name"@)),
        ) {
            (Some(key), Some(klass), Some(name)) => Some(EntityRef { key, klass, name }),
            _ => None,
        },
        _ => None,
    }
}

pub fn decode_ref(d: Doc) -> (r: Option<EntityRef>)
    ensures
        r == ref_s(d),
{
    let entries = match d {
        Doc::Obj(entries) => entries,
        _ => {
            return None;
        },
    };
    let mut names: Vec<&str> = Vec::new();
    names.push("key");
    names.push("klass");
    names.push("name");
    proof {
        reveal_strlit("key");
        reveal_strlit("klass");
        reveal_strlit("name");
        assert(names@[0] == "key" && names@[1] == "klass" && names@[2] == "name");
        assert("key"@.len() == 3 && "klass"@.len() == 5 && "name"@.len() == 4);
        assert(distinct_names(names@));
    }
    let mut slots = collect_fields(entries, &names);
    let name = req_str(slots.pop().unwrap());
    let klass = req_str(slots.pop().unwrap());
    let key = req_str(slots.pop().unwrap());
    match (key, klass, name) {
        (Some(key), Some(klass), Some(name)) => Some(EntityRef { key, klass, name }),
        _ => None,
    }
}

/// Every element of the list is a well-shaped reference.
pub open spec fn refs_ok(items: Seq<Doc>) -> bool {
    forall|i: int| 0 <= i < items.len() ==> (#[trigger] ref_s(items[i])) is Some
}

/// What a list of reference documents denotes.
pub open spec fn refs_s(items: Seq<Doc>) -> Option<Seq<EntityRef>> {
    if refs_ok(items) {
        Some(items.map_values(|d: Doc| ref_s(d).unwrap()))
    } else {
        None
    }
}

#[verifier::loop_isolation(false)]
pub fn decode_refs(items: Vec<Doc>) -> (r: Option<Vec<EntityRef>>)
    ensures
        match r {
            Some(out) => refs_s(items@) == Some(out@),
            None => refs_s(items@) is None,
        },
{
    let ghost all = items@;
    let mut items = items;
    let mut out: Vec<EntityRef> = Vec::new();
    while items.len() > 0
        invariant
            all.len() == out@.len() + items@.len(),
            items@ == all.skip(out@.len() as int),
            forall|t: int| 0 <= t < out@.len() ==> (#[trigger] ref_s(all[t])) is Some && out@[t]
                == ref_s(all[t]).unwrap(),
        decreases items@.len(),
    {
        let ghost k = out@.len() as int;
        proof {
            assert(all.skip(k)[0] == all[k]);
            assert(all.skip(k).drop_first() =~= all.skip(k + 1));
        }
        let d = items.remove(0);
        match decode_ref(d) {
            Some(one) => out.push(one),
            None => {
                proof {
                    assert(0 <= k < all.len() && ref_s(all[k]) is None);
                    assert(!refs_ok(all));
                }
                return None;
            },
        }
    }
    proof {
        assert(refs_ok(all));
        assert(out@ =~= all.map_values(|d: Doc| ref_s(d).unwrap()));
    }
    Some(out)
}

/// What an identity document denotes: required key pair, optional signature.
pub open spec fn identity_s(d: Doc) -> Option<Identity> {
    match d {
        Doc::Obj(entries) => {
            let public = req_str_s(lookup(entries@, "public"@));
            let private = req_str_s(lookup(entries@, "private"@));
            let signature = opt_str_s(lookup(entries@, "signature"@));
            match (public, private, signature) {
                (Some(public), Some(private), Some(signature)) => Some(
                    Identity { public, private, signature },
                ),
                _ => None,
            }
        },
        _ => None,
    }
}

/// An optional string field: absent or null is an accepted absence, a present
/// value must be a string.
pub open spec fn opt_str_s(o: Option<Doc>) -> Option<Option<String>> {
    match opt_field_s(o) {
        None => Some(None),
        Some(Doc::Str(s)) => Some(Some(s)),
        Some(_) => None,
    }
}

pub fn opt_str(o: Option<Doc>) -> (r: Option<Option<String>>)
    ensures
        r == opt_str_s(o),
{
    match o {
        None => Some(None),
        Some(Doc::Null) => Some(None),
        Some(Doc::Str(s)) => Some(Some(s)),
        Some(_) => None,
    }
}

pub fn decode_identity(d: Doc) -> (r: Option<Identity>)
    ensures
        r == identity_s(d),
{
    let entries = match d {
        Doc::Obj(entries) => entries,
        _ => {
            return None;
        },
    };
    let mut names: Vec<&str> = Vec::new();
    names.push("public");
    names.push("private");
    names.push("signature");
    proof {
        reveal_strlit("public");
        reveal_strlit("private");
        reveal_strlit("signature");
        assert(names@[0] == "public" && names@[1] == "private" && names@[2] == "signature");
        assert("public"@.len() == 6 && "private"@.len() == 7 && "signature"@.len() == 9);
        assert(distinct_names(names@));
    }
    let mut slots = collect_fields(entries, &names);
    let signature = opt_str(slots.pop().unwrap());
    let private = req_str(slots.pop().unwrap());
    let public = req_str(slots.pop().unwrap());
    match (public, private, signature) {
        (Some(public), Some(private), Some(signature)) => Some(
            Identity { public, private, signature },
        ),
        _ => None,
    }
}

/// What a kind descriptor denotes: the identity under its `identity` field.
pub open spec fn kind_s(d: Doc) -> Option<Kind> {
    match d {
        Doc::Obj(entries) => match lookup(entries@, "identity"@) {
            Some(inner) => match identity_s(inner) {
                Some(identity) => Some(Kind { identity }),
                None => None,
            },
            None => None,
        },
        _ => None,
    }
}

pub fn decode_kind(d: Doc) -> (r: Option<Kind>)
    ensures
        r == kind_s(d),
{
    let entries = match d {
        Doc::Obj(entries) => entries,
        _ => {
            return None;
        },
    };
    let mut names: Vec<&str> = Vec::new();
    names.push("identity");
    let mut slots = collect_fields(entries, &names);
    let inner = match slots.pop().unwrap() {
        Some(inner) => inner,
        None => {
            return None;
        },
    };
    match decode_identity(inner) {
        Some(identity) => Some(Kind { identity }),
        None => None,
    }
}

/// What a class tag denotes: either the tag string itself, or the legacy
/// producer encoding, a map whose `py/type` entry holds the tag string.
pub open spec fn class_s(d: Doc) -> Option<EntityClass> {
    match d {
        Doc::Str(s) => Some(EntityClass { name: s }),
        Doc::Obj(entries) => match req_str_s(lookup(entries@, "py/type"@)) {
            Some(s) => Some(EntityClass { name: s }),
            None => None,
        },
        _ => None,
    }
}

pub fn decode_class(d: Doc) -> (r: Option<EntityClass>)
    ensures
        r == class_s(d),
{
    let entries = match d {
        Doc::Str(s) => {
            return Some(EntityClass { name: s });
        },
        Doc::Obj(entries) => entries,
        _ => {
            return None;
        },
    };
    let mut names: Vec<&str> = Vec::new();
    names.push("py/type");
    let mut slots = collect_fields(entries, &names);
    match req_str(slots.pop().unwrap()) {
        Some(s) => Some(EntityClass { name: s }),
        None => None,
    }
}

/// Every element of the list is a well-shaped string.
pub open spec fn strs_ok(items: Seq<Doc>) -> bool {
    forall|i: int| 0 <= i < items.len() ==> (#[trigger] items[i]) is Str
}

/// What a list of string documents denotes.
pub open spec fn strs_s(items: Seq<Doc>) -> Option<Seq<String>> {
    if strs_ok(items) {
        Some(items.map_values(|d: Doc| d->Str_0))
    } else {
        None
    }
}

#[verifier::loop_isolation(false)]
pub fn decode_strs(items: Vec<Doc>) -> (r: Option<Vec<String>>)
    ensures
        match r {
            Some(out) => strs_s(items@) == Some(out@),
            None => strs_s(items@) is None,
        },
{
    let ghost all = items@;
    let mut items = items;
    let mut out: Vec<String> = Vec::new();
    while items.len() > 0
        invariant
            all.len() == out@.len() + items@.len(),
            items@ == all.skip(out@.len() as int),
            forall|t: int| 0 <= t < out@.len() ==> (#[trigger] all[t]) is Str && out@[t] == all[t]->Str_0,
        decreases items@.len(),
    {
        let ghost k = out@.len() as int;
        proof {
            assert(all.skip(k)[0] == all[k]);
            assert(all.skip(k).drop_first() =~= all.skip(k + 1));
        }
        let d = items.remove(0);
        match d {
            Doc::Str(s) => out.push(s),
            _ => {
                proof {
                    assert(0 <= k < all.len() && !(all[k] is Str));
                    assert(!strs_ok(all));
                }
                return None;
            },
        }
    }
    proof {
        assert(strs_ok(all));
        assert(out@ =~= all.map_values(|d: Doc| d->Str_0));
    }
    Some(out)
}

/// What one access rule document denotes.
pub open spec fn rule_s(d: Doc) -> Option<AclRuleV> {
    match d {
        Doc::Obj(entries) => {
            let keys = match lookup(entries@, "keys"@) {
                Some(Doc::Arr(items)) => strs_s(items@),
                _ => None,
            };
            let perm = req_str_s(lookup(entries@, "perm"@));
            match (keys, perm) {
                (Some(keys), Some(perm)) => Some(AclRuleV { keys, perm }),
                _ => None,
            }
        },
        _ => None,
    }
}

pub fn decode_rule(d: Doc) -> (r: Option<AclRule>)
    ensures
        match r {
            Some(out) => rule_s(d) == Some(out@),
            None => rule_s(d) is None,
        },
{
    let entries = match d {
        Doc::Obj(entries) => entries,
        _ => {
            return None;
        },
    };
    let mut names: Vec<&str> = Vec::new();
    names.push("keys");
    names.push("perm");
    proof {
        reveal_strlit("keys");
        reveal_strlit("perm");
        assert(names@[0] == "keys" && names@[1] == "perm");
        assert("keys"@[0] != "perm"@[0]);
        assert(distinct_names(names@));
    }
    let mut slots = collect_fields(entries, &names);
    let perm = req_str(slots.pop().unwrap());
    let keys = match slots.pop().unwrap() {
        Some(Doc::Arr(items)) => decode_strs(items),
        _ => None,
    };
    match (keys, perm) {
        (Some(keys), Some(perm)) => Some(AclRule { keys, perm }),
        _ => None,
    }
}

/// Every element of the list is a well-shaped access rule.
pub open spec fn rules_ok(items: Seq<Doc>) -> bool {
    forall|i: int| 0 <= i < items.len() ==> (#[trigger] rule_s(items[i])) is Some
}

/// What a list of access rule documents denotes.
pub open spec fn rules_s(items: Seq<Doc>) -> Option<Seq<AclRuleV>> {
    if rules_ok(items) {
        Some(items.map_values(|d: Doc| rule_s(d).unwrap()))
    } else {
        None
    }
}

#[verifier::loop_isolation(false)]
pub fn decode_rules(items: Vec<Doc>) -> (r: Option<Vec<AclRule>>)
    ensures
        match r {
            Some(out) => rules_s(items@) == Some(out@.map_values(|x: AclRule| x@)),
            None => rules_s(items@) is None,
        },
{
    let ghost all = items@;
    let mut items = items;
    let mut out: Vec<AclRule> = Vec::new();
    while items.len() > 0
        invariant
            all.len() == out@.len() + items@.len(),
            items@ == all.skip(out@.len() as int),
            forall|t: int| 0 <= t < out@.len() ==> (#[trigger] rule_s(all[t])) is Some && out@[t]@
                == rule_s(all[t]).unwrap(),
        decreases items@.len(),
    {
        let ghost k = out@.len() as int;
        proof {
            assert(all.skip(k)[0] == all[k]);
            assert(all.skip(k).drop_first() =~= all.skip(k + 1));
        }
        let d = items.remove(0);
        match decode_rule(d) {
            Some(one) => out.push(one),
            None => {
                proof {
                    assert(0 <= k < all.len() && rule_s(all[k]) is None);
                    assert(!rules_ok(all));
                }
                return None;
            },
        }
    }
    proof {
        assert(rules_ok(all));
        assert(out@.map_values(|x: AclRule| x@) =~= all.map_values(|d: Doc| rule_s(d).unwrap()));
    }
    Some(out)
}

/// What an access rule list document denotes: a map whose `rules` entry holds
/// the list of rules.
pub open spec fn acls_s(d: Doc) -> Option<AclsV> {
    match d {
        Doc::Obj(entries) => match lookup(entries@, "rules"@) {
            Some(Doc::Arr(items)) => match rules_s(items@) {
                Some(rules) => Some(AclsV { rules }),
                None => None,
            },
            _ => None,
        },
        _ => None,
    }
}

pub fn decode_acls(d: Doc) -> (r: Option<Acls>)
    ensures
        match r {
            Some(out) => acls_s(d) == Some(out@),
            None => acls_s(d) is None,
        },
{
    let entries = match d {
        Doc::Obj(entries) => entries,
        _ => {
            return None;
        },
    };
    let mut names: Vec<&str> = Vec::new();
    names.push("rules");
    let mut slots = collect_fields(entries, &names);
    let rules = match slots.pop().unwrap() {
        Some(Doc::Arr(items)) => decode_rules(items),
        _ => None,
    };
    match rules {
        Some(rules) => Some(Acls { rules }),
        None => None,
    }
}

/// An optional reference field: absent or null is an accepted absence, a
/// present value must be a well-shaped reference.
pub open spec fn opt_ref_s(o: Option<Doc>) -> Option<Option<EntityRef>> {
    match opt_field_s(o) {
        None => Some(None),
        Some(d) => match ref_s(d) {
            Some(one) => Some(Some(one)),
            None => None,
        },
    }
}

pub fn decode_opt_ref(o: Option<Doc>) -> (r: Option<Option<EntityRef>>)
    ensures
        r == opt_ref_s(o),
{
    match o {
        None => Some(None),
        Some(Doc::Null) => Some(None),
        Some(d) => match decode_ref(d) {
            Some(one) => Some(Some(one)),
            None => None,
        },
    }
}

/// An optional counter field: absent or null is an accepted absence, a
/// present value must be an integer within `u32` range.
pub open spec fn opt_u32_s(o: Option<Doc>) -> Option<Option<u32>> {
    match opt_field_s(o) {
        None => Some(None),
        Some(d) => match req_u32_s(Some(d)) {
            Some(n) => Some(Some(n)),
            None => None,
        },
    }
}

pub fn decode_opt_u32(o: Option<Doc>) -> (r: Option<Option<u32>>)
    ensures
        r == opt_u32_s(o),
{
    match o {
        None => Some(None),
        Some(Doc::Null) => Some(None),
        Some(d) => match req_u32(Some(d)) {
            Some(n) => Some(Some(n)),
            None => None,
        },
    }
}

} // verus!
