//! The entity envelope decoder: the fixed outer shape of a persisted entity
//! record, extracted by canonical-or-legacy field name, leaving the component
//! documents untouched for the component decoder.

use vstd::prelude::*;

use crate::doc::{
    collect_fields, distinct_names, lookup, lookup_aliased, opt_field_s, req_str, req_str_s,
    req_u32, req_u32_s, Doc,
};
use crate::jsonio::{parse_document, parsed_doc};
use crate::model::{
    acls_s, class_s, decode_acls, decode_class, decode_identity, decode_opt_ref, identity_s,
    opt_ref_s, Acls, AclsV, DecodeError, DecodeErrorV, EntityClass, EntityRef, Identity,
};

verus! {

broadcast use vstd::string::group_string_axioms;

/// One decoded world entity: the envelope fields, the free-form properties
/// passed through unexamined, and the raw component documents by tag.
#[derive(Debug, PartialEq)]
pub struct Entity {
    pub key: String,
    pub version: u32,
    pub parent: Option<EntityRef>,
    pub creator: Option<EntityRef>,
    pub identity: Identity,
    pub class: EntityClass,
    pub acls: Acls,
    pub props: Vec<(String, Doc)>,
    pub scopes: Vec<(String, Doc)>,
}

#[verifier::ext_equal]
pub struct EntityV {
    pub key: String,
    pub version: u32,
    pub parent: Option<EntityRef>,
    pub creator: Option<EntityRef>,
    pub identity: Identity,
    pub class: EntityClass,
    pub acls: AclsV,
    pub props: Seq<(String, Doc)>,
    pub scopes: Seq<(String, Doc)>,
}

impl View for Entity {
    type V = EntityV;

    open spec fn view(&self) -> EntityV {
        EntityV {
            key: self.key,
            version: self.version,
            parent: self.parent,
            creator: self.creator,
            identity: self.identity,
            class: self.class,
            acls: self.acls@,
            props: self.props@,
            scopes: self.scopes@,
        }
    }
}

/// What the version field denotes: a map whose `i` entry holds the counter.
pub open spec fn version_s(o: Option<Doc>) -> Option<u32> {
    match o {
        Some(Doc::Obj(entries)) => req_u32_s(lookup(entries@, "i"@)),
        _ => None,
    }
}

pub fn decode_version(o: Option<Doc>) -> (r: Option<u32>)
    ensures
        r == version_s(o),
{
    match o {
        Some(Doc::Obj(entries)) => {
            let mut names: Vec<&str> = Vec::new();
            names.push("i");
            let mut slots = collect_fields(entries, &names);
            req_u32(slots.pop().unwrap())
        },
        _ => None,
    }
}

/// What the properties field denotes: a map whose `map` entry holds the
/// property entries, each value opaque structured data passed through.
pub open spec fn props_s(o: Option<Doc>) -> Option<Seq<(String, Doc)>> {
    match o {
        Some(Doc::Obj(entries)) => match lookup(entries@, "map"@) {
            Some(Doc::Obj(m)) => Some(m@),
            _ => None,
        },
        _ => None,
    }
}

pub fn decode_props(o: Option<Doc>) -> (r: Option<Vec<(String, Doc)>>)
    ensures
        match r {
            Some(out) => props_s(o) == Some(out@),
            None => props_s(o) is None,
        },
{
    match o {
        Some(Doc::Obj(entries)) => {
            let mut names: Vec<&str> = Vec::new();
            names.push("map");
            let mut slots = collect_fields(entries, &names);
            match slots.pop().unwrap() {
                Some(Doc::Obj(m)) => Some(m),
                _ => None,
            }
        },
        _ => None,
    }
}

/// What the component map field denotes: absent or null is an empty map, a
/// present value must be a map from tag to component document.
pub open spec fn scopes_s(o: Option<Doc>) -> Option<Seq<(String, Doc)>> {
    match opt_field_s(o) {
        None => Some(Seq::empty()),
        Some(Doc::Obj(m)) => Some(m@),
        Some(_) => None,
    }
}

pub fn decode_scopes(o: Option<Doc>) -> (r: Option<Vec<(String, Doc)>>)
    ensures
        match r {
            Some(out) => scopes_s(o) == Some(out@),
            None => scopes_s(o) is None,
        },
{
    match o {
        None => Some(Vec::new()),
        Some(Doc::Null) => Some(Vec::new()),
        Some(Doc::Obj(m)) => Some(m),
        Some(_) => None,
    }
}

/// A required identity field.
pub open spec fn identity_req_s(o: Option<Doc>) -> Option<Identity> {
    match o {
        Some(d) => identity_s(d),
        None => None,
    }
}

/// A required class field.
pub open spec fn class_req_s(o: Option<Doc>) -> Option<EntityClass> {
    match o {
        Some(d) => class_s(d),
        None => None,
    }
}

/// A required access rule list field.
pub open spec fn acls_req_s(o: Option<Doc>) -> Option<AclsV> {
    match o {
        Some(d) => acls_s(d),
        None => None,
    }
}

/// What the envelope's entries denote: each fixed field extracted by
/// canonical-or-legacy name, the first ill-shaped field in canonical order
/// named on failure.
pub open spec fn envelope_s(entries: Seq<(String, Doc)>) -> Result<EntityV, Seq<char>> {
    let key = req_str_s(lookup(entries, "key"@));
    let version = version_s(lookup(entries, "version"@));
    let parent = opt_ref_s(lookup(entries, "parent"@));
    let creator = opt_ref_s(lookup(entries, "creator"@));
    let identity = identity_req_s(lookup(entries, "identity"@));
    let class = class_req_s(lookup_aliased(entries, "class"@, "klass"@));
    let acls = acls_req_s(lookup(entries, "acls"@));
    let props = props_s(lookup(entries, "props"@));
    let scopes = scopes_s(lookup(entries, "scopes"@));
    if key is None {
        Err("key"@)
    } else if version is None {
        Err("version"@)
    } else if parent is None {
        Err("parent"@)
    } else if creator is None {
        Err("creator"@)
    } else if identity is None {
        Err("identity"@)
    } else if class is None {
        Err("class"@)
    } else if acls is None {
        Err("acls"@)
    } else if props is None {
        Err("props"@)
    } else if scopes is None {
        Err("scopes"@)
    } else {
        Ok(
            EntityV {
                key: key.unwrap(),
                version: version.unwrap(),
                parent: parent.unwrap(),
                creator: creator.unwrap(),
                identity: identity.unwrap(),
                class: class.unwrap(),
                acls: acls.unwrap(),
                props: props.unwrap(),
                scopes: scopes.unwrap(),
            },
        )
    }
}

/// What a whole entity document denotes: a map-shaped record whose entries
/// form the envelope.
pub open spec fn entity_s(d: Doc) -> Result<EntityV, Seq<char>> {
    match d {
        Doc::Obj(entries) => envelope_s(entries@),
        _ => Err("entity"@),
    }
}

fn env_err(field: &str) -> (r: DecodeError)
    ensures
        r@ == DecodeErrorV::MalformedEnvelope(field@),
{
    DecodeError::MalformedEnvelope { field: field.to_owned() }
}

/// Decodes the envelope of one already-parsed entity document.
pub fn decode_entity_doc(d: Doc) -> (r: Result<Entity, DecodeError>)
    ensures
        match r {
            Ok(e) => entity_s(d) == Ok::<EntityV, Seq<char>>(e@),
            Err(e) => entity_s(d) is Err && e@ == DecodeErrorV::MalformedEnvelope(
                entity_s(d)->Err_0,
            ),
        },
{
    let entries = match d {
        Doc::Obj(entries) => entries,
        _ => {
            return Err(env_err("entity"));
        },
    };
    let mut names: Vec<&str> = Vec::new();
    names.push("key");
    names.push("version");
    names.push("parent");
    names.push("creator");
    names.push("identity");
    names.push("class");
    names.push("klass");
    names.push("acls");
    names.push("props");
    names.push("scopes");
    proof {
        reveal_strlit("key");
        reveal_strlit("version");
        reveal_strlit("parent");
        reveal_strlit("creator");
        reveal_strlit("identity");
        reveal_strlit("class");
        reveal_strlit("klass");
        reveal_strlit("acls");
        reveal_strlit("props");
        reveal_strlit("scopes");
        assert(names@[0] == "key" && names@[1] == "version" && names@[2] == "parent"
            && names@[3] == "creator" && names@[4] == "identity" && names@[5] == "class"
            && names@[6] == "klass" && names@[7] == "acls" && names@[8] == "props"
            && names@[9] == "scopes");
        assert("key"@.len() == 3 && "version"@.len() == 7 && "parent"@.len() == 6
            && "creator"@.len() == 7 && "identity"@.len() == 8 && "class"@.len() == 5
            && "klass"@.len() == 5 && "acls"@.len() == 4 && "props"@.len() == 5
            && "scopes"@.len() == 6);
        assert("version"@[0] != "creator"@[0]);
        assert("parent"@[0] != "scopes"@[0]);
        assert("class"@[0] != "klass"@[0]);
        assert("class"@[0] != "props"@[0]);
        assert("klass"@[0] != "props"@[0]);
        assert(distinct_names(names@));
    }
    let mut slots = collect_fields(entries, &names);
    let scopes_slot = slots.pop().unwrap();
    let props_slot = slots.pop().unwrap();
    let acls_slot = slots.pop().unwrap();
    let klass_slot = slots.pop().unwrap();
    let class_slot = slots.pop().unwrap();
    let identity_slot = slots.pop().unwrap();
    let creator_slot = slots.pop().unwrap();
    let parent_slot = slots.pop().unwrap();
    let version_slot = slots.pop().unwrap();
    let key_slot = slots.pop().unwrap();

    let key = match req_str(key_slot) {
        Some(key) => key,
        None => {
            return Err(env_err("key"));
        },
    };
    let version = match decode_version(version_slot) {
        Some(version) => version,
        None => {
            return Err(env_err("version"));
        },
    };
    let parent = match decode_opt_ref(parent_slot) {
        Some(parent) => parent,
        None => {
            return Err(env_err("parent"));
        },
    };
    let creator = match decode_opt_ref(creator_slot) {
        Some(creator) => creator,
        None => {
            return Err(env_err("creator"));
        },
    };
    let identity = match identity_slot {
        Some(d) => match decode_identity(d) {
            Some(identity) => identity,
            None => {
                return Err(env_err("identity"));
            },
        },
        None => {
            return Err(env_err("identity"));
        },
    };
    let class_doc = match class_slot {
        Some(d) => Some(d),
        None => klass_slot,
    };
    let class = match class_doc {
        Some(d) => match decode_class(d) {
            Some(class) => class,
            None => {
                return Err(env_err("class"));
            },
        },
        None => {
            return Err(env_err("class"));
        },
    };
    let acls = match acls_slot {
        Some(d) => match decode_acls(d) {
            Some(acls) => acls,
            None => {
                return Err(env_err("acls"));
            },
        },
        None => {
            return Err(env_err("acls"));
        },
    };
    let props = match decode_props(props_slot) {
        Some(props) => props,
        None => {
            return Err(env_err("props"));
        },
    };
    let scopes = match decode_scopes(scopes_slot) {
        Some(scopes) => scopes,
        None => {
            return Err(env_err("scopes"));
        },
    };
    Ok(Entity { key, version, parent, creator, identity, class, acls, props, scopes })
}

/// What decoding a serialized record denotes: a parse failure surfaces before
/// any field extraction, and a parsed document decodes as its envelope says.
pub open spec fn decode_entity_s(text: Seq<char>) -> Result<EntityV, DecodeErrorV> {
    match parsed_doc(text) {
        None => Err(DecodeErrorV::DocumentParseError),
        Some(d) => match entity_s(d) {
            Ok(e) => Ok(e),
            Err(field) => Err(DecodeErrorV::MalformedEnvelope(field)),
        },
    }
}

/// Decodes one serialized entity record: parse, then envelope.
pub fn decode_entity(text: &str) -> (r: Result<Entity, DecodeError>)
    ensures
        match r {
            Ok(e) => decode_entity_s(text@) == Ok::<EntityV, DecodeErrorV>(e@),
            Err(e) => decode_entity_s(text@) == Err::<EntityV, DecodeErrorV>(e@),
        },
{
    match parse_document(text) {
        None => Err(DecodeError::DocumentParseError),
        Some(d) => decode_entity_doc(d),
    }
}

/// One persisted row, as the storage backend hands it over.
#[derive(Debug, Clone, PartialEq)]
pub struct PersistedEntity {
    pub key: String,
    pub gid: u32,
    pub version: u32,
    pub serialized: String,
}

impl PersistedEntity {
    /// Decodes this row's serialized document into a typed entity.
    pub fn to_entity(&self) -> (r: Result<Entity, DecodeError>)
        ensures
            match r {
                Ok(e) => decode_entity_s(self.serialized@) == Ok::<EntityV, DecodeErrorV>(e@),
                Err(e) => decode_entity_s(self.serialized@) == Err::<EntityV, DecodeErrorV>(e@),
            },
    {
        decode_entity(self.serialized.as_str())
    }
}

/// Decoding is deterministic: the decoded value is a fixed function of the
/// serialized text alone, so decoding the same document twice yields
/// value-equal results.
pub proof fn lemma_decode_deterministic(text1: Seq<char>, text2: Seq<char>)
    requires
        text1 == text2,
    ensures
        decode_entity_s(text1) == decode_entity_s(text2),
{
}

/// A class field supplied only under its legacy alternate name decodes
/// exactly as it does under the canonical name: two envelopes that agree on
/// every other field, one carrying the class value under the legacy name and
/// one under the canonical name, decode to equal entities.
pub proof fn lemma_class_legacy_alias(
    e1: Seq<(String, Doc)>,
    e2: Seq<(String, Doc)>,
    v: Doc,
)
    requires
        lookup(e1, "class"@) is None,
        lookup(e1, "klass"@) == Some(v),
        lookup(e2, "class"@) == Some(v),
        lookup(e1, "key"@) == lookup(e2, "key"@),
        lookup(e1, "version"@) == lookup(e2, "version"@),
        lookup(e1, "parent"@) == lookup(e2, "parent"@),
        lookup(e1, "creator"@) == lookup(e2, "creator"@),
        lookup(e1, "identity"@) == lookup(e2, "identity"@),
        lookup(e1, "acls"@) == lookup(e2, "acls"@),
        lookup(e1, "props"@) == lookup(e2, "props"@),
        lookup(e1, "scopes"@) == lookup(e2, "scopes"@),
    ensures
        lookup_aliased(e1, "class"@, "klass"@) == Some(v),
        lookup_aliased(e2, "class"@, "klass"@) == Some(v),
        envelope_s(e1) == envelope_s(e2),
{
}

/// Missing optional fields decode to an explicit absent state, never an
/// error: an absent parent or creator decodes to no reference, and an absent
/// signature on an otherwise well-shaped identity decodes to no signature.
pub proof fn lemma_optional_fields_absent(entries: Seq<(String, Doc)>, id: Doc)
    requires
        lookup(entries, "parent"@) is None,
        lookup(entries, "creator"@) is None,
        id is Obj,
        lookup(id->Obj_0@, "signature"@) is None,
    ensures
        opt_ref_s(lookup(entries, "parent"@)) == Some(Option::<EntityRef>::None),
        opt_ref_s(lookup(entries, "creator"@)) == Some(Option::<EntityRef>::None),
        envelope_s(entries) is Ok ==> envelope_s(entries)->Ok_0.parent is None,
        envelope_s(entries) is Ok ==> envelope_s(entries)->Ok_0.creator is None,
        identity_s(id) is Some ==> identity_s(id).unwrap().signature is None,
{
}

} // verus!
