//! The component ("scope") schemas, the tag registry, and the polymorphic
//! component decoder: every entry of an entity's component map is dispatched
//! to its tag's schema, and a tag the registry does not know decodes to an
//! explicit unrecognized sentinel rather than failing.

use vstd::prelude::*;

use crate::doc::{
    collect_fields, distinct_names, lookup, opt_field_s, req_bool_s, req_bool, req_num,
    req_num_s, req_str, req_str_s, req_u32, req_u32_s, str_eq, Doc, Num,
};
use crate::envelope::acls_req_s;
use crate::model::{
    decode_acls, decode_kind, decode_opt_ref, decode_opt_u32, decode_ref, decode_refs,
    decode_strs, kind_s, opt_ref_s, opt_str, opt_str_s, opt_u32_s, ref_s, refs_s, strs_s, Acls,
    AclsV, DecodeError, DecodeErrorV, EntityKey, EntityRef, Kind,
};

verus! {

broadcast use vstd::string::group_string_axioms;

/// A marker implemented by every component schema.
pub trait Scope {

}

/// A carryable item: kind descriptor, looseness flag, quantity.
#[derive(Debug, Clone, PartialEq)]
pub struct Carryable {
    pub kind: Kind,
    pub loose: bool,
    pub quantity: Num,
}

impl Scope for Carryable {

}

/// A lock/open descriptor attached to a container; only its presence is
/// modeled.
#[derive(Debug, Clone, PartialEq)]
pub struct Openable {
}

/// A container: optional capacity, held references, locked flag, optional
/// open descriptor, optional content-generation pattern, opaque produced
/// content.
#[derive(Debug, PartialEq)]
pub struct Containing {
    pub acls: Acls,
    pub capacity: Option<u32>,
    pub holding: Vec<EntityRef>,
    pub locked: bool,
    pub openable: Option<Openable>,
    pub pattern: Option<String>,
    pub produces: Doc,
}

impl Scope for Containing {

}

#[verifier::ext_equal]
pub struct ContainingV {
    pub acls: AclsV,
    pub capacity: Option<u32>,
    pub holding: Seq<EntityRef>,
    pub locked: bool,
    pub openable: Option<Openable>,
    pub pattern: Option<String>,
    pub produces: Doc,
}

impl View for Containing {
    type V = ContainingV;

    open spec fn view(&self) -> ContainingV {
        ContainingV {
            acls: self.acls@,
            capacity: self.capacity,
            holding: self.holding@,
            locked: self.locked,
            openable: self.openable,
            pattern: self.pattern,
            produces: self.produces,
        }
    }
}

/// A location: the optional containing reference.
#[derive(Debug, Clone, PartialEq)]
pub struct Location {
    pub acls: Acls,
    pub container: Option<EntityRef>,
}

impl Scope for Location {

}

#[verifier::ext_equal]
pub struct LocationV {
    pub acls: AclsV,
    pub container: Option<EntityRef>,
}

impl View for Location {
    type V = LocationV;

    open spec fn view(&self) -> LocationV {
        LocationV { acls: self.acls@, container: self.container }
    }
}

/// An ownership relation: the owner reference.
#[derive(Debug, Clone, PartialEq)]
pub struct Ownership {
    pub owner: EntityRef,
}

impl Scope for Ownership {

}

/// An occupyable slot: capacity count and occupant references.
#[derive(Debug, Clone, PartialEq)]
pub struct Occupyable {
    pub acls: Acls,
    pub occupancy: u32,
    pub occupied: Vec<EntityRef>,
}

impl Scope for Occupyable {

}

#[verifier::ext_equal]
pub struct OccupyableV {
    pub acls: AclsV,
    pub occupancy: u32,
    pub occupied: Seq<EntityRef>,
}

impl View for Occupyable {
    type V = OccupyableV;

    open spec fn view(&self) -> OccupyableV {
        OccupyableV { acls: self.acls@, occupancy: self.occupancy, occupied: self.occupied@ }
    }
}

/// An occupying relation: the occupied area.
#[derive(Debug, Clone, PartialEq)]
pub struct Occupying {
    pub acls: Acls,
    pub area: EntityRef,
}

impl Scope for Occupying {

}

#[verifier::ext_equal]
pub struct OccupyingV {
    pub acls: AclsV,
    pub area: EntityRef,
}

impl View for Occupying {
    type V = OccupyingV;

    open spec fn view(&self) -> OccupyingV {
        OccupyingV { acls: self.acls@, area: self.area }
    }
}

/// An exit: the destination area.
#[derive(Debug, Clone, PartialEq)]
pub struct Exit {
    pub acls: Acls,
    pub area: EntityRef,
}

impl Scope for Exit {

}

#[verifier::ext_equal]
pub struct ExitV {
    pub acls: AclsV,
    pub area: EntityRef,
}

impl View for Exit {
    type V = ExitV;

    open spec fn view(&self) -> ExitV {
        ExitV { acls: self.acls@, area: self.area }
    }
}

/// One past invocation of a behavior: context, accumulated lines, optional
/// exception payload, success flag, timing.
#[derive(Debug, PartialEq)]
pub struct BehaviorLog {
    pub context: Vec<(String, Doc)>,
    pub logs: Vec<String>,
    pub exceptions: Option<Doc>,
    pub success: bool,
    pub time: Num,
    pub elapsed: Num,
}

#[verifier::ext_equal]
pub struct BehaviorLogV {
    pub context: Seq<(String, Doc)>,
    pub logs: Seq<String>,
    pub exceptions: Option<Doc>,
    pub success: bool,
    pub time: Num,
    pub elapsed: Num,
}

impl View for BehaviorLog {
    type V = BehaviorLogV;

    open spec fn view(&self) -> BehaviorLogV {
        BehaviorLogV {
            context: self.context@,
            logs: self.logs@,
            exceptions: self.exceptions,
            success: self.success,
            time: self.time,
            elapsed: self.elapsed,
        }
    }
}

/// One behavior: optional executable source text, executable flag, and the
/// log of past invocation outcomes.
#[derive(Debug, PartialEq)]
pub struct Behavior {
    pub acls: Acls,
    pub python: Option<String>,
    pub executable: bool,
    pub logs: Vec<BehaviorLog>,
}

#[verifier::ext_equal]
pub struct BehaviorV {
    pub acls: AclsV,
    pub python: Option<String>,
    pub executable: bool,
    pub logs: Seq<BehaviorLogV>,
}

impl View for Behavior {
    type V = BehaviorV;

    open spec fn view(&self) -> BehaviorV {
        BehaviorV {
            acls: self.acls@,
            python: self.python,
            executable: self.executable,
            logs: self.logs@.map_values(|l: BehaviorLog| l@),
        }
    }
}

/// A behavior set: a mapping from behavior name to behavior metadata.
#[derive(Debug, PartialEq)]
pub struct Behaviors {
    pub map: Vec<(String, Behavior)>,
}

impl Scope for Behaviors {

}

#[verifier::ext_equal]
pub struct BehaviorsV {
    pub map: Seq<(String, BehaviorV)>,
}

impl View for Behaviors {
    type V = BehaviorsV;

    open spec fn view(&self) -> BehaviorsV {
        BehaviorsV { map: self.map@.map_values(|p: (String, Behavior)| (p.0, p.1@)) }
    }
}

/// A behavior-metadata summary; only its presence is modeled.
#[derive(Debug, Clone, PartialEq)]
pub struct BehaviorMeta {
}

/// A behavior collection: a mapping from entity key to behavior-metadata
/// summaries.
#[derive(Debug, Clone, PartialEq)]
pub struct BehaviorCollection {
    pub entities: Vec<(String, Vec<BehaviorMeta>)>,
}

impl Scope for BehaviorCollection {

}

#[verifier::ext_equal]
pub struct BehaviorCollectionV {
    pub entities: Seq<(String, Seq<BehaviorMeta>)>,
}

impl View for BehaviorCollection {
    type V = BehaviorCollectionV;

    open spec fn view(&self) -> BehaviorCollectionV {
        BehaviorCollectionV {
            entities: self.entities@.map_values(
                |p: (String, Vec<BehaviorMeta>)| (p.0, p.1@),
            ),
        }
    }
}

/// A movement record; no decodable payload beyond its presence.
#[derive(Debug, Clone, PartialEq)]
pub struct Movement {
}

impl Scope for Movement {

}

/// An apparel record; no decodable payload beyond its presence.
#[derive(Debug, Clone, PartialEq)]
pub struct Apparel {
}

impl Scope for Apparel {

}

/// A memory record; no decodable payload beyond its presence.
#[derive(Debug, Clone, PartialEq)]
pub struct Memory {
}

impl Scope for Memory {

}

/// A health record: nested medical and nutrition data as an open property
/// mapping.
#[derive(Debug, PartialEq)]
pub struct Health {
    pub medical: Medical,
}

impl Scope for Health {

}

#[derive(Debug, PartialEq)]
pub struct Medical {
    pub nutrition: Nutrition,
}

#[derive(Debug, PartialEq)]
pub struct Nutrition {
    pub properties: Vec<(String, Doc)>,
}

#[verifier::ext_equal]
pub struct HealthV {
    pub properties: Seq<(String, Doc)>,
}

impl View for Health {
    type V = HealthV;

    open spec fn view(&self) -> HealthV {
        HealthV { properties: self.medical.nutrition.properties@ }
    }
}

/// An encyclopedia entry: optional access rules and body text.
#[derive(Debug, PartialEq)]
pub struct Encyclopedia {
    pub acls: Option<Acls>,
    pub body: String,
}

impl Scope for Encyclopedia {

}

#[verifier::ext_equal]
pub struct EncyclopediaV {
    pub acls: Option<AclsV>,
    pub body: String,
}

impl View for Encyclopedia {
    type V = EncyclopediaV;

    open spec fn view(&self) -> EncyclopediaV {
        EncyclopediaV {
            acls: match self.acls {
                Some(a) => Some(a@),
                None => None,
            },
            body: self.body,
        }
    }
}

/// An authentication record: an optional password credential pair.
#[derive(Debug, PartialEq)]
pub struct Auth {
    pub acls: Acls,
    pub password: Option<(String, String)>,
}

impl Scope for Auth {

}

#[verifier::ext_equal]
pub struct AuthV {
    pub acls: AclsV,
    pub password: Option<(String, String)>,
}

impl View for Auth {
    type V = AuthV;

    open spec fn view(&self) -> AuthV {
        AuthV { acls: self.acls@, password: self.password }
    }
}

/// A well-known-entities index: logical name to entity key.
#[derive(Debug, Clone, PartialEq)]
pub struct WellKnown {
    pub entities: Vec<(String, EntityKey)>,
}

impl Scope for WellKnown {

}

#[verifier::ext_equal]
pub struct WellKnownV {
    pub entities: Seq<(String, EntityKey)>,
}

impl View for WellKnown {
    type V = WellKnownV;

    open spec fn view(&self) -> WellKnownV {
        WellKnownV { entities: self.entities@ }
    }
}

/// A weather record: the wind magnitude.
#[derive(Debug, Clone, PartialEq)]
pub struct Weather {
    pub wind: Wind,
}

impl Scope for Weather {

}

#[derive(Debug, Clone, PartialEq)]
pub struct Wind {
    pub magnitude: u32,
}

/// One queued message: target entity key, message text, and when it was
/// queued.
#[derive(Debug, Clone, PartialEq)]
pub struct QueuedPost {
    pub when: QueuedTime,
    pub entity_key: String,
    pub message: String,
}

#[derive(Debug, Clone, PartialEq)]
pub struct QueuedTime {
    pub time: String,
}

/// A post outbox: the queue of timestamped messages.
#[derive(Debug, PartialEq)]
pub struct Post {
    pub queue: Vec<QueuedPost>,
}

impl Scope for Post {

}

#[verifier::ext_equal]
pub struct PostV {
    pub queue: Seq<QueuedPost>,
}

impl View for Post {
    type V = PostV;

    open spec fn view(&self) -> PostV {
        PostV { queue: self.queue@ }
    }
}

/// An identifiers record: the numeric group id.
#[derive(Debug, Clone, PartialEq)]
pub struct Identifiers {
    pub acls: Acls,
    pub gid: u32,
}

impl Scope for Identifiers {

}

#[verifier::ext_equal]
pub struct IdentifiersV {
    pub acls: AclsV,
    pub gid: u32,
}

impl View for Identifiers {
    type V = IdentifiersV;

    open spec fn view(&self) -> IdentifiersV {
        IdentifiersV { acls: self.acls@, gid: self.gid }
    }
}

/// A username index: username to entity key.
#[derive(Debug, Clone, PartialEq)]
pub struct Usernames {
    pub acls: Acls,
    pub users: Vec<(String, EntityKey)>,
}

impl Scope for Usernames {

}

#[verifier::ext_equal]
pub struct UsernamesV {
    pub acls: AclsV,
    pub users: Seq<(String, EntityKey)>,
}

impl View for Usernames {
    type V = UsernamesV;

    open spec fn view(&self) -> UsernamesV {
        UsernamesV { acls: self.acls@, users: self.users@ }
    }
}

// ------------------------------------------------------------------
// Helper shapes shared by several schemas.
// ------------------------------------------------------------------
/// A required list-of-references field.
pub open spec fn req_refs_s(o: Option<Doc>) -> Option<Seq<EntityRef>> {
    match o {
        Some(Doc::Arr(items)) => refs_s(items@),
        _ => None,
    }
}

pub fn decode_req_refs(o: Option<Doc>) -> (r: Option<Vec<EntityRef>>)
    ensures
        match r {
            Some(out) => req_refs_s(o) == Some(out@),
            None => req_refs_s(o) is None,
        },
{
    match o {
        Some(Doc::Arr(items)) => decode_refs(items),
        _ => None,
    }
}

/// A required access rule list field.
pub fn decode_req_acls(o: Option<Doc>) -> (r: Option<Acls>)
    ensures
        match r {
            Some(out) => acls_req_s(o) == Some(out@),
            None => acls_req_s(o) is None,
        },
{
    match o {
        Some(d) => decode_acls(d),
        None => None,
    }
}

/// An optional access rule list field.
pub open spec fn opt_acls_s(o: Option<Doc>) -> Option<Option<AclsV>> {
    match opt_field_s(o) {
        None => Some(None),
        Some(d) => match crate::model::acls_s(d) {
            Some(a) => Some(Some(a)),
            None => None,
        },
    }
}

pub fn decode_opt_acls(o: Option<Doc>) -> (r: Option<Option<Acls>>)
    ensures
        match r {
            Some(Some(out)) => opt_acls_s(o) == Some(Some(out@)),
            Some(None) => opt_acls_s(o) == Some(Option::<AclsV>::None),
            None => opt_acls_s(o) is None,
        },
{
    match o {
        None => Some(None),
        Some(Doc::Null) => Some(None),
        Some(d) => match decode_acls(d) {
            Some(a) => Some(Some(a)),
            None => None,
        },
    }
}

/// An optional marker-map field: a present value need only be a map.
pub open spec fn opt_unit_s(o: Option<Doc>) -> Option<Option<Openable>> {
    match opt_field_s(o) {
        None => Some(None),
        Some(Doc::Obj(entries)) => Some(Some(Openable {  })),
        Some(_) => None,
    }
}

pub fn decode_opt_unit(o: Option<Doc>) -> (r: Option<Option<Openable>>)
    ensures
        r == opt_unit_s(o),
{
    match o {
        None => Some(None),
        Some(Doc::Null) => Some(None),
        Some(Doc::Obj(entries)) => Some(Some(Openable {  })),
        Some(_) => None,
    }
}

/// An optional credential pair field: a present value must be a list of
/// exactly two strings.
pub open spec fn opt_pair_s(o: Option<Doc>) -> Option<Option<(String, String)>> {
    match opt_field_s(o) {
        None => Some(None),
        Some(Doc::Arr(items)) => if items@.len() == 2 && items@[0] is Str && items@[1] is Str {
            Some(Some((items@[0]->Str_0, items@[1]->Str_0)))
        } else {
            None
        },
        Some(_) => None,
    }
}

pub fn decode_opt_pair(o: Option<Doc>) -> (r: Option<Option<(String, String)>>)
    ensures
        r == opt_pair_s(o),
{
    match o {
        None => Some(None),
        Some(Doc::Null) => Some(None),
        Some(Doc::Arr(items)) => {
            let mut items = items;
            if items.len() != 2 {
                return None;
            }
            let second = items.pop().unwrap();
            let first = items.pop().unwrap();
            match (first, second) {
                (Doc::Str(a), Doc::Str(b)) => Some(Some((a, b))),
                _ => None,
            }
        },
        Some(_) => None,
    }
}

/// A required string-valued map field: every entry's value is a string.
pub open spec fn str_map_ok(entries: Seq<(String, Doc)>) -> bool {
    forall|i: int| 0 <= i < entries.len() ==> (#[trigger] entries[i]).1 is Str
}

pub open spec fn str_map_s(entries: Seq<(String, Doc)>) -> Option<Seq<(String, String)>> {
    if str_map_ok(entries) {
        Some(entries.map_values(|p: (String, Doc)| (p.0, p.1->Str_0)))
    } else {
        None
    }
}

#[verifier::loop_isolation(false)]
pub fn decode_str_map(entries: Vec<(String, Doc)>) -> (r: Option<Vec<(String, String)>>)
    ensures
        match r {
            Some(out) => str_map_s(entries@) == Some(out@),
            None => str_map_s(entries@) is None,
        },
{
    let ghost all = entries@;
    let mut entries = entries;
    let mut out: Vec<(String, String)> = Vec::new();
    while entries.len() > 0
        invariant
            all.len() == out@.len() + entries@.len(),
            entries@ == all.skip(out@.len() as int),
            forall|t: int| 0 <= t < out@.len() ==> (#[trigger] all[t]).1 is Str && out@[t] == (
                all[t].0,
                all[t].1->Str_0,
            ),
        decreases entries@.len(),
    {
        let ghost k = out@.len() as int;
        proof {
            assert(all.skip(k)[0] == all[k]);
            assert(all.skip(k).drop_first() =~= all.skip(k + 1));
        }
        let pair = entries.remove(0);
        let key = pair.0;
        match pair.1 {
            Doc::Str(s) => out.push((key, s)),
            _ => {
                proof {
                    assert(0 <= k < all.len() && !(all[k].1 is Str));
                    assert(!str_map_ok(all));
                }
                return None;
            },
        }
    }
    proof {
        assert(str_map_ok(all));
        assert(out@ =~= all.map_values(|p: (String, Doc)| (p.0, p.1->Str_0)));
    }
    Some(out)
}

/// A required map-shaped field whose entries pass through undecoded.
pub open spec fn req_entries_s(o: Option<Doc>) -> Option<Seq<(String, Doc)>> {
    match o {
        Some(Doc::Obj(entries)) => Some(entries@),
        _ => None,
    }
}

pub fn decode_req_entries(o: Option<Doc>) -> (r: Option<Vec<(String, Doc)>>)
    ensures
        match r {
            Some(out) => req_entries_s(o) == Some(out@),
            None => req_entries_s(o) is None,
        },
{
    match o {
        Some(Doc::Obj(entries)) => Some(entries),
        _ => None,
    }
}

/// A required list-of-strings field.
pub open spec fn req_strs_s(o: Option<Doc>) -> Option<Seq<String>> {
    match o {
        Some(Doc::Arr(items)) => strs_s(items@),
        _ => None,
    }
}

pub fn decode_req_strs(o: Option<Doc>) -> (r: Option<Vec<String>>)
    ensures
        match r {
            Some(out) => req_strs_s(o) == Some(out@),
            None => req_strs_s(o) is None,
        },
{
    match o {
        Some(Doc::Arr(items)) => decode_strs(items),
        _ => None,
    }
}

/// An optional opaque field: absent or null is an accepted absence, any
/// present document passes through undecoded.
pub open spec fn opt_doc_s(o: Option<Doc>) -> Option<Doc> {
    opt_field_s(o)
}

pub fn decode_opt_doc(o: Option<Doc>) -> (r: Option<Doc>)
    ensures
        r == opt_doc_s(o),
{
    match o {
        None => None,
        Some(Doc::Null) => None,
        Some(d) => Some(d),
    }
}

/// What one invocation log document denotes.
pub open spec fn log_s(d: Doc) -> Option<BehaviorLogV> {
    match d {
        Doc::Obj(es) => {
            let context = req_entries_s(lookup(es@, "context"@));
            let logs = req_strs_s(lookup(es@, "logs"@));
            let exceptions = opt_doc_s(lookup(es@, "exceptions"@));
            let success = req_bool_s(lookup(es@, "success"@));
            let time = req_num_s(lookup(es@, "time"@));
            let elapsed = req_num_s(lookup(es@, "elapsed"@));
            match (context, logs, success, time, elapsed) {
                (Some(context), Some(logs), Some(success), Some(time), Some(elapsed)) => Some(
                    BehaviorLogV { context, logs, exceptions, success, time, elapsed },
                ),
                _ => None,
            }
        },
        _ => None,
    }
}

pub fn decode_log(d: Doc) -> (r: Option<BehaviorLog>)
    ensures
        match r {
            Some(out) => log_s(d) == Some(out@),
            None => log_s(d) is None,
        },
{
    let entries = match d {
        Doc::Obj(entries) => entries,
        _ => {
            return None;
        },
    };
    let mut names: Vec<&str> = Vec::new();
    names.push("context");
    names.push("logs");
    names.push("exceptions");
    names.push("success");
    names.push("time");
    names.push("elapsed");
    proof {
        reveal_strlit("context");
        reveal_strlit("logs");
        reveal_strlit("exceptions");
        reveal_strlit("success");
        reveal_strlit("time");
        reveal_strlit("elapsed");
        assert(names@[0] == "context" && names@[1] == "logs" && names@[2] == "exceptions"
            && names@[3] == "success" && names@[4] == "time" && names@[5] == "elapsed");
        assert("context"@.len() == 7 && "logs"@.len() == 4 && "exceptions"@.len() == 10
            && "success"@.len() == 7 && "time"@.len() == 4 && "elapsed"@.len() == 7);
        assert("context"@[0] != "success"@[0]);
        assert("context"@[0] != "elapsed"@[0]);
        assert("success"@[0] != "elapsed"@[0]);
        assert("logs"@[0] != "time"@[0]);
        assert(distinct_names(names@));
    }
    let mut slots = collect_fields(entries, &names);
    let elapsed = req_num(slots.pop().unwrap());
    let time = req_num(slots.pop().unwrap());
    let success = req_bool(slots.pop().unwrap());
    let exceptions = decode_opt_doc(slots.pop().unwrap());
    let logs = decode_req_strs(slots.pop().unwrap());
    let context = decode_req_entries(slots.pop().unwrap());
    match (context, logs, success, time, elapsed) {
        (Some(context), Some(logs), Some(success), Some(time), Some(elapsed)) => Some(
            BehaviorLog { context, logs, exceptions, success, time, elapsed },
        ),
        _ => None,
    }
}

/// Every element of the list is a well-shaped invocation log.
pub open spec fn logs_ok(items: Seq<Doc>) -> bool {
    forall|i: int| 0 <= i < items.len() ==> (#[trigger] log_s(items[i])) is Some
}

/// What a list of invocation log documents denotes.
pub open spec fn logs_s(items: Seq<Doc>) -> Option<Seq<BehaviorLogV>> {
    if logs_ok(items) {
        Some(items.map_values(|d: Doc| log_s(d).unwrap()))
    } else {
        None
    }
}

#[verifier::loop_isolation(false)]
pub fn decode_logs(items: Vec<Doc>) -> (r: Option<Vec<BehaviorLog>>)
    ensures
        match r {
            Some(out) => logs_s(items@) == Some(out@.map_values(|l: BehaviorLog| l@)),
            None => logs_s(items@) is None,
        },
{
    let ghost all = items@;
    let mut items = items;
    let mut out: Vec<BehaviorLog> = Vec::new();
    while items.len() > 0
        invariant
            all.len() == out@.len() + items@.len(),
            items@ == all.skip(out@.len() as int),
            forall|t: int| 0 <= t < out@.len() ==> (#[trigger] log_s(all[t])) is Some && out@[t]@
                == log_s(all[t]).unwrap(),
        decreases items@.len(),
    {
        let ghost k = out@.len() as int;
        proof {
            assert(all.skip(k)[0] == all[k]);
            assert(all.skip(k).drop_first() =~= all.skip(k + 1));
        }
        let d = items.remove(0);
        match decode_log(d) {
            Some(one) => out.push(one),
            None => {
                proof {
                    assert(0 <= k < all.len() && log_s(all[k]) is None);
                    assert(!logs_ok(all));
                }
                return None;
            },
        }
    }
    proof {
        assert(logs_ok(all));
        assert(out@.map_values(|l: BehaviorLog| l@) =~= all.map_values(|d: Doc| log_s(d).unwrap()));
    }
    Some(out)
}

/// What one behavior document denotes.
pub open spec fn behavior_s(d: Doc) -> Option<BehaviorV> {
    match d {
        Doc::Obj(es) => {
            let acls = acls_req_s(lookup(es@, "acls"@));
            let python = opt_str_s(lookup(es@, "python"@));
            let executable = req_bool_s(lookup(es@, "executable"@));
            let logs = match lookup(es@, "logs"@) {
                Some(Doc::Arr(items)) => logs_s(items@),
                _ => None,
            };
            match (acls, python, executable, logs) {
                (Some(acls), Some(python), Some(executable), Some(logs)) => Some(
                    BehaviorV { acls, python, executable, logs },
                ),
                _ => None,
            }
        },
        _ => None,
    }
}

pub fn decode_behavior(d: Doc) -> (r: Option<Behavior>)
    ensures
        match r {
            Some(out) => behavior_s(d) == Some(out@),
            None => behavior_s(d) is None,
        },
{
    let entries = match d {
        Doc::Obj(entries) => entries,
        _ => {
            return None;
        },
    };
    let mut names: Vec<&str> = Vec::new();
    names.push("acls");
    names.push("python");
    names.push("executable");
    names.push("logs");
    proof {
        reveal_strlit("acls");
        reveal_strlit("python");
        reveal_strlit("executable");
        reveal_strlit("logs");
        assert(names@[0] == "acls" && names@[1] == "python" && names@[2] == "executable"
            && names@[3] == "logs");
        assert("acls"@.len() == 4 && "python"@.len() == 6 && "executable"@.len() == 10
            && "logs"@.len() == 4);
        assert("acls"@[0] != "logs"@[0]);
        assert(distinct_names(names@));
    }
    let mut slots = collect_fields(entries, &names);
    let logs = match slots.pop().unwrap() {
        Some(Doc::Arr(items)) => decode_logs(items),
        _ => None,
    };
    let executable = req_bool(slots.pop().unwrap());
    let python = opt_str(slots.pop().unwrap());
    let acls = decode_req_acls(slots.pop().unwrap());
    match (acls, python, executable, logs) {
        (Some(acls), Some(python), Some(executable), Some(logs)) => Some(
            Behavior { acls, python, executable, logs },
        ),
        _ => None,
    }
}

/// Every entry's value is a well-shaped behavior.
pub open spec fn behavior_map_ok(entries: Seq<(String, Doc)>) -> bool {
    forall|i: int| 0 <= i < entries.len() ==> behavior_s((#[trigger] entries[i]).1) is Some
}

/// What a behavior-by-name map denotes.
pub open spec fn behavior_map_s(entries: Seq<(String, Doc)>) -> Option<
    Seq<(String, BehaviorV)>,
> {
    if behavior_map_ok(entries) {
        Some(entries.map_values(|p: (String, Doc)| (p.0, behavior_s(p.1).unwrap())))
    } else {
        None
    }
}

#[verifier::loop_isolation(false)]
pub fn decode_behavior_map(entries: Vec<(String, Doc)>) -> (r: Option<Vec<(String, Behavior)>>)
    ensures
        match r {
            Some(out) => behavior_map_s(entries@) == Some(
                out@.map_values(|p: (String, Behavior)| (p.0, p.1@)),
            ),
            None => behavior_map_s(entries@) is None,
        },
{
    let ghost all = entries@;
    let mut entries = entries;
    let mut out: Vec<(String, Behavior)> = Vec::new();
    while entries.len() > 0
        invariant
            all.len() == out@.len() + entries@.len(),
            entries@ == all.skip(out@.len() as int),
            forall|t: int| 0 <= t < out@.len() ==> behavior_s((#[trigger] all[t]).1) is Some
                && out@[t].0 == all[t].0 && out@[t].1@ == behavior_s(all[t].1).unwrap(),
        decreases entries@.len(),
    {
        let ghost k = out@.len() as int;
        proof {
            assert(all.skip(k)[0] == all[k]);
            assert(all.skip(k).drop_first() =~= all.skip(k + 1));
        }
        let pair = entries.remove(0);
        let key = pair.0;
        match decode_behavior(pair.1) {
            Some(one) => out.push((key, one)),
            None => {
                proof {
                    assert(0 <= k < all.len() && behavior_s(all[k].1) is None);
                    assert(!behavior_map_ok(all));
                }
                return None;
            },
        }
    }
    proof {
        assert(behavior_map_ok(all));
        assert(out@.map_values(|p: (String, Behavior)| (p.0, p.1@)) =~= all.map_values(
            |p: (String, Doc)| (p.0, behavior_s(p.1).unwrap()),
        ));
    }
    Some(out)
}

/// Every element of the list is a map-shaped metadata summary.
pub open spec fn metas_ok(items: Seq<Doc>) -> bool {
    forall|i: int| 0 <= i < items.len() ==> (#[trigger] items[i]) is Obj
}

/// What a list of metadata summaries denotes.
pub open spec fn metas_s(items: Seq<Doc>) -> Option<Seq<BehaviorMeta>> {
    if metas_ok(items) {
        Some(items.map_values(|d: Doc| BehaviorMeta {  }))
    } else {
        None
    }
}

#[verifier::loop_isolation(false)]
pub fn decode_metas(items: Vec<Doc>) -> (r: Option<Vec<BehaviorMeta>>)
    ensures
        match r {
            Some(out) => metas_s(items@) == Some(out@),
            None => metas_s(items@) is None,
        },
{
    let ghost all = items@;
    let mut items = items;
    let mut out: Vec<BehaviorMeta> = Vec::new();
    while items.len() > 0
        invariant
            all.len() == out@.len() + items@.len(),
            items@ == all.skip(out@.len() as int),
            forall|t: int| 0 <= t < out@.len() ==> (#[trigger] all[t]) is Obj && out@[t]
                == (BehaviorMeta {  }),
        decreases items@.len(),
    {
        let ghost k = out@.len() as int;
        proof {
            assert(all.skip(k)[0] == all[k]);
            assert(all.skip(k).drop_first() =~= all.skip(k + 1));
        }
        let d = items.remove(0);
        match d {
            Doc::Obj(_) => out.push(BehaviorMeta {  }),
            _ => {
                proof {
                    assert(0 <= k < all.len() && !(all[k] is Obj));
                    assert(!metas_ok(all));
                }
                return None;
            },
        }
    }
    proof {
        assert(metas_ok(all));
        assert(out@ =~= all.map_values(|d: Doc| BehaviorMeta {  }));
    }
    Some(out)
}

/// A required list of metadata summaries.
pub open spec fn meta_list_s(d: Doc) -> Option<Seq<BehaviorMeta>> {
    match d {
        Doc::Arr(items) => metas_s(items@),
        _ => None,
    }
}

/// Every entry's value is a well-shaped metadata list.
pub open spec fn meta_map_ok(entries: Seq<(String, Doc)>) -> bool {
    forall|i: int| 0 <= i < entries.len() ==> meta_list_s((#[trigger] entries[i]).1) is Some
}

/// What a metadata-list-by-key map denotes.
pub open spec fn meta_map_s(entries: Seq<(String, Doc)>) -> Option<
    Seq<(String, Seq<BehaviorMeta>)>,
> {
    if meta_map_ok(entries) {
        Some(entries.map_values(|p: (String, Doc)| (p.0, meta_list_s(p.1).unwrap())))
    } else {
        None
    }
}

#[verifier::loop_isolation(false)]
pub fn decode_meta_map(entries: Vec<(String, Doc)>) -> (r: Option<
    Vec<(String, Vec<BehaviorMeta>)>,
>)
    ensures
        match r {
            Some(out) => meta_map_s(entries@) == Some(
                out@.map_values(|p: (String, Vec<BehaviorMeta>)| (p.0, p.1@)),
            ),
            None => meta_map_s(entries@) is None,
        },
{
    let ghost all = entries@;
    let mut entries = entries;
    let mut out: Vec<(String, Vec<BehaviorMeta>)> = Vec::new();
    while entries.len() > 0
        invariant
            all.len() == out@.len() + entries@.len(),
            entries@ == all.skip(out@.len() as int),
            forall|t: int| 0 <= t < out@.len() ==> meta_list_s((#[trigger] all[t]).1) is Some
                && out@[t].0 == all[t].0 && out@[t].1@ == meta_list_s(all[t].1).unwrap(),
        decreases entries@.len(),
    {
        let ghost k = out@.len() as int;
        proof {
            assert(all.skip(k)[0] == all[k]);
            assert(all.skip(k).drop_first() =~= all.skip(k + 1));
        }
        let pair = entries.remove(0);
        let key = pair.0;
        let metas = match pair.1 {
            Doc::Arr(items) => decode_metas(items),
            _ => None,
        };
        match metas {
            Some(one) => out.push((key, one)),
            None => {
                proof {
                    assert(0 <= k < all.len() && meta_list_s(all[k].1) is None);
                    assert(!meta_map_ok(all));
                }
                return None;
            },
        }
    }
    proof {
        assert(meta_map_ok(all));
        assert(out@.map_values(|p: (String, Vec<BehaviorMeta>)| (p.0, p.1@)) =~= all.map_values(
            |p: (String, Doc)| (p.0, meta_list_s(p.1).unwrap()),
        ));
    }
    Some(out)
}

/// What one queued message document denotes.
pub open spec fn queued_s(d: Doc) -> Option<QueuedPost> {
    match d {
        Doc::Obj(es) => {
            let when = match lookup(es@, "when"@) {
                Some(Doc::Obj(wes)) => match req_str_s(lookup(wes@, "time"@)) {
                    Some(time) => Some(QueuedTime { time }),
                    None => None,
                },
                _ => None,
            };
            let entity_key = req_str_s(lookup(es@, "entity_key"@));
            let message = req_str_s(lookup(es@, "message"@));
            match (when, entity_key, message) {
                (Some(when), Some(entity_key), Some(message)) => Some(
                    QueuedPost { when, entity_key, message },
                ),
                _ => None,
            }
        },
        _ => None,
    }
}

pub fn decode_queued(d: Doc) -> (r: Option<QueuedPost>)
    ensures
        r == queued_s(d),
{
    let entries = match d {
        Doc::Obj(entries) => entries,
        _ => {
            return None;
        },
    };
    let mut names: Vec<&str> = Vec::new();
    names.push("when");
    names.push("entity_key");
    names.push("message");
    proof {
        reveal_strlit("when");
        reveal_strlit("entity_key");
        reveal_strlit("message");
        assert(names@[0] == "when" && names@[1] == "entity_key" && names@[2] == "message");
        assert("when"@.len() == 4 && "entity_key"@.len() == 10 && "message"@.len() == 7);
        assert(distinct_names(names@));
    }
    let mut slots = collect_fields(entries, &names);
    let message = req_str(slots.pop().unwrap());
    let entity_key = req_str(slots.pop().unwrap());
    let when = match slots.pop().unwrap() {
        Some(Doc::Obj(wes)) => {
            let mut inner: Vec<&str> = Vec::new();
            inner.push("time");
            let mut wslots = collect_fields(wes, &inner);
            match req_str(wslots.pop().unwrap()) {
                Some(time) => Some(QueuedTime { time }),
                None => None,
            }
        },
        _ => None,
    };
    match (when, entity_key, message) {
        (Some(when), Some(entity_key), Some(message)) => Some(
            QueuedPost { when, entity_key, message },
        ),
        _ => None,
    }
}

/// Every element of the list is a well-shaped queued message.
pub open spec fn queue_ok(items: Seq<Doc>) -> bool {
    forall|i: int| 0 <= i < items.len() ==> (#[trigger] queued_s(items[i])) is Some
}

/// What a message queue denotes.
pub open spec fn queue_s(items: Seq<Doc>) -> Option<Seq<QueuedPost>> {
    if queue_ok(items) {
        Some(items.map_values(|d: Doc| queued_s(d).unwrap()))
    } else {
        None
    }
}

#[verifier::loop_isolation(false)]
pub fn decode_queue(items: Vec<Doc>) -> (r: Option<Vec<QueuedPost>>)
    ensures
        match r {
            Some(out) => queue_s(items@) == Some(out@),
            None => queue_s(items@) is None,
        },
{
    let ghost all = items@;
    let mut items = items;
    let mut out: Vec<QueuedPost> = Vec::new();
    while items.len() > 0
        invariant
            all.len() == out@.len() + items@.len(),
            items@ == all.skip(out@.len() as int),
            forall|t: int| 0 <= t < out@.len() ==> (#[trigger] queued_s(all[t])) is Some && out@[t]
                == queued_s(all[t]).unwrap(),
        decreases items@.len(),
    {
        let ghost k = out@.len() as int;
        proof {
            assert(all.skip(k)[0] == all[k]);
            assert(all.skip(k).drop_first() =~= all.skip(k + 1));
        }
        let d = items.remove(0);
        match decode_queued(d) {
            Some(one) => out.push(one),
            None => {
                proof {
                    assert(0 <= k < all.len() && queued_s(all[k]) is None);
                    assert(!queue_ok(all));
                }
                return None;
            },
        }
    }
    proof {
        assert(queue_ok(all));
        assert(out@ =~= all.map_values(|d: Doc| queued_s(d).unwrap()));
    }
    Some(out)
}



// ------------------------------------------------------------------
// Per-tag schemas: what each recognized component document denotes.
// On failure, the first ill-shaped field in schema order is named; a
// component document that is not a map at all is named "scope".
// ------------------------------------------------------------------
pub open spec fn carryable_s(d: Doc) -> Result<Carryable, Seq<char>> {
    match d {
        Doc::Obj(es) => {
            let kind = match lookup(es@, "kind"@) {
                Some(k) => kind_s(k),
                None => None,
            };
            let loose = req_bool_s(lookup(es@, "loose"@));
            let quantity = req_num_s(lookup(es@, "quantity"@));
            if kind is None {
                Err("kind"@)
            } else if loose is None {
                Err("loose"@)
            } else if quantity is None {
                Err("quantity"@)
            } else {
                Ok(
                    Carryable {
                        kind: kind.unwrap(),
                        loose: loose.unwrap(),
                        quantity: quantity.unwrap(),
                    },
                )
            }
        },
        _ => Err("scope"@),
    }
}

pub fn decode_carryable(d: Doc) -> (r: Result<Carryable, &'static str>)
    ensures
        match r {
            Ok(c) => carryable_s(d) == Ok::<Carryable, Seq<char>>(c),
            Err(f) => carryable_s(d) == Err::<Carryable, Seq<char>>(f@),
        },
{
    let entries = match d {
        Doc::Obj(entries) => entries,
        _ => {
            return Err("scope");
        },
    };
    let mut names: Vec<&str> = Vec::new();
    names.push("kind");
    names.push("loose");
    names.push("quantity");
    proof {
        reveal_strlit("kind");
        reveal_strlit("loose");
        reveal_strlit("quantity");
        assert(names@[0] == "kind" && names@[1] == "loose" && names@[2] == "quantity");
        assert("kind"@.len() == 4 && "loose"@.len() == 5 && "quantity"@.len() == 8);
        assert(distinct_names(names@));
    }
    let mut slots = collect_fields(entries, &names);
    let quantity = req_num(slots.pop().unwrap());
    let loose = req_bool(slots.pop().unwrap());
    let kind = match slots.pop().unwrap() {
        Some(k) => decode_kind(k),
        None => None,
    };
    let kind = match kind {
        Some(kind) => kind,
        None => {
            return Err("kind");
        },
    };
    let loose = match loose {
        Some(loose) => loose,
        None => {
            return Err("loose");
        },
    };
    let quantity = match quantity {
        Some(quantity) => quantity,
        None => {
            return Err("quantity");
        },
    };
    Ok(Carryable { kind, loose, quantity })
}

pub open spec fn containing_s(d: Doc) -> Result<ContainingV, Seq<char>> {
    match d {
        Doc::Obj(es) => {
            let acls = acls_req_s(lookup(es@, "acls"@));
            let capacity = opt_u32_s(lookup(es@, "capacity"@));
            let holding = req_refs_s(lookup(es@, "holding"@));
            let locked = req_bool_s(lookup(es@, "locked"@));
            let openable = opt_unit_s(lookup(es@, "openable"@));
            let pattern = opt_str_s(lookup(es@, "pattern"@));
            let produces = lookup(es@, "produces"@);
            if acls is None {
                Err("acls"@)
            } else if capacity is None {
                Err("capacity"@)
            } else if holding is None {
                Err("holding"@)
            } else if locked is None {
                Err("locked"@)
            } else if openable is None {
                Err("openable"@)
            } else if pattern is None {
                Err("pattern"@)
            } else if produces is None {
                Err("produces"@)
            } else {
                Ok(
                    ContainingV {
                        acls: acls.unwrap(),
                        capacity: capacity.unwrap(),
                        holding: holding.unwrap(),
                        locked: locked.unwrap(),
                        openable: openable.unwrap(),
                        pattern: pattern.unwrap(),
                        produces: produces.unwrap(),
                    },
                )
            }
        },
        _ => Err("scope"@),
    }
}

pub fn decode_containing(d: Doc) -> (r: Result<Containing, &'static str>)
    ensures
        match r {
            Ok(c) => containing_s(d) == Ok::<ContainingV, Seq<char>>(c@),
            Err(f) => containing_s(d) == Err::<ContainingV, Seq<char>>(f@),
        },
{
    let entries = match d {
        Doc::Obj(entries) => entries,
        _ => {
            return Err("scope");
        },
    };
    let mut names: Vec<&str> = Vec::new();
    names.push("acls");
    names.push("capacity");
    names.push("holding");
    names.push("locked");
    names.push("openable");
    names.push("pattern");
    names.push("produces");
    proof {
        reveal_strlit("acls");
        reveal_strlit("capacity");
        reveal_strlit("holding");
        reveal_strlit("locked");
        reveal_strlit("openable");
        reveal_strlit("pattern");
        reveal_strlit("produces");
        assert(names@[0] == "acls" && names@[1] == "capacity" && names@[2] == "holding"
            && names@[3] == "locked" && names@[4] == "openable" && names@[5] == "pattern"
            && names@[6] == "produces");
        assert("acls"@.len() == 4 && "capacity"@.len() == 8 && "holding"@.len() == 7
            && "locked"@.len() == 6 && "openable"@.len() == 8 && "pattern"@.len() == 7
            && "produces"@.len() == 8);
        assert("capacity"@[0] != "openable"@[0]);
        assert("capacity"@[0] != "produces"@[0]);
        assert("openable"@[0] != "produces"@[0]);
        assert("holding"@[0] != "pattern"@[0]);
        assert(distinct_names(names@));
    }
    let mut slots = collect_fields(entries, &names);
    let produces_slot = slots.pop().unwrap();
    let pattern = opt_str(slots.pop().unwrap());
    let openable = decode_opt_unit(slots.pop().unwrap());
    let locked = req_bool(slots.pop().unwrap());
    let holding = decode_req_refs(slots.pop().unwrap());
    let capacity = decode_opt_u32(slots.pop().unwrap());
    let acls = decode_req_acls(slots.pop().unwrap());
    let acls = match acls {
        Some(acls) => acls,
        None => {
            return Err("acls");
        },
    };
    let capacity = match capacity {
        Some(capacity) => capacity,
        None => {
            return Err("capacity");
        },
    };
    let holding = match holding {
        Some(holding) => holding,
        None => {
            return Err("holding");
        },
    };
    let locked = match locked {
        Some(locked) => locked,
        None => {
            return Err("locked");
        },
    };
    let openable = match openable {
        Some(openable) => openable,
        None => {
            return Err("openable");
        },
    };
    let pattern = match pattern {
        Some(pattern) => pattern,
        None => {
            return Err("pattern");
        },
    };
    let produces = match produces_slot {
        Some(produces) => produces,
        None => {
            return Err("produces");
        },
    };
    Ok(Containing { acls, capacity, holding, locked, openable, pattern, produces })
}

pub open spec fn location_s(d: Doc) -> Result<LocationV, Seq<char>> {
    match d {
        Doc::Obj(es) => {
            let acls = acls_req_s(lookup(es@, "acls"@));
            let container = opt_ref_s(lookup(es@, "container"@));
            if acls is None {
                Err("acls"@)
            } else if container is None {
                Err("container"@)
            } else {
                Ok(LocationV { acls: acls.unwrap(), container: container.unwrap() })
            }
        },
        _ => Err("scope"@),
    }
}

pub fn decode_location(d: Doc) -> (r: Result<Location, &'static str>)
    ensures
        match r {
            Ok(c) => location_s(d) == Ok::<LocationV, Seq<char>>(c@),
            Err(f) => location_s(d) == Err::<LocationV, Seq<char>>(f@),
        },
{
    let entries = match d {
        Doc::Obj(entries) => entries,
        _ => {
            return Err("scope");
        },
    };
    let mut names: Vec<&str> = Vec::new();
    names.push("acls");
    names.push("container");
    proof {
        reveal_strlit("acls");
        reveal_strlit("container");
        assert(names@[0] == "acls" && names@[1] == "container");
        assert("acls"@.len() == 4 && "container"@.len() == 9);
        assert(distinct_names(names@));
    }
    let mut slots = collect_fields(entries, &names);
    let container = decode_opt_ref(slots.pop().unwrap());
    let acls = decode_req_acls(slots.pop().unwrap());
    let acls = match acls {
        Some(acls) => acls,
        None => {
            return Err("acls");
        },
    };
    let container = match container {
        Some(container) => container,
        None => {
            return Err("container");
        },
    };
    Ok(Location { acls, container })
}

pub open spec fn ownership_s(d: Doc) -> Result<Ownership, Seq<char>> {
    match d {
        Doc::Obj(es) => {
            let owner = match lookup(es@, "owner"@) {
                Some(o) => ref_s(o),
                None => None,
            };
            if owner is None {
                Err("owner"@)
            } else {
                Ok(Ownership { owner: owner.unwrap() })
            }
        },
        _ => Err("scope"@),
    }
}

pub fn decode_ownership(d: Doc) -> (r: Result<Ownership, &'static str>)
    ensures
        match r {
            Ok(c) => ownership_s(d) == Ok::<Ownership, Seq<char>>(c),
            Err(f) => ownership_s(d) == Err::<Ownership, Seq<char>>(f@),
        },
{
    let entries = match d {
        Doc::Obj(entries) => entries,
        _ => {
            return Err("scope");
        },
    };
    let mut names: Vec<&str> = Vec::new();
    names.push("owner");
    let mut slots = collect_fields(entries, &names);
    let owner = match slots.pop().unwrap() {
        Some(o) => decode_ref(o),
        None => None,
    };
    match owner {
        Some(owner) => Ok(Ownership { owner }),
        None => Err("owner"),
    }
}

pub open spec fn occupyable_s(d: Doc) -> Result<OccupyableV, Seq<char>> {
    match d {
        Doc::Obj(es) => {
            let acls = acls_req_s(lookup(es@, "acls"@));
            let occupancy = req_u32_s(lookup(es@, "occupancy"@));
            let occupied = req_refs_s(lookup(es@, "occupied"@));
            if acls is None {
                Err("acls"@)
            } else if occupancy is None {
                Err("occupancy"@)
            } else if occupied is None {
                Err("occupied"@)
            } else {
                Ok(
                    OccupyableV {
                        acls: acls.unwrap(),
                        occupancy: occupancy.unwrap(),
                        occupied: occupied.unwrap(),
                    },
                )
            }
        },
        _ => Err("scope"@),
    }
}

pub fn decode_occupyable(d: Doc) -> (r: Result<Occupyable, &'static str>)
    ensures
        match r {
            Ok(c) => occupyable_s(d) == Ok::<OccupyableV, Seq<char>>(c@),
            Err(f) => occupyable_s(d) == Err::<OccupyableV, Seq<char>>(f@),
        },
{
    let entries = match d {
        Doc::Obj(entries) => entries,
        _ => {
            return Err("scope");
        },
    };
    let mut names: Vec<&str> = Vec::new();
    names.push("acls");
    names.push("occupancy");
    names.push("occupied");
    proof {
        reveal_strlit("acls");
        reveal_strlit("occupancy");
        reveal_strlit("occupied");
        assert(names@[0] == "acls" && names@[1] == "occupancy" && names@[2] == "occupied");
        assert("acls"@.len() == 4 && "occupancy"@.len() == 9 && "occupied"@.len() == 8);
        assert(distinct_names(names@));
    }
    let mut slots = collect_fields(entries, &names);
    let occupied = decode_req_refs(slots.pop().unwrap());
    let occupancy = req_u32(slots.pop().unwrap());
    let acls = decode_req_acls(slots.pop().unwrap());
    let acls = match acls {
        Some(acls) => acls,
        None => {
            return Err("acls");
        },
    };
    let occupancy = match occupancy {
        Some(occupancy) => occupancy,
        None => {
            return Err("occupancy");
        },
    };
    let occupied = match occupied {
        Some(occupied) => occupied,
        None => {
            return Err("occupied");
        },
    };
    Ok(Occupyable { acls, occupancy, occupied })
}

pub open spec fn occupying_s(d: Doc) -> Result<OccupyingV, Seq<char>> {
    match d {
        Doc::Obj(es) => {
            let acls = acls_req_s(lookup(es@, "acls"@));
            let area = match lookup(es@, "area"@) {
                Some(a) => ref_s(a),
                None => None,
            };
            if acls is None {
                Err("acls"@)
            } else if area is None {
                Err("area"@)
            } else {
                Ok(OccupyingV { acls: acls.unwrap(), area: area.unwrap() })
            }
        },
        _ => Err("scope"@),
    }
}

pub fn decode_occupying(d: Doc) -> (r: Result<Occupying, &'static str>)
    ensures
        match r {
            Ok(c) => occupying_s(d) == Ok::<OccupyingV, Seq<char>>(c@),
            Err(f) => occupying_s(d) == Err::<OccupyingV, Seq<char>>(f@),
        },
{
    let entries = match d {
        Doc::Obj(entries) => entries,
        _ => {
            return Err("scope");
        },
    };
    let mut names: Vec<&str> = Vec::new();
    names.push("acls");
    names.push("area");
    proof {
        reveal_strlit("acls");
        reveal_strlit("area");
        assert(names@[0] == "acls" && names@[1] == "area");
        assert("acls"@.len() == 4 && "area"@.len() == 4);
        assert("acls"@[1] != "area"@[1]);
        assert(distinct_names(names@));
    }
    let mut slots = collect_fields(entries, &names);
    let area = match slots.pop().unwrap() {
        Some(a) => decode_ref(a),
        None => None,
    };
    let acls = decode_req_acls(slots.pop().unwrap());
    let acls = match acls {
        Some(acls) => acls,
        None => {
            return Err("acls");
        },
    };
    let area = match area {
        Some(area) => area,
        None => {
            return Err("area");
        },
    };
    Ok(Occupying { acls, area })
}

pub open spec fn exit_s(d: Doc) -> Result<ExitV, Seq<char>> {
    match d {
        Doc::Obj(es) => {
            let acls = acls_req_s(lookup(es@, "acls"@));
            let area = match lookup(es@, "area"@) {
                Some(a) => ref_s(a),
                None => None,
            };
            if acls is None {
                Err("acls"@)
            } else if area is None {
                Err("area"@)
            } else {
                Ok(ExitV { acls: acls.unwrap(), area: area.unwrap() })
            }
        },
        _ => Err("scope"@),
    }
}

pub fn decode_exit(d: Doc) -> (r: Result<Exit, &'static str>)
    ensures
        match r {
            Ok(c) => exit_s(d) == Ok::<ExitV, Seq<char>>(c@),
            Err(f) => exit_s(d) == Err::<ExitV, Seq<char>>(f@),
        },
{
    let entries = match d {
        Doc::Obj(entries) => entries,
        _ => {
            return Err("scope");
        },
    };
    let mut names: Vec<&str> = Vec::new();
    names.push("acls");
    names.push("area");
    proof {
        reveal_strlit("acls");
        reveal_strlit("area");
        assert(names@[0] == "acls" && names@[1] == "area");
        assert("acls"@.len() == 4 && "area"@.len() == 4);
        assert("acls"@[1] != "area"@[1]);
        assert(distinct_names(names@));
    }
    let mut slots = collect_fields(entries, &names);
    let area = match slots.pop().unwrap() {
        Some(a) => decode_ref(a),
        None => None,
    };
    let acls = decode_req_acls(slots.pop().unwrap());
    let acls = match acls {
        Some(acls) => acls,
        None => {
            return Err("acls");
        },
    };
    let area = match area {
        Some(area) => area,
        None => {
            return Err("area");
        },
    };
    Ok(Exit { acls, area })
}

pub open spec fn behaviors_s(d: Doc) -> Result<BehaviorsV, Seq<char>> {
    match d {
        Doc::Obj(es) => match lookup(es@, "behaviors"@) {
            Some(Doc::Obj(bes)) => match lookup(bes@, "map"@) {
                Some(Doc::Obj(mes)) => match behavior_map_s(mes@) {
                    Some(map) => Ok(BehaviorsV { map }),
                    None => Err("behaviors"@),
                },
                _ => Err("behaviors"@),
            },
            _ => Err("behaviors"@),
        },
        _ => Err("scope"@),
    }
}

pub fn decode_behaviors(d: Doc) -> (r: Result<Behaviors, &'static str>)
    ensures
        match r {
            Ok(c) => behaviors_s(d) == Ok::<BehaviorsV, Seq<char>>(c@),
            Err(f) => behaviors_s(d) == Err::<BehaviorsV, Seq<char>>(f@),
        },
{
    let entries = match d {
        Doc::Obj(entries) => entries,
        _ => {
            return Err("scope");
        },
    };
    let mut names: Vec<&str> = Vec::new();
    names.push("behaviors");
    let mut slots = collect_fields(entries, &names);
    match slots.pop().unwrap() {
        Some(Doc::Obj(bes)) => {
            let mut inner: Vec<&str> = Vec::new();
            inner.push("map");
            let mut bslots = collect_fields(bes, &inner);
            match bslots.pop().unwrap() {
                Some(Doc::Obj(mes)) => match decode_behavior_map(mes) {
                    Some(map) => Ok(Behaviors { map }),
                    None => Err("behaviors"),
                },
                _ => Err("behaviors"),
            }
        },
        _ => Err("behaviors"),
    }
}

pub open spec fn behavior_collection_s(d: Doc) -> Result<BehaviorCollectionV, Seq<char>> {
    match d {
        Doc::Obj(es) => match lookup(es@, "entities"@) {
            Some(Doc::Obj(ees)) => match meta_map_s(ees@) {
                Some(entities) => Ok(BehaviorCollectionV { entities }),
                None => Err("entities"@),
            },
            _ => Err("entities"@),
        },
        _ => Err("scope"@),
    }
}

pub fn decode_behavior_collection(d: Doc) -> (r: Result<BehaviorCollection, &'static str>)
    ensures
        match r {
            Ok(c) => behavior_collection_s(d) == Ok::<BehaviorCollectionV, Seq<char>>(c@),
            Err(f) => behavior_collection_s(d) == Err::<BehaviorCollectionV, Seq<char>>(f@),
        },
{
    let entries = match d {
        Doc::Obj(entries) => entries,
        _ => {
            return Err("scope");
        },
    };
    let mut names: Vec<&str> = Vec::new();
    names.push("entities");
    let mut slots = collect_fields(entries, &names);
    match slots.pop().unwrap() {
        Some(Doc::Obj(ees)) => match decode_meta_map(ees) {
            Some(entities) => Ok(BehaviorCollection { entities }),
            None => Err("entities"),
        },
        _ => Err("entities"),
    }
}

pub open spec fn movement_s(d: Doc) -> Result<Movement, Seq<char>> {
    match d {
        Doc::Obj(es) => Ok(Movement {  }),
        _ => Err("scope"@),
    }
}

pub fn decode_movement(d: Doc) -> (r: Result<Movement, &'static str>)
    ensures
        match r {
            Ok(c) => movement_s(d) == Ok::<Movement, Seq<char>>(c),
            Err(f) => movement_s(d) == Err::<Movement, Seq<char>>(f@),
        },
{
    match d {
        Doc::Obj(_) => Ok(Movement {  }),
        _ => Err("scope"),
    }
}

pub open spec fn apparel_s(d: Doc) -> Result<Apparel, Seq<char>> {
    match d {
        Doc::Obj(es) => Ok(Apparel {  }),
        _ => Err("scope"@),
    }
}

pub fn decode_apparel(d: Doc) -> (r: Result<Apparel, &'static str>)
    ensures
        match r {
            Ok(c) => apparel_s(d) == Ok::<Apparel, Seq<char>>(c),
            Err(f) => apparel_s(d) == Err::<Apparel, Seq<char>>(f@),
        },
{
    match d {
        Doc::Obj(_) => Ok(Apparel {  }),
        _ => Err("scope"),
    }
}

pub open spec fn memory_s(d: Doc) -> Result<Memory, Seq<char>> {
    match d {
        Doc::Obj(es) => Ok(Memory {  }),
        _ => Err("scope"@),
    }
}

pub fn decode_memory(d: Doc) -> (r: Result<Memory, &'static str>)
    ensures
        match r {
            Ok(c) => memory_s(d) == Ok::<Memory, Seq<char>>(c),
            Err(f) => memory_s(d) == Err::<Memory, Seq<char>>(f@),
        },
{
    match d {
        Doc::Obj(_) => Ok(Memory {  }),
        _ => Err("scope"),
    }
}

pub open spec fn health_s(d: Doc) -> Result<HealthV, Seq<char>> {
    match d {
        Doc::Obj(es) => match lookup(es@, "medical"@) {
            Some(Doc::Obj(mes)) => match lookup(mes@, "nutrition"@) {
                Some(Doc::Obj(nes)) => match lookup(nes@, "properties"@) {
                    Some(Doc::Obj(pes)) => Ok(HealthV { properties: pes@ }),
                    _ => Err("medical"@),
                },
                _ => Err("medical"@),
            },
            _ => Err("medical"@),
        },
        _ => Err("scope"@),
    }
}

pub fn decode_health(d: Doc) -> (r: Result<Health, &'static str>)
    ensures
        match r {
            Ok(c) => health_s(d) == Ok::<HealthV, Seq<char>>(c@),
            Err(f) => health_s(d) == Err::<HealthV, Seq<char>>(f@),
        },
{
    let entries = match d {
        Doc::Obj(entries) => entries,
        _ => {
            return Err("scope");
        },
    };
    let mut names: Vec<&str> = Vec::new();
    names.push("medical");
    let mut slots = collect_fields(entries, &names);
    match slots.pop().unwrap() {
        Some(Doc::Obj(mes)) => {
            let mut inner: Vec<&str> = Vec::new();
            inner.push("nutrition");
            let mut mslots = collect_fields(mes, &inner);
            match mslots.pop().unwrap() {
                Some(Doc::Obj(nes)) => {
                    let mut inner2: Vec<&str> = Vec::new();
                    inner2.push("properties");
                    let mut nslots = collect_fields(nes, &inner2);
                    match nslots.pop().unwrap() {
                        Some(Doc::Obj(properties)) => Ok(
                            Health { medical: Medical { nutrition: Nutrition { properties } } },
                        ),
                        _ => Err("medical"),
                    }
                },
                _ => Err("medical"),
            }
        },
        _ => Err("medical"),
    }
}

pub open spec fn encyclopedia_s(d: Doc) -> Result<EncyclopediaV, Seq<char>> {
    match d {
        Doc::Obj(es) => {
            let acls = opt_acls_s(lookup(es@, "acls"@));
            let body = req_str_s(lookup(es@, "body"@));
            if acls is None {
                Err("acls"@)
            } else if body is None {
                Err("body"@)
            } else {
                Ok(EncyclopediaV { acls: acls.unwrap(), body: body.unwrap() })
            }
        },
        _ => Err("scope"@),
    }
}

pub fn decode_encyclopedia(d: Doc) -> (r: Result<Encyclopedia, &'static str>)
    ensures
        match r {
            Ok(c) => encyclopedia_s(d) == Ok::<EncyclopediaV, Seq<char>>(c@),
            Err(f) => encyclopedia_s(d) == Err::<EncyclopediaV, Seq<char>>(f@),
        },
{
    let entries = match d {
        Doc::Obj(entries) => entries,
        _ => {
            return Err("scope");
        },
    };
    let mut names: Vec<&str> = Vec::new();
    names.push("acls");
    names.push("body");
    proof {
        reveal_strlit("acls");
        reveal_strlit("body");
        assert(names@[0] == "acls" && names@[1] == "body");
        assert("acls"@.len() == 4 && "body"@.len() == 4);
        assert("acls"@[0] != "body"@[0]);
        assert(distinct_names(names@));
    }
    let mut slots = collect_fields(entries, &names);
    let body = req_str(slots.pop().unwrap());
    let acls = decode_opt_acls(slots.pop().unwrap());
    let acls = match acls {
        Some(acls) => acls,
        None => {
            return Err("acls");
        },
    };
    let body = match body {
        Some(body) => body,
        None => {
            return Err("body");
        },
    };
    Ok(Encyclopedia { acls, body })
}

pub open spec fn weather_s(d: Doc) -> Result<Weather, Seq<char>> {
    match d {
        Doc::Obj(es) => match lookup(es@, "wind"@) {
            Some(Doc::Obj(wes)) => match req_u32_s(lookup(wes@, "magnitude"@)) {
                Some(magnitude) => Ok(Weather { wind: Wind { magnitude } }),
                None => Err("wind"@),
            },
            _ => Err("wind"@),
        },
        _ => Err("scope"@),
    }
}

pub fn decode_weather(d: Doc) -> (r: Result<Weather, &'static str>)
    ensures
        match r {
            Ok(c) => weather_s(d) == Ok::<Weather, Seq<char>>(c),
            Err(f) => weather_s(d) == Err::<Weather, Seq<char>>(f@),
        },
{
    let entries = match d {
        Doc::Obj(entries) => entries,
        _ => {
            return Err("scope");
        },
    };
    let mut names: Vec<&str> = Vec::new();
    names.push("wind");
    let mut slots = collect_fields(entries, &names);
    match slots.pop().unwrap() {
        Some(Doc::Obj(wes)) => {
            let mut inner: Vec<&str> = Vec::new();
            inner.push("magnitude");
            let mut wslots = collect_fields(wes, &inner);
            match req_u32(wslots.pop().unwrap()) {
                Some(magnitude) => Ok(Weather { wind: Wind { magnitude } }),
                None => Err("wind"),
            }
        },
        _ => Err("wind"),
    }
}

pub open spec fn post_s(d: Doc) -> Result<PostV, Seq<char>> {
    match d {
        Doc::Obj(es) => match lookup(es@, "queue"@) {
            Some(Doc::Arr(items)) => match queue_s(items@) {
                Some(queue) => Ok(PostV { queue }),
                None => Err("queue"@),
            },
            _ => Err("queue"@),
        },
        _ => Err("scope"@),
    }
}

pub fn decode_post(d: Doc) -> (r: Result<Post, &'static str>)
    ensures
        match r {
            Ok(c) => post_s(d) == Ok::<PostV, Seq<char>>(c@),
            Err(f) => post_s(d) == Err::<PostV, Seq<char>>(f@),
        },
{
    let entries = match d {
        Doc::Obj(entries) => entries,
        _ => {
            return Err("scope");
        },
    };
    let mut names: Vec<&str> = Vec::new();
    names.push("queue");
    let mut slots = collect_fields(entries, &names);
    match slots.pop().unwrap() {
        Some(Doc::Arr(items)) => match decode_queue(items) {
            Some(queue) => Ok(Post { queue }),
            None => Err("queue"),
        },
        _ => Err("queue"),
    }
}

pub open spec fn well_known_s(d: Doc) -> Result<WellKnownV, Seq<char>> {
    match d {
        Doc::Obj(es) => match lookup(es@, "entities"@) {
            Some(Doc::Obj(ees)) => match str_map_s(ees@) {
                Some(entities) => Ok(WellKnownV { entities }),
                None => Err("entities"@),
            },
            _ => Err("entities"@),
        },
        _ => Err("scope"@),
    }
}

pub fn decode_well_known(d: Doc) -> (r: Result<WellKnown, &'static str>)
    ensures
        match r {
            Ok(c) => well_known_s(d) == Ok::<WellKnownV, Seq<char>>(c@),
            Err(f) => well_known_s(d) == Err::<WellKnownV, Seq<char>>(f@),
        },
{
    let entries = match d {
        Doc::Obj(entries) => entries,
        _ => {
            return Err("scope");
        },
    };
    let mut names: Vec<&str> = Vec::new();
    names.push("entities");
    let mut slots = collect_fields(entries, &names);
    match slots.pop().unwrap() {
        Some(Doc::Obj(ees)) => match decode_str_map(ees) {
            Some(entities) => Ok(WellKnown { entities }),
            None => Err("entities"),
        },
        _ => Err("entities"),
    }
}

pub open spec fn auth_s(d: Doc) -> Result<AuthV, Seq<char>> {
    match d {
        Doc::Obj(es) => {
            let acls = acls_req_s(lookup(es@, "acls"@));
            let password = opt_pair_s(lookup(es@, "password"@));
            if acls is None {
                Err("acls"@)
            } else if password is None {
                Err("password"@)
            } else {
                Ok(AuthV { acls: acls.unwrap(), password: password.unwrap() })
            }
        },
        _ => Err("scope"@),
    }
}

pub fn decode_auth(d: Doc) -> (r: Result<Auth, &'static str>)
    ensures
        match r {
            Ok(c) => auth_s(d) == Ok::<AuthV, Seq<char>>(c@),
            Err(f) => auth_s(d) == Err::<AuthV, Seq<char>>(f@),
        },
{
    let entries = match d {
        Doc::Obj(entries) => entries,
        _ => {
            return Err("scope");
        },
    };
    let mut names: Vec<&str> = Vec::new();
    names.push("acls");
    names.push("password");
    proof {
        reveal_strlit("acls");
        reveal_strlit("password");
        assert(names@[0] == "acls" && names@[1] == "password");
        assert("acls"@.len() == 4 && "password"@.len() == 8);
        assert(distinct_names(names@));
    }
    let mut slots = collect_fields(entries, &names);
    let password = decode_opt_pair(slots.pop().unwrap());
    let acls = decode_req_acls(slots.pop().unwrap());
    let acls = match acls {
        Some(acls) => acls,
        None => {
            return Err("acls");
        },
    };
    let password = match password {
        Some(password) => password,
        None => {
            return Err("password");
        },
    };
    Ok(Auth { acls, password })
}

pub open spec fn usernames_s(d: Doc) -> Result<UsernamesV, Seq<char>> {
    match d {
        Doc::Obj(es) => {
            let acls = acls_req_s(lookup(es@, "acls"@));
            let users = match lookup(es@, "users"@) {
                Some(Doc::Obj(ues)) => str_map_s(ues@),
                _ => None,
            };
            if acls is None {
                Err("acls"@)
            } else if users is None {
                Err("users"@)
            } else {
                Ok(UsernamesV { acls: acls.unwrap(), users: users.unwrap() })
            }
        },
        _ => Err("scope"@),
    }
}

pub fn decode_usernames(d: Doc) -> (r: Result<Usernames, &'static str>)
    ensures
        match r {
            Ok(c) => usernames_s(d) == Ok::<UsernamesV, Seq<char>>(c@),
            Err(f) => usernames_s(d) == Err::<UsernamesV, Seq<char>>(f@),
        },
{
    let entries = match d {
        Doc::Obj(entries) => entries,
        _ => {
            return Err("scope");
        },
    };
    let mut names: Vec<&str> = Vec::new();
    names.push("acls");
    names.push("users");
    proof {
        reveal_strlit("acls");
        reveal_strlit("users");
        assert(names@[0] == "acls" && names@[1] == "users");
        assert("acls"@.len() == 4 && "users"@.len() == 5);
        assert(distinct_names(names@));
    }
    let mut slots = collect_fields(entries, &names);
    let users = match slots.pop().unwrap() {
        Some(Doc::Obj(ues)) => decode_str_map(ues),
        _ => None,
    };
    let acls = decode_req_acls(slots.pop().unwrap());
    let acls = match acls {
        Some(acls) => acls,
        None => {
            return Err("acls");
        },
    };
    let users = match users {
        Some(users) => users,
        None => {
            return Err("users");
        },
    };
    Ok(Usernames { acls, users })
}

pub open spec fn identifiers_s(d: Doc) -> Result<IdentifiersV, Seq<char>> {
    match d {
        Doc::Obj(es) => {
            let acls = acls_req_s(lookup(es@, "acls"@));
            let gid = req_u32_s(lookup(es@, "gid"@));
            if acls is None {
                Err("acls"@)
            } else if gid is None {
                Err("gid"@)
            } else {
                Ok(IdentifiersV { acls: acls.unwrap(), gid: gid.unwrap() })
            }
        },
        _ => Err("scope"@),
    }
}

pub fn decode_identifiers(d: Doc) -> (r: Result<Identifiers, &'static str>)
    ensures
        match r {
            Ok(c) => identifiers_s(d) == Ok::<IdentifiersV, Seq<char>>(c@),
            Err(f) => identifiers_s(d) == Err::<IdentifiersV, Seq<char>>(f@),
        },
{
    let entries = match d {
        Doc::Obj(entries) => entries,
        _ => {
            return Err("scope");
        },
    };
    let mut names: Vec<&str> = Vec::new();
    names.push("acls");
    names.push("gid");
    proof {
        reveal_strlit("acls");
        reveal_strlit("gid");
        assert(names@[0] == "acls" && names@[1] == "gid");
        assert("acls"@.len() == 4 && "gid"@.len() == 3);
        assert(distinct_names(names@));
    }
    let mut slots = collect_fields(entries, &names);
    let gid = req_u32(slots.pop().unwrap());
    let acls = decode_req_acls(slots.pop().unwrap());
    let acls = match acls {
        Some(acls) => acls,
        None => {
            return Err("acls");
        },
    };
    let gid = match gid {
        Some(gid) => gid,
        None => {
            return Err("gid");
        },
    };
    Ok(Identifiers { acls, gid })
}


// ------------------------------------------------------------------
// The tag registry and the polymorphic component decoder.
// ------------------------------------------------------------------
/// One decoded component: a tagged union over every recognized schema, plus
/// the sentinel for tags the registry does not know.
#[derive(Debug, PartialEq)]
pub enum DecodedComponent {
    Carryable(Carryable),
    Containing(Containing),
    Location(Location),
    Ownership(Ownership),
    Occupyable(Occupyable),
    Occupying(Occupying),
    Exit(Exit),
    Behaviors(Behaviors),
    BehaviorCollection(BehaviorCollection),
    Movement(Movement),
    Apparel(Apparel),
    Memory(Memory),
    Health(Health),
    Encyclopedia(Encyclopedia),
    Weather(Weather),
    Post(Post),
    WellKnown(WellKnown),
    Auth(Auth),
    Usernames(Usernames),
    Identifiers(Identifiers),
    /// A component whose tag the registry does not know: it carries the
    /// original tag string and no data, and is deliberately not an error.
    Unrecognized(String),
}

impl Scope for DecodedComponent {

}

pub enum DecodedComponentV {
    Carryable(Carryable),
    Containing(ContainingV),
    Location(LocationV),
    Ownership(Ownership),
    Occupyable(OccupyableV),
    Occupying(OccupyingV),
    Exit(ExitV),
    Behaviors(BehaviorsV),
    BehaviorCollection(BehaviorCollectionV),
    Movement(Movement),
    Apparel(Apparel),
    Memory(Memory),
    Health(HealthV),
    Encyclopedia(EncyclopediaV),
    Weather(Weather),
    Post(PostV),
    WellKnown(WellKnownV),
    Auth(AuthV),
    Usernames(UsernamesV),
    Identifiers(IdentifiersV),
    Unrecognized(String),
}

impl View for DecodedComponent {
    type V = DecodedComponentV;

    open spec fn view(&self) -> DecodedComponentV {
        match self {
            DecodedComponent::Carryable(c) => DecodedComponentV::Carryable(*c),
            DecodedComponent::Containing(c) => DecodedComponentV::Containing(c@),
            DecodedComponent::Location(c) => DecodedComponentV::Location(c@),
            DecodedComponent::Ownership(c) => DecodedComponentV::Ownership(*c),
            DecodedComponent::Occupyable(c) => DecodedComponentV::Occupyable(c@),
            DecodedComponent::Occupying(c) => DecodedComponentV::Occupying(c@),
            DecodedComponent::Exit(c) => DecodedComponentV::Exit(c@),
            DecodedComponent::Behaviors(c) => DecodedComponentV::Behaviors(c@),
            DecodedComponent::BehaviorCollection(c) => DecodedComponentV::BehaviorCollection(c@),
            DecodedComponent::Movement(c) => DecodedComponentV::Movement(*c),
            DecodedComponent::Apparel(c) => DecodedComponentV::Apparel(*c),
            DecodedComponent::Memory(c) => DecodedComponentV::Memory(*c),
            DecodedComponent::Health(c) => DecodedComponentV::Health(c@),
            DecodedComponent::Encyclopedia(c) => DecodedComponentV::Encyclopedia(c@),
            DecodedComponent::Weather(c) => DecodedComponentV::Weather(*c),
            DecodedComponent::Post(c) => DecodedComponentV::Post(c@),
            DecodedComponent::WellKnown(c) => DecodedComponentV::WellKnown(c@),
            DecodedComponent::Auth(c) => DecodedComponentV::Auth(c@),
            DecodedComponent::Usernames(c) => DecodedComponentV::Usernames(c@),
            DecodedComponent::Identifiers(c) => DecodedComponentV::Identifiers(c@),
            DecodedComponent::Unrecognized(tag) => DecodedComponentV::Unrecognized(*tag),
        }
    }
}

/// The registry's domain: the component tags with a known schema.
pub open spec fn is_known_tag(tag: Seq<char>) -> bool {
    ||| tag == "carryable"@
    ||| tag == "containing"@
    ||| tag == "location"@
    ||| tag == "ownership"@
    ||| tag == "occupyable"@
    ||| tag == "occupying"@
    ||| tag == "exit"@
    ||| tag == "behaviors"@
    ||| tag == "behaviorCollection"@
    ||| tag == "movement"@
    ||| tag == "apparel"@
    ||| tag == "memory"@
    ||| tag == "health"@
    ||| tag == "encyclopedia"@
    ||| tag == "weather"@
    ||| tag == "post"@
    ||| tag == "wellKnown"@
    ||| tag == "auth"@
    ||| tag == "usernames"@
    ||| tag == "identifiers"@
}

/// What one component map entry denotes: the tag's schema applied to the
/// document, or the unrecognized sentinel carrying the tag itself.
pub open spec fn component_s(tag: String, d: Doc) -> Result<DecodedComponentV, Seq<char>> {
    if tag@ == "carryable"@ {
        match carryable_s(d) {
            Ok(c) => Ok(DecodedComponentV::Carryable(c)),
            Err(f) => Err(f),
        }
    } else if tag@ == "containing"@ {
        match containing_s(d) {
            Ok(c) => Ok(DecodedComponentV::Containing(c)),
            Err(f) => Err(f),
        }
    } else if tag@ == "location"@ {
        match location_s(d) {
            Ok(c) => Ok(DecodedComponentV::Location(c)),
            Err(f) => Err(f),
        }
    } else if tag@ == "ownership"@ {
        match ownership_s(d) {
            Ok(c) => Ok(DecodedComponentV::Ownership(c)),
            Err(f) => Err(f),
        }
    } else if tag@ == "occupyable"@ {
        match occupyable_s(d) {
            Ok(c) => Ok(DecodedComponentV::Occupyable(c)),
            Err(f) => Err(f),
        }
    } else if tag@ == "occupying"@ {
        match occupying_s(d) {
            Ok(c) => Ok(DecodedComponentV::Occupying(c)),
            Err(f) => Err(f),
        }
    } else if tag@ == "exit"@ {
        match exit_s(d) {
            Ok(c) => Ok(DecodedComponentV::Exit(c)),
            Err(f) => Err(f),
        }
    } else if tag@ == "behaviors"@ {
        match behaviors_s(d) {
            Ok(c) => Ok(DecodedComponentV::Behaviors(c)),
            Err(f) => Err(f),
        }
    } else if tag@ == "behaviorCollection"@ {
        match behavior_collection_s(d) {
            Ok(c) => Ok(DecodedComponentV::BehaviorCollection(c)),
            Err(f) => Err(f),
        }
    } else if tag@ == "movement"@ {
        match movement_s(d) {
            Ok(c) => Ok(DecodedComponentV::Movement(c)),
            Err(f) => Err(f),
        }
    } else if tag@ == "apparel"@ {
        match apparel_s(d) {
            Ok(c) => Ok(DecodedComponentV::Apparel(c)),
            Err(f) => Err(f),
        }
    } else if tag@ == "memory"@ {
        match memory_s(d) {
            Ok(c) => Ok(DecodedComponentV::Memory(c)),
            Err(f) => Err(f),
        }
    } else if tag@ == "health"@ {
        match health_s(d) {
            Ok(c) => Ok(DecodedComponentV::Health(c)),
            Err(f) => Err(f),
        }
    } else if tag@ == "encyclopedia"@ {
        match encyclopedia_s(d) {
            Ok(c) => Ok(DecodedComponentV::Encyclopedia(c)),
            Err(f) => Err(f),
        }
    } else if tag@ == "weather"@ {
        match weather_s(d) {
            Ok(c) => Ok(DecodedComponentV::Weather(c)),
            Err(f) => Err(f),
        }
    } else if tag@ == "post"@ {
        match post_s(d) {
            Ok(c) => Ok(DecodedComponentV::Post(c)),
            Err(f) => Err(f),
        }
    } else if tag@ == "wellKnown"@ {
        match well_known_s(d) {
            Ok(c) => Ok(DecodedComponentV::WellKnown(c)),
            Err(f) => Err(f),
        }
    } else if tag@ == "auth"@ {
        match auth_s(d) {
            Ok(c) => Ok(DecodedComponentV::Auth(c)),
            Err(f) => Err(f),
        }
    } else if tag@ == "usernames"@ {
        match usernames_s(d) {
            Ok(c) => Ok(DecodedComponentV::Usernames(c)),
            Err(f) => Err(f),
        }
    } else if tag@ == "identifiers"@ {
        match identifiers_s(d) {
            Ok(c) => Ok(DecodedComponentV::Identifiers(c)),
            Err(f) => Err(f),
        }
    } else {
        Ok(DecodedComponentV::Unrecognized(tag))
    }
}

fn comp_err(tag: &String, field: &str) -> (r: DecodeError)
    ensures
        r@ == DecodeErrorV::ComponentShapeMismatch(tag@, field@),
{
    DecodeError::ComponentShapeMismatch { tag: tag.clone(), field: field.to_owned() }
}

/// Decodes one component document by its tag: a recognized tag is held to its
/// schema, an unrecognized tag survives as the sentinel.
pub fn new_from_kv(key: &String, value: Doc) -> (r: Result<DecodedComponent, DecodeError>)
    ensures
        match r {
            Ok(c) => component_s(*key, value) == Ok::<DecodedComponentV, Seq<char>>(c@),
            Err(e) => component_s(*key, value) is Err && e@ == DecodeErrorV::ComponentShapeMismatch(
                key@,
                component_s(*key, value)->Err_0,
            ),
        },
{
    if str_eq(key.as_str(), "carryable") {
        match decode_carryable(value) {
            Ok(c) => Ok(DecodedComponent::Carryable(c)),
            Err(f) => Err(comp_err(key, f)),
        }
    } else if str_eq(key.as_str(), "containing") {
        match decode_containing(value) {
            Ok(c) => Ok(DecodedComponent::Containing(c)),
            Err(f) => Err(comp_err(key, f)),
        }
    } else if str_eq(key.as_str(), "location") {
        match decode_location(value) {
            Ok(c) => Ok(DecodedComponent::Location(c)),
            Err(f) => Err(comp_err(key, f)),
        }
    } else if str_eq(key.as_str(), "ownership") {
        match decode_ownership(value) {
            Ok(c) => Ok(DecodedComponent::Ownership(c)),
            Err(f) => Err(comp_err(key, f)),
        }
    } else if str_eq(key.as_str(), "occupyable") {
        match decode_occupyable(value) {
            Ok(c) => Ok(DecodedComponent::Occupyable(c)),
            Err(f) => Err(comp_err(key, f)),
        }
    } else if str_eq(key.as_str(), "occupying") {
        match decode_occupying(value) {
            Ok(c) => Ok(DecodedComponent::Occupying(c)),
            Err(f) => Err(comp_err(key, f)),
        }
    } else if str_eq(key.as_str(), "exit") {
        match decode_exit(value) {
            Ok(c) => Ok(DecodedComponent::Exit(c)),
            Err(f) => Err(comp_err(key, f)),
        }
    } else if str_eq(key.as_str(), "behaviors") {
        match decode_behaviors(value) {
            Ok(c) => Ok(DecodedComponent::Behaviors(c)),
            Err(f) => Err(comp_err(key, f)),
        }
    } else if str_eq(key.as_str(), "behaviorCollection") {
        match decode_behavior_collection(value) {
            Ok(c) => Ok(DecodedComponent::BehaviorCollection(c)),
            Err(f) => Err(comp_err(key, f)),
        }
    } else if str_eq(key.as_str(), "movement") {
        match decode_movement(value) {
            Ok(c) => Ok(DecodedComponent::Movement(c)),
            Err(f) => Err(comp_err(key, f)),
        }
    } else if str_eq(key.as_str(), "apparel") {
        match decode_apparel(value) {
            Ok(c) => Ok(DecodedComponent::Apparel(c)),
            Err(f) => Err(comp_err(key, f)),
        }
    } else if str_eq(key.as_str(), "memory") {
        match decode_memory(value) {
            Ok(c) => Ok(DecodedComponent::Memory(c)),
            Err(f) => Err(comp_err(key, f)),
        }
    } else if str_eq(key.as_str(), "health") {
        match decode_health(value) {
            Ok(c) => Ok(DecodedComponent::Health(c)),
            Err(f) => Err(comp_err(key, f)),
        }
    } else if str_eq(key.as_str(), "encyclopedia") {
        match decode_encyclopedia(value) {
            Ok(c) => Ok(DecodedComponent::Encyclopedia(c)),
            Err(f) => Err(comp_err(key, f)),
        }
    } else if str_eq(key.as_str(), "weather") {
        match decode_weather(value) {
            Ok(c) => Ok(DecodedComponent::Weather(c)),
            Err(f) => Err(comp_err(key, f)),
        }
    } else if str_eq(key.as_str(), "post") {
        match decode_post(value) {
            Ok(c) => Ok(DecodedComponent::Post(c)),
            Err(f) => Err(comp_err(key, f)),
        }
    } else if str_eq(key.as_str(), "wellKnown") {
        match decode_well_known(value) {
            Ok(c) => Ok(DecodedComponent::WellKnown(c)),
            Err(f) => Err(comp_err(key, f)),
        }
    } else if str_eq(key.as_str(), "auth") {
        match decode_auth(value) {
            Ok(c) => Ok(DecodedComponent::Auth(c)),
            Err(f) => Err(comp_err(key, f)),
        }
    } else if str_eq(key.as_str(), "usernames") {
        match decode_usernames(value) {
            Ok(c) => Ok(DecodedComponent::Usernames(c)),
            Err(f) => Err(comp_err(key, f)),
        }
    } else if str_eq(key.as_str(), "identifiers") {
        match decode_identifiers(value) {
            Ok(c) => Ok(DecodedComponent::Identifiers(c)),
            Err(f) => Err(comp_err(key, f)),
        }
    } else {
        Ok(DecodedComponent::Unrecognized(key.clone()))
    }
}

/// Every entry of the component map decodes under its tag's schema.
pub open spec fn components_ok(m: Seq<(String, Doc)>) -> bool {
    forall|i: int| 0 <= i < m.len() ==> component_s((#[trigger] m[i]).0, m[i].1) is Ok
}

/// What a whole component map denotes: the same tags, in the same order, each
/// mapped to its decoded component.
pub open spec fn components_s(m: Seq<(String, Doc)>) -> Option<
    Seq<(String, DecodedComponentV)>,
> {
    if components_ok(m) {
        Some(m.map_values(|p: (String, Doc)| (p.0, component_s(p.0, p.1)->Ok_0)))
    } else {
        None
    }
}

/// Decodes every entry of an entity's component map. Every input tag is
/// present in the output exactly once, in input order; one recognized tag
/// whose document does not match its schema fails the whole map.
#[verifier::loop_isolation(false)]
pub fn decode_components(map: Vec<(String, Doc)>) -> (r: Result<
    Vec<(String, DecodedComponent)>,
    DecodeError,
>)
    ensures
        match r {
            Ok(out) => components_s(map@) == Some(
                out@.map_values(|p: (String, DecodedComponent)| (p.0, p.1@)),
            ) && out@.len() == map@.len() && forall|i: int|
                0 <= i < map@.len() ==> (#[trigger] out@[i]).0 == map@[i].0,
            Err(e) => components_s(map@) is None && exists|i: int|
                0 <= i < map@.len() && e@ == DecodeErrorV::ComponentShapeMismatch(
                    (#[trigger] map@[i]).0@,
                    component_s(map@[i].0, map@[i].1)->Err_0,
                ) && component_s(map@[i].0, map@[i].1) is Err,
        },
{
    let ghost all = map@;
    let mut map = map;
    let mut out: Vec<(String, DecodedComponent)> = Vec::new();
    while map.len() > 0
        invariant
            all.len() == out@.len() + map@.len(),
            map@ == all.skip(out@.len() as int),
            forall|t: int| 0 <= t < out@.len() ==> component_s((#[trigger] all[t]).0, all[t].1)
                is Ok && out@[t].0 == all[t].0 && out@[t].1@ == component_s(
                all[t].0,
                all[t].1,
            )->Ok_0,
        decreases map@.len(),
    {
        let ghost k = out@.len() as int;
        proof {
            assert(all.skip(k)[0] == all[k]);
            assert(all.skip(k).drop_first() =~= all.skip(k + 1));
        }
        let pair = map.remove(0);
        let key = pair.0;
        match new_from_kv(&key, pair.1) {
            Ok(c) => out.push((key, c)),
            Err(e) => {
                proof {
                    assert(0 <= k < all.len() && component_s(all[k].0, all[k].1) is Err);
                    assert(!components_ok(all));
                }
                return Err(e);
            },
        }
    }
    proof {
        assert(components_ok(all));
        assert(out@.map_values(|p: (String, DecodedComponent)| (p.0, p.1@)) =~= all.map_values(
            |p: (String, Doc)| (p.0, component_s(p.0, p.1)->Ok_0),
        ));
    }
    Ok(out)
}

/// Decodes a raw component map, as [`decode_components`] does.
pub fn from_map(map: Vec<(String, Doc)>) -> (r: Result<
    Vec<(String, DecodedComponent)>,
    DecodeError,
>)
    ensures
        match r {
            Ok(out) => components_s(map@) == Some(
                out@.map_values(|p: (String, DecodedComponent)| (p.0, p.1@)),
            ) && out@.len() == map@.len() && forall|i: int|
                0 <= i < map@.len() ==> (#[trigger] out@[i]).0 == map@[i].0,
            Err(e) => components_s(map@) is None && exists|i: int|
                0 <= i < map@.len() && e@ == DecodeErrorV::ComponentShapeMismatch(
                    (#[trigger] map@[i]).0@,
                    component_s(map@[i].0, map@[i].1)->Err_0,
                ) && component_s(map@[i].0, map@[i].1) is Err,
        },
{
    decode_components(map)
}

/// A tag absent from the registry decodes to the unrecognized sentinel
/// carrying the original tag string, and never to an error.
pub proof fn lemma_unknown_tag_survives(tag: String, d: Doc)
    requires
        !is_known_tag(tag@),
    ensures
        component_s(tag, d) == Ok::<DecodedComponentV, Seq<char>>(
            DecodedComponentV::Unrecognized(tag),
        ),
{
}

/// A component map whose recognized tags all match their schemas decodes
/// successfully as a whole, however many unrecognized tags it carries, and
/// each unrecognized tag decodes to the sentinel carrying that tag.
pub proof fn lemma_components_survive(m: Seq<(String, Doc)>)
    requires
        forall|i: int| 0 <= i < m.len() ==> is_known_tag((#[trigger] m[i]).0@) ==> component_s(
            m[i].0,
            m[i].1,
        ) is Ok,
    ensures
        components_ok(m),
        components_s(m) is Some,
        forall|i: int| 0 <= i < m.len() && !is_known_tag((#[trigger] m[i]).0@)
            ==> components_s(m).unwrap()[i] == (
            m[i].0,
            DecodedComponentV::Unrecognized(m[i].0),
        ),
{
    assert forall|i: int| 0 <= i < m.len() implies component_s((#[trigger] m[i]).0, m[i].1)
        is Ok by {
        if !is_known_tag(m[i].0@) {
            lemma_unknown_tag_survives(m[i].0, m[i].1);
        }
    }
}

/// A component map whose tags are all present in the registry decodes, when
/// it decodes at all, to no unrecognized sentinel.
pub proof fn lemma_known_tags_no_unrecognized(m: Seq<(String, Doc)>)
    requires
        forall|i: int| 0 <= i < m.len() ==> is_known_tag((#[trigger] m[i]).0@),
        components_s(m) is Some,
    ensures
        forall|i: int| 0 <= i < m.len() ==> !((#[trigger] components_s(m).unwrap()[i]).1
            is Unrecognized),
{
    assert forall|i: int| 0 <= i < m.len() implies !((#[trigger] components_s(m).unwrap()[i]).1
        is Unrecognized) by {
        assert(component_s(m[i].0, m[i].1) is Ok);
        assert(components_s(m).unwrap()[i] == (m[i].0, component_s(m[i].0, m[i].1)->Ok_0));
        assert(is_known_tag(m[i].0@));
    }
}

} // verus!
