use worlddecode::doc::{Doc, Num};
use worlddecode::envelope::{decode_entity, decode_entity_doc, PersistedEntity};
use worlddecode::model::DecodeError;
use worlddecode::scopes::{decode_components, from_map, new_from_kv, DecodedComponent};

fn s(x: &str) -> Doc {
    Doc::Str(x.to_string())
}

fn obj(pairs: Vec<(&str, Doc)>) -> Doc {
    Doc::Obj(pairs.into_iter().map(|(k, v)| (k.to_string(), v)).collect())
}

fn empty_acls() -> Doc {
    obj(vec![("rules", Doc::Arr(vec![]))])
}

fn identity_doc() -> Doc {
    obj(vec![("public", s("pk")), ("private", s("sk"))])
}

fn ref_doc(key: &str) -> Doc {
    obj(vec![
        ("py/object", s("model.EntityRef")),
        ("key", s(key)),
        ("klass", s("thing")),
        ("name", s(key)),
    ])
}

const P6_DOC: &str = r#"{
    "key": "e1",
    "version": {"i": 1},
    "identity": {"public": "pk", "private": "sk"},
    "class": "thing",
    "acls": {"rules": []},
    "props": {"map": {}},
    "scopes": {
        "carryable": {
            "kind": {"identity": {"public": "kp", "private": "ks"}},
            "loose": true,
            "quantity": 1.0
        }
    }
}"#;

#[test]
fn carryable_scenario_decodes() {
    let entity = decode_entity(P6_DOC).expect("entity should decode");
    assert_eq!(entity.key, "e1");
    assert_eq!(entity.version, 1);
    assert_eq!(entity.class.name, "thing");
    assert!(entity.acls.rules.is_empty());
    assert!(entity.props.is_empty());
    assert_eq!(entity.scopes.len(), 1);
    assert_eq!(entity.scopes[0].0, "carryable");

    let components = decode_components(entity.scopes).expect("components should decode");
    assert_eq!(components.len(), 1);
    assert_eq!(components[0].0, "carryable");
    match &components[0].1 {
        DecodedComponent::Carryable(c) => {
            assert!(c.loose);
            assert_eq!(c.quantity, Num::Dec("1.0".to_string()));
            assert_eq!(c.kind.identity.public, "kp");
        }
        other => panic!("expected a carryable component, got {:?}", other),
    }
}

#[test]
fn mystery_tag_survives() {
    let map = vec![(
        "mysteryTag".to_string(),
        obj(vec![("anything", Doc::Num(Num::Int(1)))]),
    )];
    let components = decode_components(map).expect("unknown tags must not fail the decode");
    assert_eq!(components.len(), 1);
    assert_eq!(components[0].0, "mysteryTag");
    match &components[0].1 {
        DecodedComponent::Unrecognized(tag) => assert_eq!(tag, "mysteryTag"),
        other => panic!("expected the unrecognized sentinel, got {:?}", other),
    }
}

#[test]
fn occupyable_missing_occupancy_is_shape_mismatch() {
    let map = vec![(
        "occupyable".to_string(),
        obj(vec![("acls", empty_acls()), ("occupied", Doc::Arr(vec![]))]),
    )];
    match decode_components(map) {
        Err(DecodeError::ComponentShapeMismatch { tag, field }) => {
            assert_eq!(tag, "occupyable");
            assert_eq!(field, "occupancy");
        }
        other => panic!("expected a component shape mismatch, got {:?}", other),
    }
}

#[test]
fn malformed_text_is_parse_error() {
    let r = decode_entity(r#"{"key": "e1", "version": {"i": 1"#);
    assert_eq!(r, Err(DecodeError::DocumentParseError));
}

#[test]
fn persisted_row_decodes_like_its_text() {
    let row = PersistedEntity {
        key: "e1".to_string(),
        gid: 7,
        version: 1,
        serialized: P6_DOC.to_string(),
    };
    let via_row = row.to_entity().expect("row should decode");
    let direct = decode_entity(P6_DOC).expect("text should decode");
    assert_eq!(via_row, direct);
}

#[test]
fn decoding_is_deterministic() {
    let once = decode_entity(P6_DOC);
    let twice = decode_entity(P6_DOC);
    assert_eq!(once, twice);
}

fn envelope_entries(class_name: &str, class_value: Doc) -> Vec<(String, Doc)> {
    vec![
        ("key".to_string(), s("e1")),
        ("version".to_string(), obj(vec![("i", Doc::Num(Num::Int(3)))])),
        ("identity".to_string(), identity_doc()),
        ("acls".to_string(), empty_acls()),
        ("props".to_string(), obj(vec![("map", obj(vec![]))])),
        ("scopes".to_string(), obj(vec![])),
        (class_name.to_string(), class_value),
    ]
}

#[test]
fn legacy_class_spelling_decodes_identically() {
    let legacy = Doc::Obj(envelope_entries("klass", s("thing")));
    let canonical = Doc::Obj(envelope_entries("class", s("thing")));
    let from_legacy = decode_entity_doc(legacy).expect("legacy spelling should decode");
    let from_canonical = decode_entity_doc(canonical).expect("canonical spelling should decode");
    assert_eq!(from_legacy, from_canonical);
    assert_eq!(from_legacy.class.name, "thing");
}

#[test]
fn class_marker_object_decodes_to_its_tag() {
    let d = Doc::Obj(envelope_entries("class", obj(vec![("py/type", s("scopes.Thing"))])));
    let entity = decode_entity_doc(d).expect("marker-encoded class should decode");
    assert_eq!(entity.class.name, "scopes.Thing");
}

#[test]
fn canonical_class_wins_over_legacy() {
    let mut entries = envelope_entries("class", s("canonical"));
    entries.push(("klass".to_string(), s("legacy")));
    let entity = decode_entity_doc(Doc::Obj(entries)).expect("should decode");
    assert_eq!(entity.class.name, "canonical");
}

#[test]
fn missing_optional_fields_decode_to_absent() {
    let entity = decode_entity(P6_DOC).expect("entity should decode");
    assert_eq!(entity.parent, None);
    assert_eq!(entity.creator, None);
    assert_eq!(entity.identity.signature, None);
}

#[test]
fn null_optional_fields_decode_to_absent() {
    let mut entries = envelope_entries("class", s("thing"));
    entries.push(("parent".to_string(), Doc::Null));
    entries.push(("creator".to_string(), Doc::Null));
    let entity = decode_entity_doc(Doc::Obj(entries)).expect("should decode");
    assert_eq!(entity.parent, None);
    assert_eq!(entity.creator, None);
}

#[test]
fn present_parent_reference_decodes() {
    let mut entries = envelope_entries("class", s("thing"));
    entries.push(("parent".to_string(), ref_doc("p1")));
    let entity = decode_entity_doc(Doc::Obj(entries)).expect("should decode");
    let parent = entity.parent.expect("parent should be present");
    assert_eq!(parent.key, "p1");
    assert_eq!(parent.klass, "thing");
}

#[test]
fn missing_required_field_is_malformed_envelope() {
    let r = decode_entity(r#"{"version": {"i": 1}}"#);
    match r {
        Err(DecodeError::MalformedEnvelope { field }) => assert_eq!(field, "key"),
        other => panic!("expected a malformed envelope, got {:?}", other),
    }
}

#[test]
fn wrong_version_shape_is_malformed_envelope() {
    let mut entries = envelope_entries("class", s("thing"));
    entries.retain(|(k, _)| k != "version");
    entries.push(("version".to_string(), s("not a counter")));
    match decode_entity_doc(Doc::Obj(entries)) {
        Err(DecodeError::MalformedEnvelope { field }) => assert_eq!(field, "version"),
        other => panic!("expected a malformed envelope, got {:?}", other),
    }
}

#[test]
fn producer_markers_are_ignored() {
    let text = r#"{
        "py/object": "model.Entity",
        "key": "e9",
        "version": {"py/object": "model.Version", "i": 2},
        "identity": {"py/object": "model.Identity", "public": "pk", "private": "sk"},
        "class": {"py/type": "scopes.Area"},
        "acls": {"py/object": "model.Acls", "rules": []},
        "props": {"map": {}},
        "scopes": {}
    }"#;
    let entity = decode_entity(text).expect("markers must be tolerated");
    assert_eq!(entity.key, "e9");
    assert_eq!(entity.version, 2);
    assert_eq!(entity.class.name, "scopes.Area");
    assert!(entity.scopes.is_empty());
}

#[test]
fn container_component_decodes() {
    let d = obj(vec![
        ("acls", empty_acls()),
        ("capacity", Doc::Num(Num::Int(5))),
        ("holding", Doc::Arr(vec![ref_doc("h1"), ref_doc("h2")])),
        ("locked", Doc::Bool(false)),
        ("openable", Doc::Null),
        ("pattern", s("gen")),
        ("produces", obj(vec![("anything", Doc::Bool(true))])),
    ]);
    match new_from_kv(&"containing".to_string(), d) {
        Ok(DecodedComponent::Containing(c)) => {
            assert_eq!(c.capacity, Some(5));
            assert_eq!(c.holding.len(), 2);
            assert_eq!(c.holding[1].key, "h2");
            assert!(!c.locked);
            assert_eq!(c.openable, None);
            assert_eq!(c.pattern, Some("gen".to_string()));
        }
        other => panic!("expected a container, got {:?}", other),
    }
}

#[test]
fn exit_and_occupying_components_decode() {
    let exit = obj(vec![("acls", empty_acls()), ("area", ref_doc("a1"))]);
    match new_from_kv(&"exit".to_string(), exit) {
        Ok(DecodedComponent::Exit(e)) => assert_eq!(e.area.key, "a1"),
        other => panic!("expected an exit, got {:?}", other),
    }
    let occupying = obj(vec![("acls", empty_acls()), ("area", ref_doc("a2"))]);
    match new_from_kv(&"occupying".to_string(), occupying) {
        Ok(DecodedComponent::Occupying(o)) => assert_eq!(o.area.key, "a2"),
        other => panic!("expected an occupying relation, got {:?}", other),
    }
}

#[test]
fn ownership_location_and_occupyable_decode() {
    let ownership = obj(vec![("owner", ref_doc("o1"))]);
    match new_from_kv(&"ownership".to_string(), ownership) {
        Ok(DecodedComponent::Ownership(o)) => assert_eq!(o.owner.key, "o1"),
        other => panic!("expected an ownership relation, got {:?}", other),
    }
    let location = obj(vec![("acls", empty_acls()), ("container", ref_doc("c1"))]);
    match new_from_kv(&"location".to_string(), location) {
        Ok(DecodedComponent::Location(l)) => {
            assert_eq!(l.container.expect("container should be present").key, "c1")
        }
        other => panic!("expected a location, got {:?}", other),
    }
    let occupyable = obj(vec![
        ("acls", empty_acls()),
        ("occupancy", Doc::Num(Num::Int(2))),
        ("occupied", Doc::Arr(vec![ref_doc("p1")])),
    ]);
    match new_from_kv(&"occupyable".to_string(), occupyable) {
        Ok(DecodedComponent::Occupyable(o)) => {
            assert_eq!(o.occupancy, 2);
            assert_eq!(o.occupied.len(), 1);
        }
        other => panic!("expected an occupyable slot, got {:?}", other),
    }
}

#[test]
fn behaviors_component_decodes() {
    let log = obj(vec![
        ("context", obj(vec![("who", s("e1"))])),
        ("logs", Doc::Arr(vec![s("line one"), s("line two")])),
        ("exceptions", Doc::Null),
        ("success", Doc::Bool(true)),
        ("time", Doc::Num(Num::Dec("1.5".to_string()))),
        ("elapsed", Doc::Num(Num::Dec("0.25".to_string()))),
    ]);
    let behavior = obj(vec![
        ("py/object", s("scopes.Behavior")),
        ("acls", empty_acls()),
        ("python", s("pass")),
        ("executable", Doc::Bool(true)),
        ("logs", Doc::Arr(vec![log])),
    ]);
    let d = obj(vec![(
        "behaviors",
        obj(vec![
            ("py/object", s("scopes.BehaviorMap")),
            ("map", obj(vec![("b:default", behavior)])),
        ]),
    )]);
    match new_from_kv(&"behaviors".to_string(), d) {
        Ok(DecodedComponent::Behaviors(b)) => {
            assert_eq!(b.map.len(), 1);
            assert_eq!(b.map[0].0, "b:default");
            let behavior = &b.map[0].1;
            assert_eq!(behavior.python, Some("pass".to_string()));
            assert!(behavior.executable);
            assert_eq!(behavior.logs.len(), 1);
            assert_eq!(behavior.logs[0].logs, vec!["line one", "line two"]);
            assert!(behavior.logs[0].success);
            assert_eq!(behavior.logs[0].exceptions, None);
        }
        other => panic!("expected a behavior set, got {:?}", other),
    }
}

#[test]
fn behavior_collection_decodes() {
    let d = obj(vec![(
        "entities",
        obj(vec![(
            "e1",
            Doc::Arr(vec![obj(vec![("py/object", s("scopes.Meta"))])]),
        )]),
    )]);
    match new_from_kv(&"behaviorCollection".to_string(), d) {
        Ok(DecodedComponent::BehaviorCollection(c)) => {
            assert_eq!(c.entities.len(), 1);
            assert_eq!(c.entities[0].0, "e1");
            assert_eq!(c.entities[0].1.len(), 1);
        }
        other => panic!("expected a behavior collection, got {:?}", other),
    }
}

#[test]
fn presence_only_components_decode() {
    for tag in ["movement", "apparel", "memory"] {
        let r = new_from_kv(&tag.to_string(), obj(vec![]));
        assert!(r.is_ok(), "{} should decode from an empty map", tag);
    }
    let r = new_from_kv(&"movement".to_string(), Doc::Bool(true));
    assert!(r.is_err(), "a non-map presence component is a shape mismatch");
}

#[test]
fn health_encyclopedia_and_weather_decode() {
    let health = obj(vec![(
        "medical",
        obj(vec![(
            "nutrition",
            obj(vec![("properties", obj(vec![("fed", Doc::Bool(true))]))]),
        )]),
    )]);
    match new_from_kv(&"health".to_string(), health) {
        Ok(DecodedComponent::Health(h)) => {
            assert_eq!(h.medical.nutrition.properties.len(), 1);
            assert_eq!(h.medical.nutrition.properties[0].0, "fed");
        }
        other => panic!("expected a health record, got {:?}", other),
    }
    let encyclopedia = obj(vec![("body", s("an entry"))]);
    match new_from_kv(&"encyclopedia".to_string(), encyclopedia) {
        Ok(DecodedComponent::Encyclopedia(e)) => {
            assert_eq!(e.acls, None);
            assert_eq!(e.body, "an entry");
        }
        other => panic!("expected an encyclopedia entry, got {:?}", other),
    }
    let weather = obj(vec![("wind", obj(vec![("magnitude", Doc::Num(Num::Int(12)))]))]);
    match new_from_kv(&"weather".to_string(), weather) {
        Ok(DecodedComponent::Weather(w)) => assert_eq!(w.wind.magnitude, 12),
        other => panic!("expected a weather record, got {:?}", other),
    }
}

#[test]
fn post_auth_and_index_components_decode() {
    let post = obj(vec![(
        "queue",
        Doc::Arr(vec![obj(vec![
            ("when", obj(vec![("time", s("2021-01-01T00:00:00"))])),
            ("entity_key", s("e2")),
            ("message", s("hello")),
        ])]),
    )]);
    match new_from_kv(&"post".to_string(), post) {
        Ok(DecodedComponent::Post(p)) => {
            assert_eq!(p.queue.len(), 1);
            assert_eq!(p.queue[0].entity_key, "e2");
            assert_eq!(p.queue[0].message, "hello");
            assert_eq!(p.queue[0].when.time, "2021-01-01T00:00:00");
        }
        other => panic!("expected a post outbox, got {:?}", other),
    }
    let auth = obj(vec![
        ("acls", empty_acls()),
        ("password", Doc::Arr(vec![s("salt"), s("hash")])),
    ]);
    match new_from_kv(&"auth".to_string(), auth) {
        Ok(DecodedComponent::Auth(a)) => {
            assert_eq!(a.password, Some(("salt".to_string(), "hash".to_string())))
        }
        other => panic!("expected an authentication record, got {:?}", other),
    }
    let well_known = obj(vec![("entities", obj(vec![("welcome", s("e1"))]))]);
    match new_from_kv(&"wellKnown".to_string(), well_known) {
        Ok(DecodedComponent::WellKnown(w)) => {
            assert_eq!(w.entities, vec![("welcome".to_string(), "e1".to_string())])
        }
        other => panic!("expected a well-known index, got {:?}", other),
    }
    let usernames = obj(vec![
        ("acls", empty_acls()),
        ("users", obj(vec![("admin", s("e1"))])),
    ]);
    match new_from_kv(&"usernames".to_string(), usernames) {
        Ok(DecodedComponent::Usernames(u)) => {
            assert_eq!(u.users, vec![("admin".to_string(), "e1".to_string())])
        }
        other => panic!("expected a username index, got {:?}", other),
    }
    let identifiers = obj(vec![("acls", empty_acls()), ("gid", Doc::Num(Num::Int(41)))]);
    match new_from_kv(&"identifiers".to_string(), identifiers) {
        Ok(DecodedComponent::Identifiers(i)) => assert_eq!(i.gid, 41),
        other => panic!("expected an identifiers record, got {:?}", other),
    }
}

#[test]
fn acl_rules_decode() {
    let text = r#"{
        "key": "e1",
        "version": {"i": 1},
        "identity": {"public": "pk", "private": "sk", "signature": "sig"},
        "class": "thing",
        "acls": {"rules": [{"keys": ["owner", "admin"], "perm": "write"}]},
        "props": {"map": {"name": {"value": "A Name"}}},
        "scopes": {}
    }"#;
    let entity = decode_entity(text).expect("should decode");
    assert_eq!(entity.identity.signature, Some("sig".to_string()));
    assert_eq!(entity.acls.rules.len(), 1);
    assert_eq!(entity.acls.rules[0].keys, vec!["owner", "admin"]);
    assert_eq!(entity.acls.rules[0].perm, "write");
    assert_eq!(entity.props.len(), 1);
    assert_eq!(entity.props[0].0, "name");
}

#[test]
fn all_known_tags_decode_to_typed_components() {
    let map = vec![
        ("movement".to_string(), obj(vec![])),
        ("apparel".to_string(), obj(vec![])),
        ("memory".to_string(), obj(vec![])),
    ];
    let components = from_map(map).expect("should decode");
    assert_eq!(components.len(), 3);
    for (_, c) in &components {
        assert!(!matches!(c, DecodedComponent::Unrecognized(_)));
    }
}

#[test]
fn one_bad_component_fails_the_whole_map() {
    let map = vec![
        ("movement".to_string(), obj(vec![])),
        ("weather".to_string(), obj(vec![("wind", s("breezy"))])),
    ];
    match from_map(map) {
        Err(DecodeError::ComponentShapeMismatch { tag, field }) => {
            assert_eq!(tag, "weather");
            assert_eq!(field, "wind");
        }
        other => panic!("expected a component shape mismatch, got {:?}", other),
    }
}

#[test]
fn integer_and_decimal_numbers_keep_their_values() {
    let d = obj(vec![
        ("kind", obj(vec![("identity", identity_doc())])),
        ("loose", Doc::Bool(false)),
        ("quantity", Doc::Num(Num::Int(3))),
    ]);
    match new_from_kv(&"carryable".to_string(), d) {
        Ok(DecodedComponent::Carryable(c)) => assert_eq!(c.quantity, Num::Int(3)),
        other => panic!("expected a carryable item, got {:?}", other),
    }
}

#[test]
fn non_map_document_is_malformed_envelope() {
    match decode_entity("42") {
        Err(DecodeError::MalformedEnvelope { field }) => assert_eq!(field, "entity"),
        other => panic!("expected a malformed envelope, got {:?}", other),
    }
}

#[test]
fn first_entry_wins_for_repeated_names() {
    let mut entries = envelope_entries("class", s("first"));
    entries.push(("class".to_string(), s("second")));
    let entity = decode_entity_doc(Doc::Obj(entries)).expect("should decode");
    assert_eq!(entity.class.name, "first");
}
