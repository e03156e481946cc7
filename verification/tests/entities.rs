use csn_schema::{
    Definition, Definitions, DeserializationError, Element, ElementKind, Entity, Json, JsonEntry,
    JsonNumber, PrimitiveKind, PrimitiveKindString, Service,
};

fn get_test_csn() -> &'static str {
    r#"{"definitions": {
            "TestService": {
              "@source": "srv/service.cds",
              "kind": "service"
            },
            "TestService.TestEntity": {
              "kind": "entity",
              "elements": {
                "ID": {
                  "key": true,
                  "type": "cds.UUID"
                },
                "name": {
                  "type": "cds.String",
                  "default": {
                    "val": "myDefaultName"
                  }
                },
                "age": {
                  "type": "cds.Integer"
                }
              }
            }
          },
          "meta": {
            "creator": "CDS Compiler v1.25.0"
          },
          "$version": "1.0"}"#
}

fn get_test_csn_no_elements() -> &'static str {
    r#"{"definitions": {
            "TestService": {
              "@source": "srv/service.cds",
              "kind": "service"
            },
            "TestService.TestEntity": {
              "kind": "entity"
            }
          },
          "meta": {
            "creator": "CDS Compiler v1.25.0"
          },
          "$version": "1.0"}"#
}

fn get_test_csn_no_definitions() -> &'static str {
    r#"{"meta": {
            "creator": "CDS Compiler v1.25.0"
          },
          "$version": "1.0"}"#
}

fn get_test_csn_invalid_json() -> &'static str {
    r#"{"meta": -invalid-
            "creator": "CDS Compiler v1.25.0"
          },
          "$version": "1.0"}"#
}

fn entry(key: &str, value: Json) -> JsonEntry {
    JsonEntry { key: key.to_string(), value }
}

fn object(members: Vec<(&str, Json)>) -> Json {
    Json::Object(members.into_iter().map(|(k, v)| entry(k, v)).collect())
}

fn text(s: &str) -> Json {
    Json::String(s.to_string())
}

fn failure(text: &str) -> String {
    match ElementKind::from_str(text) {
        Ok(kind) => panic!("decoded as {:?}", kind),
        Err(e) => e.description().to_string(),
    }
}

#[test]
fn deserialize_uuid() {
    let input_str = r#"{"type": "cds.UUID", "key": true}"#;
    let deserialized: ElementKind = ElementKind::from_str(input_str).unwrap();

    match deserialized {
        ElementKind::UUID(a) => assert_eq!(a.default.is_none(), true),
        _ => panic!("Could not deserialize"),
    }
}

#[test]
fn deserialize_with_default() {
    let input_str = r#"{"type": "cds.UUID", "default": { "val": "defaultUUID" }}"#;
    let deserialized: ElementKind = ElementKind::from_str(input_str).unwrap();

    match deserialized {
        ElementKind::UUID(a) => match a.default {
            Some(csn_schema::entities::Default::Val(default)) => assert_eq!(default, "defaultUUID"),
            _ => panic!("Could not deserialize default"),
        },
        _ => panic!("Could not deserialize"),
    }
}

#[test]
fn deserialize_string_with_length() {
    let input_str = r#"{"type": "cds.String", "key": true, "length": 255}"#;
    let deserialized: ElementKind = ElementKind::from_str(input_str).unwrap();

    match deserialized {
        ElementKind::String(a) => match a.length {
            Some(length) => assert_eq!(length, 255),
            _ => panic!("Could not deserialize length"),
        },
        _ => panic!("Could not deserialize"),
    }
}

#[test]
fn test_get_csn() {
    let csn = get_test_csn();
    assert_eq!(Definitions::from_str(csn).is_ok(), true);
}

#[test]
fn test_get_csn_no_definitions() {
    let csn = get_test_csn_no_definitions();
    let res = Definitions::from_str(csn);
    match res {
        Ok(_) => assert_eq!(1, 0),
        Err(e) => assert_eq!(e.description(), "Cannot find definitions"),
    }
}

#[test]
fn test_get_csn_no_elements() {
    let csn = get_test_csn_no_elements();
    let res = Definitions::from_str(csn);
    match res {
        Ok(_) => assert_eq!(1, 0),
        Err(e) => assert_eq!(e.description(), "Cannot find elements"),
    }
}

#[test]
fn test_get_csn_invalid_json() {
    let csn = get_test_csn_invalid_json();
    let res = Definitions::from_str(csn);
    match res {
        Ok(_) => assert_eq!(1, 0),
        Err(e) => assert_eq!(e.description(), "invalid number at line 1 column 11"),
    }
}

#[test]
fn csn_gives_service_and_entity_with_three_elements() {
    let definitions = Definitions::from_str(get_test_csn()).unwrap();
    let expected = vec![
        Definition::Service(Service {
            name: "TestService".to_string(),
        }),
        Definition::Entity(Entity {
            name: "TestService.TestEntity".to_string(),
            elements: vec![
                Element {
                    name: "ID".to_string(),
                    key: true,
                    kind: ElementKind::UUID(PrimitiveKind { default: None }),
                },
                Element {
                    name: "age".to_string(),
                    key: false,
                    kind: ElementKind::Integer(PrimitiveKind { default: None }),
                },
                Element {
                    name: "name".to_string(),
                    key: false,
                    kind: ElementKind::String(PrimitiveKindString {
                        default: Some(csn_schema::entities::Default::Val("myDefaultName".to_string())),
                        length: None,
                    }),
                },
            ],
        }),
    ];
    assert_eq!(definitions.definitions(), &expected);
}

#[test]
fn error_keeps_its_description() {
    let e = DeserializationError::new("Cannot find definitions");
    assert_eq!(e.description(), "Cannot find definitions");
    assert_eq!(DeserializationError::new("").description(), "");
}

#[test]
fn definitions_count_only_services_and_entities() {
    let csn = r#"{"definitions": {
        "a": {"kind": "service"},
        "b": {"kind": "type", "type": "cds.String"},
        "c": {"kind": "entity", "elements": {}},
        "d": {"elements": {}},
        "e": {"kind": "action"},
        "f": {"kind": 7},
        "g": "service",
        "h": {"kind": "Service"},
        "i": {"kind": "service", "elements": 3}
    }}"#;
    let definitions = Definitions::from_str(csn).unwrap();
    assert_eq!(definitions.definitions().len(), 3);
    assert_eq!(
        definitions.definitions(),
        &vec![
            Definition::Service(Service { name: "a".to_string() }),
            Definition::Entity(Entity { name: "c".to_string(), elements: vec![] }),
            Definition::Service(Service { name: "i".to_string() }),
        ]
    );
}

#[test]
fn definitions_may_be_empty() {
    let definitions = Definitions::from_str(r#"{"definitions": {}}"#).unwrap();
    assert_eq!(definitions.definitions().len(), 0);
    let skipped = Definitions::from_str(r#"{"definitions": {"x": {"kind": "view"}}}"#).unwrap();
    assert_eq!(skipped.definitions().len(), 0);
}

#[test]
fn definitions_must_be_an_object() {
    for csn in [
        r#"{"definitions": []}"#,
        r#"{"definitions": null}"#,
        r#"{"definitions": "x"}"#,
        r#"{"definitions": 1}"#,
        r#"[]"#,
        r#"null"#,
        r#"{"Definitions": {}}"#,
    ] {
        match Definitions::from_str(csn) {
            Ok(_) => panic!("decoded {}", csn),
            Err(e) => assert_eq!(e.description(), "Cannot find definitions"),
        }
    }
}

#[test]
fn elements_must_be_an_object() {
    for csn in [
        r#"{"definitions": {"e": {"kind": "entity", "elements": []}}}"#,
        r#"{"definitions": {"e": {"kind": "entity", "elements": null}}}"#,
        r#"{"definitions": {"e": {"kind": "entity", "elements": "x"}}}"#,
        r#"{"definitions": {"s": {"kind": "service"}, "t": {"kind": "entity"}}}"#,
    ] {
        match Definitions::from_str(csn) {
            Ok(_) => panic!("decoded {}", csn),
            Err(e) => assert_eq!(e.description(), "Cannot find elements"),
        }
    }
}

#[test]
fn one_bad_element_fails_the_document() {
    let csn = r#"{"definitions": {
        "a": {"kind": "service"},
        "b": {"kind": "entity", "elements": {
            "ok": {"type": "cds.Boolean"},
            "bad": {"type": "cds.Decimal"}
        }}
    }}"#;
    match Definitions::from_str(csn) {
        Ok(_) => panic!("decoded"),
        Err(e) => assert_eq!(e.description(), "Cannot decode type"),
    }
}

#[test]
fn first_failure_in_order_is_reported() {
    let csn = r#"{"definitions": {
        "a": {"kind": "entity", "elements": {"x": {"type": "cds.UUID", "default": 1}}},
        "b": {"kind": "entity"}
    }}"#;
    match Definitions::from_str(csn) {
        Ok(_) => panic!("decoded"),
        Err(e) => assert_eq!(e.description(), "Cannot decode default"),
    }
    let csn = r#"{"definitions": {
        "a": {"kind": "entity"},
        "b": {"kind": "entity", "elements": {"x": {"type": "cds.UUID", "default": 1}}}
    }}"#;
    match Definitions::from_str(csn) {
        Ok(_) => panic!("decoded"),
        Err(e) => assert_eq!(e.description(), "Cannot find elements"),
    }
}

#[test]
fn key_is_true_only_for_literal_true() {
    let csn = r#"{"definitions": {"e": {"kind": "entity", "elements": {
        "a": {"type": "cds.UUID", "key": true},
        "b": {"type": "cds.UUID", "key": false},
        "c": {"type": "cds.UUID"},
        "d": {"type": "cds.UUID", "key": "true"},
        "e": {"type": "cds.UUID", "key": 1},
        "f": {"type": "cds.UUID", "key": null},
        "g": {"type": "cds.UUID", "key": [true]},
        "h": {"type": "cds.UUID", "key": {"val": true}}
    }}}}"#;
    let definitions = Definitions::from_str(csn).unwrap();
    let keys: Vec<(String, bool)> = match &definitions.definitions()[0] {
        Definition::Entity(entity) => entity
            .elements
            .iter()
            .map(|e| (e.name.clone(), e.key))
            .collect(),
        _ => panic!("no entity"),
    };
    let expected: Vec<(String, bool)> = vec![
        ("a", true),
        ("b", false),
        ("c", false),
        ("d", false),
        ("e", false),
        ("f", false),
        ("g", false),
        ("h", false),
    ]
    .into_iter()
    .map(|(n, k)| (n.to_string(), k))
    .collect();
    assert_eq!(keys, expected);
}

#[test]
fn string_length_is_optional() {
    assert_eq!(
        ElementKind::from_str(r#"{"type": "cds.String"}"#).unwrap(),
        ElementKind::String(PrimitiveKindString { default: None, length: None })
    );
    assert_eq!(
        ElementKind::from_str(r#"{"type": "cds.String", "length": 255}"#).unwrap(),
        ElementKind::String(PrimitiveKindString { default: None, length: Some(255) })
    );
    assert_eq!(
        ElementKind::from_str(r#"{"type": "cds.String", "length": 0}"#).unwrap(),
        ElementKind::String(PrimitiveKindString { default: None, length: Some(0) })
    );
    assert_eq!(
        ElementKind::from_str(r#"{"type": "cds.String", "length": 18446744073709551615}"#)
            .unwrap(),
        ElementKind::String(PrimitiveKindString { default: None, length: Some(u64::MAX) })
    );
    assert_eq!(
        ElementKind::from_str(
            r#"{"type": "cds.String", "length": 10, "default": {"val": "abc"}}"#
        )
        .unwrap(),
        ElementKind::String(PrimitiveKindString {
            default: Some(csn_schema::entities::Default::Val("abc".to_string())),
            length: Some(10)
        })
    );
}

#[test]
fn length_must_be_an_unsigned_integer() {
    for text in [
        r#"{"type": "cds.String", "length": -1}"#,
        r#"{"type": "cds.String", "length": 1.5}"#,
        r#"{"type": "cds.String", "length": "255"}"#,
        r#"{"type": "cds.String", "length": null}"#,
        r#"{"type": "cds.String", "length": true}"#,
        r#"{"type": "cds.String", "length": 18446744073709551616}"#,
    ] {
        assert_eq!(failure(text), "Cannot decode length", "{}", text);
    }
}

#[test]
fn length_is_read_for_strings_only() {
    assert_eq!(
        ElementKind::from_str(r#"{"type": "cds.UUID", "length": "x"}"#).unwrap(),
        ElementKind::UUID(PrimitiveKind { default: None })
    );
    assert_eq!(
        ElementKind::from_str(r#"{"type": "cds.Integer", "length": 3}"#).unwrap(),
        ElementKind::Integer(PrimitiveKind { default: None })
    );
}

#[test]
fn default_is_typed_by_the_kind() {
    assert_eq!(
        ElementKind::from_str(r#"{"type": "cds.UUID", "default": {"val": "u"}}"#).unwrap(),
        ElementKind::UUID(PrimitiveKind { default: Some(csn_schema::entities::Default::Val("u".to_string())) })
    );
    assert_eq!(
        ElementKind::from_str(r#"{"type": "cds.Boolean", "default": {"val": true}}"#).unwrap(),
        ElementKind::Boolean(PrimitiveKind { default: Some(csn_schema::entities::Default::Val(true)) })
    );
    assert_eq!(
        ElementKind::from_str(r#"{"type": "cds.Boolean", "default": {"val": false}}"#).unwrap(),
        ElementKind::Boolean(PrimitiveKind { default: Some(csn_schema::entities::Default::Val(false)) })
    );
    assert_eq!(
        ElementKind::from_str(r#"{"type": "cds.Integer", "default": {"val": 42}}"#).unwrap(),
        ElementKind::Integer(PrimitiveKind { default: Some(csn_schema::entities::Default::Val(42)) })
    );
    assert_eq!(
        ElementKind::from_str(r#"{"type": "cds.Integer", "default": {"val": -7}}"#).unwrap(),
        ElementKind::Integer(PrimitiveKind { default: Some(csn_schema::entities::Default::Val(-7)) })
    );
    assert_eq!(
        ElementKind::from_str(r#"{"type": "cds.String", "default": {"val": ""}}"#).unwrap(),
        ElementKind::String(PrimitiveKindString {
            default: Some(csn_schema::entities::Default::Val(String::new())),
            length: None
        })
    );
}

#[test]
fn default_is_absent_without_the_field() {
    assert_eq!(
        ElementKind::from_str(r#"{"type": "cds.UUID"}"#).unwrap(),
        ElementKind::UUID(PrimitiveKind { default: None })
    );
    assert_eq!(
        ElementKind::from_str(r#"{"type": "cds.Boolean"}"#).unwrap(),
        ElementKind::Boolean(PrimitiveKind { default: None })
    );
    assert_eq!(
        ElementKind::from_str(r#"{"type": "cds.Integer"}"#).unwrap(),
        ElementKind::Integer(PrimitiveKind { default: None })
    );
    assert_eq!(
        ElementKind::from_str(r#"{"type": "cds.String"}"#).unwrap(),
        ElementKind::String(PrimitiveKindString { default: None, length: None })
    );
}

#[test]
fn integer_default_spans_sixty_four_bits() {
    assert_eq!(
        ElementKind::from_str(
            r#"{"type": "cds.Integer", "default": {"val": 9223372036854775807}}"#
        )
        .unwrap(),
        ElementKind::Integer(PrimitiveKind { default: Some(csn_schema::entities::Default::Val(i64::MAX)) })
    );
    assert_eq!(
        ElementKind::from_str(
            r#"{"type": "cds.Integer", "default": {"val": -9223372036854775808}}"#
        )
        .unwrap(),
        ElementKind::Integer(PrimitiveKind { default: Some(csn_schema::entities::Default::Val(i64::MIN)) })
    );
    assert_eq!(
        failure(r#"{"type": "cds.Integer", "default": {"val": 9223372036854775808}}"#),
        "Cannot decode default"
    );
    assert_eq!(
        failure(r#"{"type": "cds.Integer", "default": {"val": 1.0}}"#),
        "Cannot decode default"
    );
}

#[test]
fn default_of_another_shape_fails() {
    for text in [
        r#"{"type": "cds.UUID", "default": "x"}"#,
        r#"{"type": "cds.UUID", "default": null}"#,
        r#"{"type": "cds.UUID", "default": {}}"#,
        r#"{"type": "cds.UUID", "default": {"value": "x"}}"#,
        r#"{"type": "cds.UUID", "default": {"val": "x", "more": 1}}"#,
        r#"{"type": "cds.UUID", "default": {"val": 1}}"#,
        r#"{"type": "cds.UUID", "default": {"val": null}}"#,
        r#"{"type": "cds.String", "default": {"val": true}}"#,
        r#"{"type": "cds.Boolean", "default": {"val": "true"}}"#,
        r#"{"type": "cds.Boolean", "default": {"val": 1}}"#,
        r#"{"type": "cds.Integer", "default": {"val": "1"}}"#,
        r#"{"type": "cds.Integer", "default": {"val": false}}"#,
        r#"{"type": "cds.Integer", "default": [1]}"#,
    ] {
        assert_eq!(failure(text), "Cannot decode default", "{}", text);
    }
}

#[test]
fn default_fails_before_length() {
    assert_eq!(
        failure(r#"{"type": "cds.String", "default": 1, "length": "x"}"#),
        "Cannot decode default"
    );
}

#[test]
fn unknown_type_tag_fails() {
    for text in [
        r#"{"type": "cds.Decimal"}"#,
        r#"{"type": "cds.uuid"}"#,
        r#"{"type": "UUID"}"#,
        r#"{"type": "cds.UUID "}"#,
        r#"{"type": ""}"#,
        r#"{"type": null}"#,
        r#"{"type": 1}"#,
        r#"{"type": ["cds.UUID"]}"#,
        r#"{"type": {"type": "cds.UUID"}}"#,
        r#"{"key": true}"#,
        r#"{}"#,
        r#"["cds.UUID"]"#,
        r#""cds.UUID""#,
        r#"null"#,
        r#"{"type": "cds.Strin", "default": 1, "length": "x"}"#,
    ] {
        assert_eq!(failure(text), "Cannot decode type", "{}", text);
    }
}

#[test]
fn element_text_that_is_no_json_fails_with_the_parser_message() {
    assert_eq!(failure("{"), "EOF while parsing an object at line 1 column 1");
    assert_eq!(failure(""), "EOF while parsing a value at line 1 column 0");
}

#[test]
fn from_json_decodes_a_document_built_by_hand() {
    let document = object(vec![
        ("$version", text("1.0")),
        (
            "definitions",
            object(vec![
                ("Z", object(vec![("kind", text("service"))])),
                (
                    "A",
                    object(vec![
                        ("kind", text("entity")),
                        (
                            "elements",
                            object(vec![
                                (
                                    "n",
                                    object(vec![
                                        ("type", text("cds.Integer")),
                                        (
                                            "default",
                                            object(vec![(
                                                "val",
                                                Json::Number(JsonNumber::Signed(-3)),
                                            )]),
                                        ),
                                    ]),
                                ),
                                (
                                    "b",
                                    object(vec![
                                        ("key", Json::Bool(true)),
                                        ("type", text("cds.Boolean")),
                                    ]),
                                ),
                            ]),
                        ),
                    ]),
                ),
                ("skipped", Json::Null),
            ]),
        ),
    ]);
    let definitions = Definitions::from_json(&document).unwrap();
    assert_eq!(
        definitions.definitions(),
        &vec![
            Definition::Service(Service { name: "Z".to_string() }),
            Definition::Entity(Entity {
                name: "A".to_string(),
                elements: vec![
                    Element {
                        name: "n".to_string(),
                        key: false,
                        kind: ElementKind::Integer(PrimitiveKind {
                            default: Some(csn_schema::entities::Default::Val(-3))
                        }),
                    },
                    Element {
                        name: "b".to_string(),
                        key: true,
                        kind: ElementKind::Boolean(PrimitiveKind { default: None }),
                    },
                ],
            }),
        ]
    );
}

#[test]
fn from_json_takes_integers_in_either_form() {
    let unsigned = object(vec![
        ("type", text("cds.Integer")),
        ("default", object(vec![("val", Json::Number(JsonNumber::Unsigned(5)))])),
    ]);
    assert_eq!(
        ElementKind::from_json(&unsigned).unwrap(),
        ElementKind::Integer(PrimitiveKind { default: Some(csn_schema::entities::Default::Val(5)) })
    );
    let too_large = object(vec![
        ("type", text("cds.Integer")),
        ("default", object(vec![("val", Json::Number(JsonNumber::Unsigned(1 << 63)))])),
    ]);
    assert_eq!(
        ElementKind::from_json(&too_large).unwrap_err().description(),
        "Cannot decode default"
    );
    let length = object(vec![
        ("type", text("cds.String")),
        ("length", Json::Number(JsonNumber::Signed(12))),
    ]);
    assert_eq!(
        ElementKind::from_json(&length).unwrap(),
        ElementKind::String(PrimitiveKindString { default: None, length: Some(12) })
    );
    let real = object(vec![
        ("type", text("cds.String")),
        ("length", Json::Number(JsonNumber::Real)),
    ]);
    assert_eq!(
        ElementKind::from_json(&real).unwrap_err().description(),
        "Cannot decode length"
    );
}

#[test]
fn element_from_json_carries_the_name() {
    let description = object(vec![("type", text("cds.UUID")), ("key", Json::Bool(true))]);
    assert_eq!(
        Element::from_json("ID", &description).unwrap(),
        Element {
            name: "ID".to_string(),
            key: true,
            kind: ElementKind::UUID(PrimitiveKind { default: None }),
        }
    );
    assert_eq!(
        Element::from_json("ID", &Json::Bool(true)).unwrap_err().description(),
        "Cannot decode type"
    );
}

#[test]
fn entity_from_json_needs_elements() {
    let value = object(vec![("kind", text("entity")), ("elements", object(vec![]))]);
    assert_eq!(
        Entity::from_json("E", &value).unwrap(),
        Entity { name: "E".to_string(), elements: vec![] }
    );
    let none = object(vec![("kind", text("entity"))]);
    assert_eq!(
        Entity::from_json("E", &none).unwrap_err().description(),
        "Cannot find elements"
    );
}

#[test]
fn definition_from_json_passes_over_other_kinds() {
    let service = object(vec![("kind", text("service"))]);
    assert_eq!(
        Definition::from_json("S", &service).unwrap(),
        Some(Definition::Service(Service { name: "S".to_string() }))
    );
    let other = object(vec![("kind", text("type"))]);
    assert_eq!(Definition::from_json("T", &other).unwrap(), None);
    assert_eq!(Definition::from_json("T", &Json::Array(vec![])).unwrap(), None);
    let entity = object(vec![("kind", text("entity"))]);
    assert_eq!(
        Definition::from_json("E", &entity).unwrap_err().description(),
        "Cannot find elements"
    );
}

#[test]
fn definitions_new_keeps_the_list() {
    let list = vec![
        Definition::Service(Service { name: "b".to_string() }),
        Definition::Service(Service { name: "a".to_string() }),
    ];
    let definitions = Definitions::new(list);
    assert_eq!(
        definitions.definitions(),
        &vec![
            Definition::Service(Service { name: "b".to_string() }),
            Definition::Service(Service { name: "a".to_string() }),
        ]
    );
    assert_eq!(Definitions::new(vec![]).definitions().len(), 0);
}
