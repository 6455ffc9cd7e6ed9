use llmprism::json::{json_to_text, parse_json_text};
use llmprism::schema::{
    to_json_schema, ArraySchema, EnumSchema, NumberSchema, ObjectSchema, Schema, StringSchema,
};

#[test]
fn to_json_schema_returns_a_raw_object_schema_unchanged() {
    let raw = parse_json_text(
        r#"{
            "type": "object",
            "properties": {"anything": {"type": "string", "const": "not a Schema variant"}},
            "oneOf": [{"required": ["a"]}, {"required": ["b"]}]
        }"#,
    )
    .unwrap();
    let schema = Schema::Object(ObjectSchema::from_raw_json_schema("weird", raw.copy()));

    assert_eq!(json_to_text(&to_json_schema(&schema)), json_to_text(&raw));
}

#[test]
fn from_raw_json_schema_still_sets_the_ordinary_name_field() {
    let schema = ObjectSchema::from_raw_json_schema("my_tool", parse_json_text(r#"{"type": "object"}"#).unwrap());

    assert_eq!(schema.name, "my_tool");
}

#[test]
fn an_object_schema_lists_its_properties_and_required_fields() {
    let schema = ObjectSchema::new("person")
        .with_description("A person")
        .with_property(Schema::String(StringSchema::new("name").with_description("Full name")), true)
        .with_property(Schema::Number(NumberSchema::new("age")), false)
        .with_property(Schema::Enum(EnumSchema::new("role", vec!["admin".to_string(), "user".to_string()])), true)
        .with_property(Schema::Array(ArraySchema::new("tags", Schema::String(StringSchema::new("tag")))), false);

    let doc = to_json_schema(&Schema::Object(schema));

    let expected = parse_json_text(
        r#"{
            "type": "object",
            "description": "A person",
            "properties": {
                "name": {"type": "string", "description": "Full name"},
                "age": {"type": "number"},
                "role": {"type": "string", "enum": ["admin", "user"]},
                "tags": {"type": "array", "items": {"type": "string"}}
            },
            "required": ["name", "role"],
            "additionalProperties": false
        }"#,
    )
    .unwrap();
    assert_eq!(json_to_text(&doc), json_to_text(&expected));
}

#[test]
fn schema_name_is_the_field_name_for_every_shape() {
    assert_eq!(Schema::String(StringSchema::new("a")).name(), "a");
    assert_eq!(Schema::Object(ObjectSchema::new("b")).name(), "b");
    assert_eq!(Schema::Enum(EnumSchema::new("c", vec![])).name(), "c");
}

#[test]
fn an_object_schema_can_allow_additional_properties() {
    let closed = to_json_schema(&Schema::Object(ObjectSchema::new("open")));
    let open = to_json_schema(&Schema::Object(ObjectSchema::new("open").with_additional_properties(true)));

    assert_eq!(
        json_to_text(&open),
        r#"{"additionalProperties":true,"properties":{},"required":[],"type":"object"}"#
    );
    assert_eq!(
        json_to_text(&closed),
        r#"{"additionalProperties":false,"properties":{},"required":[],"type":"object"}"#
    );
}
