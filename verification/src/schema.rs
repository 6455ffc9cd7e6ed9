//! Describing the shape of data in a way every provider understands, and
//! turning such a description into a standard JSON Schema document.

use vstd::prelude::*;

use crate::json::{
    fields_set, has_key, law_get_after_set, law_set_keeps_other_fields, lemma_get_field_at,
    str_array_tree, string_views, tree_get_field, tree_set_field, trees, JsonTree, JsonValue,
};

verus! {

/// A schema for a string value.
#[derive(Debug, Clone)]
pub struct StringSchema {
    pub name: String,
    pub description: Option<String>,
}

/// A schema for a numeric value.
#[derive(Debug, Clone)]
pub struct NumberSchema {
    pub name: String,
    pub description: Option<String>,
}

/// A schema for a true/false value.
#[derive(Debug, Clone)]
pub struct BooleanSchema {
    pub name: String,
    pub description: Option<String>,
}

/// A schema for a list whose every element has the shape `items`.
#[derive(Debug)]
pub struct ArraySchema {
    pub name: String,
    pub description: Option<String>,
    pub items: Box<Schema>,
}

/// A schema for a JSON object made up of named fields.
#[derive(Debug)]
pub struct ObjectSchema {
    /// The field/parameter name this schema describes.
    pub name: String,
    /// A plain-language explanation shown to the model.
    pub description: Option<String>,
    /// The object's fields; each entry's own name is its key.
    pub properties: Vec<Schema>,
    /// The names of the fields the model must always provide.
    pub required: Vec<String>,
    /// Whether fields beyond `properties` are allowed. Defaults to `false`.
    pub allow_additional_properties: bool,
    /// A hand-written JSON Schema document used as-is in place of the fields
    /// above, when set (see [`ObjectSchema::from_raw_json_schema`]).
    pub json_schema: Option<JsonValue>,
}

/// A schema for a string restricted to a fixed set of options.
#[derive(Debug, Clone)]
pub struct EnumSchema {
    pub name: String,
    pub description: Option<String>,
    pub options: Vec<String>,
}

/// A schema for a value that may take any one of several shapes.
#[derive(Debug)]
pub struct AnyOfSchema {
    pub name: String,
    pub description: Option<String>,
    pub schemas: Vec<Schema>,
}

/// A hand-written JSON Schema document, for cases the other shapes can't express.
#[derive(Debug)]
pub struct RawSchema {
    pub name: String,
    pub json_schema: JsonValue,
}

/// Describes the shape one value must have.
#[derive(Debug)]
pub enum Schema {
    String(StringSchema),
    Number(NumberSchema),
    Boolean(BooleanSchema),
    Array(ArraySchema),
    Object(ObjectSchema),
    Enum(EnumSchema),
    AnyOf(AnyOfSchema),
    Raw(RawSchema),
}

/// The name of the field or parameter a schema describes.
pub open spec fn schema_name(s: Schema) -> Seq<char> {
    match s {
        Schema::String(x) => x.name@,
        Schema::Number(x) => x.name@,
        Schema::Boolean(x) => x.name@,
        Schema::Array(x) => x.name@,
        Schema::Object(x) => x.name@,
        Schema::Enum(x) => x.name@,
        Schema::AnyOf(x) => x.name@,
        Schema::Raw(x) => x.name@,
    }
}

/// `t` with a `"description"` field added when there is a description.
pub open spec fn with_description_tree(t: JsonTree, description: Option<String>) -> JsonTree {
    match description {
        Some(d) => tree_set_field(t, "description"@, JsonTree::Str(d@)),
        None => t,
    }
}

/// An object holding the single field `"type": kind`.
pub open spec fn type_tree(kind: Seq<char>) -> JsonTree {
    JsonTree::Object(seq![("type"@, JsonTree::Str(kind))])
}

/// The JSON Schema document a schema stands for.
pub open spec fn schema_json(s: Schema) -> JsonTree
    decreases s, 1int,
{
    match s {
        Schema::String(x) => with_description_tree(type_tree("string"@), x.description),
        Schema::Number(x) => with_description_tree(type_tree("number"@), x.description),
        Schema::Boolean(x) => with_description_tree(type_tree("boolean"@), x.description),
        Schema::Array(x) => tree_set_field(
            with_description_tree(type_tree("array"@), x.description),
            "items"@,
            schema_json(*x.items),
        ),
        Schema::Object(x) => match x.json_schema {
            Some(raw) => raw.tree(),
            None => tree_set_field(
                with_description_tree(
                    JsonTree::Object(
                        seq![
                            ("type"@, JsonTree::Str("object"@)),
                            ("properties"@, JsonTree::Object(properties_json(x.properties@))),
                            ("required"@, str_array_tree(string_views(x.required@))),
                        ],
                    ),
                    x.description,
                ),
                "additionalProperties"@,
                JsonTree::Bool(x.allow_additional_properties),
            ),
        },
        Schema::Enum(x) => with_description_tree(
            JsonTree::Object(
                seq![
                    ("type"@, JsonTree::Str("string"@)),
                    ("enum"@, str_array_tree(string_views(x.options@))),
                ],
            ),
            x.description,
        ),
        Schema::AnyOf(x) => with_description_tree(
            JsonTree::Object(seq![("anyOf"@, JsonTree::Array(schemas_json(x.schemas@)))]),
            x.description,
        ),
        Schema::Raw(x) => x.json_schema.tree(),
    }
}

/// The `"properties"` map of an object schema: each property's document keyed
/// by its name, set in order (a later property of the same name wins).
pub open spec fn properties_json(props: Seq<Schema>) -> Seq<(Seq<char>, JsonTree)>
    decreases props, 0int,
{
    if props.len() == 0 {
        Seq::empty()
    } else {
        fields_set(
            properties_json(props.subrange(0, props.len() - 1)),
            schema_name(props[props.len() - 1]),
            schema_json(props[props.len() - 1]),
        )
    }
}

/// The documents of a list of schemas, in order.
pub open spec fn schemas_json(items: Seq<Schema>) -> Seq<JsonTree>
    decreases items, 0int,
{
    Seq::new(
        items.len(),
        |i: int|
            if 0 <= i < items.len() {
                schema_json(items[i])
            } else {
                JsonTree::Null
            },
    )
}

impl Schema {
    /// The name of the field or parameter this schema describes, whichever
    /// shape it is.
    pub fn name(&self) -> (r: &str)
        ensures
            r@ == schema_name(*self),
    {
        match self {
            Schema::String(s) => s.name.as_str(),
            Schema::Number(s) => s.name.as_str(),
            Schema::Boolean(s) => s.name.as_str(),
            Schema::Array(s) => s.name.as_str(),
            Schema::Object(s) => s.name.as_str(),
            Schema::Enum(s) => s.name.as_str(),
            Schema::AnyOf(s) => s.name.as_str(),
            Schema::Raw(s) => s.name.as_str(),
        }
    }
}

/// `value` with a `"description"` field set when `description` is present.
fn with_description(value: JsonValue, description: &Option<String>) -> (r: JsonValue)
    ensures
        r.tree() == with_description_tree(value.tree(), *description),
{
    match description {
        Some(d) => value.with_field("description", JsonValue::Str(d.clone())),
        None => value,
    }
}

/// An object holding the single field `"type": kind`.
fn type_object(kind: &str) -> (r: JsonValue)
    ensures
        r.tree() == type_tree(kind@),
{
    JsonValue::single_field("type", JsonValue::text(kind))
}

/// Converts a [`Schema`] into a standard JSON Schema document, the shape the
/// providers' tool-parameter and structured-output payloads accept.
pub fn to_json_schema(schema: &Schema) -> (r: JsonValue)
    ensures
        r.tree() == schema_json(*schema),
    decreases schema,
{
    match schema {
        Schema::String(s) => with_description(type_object("string"), &s.description),
        Schema::Number(s) => with_description(type_object("number"), &s.description),
        Schema::Boolean(s) => with_description(type_object("boolean"), &s.description),
        Schema::Array(s) => {
            let value = with_description(type_object("array"), &s.description);
            proof {
                assert(decreases_to!(*schema => (*schema)->Array_0));
            }
            let items = to_json_schema(&s.items);
            value.with_field("items", items)
        },
        Schema::Object(s) => {
            proof {
                assert(decreases_to!(*schema => (*schema)->Object_0));
            }
            object_schema_json(s)
        },
        Schema::Enum(s) => {
            let value = JsonValue::single_field("type", JsonValue::text("string"));
            let value = value.with_field("enum", JsonValue::string_array(&s.options));
            proof {
                reveal_strlit("type");
                reveal_strlit("enum");
                assert("type"@[0] != "enum"@[0]);
                assert(seq![("type"@, JsonTree::Str("string"@))].push(
                    ("enum"@, str_array_tree(string_views(s.options@))),
                ) =~= seq![
                    ("type"@, JsonTree::Str("string"@)),
                    ("enum"@, str_array_tree(string_views(s.options@))),
                ]);
                lemma_fresh_fields(
                    seq![("type"@, JsonTree::Str("string"@))],
                    "enum"@,
                    str_array_tree(string_views(s.options@)),
                );
            }
            with_description(value, &s.description)
        },
        Schema::AnyOf(s) => {
            let items = schemas_array(schema, &s.schemas);
            let value = JsonValue::single_field("anyOf", items);
            with_description(value, &s.description)
        },
        Schema::Raw(s) => s.json_schema.copy(),
    }
}

/// Converts an object schema into its JSON Schema document (see
/// [`to_json_schema`]).
pub fn object_schema_json(s: &ObjectSchema) -> (r: JsonValue)
    ensures
        r.tree() == schema_json(Schema::Object(*s)),
    decreases s,
{
    match &s.json_schema {
        Some(raw) => raw.copy(),
        None => {
            let properties = properties_object(s, &s.properties);
            let value = JsonValue::single_field("type", JsonValue::text("object"));
            let value = value.with_field("properties", properties);
            let value = value.with_field("required", JsonValue::string_array(&s.required));
            proof {
                reveal_strlit("type");
                reveal_strlit("properties");
                reveal_strlit("required");
                assert("type"@.len() != "properties"@.len());
                assert("type"@.len() != "required"@.len());
                assert("properties"@.len() != "required"@.len());
                let base = JsonTree::Object(
                    seq![
                        ("type"@, JsonTree::Str("object"@)),
                        ("properties"@, JsonTree::Object(properties_json(s.properties@))),
                        ("required"@, str_array_tree(string_views(s.required@))),
                    ],
                );
                lemma_fresh_fields(
                    seq![("type"@, JsonTree::Str("object"@))],
                    "properties"@,
                    JsonTree::Object(properties_json(s.properties@)),
                );
                lemma_fresh_fields(
                    seq![
                        ("type"@, JsonTree::Str("object"@)),
                        ("properties"@, JsonTree::Object(properties_json(s.properties@))),
                    ],
                    "required"@,
                    str_array_tree(string_views(s.required@)),
                );
                let a = ("type"@, JsonTree::Str("object"@));
                let b = ("properties"@, JsonTree::Object(properties_json(s.properties@)));
                let c = ("required"@, str_array_tree(string_views(s.required@)));
                assert(seq![a].push(b) =~= seq![a, b]);
                assert(seq![a, b].push(c) =~= seq![a, b, c]);
                assert(value.tree() == base);
            }
            let value = with_description(value, &s.description);
            value.with_field(
                "additionalProperties",
                JsonValue::Bool(s.allow_additional_properties),
            )
        },
    }
}

/// Setting a key that none of `fields` has appends it.
proof fn lemma_fresh_fields(fields: Seq<(Seq<char>, JsonTree)>, key: Seq<char>, value: JsonTree)
    requires
        forall|i: int| 0 <= i < fields.len() ==> fields[i].0 != key,
    ensures
        tree_set_field(JsonTree::Object(fields), key, value) == JsonTree::Object(
            fields.push((key, value)),
        ),
{
    assert(!has_key(fields, key));
}

/// The `"properties"` object of an object schema whose fields are `props`.
fn properties_object(owner: &ObjectSchema, props: &Vec<Schema>) -> (r: JsonValue)
    requires
        owner.properties == *props,
    ensures
        r.tree() == JsonTree::Object(properties_json(props@)),
    decreases owner, 0int,
{
    let mut value = JsonValue::empty_object();
    let mut i: usize = 0;
    while i < props.len()
        invariant
            owner.properties == *props,
            i <= props@.len(),
            value.tree() == JsonTree::Object(properties_json(props@.subrange(0, i as int))),
        decreases props@.len() - i,
    {
        proof {
            assert(decreases_to!(*owner => owner.properties));
            assert(decreases_to!(*props => props[i as int]));
        }
        let doc = to_json_schema(&props[i]);
        let name = props[i].name();
        value = value.with_field(name, doc);
        proof {
            let p = props@.subrange(0, i + 1);
            assert(p.subrange(0, p.len() - 1) =~= props@.subrange(0, i as int));
            assert(p[p.len() - 1] == props@[i as int]);
        }
        i = i + 1;
    }
    assert(props@.subrange(0, props@.len() as int) =~= props@);
    value
}

/// The documents of the alternatives of an any-of schema, as a JSON array.
fn schemas_array(schema: &Schema, items: &Vec<Schema>) -> (r: JsonValue)
    requires
        schema matches Schema::AnyOf(x) && x.schemas == *items,
    ensures
        r.tree() == JsonTree::Array(schemas_json(items@)),
    decreases schema, 0int,
{
    let mut out: Vec<JsonValue> = Vec::new();
    let mut i: usize = 0;
    while i < items.len()
        invariant
            schema matches Schema::AnyOf(x) && x.schemas == *items,
            i <= items@.len(),
            out@.len() == i,
            forall|j: int| 0 <= j < i ==> #[trigger] out@[j].tree() == schema_json(items@[j]),
        decreases items@.len() - i,
    {
        proof {
            assert(decreases_to!(*schema => (*schema)->AnyOf_0));
            assert(decreases_to!((*schema)->AnyOf_0 => (*schema)->AnyOf_0.schemas));
            assert(decreases_to!(*items => items[i as int]));
        }
        out.push(to_json_schema(&items[i]));
        i = i + 1;
    }
    let r = JsonValue::array(out);
    assert(trees(out@) =~= schemas_json(items@));
    r
}

impl StringSchema {
    /// A schema for a string named `name`, with no description yet.
    pub fn new(name: &str) -> (r: StringSchema)
        ensures
            r.name@ == name@,
            r.description is None,
    {
        StringSchema { name: owned(name), description: None }
    }

    /// Attaches a plain-language description, shown to the model.
    pub fn with_description(self, description: &str) -> (r: StringSchema)
        ensures
            r.name == self.name,
            r.description matches Some(d) && d@ == description@,
    {
        StringSchema { name: self.name, description: Some(owned(description)) }
    }
}

impl NumberSchema {
    /// A schema for a number named `name`, with no description yet.
    pub fn new(name: &str) -> (r: NumberSchema)
        ensures
            r.name@ == name@,
            r.description is None,
    {
        NumberSchema { name: owned(name), description: None }
    }

    /// Attaches a plain-language description, shown to the model.
    pub fn with_description(self, description: &str) -> (r: NumberSchema)
        ensures
            r.name == self.name,
            r.description matches Some(d) && d@ == description@,
    {
        NumberSchema { name: self.name, description: Some(owned(description)) }
    }
}

impl BooleanSchema {
    /// A schema for a boolean named `name`, with no description yet.
    pub fn new(name: &str) -> (r: BooleanSchema)
        ensures
            r.name@ == name@,
            r.description is None,
    {
        BooleanSchema { name: owned(name), description: None }
    }

    /// Attaches a plain-language description, shown to the model.
    pub fn with_description(self, description: &str) -> (r: BooleanSchema)
        ensures
            r.name == self.name,
            r.description matches Some(d) && d@ == description@,
    {
        BooleanSchema { name: self.name, description: Some(owned(description)) }
    }
}

impl ArraySchema {
    /// A schema for a list named `name` whose elements have the shape `items`.
    pub fn new(name: &str, items: Schema) -> (r: ArraySchema)
        ensures
            r.name@ == name@,
            r.description is None,
            *r.items == items,
    {
        ArraySchema { name: owned(name), description: None, items: Box::new(items) }
    }

    /// Attaches a plain-language description, shown to the model.
    pub fn with_description(self, description: &str) -> (r: ArraySchema)
        ensures
            r.name == self.name,
            r.items == self.items,
            r.description matches Some(d) && d@ == description@,
    {
        ArraySchema { name: self.name, description: Some(owned(description)), items: self.items }
    }
}

impl EnumSchema {
    /// A schema for a string named `name` that must be one of `options`.
    pub fn new(name: &str, options: Vec<String>) -> (r: EnumSchema)
        ensures
            r.name@ == name@,
            r.description is None,
            r.options == options,
    {
        EnumSchema { name: owned(name), description: None, options }
    }

    /// Attaches a plain-language description, shown to the model.
    pub fn with_description(self, description: &str) -> (r: EnumSchema)
        ensures
            r.name == self.name,
            r.options == self.options,
            r.description matches Some(d) && d@ == description@,
    {
        EnumSchema { name: self.name, description: Some(owned(description)), options: self.options }
    }
}

impl AnyOfSchema {
    /// A schema for a value named `name` that may match any one of `schemas`.
    pub fn new(name: &str, schemas: Vec<Schema>) -> (r: AnyOfSchema)
        ensures
            r.name@ == name@,
            r.description is None,
            r.schemas == schemas,
    {
        AnyOfSchema { name: owned(name), description: None, schemas }
    }

    /// Attaches a plain-language description, shown to the model.
    pub fn with_description(self, description: &str) -> (r: AnyOfSchema)
        ensures
            r.name == self.name,
            r.schemas == self.schemas,
            r.description matches Some(d) && d@ == description@,
    {
        AnyOfSchema { name: self.name, description: Some(owned(description)), schemas: self.schemas }
    }
}

impl RawSchema {
    /// A hand-written JSON Schema document describing a value named `name`.
    pub fn new(name: &str, json_schema: JsonValue) -> (r: RawSchema)
        ensures
            r.name@ == name@,
            r.json_schema == json_schema,
    {
        RawSchema { name: owned(name), json_schema }
    }
}

impl ObjectSchema {
    /// An empty object schema named `name`, with no fields yet.
    pub fn new(name: &str) -> (r: ObjectSchema)
        ensures
            r.name@ == name@,
            r.description is None,
            r.properties@.len() == 0,
            r.required@.len() == 0,
            !r.allow_additional_properties,
            r.json_schema is None,
    {
        ObjectSchema {
            name: owned(name),
            description: None,
            properties: Vec::new(),
            required: Vec::new(),
            allow_additional_properties: false,
            json_schema: None,
        }
    }

    /// An object schema named `name` whose JSON Schema document is `json_schema`
    /// exactly, for a document the other shapes can't express.
    pub fn from_raw_json_schema(name: &str, json_schema: JsonValue) -> (r: ObjectSchema)
        ensures
            r.name@ == name@,
            r.description is None,
            r.properties@.len() == 0,
            r.required@.len() == 0,
            !r.allow_additional_properties,
            r.json_schema == Some(json_schema),
    {
        ObjectSchema {
            name: owned(name),
            description: None,
            properties: Vec::new(),
            required: Vec::new(),
            allow_additional_properties: false,
            json_schema: Some(json_schema),
        }
    }

    /// Attaches a plain-language description, shown to the model.
    pub fn with_description(self, description: &str) -> (r: ObjectSchema)
        ensures
            r.name == self.name,
            r.properties == self.properties,
            r.required == self.required,
            r.allow_additional_properties == self.allow_additional_properties,
            r.json_schema == self.json_schema,
            r.description matches Some(d) && d@ == description@,
    {
        ObjectSchema {
            name: self.name,
            description: Some(owned(description)),
            properties: self.properties,
            required: self.required,
            allow_additional_properties: self.allow_additional_properties,
            json_schema: self.json_schema,
        }
    }

    /// Adds one field; `schema`'s own name becomes its key. With `required`
    /// set, that name is also added to the required list.
    pub fn with_property(self, schema: Schema, required: bool) -> (r: ObjectSchema)
        ensures
            r.name == self.name,
            r.description == self.description,
            r.allow_additional_properties == self.allow_additional_properties,
            r.json_schema == self.json_schema,
            r.properties@ == self.properties@.push(schema),
            required ==> r.required@.len() == self.required@.len() + 1
                && r.required@.subrange(0, self.required@.len() as int) == self.required@
                && r.required@[self.required@.len() as int]@ == schema_name(schema),
            !required ==> r.required@ == self.required@,
    {
        let mut s = self;
        if required {
            let n = owned(schema.name());
            s.required.push(n);
        }
        s.properties.push(schema);
        s
    }

    /// Sets whether the model may include fields beyond the listed ones.
    pub fn with_additional_properties(self, allow: bool) -> (r: ObjectSchema)
        ensures
            r.name == self.name,
            r.description == self.description,
            r.properties == self.properties,
            r.required == self.required,
            r.json_schema == self.json_schema,
            r.allow_additional_properties == allow,
    {
        let mut s = self;
        s.allow_additional_properties = allow;
        s
    }
}

/// An owned copy of `s`.
pub fn owned(s: &str) -> (r: String)
    ensures
        r@ == s@,
{
    let r = s.to_string();
    proof {
        vstd::string::to_string_from_display_ensures_for_str(s, r);
    }
    r
}

/// Adding a description keeps every other field and makes the description
/// readable.
proof fn lemma_description(t: JsonTree, description: Option<String>, other: Seq<char>)
    requires
        t is Object,
        other != "description"@,
    ensures
        tree_get_field(with_description_tree(t, description), other) == tree_get_field(t, other),
        with_description_tree(t, description) is Object,
        description matches Some(d) ==> tree_get_field(with_description_tree(t, description), "description"@)
            == Some(JsonTree::Str(d@)),
{
    if let Some(d) = description {
        law_set_keeps_other_fields(t, "description"@, JsonTree::Str(d@), other);
        law_get_after_set(t, "description"@, JsonTree::Str(d@));
    }
}

/// Each kind of schema is declared with its own JSON type: a string schema
/// as `"string"`, a number as `"number"`, a boolean as `"boolean"`, an array
/// as `"array"` (its `"items"` being the document of its element schema), an
/// object built from fields as `"object"` (its `"additionalProperties"` saying
/// whether extra fields are allowed), and an enum as a `"string"`. A
/// description, when there is one, is the document's `"description"`.
pub proof fn law_schema_types(s: Schema)
    ensures
        s is String ==> tree_get_field(schema_json(s), "type"@) == Some(JsonTree::Str("string"@)),
        s is Number ==> tree_get_field(schema_json(s), "type"@) == Some(JsonTree::Str("number"@)),
        s is Boolean ==> tree_get_field(schema_json(s), "type"@) == Some(JsonTree::Str("boolean"@)),
        s matches Schema::Array(x) ==> tree_get_field(schema_json(s), "type"@) == Some(
            JsonTree::Str("array"@),
        ) && tree_get_field(schema_json(s), "items"@) == Some(schema_json(*x.items)),
        s matches Schema::Object(x) ==> (x.json_schema is None ==> tree_get_field(
            schema_json(s),
            "type"@,
        ) == Some(JsonTree::Str("object"@)) && tree_get_field(schema_json(s), "additionalProperties"@)
            == Some(JsonTree::Bool(x.allow_additional_properties))),
        s is Enum ==> tree_get_field(schema_json(s), "type"@) == Some(JsonTree::Str("string"@)),
        match s {
            Schema::String(x) => x.description,
            Schema::Number(x) => x.description,
            Schema::Boolean(x) => x.description,
            Schema::Array(x) => x.description,
            Schema::Enum(x) => x.description,
            Schema::Object(x) => if x.json_schema is None {
                x.description
            } else {
                None
            },
            _ => None,
        } matches Some(d) ==> tree_get_field(schema_json(s), "description"@) == Some(
            JsonTree::Str(d@),
        ),
{
    reveal_strlit("type");
    reveal_strlit("description");
    reveal_strlit("items");
    reveal_strlit("additionalProperties");
    assert("type"@.len() != "description"@.len());
    assert("items"@.len() != "description"@.len());
    assert("additionalProperties"@.len() != "description"@.len());
    assert("additionalProperties"@.len() != "type"@.len());
    assert("items"@.len() != "type"@.len());
    match s {
        Schema::String(x) => {
            lemma_get_field_at(seq![("type"@, JsonTree::Str("string"@))], "type"@, 0);
            lemma_description(type_tree("string"@), x.description, "type"@);
        },
        Schema::Number(x) => {
            lemma_get_field_at(seq![("type"@, JsonTree::Str("number"@))], "type"@, 0);
            lemma_description(type_tree("number"@), x.description, "type"@);
        },
        Schema::Boolean(x) => {
            lemma_get_field_at(seq![("type"@, JsonTree::Str("boolean"@))], "type"@, 0);
            lemma_description(type_tree("boolean"@), x.description, "type"@);
        },
        Schema::Array(x) => {
            let base = with_description_tree(type_tree("array"@), x.description);
            lemma_get_field_at(seq![("type"@, JsonTree::Str("array"@))], "type"@, 0);
            lemma_description(type_tree("array"@), x.description, "type"@);
            law_set_keeps_other_fields(base, "items"@, schema_json(*x.items), "type"@);
            law_set_keeps_other_fields(base, "items"@, schema_json(*x.items), "description"@);
            law_get_after_set(base, "items"@, schema_json(*x.items));
        },
        Schema::Object(x) => {
            if x.json_schema is None {
                let fields = seq![
                    ("type"@, JsonTree::Str("object"@)),
                    ("properties"@, JsonTree::Object(properties_json(x.properties@))),
                    ("required"@, str_array_tree(string_views(x.required@))),
                ];
                let base = with_description_tree(JsonTree::Object(fields), x.description);
                let extra = JsonTree::Bool(x.allow_additional_properties);
                lemma_get_field_at(fields, "type"@, 0);
                lemma_description(JsonTree::Object(fields), x.description, "type"@);
                law_set_keeps_other_fields(base, "additionalProperties"@, extra, "type"@);
                law_set_keeps_other_fields(base, "additionalProperties"@, extra, "description"@);
                law_get_after_set(base, "additionalProperties"@, extra);
            }
        },
        Schema::Enum(x) => {
            let fields = seq![
                ("type"@, JsonTree::Str("string"@)),
                ("enum"@, str_array_tree(string_views(x.options@))),
            ];
            lemma_get_field_at(fields, "type"@, 0);
            lemma_description(JsonTree::Object(fields), x.description, "type"@);
        },
        _ => {},
    }
}

} // verus!
