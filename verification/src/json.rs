//! A plain JSON value the library builds and reads, with a mathematical model
//! ([`JsonTree`]) that contracts speak about.
//!
//! Objects keep their fields in insertion order as a list of `(key, value)`
//! pairs. Every object this library builds has distinct keys: setting a key
//! that is already present replaces its value in place (see
//! [`JsonValue::with_field`]), exactly as a JSON map insert does.
//!
//! Numbers are kept as the decimal text of the number, so a value passes
//! through the library unchanged without any floating-point arithmetic.
//!
//! Turning JSON text into a value and back is done by `serde_json`; see
//! [`parse_json_text`] and [`json_to_text`].

use vstd::prelude::*;

verus! {

/// A JSON document.
#[derive(Debug)]
pub enum JsonValue {
    Null,
    Bool(bool),
    /// The decimal text of a JSON number, e.g. `"42"` or `"0.5"`.
    Number(String),
    Str(String),
    Array(Vec<JsonValue>),
    /// Fields in order; keys are distinct in every object this library builds.
    Object(Vec<(String, JsonValue)>),
}

/// The mathematical model of a [`JsonValue`].
pub enum JsonTree {
    Null,
    Bool(bool),
    Number(Seq<char>),
    Str(Seq<char>),
    Array(Seq<JsonTree>),
    Object(Seq<(Seq<char>, JsonTree)>),
}

impl JsonValue {
    /// The model of this value: the same shape, with strings as character
    /// sequences and lists as sequences.
    pub open spec fn tree(self) -> JsonTree
        decreases self,
    {
        match self {
            JsonValue::Null => JsonTree::Null,
            JsonValue::Bool(b) => JsonTree::Bool(b),
            JsonValue::Number(n) => JsonTree::Number(n@),
            JsonValue::Str(s) => JsonTree::Str(s@),
            JsonValue::Array(items) => JsonTree::Array(
                Seq::new(
                    items@.len(),
                    |i: int|
                        if 0 <= i < items@.len() {
                            items@[i].tree()
                        } else {
                            JsonTree::Null
                        },
                ),
            ),
            JsonValue::Object(fields) => JsonTree::Object(
                Seq::new(
                    fields@.len(),
                    |i: int|
                        if 0 <= i < fields@.len() {
                            (fields@[i].0@, fields@[i].1.tree())
                        } else {
                            (Seq::empty(), JsonTree::Null)
                        },
                ),
            ),
        }
    }
}

/// The models of a list of values, in order.
pub open spec fn trees(items: Seq<JsonValue>) -> Seq<JsonTree> {
    Seq::new(items.len(), |i: int| items[i].tree())
}

/// The models of a list of fields, in order.
pub open spec fn field_trees(fields: Seq<(String, JsonValue)>) -> Seq<(Seq<char>, JsonTree)> {
    Seq::new(fields.len(), |i: int| (fields[i].0@, fields[i].1.tree()))
}

/// A JSON array of strings, one per element of `items`.
pub open spec fn str_array_tree(items: Seq<Seq<char>>) -> JsonTree {
    JsonTree::Array(Seq::new(items.len(), |i: int| JsonTree::Str(items[i])))
}

/// The views of a list of strings.
pub open spec fn string_views(items: Seq<String>) -> Seq<Seq<char>> {
    Seq::new(items.len(), |i: int| items[i]@)
}

/// Whether `key` names one of `fields`.
pub open spec fn has_key(fields: Seq<(Seq<char>, JsonTree)>, key: Seq<char>) -> bool {
    exists|i: int| 0 <= i < fields.len() && fields[i].0 == key
}

/// The position of the first field named `key`, or `-1` when there is none.
pub open spec fn key_index(fields: Seq<(Seq<char>, JsonTree)>, key: Seq<char>) -> int {
    if has_key(fields, key) {
        choose|i: int|
            0 <= i < fields.len() && fields[i].0 == key && forall|j: int|
                0 <= j < i ==> fields[j].0 != key
    } else {
        -1
    }
}

/// `fields` with `key` set to `value`: the first field of that name gets the
/// new value in place, or the pair is appended when no field has that name.
pub open spec fn fields_set(
    fields: Seq<(Seq<char>, JsonTree)>,
    key: Seq<char>,
    value: JsonTree,
) -> Seq<(Seq<char>, JsonTree)> {
    if has_key(fields, key) {
        fields.update(key_index(fields, key), (key, value))
    } else {
        fields.push((key, value))
    }
}

/// Setting a field on a JSON value: an object gets the field set, `null` becomes
/// an object holding just that field, and any other value is left as it is.
pub open spec fn tree_set_field(t: JsonTree, key: Seq<char>, value: JsonTree) -> JsonTree {
    match t {
        JsonTree::Object(fields) => JsonTree::Object(fields_set(fields, key, value)),
        JsonTree::Null => JsonTree::Object(seq![(key, value)]),
        _ => t,
    }
}

/// The value of the first field named `key` of an object, if there is one.
pub open spec fn tree_get_field(t: JsonTree, key: Seq<char>) -> Option<JsonTree> {
    match t {
        JsonTree::Object(fields) => if has_key(fields, key) {
            Some(fields[key_index(fields, key)].1)
        } else {
            None
        },
        _ => None,
    }
}

/// Whether every key of `fields` is distinct.
pub open spec fn distinct_keys(fields: Seq<(Seq<char>, JsonTree)>) -> bool {
    forall|i: int, j: int|
        0 <= i < fields.len() && 0 <= j < fields.len() && i != j ==> fields[i].0 != fields[j].0
}

/// What `serde_json` reads `text` as: the value, when it is valid JSON, or the
/// text of `serde_json`'s error.
pub uninterp spec fn parsed_json(text: Seq<char>) -> Result<JsonTree, Seq<char>>;

/// The compact JSON text `serde_json` writes for a value.
pub uninterp spec fn printed_json(value: JsonTree) -> Seq<char>;

/// The key index found by a forward scan is the one `key_index` names.
pub proof fn lemma_key_index_is_first(fields: Seq<(Seq<char>, JsonTree)>, key: Seq<char>, k: int)
    requires
        0 <= k < fields.len(),
        fields[k].0 == key,
        forall|j: int| 0 <= j < k ==> fields[j].0 != key,
    ensures
        has_key(fields, key),
        key_index(fields, key) == k,
{
    assert(fields[k].0 == key);
    let c = key_index(fields, key);
    assert(0 <= c < fields.len() && fields[c].0 == key && forall|j: int| 0 <= j < c ==> fields[j].0 != key);
    if c < k {
        assert(fields[c].0 != key);
    }
    if c > k {
        assert(fields[k].0 != key);
    }
}

/// The first position holding `key`, from position `i` on.
proof fn first_match(fields: Seq<(Seq<char>, JsonTree)>, key: Seq<char>, i: int) -> (k: int)
    requires
        0 <= i <= fields.len(),
        forall|j: int| 0 <= j < i ==> fields[j].0 != key,
        exists|w: int| i <= w < fields.len() && fields[w].0 == key,
    ensures
        i <= k < fields.len(),
        fields[k].0 == key,
        forall|j: int| 0 <= j < k ==> fields[j].0 != key,
    decreases fields.len() - i,
{
    if fields[i].0 == key {
        i
    } else {
        let w = choose|w: int| i <= w < fields.len() && fields[w].0 == key;
        assert(i + 1 <= w);
        first_match(fields, key, i + 1)
    }
}

/// When a key is present, `key_index` is the first position holding it.
pub proof fn lemma_key_index_props(fields: Seq<(Seq<char>, JsonTree)>, key: Seq<char>)
    requires
        has_key(fields, key),
    ensures
        0 <= key_index(fields, key) < fields.len(),
        fields[key_index(fields, key)].0 == key,
        forall|j: int| 0 <= j < key_index(fields, key) ==> fields[j].0 != key,
{
    let k = first_match(fields, key, 0);
    lemma_key_index_is_first(fields, key, k);
}

/// Reading `key` from an object gives the value of its first field of that
/// name.
pub proof fn lemma_get_field_at(fields: Seq<(Seq<char>, JsonTree)>, key: Seq<char>, i: int)
    requires
        0 <= i < fields.len(),
        fields[i].0 == key,
        forall|j: int| 0 <= j < i ==> fields[j].0 != key,
    ensures
        tree_get_field(JsonTree::Object(fields), key) == Some(fields[i].1),
{
    assert(has_key(fields, key));
    lemma_key_index_props(fields, key);
    let k = key_index(fields, key);
    if k < i {
        assert(fields[k].0 != key);
    }
    if i < k {
        assert(fields[i].0 != key);
    }
}

/// Two field lists with the same keys, position by position, have the same
/// key positions.
proof fn lemma_same_keys(a: Seq<(Seq<char>, JsonTree)>, b: Seq<(Seq<char>, JsonTree)>, key: Seq<char>)
    requires
        a.len() == b.len(),
        forall|j: int| 0 <= j < a.len() ==> (#[trigger] a[j]).0 == b[j].0,
    ensures
        has_key(a, key) == has_key(b, key),
        has_key(a, key) ==> key_index(a, key) == key_index(b, key),
{
    if has_key(a, key) {
        let w = choose|w: int| 0 <= w < a.len() && a[w].0 == key;
        assert(b[w].0 == key);
        lemma_key_index_props(a, key);
        let k = key_index(a, key);
        assert(b[k].0 == key);
        assert forall|j: int| 0 <= j < k implies b[j].0 != key by {
            assert(a[j].0 != key);
        }
        lemma_key_index_is_first(b, key, k);
    }
    if has_key(b, key) {
        let w = choose|w: int| 0 <= w < b.len() && b[w].0 == key;
        assert(a[w].0 == key);
    }
}

/// Reading a field right after setting it on an object (or on `null`, which
/// becomes an object) gives back the value set.
pub proof fn law_get_after_set(t: JsonTree, key: Seq<char>, value: JsonTree)
    requires
        t is Object || t is Null,
    ensures
        tree_get_field(tree_set_field(t, key, value), key) == Some(value),
{
    match t {
        JsonTree::Object(fields) => {
            if has_key(fields, key) {
                lemma_key_index_props(fields, key);
                let k = key_index(fields, key);
                let updated = fields.update(k, (key, value));
                lemma_same_keys(fields, updated, key);
            } else {
                let pushed = fields.push((key, value));
                assert forall|j: int| 0 <= j < fields.len() implies pushed[j].0 != key by {
                    if pushed[j].0 == key {
                        assert(fields[j].0 == key);
                    }
                }
                lemma_key_index_is_first(pushed, key, fields.len() as int);
            }
        },
        _ => {
            lemma_key_index_is_first(seq![(key, value)], key, 0);
        },
    }
}

/// Setting a field leaves every other field as it was.
pub proof fn law_set_keeps_other_fields(t: JsonTree, key: Seq<char>, value: JsonTree, other: Seq<char>)
    requires
        other != key,
    ensures
        tree_get_field(tree_set_field(t, key, value), other) == tree_get_field(t, other),
{
    match t {
        JsonTree::Object(fields) => {
            if has_key(fields, key) {
                lemma_key_index_props(fields, key);
                let k = key_index(fields, key);
                let n = fields.update(k, (key, value));
                lemma_same_keys(fields, n, other);
                if has_key(fields, other) {
                    lemma_key_index_props(fields, other);
                    assert(key_index(fields, other) != k);
                }
            } else {
                let n = fields.push((key, value));
                if has_key(fields, other) {
                    lemma_key_index_props(fields, other);
                    let k = key_index(fields, other);
                    assert forall|j: int| 0 <= j < k implies n[j].0 != other by {
                        assert(fields[j].0 != other);
                    }
                    lemma_key_index_is_first(n, other, k);
                } else {
                    assert(!has_key(n, other)) by {
                        if has_key(n, other) {
                            let w = choose|w: int| 0 <= w < n.len() && n[w].0 == other;
                            if w < fields.len() {
                                assert(fields[w].0 == other);
                            }
                        }
                    }
                }
            }
        },
        JsonTree::Null => {
            assert(!has_key(seq![(key, value)], other)) by {
                if has_key(seq![(key, value)], other) {
                    let w = choose|w: int| 0 <= w < 1 && seq![(key, value)][w].0 == other;
                }
            }
        },
        _ => {},
    }
}

/// Whether two strings hold the same characters.
pub fn same_text(a: &str, b: &str) -> (r: bool)
    ensures
        r == (a@ == b@),
{
    let x = a.to_string();
    let y = b.to_string();
    proof {
        vstd::string::to_string_from_display_ensures_for_str(a, x);
        vstd::string::to_string_from_display_ensures_for_str(b, y);
    }
    x == y
}

impl JsonValue {
    /// A JSON string holding a copy of `s`.
    pub fn text(s: &str) -> (r: JsonValue)
        ensures
            r.tree() == JsonTree::Str(s@),
    {
        let owned = s.to_string();
        proof {
            vstd::string::to_string_from_display_ensures_for_str(s, owned);
        }
        JsonValue::Str(owned)
    }

    /// An object with no fields.
    pub fn empty_object() -> (r: JsonValue)
        ensures
            r.tree() == JsonTree::Object(Seq::<(Seq<char>, JsonTree)>::empty()),
    {
        let fields: Vec<(String, JsonValue)> = Vec::new();
        let r = JsonValue::Object(fields);
        assert(r.tree() == JsonTree::Object(Seq::<(Seq<char>, JsonTree)>::empty())) by {
            if let JsonTree::Object(f) = r.tree() {
                assert(f =~= Seq::<(Seq<char>, JsonTree)>::empty());
            }
        }
        r
    }

    /// An object holding exactly one field.
    pub fn single_field(key: &str, value: JsonValue) -> (r: JsonValue)
        ensures
            r.tree() == JsonTree::Object(seq![(key@, value.tree())]),
    {
        let r = JsonValue::empty_object().with_field(key, value);
        assert(fields_set(Seq::<(Seq<char>, JsonTree)>::empty(), key@, value.tree()) =~= seq![
            (key@, value.tree()),
        ]);
        r
    }

    /// A JSON array of strings, copying each of `items` in order.
    pub fn string_array(items: &Vec<String>) -> (r: JsonValue)
        ensures
            r.tree() == str_array_tree(string_views(items@)),
    {
        let mut out: Vec<JsonValue> = Vec::new();
        let mut i: usize = 0;
        while i < items.len()
            invariant
                i <= items@.len(),
                out@.len() == i,
                forall|j: int| 0 <= j < i ==> #[trigger] out@[j].tree() == JsonTree::Str(items@[j]@),
            decreases items@.len() - i,
        {
            out.push(JsonValue::Str(items[i].clone()));
            i = i + 1;
        }
        let r = JsonValue::Array(out);
        assert(r.tree() == str_array_tree(string_views(items@))) by {
            if let JsonTree::Array(a) = r.tree() {
                assert forall|j: int| 0 <= j < a.len() implies a[j] == str_array_tree(
                    string_views(items@),
                )->Array_0[j] by {
                    assert(out@[j].tree() == JsonTree::Str(items@[j]@));
                }
                assert(a =~= str_array_tree(string_views(items@))->Array_0);
            }
        }
        r
    }

    /// A JSON array holding `items`, in order.
    pub fn array(items: Vec<JsonValue>) -> (r: JsonValue)
        ensures
            r.tree() == JsonTree::Array(trees(items@)),
    {
        let r = JsonValue::Array(items);
        assert(r.tree() == JsonTree::Array(trees(items@))) by {
            if let JsonTree::Array(a) = r.tree() {
                assert(a =~= trees(items@));
            }
        }
        r
    }

    /// An object holding `fields`, in order, as they are.
    pub fn object(fields: Vec<(String, JsonValue)>) -> (r: JsonValue)
        ensures
            r.tree() == JsonTree::Object(field_trees(fields@)),
    {
        let r = JsonValue::Object(fields);
        assert(r.tree() == JsonTree::Object(field_trees(fields@))) by {
            if let JsonTree::Object(a) = r.tree() {
                assert(a =~= field_trees(fields@));
            }
        }
        r
    }

    /// A deep copy of this value.
    pub fn copy(&self) -> (r: JsonValue)
        ensures
            r.tree() == self.tree(),
        decreases self,
    {
        match self {
            JsonValue::Null => JsonValue::Null,
            JsonValue::Bool(b) => JsonValue::Bool(*b),
            JsonValue::Number(n) => JsonValue::Number(n.clone()),
            JsonValue::Str(s) => JsonValue::Str(s.clone()),
            JsonValue::Array(items) => {
                let mut out: Vec<JsonValue> = Vec::new();
                let mut i: usize = 0;
                while i < items.len()
                    invariant
                        *self == JsonValue::Array(*items),
                        i <= items@.len(),
                        out@.len() == i,
                        forall|j: int| 0 <= j < i ==> #[trigger] out@[j].tree() == items@[j].tree(),
                    decreases items@.len() - i,
                {
                    proof {
                        assert(decreases_to!(*self => (*self)->Array_0));
                        assert(decreases_to!(*items => items[i as int]));
                    }
                    let c = items[i].copy();
                    out.push(c);
                    i = i + 1;
                }
                let r = JsonValue::Array(out);
                assert(r.tree() == self.tree()) by {
                    if let JsonTree::Array(a) = r.tree() {
                        if let JsonTree::Array(b) = self.tree() {
                            assert forall|j: int| 0 <= j < a.len() implies a[j] == b[j] by {
                                assert(out@[j].tree() == items@[j].tree());
                            }
                            assert(a =~= b);
                        }
                    }
                }
                r
            },
            JsonValue::Object(fields) => {
                let mut out: Vec<(String, JsonValue)> = Vec::new();
                let mut i: usize = 0;
                while i < fields.len()
                    invariant
                        *self == JsonValue::Object(*fields),
                        i <= fields@.len(),
                        out@.len() == i,
                        forall|j: int|
                            0 <= j < i ==> #[trigger] out@[j].0@ == fields@[j].0@ && out@[j].1.tree()
                                == fields@[j].1.tree(),
                    decreases fields@.len() - i,
                {
                    proof {
                        assert(decreases_to!(*self => (*self)->Object_0));
                        assert(decreases_to!(*fields => fields[i as int]));
                        assert(decreases_to!(fields[i as int] => fields[i as int].1));
                    }
                    let c = fields[i].1.copy();
                    out.push((fields[i].0.clone(), c));
                    i = i + 1;
                }
                let r = JsonValue::Object(out);
                assert(r.tree() == self.tree()) by {
                    if let JsonTree::Object(a) = r.tree() {
                        if let JsonTree::Object(b) = self.tree() {
                            assert(a =~= b);
                        }
                    }
                }
                r
            },
        }
    }

    /// This value with `key` set to `value`. On an object the first field named
    /// `key` gets the new value in place, or the field is appended; `null`
    /// becomes an object holding just that field; any other value is returned
    /// unchanged.
    pub fn with_field(self, key: &str, value: JsonValue) -> (r: JsonValue)
        ensures
            r.tree() == tree_set_field(self.tree(), key@, value.tree()),
    {
        let ghost t0 = self.tree();
        let ghost vt = value.tree();
        match self {
            JsonValue::Object(fields) => {
                let ghost f0 = fields@;
                let ghost tf = t0->Object_0;
                let mut fields = fields;
                let mut i: usize = 0;
                let mut found = false;
                while i < fields.len()
                    invariant_except_break
                        !found,
                    invariant
                        fields@ == f0,
                        i <= fields@.len(),
                        forall|j: int| 0 <= j < i ==> f0[j].0@ != key@,
                    ensures
                        found ==> i < f0.len() && f0[i as int].0@ == key@,
                        !found ==> i == f0.len(),
                    decreases fields@.len() - i,
                {
                    if same_text(fields[i].0.as_str(), key) {
                        found = true;
                        break;
                    }
                    i = i + 1;
                }
                proof {
                    assert(f0.len() == tf.len());
                    assert(forall|j: int| 0 <= j < f0.len() ==> (#[trigger] tf[j]).0 == f0[j].0@);
                    assert(forall|j: int| 0 <= j < f0.len() ==> #[trigger] tf[j].1 == f0[j].1.tree());
                }
                if found {
                    let name = fields[i].0.clone();
                    fields.set(i, (name, value));
                    let r = JsonValue::Object(fields);
                    proof {
                        assert(tf[i as int].0 == key@);
                        lemma_key_index_is_first(tf, key@, i as int);
                        if let JsonTree::Object(a) = r.tree() {
                            assert(a =~= tf.update(i as int, (key@, vt)));
                        }
                    }
                    r
                } else {
                    let k = key.to_string();
                    proof {
                        vstd::string::to_string_from_display_ensures_for_str(key, k);
                    }
                    fields.push((k, value));
                    let r = JsonValue::Object(fields);
                    proof {
                        assert(!has_key(tf, key@)) by {
                            if has_key(tf, key@) {
                                let w = choose|w: int| 0 <= w < tf.len() && tf[w].0 == key@;
                                assert(f0[w].0@ == key@);
                            }
                        }
                        if let JsonTree::Object(a) = r.tree() {
                            assert(a =~= tf.push((key@, vt)));
                        }
                    }
                    r
                }
            },
            JsonValue::Null => {
                let r = JsonValue::single_field_fresh(key, value);
                r
            },
            other => other,
        }
    }

    /// An object holding exactly one field (used when `null` gains a field).
    fn single_field_fresh(key: &str, value: JsonValue) -> (r: JsonValue)
        ensures
            r.tree() == JsonTree::Object(seq![(key@, value.tree())]),
    {
        let k = key.to_string();
        proof {
            vstd::string::to_string_from_display_ensures_for_str(key, k);
        }
        let mut fields: Vec<(String, JsonValue)> = Vec::new();
        fields.push((k, value));
        let r = JsonValue::Object(fields);
        assert(r.tree() == JsonTree::Object(seq![(key@, value.tree())])) by {
            if let JsonTree::Object(a) = r.tree() {
                assert(a =~= seq![(key@, value.tree())]);
            }
        }
        r
    }

    /// The value of the first field named `key`, when this is an object that
    /// has one.
    pub fn get_field(&self, key: &str) -> (r: Option<&JsonValue>)
        ensures
            r is Some <==> tree_get_field(self.tree(), key@) is Some,
            r matches Some(v) ==> Some(v.tree()) == tree_get_field(self.tree(), key@),
    {
        match self {
            JsonValue::Object(fields) => {
                let ghost tf = self.tree()->Object_0;
                let mut i: usize = 0;
                while i < fields.len()
                    invariant
                        *self == JsonValue::Object(*fields),
                        tf == self.tree()->Object_0,
                        i <= fields@.len(),
                        tf.len() == fields@.len(),
                        forall|j: int| 0 <= j < tf.len() ==> (#[trigger] tf[j]).0 == fields@[j].0@,
                        forall|j: int| 0 <= j < tf.len() ==> #[trigger] tf[j].1 == fields@[j].1.tree(),
                        forall|j: int| 0 <= j < i ==> fields@[j].0@ != key@,
                    decreases fields@.len() - i,
                {
                    if same_text(fields[i].0.as_str(), key) {
                        proof {
                            lemma_key_index_is_first(tf, key@, i as int);
                        }
                        return Some(&fields[i].1);
                    }
                    i = i + 1;
                }
                proof {
                    if has_key(tf, key@) {
                        let w = choose|w: int| 0 <= w < tf.len() && tf[w].0 == key@;
                        assert(fields@[w].0@ == key@);
                    }
                }
                None
            },
            _ => None,
        }
    }

    /// The characters of this value when it is a JSON string.
    pub fn as_text(&self) -> (r: Option<&String>)
        ensures
            r is Some <==> self.tree() is Str,
            r matches Some(s) ==> self.tree() == JsonTree::Str(s@),
    {
        match self {
            JsonValue::Str(s) => Some(s),
            _ => None,
        }
    }

    /// Whether this value is a JSON object.
    pub fn is_object(&self) -> (r: bool)
        ensures
            r == (self.tree() is Object),
    {
        match self {
            JsonValue::Object(_) => true,
            _ => false,
        }
    }
}

/// Reads JSON text with `serde_json::from_str`.
///
/// Trusted: `serde_json::from_str::<serde_json::Value>`. The contract claims only
/// that the same text always reads as the same value, or fails with the same
/// error text (both named by [`parsed_json`]); which texts are valid JSON, and
/// what they read as, is left to `serde_json`.
#[verifier::external_body]
pub fn parse_json_text(text: &str) -> (r: Result<JsonValue, String>)
    ensures
        r matches Ok(v) ==> (parsed_json(text@) matches Ok(t) && t == v.tree()),
        r matches Err(e) ==> (parsed_json(text@) matches Err(m) && m == e@),
{
    match serde_json::from_str::<serde_json::Value>(text) {
        Ok(v) => Ok(from_serde_value(v)),
        Err(e) => Err(e.to_string()),
    }
}

/// Writes a value as compact JSON text with `serde_json::Value`'s `Display`.
///
/// Trusted: `<serde_json::Value as ToString>::to_string`. The contract claims only
/// that the same value always prints as the same text (named [`printed_json`]).
/// An object with a repeated key prints its last value for that key, and a
/// number whose text is not a valid JSON number prints as `null`.
#[verifier::external_body]
pub fn json_to_text(value: &JsonValue) -> (r: String)
    ensures
        r@ == printed_json(value.tree()),
{
    to_serde_value(value).to_string()
}

/// `serde_json`'s own JSON value, which only the two text helpers below handle.
#[verifier::external_type_specification]
#[verifier::external_body]
pub struct ExSerdeJsonValue(serde_json::Value);

/// Changes a `serde_json::Value` into a [`JsonValue`] of the same shape, node for
/// node (the helper of [`parse_json_text`]).
#[verifier::external_body]
fn from_serde_value(v: serde_json::Value) -> JsonValue {
    match v {
        serde_json::Value::Null => JsonValue::Null,
        serde_json::Value::Bool(b) => JsonValue::Bool(b),
        serde_json::Value::Number(n) => JsonValue::Number(n.to_string()),
        serde_json::Value::String(s) => JsonValue::Str(s),
        serde_json::Value::Array(a) => JsonValue::Array(a.into_iter().map(from_serde_value).collect()),
        serde_json::Value::Object(m) => JsonValue::Object(
            m.into_iter().map(|(k, v)| (k, from_serde_value(v))).collect(),
        ),
    }
}

/// Changes a [`JsonValue`] into a `serde_json::Value` of the same shape, node for
/// node (the helper of [`json_to_text`]).
#[verifier::external_body]
fn to_serde_value(v: &JsonValue) -> serde_json::Value {
    match v {
        JsonValue::Null => serde_json::Value::Null,
        JsonValue::Bool(b) => serde_json::Value::Bool(*b),
        JsonValue::Number(n) => n.parse::<serde_json::Number>().map(serde_json::Value::Number).unwrap_or(
            serde_json::Value::Null,
        ),
        JsonValue::Str(s) => serde_json::Value::String(s.clone()),
        JsonValue::Array(a) => serde_json::Value::Array(a.iter().map(to_serde_value).collect()),
        JsonValue::Object(f) => serde_json::Value::Object(
            f.iter().map(|(k, v)| (k.clone(), to_serde_value(v))).collect(),
        ),
    }
}

} // verus!
