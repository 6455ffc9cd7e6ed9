//! What every network-based provider shares: merging `provider_options` into a
//! request body or form, and turning a failed response into a typed
//! [`Error`].

use vstd::prelude::*;

use crate::error::Error;
use crate::json::{
    distinct_keys, fields_set, has_key, json_to_text, key_index, law_get_after_set,
    law_set_keeps_other_fields, lemma_key_index_props, parse_json_text, parsed_json, printed_json,
    tree_get_field, tree_set_field, JsonTree, JsonValue,
};
use crate::schema::owned;
use crate::value_objects::RateLimit;

verus! {

/// `fields` with each of `overrides` set in turn.
pub open spec fn set_all(
    fields: Seq<(Seq<char>, JsonTree)>,
    overrides: Seq<(Seq<char>, JsonTree)>,
) -> Seq<(Seq<char>, JsonTree)>
    decreases overrides.len(),
{
    if overrides.len() == 0 {
        fields
    } else {
        fields_set(
            set_all(fields, overrides.drop_last()),
            overrides.last().0,
            overrides.last().1,
        )
    }
}

/// A request body with the provider options merged in: when both are
/// objects, each top-level field of the options is set on the body (adding
/// it, or replacing a field of the same name); otherwise the body is
/// unchanged.
pub open spec fn merged_tree(body: JsonTree, options: JsonTree) -> JsonTree {
    match (body, options) {
        (JsonTree::Object(b), JsonTree::Object(o)) => JsonTree::Object(set_all(b, o)),
        _ => body,
    }
}

/// Shallow-merges `provider_options` into a serialized request body, letting a
/// caller add or override any field the provider's API accepts. Options that
/// are not a JSON object (including the default `null`) change nothing.
pub fn merge_provider_options(body: JsonValue, provider_options: &JsonValue) -> (r: JsonValue)
    ensures
        r.tree() == merged_tree(body.tree(), provider_options.tree()),
{
    match provider_options {
        JsonValue::Object(overrides) => {
            if !body.is_object() {
                return body;
            }
            let ghost b = body.tree()->Object_0;
            let ghost o = provider_options.tree()->Object_0;
            let mut out = body;
            let mut i: usize = 0;
            while i < overrides.len()
                invariant
                    *provider_options == JsonValue::Object(*overrides),
                    o == provider_options.tree()->Object_0,
                    o.len() == overrides@.len(),
                    i <= overrides@.len(),
                    out.tree() == JsonTree::Object(set_all(b, o.subrange(0, i as int))),
                decreases overrides@.len() - i,
            {
                proof {
                    assert(o.subrange(0, i + 1).drop_last() =~= o.subrange(0, i as int));
                    assert(o.subrange(0, i + 1).last() == o[i as int]);
                    assert(o[i as int] == (overrides@[i as int].0@, overrides@[i as int].1.tree()));
                }
                let value = overrides[i].1.copy();
                out = out.with_field(overrides[i].0.as_str(), value);
                i = i + 1;
            }
            assert(o.subrange(0, o.len() as int) =~= o);
            out
        },
        _ => body,
    }
}

/// Setting the fields of `more` after those of `prefix` is setting them all.
proof fn lemma_set_all_step(fields: Seq<(Seq<char>, JsonTree)>, o: Seq<(Seq<char>, JsonTree)>, m: int)
    requires
        0 <= m < o.len(),
    ensures
        JsonTree::Object(set_all(fields, o.subrange(0, m + 1))) == tree_set_field(
            JsonTree::Object(set_all(fields, o.subrange(0, m))),
            o[m].0,
            o[m].1,
        ),
{
    assert(o.subrange(0, m + 1).drop_last() =~= o.subrange(0, m));
}

/// Once the options' field named `key` is set, the later (differently named)
/// options keep it.
proof fn lemma_merge_prefix_has(fields: Seq<(Seq<char>, JsonTree)>, o: Seq<(Seq<char>, JsonTree)>, key: Seq<char>, m: int)
    requires
        distinct_keys(o),
        has_key(o, key),
        key_index(o, key) < m <= o.len(),
    ensures
        tree_get_field(JsonTree::Object(set_all(fields, o.subrange(0, m))), key) == Some(
            o[key_index(o, key)].1,
        ),
    decreases m,
{
    lemma_key_index_props(o, key);
    let p = key_index(o, key);
    lemma_set_all_step(fields, o, m - 1);
    if m - 1 == p {
        law_get_after_set(JsonTree::Object(set_all(fields, o.subrange(0, m - 1))), o[p].0, o[p].1);
    } else {
        lemma_merge_prefix_has(fields, o, key, m - 1);
        assert(o[m - 1].0 != o[p].0);
        law_set_keeps_other_fields(
            JsonTree::Object(set_all(fields, o.subrange(0, m - 1))),
            o[m - 1].0,
            o[m - 1].1,
            key,
        );
    }
}

/// Options that do not name `key` leave the body's field of that name as it
/// was.
proof fn lemma_merge_prefix_keeps(fields: Seq<(Seq<char>, JsonTree)>, o: Seq<(Seq<char>, JsonTree)>, key: Seq<char>, m: int)
    requires
        !has_key(o, key),
        0 <= m <= o.len(),
    ensures
        tree_get_field(JsonTree::Object(set_all(fields, o.subrange(0, m))), key) == tree_get_field(
            JsonTree::Object(fields),
            key,
        ),
    decreases m,
{
    if m == 0 {
        assert(o.subrange(0, 0) =~= Seq::<(Seq<char>, JsonTree)>::empty());
    } else {
        lemma_merge_prefix_keeps(fields, o, key, m - 1);
        lemma_set_all_step(fields, o, m - 1);
        assert(o[m - 1].0 != key);
        law_set_keeps_other_fields(
            JsonTree::Object(set_all(fields, o.subrange(0, m - 1))),
            o[m - 1].0,
            o[m - 1].1,
            key,
        );
    }
}

/// Merging provider options into a body: each field the options name ends up
/// with the options' value (adding it or overriding the body's).
pub proof fn law_merge_overrides(body: JsonTree, options: JsonTree, key: Seq<char>)
    requires
        body is Object,
        options is Object,
        distinct_keys(options->Object_0),
        has_key(options->Object_0, key),
    ensures
        tree_get_field(merged_tree(body, options), key) == tree_get_field(options, key),
{
    let o = options->Object_0;
    lemma_key_index_props(o, key);
    lemma_merge_prefix_has(body->Object_0, o, key, o.len() as int);
    assert(o.subrange(0, o.len() as int) =~= o);
}

/// Merging provider options into a body: a field the options do not name
/// keeps the body's value.
pub proof fn law_merge_keeps_unnamed(body: JsonTree, options: JsonTree, key: Seq<char>)
    requires
        body is Object,
        options is Object,
        !has_key(options->Object_0, key),
    ensures
        tree_get_field(merged_tree(body, options), key) == tree_get_field(body, key),
{
    let o = options->Object_0;
    lemma_merge_prefix_keeps(body->Object_0, o, key, o.len() as int);
    assert(o.subrange(0, o.len() as int) =~= o);
}

/// The text a form field gets for a JSON value: a string as it is, anything
/// else as compact JSON.
pub open spec fn form_text(v: JsonTree) -> Seq<char> {
    match v {
        JsonTree::Str(s) => s,
        _ => printed_json(v),
    }
}

/// The extra text fields of a multipart form for `provider_options`: one per
/// top-level field when the options are a JSON object, none otherwise (the
/// counterpart of [`merge_provider_options`] for endpoints that take a form).
pub fn merge_provider_options_into_form(provider_options: &JsonValue) -> (r: Vec<(String, String)>)
    ensures
        provider_options.tree() is Object ==> {
            let o = provider_options.tree()->Object_0;
            &&& r@.len() == o.len()
            &&& forall|i: int|
                0 <= i < o.len() ==> (#[trigger] r@[i]).0@ == o[i].0 && r@[i].1@ == form_text(
                    o[i].1,
                )
        },
        !(provider_options.tree() is Object) ==> r@.len() == 0,
{
    let mut out: Vec<(String, String)> = Vec::new();
    match provider_options {
        JsonValue::Object(fields) => {
            let ghost o = provider_options.tree()->Object_0;
            let mut i: usize = 0;
            while i < fields.len()
                invariant
                    *provider_options == JsonValue::Object(*fields),
                    o == provider_options.tree()->Object_0,
                    o.len() == fields@.len(),
                    i <= fields@.len(),
                    out@.len() == i,
                    forall|j: int|
                        0 <= j < i ==> (#[trigger] out@[j]).0@ == o[j].0 && out@[j].1@ == form_text(
                            o[j].1,
                        ),
                decreases fields@.len() - i,
            {
                assert(o[i as int] == (fields@[i as int].0@, fields@[i as int].1.tree()));
                let text = match &fields[i].1 {
                    JsonValue::Str(s) => s.clone(),
                    other => json_to_text(other),
                };
                out.push((fields[i].0.clone(), text));
                i = i + 1;
            }
        },
        _ => {},
    }
    out
}

/// The value of a decimal digit character.
pub open spec fn digit_value(c: char) -> int {
    (c as int) - ('0' as int)
}

/// Whether every character of `s` is a decimal digit.
pub open spec fn all_digits(s: Seq<char>) -> bool {
    forall|i: int| 0 <= i < s.len() ==> '0' <= #[trigger] s[i] <= '9'
}

/// The number the decimal digits `s` spell.
pub open spec fn digits_value(s: Seq<char>) -> int
    decreases s.len(),
{
    if s.len() == 0 {
        0
    } else {
        digits_value(s.drop_last()) * 10 + digit_value(s.last())
    }
}

/// The digits of `s` after an optional leading `+`.
pub open spec fn unsigned_digits(s: Seq<char>) -> Seq<char> {
    if s.len() > 0 && s[0] == '+' {
        s.drop_first()
    } else {
        s
    }
}

/// What `s` reads as as a `u64` (as `str::parse::<u64>` reads it): an
/// optional `+` then at least one decimal digit, with a value that fits.
pub open spec fn parsed_u64(s: Seq<char>) -> Option<u64> {
    let d = unsigned_digits(s);
    if d.len() > 0 && all_digits(d) && digits_value(d) <= u64::MAX {
        Some(digits_value(d) as u64)
    } else {
        None
    }
}

/// The value of a digit prefix never exceeds the value of the whole.
proof fn lemma_digits_prefix(s: Seq<char>, k: int)
    requires
        0 <= k <= s.len(),
        all_digits(s),
    ensures
        0 <= digits_value(s.subrange(0, k)) <= digits_value(s),
    decreases s.len() - k,
{
    if k < s.len() {
        lemma_digits_prefix(s, k + 1);
        assert(s.subrange(0, k + 1).drop_last() =~= s.subrange(0, k));
        lemma_digits_nonneg(s.subrange(0, k));
    } else {
        assert(s.subrange(0, k) =~= s);
        lemma_digits_nonneg(s);
    }
}

/// Digits spell a non-negative number.
proof fn lemma_digits_nonneg(s: Seq<char>)
    requires
        all_digits(s),
    ensures
        digits_value(s) >= 0,
    decreases s.len(),
{
    if s.len() > 0 {
        assert(all_digits(s.drop_last()));
        lemma_digits_nonneg(s.drop_last());
    }
}

/// Reads a decimal `u64` the way `str::parse::<u64>` does.
pub fn parse_u64(s: &str) -> (r: Option<u64>)
    ensures
        r == parsed_u64(s@),
{
    let n = s.unicode_len();
    let mut i: usize = 0;
    if n > 0 && s.get_char(0) == '+' {
        i = 1;
    }
    let ghost d = unsigned_digits(s@);
    let start = i;
    assert(d =~= s@.subrange(start as int, n as int));
    if i >= n {
        return None;
    }
    let mut value: u64 = 0;
    while i < n
        invariant
            n == s@.len(),
            start <= i <= n,
            d == s@.subrange(start as int, n as int),
            d == unsigned_digits(s@),
            all_digits(d.subrange(0, i - start)),
            value == digits_value(d.subrange(0, i - start)),
        decreases n - i,
    {
        let c = s.get_char(i);
        let ghost prefix = d.subrange(0, i - start);
        let ghost next = d.subrange(0, i + 1 - start);
        assert(next.drop_last() =~= prefix);
        assert(next.last() == c);
        if c < '0' || c > '9' {
            proof {
                assert(!all_digits(d)) by {
                    assert(d[i - start] == c);
                }
                assert(parsed_u64(s@) is None);
            }
            return None;
        }
        let digit = (c as u32 - '0' as u32) as u64;
        assert(digit == digit_value(c));
        if value > (0xffff_ffff_ffff_ffffu64 - digit) / 10 {
            proof {
                assert(all_digits(next));
                assert(value * 10 + digit > u64::MAX) by (nonlinear_arith)
                    requires
                        value > (0xffff_ffff_ffff_ffffu64 - digit) / 10,
                        digit <= 9,
                ;
                assert(digits_value(next) > u64::MAX);
                if all_digits(d) {
                    lemma_digits_prefix(d, i + 1 - start);
                }
                assert(parsed_u64(s@) is None);
            }
            return None;
        }
        value = value * 10 + digit;
        i = i + 1;
    }
    assert(d.subrange(0, n - start) =~= d);
    Some(value)
}

/// The value of the first header named `name`, when it is readable text.
/// Names are lowercase, as HTTP header names are compared without regard to
/// case.
pub open spec fn header_value(headers: Seq<(String, Option<String>)>, name: Seq<char>) -> Option<
    Seq<char>,
>
    decreases headers.len(),
{
    if headers.len() == 0 {
        None
    } else if headers[0].0@ == name {
        match headers[0].1 {
            Some(v) => Some(v@),
            None => None,
        }
    } else {
        header_value(headers.drop_first(), name)
    }
}

/// The first header named `name` (the value is `None` when it is not readable
/// text).
pub fn header(headers: &Vec<(String, Option<String>)>, name: &str) -> (r: Option<String>)
    ensures
        match header_value(headers@, name@) {
            Some(v) => r matches Some(x) && x@ == v,
            None => r is None,
        },
{
    let mut i: usize = 0;
    assert(headers@.subrange(0, headers@.len() as int) =~= headers@);
    while i < headers.len()
        invariant
            i <= headers@.len(),
            header_value(headers@, name@) == header_value(headers@.subrange(i as int, headers@.len() as int), name@),
        decreases headers@.len() - i,
    {
        proof {
            let rest = headers@.subrange(i as int, headers@.len() as int);
            assert(rest.drop_first() =~= headers@.subrange(i + 1, headers@.len() as int));
        }
        if crate::json::same_text(headers[i].0.as_str(), name) {
            return match &headers[i].1 {
                Some(v) => Some(v.clone()),
                None => None,
            };
        }
        i = i + 1;
    }
    None
}

/// The number in the first header named `name`, when it reads as a `u64`.
pub open spec fn header_u64_value(headers: Seq<(String, Option<String>)>, name: Seq<char>) -> Option<
    u64,
> {
    match header_value(headers, name) {
        Some(v) => parsed_u64(v),
        None => None,
    }
}

/// The number in the first header named `name`, when it reads as a `u64`.
pub fn header_u64(headers: &Vec<(String, Option<String>)>, name: &str) -> (r: Option<u64>)
    ensures
        r == header_u64_value(headers@, name@),
{
    match header(headers, name) {
        Some(v) => parse_u64(v.as_str()),
        None => None,
    }
}

/// Whether `r` is the rate-limit report of `headers`: one `requests` limit
/// when both the limit and the remaining count are present as numbers (with
/// the reset time, when given), none otherwise.
pub open spec fn rate_limits_of(headers: Seq<(String, Option<String>)>, r: Seq<RateLimit>) -> bool {
    let limit = header_u64_value(headers, "x-ratelimit-limit-requests"@);
    let remaining = header_u64_value(headers, "x-ratelimit-remaining-requests"@);
    if limit is Some && remaining is Some {
        &&& r.len() == 1
        &&& r[0].name@ == "requests"@
        &&& r[0].limit == limit->0
        &&& r[0].remaining == remaining->0
        &&& match header_value(headers, "x-ratelimit-reset-requests"@) {
            Some(v) => r[0].reset_at matches Some(x) && x@ == v,
            None => r[0].reset_at is None,
        }
    } else {
        r.len() == 0
    }
}

/// The rate limits a provider reported in its headers.
pub fn parse_rate_limits(headers: &Vec<(String, Option<String>)>) -> (r: Vec<RateLimit>)
    ensures
        rate_limits_of(headers@, r@),
{
    let limit = header_u64(headers, "x-ratelimit-limit-requests");
    let remaining = header_u64(headers, "x-ratelimit-remaining-requests");
    let mut out: Vec<RateLimit> = Vec::new();
    match (limit, remaining) {
        (Some(limit), Some(remaining)) => {
            out.push(
                RateLimit {
                    name: owned("requests"),
                    limit,
                    remaining,
                    reset_at: header(headers, "x-ratelimit-reset-requests"),
                },
            );
        },
        _ => {},
    }
    out
}

/// The `"type"` and `"message"` an error body carries at `error.type` and
/// `error.message`, as strings.
pub open spec fn error_string_at(t: JsonTree, key: Seq<char>) -> Option<Seq<char>> {
    match tree_get_field(t, "error"@) {
        Some(e) => match tree_get_field(e, key) {
            Some(JsonTree::Str(s)) => Some(s),
            _ => None,
        },
        None => None,
    }
}

/// The kind and message of a provider's error body. Providers shape error
/// bodies as `{"error": {"message": "...", "type": "..."}}`; the message falls
/// back to the whole body when there is none (also when the body is not JSON
/// at all), and the kind is absent then.
pub open spec fn error_body_of(body: Seq<char>) -> (Option<Seq<char>>, Seq<char>) {
    match parsed_json(body) {
        Ok(t) => (
            error_string_at(t, "type"@),
            match error_string_at(t, "message"@) {
                Some(m) => m,
                None => body,
            },
        ),
        Err(_) => (None, body),
    }
}

/// The string at `error.<key>` of a parsed error body.
fn error_string(value: &JsonValue, key: &str) -> (r: Option<String>)
    ensures
        match error_string_at(value.tree(), key@) {
            Some(s) => r matches Some(x) && x@ == s,
            None => r is None,
        },
{
    match value.get_field("error") {
        Some(e) => match e.get_field(key) {
            Some(v) => match v.as_text() {
                Some(s) => Some(s.clone()),
                None => None,
            },
            None => None,
        },
        None => None,
    }
}

/// Pulls the kind and a readable message out of a provider's error body.
pub fn parse_error_body(body: &str) -> (r: (Option<String>, String))
    ensures
        match error_body_of(body@).0 {
            Some(k) => r.0 matches Some(x) && x@ == k,
            None => r.0 is None,
        },
        r.1@ == error_body_of(body@).1,
{
    match parse_json_text(body) {
        Ok(value) => {
            let message = match error_string(&value, "message") {
                Some(m) => m,
                None => owned(body),
            };
            let kind = error_string(&value, "type");
            (kind, message)
        },
        Err(_) => (None, owned(body)),
    }
}

/// Turns a provider's failed response into the matching [`Error`], naming
/// the provider.
pub struct ErrorMapper<'a> {
    pub provider: &'a str,
}

impl<'a> ErrorMapper<'a> {
    /// The error for a failed response with HTTP status `status`, headers
    /// `headers` (lowercase names, values that are not readable text as
    /// `None`) and body `body`: [`Error::RateLimited`] for `429` (with the
    /// `retry-after` seconds and the reported rate limits),
    /// [`Error::RequestTooLarge`] for `413`, [`Error::Overloaded`] for `529`,
    /// and [`Error::Provider`] for anything else.
    pub fn map_error_response(
        &self,
        status: u16,
        headers: &Vec<(String, Option<String>)>,
        body: &str,
    ) -> (r: Error)
        ensures
            status == 429 ==> (r matches Error::RateLimited { provider, retry_after, limits }
                && provider@ == self.provider@ && retry_after == header_u64_value(
                headers@,
                "retry-after"@,
            ) && rate_limits_of(headers@, limits@)),
            status == 413 ==> (r matches Error::RequestTooLarge { provider, details }
                && provider@ == self.provider@ && details@ == error_body_of(body@).1),
            status == 529 ==> (r matches Error::Overloaded { provider } && provider@
                == self.provider@),
            status != 429 && status != 413 && status != 529 ==> (r matches Error::Provider {
                provider,
                status: s,
                kind,
                message,
            } && provider@ == self.provider@ && s == status && message@ == error_body_of(body@).1
                && match error_body_of(body@).0 {
                Some(k) => kind matches Some(x) && x@ == k,
                None => kind is None,
            }),
    {
        let (kind, message) = parse_error_body(body);
        let provider = owned(self.provider);
        if status == 429 {
            Error::RateLimited {
                provider,
                retry_after: header_u64(headers, "retry-after"),
                limits: parse_rate_limits(headers),
            }
        } else if status == 413 {
            Error::RequestTooLarge { provider, details: message }
        } else if status == 529 {
            Error::Overloaded { provider }
        } else {
            Error::Provider { provider, status, kind, message }
        }
    }
}

} // verus!
