//! MCP (Model Context Protocol) tools: what a server's tool is to this
//! library, what a call of it sends, and what its reply means.
//!
//! The connection to the server and the calls themselves go through the
//! `rmcp` SDK; this module decides everything around them.

use vstd::prelude::*;

use crate::error::ToolError;
use crate::json::{trees, JsonTree, JsonValue};
use crate::providers::join_with;
use crate::schema::{owned, ObjectSchema};
use crate::text::ToolDefinition;
use crate::value_objects::ToolOutput;

verus! {

/// One content block of a tool call's reply.
#[derive(Debug)]
pub enum McpBlock {
    /// A text block.
    Text(String),
    /// Any other block (an image, a resource, ...), as the JSON the SDK
    /// serializes it to, or `None` when it could not be serialized.
    Other(Option<JsonValue>),
}

/// The definition of a server's tool: its name and description (empty when
/// it has none), arguments shaped by its own JSON Schema, run one at a time.
pub fn mcp_tool_definition(name: String, description: Option<String>, input_schema: Vec<(String, JsonValue)>) -> (r:
    ToolDefinition)
    ensures
        r.name == name,
        r.description@ == match description {
            Some(d) => d@,
            None => Seq::<char>::empty(),
        },
        r.parameters.name@ == name@,
        r.parameters.json_schema matches Some(s) && s.tree() == JsonTree::Object(
            crate::json::field_trees(input_schema@),
        ),
        !r.concurrent,
{
    let description = match description {
        Some(d) => d,
        None => String::new(),
    };
    let parameters = ObjectSchema::from_raw_json_schema(name.as_str(), JsonValue::object(input_schema));
    ToolDefinition { name, description, parameters, concurrent: false }
}

/// The arguments sent with a call: the fields of an object; none for any
/// other value.
pub fn mcp_call_arguments(args: JsonValue) -> (r: Option<Vec<(String, JsonValue)>>)
    ensures
        args is Object <==> r is Some,
        r matches Some(fields) ==> args == JsonValue::Object(fields),
{
    match args {
        JsonValue::Object(fields) => Some(fields),
        _ => None,
    }
}

/// The texts of the text blocks of a reply, in order.
pub open spec fn block_texts(blocks: Seq<McpBlock>) -> Seq<Seq<char>>
    decreases blocks.len(),
{
    if blocks.len() == 0 {
        Seq::empty()
    } else {
        match blocks.last() {
            McpBlock::Text(t) => block_texts(blocks.drop_last()).push(t@),
            _ => block_texts(blocks.drop_last()),
        }
    }
}

/// The serialized non-text blocks of a reply, in order.
pub open spec fn block_artifacts(blocks: Seq<McpBlock>) -> Seq<JsonTree>
    decreases blocks.len(),
{
    if blocks.len() == 0 {
        Seq::empty()
    } else {
        match blocks.last() {
            McpBlock::Other(Some(v)) => block_artifacts(blocks.drop_last()).push(v.tree()),
            _ => block_artifacts(blocks.drop_last()),
        }
    }
}

/// The text of a reply: its text blocks joined by newlines.
pub open spec fn reply_text(blocks: Seq<McpBlock>) -> Seq<char> {
    join_with(block_texts(blocks), "\n"@)
}

/// The structured content of a reply, as the first artifacts.
pub open spec fn structured_head(s: Option<JsonValue>) -> Seq<JsonTree> {
    match s {
        Some(v) => seq![v.tree()],
        None => Seq::empty(),
    }
}

/// What a tool call's reply means. A reply flagged as an error is a
/// [`ToolError::Runtime`] carrying its text (or a generic message when it has
/// none). Otherwise the output is its text, with the structured content (if
/// any) and then the serialized non-text blocks as artifacts.
pub fn mcp_call_outcome(
    name: &str,
    blocks: Vec<McpBlock>,
    is_error: Option<bool>,
    structured_content: Option<JsonValue>,
) -> (r: Result<ToolOutput, ToolError>)
    ensures
        is_error == Some(true) ==> (r matches Err(ToolError::Runtime { name: n, message }) && n@
            == name@ && message@ == if reply_text(blocks@).len() == 0 {
            "tool call failed with no further detail"@
        } else {
            reply_text(blocks@)
        }),
        is_error != Some(true) ==> (r matches Ok(out) && out.content@ == reply_text(blocks@)
            && trees(out.artifacts@) == structured_head(structured_content) + block_artifacts(
            blocks@,
        )),
{
    let ghost bs = blocks@;
    let mut text = String::new();
    let mut any = false;
    let mut i: usize = 0;
    while i < blocks.len()
        invariant
            bs == blocks@,
            i <= bs.len(),
            text@ == join_with(block_texts(bs.subrange(0, i as int)), "\n"@),
            any == (block_texts(bs.subrange(0, i as int)).len() > 0),
        decreases bs.len() - i,
    {
        proof {
            assert(bs.subrange(0, i + 1).drop_last() =~= bs.subrange(0, i as int));
        }
        if let McpBlock::Text(t) = &blocks[i] {
            let ghost before = block_texts(bs.subrange(0, i as int));
            if any {
                text.append("\n");
            }
            text.append(t.as_str());
            any = true;
            proof {
                assert(before.push(t@).drop_last() =~= before);
            }
        }
        i = i + 1;
    }
    assert(bs.subrange(0, bs.len() as int) =~= bs);
    if is_error == Some(true) {
        let message = if text.as_str().is_empty() {
            owned("tool call failed with no further detail")
        } else {
            text
        };
        return Err(ToolError::Runtime { name: owned(name), message });
    }
    let mut artifacts: Vec<JsonValue> = Vec::new();
    let ghost head = structured_head(structured_content);
    if let Some(s) = structured_content {
        artifacts.push(s);
    }
    assert(trees(artifacts@) =~= head);
    let mut rest = blocks;
    let mut k: usize = 0;
    let n = rest.len();
    while k < n
        invariant
            n == bs.len(),
            k <= n,
            rest@ == bs.subrange(k as int, n as int),
            trees(artifacts@) == head + block_artifacts(bs.subrange(0, k as int)),
        decreases n - k,
    {
        let b = rest.remove(0);
        assert(b == bs[k as int]);
        let ghost before = artifacts@;
        proof {
            assert(bs.subrange(0, k + 1).drop_last() =~= bs.subrange(0, k as int));
        }
        if let McpBlock::Other(Some(v)) = b {
            artifacts.push(v);
            proof {
                assert(trees(artifacts@) =~= trees(before).push(artifacts@.last().tree()));
            }
        }
        k = k + 1;
        assert(rest@ =~= bs.subrange(k as int, n as int));
    }
    assert(bs.subrange(0, n as int) =~= bs);
    Ok(ToolOutput { content: text, artifacts })
}

} // verus!
