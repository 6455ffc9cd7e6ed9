//! Built-in providers: how each one's wire format maps to and from this
//! library's provider-agnostic types.

use vstd::prelude::*;

use crate::json::string_views;
use crate::value_objects::{Media, Message};

pub mod anthropic;
pub mod elevenlabs;
pub mod gemini;
pub mod openai;
pub mod voyageai;

verus! {

/// Whether `out` is the rendering of `msgs`, message by message: each message
/// renders as `count(m)` wire items in order, and `one(m, items)` says whether
/// those items are a correct rendering of `m`.
pub open spec fn renders<W>(
    msgs: Seq<Message>,
    out: Seq<W>,
    count: spec_fn(Message) -> nat,
    one: spec_fn(Message, Seq<W>) -> bool,
) -> bool
    decreases msgs.len(),
{
    if msgs.len() == 0 {
        out.len() == 0
    } else {
        let k = out.len() - count(msgs.last());
        &&& 0 <= k
        &&& renders(msgs.drop_last(), out.subrange(0, k), count, one)
        &&& one(msgs.last(), out.subrange(k, out.len() as int))
    }
}

/// Rendering one more message extends the rendering of the ones before it.
pub proof fn lemma_renders_push<W>(
    msgs: Seq<Message>,
    out: Seq<W>,
    m: Message,
    seg: Seq<W>,
    count: spec_fn(Message) -> nat,
    one: spec_fn(Message, Seq<W>) -> bool,
)
    requires
        renders(msgs, out, count, one),
        one(m, seg),
        seg.len() == count(m),
    ensures
        renders(msgs.push(m), out + seg, count, one),
{
    let all = msgs.push(m);
    assert(all.drop_last() =~= msgs);
    assert(all.last() == m);
    let joined = out + seg;
    assert(joined.subrange(0, out.len() as int) =~= out);
    assert(joined.subrange(out.len() as int, joined.len() as int) =~= seg);
}

/// `items` joined with `sep` between each two.
pub open spec fn join_with(items: Seq<Seq<char>>, sep: Seq<char>) -> Seq<char>
    decreases items.len(),
{
    if items.len() == 0 {
        Seq::empty()
    } else if items.len() == 1 {
        items[0]
    } else {
        join_with(items.drop_last(), sep) + sep + items.last()
    }
}

/// `items` joined with `sep` between each two.
pub fn join_strings(items: &Vec<String>, sep: &str) -> (r: String)
    ensures
        r@ == join_with(string_views(items@), sep@),
{
    let mut out = String::new();
    let mut i: usize = 0;
    while i < items.len()
        invariant
            i <= items@.len(),
            out@ == join_with(string_views(items@.subrange(0, i as int)), sep@),
        decreases items@.len() - i,
    {
        let ghost before = string_views(items@.subrange(0, i as int));
        proof {
            assert(string_views(items@.subrange(0, i + 1)).drop_last() =~= before);
            assert(string_views(items@.subrange(0, i + 1)).last() == items@[i as int]@);
        }
        if i > 0 {
            out.append(sep);
        }
        out.append(items[i].as_str());
        i = i + 1;
    }
    assert(items@.subrange(0, items@.len() as int) =~= items@);
    out
}

/// The decimal digit character for `d`.
pub open spec fn digit_char(d: nat) -> char {
    if d == 0 {
        '0'
    } else if d == 1 {
        '1'
    } else if d == 2 {
        '2'
    } else if d == 3 {
        '3'
    } else if d == 4 {
        '4'
    } else if d == 5 {
        '5'
    } else if d == 6 {
        '6'
    } else if d == 7 {
        '7'
    } else if d == 8 {
        '8'
    } else {
        '9'
    }
}

/// The decimal text of `n`, without leading zeros.
pub open spec fn decimal(n: nat) -> Seq<char>
    decreases n,
{
    if n < 10 {
        seq![digit_char(n)]
    } else {
        decimal(n / 10).push(digit_char(n % 10))
    }
}

/// The one-character text of the digit `d`.
fn digit_str(d: u64) -> (r: &'static str)
    requires
        d < 10,
    ensures
        r@ == seq![digit_char(d as nat)],
{
    proof {
        reveal_strlit("0");
        reveal_strlit("1");
        reveal_strlit("2");
        reveal_strlit("3");
        reveal_strlit("4");
        reveal_strlit("5");
        reveal_strlit("6");
        reveal_strlit("7");
        reveal_strlit("8");
        reveal_strlit("9");
    }
    if d == 0 {
        "0"
    } else if d == 1 {
        "1"
    } else if d == 2 {
        "2"
    } else if d == 3 {
        "3"
    } else if d == 4 {
        "4"
    } else if d == 5 {
        "5"
    } else if d == 6 {
        "6"
    } else if d == 7 {
        "7"
    } else if d == 8 {
        "8"
    } else {
        "9"
    }
}

/// The decimal text of `n`.
pub fn decimal_text(n: u64) -> (r: String)
    ensures
        r@ == decimal(n as nat),
    decreases n,
{
    if n < 10 {
        let mut s = String::new();
        s.append(digit_str(n));
        s
    } else {
        let mut s = decimal_text(n / 10);
        s.append(digit_str(n % 10));
        s
    }
}

/// The MIME type of a piece of media, or `default` when it has none.
pub open spec fn mime_or(m: Media, default: Seq<char>) -> Seq<char> {
    match m.mime_type {
        Some(t) => t@,
        None => default,
    }
}

/// The MIME type of a piece of media, or `default` when it has none.
pub fn media_mime(m: &Media, default: &str) -> (r: String)
    ensures
        r@ == mime_or(*m, default@),
{
    match &m.mime_type {
        Some(t) => t.clone(),
        None => crate::schema::owned(default),
    }
}

/// Whether position `p` comes before position `q` when ordering by `keys`,
/// equal keys keeping their original order.
pub open spec fn key_before(keys: Seq<usize>, p: usize, q: usize) -> bool {
    keys[p as int] < keys[q as int] || (keys[p as int] == keys[q as int] && p < q)
}

/// Whether `order` lists every position of `keys` once, ordered by key, equal
/// keys in their original order (a stable sort).
pub open spec fn stable_order(keys: Seq<usize>, order: Seq<usize>) -> bool {
    &&& order.len() == keys.len()
    &&& forall|k: int| 0 <= k < order.len() ==> order[k] < keys.len()
    &&& forall|k: int, l: int|
        0 <= k < l < order.len() ==> key_before(keys, #[trigger] order[k], #[trigger] order[l])
}

/// The positions of `keys`, stably sorted by key.
pub fn stable_sort_positions(keys: &Vec<usize>) -> (r: Vec<usize>)
    ensures
        stable_order(keys@, r@),
{
    let mut order: Vec<usize> = Vec::new();
    let mut i: usize = 0;
    while i < keys.len()
        invariant
            i <= keys@.len(),
            order@.len() == i,
            forall|k: int| 0 <= k < order@.len() ==> order@[k] < i,
            forall|k: int, l: int|
                0 <= k < l < order@.len() ==> key_before(keys@, #[trigger] order@[k], #[trigger] order@[l]),
        decreases keys@.len() - i,
    {
        let key = keys[i];
        let mut q: usize = 0;
        while q < order.len() && keys[order[q]] <= key
            invariant
                q <= order@.len(),
                forall|k: int| 0 <= k < order@.len() ==> order@[k] < i,
                i < keys@.len(),
                key == keys@[i as int],
                forall|k: int| 0 <= k < q ==> keys@[order@[k] as int] <= key,
            decreases order@.len() - q,
        {
            q = q + 1;
        }
        let ghost before = order@;
        proof {
            assert forall|k: int| q <= k < before.len() implies keys@[before[k] as int] > key by {
                if k > q {
                    assert(key_before(keys@, before[q as int], before[k]));
                }
            }
        }
        order.insert(q, i);
        proof {
            assert forall|k: int, l: int|
                0 <= k < l < order@.len() implies key_before(keys@, #[trigger] order@[k], #[trigger] order@[l]) by {
                if l < q {
                    assert(order@[k] == before[k] && order@[l] == before[l]);
                } else if l == q {
                    assert(order@[k] == before[k]);
                } else if k < q {
                    assert(order@[k] == before[k] && order@[l] == before[l - 1]);
                    assert(key_before(keys@, before[k], before[l - 1]));
                } else if k == q {
                    assert(order@[l] == before[l - 1]);
                } else {
                    assert(order@[k] == before[k - 1] && order@[l] == before[l - 1]);
                    assert(key_before(keys@, before[k - 1], before[l - 1]));
                }
            }
        }
        i = i + 1;
    }
    order
}

} // verus!
