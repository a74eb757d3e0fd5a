//! The shared line format every adapter renders, and its byte accounting:
//! `{timestamp} [{level}] - {target}: {message}`.

use crate::level::Level;
use vstd::prelude::*;
use vstd::string::StringExecFns;
use vstd::utf8::encode_scalar;
use vstd::utf8::encode_utf8;
use vstd::utf8::is_ascii_chars;
use vstd::utf8::is_ascii_chars_encode_utf8;

verus! {

/// The UTF-8 byte length of a piece of text.
pub open spec fn byte_len(s: Seq<char>) -> nat {
    encode_utf8(s).len()
}

/// The text between the timestamp and the level label.
pub open spec fn sep_level() -> Seq<char> {
    " ["@
}

/// The text between the level label and the target.
pub open spec fn sep_target() -> Seq<char> {
    "] - "@
}

/// The text between the target and the message.
pub open spec fn sep_message() -> Seq<char> {
    ": "@
}

/// The line the shared format produces for one log event.
pub open spec fn rendered_view(
    ts: Seq<char>,
    level: Level,
    target: Seq<char>,
    msg: Seq<char>,
) -> Seq<char> {
    ts + sep_level() + level.spec_label() + sep_target() + target + sep_message() + msg
}

/// The byte length of the rendered line, from the byte lengths of its parts:
/// the three separators contribute two, four and two bytes.
pub open spec fn rendered_byte_len(
    ts_bytes: nat,
    level: Level,
    target_bytes: nat,
    msg_bytes: nat,
) -> nat {
    ts_bytes + 2 + byte_len(level.spec_label()) + 4 + target_bytes + 2 + msg_bytes
}

/// UTF-8 encoding distributes over concatenation of texts.
pub proof fn lemma_encode_utf8_concat(s1: Seq<char>, s2: Seq<char>)
    ensures
        encode_utf8(s1 + s2) == encode_utf8(s1) + encode_utf8(s2),
    decreases s1.len(),
{
    if s1.len() == 0 {
        assert(s1 + s2 =~= s2);
        assert(encode_utf8(s1) + encode_utf8(s2) =~= encode_utf8(s2));
    } else {
        lemma_encode_utf8_concat(s1.drop_first(), s2);
        assert((s1 + s2).drop_first() =~= s1.drop_first() + s2);
        assert((s1 + s2)[0] == s1[0]);
        assert(encode_scalar(s1[0] as u32) + (encode_utf8(s1.drop_first()) + encode_utf8(s2)) =~= (
        encode_scalar(s1[0] as u32) + encode_utf8(s1.drop_first())) + encode_utf8(s2));
    }
}

/// The three separators are ASCII, so they contribute exactly their character
/// counts in bytes.
pub proof fn lemma_separator_byte_lens()
    ensures
        byte_len(sep_level()) == 2,
        byte_len(sep_target()) == 4,
        byte_len(sep_message()) == 2,
{
    reveal_strlit(" [");
    reveal_strlit("] - ");
    reveal_strlit(": ");
    assert(is_ascii_chars(sep_level())) by {
        assert forall|i: int| 0 <= i < sep_level().len() implies '\0' <= #[trigger] sep_level()[i]
            <= '\u{7f}' by {
            if i == 0 {
            } else {
                assert(i == 1);
            }
        }
    }
    assert(is_ascii_chars(sep_target())) by {
        assert forall|i: int| 0 <= i < sep_target().len() implies '\0' <= #[trigger] sep_target()[i]
            <= '\u{7f}' by {
            if i == 0 {
            } else if i == 1 {
            } else if i == 2 {
            } else {
                assert(i == 3);
            }
        }
    }
    assert(is_ascii_chars(sep_message())) by {
        assert forall|i: int| 0 <= i < sep_message().len() implies '\0'
            <= #[trigger] sep_message()[i] <= '\u{7f}' by {
            if i == 0 {
            } else {
                assert(i == 1);
            }
        }
    }
    is_ascii_chars_encode_utf8(sep_level());
    is_ascii_chars_encode_utf8(sep_target());
    is_ascii_chars_encode_utf8(sep_message());
}

/// Law: the rendered line's byte length is the sum of its parts' byte lengths
/// plus the eight separator bytes, whatever the texts hold.
pub proof fn lemma_rendered_view_byte_len(
    ts: Seq<char>,
    level: Level,
    target: Seq<char>,
    msg: Seq<char>,
)
    ensures
        byte_len(rendered_view(ts, level, target, msg)) == rendered_byte_len(
            byte_len(ts),
            level,
            byte_len(target),
            byte_len(msg),
        ),
{
    lemma_separator_byte_lens();
    let p1 = ts + sep_level();
    let p2 = p1 + level.spec_label();
    let p3 = p2 + sep_target();
    let p4 = p3 + target;
    let p5 = p4 + sep_message();
    lemma_encode_utf8_concat(ts, sep_level());
    lemma_encode_utf8_concat(p1, level.spec_label());
    lemma_encode_utf8_concat(p2, sep_target());
    lemma_encode_utf8_concat(p3, target);
    lemma_encode_utf8_concat(p4, sep_message());
    lemma_encode_utf8_concat(p5, msg);
}

/// The level labels are ASCII, so each contributes exactly its character
/// count in bytes.
pub proof fn lemma_label_byte_lens()
    ensures
        byte_len(Level::Trace.spec_label()) == 5,
        byte_len(Level::Debug.spec_label()) == 5,
        byte_len(Level::Info.spec_label()) == 4,
        byte_len(Level::Warn.spec_label()) == 4,
        byte_len(Level::Error.spec_label()) == 5,
{
    reveal_strlit("TRACE");
    reveal_strlit("DEBUG");
    reveal_strlit("INFO");
    reveal_strlit("WARN");
    reveal_strlit("ERROR");
    assert(is_ascii_chars(Level::Trace.spec_label())) by {
        assert forall|i: int| 0 <= i < Level::Trace.spec_label().len() implies '\0'
            <= #[trigger] Level::Trace.spec_label()[i] <= '\u{7f}' by {
            if i == 0 {
            } else if i == 1 {
            } else if i == 2 {
            } else if i == 3 {
            } else {
                assert(i == 4);
            }
        }
    }
    assert(is_ascii_chars(Level::Debug.spec_label())) by {
        assert forall|i: int| 0 <= i < Level::Debug.spec_label().len() implies '\0'
            <= #[trigger] Level::Debug.spec_label()[i] <= '\u{7f}' by {
            if i == 0 {
            } else if i == 1 {
            } else if i == 2 {
            } else if i == 3 {
            } else {
                assert(i == 4);
            }
        }
    }
    assert(is_ascii_chars(Level::Info.spec_label())) by {
        assert forall|i: int| 0 <= i < Level::Info.spec_label().len() implies '\0'
            <= #[trigger] Level::Info.spec_label()[i] <= '\u{7f}' by {
            if i == 0 {
            } else if i == 1 {
            } else if i == 2 {
            } else {
                assert(i == 3);
            }
        }
    }
    assert(is_ascii_chars(Level::Warn.spec_label())) by {
        assert forall|i: int| 0 <= i < Level::Warn.spec_label().len() implies '\0'
            <= #[trigger] Level::Warn.spec_label()[i] <= '\u{7f}' by {
            if i == 0 {
            } else if i == 1 {
            } else if i == 2 {
            } else {
                assert(i == 3);
            }
        }
    }
    assert(is_ascii_chars(Level::Error.spec_label())) by {
        assert forall|i: int| 0 <= i < Level::Error.spec_label().len() implies '\0'
            <= #[trigger] Level::Error.spec_label()[i] <= '\u{7f}' by {
            if i == 0 {
            } else if i == 1 {
            } else if i == 2 {
            } else if i == 3 {
            } else {
                assert(i == 4);
            }
        }
    }
    is_ascii_chars_encode_utf8(Level::Trace.spec_label());
    is_ascii_chars_encode_utf8(Level::Debug.spec_label());
    is_ascii_chars_encode_utf8(Level::Info.spec_label());
    is_ascii_chars_encode_utf8(Level::Warn.spec_label());
    is_ascii_chars_encode_utf8(Level::Error.spec_label());
}

/// The byte contribution of serialized key/value attributes: each pair adds
/// its key's and its rendered value's bytes.
pub open spec fn kv_bytes(kvs: Seq<(String, String)>) -> nat
    decreases kvs.len(),
{
    if kvs.len() == 0 {
        0
    } else {
        (kv_bytes(kvs.drop_last()) + byte_len(kvs.last().0@) + byte_len(kvs.last().1@)) as nat
    }
}

/// Extending the serialized attributes by one pair adds that pair's bytes.
pub proof fn lemma_kv_bytes_take_step(kvs: Seq<(String, String)>, i: int)
    requires
        0 <= i < kvs.len(),
    ensures
        kv_bytes(kvs.take(i + 1)) == kv_bytes(kvs.take(i)) + byte_len(kvs[i].0@) + byte_len(
            kvs[i].1@,
        ),
{
    assert(kvs.take(i + 1).drop_last() =~= kvs.take(i));
    assert(kvs.take(i + 1).last() == kvs[i]);
}

/// The bytes of a prefix of the attributes never exceed the bytes of them all.
pub proof fn lemma_kv_bytes_prefix(kvs: Seq<(String, String)>, i: int)
    requires
        0 <= i <= kvs.len(),
    ensures
        kv_bytes(kvs.take(i)) <= kv_bytes(kvs),
    decreases kvs.len() - i,
{
    if i == kvs.len() {
        assert(kvs.take(i) =~= kvs);
    } else {
        lemma_kv_bytes_take_step(kvs, i);
        lemma_kv_bytes_prefix(kvs, i + 1);
    }
}

/// The byte contribution of serialized key/value attributes, or `None` when
/// it would not fit in a machine word.
pub fn kv_contribution(kvs: &Vec<(String, String)>) -> (r: Option<usize>)
    requires
        forall|i: int|
            0 <= i < kvs@.len() ==> byte_len(#[trigger] kvs@[i].0@) <= usize::MAX && byte_len(
                kvs@[i].1@,
            ) <= usize::MAX,
    ensures
        match r {
            Some(n) => n == kv_bytes(kvs@),
            None => kv_bytes(kvs@) > usize::MAX,
        },
{
    let mut acc: usize = 0;
    let mut i: usize = 0;
    proof {
        assert(kvs@.take(0) =~= Seq::<(String, String)>::empty());
    }
    while i < kvs.len()
        invariant
            0 <= i <= kvs@.len(),
            acc == kv_bytes(kvs@.take(i as int)),
            forall|j: int|
                0 <= j < kvs@.len() ==> byte_len(#[trigger] kvs@[j].0@) <= usize::MAX && byte_len(
                    kvs@[j].1@,
                ) <= usize::MAX,
        decreases kvs@.len() - i,
    {
        let pair = &kvs[i];
        let key_bytes = pair.0.as_str().len();
        let val_bytes = pair.1.as_str().len();
        proof {
            lemma_kv_bytes_take_step(kvs@, i as int);
        }
        let with_key = match add_len(acc, key_bytes) {
            Some(v) => v,
            None => {
                proof {
                    lemma_kv_bytes_prefix(kvs@, i + 1);
                }
                return None;
            },
        };
        acc = match add_len(with_key, val_bytes) {
            Some(v) => v,
            None => {
                proof {
                    lemma_kv_bytes_prefix(kvs@, i + 1);
                }
                return None;
            },
        };
        i = i + 1;
    }
    proof {
        assert(kvs@.take(kvs@.len() as int) =~= kvs@);
    }
    Some(acc)
}

/// Render one event with the shared format shape.
pub fn format_event(ts: &str, level: Level, target: &str, msg: &str) -> (r: String)
    ensures
        r@ == rendered_view(ts@, level, target@, msg@),
{
    let mut r = String::new();
    r.append(ts);
    r.append(" [");
    r.append(level.label());
    r.append("] - ");
    r.append(target);
    r.append(": ");
    r.append(msg);
    proof {
        assert(r@ =~= rendered_view(ts@, level, target@, msg@));
    }
    r
}

/// Add a part's byte count to a running total, refusing to overflow.
fn add_len(acc: usize, extra: usize) -> (r: Option<usize>)
    ensures
        match r {
            Some(n) => n == acc + extra,
            None => acc + extra > usize::MAX,
        },
{
    if extra <= usize::MAX - acc {
        Some(acc + extra)
    } else {
        None
    }
}

/// The byte length of the line the shared format would render, or `None`
/// when it would not fit in a machine word.
pub fn checked_rendered_len(ts: &str, level: Level, target: &str, msg: &str) -> (r: Option<usize>)
    requires
        byte_len(ts@) <= usize::MAX,
        byte_len(target@) <= usize::MAX,
        byte_len(msg@) <= usize::MAX,
    ensures
        match r {
            Some(n) => n == rendered_byte_len(
                byte_len(ts@),
                level,
                byte_len(target@),
                byte_len(msg@),
            ),
            None => rendered_byte_len(byte_len(ts@), level, byte_len(target@), byte_len(msg@))
                > usize::MAX,
        },
{
    proof {
        lemma_label_byte_lens();
    }
    let t1 = match add_len(ts.len(), 2) {
        Some(v) => v,
        None => {
            return None;
        },
    };
    let t2 = match add_len(t1, level.label().len()) {
        Some(v) => v,
        None => {
            return None;
        },
    };
    let t3 = match add_len(t2, 4) {
        Some(v) => v,
        None => {
            return None;
        },
    };
    let t4 = match add_len(t3, target.len()) {
        Some(v) => v,
        None => {
            return None;
        },
    };
    let t5 = match add_len(t4, 2) {
        Some(v) => v,
        None => {
            return None;
        },
    };
    match add_len(t5, msg.len()) {
        Some(v) => Some(v),
        None => None,
    }
}

} // verus!
