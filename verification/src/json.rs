//! JSON text emission for the wire format.
//!
//! The serialized form of every payload is specified as a sequence of
//! key/value entries; this module gives the character-exact rendering of
//! string tokens and entry lists, and the helpers that contracts use to talk
//! about which keys an object contains.

use vstd::prelude::*;

verus! {

/// Hex digit for a nibble, lower case.
pub open spec fn hex_digit(d: int) -> char {
    if d == 0 {
        '0'
    } else if d == 1 {
        '1'
    } else if d == 2 {
        '2'
    } else if d == 3 {
        '3'
    } else if d == 4 {
        '4'
    } else if d == 5 {
        '5'
    } else if d == 6 {
        '6'
    } else if d == 7 {
        '7'
    } else if d == 8 {
        '8'
    } else if d == 9 {
        '9'
    } else if d == 10 {
        'a'
    } else if d == 11 {
        'b'
    } else if d == 12 {
        'c'
    } else if d == 13 {
        'd'
    } else if d == 14 {
        'e'
    } else {
        'f'
    }
}

/// The characters one character contributes inside a JSON string token.
pub open spec fn escaped_char(c: char) -> Seq<char> {
    if c == '"' {
        seq!['\\', '"']
    } else if c == '\\' {
        seq!['\\', '\\']
    } else if c == '\u{08}' {
        seq!['\\', 'b']
    } else if c == '\t' {
        seq!['\\', 't']
    } else if c == '\n' {
        seq!['\\', 'n']
    } else if c == '\u{0c}' {
        seq!['\\', 'f']
    } else if c == '\r' {
        seq!['\\', 'r']
    } else if (c as u32) < 32 {
        seq!['\\', 'u', '0', '0', hex_digit(c as u32 as int / 16), hex_digit(c as u32 as int % 16)]
    } else {
        seq![c]
    }
}

/// A string's characters with JSON escaping applied.
pub open spec fn escaped(s: Seq<char>) -> Seq<char>
    decreases s.len(),
{
    if s.len() == 0 {
        Seq::empty()
    } else {
        escaped(s.drop_last()) + escaped_char(s.last())
    }
}

/// A JSON string token: quote, escaped characters, quote.
pub open spec fn quoted(s: Seq<char>) -> Seq<char> {
    seq!['"'] + escaped(s) + seq!['"']
}

/// One rendered object entry whose value is a JSON string token.
pub open spec fn str_entry_text(e: (Seq<char>, Seq<char>)) -> Seq<char> {
    quoted(e.0) + seq![':'] + quoted(e.1)
}

/// Rendered entry list with string values, comma separated.
pub open spec fn str_entries_text(es: Seq<(Seq<char>, Seq<char>)>) -> Seq<char>
    decreases es.len(),
{
    if es.len() == 0 {
        Seq::empty()
    } else if es.len() == 1 {
        str_entry_text(es[0])
    } else {
        str_entries_text(es.drop_last()) + seq![','] + str_entry_text(es.last())
    }
}

/// Rendered text of an object with the given inner text.
pub open spec fn obj_text(inner: Seq<char>) -> Seq<char> {
    seq!['{'] + inner + seq!['}']
}

/// Appending an entry to a non-empty rendered list appends a comma and the
/// entry's own text.
pub proof fn lemma_str_entries_push(es: Seq<(Seq<char>, Seq<char>)>, e: (Seq<char>, Seq<char>))
    requires
        es.len() > 0,
    ensures
        str_entries_text(es.push(e)) == str_entries_text(es) + seq![','] + str_entry_text(e),
{
    assert(es.push(e).drop_last() =~= es);
    assert(es.push(e).last() == e);
}

/// Whether an entry list holds the given key.
pub open spec fn has_key<V>(es: Seq<(Seq<char>, V)>, k: Seq<char>) -> bool {
    exists|i: int| 0 <= i < es.len() && es[i].0 == k
}

/// Appending an entry adds exactly its key to the key set.
pub proof fn lemma_has_key_push<V>(es: Seq<(Seq<char>, V)>, e: (Seq<char>, V), k: Seq<char>)
    ensures
        has_key(es.push(e), k) <==> (has_key(es, k) || e.0 == k),
{
    if has_key(es, k) {
        let i = choose|i: int| 0 <= i < es.len() && es[i].0 == k;
        assert(es.push(e)[i].0 == k);
    }
    if e.0 == k {
        assert(es.push(e)[es.len() as int].0 == k);
    }
    if has_key(es.push(e), k) && !(e.0 == k) {
        let i = choose|i: int| 0 <= i < es.push(e).len() && es.push(e)[i].0 == k;
        assert(es[i].0 == k);
    }
}

/// Opening a bracketed region: the bracket and a first piece of inner text.
pub proof fn lemma_wrap_open(start: Seq<char>, br: char, piece: Seq<char>)
    ensures
        start.push(br) + piece == start + seq![br] + piece,
{
    assert(start.push(br) + piece =~= start + seq![br] + piece);
}

/// Extending a bracketed region: a comma and one more piece of inner text.
pub proof fn lemma_wrap_step(start: Seq<char>, prev: Seq<char>, inner: Seq<char>, piece: Seq<char>, br: char)
    requires
        prev == start + seq![br] + inner,
    ensures
        prev.push(',') + piece == start + seq![br] + (inner + seq![','] + piece),
{
    assert(prev.push(',') + piece =~= start + seq![br] + (inner + seq![','] + piece));
}

/// Closing an object region: the brace completes `obj_text`.
pub proof fn lemma_wrap_close_obj(start: Seq<char>, prev: Seq<char>, inner: Seq<char>)
    requires
        prev == start + seq!['{'] + inner,
    ensures
        prev.push('}') == start + obj_text(inner),
{
    assert(prev.push('}') =~= start + obj_text(inner));
}

/// Closing an array region: the bracket completes the array text.
pub proof fn lemma_wrap_close_arr(start: Seq<char>, prev: Seq<char>, inner: Seq<char>)
    requires
        prev == start + seq!['['] + inner,
    ensures
        prev.push(']') == start + (seq!['['] + inner + seq![']']),
{
    assert(prev.push(']') =~= start + (seq!['['] + inner + seq![']']));
}

/// A three-entry list holds no key besides its three entries' own.
pub proof fn lemma_no_key3<V>(es: Seq<(Seq<char>, V)>, k: Seq<char>)
    requires
        es.len() == 3,
        es[0].0 != k,
        es[1].0 != k,
        es[2].0 != k,
    ensures
        !has_key(es, k),
{
    if has_key(es, k) {
        let i = choose|i: int| 0 <= i < es.len() && es[i].0 == k;
        assert(i == 0 || i == 1 || i == 2);
    }
}

/// Whether every entry under the given key holds the given value.
pub open spec fn entries_key_value<V>(es: Seq<(Seq<char>, V)>, k: Seq<char>, v: V) -> bool {
    forall|i: int| 0 <= i < es.len() && (#[trigger] es[i]).0 == k ==> es[i].1 == v
}

/// Appending an entry keeps `entries_key_value` as long as the appended
/// entry itself respects it.
pub proof fn lemma_key_value_push<V>(es: Seq<(Seq<char>, V)>, e: (Seq<char>, V), k: Seq<char>, v: V)
    requires
        entries_key_value(es, k, v),
        e.0 == k ==> e.1 == v,
    ensures
        entries_key_value(es.push(e), k, v),
{
    assert forall|i: int|
        0 <= i < es.push(e).len() && (#[trigger] es.push(e)[i]).0 == k implies es.push(e)[i].1
        == v by {
        if i < es.len() {
            assert(es.push(e)[i] == es[i]);
        } else {
            assert(es.push(e)[i] == e);
        }
    }
}

/// Whether a text is the encoding of exactly one JSON value (as any JSON
/// serializer's output is). Splicing such a text as a value into a JSON
/// object keeps the object well-formed and cannot inject keys around it.
pub uninterp spec fn json_value_text(s: Seq<char>) -> bool;

/// Relies on serde_json's `from_str::<Value>`: returns whether the whole
/// text parses as one JSON value. The result depends on the text alone.
#[verifier::external_body]
pub(crate) fn is_json_value(s: &str) -> (r: bool)
    ensures
        r == json_value_text(s@),
{
    serde_json::from_str::<serde_json::Value>(s).is_ok()
}

/// Relies on std's `String::push`: appends exactly one character.
pub assume_specification[ String::push ](s: &mut String, ch: char)
    ensures
        final(s)@ == old(s)@.push(ch),
;

/// Append one lower-case hex digit character.
fn push_hex_digit(out: &mut String, d: u32)
    requires
        d < 16,
    ensures
        final(out)@ == old(out)@.push(hex_digit(d as int)),
{
    let c: char = match d {
        0 => '0',
        1 => '1',
        2 => '2',
        3 => '3',
        4 => '4',
        5 => '5',
        6 => '6',
        7 => '7',
        8 => '8',
        9 => '9',
        10 => 'a',
        11 => 'b',
        12 => 'c',
        13 => 'd',
        14 => 'e',
        _ => 'f',
    };
    out.push(c);
}

/// Append `escaped(s@)` to `out`.
fn push_escaped(out: &mut String, s: &str)
    ensures
        final(out)@ == old(out)@ + escaped(s@),
{
    let n = s.unicode_len();
    let mut i: usize = 0;
    proof {
        assert(s@.take(0) =~= Seq::<char>::empty());
        assert(out@ =~= old(out)@ + escaped(s@.take(0)));
    }
    while i < n
        invariant
            n == s@.len(),
            i <= n,
            out@ == old(out)@ + escaped(s@.take(i as int)),
        decreases n - i,
    {
        let c = s.get_char(i);
        proof {
            assert(s@.take(i as int + 1).drop_last() =~= s@.take(i as int));
            assert(s@.take(i as int + 1).last() == c);
            assert(escaped(s@.take(i as int + 1)) == escaped(s@.take(i as int)) + escaped_char(c));
        }
        if c == '"' {
            out.append("\\\"");
            proof {
                reveal_strlit("\\\"");
                assert(("\\\"")@ =~= escaped_char(c));
            }
        } else if c == '\\' {
            out.append("\\\\");
            proof {
                reveal_strlit("\\\\");
                assert(("\\\\")@ =~= escaped_char(c));
            }
        } else if c == '\u{08}' {
            out.append("\\b");
            proof {
                reveal_strlit("\\b");
                assert(("\\b")@ =~= escaped_char(c));
            }
        } else if c == '\t' {
            out.append("\\t");
            proof {
                reveal_strlit("\\t");
                assert(("\\t")@ =~= escaped_char(c));
            }
        } else if c == '\n' {
            out.append("\\n");
            proof {
                reveal_strlit("\\n");
                assert(("\\n")@ =~= escaped_char(c));
            }
        } else if c == '\u{0c}' {
            out.append("\\f");
            proof {
                reveal_strlit("\\f");
                assert(("\\f")@ =~= escaped_char(c));
            }
        } else if c == '\r' {
            out.append("\\r");
            proof {
                reveal_strlit("\\r");
                assert(("\\r")@ =~= escaped_char(c));
            }
        } else if (c as u32) < 32 {
            out.append("\\u00");
            let v: u32 = c as u32;
            push_hex_digit(out, v / 16);
            push_hex_digit(out, v % 16);
            proof {
                reveal_strlit("\\u00");
                assert(("\\u00")@.push(hex_digit(v as int / 16)).push(hex_digit(v as int % 16))
                    =~= escaped_char(c));
            }
        } else {
            out.push(c);
            proof {
                assert(seq![c] =~= escaped_char(c));
            }
        }
        proof {
            assert(out@ =~= old(out)@ + escaped(s@.take(i as int + 1)));
        }
        i = i + 1;
    }
    proof {
        assert(s@.take(n as int) =~= s@);
    }
}

/// Append the JSON string token `quoted(s@)`.
pub fn push_quoted(out: &mut String, s: &str)
    ensures
        final(out)@ == old(out)@ + quoted(s@),
{
    out.push('"');
    push_escaped(out, s);
    out.push('"');
    proof {
        assert(out@ =~= old(out)@ + quoted(s@));
    }
}

} // verus!
