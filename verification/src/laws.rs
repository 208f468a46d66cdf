//! The encoder's laws: what the escape rule and the optional wrapper
//! guarantee, stated over the model and proved once for all inputs.

use vstd::prelude::*;

use crate::model::{
    escape_char, escape_seq, field_name_chars, fields_chars, hex_digit, json_of, null_chars,
    string_chars, Value,
};

verus! {

/// A character the escape rule passes through unaltered: not `"`, not `\`,
/// and outside the control range U+0000–U+001F.
pub open spec fn plain_char(c: char) -> bool {
    c != '"' && c != '\\' && c as u32 >= 0x20
}

/// Law: a sequence of plain characters is left unaltered by the escape rule.
pub proof fn lemma_escape_seq_plain(s: Seq<char>)
    requires
        forall|i: int| 0 <= i < s.len() ==> plain_char(s[i]),
    ensures
        escape_seq(s) == s,
    decreases s.len(),
{
    if s.len() == 0 {
        assert(escape_seq(s) =~= s);
    } else {
        lemma_escape_seq_plain(s.drop_last());
        assert(escape_char(s.last()) == seq![s.last()]);
        assert(escape_seq(s) =~= s);
    }
}

/// Law: a string of only plain characters — no control characters, no `"`,
/// no `\` — is encoded exactly as `"` + itself + `"`, no character altered.
pub proof fn lemma_plain_string_verbatim(s: Seq<char>)
    requires
        forall|i: int| 0 <= i < s.len() ==> plain_char(s[i]),
    ensures
        string_chars(s) == seq!['"'] + s + seq!['"'],
{
    lemma_escape_seq_plain(s);
}

/// Law: `\` and `"` are each escaped to the two-character `\` + self form.
pub proof fn lemma_backslash_quote_escapes()
    ensures
        escape_char('\\') == seq!['\\', '\\'],
        escape_char('"') == seq!['\\', '"'],
{
}

/// Law: the six named control characters get their short escapes.
pub proof fn lemma_short_escapes()
    ensures
        escape_char('\u{8}') == seq!['\\', 'b'],
        escape_char('\t') == seq!['\\', 't'],
        escape_char('\n') == seq!['\\', 'n'],
        escape_char('\u{B}') == seq!['\\', 'v'],
        escape_char('\u{C}') == seq!['\\', 'f'],
        escape_char('\r') == seq!['\\', 'r'],
{
}

/// Law: every other control character becomes `\u00` followed by exactly its
/// two lowercase hexadecimal digits.
pub proof fn lemma_numeric_escape(c: char)
    requires
        (c as u32) < 0x20,
        c != '\u{8}',
        c != '\t',
        c != '\n',
        c != '\u{B}',
        c != '\u{C}',
        c != '\r',
    ensures
        escape_char(c) == seq![
            '\\',
            'u',
            '0',
            '0',
            hex_digit((c as u32 / 16) as nat),
            hex_digit((c as u32 % 16) as nat),
        ],
        escape_char(c).len() == 6,
{
}

/// Law: the optional wrapper is transparent on presence — a present value
/// encodes exactly as the value it wraps, so nesting present wrappers
/// changes nothing — and an absent value always yields the literal `null`.
pub proof fn lemma_optional_transparent(outer: Value, mid: Value, x: Value)
    requires
        outer matches Value::Present(m) && *m == mid,
        mid matches Value::Present(ix) && *ix == x,
    ensures
        json_of(outer) == json_of(mid),
        json_of(mid) == json_of(x),
        json_of(Value::Absent) == null_chars(),
{
}

/// Law: a field holding an absent optional is still emitted — as its name
/// with a `null` value — whatever the name; fields are never skipped on
/// value content.
pub proof fn lemma_absent_field_emitted(name: String)
    ensures
        fields_chars(seq![(name, Value::Absent)]) == field_name_chars(name@) + null_chars(),
{
    let fs = seq![(name, Value::Absent)];
    assert(fs[0] == (name, Value::Absent));
    assert(json_of(Value::Absent) == null_chars());
    assert(fields_chars(fs) == field_name_chars(name@) + null_chars());
}

} // verus!
