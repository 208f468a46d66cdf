//! The encoder's data model and the specification of its textual form.
//!
//! `Value` is the closed set of shapes the encoder accepts; `json_of` gives,
//! for every value, the exact character sequence the encoder emits for it.

use vstd::prelude::*;

verus! {

/// A value of the abstract data model: exactly one shape applies per value.
///
/// Wrapper names (of unit records, newtype records and variants) are carried
/// but never encoded; variant tags are encoded. The shape set is closed:
/// positional tagged aggregates and display-text formatting are not part of
/// the model, so a value of an unsupported shape cannot be formed.
pub enum Value {
    Bool(bool),
    I8(i8),
    I16(i16),
    I32(i32),
    I64(i64),
    U8(u8),
    U16(u16),
    U32(u32),
    U64(u64),
    Char(char),
    Str(String),
    /// Bytes already shaped as a JSON token: written verbatim, no quoting.
    Bytes(Vec<u8>),
    /// An absent optional value.
    Absent,
    /// A present optional value: the wrapper is transparent.
    Present(Box<Value>),
    Unit,
    UnitRecord(String),
    /// A data-less variant: the tag (second field) is encoded as a string.
    UnitVariant(String, String),
    NewtypeRecord(String, Box<Value>),
    /// A single-value variant: `{"<tag>":<value>}`.
    NewtypeVariant(String, String, Box<Value>),
    Array(Vec<Value>),
    Tuple(Vec<Value>),
    /// Key/value pairs in insertion order.
    Dict(Vec<(Value, Value)>),
    /// Named fields in declaration order; the record name is not encoded.
    Record(String, Vec<(String, Value)>),
    /// A record variant: fields nested one level inside `{"<tag>":{...}}`.
    VariantRecord(String, String, Vec<(String, Value)>),
}

/// Lowercase hexadecimal digit for a value below 16.
pub open spec fn hex_digit(n: nat) -> char {
    if n == 0 {
        '0'
    } else if n == 1 {
        '1'
    } else if n == 2 {
        '2'
    } else if n == 3 {
        '3'
    } else if n == 4 {
        '4'
    } else if n == 5 {
        '5'
    } else if n == 6 {
        '6'
    } else if n == 7 {
        '7'
    } else if n == 8 {
        '8'
    } else if n == 9 {
        '9'
    } else if n == 10 {
        'a'
    } else if n == 11 {
        'b'
    } else if n == 12 {
        'c'
    } else if n == 13 {
        'd'
    } else if n == 14 {
        'e'
    } else {
        'f'
    }
}

/// The escape rule, per character: `\` and `"` become `\` + self; the six
/// named control characters get their short escapes; every other code point
/// below U+0020 becomes `\u00` + two lowercase hex digits; everything else
/// passes through unescaped.
pub open spec fn escape_char(c: char) -> Seq<char> {
    if c == '\\' || c == '"' {
        seq!['\\', c]
    } else if c == '\u{8}' {
        seq!['\\', 'b']
    } else if c == '\t' {
        seq!['\\', 't']
    } else if c == '\n' {
        seq!['\\', 'n']
    } else if c == '\u{B}' {
        seq!['\\', 'v']
    } else if c == '\u{C}' {
        seq!['\\', 'f']
    } else if c == '\r' {
        seq!['\\', 'r']
    } else if (c as u32) < 0x20 {
        seq!['\\', 'u', '0', '0', hex_digit((c as u32 / 16) as nat), hex_digit((c as u32 % 16) as nat)]
    } else {
        seq![c]
    }
}

/// Every character of `s` passed through the escape rule, in order.
pub open spec fn escape_seq(s: Seq<char>) -> Seq<char>
    decreases s.len(),
{
    if s.len() == 0 {
        Seq::empty()
    } else {
        escape_seq(s.drop_last()) + escape_char(s.last())
    }
}

/// A JSON string: `"` + the escaped characters + `"`.
pub open spec fn string_chars(s: Seq<char>) -> Seq<char> {
    seq!['"'] + escape_seq(s) + seq!['"']
}

/// A record field name written verbatim between quotes, followed by `:`.
/// Field names are identifiers and are not passed through the escape rule.
pub open spec fn field_name_chars(name: Seq<char>) -> Seq<char> {
    seq!['"'] + name + seq!['"', ':']
}

/// Decimal digits of `n`, most significant first, no leading zeros.
pub open spec fn dec_chars(n: nat) -> Seq<char>
    decreases n,
{
    if n < 10 {
        seq![hex_digit(n)]
    } else {
        dec_chars(n / 10) + seq![hex_digit(n % 10)]
    }
}

/// Minimal decimal form of an integer: digits, with `-` ahead of a negative.
pub open spec fn int_chars(v: int) -> Seq<char> {
    if v < 0 {
        seq!['-'] + dec_chars((-v) as nat)
    } else {
        dec_chars(v as nat)
    }
}

pub open spec fn bool_chars(v: bool) -> Seq<char> {
    if v {
        "true"@
    } else {
        "false"@
    }
}

pub open spec fn null_chars() -> Seq<char> {
    "null"@
}

/// The characters of a byte sequence reinterpreted as UTF-8 text: given its
/// meaning by the trusted reinterpretation in `ser` — the decoding on valid
/// UTF-8, the empty sequence otherwise.
pub uninterp spec fn utf8_chars(b: Seq<u8>) -> Seq<char>;

/// Every byte is in the ASCII range.
pub open spec fn ascii_bytes(b: Seq<u8>) -> bool {
    forall|i: int| 0 <= i < b.len() ==> b[i] < 0x80
}

/// ASCII bytes read as text: one character per byte, same code points.
pub open spec fn ascii_chars_of(b: Seq<u8>) -> Seq<char> {
    b.map_values(|x: u8| x as char)
}

/// The exact JSON text of a value.
pub open spec fn json_of(v: Value) -> Seq<char>
    decreases v, 0nat,
{
    match v {
        Value::Bool(b) => bool_chars(b),
        Value::I8(x) => int_chars(x as int),
        Value::I16(x) => int_chars(x as int),
        Value::I32(x) => int_chars(x as int),
        Value::I64(x) => int_chars(x as int),
        Value::U8(x) => int_chars(x as int),
        Value::U16(x) => int_chars(x as int),
        Value::U32(x) => int_chars(x as int),
        Value::U64(x) => int_chars(x as int),
        Value::Char(c) => escape_char(c),
        Value::Str(s) => string_chars(s@),
        Value::Bytes(b) => utf8_chars(b@),
        Value::Absent => null_chars(),
        Value::Present(inner) => json_of(*inner),
        Value::Unit => null_chars(),
        Value::UnitRecord(_) => null_chars(),
        Value::UnitVariant(_, tag) => string_chars(tag@),
        Value::NewtypeRecord(_, inner) => json_of(*inner),
        Value::NewtypeVariant(_, tag, inner) => seq!['{'] + field_name_chars(tag@) + json_of(
            *inner,
        ) + seq!['}'],
        Value::Array(es) => seq!['['] + elems_chars(es@) + seq![']'],
        Value::Tuple(es) => seq!['['] + elems_chars(es@) + seq![']'],
        Value::Dict(ps) => seq!['{'] + pairs_chars(ps@) + seq!['}'],
        Value::Record(_, fs) => seq!['{'] + fields_chars(fs@) + seq!['}'],
        Value::VariantRecord(_, tag, fs) => seq!['{'] + field_name_chars(tag@) + seq!['{']
            + fields_chars(fs@) + seq!['}', '}'],
    }
}

/// The body of an array: element texts joined by `,`.
pub open spec fn elems_chars(es: Seq<Value>) -> Seq<char>
    decreases es, 1nat,
{
    if es.len() == 0 {
        Seq::empty()
    } else if es.len() == 1 {
        json_of(es[0])
    } else {
        elems_chars(es.drop_last()) + seq![','] + json_of(es.last())
    }
}

/// The body of a map: `key:value` pair texts joined by `,`.
pub open spec fn pairs_chars(ps: Seq<(Value, Value)>) -> Seq<char>
    decreases ps, 1nat,
{
    if ps.len() == 0 {
        Seq::empty()
    } else if ps.len() == 1 {
        json_of(ps[0].0) + seq![':'] + json_of(ps[0].1)
    } else {
        pairs_chars(ps.drop_last()) + seq![','] + json_of(ps.last().0) + seq![':'] + json_of(
            ps.last().1,
        )
    }
}

/// The body of a record: `"name":value` field texts joined by `,`.
pub open spec fn fields_chars(fs: Seq<(String, Value)>) -> Seq<char>
    decreases fs, 1nat,
{
    if fs.len() == 0 {
        Seq::empty()
    } else if fs.len() == 1 {
        field_name_chars(fs[0].0@) + json_of(fs[0].1)
    } else {
        fields_chars(fs.drop_last()) + seq![','] + field_name_chars(fs.last().0@) + json_of(
            fs.last().1,
        )
    }
}

} // verus!
