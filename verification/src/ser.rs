//! The encoder: dispatches each value shape to its JSON textual form,
//! writing incrementally to an owned append-only character sink.
//!
//! Scalar shapes are written whole; composite shapes open their bracket or
//! brace here and are then driven through a builder (`sequence`, `mapping`,
//! `struct_`), which emits separators and the closing punctuation.

use vstd::prelude::*;
use vstd::string::StrSliceExecFns;
use vstd::string::StringExecFns;

use crate::mapping::SerializeMap;
use crate::model::{
    ascii_bytes, ascii_chars_of, bool_chars, dec_chars, escape_char, escape_seq, field_name_chars,
    int_chars, json_of, null_chars, string_chars, utf8_chars, Value,
};
use crate::sequence::SerializeSeq;
use crate::struct_::{SerializeStruct, SerializeStructVariant};

verus! {

/// Appends one character to the sink.
///
/// Relies on alloc::string::String::push: appends the given char to the end
/// of this String.
#[verifier::external_body]
fn push_char(out: &mut String, c: char)
    ensures
        final(out)@ == old(out)@.push(c),
{
    out.push(c);
}

/// Reinterprets bytes as UTF-8 text.
///
/// Relies on core::str::from_utf8: returns `Ok` exactly on valid UTF-8, and
/// the returned slice is the decoding of the bytes; bytes below 0x80 are
/// ASCII, always valid, and decode to one character each with the byte's
/// code point. On invalid bytes the name `utf8_chars` is pinned to the empty
/// sequence, so that the callers' contracts are total.
#[verifier::external_body]
fn bytes_as_str(v: &[u8]) -> (r: Option<&str>)
    ensures
        (match r {
            Some(s) => s@ == utf8_chars(v@) && (ascii_bytes(v@) ==> s@ == ascii_chars_of(v@)),
            None => !ascii_bytes(v@) && utf8_chars(v@) == Seq::<char>::empty(),
        }),
{
    match core::str::from_utf8(v) {
        Ok(s) => Some(s),
        Err(_) => None,
    }
}

/// Lowercase hexadecimal digit character for a value below 16.
fn hex_char(n: u8) -> (c: char)
    requires
        n < 16,
    ensures
        c == crate::model::hex_digit(n as nat),
{
    if n == 0 {
        '0'
    } else if n == 1 {
        '1'
    } else if n == 2 {
        '2'
    } else if n == 3 {
        '3'
    } else if n == 4 {
        '4'
    } else if n == 5 {
        '5'
    } else if n == 6 {
        '6'
    } else if n == 7 {
        '7'
    } else if n == 8 {
        '8'
    } else if n == 9 {
        '9'
    } else if n == 10 {
        'a'
    } else if n == 11 {
        'b'
    } else if n == 12 {
        'c'
    } else if n == 13 {
        'd'
    } else if n == 14 {
        'e'
    } else {
        'f'
    }
}

/// The encoder. It owns the output sink for the duration of one top-level
/// encode call; its view is the character sequence written so far.
pub struct Serializer {
    out: String,
}

impl View for Serializer {
    type V = Seq<char>;

    closed spec fn view(&self) -> Seq<char> {
        self.out@
    }
}

impl Serializer {
    /// A fresh encoder over an empty sink.
    pub fn new() -> (s: Serializer)
        ensures
            s@ == Seq::<char>::empty(),
    {
        Serializer { out: String::new() }
    }

    /// Writes one character to the sink.
    pub fn char(&mut self, c: char)
        ensures
            final(self)@ == old(self)@.push(c),
    {
        push_char(&mut self.out, c);
    }

    /// Writes a text fragment to the sink.
    pub fn str(&mut self, string: &str)
        ensures
            final(self)@ == old(self)@ + string@,
    {
        self.out.append(string);
    }

    /// Writes two characters to the sink.
    fn char2(&mut self, a: char, b: char)
        ensures
            final(self)@ == old(self)@ + seq![a, b],
    {
        self.char(a);
        self.char(b);
        proof {
            assert(self@ =~= old(self)@ + seq![a, b]);
        }
    }

    /// Gives up the encoder, yielding everything written to the sink.
    pub fn into_string(self) -> (r: String)
        ensures
            r@ == self@,
    {
        self.out
    }

    /// `true` or `false`.
    pub fn serialize_bool(&mut self, v: bool)
        ensures
            final(self)@ == old(self)@ + bool_chars(v),
    {
        if v {
            self.str("true");
        } else {
            self.str("false");
        }
    }

    /// The minimal decimal digits of `v`, most significant first.
    fn push_u64_dec(&mut self, v: u64)
        ensures
            final(self)@ == old(self)@ + dec_chars(v as nat),
        decreases v,
    {
        if v >= 10 {
            self.push_u64_dec(v / 10);
        }
        self.char(hex_char((v % 10) as u8));
        proof {
            assert(self@ =~= old(self)@ + dec_chars(v as nat));
        }
    }

    /// Minimal decimal form: digits, with `-` ahead of a negative value.
    pub fn serialize_i64(&mut self, v: i64)
        ensures
            final(self)@ == old(self)@ + int_chars(v as int),
    {
        if v < 0 {
            self.char('-');
            let m: u64 = (-(v as i128)) as u64;
            self.push_u64_dec(m);
            proof {
                assert(self@ =~= old(self)@ + int_chars(v as int));
            }
        } else {
            self.push_u64_dec(v as u64);
        }
    }

    pub fn serialize_i8(&mut self, v: i8)
        ensures
            final(self)@ == old(self)@ + int_chars(v as int),
    {
        self.serialize_i64(v as i64);
    }

    pub fn serialize_i16(&mut self, v: i16)
        ensures
            final(self)@ == old(self)@ + int_chars(v as int),
    {
        self.serialize_i64(v as i64);
    }

    pub fn serialize_i32(&mut self, v: i32)
        ensures
            final(self)@ == old(self)@ + int_chars(v as int),
    {
        self.serialize_i64(v as i64);
    }

    /// Minimal decimal digits of an unsigned value.
    pub fn serialize_u64(&mut self, v: u64)
        ensures
            final(self)@ == old(self)@ + int_chars(v as int),
    {
        self.push_u64_dec(v);
    }

    pub fn serialize_u8(&mut self, v: u8)
        ensures
            final(self)@ == old(self)@ + int_chars(v as int),
    {
        self.serialize_u64(v as u64);
    }

    pub fn serialize_u16(&mut self, v: u16)
        ensures
            final(self)@ == old(self)@ + int_chars(v as int),
    {
        self.serialize_u64(v as u64);
    }

    pub fn serialize_u32(&mut self, v: u32)
        ensures
            final(self)@ == old(self)@ + int_chars(v as int),
    {
        self.serialize_u64(v as u64);
    }

    /// One character under the escape rule: `\` and `"` become `\` + self,
    /// the six named control characters get their short escapes, every other
    /// code point below U+0020 becomes `\u00` + two lowercase hex digits,
    /// and all other characters pass through unescaped.
    pub fn serialize_char(&mut self, c: char)
        ensures
            final(self)@ == old(self)@ + escape_char(c),
    {
        if c == '\\' || c == '"' {
            self.char2('\\', c);
        } else if c == '\u{8}' {
            self.char2('\\', 'b');
        } else if c == '\t' {
            self.char2('\\', 't');
        } else if c == '\n' {
            self.char2('\\', 'n');
        } else if c == '\u{B}' {
            self.char2('\\', 'v');
        } else if c == '\u{C}' {
            self.char2('\\', 'f');
        } else if c == '\r' {
            self.char2('\\', 'r');
        } else if (c as u32) < 0x20 {
            let n: u32 = c as u32;
            self.char2('\\', 'u');
            self.char2('0', '0');
            self.char(hex_char((n / 16) as u8));
            self.char(hex_char((n % 16) as u8));
            proof {
                assert(self@ =~= old(self)@ + escape_char(c));
            }
        } else {
            self.char(c);
            proof {
                assert(self@ =~= old(self)@ + escape_char(c));
            }
        }
    }

    /// A JSON string: `"`, every character under the escape rule, `"`.
    pub fn serialize_str(&mut self, v: &str)
        ensures
            final(self)@ == old(self)@ + string_chars(v@),
    {
        self.char('"');
        let n: usize = v.unicode_len();
        let mut i: usize = 0;
        while i < n
            invariant
                n == v@.len(),
                i <= n,
                self@ == old(self)@.push('"') + escape_seq(v@.subrange(0, i as int)),
            decreases n - i,
        {
            let c: char = v.get_char(i);
            self.serialize_char(c);
            proof {
                let pre = v@.subrange(0, i + 1);
                assert(pre.drop_last() =~= v@.subrange(0, i as int));
                assert(self@ =~= old(self)@.push('"') + escape_seq(pre));
            }
            i = i + 1;
        }
        proof {
            assert(v@.subrange(0, n as int) =~= v@);
        }
        self.char('"');
        proof {
            assert(self@ =~= old(self)@ + string_chars(v@));
        }
    }

    /// Bytes already shaped as a JSON token: reinterpreted as UTF-8 text and
    /// written verbatim, with no quoting and no escaping. Bytes that are not
    /// valid UTF-8 violate the caller's side of the contract; nothing is
    /// written for them.
    pub fn serialize_bytes(&mut self, v: &[u8])
        ensures
            final(self)@ == old(self)@ + utf8_chars(v@),
    {
        match bytes_as_str(v) {
            Some(s) => {
                self.str(s);
            },
            None => {
                proof {
                    assert(self@ =~= old(self)@ + utf8_chars(v@));
                }
            },
        }
    }

    /// An absent optional value: `null`.
    pub fn serialize_none(&mut self)
        ensures
            final(self)@ == old(self)@ + null_chars(),
    {
        self.str("null");
    }

    /// A present optional value: the wrapper is transparent.
    pub fn serialize_some(&mut self, value: &Value)
        ensures
            final(self)@ == old(self)@ + json_of(*value),
        decreases *value, 1nat,
    {
        self.encode_value(value);
    }

    /// The unit value: `null`.
    pub fn serialize_unit(&mut self)
        ensures
            final(self)@ == old(self)@ + null_chars(),
    {
        self.serialize_none();
    }

    /// A unit record: `null`; the record name is not encoded.
    pub fn serialize_unit_struct(&mut self, _name: &str)
        ensures
            final(self)@ == old(self)@ + null_chars(),
    {
        self.serialize_unit();
    }

    /// A data-less variant: its tag as a JSON string; the outer name is not
    /// encoded.
    pub fn serialize_unit_variant(&mut self, _name: &str, variant: &str)
        ensures
            final(self)@ == old(self)@ + string_chars(variant@),
    {
        self.serialize_str(variant);
    }

    /// A newtype record: the record wrapper is transparent.
    pub fn serialize_newtype_struct(&mut self, _name: &str, value: &Value)
        ensures
            final(self)@ == old(self)@ + json_of(*value),
        decreases *value, 1nat,
    {
        self.encode_value(value);
    }

    /// A single-value variant: a one-field object keyed by the tag.
    pub fn serialize_newtype_variant(&mut self, _name: &str, variant: &str, value: &Value)
        ensures
            final(self)@ == old(self)@ + seq!['{'] + field_name_chars(variant@) + json_of(*value)
                + seq!['}'],
        decreases *value, 2nat,
    {
        self.char('{');
        let mut s = SerializeStruct::new();
        s.serialize_field(self, variant, value);
        s.end(self);
        proof {
            assert(self@ =~= old(self)@ + seq!['{'] + field_name_chars(variant@) + json_of(*value)
                + seq!['}']);
        }
    }

    /// Opens a sequence: `[`, then a builder. The length hint is advisory
    /// and never validated.
    pub fn serialize_seq(&mut self, _len: Option<usize>) -> (b: SerializeSeq)
        ensures
            final(self)@ == old(self)@.push('['),
            b.is_fresh(),
    {
        self.char('[');
        SerializeSeq::new()
    }

    /// Opens a tuple: encoded exactly as a sequence.
    pub fn serialize_tuple(&mut self, len: usize) -> (b: SerializeSeq)
        ensures
            final(self)@ == old(self)@.push('['),
            b.is_fresh(),
    {
        self.serialize_seq(Some(len))
    }

    /// Opens a map: `{`, then a builder. The length hint is advisory and
    /// never validated.
    pub fn serialize_map(&mut self, _len: Option<usize>) -> (b: SerializeMap)
        ensures
            final(self)@ == old(self)@.push('{'),
            b.is_fresh(),
    {
        self.char('{');
        SerializeMap::new()
    }

    /// Opens a record: `{`, then a builder; the record name is not encoded.
    pub fn serialize_struct(&mut self, _name: &str, _len: usize) -> (b: SerializeStruct)
        ensures
            final(self)@ == old(self)@.push('{'),
            b.is_fresh(),
    {
        self.char('{');
        SerializeStruct::new()
    }

    /// Opens a record variant: `{"<tag>":{`, then a builder whose finalize
    /// closes both braces.
    pub fn serialize_struct_variant(&mut self, _name: &str, variant: &str, _len: usize) -> (b:
        SerializeStructVariant)
        ensures
            final(self)@ == old(self)@ + seq!['{'] + field_name_chars(variant@) + seq!['{'],
            b.is_fresh(),
    {
        self.char('{');
        self.char('"');
        self.str(variant);
        self.char2('"', ':');
        self.char('{');
        proof {
            assert(self@ =~= old(self)@ + seq!['{'] + field_name_chars(variant@) + seq!['{']);
        }
        SerializeStructVariant::new()
    }

    /// Dispatches a value of any shape to its textual form: the one
    /// match-style entry point over the closed shape set.
    pub fn encode_value(&mut self, v: &Value)
        ensures
            final(self)@ == old(self)@ + json_of(*v),
        decreases *v, 0nat,
    {
        match v {
            Value::Bool(b) => self.serialize_bool(*b),
            Value::I8(x) => self.serialize_i8(*x),
            Value::I16(x) => self.serialize_i16(*x),
            Value::I32(x) => self.serialize_i32(*x),
            Value::I64(x) => self.serialize_i64(*x),
            Value::U8(x) => self.serialize_u8(*x),
            Value::U16(x) => self.serialize_u16(*x),
            Value::U32(x) => self.serialize_u32(*x),
            Value::U64(x) => self.serialize_u64(*x),
            Value::Char(c) => self.serialize_char(*c),
            Value::Str(s) => self.serialize_str(s.as_str()),
            Value::Bytes(b) => self.serialize_bytes(b.as_slice()),
            Value::Absent => self.serialize_none(),
            Value::Present(inner) => self.serialize_some(inner),
            Value::Unit => self.serialize_unit(),
            Value::UnitRecord(name) => self.serialize_unit_struct(name.as_str()),
            Value::UnitVariant(name, tag) => self.serialize_unit_variant(
                name.as_str(),
                tag.as_str(),
            ),
            Value::NewtypeRecord(name, inner) => self.serialize_newtype_struct(
                name.as_str(),
                inner,
            ),
            Value::NewtypeVariant(name, tag, inner) => self.serialize_newtype_variant(
                name.as_str(),
                tag.as_str(),
                inner,
            ),
            Value::Array(es) => self.encode_elements(es),
            Value::Tuple(es) => self.encode_elements(es),
            Value::Dict(ps) => {
                let ghost start = self@;
                let mut b = self.serialize_map(Some(ps.len()));
                self.encode_pairs(&mut b, ps);
                b.end(self);
                proof {
                    assert(self@ =~= start + json_of(*v));
                }
            },
            Value::Record(name, fs) => {
                let ghost start = self@;
                let mut b = self.serialize_struct(name.as_str(), fs.len());
                self.encode_fields(&mut b, fs);
                b.end(self);
                proof {
                    assert(self@ =~= start + json_of(*v));
                }
            },
            Value::VariantRecord(name, tag, fs) => {
                let ghost start = self@;
                let mut b = self.serialize_struct_variant(name.as_str(), tag.as_str(), fs.len());
                self.encode_variant_fields(&mut b, fs);
                b.end(self);
                proof {
                    assert(self@ =~= start + json_of(*v));
                }
            },
        }
    }

    /// The elements of a sequence or tuple, between the brackets.
    fn encode_elements(&mut self, es: &Vec<Value>)
        ensures
            final(self)@ == old(self)@ + seq!['['] + crate::model::elems_chars(es@) + seq![']'],
        decreases es@, 2nat,
    {
        let ghost start = self@;
        let mut b = self.serialize_seq(Some(es.len()));
        let mut i: usize = 0;
        while i < es.len()
            invariant
                i <= es@.len(),
                b.is_fresh() <==> i == 0,
                self@ == start.push('[') + crate::model::elems_chars(es@.subrange(0, i as int)),
            decreases es@.len() - i,
        {
            b.serialize_element(self, &es[i]);
            proof {
                let pre = es@.subrange(0, i + 1);
                assert(pre.drop_last() =~= es@.subrange(0, i as int));
                assert(self@ =~= start.push('[') + crate::model::elems_chars(pre));
            }
            i = i + 1;
        }
        proof {
            assert(es@.subrange(0, es@.len() as int) =~= es@);
        }
        b.end(self);
        proof {
            assert(self@ =~= start + seq!['['] + crate::model::elems_chars(es@) + seq![']']);
        }
    }

    /// The key/value pairs of a map, between the braces.
    fn encode_pairs(&mut self, b: &mut SerializeMap, ps: &Vec<(Value, Value)>)
        requires
            old(b).is_fresh(),
        ensures
            final(self)@ == old(self)@ + crate::model::pairs_chars(ps@),
        decreases ps@, 2nat,
    {
        let mut i: usize = 0;
        while i < ps.len()
            invariant
                i <= ps@.len(),
                b.is_fresh() <==> i == 0,
                self@ == old(self)@ + crate::model::pairs_chars(ps@.subrange(0, i as int)),
            decreases ps@.len() - i,
        {
            proof {
                let pair = ps@[i as int];
                assert(decreases_to!(ps@ => pair));
                assert(decreases_to!(pair => pair.0));
                assert(decreases_to!(pair => pair.1));
            }
            b.serialize_key(self, &ps[i].0);
            b.serialize_value(self, &ps[i].1);
            proof {
                let pre = ps@.subrange(0, i + 1);
                assert(pre.drop_last() =~= ps@.subrange(0, i as int));
                assert(self@ =~= old(self)@ + crate::model::pairs_chars(pre));
            }
            i = i + 1;
        }
        proof {
            assert(ps@.subrange(0, ps@.len() as int) =~= ps@);
        }
    }

    /// The named fields of a record variant, between the inner braces.
    fn encode_variant_fields(&mut self, b: &mut SerializeStructVariant, fs: &Vec<(String, Value)>)
        requires
            old(b).is_fresh(),
        ensures
            final(self)@ == old(self)@ + crate::model::fields_chars(fs@),
        decreases fs@, 2nat,
    {
        let mut i: usize = 0;
        while i < fs.len()
            invariant
                i <= fs@.len(),
                b.is_fresh() <==> i == 0,
                self@ == old(self)@ + crate::model::fields_chars(fs@.subrange(0, i as int)),
            decreases fs@.len() - i,
        {
            proof {
                let field = fs@[i as int];
                assert(decreases_to!(fs@ => field));
                assert(decreases_to!(field => field.1));
            }
            b.serialize_field(self, fs[i].0.as_str(), &fs[i].1);
            proof {
                let pre = fs@.subrange(0, i + 1);
                assert(pre.drop_last() =~= fs@.subrange(0, i as int));
                assert(self@ =~= old(self)@ + crate::model::fields_chars(pre));
            }
            i = i + 1;
        }
        proof {
            assert(fs@.subrange(0, fs@.len() as int) =~= fs@);
        }
    }

    /// The named fields of a record, between the braces.
    fn encode_fields(&mut self, b: &mut SerializeStruct, fs: &Vec<(String, Value)>)
        requires
            old(b).is_fresh(),
        ensures
            final(self)@ == old(self)@ + crate::model::fields_chars(fs@),
        decreases fs@, 2nat,
    {
        let mut i: usize = 0;
        while i < fs.len()
            invariant
                i <= fs@.len(),
                b.is_fresh() <==> i == 0,
                self@ == old(self)@ + crate::model::fields_chars(fs@.subrange(0, i as int)),
            decreases fs@.len() - i,
        {
            proof {
                let field = fs@[i as int];
                assert(decreases_to!(fs@ => field));
                assert(decreases_to!(field => field.1));
            }
            b.serialize_field(self, fs[i].0.as_str(), &fs[i].1);
            proof {
                let pre = fs@.subrange(0, i + 1);
                assert(pre.drop_last() =~= fs@.subrange(0, i as int));
                assert(self@ =~= old(self)@ + crate::model::fields_chars(pre));
            }
            i = i + 1;
        }
        proof {
            assert(fs@.subrange(0, fs@.len() as int) =~= fs@);
        }
    }
}

/// Encodes one value as a complete JSON document: exactly `json_of` the
/// value, with no surrounding whitespace.
pub fn encode(value: &Value) -> (r: String)
    ensures
        r@ == json_of(*value),
{
    let mut serializer = Serializer::new();
    serializer.encode_value(value);
    proof {
        assert(serializer@ =~= json_of(*value));
    }
    serializer.into_string()
}

} // verus!

