//! The record builders: accumulate named fields, emitting `"name":`
//! prefixes, `,` separators, and the closing punctuation — one `}` for a
//! record, `}}` for a record variant nested inside its tag wrapper.

use vstd::prelude::*;

use crate::model::field_name_chars;
use crate::model::json_of;
use crate::model::Value;
use crate::ser::Serializer;

verus! {

/// Builder for a record whose `{` the encoder has already written. Its
/// whole state is whether the first field is still owed a place without a
/// leading separator.
pub struct SerializeStruct {
    first: bool,
}

impl SerializeStruct {
    /// No field has been emitted yet.
    pub closed spec fn is_fresh(&self) -> bool {
        self.first
    }

    /// A builder with no field emitted.
    pub fn new() -> (b: SerializeStruct)
        ensures
            b.is_fresh(),
    {
        SerializeStruct { first: true }
    }

    /// Emits one field: a `,` separator first unless this is the first
    /// field, then `"<key>":` and the field's value. A field holding an
    /// absent optional is still emitted, with a `null` value; fields are
    /// never skipped on value content.
    pub fn serialize_field(&mut self, serializer: &mut Serializer, key: &str, value: &Value)
        ensures
            final(serializer)@ == old(serializer)@ + (if old(self).is_fresh() {
                Seq::<char>::empty()
            } else {
                seq![',']
            }) + field_name_chars(key@) + json_of(*value),
            !final(self).is_fresh(),
        decreases *value, 1nat,
    {
        if !self.first {
            serializer.char(',');
        }
        self.first = false;
        serializer.char('"');
        serializer.str(key);
        serializer.char('"');
        serializer.char(':');
        serializer.encode_value(value);
        proof {
            assert(serializer@ =~= old(serializer)@ + (if old(self).is_fresh() {
                Seq::<char>::empty()
            } else {
                seq![',']
            }) + field_name_chars(key@) + json_of(*value));
        }
    }

    /// Finalizes the record: writes the closing `}`. The builder's only
    /// terminal operation, and the only one after which it accepts no more.
    pub fn end(self, serializer: &mut Serializer)
        ensures
            final(serializer)@ == old(serializer)@.push('}'),
    {
        serializer.char('}');
    }
}

/// Builder for a record variant: the encoder has already written the
/// `{"<tag>":{` wrapper; the field contract is that of `SerializeStruct`,
/// and finalizing closes both braces.
pub struct SerializeStructVariant {
    first: bool,
}

impl SerializeStructVariant {
    /// No field has been emitted yet.
    pub closed spec fn is_fresh(&self) -> bool {
        self.first
    }

    /// A builder with no field emitted.
    pub fn new() -> (b: SerializeStructVariant)
        ensures
            b.is_fresh(),
    {
        SerializeStructVariant { first: true }
    }

    /// Emits one field, exactly as a record field.
    pub fn serialize_field(&mut self, serializer: &mut Serializer, key: &str, value: &Value)
        ensures
            final(serializer)@ == old(serializer)@ + (if old(self).is_fresh() {
                Seq::<char>::empty()
            } else {
                seq![',']
            }) + field_name_chars(key@) + json_of(*value),
            !final(self).is_fresh(),
        decreases *value, 1nat,
    {
        if !self.first {
            serializer.char(',');
        }
        self.first = false;
        serializer.char('"');
        serializer.str(key);
        serializer.char('"');
        serializer.char(':');
        serializer.encode_value(value);
        proof {
            assert(serializer@ =~= old(serializer)@ + (if old(self).is_fresh() {
                Seq::<char>::empty()
            } else {
                seq![',']
            }) + field_name_chars(key@) + json_of(*value));
        }
    }

    /// Finalizes the record variant: writes `}}`, closing the record and the
    /// tag wrapper opened with it. The builder's only terminal operation,
    /// and the only one after which it accepts no more.
    pub fn end(self, serializer: &mut Serializer)
        ensures
            final(serializer)@ == old(serializer)@ + seq!['}', '}'],
    {
        serializer.char('}');
        serializer.char('}');
        proof {
            assert(serializer@ =~= old(serializer)@ + seq!['}', '}']);
        }
    }
}

} // verus!
