//! The map builder: accumulates key/value pairs, emitting `:` and `,`
//! separators and the closing `}`.

use vstd::prelude::*;

use crate::model::json_of;
use crate::model::Value;
use crate::ser::Serializer;

verus! {

/// Builder for a map whose `{` the encoder has already written. Its whole
/// state is whether the first key is still owed a place without a leading
/// separator. Callers must alternate key and value calls; the builder does
/// not validate alternation.
pub struct SerializeMap {
    first: bool,
}

impl SerializeMap {
    /// No key has been emitted yet.
    pub closed spec fn is_fresh(&self) -> bool {
        self.first
    }

    /// A builder with no pair emitted.
    pub fn new() -> (b: SerializeMap)
        ensures
            b.is_fresh(),
    {
        SerializeMap { first: true }
    }

    /// Emits one key: a `,` separator first unless this is the first pair,
    /// then the key's text, then `:`.
    pub fn serialize_key(&mut self, serializer: &mut Serializer, key: &Value)
        ensures
            final(serializer)@ == old(serializer)@ + (if old(self).is_fresh() {
                Seq::<char>::empty()
            } else {
                seq![',']
            }) + json_of(*key) + seq![':'],
            !final(self).is_fresh(),
        decreases *key, 1nat,
    {
        if !self.first {
            serializer.char(',');
        }
        self.first = false;
        serializer.encode_value(key);
        serializer.char(':');
        proof {
            assert(serializer@ =~= old(serializer)@ + (if old(self).is_fresh() {
                Seq::<char>::empty()
            } else {
                seq![',']
            }) + json_of(*key) + seq![':']);
        }
    }

    /// Emits one value, immediately after its key.
    pub fn serialize_value(&mut self, serializer: &mut Serializer, value: &Value)
        ensures
            final(serializer)@ == old(serializer)@ + json_of(*value),
            final(self).is_fresh() == old(self).is_fresh(),
        decreases *value, 1nat,
    {
        serializer.encode_value(value);
    }

    /// Finalizes the map: writes the closing `}`. The builder's only
    /// terminal operation, and the only one after which it accepts no more.
    pub fn end(self, serializer: &mut Serializer)
        ensures
            final(serializer)@ == old(serializer)@.push('}'),
    {
        serializer.char('}');
    }
}

} // verus!
