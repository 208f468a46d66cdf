//! The sequence builder: accumulates the elements of one sequence or tuple,
//! emitting `,` separators and the closing `]`.

use vstd::prelude::*;

use crate::model::json_of;
use crate::model::Value;
use crate::ser::Serializer;

verus! {

/// Builder for a sequence or tuple whose `[` the encoder has already
/// written. Its whole state is whether the first element is still owed a
/// place without a leading separator.
pub struct SerializeSeq {
    first: bool,
}

impl SerializeSeq {
    /// No element has been emitted yet.
    pub closed spec fn is_fresh(&self) -> bool {
        self.first
    }

    /// A builder with no element emitted.
    pub fn new() -> (b: SerializeSeq)
        ensures
            b.is_fresh(),
    {
        SerializeSeq { first: true }
    }

    /// Emits one element: a `,` separator first unless this is the first
    /// element, then the element's text.
    pub fn serialize_element(&mut self, serializer: &mut Serializer, value: &Value)
        ensures
            final(serializer)@ == old(serializer)@ + (if old(self).is_fresh() {
                Seq::<char>::empty()
            } else {
                seq![',']
            }) + json_of(*value),
            !final(self).is_fresh(),
        decreases *value, 1nat,
    {
        if !self.first {
            serializer.char(',');
        }
        self.first = false;
        serializer.encode_value(value);
        proof {
            assert(serializer@ =~= old(serializer)@ + (if old(self).is_fresh() {
                Seq::<char>::empty()
            } else {
                seq![',']
            }) + json_of(*value));
        }
    }

    /// Finalizes the sequence: writes the closing `]`. The builder's only
    /// terminal operation, and the only one after which it accepts no more.
    pub fn end(self, serializer: &mut Serializer)
        ensures
            final(serializer)@ == old(serializer)@.push(']'),
    {
        serializer.char(']');
    }
}

} // verus!
