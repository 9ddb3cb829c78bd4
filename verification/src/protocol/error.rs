//! The error of a codec operation.

use vstd::prelude::*;

use crate::text::concat;

verus! {

/// Codec operation error (serialization/deserialization).
#[derive(Debug, Clone, PartialEq)]
pub struct ProtocolError {
    pub message: String,
}

impl ProtocolError {
    /// The text the error is shown as.
    pub open spec fn text(self) -> Seq<char> {
        "Codec error: "@ + self.message@
    }

    /// The error shown as text: `Codec error: ` and the message.
    pub fn to_string(&self) -> (res: String)
        ensures
            res@ == self.text(),
    {
        concat("Codec error: ", self.message.as_str())
    }
}

} // verus!
