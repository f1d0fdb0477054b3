//! A name-only codec: an encoder that reduces a tagged value's shape to its
//! declared symbolic name, and a decoder that rebuilds a zero-payload value
//! from that name alone.  Payload data is discarded on encode and is
//! unreconstructable on decode.  The generic structural traversal that feeds
//! shapes to these handlers lives outside this crate; the crate itself holds
//! one handler per shape, each with a proven contract.

mod de;
mod error;
mod ser;

pub use de::accepts_enum;
pub use de::accepts_unit_struct;
pub use de::decode_enum;
pub use de::decode_option;
pub use de::decode_str;
pub use de::decode_unit;
pub use de::decode_unit_struct;
pub use de::find_shape;
pub use de::lemma_payload_variant_never_decodes;
pub use de::lemma_unit_struct_exact_match;
pub use de::lemma_unit_struct_round_trip;
pub use de::lemma_unit_variant_round_trip;
pub use de::variant_name_views;
pub use de::variant_shape_label;
pub use de::Deserializer;
pub use de::VariantDef;
pub use de::VariantShape;
pub use error::direction_label;
pub use error::error_code_message;
pub use error::is_invalid_type;
pub use error::is_invalid_variant_name;
pub use error::is_message;
pub use error::is_trailing;
pub use error::is_unsupported_op;
pub use error::quoted_list;
pub use error::Direction;
pub use error::Error;
pub use error::ErrorCode;
pub use ser::Serializer;
pub use ser::StructVariantSerializer;
pub use ser::TupleVariantSerializer;

use vstd::prelude::*;
use vstd::string::StringExecFns;

verus! {

/// An error emitted when attempting to perform an unsupported operation;
/// it records the name of the rejected method.
#[derive(Clone, Debug, PartialEq, Eq)]
pub struct UnsupportedType {
    method: String,
}

impl View for UnsupportedType {
    type V = Seq<char>;

    closed spec fn view(&self) -> Seq<char> {
        self.method@
    }
}

impl UnsupportedType {
    /// Record `method` as the operation that is not supported.
    pub fn custom(method: &str) -> (r: UnsupportedType)
        ensures
            r@ == method@,
    {
        UnsupportedType { method: method.to_owned() }
    }

    /// Render the error as the message a caller would report.
    pub fn message(&self) -> (r: String)
        ensures
            r@ == self@ + " is not supported"@,
    {
        let mut s = self.method.clone();
        s.append(" is not supported");
        s
    }
}

} // verus!
