use crate::error::is_unsupported_op;
use crate::error::Direction;
use crate::error::Error;
use crate::error::ErrorCode;
use vstd::prelude::*;

verus! {

/// The name encoder.  It holds no state: for every structural shape it
/// either returns the declared symbolic name or rejects the shape as
/// unsupported.  Payload values are never inspected, so the handlers for
/// value-carrying shapes take no payload argument.
pub struct Serializer {}

/// The rejection every non-name-bearing shape gets: the shape named `op`
/// is outside the encoder's allow-list.
fn unsupported(op: &str) -> (r: Error)
    ensures
        is_unsupported_op(r, Direction::Serialization, op@),
{
    Error::from(ErrorCode::UnsupportedOperation(Direction::Serialization, op.to_owned()))
}

impl Serializer {
    pub fn serialize_bool(&self) -> (r: Result<String, Error>)
        ensures
            r matches Err(e) && is_unsupported_op(e, Direction::Serialization, "bool"@),
    {
        Err(unsupported("bool"))
    }

    pub fn serialize_i8(&self) -> (r: Result<String, Error>)
        ensures
            r matches Err(e) && is_unsupported_op(e, Direction::Serialization, "i8"@),
    {
        Err(unsupported("i8"))
    }

    pub fn serialize_i16(&self) -> (r: Result<String, Error>)
        ensures
            r matches Err(e) && is_unsupported_op(e, Direction::Serialization, "i16"@),
    {
        Err(unsupported("i16"))
    }

    pub fn serialize_i32(&self) -> (r: Result<String, Error>)
        ensures
            r matches Err(e) && is_unsupported_op(e, Direction::Serialization, "i32"@),
    {
        Err(unsupported("i32"))
    }

    pub fn serialize_i64(&self) -> (r: Result<String, Error>)
        ensures
            r matches Err(e) && is_unsupported_op(e, Direction::Serialization, "i64"@),
    {
        Err(unsupported("i64"))
    }

    pub fn serialize_u8(&self) -> (r: Result<String, Error>)
        ensures
            r matches Err(e) && is_unsupported_op(e, Direction::Serialization, "u8"@),
    {
        Err(unsupported("u8"))
    }

    pub fn serialize_u16(&self) -> (r: Result<String, Error>)
        ensures
            r matches Err(e) && is_unsupported_op(e, Direction::Serialization, "u16"@),
    {
        Err(unsupported("u16"))
    }

    pub fn serialize_u32(&self) -> (r: Result<String, Error>)
        ensures
            r matches Err(e) && is_unsupported_op(e, Direction::Serialization, "u32"@),
    {
        Err(unsupported("u32"))
    }

    pub fn serialize_u64(&self) -> (r: Result<String, Error>)
        ensures
            r matches Err(e) && is_unsupported_op(e, Direction::Serialization, "u64"@),
    {
        Err(unsupported("u64"))
    }

    pub fn serialize_f32(&self) -> (r: Result<String, Error>)
        ensures
            r matches Err(e) && is_unsupported_op(e, Direction::Serialization, "f32"@),
    {
        Err(unsupported("f32"))
    }

    pub fn serialize_f64(&self) -> (r: Result<String, Error>)
        ensures
            r matches Err(e) && is_unsupported_op(e, Direction::Serialization, "f64"@),
    {
        Err(unsupported("f64"))
    }

    pub fn serialize_char(&self) -> (r: Result<String, Error>)
        ensures
            r matches Err(e) && is_unsupported_op(e, Direction::Serialization, "char"@),
    {
        Err(unsupported("char"))
    }

    pub fn serialize_str(&self) -> (r: Result<String, Error>)
        ensures
            r matches Err(e) && is_unsupported_op(e, Direction::Serialization, "str"@),
    {
        Err(unsupported("str"))
    }

    pub fn serialize_bytes(&self) -> (r: Result<String, Error>)
        ensures
            r matches Err(e) && is_unsupported_op(e, Direction::Serialization, "bytes"@),
    {
        Err(unsupported("bytes"))
    }

    /// An absent optional carries no name to return, so it is rejected;
    /// a present optional is unwrapped by the traversal and re-enters the
    /// encoder on the wrapped value.
    pub fn serialize_none(&self) -> (r: Result<String, Error>)
        ensures
            r matches Err(e) && is_unsupported_op(e, Direction::Serialization, "none"@),
    {
        Err(unsupported("none"))
    }

    /// The anonymous unit `()` bears no name, unlike a named unit type.
    pub fn serialize_unit(&self) -> (r: Result<String, Error>)
        ensures
            r matches Err(e) && is_unsupported_op(e, Direction::Serialization, "unit"@),
    {
        Err(unsupported("unit"))
    }

    /// A named unit type encodes to its declared name; this always succeeds.
    pub fn serialize_unit_struct(&self, name: &str) -> (r: Result<String, Error>)
        ensures
            r matches Ok(s) && s@ == name@,
    {
        Ok(name.to_owned())
    }

    /// A unit enum variant encodes to the variant's declared name; the
    /// enclosing type's name and the variant index are ignored.
    pub fn serialize_unit_variant(&self, _name: &str, _variant_index: u32, variant: &str) -> (r:
        Result<String, Error>)
        ensures
            r matches Ok(s) && s@ == variant@,
    {
        Ok(variant.to_owned())
    }

    /// A newtype struct encodes to its declared name; the wrapped payload
    /// is never visited.
    pub fn serialize_newtype_struct(&self, name: &str) -> (r: Result<String, Error>)
        ensures
            r matches Ok(s) && s@ == name@,
    {
        Ok(name.to_owned())
    }

    /// A newtype enum variant encodes to the variant's declared name; the
    /// payload is never visited.
    pub fn serialize_newtype_variant(&self, _name: &str, _variant_index: u32, variant: &str) -> (r:
        Result<String, Error>)
        ensures
            r matches Ok(s) && s@ == variant@,
    {
        Ok(variant.to_owned())
    }

    pub fn serialize_seq(&self, _len: Option<usize>) -> (r: Result<String, Error>)
        ensures
            r matches Err(e) && is_unsupported_op(e, Direction::Serialization, "seq"@),
    {
        Err(unsupported("seq"))
    }

    pub fn serialize_tuple(&self, _len: usize) -> (r: Result<String, Error>)
        ensures
            r matches Err(e) && is_unsupported_op(e, Direction::Serialization, "tuple"@),
    {
        Err(unsupported("tuple"))
    }

    pub fn serialize_tuple_struct(&self, _name: &str, _len: usize) -> (r: Result<String, Error>)
        ensures
            r matches Err(e) && is_unsupported_op(e, Direction::Serialization, "tuple struct"@),
    {
        Err(unsupported("tuple struct"))
    }

    /// A tuple enum variant begins a field-by-field visit: the returned
    /// serializer acknowledges and ignores each field, and on completion
    /// yields the variant's declared name.
    pub fn serialize_tuple_variant(
        &self,
        _name: &str,
        _variant_index: u32,
        variant: &str,
        _len: usize,
    ) -> (r: Result<TupleVariantSerializer, Error>)
        ensures
            r matches Ok(s) && s@ == variant@,
    {
        Ok(TupleVariantSerializer { variant: variant.to_owned() })
    }

    pub fn serialize_map(&self, _len: Option<usize>) -> (r: Result<String, Error>)
        ensures
            r matches Err(e) && is_unsupported_op(e, Direction::Serialization, "map"@),
    {
        Err(unsupported("map"))
    }

    pub fn serialize_struct(&self, _name: &str, _len: usize) -> (r: Result<String, Error>)
        ensures
            r matches Err(e) && is_unsupported_op(e, Direction::Serialization, "struct"@),
    {
        Err(unsupported("struct"))
    }

    /// A struct enum variant is handled like a tuple variant: fields are
    /// acknowledged and ignored, and completion yields the declared name.
    pub fn serialize_struct_variant(
        &self,
        _name: &str,
        _variant_index: u32,
        variant: &str,
        _len: usize,
    ) -> (r: Result<StructVariantSerializer, Error>)
        ensures
            r matches Ok(s) && s@ == variant@,
    {
        Ok(StructVariantSerializer { variant: variant.to_owned() })
    }

    pub fn collect_str(&self) -> (r: Result<String, Error>)
        ensures
            r matches Err(e) && is_unsupported_op(e, Direction::Serialization, "collect str"@),
    {
        Err(unsupported("collect str"))
    }
}

/// The field-visit half of encoding a tuple enum variant: it remembers the
/// variant's declared name, ignores every field, and hands the name back
/// at the end.
pub struct TupleVariantSerializer {
    variant: String,
}

impl View for TupleVariantSerializer {
    type V = Seq<char>;

    closed spec fn view(&self) -> Seq<char> {
        self.variant@
    }
}

impl TupleVariantSerializer {
    /// A field visit is acknowledged and ignored; the stored name is kept.
    pub fn serialize_field(&mut self) -> (r: Result<(), Error>)
        ensures
            r matches Ok(()) && *final (self) == *old(self),
    {
        Ok(())
    }

    /// Finish the visit: the result is the variant's declared name,
    /// whatever fields were seen.
    pub fn end(self) -> (r: Result<String, Error>)
        ensures
            r matches Ok(s) && s@ == self@,
    {
        Ok(self.variant)
    }
}

/// The field-visit half of encoding a struct enum variant: field names and
/// values are both ignored; completion yields the declared name.
pub struct StructVariantSerializer {
    variant: String,
}

impl View for StructVariantSerializer {
    type V = Seq<char>;

    closed spec fn view(&self) -> Seq<char> {
        self.variant@
    }
}

impl StructVariantSerializer {
    /// A named field visit is acknowledged and ignored; the stored name is
    /// kept.
    pub fn serialize_field(&mut self, _key: &str) -> (r: Result<(), Error>)
        ensures
            r matches Ok(()) && *final (self) == *old(self),
    {
        Ok(())
    }

    /// Finish the visit: the result is the variant's declared name,
    /// whatever fields were seen.
    pub fn end(self) -> (r: Result<String, Error>)
        ensures
            r matches Ok(s) && s@ == self@,
    {
        Ok(self.variant)
    }
}

} // verus!
