use crate::error::is_invalid_type;
use crate::error::is_invalid_variant_name;
use crate::error::is_trailing;
use crate::error::is_unsupported_op;
use crate::error::Direction;
use crate::error::Error;
use crate::error::ErrorCode;
use vstd::prelude::*;

verus! {

/// The name decoder.  It wraps exactly one input string, its entire
/// remaining input; a successful name-bearing decode consumes the whole
/// of it at once, so the input is read at most one time per instance.
pub struct Deserializer {
    input: String,
}

impl View for Deserializer {
    type V = Seq<char>;

    closed spec fn view(&self) -> Seq<char> {
        self.input@
    }
}

/// The shape a single enum variant was declared with.  Only a variant
/// declared without payload can be rebuilt from its name; the other three
/// shapes exist to be rejected.
#[derive(Clone, Copy, Debug, PartialEq, Eq, Structural)]
pub enum VariantShape {
    Unit,
    Newtype,
    Tuple,
    Struct,
}

/// One entry of an enum's shape descriptor: a declared variant name and
/// the shape that variant was declared with.
#[derive(Clone, Debug)]
pub struct VariantDef {
    pub name: String,
    pub shape: VariantShape,
}

/// The shape of the first variant in `variants` whose declared name is
/// `name`, if any.
pub open spec fn find_shape(variants: Seq<VariantDef>, name: Seq<char>) -> Option<VariantShape>
    decreases variants.len(),
{
    if variants.len() == 0 {
        None
    } else if variants[0].name@ == name {
        Some(variants[0].shape)
    } else {
        find_shape(variants.drop_first(), name)
    }
}

/// An enum decode accepts `input` exactly when the first variant declared
/// under that name carries no payload.
pub open spec fn accepts_enum(variants: Seq<VariantDef>, input: Seq<char>) -> bool {
    find_shape(variants, input) == Some(VariantShape::Unit)
}

/// A named-unit-type decode accepts `input` exactly when it equals the
/// declared name: case and whitespace are significant and nothing is
/// trimmed.
pub open spec fn accepts_unit_struct(input: Seq<char>, name: Seq<char>) -> bool {
    input == name
}

/// The declared names of `variants`, in declaration order.
pub open spec fn variant_name_views(variants: Seq<VariantDef>) -> Seq<Seq<char>> {
    variants.map_values(|v: VariantDef| v.name@)
}

/// The shape name under which the decoder rejects a payload-bearing
/// variant declaration.
pub open spec fn variant_shape_label(shape: VariantShape) -> Seq<char> {
    match shape {
        VariantShape::Unit => "unit variant"@,
        VariantShape::Newtype => "new type variant"@,
        VariantShape::Tuple => "tuple variant"@,
        VariantShape::Struct => "struct variant"@,
    }
}

/// The rejection every shape outside the decoder's allow-list gets.
fn unsupported(op: &str) -> (r: Error)
    ensures
        is_unsupported_op(r, Direction::Deserialization, op@),
{
    Error::from(ErrorCode::UnsupportedOperation(Direction::Deserialization, op.to_owned()))
}

impl Deserializer {
    /// A fresh single-use decoder over `input`.
    pub fn new(input: &str) -> (r: Deserializer)
        ensures
            r@ == input@,
    {
        Deserializer { input: input.to_owned() }
    }

    /// A copy of the remaining input, without consuming it.
    pub fn remaining(&self) -> (r: String)
        ensures
            r@ == self@,
    {
        self.input.clone()
    }

    /// Whether the input has been consumed; a top-level decode that ends
    /// with input left over must be reported as trailing characters.
    pub fn is_exhausted(&self) -> (r: bool)
        ensures
            r == (self@.len() == 0),
    {
        self.input.as_str().is_empty()
    }

    /// Hand out the entire remaining input as the decoded string and
    /// consume it.  This is the shared primitive under identifier and
    /// variant-name decoding.
    pub fn deserialize_str(&mut self) -> (r: Result<String, Error>)
        ensures
            r matches Ok(s) && s@ == old(self)@,
            final (self)@ == Seq::<char>::empty(),
    {
        let s = self.input.clone();
        self.input = String::new();
        Ok(s)
    }

    /// An owned-string request is served exactly like a borrowed one.
    pub fn deserialize_string(&mut self) -> (r: Result<String, Error>)
        ensures
            r matches Ok(s) && s@ == old(self)@,
            final (self)@ == Seq::<char>::empty(),
    {
        self.deserialize_str()
    }

    /// An identifier request is served exactly like a string request.
    pub fn deserialize_identifier(&mut self) -> (r: Result<String, Error>)
        ensures
            r matches Ok(s) && s@ == old(self)@,
            final (self)@ == Seq::<char>::empty(),
    {
        self.deserialize_str()
    }

    /// The anonymous unit `()` asks for nothing, so it succeeds without
    /// touching the input.
    pub fn deserialize_unit(&self) -> (r: Result<(), Error>)
        ensures
            r matches Ok(()),
    {
        Ok(())
    }

    /// A named unit type is rebuilt exactly when the whole remaining input
    /// equals the declared name; on success the input is consumed, on
    /// mismatch it is left untouched.
    pub fn deserialize_unit_struct(&mut self, name: &str) -> (r: Result<(), Error>)
        ensures
            accepts_unit_struct(old(self)@, name@) ==> (r matches Ok(()) && final (self)@
                == Seq::<char>::empty()),
            !accepts_unit_struct(old(self)@, name@) ==> (r matches Err(e) && is_invalid_type(
                e,
                old(self)@,
                name@,
            )) && *final (self) == *old(self),
    {
        let owned_name = name.to_owned();
        if self.input == owned_name {
            self.input = String::new();
            Ok(())
        } else {
            Err(Error::invalid_type(self.input.as_str(), name))
        }
    }

    /// Read the discriminant of a variant: the whole remaining input is
    /// taken as the name, and reading it consumes the input.
    pub fn variant_seed(&mut self) -> (r: Result<String, Error>)
        ensures
            r matches Ok(s) && s@ == old(self)@,
            final (self)@ == Seq::<char>::empty(),
    {
        self.deserialize_identifier()
    }

    /// Declaring the variant as payload-free succeeds unconditionally:
    /// whatever name was read stands for the whole value.
    pub fn unit_variant(&self) -> (r: Result<(), Error>)
        ensures
            r matches Ok(()),
    {
        Ok(())
    }

    /// A variant declared with one payload value cannot be rebuilt from a
    /// name alone: the payload was never recorded.
    pub fn newtype_variant(&self) -> (r: Result<(), Error>)
        ensures
            r matches Err(e) && is_unsupported_op(
                e,
                Direction::Deserialization,
                "new type variant"@,
            ),
    {
        Err(unsupported("new type variant"))
    }

    /// A variant declared with several unnamed payload values cannot be
    /// rebuilt from a name alone.
    pub fn tuple_variant(&self) -> (r: Result<(), Error>)
        ensures
            r matches Err(e) && is_unsupported_op(e, Direction::Deserialization, "tuple variant"@),
    {
        Err(unsupported("tuple variant"))
    }

    /// A variant declared with named payload fields cannot be rebuilt from
    /// a name alone.
    pub fn struct_variant(&self) -> (r: Result<(), Error>)
        ensures
            r matches Err(e) && is_unsupported_op(
                e,
                Direction::Deserialization,
                "struct variant"@,
            ),
    {
        Err(unsupported("struct variant"))
    }

    /// An optional value routes through the name-probing protocol: the
    /// whole remaining input is read as a name, then the caller declares
    /// the payload shape; only the payload-free declaration succeeds.
    pub fn deserialize_option(&mut self, shape: VariantShape) -> (r: Result<String, Error>)
        ensures
            final (self)@ == Seq::<char>::empty(),
            shape is Unit ==> (r matches Ok(s) && s@ == old(self)@),
            !(shape is Unit) ==> (r matches Err(e) && is_unsupported_op(
                e,
                Direction::Deserialization,
                variant_shape_label(shape),
            )),
    {
        let received = match self.variant_seed() {
            Ok(s) => s,
            Err(e) => {
                return Err(e);
            },
        };
        let probe = match shape {
            VariantShape::Unit => self.unit_variant(),
            VariantShape::Newtype => self.newtype_variant(),
            VariantShape::Tuple => self.tuple_variant(),
            VariantShape::Struct => self.struct_variant(),
        };
        match probe {
            Ok(()) => Ok(received),
            Err(e) => Err(e),
        }
    }

    /// An enum decode reads the whole remaining input as a variant name
    /// and probes it against the declared descriptor.  It succeeds exactly
    /// when the first variant declared under that name carries no payload;
    /// every other outcome — an unknown name, or a name whose declaration
    /// carries payload — is reported as an unrecognized variant name over
    /// the declared candidate list.  The input is consumed either way.
    pub fn deserialize_enum(&mut self, variants: &Vec<VariantDef>) -> (r: Result<String, Error>)
        ensures
            final (self)@ == Seq::<char>::empty(),
            accepts_enum(variants@, old(self)@) ==> (r matches Ok(s) && s@ == old(self)@),
            !accepts_enum(variants@, old(self)@) ==> (r matches Err(e) && is_invalid_variant_name(
                e,
                old(self)@,
                variant_name_views(variants@),
            )),
    {
        let received = match self.variant_seed() {
            Ok(s) => s,
            Err(e) => {
                return Err(e);
            },
        };
        let n: usize = variants.len();
        let mut i: usize = 0;
        proof {
            assert(variants@.skip(0) =~= variants@);
        }
        while i < n
            invariant
                n == variants@.len(),
                i <= n,
                received@ == old(self)@,
                self@ == Seq::<char>::empty(),
                find_shape(variants@, received@) == find_shape(
                    variants@.skip(i as int),
                    received@,
                ),
            decreases n - i,
        {
            proof {
                assert(variants@.skip(i as int)[0] == variants@[i as int]);
            }
            if variants[i].name == received {
                proof {
                    assert(find_shape(variants@.skip(i as int), received@) == Some(
                        variants@[i as int].shape,
                    ));
                }
                match variants[i].shape {
                    VariantShape::Unit => {
                        let ack = self.unit_variant();
                        match ack {
                            Ok(()) => {
                                return Ok(received);
                            },
                            Err(e) => {
                                return Err(e);
                            },
                        }
                    },
                    VariantShape::Newtype => {
                        let _probe = self.newtype_variant();
                    },
                    VariantShape::Tuple => {
                        let _probe = self.tuple_variant();
                    },
                    VariantShape::Struct => {
                        let _probe = self.struct_variant();
                    },
                }
                // The name matched, but its declaration carries payload:
                // the probe above was rejected, and the enum path reports
                // that as an unrecognized variant name.
                let names = variant_names(variants);
                return Err(Error::unknown_variant(received.as_str(), names));
            }
            proof {
                assert(variants@.skip(i as int).drop_first() =~= variants@.skip(i as int + 1));
            }
            i = i + 1;
        }
        proof {
            assert(variants@.skip(n as int) =~= Seq::<VariantDef>::empty());
        }
        let names = variant_names(variants);
        Err(Error::unknown_variant(received.as_str(), names))
    }

    /// Whether the text format is meant for people to read; it is.
    pub fn is_human_readable(&self) -> (r: bool)
        ensures
            r,
    {
        true
    }

    pub fn deserialize_bool(&self) -> (r: Result<(), Error>)
        ensures
            r matches Err(e) && is_unsupported_op(e, Direction::Deserialization, "bool"@),
    {
        Err(unsupported("bool"))
    }

    pub fn deserialize_any(&self) -> (r: Result<(), Error>)
        ensures
            r matches Err(e) && is_unsupported_op(e, Direction::Deserialization, "any"@),
    {
        Err(unsupported("any"))
    }

    pub fn deserialize_i8(&self) -> (r: Result<(), Error>)
        ensures
            r matches Err(e) && is_unsupported_op(e, Direction::Deserialization, "i8"@),
    {
        Err(unsupported("i8"))
    }

    pub fn deserialize_i16(&self) -> (r: Result<(), Error>)
        ensures
            r matches Err(e) && is_unsupported_op(e, Direction::Deserialization, "i16"@),
    {
        Err(unsupported("i16"))
    }

    pub fn deserialize_i32(&self) -> (r: Result<(), Error>)
        ensures
            r matches Err(e) && is_unsupported_op(e, Direction::Deserialization, "i32"@),
    {
        Err(unsupported("i32"))
    }

    pub fn deserialize_i64(&self) -> (r: Result<(), Error>)
        ensures
            r matches Err(e) && is_unsupported_op(e, Direction::Deserialization, "i64"@),
    {
        Err(unsupported("i64"))
    }

    pub fn deserialize_i128(&self) -> (r: Result<(), Error>)
        ensures
            r matches Err(e) && is_unsupported_op(e, Direction::Deserialization, "i128"@),
    {
        Err(unsupported("i128"))
    }

    pub fn deserialize_u8(&self) -> (r: Result<(), Error>)
        ensures
            r matches Err(e) && is_unsupported_op(e, Direction::Deserialization, "u8"@),
    {
        Err(unsupported("u8"))
    }

    pub fn deserialize_u16(&self) -> (r: Result<(), Error>)
        ensures
            r matches Err(e) && is_unsupported_op(e, Direction::Deserialization, "u16"@),
    {
        Err(unsupported("u16"))
    }

    pub fn deserialize_u32(&self) -> (r: Result<(), Error>)
        ensures
            r matches Err(e) && is_unsupported_op(e, Direction::Deserialization, "u32"@),
    {
        Err(unsupported("u32"))
    }

    pub fn deserialize_u64(&self) -> (r: Result<(), Error>)
        ensures
            r matches Err(e) && is_unsupported_op(e, Direction::Deserialization, "u64"@),
    {
        Err(unsupported("u64"))
    }

    pub fn deserialize_u128(&self) -> (r: Result<(), Error>)
        ensures
            r matches Err(e) && is_unsupported_op(e, Direction::Deserialization, "u128"@),
    {
        Err(unsupported("u128"))
    }

    pub fn deserialize_f32(&self) -> (r: Result<(), Error>)
        ensures
            r matches Err(e) && is_unsupported_op(e, Direction::Deserialization, "f32"@),
    {
        Err(unsupported("f32"))
    }

    pub fn deserialize_f64(&self) -> (r: Result<(), Error>)
        ensures
            r matches Err(e) && is_unsupported_op(e, Direction::Deserialization, "f64"@),
    {
        Err(unsupported("f64"))
    }

    pub fn deserialize_char(&self) -> (r: Result<(), Error>)
        ensures
            r matches Err(e) && is_unsupported_op(e, Direction::Deserialization, "char"@),
    {
        Err(unsupported("char"))
    }

    pub fn deserialize_bytes(&self) -> (r: Result<(), Error>)
        ensures
            r matches Err(e) && is_unsupported_op(e, Direction::Deserialization, "bytes"@),
    {
        Err(unsupported("bytes"))
    }

    pub fn deserialize_byte_buf(&self) -> (r: Result<(), Error>)
        ensures
            r matches Err(e) && is_unsupported_op(e, Direction::Deserialization, "byte buf"@),
    {
        Err(unsupported("byte buf"))
    }

    pub fn deserialize_tuple(&self, _len: usize) -> (r: Result<(), Error>)
        ensures
            r matches Err(e) && is_unsupported_op(e, Direction::Deserialization, "tuple"@),
    {
        Err(unsupported("tuple"))
    }

    pub fn deserialize_struct(&self, _name: &str) -> (r: Result<(), Error>)
        ensures
            r matches Err(e) && is_unsupported_op(e, Direction::Deserialization, "struct"@),
    {
        Err(unsupported("struct"))
    }

    pub fn deserialize_tuple_struct(&self, _name: &str, _len: usize) -> (r: Result<(), Error>)
        ensures
            r matches Err(e) && is_unsupported_op(e, Direction::Deserialization, "tuple struct"@),
    {
        Err(unsupported("tuple struct"))
    }

    pub fn deserialize_map(&self) -> (r: Result<(), Error>)
        ensures
            r matches Err(e) && is_unsupported_op(e, Direction::Deserialization, "map"@),
    {
        Err(unsupported("map"))
    }

    pub fn deserialize_seq(&self) -> (r: Result<(), Error>)
        ensures
            r matches Err(e) && is_unsupported_op(e, Direction::Deserialization, "seq"@),
    {
        Err(unsupported("seq"))
    }

    pub fn deserialize_ignored_any(&self) -> (r: Result<(), Error>)
        ensures
            r matches Err(e) && is_unsupported_op(e, Direction::Deserialization, "any"@),
    {
        Err(unsupported("any"))
    }

    pub fn deserialize_newtype_struct(&self, _name: &str) -> (r: Result<(), Error>)
        ensures
            r matches Err(e) && is_unsupported_op(
                e,
                Direction::Deserialization,
                "new type struct"@,
            ),
    {
        Err(unsupported("new type struct"))
    }
}

/// The declared names of `variants`, as owned strings, for the candidate
/// list carried by an unrecognized-variant-name error.
fn variant_names(variants: &Vec<VariantDef>) -> (r: Vec<String>)
    ensures
        r.deep_view() == variant_name_views(variants@),
{
    let n: usize = variants.len();
    let mut names: Vec<String> = Vec::new();
    let mut i: usize = 0;
    while i < n
        invariant
            n == variants@.len(),
            i <= n,
            names@.len() == i,
            forall|j: int| 0 <= j < i as int ==> names@[j]@ == variants@[j].name@,
        decreases n - i,
    {
        names.push(variants[i].name.clone());
        i = i + 1;
    }
    proof {
        assert forall|j: int| 0 <= j < variants@.len() implies names.deep_view()[j]
            == variant_name_views(variants@)[j] by {
            assert(names.deep_view()[j] == names@[j]@);
            assert(variant_name_views(variants@)[j] == variants@[j].name@);
        }
        assert(names.deep_view() =~= variant_name_views(variants@));
    }
    names
}

/// Decode a named unit type from `input`: the whole input must equal the
/// declared `name`.  A successful decode consumes everything at once, so
/// the boundary's trailing-characters check can never fire on this path.
pub fn decode_unit_struct(input: &str, name: &str) -> (r: Result<(), Error>)
    ensures
        accepts_unit_struct(input@, name@) ==> r matches Ok(()),
        !accepts_unit_struct(input@, name@) ==> (r matches Err(e) && is_invalid_type(
            e,
            input@,
            name@,
        )),
{
    let mut de = Deserializer::new(input);
    match de.deserialize_unit_struct(name) {
        Ok(()) => {
            if de.is_exhausted() {
                Ok(())
            } else {
                Err(Error::from(ErrorCode::TrailingCharacters))
            }
        },
        Err(e) => Err(e),
    }
}

/// Decode the anonymous unit `()` from `input`.  The decode itself
/// consumes nothing, so any input at all is left over and the boundary
/// reports it as trailing characters.
pub fn decode_unit(input: &str) -> (r: Result<(), Error>)
    ensures
        input@.len() == 0 ==> r matches Ok(()),
        input@.len() != 0 ==> (r matches Err(e) && is_trailing(e)),
{
    let de = Deserializer::new(input);
    match de.deserialize_unit() {
        Ok(()) => {
            if de.is_exhausted() {
                Ok(())
            } else {
                Err(Error::from(ErrorCode::TrailingCharacters))
            }
        },
        Err(e) => Err(e),
    }
}

/// Decode a string request from `input`: the whole input is the value and
/// is consumed.
pub fn decode_str(input: &str) -> (r: Result<String, Error>)
    ensures
        r matches Ok(s) && s@ == input@,
{
    let mut de = Deserializer::new(input);
    match de.deserialize_str() {
        Ok(s) => {
            if de.is_exhausted() {
                Ok(s)
            } else {
                Err(Error::from(ErrorCode::TrailingCharacters))
            }
        },
        Err(e) => Err(e),
    }
}

/// Decode an optional value from `input`, with `shape` the payload shape
/// the caller declares for it.
pub fn decode_option(input: &str, shape: VariantShape) -> (r: Result<String, Error>)
    ensures
        shape is Unit ==> (r matches Ok(s) && s@ == input@),
        !(shape is Unit) ==> (r matches Err(e) && is_unsupported_op(
            e,
            Direction::Deserialization,
            variant_shape_label(shape),
        )),
{
    let mut de = Deserializer::new(input);
    match de.deserialize_option(shape) {
        Ok(s) => {
            if de.is_exhausted() {
                Ok(s)
            } else {
                Err(Error::from(ErrorCode::TrailingCharacters))
            }
        },
        Err(e) => Err(e),
    }
}

/// Decode an enum from `input` against its shape descriptor `variants`.
pub fn decode_enum(input: &str, variants: &Vec<VariantDef>) -> (r: Result<String, Error>)
    ensures
        accepts_enum(variants@, input@) ==> (r matches Ok(s) && s@ == input@),
        !accepts_enum(variants@, input@) ==> (r matches Err(e) && is_invalid_variant_name(
            e,
            input@,
            variant_name_views(variants@),
        )),
{
    let mut de = Deserializer::new(input);
    match de.deserialize_enum(variants) {
        Ok(s) => {
            if de.is_exhausted() {
                Ok(s)
            } else {
                Err(Error::from(ErrorCode::TrailingCharacters))
            }
        },
        Err(e) => Err(e),
    }
}

/// Round trip for named unit types: the encoder emits exactly the declared
/// name, and the decoder accepts exactly the declared name, so encoding a
/// named unit type and decoding the result always succeeds — and the
/// rebuilt value encodes to the same name again.
pub proof fn lemma_unit_struct_round_trip(name: Seq<char>)
    ensures
        accepts_unit_struct(name, name),
{
}

/// Round trip for payload-free enum variants: the encoder emits the
/// variant's declared name, and a descriptor that declares that name
/// payload-free accepts it, yielding the same name, which encodes to
/// itself again.
pub proof fn lemma_unit_variant_round_trip(variants: Seq<VariantDef>, name: Seq<char>)
    requires
        find_shape(variants, name) == Some(VariantShape::Unit),
    ensures
        accepts_enum(variants, name),
{
}

/// Exact-match law: the unit-type decoder accepts nothing but the declared
/// name itself — case and whitespace are significant and no normalization
/// occurs.
pub proof fn lemma_unit_struct_exact_match(input: Seq<char>, name: Seq<char>)
    requires
        input != name,
    ensures
        !accepts_unit_struct(input, name),
{
}

/// Payload-discarding law: a variant declared with payload is never
/// decodable, even from an input that exactly equals its declared name.
pub proof fn lemma_payload_variant_never_decodes(variants: Seq<VariantDef>, input: Seq<char>)
    requires
        find_shape(variants, input) is Some,
        find_shape(variants, input) != Some(VariantShape::Unit),
    ensures
        !accepts_enum(variants, input),
{
}

} // verus!
