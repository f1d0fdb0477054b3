use variant_name::Direction;
use variant_name::ErrorCode;
use variant_name::Serializer;
use variant_name::UnsupportedType;

#[test]
fn unit_variant_names() {
    // enum Foo { Var1, Var2 } with Var2 renamed to "VAR2".
    let s = Serializer {};
    assert_eq!(s.serialize_unit_variant("Foo", 0, "Var1").unwrap(), "Var1");
    assert_eq!(s.serialize_unit_variant("Foo", 1, "VAR2").unwrap(), "VAR2");
}

#[test]
fn newtype_variant_names() {
    // enum Foo { Var1(()), Var2(u32) } with Var2 renamed to "VAR2"; the
    // payloads ((), 42) are discarded before the handler is reached.
    let s = Serializer {};
    assert_eq!(s.serialize_newtype_variant("Foo", 0, "Var1").unwrap(), "Var1");
    assert_eq!(s.serialize_newtype_variant("Foo", 1, "VAR2").unwrap(), "VAR2");
}

#[test]
fn tuple_variant_names() {
    // enum Foo { BAz((), u64), Var((), (), ()) } with Var renamed to "VAR";
    // the payloads ((), 1337) and ((), (), ()) are acknowledged field by
    // field and ignored.
    let s = Serializer {};
    let mut tv = s.serialize_tuple_variant("Foo", 0, "BAz", 2).unwrap();
    tv.serialize_field().unwrap();
    tv.serialize_field().unwrap();
    assert_eq!(tv.end().unwrap(), "BAz");
    let mut tv = s.serialize_tuple_variant("Foo", 1, "VAR", 3).unwrap();
    tv.serialize_field().unwrap();
    tv.serialize_field().unwrap();
    tv.serialize_field().unwrap();
    assert_eq!(tv.end().unwrap(), "VAR");
}

#[test]
fn newtype_struct() {
    // struct Bar(u64); the payload 42 is discarded.
    let s = Serializer {};
    assert_eq!(s.serialize_newtype_struct("Bar").unwrap(), "Bar");
}

#[test]
fn struct_variant_names() {
    // enum Foo { Baz { i: i32 }, Var { i: i32 } } with Var renamed to "VAR".
    let s = Serializer {};
    let mut sv = s.serialize_struct_variant("Foo", 0, "Baz", 1).unwrap();
    sv.serialize_field("i").unwrap();
    assert_eq!(sv.end().unwrap(), "Baz");
    let mut sv = s.serialize_struct_variant("Foo", 1, "VAR", 1).unwrap();
    sv.serialize_field("i").unwrap();
    assert_eq!(sv.end().unwrap(), "VAR");
}

fn assert_rejected(r: Result<String, variant_name::Error>, shape: &str) {
    match r {
        Ok(name) => panic!("shape {} must be rejected, got {}", shape, name),
        Err(e) => assert_eq!(
            e.code,
            ErrorCode::UnsupportedOperation(Direction::Serialization, shape.to_string())
        ),
    }
}

#[test]
fn non_name_bearing_shapes_are_rejected() {
    let s = Serializer {};
    assert_rejected(s.serialize_bool(), "bool");
    assert_rejected(s.serialize_i8(), "i8");
    assert_rejected(s.serialize_i16(), "i16");
    assert_rejected(s.serialize_i32(), "i32");
    assert_rejected(s.serialize_i64(), "i64");
    assert_rejected(s.serialize_u8(), "u8");
    assert_rejected(s.serialize_u16(), "u16");
    assert_rejected(s.serialize_u32(), "u32");
    assert_rejected(s.serialize_u64(), "u64");
    assert_rejected(s.serialize_f32(), "f32");
    assert_rejected(s.serialize_f64(), "f64");
    assert_rejected(s.serialize_char(), "char");
    assert_rejected(s.serialize_str(), "str");
    assert_rejected(s.serialize_bytes(), "bytes");
    assert_rejected(s.serialize_none(), "none");
    assert_rejected(s.serialize_unit(), "unit");
    assert_rejected(s.collect_str(), "collect str");
    assert_rejected(s.serialize_seq(None), "seq");
    assert_rejected(s.serialize_seq(Some(3)), "seq");
    assert_rejected(s.serialize_tuple(2), "tuple");
    assert_rejected(s.serialize_tuple_struct("Foo", 2), "tuple struct");
    assert_rejected(s.serialize_map(None), "map");
    assert_rejected(s.serialize_struct("Foo", 2), "struct");
}

#[test]
fn unit_struct_names() {
    // struct Foo; encodes to its declared name.
    let s = Serializer {};
    assert_eq!(s.serialize_unit_struct("Foo").unwrap(), "Foo");
}

#[test]
fn unsupported_type_message() {
    let e = UnsupportedType::custom("serialize_bool");
    assert_eq!(e.message(), "serialize_bool is not supported");
}
