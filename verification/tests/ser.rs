use resp_ser::{to_string, Serializer, Value};

#[test]
fn test_serialize_bool() {
    assert_eq!(to_string(&Value::Bool(true)).unwrap(), "$4\r\ntrue\r\n");
    assert_eq!(to_string(&Value::Bool(false)).unwrap(), "$5\r\nfalse\r\n");
}

#[test]
fn test_serialize_i8() {
    assert_eq!(to_string(&Value::I8(-100)).unwrap(), "$4\r\n-100\r\n");
    assert_eq!(to_string(&Value::I8(100)).unwrap(), "$3\r\n100\r\n");
}

#[test]
fn test_serialize_i16() {
    assert_eq!(to_string(&Value::I8(-100)).unwrap(), "$4\r\n-100\r\n");
    assert_eq!(to_string(&Value::I8(100)).unwrap(), "$3\r\n100\r\n");
}

#[test]
fn test_serialize_i32() {
    assert_eq!(to_string(&Value::I8(-100)).unwrap(), "$4\r\n-100\r\n");
    assert_eq!(to_string(&Value::I8(100)).unwrap(), "$3\r\n100\r\n");
}

#[test]
fn test_serialize_i64() {
    assert_eq!(to_string(&Value::I8(-100)).unwrap(), "$4\r\n-100\r\n");
    assert_eq!(to_string(&Value::I8(100)).unwrap(), "$3\r\n100\r\n");
}

#[test]
fn test_serialize_u8() {
    assert_eq!(to_string(&Value::U8(100)).unwrap(), "$3\r\n100\r\n");
}

#[test]
fn test_serialize_u16() {
    assert_eq!(to_string(&Value::U16(100)).unwrap(), "$3\r\n100\r\n");
}

#[test]
fn test_serialize_u32() {
    assert_eq!(to_string(&Value::U32(100)).unwrap(), "$3\r\n100\r\n");
}

#[test]
fn test_serialize_u64() {
    assert_eq!(to_string(&Value::U64(100)).unwrap(), "$3\r\n100\r\n");
}

#[test]
fn test_serialize_char() {
    assert_eq!(to_string(&Value::Char('a')).unwrap(), "$1\r\na\r\n");
}

#[test]
fn test_serialize_str() {
    assert_eq!(to_string(&Value::Str(String::from(""))).unwrap(), "$0\r\n\r\n");
    assert_eq!(
        to_string(&Value::Str(String::from("foobar"))).unwrap(),
        "$6\r\nfoobar\r\n"
    );
}

#[test]
fn test_serialize_seq() {
    // bool
    assert_eq!(to_string(&Value::List(Vec::new())).unwrap(), "*0\r\n");
    assert_eq!(
        to_string(&Value::List(vec![Value::Bool(true), Value::Bool(false)])).unwrap(),
        "*2\r\n$4\r\ntrue\r\n$5\r\nfalse\r\n"
    );

    // signed int
    assert_eq!(
        to_string(&Value::List(vec![Value::I8(1), Value::I8(2)])).unwrap(),
        "*2\r\n$1\r\n1\r\n$1\r\n2\r\n"
    );
    assert_eq!(
        to_string(&Value::List(vec![Value::I16(1), Value::I16(2)])).unwrap(),
        "*2\r\n$1\r\n1\r\n$1\r\n2\r\n"
    );
    assert_eq!(
        to_string(&Value::List(vec![Value::I32(1), Value::I32(2)])).unwrap(),
        "*2\r\n$1\r\n1\r\n$1\r\n2\r\n"
    );
    assert_eq!(
        to_string(&Value::List(vec![Value::I64(1), Value::I64(2)])).unwrap(),
        "*2\r\n$1\r\n1\r\n$1\r\n2\r\n"
    );

    // unsigned int
    assert_eq!(
        to_string(&Value::List(vec![Value::U8(1), Value::U8(2)])).unwrap(),
        "*2\r\n$1\r\n1\r\n$1\r\n2\r\n"
    );
    assert_eq!(
        to_string(&Value::List(vec![Value::U16(1), Value::U16(2)])).unwrap(),
        "*2\r\n$1\r\n1\r\n$1\r\n2\r\n"
    );
    assert_eq!(
        to_string(&Value::List(vec![Value::U32(1), Value::U32(2)])).unwrap(),
        "*2\r\n$1\r\n1\r\n$1\r\n2\r\n"
    );
    assert_eq!(
        to_string(&Value::List(vec![Value::U64(1), Value::U64(2)])).unwrap(),
        "*2\r\n$1\r\n1\r\n$1\r\n2\r\n"
    );

    // char
    assert_eq!(
        to_string(&Value::List(vec![Value::Char('a'), Value::Char('b')])).unwrap(),
        "*2\r\n$1\r\na\r\n$1\r\nb\r\n"
    );

    // nested lists
    assert_eq!(
        to_string(&Value::List(vec![
            Value::List(vec![Value::Char('a')]),
            Value::List(vec![Value::Char('b'), Value::Char('c')]),
        ]))
        .unwrap(),
        "*2\r\n*1\r\n$1\r\na\r\n*2\r\n$1\r\nb\r\n$1\r\nc\r\n"
    );
}

#[test]
fn test_serialize_tuple() {
    assert_eq!(
        to_string(&Value::Tuple(vec![
            Value::Str(String::from("mykey")),
            Value::I32(10),
        ]))
        .unwrap(),
        "*2\r\n$5\r\nmykey\r\n$2\r\n10\r\n"
    );
    assert_eq!(
        to_string(&Value::Tuple(vec![
            Value::Str(String::from("mykey")),
            Value::List(vec![Value::Char('a'), Value::Char('b')]),
        ]))
        .unwrap(),
        "*2\r\n$5\r\nmykey\r\n*2\r\n$1\r\na\r\n$1\r\nb\r\n"
    );
    assert_eq!(
        to_string(&Value::Tuple(vec![
            Value::Str(String::from("mykey")),
            Value::Tuple(vec![Value::I32(10), Value::Char('a')]),
        ]))
        .unwrap(),
        "*2\r\n$5\r\nmykey\r\n*2\r\n$2\r\n10\r\n$1\r\na\r\n"
    );
}

#[test]
fn test_serialize_tuple_struct() {
    assert_eq!(
        to_string(&Value::TupleStruct(
            String::from("Tuple"),
            vec![Value::Str(String::from("mykey")), Value::I32(10)],
        ))
        .unwrap(),
        "*2\r\n$5\r\nmykey\r\n$2\r\n10\r\n"
    );
    assert_eq!(
        to_string(&Value::TupleStruct(
            String::from("Tuple"),
            vec![
                Value::Str(String::from("mykey")),
                Value::List(vec![Value::Char('a'), Value::Char('b')]),
            ],
        ))
        .unwrap(),
        "*2\r\n$5\r\nmykey\r\n*2\r\n$1\r\na\r\n$1\r\nb\r\n"
    );
    assert_eq!(
        to_string(&Value::TupleStruct(
            String::from("Tuple"),
            vec![
                Value::Str(String::from("mykey")),
                Value::Tuple(vec![Value::I32(10), Value::Char('a')]),
            ],
        ))
        .unwrap(),
        "*2\r\n$5\r\nmykey\r\n*2\r\n$2\r\n10\r\n$1\r\na\r\n"
    );
}

#[test]
fn test_serialize_num_types() {
    let ser = Serializer::new();
    assert_eq!(ser.serialize_num_types(100i8 as i128), "$3\r\n100\r\n");
    assert_eq!(ser.serialize_num_types(100i16 as i128), "$3\r\n100\r\n");
    assert_eq!(ser.serialize_num_types(100i32 as i128), "$3\r\n100\r\n");
    assert_eq!(ser.serialize_num_types(100i64 as i128), "$3\r\n100\r\n");

    assert_eq!(ser.serialize_num_types(100u8 as i128), "$3\r\n100\r\n");
    assert_eq!(ser.serialize_num_types(100u16 as i128), "$3\r\n100\r\n");
    assert_eq!(ser.serialize_num_types(100u32 as i128), "$3\r\n100\r\n");
    assert_eq!(ser.serialize_num_types(100u64 as i128), "$3\r\n100\r\n");
}

#[test]
fn test_serialize_null() {
    let ser = Serializer::new();
    assert_eq!(ser.serialize_null(), "$-1\r\n");
}

#[test]
fn test_serialize_unit() {
    assert_eq!(to_string(&Value::Unit).unwrap(), "$-1\r\n");
}

#[test]
fn test_serialize_none() {
    assert_eq!(to_string(&Value::Optional(None)).unwrap(), "$-1\r\n");
}

#[test]
fn test_serialize_some() {
    assert_eq!(
        to_string(&Value::Optional(Some(Box::new(Value::Bool(true))))).unwrap(),
        "$4\r\ntrue\r\n"
    );

    assert_eq!(
        to_string(&Value::Optional(Some(Box::new(Value::I8(-1))))).unwrap(),
        "$2\r\n-1\r\n"
    );
    assert_eq!(
        to_string(&Value::Optional(Some(Box::new(Value::I16(-1))))).unwrap(),
        "$2\r\n-1\r\n"
    );
    assert_eq!(
        to_string(&Value::Optional(Some(Box::new(Value::I32(-100))))).unwrap(),
        "$4\r\n-100\r\n"
    );
    assert_eq!(
        to_string(&Value::Optional(Some(Box::new(Value::I64(-100))))).unwrap(),
        "$4\r\n-100\r\n"
    );

    assert_eq!(
        to_string(&Value::Optional(Some(Box::new(Value::U8(1))))).unwrap(),
        "$1\r\n1\r\n"
    );
    assert_eq!(
        to_string(&Value::Optional(Some(Box::new(Value::U16(1))))).unwrap(),
        "$1\r\n1\r\n"
    );
    assert_eq!(
        to_string(&Value::Optional(Some(Box::new(Value::U32(100))))).unwrap(),
        "$3\r\n100\r\n"
    );
    assert_eq!(
        to_string(&Value::Optional(Some(Box::new(Value::U64(100))))).unwrap(),
        "$3\r\n100\r\n"
    );

    assert_eq!(
        to_string(&Value::Optional(Some(Box::new(Value::Char('a'))))).unwrap(),
        "$1\r\na\r\n"
    );

    assert_eq!(
        to_string(&Value::Optional(Some(Box::new(Value::Str(String::from(
            "foobar"
        ))))))
        .unwrap(),
        "$6\r\nfoobar\r\n"
    );

    assert_eq!(
        to_string(&Value::Optional(Some(Box::new(Value::List(vec![
            Value::List(vec![Value::Char('a')]),
            Value::List(vec![Value::Char('b'), Value::Char('c')]),
        ])))))
        .unwrap(),
        "*2\r\n*1\r\n$1\r\na\r\n*2\r\n$1\r\nb\r\n$1\r\nc\r\n"
    );

    assert_eq!(
        to_string(&Value::Optional(Some(Box::new(Value::Tuple(vec![
            Value::Str(String::from("mykey")),
            Value::Tuple(vec![Value::I32(10), Value::Char('a')]),
        ])))))
        .unwrap(),
        "*2\r\n$5\r\nmykey\r\n*2\r\n$2\r\n10\r\n$1\r\na\r\n"
    );

    assert_eq!(
        to_string(&Value::Optional(Some(Box::new(Value::TupleStruct(
            String::from("Tuple"),
            vec![
                Value::Str(String::from("mykey")),
                Value::Tuple(vec![Value::I32(10), Value::Char('a')]),
            ],
        )))))
        .unwrap(),
        "*2\r\n$5\r\nmykey\r\n*2\r\n$2\r\n10\r\n$1\r\na\r\n"
    );
}
