use pyo3::types::PyDict;
use pyo3::{PyObject, Python};
use pythonize::ser::pythonize;
use pythonize::value::Value;
use serde::ser::{
    Serialize, SerializeMap, SerializeSeq, SerializeStruct, SerializeStructVariant,
    SerializeTuple, SerializeTupleStruct, SerializeTupleVariant, Serializer,
};

/// The same value, described to serde: what an independent serializer makes
/// of it is the reference.
struct Reference<'a>(&'a Value);

impl<'a> Serialize for Reference<'a> {
    fn serialize<S: Serializer>(&self, serializer: S) -> Result<S::Ok, S::Error> {
        match self.0 {
            Value::Bool(v) => serializer.serialize_bool(*v),
            Value::I8(v) => serializer.serialize_i8(*v),
            Value::I16(v) => serializer.serialize_i16(*v),
            Value::I32(v) => serializer.serialize_i32(*v),
            Value::I64(v) => serializer.serialize_i64(*v),
            Value::U8(v) => serializer.serialize_u8(*v),
            Value::U16(v) => serializer.serialize_u16(*v),
            Value::U32(v) => serializer.serialize_u32(*v),
            Value::U64(v) => serializer.serialize_u64(*v),
            Value::Char(v) => serializer.serialize_char(*v),
            Value::Str(v) => serializer.serialize_str(v),
            Value::Bytes(v) => serializer.serialize_bytes(v),
            Value::OptionNone => serializer.serialize_none(),
            Value::OptionSome(inner) => serializer.serialize_some(&Reference(inner)),
            Value::Unit => serializer.serialize_unit(),
            Value::UnitStruct { name } => serializer.serialize_unit_struct(name),
            Value::UnitVariant { name, variant_index, variant } => {
                serializer.serialize_unit_variant(name, *variant_index, variant)
            }
            Value::NewtypeStruct { name, value } => {
                serializer.serialize_newtype_struct(name, &Reference(value))
            }
            Value::NewtypeVariant { name, variant_index, variant, value } => serializer
                .serialize_newtype_variant(name, *variant_index, variant, &Reference(value)),
            Value::Sequence(items) => {
                let mut seq = serializer.serialize_seq(Some(items.len()))?;
                for item in items {
                    seq.serialize_element(&Reference(item))?;
                }
                seq.end()
            }
            Value::Tuple(items) => {
                let mut tuple = serializer.serialize_tuple(items.len())?;
                for item in items {
                    tuple.serialize_element(&Reference(item))?;
                }
                tuple.end()
            }
            Value::TupleStruct { name, fields } => {
                let mut tuple = serializer.serialize_tuple_struct(name, fields.len())?;
                for field in fields {
                    tuple.serialize_field(&Reference(field))?;
                }
                tuple.end()
            }
            Value::TupleVariant { name, variant_index, variant, fields } => {
                let mut tuple = serializer.serialize_tuple_variant(
                    name,
                    *variant_index,
                    variant,
                    fields.len(),
                )?;
                for field in fields {
                    tuple.serialize_field(&Reference(field))?;
                }
                tuple.end()
            }
            Value::Mapping(entries) => {
                let mut map = serializer.serialize_map(Some(entries.len()))?;
                for (key, value) in entries {
                    map.serialize_key(&Reference(key))?;
                    map.serialize_value(&Reference(value))?;
                }
                map.end()
            }
            Value::Struct { name, fields } => {
                let mut st = serializer.serialize_struct(name, fields.len())?;
                for (key, value) in fields {
                    st.serialize_field(key, &Reference(value))?;
                }
                st.end()
            }
            Value::StructVariant { name, variant_index, variant, fields } => {
                let mut st = serializer.serialize_struct_variant(
                    name,
                    *variant_index,
                    variant,
                    fields.len(),
                )?;
                for (key, value) in fields {
                    st.serialize_field(key, &Reference(value))?;
                }
                st.end()
            }
        }
    }
}

/// `json.dumps(obj, separators=(',', ':'))`.
fn dumps(py: Python<'_>, obj: PyObject) -> String {
    let locals = PyDict::new(py);
    locals.set_item("obj", obj).unwrap();
    py.run(
        "import json; result = json.dumps(obj, separators=(',', ':'))",
        None,
        Some(locals),
    )
    .unwrap();
    locals.get_item("result").unwrap().extract::<String>().unwrap()
}

fn test_ser(src: Value, expected: &str) {
    pyo3::prepare_freethreaded_python();
    Python::with_gil(|py| {
        let obj = pythonize(py, &src).unwrap();
        let result = dumps(py, obj);

        assert_eq!(result, expected);
        assert_eq!(serde_json::to_string(&Reference(&src)).unwrap(), expected);
    });
}

#[test]
fn test_empty_struct() {
    test_ser(Value::UnitStruct { name: "Empty" }, "null");
}

#[test]
fn test_struct() {
    test_ser(
        Value::Struct {
            name: "Struct",
            fields: vec![("foo", Value::Str("foo".to_string())), ("bar", Value::U64(5))],
        },
        r#"{"foo":"foo","bar":5}"#,
    );
}

#[test]
fn test_tuple_struct() {
    test_ser(
        Value::TupleStruct {
            name: "TupleStruct",
            fields: vec![Value::Str("foo".to_string()), Value::U64(5)],
        },
        r#"["foo",5]"#,
    );
}

#[test]
fn test_tuple() {
    test_ser(
        Value::Tuple(vec![Value::Str("foo".to_string()), Value::I32(5)]),
        r#"["foo",5]"#,
    );
}

#[test]
fn test_vec() {
    test_ser(
        Value::Sequence(vec![Value::I32(1), Value::I32(2), Value::I32(3)]),
        r#"[1,2,3]"#,
    );
}

#[test]
fn test_map() {
    test_ser(
        Value::Mapping(vec![(Value::Str("foo".to_string()), Value::Str("foo".to_string()))]),
        r#"{"foo":"foo"}"#,
    );
}

#[test]
fn test_enum_unit_variant() {
    test_ser(
        Value::UnitVariant { name: "E", variant_index: 0, variant: "Empty" },
        r#""Empty""#,
    );
}

#[test]
fn test_enum_tuple_variant() {
    test_ser(
        Value::TupleVariant {
            name: "E",
            variant_index: 0,
            variant: "Tuple",
            fields: vec![Value::I32(5), Value::Str("foo".to_string())],
        },
        r#"{"Tuple":[5,"foo"]}"#,
    );
}

#[test]
fn test_enum_newtype_variant() {
    test_ser(
        Value::NewtypeVariant {
            name: "E",
            variant_index: 0,
            variant: "NewType",
            value: Box::new(Value::Str("foo".to_string())),
        },
        r#"{"NewType":"foo"}"#,
    );
}

#[test]
fn test_enum_struct_variant() {
    test_ser(
        Value::StructVariant {
            name: "E",
            variant_index: 0,
            variant: "Struct",
            fields: vec![("foo", Value::Str("foo".to_string())), ("bar", Value::U64(5))],
        },
        r#"{"Struct":{"foo":"foo","bar":5}}"#,
    );
}

#[test]
fn primitives_render_as_the_reference_serializer_does() {
    let values = vec![
        Value::Bool(true),
        Value::Bool(false),
        Value::I8(i8::MIN),
        Value::I8(-1),
        Value::I8(i8::MAX),
        Value::I16(i16::MIN),
        Value::I16(i16::MAX),
        Value::I32(i32::MIN),
        Value::I32(0),
        Value::I32(i32::MAX),
        Value::I64(i64::MIN),
        Value::I64(i64::MAX),
        Value::U8(0),
        Value::U8(u8::MAX),
        Value::U16(u16::MAX),
        Value::U32(u32::MAX),
        Value::U64(u64::MAX),
        Value::Char('c'),
        Value::Char('"'),
        Value::Char('\\'),
        Value::Char('\n'),
        Value::Char('\u{e9}'),
        Value::Str(String::new()),
        Value::Str("plain".to_string()),
        Value::Str("quote \" backslash \\ tab \t newline \n".to_string()),
        Value::Str("control \u{1} \u{1f} \u{7f}".to_string()),
        Value::Str("gr\u{fc}\u{df}e \u{4e16}\u{754c} \u{1F600}".to_string()),
        Value::OptionNone,
        Value::Unit,
        Value::UnitStruct { name: "U" },
        Value::UnitVariant { name: "E", variant_index: 2, variant: "Third" },
    ];
    pyo3::prepare_freethreaded_python();
    Python::with_gil(|py| {
        for value in &values {
            let obj = pythonize(py, value).unwrap();
            let locals = PyDict::new(py);
            locals.set_item("obj", obj).unwrap();
            py.run(
                "import json; result = json.dumps(obj, separators=(',', ':'), ensure_ascii=False)",
                None,
                Some(locals),
            )
            .unwrap();
            let result = locals.get_item("result").unwrap().extract::<String>().unwrap();
            assert_eq!(result, serde_json::to_string(&Reference(value)).unwrap());
        }
    });
}

#[test]
fn compound_values_render_as_the_reference_serializer_does() {
    let values = vec![
        Value::OptionSome(Box::new(Value::I16(-7))),
        Value::NewtypeStruct { name: "N", value: Box::new(Value::Str("inner".to_string())) },
        Value::Sequence(vec![
            Value::Tuple(vec![Value::U8(1), Value::Bool(false)]),
            Value::Sequence(vec![]),
            Value::OptionNone,
        ]),
        Value::Mapping(vec![
            (Value::Str("b".to_string()), Value::U8(1)),
            (Value::Str("a".to_string()), Value::Sequence(vec![Value::Unit])),
        ]),
        Value::Struct {
            name: "S",
            fields: vec![
                ("first", Value::TupleStruct { name: "T", fields: vec![Value::I64(-1)] }),
                (
                    "second",
                    Value::StructVariant {
                        name: "E",
                        variant_index: 1,
                        variant: "V",
                        fields: vec![("x", Value::U32(1)), ("y", Value::U32(2))],
                    },
                ),
            ],
        },
    ];
    for value in values {
        let expected = serde_json::to_string(&Reference(&value)).unwrap();
        test_ser(value, &expected);
    }
}
