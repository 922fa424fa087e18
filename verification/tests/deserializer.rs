use rosu_pp_js::deserializer::{
    convert_pair, decode_mapping, decode_sequence, JsDeserializer, Visit, UNSIGNED_CONSTRAINT,
};
use rosu_pp_js::error::{DecodeError, Description};
use rosu_pp_js::number::Number;
use rosu_pp_js::util::{str_eq, FieldVisitor};
use rosu_pp_js::value::{lookup_entry, Entry, Value};

fn num(value: f64) -> Value {
    Value::Number(Number::from_bits(value.to_bits()))
}

fn invalid(expected: Description, found: Description) -> DecodeError {
    DecodeError::InvalidType { expected, found }
}

#[test]
fn unsigned_from_five_point_zero() {
    let value = num(5.0);
    assert_eq!(JsDeserializer::from_ref(&value).deserialize_u32("n300"), Ok(5));
    assert_eq!(JsDeserializer::from_ref(&value).deserialize_u8("mode"), Ok(5));
    assert_eq!(JsDeserializer::from_ref(&value).decode_unsigned(3, "x"), Ok(5));
}

#[test]
fn unsigned_from_a_fraction_fails() {
    let value = num(5.5);
    assert_eq!(
        JsDeserializer::from_ref(&value).deserialize_u32("n300"),
        Err(invalid(Description::SafeInteger, Description::Float))
    );
}

#[test]
fn unsigned_beyond_the_safe_range_fails() {
    let value = num(9007199254740992.0);
    assert_eq!(
        JsDeserializer::from_ref(&value).decode_unsigned(64, "n300"),
        Err(invalid(Description::SafeInteger, Description::Float))
    );
}

#[test]
fn unsigned_from_a_negative_integer_fails() {
    let value = num(-1.0);
    assert_eq!(
        JsDeserializer::from_ref(&value).deserialize_u32("n300"),
        Err(invalid(Description::SafeInteger, Description::Float))
    );
}

#[test]
fn unsigned_out_of_the_field_width() {
    let out = DecodeError::OutOfRange { field: "combo", constraint: UNSIGNED_CONSTRAINT };
    assert_eq!(JsDeserializer::from_owned(num(256.0)).deserialize_u8("combo"), Err(out.clone()));
    assert_eq!(JsDeserializer::from_owned(num(255.0)).deserialize_u8("combo"), Ok(255));
    assert_eq!(
        JsDeserializer::from_owned(num(4294967296.0)).deserialize_u32("combo"),
        Err(out.clone())
    );
    assert_eq!(
        JsDeserializer::from_owned(num(4294967295.0)).deserialize_u32("combo"),
        Ok(u32::MAX)
    );
    assert_eq!(JsDeserializer::from_owned(num(8.0)).decode_unsigned(3, "combo"), Err(out));
    assert_eq!(
        JsDeserializer::from_owned(num(9007199254740991.0)).decode_unsigned(53, "combo"),
        Ok(9007199254740991)
    );
    assert_eq!(
        JsDeserializer::from_owned(num(9007199254740991.0)).decode_unsigned(200, "combo"),
        Ok(9007199254740991)
    );
}

#[test]
fn unsigned_from_a_string_names_both_shapes() {
    let value = Value::string("lots");
    let error = JsDeserializer::from_ref(&value).deserialize_u32("n300").unwrap_err();
    assert_eq!(error, invalid(Description::SafeInteger, Description::Str));
    assert_eq!(error.message(), "expected a safe integer, found a string");
}

#[test]
fn booleans_decode_to_themselves() {
    assert_eq!(JsDeserializer::from_owned(Value::Bool(true)).deserialize_bool(), Ok(true));
    assert_eq!(JsDeserializer::from_owned(Value::Bool(false)).deserialize_bool(), Ok(false));
    assert_eq!(
        JsDeserializer::from_owned(num(1.0)).deserialize_bool(),
        Err(invalid(Description::Bool, Description::Float))
    );
    assert_eq!(
        JsDeserializer::from_owned(Value::Null).deserialize_bool(),
        Err(invalid(Description::Bool, Description::Unit))
    );
}

#[test]
fn floats_accept_every_number() {
    for value in [9.5f64, -0.0, f64::INFINITY, f64::NEG_INFINITY, 1e-320] {
        let decoded = JsDeserializer::from_owned(num(value)).deserialize_f64().unwrap();
        assert_eq!(decoded.to_bits(), value.to_bits());
        let narrow = JsDeserializer::from_owned(num(value)).deserialize_f32().unwrap();
        assert_eq!(narrow.to_bits(), value.to_bits());
    }
    let nan = JsDeserializer::from_owned(num(f64::NAN)).deserialize_f64().unwrap();
    assert!(f64::from_bits(nan.to_bits()).is_nan());
    assert_eq!(
        JsDeserializer::from_owned(Value::string("9.5")).deserialize_f64(),
        Err(invalid(Description::Float, Description::Str))
    );
}

#[test]
fn strings_decode_to_their_text() {
    let value = Value::string("héllo");
    let d = JsDeserializer::from_ref(&value);
    assert_eq!(d.deserialize_str(), Ok("héllo"));
    assert_eq!(d.deserialize_string(), Ok("héllo".to_string()));
    assert_eq!(d.deserialize_identifier(), Ok("héllo"));
    assert_eq!(
        JsDeserializer::from_owned(Value::Bytes(vec![1])).deserialize_string(),
        Err(invalid(Description::Str, Description::Bytes))
    );
}

#[test]
fn text_and_bytes_give_identical_bytes() {
    let text = JsDeserializer::from_owned(Value::string("abc")).decode_bytes();
    let bytes = JsDeserializer::from_owned(Value::Bytes(vec![0x61, 0x62, 0x63])).decode_bytes();
    assert_eq!(text, Ok(vec![0x61, 0x62, 0x63]));
    assert_eq!(text, bytes);
    let wide = JsDeserializer::from_owned(Value::string("é€")).decode_bytes();
    assert_eq!(wide, Ok(vec![0xc3, 0xa9, 0xe2, 0x82, 0xac]));
}

#[test]
fn bytes_are_taken_as_they_are() {
    let raw = vec![0xff, 0x00, 0x80];
    assert_eq!(JsDeserializer::from_owned(Value::Bytes(raw.clone())).decode_bytes(), Ok(raw.clone()));
    assert_eq!(
        JsDeserializer::from_owned(Value::Bytes(raw.clone())).deserialize_byte_buf(),
        Ok(raw.clone())
    );
    assert_eq!(JsDeserializer::from_owned(Value::Bytes(raw.clone())).as_bytes(), Some(raw));
    assert_eq!(
        JsDeserializer::from_owned(Value::string("abc")).deserialize_byte_buf(),
        Err(invalid(Description::Bytes, Description::Str))
    );
    assert_eq!(
        JsDeserializer::from_owned(num(1.0)).decode_bytes(),
        Err(invalid(Description::BytesOrString, Description::Float))
    );
}

#[test]
fn option_tells_no_value_from_a_value() {
    assert_eq!(JsDeserializer::from_owned(Value::Null).deserialize_option(), None);
    assert_eq!(JsDeserializer::from_owned(Value::Undefined).deserialize_option(), None);
    let zero = num(0.0);
    assert_eq!(JsDeserializer::from_ref(&zero).deserialize_option(), Some(&zero));
    let no = Value::Bool(false);
    assert_eq!(JsDeserializer::from_ref(&no).deserialize_option(), Some(&no));
    assert!(JsDeserializer::from_owned(Value::Null).is_nullish());
    assert!(!JsDeserializer::from_owned(Value::Other).is_nullish());
}

#[test]
fn probes_answer_without_failing() {
    let object = Value::object(vec![]);
    assert!(object.is_keyed_object());
    assert!(!object.is_iterable());
    assert!(!object.is_array_like());
    assert_eq!(object.as_bool(), None);
    assert_eq!(object.as_float(), None);
    assert_eq!(object.as_safe_integer(), None);
    assert_eq!(object.as_utf8_string(), None);
    assert_eq!(object.as_byte_sequence(), None);
    assert_eq!(object.shape(), Description::Other);
    let array = Value::Array(vec![]);
    assert!(array.is_array_like() && array.is_iterable() && !array.is_keyed_object());
    let buffer = Value::Bytes(vec![1]);
    assert!(buffer.is_iterable() && !buffer.is_array_like() && !buffer.is_keyed_object());
    let iterable = Value::Iterable(vec![]);
    assert!(!iterable.is_array_like() && iterable.is_iterable());
    assert_eq!(num(3.0).as_safe_integer(), Some(3));
    assert_eq!(num(3.5).as_safe_integer(), None);
    assert_eq!(num(3.5).as_float(), Some(Number::from_bits(3.5f64.to_bits())));
    assert_eq!(Value::Bool(true).as_bool(), Some(true));
    assert_eq!(Value::string("a").as_utf8_string(), Some("a"));
    assert_eq!(Value::string("a").as_byte_sequence(), Some(vec![0x61]));
    assert_eq!(Value::Undefined.shape(), Description::Unit);
    assert_eq!(Value::Null.shape(), Description::Unit);
    assert_eq!(Value::Bool(true).shape(), Description::Bool);
    assert_eq!(num(1.0).shape(), Description::Float);
    assert_eq!(Value::string("").shape(), Description::Str);
    assert_eq!(Value::Bytes(vec![]).shape(), Description::Bytes);
    assert_eq!(Value::Other.shape(), Description::Other);
}

#[test]
fn sequences_keep_iteration_order() {
    let items = vec![num(1.0), num(2.0), num(3.0)];
    let array = Value::Array(items.clone());
    let deserializer = JsDeserializer::from_ref(&array);
    let elements = deserializer.deserialize_seq().unwrap();
    assert_eq!(elements.iter().map(|element| element.value()).collect::<Vec<_>>(), [
        &items[0], &items[1], &items[2]
    ]);
    let iterable = Value::Iterable(items.clone());
    let deserializer = JsDeserializer::from_ref(&iterable);
    let elements = deserializer.deserialize_seq().unwrap();
    assert_eq!(elements.iter().map(|element| element.value()).collect::<Vec<_>>(), [
        &items[0], &items[1], &items[2]
    ]);
    let decoded = decode_sequence(&array, |v: &Value| JsDeserializer::from_ref(v).deserialize_u32("x"));
    assert_eq!(decoded, Ok(vec![1, 2, 3]));
    assert_eq!(
        JsDeserializer::from_owned(Value::object(vec![])).deserialize_seq().err(),
        Some(invalid(Description::Sequence, Description::Other))
    );
    assert_eq!(
        decode_sequence(&Value::string("abc"), |v: &Value| JsDeserializer::from_ref(v)
            .deserialize_bool()),
        Err(invalid(Description::Sequence, Description::Str))
    );
}

#[test]
fn a_byte_buffer_iterates_over_the_numbers_of_its_bytes() {
    let buffer = Value::Bytes(vec![0, 7, 255]);
    let decoded = decode_sequence(&buffer, |v: &Value| JsDeserializer::from_ref(v).deserialize_u32("x"));
    assert_eq!(decoded, Ok(vec![0, 7, 255]));
    let deserializer = JsDeserializer::from_ref(&buffer);
    let elements = deserializer.deserialize_seq().unwrap();
    assert_eq!(elements.len(), 3);
    assert_eq!(elements[2].value(), &num(255.0));
    assert_eq!(
        decode_sequence(&buffer, |v: &Value| JsDeserializer::from_ref(v).deserialize_bool()),
        Err(invalid(Description::Bool, Description::Float))
    );
    assert_eq!(JsDeserializer::from_ref(&buffer).deserialize_byte_buf(), Ok(vec![0, 7, 255]));
    let empty = Value::Bytes(vec![]);
    assert_eq!(JsDeserializer::from_ref(&empty).deserialize_map().map(|pairs| pairs.len()), Ok(0));
    assert_eq!(
        JsDeserializer::from_ref(&buffer).deserialize_map().err(),
        Some(invalid(Description::Pair, Description::Float))
    );
}

#[test]
fn a_sequence_fails_on_its_first_failing_element() {
    let array = Value::Array(vec![num(1.0), Value::string("two"), Value::Bool(true)]);
    let decoded = decode_sequence(&array, |v: &Value| JsDeserializer::from_ref(v).deserialize_u32("x"));
    assert_eq!(decoded, Err(invalid(Description::SafeInteger, Description::Str)));
    let empty = decode_sequence(&Value::Array(vec![]), |v: &Value| JsDeserializer::from_ref(v)
        .deserialize_bool());
    assert_eq!(empty, Ok(vec![]));
}

#[test]
fn objects_and_pairs_decode_as_the_same_mapping() {
    let object = Value::object(vec![Entry::new("a", num(1.0)), Entry::new("b", num(2.0))]);
    let pairs = Value::Iterable(vec![
        Value::Array(vec![Value::string("a"), num(1.0)]),
        Value::Array(vec![Value::string("b"), num(2.0)]),
    ]);
    let key = |v: &Value| JsDeserializer::from_ref(v).deserialize_string();
    let value = |v: &Value| JsDeserializer::from_ref(v).deserialize_u32("x");
    let expected = vec![("a".to_string(), 1), ("b".to_string(), 2)];
    assert_eq!(decode_mapping(&object, key, value), Ok(expected.clone()));
    assert_eq!(decode_mapping(&pairs, key, value), Ok(expected));
    assert_eq!(
        decode_mapping(&num(1.0), key, value),
        Err(invalid(Description::Mapping, Description::Float))
    );
}

#[test]
fn a_mapping_fails_on_what_is_no_pair() {
    let pairs = Value::Array(vec![Value::Array(vec![Value::string("a"), num(1.0)]), num(7.0)]);
    let key = |v: &Value| JsDeserializer::from_ref(v).deserialize_string();
    let value = |v: &Value| JsDeserializer::from_ref(v).deserialize_u32("x");
    assert_eq!(
        decode_mapping(&pairs, key, value),
        Err(invalid(Description::Pair, Description::Float))
    );
    let bad_value = Value::Array(vec![Value::Array(vec![Value::string("a"), Value::Null])]);
    assert_eq!(
        decode_mapping(&bad_value, key, value),
        Err(invalid(Description::SafeInteger, Description::Unit))
    );
}

#[test]
fn a_short_pair_is_filled_with_undefined() {
    let one = Value::Array(vec![Value::string("k")]);
    let (key, value) = convert_pair(&one).unwrap();
    assert_eq!(key.value(), &Value::string("k"));
    assert_eq!(value.value(), &Value::Undefined);
    let none = Value::Array(vec![]);
    let (key, value) = convert_pair(&none).unwrap();
    assert_eq!(key.value(), &Value::Undefined);
    assert_eq!(value.value(), &Value::Undefined);
    assert!(convert_pair(&Value::Null).is_err());
}

#[test]
fn mapping_pairs_come_in_enumeration_order() {
    let object = Value::object(vec![Entry::new("z", num(1.0)), Entry::new("a", Value::Null)]);
    let d = JsDeserializer::from_ref(&object);
    let pairs = d.deserialize_map().unwrap();
    assert_eq!(pairs.len(), 2);
    assert_eq!(pairs[0].0.value(), &Value::string("z"));
    assert_eq!(pairs[0].1.value(), &num(1.0));
    assert_eq!(pairs[1].0.value(), &Value::string("a"));
    assert_eq!(pairs[1].1.value(), &Value::Null);
}

#[test]
fn a_struct_is_accepted_by_its_name_alone() {
    let entries = vec![Entry::new("x", num(1.0))];
    let plain = Value::object(entries.clone());
    assert_eq!(JsDeserializer::from_ref(&plain).deserialize_struct("Object"), Ok(&entries));
    assert_eq!(
        JsDeserializer::from_ref(&plain).deserialize_struct("Beatmap"),
        Err(DecodeError::InvalidNominalType {
            expected_name: "Beatmap",
            found_name: "Object".to_string()
        })
    );
    assert_eq!(
        JsDeserializer::from_owned(Value::Array(vec![])).deserialize_struct("Object"),
        Err(invalid(Description::Object, Description::Other))
    );
    assert_eq!(JsDeserializer::from_ref(&plain).as_object_entries(), Some(&entries));
    assert_eq!(JsDeserializer::from_owned(Value::Null).as_object_entries(), None);
}

#[test]
fn any_visits_by_shape() {
    assert!(matches!(
        JsDeserializer::from_owned(Value::string("s")).deserialize_any(Description::Mods),
        Ok(Visit::Str("s"))
    ));
    assert!(matches!(
        JsDeserializer::from_owned(Value::Bool(true)).deserialize_any(Description::Mods),
        Ok(Visit::Bool(true))
    ));
    assert!(matches!(
        JsDeserializer::from_owned(num(8.0)).deserialize_any(Description::Mods),
        Ok(Visit::I64(8))
    ));
    assert!(matches!(
        JsDeserializer::from_owned(num(8.5)).deserialize_any(Description::Mods),
        Ok(Visit::F64(_))
    ));
    assert!(matches!(
        JsDeserializer::from_owned(Value::Bytes(vec![1])).deserialize_any(Description::Mods),
        Ok(Visit::ByteBuf(_))
    ));
    assert!(matches!(
        JsDeserializer::from_owned(Value::Array(vec![])).deserialize_any(Description::Mods),
        Ok(Visit::Sequence(_))
    ));
    assert!(matches!(
        JsDeserializer::from_owned(Value::object(vec![])).deserialize_any(Description::Mods),
        Ok(Visit::Mapping(_))
    ));
    assert!(matches!(
        JsDeserializer::from_owned(Value::Undefined).deserialize_any(Description::Mods),
        Err(DecodeError::InvalidType { expected: Description::Mods, found: Description::Unit })
    ));
}

#[test]
fn lookup_finds_the_last_entry_of_a_key() {
    let entries = vec![
        Entry::new("a", num(1.0)),
        Entry::new("b", Value::Undefined),
        Entry::new("a", num(2.0)),
    ];
    assert_eq!(lookup_entry(&entries, "a"), Some(&num(2.0)));
    assert_eq!(lookup_entry(&entries, "b"), Some(&Value::Undefined));
    assert_eq!(lookup_entry(&entries, "c"), None);
    assert_eq!(lookup_entry(&entries, "A"), None);
}

#[test]
fn clones_are_equal_trees() {
    let value = Value::object(vec![
        Entry::new("list", Value::Array(vec![num(1.0), Value::string("x"), Value::Null])),
        Entry::new("inner", Value::instance("Beatmap", vec![Entry::new("k", Value::Bytes(vec![9]))])),
    ]);
    assert_eq!(value.clone(), value);
}

#[test]
fn str_eq_compares_text() {
    assert!(str_eq("ar", "ar"));
    assert!(!str_eq("ar", "cs"));
    assert!(!str_eq("ar", "arWithMods"));
    assert!(str_eq("", ""));
    assert!(!str_eq("é", "e"));
}

#[test]
fn field_visitor_accepts_its_key_only() {
    let visitor = FieldVisitor::new("difficulty");
    assert_eq!(visitor.expecting(), "difficulty");
    assert_eq!(visitor.visit_str("difficulty"), Ok(()));
    assert_eq!(
        visitor.visit_str("other"),
        Err(DecodeError::MissingRequiredField { name: "difficulty" })
    );
}

#[test]
fn messages_have_the_documented_shape() {
    assert_eq!(
        invalid(Description::BytesOrString, Description::Unit).message(),
        "expected a Uint8Array or a string, found unit"
    );
    assert_eq!(
        DecodeError::MissingRequiredField { name: "stars" }.message(),
        "missing required field `stars`"
    );
    assert_eq!(
        DecodeError::InvalidNominalType { expected_name: "Beatmap", found_name: "Map".to_string() }
            .message(),
        "expected an object named `Beatmap`, found `Map`"
    );
    assert_eq!(
        DecodeError::OutOfRange { field: "combo", constraint: UNSIGNED_CONSTRAINT }.message(),
        "field `combo` out of range: expected an unsigned integer that fits the field"
    );
    assert_eq!(Description::SafeInteger.describe(), "a safe integer");
}
