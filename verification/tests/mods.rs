use rosu_pp_js::deserializer::{JsDeserializer, UNSIGNED_CONSTRAINT};
use rosu_pp_js::error::{DecodeError, Description};
use rosu_pp_js::mods::{GameMod, JsGameMods, ModObject};
use rosu_pp_js::number::Number;
use rosu_pp_js::value::{Entry, Value};

fn num(value: f64) -> Value {
    Value::Number(Number::from_bits(value.to_bits()))
}

fn mods(value: Value) -> Result<JsGameMods, DecodeError> {
    JsGameMods::deserialize(&JsDeserializer::from_owned(value))
}

#[test]
fn mods_from_bit_flags() {
    assert_eq!(mods(num(72.0)), Ok(JsGameMods::Single(GameMod::Bits(72))));
    assert_eq!(mods(num(0.0)), Ok(JsGameMods::default()));
    assert_eq!(
        mods(num(72.5)),
        Err(DecodeError::InvalidType {
            expected: Description::SafeInteger,
            found: Description::Float
        })
    );
    assert_eq!(
        mods(num(4294967296.0)),
        Err(DecodeError::OutOfRange { field: "mods", constraint: UNSIGNED_CONSTRAINT })
    );
}

#[test]
fn mods_from_acronyms() {
    assert_eq!(mods(Value::string("HDDT")), Ok(JsGameMods::Single(GameMod::Acronym("HDDT".into()))));
}

#[test]
fn mods_from_a_mod_object() {
    let settings = vec![Entry::new("speed_change", num(1.3))];
    let value = Value::object(vec![
        Entry::new("acronym", Value::string("DT")),
        Entry::new("settings", Value::object(settings.clone())),
        Entry::new("other", Value::Null),
    ]);
    assert_eq!(
        mods(value),
        Ok(JsGameMods::Single(GameMod::Object(ModObject {
            acronym: "DT".into(),
            settings: Some(settings)
        })))
    );
    let bare = Value::object(vec![Entry::new("acronym", Value::string("HR"))]);
    assert_eq!(
        mods(bare),
        Ok(JsGameMods::Single(GameMod::Object(ModObject { acronym: "HR".into(), settings: None })))
    );
    let null_settings = Value::object(vec![
        Entry::new("settings", Value::Null),
        Entry::new("acronym", Value::string("HR")),
    ]);
    assert_eq!(
        mods(null_settings),
        Ok(JsGameMods::Single(GameMod::Object(ModObject { acronym: "HR".into(), settings: None })))
    );
}

#[test]
fn a_mod_object_needs_its_acronym() {
    assert_eq!(
        mods(Value::object(vec![])),
        Err(DecodeError::MissingRequiredField { name: "acronym" })
    );
    assert_eq!(
        mods(Value::object(vec![Entry::new("acronym", num(1.0))])),
        Err(DecodeError::InvalidType { expected: Description::Str, found: Description::Float })
    );
    assert_eq!(
        mods(Value::object(vec![
            Entry::new("acronym", Value::string("DT")),
            Entry::new("settings", Value::string("fast")),
        ])),
        Err(DecodeError::InvalidType { expected: Description::Object, found: Description::Str })
    );
}

#[test]
fn mods_from_a_sequence() {
    let value = Value::Array(vec![
        num(8.0),
        Value::string("DT"),
        Value::object(vec![Entry::new("acronym", Value::string("HR"))]),
    ]);
    let expected = JsGameMods::List(vec![
        GameMod::Bits(8),
        GameMod::Acronym("DT".into()),
        GameMod::Object(ModObject { acronym: "HR".into(), settings: None }),
    ]);
    assert_eq!(mods(value), Ok(expected));
    assert_eq!(mods(Value::Iterable(vec![])), Ok(JsGameMods::List(vec![])));
    assert_eq!(
        mods(Value::Array(vec![num(8.0), Value::Array(vec![])])),
        Err(DecodeError::InvalidType { expected: Description::Mods, found: Description::Other })
    );
}

#[test]
fn what_is_no_mods_value_is_rejected() {
    for value in [Value::Bool(true), Value::Null, Value::Bytes(vec![1]), Value::Other] {
        let found = value.shape();
        assert_eq!(
            mods(value),
            Err(DecodeError::InvalidType { expected: Description::Mods, found })
        );
    }
}

#[test]
fn mods_round_trip() {
    let samples = vec![
        JsGameMods::default(),
        JsGameMods::Single(GameMod::Bits(u32::MAX)),
        JsGameMods::Single(GameMod::Acronym("".into())),
        JsGameMods::Single(GameMod::Object(ModObject {
            acronym: "DA".into(),
            settings: Some(vec![Entry::new("approach_rate", num(10.5))]),
        })),
        JsGameMods::List(vec![]),
        JsGameMods::List(vec![
            GameMod::Bits(1),
            GameMod::Object(ModObject { acronym: "CL".into(), settings: Some(vec![]) }),
        ]),
    ];
    for sample in samples {
        assert_eq!(mods(sample.to_value()), Ok(sample.clone()));
        assert_eq!(sample.clone(), sample);
    }
}
