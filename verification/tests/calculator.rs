use rosu_pp_js::attributes::difficulty::{
    DifficultyAttributes, JsDifficultyAttributes, ManiaDifficultyAttributes,
};
use rosu_pp_js::attributes::performance::{
    JsPerformanceAttributes, ManiaPerformanceAttributes, PerformanceAttributes,
};
use rosu_pp_js::calculator::{
    bytes_eq, to_ascii_lowercase, Calculator, CalculatorInner, CalculatorStep,
};
use rosu_pp_js::deserializer::{JsDeserializer, ObjectAccess, UNSIGNED_CONSTRAINT};
use rosu_pp_js::error::{DecodeError, Description};
use rosu_pp_js::mode::JsGameMode;
use rosu_pp_js::number::Number;
use rosu_pp_js::strains::{CatchStrains, Strains};
use rosu_pp_js::value::{Entry, Value};

fn float(value: f64) -> Number {
    Number::from_bits(value.to_bits())
}

fn num(value: f64) -> Value {
    Value::Number(float(value))
}

fn object(entries: Vec<(&str, Value)>) -> Value {
    Value::object(entries.into_iter().map(|(key, value)| Entry::new(key, value)).collect())
}

#[test]
fn a_calculator_without_settings() {
    assert_eq!(Calculator::js_new(None).unwrap().inner, CalculatorInner::default());
    assert_eq!(
        Calculator::js_new(Some(&Value::Undefined)).unwrap().inner,
        CalculatorInner::default()
    );
    assert_eq!(Calculator::js_new(Some(&object(vec![]))).unwrap().inner, CalculatorInner::default());
    assert_eq!(CalculatorInner::default().mode, None);
}

#[test]
fn a_calculator_from_settings() {
    let value = object(vec![
        ("mode", Value::string("Taiko")),
        ("mods", num(64.0)),
        ("acc", num(97.5)),
        ("nGeki", num(1.0)),
        ("nKatu", num(2.0)),
        ("n300", num(3.0)),
        ("n100", num(4.0)),
        ("n50", num(5.0)),
        ("nMisses", num(6.0)),
        ("combo", num(7.0)),
        ("passedObjects", num(8.0)),
        ("clockRate", num(1.5)),
    ]);
    let expected = CalculatorInner {
        mode: Some(JsGameMode::Taiko),
        mods: Some(64),
        accuracy: Some(float(97.5)),
        n_geki: Some(1),
        n_katu: Some(2),
        n300: Some(3),
        n100: Some(4),
        n50: Some(5),
        n_misses: Some(6),
        combo: Some(7),
        passed_objects: Some(8),
        clock_rate: Some(float(1.5)),
    };
    assert_eq!(Calculator::js_new(Some(&value)), Ok(Calculator { inner: expected }));
}

#[test]
fn calculator_settings_must_be_an_object_of_numbers() {
    assert_eq!(
        Calculator::js_new(Some(&num(1.0))),
        Err(DecodeError::InvalidType { expected: Description::Object, found: Description::Float })
    );
    assert_eq!(
        Calculator::js_new(Some(&Value::Null)),
        Err(DecodeError::InvalidType { expected: Description::Object, found: Description::Unit })
    );
    assert_eq!(
        Calculator::js_new(Some(&object(vec![("acc", Value::string("high"))]))),
        Err(DecodeError::InvalidType { expected: Description::Float, found: Description::Str })
    );
    assert_eq!(
        Calculator::js_new(Some(&object(vec![("mods", num(1.5))]))),
        Err(DecodeError::InvalidType {
            expected: Description::SafeInteger,
            found: Description::Float
        })
    );
    assert_eq!(
        Calculator::js_new(Some(&object(vec![("mode", Value::Bool(true)), ("mods", num(1.5))]))),
        Err(DecodeError::InvalidType {
            expected: Description::NumberOrString,
            found: Description::Bool
        })
    );
    assert_eq!(
        Calculator::js_new(Some(&object(vec![("mode", num(4.0))]))),
        Err(DecodeError::OutOfRange { field: "GameMode", constraint: "0, 1, 2 or 3" })
    );
    assert_eq!(
        Calculator::js_new(Some(&object(vec![("combo", num(4294967296.0))]))),
        Err(DecodeError::OutOfRange { field: "combo", constraint: UNSIGNED_CONSTRAINT })
    );
}

#[test]
fn modes_have_their_names() {
    let names = [
        (JsGameMode::Osu, vec!["osu", "o", "std", "standard"]),
        (JsGameMode::Taiko, vec!["taiko", "t", "tko"]),
        (JsGameMode::Catch, vec!["catch", "c", "ctb", "catch the beat"]),
        (JsGameMode::Mania, vec!["mania", "m", "mna"]),
    ];
    for (mode, list) in names {
        for name in list {
            assert_eq!(Calculator::mode_from_str(name), Ok(mode));
            assert_eq!(Calculator::decode_mode(&Value::string(&name.to_uppercase())), Ok(mode));
        }
    }
    let unknown = DecodeError::OutOfRange {
        field: "GameMode",
        constraint: "`osu`, `taiko`, `catch`, or `mania`",
    };
    assert_eq!(Calculator::mode_from_str("OSU"), Err(unknown.clone()));
    assert_eq!(Calculator::mode_from_str("fruits"), Err(unknown.clone()));
    assert_eq!(Calculator::mode_from_str(""), Err(unknown.clone()));
    assert_eq!(Calculator::decode_mode(&Value::string("osü")), Err(unknown));
    assert_eq!(Calculator::decode_mode(&num(2.0)), Ok(JsGameMode::Catch));
}

#[test]
fn lowercase_touches_ascii_letters_only() {
    assert_eq!(to_ascii_lowercase(b"AzZa@[`{"), b"azza@[`{".to_vec());
    assert_eq!(to_ascii_lowercase("ÄB".as_bytes()), "Äb".as_bytes().to_vec());
    assert!(bytes_eq(b"abc", b"abc"));
    assert!(!bytes_eq(b"abc", b"abd"));
    assert!(!bytes_eq(b"abc", b"ab"));
}

#[test]
fn calculator_setters() {
    let mut calculator = Calculator::js_new(None).unwrap();
    assert_eq!(calculator.js_mode(Some(&Value::string("MANIA"))), Ok(()));
    assert_eq!(calculator.js_mods(Some(&num(8.0))), Ok(()));
    assert_eq!(calculator.js_acc(Some(&num(99.5))), Ok(()));
    assert_eq!(calculator.js_geki(Some(&num(1.0))), Ok(()));
    assert_eq!(calculator.js_katu(Some(&num(2.0))), Ok(()));
    assert_eq!(calculator.js_n300(Some(&num(3.0))), Ok(()));
    assert_eq!(calculator.js_n100(Some(&num(4.0))), Ok(()));
    assert_eq!(calculator.js_n50(Some(&num(5.0))), Ok(()));
    assert_eq!(calculator.js_misses(Some(&num(6.0))), Ok(()));
    assert_eq!(calculator.js_combo(Some(&num(7.0))), Ok(()));
    assert_eq!(calculator.js_passed_objects(Some(&num(8.0))), Ok(()));
    assert_eq!(calculator.js_clock_rate(Some(&num(0.75))), Ok(()));
    let expected = CalculatorInner {
        mode: Some(JsGameMode::Mania),
        mods: Some(8),
        accuracy: Some(float(99.5)),
        n_geki: Some(1),
        n_katu: Some(2),
        n300: Some(3),
        n100: Some(4),
        n50: Some(5),
        n_misses: Some(6),
        combo: Some(7),
        passed_objects: Some(8),
        clock_rate: Some(float(0.75)),
    };
    assert_eq!(calculator.inner, expected);
    assert_eq!(
        calculator.js_mods(None),
        Err(DecodeError::InvalidType {
            expected: Description::SafeInteger,
            found: Description::Unit
        })
    );
    assert_eq!(
        calculator.js_acc(Some(&Value::string("1"))),
        Err(DecodeError::InvalidType { expected: Description::Float, found: Description::Str })
    );
    assert_eq!(
        calculator.js_mode(None),
        Err(DecodeError::InvalidType {
            expected: Description::NumberOrString,
            found: Description::Unit
        })
    );
    assert!(calculator.js_mode(Some(&Value::string("piano"))).is_err());
    assert!(calculator.js_combo(Some(&num(-1.0))).is_err());
    assert_eq!(calculator.inner, expected);
}

#[test]
fn calculator_steps() {
    let empty = Calculator::js_new(None).unwrap();
    assert_eq!(empty.js_difficulty(), vec![]);
    assert_eq!(empty.js_performance(), vec![]);
    let value = object(vec![
        ("mode", num(2.0)),
        ("mods", num(16.0)),
        ("acc", num(90.0)),
        ("n300", num(3.0)),
        ("nMisses", num(1.0)),
        ("combo", num(50.0)),
        ("passedObjects", num(60.0)),
        ("clockRate", num(1.5)),
    ]);
    let calculator = Calculator::js_new(Some(&value)).unwrap();
    assert_eq!(
        calculator.js_map_attrs(),
        vec![
            CalculatorStep::Mode(JsGameMode::Catch),
            CalculatorStep::Mods(16),
            CalculatorStep::ClockRate(float(1.5)),
        ]
    );
    let difficulty = vec![
        CalculatorStep::Mode(JsGameMode::Catch),
        CalculatorStep::Mods(16),
        CalculatorStep::PassedObjects(60),
        CalculatorStep::ClockRate(float(1.5)),
    ];
    assert_eq!(calculator.js_difficulty(), difficulty);
    assert_eq!(calculator.js_strains(), difficulty);
    assert_eq!(
        calculator.js_performance(),
        vec![
            CalculatorStep::Mode(JsGameMode::Catch),
            CalculatorStep::Mods(16),
            CalculatorStep::Accuracy(float(90.0)),
            CalculatorStep::N300(3),
            CalculatorStep::NMisses(1),
            CalculatorStep::Combo(50),
            CalculatorStep::PassedObjects(60),
            CalculatorStep::ClockRate(float(1.5)),
        ]
    );
}

#[test]
fn calculator_results_are_the_flat_attributes() {
    let mania = ManiaDifficultyAttributes {
        stars: float(2.5),
        n_objects: 1000,
        n_hold_notes: 200,
        max_combo: 1400,
        is_convert: false,
    };
    let value = Calculator::convert_difficulty(DifficultyAttributes::Mania(mania));
    assert_eq!(
        JsDifficultyAttributes::deserialize(&JsDeserializer::from_ref(&value)),
        Ok(JsDifficultyAttributes::from(mania))
    );
    let performance = PerformanceAttributes::Mania(ManiaPerformanceAttributes {
        difficulty: mania,
        pp: float(10.0),
        pp_difficulty: float(10.0),
    });
    let value = Calculator::convert_performance(performance);
    assert_eq!(
        JsPerformanceAttributes::deserialize_difficulty(&JsDeserializer::from_ref(&value)),
        Ok(JsDifficultyAttributes::from(mania))
    );
    let strains = Calculator::convert_strains(Strains::Catch(CatchStrains {
        section_len: float(750.0),
        movement: vec![float(3.0)],
    }));
    assert_eq!(
        strains,
        object(vec![
            ("mode", num(2.0)),
            ("sectionLength", num(750.0)),
            ("movement", Value::Array(vec![num(3.0)])),
        ])
    );
}

#[test]
fn object_access_hands_out_present_fields_in_schema_order() {
    let entries = vec![
        Entry::new("c", num(3.0)),
        Entry::new("x", num(9.0)),
        Entry::new("a", Value::Undefined),
    ];
    let fields = ["a", "b", "c", "d"];
    let mut access = ObjectAccess::new(&entries, &fields);
    assert_eq!(access.next_key_seed(), Some("a"));
    assert_eq!(access.next_value_seed().value(), &Value::Undefined);
    assert_eq!(access.next_key_seed(), Some("c"));
    assert_eq!(access.next_value_seed().value(), &num(3.0));
    assert_eq!(access.next_key_seed(), None);
    assert_eq!(access.next_key_seed(), None);
    let mut none = ObjectAccess::new(&entries, &[]);
    assert_eq!(none.next_key_seed(), None);
}

#[test]
fn a_mania_result_sets_no_property_of_another_mode() {
    let mania = ManiaDifficultyAttributes {
        stars: float(2.5),
        n_objects: 1000,
        n_hold_notes: 200,
        max_combo: 1400,
        is_convert: true,
    };
    let value = Calculator::convert_difficulty(DifficultyAttributes::Mania(mania));
    assert_eq!(
        value,
        Value::Object {
            class_name: String::from("DifficultyAttributes"),
            entries: vec![
                Entry::new("mode", num(3.0)),
                Entry::new("stars", num(2.5)),
                Entry::new("isConvert", Value::Bool(true)),
                Entry::new("nObjects", num(1000.0)),
                Entry::new("nHoldNotes", num(200.0)),
                Entry::new("maxCombo", num(1400.0)),
            ],
        }
    );
}
