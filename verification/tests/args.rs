use rosu_pp_js::args::beatmap::{BeatmapAttributesArgs, BeatmapContent, BuilderStep};
use rosu_pp_js::args::difficulty::{DifficultyArgs, DifficultyStep};
use rosu_pp_js::args::performance::{
    JsHitResultPriority, MapOrAttrs, PerformanceArgs, PerformanceStep,
};
use rosu_pp_js::attributes::beatmap::JsBeatmapAttributesBuilder;
use rosu_pp_js::beatmap::{BeatmapRef, JsBeatmap};
use rosu_pp_js::deserializer::{JsDeserializer, UNSIGNED_CONSTRAINT};
use rosu_pp_js::difficulty::JsDifficulty;
use rosu_pp_js::error::{DecodeError, Description};
use rosu_pp_js::mode::JsGameMode;
use rosu_pp_js::mods::{GameMod, JsGameMods};
use rosu_pp_js::number::Number;
use rosu_pp_js::performance::JsPerformance;
use rosu_pp_js::schema::{decode_field_of, encode_object, Field, FieldKind, Slot};
use rosu_pp_js::score_state::{JsScoreState, ScoreState};
use rosu_pp_js::util::from_value;
use rosu_pp_js::value::{Entry, Value};

fn float(value: f64) -> Number {
    Number::from_bits(value.to_bits())
}

fn num(value: f64) -> Value {
    Value::Number(float(value))
}

fn object(entries: Vec<(&str, Value)>) -> Value {
    Value::object(entries.into_iter().map(|(key, value)| Entry::new(key, value)).collect())
}

fn difficulty(value: &Value) -> Result<DifficultyArgs, DecodeError> {
    DifficultyArgs::deserialize(&JsDeserializer::from_ref(value))
}

fn performance(value: &Value) -> Result<PerformanceArgs, DecodeError> {
    PerformanceArgs::deserialize(&JsDeserializer::from_ref(value))
}

#[test]
fn difficulty_end_to_end() {
    let value = object(vec![
        ("ar", num(9.5)),
        ("arWithMods", Value::Bool(true)),
        ("mods", Value::string("DT")),
    ]);
    let args = difficulty(&value).unwrap();
    assert_eq!(args.ar, Some(float(9.5)));
    assert!(args.ar_with_mods);
    assert_eq!(args.mods, JsGameMods::Single(GameMod::Acronym("DT".to_string())));
    assert_eq!(args.clock_rate, None);
    assert_eq!(args.cs, None);
    assert_eq!(args.hp, None);
    assert_eq!(args.od, None);
    assert!(!args.cs_with_mods && !args.hp_with_mods && !args.od_with_mods);
    assert_eq!(args.passed_objects, None);
    assert_eq!(args.hardrock_offsets, None);
}

#[test]
fn performance_end_to_end_failure() {
    let value = object(vec![("n300", Value::string("lots"))]);
    let expected = DecodeError::InvalidType {
        expected: Description::SafeInteger,
        found: Description::Str,
    };
    assert_eq!(performance(&value), Err(expected.clone()));
    assert_eq!(JsPerformance::new(Some(&value)), Err(expected.clone()));
    assert_eq!(from_value::<PerformanceArgs>(&value), Err(expected));
}

#[test]
fn an_empty_object_gives_the_defaults() {
    let empty = object(vec![]);
    assert_eq!(difficulty(&empty), Ok(DifficultyArgs::default()));
    assert_eq!(performance(&empty), Ok(PerformanceArgs::default()));
    let defaults = DifficultyArgs::default();
    assert_eq!(defaults.mods, JsGameMods::Single(GameMod::Bits(0)));
    assert_eq!(PerformanceArgs::default().hitresult_priority, JsHitResultPriority::BestCase);
    assert_eq!(
        BeatmapAttributesArgs::deserialize(&JsDeserializer::from_ref(&empty)),
        Ok(BeatmapAttributesArgs::default())
    );
    assert_eq!(
        JsScoreState::deserialize(&JsDeserializer::from_ref(&empty)),
        Ok(ScoreState::default())
    );
    assert_eq!(ScoreState::default().n300, 0);
}

#[test]
fn absent_and_null_are_both_no_value_for_an_optional_field() {
    let absent = object(vec![("cs", num(4.0))]);
    let null = object(vec![("cs", num(4.0)), ("ar", Value::Null), ("arWithMods", Value::Undefined)]);
    let undefined = object(vec![("cs", num(4.0)), ("ar", Value::Undefined), ("mods", Value::Null)]);
    let expected = difficulty(&absent).unwrap();
    assert_eq!(expected.ar, None);
    assert_eq!(expected.cs, Some(float(4.0)));
    assert_eq!(difficulty(&null), Ok(expected.clone()));
    assert_eq!(difficulty(&undefined), Ok(expected));
}

#[test]
fn a_required_field_tells_absent_from_null() {
    let field = Field { name: "stars", kind: FieldKind::Float, required: true };
    let absent = vec![Entry::new("other", num(1.0))];
    let null = vec![Entry::new("stars", Value::Null)];
    let present = vec![Entry::new("stars", num(5.5))];
    assert_eq!(
        decode_field_of(&absent, &field),
        Err(DecodeError::MissingRequiredField { name: "stars" })
    );
    assert_eq!(
        decode_field_of(&null, &field),
        Err(DecodeError::InvalidType { expected: Description::Float, found: Description::Unit })
    );
    assert_eq!(decode_field_of(&present, &field), Ok(Slot::Float(float(5.5))));
    let optional = Field { name: "stars", kind: FieldKind::Float, required: false };
    assert_eq!(decode_field_of(&absent, &optional), Ok(Slot::Missing));
    assert_eq!(decode_field_of(&null, &optional), Ok(Slot::Missing));
    assert_eq!(decode_field_of(&present, &optional), Ok(Slot::Float(float(5.5))));
}

#[test]
fn unknown_keys_are_ignored() {
    let plain = object(vec![("od", num(8.0)), ("passedObjects", num(100.0))]);
    let extra = object(vec![
        ("zzz", Value::string("ignored")),
        ("od", num(8.0)),
        ("Ar", Value::Bool(true)),
        ("passedObjects", num(100.0)),
        ("n300", Value::string("not of this schema")),
    ]);
    let expected = difficulty(&plain).unwrap();
    assert_eq!(expected.od, Some(float(8.0)));
    assert_eq!(expected.passed_objects, Some(100));
    assert_eq!(difficulty(&extra), Ok(expected));
}

#[test]
fn the_first_failing_field_in_schema_order_is_reported() {
    let value = object(vec![
        ("hardrockOffsets", num(1.0)),
        ("passedObjects", num(1.5)),
        ("cs", Value::string("big")),
    ]);
    assert_eq!(
        difficulty(&value),
        Err(DecodeError::InvalidType { expected: Description::Float, found: Description::Str })
    );
    let later = object(vec![("hardrockOffsets", num(1.0)), ("passedObjects", num(1.5))]);
    assert_eq!(
        difficulty(&later),
        Err(DecodeError::InvalidType {
            expected: Description::SafeInteger,
            found: Description::Float
        })
    );
}

#[test]
fn settings_must_be_a_plain_object() {
    assert_eq!(
        difficulty(&Value::Null),
        Err(DecodeError::InvalidType { expected: Description::Object, found: Description::Unit })
    );
    assert_eq!(
        difficulty(&Value::Array(vec![])),
        Err(DecodeError::InvalidType { expected: Description::Object, found: Description::Other })
    );
    let instance = Value::instance("Beatmap", vec![Entry::new("ar", num(9.0))]);
    assert_eq!(
        difficulty(&instance),
        Err(DecodeError::InvalidNominalType {
            expected_name: "Object",
            found_name: "Beatmap".to_string()
        })
    );
}

#[test]
fn counts_out_of_range_are_rejected() {
    let value = object(vec![("combo", num(4294967296.0))]);
    assert_eq!(
        performance(&value),
        Err(DecodeError::OutOfRange { field: "combo", constraint: UNSIGNED_CONSTRAINT })
    );
    let negative = object(vec![("misses", num(-1.0))]);
    assert_eq!(
        performance(&negative),
        Err(DecodeError::InvalidType {
            expected: Description::SafeInteger,
            found: Description::Float
        })
    );
}

#[test]
fn performance_fields_decode() {
    let value = object(vec![
        ("accuracy", num(98.5)),
        ("combo", num(727.0)),
        ("largeTickHits", num(1.0)),
        ("smallTickHits", num(2.0)),
        ("sliderEndHits", num(3.0)),
        ("nGeki", num(4.0)),
        ("nKatu", num(5.0)),
        ("n300", num(6.0)),
        ("n100", num(7.0)),
        ("n50", num(8.0)),
        ("misses", num(9.0)),
        ("lazer", Value::Bool(false)),
        ("hitresultPriority", num(2.0)),
        ("mods", num(64.0)),
    ]);
    let args = performance(&value).unwrap();
    assert_eq!(args.accuracy, Some(float(98.5)));
    assert_eq!(args.combo, Some(727));
    assert_eq!(args.large_tick_hits, Some(1));
    assert_eq!(args.small_tick_hits, Some(2));
    assert_eq!(args.slider_end_hits, Some(3));
    assert_eq!(args.n_geki, Some(4));
    assert_eq!(args.n_katu, Some(5));
    assert_eq!(args.n300, Some(6));
    assert_eq!(args.n100, Some(7));
    assert_eq!(args.n50, Some(8));
    assert_eq!(args.misses, Some(9));
    assert_eq!(args.lazer, Some(false));
    assert_eq!(args.hitresult_priority, JsHitResultPriority::Fastest);
    assert_eq!(args.mods, JsGameMods::Single(GameMod::Bits(64)));
}

#[test]
fn priorities_and_modes_are_small_integers() {
    for (n, priority) in [
        (0.0, JsHitResultPriority::BestCase),
        (1.0, JsHitResultPriority::WorstCase),
        (2.0, JsHitResultPriority::Fastest),
    ] {
        assert_eq!(
            JsHitResultPriority::deserialize(&JsDeserializer::from_owned(num(n))),
            Ok(priority)
        );
        assert_eq!(
            JsHitResultPriority::deserialize(&JsDeserializer::from_owned(priority.to_value())),
            Ok(priority)
        );
    }
    assert_eq!(
        JsHitResultPriority::deserialize(&JsDeserializer::from_owned(num(3.0))),
        Err(DecodeError::OutOfRange { field: "HitResultPriority", constraint: "0, 1 or 2" })
    );
    for (n, mode) in [
        (0.0, JsGameMode::Osu),
        (1.0, JsGameMode::Taiko),
        (2.0, JsGameMode::Catch),
        (3.0, JsGameMode::Mania),
    ] {
        assert_eq!(JsGameMode::deserialize(&JsDeserializer::from_owned(num(n))), Ok(mode));
        assert_eq!(JsGameMode::deserialize(&JsDeserializer::from_owned(mode.to_value())), Ok(mode));
        assert_eq!(mode.as_u8() as f64, n);
    }
    assert_eq!(
        JsGameMode::deserialize(&JsDeserializer::from_owned(num(4.0))),
        Err(DecodeError::OutOfRange { field: "GameMode", constraint: "0, 1, 2 or 3" })
    );
    assert_eq!(
        JsGameMode::deserialize(&JsDeserializer::from_owned(num(0.5))),
        Err(DecodeError::InvalidType {
            expected: Description::SafeInteger,
            found: Description::Float
        })
    );
    assert_eq!(JsGameMode::default(), JsGameMode::Osu);
    assert_eq!(JsHitResultPriority::default(), JsHitResultPriority::BestCase);
}

fn full_difficulty() -> DifficultyArgs {
    DifficultyArgs {
        mods: JsGameMods::List(vec![GameMod::Acronym("HD".to_string()), GameMod::Bits(64)]),
        clock_rate: Some(float(1.25)),
        ar: Some(float(9.5)),
        ar_with_mods: true,
        cs: None,
        cs_with_mods: false,
        hp: Some(float(-0.0)),
        hp_with_mods: false,
        od: Some(float(f64::INFINITY)),
        od_with_mods: true,
        passed_objects: Some(u32::MAX),
        hardrock_offsets: Some(false),
    }
}

#[test]
fn difficulty_settings_round_trip() {
    for args in [DifficultyArgs::default(), full_difficulty()] {
        let value = args.to_value();
        assert_eq!(difficulty(&value), Ok(args.clone()));
        assert_eq!(args.clone(), args);
    }
    match full_difficulty().to_value() {
        Value::Object { class_name, entries } => {
            assert_eq!(class_name, "Object");
            let keys: Vec<&str> = entries.iter().map(|entry| entry.key.as_str()).collect();
            assert_eq!(
                keys,
                vec![
                    "mods",
                    "clockRate",
                    "ar",
                    "arWithMods",
                    "csWithMods",
                    "hp",
                    "hpWithMods",
                    "od",
                    "odWithMods",
                    "passedObjects",
                    "hardrockOffsets"
                ]
            );
        }
        _ => panic!("settings encode to an object"),
    }
}

#[test]
fn performance_settings_round_trip() {
    let mut args = PerformanceArgs::default();
    assert_eq!(performance(&args.to_value()), Ok(args.clone()));
    args.mods = JsGameMods::Single(GameMod::Acronym("HDDT".to_string()));
    args.accuracy = Some(float(99.25));
    args.combo = Some(1234);
    args.n300 = Some(0);
    args.misses = Some(3);
    args.lazer = Some(true);
    args.hitresult_priority = JsHitResultPriority::WorstCase;
    args.od_with_mods = true;
    assert_eq!(performance(&args.to_value()), Ok(args.clone()));
}

#[test]
fn attributes_settings_round_trip() {
    let mut args = BeatmapAttributesArgs::default();
    assert_eq!(
        BeatmapAttributesArgs::deserialize(&JsDeserializer::from_owned(args.to_value())),
        Ok(args.clone())
    );
    args.mode = Some(JsGameMode::Mania);
    args.is_convert = true;
    args.map = Some(BeatmapRef { ptr: 0xdead_beef });
    args.clock_rate = Some(float(0.75));
    assert_eq!(
        BeatmapAttributesArgs::deserialize(&JsDeserializer::from_owned(args.to_value())),
        Ok(args.clone())
    );
}

#[test]
fn score_state_round_trip() {
    let state = ScoreState {
        max_combo: 1,
        osu_large_tick_hits: 2,
        osu_small_tick_hits: 3,
        slider_end_hits: 4,
        n_geki: 5,
        n_katu: 6,
        n300: 7,
        n100: 8,
        n50: 9,
        misses: u32::MAX,
    };
    let encoded = JsScoreState::from(state);
    assert_eq!(JsScoreState::deserialize(&JsDeserializer::from_ref(&encoded.value)), Ok(state));
    let partial = object(vec![("maxCombo", num(100.0)), ("misses", num(2.0)), ("nGeki", Value::Null)]);
    let decoded = JsScoreState::deserialize(&JsDeserializer::from_ref(&partial)).unwrap();
    assert_eq!(decoded, ScoreState { max_combo: 100, misses: 2, ..ScoreState::default() });
    let bad = object(vec![("n100", num(1.5))]);
    assert!(JsScoreState::deserialize(&JsDeserializer::from_ref(&bad)).is_err());
}

#[test]
fn beatmap_content_from_bytes_or_string() {
    let text = BeatmapContent::deserialize(&JsDeserializer::from_owned(Value::string("abc")));
    let bytes = BeatmapContent::deserialize(&JsDeserializer::from_owned(Value::Bytes(vec![
        0x61, 0x62, 0x63,
    ])));
    assert_eq!(text, Ok(BeatmapContent { bytes: vec![0x61, 0x62, 0x63] }));
    assert_eq!(text, bytes);
    assert_eq!(
        from_value::<BeatmapContent>(&num(1.0)),
        Err(DecodeError::InvalidType {
            expected: Description::BytesOrString,
            found: Description::Float
        })
    );
    let content = BeatmapContent { bytes: vec![1, 2, 3] };
    assert_eq!(
        BeatmapContent::deserialize(&JsDeserializer::from_owned(content.to_value())),
        Ok(content)
    );
}

#[test]
fn a_branded_beatmap_is_taken_by_its_handle() {
    let map = Value::instance(
        "Beatmap",
        vec![Entry::new("__wbg_ptr", num(1114120.0)), Entry::new("ar", Value::string("unread"))],
    );
    assert_eq!(
        JsBeatmap::deserialize(&JsDeserializer::from_ref(&map)),
        Ok(BeatmapRef { ptr: 1114120 })
    );
    let args = object(vec![("map", map.clone())]);
    let decoded = BeatmapAttributesArgs::deserialize(&JsDeserializer::from_ref(&args)).unwrap();
    assert_eq!(decoded.map, Some(BeatmapRef { ptr: 1114120 }));
    assert_eq!(
        JsBeatmap::deserialize(&JsDeserializer::from_owned(BeatmapRef { ptr: 7 }.to_value())),
        Ok(BeatmapRef { ptr: 7 })
    );
}

#[test]
fn a_lookalike_of_another_type_is_rejected() {
    let lookalike = Value::instance("NotABeatmap", vec![Entry::new("__wbg_ptr", num(1114120.0))]);
    let expected = DecodeError::InvalidNominalType {
        expected_name: "Beatmap",
        found_name: "NotABeatmap".to_string(),
    };
    assert_eq!(JsBeatmap::deserialize(&JsDeserializer::from_ref(&lookalike)), Err(expected.clone()));
    let plain = object(vec![("__wbg_ptr", num(1114120.0))]);
    assert!(matches!(
        JsBeatmap::deserialize(&JsDeserializer::from_ref(&plain)),
        Err(DecodeError::InvalidNominalType { expected_name: "Beatmap", .. })
    ));
    let args = object(vec![("map", lookalike)]);
    assert_eq!(
        BeatmapAttributesArgs::deserialize(&JsDeserializer::from_ref(&args)),
        Err(expected)
    );
    let no_handle = Value::instance("Beatmap", vec![]);
    assert_eq!(
        JsBeatmap::deserialize(&JsDeserializer::from_ref(&no_handle)),
        Err(DecodeError::MissingRequiredField { name: "__wbg_ptr" })
    );
    let bad_handle = Value::instance("Beatmap", vec![Entry::new("__wbg_ptr", num(0.5))]);
    assert!(JsBeatmap::deserialize(&JsDeserializer::from_ref(&bad_handle)).is_err());
}

#[test]
fn encode_object_skips_missing_slots() {
    let schema = vec![
        Field { name: "a", kind: FieldKind::Bool, required: false },
        Field { name: "b", kind: FieldKind::Unsigned, required: true },
    ];
    let value = encode_object("Thing", &schema, &vec![Slot::Missing, Slot::Unsigned(3)]);
    assert_eq!(value, Value::instance("Thing", vec![Entry::new("b", num(3.0))]));
}

#[test]
fn difficulty_steps_follow_the_settings() {
    assert_eq!(DifficultyArgs::default().to_difficulty(), vec![DifficultyStep::Mods]);
    assert_eq!(
        full_difficulty().to_difficulty(),
        vec![
            DifficultyStep::Mods,
            DifficultyStep::PassedObjects(u32::MAX),
            DifficultyStep::ClockRate(float(1.25)),
            DifficultyStep::Ar(float(9.5), true),
            DifficultyStep::Hp(float(-0.0), false),
            DifficultyStep::Od(float(f64::INFINITY), true),
            DifficultyStep::HardrockOffsets(false),
        ]
    );
}

#[test]
fn performance_steps_follow_the_settings() {
    let mut args = PerformanceArgs::default();
    assert_eq!(
        args.apply(),
        vec![
            PerformanceStep::HitresultPriority(JsHitResultPriority::BestCase),
            PerformanceStep::Difficulty
        ]
    );
    args.accuracy = Some(float(97.0));
    args.combo = Some(10);
    args.large_tick_hits = Some(1);
    args.small_tick_hits = Some(2);
    args.slider_end_hits = Some(3);
    args.n_geki = Some(4);
    args.n_katu = Some(5);
    args.n300 = Some(6);
    args.n100 = Some(7);
    args.n50 = Some(8);
    args.misses = Some(9);
    args.lazer = Some(true);
    args.hitresult_priority = JsHitResultPriority::Fastest;
    args.ar = Some(float(9.0));
    assert_eq!(
        args.apply(),
        vec![
            PerformanceStep::Accuracy(float(97.0)),
            PerformanceStep::Combo(10),
            PerformanceStep::LargeTickHits(1),
            PerformanceStep::SmallTickHits(2),
            PerformanceStep::SliderEndHits(3),
            PerformanceStep::NGeki(4),
            PerformanceStep::NKatu(5),
            PerformanceStep::N300(6),
            PerformanceStep::N100(7),
            PerformanceStep::N50(8),
            PerformanceStep::Misses(9),
            PerformanceStep::HitresultPriority(JsHitResultPriority::Fastest),
            PerformanceStep::Difficulty,
            PerformanceStep::Lazer(true),
        ]
    );
    assert_eq!(args.difficulty().ar, Some(float(9.0)));
    assert_eq!(args.difficulty().to_difficulty(), vec![
        DifficultyStep::Mods,
        DifficultyStep::Ar(float(9.0), false)
    ]);
}

#[test]
fn builder_steps_follow_the_settings() {
    let mut args = BeatmapAttributesArgs::default();
    assert_eq!(args.as_builder(), vec![BuilderStep::Mods]);
    args.map = Some(BeatmapRef { ptr: 9 });
    args.mode = Some(JsGameMode::Taiko);
    args.is_convert = true;
    args.cs = Some(float(4.0));
    assert_eq!(
        args.as_builder(),
        vec![
            BuilderStep::Beatmap(BeatmapRef { ptr: 9 }),
            BuilderStep::Mode(JsGameMode::Taiko, true),
            BuilderStep::Cs(float(4.0), false),
            BuilderStep::Mods,
        ]
    );
}

#[test]
fn builders_start_from_settings_or_defaults() {
    assert_eq!(JsDifficulty::new(None).unwrap().args, DifficultyArgs::default());
    assert_eq!(JsPerformance::new(None).unwrap().args, PerformanceArgs::default());
    assert_eq!(
        JsBeatmapAttributesBuilder::new(None).unwrap().args,
        BeatmapAttributesArgs::default()
    );
    let value = object(vec![("ar", num(10.0))]);
    assert_eq!(JsDifficulty::new(Some(&value)).unwrap().args.ar, Some(float(10.0)));
    assert!(JsDifficulty::new(Some(&Value::Undefined)).is_err());
    assert!(JsBeatmapAttributesBuilder::new(Some(&num(1.0))).is_err());
}

#[test]
fn setters_change_one_setting() {
    let mut builder = JsDifficulty::new(None).unwrap();
    builder.set_ar(Some(float(9.0)));
    builder.set_ar_with_mods(Some(true));
    builder.set_cs_with_mods(None);
    builder.set_clock_rate(Some(float(1.5)));
    builder.set_passed_objects(Some(12));
    builder.set_hardrock_offsets(Some(true));
    builder.set_hp(Some(float(1.0)));
    builder.set_hp(None);
    let mut expected = DifficultyArgs::default();
    expected.ar = Some(float(9.0));
    expected.ar_with_mods = true;
    expected.clock_rate = Some(float(1.5));
    expected.passed_objects = Some(12);
    expected.hardrock_offsets = Some(true);
    assert_eq!(builder.args, expected);
    assert_eq!(builder.clone(), builder);

    assert_eq!(builder.set_mods(Some(&Value::string("HR"))), Ok(()));
    assert_eq!(builder.args.mods, JsGameMods::Single(GameMod::Acronym("HR".to_string())));
    assert!(builder.set_mods(Some(&Value::Bool(true))).is_err());
    assert_eq!(builder.args.mods, JsGameMods::Single(GameMod::Acronym("HR".to_string())));
    assert_eq!(builder.set_mods(None), Ok(()));
    assert_eq!(builder.args.mods, JsGameMods::default());
}

#[test]
fn performance_setters_change_one_setting() {
    let mut builder = JsPerformance::new(None).unwrap();
    builder.set_accuracy(Some(float(99.0)));
    builder.set_combo(Some(500));
    builder.set_large_ticks_hits(Some(1));
    builder.set_slider_ends_hit(Some(2));
    builder.set_n_geki(Some(3));
    builder.set_n_katu(Some(4));
    builder.set_n300(Some(5));
    builder.set_n100(Some(6));
    builder.set_n50(Some(7));
    builder.set_misses(Some(8));
    builder.set_lazer(Some(false));
    builder.set_hitresult_priority(Some(JsHitResultPriority::WorstCase));
    builder.set_od(Some(float(8.0)));
    builder.set_od_with_mods(Some(true));
    let args = &builder.args;
    assert_eq!(args.accuracy, Some(float(99.0)));
    assert_eq!(args.combo, Some(500));
    assert_eq!(args.large_tick_hits, Some(1));
    assert_eq!(args.slider_end_hits, Some(2));
    assert_eq!(args.n_geki, Some(3));
    assert_eq!(args.n_katu, Some(4));
    assert_eq!(args.n300, Some(5));
    assert_eq!(args.n100, Some(6));
    assert_eq!(args.n50, Some(7));
    assert_eq!(args.misses, Some(8));
    assert_eq!(args.lazer, Some(false));
    assert_eq!(args.hitresult_priority, JsHitResultPriority::WorstCase);
    assert_eq!(args.od, Some(float(8.0)));
    assert!(args.od_with_mods);
    assert_eq!(args.small_tick_hits, None);
    builder.set_hitresult_priority(None);
    assert_eq!(builder.args.hitresult_priority, JsHitResultPriority::BestCase);
}

#[test]
fn attribute_builder_setters_change_one_setting() {
    let mut builder = JsBeatmapAttributesBuilder::new(None).unwrap();
    builder.set_mode(Some(JsGameMode::Catch));
    builder.set_is_convert(Some(true));
    let map = BeatmapRef { ptr: 42 }.to_value();
    assert_eq!(builder.set_map(Some(&map)), Ok(()));
    assert_eq!(builder.args.map, Some(BeatmapRef { ptr: 42 }));
    assert!(builder.set_map(Some(&object(vec![]))).is_err());
    assert_eq!(builder.args.map, Some(BeatmapRef { ptr: 42 }));
    assert_eq!(builder.args.mode, Some(JsGameMode::Catch));
    assert!(builder.args.is_convert);
    assert_eq!(builder.set_map(None), Ok(()));
    assert_eq!(builder.args.map, None);
}

#[test]
fn map_or_attributes_rejects_what_is_neither() {
    assert_eq!(
        MapOrAttrs::from_value(&object(vec![])),
        Err(DecodeError::InvalidType {
            expected: Description::MapOrAttributes,
            found: Description::Other
        })
    );
    assert_eq!(
        MapOrAttrs::from_value(&Value::string("map")),
        Err(DecodeError::InvalidType {
            expected: Description::MapOrAttributes,
            found: Description::Str
        })
    );
    let map = BeatmapRef { ptr: 5 }.to_value();
    assert_eq!(MapOrAttrs::from_value(&map), Ok(MapOrAttrs::Beatmap(BeatmapRef { ptr: 5 })));
}

#[test]
fn an_encoded_score_state_has_exactly_its_ten_entries() {
    let state = ScoreState { max_combo: 0, n300: 7, misses: 2, ..ScoreState::default() };
    let encoded = JsScoreState::from(state);
    let wanted = object(vec![
        ("maxCombo", num(0.0)),
        ("osuLargeTickHits", num(0.0)),
        ("osuSmallTickHits", num(0.0)),
        ("sliderEndHits", num(0.0)),
        ("nGeki", num(0.0)),
        ("nKatu", num(0.0)),
        ("n300", num(7.0)),
        ("n100", num(0.0)),
        ("n50", num(0.0)),
        ("misses", num(2.0)),
    ]);
    assert_eq!(encoded.value, wanted);
    let decoded = JsScoreState::deserialize(&JsDeserializer::from_ref(&encoded.value)).unwrap();
    assert_eq!(JsScoreState::from(decoded).value, encoded.value);
}

#[test]
fn encoded_settings_hold_the_set_fields_only() {
    let mut args = DifficultyArgs::default();
    args.ar = Some(float(9.5));
    args.ar_with_mods = true;
    args.passed_objects = Some(3);
    let encoded = args.to_value();
    let Value::Object { class_name, entries } = &encoded else {
        panic!("settings encode to an object");
    };
    assert_eq!(class_name, "Object");
    let keys: Vec<&str> = entries.iter().map(|entry| entry.key.as_str()).collect();
    assert!(keys.contains(&"ar"));
    assert!(keys.contains(&"passedObjects"));
    assert!(!keys.contains(&"cs"));
    assert!(!keys.contains(&"clockRate"));
    assert!(!keys.contains(&"hardrockOffsets"));
    assert!(entries.contains(&Entry::new("ar", num(9.5))));
    assert!(entries.contains(&Entry::new("passedObjects", num(3.0))));
    let decoded = difficulty(&encoded).unwrap();
    assert_eq!(decoded.to_value(), encoded);
}
