use rosu_pp_js::args::performance::MapOrAttrs;
use rosu_pp_js::attributes::beatmap::{BeatmapAttributes, HitWindows, JsBeatmapAttributes};
use rosu_pp_js::attributes::difficulty::{
    CatchDifficultyAttributes, DifficultyAttributes, JsDifficultyAttributes,
    ManiaDifficultyAttributes, OsuDifficultyAttributes, TaikoDifficultyAttributes,
};
use rosu_pp_js::attributes::performance::{
    CatchPerformanceAttributes, JsPerformanceAttributes, ManiaPerformanceAttributes,
    OsuPerformanceAttributes, PerformanceAttributes, TaikoPerformanceAttributes,
};
use rosu_pp_js::deserializer::JsDeserializer;
use rosu_pp_js::error::{DecodeError, Description};
use rosu_pp_js::mode::JsGameMode;
use rosu_pp_js::number::Number;
use rosu_pp_js::score_state::ScoreState;
use rosu_pp_js::strains::{
    CatchStrains, JsStrains, ManiaStrains, OsuStrains, Strains, TaikoStrains,
};
use rosu_pp_js::value::{Entry, Value};

fn float(value: f64) -> Number {
    Number::from_bits(value.to_bits())
}

fn num(value: f64) -> Value {
    Value::Number(float(value))
}

fn osu() -> OsuDifficultyAttributes {
    OsuDifficultyAttributes {
        aim: float(2.5),
        aim_difficult_slider_count: float(10.0),
        speed: float(2.25),
        flashlight: float(0.0),
        slider_factor: float(0.99),
        speed_note_count: float(120.5),
        aim_difficult_strain_count: float(30.0),
        speed_difficult_strain_count: float(40.0),
        ar: float(9.3),
        great_hit_window: float(20.5),
        ok_hit_window: float(60.0),
        meh_hit_window: float(100.0),
        hp: float(5.0),
        n_circles: 300,
        n_sliders: 150,
        n_large_ticks: 20,
        n_spinners: 2,
        stars: float(5.67),
        max_combo: 727,
    }
}

fn taiko() -> TaikoDifficultyAttributes {
    TaikoDifficultyAttributes {
        stamina: float(1.0),
        reading: float(2.0),
        rhythm: float(3.0),
        color: float(4.0),
        great_hit_window: float(25.0),
        ok_hit_window: float(75.0),
        mono_stamina_factor: float(0.5),
        stars: float(4.5),
        max_combo: 500,
        is_convert: true,
    }
}

fn catch() -> CatchDifficultyAttributes {
    CatchDifficultyAttributes {
        stars: float(3.5),
        ar: float(9.0),
        n_fruits: 400,
        n_droplets: 30,
        n_tiny_droplets: 100,
        is_convert: false,
    }
}

fn mania() -> ManiaDifficultyAttributes {
    ManiaDifficultyAttributes {
        stars: float(2.5),
        n_objects: 1000,
        n_hold_notes: 200,
        max_combo: 1400,
        is_convert: true,
    }
}

#[test]
fn flat_attributes_of_osu() {
    let flat = JsDifficultyAttributes::from(osu());
    assert_eq!(flat.mode, JsGameMode::Osu);
    assert_eq!(flat.stars, float(5.67));
    assert!(!flat.is_convert);
    assert_eq!(flat.aim, Some(float(2.5)));
    assert_eq!(flat.n_large_ticks, Some(20));
    assert_eq!(flat.meh_hit_window, Some(float(100.0)));
    assert_eq!(flat.max_combo, 727);
    assert_eq!(flat.stamina, None);
    assert_eq!(flat.n_fruits, None);
    assert_eq!(flat.n_objects, None);
    assert_eq!(flat.mono_stamina_factor, None);
}

#[test]
fn flat_attributes_of_the_other_modes() {
    let flat = JsDifficultyAttributes::from(taiko());
    assert_eq!(flat.mode, JsGameMode::Taiko);
    assert!(flat.is_convert);
    assert_eq!(flat.color, Some(float(4.0)));
    assert_eq!(flat.aim, None);
    assert_eq!(flat.max_combo, 500);
    let flat = JsDifficultyAttributes::from(catch());
    assert_eq!(flat.mode, JsGameMode::Catch);
    assert_eq!(flat.max_combo, 430);
    assert_eq!(catch().max_combo(), 430);
    assert_eq!(flat.n_tiny_droplets, Some(100));
    assert_eq!(flat.ar, Some(float(9.0)));
    let flat = JsDifficultyAttributes::from(mania());
    assert_eq!(flat.mode, JsGameMode::Mania);
    assert_eq!(flat.n_hold_notes, Some(200));
    assert_eq!(flat.ar, None);
    let wrapping = CatchDifficultyAttributes { n_fruits: u32::MAX, n_droplets: 2, ..catch() };
    assert_eq!(wrapping.max_combo(), 1);
}

#[test]
fn attributes_by_mode_come_back_from_flat_attributes() {
    for attrs in [
        DifficultyAttributes::Osu(osu()),
        DifficultyAttributes::Taiko(taiko()),
        DifficultyAttributes::Catch(catch()),
        DifficultyAttributes::Mania(mania()),
    ] {
        assert_eq!(DifficultyAttributes::try_from(JsDifficultyAttributes::from(attrs)), Ok(attrs));
    }
}

#[test]
fn flat_attributes_that_lack_one_of_their_mode_are_invalid() {
    let mut flat = JsDifficultyAttributes::from(osu());
    flat.speed = None;
    flat.n_spinners = None;
    assert_eq!(
        DifficultyAttributes::try_from(flat),
        Err(DecodeError::MissingRequiredField { name: "speed" })
    );
    let mut flat = JsDifficultyAttributes::from(taiko());
    flat.mono_stamina_factor = None;
    assert_eq!(
        DifficultyAttributes::try_from(flat),
        Err(DecodeError::MissingRequiredField { name: "monoStaminaFactor" })
    );
    let mut flat = JsDifficultyAttributes::from(catch());
    flat.n_droplets = None;
    assert_eq!(
        DifficultyAttributes::try_from(flat),
        Err(DecodeError::MissingRequiredField { name: "nDroplets" })
    );
    let mut flat = JsDifficultyAttributes::from(mania());
    flat.n_objects = None;
    assert_eq!(
        DifficultyAttributes::try_from(flat),
        Err(DecodeError::MissingRequiredField { name: "nObjects" })
    );
    assert_eq!(
        DifficultyAttributes::try_from(JsDifficultyAttributes::default()),
        Err(DecodeError::MissingRequiredField { name: "aim" })
    );
}

#[test]
fn attributes_of_other_modes_are_not_looked_at() {
    let mut flat = JsDifficultyAttributes::from(mania());
    flat.aim = Some(float(1.0));
    flat.n_fruits = Some(3);
    assert_eq!(DifficultyAttributes::try_from(flat), Ok(DifficultyAttributes::Mania(mania())));
}

#[test]
fn flat_attributes_round_trip_through_the_host() {
    for attrs in [
        DifficultyAttributes::Osu(osu()),
        DifficultyAttributes::Taiko(taiko()),
        DifficultyAttributes::Catch(catch()),
        DifficultyAttributes::Mania(mania()),
    ] {
        let flat = JsDifficultyAttributes::from(attrs);
        let value = flat.to_value();
        assert_eq!(JsDifficultyAttributes::deserialize(&JsDeserializer::from_ref(&value)), Ok(flat));
        assert_eq!(MapOrAttrs::from_value(&value), Ok(MapOrAttrs::Attrs(attrs)));
    }
}

#[test]
fn decoded_attributes_need_their_required_fields() {
    let value = Value::instance(
        "DifficultyAttributes",
        vec![
            Entry::new("mode", num(3.0)),
            Entry::new("stars", num(2.0)),
            Entry::new("isConvert", Value::Bool(false)),
        ],
    );
    assert_eq!(
        JsDifficultyAttributes::deserialize(&JsDeserializer::from_ref(&value)),
        Err(DecodeError::MissingRequiredField { name: "maxCombo" })
    );
    let null_stars = Value::instance(
        "DifficultyAttributes",
        vec![Entry::new("mode", num(3.0)), Entry::new("stars", Value::Null)],
    );
    assert_eq!(
        JsDifficultyAttributes::deserialize(&JsDeserializer::from_ref(&null_stars)),
        Err(DecodeError::InvalidType { expected: Description::Float, found: Description::Unit })
    );
    let plain = Value::object(vec![]);
    assert_eq!(
        JsDifficultyAttributes::deserialize(&JsDeserializer::from_ref(&plain)),
        Err(DecodeError::InvalidNominalType {
            expected_name: "DifficultyAttributes",
            found_name: "Object".to_string()
        })
    );
    let whole = Value::instance(
        "DifficultyAttributes",
        vec![
            Entry::new("maxCombo", num(10.0)),
            Entry::new("mode", num(3.0)),
            Entry::new("stars", num(2.0)),
            Entry::new("isConvert", Value::Bool(true)),
            Entry::new("nObjects", num(7.0)),
            Entry::new("unknown", Value::Other),
        ],
    );
    let decoded = JsDifficultyAttributes::deserialize(&JsDeserializer::from_ref(&whole)).unwrap();
    assert_eq!(decoded.mode, JsGameMode::Mania);
    assert_eq!(decoded.max_combo, 10);
    assert_eq!(decoded.n_objects, Some(7));
    assert_eq!(decoded.n_hold_notes, None);
    assert_eq!(
        MapOrAttrs::from_value(&whole),
        Err(DecodeError::MissingRequiredField { name: "nHoldNotes" })
    );
}

fn performances() -> Vec<PerformanceAttributes> {
    vec![
        PerformanceAttributes::Osu(OsuPerformanceAttributes {
            difficulty: osu(),
            pp: float(300.0),
            pp_acc: float(50.0),
            pp_aim: float(150.0),
            pp_flashlight: float(0.0),
            pp_speed: float(100.0),
            effective_miss_count: float(1.5),
        }),
        PerformanceAttributes::Taiko(TaikoPerformanceAttributes {
            difficulty: taiko(),
            pp: float(200.0),
            pp_acc: float(80.0),
            pp_difficulty: float(120.0),
            effective_miss_count: float(0.0),
        }),
        PerformanceAttributes::Catch(CatchPerformanceAttributes {
            difficulty: catch(),
            pp: float(100.0),
        }),
        PerformanceAttributes::Mania(ManiaPerformanceAttributes {
            difficulty: mania(),
            pp: float(50.0),
            pp_difficulty: float(50.0),
        }),
    ]
}

#[test]
fn flat_performance_attributes() {
    let all = performances();
    let flat = JsPerformanceAttributes::from(all[0]);
    assert_eq!(flat.difficulty, JsDifficultyAttributes::from(osu()));
    assert_eq!(flat.pp, float(300.0));
    assert_eq!(flat.pp_aim, Some(float(150.0)));
    assert_eq!(flat.pp_speed, Some(float(100.0)));
    assert_eq!(flat.pp_flashlight, Some(float(0.0)));
    assert_eq!(flat.pp_acc, Some(float(50.0)));
    assert_eq!(flat.effective_miss_count, Some(float(1.5)));
    assert_eq!(flat.pp_difficulty, None);
    assert_eq!(flat.state, None);
    let flat = JsPerformanceAttributes::from(all[1]);
    assert_eq!(flat.pp_difficulty, Some(float(120.0)));
    assert_eq!(flat.pp_aim, None);
    assert_eq!(flat.pp_acc, Some(float(80.0)));
    let flat = JsPerformanceAttributes::from(all[2]);
    assert_eq!(flat.pp, float(100.0));
    assert_eq!(flat.pp_acc, None);
    assert_eq!(flat.effective_miss_count, None);
    let flat = JsPerformanceAttributes::from(all[3]);
    assert_eq!(flat.pp_difficulty, Some(float(50.0)));
    assert_eq!(flat.difficulty.mode, JsGameMode::Mania);
    let state = ScoreState { n300: 5, ..ScoreState::default() };
    let with_state = JsPerformanceAttributes::new(all[0], state);
    assert_eq!(with_state.state, Some(state));
    assert_eq!(with_state.pp, float(300.0));
    assert_eq!(JsPerformanceAttributes::default().pp, float(0.0));
}

#[test]
fn performance_attributes_give_their_difficulty_attributes() {
    for attrs in performances() {
        let flat = JsPerformanceAttributes::new(attrs, ScoreState::default());
        let value = flat.to_value();
        assert_eq!(
            JsPerformanceAttributes::deserialize_difficulty(&JsDeserializer::from_ref(&value)),
            Ok(flat.difficulty)
        );
        assert_eq!(
            MapOrAttrs::from_value(&value),
            Ok(MapOrAttrs::Attrs(DifficultyAttributes::try_from(flat.difficulty).unwrap()))
        );
    }
    let empty = Value::instance("PerformanceAttributes", vec![]);
    assert_eq!(
        JsPerformanceAttributes::deserialize_difficulty(&JsDeserializer::from_ref(&empty)),
        Err(DecodeError::MissingRequiredField { name: "difficulty" })
    );
    let difficulty = JsDifficultyAttributes::from(osu()).to_value();
    assert_eq!(
        JsPerformanceAttributes::deserialize_difficulty(&JsDeserializer::from_ref(&difficulty)),
        Err(DecodeError::InvalidNominalType {
            expected_name: "PerformanceAttributes",
            found_name: "DifficultyAttributes".to_string()
        })
    );
}

#[test]
fn performance_attributes_encode_their_portions() {
    let flat = JsPerformanceAttributes::new(performances()[1], ScoreState::default());
    match flat.to_value() {
        Value::Object { class_name, entries } => {
            assert_eq!(class_name, "PerformanceAttributes");
            let keys: Vec<&str> = entries.iter().map(|entry| entry.key.as_str()).collect();
            assert_eq!(
                keys,
                vec!["pp", "ppAccuracy", "effectiveMissCount", "ppDifficulty", "state", "difficulty"]
            );
            assert_eq!(entries[0].value, num(200.0));
            assert_eq!(entries[3].value, num(120.0));
        }
        _ => panic!("attributes encode to an object"),
    }
}

#[test]
fn flat_beatmap_attributes() {
    let attrs = BeatmapAttributes {
        ar: float(9.0),
        od: float(8.0),
        cs: float(4.0),
        hp: float(5.0),
        clock_rate: float(1.5),
        hit_windows: HitWindows { ar: float(450.0), od_great: float(20.0), od_ok: None },
    };
    let flat = JsBeatmapAttributes::from(attrs);
    assert_eq!(flat.ar, float(9.0));
    assert_eq!(flat.od, float(8.0));
    assert_eq!(flat.cs, float(4.0));
    assert_eq!(flat.hp, float(5.0));
    assert_eq!(flat.clock_rate, float(1.5));
    assert_eq!(flat.ar_hitwindow, float(450.0));
    assert_eq!(flat.od_great_hitwindow, float(20.0));
    assert_eq!(flat.od_ok_hitwindow, None);
}

#[test]
fn flat_strains() {
    let peaks = |seed: f64| vec![float(seed), float(seed + 0.5)];
    let flat = JsStrains::from(Strains::Osu(OsuStrains {
        section_len: float(400.0),
        aim: peaks(1.0),
        aim_no_sliders: peaks(2.0),
        speed: peaks(3.0),
        flashlight: vec![],
    }));
    assert_eq!(flat.mode, JsGameMode::Osu);
    assert_eq!(flat.section_len, float(400.0));
    assert_eq!(flat.aim, Some(peaks(1.0)));
    assert_eq!(flat.aim_no_sliders, Some(peaks(2.0)));
    assert_eq!(flat.flashlight, Some(vec![]));
    assert_eq!(flat.color, None);
    assert_eq!(flat.movement, None);
    let flat = JsStrains::from(Strains::Taiko(TaikoStrains {
        section_len: float(400.0),
        color: peaks(1.0),
        reading: peaks(2.0),
        rhythm: peaks(3.0),
        stamina: peaks(4.0),
        single_color_stamina: peaks(5.0),
    }));
    assert_eq!(flat.mode, JsGameMode::Taiko);
    assert_eq!(flat.section_len, float(400.0));
    assert_eq!(flat.single_color_stamina, Some(peaks(5.0)));
    assert_eq!(flat.aim, None);
    let flat = JsStrains::from(Strains::Catch(CatchStrains {
        section_len: float(750.0),
        movement: peaks(6.0),
    }));
    assert_eq!(flat.mode, JsGameMode::Catch);
    assert_eq!(flat.section_len, float(750.0));
    assert_eq!(flat.movement, Some(peaks(6.0)));
    let flat = JsStrains::from(Strains::Mania(ManiaStrains {
        section_len: float(400.0),
        strains: peaks(7.0),
    }));
    assert_eq!(flat.mode, JsGameMode::Mania);
    assert_eq!(flat.section_len, float(400.0));
    assert_eq!(flat.strains, Some(peaks(7.0)));
    assert_eq!(JsStrains::default().aim, None);
}

#[test]
fn strains_encode_to_arrays() {
    let flat = JsStrains::from(Strains::Catch(CatchStrains {
        section_len: float(750.0),
        movement: vec![float(1.0), float(2.5)],
    }));
    let expected = Value::object(vec![
        Entry::new("mode", num(2.0)),
        Entry::new("sectionLength", num(750.0)),
        Entry::new("movement", Value::Array(vec![num(1.0), num(2.5)])),
    ]);
    assert_eq!(flat.to_value(), expected);
    let osu = JsStrains::from(Strains::Osu(OsuStrains {
        section_len: float(400.0),
        aim: vec![],
        aim_no_sliders: vec![float(1.0)],
        speed: vec![],
        flashlight: vec![],
    }));
    match osu.to_value() {
        Value::Object { entries, .. } => {
            let keys: Vec<&str> = entries.iter().map(|entry| entry.key.as_str()).collect();
            assert_eq!(
                keys,
                vec!["mode", "sectionLength", "aim", "aimNoSliders", "speed", "flashlight"]
            );
        }
        _ => panic!("strains encode to an object"),
    }
}
