use rosu_pp_js::args::beatmap::{BeatmapArgs, BeatmapContent};
use rosu_pp_js::deserializer::JsDeserializer;
use rosu_pp_js::error::{DecodeError, Description};
use rosu_pp_js::number::Number;
use rosu_pp_js::value::Entry;
use rosu_pp_js::beatmap::{HitKind, JsBeatmap};
use rosu_pp_js::error::JsError;
use rosu_pp_js::mode::JsGameMode;
use rosu_pp_js::value::Value;

const CONTENT: &str = "osu file format v14\n\n[General]\nMode: 0\n\n[Difficulty]\nHPDrainRate:5\nCircleSize:4\nOverallDifficulty:8\nApproachRate:9\nSliderMultiplier:1.4\nSliderTickRate:1\n\n[Events]\n2,6000,9000\n\n[TimingPoints]\n0,500,4,2,0,100,1,0\n\n[HitObjects]\n256,192,1000,1,0,0:0:0:0:\n100,100,2000,2,0,L|200:100,1,100\n256,192,3000,12,0,4000,0:0:0:0:\n50,50,5000,5,0,0:0:0:0:\n";

const MANIA: &str = "osu file format v14\n\n[General]\nMode: 3\n\n[Difficulty]\nCircleSize:4\n\n[TimingPoints]\n0,500,4,2,0,100,1,0\n\n[HitObjects]\n64,192,1000,1,0,0:0:0:0:\n192,192,1500,128,0,2500:0:0:0:0:\n320,192,2000,128,0,3000:0:0:0:0:\n";

#[test]
fn a_beatmap_parses_from_a_string() {
    let map = JsBeatmap::new(&Value::string(CONTENT)).unwrap();
    assert_eq!(map.n_objects(), 4);
    assert_eq!(map.n_circles(), 2);
    assert_eq!(map.n_sliders(), 1);
    assert_eq!(map.n_spinners(), 1);
    assert_eq!(map.n_holds(), 0);
    assert_eq!(map.n_of_kind(HitKind::Circle), 2);
    assert_eq!(map.n_breaks(), 1);
    assert_eq!(map.mode(), JsGameMode::Osu);
    assert_eq!(map.version(), 14);
    assert!(!map.is_convert());
    assert!(!map.is_suspicious());
}

#[test]
fn a_beatmap_parses_the_same_from_bytes() {
    let text = JsBeatmap::new(&Value::string(CONTENT)).unwrap();
    let bytes = JsBeatmap::new(&Value::Bytes(CONTENT.as_bytes().to_vec())).unwrap();
    assert_eq!(text.inner(), bytes.inner());
    let content = BeatmapContent { bytes: CONTENT.as_bytes().to_vec() };
    assert_eq!(JsBeatmap::from_content(&content).unwrap().inner(), text.inner());
}

#[test]
fn hold_notes_are_counted() {
    let map = JsBeatmap::new(&Value::string(MANIA)).unwrap();
    assert_eq!(map.mode(), JsGameMode::Mania);
    assert_eq!(map.n_objects(), 3);
    assert_eq!(map.n_circles(), 1);
    assert_eq!(map.n_holds(), 2);
    assert_eq!(map.n_sliders(), 0);
    assert_eq!(map.n_spinners(), 0);
}

#[test]
fn an_empty_file_is_an_empty_beatmap() {
    let map = JsBeatmap::new(&Value::string("")).unwrap();
    assert_eq!(map.n_objects(), 0);
    assert_eq!(map.n_circles(), 0);
    assert_eq!(map.n_breaks(), 0);
}

#[test]
fn what_is_neither_bytes_nor_text_is_no_content() {
    let error = JsBeatmap::new(&Value::Null).err().unwrap();
    assert_eq!(error, JsError::new("expected a Uint8Array or a string, found unit"));
    let error = JsBeatmap::new(&Value::Array(vec![])).err().unwrap();
    assert_eq!(error.message, "expected a Uint8Array or a string, found other");
}

fn args(value: &Value) -> Result<BeatmapArgs, DecodeError> {
    BeatmapArgs::deserialize(&JsDeserializer::from_ref(value))
}

fn content(text: &str) -> BeatmapContent {
    BeatmapContent { bytes: text.as_bytes().to_vec() }
}

#[test]
fn construction_arguments_from_the_content_itself() {
    assert_eq!(args(&Value::string("abc")), Ok(BeatmapArgs { content: content("abc"), mode: None }));
    assert_eq!(
        args(&Value::Bytes(vec![0x61, 0x62, 0x63])),
        Ok(BeatmapArgs { content: content("abc"), mode: None })
    );
}

#[test]
fn construction_arguments_from_an_object() {
    let mode = Value::Number(Number::from_bits(3.0f64.to_bits()));
    let bytes = Value::object(vec![
        Entry::new("mode", mode),
        Entry::new("bytes", Value::Bytes(vec![0x61])),
    ]);
    assert_eq!(
        args(&bytes),
        Ok(BeatmapArgs { content: content("a"), mode: Some(JsGameMode::Mania) })
    );
    let text = Value::object(vec![Entry::new("content", Value::string("b"))]);
    assert_eq!(args(&text), Ok(BeatmapArgs { content: content("b"), mode: None }));
}

#[test]
fn the_first_content_that_is_present_wins() {
    let both = Value::object(vec![
        Entry::new("content", Value::string("text")),
        Entry::new("bytes", Value::Bytes(vec![0x62])),
    ]);
    assert_eq!(args(&both), Ok(BeatmapArgs { content: content("b"), mode: None }));
    let null_bytes = Value::object(vec![
        Entry::new("bytes", Value::Null),
        Entry::new("content", Value::string("text")),
        Entry::new("mode", Value::Undefined),
    ]);
    assert_eq!(args(&null_bytes), Ok(BeatmapArgs { content: content("text"), mode: None }));
}

#[test]
fn construction_arguments_that_hold_no_content_fail() {
    assert_eq!(
        args(&Value::object(vec![])),
        Err(DecodeError::MissingRequiredField { name: "bytes" })
    );
    assert_eq!(
        args(&Value::object(vec![Entry::new("bytes", Value::Bool(true))])),
        Err(DecodeError::InvalidType {
            expected: Description::BytesOrString,
            found: Description::Bool
        })
    );
    assert_eq!(
        args(&Value::object(vec![
            Entry::new("bytes", Value::Bytes(vec![])),
            Entry::new("mode", Value::string("mania")),
        ])),
        Err(DecodeError::InvalidType {
            expected: Description::SafeInteger,
            found: Description::Str
        })
    );
    assert_eq!(
        args(&Value::Bool(true)),
        Err(DecodeError::InvalidType {
            expected: Description::BytesOrString,
            found: Description::Bool
        })
    );
    assert!(matches!(
        args(&Value::instance("Beatmap", vec![])),
        Err(DecodeError::InvalidNominalType { expected_name: "Object", .. })
    ));
    let error = JsBeatmap::new(&Value::object(vec![])).err().unwrap();
    assert_eq!(error.message, "missing required field `bytes`");
}

#[test]
fn construction_arguments_round_trip() {
    for sample in [
        BeatmapArgs { content: content(CONTENT), mode: None },
        BeatmapArgs { content: content(""), mode: Some(JsGameMode::Taiko) },
    ] {
        assert_eq!(args(&sample.to_value()), Ok(sample));
    }
    let map = JsBeatmap::new(&BeatmapArgs { content: content(MANIA), mode: None }.to_value());
    assert_eq!(map.unwrap().n_holds(), 2);
}

#[test]
fn a_huge_taiko_map_is_suspicious() {
    let mut text = String::from("osu file format v14\n\n[General]\nMode: 1\n\n[HitObjects]\n");
    for i in 0..20_001 {
        text.push_str(&format!("256,192,{},1,0,0:0:0:0:\n", 1000 + i * 100));
    }
    let map = JsBeatmap::new(&Value::string(&text)).unwrap();
    assert_eq!(map.mode(), JsGameMode::Taiko);
    assert_eq!(map.n_objects(), 20_001);
    assert!(map.is_suspicious());
    assert!(!map.is_convert());
    assert_eq!(map.n_breaks(), 0);
    let other = JsBeatmap::new(&Value::string("osu file format v9\n")).unwrap();
    assert_eq!(other.version(), 9);
    assert!(!other.is_suspicious());
}

const OSU: &str = "osu file format v14\n\n[General]\nMode: 0\n\n[Difficulty]\nCircleSize:4\nOverallDifficulty:8\n\n[TimingPoints]\n0,500,4,2,0,100,1,0\n\n[HitObjects]\n256,192,1000,1,0,0:0:0:0:\n100,100,2000,1,0,0:0:0:0:\n";

#[test]
fn an_osu_map_converts_once() {
    let mods = rosu_pp::GameMods::default();
    let mut map = JsBeatmap::new(&Value::string(OSU)).unwrap();
    assert_eq!(map.convert(JsGameMode::Osu, &mods), Ok(()));
    assert!(!map.is_convert());
    assert_eq!(map.convert(JsGameMode::Taiko, &mods), Ok(()));
    assert_eq!(map.mode(), JsGameMode::Taiko);
    assert!(map.is_convert());
    assert_eq!(map.convert(JsGameMode::Taiko, &mods), Ok(()));
    assert!(map.convert(JsGameMode::Mania, &mods).is_err());
    assert_eq!(map.mode(), JsGameMode::Taiko);
    assert!(!map.is_suspicious());
}

#[test]
fn only_osu_maps_convert() {
    let mods = rosu_pp::GameMods::default();
    let mania = JsBeatmap::new(&Value::string(MANIA)).unwrap();
    assert!(mania.converted(JsGameMode::Catch, &mods).is_err());
    assert!(mania.converted(JsGameMode::Osu, &mods).is_err());
    let same = mania.converted(JsGameMode::Mania, &mods).unwrap();
    assert_eq!(same.inner(), mania.inner());
    let osu = JsBeatmap::new(&Value::string(OSU)).unwrap();
    let keys = osu.converted(JsGameMode::Mania, &mods).unwrap();
    assert_eq!(keys.mode(), JsGameMode::Mania);
    assert!(keys.is_convert());
    assert!(!keys.is_suspicious());
    assert_eq!(osu.mode(), JsGameMode::Osu);
}

#[test]
fn construction_arguments_convert_to_their_mode() {
    let mode = Value::Number(Number::from_bits(2.0f64.to_bits()));
    let map = JsBeatmap::new(&Value::object(vec![
        Entry::new("content", Value::string(OSU)),
        Entry::new("mode", mode.clone()),
    ]))
    .unwrap();
    assert_eq!(map.mode(), JsGameMode::Catch);
    assert!(map.is_convert());
    let refused = JsBeatmap::new(&Value::object(vec![
        Entry::new("content", Value::string(MANIA)),
        Entry::new("mode", mode),
    ]));
    assert!(refused.is_err());
}

#[test]
fn an_osu_map_converts_to_mania_under_each_key_mod() {
    let osu = JsBeatmap::new(&Value::string(CONTENT)).unwrap();
    let keys: [u32; 10] =
        [0, 1 << 26, 1 << 28, 1 << 27, 1 << 15, 1 << 16, 1 << 17, 1 << 18, 1 << 19, 1 << 24];
    for bits in keys {
        let mods = rosu_pp::GameMods::from(bits);
        let mania = osu.converted(JsGameMode::Mania, &mods).unwrap();
        assert_eq!(mania.mode(), JsGameMode::Mania);
        assert!(mania.is_convert());
        assert!(!mania.is_suspicious());
        assert_eq!(mania.version(), 14);
        assert_eq!(mania.n_sliders(), 0);
        assert_eq!(mania.n_spinners(), 0);
        assert_eq!(mania.n_circles() + mania.n_holds(), mania.n_objects());
    }
    assert_eq!(osu.mode(), JsGameMode::Osu);
    assert_eq!(osu.n_objects(), 4);
}
