//! The result of calculating the strains of a beatmap.
//!
//! Suitable to plot the difficulty over time.

use crate::args::common::one_if;
use crate::mode::JsGameMode;
use crate::number::Number;
use crate::value::{entries_view, Entry, HostEntry, HostValue, items_view, Value};
use vstd::prelude::*;
use vstd::string::StringExecFns;

verus! {

/// The strains of osu!.
#[derive(Debug, PartialEq, Eq)]
pub struct OsuStrains {
    /// Time inbetween two strains in ms.
    pub section_len: Number,
    pub aim: Vec<Number>,
    pub aim_no_sliders: Vec<Number>,
    pub speed: Vec<Number>,
    pub flashlight: Vec<Number>,
}

/// The strains of osu!taiko.
#[derive(Debug, PartialEq, Eq)]
pub struct TaikoStrains {
    /// Time inbetween two strains in ms.
    pub section_len: Number,
    pub color: Vec<Number>,
    pub reading: Vec<Number>,
    pub rhythm: Vec<Number>,
    pub stamina: Vec<Number>,
    pub single_color_stamina: Vec<Number>,
}

/// The strains of osu!catch.
#[derive(Debug, PartialEq, Eq)]
pub struct CatchStrains {
    /// Time inbetween two strains in ms.
    pub section_len: Number,
    pub movement: Vec<Number>,
}

/// The strains of osu!mania.
#[derive(Debug, PartialEq, Eq)]
pub struct ManiaStrains {
    /// Time inbetween two strains in ms.
    pub section_len: Number,
    pub strains: Vec<Number>,
}

/// The strains of a map, by game mode.
#[derive(Debug, PartialEq, Eq)]
pub enum Strains {
    Osu(OsuStrains),
    Taiko(TaikoStrains),
    Catch(CatchStrains),
    Mania(ManiaStrains),
}

/// The result of calculating the strains of a beatmap.
///
/// Suitable to plot the difficulty over time.
#[derive(Debug, PartialEq, Eq)]
pub struct JsStrains {
    /// The strains' gamemode.
    pub mode: JsGameMode,
    /// Time inbetween two strains in ms.
    pub section_len: Number,
    /// Strain peaks of the aim skill in osu!.
    pub aim: Option<Vec<Number>>,
    /// Strain peaks of the aim skill without sliders in osu!.
    pub aim_no_sliders: Option<Vec<Number>>,
    /// Strain peaks of the speed skill in osu!.
    pub speed: Option<Vec<Number>>,
    /// Strain peaks of the flashlight skill in osu!.
    pub flashlight: Option<Vec<Number>>,
    /// Strain peaks of the color skill in osu!taiko.
    pub color: Option<Vec<Number>>,
    /// Strain peaks of the reading skill in osu!taiko.
    pub reading: Option<Vec<Number>>,
    /// Strain peaks of the rhythm skill in osu!taiko.
    pub rhythm: Option<Vec<Number>>,
    /// Strain peaks of the stamina skill in osu!taiko.
    pub stamina: Option<Vec<Number>>,
    /// Strain peaks of the single color stamina skill in osu!taiko.
    pub single_color_stamina: Option<Vec<Number>>,
    /// Strain peaks of the movement skill in osu!catch.
    pub movement: Option<Vec<Number>>,
    /// Strain peaks of the strain skill in osu!mania.
    pub strains: Option<Vec<Number>>,
}

impl Default for JsStrains {
    fn default() -> (r: JsStrains)
        ensures
            r == JsStrains::empty(),
    {
        JsStrains {
            mode: JsGameMode::Osu,
            section_len: Number { bits: 0 },
            aim: None,
            aim_no_sliders: None,
            speed: None,
            flashlight: None,
            color: None,
            reading: None,
            rhythm: None,
            stamina: None,
            single_color_stamina: None,
            movement: None,
            strains: None,
        }
    }
}

impl JsStrains {
    /// Strains of osu! with a section length of zero and no peaks at all.
    pub open spec fn empty() -> JsStrains {
        JsStrains {
            mode: JsGameMode::Osu,
            section_len: Number { bits: 0 },
            aim: None,
            aim_no_sliders: None,
            speed: None,
            flashlight: None,
            color: None,
            reading: None,
            rhythm: None,
            stamina: None,
            single_color_stamina: None,
            movement: None,
            strains: None,
        }
    }

    /// The flat strains that stand for the strains of a mode: the mode, its
    /// section length, the peaks of the skills that the mode has, and nothing
    /// of the other modes.
    pub open spec fn of(strains: Strains) -> JsStrains {
        match strains {
            Strains::Osu(strains) => JsStrains {
                mode: JsGameMode::Osu,
                section_len: strains.section_len,
                aim: Some(strains.aim),
                aim_no_sliders: Some(strains.aim_no_sliders),
                speed: Some(strains.speed),
                flashlight: Some(strains.flashlight),
                ..Self::empty()
            },
            Strains::Taiko(strains) => JsStrains {
                mode: JsGameMode::Taiko,
                section_len: strains.section_len,
                color: Some(strains.color),
                reading: Some(strains.reading),
                rhythm: Some(strains.rhythm),
                stamina: Some(strains.stamina),
                single_color_stamina: Some(strains.single_color_stamina),
                ..Self::empty()
            },
            Strains::Catch(strains) => JsStrains {
                mode: JsGameMode::Catch,
                section_len: strains.section_len,
                movement: Some(strains.movement),
                ..Self::empty()
            },
            Strains::Mania(strains) => JsStrains {
                mode: JsGameMode::Mania,
                section_len: strains.section_len,
                strains: Some(strains.strains),
                ..Self::empty()
            },
        }
    }
}

/// The array of numbers that stands for strain peaks.
pub open spec fn peaks_value(peaks: Seq<Number>) -> HostValue {
    HostValue::Array(Seq::new(peaks.len(), |i: int| HostValue::Number(peaks[i])))
}

/// The entry that stands for the peaks of a skill, where the skill is there.
pub open spec fn peaks_entry(key: Seq<char>, peaks: Option<Vec<Number>>) -> Option<HostEntry> {
    match peaks {
        Some(peaks) => Some(HostEntry { key, value: peaks_value(peaks@) }),
        None => None,
    }
}

/// Adds the entry for the peaks of a skill that is there.
fn push_peaks(entries: &mut Vec<Entry>, key: &'static str, peaks: &Option<Vec<Number>>)
    ensures
        entries_view(final(entries)@) == entries_view(old(entries)@) + one_if(
            peaks_entry(key@, *peaks),
        ),
{
    match peaks {
        Some(peaks) => {
            let mut items: Vec<Value> = Vec::new();
            let mut i: usize = 0;
            while i < peaks.len()
                invariant
                    i <= peaks.len(),
                    items.len() == i,
                    forall|j: int| 0 <= j < i ==> items[j]@ == HostValue::Number(peaks[j]),
                decreases peaks.len() - i,
            {
                items.push(Value::Number(peaks[i]));
                i = i + 1;
            }
            assert(items_view(items@) =~= Seq::new(
                peaks@.len(),
                |i: int| HostValue::Number(peaks@[i]),
            ));
            let entry = Entry { key: String::from_str(key), value: Value::Array(items) };
            entries.push(entry);
            assert(entries_view(final(entries)@) =~= entries_view(old(entries)@) + seq![entry@]);
        },
        None => {
            assert(entries_view(entries@) =~= entries_view(old(entries)@) + Seq::empty());
        },
    }
}

impl JsStrains {
    /// The entries for the peaks of the skills that are there, in the order
    /// of the fields.
    pub open spec fn peaks_entries(self) -> Seq<HostEntry> {
        one_if(peaks_entry("aim"@, self.aim)) + one_if(peaks_entry("aimNoSliders"@, self.aim_no_sliders)) + one_if(peaks_entry("speed"@, self.speed)) + one_if(peaks_entry("flashlight"@, self.flashlight)) + one_if(peaks_entry("color"@, self.color)) + one_if(peaks_entry("reading"@, self.reading)) + one_if(peaks_entry("rhythm"@, self.rhythm)) + one_if(peaks_entry("stamina"@, self.stamina)) + one_if(peaks_entry("singleColorStamina"@, self.single_color_stamina)) + one_if(peaks_entry("movement"@, self.movement)) + one_if(peaks_entry("strains"@, self.strains))
    }

    /// Adds the entries for the peaks of the skills of osu!.
    fn push_osu_peaks(&self, entries: &mut Vec<Entry>)
        ensures
            entries_view(final(entries)@) == entries_view(old(entries)@) + one_if(peaks_entry("aim"@, self.aim)) + one_if(peaks_entry("aimNoSliders"@, self.aim_no_sliders)) + one_if(peaks_entry("speed"@, self.speed)) + one_if(peaks_entry("flashlight"@, self.flashlight)),
    {
        push_peaks(entries, "aim", &self.aim);
        push_peaks(entries, "aimNoSliders", &self.aim_no_sliders);
        push_peaks(entries, "speed", &self.speed);
        push_peaks(entries, "flashlight", &self.flashlight);
    }

    /// Adds the entries for the peaks of the skills of osu!taiko.
    fn push_taiko_peaks(&self, entries: &mut Vec<Entry>)
        ensures
            entries_view(final(entries)@) == entries_view(old(entries)@) + one_if(peaks_entry("color"@, self.color)) + one_if(peaks_entry("reading"@, self.reading)) + one_if(peaks_entry("rhythm"@, self.rhythm)) + one_if(peaks_entry("stamina"@, self.stamina)) + one_if(peaks_entry("singleColorStamina"@, self.single_color_stamina)),
    {
        push_peaks(entries, "color", &self.color);
        push_peaks(entries, "reading", &self.reading);
        push_peaks(entries, "rhythm", &self.rhythm);
        push_peaks(entries, "stamina", &self.stamina);
        push_peaks(entries, "singleColorStamina", &self.single_color_stamina);
    }

    /// The plain object that stands for the strains: the mode as its integer
    /// under `mode`, the section length under `sectionLength`, and one array
    /// for each skill that is there.
    pub open spec fn encode(self) -> HostValue {
        HostValue::Object {
            class_name: "Object"@,
            entries: seq![
                HostEntry { key: "mode"@, value: self.mode.encode() },
                HostEntry { key: "sectionLength"@, value: HostValue::Number(self.section_len) },
            ] + self.peaks_entries(),
        }
    }

    /// The plain object that stands for the strains.
    pub fn to_value(&self) -> (r: Value)
        ensures
            r@ == self.encode(),
    {
        let mut entries: Vec<Entry> = Vec::new();
        entries.push(Entry { key: String::from_str("mode"), value: self.mode.to_value() });
        entries.push(
            Entry { key: String::from_str("sectionLength"), value: Value::Number(self.section_len) },
        );
        let ghost head = entries_view(entries@);
        assert(head.len() == 2 && head[0] == entries[0]@ && head[1] == entries[1]@);
        let mut peaks: Vec<Entry> = Vec::new();
        assert(entries_view(peaks@) =~= Seq::empty());
        self.push_osu_peaks(&mut peaks);
        assert(entries_view(peaks@) =~= one_if(peaks_entry("aim"@, self.aim)) + one_if(peaks_entry("aimNoSliders"@, self.aim_no_sliders)) + one_if(peaks_entry("speed"@, self.speed)) + one_if(peaks_entry("flashlight"@, self.flashlight)));
        self.push_taiko_peaks(&mut peaks);
        push_peaks(&mut peaks, "movement", &self.movement);
        push_peaks(&mut peaks, "strains", &self.strains);
        let ghost tail = entries_view(peaks@);
        entries.append(&mut peaks);
        proof {
            let all = entries_view(entries@);
            assert(all =~= head + tail);
            assert(head =~= seq![
                HostEntry { key: "mode"@, value: self.mode.encode() },
                HostEntry { key: "sectionLength"@, value: HostValue::Number(self.section_len) },
            ]);
        }
        Value::Object { class_name: String::from_str("Object"), entries }
    }
}

impl From<Strains> for JsStrains {
    fn from(strains: Strains) -> (r: Self)
        ensures
            r == JsStrains::of(strains),
    {
        let mut r = JsStrains::default();
        match strains {
            Strains::Osu(strains) => {
                r.mode = JsGameMode::Osu;
                r.section_len = strains.section_len;
                r.aim = Some(strains.aim);
                r.aim_no_sliders = Some(strains.aim_no_sliders);
                r.speed = Some(strains.speed);
                r.flashlight = Some(strains.flashlight);
            },
            Strains::Taiko(strains) => {
                r.mode = JsGameMode::Taiko;
                r.section_len = strains.section_len;
                r.color = Some(strains.color);
                r.reading = Some(strains.reading);
                r.rhythm = Some(strains.rhythm);
                r.stamina = Some(strains.stamina);
                r.single_color_stamina = Some(strains.single_color_stamina);
            },
            Strains::Catch(strains) => {
                r.mode = JsGameMode::Catch;
                r.section_len = strains.section_len;
                r.movement = Some(strains.movement);
            },
            Strains::Mania(strains) => {
                r.mode = JsGameMode::Mania;
                r.section_len = strains.section_len;
                r.strains = Some(strains.strains);
            },
        }
        r
    }
}

impl vstd::std_specs::convert::FromSpecImpl<Strains> for JsStrains {
    open spec fn obeys_from_spec() -> bool {
        true
    }

    open spec fn from_spec(strains: Strains) -> Self {
        JsStrains::of(strains)
    }
}

} // verus!
