//! Beatmaps.
//!
//! A [`JsBeatmap`] holds a beatmap as the beatmap library parses it from the
//! content of a `.osu` file. What the library's own structure holds is not
//! visible here. What is read of it is given names: whether some bytes parse
//! at all, of what kinds the parsed hit objects are, and the few properties of
//! a beatmap that this module hands out. The counts by kind are proved over
//! the kinds.
//!
//! A [`JsBeatmap`] can only be parsed, or converted from another: so whatever
//! one holds is what the beatmap library itself built. A conversion to
//! another mode is the beatmap library's work too; when it succeeds, and in
//! which mode its outcome is, is stated here.
//!
//! Where a caller hands a beatmap in as an argument, the host value is an
//! instance of the type named `Beatmap` that carries the handle by which its
//! owner finds it. Decoding such a value checks the type's name and captures
//! the handle as a [`BeatmapRef`]; it reads nothing else of the object and
//! takes no ownership of what the handle stands for.

use crate::args::beatmap::{BeatmapArgs, BeatmapArgsView, BeatmapContent};
use crate::deserializer::{decode_struct, decode_unsigned, JsDeserializer, outcome};
use crate::error::{DecodeError, DecodeErrorView, JsError};
use crate::mode::JsGameMode;
use crate::number::{Number, number_of};
use crate::value::{entries_view, Entry, HostEntry, HostValue, lookup, lookup_entry, Value};
use vstd::arithmetic::power2::lemma2_to64;
use vstd::prelude::*;
use vstd::string::StringExecFns;

verus! {

/// The name that the type of a beatmap reports.
pub const BEATMAP_CLASS: &'static str = "Beatmap";

/// The key under which an instance carries its handle.
pub const POINTER_FIELD: &'static str = "__wbg_ptr";

/// How the message of a failed parse begins.
pub const PARSE_FAILURE: &'static str = "Failed to decode beatmap: ";

/// The beatmap library's beatmap. Nothing of it is visible to a proof.
#[verifier::external_type_specification]
#[verifier::external_body]
pub struct ExBeatmap(rosu_pp::Beatmap);

/// The beatmap library's mods, with the settings of each. Nothing of them is
/// visible to a proof.
#[verifier::external_type_specification]
#[verifier::external_body]
pub struct ExMods(rosu_pp::GameMods);

/// The kind of a hit object.
#[derive(Clone, Copy, Debug, PartialEq, Eq, Hash, Structural)]
pub enum HitKind {
    Circle,
    Slider,
    Spinner,
    Hold,
}

/// Whether the bytes parse as the content of a `.osu` file.
pub uninterp spec fn beatmap_parses(bytes: Seq<u8>) -> bool;

/// The kinds of the hit objects of a beatmap, in the beatmap's order.
pub uninterp spec fn hit_object_kinds(map: rosu_pp::Beatmap) -> Seq<HitKind>;

/// The kinds of the hit objects that the bytes parse to, in order.
pub uninterp spec fn parsed_kinds(bytes: Seq<u8>) -> Seq<HitKind>;

/// How many break periods the bytes parse to.
pub uninterp spec fn parsed_breaks(bytes: Seq<u8>) -> nat;

/// The game mode that the bytes parse to.
pub uninterp spec fn parsed_mode(bytes: Seq<u8>) -> rosu_pp::model::mode::GameMode;

/// The version of the file format that the bytes parse to.
pub uninterp spec fn parsed_version(bytes: Seq<u8>) -> i32;

/// Whether a beatmap is one that the parser hands out or that a conversion
/// leaves: its values are within the bounds that the parser keeps.
pub uninterp spec fn well_formed(map: rosu_pp::Beatmap) -> bool;

/// Whether a beatmap is what the bytes parse to, as far as this module reads
/// a beatmap: hit objects, breaks, mode and version as the bytes give them,
/// and no convert.
pub open spec fn is_parsed_from(map: rosu_pp::Beatmap, bytes: Seq<u8>) -> bool {
    &&& hit_object_kinds(map) == parsed_kinds(bytes)
    &&& break_count(map) == parsed_breaks(bytes)
    &&& beatmap_mode(map) == parsed_mode(bytes)
    &&& beatmap_version(map) == parsed_version(bytes)
    &&& !beatmap_is_convert(map)
}

/// Whether a beatmap of the mode `from` can be brought to the mode `to`: it
/// is in that mode already, or it is an osu! map that was not converted
/// before.
pub open spec fn can_convert(
    from: rosu_pp::model::mode::GameMode,
    is_convert: bool,
    to: rosu_pp::model::mode::GameMode,
) -> bool {
    from == to || (!is_convert && from is Osu)
}

/// How many break periods a beatmap has.
pub uninterp spec fn break_count(map: rosu_pp::Beatmap) -> nat;

/// The game mode of a beatmap.
pub uninterp spec fn beatmap_mode(map: rosu_pp::Beatmap) -> rosu_pp::model::mode::GameMode;

/// The version of the file format that a beatmap was written in.
pub uninterp spec fn beatmap_version(map: rosu_pp::Beatmap) -> i32;

/// Whether a beatmap was converted from another mode.
pub uninterp spec fn beatmap_is_convert(map: rosu_pp::Beatmap) -> bool;

/// Whether the beatmap library's check finds a beatmap too suspicious for
/// further calculation.
pub uninterp spec fn too_suspicious(map: rosu_pp::Beatmap) -> bool;

/// How many of the kinds are `kind`.
pub open spec fn count_kind(kinds: Seq<HitKind>, kind: HitKind) -> nat
    decreases kinds.len(),
{
    if kinds.len() == 0 {
        0
    } else {
        count_kind(kinds.drop_last(), kind) + if kinds.last() == kind {
            1nat
        } else {
            0nat
        }
    }
}

/// No more of the kinds are `kind` than there are kinds.
pub proof fn lemma_count_kind_bounded(kinds: Seq<HitKind>, kind: HitKind)
    ensures
        count_kind(kinds, kind) <= kinds.len(),
    decreases kinds.len(),
{
    if kinds.len() > 0 {
        lemma_count_kind_bounded(kinds.drop_last(), kind);
    }
}

/// Calls `rosu_pp::Beatmap::from_bytes`. The parse depends on the bytes
/// alone. The claims: it succeeds exactly on the bytes that
/// [`beatmap_parses`] names; what it hands out is well formed, since the
/// parser clamps what it reads; its hit objects, breaks, mode and version are
/// those that the names for the bytes give; and it is no convert, which the
/// parser never sets. A failure is handed on as its text.
#[verifier::external_body]
fn from_bytes(bytes: &[u8]) -> (r: Result<rosu_pp::Beatmap, String>)
    ensures
        r is Ok == beatmap_parses(bytes@),
        r matches Ok(map) ==> well_formed(map),
        r matches Ok(map) ==> hit_object_kinds(map) == parsed_kinds(bytes@),
        r matches Ok(map) ==> break_count(map) == parsed_breaks(bytes@),
        r matches Ok(map) ==> beatmap_mode(map) == parsed_mode(bytes@),
        r matches Ok(map) ==> beatmap_version(map) == parsed_version(bytes@),
        r matches Ok(map) ==> !beatmap_is_convert(map),
{
    rosu_pp::Beatmap::from_bytes(bytes).map_err(|e| e.to_string())
}

/// Calls `rosu_pp::Beatmap::convert_ref` and takes the outcome as a beatmap
/// of its own. The claims are what the function's first lines show: a
/// beatmap that is in the mode already comes back as it is; otherwise a
/// beatmap that was converted before, or that is no osu! map, is refused;
/// otherwise the beatmap is converted, is in the mode and is a convert. What
/// a conversion leaves is well formed: the converters keep the values that
/// the parser clamped, and the key count that the mania converter sets is
/// small. A refusal is handed on as its text. The converters compute with
/// the values that the parser clamps, so only well-formed beatmaps are
/// handed to them.
#[verifier::external_body]
fn convert_ref(
    map: &rosu_pp::Beatmap,
    mode: rosu_pp::model::mode::GameMode,
    mods: &rosu_pp::GameMods,
) -> (r: Result<rosu_pp::Beatmap, String>)
    requires
        well_formed(*map),
    ensures
        r is Ok == can_convert(beatmap_mode(*map), beatmap_is_convert(*map), mode),
        r matches Ok(converted) ==> well_formed(converted),
        r matches Ok(converted) ==> beatmap_mode(converted) == mode,
        r matches Ok(converted) ==> (beatmap_mode(*map) == mode ==> converted == *map),
        r matches Ok(converted) ==> (beatmap_mode(*map) != mode ==> beatmap_is_convert(converted)),
{
    map.convert_ref(mode, mods)
        .map(|converted| converted.into_owned())
        .map_err(|e| e.to_string())
}

/// Calls `rosu_pp::GameMods::default`: no mods. Nothing is claimed of it.
#[verifier::external_body]
fn no_mods() -> rosu_pp::GameMods {
    rosu_pp::GameMods::default()
}

/// Reads the length of the `hit_objects` of a `rosu_pp::Beatmap`: the claim
/// is that it is the length of what [`hit_object_kinds`] names.
#[verifier::external_body]
fn hit_objects_len(map: &rosu_pp::Beatmap) -> (n: usize)
    ensures
        n == hit_object_kinds(*map).len(),
{
    map.hit_objects.len()
}

/// Reads the `kind` of one of the `hit_objects` of a `rosu_pp::Beatmap` and
/// tells its four variants apart: the claim is that it is the kind that
/// [`hit_object_kinds`] names at that place.
#[verifier::external_body]
fn hit_object_kind(map: &rosu_pp::Beatmap, i: usize) -> (kind: HitKind)
    requires
        i < hit_object_kinds(*map).len(),
    ensures
        kind == hit_object_kinds(*map)[i as int],
{
    match map.hit_objects[i].kind {
        rosu_pp::model::hit_object::HitObjectKind::Circle => HitKind::Circle,
        rosu_pp::model::hit_object::HitObjectKind::Slider(_) => HitKind::Slider,
        rosu_pp::model::hit_object::HitObjectKind::Spinner(_) => HitKind::Spinner,
        rosu_pp::model::hit_object::HitObjectKind::Hold(_) => HitKind::Hold,
    }
}

/// Reads the length of the `breaks` of a `rosu_pp::Beatmap`: the claim is
/// that it is what [`break_count`] names, a property of the beatmap alone.
#[verifier::external_body]
fn breaks_len(map: &rosu_pp::Beatmap) -> (n: usize)
    ensures
        n == break_count(*map),
{
    map.breaks.len()
}

/// Calls `rosu_pp::Beatmap::check_suspicion` and says whether it objects.
/// The check looks at the beatmap and at nothing else; the claim is that its
/// answer is what [`too_suspicious`] names. The check multiplies the circle
/// size of a mania map, so it is asked of well-formed beatmaps only, whose
/// circle size is small.
#[verifier::external_body]
fn check_suspicion(map: &rosu_pp::Beatmap) -> (suspicious: bool)
    requires
        well_formed(*map),
    ensures
        suspicious == too_suspicious(*map),
{
    map.check_suspicion().is_err()
}

/// Reads the `mode` of a `rosu_pp::Beatmap`: the claim is that it is what
/// [`beatmap_mode`] names.
#[verifier::external_body]
fn mode_of(map: &rosu_pp::Beatmap) -> (mode: rosu_pp::model::mode::GameMode)
    ensures
        mode == beatmap_mode(*map),
{
    map.mode
}

/// Reads the `version` of a `rosu_pp::Beatmap`: the claim is that it is what
/// [`beatmap_version`] names.
#[verifier::external_body]
fn version_of(map: &rosu_pp::Beatmap) -> (version: i32)
    ensures
        version == beatmap_version(*map),
{
    map.version
}

/// Reads the `is_convert` of a `rosu_pp::Beatmap`: the claim is that it is
/// what [`beatmap_is_convert`] names.
#[verifier::external_body]
fn is_convert_of(map: &rosu_pp::Beatmap) -> (is_convert: bool)
    ensures
        is_convert == beatmap_is_convert(*map),
{
    map.is_convert
}

/// All beatmap data that is relevant for difficulty and performance
/// calculation.
///
/// A beatmap is made by parsing and changed by converting, and in no other
/// way: what it holds is always well formed.
pub struct JsBeatmap {
    inner: rosu_pp::Beatmap,
}

/// A reference to a beatmap that lives with its owner: the handle alone.
#[derive(Copy, Clone, Debug, PartialEq, Eq, Hash, Structural)]
pub struct BeatmapRef {
    pub ptr: u32,
}

/// A reference to a beatmap decodes from an object whose type reports the
/// name `Beatmap` and that holds an unsigned integer of thirty-two bits under
/// its handle's key. An object of another type is rejected by name, whatever
/// it holds.
pub open spec fn decode_beatmap(v: HostValue) -> Result<BeatmapRef, DecodeErrorView> {
    match decode_struct(v, BEATMAP_CLASS@) {
        Err(e) => Err(e),
        Ok(entries) => match lookup(entries, POINTER_FIELD@) {
            None => Err(DecodeErrorView::MissingRequiredField { name: POINTER_FIELD@ }),
            Some(p) => match decode_unsigned(p, 32, POINTER_FIELD@) {
                Ok(n) => Ok(BeatmapRef { ptr: n as u32 }),
                Err(e) => Err(e),
            },
        },
    }
}

/// A beatmap is told by the name of its type and taken by its handle. An
/// object that reports another name is rejected by that name, whatever entries
/// it carries; of an object that reports the right name nothing but the
/// handle is read, so two such objects with the same handle decode alike.
pub proof fn lemma_branded_by_name(
    class_name: Seq<char>,
    entries: Seq<HostEntry>,
    others: Seq<HostEntry>,
)
    ensures
        class_name != BEATMAP_CLASS@ ==> decode_beatmap(HostValue::Object { class_name, entries })
            == Err::<BeatmapRef, _>(
            DecodeErrorView::InvalidNominalType {
                expected_name: BEATMAP_CLASS@,
                found_name: class_name,
            },
        ),
        lookup(entries, POINTER_FIELD@) == lookup(others, POINTER_FIELD@) ==> decode_beatmap(
            HostValue::Object { class_name: BEATMAP_CLASS@, entries },
        ) == decode_beatmap(HostValue::Object { class_name: BEATMAP_CLASS@, entries: others }),
{
}

/// What parsing and then converting gives for a beatmap: with no mode to
/// convert to, the parsed beatmap; with a mode, a beatmap in that mode
/// exactly where the parsed one is in it already or is an osu! map.
pub open spec fn is_converted_outcome(
    bytes: Seq<u8>,
    mode: Option<JsGameMode>,
    r: Result<JsBeatmap, JsError>,
) -> bool {
    match mode {
        None => r is Ok && is_parsed_from(r->Ok_0.map(), bytes),
        Some(mode) => if can_convert(parsed_mode(bytes), false, mode.to_game_mode()) {
            &&& r is Ok
            &&& beatmap_mode(r->Ok_0.map()) == mode.to_game_mode()
            &&& parsed_mode(bytes) == mode.to_game_mode() ==> is_parsed_from(r->Ok_0.map(), bytes)
            &&& parsed_mode(bytes) != mode.to_game_mode() ==> beatmap_is_convert(r->Ok_0.map())
        } else {
            r is Err
        },
    }
}

/// What making a beatmap from a host value must give: where the value does
/// not decode as construction arguments, the failure that says why; where
/// the content does not parse, a failure whose message begins with
/// [`PARSE_FAILURE`]; otherwise what parsing the content and converting to
/// the mode of the arguments gives.
pub open spec fn is_parse_outcome(args: HostValue, r: Result<JsBeatmap, JsError>) -> bool {
    match BeatmapArgsView::decode(args) {
        Err(e) => r is Err && r->Err_0@ == e.message(),
        Ok(decoded) => if beatmap_parses(decoded.content) {
            is_converted_outcome(decoded.content, decoded.mode, r)
        } else {
            r is Err && PARSE_FAILURE@.is_prefix_of(r->Err_0@)
        },
    }
}

impl JsBeatmap {
    /// What is held is well formed.
    #[verifier::type_invariant]
    spec fn holds_well_formed(self) -> bool {
        well_formed(self.inner)
    }

    /// The beatmap library's beatmap that is held.
    pub closed spec fn map(&self) -> rosu_pp::Beatmap {
        self.inner
    }

    /// The beatmap library's beatmap that is held, for the calculations.
    pub fn inner(&self) -> (r: &rosu_pp::Beatmap)
        ensures
            *r == self.map(),
    {
        &self.inner
    }

    /// Create a new beatmap instance by parsing an `.osu` file's content,
    /// given as bytes, as a string, or in an object of construction
    /// arguments. Where the arguments name a mode, the parsed beatmap is
    /// converted to it, with no mods.
    pub fn new(args: &Value) -> (r: Result<JsBeatmap, JsError>)
        ensures
            is_parse_outcome(args@, r),
    {
        let decoded = match BeatmapArgs::deserialize(&JsDeserializer::from_ref(args)) {
            Ok(decoded) => decoded,
            Err(e) => {
                return Err(JsError::from_decode(&e));
            },
        };
        let mut map = match Self::from_content(&decoded.content) {
            Ok(map) => map,
            Err(e) => {
                return Err(e);
            },
        };
        match decoded.mode {
            None => Ok(map),
            Some(mode) => {
                let mods = no_mods();
                match map.convert(mode, &mods) {
                    Ok(()) => Ok(map),
                    Err(e) => Err(e),
                }
            },
        }
    }

    /// Parses the content of an `.osu` file. The beatmap that comes out has
    /// the hit objects, breaks, mode and version that the content gives, and
    /// is no convert.
    pub fn from_content(content: &BeatmapContent) -> (r: Result<JsBeatmap, JsError>)
        ensures
            r is Ok == beatmap_parses(content@),
            r is Ok ==> is_parsed_from(r->Ok_0.map(), content@),
            r is Err ==> PARSE_FAILURE@.is_prefix_of(r->Err_0@),
    {
        match from_bytes(content.bytes.as_slice()) {
            Ok(inner) => Ok(JsBeatmap { inner }),
            Err(text) => {
                let mut message = String::from_str(PARSE_FAILURE);
                message.append(text.as_str());
                assert(message@.subrange(0, PARSE_FAILURE@.len() as int) =~= PARSE_FAILURE@);
                Err(JsError { message })
            },
        }
    }

    /// A beatmap like this one in a specific mode; this one stays as it is.
    /// A beatmap that is in the mode already gives itself. Otherwise only an
    /// osu! map that was not converted before can be converted; any other is
    /// refused.
    pub fn converted(&self, mode: JsGameMode, mods: &rosu_pp::GameMods) -> (r: Result<
        JsBeatmap,
        JsError,
    >)
        ensures
            r is Ok == can_convert(
                beatmap_mode(self.map()),
                beatmap_is_convert(self.map()),
                mode.to_game_mode(),
            ),
            r is Ok ==> beatmap_mode(r->Ok_0.map()) == mode.to_game_mode(),
            r is Ok && beatmap_mode(self.map()) == mode.to_game_mode() ==> r->Ok_0.map()
                == self.map(),
            r is Ok && beatmap_mode(self.map()) != mode.to_game_mode() ==> beatmap_is_convert(
                r->Ok_0.map(),
            ),
    {
        proof {
            use_type_invariant(self);
        }
        match convert_ref(&self.inner, rosu_pp::model::mode::GameMode::from(mode), mods) {
            Ok(inner) => Ok(JsBeatmap { inner }),
            Err(text) => Err(JsError { message: text }),
        }
    }

    /// Convert a beatmap to a specific mode. A beatmap that is in the mode
    /// already stays as it is. Otherwise only an osu! map that was not
    /// converted before can be converted; any other is refused and stays as
    /// it is.
    pub fn convert(&mut self, mode: JsGameMode, mods: &rosu_pp::GameMods) -> (r: Result<
        (),
        JsError,
    >)
        ensures
            r is Ok == can_convert(
                beatmap_mode(old(self).map()),
                beatmap_is_convert(old(self).map()),
                mode.to_game_mode(),
            ),
            r is Err || beatmap_mode(old(self).map()) == mode.to_game_mode() ==> final(self).map()
                == old(self).map(),
            r is Ok ==> beatmap_mode(final(self).map()) == mode.to_game_mode(),
            r is Ok && beatmap_mode(old(self).map()) != mode.to_game_mode() ==> beatmap_is_convert(
                final(self).map(),
            ),
    {
        proof {
            use_type_invariant(&*self);
        }
        match convert_ref(&self.inner, rosu_pp::model::mode::GameMode::from(mode), mods) {
            Ok(converted) => {
                self.inner = converted;
                Ok(())
            },
            Err(text) => Err(JsError { message: text }),
        }
    }

    /// Check whether hitobjects appear too suspicious for further calculation.
    ///
    /// Sometimes a beatmap isn't created for gameplay but rather to test
    /// the limits of osu! itself. Difficulty- and/or performance calculation
    /// should likely be avoided on these maps due to potential performance
    /// issues.
    pub fn is_suspicious(&self) -> (r: bool)
        ensures
            r == too_suspicious(self.map()),
    {
        proof {
            use_type_invariant(self);
        }
        check_suspicion(&self.inner)
    }

    /// The game mode of the map, as the mode of the same name.
    pub fn mode(&self) -> (r: JsGameMode)
        ensures
            r == JsGameMode::of(beatmap_mode(self.map())),
    {
        JsGameMode::from(mode_of(&self.inner))
    }

    /// The version of the file format.
    pub fn version(&self) -> (r: i32)
        ensures
            r == beatmap_version(self.map()),
    {
        version_of(&self.inner)
    }

    /// Whether the map was converted from another mode.
    pub fn is_convert(&self) -> (r: bool)
        ensures
            r == beatmap_is_convert(self.map()),
    {
        is_convert_of(&self.inner)
    }

    /// The amount of break periods.
    pub fn n_breaks(&self) -> (r: usize)
        ensures
            r == break_count(self.map()),
    {
        breaks_len(&self.inner)
    }

    /// The amount of hit objects.
    pub fn n_objects(&self) -> (r: usize)
        ensures
            r == hit_object_kinds(self.map()).len(),
    {
        hit_objects_len(&self.inner)
    }

    /// The amount of hit objects of one kind.
    pub fn n_of_kind(&self, kind: HitKind) -> (r: usize)
        ensures
            r == count_kind(hit_object_kinds(self.map()), kind),
    {
        let ghost kinds = hit_object_kinds(self.inner);
        let len = hit_objects_len(&self.inner);
        let mut count: usize = 0;
        let mut i: usize = 0;
        assert(kinds.subrange(0, 0) =~= Seq::empty());
        while i < len
            invariant
                i <= len,
                len == kinds.len(),
                kinds == hit_object_kinds(self.inner),
                count == count_kind(kinds.subrange(0, i as int), kind),
                count <= i,
            decreases len - i,
        {
            proof {
                let upto = kinds.subrange(0, i + 1);
                assert(upto.drop_last() =~= kinds.subrange(0, i as int));
                assert(upto.last() == kinds[i as int]);
            }
            if hit_object_kind(&self.inner, i) == kind {
                count = count + 1;
            }
            i = i + 1;
        }
        assert(kinds.subrange(0, i as int) =~= kinds);
        count
    }

    /// The amount of circles.
    pub fn n_circles(&self) -> (r: usize)
        ensures
            r == count_kind(hit_object_kinds(self.map()), HitKind::Circle),
    {
        self.n_of_kind(HitKind::Circle)
    }

    /// The amount of sliders.
    pub fn n_sliders(&self) -> (r: usize)
        ensures
            r == count_kind(hit_object_kinds(self.map()), HitKind::Slider),
    {
        self.n_of_kind(HitKind::Slider)
    }

    /// The amount of spinners.
    pub fn n_spinners(&self) -> (r: usize)
        ensures
            r == count_kind(hit_object_kinds(self.map()), HitKind::Spinner),
    {
        self.n_of_kind(HitKind::Spinner)
    }

    /// The amount of hold notes.
    pub fn n_holds(&self) -> (r: usize)
        ensures
            r == count_kind(hit_object_kinds(self.map()), HitKind::Hold),
    {
        self.n_of_kind(HitKind::Hold)
    }

    /// Decodes a reference to a beatmap.
    pub fn deserialize(d: &JsDeserializer) -> (r: Result<BeatmapRef, DecodeError>)
        ensures
            outcome(r) == decode_beatmap(d@),
    {
        let entries = d.deserialize_struct(BEATMAP_CLASS)?;
        match lookup_entry(entries, POINTER_FIELD) {
            None => Err(DecodeError::MissingRequiredField { name: POINTER_FIELD }),
            Some(p) => {
                let ptr = JsDeserializer::from_ref(p).deserialize_u32(POINTER_FIELD)?;
                Ok(BeatmapRef { ptr })
            },
        }
    }
}

impl BeatmapRef {
    /// The instance that stands for the reference: an object of the type
    /// named `Beatmap` that holds the handle and nothing else.
    pub open spec fn encode(self) -> HostValue {
        HostValue::Object {
            class_name: BEATMAP_CLASS@,
            entries: seq![
                HostEntry { key: POINTER_FIELD@, value: HostValue::Number(number_of(self.ptr as nat)) },
            ],
        }
    }

    /// The instance that stands for the reference.
    pub fn to_value(&self) -> (r: Value)
        ensures
            r@ == self.encode(),
            decode_beatmap(r@) == Ok::<_, DecodeErrorView>(*self),
    {
        let mut entries: Vec<Entry> = Vec::new();
        entries.push(
            Entry {
                key: String::from_str(POINTER_FIELD),
                value: Value::Number(Number::from_u32(self.ptr)),
            },
        );
        proof {
            lemma2_to64();
            let all = entries_view(entries@);
            assert(all.len() == 1 && all.last() == entries[0]@);
            assert(all =~= seq![
                HostEntry { key: POINTER_FIELD@, value: HostValue::Number(number_of(self.ptr as nat)) },
            ]);
        }
        Value::Object { class_name: String::from_str(BEATMAP_CLASS), entries }
    }
}

} // verus!
