//! The fields that every argument object has.
//!
//! Mods, a clock rate, and the four difficulty overrides, each with the flag
//! that says whether the override is meant with mods already applied. None of
//! them is required. The numbers are taken as the caller wrote them: the
//! ranges that the calculation admits are for the calculation to enforce.

use crate::mods::MODS_FIELD;
use crate::schema::{Field, FieldKind, fields_view, FieldView};
use vstd::prelude::*;

verus! {

/// How many fields every argument object has.
pub const COMMON_FIELDS: usize = 10;

/// The fields that every argument object has, in order.
pub open spec fn common_fields() -> Seq<FieldView> {
    seq![
        FieldView { name: MODS_FIELD@, kind: FieldKind::Mods, required: false },
        FieldView { name: "clockRate"@, kind: FieldKind::Float, required: false },
        FieldView { name: "ar"@, kind: FieldKind::Float, required: false },
        FieldView { name: "arWithMods"@, kind: FieldKind::Bool, required: false },
        FieldView { name: "cs"@, kind: FieldKind::Float, required: false },
        FieldView { name: "csWithMods"@, kind: FieldKind::Bool, required: false },
        FieldView { name: "hp"@, kind: FieldKind::Float, required: false },
        FieldView { name: "hpWithMods"@, kind: FieldKind::Bool, required: false },
        FieldView { name: "od"@, kind: FieldKind::Float, required: false },
        FieldView { name: "odWithMods"@, kind: FieldKind::Bool, required: false },
    ]
}

/// The fields that every argument object has, in order.
pub fn common_schema() -> (r: Vec<Field>)
    ensures
        fields_view(r@) == common_fields(),
{
    let r = vec![
        Field { name: MODS_FIELD, kind: FieldKind::Mods, required: false },
        Field { name: "clockRate", kind: FieldKind::Float, required: false },
        Field { name: "ar", kind: FieldKind::Float, required: false },
        Field { name: "arWithMods", kind: FieldKind::Bool, required: false },
        Field { name: "cs", kind: FieldKind::Float, required: false },
        Field { name: "csWithMods", kind: FieldKind::Bool, required: false },
        Field { name: "hp", kind: FieldKind::Float, required: false },
        Field { name: "hpWithMods", kind: FieldKind::Bool, required: false },
        Field { name: "od", kind: FieldKind::Float, required: false },
        Field { name: "odWithMods", kind: FieldKind::Bool, required: false },
    ];
    assert(fields_view(r@) =~= common_fields());
    r
}

/// The sequence of the one element that is there, or of none.
pub open spec fn one_if<T>(element: Option<T>) -> Seq<T> {
    match element {
        Some(element) => seq![element],
        None => Seq::empty(),
    }
}

/// Adds the element that is there, or nothing.
pub fn push_if<T>(elements: &mut Vec<T>, element: Option<T>)
    ensures
        final(elements)@ == old(elements)@ + one_if(element),
{
    match element {
        Some(element) => {
            elements.push(element);
            assert(final(elements)@ =~= old(elements)@ + seq![element]);
        },
        None => {
            assert(elements@ =~= old(elements)@ + Seq::empty());
        },
    }
}

/// What tells the common names apart: their lengths and some of their letters.
pub proof fn lemma_common_names()
    ensures
        "mods"@.len() == 4 && "mods"@[0] == 'm' && "mods"@[1] == 'o' && "mods"@[3] == 's',
        "clockRate"@.len() == 9 && "clockRate"@[0] == 'c' && "clockRate"@[1] == 'l' &&
            "clockRate"@[3] == 'c',
        "ar"@.len() == 2 && "ar"@[0] == 'a' && "ar"@[1] == 'r',
        "arWithMods"@.len() == 10 && "arWithMods"@[0] == 'a' && "arWithMods"@[1] == 'r' &&
            "arWithMods"@[3] == 'i',
        "cs"@.len() == 2 && "cs"@[0] == 'c' && "cs"@[1] == 's',
        "csWithMods"@.len() == 10 && "csWithMods"@[0] == 'c' && "csWithMods"@[1] == 's' &&
            "csWithMods"@[3] == 'i',
        "hp"@.len() == 2 && "hp"@[0] == 'h' && "hp"@[1] == 'p',
        "hpWithMods"@.len() == 10 && "hpWithMods"@[0] == 'h' && "hpWithMods"@[1] == 'p' &&
            "hpWithMods"@[3] == 'i',
        "od"@.len() == 2 && "od"@[0] == 'o' && "od"@[1] == 'd',
        "odWithMods"@.len() == 10 && "odWithMods"@[0] == 'o' && "odWithMods"@[1] == 'd' &&
            "odWithMods"@[3] == 'i',
{
    reveal_strlit("mods");
    reveal_strlit("clockRate");
    reveal_strlit("ar");
    reveal_strlit("arWithMods");
    reveal_strlit("cs");
    reveal_strlit("csWithMods");
    reveal_strlit("hp");
    reveal_strlit("hpWithMods");
    reveal_strlit("od");
    reveal_strlit("odWithMods");
}

} // verus!
