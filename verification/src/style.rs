use vstd::prelude::*;

verus! {

// The style-side vocabulary: the keyword values a style property can
// take, and the units a length can carry. The keyword table maps the
// written word to its value.
#[derive(Debug, Clone, Copy, Eq, PartialEq, Structural)]
pub enum KwValue {
    Auto,
    Expand,
    Absolute,
    Fit,
    Repeat,
}

#[derive(Debug, Clone, Copy, Eq, PartialEq, Structural)]
pub enum Unit {
    Px,
}

pub open spec fn spec_kw_value(w: Seq<char>) -> Option<KwValue> {
    if w == "auto"@ {
        Some(KwValue::Auto)
    } else if w == "expand"@ {
        Some(KwValue::Expand)
    } else if w == "absolute"@ {
        Some(KwValue::Absolute)
    } else if w == "fit"@ {
        Some(KwValue::Fit)
    } else if w == "repeat"@ {
        Some(KwValue::Repeat)
    } else {
        None
    }
}

/// The keyword value a property keyword names, if any.
pub fn kw_value_from_name(word: &String) -> (r: Option<KwValue>)
    ensures
        r == spec_kw_value(word@),
{
    if word.eq(&String::from_str("auto")) {
        Some(KwValue::Auto)
    } else if word.eq(&String::from_str("expand")) {
        Some(KwValue::Expand)
    } else if word.eq(&String::from_str("absolute")) {
        Some(KwValue::Absolute)
    } else if word.eq(&String::from_str("fit")) {
        Some(KwValue::Fit)
    } else if word.eq(&String::from_str("repeat")) {
        Some(KwValue::Repeat)
    } else {
        None
    }
}

pub open spec fn spec_unit_value(w: Seq<char>) -> Option<Unit> {
    if w == "px"@ {
        Some(Unit::Px)
    } else {
        None
    }
}

/// The unit a unit word names; pixels are the only unit so far.
pub fn unit_from_name(word: &String) -> (r: Option<Unit>)
    ensures
        r == spec_unit_value(word@),
{
    if word.eq(&String::from_str("px")) {
        Some(Unit::Px)
    } else {
        None
    }
}

} // verus!
