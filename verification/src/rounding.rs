//! The nine rounding modes and their labels.

use crate::options::text_eq;
use crate::options::Labelled;
use vstd::prelude::*;

verus! {

/// How a value is rounded when digits beyond a fractional limit are removed.
#[derive(Clone, Copy, PartialEq, Eq, Structural, Debug)]
pub enum RoundingMode {
    /// Toward positive infinity.
    Ceil,
    /// Toward negative infinity.
    Floor,
    /// Away from zero.
    Expand,
    /// Toward zero.
    Trunc,
    /// To the nearest; a tie goes toward positive infinity.
    HalfCeil,
    /// To the nearest; a tie goes toward negative infinity.
    HalfFloor,
    /// To the nearest; a tie goes away from zero.
    HalfExpand,
    /// To the nearest; a tie goes toward zero.
    HalfTrunc,
    /// To the nearest; a tie goes to the even digit.
    HalfEven,
}

/// The label of each rounding mode.
pub open spec fn rounding_mode_label(mode: RoundingMode) -> Seq<char> {
    match mode {
        RoundingMode::Ceil => "ceil"@,
        RoundingMode::Floor => "floor"@,
        RoundingMode::Expand => "expand"@,
        RoundingMode::Trunc => "trunc"@,
        RoundingMode::HalfCeil => "half_ceil"@,
        RoundingMode::HalfFloor => "half_floor"@,
        RoundingMode::HalfExpand => "half_expand"@,
        RoundingMode::HalfTrunc => "half_trunc"@,
        RoundingMode::HalfEven => "half_even"@,
    }
}

/// The rounding mode that a label names, if any: the first whose label it is.
pub open spec fn rounding_mode_label_value(label: Seq<char>) -> Option<RoundingMode> {
    if label == "ceil"@ {
        Some(RoundingMode::Ceil)
    } else if label == "floor"@ {
        Some(RoundingMode::Floor)
    } else if label == "expand"@ {
        Some(RoundingMode::Expand)
    } else if label == "trunc"@ {
        Some(RoundingMode::Trunc)
    } else if label == "half_ceil"@ {
        Some(RoundingMode::HalfCeil)
    } else if label == "half_floor"@ {
        Some(RoundingMode::HalfFloor)
    } else if label == "half_expand"@ {
        Some(RoundingMode::HalfExpand)
    } else if label == "half_trunc"@ {
        Some(RoundingMode::HalfTrunc)
    } else if label == "half_even"@ {
        Some(RoundingMode::HalfEven)
    } else {
        None
    }
}

impl Default for RoundingMode {
    /// The mode used when none is chosen.
    fn default() -> (mode: RoundingMode)
        ensures
            mode == RoundingMode::HalfExpand,
    {
        RoundingMode::HalfExpand
    }
}

/// The labels are a two-way table: each rounding mode is the one that its own
/// label names.
pub proof fn law_rounding_mode_labels(value: RoundingMode)
    ensures
        rounding_mode_label_value(rounding_mode_label(value)) == Some(value),
{
    reveal_strlit("ceil");
    reveal_strlit("floor");
    reveal_strlit("expand");
    reveal_strlit("trunc");
    reveal_strlit("half_ceil");
    reveal_strlit("half_floor");
    reveal_strlit("half_expand");
    reveal_strlit("half_trunc");
    reveal_strlit("half_even");
    assert("ceil"@.len() == 4 && "floor"@.len() == 5 && "expand"@.len() == 6 && "trunc"@.len() == 5 && "half_ceil"@.len() == 9 && "half_floor"@.len() == 10 && "half_expand"@.len() == 11 && "half_trunc"@.len() == 10 && "half_even"@.len() == 9);
    assert("floor"@[0] == 'f' && "trunc"@[0] == 't' && "half_ceil"@[5] == 'c' && "half_even"@[5] == 'e' && "half_floor"@[5] == 'f' && "half_trunc"@[5] == 't');
}

impl RoundingMode {
    /// The label that names this mode in an option set.
    pub fn to_symbol_name(self) -> (label: &'static str)
        ensures
            label@ == rounding_mode_label(self),
    {
        match self {
            RoundingMode::Ceil => "ceil",
            RoundingMode::Floor => "floor",
            RoundingMode::Expand => "expand",
            RoundingMode::Trunc => "trunc",
            RoundingMode::HalfCeil => "half_ceil",
            RoundingMode::HalfFloor => "half_floor",
            RoundingMode::HalfExpand => "half_expand",
            RoundingMode::HalfTrunc => "half_trunc",
            RoundingMode::HalfEven => "half_even",
        }
    }
}

impl Labelled for RoundingMode {
    open spec fn label_value(label: Seq<char>) -> Option<RoundingMode> {
        rounding_mode_label_value(label)
    }

    fn from_label(label: &str) -> (mode: Option<RoundingMode>) {
        if text_eq(label, "ceil") {
            Some(RoundingMode::Ceil)
        } else if text_eq(label, "floor") {
            Some(RoundingMode::Floor)
        } else if text_eq(label, "expand") {
            Some(RoundingMode::Expand)
        } else if text_eq(label, "trunc") {
            Some(RoundingMode::Trunc)
        } else if text_eq(label, "half_ceil") {
            Some(RoundingMode::HalfCeil)
        } else if text_eq(label, "half_floor") {
            Some(RoundingMode::HalfFloor)
        } else if text_eq(label, "half_expand") {
            Some(RoundingMode::HalfExpand)
        } else if text_eq(label, "half_trunc") {
            Some(RoundingMode::HalfTrunc)
        } else if text_eq(label, "half_even") {
            Some(RoundingMode::HalfEven)
        } else {
            None
        }
    }
}

} // verus!
