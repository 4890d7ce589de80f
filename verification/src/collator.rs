//! Option resolution for collators.

use crate::options::choice_of;
use crate::options::find_unknown;
use crate::options::first_unknown;
use crate::options::flag_of;
use crate::options::get_flag;
use crate::options::read_choice;
use crate::options::text_eq;
use crate::options::Labelled;
use crate::options::OptionEntry;
use crate::options::OptionError;
use crate::options::OptionGroup;
use crate::options::OptionKey;
use vstd::prelude::*;

verus! {

/// Which differences between strings count in a comparison.
#[derive(Clone, Copy, PartialEq, Eq, Structural, Debug)]
pub enum Sensitivity {
    Base,
    Accent,
    Case,
    Variant,
}

/// The label of each sensitivity.
pub open spec fn sensitivity_label(value: Sensitivity) -> Seq<char> {
    match value {
        Sensitivity::Base => "base"@,
        Sensitivity::Accent => "accent"@,
        Sensitivity::Case => "case"@,
        Sensitivity::Variant => "variant"@,
    }
}

/// The sensitivity that a label names, if any: the first whose label it is.
pub open spec fn sensitivity_label_value(label: Seq<char>) -> Option<Sensitivity> {
    if label == "base"@ {
        Some(Sensitivity::Base)
    } else if label == "accent"@ {
        Some(Sensitivity::Accent)
    } else if label == "case"@ {
        Some(Sensitivity::Case)
    } else if label == "variant"@ {
        Some(Sensitivity::Variant)
    } else {
        None
    }
}

/// The labels are a two-way table: each sensitivity is the one that its own
/// label names.
pub proof fn law_sensitivity_labels(value: Sensitivity)
    ensures
        sensitivity_label_value(sensitivity_label(value)) == Some(value),
{
    reveal_strlit("base");
    reveal_strlit("accent");
    reveal_strlit("case");
    reveal_strlit("variant");
    assert("base"@.len() == 4 && "accent"@.len() == 6 && "case"@.len() == 4 && "variant"@.len() == 7);
    assert("base"@[0] == 'b' && "case"@[0] == 'c');
}

impl Sensitivity {
    /// The label that names this sensitivity.
    pub fn to_symbol_name(self) -> (label: &'static str)
        ensures
            label@ == sensitivity_label(self),
    {
        match self {
            Sensitivity::Base => "base",
            Sensitivity::Accent => "accent",
            Sensitivity::Case => "case",
            Sensitivity::Variant => "variant",
        }
    }
}

impl Labelled for Sensitivity {
    open spec fn label_value(label: Seq<char>) -> Option<Sensitivity> {
        sensitivity_label_value(label)
    }

    fn from_label(label: &str) -> (value: Option<Sensitivity>) {
        if text_eq(label, "base") {
            Some(Sensitivity::Base)
        } else if text_eq(label, "accent") {
            Some(Sensitivity::Accent)
        } else if text_eq(label, "case") {
            Some(Sensitivity::Case)
        } else if text_eq(label, "variant") {
            Some(Sensitivity::Variant)
        } else {
            None
        }
    }
}

/// Which case sorts first.
#[derive(Clone, Copy, PartialEq, Eq, Structural, Debug)]
pub enum CaseFirstOption {
    Upper,
    Lower,
}

/// The label of each case-first option.
pub open spec fn case_first_label(value: CaseFirstOption) -> Seq<char> {
    match value {
        CaseFirstOption::Upper => "upper"@,
        CaseFirstOption::Lower => "lower"@,
    }
}

/// The case-first option that a label names, if any: the first whose label it is.
pub open spec fn case_first_label_value(label: Seq<char>) -> Option<CaseFirstOption> {
    if label == "upper"@ {
        Some(CaseFirstOption::Upper)
    } else if label == "lower"@ {
        Some(CaseFirstOption::Lower)
    } else {
        None
    }
}

/// The labels are a two-way table: each case first is the one that its own
/// label names.
pub proof fn law_case_first_labels(value: CaseFirstOption)
    ensures
        case_first_label_value(case_first_label(value)) == Some(value),
{
    reveal_strlit("upper");
    reveal_strlit("lower");
    assert("upper"@.len() == 5 && "lower"@.len() == 5);
    assert("upper"@[0] == 'u' && "lower"@[0] == 'l');
}

impl CaseFirstOption {
    /// The label that names this case-first option.
    pub fn to_symbol_name(self) -> (label: &'static str)
        ensures
            label@ == case_first_label(self),
    {
        match self {
            CaseFirstOption::Upper => "upper",
            CaseFirstOption::Lower => "lower",
        }
    }
}

impl Labelled for CaseFirstOption {
    open spec fn label_value(label: Seq<char>) -> Option<CaseFirstOption> {
        case_first_label_value(label)
    }

    fn from_label(label: &str) -> (value: Option<CaseFirstOption>) {
        if text_eq(label, "upper") {
            Some(CaseFirstOption::Upper)
        } else if text_eq(label, "lower") {
            Some(CaseFirstOption::Lower)
        } else {
            None
        }
    }
}

/// The strength of a comparison.
#[derive(Clone, Copy, PartialEq, Eq, Structural, Debug)]
pub enum Strength {
    Primary,
    Secondary,
    Tertiary,
}

/// The strength that a sensitivity asks for.
pub open spec fn sensitivity_strength(sensitivity: Sensitivity) -> Strength {
    match sensitivity {
        Sensitivity::Base => Strength::Primary,
        Sensitivity::Accent => Strength::Secondary,
        Sensitivity::Case => Strength::Primary,
        Sensitivity::Variant => Strength::Tertiary,
    }
}

impl Sensitivity {
    /// The strength that this sensitivity asks for.
    pub fn strength(self) -> (strength: Strength)
        ensures
            strength == sensitivity_strength(self),
    {
        match self {
            Sensitivity::Base => Strength::Primary,
            Sensitivity::Accent => Strength::Secondary,
            Sensitivity::Case => Strength::Primary,
            Sensitivity::Variant => Strength::Tertiary,
        }
    }

    /// Whether case is compared on a level of its own: only for the
    /// sensitivity to case.
    pub fn case_level(self) -> (on: bool)
        ensures
            on == (self == Sensitivity::Case),
    {
        match self {
            Sensitivity::Case => true,
            _ => false,
        }
    }
}

/// The canonical configuration of a collator.
#[derive(Clone, Copy, PartialEq, Eq, Structural, Debug)]
pub struct CollatorDescriptor {
    pub sensitivity: Sensitivity,
    pub numeric: bool,
    pub case_first: Option<CaseFirstOption>,
}

/// The descriptor that an option set for collators resolves to: sensitive to
/// every difference, digits compared as text and no case first where nothing
/// is said. Faults are reported in this order: a key that such option sets
/// may not hold, the sensitivity, the numeric switch, the case-first option.
pub open spec fn collator_resolved(entries: Seq<OptionEntry>) -> Result<CollatorDescriptor, OptionError> {
    if first_unknown(entries, OptionGroup::Collator, 0) is Some {
        Err(OptionError::UnknownKey(first_unknown(entries, OptionGroup::Collator, 0)->0 as usize))
    } else if choice_of::<Sensitivity>(entries, OptionKey::Sensitivity) is Err {
        Err(choice_of::<Sensitivity>(entries, OptionKey::Sensitivity)->Err_0)
    } else if flag_of(entries, OptionKey::Numeric) is Err {
        Err(flag_of(entries, OptionKey::Numeric)->Err_0)
    } else if choice_of::<CaseFirstOption>(entries, OptionKey::CaseFirst) is Err {
        Err(choice_of::<CaseFirstOption>(entries, OptionKey::CaseFirst)->Err_0)
    } else {
        Ok(
            CollatorDescriptor {
                sensitivity: match choice_of::<Sensitivity>(entries, OptionKey::Sensitivity)->Ok_0 {
                    Some(value) => value,
                    None => Sensitivity::Variant,
                },
                numeric: match flag_of(entries, OptionKey::Numeric)->Ok_0 {
                    Some(value) => value,
                    None => false,
                },
                case_first: choice_of::<CaseFirstOption>(entries, OptionKey::CaseFirst)->Ok_0,
            },
        )
    }
}

/// Resolves an option set to the canonical descriptor.
pub fn resolve_collator(entries: &Vec<OptionEntry>) -> (descriptor: Result<
    CollatorDescriptor,
    OptionError,
>)
    ensures
        descriptor == collator_resolved(entries@),
{
    match find_unknown(entries, OptionGroup::Collator) {
        Some(i) => {
            return Err(OptionError::UnknownKey(i));
        },
        None => {},
    }
    let sensitivity = match read_choice::<Sensitivity>(entries, OptionKey::Sensitivity) {
        Ok(Some(value)) => value,
        Ok(None) => Sensitivity::Variant,
        Err(e) => {
            return Err(e);
        },
    };
    let numeric = match get_flag(entries, OptionKey::Numeric) {
        Ok(Some(value)) => value,
        Ok(None) => false,
        Err(e) => {
            return Err(e);
        },
    };
    let case_first = match read_choice::<CaseFirstOption>(entries, OptionKey::CaseFirst) {
        Ok(value) => value,
        Err(e) => {
            return Err(e);
        },
    };
    Ok(CollatorDescriptor { sensitivity, numeric, case_first })
}
} // verus!
