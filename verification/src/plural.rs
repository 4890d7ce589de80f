//! Option resolution for plural rules.

use crate::options::choice_of;
use crate::options::find_unknown;
use crate::options::first_unknown;
use crate::options::read_choice;
use crate::options::text_eq;
use crate::options::Labelled;
use crate::options::OptionEntry;
use crate::options::OptionError;
use crate::options::OptionGroup;
use crate::options::OptionKey;
use vstd::prelude::*;

verus! {

/// Which plural rules are used.
#[derive(Clone, Copy, PartialEq, Eq, Structural, Debug)]
pub enum PluralRuleType {
    Cardinal,
    Ordinal,
}

/// The label of each plural rule type.
pub open spec fn plural_rule_type_label(value: PluralRuleType) -> Seq<char> {
    match value {
        PluralRuleType::Cardinal => "cardinal"@,
        PluralRuleType::Ordinal => "ordinal"@,
    }
}

/// The plural rule type that a label names, if any: the first whose label it is.
pub open spec fn plural_rule_type_label_value(label: Seq<char>) -> Option<PluralRuleType> {
    if label == "cardinal"@ {
        Some(PluralRuleType::Cardinal)
    } else if label == "ordinal"@ {
        Some(PluralRuleType::Ordinal)
    } else {
        None
    }
}

/// The labels are a two-way table: each plural rule type is the one that its own
/// label names.
pub proof fn law_plural_rule_type_labels(value: PluralRuleType)
    ensures
        plural_rule_type_label_value(plural_rule_type_label(value)) == Some(value),
{
    reveal_strlit("cardinal");
    reveal_strlit("ordinal");
    assert("cardinal"@.len() == 8 && "ordinal"@.len() == 7);
}

impl PluralRuleType {
    /// The label that names this plural rule type.
    pub fn to_symbol_name(self) -> (label: &'static str)
        ensures
            label@ == plural_rule_type_label(self),
    {
        match self {
            PluralRuleType::Cardinal => "cardinal",
            PluralRuleType::Ordinal => "ordinal",
        }
    }
}

impl Labelled for PluralRuleType {
    open spec fn label_value(label: Seq<char>) -> Option<PluralRuleType> {
        plural_rule_type_label_value(label)
    }

    fn from_label(label: &str) -> (value: Option<PluralRuleType>) {
        if text_eq(label, "cardinal") {
            Some(PluralRuleType::Cardinal)
        } else if text_eq(label, "ordinal") {
            Some(PluralRuleType::Ordinal)
        } else {
            None
        }
    }
}

/// The plural categories.
#[derive(Clone, Copy, PartialEq, Eq, Structural, Debug)]
pub enum PluralCategory {
    Zero,
    One,
    Two,
    Few,
    Many,
    Other,
}

/// The label of each plural category.
pub open spec fn plural_category_label(value: PluralCategory) -> Seq<char> {
    match value {
        PluralCategory::Zero => "zero"@,
        PluralCategory::One => "one"@,
        PluralCategory::Two => "two"@,
        PluralCategory::Few => "few"@,
        PluralCategory::Many => "many"@,
        PluralCategory::Other => "other"@,
    }
}

/// The plural category that a label names, if any: the first whose label it is.
pub open spec fn plural_category_label_value(label: Seq<char>) -> Option<PluralCategory> {
    if label == "zero"@ {
        Some(PluralCategory::Zero)
    } else if label == "one"@ {
        Some(PluralCategory::One)
    } else if label == "two"@ {
        Some(PluralCategory::Two)
    } else if label == "few"@ {
        Some(PluralCategory::Few)
    } else if label == "many"@ {
        Some(PluralCategory::Many)
    } else if label == "other"@ {
        Some(PluralCategory::Other)
    } else {
        None
    }
}

/// The labels are a two-way table: each plural category is the one that its own
/// label names.
pub proof fn law_plural_category_labels(value: PluralCategory)
    ensures
        plural_category_label_value(plural_category_label(value)) == Some(value),
{
    reveal_strlit("zero");
    reveal_strlit("one");
    reveal_strlit("two");
    reveal_strlit("few");
    reveal_strlit("many");
    reveal_strlit("other");
    assert("zero"@.len() == 4 && "one"@.len() == 3 && "two"@.len() == 3 && "few"@.len() == 3 && "many"@.len() == 4 && "other"@.len() == 5);
    assert("zero"@[0] == 'z' && "many"@[0] == 'm' && "one"@[0] == 'o' && "two"@[0] == 't' && "few"@[0] == 'f');
}

impl PluralCategory {
    /// The label that names this plural category.
    pub fn to_symbol_name(self) -> (label: &'static str)
        ensures
            label@ == plural_category_label(self),
    {
        match self {
            PluralCategory::Zero => "zero",
            PluralCategory::One => "one",
            PluralCategory::Two => "two",
            PluralCategory::Few => "few",
            PluralCategory::Many => "many",
            PluralCategory::Other => "other",
        }
    }
}

impl Labelled for PluralCategory {
    open spec fn label_value(label: Seq<char>) -> Option<PluralCategory> {
        plural_category_label_value(label)
    }

    fn from_label(label: &str) -> (value: Option<PluralCategory>) {
        if text_eq(label, "zero") {
            Some(PluralCategory::Zero)
        } else if text_eq(label, "one") {
            Some(PluralCategory::One)
        } else if text_eq(label, "two") {
            Some(PluralCategory::Two)
        } else if text_eq(label, "few") {
            Some(PluralCategory::Few)
        } else if text_eq(label, "many") {
            Some(PluralCategory::Many)
        } else if text_eq(label, "other") {
            Some(PluralCategory::Other)
        } else {
            None
        }
    }
}

/// The canonical configuration of plural rules.
#[derive(Clone, Copy, PartialEq, Eq, Structural, Debug)]
pub struct PluralRulesDescriptor {
    pub rule_type: PluralRuleType,
}

/// The descriptor that an option set for plural rules resolves to: cardinal
/// rules where nothing is said. A key that such option sets may not hold is
/// reported before a fault in the type.
pub open spec fn plural_rules_resolved(entries: Seq<OptionEntry>) -> Result<PluralRulesDescriptor, OptionError> {
    if first_unknown(entries, OptionGroup::PluralRules, 0) is Some {
        Err(OptionError::UnknownKey(first_unknown(entries, OptionGroup::PluralRules, 0)->0 as usize))
    } else if choice_of::<PluralRuleType>(entries, OptionKey::Type) is Err {
        Err(choice_of::<PluralRuleType>(entries, OptionKey::Type)->Err_0)
    } else {
        Ok(
            PluralRulesDescriptor {
                rule_type: match choice_of::<PluralRuleType>(entries, OptionKey::Type)->Ok_0 {
                    Some(value) => value,
                    None => PluralRuleType::Cardinal,
                },
            },
        )
    }
}

/// Resolves an option set to the canonical descriptor.
pub fn resolve_plural_rules(entries: &Vec<OptionEntry>) -> (descriptor: Result<
    PluralRulesDescriptor,
    OptionError,
>)
    ensures
        descriptor == plural_rules_resolved(entries@),
{
    match find_unknown(entries, OptionGroup::PluralRules) {
        Some(i) => {
            return Err(OptionError::UnknownKey(i));
        },
        None => {},
    }
    let rule_type = match read_choice::<PluralRuleType>(entries, OptionKey::Type) {
        Ok(Some(value)) => value,
        Ok(None) => PluralRuleType::Cardinal,
        Err(e) => {
            return Err(e);
        },
    };
    Ok(PluralRulesDescriptor { rule_type })
}
} // verus!
