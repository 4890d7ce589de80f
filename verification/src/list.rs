//! Option resolution for list formatters.

use crate::options::choice_of;
use crate::options::find_unknown;
use crate::options::first_unknown;
use crate::options::read_choice;
use crate::options::text_eq;
use crate::options::Labelled;
use crate::options::OptionEntry;
use crate::options::OptionError;
use crate::options::OptionGroup;
use crate::options::OptionKey;
use vstd::prelude::*;

verus! {

/// How the items of a list are joined.
#[derive(Clone, Copy, PartialEq, Eq, Structural, Debug)]
pub enum ListType {
    Conjunction,
    Disjunction,
    Unit,
}

/// The label of each list type.
pub open spec fn list_type_label(value: ListType) -> Seq<char> {
    match value {
        ListType::Conjunction => "conjunction"@,
        ListType::Disjunction => "disjunction"@,
        ListType::Unit => "unit"@,
    }
}

/// The list type that a label names, if any: the first whose label it is.
pub open spec fn list_type_label_value(label: Seq<char>) -> Option<ListType> {
    if label == "conjunction"@ {
        Some(ListType::Conjunction)
    } else if label == "disjunction"@ {
        Some(ListType::Disjunction)
    } else if label == "unit"@ {
        Some(ListType::Unit)
    } else {
        None
    }
}

/// The labels are a two-way table: each list type is the one that its own
/// label names.
pub proof fn law_list_type_labels(value: ListType)
    ensures
        list_type_label_value(list_type_label(value)) == Some(value),
{
    reveal_strlit("conjunction");
    reveal_strlit("disjunction");
    reveal_strlit("unit");
    assert("conjunction"@.len() == 11 && "disjunction"@.len() == 11 && "unit"@.len() == 4);
    assert("conjunction"@[0] == 'c' && "disjunction"@[0] == 'd');
}

impl ListType {
    /// The label that names this list type.
    pub fn to_symbol_name(self) -> (label: &'static str)
        ensures
            label@ == list_type_label(self),
    {
        match self {
            ListType::Conjunction => "conjunction",
            ListType::Disjunction => "disjunction",
            ListType::Unit => "unit",
        }
    }
}

impl Labelled for ListType {
    open spec fn label_value(label: Seq<char>) -> Option<ListType> {
        list_type_label_value(label)
    }

    fn from_label(label: &str) -> (value: Option<ListType>) {
        if text_eq(label, "conjunction") {
            Some(ListType::Conjunction)
        } else if text_eq(label, "disjunction") {
            Some(ListType::Disjunction)
        } else if text_eq(label, "unit") {
            Some(ListType::Unit)
        } else {
            None
        }
    }
}

/// How verbose a list is.
#[derive(Clone, Copy, PartialEq, Eq, Structural, Debug)]
pub enum ListStyle {
    Long,
    Short,
    Narrow,
}

/// The label of each list style.
pub open spec fn list_style_label(value: ListStyle) -> Seq<char> {
    match value {
        ListStyle::Long => "long"@,
        ListStyle::Short => "short"@,
        ListStyle::Narrow => "narrow"@,
    }
}

/// The list style that a label names, if any: the first whose label it is.
pub open spec fn list_style_label_value(label: Seq<char>) -> Option<ListStyle> {
    if label == "long"@ {
        Some(ListStyle::Long)
    } else if label == "short"@ {
        Some(ListStyle::Short)
    } else if label == "narrow"@ {
        Some(ListStyle::Narrow)
    } else {
        None
    }
}

/// The labels are a two-way table: each list style is the one that its own
/// label names.
pub proof fn law_list_style_labels(value: ListStyle)
    ensures
        list_style_label_value(list_style_label(value)) == Some(value),
{
    reveal_strlit("long");
    reveal_strlit("short");
    reveal_strlit("narrow");
    assert("long"@.len() == 4 && "short"@.len() == 5 && "narrow"@.len() == 6);
}

impl ListStyle {
    /// The label that names this list style.
    pub fn to_symbol_name(self) -> (label: &'static str)
        ensures
            label@ == list_style_label(self),
    {
        match self {
            ListStyle::Long => "long",
            ListStyle::Short => "short",
            ListStyle::Narrow => "narrow",
        }
    }
}

impl Labelled for ListStyle {
    open spec fn label_value(label: Seq<char>) -> Option<ListStyle> {
        list_style_label_value(label)
    }

    fn from_label(label: &str) -> (value: Option<ListStyle>) {
        if text_eq(label, "long") {
            Some(ListStyle::Long)
        } else if text_eq(label, "short") {
            Some(ListStyle::Short)
        } else if text_eq(label, "narrow") {
            Some(ListStyle::Narrow)
        } else {
            None
        }
    }
}

/// The canonical configuration of a list formatter.
#[derive(Clone, Copy, PartialEq, Eq, Structural, Debug)]
pub struct ListDescriptor {
    pub list_type: ListType,
    pub style: ListStyle,
}

/// The descriptor that an option set for lists resolves to: a conjunction in
/// long style where nothing is said. Faults are reported in this order: a
/// key that such option sets may not hold, the type, the style.
pub open spec fn list_resolved(entries: Seq<OptionEntry>) -> Result<ListDescriptor, OptionError> {
    if first_unknown(entries, OptionGroup::List, 0) is Some {
        Err(OptionError::UnknownKey(first_unknown(entries, OptionGroup::List, 0)->0 as usize))
    } else if choice_of::<ListType>(entries, OptionKey::Type) is Err {
        Err(choice_of::<ListType>(entries, OptionKey::Type)->Err_0)
    } else if choice_of::<ListStyle>(entries, OptionKey::Style) is Err {
        Err(choice_of::<ListStyle>(entries, OptionKey::Style)->Err_0)
    } else {
        Ok(
            ListDescriptor {
                list_type: match choice_of::<ListType>(entries, OptionKey::Type)->Ok_0 {
                    Some(value) => value,
                    None => ListType::Conjunction,
                },
                style: match choice_of::<ListStyle>(entries, OptionKey::Style)->Ok_0 {
                    Some(value) => value,
                    None => ListStyle::Long,
                },
            },
        )
    }
}

/// Resolves an option set to the canonical descriptor.
pub fn resolve_list(entries: &Vec<OptionEntry>) -> (descriptor: Result<
    ListDescriptor,
    OptionError,
>)
    ensures
        descriptor == list_resolved(entries@),
{
    match find_unknown(entries, OptionGroup::List) {
        Some(i) => {
            return Err(OptionError::UnknownKey(i));
        },
        None => {},
    }
    let list_type = match read_choice::<ListType>(entries, OptionKey::Type) {
        Ok(Some(value)) => value,
        Ok(None) => ListType::Conjunction,
        Err(e) => {
            return Err(e);
        },
    };
    let style = match read_choice::<ListStyle>(entries, OptionKey::Style) {
        Ok(Some(value)) => value,
        Ok(None) => ListStyle::Long,
        Err(e) => {
            return Err(e);
        },
    };
    Ok(ListDescriptor { list_type, style })
}
} // verus!
