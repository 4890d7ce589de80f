//! Option resolution for display names, and the fallback for codes without
//! a name.

use crate::options::choice_of;
use crate::options::find_unknown;
use crate::options::first_unknown;
use crate::options::read_choice;
use crate::options::text_eq;
use crate::options::Labelled;
use crate::options::OptionEntry;
use crate::options::OptionError;
use crate::options::OptionGroup;
use crate::options::OptionKey;
use vstd::prelude::*;

verus! {

/// What kind of code is named.
#[derive(Clone, Copy, PartialEq, Eq, Structural, Debug)]
pub enum DisplayNamesType {
    Language,
    Region,
    Script,
    Locale,
}

/// The label of each display names type.
pub open spec fn display_names_type_label(value: DisplayNamesType) -> Seq<char> {
    match value {
        DisplayNamesType::Language => "language"@,
        DisplayNamesType::Region => "region"@,
        DisplayNamesType::Script => "script"@,
        DisplayNamesType::Locale => "locale"@,
    }
}

/// The display names type that a label names, if any: the first whose label it is.
pub open spec fn display_names_type_label_value(label: Seq<char>) -> Option<DisplayNamesType> {
    if label == "language"@ {
        Some(DisplayNamesType::Language)
    } else if label == "region"@ {
        Some(DisplayNamesType::Region)
    } else if label == "script"@ {
        Some(DisplayNamesType::Script)
    } else if label == "locale"@ {
        Some(DisplayNamesType::Locale)
    } else {
        None
    }
}

/// The labels are a two-way table: each display names type is the one that its own
/// label names.
pub proof fn law_display_names_type_labels(value: DisplayNamesType)
    ensures
        display_names_type_label_value(display_names_type_label(value)) == Some(value),
{
    reveal_strlit("language");
    reveal_strlit("region");
    reveal_strlit("script");
    reveal_strlit("locale");
    assert("language"@.len() == 8 && "region"@.len() == 6 && "script"@.len() == 6 && "locale"@.len() == 6);
    assert("region"@[0] == 'r' && "script"@[0] == 's' && "locale"@[0] == 'l');
}

impl DisplayNamesType {
    /// The label that names this display names type.
    pub fn to_symbol_name(self) -> (label: &'static str)
        ensures
            label@ == display_names_type_label(self),
    {
        match self {
            DisplayNamesType::Language => "language",
            DisplayNamesType::Region => "region",
            DisplayNamesType::Script => "script",
            DisplayNamesType::Locale => "locale",
        }
    }
}

impl Labelled for DisplayNamesType {
    open spec fn label_value(label: Seq<char>) -> Option<DisplayNamesType> {
        display_names_type_label_value(label)
    }

    fn from_label(label: &str) -> (value: Option<DisplayNamesType>) {
        if text_eq(label, "language") {
            Some(DisplayNamesType::Language)
        } else if text_eq(label, "region") {
            Some(DisplayNamesType::Region)
        } else if text_eq(label, "script") {
            Some(DisplayNamesType::Script)
        } else if text_eq(label, "locale") {
            Some(DisplayNamesType::Locale)
        } else {
            None
        }
    }
}

/// How verbose a display name is.
#[derive(Clone, Copy, PartialEq, Eq, Structural, Debug)]
pub enum DisplayNamesStyle {
    Long,
    Short,
    Narrow,
}

/// The label of each display names style.
pub open spec fn display_names_style_label(value: DisplayNamesStyle) -> Seq<char> {
    match value {
        DisplayNamesStyle::Long => "long"@,
        DisplayNamesStyle::Short => "short"@,
        DisplayNamesStyle::Narrow => "narrow"@,
    }
}

/// The display names style that a label names, if any: the first whose label it is.
pub open spec fn display_names_style_label_value(label: Seq<char>) -> Option<DisplayNamesStyle> {
    if label == "long"@ {
        Some(DisplayNamesStyle::Long)
    } else if label == "short"@ {
        Some(DisplayNamesStyle::Short)
    } else if label == "narrow"@ {
        Some(DisplayNamesStyle::Narrow)
    } else {
        None
    }
}

/// The labels are a two-way table: each display names style is the one that its own
/// label names.
pub proof fn law_display_names_style_labels(value: DisplayNamesStyle)
    ensures
        display_names_style_label_value(display_names_style_label(value)) == Some(value),
{
    reveal_strlit("long");
    reveal_strlit("short");
    reveal_strlit("narrow");
    assert("long"@.len() == 4 && "short"@.len() == 5 && "narrow"@.len() == 6);
}

impl DisplayNamesStyle {
    /// The label that names this display names style.
    pub fn to_symbol_name(self) -> (label: &'static str)
        ensures
            label@ == display_names_style_label(self),
    {
        match self {
            DisplayNamesStyle::Long => "long",
            DisplayNamesStyle::Short => "short",
            DisplayNamesStyle::Narrow => "narrow",
        }
    }
}

impl Labelled for DisplayNamesStyle {
    open spec fn label_value(label: Seq<char>) -> Option<DisplayNamesStyle> {
        display_names_style_label_value(label)
    }

    fn from_label(label: &str) -> (value: Option<DisplayNamesStyle>) {
        if text_eq(label, "long") {
            Some(DisplayNamesStyle::Long)
        } else if text_eq(label, "short") {
            Some(DisplayNamesStyle::Short)
        } else if text_eq(label, "narrow") {
            Some(DisplayNamesStyle::Narrow)
        } else {
            None
        }
    }
}

/// What is returned for a code without a name.
#[derive(Clone, Copy, PartialEq, Eq, Structural, Debug)]
pub enum DisplayNamesFallback {
    Code,
    Absent,
}

/// The label of each display names fallback.
pub open spec fn display_names_fallback_label(value: DisplayNamesFallback) -> Seq<char> {
    match value {
        DisplayNamesFallback::Code => "code"@,
        DisplayNamesFallback::Absent => "none"@,
    }
}

/// The display names fallback that a label names, if any: the first whose label it is.
pub open spec fn display_names_fallback_label_value(label: Seq<char>) -> Option<DisplayNamesFallback> {
    if label == "code"@ {
        Some(DisplayNamesFallback::Code)
    } else if label == "none"@ {
        Some(DisplayNamesFallback::Absent)
    } else {
        None
    }
}

/// The labels are a two-way table: each display names fallback is the one that its own
/// label names.
pub proof fn law_display_names_fallback_labels(value: DisplayNamesFallback)
    ensures
        display_names_fallback_label_value(display_names_fallback_label(value)) == Some(value),
{
    reveal_strlit("code");
    reveal_strlit("none");
    assert("code"@.len() == 4 && "none"@.len() == 4);
    assert("code"@[0] == 'c' && "none"@[0] == 'n');
}

impl DisplayNamesFallback {
    /// The label that names this display names fallback.
    pub fn to_symbol_name(self) -> (label: &'static str)
        ensures
            label@ == display_names_fallback_label(self),
    {
        match self {
            DisplayNamesFallback::Code => "code",
            DisplayNamesFallback::Absent => "none",
        }
    }
}

impl Labelled for DisplayNamesFallback {
    open spec fn label_value(label: Seq<char>) -> Option<DisplayNamesFallback> {
        display_names_fallback_label_value(label)
    }

    fn from_label(label: &str) -> (value: Option<DisplayNamesFallback>) {
        if text_eq(label, "code") {
            Some(DisplayNamesFallback::Code)
        } else if text_eq(label, "none") {
            Some(DisplayNamesFallback::Absent)
        } else {
            None
        }
    }
}

/// The canonical configuration of display names.
#[derive(Clone, Copy, PartialEq, Eq, Structural, Debug)]
pub struct DisplayNamesDescriptor {
    pub display_type: DisplayNamesType,
    pub style: DisplayNamesStyle,
    pub fallback: DisplayNamesFallback,
}

/// The descriptor that an option set for display names resolves to: the type
/// must be given; long style and the code as fallback where nothing is said.
/// Faults are reported in this order: a key that such option sets may not
/// hold, the type, the style, the fallback.
pub open spec fn display_names_resolved(entries: Seq<OptionEntry>) -> Result<DisplayNamesDescriptor, OptionError> {
    if first_unknown(entries, OptionGroup::DisplayNames, 0) is Some {
        Err(OptionError::UnknownKey(first_unknown(entries, OptionGroup::DisplayNames, 0)->0 as usize))
    } else if choice_of::<DisplayNamesType>(entries, OptionKey::Type) is Err {
        Err(choice_of::<DisplayNamesType>(entries, OptionKey::Type)->Err_0)
    } else if choice_of::<DisplayNamesType>(entries, OptionKey::Type)->Ok_0 is None {
        Err(OptionError::MissingKey(OptionKey::Type))
    } else if choice_of::<DisplayNamesStyle>(entries, OptionKey::Style) is Err {
        Err(choice_of::<DisplayNamesStyle>(entries, OptionKey::Style)->Err_0)
    } else if choice_of::<DisplayNamesFallback>(entries, OptionKey::Fallback) is Err {
        Err(choice_of::<DisplayNamesFallback>(entries, OptionKey::Fallback)->Err_0)
    } else {
        Ok(
            DisplayNamesDescriptor {
                display_type: choice_of::<DisplayNamesType>(entries, OptionKey::Type)->Ok_0->0,
                style: match choice_of::<DisplayNamesStyle>(entries, OptionKey::Style)->Ok_0 {
                    Some(value) => value,
                    None => DisplayNamesStyle::Long,
                },
                fallback: match choice_of::<DisplayNamesFallback>(entries, OptionKey::Fallback)->Ok_0 {
                    Some(value) => value,
                    None => DisplayNamesFallback::Code,
                },
            },
        )
    }
}

/// Resolves an option set to the canonical descriptor.
pub fn resolve_display_names(entries: &Vec<OptionEntry>) -> (descriptor: Result<
    DisplayNamesDescriptor,
    OptionError,
>)
    ensures
        descriptor == display_names_resolved(entries@),
{
    match find_unknown(entries, OptionGroup::DisplayNames) {
        Some(i) => {
            return Err(OptionError::UnknownKey(i));
        },
        None => {},
    }
    let display_type = match read_choice::<DisplayNamesType>(entries, OptionKey::Type) {
        Ok(Some(value)) => value,
        Ok(None) => {
            return Err(OptionError::MissingKey(OptionKey::Type));
        },
        Err(e) => {
            return Err(e);
        },
    };
    let style = match read_choice::<DisplayNamesStyle>(entries, OptionKey::Style) {
        Ok(Some(value)) => value,
        Ok(None) => DisplayNamesStyle::Long,
        Err(e) => {
            return Err(e);
        },
    };
    let fallback = match read_choice::<DisplayNamesFallback>(entries, OptionKey::Fallback) {
        Ok(Some(value)) => value,
        Ok(None) => DisplayNamesFallback::Code,
        Err(e) => {
            return Err(e);
        },
    };
    Ok(DisplayNamesDescriptor { display_type, style, fallback })
}
/// What is returned for a code: its name where one was found, else the code
/// itself or nothing, as the fallback says.
pub open spec fn name_or_fallback(
    found: Option<Seq<char>>,
    code: Seq<char>,
    fallback: DisplayNamesFallback,
) -> Option<Seq<char>> {
    match found {
        Some(name) => Some(name),
        None => match fallback {
            DisplayNamesFallback::Code => Some(code),
            DisplayNamesFallback::Absent => None,
        },
    }
}

/// Applies the fallback to the outcome of a lookup.
pub fn apply_fallback(found: Option<String>, code: String, fallback: DisplayNamesFallback) -> (name:
    Option<String>)
    ensures
        match name {
            Some(n) => name_or_fallback(
                match found {
                    Some(f) => Some(f@),
                    None => None,
                },
                code@,
                fallback,
            ) == Some(n@),
            None => name_or_fallback(
                match found {
                    Some(f) => Some(f@),
                    None => None,
                },
                code@,
                fallback,
            ) is None,
        },
{
    match found {
        Some(name) => Some(name),
        None => match fallback {
            DisplayNamesFallback::Code => Some(code),
            DisplayNamesFallback::Absent => None,
        },
    }
}

} // verus!
