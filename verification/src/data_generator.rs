//! Which locales data is exported for.

use crate::options::text_eq;
use crate::options::Labelled;
use vstd::prelude::*;

verus! {

/// A named set of locales for which data is exported.
#[derive(Clone, Copy, PartialEq, Eq, Structural, Debug)]
pub enum LocaleSpecifier {
    Full,
    Recommended,
    Modern,
    Moderate,
    Basic,
}

/// The label of each locale specifier.
pub open spec fn locale_specifier_label(value: LocaleSpecifier) -> Seq<char> {
    match value {
        LocaleSpecifier::Full => "full"@,
        LocaleSpecifier::Recommended => "recommended"@,
        LocaleSpecifier::Modern => "modern"@,
        LocaleSpecifier::Moderate => "moderate"@,
        LocaleSpecifier::Basic => "basic"@,
    }
}

/// The locale specifier that a label names, if any: the first whose label it is.
pub open spec fn locale_specifier_label_value(label: Seq<char>) -> Option<LocaleSpecifier> {
    if label == "full"@ {
        Some(LocaleSpecifier::Full)
    } else if label == "recommended"@ {
        Some(LocaleSpecifier::Recommended)
    } else if label == "modern"@ {
        Some(LocaleSpecifier::Modern)
    } else if label == "moderate"@ {
        Some(LocaleSpecifier::Moderate)
    } else if label == "basic"@ {
        Some(LocaleSpecifier::Basic)
    } else {
        None
    }
}

/// The labels are a two-way table: each locale specifier is the one that its own
/// label names.
pub proof fn law_locale_specifier_labels(value: LocaleSpecifier)
    ensures
        locale_specifier_label_value(locale_specifier_label(value)) == Some(value),
{
    reveal_strlit("full");
    reveal_strlit("recommended");
    reveal_strlit("modern");
    reveal_strlit("moderate");
    reveal_strlit("basic");
    assert("full"@.len() == 4 && "recommended"@.len() == 11 && "modern"@.len() == 6 && "moderate"@.len() == 8 && "basic"@.len() == 5);
}

impl LocaleSpecifier {
    /// The label that names this locale specifier.
    pub fn to_symbol_name(self) -> (label: &'static str)
        ensures
            label@ == locale_specifier_label(self),
    {
        match self {
            LocaleSpecifier::Full => "full",
            LocaleSpecifier::Recommended => "recommended",
            LocaleSpecifier::Modern => "modern",
            LocaleSpecifier::Moderate => "moderate",
            LocaleSpecifier::Basic => "basic",
        }
    }
}

impl Labelled for LocaleSpecifier {
    open spec fn label_value(label: Seq<char>) -> Option<LocaleSpecifier> {
        locale_specifier_label_value(label)
    }

    fn from_label(label: &str) -> (value: Option<LocaleSpecifier>) {
        if text_eq(label, "full") {
            Some(LocaleSpecifier::Full)
        } else if text_eq(label, "recommended") {
            Some(LocaleSpecifier::Recommended)
        } else if text_eq(label, "modern") {
            Some(LocaleSpecifier::Modern)
        } else if text_eq(label, "moderate") {
            Some(LocaleSpecifier::Moderate)
        } else if text_eq(label, "basic") {
            Some(LocaleSpecifier::Basic)
        } else {
            None
        }
    }
}

/// How completely a locale is covered by the data.
#[derive(Clone, Copy, PartialEq, Eq, Structural, Debug)]
pub enum CoverageLevel {
    Modern,
    Moderate,
    Basic,
}

/// The label of each coverage level.
pub open spec fn coverage_level_label(value: CoverageLevel) -> Seq<char> {
    match value {
        CoverageLevel::Modern => "modern"@,
        CoverageLevel::Moderate => "moderate"@,
        CoverageLevel::Basic => "basic"@,
    }
}

/// The coverage level that a label names, if any: the first whose label it is.
pub open spec fn coverage_level_label_value(label: Seq<char>) -> Option<CoverageLevel> {
    if label == "modern"@ {
        Some(CoverageLevel::Modern)
    } else if label == "moderate"@ {
        Some(CoverageLevel::Moderate)
    } else if label == "basic"@ {
        Some(CoverageLevel::Basic)
    } else {
        None
    }
}

/// The labels are a two-way table: each coverage level is the one that its own
/// label names.
pub proof fn law_coverage_level_labels(value: CoverageLevel)
    ensures
        coverage_level_label_value(coverage_level_label(value)) == Some(value),
{
    reveal_strlit("modern");
    reveal_strlit("moderate");
    reveal_strlit("basic");
    assert("modern"@.len() == 6 && "moderate"@.len() == 8 && "basic"@.len() == 5);
}

impl CoverageLevel {
    /// The label that names this coverage level.
    pub fn to_symbol_name(self) -> (label: &'static str)
        ensures
            label@ == coverage_level_label(self),
    {
        match self {
            CoverageLevel::Modern => "modern",
            CoverageLevel::Moderate => "moderate",
            CoverageLevel::Basic => "basic",
        }
    }
}

impl Labelled for CoverageLevel {
    open spec fn label_value(label: Seq<char>) -> Option<CoverageLevel> {
        coverage_level_label_value(label)
    }

    fn from_label(label: &str) -> (value: Option<CoverageLevel>) {
        if text_eq(label, "modern") {
            Some(CoverageLevel::Modern)
        } else if text_eq(label, "moderate") {
            Some(CoverageLevel::Moderate)
        } else if text_eq(label, "basic") {
            Some(CoverageLevel::Basic)
        } else {
            None
        }
    }
}

/// The coverage levels whose locales a specifier stands for; none for the
/// full set, which takes every locale whatever its coverage.
pub open spec fn specifier_levels(specifier: LocaleSpecifier) -> Seq<CoverageLevel> {
    match specifier {
        LocaleSpecifier::Full => Seq::empty(),
        LocaleSpecifier::Recommended => seq![
            CoverageLevel::Modern,
            CoverageLevel::Moderate,
            CoverageLevel::Basic,
        ],
        LocaleSpecifier::Modern => seq![CoverageLevel::Modern],
        LocaleSpecifier::Moderate => seq![CoverageLevel::Moderate],
        LocaleSpecifier::Basic => seq![CoverageLevel::Basic],
    }
}

impl LocaleSpecifier {
    /// Whether this specifier takes every locale.
    pub fn is_full(self) -> (full: bool)
        ensures
            full == (self == LocaleSpecifier::Full),
    {
        match self {
            LocaleSpecifier::Full => true,
            _ => false,
        }
    }

    /// The coverage levels whose locales this specifier stands for.
    pub fn coverage_levels(self) -> (levels: Vec<CoverageLevel>)
        ensures
            levels@ == specifier_levels(self),
    {
        let mut levels: Vec<CoverageLevel> = Vec::new();
        match self {
            LocaleSpecifier::Full => {},
            LocaleSpecifier::Recommended => {
                levels.push(CoverageLevel::Modern);
                levels.push(CoverageLevel::Moderate);
                levels.push(CoverageLevel::Basic);
            },
            LocaleSpecifier::Modern => {
                levels.push(CoverageLevel::Modern);
            },
            LocaleSpecifier::Moderate => {
                levels.push(CoverageLevel::Moderate);
            },
            LocaleSpecifier::Basic => {
                levels.push(CoverageLevel::Basic);
            },
        }
        assert(levels@ =~= specifier_levels(self));
        levels
    }
}

/// Why a locale specifier was refused.
#[derive(Clone, Copy, PartialEq, Eq, Structural, Debug)]
pub enum SpecifierError {
    /// The label names no specifier.
    Unknown,
}

/// The specifier that a label names, or the fault.
pub open spec fn specifier_parsed(label: Seq<char>) -> Result<LocaleSpecifier, SpecifierError> {
    match locale_specifier_label_value(label) {
        Some(specifier) => Ok(specifier),
        None => Err(SpecifierError::Unknown),
    }
}

/// Reads a locale specifier from its label.
pub fn parse_locales(label: &str) -> (specifier: Result<LocaleSpecifier, SpecifierError>)
    ensures
        specifier == specifier_parsed(label@),
{
    match LocaleSpecifier::from_label(label) {
        Some(specifier) => Ok(specifier),
        None => Err(SpecifierError::Unknown),
    }
}

} // verus!
