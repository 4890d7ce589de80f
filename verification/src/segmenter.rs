//! Option resolution for segmenters, and the segments that breaks cut out
//! of a text.

use crate::options::choice_of;
use crate::options::find_unknown;
use crate::options::first_unknown;
use crate::options::read_choice;
use crate::options::text_eq;
use crate::options::Labelled;
use crate::options::OptionEntry;
use crate::options::OptionError;
use crate::options::OptionGroup;
use crate::options::OptionKey;
use vstd::prelude::*;

verus! {

/// The unit into which a text is broken.
#[derive(Clone, Copy, PartialEq, Eq, Structural, Debug)]
pub enum Granularity {
    Grapheme,
    Word,
    Sentence,
    Line,
}

/// The label of each granularity.
pub open spec fn granularity_label(value: Granularity) -> Seq<char> {
    match value {
        Granularity::Grapheme => "grapheme"@,
        Granularity::Word => "word"@,
        Granularity::Sentence => "sentence"@,
        Granularity::Line => "line"@,
    }
}

/// The granularity that a label names, if any: the first whose label it is.
pub open spec fn granularity_label_value(label: Seq<char>) -> Option<Granularity> {
    if label == "grapheme"@ {
        Some(Granularity::Grapheme)
    } else if label == "word"@ {
        Some(Granularity::Word)
    } else if label == "sentence"@ {
        Some(Granularity::Sentence)
    } else if label == "line"@ {
        Some(Granularity::Line)
    } else {
        None
    }
}

/// The labels are a two-way table: each granularity is the one that its own
/// label names.
pub proof fn law_granularity_labels(value: Granularity)
    ensures
        granularity_label_value(granularity_label(value)) == Some(value),
{
    reveal_strlit("grapheme");
    reveal_strlit("word");
    reveal_strlit("sentence");
    reveal_strlit("line");
    assert("grapheme"@.len() == 8 && "word"@.len() == 4 && "sentence"@.len() == 8 && "line"@.len() == 4);
    assert("grapheme"@[0] == 'g' && "sentence"@[0] == 's' && "word"@[0] == 'w' && "line"@[0] == 'l');
}

impl Granularity {
    /// The label that names this granularity.
    pub fn to_symbol_name(self) -> (label: &'static str)
        ensures
            label@ == granularity_label(self),
    {
        match self {
            Granularity::Grapheme => "grapheme",
            Granularity::Word => "word",
            Granularity::Sentence => "sentence",
            Granularity::Line => "line",
        }
    }
}

impl Labelled for Granularity {
    open spec fn label_value(label: Seq<char>) -> Option<Granularity> {
        granularity_label_value(label)
    }

    fn from_label(label: &str) -> (value: Option<Granularity>) {
        if text_eq(label, "grapheme") {
            Some(Granularity::Grapheme)
        } else if text_eq(label, "word") {
            Some(Granularity::Word)
        } else if text_eq(label, "sentence") {
            Some(Granularity::Sentence)
        } else if text_eq(label, "line") {
            Some(Granularity::Line)
        } else {
            None
        }
    }
}

/// The canonical configuration of a segmenter.
#[derive(Clone, Copy, PartialEq, Eq, Structural, Debug)]
pub struct SegmenterDescriptor {
    pub granularity: Granularity,
}

/// The descriptor that an option set for segmenters resolves to: the
/// granularity must be given. A key that such option sets may not hold is
/// reported before a fault in the granularity.
pub open spec fn segmenter_resolved(entries: Seq<OptionEntry>) -> Result<SegmenterDescriptor, OptionError> {
    if first_unknown(entries, OptionGroup::Segmenter, 0) is Some {
        Err(OptionError::UnknownKey(first_unknown(entries, OptionGroup::Segmenter, 0)->0 as usize))
    } else if choice_of::<Granularity>(entries, OptionKey::Granularity) is Err {
        Err(choice_of::<Granularity>(entries, OptionKey::Granularity)->Err_0)
    } else if choice_of::<Granularity>(entries, OptionKey::Granularity)->Ok_0 is None {
        Err(OptionError::MissingKey(OptionKey::Granularity))
    } else {
        Ok(
            SegmenterDescriptor {
                granularity: choice_of::<Granularity>(entries, OptionKey::Granularity)->Ok_0->0,
            },
        )
    }
}

/// Resolves an option set to the canonical descriptor.
pub fn resolve_segmenter(entries: &Vec<OptionEntry>) -> (descriptor: Result<
    SegmenterDescriptor,
    OptionError,
>)
    ensures
        descriptor == segmenter_resolved(entries@),
{
    match find_unknown(entries, OptionGroup::Segmenter) {
        Some(i) => {
            return Err(OptionError::UnknownKey(i));
        },
        None => {},
    }
    let granularity = match read_choice::<Granularity>(entries, OptionKey::Granularity) {
        Ok(Some(value)) => value,
        Ok(None) => {
            return Err(OptionError::MissingKey(OptionKey::Granularity));
        },
        Err(e) => {
            return Err(e);
        },
    };
    Ok(SegmenterDescriptor { granularity })
}
impl Granularity {
    /// Whether segmenting at this granularity needs loaded data: sentences
    /// and lines do, graphemes and words can do without.
    pub fn provider_required(self) -> (required: bool)
        ensures
            required == (self == Granularity::Sentence || self == Granularity::Line),
    {
        match self {
            Granularity::Sentence | Granularity::Line => true,
            _ => false,
        }
    }

    /// Whether segments at this granularity say if they are word-like.
    pub fn reports_word_like(self) -> (reports: bool)
        ensures
            reports == (self == Granularity::Word),
    {
        match self {
            Granularity::Word => true,
            _ => false,
        }
    }
}

/// Where a segmenter has its data from.
#[derive(Clone, Copy, PartialEq, Eq, Structural, Debug)]
pub enum DataVariant {
    /// The data built into the program.
    Embedded,
    /// The data of a provider that the caller gave.
    Loaded,
}

/// Why no data could be chosen for a segmenter.
#[derive(Clone, Copy, PartialEq, Eq, Structural, Debug)]
pub enum SegmenterError {
    /// Segmenting at this granularity needs a provider, and none was given.
    ProviderRequired(Granularity),
}

/// The data that a segmenter uses: that of the provider where one is given;
/// else the embedded data for graphemes and words, and a fault for
/// sentences and lines.
pub open spec fn data_chosen(granularity: Granularity, provider_given: bool) -> Result<
    DataVariant,
    SegmenterError,
> {
    if provider_given {
        Ok(DataVariant::Loaded)
    } else if granularity == Granularity::Sentence || granularity == Granularity::Line {
        Err(SegmenterError::ProviderRequired(granularity))
    } else {
        Ok(DataVariant::Embedded)
    }
}

/// Chooses the data that a segmenter uses.
pub fn select_data(granularity: Granularity, provider_given: bool) -> (variant: Result<
    DataVariant,
    SegmenterError,
>)
    ensures
        variant == data_chosen(granularity, provider_given),
{
    if provider_given {
        Ok(DataVariant::Loaded)
    } else if granularity.provider_required() {
        Err(SegmenterError::ProviderRequired(granularity))
    } else {
        Ok(DataVariant::Embedded)
    }
}

/// The break before the break at `index`: the start of the text for the
/// first.
pub open spec fn previous_break(breaks: Seq<usize>, index: int) -> usize {
    if index <= 0 {
        0
    } else {
        breaks[index - 1]
    }
}

/// The segments that a run of breaks cuts out: one from each break's
/// predecessor to the break, where the break lies after its predecessor.
pub open spec fn segments_of(breaks: Seq<usize>) -> Seq<(usize, usize)>
    decreases breaks.len(),
{
    if breaks.len() == 0 {
        Seq::empty()
    } else {
        let front = segments_of(breaks.drop_last());
        let start = previous_break(breaks, breaks.len() - 1);
        if breaks.last() > start {
            front.push((start, breaks.last()))
        } else {
            front
        }
    }
}

/// Cuts a text at `breaks` into segments, each given by its start and its
/// end; empty segments are left out.
pub fn segment_ranges(breaks: &Vec<usize>) -> (segments: Vec<(usize, usize)>)
    ensures
        segments@ == segments_of(breaks@),
{
    let mut segments: Vec<(usize, usize)> = Vec::new();
    let mut prev_index: usize = 0;
    let mut i: usize = 0;
    while i < breaks.len()
        invariant
            0 <= i <= breaks.len(),
            prev_index == previous_break(breaks@, i as int),
            segments@ == segments_of(breaks@.take(i as int)),
        decreases breaks.len() - i,
    {
        let break_index = breaks[i];
        proof {
            assert(breaks@.take(i + 1).drop_last() =~= breaks@.take(i as int));
        }
        if break_index > prev_index {
            segments.push((prev_index, break_index));
        }
        prev_index = break_index;
        i += 1;
    }
    proof {
        assert(breaks@.take(i as int) =~= breaks@);
    }
    segments
}

/// The places of the breaks that close a segment: those that lie after
/// their predecessor, in order.
pub open spec fn closing_breaks(breaks: Seq<usize>) -> Seq<usize>
    decreases breaks.len(),
{
    if breaks.len() == 0 {
        Seq::empty()
    } else {
        let front = closing_breaks(breaks.drop_last());
        let last = (breaks.len() - 1) as usize;
        if breaks.last() > previous_break(breaks, breaks.len() - 1) {
            front.push(last)
        } else {
            front
        }
    }
}

/// Says for each segment which break closes it, by the break's place among
/// `breaks`: what the renderer says of a break belongs to the segment that
/// the break closes.
pub fn segment_sources(breaks: &Vec<usize>) -> (sources: Vec<usize>)
    ensures
        sources@ == closing_breaks(breaks@),
{
    let mut sources: Vec<usize> = Vec::new();
    let mut prev_index: usize = 0;
    let mut i: usize = 0;
    while i < breaks.len()
        invariant
            0 <= i <= breaks.len(),
            prev_index == previous_break(breaks@, i as int),
            sources@ == closing_breaks(breaks@.take(i as int)),
        decreases breaks.len() - i,
    {
        let break_index = breaks[i];
        proof {
            assert(breaks@.take(i + 1).drop_last() =~= breaks@.take(i as int));
        }
        if break_index > prev_index {
            sources.push(i);
        }
        prev_index = break_index;
        i += 1;
    }
    proof {
        assert(breaks@.take(i as int) =~= breaks@);
    }
    sources
}

/// Each segment runs from the predecessor of the break that closes it to
/// that break: the segments and the places of their closing breaks go
/// together, one for one. This holds of every run of breaks that a vector
/// can hold.
pub proof fn law_segment_sources(breaks: Seq<usize>)
    requires
        breaks.len() <= usize::MAX,
    ensures
        closing_breaks(breaks).len() == segments_of(breaks).len(),
        forall|j: int|
            0 <= j < closing_breaks(breaks).len() ==> {
                let place = #[trigger] closing_breaks(breaks)[j];
                &&& place < breaks.len()
                &&& segments_of(breaks)[j] == (
                    previous_break(breaks, place as int),
                    breaks[place as int],
                )
            },
    decreases breaks.len(),
{
    if breaks.len() > 0 {
        let front = breaks.drop_last();
        law_segment_sources(front);
        assert forall|j: int| 0 <= j < closing_breaks(breaks).len() implies {
            let place = #[trigger] closing_breaks(breaks)[j];
            &&& place < breaks.len()
            &&& segments_of(breaks)[j] == (previous_break(breaks, place as int), breaks[place as int])
        } by {
            let closes = breaks.last() > previous_break(breaks, breaks.len() - 1);
            if j < closing_breaks(front).len() {
                let place = closing_breaks(front)[j];
                assert(place < front.len());
                if closes {
                    assert(closing_breaks(breaks) == closing_breaks(front).push(
                        (breaks.len() - 1) as usize,
                    ));
                    assert(segments_of(breaks) == segments_of(front).push(
                        (previous_break(breaks, breaks.len() - 1), breaks.last()),
                    ));
                }
                assert(closing_breaks(breaks)[j] == place);
                assert(segments_of(breaks)[j] == segments_of(front)[j]);
                assert(previous_break(front, place as int) == previous_break(breaks, place as int));
                assert(front[place as int] == breaks[place as int]);
            } else {
                assert(closes);
                assert(closing_breaks(breaks)[j] == (breaks.len() - 1) as usize);
                assert(segments_of(breaks)[j] == (
                    previous_break(breaks, breaks.len() - 1),
                    breaks.last(),
                ));
            }
        }
    }
}

/// No segment is empty, and there are no more segments than breaks.
pub proof fn law_segments_nonempty(breaks: Seq<usize>)
    ensures
        segments_of(breaks).len() <= breaks.len(),
        forall|i: int|
            0 <= i < segments_of(breaks).len() ==> (#[trigger] segments_of(breaks)[i]).0
                < segments_of(breaks)[i].1,
    decreases breaks.len(),
{
    if breaks.len() > 0 {
        law_segments_nonempty(breaks.drop_last());
    }
}

/// Where the breaks never go backwards, the segments follow one another
/// without overlap: each starts at or after the end of the one before.
pub proof fn law_segments_in_order(breaks: Seq<usize>)
    requires
        forall|i: int, j: int| 0 <= i <= j < breaks.len() ==> breaks[i] <= breaks[j],
    ensures
        forall|i: int|
            0 <= i < segments_of(breaks).len() - 1 ==> (#[trigger] segments_of(breaks)[i]).1
                <= segments_of(breaks)[i + 1].0,
        segments_of(breaks).len() > 0 ==> segments_of(breaks).last().1 <= breaks.last(),
    decreases breaks.len(),
{
    if breaks.len() > 0 {
        let front = breaks.drop_last();
        law_segments_in_order(front);
        law_segments_nonempty(front);
        if segments_of(front).len() > 0 {
            assert(front.last() == breaks[breaks.len() - 2]);
        }
    }
}

} // verus!
