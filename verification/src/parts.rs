//! The parts collector: a text sink with nested annotated regions that
//! yields a flat, non-overlapping sequence of tagged spans.

use vstd::prelude::*;
use vstd::string::*;

verus! {

/// The category of a span of formatted output.
#[derive(Clone, Copy, PartialEq, Eq, Structural, Debug)]
pub enum Part {
    Literal,
    Integer,
    Fraction,
    Decimal,
    Group,
    MinusSign,
    PlusSign,
    Percent,
    Currency,
    Date,
    Time,
    Era,
    Year,
    Month,
    Day,
    Weekday,
    DayPeriod,
    Hour,
    Minute,
    Second,
    TimeZoneName,
    Element,
}

/// The label of each category.
pub open spec fn part_label(part: Part) -> Seq<char> {
    match part {
        Part::Literal => "literal"@,
        Part::Integer => "integer"@,
        Part::Fraction => "fraction"@,
        Part::Decimal => "decimal"@,
        Part::Group => "group"@,
        Part::MinusSign => "minus_sign"@,
        Part::PlusSign => "plus_sign"@,
        Part::Percent => "percent"@,
        Part::Currency => "currency"@,
        Part::Date => "date"@,
        Part::Time => "time"@,
        Part::Era => "era"@,
        Part::Year => "year"@,
        Part::Month => "month"@,
        Part::Day => "day"@,
        Part::Weekday => "weekday"@,
        Part::DayPeriod => "day_period"@,
        Part::Hour => "hour"@,
        Part::Minute => "minute"@,
        Part::Second => "second"@,
        Part::TimeZoneName => "time_zone_name"@,
        Part::Element => "element"@,
    }
}

impl Part {
    /// The label under which spans of this category are handed out.
    pub fn to_symbol_name(self) -> (label: &'static str)
        ensures
            label@ == part_label(self),
    {
        match self {
            Part::Literal => "literal",
            Part::Integer => "integer",
            Part::Fraction => "fraction",
            Part::Decimal => "decimal",
            Part::Group => "group",
            Part::MinusSign => "minus_sign",
            Part::PlusSign => "plus_sign",
            Part::Percent => "percent",
            Part::Currency => "currency",
            Part::Date => "date",
            Part::Time => "time",
            Part::Era => "era",
            Part::Year => "year",
            Part::Month => "month",
            Part::Day => "day",
            Part::Weekday => "weekday",
            Part::DayPeriod => "day_period",
            Part::Hour => "hour",
            Part::Minute => "minute",
            Part::Second => "second",
            Part::TimeZoneName => "time_zone_name",
            Part::Element => "element",
        }
    }
}

/// The mathematical model of one span: its text and its category.
pub type SpanModel = (Seq<char>, Part);

/// The texts of `spans`, joined in order.
pub open spec fn concat_texts(spans: Seq<SpanModel>) -> Seq<char>
    decreases spans.len(),
{
    if spans.len() == 0 {
        Seq::empty()
    } else {
        concat_texts(spans.drop_last()) + spans.last().0
    }
}

/// The model of a list of owned spans.
pub open spec fn span_models(spans: Seq<(String, Part)>) -> Seq<SpanModel> {
    Seq::new(spans.len(), |i: int| (spans[i].0@, spans[i].1))
}

/// `spans` followed by `text` tagged `part`, unless `text` is empty.
pub open spec fn flushed(spans: Seq<SpanModel>, text: Seq<char>, part: Part) -> Seq<SpanModel> {
    if text.len() == 0 {
        spans
    } else {
        spans.push((text, part))
    }
}

/// Joining distributes over appending one span.
pub proof fn lemma_concat_push(spans: Seq<SpanModel>, span: SpanModel)
    ensures
        concat_texts(spans.push(span)) == concat_texts(spans) + span.0,
{
    assert(spans.push(span).drop_last() =~= spans);
}

/// Flushing moves the pending text into the spans without changing the
/// joined text.
pub proof fn lemma_concat_flushed(spans: Seq<SpanModel>, text: Seq<char>, part: Part)
    ensures
        concat_texts(flushed(spans, text, part)) == concat_texts(spans) + text,
{
    if text.len() == 0 {
        assert(concat_texts(spans) + text =~= concat_texts(spans));
    } else {
        lemma_concat_push(spans, (text, part));
    }
}

/// The state of a collector: the spans emitted so far, the text written
/// since the last flush, and the open regions, outermost first.
pub struct CollectorModel {
    pub spans: Seq<SpanModel>,
    pub pending: Seq<char>,
    pub stack: Seq<Part>,
}

impl CollectorModel {
    /// The state before anything was written.
    pub open spec fn empty() -> CollectorModel {
        CollectorModel { spans: Seq::empty(), pending: Seq::empty(), stack: Seq::empty() }
    }

    /// Everything written so far, in order.
    pub open spec fn text(self) -> Seq<char> {
        concat_texts(self.spans) + self.pending
    }

    /// No emitted span is empty.
    pub open spec fn wf(self) -> bool {
        forall|i: int| 0 <= i < self.spans.len() ==> (#[trigger] self.spans[i]).0.len() > 0
    }

    /// Text is appended to the pending buffer; nesting is untouched.
    pub open spec fn write(self, s: Seq<char>) -> CollectorModel {
        CollectorModel { pending: self.pending + s, ..self }
    }

    /// A region opens: at top level the pending text is flushed as a literal.
    pub open spec fn enter(self, part: Part) -> CollectorModel {
        if self.stack.len() == 0 {
            CollectorModel {
                spans: flushed(self.spans, self.pending, Part::Literal),
                pending: Seq::empty(),
                stack: self.stack.push(part),
            }
        } else {
            CollectorModel { stack: self.stack.push(part), ..self }
        }
    }

    /// The innermost region closes: back at top level the pending text is
    /// flushed under the tag of the region just closed, the outermost one.
    /// With no region open nothing changes.
    pub open spec fn exit(self) -> CollectorModel {
        if self.stack.len() == 0 {
            self
        } else if self.stack.len() == 1 {
            CollectorModel {
                spans: flushed(self.spans, self.pending, self.stack[0]),
                pending: Seq::empty(),
                stack: Seq::empty(),
            }
        } else {
            CollectorModel { stack: self.stack.drop_last(), ..self }
        }
    }

    /// The spans handed out at the end of a render: what is still pending
    /// becomes a literal.
    pub open spec fn finish(self) -> Seq<SpanModel> {
        flushed(self.spans, self.pending, Part::Literal)
    }
}

/// One thing a renderer does to its sink.
pub enum SinkEvent {
    /// Text is written.
    Write(String),
    /// A region with the given tag opens.
    Enter(Part),
    /// The innermost open region closes.
    Exit,
}

/// The state after `event`.
pub open spec fn step(state: CollectorModel, event: SinkEvent) -> CollectorModel {
    match event {
        SinkEvent::Write(s) => state.write(s@),
        SinkEvent::Enter(part) => state.enter(part),
        SinkEvent::Exit => state.exit(),
    }
}

/// The state after `events`, in order.
pub open spec fn run(state: CollectorModel, events: Seq<SinkEvent>) -> CollectorModel
    decreases events.len(),
{
    if events.len() == 0 {
        state
    } else {
        step(run(state, events.drop_last()), events.last())
    }
}

/// The text that `event` writes.
pub open spec fn event_text(event: SinkEvent) -> Seq<char> {
    match event {
        SinkEvent::Write(s) => s@,
        _ => Seq::empty(),
    }
}

/// What a plain string sink holds after `events`: the written texts joined,
/// regions ignored.
pub open spec fn plain_text(events: Seq<SinkEvent>) -> Seq<char>
    decreases events.len(),
{
    if events.len() == 0 {
        Seq::empty()
    } else {
        plain_text(events.drop_last()) + event_text(events.last())
    }
}

/// The change in nesting depth that `event` asks for.
pub open spec fn event_depth(event: SinkEvent) -> int {
    match event {
        SinkEvent::Write(_) => 0,
        SinkEvent::Enter(_) => 1,
        SinkEvent::Exit => -1,
    }
}

/// The nesting depth after `events`, counted from where they start.
pub open spec fn depth_after(events: Seq<SinkEvent>) -> int
    decreases events.len(),
{
    if events.len() == 0 {
        0
    } else {
        depth_after(events.drop_last()) + event_depth(events.last())
    }
}

/// `events` never close a region that they did not open.
pub open spec fn stays_inside(events: Seq<SinkEvent>) -> bool {
    forall|k: int| 0 <= k <= events.len() ==> depth_after(#[trigger] events.take(k)) >= 0
}

/// `events` close exactly the regions that they open.
pub open spec fn balanced(events: Seq<SinkEvent>) -> bool {
    stays_inside(events) && depth_after(events) == 0
}

/// No event changes the text written before it, and each adds what it
/// writes.
pub proof fn lemma_step_text(state: CollectorModel, event: SinkEvent)
    ensures
        step(state, event).text() == state.text() + event_text(event),
{
    match event {
        SinkEvent::Write(s) => {
            assert(concat_texts(state.spans) + (state.pending + s@) =~= (concat_texts(state.spans)
                + state.pending) + s@);
        },
        SinkEvent::Enter(part) => {
            lemma_concat_flushed(state.spans, state.pending, Part::Literal);
            assert(step(state, event).text() =~= state.text());
            assert(state.text() + Seq::<char>::empty() =~= state.text());
        },
        SinkEvent::Exit => {
            if state.stack.len() == 1 {
                lemma_concat_flushed(state.spans, state.pending, state.stack[0]);
            }
            assert(step(state, event).text() =~= state.text());
            assert(state.text() + Seq::<char>::empty() =~= state.text());
        },
    }
}

/// After any events the collector holds the text it held before, followed
/// by what a plain sink would have received.
pub proof fn lemma_run_text(state: CollectorModel, events: Seq<SinkEvent>)
    ensures
        run(state, events).text() == state.text() + plain_text(events),
    decreases events.len(),
{
    if events.len() == 0 {
        assert(state.text() + Seq::<char>::empty() =~= state.text());
    } else {
        lemma_run_text(state, events.drop_last());
        lemma_step_text(run(state, events.drop_last()), events.last());
        assert((state.text() + plain_text(events.drop_last())) + event_text(events.last())
            =~= state.text() + (plain_text(events.drop_last()) + event_text(events.last())));
    }
}

/// Joining the texts of the spans that a fresh collector hands out after
/// `events` gives exactly what a plain string sink holds after the same
/// events, whatever regions they open and close.
pub proof fn law_concatenation(events: Seq<SinkEvent>)
    ensures
        concat_texts(run(CollectorModel::empty(), events).finish()) == plain_text(events),
{
    let end = run(CollectorModel::empty(), events);
    lemma_run_text(CollectorModel::empty(), events);
    lemma_concat_flushed(end.spans, end.pending, Part::Literal);
    assert(CollectorModel::empty().text() =~= Seq::<char>::empty());
    assert(Seq::<char>::empty() + plain_text(events) =~= plain_text(events));
}

/// No event makes an empty span.
pub proof fn lemma_step_wf(state: CollectorModel, event: SinkEvent)
    requires
        state.wf(),
    ensures
        step(state, event).wf(),
{
}

/// A collector never emits an empty span: not while it runs and not in what
/// it hands out at the end.
pub proof fn law_no_empty_span(events: Seq<SinkEvent>)
    ensures
        run(CollectorModel::empty(), events).wf(),
        forall|i: int|
            0 <= i < run(CollectorModel::empty(), events).finish().len() ==> (
            #[trigger] run(CollectorModel::empty(), events).finish()[i]).0.len() > 0,
    decreases events.len(),
{
    if events.len() > 0 {
        law_no_empty_span(events.drop_last());
        lemma_step_wf(run(CollectorModel::empty(), events.drop_last()), events.last());
    }
}

/// Inside an open region, events that stay inside it emit no span: they
/// only extend the pending text and move the stack above that region.
pub proof fn lemma_run_inside(state: CollectorModel, events: Seq<SinkEvent>)
    requires
        state.stack.len() > 0,
        stays_inside(events),
    ensures
        run(state, events).spans == state.spans,
        run(state, events).pending == state.pending + plain_text(events),
        run(state, events).stack.len() == state.stack.len() + depth_after(events),
        run(state, events).stack[0] == state.stack[0],
    decreases events.len(),
{
    if events.len() == 0 {
        assert(state.pending + Seq::<char>::empty() =~= state.pending);
    } else {
        let front = events.drop_last();
        assert forall|k: int| 0 <= k <= front.len() implies depth_after(
            #[trigger] front.take(k),
        ) >= 0 by {
            assert(front.take(k) =~= events.take(k));
        }
        lemma_run_inside(state, front);
        assert(events.take(events.len() as int) =~= events);
        assert(front.take(front.len() as int) =~= front);
        let mid = run(state, front);
        assert((state.pending + plain_text(front)) + event_text(events.last()) =~= state.pending
            + (plain_text(front) + event_text(events.last())));
        assert(mid.pending + Seq::<char>::empty() =~= mid.pending);
    }
}

/// The outermost region wins: when a region tagged `part` is opened at top
/// level and closed again, all the text written in between becomes one span
/// tagged `part`, however many regions were opened and closed inside it.
pub proof fn law_outermost_wins(state: CollectorModel, part: Part, inner: Seq<SinkEvent>)
    requires
        state.stack.len() == 0,
        balanced(inner),
    ensures
        run(state.enter(part), inner).exit() == (CollectorModel {
            spans: flushed(
                flushed(state.spans, state.pending, Part::Literal),
                plain_text(inner),
                part,
            ),
            pending: Seq::empty(),
            stack: Seq::empty(),
        }),
{
    let opened = state.enter(part);
    lemma_run_inside(opened, inner);
    assert(opened.pending + plain_text(inner) =~= plain_text(inner));
}

/// A sink for formatted text that records which region each run of text
/// was written in. One collector serves one render call.
pub struct PartsCollector {
    parts: Vec<(String, Part)>,
    current_buffer: String,
    part_stack: Vec<Part>,
}

impl View for PartsCollector {
    type V = CollectorModel;

    closed spec fn view(&self) -> CollectorModel {
        CollectorModel {
            spans: span_models(self.parts@),
            pending: self.current_buffer@,
            stack: self.part_stack@,
        }
    }
}

impl PartsCollector {
    /// A collector at top level with nothing written.
    pub fn new() -> (collector: PartsCollector)
        ensures
            collector@ == CollectorModel::empty(),
    {
        let collector = PartsCollector {
            parts: Vec::new(),
            current_buffer: String::new(),
            part_stack: Vec::new(),
        };
        assert(span_models(collector.parts@) =~= Seq::empty());
        collector
    }

    /// Moves the pending text, if any, into the spans under `part`.
    fn flush_as(&mut self, part: Part)
        ensures
            final(self)@.spans == flushed(old(self)@.spans, old(self)@.pending, part),
            final(self)@.pending == Seq::<char>::empty(),
            final(self)@.stack == old(self)@.stack,
    {
        if !self.current_buffer.as_str().is_empty() {
            let mut text = String::new();
            core::mem::swap(&mut self.current_buffer, &mut text);
            self.parts.push((text, part));
            assert(span_models(self.parts@) =~= span_models(old(self).parts@).push(
                (old(self).current_buffer@, part),
            ));
        }
    }

    /// Appends `s` to the text written so far.
    pub fn write_str(&mut self, s: &str)
        ensures
            final(self)@ == old(self)@.write(s@),
    {
        self.current_buffer.append(s);
    }

    /// Opens a region tagged `part` inside the regions already open.
    pub fn enter(&mut self, part: Part)
        ensures
            final(self)@ == old(self)@.enter(part),
    {
        if self.part_stack.len() == 0 {
            self.flush_as(Part::Literal);
        }
        self.part_stack.push(part);
    }

    /// Closes the innermost open region and says whether there was one.
    pub fn exit(&mut self) -> (closed: bool)
        ensures
            closed == (old(self)@.stack.len() > 0),
            final(self)@ == old(self)@.exit(),
    {
        match self.part_stack.pop() {
            Some(part) => {
                if self.part_stack.len() == 0 {
                    self.flush_as(part);
                    assert(self.part_stack@ =~= Seq::<Part>::empty());
                    assert(old(self).part_stack@[0] == part);
                }
                true
            },
            None => false,
        }
    }

    /// Performs one event of a renderer on this sink.
    pub fn apply(&mut self, event: &SinkEvent)
        ensures
            final(self)@ == step(old(self)@, *event),
    {
        match event {
            SinkEvent::Write(s) => {
                self.write_str(s.as_str());
            },
            SinkEvent::Enter(part) => {
                self.enter(*part);
            },
            SinkEvent::Exit => {
                let _ = self.exit();
            },
        }
    }

    /// Ends the render and hands out the spans in order.
    pub fn into_parts(self) -> (parts: Vec<(String, Part)>)
        ensures
            span_models(parts@) == self@.finish(),
            concat_texts(span_models(parts@)) == self@.text(),
    {
        let mut collector = self;
        collector.flush_as(Part::Literal);
        proof {
            lemma_concat_flushed(self@.spans, self@.pending, Part::Literal);
        }
        collector.parts
    }
}

/// Replays `events` into a fresh collector and hands out its spans.
pub fn render_parts(events: &Vec<SinkEvent>) -> (parts: Vec<(String, Part)>)
    ensures
        span_models(parts@) == run(CollectorModel::empty(), events@).finish(),
        concat_texts(span_models(parts@)) == plain_text(events@),
{
    let mut collector = PartsCollector::new();
    let mut i: usize = 0;
    while i < events.len()
        invariant
            0 <= i <= events.len(),
            collector@ == run(CollectorModel::empty(), events@.take(i as int)),
        decreases events.len() - i,
    {
        collector.apply(&events[i]);
        proof {
            assert(events@.take(i + 1).drop_last() =~= events@.take(i as int));
        }
        i += 1;
    }
    proof {
        assert(events@.take(i as int) =~= events@);
        law_concatenation(events@);
    }
    collector.into_parts()
}

/// Replays `events` into a plain string: the written texts joined, regions
/// ignored.
pub fn render_plain(events: &Vec<SinkEvent>) -> (text: String)
    ensures
        text@ == plain_text(events@),
{
    let mut text = String::new();
    let mut i: usize = 0;
    while i < events.len()
        invariant
            0 <= i <= events.len(),
            text@ == plain_text(events@.take(i as int)),
        decreases events.len() - i,
    {
        proof {
            assert(events@.take(i + 1).drop_last() =~= events@.take(i as int));
        }
        match &events[i] {
            SinkEvent::Write(s) => {
                text.append(s.as_str());
            },
            _ => {
                assert(text@ + Seq::<char>::empty() =~= text@);
            },
        }
        i += 1;
    }
    proof {
        assert(events@.take(i as int) =~= events@);
    }
    text
}

} // verus!
