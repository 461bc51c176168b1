//! The four stages of a run and the order in which they follow one another.
//!
//! A run resolves its input, decodes the sector, selects the shape of the
//! output and encodes it. The [`Pipeline`] holds the stage a run has reached.
//! It hands out the [`Action`] of that stage, takes the [`Event`] that says
//! how the action went, and moves on: to the next stage when the action
//! completed, to an abort when it failed. No stage is tried twice and none is
//! gone back to.

use crate::options::Encoding;
use crate::options::InputSource;
use crate::options::InputSourceView;
use crate::options::Options;
use crate::options::OptionsView;
use crate::output::Shape;
use vstd::prelude::*;

verus! {

/// The kinds of error that end a run.
#[derive(Clone, Copy, Debug, PartialEq, Eq, Structural)]
pub enum ErrorKind {
    /// The input could not be opened or read, or the output not written.
    Io,
    /// The bytes are not a sector.
    Decode,
    /// The sector could not be converted into faces.
    Conversion,
    /// The output could not be serialised.
    Encode,
}

/// How the action of a stage went.
#[derive(Clone, Copy, Debug, PartialEq, Eq, Structural)]
pub enum Event {
    /// The action was carried out.
    Completed,
    /// The action failed with the error that is the stage's own.
    Failed,
    /// The action failed because input could not be read or output not
    /// written.
    IoFailed,
}

/// The stage that a run has reached.
#[derive(Clone, Copy, Debug, PartialEq, Eq, Structural)]
pub enum Stage {
    /// The input is to be resolved and opened.
    Resolve,
    /// The sector is to be decoded from the input.
    Decode,
    /// The shape of the output is to be selected.
    Select,
    /// The output is to be encoded and written.
    Encode,
    /// All four stages completed.
    Finished,
    /// A stage failed with an error of this kind.
    Aborted(ErrorKind),
}

/// What the driver of a run is to do next.
#[derive(Clone, Debug)]
pub enum Action {
    /// Open this source for reading.
    Open(InputSource),
    /// Decode the sector from the opened source, then release the source.
    Decode,
    /// Wrap the decoded sector in this shape.
    Select(Shape),
    /// Write the output to standard output in this encoding.
    Encode(Encoding),
    /// End the run with success.
    Finish,
    /// End the run with failure, reporting the error that was met.
    Abort(ErrorKind),
}

/// An [`Action`] with the path of its source as a sequence of characters.
pub enum ActionView {
    Open(InputSourceView),
    Decode,
    Select(Shape),
    Encode(Encoding),
    Finish,
    Abort(ErrorKind),
}

impl View for Action {
    type V = ActionView;

    open spec fn view(&self) -> ActionView {
        match self {
            Action::Open(source) => ActionView::Open(source@),
            Action::Decode => ActionView::Decode,
            Action::Select(shape) => ActionView::Select(*shape),
            Action::Encode(encoding) => ActionView::Encode(*encoding),
            Action::Finish => ActionView::Finish,
            Action::Abort(kind) => ActionView::Abort(*kind),
        }
    }
}

/// The stage that is reached when `n` stages have completed.
pub open spec fn nth_stage(n: int) -> Stage {
    if n <= 0 {
        Stage::Resolve
    } else if n == 1 {
        Stage::Decode
    } else if n == 2 {
        Stage::Select
    } else if n == 3 {
        Stage::Encode
    } else {
        Stage::Finished
    }
}

/// The kind of the error that ends a run when the action of `stage` is
/// answered by `event`, which is not [`Event::Completed`]. An input or
/// output failure is an I/O error at every stage, and resolving the input
/// fails in no other way. Otherwise the error is the stage's own. Once a run
/// is over no action is answered any more: [`next_stage`] does not ask for
/// the value there.
pub open spec fn failure_kind(stage: Stage, event: Event) -> ErrorKind {
    if event == Event::IoFailed {
        ErrorKind::Io
    } else {
        match stage {
            Stage::Resolve => ErrorKind::Io,
            Stage::Decode => ErrorKind::Decode,
            Stage::Select => ErrorKind::Conversion,
            Stage::Encode => ErrorKind::Encode,
            Stage::Finished => ErrorKind::Io,
            Stage::Aborted(kind) => kind,
        }
    }
}

/// The stage that follows `stage` when its action is answered by `event`.
/// A run that has finished or aborted stays as it is.
pub open spec fn next_stage(stage: Stage, event: Event) -> Stage {
    match stage {
        Stage::Finished => stage,
        Stage::Aborted(_) => stage,
        _ => if event == Event::Completed {
            match stage {
                Stage::Resolve => Stage::Decode,
                Stage::Decode => Stage::Select,
                Stage::Select => Stage::Encode,
                _ => Stage::Finished,
            }
        } else {
            Stage::Aborted(failure_kind(stage, event))
        },
    }
}

/// The action of a run with these options at `stage`.
pub open spec fn action_at(options: OptionsView, stage: Stage) -> ActionView {
    match stage {
        Stage::Resolve => ActionView::Open(options.input_source()),
        Stage::Decode => ActionView::Decode,
        Stage::Select => ActionView::Select(options.shape()),
        Stage::Encode => ActionView::Encode(options.encoding()),
        Stage::Finished => ActionView::Finish,
        Stage::Aborted(kind) => ActionView::Abort(kind),
    }
}

/// The stage of a run whose actions have been answered by `events`, the
/// first of them answering the first action.
pub open spec fn stage_after(events: Seq<Event>) -> Stage
    decreases events.len(),
{
    if events.len() == 0 {
        Stage::Resolve
    } else {
        next_stage(stage_after(events.drop_last()), events.last())
    }
}

impl Stage {
    /// The run is over: it has finished or aborted.
    pub open spec fn spec_is_terminal(self) -> bool {
        self is Finished || self is Aborted
    }

    /// The run is over: it has finished or aborted.
    pub fn is_terminal(self) -> (terminal: bool)
        ensures
            terminal == self.spec_is_terminal(),
    {
        match self {
            Stage::Finished => true,
            Stage::Aborted(_) => true,
            _ => false,
        }
    }

    /// The stage that follows this one when its action is answered by
    /// `event`.
    pub fn next(self, event: Event) -> (stage: Stage)
        ensures
            stage == next_stage(self, event),
    {
        match self {
            Stage::Finished => self,
            Stage::Aborted(_) => self,
            Stage::Resolve => match event {
                Event::Completed => Stage::Decode,
                _ => Stage::Aborted(ErrorKind::Io),
            },
            Stage::Decode => match event {
                Event::Completed => Stage::Select,
                Event::Failed => Stage::Aborted(ErrorKind::Decode),
                Event::IoFailed => Stage::Aborted(ErrorKind::Io),
            },
            Stage::Select => match event {
                Event::Completed => Stage::Encode,
                Event::Failed => Stage::Aborted(ErrorKind::Conversion),
                Event::IoFailed => Stage::Aborted(ErrorKind::Io),
            },
            Stage::Encode => match event {
                Event::Completed => Stage::Finished,
                Event::Failed => Stage::Aborted(ErrorKind::Encode),
                Event::IoFailed => Stage::Aborted(ErrorKind::Io),
            },
        }
    }
}

/// How far a run has come: the events it has taken and the stage they led
/// to.
struct Progress {
    stage: Stage,
    history: Ghost<Seq<Event>>,
}

impl Progress {
    /// The stage is the one that the events taken so far lead to.
    #[verifier::type_invariant]
    spec fn consistent(&self) -> bool {
        self.stage == stage_after(self.history@)
    }
}

/// One run: its options and the stage it has reached.
pub struct Pipeline {
    options: Options,
    progress: Progress,
}

impl Pipeline {
    /// The options of the run. They never change.
    pub closed spec fn spec_options(&self) -> OptionsView {
        self.options@
    }

    /// The stage the run has reached.
    pub closed spec fn spec_stage(&self) -> Stage {
        self.progress.stage
    }

    /// The events the run has taken, the first of them first.
    pub closed spec fn spec_history(&self) -> Seq<Event> {
        self.progress.history@
    }

    /// A run with these options, before its first action.
    pub fn new(options: Options) -> (pipeline: Pipeline)
        ensures
            pipeline.spec_options() == options@,
            pipeline.spec_stage() == Stage::Resolve,
            pipeline.spec_history() == Seq::<Event>::empty(),
    {
        Pipeline { options, progress: Progress { stage: Stage::Resolve, history: Ghost(Seq::empty()) } }
    }

    /// The options of the run.
    pub fn options(&self) -> (options: &Options)
        ensures
            options@ == self.spec_options(),
    {
        &self.options
    }

    /// The stage the run has reached: the one that the events taken so far
    /// lead to.
    pub fn stage(&self) -> (stage: Stage)
        ensures
            stage == self.spec_stage(),
            stage == stage_after(self.spec_history()),
    {
        proof {
            use_type_invariant(&self.progress);
        }
        self.progress.stage
    }

    /// What the driver is to do at the stage the run has reached. It is told
    /// to encode only when the run has taken three events, all of them
    /// completions, and to finish only when the first four were.
    pub fn action(&self) -> (action: Action)
        ensures
            action@ == action_at(self.spec_options(), self.spec_stage()),
            self.spec_stage() == stage_after(self.spec_history()),
            action is Encode <==> self.spec_history().len() == 3 && completed_before(
                self.spec_history(),
                3,
            ),
            action is Finish <==> self.spec_history().len() >= 4 && completed_before(
                self.spec_history(),
                4,
            ),
    {
        proof {
            use_type_invariant(&self.progress);
            lemma_encode_needs_three_completions(self.progress.history@);
            lemma_finish_needs_four_completions(self.progress.history@);
        }
        match self.progress.stage {
            Stage::Resolve => Action::Open(self.options.input_source()),
            Stage::Decode => Action::Decode,
            Stage::Select => Action::Select(self.options.shape()),
            Stage::Encode => Action::Encode(self.options.encoding()),
            Stage::Finished => Action::Finish,
            Stage::Aborted(kind) => Action::Abort(kind),
        }
    }

    /// Takes the answer to the action of the current stage, moves to the
    /// stage that follows and returns its action. The options stay as they
    /// are. Once the run has finished or aborted, every further event leaves
    /// it there.
    pub fn step(&mut self, event: Event) -> (action: Action)
        ensures
            final(self).spec_options() == old(self).spec_options(),
            final(self).spec_history() == old(self).spec_history().push(event),
            final(self).spec_stage() == next_stage(old(self).spec_stage(), event),
            final(self).spec_stage() == stage_after(final(self).spec_history()),
            action@ == action_at(final(self).spec_options(), final(self).spec_stage()),
            action is Encode <==> final(self).spec_history().len() == 3 && completed_before(
                final(self).spec_history(),
                3,
            ),
            action is Finish <==> final(self).spec_history().len() >= 4 && completed_before(
                final(self).spec_history(),
                4,
            ),
    {
        proof {
            use_type_invariant(&self.progress);
            assert(self.progress.history@.push(event).drop_last() =~= self.progress.history@);
        }
        let stage = self.progress.stage.next(event);
        self.progress = Progress { stage, history: Ghost(self.progress.history@.push(event)) };
        self.action()
    }
}

/// Every event up to, and not including, position `n` is a completion.
pub open spec fn completed_before(events: Seq<Event>, n: int) -> bool {
    forall|i: int| 0 <= i < n && i < events.len() ==> events[i] == Event::Completed
}

/// A run that has finished or aborted stays where it is, whatever is
/// reported to it afterwards.
pub proof fn lemma_terminal_is_final(stage: Stage, event: Event)
    requires
        stage.spec_is_terminal(),
    ensures
        next_stage(stage, event) == stage,
{
}

/// The outcome of a run, told from its events alone. While every action
/// completes, the run goes through the four stages in order and finishes
/// after the fourth. The first event that is not a completion, if it
/// answers one of the four actions, aborts the run with the error of the
/// stage it answers, and nothing reported later changes that.
pub proof fn lemma_first_failure_decides(events: Seq<Event>)
    ensures
        completed_before(events, 4) ==> stage_after(events) == nth_stage(
            events.len() as int,
        ),
        forall|i: int|
            0 <= i < 4 && i < events.len() && events[i] != Event::Completed && completed_before(
                events,
                i,
            ) ==> stage_after(events) == Stage::Aborted(
                failure_kind(nth_stage(i), #[trigger] events[i]),
            ),
    decreases events.len(),
{
    if events.len() > 0 {
        let earlier = events.drop_last();
        let n = earlier.len() as int;
        lemma_first_failure_decides(earlier);
        if completed_before(events, 4) {
            assert(completed_before(earlier, 4));
        }
        assert forall|i: int|
            0 <= i < 4 && i < events.len() && events[i] != Event::Completed && completed_before(
                events,
                i,
            ) implies stage_after(events) == Stage::Aborted(
            failure_kind(nth_stage(i), #[trigger] events[i]),
        ) by {
            if i < n {
                assert(earlier[i] == events[i]);
                assert(completed_before(earlier, i));
            } else {
                assert(completed_before(earlier, 4)) by {
                    assert forall|j: int| 0 <= j < 4 && j < earlier.len() implies earlier[j]
                        == Event::Completed by {
                        assert(earlier[j] == events[j]);
                    }
                }
            }
        }
    }
}

/// Output is written only after three completions: a run stands at the
/// encoding stage exactly when it has been answered three times, each time
/// by a completion. So when opening the input, decoding or selecting fails,
/// the driver is never told to encode.
pub proof fn lemma_encode_needs_three_completions(events: Seq<Event>)
    ensures
        stage_after(events) == Stage::Encode <==> events.len() == 3 && completed_before(events, 3),
{
    lemma_first_failure_decides(events);
    if completed_before(events, 4) {
    } else {
        let i = first_failure(events, 0);
        lemma_first_failure_found(events, 0);
        assert(stage_after(events) == Stage::Aborted(failure_kind(nth_stage(i), events[i])));
    }
}

/// A run finishes exactly when its first four actions all completed.
pub proof fn lemma_finish_needs_four_completions(events: Seq<Event>)
    ensures
        stage_after(events) == Stage::Finished <==> events.len() >= 4 && completed_before(events, 4),
{
    lemma_first_failure_decides(events);
    if completed_before(events, 4) {
    } else {
        let i = first_failure(events, 0);
        lemma_first_failure_found(events, 0);
        assert(stage_after(events) == Stage::Aborted(failure_kind(nth_stage(i), events[i])));
    }
}

/// The position of the first event at or after `from` that is not a
/// completion, or the number of events if there is none.
spec fn first_failure(events: Seq<Event>, from: int) -> int
    decreases events.len() - from,
{
    if from < 0 || from >= events.len() {
        events.len() as int
    } else if events[from] != Event::Completed {
        from
    } else {
        first_failure(events, from + 1)
    }
}

proof fn lemma_first_failure_found(events: Seq<Event>, from: int)
    requires
        0 <= from,
        completed_before(events, from),
        !completed_before(events, 4),
    ensures
        from <= first_failure(events, from) < 4,
        first_failure(events, from) < events.len(),
        events[first_failure(events, from)] != Event::Completed,
        completed_before(events, first_failure(events, from)),
    decreases events.len() - from,
{
    if from >= events.len() {
        assert(completed_before(events, 4));
    } else if events[from] != Event::Completed {
        if from >= 4 {
            assert(completed_before(events, 4));
        }
    } else {
        assert(completed_before(events, from + 1));
        lemma_first_failure_found(events, from + 1);
    }
}

/// Where the bytes come from bears on the first action alone: two runs
/// whose options differ in nothing but the file argument are told to do the
/// same at every later stage.
pub proof fn lemma_source_bears_on_opening_only(a: OptionsView, b: OptionsView, stage: Stage)
    requires
        a.use_yaml == b.use_yaml,
        a.use_compact == b.use_compact,
        a.to_renderables == b.to_renderables,
        stage != Stage::Resolve,
    ensures
        action_at(a, stage) == action_at(b, stage),
{
}

/// The encoding flags bear on the last action alone: two runs whose options
/// differ in nothing but `use_yaml` and `use_compact` are told to do the
/// same at every other stage, so each encoding is given the same output to
/// write.
pub proof fn lemma_encoding_bears_on_encoding_only(a: OptionsView, b: OptionsView, stage: Stage)
    requires
        a.file == b.file,
        a.to_renderables == b.to_renderables,
        stage != Stage::Encode,
    ensures
        action_at(a, stage) == action_at(b, stage),
{
}

/// The error that each failure ends a run with. Failing to open the input
/// is an I/O error however it is reported. At the later stages a failure of
/// the stage's own is a decode, a conversion or an encode error, and a
/// failure to read input or write output is an I/O error.
pub proof fn lemma_failure_kinds(event: Event)
    requires
        event != Event::Completed,
    ensures
        next_stage(Stage::Resolve, event) == Stage::Aborted(ErrorKind::Io),
        next_stage(Stage::Decode, Event::Failed) == Stage::Aborted(ErrorKind::Decode),
        next_stage(Stage::Select, Event::Failed) == Stage::Aborted(ErrorKind::Conversion),
        next_stage(Stage::Encode, Event::Failed) == Stage::Aborted(ErrorKind::Encode),
        next_stage(Stage::Decode, Event::IoFailed) == Stage::Aborted(ErrorKind::Io),
        next_stage(Stage::Select, Event::IoFailed) == Stage::Aborted(ErrorKind::Io),
        next_stage(Stage::Encode, Event::IoFailed) == Stage::Aborted(ErrorKind::Io),
{
}

} // verus!
