//! The order of one run, as a state machine.
//!
//! A run waits for the drawing surface, then, where a sprite is to be
//! shown, for its image, and then draws. Whoever drives the run does the
//! work outside (asks for the surface, loads the image, carries out the
//! drawing) and reports each outcome as an [`Event`]; the run answers with
//! the [`Action`] to take. An event that the run is not waiting for is
//! answered with [`Action::Nothing`] and changes nothing, so a signal that
//! fires twice, or a success and a failure that both fire, resume the run
//! once.

use vstd::prelude::*;

verus! {

/// Why a run ended without its picture, or with a part of it.
#[derive(Clone, Copy, Debug, PartialEq, Eq, Structural)]
pub enum RenderError {
    /// The canvas or its drawing context could not be had.
    ResourceAcquisition,
    /// The image failed to load.
    ImageLoad,
    /// The surface rejected a drawing call; what was drawn before it stays.
    SurfaceOperation,
}

/// Where a run stands.
#[derive(Clone, Copy, Debug, PartialEq, Eq, Structural)]
pub enum Phase {
    /// The surface has been asked for.
    AwaitingSurface,
    /// The image has been asked for.
    AwaitingImage,
    /// The drawing is being carried out.
    Drawing,
    /// The picture is complete.
    Done,
    /// The run has ended with an error.
    Failed(RenderError),
}

/// What happened outside.
#[derive(Clone, Copy, Debug, PartialEq, Eq, Structural)]
pub enum Event {
    SurfaceAcquired,
    SurfaceFailed,
    ImageLoaded,
    ImageFailed,
    DrawingDone,
    DrawingFailed,
}

/// What to do next.
#[derive(Clone, Copy, Debug, PartialEq, Eq, Structural)]
pub enum Action {
    /// Ask for the image and report `ImageLoaded` or `ImageFailed`.
    LoadImage,
    /// Carry out the scene's operations and report `DrawingDone`, or
    /// `DrawingFailed` at the first that the surface rejects.
    Draw,
    /// Report the error; the run is over.
    Report(RenderError),
    /// Nothing.
    Nothing,
}

impl Event {
    /// Whether the event is one of the two signals of the image load.
    pub open spec fn is_image_signal(self) -> bool {
        self == Event::ImageLoaded || self == Event::ImageFailed
    }
}

impl Phase {
    /// Whether the run is over.
    pub open spec fn is_over(self) -> bool {
        self == Phase::Done || self is Failed
    }

    /// How far the run has come: a run never goes back.
    pub open spec fn progress(self) -> nat {
        match self {
            Phase::AwaitingSurface => 0,
            Phase::AwaitingImage => 1,
            Phase::Drawing => 2,
            Phase::Done => 3,
            Phase::Failed(_) => 3,
        }
    }
}

/// The phase that follows and the action to take, for a phase and an event.
/// `sprite` says whether an image is shown under the fractal.
pub open spec fn transition(phase: Phase, sprite: bool, event: Event) -> (Phase, Action) {
    match (phase, event) {
        (Phase::AwaitingSurface, Event::SurfaceAcquired) => if sprite {
            (Phase::AwaitingImage, Action::LoadImage)
        } else {
            (Phase::Drawing, Action::Draw)
        },
        (Phase::AwaitingSurface, Event::SurfaceFailed) => (
            Phase::Failed(RenderError::ResourceAcquisition),
            Action::Report(RenderError::ResourceAcquisition),
        ),
        (Phase::AwaitingImage, Event::ImageLoaded) => (Phase::Drawing, Action::Draw),
        (Phase::AwaitingImage, Event::ImageFailed) => (
            Phase::Failed(RenderError::ImageLoad),
            Action::Report(RenderError::ImageLoad),
        ),
        (Phase::Drawing, Event::DrawingDone) => (Phase::Done, Action::Nothing),
        (Phase::Drawing, Event::DrawingFailed) => (
            Phase::Failed(RenderError::SurfaceOperation),
            Action::Report(RenderError::SurfaceOperation),
        ),
        _ => (phase, Action::Nothing),
    }
}

/// The phase that a run reaches from `phase` through the events, in order.
pub open spec fn phase_after(phase: Phase, sprite: bool, events: Seq<Event>) -> Phase
    decreases events.len(),
{
    if events.len() == 0 {
        phase
    } else {
        transition(phase_after(phase, sprite, events.drop_last()), sprite, events.last()).0
    }
}

/// The action with which a run that starts in `phase` answers the event at
/// index `i`, after the events before it.
pub open spec fn answer(phase: Phase, sprite: bool, events: Seq<Event>, i: int) -> Action
    recommends
        0 <= i < events.len(),
{
    transition(phase_after(phase, sprite, events.take(i)), sprite, events[i]).1
}

/// One run.
#[derive(Clone, Copy, Debug, PartialEq, Eq, Structural)]
pub struct Run {
    pub phase: Phase,
    pub sprite: bool,
}

impl Run {
    /// A run that waits for its surface.
    pub fn new(sprite: bool) -> (run: Run)
        ensures
            run.phase == Phase::AwaitingSurface,
            run.sprite == sprite,
    {
        Run { phase: Phase::AwaitingSurface, sprite }
    }

    /// Takes an event in and says what to do next.
    pub fn handle(&mut self, event: Event) -> (action: Action)
        ensures
            (final(self).phase, action) == transition(old(self).phase, old(self).sprite, event),
            final(self).sprite == old(self).sprite,
    {
        let (phase, action) = match (self.phase, event) {
            (Phase::AwaitingSurface, Event::SurfaceAcquired) => if self.sprite {
                (Phase::AwaitingImage, Action::LoadImage)
            } else {
                (Phase::Drawing, Action::Draw)
            },
            (Phase::AwaitingSurface, Event::SurfaceFailed) => (
                Phase::Failed(RenderError::ResourceAcquisition),
                Action::Report(RenderError::ResourceAcquisition),
            ),
            (Phase::AwaitingImage, Event::ImageLoaded) => (Phase::Drawing, Action::Draw),
            (Phase::AwaitingImage, Event::ImageFailed) => (
                Phase::Failed(RenderError::ImageLoad),
                Action::Report(RenderError::ImageLoad),
            ),
            (Phase::Drawing, Event::DrawingDone) => (Phase::Done, Action::Nothing),
            (Phase::Drawing, Event::DrawingFailed) => (
                Phase::Failed(RenderError::SurfaceOperation),
                Action::Report(RenderError::SurfaceOperation),
            ),
            (phase, _) => (phase, Action::Nothing),
        };
        self.phase = phase;
        action
    }

    /// The error with which the run ended, if it ended with one.
    pub fn error(&self) -> (error: Option<RenderError>)
        ensures
            error == match self.phase {
                Phase::Failed(e) => Some(e),
                _ => None,
            },
    {
        match self.phase {
            Phase::Failed(e) => Some(e),
            _ => None,
        }
    }
}

/// A run never goes back: through any events, its progress does not fall.
pub proof fn lemma_progress(phase: Phase, sprite: bool, events: Seq<Event>, i: int, j: int)
    requires
        0 <= i <= j <= events.len(),
    ensures
        phase_after(phase, sprite, events.take(i)).progress() <= phase_after(
            phase,
            sprite,
            events.take(j),
        ).progress(),
    decreases j - i,
{
    if i < j {
        lemma_progress(phase, sprite, events, i, j - 1);
        assert(events.take(j).drop_last() =~= events.take(j - 1));
    }
}

/// A run that is over stays as it is and answers every event with nothing.
pub proof fn lemma_over_is_final(phase: Phase, sprite: bool, events: Seq<Event>)
    requires
        phase.is_over(),
    ensures
        phase_after(phase, sprite, events) == phase,
        forall|i: int|
            0 <= i < events.len() ==> #[trigger] answer(phase, sprite, events, i)
                == Action::Nothing,
    decreases events.len(),
{
    if events.len() > 0 {
        lemma_over_is_final(phase, sprite, events.drop_last());
        assert forall|i: int| 0 <= i < events.len() implies #[trigger] answer(
            phase,
            sprite,
            events,
            i,
        ) == Action::Nothing by {
            lemma_over_is_final(phase, sprite, events.take(i));
        }
    }
}

/// The image load resumes a run at most once: of two image signals in any
/// sequence of events, whatever lies between them, the later one is
/// answered with nothing if the earlier one was answered at all. A run that
/// waits for its image answers the first signal that comes.
pub proof fn lemma_image_resumes_once(
    phase: Phase,
    sprite: bool,
    events: Seq<Event>,
    i: int,
    j: int,
)
    requires
        0 <= i < j < events.len(),
        events[i].is_image_signal(),
        events[j].is_image_signal(),
    ensures
        answer(phase, sprite, events, i) != Action::Nothing ==> answer(phase, sprite, events, j)
            == Action::Nothing,
        phase_after(phase, sprite, events.take(i)) == Phase::AwaitingImage ==> answer(
            phase,
            sprite,
            events,
            i,
        ) != Action::Nothing,
{
    assert(events.take(i + 1).drop_last() =~= events.take(i));
    assert(events.take(i + 1).last() == events[i]);
    lemma_progress(phase, sprite, events, i + 1, j);
}

/// Without a surface nothing is drawn: a run whose first event is the
/// failure to acquire the surface reports that error, and answers no event,
/// then or later, with a drawing or with an image load.
pub proof fn lemma_no_surface_no_drawing(sprite: bool, events: Seq<Event>)
    requires
        events.len() > 0,
        events[0] == Event::SurfaceFailed,
    ensures
        answer(Phase::AwaitingSurface, sprite, events, 0) == Action::Report(
            RenderError::ResourceAcquisition,
        ),
        forall|i: int|
            0 < i < events.len() ==> #[trigger] answer(Phase::AwaitingSurface, sprite, events, i)
                == Action::Nothing,
        phase_after(Phase::AwaitingSurface, sprite, events) == Phase::Failed(
            RenderError::ResourceAcquisition,
        ),
{
    let start = Phase::AwaitingSurface;
    let failed = Phase::Failed(RenderError::ResourceAcquisition);
    assert(events.take(0) =~= Seq::<Event>::empty());
    assert forall|i: int| 0 < i <= events.len() implies phase_after(start, sprite, events.take(i))
        == failed by {
        lemma_first_failure(sprite, events, i);
    }
    assert(events.take(events.len() as int) =~= events);
}

proof fn lemma_first_failure(sprite: bool, events: Seq<Event>, i: int)
    requires
        0 < i <= events.len(),
        events[0] == Event::SurfaceFailed,
    ensures
        phase_after(Phase::AwaitingSurface, sprite, events.take(i)) == Phase::Failed(
            RenderError::ResourceAcquisition,
        ),
    decreases i,
{
    assert(events.take(i).drop_last() =~= events.take(i - 1));
    if i == 1 {
        assert(events.take(0) =~= Seq::<Event>::empty());
    } else {
        lemma_first_failure(sprite, events, i - 1);
    }
}

} // verus!
