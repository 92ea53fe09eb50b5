//! What is done with each frame of a render.
//!
//! The session decides; the frames themselves are converted and processed outside. It is told
//! what happened by an event, and answers with the action to perform. A frame that arrives
//! leads to `Prepare` or `Undistort`, a performed `Prepare` leads to `Undistort` or `Reject`,
//! and a performed `Undistort` leads to `Report`.

use vstd::prelude::*;

use crate::planes;
use crate::planes::{PixelFormat, PlaneSetup, PlaneSpec};

verus! {

/// Why a render stops.
#[derive(Debug, Clone, Copy, PartialEq, Eq, Structural)]
pub enum RenderError {
    /// No planes could be made out in frames of this format.
    UnknownPixelFormat(PixelFormat),
}

/// How far a render is.
#[derive(Debug, Clone, Copy, PartialEq, Eq, Structural)]
pub struct Progress {
    pub frame: usize,
    pub frame_count: usize,
    pub finished: bool,
}

/// The state that is carried from frame to frame.
#[derive(Debug)]
pub struct FrameSession {
    /// The number of frames that have arrived.
    pub process_frame: usize,
    /// The number of frames that the render is expected to have.
    pub render_frame_count: usize,
    /// The planes that frames are processed in, once they are set up.
    pub planes: Vec<PlaneSetup>,
}

/// A session with its numbers unbounded and its planes as a sequence.
pub struct SessionView {
    pub process_frame: nat,
    pub render_frame_count: nat,
    pub planes: Seq<PlaneSetup>,
}

impl View for FrameSession {
    type V = SessionView;

    open spec fn view(&self) -> SessionView {
        SessionView {
            process_frame: self.process_frame as nat,
            render_frame_count: self.render_frame_count as nat,
            planes: self.planes@,
        }
    }
}

/// What happened.
#[derive(Debug)]
pub enum FrameEvent {
    /// A frame of this format arrived.
    Arrived(PixelFormat),
    /// For a frame of this format, these planes were set up; none if the conversion of the
    /// frame handed out nothing to set up.
    Prepared(PixelFormat, Vec<PlaneSetup>),
    /// All planes of the frame were processed.
    Undistorted,
}

/// An event with the planes as a sequence.
pub enum EventView {
    Arrived(PixelFormat),
    Prepared(PixelFormat, Seq<PlaneSetup>),
    Undistorted,
}

impl View for FrameEvent {
    type V = EventView;

    open spec fn view(&self) -> EventView {
        match self {
            FrameEvent::Arrived(format) => EventView::Arrived(*format),
            FrameEvent::Prepared(format, setups) => EventView::Prepared(*format, setups@),
            FrameEvent::Undistorted => EventView::Undistorted,
        }
    }
}

/// What to do.
#[derive(Debug)]
pub enum FrameAction {
    /// Set up the planes of this layout, after converting the frame where a format is given.
    Prepare { convert_to: Option<PixelFormat>, layout: Vec<PlaneSpec> },
    /// Process this many planes of the frame in order, after converting the frame where a
    /// format is given.
    Undistort { convert_to: Option<PixelFormat>, planes: usize },
    /// Stop with this error.
    Reject(RenderError),
    /// Tell the progress.
    Report(Progress),
}

/// An action with the layout as a sequence and its numbers unbounded.
pub enum ActionView {
    Prepare { convert_to: Option<PixelFormat>, layout: Seq<PlaneSpec> },
    Undistort { convert_to: Option<PixelFormat>, planes: nat },
    Reject(RenderError),
    Report { frame: nat, frame_count: nat, finished: bool },
}

impl View for FrameAction {
    type V = ActionView;

    open spec fn view(&self) -> ActionView {
        match self {
            FrameAction::Prepare { convert_to, layout } => ActionView::Prepare {
                convert_to: *convert_to,
                layout: layout@,
            },
            FrameAction::Undistort { convert_to, planes } => ActionView::Undistort {
                convert_to: *convert_to,
                planes: *planes as nat,
            },
            FrameAction::Reject(error) => ActionView::Reject(*error),
            FrameAction::Report(progress) => ActionView::Report {
                frame: progress.frame as nat,
                frame_count: progress.frame_count as nat,
                finished: progress.finished,
            },
        }
    }
}

/// The state after an event: arrivals are counted, and planes that were set up are added.
pub open spec fn next_state(state: SessionView, event: EventView) -> SessionView {
    match event {
        EventView::Arrived(_) => SessionView { process_frame: state.process_frame + 1, ..state },
        EventView::Prepared(_, setups) => SessionView { planes: state.planes + setups, ..state },
        EventView::Undistorted => state,
    }
}

/// The action that answers an event.
pub open spec fn next_action(state: SessionView, event: EventView) -> ActionView {
    let after = next_state(state, event);
    match event {
        EventView::Arrived(format) => if after.planes.len() == 0 {
            ActionView::Prepare {
                convert_to: planes::conversion_of(format),
                layout: planes::layout_of(format),
            }
        } else {
            ActionView::Undistort {
                convert_to: planes::conversion_of(format),
                planes: after.planes.len(),
            }
        },
        EventView::Prepared(format, _) => if after.planes.len() == 0 {
            ActionView::Reject(RenderError::UnknownPixelFormat(format))
        } else {
            ActionView::Undistort {
                convert_to: planes::conversion_of(format),
                planes: after.planes.len(),
            }
        },
        EventView::Undistorted => ActionView::Report {
            frame: after.process_frame,
            frame_count: after.render_frame_count,
            finished: false,
        },
    }
}

/// Whether an event can be taken: the number of frames has to stay countable.
pub open spec fn can_take(state: SessionView, event: EventView) -> bool {
    event is Arrived ==> state.process_frame < usize::MAX
}

impl FrameSession {
    /// A session of a render that is expected to have `render_frame_count` frames.
    pub fn new(render_frame_count: usize) -> (session: Self)
        ensures
            session@ == (SessionView {
                process_frame: 0,
                render_frame_count: render_frame_count as nat,
                planes: Seq::empty(),
            }),
    {
        let session = FrameSession { process_frame: 0, render_frame_count, planes: Vec::new() };
        assert(session@.planes =~= Seq::empty());
        session
    }

    /// Takes an event, and answers with the action to perform.
    pub fn step(&mut self, event: FrameEvent) -> (action: FrameAction)
        requires
            can_take(old(self)@, event@),
        ensures
            final(self)@ == next_state(old(self)@, event@),
            action@ == next_action(old(self)@, event@),
    {
        match event {
            FrameEvent::Arrived(format) => {
                self.process_frame = self.process_frame + 1;
                if self.planes.len() == 0 {
                    FrameAction::Prepare {
                        convert_to: planes::conversion_for(format),
                        layout: planes::plane_layout(format),
                    }
                } else {
                    self.undistort(format)
                }
            },
            FrameEvent::Prepared(format, setups) => {
                let mut setups: Vec<PlaneSetup> = setups;
                self.planes.append(&mut setups);
                if self.planes.len() == 0 {
                    FrameAction::Reject(RenderError::UnknownPixelFormat(format))
                } else {
                    self.undistort(format)
                }
            },
            FrameEvent::Undistorted => FrameAction::Report(
                Progress {
                    frame: self.process_frame,
                    frame_count: self.render_frame_count,
                    finished: false,
                },
            ),
        }
    }

    /// The processing of a frame of this format in the planes that are set up.
    fn undistort(&self, format: PixelFormat) -> (action: FrameAction)
        ensures
            action@ == (ActionView::Undistort {
                convert_to: planes::conversion_of(format),
                planes: self@.planes.len(),
            }),
    {
        FrameAction::Undistort {
            convert_to: planes::conversion_for(format),
            planes: self.planes.len(),
        }
    }

    /// The progress to tell once the whole render is done: all frames, however many arrived.
    pub fn finish(&self) -> (progress: Progress)
        ensures
            progress.frame == self@.render_frame_count,
            progress.frame_count == self@.render_frame_count,
            progress.finished,
    {
        Progress {
            frame: self.render_frame_count,
            frame_count: self.render_frame_count,
            finished: true,
        }
    }
}

/// The state after a number of events.
pub open spec fn run(state: SessionView, events: Seq<EventView>) -> SessionView
    decreases events.len(),
{
    if events.len() == 0 {
        state
    } else {
        next_state(run(state, events.drop_last()), events.last())
    }
}

/// The number of frames that arrive in a number of events.
pub open spec fn arrivals(events: Seq<EventView>) -> nat
    decreases events.len(),
{
    if events.len() == 0 {
        0
    } else {
        arrivals(events.drop_last()) + if events.last() is Arrived {
            1nat
        } else {
            0nat
        }
    }
}

/// Whatever happens, the session counts exactly the frames that arrive, expects the number of
/// frames it was made with, and drops no plane that was set up.
pub proof fn lemma_run_keeps_count_and_planes(state: SessionView, events: Seq<EventView>)
    ensures
        run(state, events).process_frame == state.process_frame + arrivals(events),
        run(state, events).render_frame_count == state.render_frame_count,
        state.planes.is_prefix_of(run(state, events).planes),
    decreases events.len(),
{
    if events.len() > 0 {
        lemma_run_keeps_count_and_planes(state, events.drop_last());
        let before = run(state, events.drop_last()).planes;
        let after = run(state, events).planes;
        assert(before =~= after.subrange(0, before.len() as int));
        assert(state.planes =~= after.subrange(0, state.planes.len() as int)) by {
            assert(state.planes =~= before.subrange(0, state.planes.len() as int));
        }
    } else {
        assert(state.planes =~= state.planes.subrange(0, state.planes.len() as int));
    }
}

/// The first frame of a render, of any format, goes through once its planes are set up: first
/// they are prepared, then the frame is processed in all of them, then the progress is told.
pub proof fn lemma_first_frame_goes_through(
    state: SessionView,
    format: PixelFormat,
    setups: Seq<PlaneSetup>,
)
    requires
        state.planes.len() == 0,
        planes::sets_up(setups, planes::layout_of(format)),
    ensures
        ({
            let arrived = EventView::Arrived(format);
            let prepared = EventView::Prepared(format, setups);
            let counted = next_state(state, arrived);
            let ready = next_state(counted, prepared);
            &&& next_action(state, arrived) == (ActionView::Prepare {
                convert_to: planes::conversion_of(format),
                layout: planes::layout_of(format),
            })
            &&& next_action(counted, prepared) == (ActionView::Undistort {
                convert_to: planes::conversion_of(format),
                planes: planes::layout_of(format).len(),
            })
            &&& ready.planes == setups
            &&& next_action(ready, EventView::Undistorted) == (ActionView::Report {
                frame: state.process_frame + 1,
                frame_count: state.render_frame_count,
                finished: false,
            })
        }),
{
    planes::lemma_luma_comes_first(format);
    assert(state.planes + setups =~= setups);
}

/// Planes are set up once: from then on every frame that arrives, of any format, is processed
/// in the same planes at once.
pub proof fn lemma_later_frames_use_the_same_planes(state: SessionView, format: PixelFormat)
    requires
        state.planes.len() > 0,
    ensures
        next_state(state, EventView::Arrived(format)).planes == state.planes,
        next_action(state, EventView::Arrived(format)) == (ActionView::Undistort {
            convert_to: planes::conversion_of(format),
            planes: state.planes.len(),
        }),
{
}

/// The render is stopped exactly when a frame's preparation leaves no plane at all, and the
/// error names the format of that frame.
pub proof fn lemma_rejected_only_without_planes(
    state: SessionView,
    event: EventView,
    error: RenderError,
)
    ensures
        next_action(state, event) == ActionView::Reject(error) <==> {
            &&& event matches EventView::Prepared(format, setups)
            &&& state.planes.len() + setups.len() == 0
            &&& error == RenderError::UnknownPixelFormat(format)
        },
{
}

/// The planes of the first frame stand at their own index, so the position at which a plane is
/// processed finds its data.
pub proof fn lemma_prepared_planes_stand_at_their_index(
    state: SessionView,
    format: PixelFormat,
    setups: Seq<PlaneSetup>,
    i: int,
)
    requires
        state.planes.len() == 0,
        planes::sets_up(setups, planes::layout_of(format)),
        0 <= i < setups.len(),
    ensures
        next_state(state, EventView::Prepared(format, setups)).planes[i].plane.index == i,
{
    planes::lemma_planes_stand_at_their_index(format, i);
    assert(state.planes + setups =~= setups);
}

/// A frame that arrives is counted and changes nothing else. Where no plane is set up yet, the
/// planes of its format are to be prepared; else it is processed in all that there are. Either
/// way it is converted if its format has to be.
pub proof fn lemma_arrived_frame_is_counted_and_routed(
    before: FrameSession,
    after: FrameSession,
    format: PixelFormat,
    event: FrameEvent,
    action: FrameAction,
)
    requires
        event == FrameEvent::Arrived(format),
        after@ == next_state(before@, event@),
        action@ == next_action(before@, event@),
    ensures
        after.process_frame == before.process_frame + 1,
        after.render_frame_count == before.render_frame_count,
        after.planes@ == before.planes@,
        before.planes@.len() == 0 ==> {
            &&& action matches FrameAction::Prepare { convert_to, layout }
            &&& convert_to == planes::conversion_of(format)
            &&& layout@ == planes::layout_of(format)
        },
        before.planes@.len() > 0 ==> {
            &&& action matches FrameAction::Undistort { convert_to, planes }
            &&& convert_to == planes::conversion_of(format)
            &&& planes == before.planes@.len()
        },
{
}

/// Planes that were set up are added behind those that there are, and nothing else changes. The
/// frame is then processed in all of them, or rejected by its format if there are none.
pub proof fn lemma_prepared_planes_are_added(
    before: FrameSession,
    after: FrameSession,
    format: PixelFormat,
    setups: Vec<PlaneSetup>,
    event: FrameEvent,
    action: FrameAction,
)
    requires
        event == FrameEvent::Prepared(format, setups),
        after@ == next_state(before@, event@),
        action@ == next_action(before@, event@),
    ensures
        after.process_frame == before.process_frame,
        after.render_frame_count == before.render_frame_count,
        after.planes@.len() == before.planes@.len() + setups@.len(),
        forall|i: int| 0 <= i < before.planes@.len() ==> after.planes@[i] == before.planes@[i],
        forall|i: int|
            0 <= i < setups@.len() ==> after.planes@[before.planes@.len() + i]
                == #[trigger] setups@[i],
        before.planes@.len() + setups@.len() == 0 ==> action == FrameAction::Reject(
            RenderError::UnknownPixelFormat(format),
        ),
        before.planes@.len() + setups@.len() > 0 ==> {
            &&& action matches FrameAction::Undistort { convert_to, planes }
            &&& convert_to == planes::conversion_of(format)
            &&& planes == before.planes@.len() + setups@.len()
        },
{
}

/// A processed frame changes nothing, and its number is told, out of those expected.
pub proof fn lemma_processed_frame_is_reported(
    before: FrameSession,
    after: FrameSession,
    event: FrameEvent,
    action: FrameAction,
)
    requires
        event == FrameEvent::Undistorted,
        after@ == next_state(before@, event@),
        action@ == next_action(before@, event@),
    ensures
        after.process_frame == before.process_frame,
        after.render_frame_count == before.render_frame_count,
        after.planes@ == before.planes@,
        action == FrameAction::Report(
            Progress {
                frame: before.process_frame,
                frame_count: before.render_frame_count,
                finished: false,
            },
        ),
{
}

/// Every event can be taken until as many frames have arrived as can be counted.
pub proof fn lemma_events_are_taken_while_frames_can_be_counted(
    session: FrameSession,
    event: FrameEvent,
)
    ensures
        session.process_frame < usize::MAX ==> can_take(session@, event@),
        !(event is Arrived) ==> can_take(session@, event@),
{
}

/// A new session has counted no frame, has no plane, and expects the frames it is told of.
pub proof fn lemma_new_session_is_empty(render_frame_count: usize, session: FrameSession)
    requires
        call_ensures(FrameSession::new, (render_frame_count,), session),
    ensures
        session.process_frame == 0,
        session.render_frame_count == render_frame_count,
        session.planes@.len() == 0,
{
}

/// A finished render is told with all its frames, however many arrived.
pub proof fn lemma_finished_render_is_told_in_full(session: FrameSession, progress: Progress)
    requires
        call_ensures(FrameSession::finish, (&session,), progress),
    ensures
        progress == (Progress {
            frame: session.render_frame_count,
            frame_count: session.render_frame_count,
            finished: true,
        }),
{
}

} // verus!
