//! The decode worker as a state machine.
//!
//! The worker takes the newest frame, has candidate regions detected in it, and
//! for each region in detection order has a module grid extracted and decoded:
//! first by the primary stage and, where that fails, by the fallback stage on the
//! same grid read as a binary grid. The first recognized payload ends the worker;
//! any other outcome leads to the next region, and after the last region to the
//! next frame. Nothing of a frame is kept once the worker has left it.
//!
//! The machine decides; its driver does the work. Each transition answers the
//! event that reports the work just done with the work to do next, and with a
//! record of what that event shows to have failed.

use crate::decode::{
    decode_fallback, fallback_outcome, is_recognized, outcome_view, recognized, Diagnostic,
    Failure, Stage,
};
use crate::grid::{BinaryGrid, BitsView, GridView, ModuleGrid};
use vstd::prelude::*;

verus! {

/// Where the worker stands.
#[derive(Debug, PartialEq, Eq)]
pub enum WorkerState {
    /// Waiting for the next frame.
    AwaitingFrame,
    /// Frame `frame` is searched for candidate regions.
    Detecting { frame: i32 },
    /// Region `region` of the `regions` detected in `frame` is being extracted.
    Extracting { frame: i32, region: usize, regions: usize },
    /// The grid of region `region` is with the decode stage `stage`.
    Decoding { frame: i32, region: usize, regions: usize, stage: Stage, grid: ModuleGrid },
    /// A recognized payload was found by `stage`. The worker is done.
    Recognized { text: String, stage: Stage },
}

/// What the driver reports back.
#[derive(Debug, PartialEq, Eq)]
pub enum Event {
    /// The frame with this sequence id was received.
    Frame(i32),
    /// Detection found this many candidate regions.
    Regions(usize),
    /// Extraction of the region asked for ended so.
    Extracted(Result<ModuleGrid, Failure>),
    /// The primary decode stage ended so.
    Primary(Result<String, Failure>),
    /// The fallback decode stage ended so.
    Fallback(Result<String, Failure>),
}

/// What the driver is to do next.
#[derive(Debug, PartialEq, Eq)]
pub enum Action {
    /// Receive the next frame.
    Receive,
    /// Detect the candidate regions of the frame.
    Detect { frame: i32 },
    /// Extract the module grid of region `region`, counted in detection order.
    Extract { frame: i32, region: usize },
    /// Run the primary decode stage on this grid.
    DecodePrimary(ModuleGrid),
    /// Run the fallback decode stage on this binary grid.
    DecodeFallback(BinaryGrid),
    /// Stop and hand out this payload.
    Finish(String),
}

/// The answer to an event.
#[derive(Debug, PartialEq, Eq)]
pub struct Transition {
    /// Where the worker stands now.
    pub state: WorkerState,
    /// What the driver is to do next.
    pub action: Action,
    /// The steps that the event shows to have given no payload, in order.
    pub missed: Vec<Diagnostic>,
}

/// A worker state as a mathematical value.
pub enum StateView {
    AwaitingFrame,
    Detecting { frame: i32 },
    Extracting { frame: i32, region: usize, regions: usize },
    Decoding { frame: i32, region: usize, regions: usize, stage: Stage, grid: GridView },
    Recognized { text: Seq<char>, stage: Stage },
}

/// An event as a mathematical value.
pub enum EventView {
    Frame(i32),
    Regions(usize),
    Extracted(Result<GridView, Failure>),
    Primary(Result<Seq<char>, Failure>),
    Fallback(Result<Seq<char>, Failure>),
}

/// An action as a mathematical value.
pub enum ActionView {
    Receive,
    Detect { frame: i32 },
    Extract { frame: i32, region: usize },
    DecodePrimary(GridView),
    DecodeFallback(BitsView),
    Finish(Seq<char>),
}

/// A transition as a mathematical value.
pub struct TransitionView {
    pub state: StateView,
    pub action: ActionView,
    pub missed: Seq<Diagnostic>,
}

impl View for WorkerState {
    type V = StateView;

    open spec fn view(&self) -> StateView {
        match *self {
            WorkerState::AwaitingFrame => StateView::AwaitingFrame,
            WorkerState::Detecting { frame } => StateView::Detecting { frame },
            WorkerState::Extracting { frame, region, regions } => StateView::Extracting {
                frame,
                region,
                regions,
            },
            WorkerState::Decoding { frame, region, regions, stage, grid } => StateView::Decoding {
                frame,
                region,
                regions,
                stage,
                grid: grid@,
            },
            WorkerState::Recognized { text, stage } => StateView::Recognized { text: text@, stage },
        }
    }
}

impl View for Event {
    type V = EventView;

    open spec fn view(&self) -> EventView {
        match *self {
            Event::Frame(frame) => EventView::Frame(frame),
            Event::Regions(regions) => EventView::Regions(regions),
            Event::Extracted(Ok(grid)) => EventView::Extracted(Ok(grid@)),
            Event::Extracted(Err(failure)) => EventView::Extracted(Err(failure)),
            Event::Primary(outcome) => EventView::Primary(outcome_view(outcome)),
            Event::Fallback(outcome) => EventView::Fallback(outcome_view(outcome)),
        }
    }
}

impl View for Action {
    type V = ActionView;

    open spec fn view(&self) -> ActionView {
        match *self {
            Action::Receive => ActionView::Receive,
            Action::Detect { frame } => ActionView::Detect { frame },
            Action::Extract { frame, region } => ActionView::Extract { frame, region },
            Action::DecodePrimary(grid) => ActionView::DecodePrimary(grid@),
            Action::DecodeFallback(bits) => ActionView::DecodeFallback(bits@),
            Action::Finish(text) => ActionView::Finish(text@),
        }
    }
}

impl View for Transition {
    type V = TransitionView;

    open spec fn view(&self) -> TransitionView {
        TransitionView { state: self.state@, action: self.action@, missed: self.missed@ }
    }
}

/// The work that a worker in state `state` is waiting for.
pub open spec fn pending(state: StateView) -> ActionView {
    match state {
        StateView::AwaitingFrame => ActionView::Receive,
        StateView::Detecting { frame } => ActionView::Detect { frame },
        StateView::Extracting { frame, region, .. } => ActionView::Extract { frame, region },
        StateView::Decoding { stage: Stage::Primary, grid, .. } => ActionView::DecodePrimary(grid),
        StateView::Decoding { stage: Stage::Fallback, grid, .. } => ActionView::DecodeFallback(
            grid.binary(),
        ),
        StateView::Recognized { text, .. } => ActionView::Finish(text),
    }
}

/// Where the worker turns once region `region` of `regions` gave no payload, for
/// the reason `failure` met at `stage`: to the next region in detection order,
/// or past the last one to the next frame.
pub open spec fn after_region(
    frame: i32,
    region: usize,
    regions: usize,
    stage: Option<Stage>,
    failure: Failure,
) -> TransitionView {
    let missed = seq![Diagnostic { frame, region, stage, failure }];
    if region + 1 < regions {
        let next = (region + 1) as usize;
        TransitionView {
            state: StateView::Extracting { frame, region: next, regions },
            action: ActionView::Extract { frame, region: next },
            missed,
        }
    } else {
        TransitionView { state: StateView::AwaitingFrame, action: ActionView::Receive, missed }
    }
}

/// Where the worker turns once `stage` gave `text` for region `region`: it ends
/// on a recognized payload and passes over any other text.
pub open spec fn after_text(
    frame: i32,
    region: usize,
    regions: usize,
    stage: Stage,
    text: Seq<char>,
) -> TransitionView {
    if recognized(text) {
        TransitionView {
            state: StateView::Recognized { text, stage },
            action: ActionView::Finish(text),
            missed: Seq::empty(),
        }
    } else {
        after_region(frame, region, regions, Some(stage), Failure::Unrecognized)
    }
}

/// The transition relation of the worker, as a function. An event that does not
/// answer what the state is waiting for changes nothing and has the pending
/// work asked for again.
pub open spec fn step_spec(state: StateView, event: EventView) -> TransitionView {
    match (state, event) {
        (StateView::AwaitingFrame, EventView::Frame(frame)) => TransitionView {
            state: StateView::Detecting { frame },
            action: ActionView::Detect { frame },
            missed: Seq::empty(),
        },
        (StateView::Detecting { frame }, EventView::Regions(regions)) => if regions == 0 {
            TransitionView {
                state: StateView::AwaitingFrame,
                action: ActionView::Receive,
                missed: Seq::empty(),
            }
        } else {
            TransitionView {
                state: StateView::Extracting { frame, region: 0, regions },
                action: ActionView::Extract { frame, region: 0 },
                missed: Seq::empty(),
            }
        },
        (StateView::Extracting { frame, region, regions }, EventView::Extracted(Ok(grid))) => {
            TransitionView {
                state: StateView::Decoding { frame, region, regions, stage: Stage::Primary, grid },
                action: ActionView::DecodePrimary(grid),
                missed: Seq::empty(),
            }
        },
        (
            StateView::Extracting { frame, region, regions },
            EventView::Extracted(Err(failure)),
        ) => after_region(frame, region, regions, None, failure),
        (
            StateView::Decoding { frame, region, regions, stage: Stage::Primary, grid },
            EventView::Primary(Ok(text)),
        ) => after_text(frame, region, regions, Stage::Primary, text),
        (
            StateView::Decoding { frame, region, regions, stage: Stage::Primary, grid },
            EventView::Primary(Err(failure)),
        ) => TransitionView {
            state: StateView::Decoding { frame, region, regions, stage: Stage::Fallback, grid },
            action: ActionView::DecodeFallback(grid.binary()),
            missed: seq![Diagnostic { frame, region, stage: Some(Stage::Primary), failure }],
        },
        (
            StateView::Decoding { frame, region, regions, stage: Stage::Fallback, grid },
            EventView::Fallback(Ok(text)),
        ) => after_text(frame, region, regions, Stage::Fallback, text),
        (
            StateView::Decoding { frame, region, regions, stage: Stage::Fallback, grid },
            EventView::Fallback(Err(failure)),
        ) => after_region(frame, region, regions, Some(Stage::Fallback), failure),
        _ => TransitionView { state, action: pending(state), missed: Seq::empty() },
    }
}

/// `step_spec`, with the fallback stage run where the transition asks for it.
pub open spec fn advance_spec(state: StateView, event: EventView) -> TransitionView {
    let first = step_spec(state, event);
    match first.action {
        ActionView::DecodeFallback(bits) => {
            let second = step_spec(
                first.state,
                EventView::Fallback(fallback_outcome(bits.side, bits.dark)),
            );
            TransitionView {
                state: second.state,
                action: second.action,
                missed: first.missed + second.missed,
            }
        },
        _ => first,
    }
}

fn quietly(state: WorkerState, action: Action) -> (next: Transition)
    ensures
        next@ == (TransitionView { state: state@, action: action@, missed: Seq::empty() }),
{
    Transition { state, action, missed: Vec::new() }
}

fn next_region(
    frame: i32,
    region: usize,
    regions: usize,
    stage: Option<Stage>,
    failure: Failure,
) -> (next: Transition)
    ensures
        next@ == after_region(frame, region, regions, stage, failure),
{
    let mut missed = Vec::new();
    missed.push(Diagnostic { frame, region, stage, failure });
    assert(missed@ =~= seq![Diagnostic { frame, region, stage, failure }]);
    if regions > 0 && region < regions - 1 {
        let next: usize = region + 1;
        Transition {
            state: WorkerState::Extracting { frame, region: next, regions },
            action: Action::Extract { frame, region: next },
            missed,
        }
    } else {
        Transition { state: WorkerState::AwaitingFrame, action: Action::Receive, missed }
    }
}

fn on_text(frame: i32, region: usize, regions: usize, stage: Stage, text: String) -> (next:
    Transition)
    ensures
        next@ == after_text(frame, region, regions, stage, text@),
{
    if is_recognized(text.as_str()) {
        let payload = text.clone();
        quietly(WorkerState::Recognized { text, stage }, Action::Finish(payload))
    } else {
        next_region(frame, region, regions, Some(stage), Failure::Unrecognized)
    }
}

fn ask_again(state: WorkerState) -> (next: Transition)
    ensures
        next@ == (TransitionView { state: state@, action: pending(state@), missed: Seq::empty() }),
{
    match state {
        WorkerState::AwaitingFrame => quietly(WorkerState::AwaitingFrame, Action::Receive),
        WorkerState::Detecting { frame } => quietly(
            WorkerState::Detecting { frame },
            Action::Detect { frame },
        ),
        WorkerState::Extracting { frame, region, regions } => quietly(
            WorkerState::Extracting { frame, region, regions },
            Action::Extract { frame, region },
        ),
        WorkerState::Decoding { frame, region, regions, stage, grid } => {
            let action = match stage {
                Stage::Primary => Action::DecodePrimary(grid.duplicate()),
                Stage::Fallback => Action::DecodeFallback(grid.to_binary()),
            };
            quietly(WorkerState::Decoding { frame, region, regions, stage, grid }, action)
        },
        WorkerState::Recognized { text, stage } => {
            let payload = text.clone();
            quietly(WorkerState::Recognized { text, stage }, Action::Finish(payload))
        },
    }
}

/// One transition of the worker: takes the state and the event that reports the
/// work just done, and gives the next state, the work to do next, and the record
/// of what gave no payload.
pub fn step(state: WorkerState, event: Event) -> (next: Transition)
    ensures
        next@ == step_spec(state@, event@),
{
    match state {
        WorkerState::AwaitingFrame => match event {
            Event::Frame(frame) => quietly(
                WorkerState::Detecting { frame },
                Action::Detect { frame },
            ),
            _ => ask_again(WorkerState::AwaitingFrame),
        },
        WorkerState::Detecting { frame } => match event {
            Event::Regions(regions) => if regions == 0 {
                quietly(WorkerState::AwaitingFrame, Action::Receive)
            } else {
                quietly(
                    WorkerState::Extracting { frame, region: 0, regions },
                    Action::Extract { frame, region: 0 },
                )
            },
            _ => ask_again(WorkerState::Detecting { frame }),
        },
        WorkerState::Extracting { frame, region, regions } => match event {
            Event::Extracted(Ok(grid)) => {
                let copy = grid.duplicate();
                quietly(
                    WorkerState::Decoding { frame, region, regions, stage: Stage::Primary, grid },
                    Action::DecodePrimary(copy),
                )
            },
            Event::Extracted(Err(failure)) => next_region(frame, region, regions, None, failure),
            _ => ask_again(WorkerState::Extracting { frame, region, regions }),
        },
        WorkerState::Decoding { frame, region, regions, stage, grid } => match (stage, event) {
            (Stage::Primary, Event::Primary(Ok(text))) => on_text(
                frame,
                region,
                regions,
                Stage::Primary,
                text,
            ),
            (Stage::Primary, Event::Primary(Err(failure))) => {
                let bits = grid.to_binary();
                let mut missed = Vec::new();
                missed.push(Diagnostic { frame, region, stage: Some(Stage::Primary), failure });
                assert(missed@ =~= seq![
                    Diagnostic { frame, region, stage: Some(Stage::Primary), failure },
                ]);
                Transition {
                    state: WorkerState::Decoding {
                        frame,
                        region,
                        regions,
                        stage: Stage::Fallback,
                        grid,
                    },
                    action: Action::DecodeFallback(bits),
                    missed,
                }
            },
            (Stage::Fallback, Event::Fallback(Ok(text))) => on_text(
                frame,
                region,
                regions,
                Stage::Fallback,
                text,
            ),
            (Stage::Fallback, Event::Fallback(Err(failure))) => next_region(
                frame,
                region,
                regions,
                Some(Stage::Fallback),
                failure,
            ),
            _ => ask_again(WorkerState::Decoding { frame, region, regions, stage, grid }),
        },
        WorkerState::Recognized { text, stage } => ask_again(
            WorkerState::Recognized { text, stage },
        ),
    }
}

/// One transition of the worker with the fallback stage run in place: where
/// `step` asks for the fallback stage, the binary grid is decoded here and the
/// outcome fed back, so that the driver is never asked for it.
pub fn advance(state: WorkerState, event: Event) -> (next: Transition)
    ensures
        next@ == advance_spec(state@, event@),
        !(next.action is DecodeFallback),
{
    let first = step(state, event);
    let Transition { state, action, missed } = first;
    match action {
        Action::DecodeFallback(bits) => {
            let outcome = decode_fallback(&bits);
            let second = step(state, Event::Fallback(outcome));
            let Transition { state, action, missed: more } = second;
            let mut missed = missed;
            let mut more = more;
            missed.append(&mut more);
            Transition { state, action, missed }
        },
        other => Transition { state, action: other, missed },
    }
}

/// A frame without candidates: where detection finds no region, the worker
/// goes back to waiting for the next frame and asks for it, and nothing is
/// recorded as failed.
pub proof fn lemma_no_candidate_frame(frame: i32)
    ensures
        step_spec(StateView::Detecting { frame }, EventView::Regions(0)) == (TransitionView {
            state: StateView::AwaitingFrame,
            action: ActionView::Receive,
            missed: Seq::empty(),
        }),
{
}

/// Fallback after a failed primary stage: once a region's grid is extracted, the
/// primary stage is asked to decode it; where that fails, the fallback stage is
/// asked to decode the same grid read as a binary grid, with no detection or
/// extraction in between; and where the fallback yields a recognized text, the
/// worker ends with that text, having recorded the failure of the primary stage
/// and no other.
pub proof fn lemma_fallback_delivers(
    frame: i32,
    region: usize,
    regions: usize,
    grid: GridView,
    failure: Failure,
    text: Seq<char>,
)
    requires
        recognized(text),
    ensures
        ({
            let extracting = StateView::Extracting { frame, region, regions };
            let first = step_spec(extracting, EventView::Extracted(Ok(grid)));
            let second = step_spec(first.state, EventView::Primary(Err(failure)));
            let last = step_spec(second.state, EventView::Fallback(Ok(text)));
            let primary_failed = seq![
                Diagnostic { frame, region, stage: Some(Stage::Primary), failure },
            ];
            &&& first.action == ActionView::DecodePrimary(grid)
            &&& second.action == ActionView::DecodeFallback(grid.binary())
            &&& second.missed == primary_failed
            &&& last.state == (StateView::Recognized { text, stage: Stage::Fallback })
            &&& last.action == ActionView::Finish(text)
            &&& fallback_outcome(grid.binary().side, grid.binary().dark) == Ok::<
                Seq<char>,
                Failure,
            >(text) ==> advance_spec(first.state, EventView::Primary(Err(failure)))
                == (TransitionView {
                state: last.state,
                action: last.action,
                missed: primary_failed,
            })
        }),
{
    let first = step_spec(
        StateView::Extracting { frame, region, regions },
        EventView::Extracted(Ok(grid)),
    );
    let second = step_spec(first.state, EventView::Primary(Err(failure)));
    let last = step_spec(second.state, EventView::Fallback(Ok(text)));
    assert(second.missed + last.missed =~= second.missed);
}

/// The event by which `stage` reports the text `text`.
pub open spec fn text_event(stage: Stage, text: Seq<char>) -> EventView {
    match stage {
        Stage::Primary => EventView::Primary(Ok(text)),
        Stage::Fallback => EventView::Fallback(Ok(text)),
    }
}

/// Recognition gating: a decoded text that is no recognized payload does not end
/// the worker, which records it and turns to the next region or the next frame;
/// a decoded text that is one ends it, with exactly that text. This holds of
/// either stage.
pub proof fn lemma_recognition_gating(
    frame: i32,
    region: usize,
    regions: usize,
    stage: Stage,
    grid: GridView,
    text: Seq<char>,
)
    ensures
        ({
            let decoding = StateView::Decoding { frame, region, regions, stage, grid };
            let next = step_spec(decoding, text_event(stage, text));
            &&& !recognized(text) ==> next == after_region(
                frame,
                region,
                regions,
                Some(stage),
                Failure::Unrecognized,
            )
            &&& !recognized(text) ==> !(next.state is Recognized) && !(next.action is Finish)
            &&& recognized(text) ==> next.state == (StateView::Recognized { text, stage })
            &&& recognized(text) ==> next.action == ActionView::Finish(text)
        }),
{
}

/// Only a recognized payload ends the worker: whatever the state and the event,
/// a transition that asks to finish hands out a recognized text, unless the
/// worker was already done; and the worker is done exactly when it asks to
/// finish.
pub proof fn lemma_finish_is_recognized(state: StateView, event: EventView)
    requires
        !(state is Recognized),
    ensures
        step_spec(state, event).action matches ActionView::Finish(text) ==> recognized(text)
            && step_spec(state, event).state is Recognized,
        step_spec(state, event).state is Recognized <==> step_spec(state, event).action is Finish,
{
}

/// The recognized state is terminal: no event leads out of it, and each is
/// answered with the payload found.
pub proof fn lemma_recognized_is_terminal(text: Seq<char>, stage: Stage, event: EventView)
    ensures
        step_spec(StateView::Recognized { text, stage }, event) == (TransitionView {
            state: StateView::Recognized { text, stage },
            action: ActionView::Finish(text),
            missed: Seq::empty(),
        }),
{
}

/// No failure goes unrecorded and none is made up: a transition records
/// something exactly when its event reports a failure that the state was
/// waiting to hear of, or a text that is no recognized payload.
pub proof fn lemma_failures_are_recorded(state: StateView, event: EventView)
    ensures
        step_spec(state, event).missed.len() <= 1,
        step_spec(state, event).missed.len() == 1 <==> (match (state, event) {
            (StateView::Extracting { .. }, EventView::Extracted(Err(_))) => true,
            (StateView::Decoding { stage: Stage::Primary, .. }, EventView::Primary(Err(_))) => true,
            (StateView::Decoding { stage: Stage::Fallback, .. }, EventView::Fallback(Err(_))) => true,
            (StateView::Decoding { stage: Stage::Primary, .. }, EventView::Primary(Ok(text))) => {
                !recognized(text)
            },
            (
                StateView::Decoding { stage: Stage::Fallback, .. },
                EventView::Fallback(Ok(text)),
            ) => !recognized(text),
            _ => false,
        }),
{
}

} // verus!
