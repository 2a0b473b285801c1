//! The calibration procedure of the rig, as a state machine.
//!
//! Calibration projects one marker at each point of a `CALIBRATION_STEPS` by
//! `CALIBRATION_STEPS` grid, row by row (`x_index` outer, `y_index` inner),
//! waits until the camera reports the marker, records the pair of camera and
//! projector positions, and finally fits a homography to the recorded pairs
//! and saves it. The caller performs each action (drawing, waiting, asking the
//! camera, solving, saving) and reports its outcome as the next event; this
//! module decides what comes next.

use vstd::prelude::*;

verus! {

/// Number of marker positions along each axis of the calibration grid.
pub const CALIBRATION_STEPS: u32 = 2;

/// Number of points of the calibration grid.
pub const CALIBRATION_POINTS: u32 = 4;

/// Identifier of the marker that calibration projects and looks for.
pub const CALIBRATION_MARKER_ID: i32 = 0;

/// Distance of the grid from the border of the drawable area, in pixels.
pub const CALIBRATION_PADDING: u32 = 50;

/// Side of the projected marker, in pixels.
pub const CALIBRATION_MARKER_SIZE: u32 = 200;

/// Time given to the camera to see a newly drawn marker, in milliseconds.
pub const CALIBRATION_SETTLE_MILLIS: u64 = 1000;

/// Where the calibration procedure stands: which outcome it waits for.
#[derive(Clone, Copy, Debug, PartialEq, Eq, Structural)]
pub enum CalibrationState {
    /// Waits for the first clearing of the projector.
    Clearing,
    /// Waits for the size of the drawable area.
    Measuring,
    /// Waits for the marker of the grid point of this index to be placed.
    Placing(u32),
    /// Waits for the marker of the grid point of this index to be drawn.
    Showing(u32),
    /// Waits while the camera settles on the grid point of this index.
    Settling(u32),
    /// Waits for the markers that the camera detects at the grid point of this index.
    Detecting(u32),
    /// Waits for the measurement of the grid point of this index to be recorded.
    Recording(u32),
    /// Waits for the final clearing of the projector.
    Finishing,
    /// Waits for the homography to be fitted.
    Solving,
    /// Waits for the new configuration to be saved.
    Saving,
    /// Calibration succeeded.
    Done,
    /// Calibration stopped on an error.
    Failed,
}

/// The outcome of the last action, as the caller reports it.
pub enum CalibrationEvent {
    /// The action succeeded (and returned nothing that the procedure reads).
    Completed,
    /// The camera answered; these are the identifiers of the detected markers, in
    /// the order in which it listed them.
    Detected(Vec<i32>),
    /// The action failed.
    Error,
}

/// The mathematical value of a `CalibrationEvent`.
pub enum CalibrationEventView {
    Completed,
    Detected(Seq<i32>),
    Error,
}

impl View for CalibrationEvent {
    type V = CalibrationEventView;

    open spec fn view(&self) -> CalibrationEventView {
        match self {
            CalibrationEvent::Completed => CalibrationEventView::Completed,
            CalibrationEvent::Detected(ids) => CalibrationEventView::Detected(ids@),
            CalibrationEvent::Error => CalibrationEventView::Error,
        }
    }
}

/// What the caller is to do next.
#[derive(Clone, Copy, Debug, PartialEq, Eq, Structural)]
pub enum CalibrationAction {
    /// Clear the projector and draw what was placed.
    ClearAndDraw,
    /// Ask the projector for the size of its drawable area.
    GetDrawableSize,
    /// Place the marker at the grid point (`x_index`, `y_index`).
    PlaceMarker { x_index: u32, y_index: u32 },
    /// Wait `CALIBRATION_SETTLE_MILLIS` milliseconds.
    Sleep,
    /// Ask the camera for the markers it detects.
    GetArucos,
    /// Record the detected marker at position `marker` of the camera's last answer
    /// as the measurement of grid point (`x_index`, `y_index`).
    Record { x_index: u32, y_index: u32, marker: usize },
    /// Fit a homography to the recorded measurements.
    ComputeHomography,
    /// Save the configuration built from the fitted homography.
    SaveConfig,
    /// Adopt the new configuration: calibration succeeded.
    Finish,
    /// Stop with the error just reported.
    Abort,
    /// Nothing: calibration is over.
    Idle,
}

/// The grid point of index `point`, row by row.
pub open spec fn grid_point(point: int) -> (u32, u32) {
    ((point / (CALIBRATION_STEPS as int)) as u32, (point % (CALIBRATION_STEPS as int)) as u32)
}

/// The action that places the marker of grid point `point`.
pub open spec fn place_marker(point: int) -> CalibrationAction {
    CalibrationAction::PlaceMarker { x_index: grid_point(point).0, y_index: grid_point(point).1 }
}

/// `i` is the position of the first occurrence of `id` in `ids`.
pub open spec fn is_first_index(ids: Seq<i32>, id: i32, i: int) -> bool {
    &&& 0 <= i < ids.len()
    &&& ids[i] == id
    &&& forall|j: int| 0 <= j < i ==> ids[j] != id
}

/// The position of the first occurrence of `id` in `ids`, if any.
pub open spec fn first_index(ids: Seq<i32>, id: i32) -> Option<int> {
    if exists|i: int| is_first_index(ids, id, i) {
        Some(choose|i: int| is_first_index(ids, id, i))
    } else {
        None
    }
}

/// Where calibration starts, and its first action.
pub open spec fn calibration_initial() -> (CalibrationState, CalibrationAction) {
    (CalibrationState::Clearing, CalibrationAction::ClearAndDraw)
}

/// The state and action that follow `state` when `event` is reported.
pub open spec fn calibration_next(state: CalibrationState, event: CalibrationEventView) -> (
    CalibrationState,
    CalibrationAction,
) {
    match state {
        CalibrationState::Done => (CalibrationState::Done, CalibrationAction::Idle),
        CalibrationState::Failed => (CalibrationState::Failed, CalibrationAction::Idle),
        _ => match event {
            CalibrationEventView::Error => (CalibrationState::Failed, CalibrationAction::Abort),
            CalibrationEventView::Detected(ids) => match state {
                CalibrationState::Detecting(p) => match first_index(ids, CALIBRATION_MARKER_ID) {
                    Some(i) => (
                        CalibrationState::Recording(p),
                        CalibrationAction::Record {
                            x_index: grid_point(p as int).0,
                            y_index: grid_point(p as int).1,
                            marker: i as usize,
                        },
                    ),
                    None => (CalibrationState::Detecting(p), CalibrationAction::GetArucos),
                },
                _ => (CalibrationState::Failed, CalibrationAction::Abort),
            },
            CalibrationEventView::Completed => match state {
                CalibrationState::Clearing => (
                    CalibrationState::Measuring,
                    CalibrationAction::GetDrawableSize,
                ),
                CalibrationState::Measuring => (CalibrationState::Placing(0), place_marker(0)),
                CalibrationState::Placing(p) => (
                    CalibrationState::Showing(p),
                    CalibrationAction::ClearAndDraw,
                ),
                CalibrationState::Showing(p) => (
                    CalibrationState::Settling(p),
                    CalibrationAction::Sleep,
                ),
                CalibrationState::Settling(p) => (
                    CalibrationState::Detecting(p),
                    CalibrationAction::GetArucos,
                ),
                CalibrationState::Recording(p) => if p + 1 < CALIBRATION_POINTS {
                    (CalibrationState::Placing((p + 1) as u32), place_marker(p + 1))
                } else {
                    (CalibrationState::Finishing, CalibrationAction::ClearAndDraw)
                },
                CalibrationState::Finishing => (
                    CalibrationState::Solving,
                    CalibrationAction::ComputeHomography,
                ),
                CalibrationState::Solving => (CalibrationState::Saving, CalibrationAction::SaveConfig),
                CalibrationState::Saving => (CalibrationState::Done, CalibrationAction::Finish),
                // A detection result was expected.
                _ => (CalibrationState::Failed, CalibrationAction::Abort),
            },
        },
    }
}

/// The position of the first detected marker whose identifier is `id`, if the
/// camera detected one.
pub fn find_marker(ids: &Vec<i32>, id: i32) -> (found: Option<usize>)
    ensures
        match found {
            Some(i) => first_index(ids@, id) == Some(i as int),
            None => first_index(ids@, id) is None,
        },
        match found {
            Some(i) => {
                &&& i < ids.len()
                &&& ids@[i as int] == id
                &&& forall|j: int| 0 <= j < i ==> ids@[j] != id
            },
            None => forall|j: int| 0 <= j < ids.len() ==> ids@[j] != id,
        },
{
    let mut k: usize = 0;
    while k < ids.len()
        invariant
            k <= ids.len(),
            forall|j: int| 0 <= j < k ==> ids@[j] != id,
        decreases ids.len() - k,
    {
        if ids[k] == id {
            assert(is_first_index(ids@, id, k as int));
            let ghost c = choose|i: int| is_first_index(ids@, id, i);
            assert(c == k as int) by {
                if c < k {
                } else if c > k {
                    assert(ids@[k as int] != id);
                }
            }
            return Some(k);
        }
        k = k + 1;
    }
    assert(!exists|i: int| is_first_index(ids@, id, i));
    None
}

fn grid_indices(point: u32) -> (xy: (u32, u32))
    ensures
        xy == grid_point(point as int),
{
    (point / CALIBRATION_STEPS, point % CALIBRATION_STEPS)
}

/// Where calibration starts, and its first action: clear the projector.
pub fn calibration_start() -> (r: (CalibrationState, CalibrationAction))
    ensures
        r == calibration_initial(),
{
    (CalibrationState::Clearing, CalibrationAction::ClearAndDraw)
}

/// The state and action that follow `state` when `event` is reported.
pub fn calibration_step(state: CalibrationState, event: &CalibrationEvent) -> (r: (
    CalibrationState,
    CalibrationAction,
))
    ensures
        r == calibration_next(state, event@),
{
    match state {
        CalibrationState::Done => return (CalibrationState::Done, CalibrationAction::Idle),
        CalibrationState::Failed => return (CalibrationState::Failed, CalibrationAction::Idle),
        _ => {},
    }
    match event {
        CalibrationEvent::Error => (CalibrationState::Failed, CalibrationAction::Abort),
        CalibrationEvent::Detected(ids) => match state {
            CalibrationState::Detecting(p) => match find_marker(ids, CALIBRATION_MARKER_ID) {
                Some(i) => {
                    let (x, y) = grid_indices(p);
                    (
                        CalibrationState::Recording(p),
                        CalibrationAction::Record { x_index: x, y_index: y, marker: i },
                    )
                },
                None => (CalibrationState::Detecting(p), CalibrationAction::GetArucos),
            },
            _ => (CalibrationState::Failed, CalibrationAction::Abort),
        },
        CalibrationEvent::Completed => match state {
            CalibrationState::Clearing => (
                CalibrationState::Measuring,
                CalibrationAction::GetDrawableSize,
            ),
            CalibrationState::Measuring => {
                let (x, y) = grid_indices(0);
                (CalibrationState::Placing(0), CalibrationAction::PlaceMarker { x_index: x, y_index: y })
            },
            CalibrationState::Placing(p) => (
                CalibrationState::Showing(p),
                CalibrationAction::ClearAndDraw,
            ),
            CalibrationState::Showing(p) => (CalibrationState::Settling(p), CalibrationAction::Sleep),
            CalibrationState::Settling(p) => (
                CalibrationState::Detecting(p),
                CalibrationAction::GetArucos,
            ),
            CalibrationState::Recording(p) => {
                if p < CALIBRATION_POINTS - 1 {
                    let (x, y) = grid_indices(p + 1);
                    (
                        CalibrationState::Placing(p + 1),
                        CalibrationAction::PlaceMarker { x_index: x, y_index: y },
                    )
                } else {
                    (CalibrationState::Finishing, CalibrationAction::ClearAndDraw)
                }
            },
            CalibrationState::Finishing => (
                CalibrationState::Solving,
                CalibrationAction::ComputeHomography,
            ),
            CalibrationState::Solving => (CalibrationState::Saving, CalibrationAction::SaveConfig),
            CalibrationState::Saving => (CalibrationState::Done, CalibrationAction::Finish),
            _ => (CalibrationState::Failed, CalibrationAction::Abort),
        },
    }
}


/// The state reached, and every action issued from the first one on, when the
/// `events` are reported in order from the start of calibration.
pub open spec fn calibration_trace(events: Seq<CalibrationEventView>) -> (
    CalibrationState,
    Seq<CalibrationAction>,
)
    decreases events.len(),
{
    if events.len() == 0 {
        (calibration_initial().0, seq![calibration_initial().1])
    } else {
        let (state, actions) = calibration_trace(events.drop_last());
        let (next_state, action) = calibration_next(state, events.last());
        (next_state, actions.push(action))
    }
}

/// The grid points that `actions` record, in order.
pub open spec fn recorded_points(actions: Seq<CalibrationAction>) -> Seq<(u32, u32)>
    decreases actions.len(),
{
    if actions.len() == 0 {
        seq![]
    } else {
        let earlier = recorded_points(actions.drop_last());
        match actions.last() {
            CalibrationAction::Record { x_index, y_index, .. } => earlier.push((x_index, y_index)),
            _ => earlier,
        }
    }
}

/// The first `count` grid points, row by row.
pub open spec fn grid_prefix(count: nat) -> Seq<(u32, u32)> {
    Seq::new(
        count,
        |i: int| ((i / (CALIBRATION_STEPS as int)) as u32, (i % (CALIBRATION_STEPS as int)) as u32),
    )
}

/// The number of grid points recorded before a run reaches `state`.
spec fn points_recorded_at(state: CalibrationState) -> int {
    match state {
        CalibrationState::Clearing => 0,
        CalibrationState::Measuring => 0,
        CalibrationState::Placing(p) => p as int,
        CalibrationState::Showing(p) => p as int,
        CalibrationState::Settling(p) => p as int,
        CalibrationState::Detecting(p) => p as int,
        CalibrationState::Recording(p) => p + 1,
        _ => CALIBRATION_POINTS as int,
    }
}

/// The grid point that `state` concerns, if any, lies in the grid.
pub open spec fn points_in_range(state: CalibrationState) -> bool {
    match state {
        CalibrationState::Placing(p) => p < CALIBRATION_POINTS,
        CalibrationState::Showing(p) => p < CALIBRATION_POINTS,
        CalibrationState::Settling(p) => p < CALIBRATION_POINTS,
        CalibrationState::Detecting(p) => p < CALIBRATION_POINTS,
        CalibrationState::Recording(p) => p < CALIBRATION_POINTS,
        _ => true,
    }
}

spec fn after_solving(state: CalibrationState) -> bool {
    state is Solving || state is Saving || state is Done
}

spec fn trace_invariant(state: CalibrationState, actions: Seq<CalibrationAction>) -> bool {
    let recorded = recorded_points(actions);
    &&& recorded =~= grid_prefix(recorded.len())
    &&& recorded.len() <= CALIBRATION_POINTS
    &&& actions.contains(CalibrationAction::ComputeHomography) ==> recorded.len() == CALIBRATION_POINTS
    &&& actions.contains(CalibrationAction::SaveConfig) ==> actions.contains(CalibrationAction::ComputeHomography)
    &&& actions.contains(CalibrationAction::Finish) ==> actions.contains(CalibrationAction::SaveConfig)
    &&& state !is Failed ==> {
        &&& points_in_range(state)
        &&& recorded.len() == points_recorded_at(state)
        &&& actions.contains(CalibrationAction::ComputeHomography) <==> after_solving(state)
        &&& (state is Saving || state is Done) ==> actions.contains(CalibrationAction::SaveConfig)
    }
}

proof fn lemma_push_contains(actions: Seq<CalibrationAction>, a: CalibrationAction, b: CalibrationAction)
    ensures
        actions.push(a).contains(b) <==> (actions.contains(b) || a == b),
{
    if actions.contains(b) {
        let i = choose|i: int| 0 <= i < actions.len() && actions[i] == b;
        assert(actions.push(a)[i] == b);
    }
    if a == b {
        assert(actions.push(a)[actions.len() as int] == b);
    }
    if actions.push(a).contains(b) {
        let i = choose|i: int| 0 <= i < actions.push(a).len() && actions.push(a)[i] == b;
        if i < actions.len() {
            assert(actions[i] == b);
        }
    }
}

proof fn lemma_recorded_points_push(actions: Seq<CalibrationAction>, a: CalibrationAction)
    ensures
        recorded_points(actions.push(a)) == match a {
            CalibrationAction::Record { x_index, y_index, .. } => recorded_points(actions).push(
                (x_index, y_index),
            ),
            _ => recorded_points(actions),
        },
{
    assert(actions.push(a).drop_last() =~= actions);
}

proof fn lemma_trace_invariant(events: Seq<CalibrationEventView>)
    ensures
        trace_invariant(calibration_trace(events).0, calibration_trace(events).1),
    decreases events.len(),
{
    if events.len() == 0 {
        let actions = seq![CalibrationAction::ClearAndDraw];
        lemma_recorded_points_push(Seq::empty(), CalibrationAction::ClearAndDraw);
        assert(Seq::<CalibrationAction>::empty().push(CalibrationAction::ClearAndDraw) =~= actions);
        lemma_push_contains(Seq::empty(), CalibrationAction::ClearAndDraw, CalibrationAction::ComputeHomography);
        lemma_push_contains(Seq::empty(), CalibrationAction::ClearAndDraw, CalibrationAction::SaveConfig);
        lemma_push_contains(Seq::empty(), CalibrationAction::ClearAndDraw, CalibrationAction::Finish);
    } else {
        let prefix = events.drop_last();
        lemma_trace_invariant(prefix);
        let (state, actions) = calibration_trace(prefix);
        let (next_state, action) = calibration_next(state, events.last());
        lemma_recorded_points_push(actions, action);
        lemma_push_contains(actions, action, CalibrationAction::ComputeHomography);
        lemma_push_contains(actions, action, CalibrationAction::SaveConfig);
        lemma_push_contains(actions, action, CalibrationAction::Finish);
        let recorded = recorded_points(actions);
        if let CalibrationAction::Record { x_index, y_index, .. } = action {
            let p = state->Detecting_0;
            assert(recorded.push((x_index, y_index)) =~= grid_prefix((p + 1) as nat));
        }
        if let CalibrationState::Recording(p) = state {
            if p + 1 < CALIBRATION_POINTS {
                assert(points_in_range(next_state));
            }
        }
    }
}

/// Calibration measures the grid points one by one, row by row, each at most
/// once: whatever the outcomes reported, the points recorded so far are the
/// first points of the grid, in order, and never more than the grid holds.
pub proof fn lemma_calibration_records_grid_in_order(events: Seq<CalibrationEventView>)
    ensures
        recorded_points(calibration_trace(events).1) == grid_prefix(
            recorded_points(calibration_trace(events).1).len(),
        ),
        recorded_points(calibration_trace(events).1).len() <= CALIBRATION_POINTS,
{
    lemma_trace_invariant(events);
}

/// The homography is fitted only once every grid point has been measured, and
/// the configuration is saved, and calibration succeeds, only after that.
pub proof fn lemma_calibration_solves_after_full_grid(events: Seq<CalibrationEventView>)
    ensures
        calibration_trace(events).1.contains(CalibrationAction::ComputeHomography)
            ==> recorded_points(calibration_trace(events).1) == grid_prefix(CALIBRATION_POINTS as nat),
        calibration_trace(events).1.contains(CalibrationAction::SaveConfig)
            ==> calibration_trace(events).1.contains(CalibrationAction::ComputeHomography),
        calibration_trace(events).1.contains(CalibrationAction::Finish)
            ==> calibration_trace(events).1.contains(CalibrationAction::SaveConfig),
{
    lemma_trace_invariant(events);
}


/// An error stops calibration at once, at whatever stage it comes.
pub proof fn lemma_calibration_error_aborts(state: CalibrationState)
    requires
        !(state is Done || state is Failed),
    ensures
        calibration_next(state, CalibrationEventView::Error) == (
            CalibrationState::Failed,
            CalibrationAction::Abort,
        ),
{
}

/// Once calibration has succeeded or failed, it stays so and asks for nothing more.
pub proof fn lemma_calibration_over_is_final(state: CalibrationState, event: CalibrationEventView)
    requires
        state is Done || state is Failed,
    ensures
        calibration_next(state, event) == (state, CalibrationAction::Idle),
{
}

/// As long as the camera does not report the calibration marker, calibration
/// stays at the same grid point and asks the camera again.
pub proof fn lemma_calibration_waits_for_marker(point: u32, ids: Seq<i32>)
    requires
        forall|j: int| 0 <= j < ids.len() ==> ids[j] != CALIBRATION_MARKER_ID,
    ensures
        calibration_next(CalibrationState::Detecting(point), CalibrationEventView::Detected(ids)) == (
            CalibrationState::Detecting(point),
            CalibrationAction::GetArucos,
        ),
{
    assert(!exists|i: int| is_first_index(ids, CALIBRATION_MARKER_ID, i));
}


proof fn lemma_first_occurrence(ids: Seq<i32>, id: i32, k: int) -> (m: int)
    requires
        0 <= k < ids.len(),
        ids[k] == id,
    ensures
        is_first_index(ids, id, m),
    decreases k,
{
    if exists|j: int| 0 <= j < k && ids[j] == id {
        let j = choose|j: int| 0 <= j < k && ids[j] == id;
        lemma_first_occurrence(ids, id, j)
    } else {
        k
    }
}

/// When the camera's answer at a grid point lists the calibration marker
/// anywhere, calibration records a measurement for that very grid point (row
/// `point / CALIBRATION_STEPS`, column `point % CALIBRATION_STEPS`) taken from
/// the first listed marker whose identifier is the calibration marker's, and
/// then waits for the recording.
pub proof fn lemma_calibration_records_first_marker(point: u32, ids: Seq<i32>, k: int)
    requires
        ids.len() <= usize::MAX,
        0 <= k < ids.len(),
        ids[k] == CALIBRATION_MARKER_ID,
    ensures
        calibration_next(CalibrationState::Detecting(point), CalibrationEventView::Detected(ids)).0
            == CalibrationState::Recording(point),
        calibration_next(CalibrationState::Detecting(point), CalibrationEventView::Detected(ids)).1 matches
            CalibrationAction::Record { x_index, y_index, marker } && {
            &&& x_index == point / CALIBRATION_STEPS
            &&& y_index == point % CALIBRATION_STEPS
            &&& marker < ids.len()
            &&& ids[marker as int] == CALIBRATION_MARKER_ID
            &&& forall|j: int| 0 <= j < marker ==> ids[j] != CALIBRATION_MARKER_ID
        },
{
    let m = lemma_first_occurrence(ids, CALIBRATION_MARKER_ID, k);
    assert(is_first_index(ids, CALIBRATION_MARKER_ID, m));
    let c = choose|i: int| is_first_index(ids, CALIBRATION_MARKER_ID, i);
    assert(is_first_index(ids, CALIBRATION_MARKER_ID, c));
}


/// How far calibration has come: each stage is one step further than the one
/// before it when the step succeeds, from 0 at the start to
/// `5 * CALIBRATION_POINTS + 5` when calibration is done; -1 once it failed.
pub open spec fn calibration_stage(state: CalibrationState) -> int {
    match state {
        CalibrationState::Clearing => 0,
        CalibrationState::Measuring => 1,
        CalibrationState::Placing(p) => 2 + 5 * p,
        CalibrationState::Showing(p) => 3 + 5 * p,
        CalibrationState::Settling(p) => 4 + 5 * p,
        CalibrationState::Detecting(p) => 5 + 5 * p,
        CalibrationState::Recording(p) => 6 + 5 * p,
        CalibrationState::Finishing => 2 + 5 * CALIBRATION_POINTS,
        CalibrationState::Solving => 3 + 5 * CALIBRATION_POINTS,
        CalibrationState::Saving => 4 + 5 * CALIBRATION_POINTS,
        CalibrationState::Done => 5 + 5 * CALIBRATION_POINTS,
        CalibrationState::Failed => -1,
    }
}

/// `event` reports that the action asked for in `state` succeeded: a plain
/// success, or, when the camera was asked, an answer that lists the
/// calibration marker.
pub open spec fn is_success(state: CalibrationState, event: CalibrationEventView) -> bool {
    if state is Detecting {
        event matches CalibrationEventView::Detected(ids) && exists|k: int|
            0 <= k < ids.len() && ids[k] == CALIBRATION_MARKER_ID
    } else {
        event is Completed
    }
}

/// Every success moves calibration exactly one stage forward, never to a
/// failure and never out of the grid; so from the start, after
/// `5 * CALIBRATION_POINTS + 5` successes calibration is done.
pub proof fn lemma_calibration_success_advances(state: CalibrationState, event: CalibrationEventView)
    requires
        !(state is Done || state is Failed),
        points_in_range(state),
        is_success(state, event),
    ensures
        calibration_stage(calibration_next(state, event).0) == calibration_stage(state) + 1,
        points_in_range(calibration_next(state, event).0),
        calibration_next(state, event).1 != CalibrationAction::Abort,
{
    if let CalibrationState::Detecting(p) = state {
        if let CalibrationEventView::Detected(ids) = event {
            let k = choose|k: int| 0 <= k < ids.len() && ids[k] == CALIBRATION_MARKER_ID;
            let m = lemma_first_occurrence(ids, CALIBRATION_MARKER_ID, k);
            let c = choose|i: int| is_first_index(ids, CALIBRATION_MARKER_ID, i);
            assert(is_first_index(ids, CALIBRATION_MARKER_ID, c));
        }
    }
}

/// The last action issued in a run that stands at `state`.
spec fn last_action_fits(state: CalibrationState, actions: Seq<CalibrationAction>) -> bool {
    let last = actions.last();
    &&& actions.len() > 0
    &&& match state {
        CalibrationState::Clearing => last == CalibrationAction::ClearAndDraw && actions.len() == 1,
        CalibrationState::Measuring => last == CalibrationAction::GetDrawableSize,
        CalibrationState::Placing(p) => last == CalibrationAction::PlaceMarker {
            x_index: p / CALIBRATION_STEPS,
            y_index: p % CALIBRATION_STEPS,
        },
        CalibrationState::Showing(_) => last == CalibrationAction::ClearAndDraw,
        CalibrationState::Settling(_) => last == CalibrationAction::Sleep,
        CalibrationState::Detecting(_) => last == CalibrationAction::GetArucos,
        CalibrationState::Recording(_) => last is Record,
        CalibrationState::Finishing => last == CalibrationAction::ClearAndDraw,
        CalibrationState::Solving => last == CalibrationAction::ComputeHomography,
        CalibrationState::Saving => last == CalibrationAction::SaveConfig,
        CalibrationState::Done => last == CalibrationAction::Finish || last == CalibrationAction::Idle,
        CalibrationState::Failed => last == CalibrationAction::Abort || last == CalibrationAction::Idle,
    }
}

/// The order that calibration keeps between an action and the one before it.
pub open spec fn follows_protocol(actions: Seq<CalibrationAction>, i: int) -> bool {
    let a = actions[i];
    let prev = actions[i - 1];
    let measured = recorded_points(actions.take(i)).len();
    &&& a == CalibrationAction::GetDrawableSize ==> i == 1 && prev == CalibrationAction::ClearAndDraw
    &&& a matches CalibrationAction::PlaceMarker { x_index, y_index } ==> {
        &&& prev == CalibrationAction::GetDrawableSize || prev is Record
        &&& measured < CALIBRATION_POINTS
        &&& x_index as int == measured as int / (CALIBRATION_STEPS as int)
        &&& y_index as int == measured as int % (CALIBRATION_STEPS as int)
    }
    &&& a == CalibrationAction::ClearAndDraw ==> (prev is PlaceMarker || (prev is Record
        && measured == CALIBRATION_POINTS))
    &&& a == CalibrationAction::Sleep ==> prev == CalibrationAction::ClearAndDraw
    &&& a == CalibrationAction::GetArucos ==> (prev == CalibrationAction::Sleep || prev
        == CalibrationAction::GetArucos)
    &&& a is Record ==> prev == CalibrationAction::GetArucos
    &&& a == CalibrationAction::ComputeHomography ==> prev == CalibrationAction::ClearAndDraw
    &&& a == CalibrationAction::SaveConfig ==> prev == CalibrationAction::ComputeHomography
    &&& a == CalibrationAction::Finish ==> prev == CalibrationAction::SaveConfig
    &&& a == CalibrationAction::Idle ==> (prev == CalibrationAction::Abort || prev
        == CalibrationAction::Finish || prev == CalibrationAction::Idle)
}

proof fn lemma_protocol_invariant(events: Seq<CalibrationEventView>)
    ensures
        last_action_fits(calibration_trace(events).0, calibration_trace(events).1),
        forall|i: int|
            0 < i < calibration_trace(events).1.len() ==> follows_protocol(
                calibration_trace(events).1,
                i,
            ),
    decreases events.len(),
{
    if events.len() > 0 {
        let prefix = events.drop_last();
        lemma_protocol_invariant(prefix);
        lemma_trace_invariant(prefix);
        let (state, actions) = calibration_trace(prefix);
        let (next_state, action) = calibration_next(state, events.last());
        let all = actions.push(action);
        assert(all.take(actions.len() as int) =~= actions);
        if action == CalibrationAction::GetDrawableSize {
            assert(state is Clearing);
        }
        assert forall|i: int| 0 < i < all.len() implies follows_protocol(all, i) by {
            if i < actions.len() {
                assert(follows_protocol(calibration_trace(prefix).1, i));
                assert(follows_protocol(actions, i));
                assert(all.take(i) =~= actions.take(i));
                assert(all[i] == actions[i] && all[i - 1] == actions[i - 1]);
            } else {
                assert(all.take(i) =~= actions);
                assert(all[i - 1] == actions.last());
                assert(all[i] == action);
                if action == CalibrationAction::GetDrawableSize {
                    assert(last_action_fits(state, actions));
                    assert(actions.len() == 1);
                    assert(i == 1);
                }
            }
        }
    }
}

/// Calibration follows its protocol: the drawable area is measured right after
/// the first clearing; each marker is placed at the next grid point still to
/// be measured, right after the size was measured or the previous point was
/// recorded; it is then drawn, the camera is given time to settle, and the
/// camera is asked (again and again) until a measurement is recorded; after
/// the last point the projector is cleared, the homography is fitted, the
/// configuration saved, and calibration finishes.
pub proof fn lemma_calibration_follows_protocol(events: Seq<CalibrationEventView>, i: int)
    requires
        0 < i < calibration_trace(events).1.len(),
    ensures
        follows_protocol(calibration_trace(events).1, i),
{
    lemma_protocol_invariant(events);
}

} // verus!
