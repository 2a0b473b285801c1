use eye_in_desk_client::calibration::{
    calibration_start, calibration_step, find_marker, CalibrationAction, CalibrationEvent,
    CalibrationState, CALIBRATION_MARKER_ID, CALIBRATION_POINTS, CALIBRATION_STEPS,
};

fn run(events: Vec<CalibrationEvent>) -> (CalibrationState, Vec<CalibrationAction>) {
    let (mut state, first) = calibration_start();
    let mut actions = vec![first];
    for e in events.iter() {
        let (s, a) = calibration_step(state, e);
        state = s;
        actions.push(a);
    }
    (state, actions)
}

/// The events of a calibration in which everything succeeds and the camera
/// sees the marker, listed second, at its first answer.
fn successful_events() -> Vec<CalibrationEvent> {
    let mut events = vec![CalibrationEvent::Completed, CalibrationEvent::Completed];
    for _ in 0..CALIBRATION_POINTS {
        events.push(CalibrationEvent::Completed); // placed
        events.push(CalibrationEvent::Completed); // drawn
        events.push(CalibrationEvent::Completed); // slept
        events.push(CalibrationEvent::Detected(vec![7, 0, 0])); // detected
        events.push(CalibrationEvent::Completed); // recorded
    }
    events.push(CalibrationEvent::Completed); // cleared
    events.push(CalibrationEvent::Completed); // solved
    events.push(CalibrationEvent::Completed); // saved
    events
}

fn recorded(actions: &[CalibrationAction]) -> Vec<(u32, u32)> {
    actions
        .iter()
        .filter_map(|a| match a {
            CalibrationAction::Record { x_index, y_index, .. } => Some((*x_index, *y_index)),
            _ => None,
        })
        .collect()
}

#[test]
fn grid_constants() {
    assert_eq!(CALIBRATION_STEPS, 2);
    assert_eq!(CALIBRATION_POINTS, CALIBRATION_STEPS * CALIBRATION_STEPS);
    assert_eq!(CALIBRATION_MARKER_ID, 0);
}

#[test]
fn find_marker_first_match() {
    assert_eq!(find_marker(&vec![3, 0, 0], 0), Some(1));
    assert_eq!(find_marker(&vec![0], 0), Some(0));
    assert_eq!(find_marker(&vec![5, 6, 7, 6], 6), Some(1));
    assert_eq!(find_marker(&vec![-1, 2], -1), Some(0));
}

#[test]
fn find_marker_absent() {
    assert_eq!(find_marker(&vec![], 0), None);
    assert_eq!(find_marker(&vec![1, 2, 3], 0), None);
}

#[test]
fn calibration_starts_by_clearing() {
    assert_eq!(calibration_start(), (CalibrationState::Clearing, CalibrationAction::ClearAndDraw));
}

#[test]
fn calibration_successful_run() {
    let (state, actions) = run(successful_events());
    assert_eq!(state, CalibrationState::Done);
    let mut expected = vec![CalibrationAction::ClearAndDraw, CalibrationAction::GetDrawableSize];
    for (x, y) in [(0u32, 0u32), (0, 1), (1, 0), (1, 1)] {
        expected.push(CalibrationAction::PlaceMarker { x_index: x, y_index: y });
        expected.push(CalibrationAction::ClearAndDraw);
        expected.push(CalibrationAction::Sleep);
        expected.push(CalibrationAction::GetArucos);
        expected.push(CalibrationAction::Record { x_index: x, y_index: y, marker: 1 });
    }
    expected.push(CalibrationAction::ClearAndDraw);
    expected.push(CalibrationAction::ComputeHomography);
    expected.push(CalibrationAction::SaveConfig);
    expected.push(CalibrationAction::Finish);
    assert_eq!(actions, expected);
}

#[test]
fn calibration_records_grid_in_row_order() {
    let (_, actions) = run(successful_events());
    assert_eq!(recorded(&actions), vec![(0, 0), (0, 1), (1, 0), (1, 1)]);
    // A prefix of a run records a prefix of the grid.
    let mut events = successful_events();
    events.truncate(2 + 5 + 4);
    let (state, actions) = run(events);
    assert_eq!(state, CalibrationState::Recording(1));
    assert_eq!(recorded(&actions), vec![(0, 0), (0, 1)]);
}

#[test]
fn calibration_retries_until_marker_seen() {
    let events = vec![
        CalibrationEvent::Completed,
        CalibrationEvent::Completed,
        CalibrationEvent::Completed,
        CalibrationEvent::Completed,
        CalibrationEvent::Completed,
        CalibrationEvent::Detected(vec![]),
        CalibrationEvent::Detected(vec![4, 5]),
        CalibrationEvent::Detected(vec![0]),
    ];
    let (state, actions) = run(events);
    assert_eq!(state, CalibrationState::Recording(0));
    let tail = &actions[actions.len() - 3..];
    assert_eq!(
        tail,
        &[
            CalibrationAction::GetArucos,
            CalibrationAction::GetArucos,
            CalibrationAction::Record { x_index: 0, y_index: 0, marker: 0 },
        ]
    );
}

#[test]
fn calibration_error_aborts_at_every_stage() {
    let all = successful_events();
    for cut in 0..all.len() {
        let mut events: Vec<CalibrationEvent> = Vec::new();
        for e in all[..cut].iter() {
            events.push(match e {
                CalibrationEvent::Completed => CalibrationEvent::Completed,
                CalibrationEvent::Detected(ids) => CalibrationEvent::Detected(ids.clone()),
                CalibrationEvent::Error => CalibrationEvent::Error,
            });
        }
        events.push(CalibrationEvent::Error);
        events.push(CalibrationEvent::Completed);
        events.push(CalibrationEvent::Detected(vec![0]));
        let (state, actions) = run(events);
        assert_eq!(state, CalibrationState::Failed);
        let n = actions.len();
        assert_eq!(actions[n - 3], CalibrationAction::Abort);
        assert_eq!(actions[n - 2], CalibrationAction::Idle);
        assert_eq!(actions[n - 1], CalibrationAction::Idle);
        assert!(!actions.contains(&CalibrationAction::Finish));
    }
}

#[test]
fn calibration_done_is_final() {
    let (state, _) = run(successful_events());
    assert_eq!(calibration_step(state, &CalibrationEvent::Completed), (CalibrationState::Done, CalibrationAction::Idle));
    assert_eq!(calibration_step(state, &CalibrationEvent::Error), (CalibrationState::Done, CalibrationAction::Idle));
}

#[test]
fn calibration_unexpected_outcome_aborts() {
    // A detection where none was asked for.
    assert_eq!(
        calibration_step(CalibrationState::Clearing, &CalibrationEvent::Detected(vec![0])),
        (CalibrationState::Failed, CalibrationAction::Abort)
    );
    // A bare completion where a detection was asked for.
    assert_eq!(
        calibration_step(CalibrationState::Detecting(2), &CalibrationEvent::Completed),
        (CalibrationState::Failed, CalibrationAction::Abort)
    );
}

#[test]
fn calibration_last_point_leads_to_final_clear() {
    assert_eq!(
        calibration_step(CalibrationState::Recording(3), &CalibrationEvent::Completed),
        (CalibrationState::Finishing, CalibrationAction::ClearAndDraw)
    );
    assert_eq!(
        calibration_step(CalibrationState::Recording(2), &CalibrationEvent::Completed),
        (CalibrationState::Placing(3), CalibrationAction::PlaceMarker { x_index: 1, y_index: 1 })
    );
}
