use circulartrackpad::config::{resolve, Cli, Config, FileConfig, FloatChecks, Shortcut};
use circulartrackpad::gestures::{
    click, pointer_motion, swipe_triggered, DriverState, Event, Motion, Output, PhysicalButton,
    PointerEvent, RingMode, TapState, Zone, classify,
};
use evdev::KeyCode;
use std::f64::consts::PI;

fn config(no_tap: bool) -> Config {
    let cli = Cli {
        command: None,
        device: None,
        pointer_given: false,
        scroll_given: false,
        ring_given: false,
        invert_scroll: false,
        no_invert_scroll: false,
        tap: false,
        no_tap,
        tap_timeout: None,
        tap_move_threshold: None,
    };
    let floats = FloatChecks {
        pointer_ok: true,
        scroll_ok: true,
        ring_ok: true,
        step_degrees_ok: true,
    };
    resolve(&cli, FileConfig::default(), false, "/missing".to_string(), floats).unwrap()
}

/// The floating-point half of the driver with the default settings:
/// pointer 1.5, scroll 5.0, ring 0.65, no inversion, 30 degree steps.
struct Driver {
    state: DriverState,
    prev_angle: Option<f64>,
    scroll_accumulator: f64,
    gesture_accumulator: f64,
}

impl Driver {
    fn new(config: &Config) -> Driver {
        let threshold = 264.0 * 0.65;
        Driver {
            state: DriverState::new(config, (threshold * threshold) as u64),
            prev_angle: None,
            scroll_accumulator: 0.0,
            gesture_accumulator: 0.0,
        }
    }

    fn process(&mut self, event: Event, time: u64) -> Vec<Output> {
        let response = self.state.process(event, time);
        let mut outputs = response.outputs;
        match response.motion {
            Motion::Keep => {}
            Motion::ResetAccumulators => {
                self.scroll_accumulator = 0.0;
                self.gesture_accumulator = 0.0;
            }
            Motion::ResetHistory => {
                self.prev_angle = None;
                self.scroll_accumulator = 0.0;
                self.gesture_accumulator = 0.0;
            }
            Motion::Ring { x, y, mode } => outputs.extend(self.ring(x, y, mode)),
            Motion::Pointer { dx, dy } => {
                outputs.extend(pointer_motion(
                    (dx as f64 * 1.5) as i32,
                    (dy as f64 * 1.5) as i32,
                ));
            }
        }
        outputs
    }

    fn ring(&mut self, x: i32, y: i32, mode: RingMode) -> Vec<Output> {
        let angle = (y as f64 - 264.0).atan2(x as f64 - 264.0);
        let step = 30.0f64.to_radians();
        let mut outputs = Vec::new();
        if let Some(previous) = self.prev_angle {
            let delta = angle_delta(previous, angle);
            match mode {
                RingMode::Gesture(button) => {
                    self.gesture_accumulator += delta;
                    if self.gesture_accumulator >= step {
                        self.gesture_accumulator -= step;
                        return vec![self.state.ring_turn(button, true)];
                    }
                    if self.gesture_accumulator <= -step {
                        self.gesture_accumulator += step;
                        return vec![self.state.ring_turn(button, false)];
                    }
                }
                RingMode::Scroll => {
                    self.scroll_accumulator += delta * 5.0 * 120.0 * -1.0;
                    let hires = self.scroll_accumulator.trunc() as i32;
                    if hires != 0 {
                        self.scroll_accumulator -= hires as f64;
                        outputs = self.state.scroll(hires);
                    }
                }
                RingMode::Idle => {}
            }
        }
        self.prev_angle = Some(angle);
        outputs
    }
}

fn angle_delta(previous: f64, current: f64) -> f64 {
    let mut delta = current - previous;
    if delta > PI {
        delta -= 2.0 * PI;
    } else if delta < -PI {
        delta += 2.0 * PI;
    }
    delta
}

fn touch(state: &mut Driver, slot: usize, tracking_id: i32, x: i32, y: i32, time: u64) {
    state.process(Event::SelectSlot(slot), time);
    state.process(Event::TrackingId(tracking_id), time);
    state.process(Event::PositionX(x), time);
    state.process(Event::PositionY(y), time);
}

fn move_slot(state: &mut Driver, slot: usize, x: i32, y: i32, time: u64) {
    state.process(Event::SelectSlot(slot), time);
    state.process(Event::PositionX(x), time);
    state.process(Event::PositionY(y), time);
}

const TIME: u64 = 1_000_000_000;

fn keys(codes: &[KeyCode]) -> Shortcut {
    Shortcut(codes.iter().map(|k| k.code()).collect())
}

#[test]
fn two_finger_swipe_emits_super_once_and_not_right_click() {
    let mut state = Driver::new(&config(false));
    let time = TIME;
    touch(&mut state, 0, 10, 220, 350, time);
    touch(&mut state, 1, 11, 300, 350, time);
    state.process(Event::Frame, time);

    move_slot(&mut state, 0, 220, 250, time);
    move_slot(&mut state, 1, 300, 250, time);
    let output = state.process(Event::Frame, time);
    assert_eq!(output, vec![Output::Shortcut(keys(&[KeyCode::KEY_LEFTMETA]))]);
    assert!(state.process(Event::Frame, time).is_empty());

    state.process(Event::SelectSlot(1), time);
    let lift = state.process(Event::TrackingId(-1), time);
    assert!(lift.is_empty());
}

#[test]
fn two_finger_tap_remains_right_click() {
    let mut state = Driver::new(&config(false));
    let time = TIME;
    touch(&mut state, 0, 10, 240, 280, time);
    touch(&mut state, 1, 11, 290, 280, time);
    state.process(Event::Frame, time);
    state.process(Event::SelectSlot(1), time);
    assert_eq!(
        state.process(Event::TrackingId(-1), time),
        click(PhysicalButton::Right)
    );
}

#[test]
fn single_finger_tap_remains_left_click() {
    let mut state = Driver::new(&config(false));
    let time = TIME;
    touch(&mut state, 0, 10, 264, 264, time);
    state.process(Event::Frame, time);
    assert_eq!(
        state.process(Event::TrackingId(-1), time),
        click(PhysicalButton::Left)
    );
}

#[test]
fn horizontal_two_finger_motion_does_not_trigger() {
    let mut state = Driver::new(&config(false));
    let time = TIME;
    touch(&mut state, 0, 10, 200, 264, time);
    touch(&mut state, 1, 11, 280, 264, time);
    state.process(Event::Frame, time);
    move_slot(&mut state, 0, 310, 254, time);
    move_slot(&mut state, 1, 390, 254, time);
    assert!(state.process(Event::Frame, time).is_empty());
}

#[test]
fn ring_started_contacts_do_not_arm_swipe() {
    let mut state = Driver::new(&config(false));
    let time = TIME;
    touch(&mut state, 0, 10, 500, 264, time);
    touch(&mut state, 1, 11, 300, 350, time);
    state.process(Event::Frame, time);
    move_slot(&mut state, 0, 500, 150, time);
    move_slot(&mut state, 1, 300, 230, time);
    assert!(state
        .process(Event::Frame, time)
        .iter()
        .all(|output| !matches!(output, Output::Shortcut(_))));
}

#[test]
fn left_button_ring_clockwise_switches_window_without_click_or_scroll() {
    let mut state = Driver::new(&config(false));
    let time = TIME;
    assert!(state
        .process(Event::Button(PhysicalButton::Left, 1), time)
        .is_empty());
    touch(&mut state, 0, 10, 464, 264, time);
    state.process(Event::Frame, time);
    move_slot(&mut state, 0, 436, 367, time);
    assert_eq!(
        state.process(Event::Frame, time),
        vec![Output::Shortcut(keys(&[KeyCode::KEY_LEFTALT, KeyCode::KEY_ESC]))]
    );
}

#[test]
fn button_first_and_ring_first_are_both_supported() {
    let time = TIME;
    let mut ring_first = Driver::new(&config(false));
    touch(&mut ring_first, 0, 10, 464, 264, time);
    ring_first.process(Event::Frame, time);
    ring_first.process(Event::Button(PhysicalButton::Right, 1), time);
    move_slot(&mut ring_first, 0, 436, 367, time);
    assert!(matches!(
        ring_first.process(Event::Frame, time).as_slice(),
        [Output::Shortcut(_)]
    ));
}

#[test]
fn counterclockwise_ring_uses_reverse_window_shortcut() {
    let mut state = Driver::new(&config(false));
    let time = TIME;
    state.process(Event::Button(PhysicalButton::Left, 1), time);
    touch(&mut state, 0, 10, 464, 264, time);
    state.process(Event::Frame, time);
    move_slot(&mut state, 0, 436, 161, time);
    assert_eq!(
        state.process(Event::Frame, time),
        vec![Output::Shortcut(keys(&[
            KeyCode::KEY_LEFTSHIFT,
            KeyCode::KEY_LEFTALT,
            KeyCode::KEY_ESC
        ]))]
    );
}

#[test]
fn right_button_clockwise_ring_uses_next_workspace_shortcut() {
    let mut state = Driver::new(&config(false));
    let time = TIME;
    state.process(Event::Button(PhysicalButton::Right, 1), time);
    touch(&mut state, 0, 10, 464, 264, time);
    state.process(Event::Frame, time);
    move_slot(&mut state, 0, 436, 367, time);
    assert_eq!(
        state.process(Event::Frame, time),
        vec![Output::Shortcut(keys(&[
            KeyCode::KEY_LEFTMETA,
            KeyCode::KEY_PAGEDOWN
        ]))]
    );
}

#[test]
fn both_buttons_suppress_ring_navigation() {
    let mut state = Driver::new(&config(false));
    let time = TIME;
    state.process(Event::Button(PhysicalButton::Left, 1), time);
    state.process(Event::Button(PhysicalButton::Right, 1), time);
    touch(&mut state, 0, 10, 464, 264, time);
    state.process(Event::Frame, time);
    move_slot(&mut state, 0, 436, 367, time);
    assert!(state.process(Event::Frame, time).is_empty());
    assert!(state
        .process(Event::Button(PhysicalButton::Left, 0), time)
        .is_empty());
    assert!(state
        .process(Event::Button(PhysicalButton::Right, 0), time)
        .is_empty());
}

#[test]
fn button_held_when_second_finger_arrives_blocks_swipe_for_sequence() {
    let mut state = Driver::new(&config(false));
    let time = TIME;
    state.process(Event::Button(PhysicalButton::Left, 1), time);
    touch(&mut state, 0, 10, 220, 350, time);
    touch(&mut state, 1, 11, 300, 350, time);
    state.process(Event::Frame, time);
    state.process(Event::Button(PhysicalButton::Left, 0), time);
    move_slot(&mut state, 0, 220, 240, time);
    move_slot(&mut state, 1, 300, 240, time);
    assert!(state
        .process(Event::Frame, time)
        .iter()
        .all(|output| !matches!(output, Output::Shortcut(_))));
}

#[test]
fn third_finger_cancels_swipe_candidate() {
    let mut state = Driver::new(&config(false));
    let time = TIME;
    touch(&mut state, 0, 10, 210, 350, time);
    touch(&mut state, 1, 11, 270, 350, time);
    state.process(Event::Frame, time);
    touch(&mut state, 2, 12, 330, 350, time);
    state.process(Event::Frame, time);
    move_slot(&mut state, 0, 210, 230, time);
    move_slot(&mut state, 1, 270, 230, time);
    assert!(state.process(Event::Frame, time).is_empty());
}

#[test]
fn single_finger_pointer_motion_is_preserved() {
    let mut state = Driver::new(&config(false));
    let time = TIME;
    touch(&mut state, 0, 10, 264, 264, time);
    state.process(Event::Frame, time);
    move_slot(&mut state, 0, 274, 259, time);
    assert_eq!(
        state.process(Event::Frame, time),
        vec![Output::PointerFrame(vec![
            PointerEvent::RelX(15),
            PointerEvent::RelY(-7)
        ])]
    );
}

#[test]
fn unmodified_ring_motion_still_scrolls() {
    let mut state = Driver::new(&config(false));
    let time = TIME;
    touch(&mut state, 0, 10, 464, 264, time);
    state.process(Event::Frame, time);
    move_slot(&mut state, 0, 436, 367, time);
    let output = state.process(Event::Frame, time);
    assert!(matches!(
        output.as_slice(),
        [Output::PointerFrame(events)]
            if events.iter().any(|event| matches!(event, PointerEvent::WheelHiRes(_)))
    ));
}

#[test]
fn no_tap_restores_buttons_and_keeps_swipe() {
    let mut state = Driver::new(&config(true));
    let time = TIME;
    assert_eq!(
        state.process(Event::Button(PhysicalButton::Left, 1), time),
        vec![Output::PointerFrame(vec![PointerEvent::Button(
            PhysicalButton::Left,
            1
        )])]
    );
    state.process(Event::Button(PhysicalButton::Left, 0), time);

    touch(&mut state, 0, 10, 220, 350, time);
    touch(&mut state, 1, 11, 300, 350, time);
    state.process(Event::Frame, time);
    move_slot(&mut state, 0, 220, 250, time);
    move_slot(&mut state, 1, 300, 250, time);
    assert!(matches!(
        state.process(Event::Frame, time).as_slice(),
        [Output::Shortcut(_)]
    ));
}

#[test]
fn no_tap_never_uses_physical_button_as_ring_mode() {
    let mut state = Driver::new(&config(true));
    let time = TIME;
    state.process(Event::Button(PhysicalButton::Left, 1), time);
    touch(&mut state, 0, 10, 464, 264, time);
    state.process(Event::Frame, time);
    move_slot(&mut state, 0, 436, 367, time);
    assert!(state
        .process(Event::Frame, time)
        .iter()
        .all(|output| !matches!(output, Output::Shortcut(_))));
}

#[test]
fn middle_button_always_passes_through() {
    let mut state = Driver::new(&config(false));
    assert_eq!(
        state.process(Event::Button(PhysicalButton::Middle, 1), TIME),
        vec![Output::PointerFrame(vec![PointerEvent::Button(
            PhysicalButton::Middle,
            1
        )])]
    );
    assert_eq!(
        state.process(Event::Button(PhysicalButton::Middle, 2), TIME),
        vec![Output::PointerFrame(vec![PointerEvent::Button(
            PhysicalButton::Middle,
            2
        )])]
    );
}

#[test]
fn tap_expires_after_timeout() {
    let mut state = Driver::new(&config(false));
    touch(&mut state, 0, 10, 264, 264, TIME);
    state.process(Event::Frame, TIME);
    let late = TIME + 181 * 1_000_000;
    assert!(state.process(Event::TrackingId(-1), late).is_empty());

    let mut state = Driver::new(&config(false));
    touch(&mut state, 0, 10, 264, 264, TIME);
    state.process(Event::Frame, TIME);
    let in_time = TIME + 180 * 1_000_000;
    assert_eq!(
        state.process(Event::TrackingId(-1), in_time),
        click(PhysicalButton::Left)
    );
}

#[test]
fn moved_tap_does_not_click() {
    let mut state = Driver::new(&config(false));
    touch(&mut state, 0, 10, 264, 264, TIME);
    state.process(Event::Frame, TIME);
    move_slot(&mut state, 0, 264 + 21, 264, TIME);
    state.process(Event::Frame, TIME);
    state.process(Event::SelectSlot(0), TIME);
    assert!(state.process(Event::TrackingId(-1), TIME).is_empty());
}

#[test]
fn scrolling_emits_detents_every_120_units() {
    let mut state = DriverState::new(&config(false), 29446);
    assert_eq!(
        state.scroll(100),
        vec![Output::PointerFrame(vec![PointerEvent::WheelHiRes(100)])]
    );
    assert_eq!(
        state.scroll(50),
        vec![Output::PointerFrame(vec![
            PointerEvent::WheelHiRes(50),
            PointerEvent::Wheel(1)
        ])]
    );
    assert_eq!(
        state.scroll(-300),
        vec![Output::PointerFrame(vec![
            PointerEvent::WheelHiRes(-300),
            PointerEvent::Wheel(-2)
        ])]
    );
    assert!(state.scroll(0).is_empty());
}

#[test]
fn ring_turn_picks_button_shortcuts() {
    let state = DriverState::new(&config(false), 29446);
    assert_eq!(
        state.ring_turn(PhysicalButton::Right, false),
        Output::Shortcut(keys(&[KeyCode::KEY_LEFTMETA, KeyCode::KEY_PAGEUP]))
    );
    assert_eq!(
        state.ring_turn(PhysicalButton::Left, true),
        Output::Shortcut(keys(&[KeyCode::KEY_LEFTALT, KeyCode::KEY_ESC]))
    );
}

#[test]
fn ring_motion_asks_for_gesture_mode_while_button_held() {
    let mut state = DriverState::new(&config(false), 29446);
    state.process(Event::Button(PhysicalButton::Left, 1), TIME);
    state.process(Event::SelectSlot(0), TIME);
    state.process(Event::TrackingId(3), TIME);
    state.process(Event::PositionX(500), TIME);
    state.process(Event::PositionY(264), TIME);
    let response = state.process(Event::Frame, TIME);
    assert!(response.outputs.is_empty());
    assert_eq!(
        response.motion,
        Motion::Ring {
            x: 500,
            y: 264,
            mode: RingMode::Gesture(PhysicalButton::Left)
        }
    );
}

#[test]
fn swipe_trigger_rule() {
    assert!(swipe_triggered((220, 350), (300, 350), (220, 250), (300, 250), 80));
    assert!(!swipe_triggered((220, 350), (300, 350), (220, 300), (300, 300), 80));
    assert!(!swipe_triggered((200, 264), (280, 264), (310, 254), (390, 254), 80));
    // One finger staying put fails the per-finger half-distance rule.
    assert!(!swipe_triggered((220, 350), (300, 350), (220, 170), (300, 350), 80));
    // Sideways movement larger than the rise fails.
    assert!(!swipe_triggered((0, 350), (0, 350), (100, 260), (100, 260), 80));
    // Extreme coordinates do not overflow.
    assert!(!swipe_triggered(
        (i32::MIN, i32::MAX),
        (i32::MIN, i32::MAX),
        (i32::MAX, i32::MIN),
        (i32::MAX, i32::MIN),
        80
    ));
}

#[test]
fn zone_classification_uses_squared_distance() {
    assert_eq!(classify(29446, 264, 264), Zone::Inner);
    assert_eq!(classify(29446, 464, 264), Zone::Ring);
    assert_eq!(classify(29446, 264 + 171, 264), Zone::Inner);
    assert_eq!(classify(29446, 264 + 172, 264), Zone::Ring);
    assert_eq!(classify(0, i32::MIN, i32::MIN), Zone::Ring);
}

#[test]
fn tap_validity_rules() {
    let tap = TapState {
        start_time: Some(1_000),
        start_pos: None,
        moved: false,
        canceled: false,
    };
    assert!(tap.valid(1_000 + 5_000_000, 5));
    assert!(!tap.valid(1_001 + 5_000_000, 5));
    assert!(tap.valid(0, 5));
    assert!(!TapState { moved: true, ..tap }.valid(1_000, 5));
    assert!(!TapState { canceled: true, ..tap }.valid(1_000, 5));
    assert!(!TapState::idle().valid(1_000, 5));
}

#[test]
fn pointer_motion_skips_zero_axes() {
    assert!(pointer_motion(0, 0).is_empty());
    assert_eq!(
        pointer_motion(0, -3),
        vec![Output::PointerFrame(vec![PointerEvent::RelY(-3)])]
    );
}

#[test]
fn out_of_range_slot_is_ignored() {
    let mut state = Driver::new(&config(false));
    touch(&mut state, 7, 10, 264, 264, TIME);
    assert!(state.process(Event::Frame, TIME).is_empty());
    assert!(state.process(Event::TrackingId(-1), TIME).is_empty());
    // The primary slot is still free: a tap there clicks normally.
    touch(&mut state, 0, 11, 264, 264, TIME);
    state.process(Event::Frame, TIME);
    assert_eq!(
        state.process(Event::TrackingId(-1), TIME),
        click(PhysicalButton::Left)
    );
}

#[test]
fn swipe_does_not_fire_again_before_all_fingers_lift() {
    let mut state = Driver::new(&config(false));
    touch(&mut state, 0, 10, 220, 350, TIME);
    touch(&mut state, 1, 11, 300, 350, TIME);
    state.process(Event::Frame, TIME);
    move_slot(&mut state, 0, 220, 250, TIME);
    move_slot(&mut state, 1, 300, 250, TIME);
    assert_eq!(state.process(Event::Frame, TIME).len(), 1);
    // Lift and re-land the second finger and swipe up again: nothing fires.
    state.process(Event::SelectSlot(1), TIME);
    state.process(Event::TrackingId(-1), TIME);
    state.process(Event::Frame, TIME);
    touch(&mut state, 1, 12, 300, 350, TIME);
    state.process(Event::Frame, TIME);
    move_slot(&mut state, 0, 220, 150, TIME);
    move_slot(&mut state, 1, 300, 150, TIME);
    assert!(state.process(Event::Frame, TIME).is_empty());
    // After every finger lifts, a new swipe fires again.
    state.process(Event::SelectSlot(0), TIME);
    state.process(Event::TrackingId(-1), TIME);
    state.process(Event::SelectSlot(1), TIME);
    state.process(Event::TrackingId(-1), TIME);
    state.process(Event::Frame, TIME);
    touch(&mut state, 0, 13, 220, 350, TIME);
    touch(&mut state, 1, 14, 300, 350, TIME);
    state.process(Event::Frame, TIME);
    move_slot(&mut state, 0, 220, 250, TIME);
    move_slot(&mut state, 1, 300, 250, TIME);
    assert_eq!(
        state.process(Event::Frame, TIME),
        vec![Output::Shortcut(keys(&[KeyCode::KEY_LEFTMETA]))]
    );
}

#[test]
fn no_tap_lifts_never_click() {
    let mut state = Driver::new(&config(true));
    touch(&mut state, 0, 10, 264, 264, TIME);
    state.process(Event::Frame, TIME);
    assert!(state.process(Event::TrackingId(-1), TIME).is_empty());
}
