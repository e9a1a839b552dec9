use crate::config::{Config, Shortcut};
use vstd::prelude::*;

verus! {

/// Number of contact slots the trackpad reports.
pub const SLOT_COUNT: usize = 5;

/// Both coordinates of the pad's centre (the pad spans 0..=528 on each axis).
pub const PAD_CENTER: i64 = 264;

/// The physical buttons below the pad.
#[derive(Debug, Clone, Copy, PartialEq, Eq, Structural)]
pub enum PhysicalButton {
    Left,
    Right,
    Middle,
}

/// One event of a frame sent to the virtual pointer.
#[derive(Debug, Clone, Copy, PartialEq, Eq, Structural)]
pub enum PointerEvent {
    RelX(i32),
    RelY(i32),
    WheelHiRes(i32),
    Wheel(i32),
    Button(PhysicalButton, i32),
}

/// What the driver asks to be emitted.
#[derive(Debug, Clone, PartialEq, Eq)]
pub enum Output {
    PointerFrame(Vec<PointerEvent>),
    Shortcut(Shortcut),
}

/// An output as a mathematical value.
pub enum OutputView {
    PointerFrame(Seq<PointerEvent>),
    Shortcut(Seq<u16>),
}

pub open spec fn output_view(o: Output) -> OutputView {
    match o {
        Output::PointerFrame(events) => OutputView::PointerFrame(events@),
        Output::Shortcut(s) => OutputView::Shortcut(s.0@),
    }
}

pub open spec fn outputs_view(outputs: Seq<Output>) -> Seq<OutputView> {
    outputs.map_values(|o: Output| output_view(o))
}

/// An input event of the physical trackpad.
#[derive(Debug, Clone, Copy, PartialEq, Eq, Structural)]
pub enum Event {
    SelectSlot(usize),
    TrackingId(i32),
    PositionX(i32),
    PositionY(i32),
    Button(PhysicalButton, i32),
    Frame,
}

/// One contact slot: its tracking id (`-1` when no finger is down) and position.
#[derive(Debug, Clone, Copy, PartialEq, Eq, Structural)]
pub struct SlotState {
    pub tracking_id: i32,
    pub x: i32,
    pub y: i32,
}

/// What is known of a possible tap in one slot. Times are in nanoseconds.
#[derive(Debug, Clone, Copy, PartialEq, Eq)]
pub struct TapState {
    pub start_time: Option<u64>,
    pub start_pos: Option<(i32, i32)>,
    pub moved: bool,
    pub canceled: bool,
}

/// Time from `start` to `now`, zero when `now` is earlier.
pub open spec fn elapsed(now: u64, start: u64) -> int {
    if now >= start {
        now - start
    } else {
        0
    }
}

/// The tap that is not being tracked.
pub open spec fn idle_tap() -> TapState {
    TapState { start_time: None, start_pos: None, moved: false, canceled: false }
}

impl TapState {
    /// A tap is still valid while it started, has not moved, was not canceled,
    /// and no more than the timeout has passed since it started.
    pub open spec fn spec_valid(self, now: u64, timeout_ms: u64) -> bool {
        &&& self.start_time matches Some(start) && elapsed(now, start) <= timeout_ms * 1_000_000
        &&& !self.moved
        &&& !self.canceled
    }

    pub fn valid(&self, now: u64, timeout_ms: u64) -> (r: bool)
        ensures
            r == self.spec_valid(now, timeout_ms),
    {
        match self.start_time {
            Some(start) => {
                let elapsed: u64 = if now >= start {
                    now - start
                } else {
                    0
                };
                (elapsed as u128) <= (timeout_ms as u128) * 1_000_000 && !self.moved
                    && !self.canceled
            },
            None => false,
        }
    }

    pub fn idle() -> (r: TapState)
        ensures
            r == idle_tap(),
    {
        TapState { start_time: None, start_pos: None, moved: false, canceled: false }
    }
}

/// Where a contact lies: the inner disc moves the pointer, the ring scrolls.
#[derive(Debug, Clone, Copy, PartialEq, Eq, Structural)]
pub enum Zone {
    Inner,
    Ring,
}

/// The zone of a position: the ring holds the points whose squared distance
/// from the centre exceeds `ring_limit`.
pub open spec fn zone_of(ring_limit: u64, x: i32, y: i32) -> Zone {
    let dx = x - PAD_CENTER;
    let dy = y - PAD_CENTER;
    if dx * dx + dy * dy > ring_limit {
        Zone::Ring
    } else {
        Zone::Inner
    }
}

pub fn classify(ring_limit: u64, x: i32, y: i32) -> (z: Zone)
    ensures
        z == zone_of(ring_limit, x, y),
{
    let dx: i64 = x as i64 - PAD_CENTER;
    let dy: i64 = y as i64 - PAD_CENTER;
    let ax: u64 = if dx >= 0 {
        dx as u64
    } else {
        (-dx) as u64
    };
    let ay: u64 = if dy >= 0 {
        dy as u64
    } else {
        (-dy) as u64
    };
    assert(ax <= 0x8000_0108 && ay <= 0x8000_0108);
    assert(ax * ax <= 0x8000_0108 * 0x8000_0108) by (nonlinear_arith)
        requires
            ax <= 0x8000_0108,
    ;
    assert(ay * ay <= 0x8000_0108 * 0x8000_0108) by (nonlinear_arith)
        requires
            ay <= 0x8000_0108,
    ;
    assert(ax * ax == dx * dx) by (nonlinear_arith)
        requires
            ax == dx || ax == -dx,
    ;
    assert(ay * ay == dy * dy) by (nonlinear_arith)
        requires
            ay == dy || ay == -dy,
    ;
    let d2: u64 = ax * ax + ay * ay;
    if d2 > ring_limit {
        Zone::Ring
    } else {
        Zone::Inner
    }
}

/// A two-finger touch that may still become an upward swipe.
#[derive(Debug, Clone, Copy, PartialEq, Eq)]
pub struct SwipeCandidate {
    pub start0: (i32, i32),
    pub start1: (i32, i32),
    pub triggered: bool,
}

/// Whether two contacts, from their start positions to their current ones,
/// moved up together by at least `distance`: the centroid rose by at least
/// `distance` and by more than it moved sideways, and each contact rose by at
/// least half of `distance` (halves and centroids rounded toward zero).
pub open spec fn swipe_is_triggered(
    start0: (i32, i32),
    start1: (i32, i32),
    current0: (i32, i32),
    current1: (i32, i32),
    distance: i32,
) -> bool {
    let dx0 = current0.0 - start0.0;
    let dx1 = current1.0 - start1.0;
    let dy0 = current0.1 - start0.1;
    let dy1 = current1.1 - start1.1;
    let centroid_dx = trunc_div(dx0 + dx1, 2);
    let centroid_dy = trunc_div(dy0 + dy1, 2);
    let upward = -centroid_dy;
    let half = trunc_div(distance as int, 2);
    &&& upward >= distance
    &&& -dy0 >= half
    &&& -dy1 >= half
    &&& upward > abs(centroid_dx)
}

/// Division rounded toward zero by a positive divisor.
pub open spec fn trunc_div(a: int, b: int) -> int
    recommends
        b > 0,
{
    if a >= 0 {
        a / b
    } else {
        -((-a) / b)
    }
}

pub open spec fn abs(a: int) -> int {
    if a >= 0 {
        a
    } else {
        -a
    }
}

/// The remainder of division rounded toward zero by 120 lies strictly within
/// -120..120, and the quotient's magnitude never exceeds the dividend's.
pub proof fn lemma_trunc_div_120(a: int)
    ensures
        -120 < a - trunc_div(a, 120) * 120 < 120,
        abs(trunc_div(a, 120)) <= abs(a),
{
    if a >= 0 {
        vstd::arithmetic::div_mod::lemma_fundamental_div_mod(a, 120);
        vstd::arithmetic::div_mod::lemma_mod_pos_bound(a, 120);
    } else {
        vstd::arithmetic::div_mod::lemma_fundamental_div_mod(-a, 120);
        vstd::arithmetic::div_mod::lemma_mod_pos_bound(-a, 120);
    }
}

fn trunc_div_i64(a: i64, b: i64) -> (r: i64)
    requires
        b > 0,
        a > i64::MIN,
    ensures
        r == trunc_div(a as int, b as int),
{
    if a >= 0 {
        a / b
    } else {
        -((-a) / b)
    }
}

pub fn swipe_triggered(
    start0: (i32, i32),
    start1: (i32, i32),
    current0: (i32, i32),
    current1: (i32, i32),
    distance: i32,
) -> (r: bool)
    ensures
        r == swipe_is_triggered(start0, start1, current0, current1, distance),
        r ==> start0.1 - current0.1 >= trunc_div(distance as int, 2),
        r ==> start1.1 - current1.1 >= trunc_div(distance as int, 2),
        r ==> (start0.1 - current0.1) + (start1.1 - current1.1) >= 2 * distance,
{
    let dx0: i64 = current0.0 as i64 - start0.0 as i64;
    let dx1: i64 = current1.0 as i64 - start1.0 as i64;
    let dy0: i64 = current0.1 as i64 - start0.1 as i64;
    let dy1: i64 = current1.1 as i64 - start1.1 as i64;
    let centroid_dx = trunc_div_i64(dx0 + dx1, 2);
    let centroid_dy = trunc_div_i64(dy0 + dy1, 2);
    let upward: i64 = -centroid_dy;
    let half = trunc_div_i64(distance as i64, 2);
    let abs_dx: i64 = if centroid_dx >= 0 {
        centroid_dx
    } else {
        -centroid_dx
    };
    upward >= distance as i64 && -dy0 >= half && -dy1 >= half && upward > abs_dx
}

/// A press and a release of `button`.
pub open spec fn click_view(button: PhysicalButton) -> Seq<OutputView> {
    seq![
        OutputView::PointerFrame(seq![PointerEvent::Button(button, 1)]),
        OutputView::PointerFrame(seq![PointerEvent::Button(button, 0)]),
    ]
}

pub fn click(button: PhysicalButton) -> (r: Vec<Output>)
    ensures
        outputs_view(r@) == click_view(button),
{
    let mut press: Vec<PointerEvent> = Vec::new();
    press.push(PointerEvent::Button(button, 1));
    let mut release: Vec<PointerEvent> = Vec::new();
    release.push(PointerEvent::Button(button, 0));
    let mut r: Vec<Output> = Vec::new();
    r.push(Output::PointerFrame(press));
    r.push(Output::PointerFrame(release));
    assert(outputs_view(r@) =~= click_view(button));
    r
}

/// A single pointer frame holding one event.
pub open spec fn single_frame_view(event: PointerEvent) -> Seq<OutputView> {
    seq![OutputView::PointerFrame(seq![event])]
}

fn single_frame(event: PointerEvent) -> (r: Vec<Output>)
    ensures
        outputs_view(r@) == single_frame_view(event),
{
    let mut events: Vec<PointerEvent> = Vec::new();
    events.push(event);
    let mut r: Vec<Output> = Vec::new();
    r.push(Output::PointerFrame(events));
    assert(outputs_view(r@) =~= single_frame_view(event));
    r
}

/// What the gesture driver reads of the configuration.
#[derive(Debug)]
pub struct Settings {
    pub tap: bool,
    pub tap_timeout_ms: u64,
    pub tap_move_threshold: i32,
    pub ring_limit: u64,
    pub left_clockwise: Shortcut,
    pub left_counterclockwise: Shortcut,
    pub right_clockwise: Shortcut,
    pub right_counterclockwise: Shortcut,
    pub swipe_enabled: bool,
    pub swipe_distance: i32,
    pub swipe_up: Shortcut,
}

impl Settings {
    /// The driver's settings for a configuration; `ring_limit` bounds the squared
    /// distance from the centre of the inner disc.
    pub fn new(config: &Config, ring_limit: u64) -> (s: Settings)
        ensures
            s.tap == config.tap,
            s.tap_timeout_ms == config.tap_timeout_ms,
            s.tap_move_threshold == config.tap_move_threshold,
            s.ring_limit == ring_limit,
            s.left_clockwise.0@ == config.button_gestures.left_clockwise.0@,
            s.left_counterclockwise.0@ == config.button_gestures.left_counterclockwise.0@,
            s.right_clockwise.0@ == config.button_gestures.right_clockwise.0@,
            s.right_counterclockwise.0@ == config.button_gestures.right_counterclockwise.0@,
            s.swipe_enabled == config.two_finger_swipe.enabled,
            s.swipe_distance == config.two_finger_swipe.distance,
            s.swipe_up.0@ == config.two_finger_swipe.up.0@,
    {
        Settings {
            tap: config.tap,
            tap_timeout_ms: config.tap_timeout_ms,
            tap_move_threshold: config.tap_move_threshold,
            ring_limit,
            left_clockwise: config.button_gestures.left_clockwise.duplicate(),
            left_counterclockwise: config.button_gestures.left_counterclockwise.duplicate(),
            right_clockwise: config.button_gestures.right_clockwise.duplicate(),
            right_counterclockwise: config.button_gestures.right_counterclockwise.duplicate(),
            swipe_enabled: config.two_finger_swipe.enabled,
            swipe_distance: config.two_finger_swipe.distance,
            swipe_up: config.two_finger_swipe.up.duplicate(),
        }
    }
}


/// How the front end treats a ring contact's turn: as a shortcut gesture while
/// one physical button is held, as scrolling, or as neither.
#[derive(Debug, Clone, Copy, PartialEq, Eq, Structural)]
pub enum RingMode {
    Gesture(PhysicalButton),
    Scroll,
    Idle,
}

/// The angular and scaled-pointer work left to the front end after an event:
/// keep its state, clear its accumulators, clear its accumulators and last
/// angle, follow the primary contact on the ring, or scale a pointer move.
#[derive(Debug, Clone, Copy, PartialEq, Eq, Structural)]
pub enum Motion {
    Keep,
    ResetAccumulators,
    ResetHistory,
    Ring { x: i32, y: i32, mode: RingMode },
    Pointer { dx: i64, dy: i64 },
}

/// What one event produced: outputs to emit, then motion work to do.
#[derive(Debug)]
pub struct Response {
    pub outputs: Vec<Output>,
    pub motion: Motion,
}

/// The driver's state as a mathematical value.
#[verifier::ext_equal]
pub struct DriverModel {
    pub slots: Seq<SlotState>,
    pub current_slot: usize,
    pub taps: Seq<TapState>,
    pub locked_zone: Option<Zone>,
    pub prev_pos: Option<(i32, i32)>,
    pub detent_carry: i32,
    pub left_down: bool,
    pub right_down: bool,
    pub swipe_candidate: Option<SwipeCandidate>,
    pub swipe_blocked_until_lift: bool,
    pub swipe_consuming_sequence: bool,
}

/// A slot with no finger down.
pub open spec fn empty_slot() -> SlotState {
    SlotState { tracking_id: -1i32, x: 0i32, y: 0i32 }
}

/// The state before any event.
pub open spec fn initial_model() -> DriverModel {
    DriverModel {
        slots: Seq::new(SLOT_COUNT as nat, |i: int| empty_slot()),
        current_slot: 0,
        taps: Seq::new(SLOT_COUNT as nat, |i: int| idle_tap()),
        locked_zone: None,
        prev_pos: None,
        detent_carry: 0,
        left_down: false,
        right_down: false,
        swipe_candidate: None,
        swipe_blocked_until_lift: false,
        swipe_consuming_sequence: false,
    }
}

/// The shape every reachable state has.
pub open spec fn model_wf(m: DriverModel) -> bool {
    &&& m.slots.len() == SLOT_COUNT
    &&& m.taps.len() == SLOT_COUNT
    &&& -120 < m.detent_carry < 120
}

pub open spec fn is_down(s: SlotState) -> bool {
    s.tracking_id != -1
}

pub open spec fn down_bit(s: SlotState) -> int {
    if is_down(s) {
        1
    } else {
        0
    }
}

/// How many slots have a finger down.
pub open spec fn down_count(slots: Seq<SlotState>) -> int {
    down_bit(slots[0]) + down_bit(slots[1]) + down_bit(slots[2]) + down_bit(slots[3]) + down_bit(
        slots[4],
    )
}

pub open spec fn reset_motion(m: DriverModel) -> DriverModel {
    DriverModel { prev_pos: None, detent_carry: 0, ..m }
}

pub open spec fn reset_swipe(m: DriverModel) -> DriverModel {
    DriverModel {
        swipe_candidate: None,
        swipe_blocked_until_lift: false,
        swipe_consuming_sequence: false,
        ..m
    }
}

/// The button whose shortcuts a ring turn sends: the one held alone, with taps on.
pub open spec fn button_mode(st: Settings, m: DriverModel) -> Option<PhysicalButton> {
    if !st.tap {
        None
    } else if m.left_down && !m.right_down {
        Some(PhysicalButton::Left)
    } else if !m.left_down && m.right_down {
        Some(PhysicalButton::Right)
    } else {
        None
    }
}

/// How ring motion is treated: gestures while one button is held, nothing while
/// both are (with taps on), scrolling otherwise.
pub open spec fn ring_mode(st: Settings, m: DriverModel) -> RingMode {
    match button_mode(st, m) {
        Some(b) => RingMode::Gesture(b),
        None => if !st.tap || !(m.left_down && m.right_down) {
            RingMode::Scroll
        } else {
            RingMode::Idle
        },
    }
}

/// The clicks a lifted finger makes, in state `m` (the lift already recorded).
pub open spec fn lift_clicks(st: Settings, m: DriverModel, now: u64) -> Seq<OutputView> {
    let slot0_valid = m.taps[0].spec_valid(now, st.tap_timeout_ms) && m.locked_zone == Some(
        Zone::Inner,
    );
    let slot1_valid = m.taps[1].spec_valid(now, st.tap_timeout_ms);
    if !st.tap {
        Seq::empty()
    } else if m.current_slot == 0 {
        if is_down(m.slots[1]) && slot0_valid && slot1_valid {
            click_view(PhysicalButton::Right)
        } else if slot0_valid && !is_down(m.slots[1]) {
            click_view(PhysicalButton::Left)
        } else {
            Seq::empty()
        }
    } else if m.current_slot == 1 {
        if is_down(m.slots[0]) && slot0_valid && slot1_valid {
            click_view(PhysicalButton::Right)
        } else {
            Seq::empty()
        }
    } else {
        Seq::empty()
    }
}

/// A new tracking id in the current slot: a finger lands (`id != -1`) or lifts.
pub open spec fn on_tracking(st: Settings, m: DriverModel, id: i32, now: u64) -> (
    DriverModel,
    Seq<OutputView>,
    Motion,
) {
    let cs = m.current_slot as int;
    if cs >= SLOT_COUNT {
        (m, Seq::empty(), Motion::Keep)
    } else {
        let m1 = DriverModel {
            slots: m.slots.update(cs, SlotState { tracking_id: id, ..m.slots[cs] }),
            ..m
        };
        if id != -1 {
            let tap = TapState {
                start_time: Some(now),
                start_pos: None,
                moved: false,
                canceled: m.left_down || m.right_down,
            };
            (DriverModel { taps: m1.taps.update(cs, tap), ..m1 }, Seq::empty(), Motion::Keep)
        } else {
            let out = lift_clicks(st, m1, now);
            let taps2 = if cs == 1 && out.len() > 0 {
                m1.taps.update(0, idle_tap())
            } else {
                m1.taps
            };
            let m3 = DriverModel { taps: taps2.update(cs, idle_tap()), ..m1 };
            let m4 = if cs == 0 {
                reset_motion(
                    DriverModel { locked_zone: None, taps: m3.taps.update(1, idle_tap()), ..m3 },
                )
            } else {
                m3
            };
            let had = m4.swipe_candidate is Some;
            let m5 = if had {
                reset_motion(
                    DriverModel {
                        swipe_candidate: None,
                        swipe_blocked_until_lift: true,
                        swipe_consuming_sequence: true,
                        ..m4
                    },
                )
            } else {
                m4
            };
            let m6 = if down_count(m5.slots) == 0 {
                reset_swipe(m5)
            } else {
                m5
            };
            (
                m6,
                out,
                if cs == 0 || had {
                    Motion::ResetHistory
                } else {
                    Motion::Keep
                },
            )
        }
    }
}

/// Marks every started tap as canceled.
pub open spec fn cancel_started(taps: Seq<TapState>) -> Seq<TapState> {
    taps.map_values(
        |t: TapState|
            if t.start_time is Some {
                TapState { canceled: true, ..t }
            } else {
                t
            },
    )
}

/// A physical button changes (`value` 1 pressed, 0 released, others repeats).
pub open spec fn on_button(st: Settings, m: DriverModel, b: PhysicalButton, value: i32) -> (
    DriverModel,
    Seq<OutputView>,
    Motion,
) {
    if b == PhysicalButton::Middle {
        (m, single_frame_view(PointerEvent::Button(b, value)), Motion::Keep)
    } else {
        let m1 = if value == 0 || value == 1 {
            if b == PhysicalButton::Left {
                DriverModel { left_down: value == 1, ..m }
            } else {
                DriverModel { right_down: value == 1, ..m }
            }
        } else {
            m
        };
        if !st.tap {
            (m1, single_frame_view(PointerEvent::Button(b, value)), Motion::Keep)
        } else if value != 0 && value != 1 {
            (m1, Seq::empty(), Motion::Keep)
        } else {
            let m2 = DriverModel { detent_carry: 0, ..m1 };
            if value == 1 {
                let m3 = DriverModel { taps: cancel_started(m2.taps), ..m2 };
                if m3.swipe_candidate is Some {
                    (
                        reset_motion(
                            DriverModel {
                                swipe_candidate: None,
                                swipe_blocked_until_lift: true,
                                swipe_consuming_sequence: true,
                                ..m3
                            },
                        ),
                        Seq::empty(),
                        Motion::ResetHistory,
                    )
                } else {
                    (m3, Seq::empty(), Motion::ResetAccumulators)
                }
            } else {
                (m2, Seq::empty(), Motion::ResetAccumulators)
            }
        }
    }
}

/// A tap after its finger's position is known: it records where it started and
/// moves once the finger strays more than the threshold along an axis.
pub open spec fn tap_after_motion(st: Settings, slot: SlotState, tap: TapState) -> TapState {
    if !is_down(slot) {
        tap
    } else {
        let t1 = if tap.start_time is Some && tap.start_pos is None {
            TapState { start_pos: Some((slot.x, slot.y)), ..tap }
        } else {
            tap
        };
        match t1.start_pos {
            Some(p) => if abs(slot.x - p.0) > st.tap_move_threshold || abs(slot.y - p.1)
                > st.tap_move_threshold {
                TapState { moved: true, ..t1 }
            } else {
                t1
            },
            None => t1,
        }
    }
}

pub open spec fn update_taps(st: Settings, m: DriverModel) -> DriverModel {
    DriverModel {
        taps: m.taps.update(0, tap_after_motion(st, m.slots[0], m.taps[0])).update(
            1,
            tap_after_motion(st, m.slots[1], m.taps[1]),
        ),
        ..m
    }
}

/// Cancels the taps of the two primary slots.
pub open spec fn cancel_pair(taps: Seq<TapState>) -> Seq<TapState> {
    taps.update(0, TapState { canceled: true, ..taps[0] }).update(
        1,
        TapState { canceled: true, ..taps[1] },
    )
}

/// Arms, blocks or drops the swipe candidate for a frame with `count` fingers.
pub open spec fn update_swipe(st: Settings, m: DriverModel, count: int) -> DriverModel {
    if !st.swipe_enabled {
        m
    } else if count > 2 {
        let m1 = if m.swipe_candidate is Some {
            DriverModel {
                swipe_candidate: None,
                swipe_consuming_sequence: true,
                taps: cancel_pair(m.taps),
                ..m
            }
        } else {
            m
        };
        DriverModel { swipe_blocked_until_lift: true, ..m1 }
    } else if m.swipe_blocked_until_lift {
        m
    } else if count != 2 || !is_down(m.slots[0]) || !is_down(m.slots[1]) {
        m
    } else if m.left_down || m.right_down {
        DriverModel { swipe_blocked_until_lift: true, ..m }
    } else if m.swipe_candidate is Some {
        m
    } else {
        let zone0 = match m.locked_zone {
            Some(z) => z,
            None => Zone::Inner,
        };
        let zone1 = zone_of(st.ring_limit, m.slots[1].x, m.slots[1].y);
        if zone0 == Zone::Inner && zone1 == Zone::Inner {
            DriverModel {
                swipe_blocked_until_lift: true,
                swipe_candidate: Some(
                    SwipeCandidate {
                        start0: (m.slots[0].x, m.slots[0].y),
                        start1: (m.slots[1].x, m.slots[1].y),
                        triggered: false,
                    },
                ),
                swipe_consuming_sequence: true,
                ..m
            }
        } else {
            DriverModel { swipe_blocked_until_lift: true, ..m }
        }
    }
}

/// The primary contact's zone is fixed by the first frame that sees it down.
pub open spec fn lock_zone(st: Settings, m: DriverModel) -> DriverModel {
    if m.locked_zone is None && is_down(m.slots[0]) {
        DriverModel {
            locked_zone: Some(zone_of(st.ring_limit, m.slots[0].x, m.slots[0].y)),
            ..m
        }
    } else {
        m
    }
}

/// A frame of a sequence that a swipe consumes: motion history is dropped, and
/// the shortcut is sent once the untriggered candidate has moved far enough up.
pub open spec fn consume_swipe(st: Settings, m: DriverModel) -> (
    DriverModel,
    Seq<OutputView>,
    Motion,
) {
    let s0 = m.slots[0];
    let s1 = m.slots[1];
    let m4 = reset_motion(m);
    match m4.swipe_candidate {
        Some(c) => if !c.triggered && swipe_is_triggered(
            c.start0,
            c.start1,
            (s0.x, s0.y),
            (s1.x, s1.y),
            st.swipe_distance,
        ) {
            (
                DriverModel {
                    swipe_candidate: Some(SwipeCandidate { triggered: true, ..c }),
                    taps: cancel_pair(m4.taps),
                    ..m4
                },
                seq![OutputView::Shortcut(st.swipe_up.0@)],
                Motion::ResetHistory,
            )
        } else {
            (m4, Seq::empty(), Motion::ResetHistory)
        },
        None => (m4, Seq::empty(), Motion::ResetHistory),
    }
}

/// A frame outside a swipe: the primary contact scrolls or gestures on the
/// ring, or moves the pointer in the inner disc.
pub open spec fn follow_primary(st: Settings, m: DriverModel) -> (
    DriverModel,
    Seq<OutputView>,
    Motion,
) {
    let s0 = m.slots[0];
    if !is_down(s0) {
        (m, Seq::empty(), Motion::Keep)
    } else {
        let zone = match m.locked_zone {
            Some(z) => z,
            None => zone_of(st.ring_limit, s0.x, s0.y),
        };
        let m4 = DriverModel { locked_zone: Some(zone), ..m };
        match zone {
            Zone::Ring => (
                m4,
                Seq::empty(),
                Motion::Ring { x: s0.x, y: s0.y, mode: ring_mode(st, m4) },
            ),
            Zone::Inner => (
                DriverModel { prev_pos: Some((s0.x, s0.y)), ..m4 },
                Seq::empty(),
                match m4.prev_pos {
                    Some(p) => Motion::Pointer { dx: (s0.x - p.0) as i64, dy: (s0.y - p.1) as i64 },
                    None => Motion::Keep,
                },
            ),
        }
    }
}

/// The end of an input frame.
pub open spec fn on_frame(st: Settings, m: DriverModel, now: u64) -> (
    DriverModel,
    Seq<OutputView>,
    Motion,
) {
    let m1 = update_taps(st, m);
    let count = down_count(m1.slots);
    if count == 0 {
        (reset_swipe(m1), Seq::empty(), Motion::Keep)
    } else {
        let m3 = update_swipe(st, lock_zone(st, m1), count);
        if m3.swipe_consuming_sequence {
            consume_swipe(st, m3)
        } else {
            follow_primary(st, m3)
        }
    }
}

/// One event's effect: the next state, the outputs, and the motion work.
pub open spec fn step(st: Settings, m: DriverModel, event: Event, now: u64) -> (
    DriverModel,
    Seq<OutputView>,
    Motion,
) {
    let cs = m.current_slot as int;
    match event {
        Event::SelectSlot(slot) => (
            DriverModel { current_slot: slot, ..m },
            Seq::empty(),
            Motion::Keep,
        ),
        Event::TrackingId(id) => on_tracking(st, m, id, now),
        Event::PositionX(x) => (
            if cs < SLOT_COUNT {
                DriverModel { slots: m.slots.update(cs, SlotState { x: x, ..m.slots[cs] }), ..m }
            } else {
                m
            },
            Seq::empty(),
            Motion::Keep,
        ),
        Event::PositionY(y) => (
            if cs < SLOT_COUNT {
                DriverModel { slots: m.slots.update(cs, SlotState { y: y, ..m.slots[cs] }), ..m }
            } else {
                m
            },
            Seq::empty(),
            Motion::Keep,
        ),
        Event::Button(b, value) => on_button(st, m, b, value),
        Event::Frame => on_frame(st, m, now),
    }
}

/// The shortcut a ring turn sends while `button` is held.
pub open spec fn turn_keys(st: Settings, button: PhysicalButton, clockwise: bool) -> Seq<u16> {
    if button == PhysicalButton::Left {
        if clockwise {
            st.left_clockwise.0@
        } else {
            st.left_counterclockwise.0@
        }
    } else {
        if clockwise {
            st.right_clockwise.0@
        } else {
            st.right_counterclockwise.0@
        }
    }
}

/// Scrolling by `hires` high-resolution units with `carry` units pending toward
/// a whole detent (120 units): the new carry and the frame to emit.
pub open spec fn scroll_step(carry: i32, hires: i32) -> (int, Seq<OutputView>) {
    if hires == 0 {
        (carry as int, Seq::empty())
    } else {
        let total = carry + hires;
        let detents = trunc_div(total, 120);
        let events = if detents != 0 {
            seq![PointerEvent::WheelHiRes(hires), PointerEvent::Wheel(detents as i32)]
        } else {
            seq![PointerEvent::WheelHiRes(hires)]
        };
        (total - detents * 120, seq![OutputView::PointerFrame(events)])
    }
}

/// The relative pointer events of a scaled move, as one frame when any is non-zero.
pub open spec fn pointer_view(dx: i32, dy: i32) -> Seq<OutputView> {
    let events = if dx != 0 && dy != 0 {
        seq![PointerEvent::RelX(dx), PointerEvent::RelY(dy)]
    } else if dx != 0 {
        seq![PointerEvent::RelX(dx)]
    } else if dy != 0 {
        seq![PointerEvent::RelY(dy)]
    } else {
        Seq::empty()
    };
    if events.len() == 0 {
        Seq::empty()
    } else {
        seq![OutputView::PointerFrame(events)]
    }
}

/// The frame for a pointer move already scaled by the pointer sensitivity.
pub fn pointer_motion(dx: i32, dy: i32) -> (r: Vec<Output>)
    ensures
        outputs_view(r@) == pointer_view(dx, dy),
{
    let mut events: Vec<PointerEvent> = Vec::new();
    if dx != 0 {
        events.push(PointerEvent::RelX(dx));
    }
    if dy != 0 {
        events.push(PointerEvent::RelY(dy));
    }
    let ghost expected = if dx != 0 && dy != 0 {
        seq![PointerEvent::RelX(dx), PointerEvent::RelY(dy)]
    } else if dx != 0 {
        seq![PointerEvent::RelX(dx)]
    } else if dy != 0 {
        seq![PointerEvent::RelY(dy)]
    } else {
        Seq::empty()
    };
    assert(events@ =~= expected);
    let mut r: Vec<Output> = Vec::new();
    if events.len() > 0 {
        r.push(Output::PointerFrame(events));
    }
    assert(outputs_view(r@) =~= pointer_view(dx, dy));
    r
}


/// The gesture driver: it turns trackpad events into outputs and motion work.
pub struct DriverState {
    settings: Settings,
    slots: Vec<SlotState>,
    current_slot: usize,
    tap_states: Vec<TapState>,
    locked_zone: Option<Zone>,
    prev_pos: Option<(i32, i32)>,
    detent_carry: i32,
    left_down: bool,
    right_down: bool,
    swipe_candidate: Option<SwipeCandidate>,
    swipe_blocked_until_lift: bool,
    swipe_consuming_sequence: bool,
}

impl View for DriverState {
    type V = DriverModel;

    closed spec fn view(&self) -> DriverModel {
        DriverModel {
            slots: self.slots@,
            current_slot: self.current_slot,
            taps: self.tap_states@,
            locked_zone: self.locked_zone,
            prev_pos: self.prev_pos,
            detent_carry: self.detent_carry,
            left_down: self.left_down,
            right_down: self.right_down,
            swipe_candidate: self.swipe_candidate,
            swipe_blocked_until_lift: self.swipe_blocked_until_lift,
            swipe_consuming_sequence: self.swipe_consuming_sequence,
        }
    }
}

impl DriverState {
    #[verifier::type_invariant]
    closed spec fn inv(self) -> bool {
        model_wf(self@)
    }

    /// The settings the driver was made with.
    pub closed spec fn settings(&self) -> Settings {
        self.settings
    }

    /// A driver for `config` in its initial state; `ring_limit` bounds the
    /// squared distance from the centre of the inner disc.
    pub fn new(config: &Config, ring_limit: u64) -> (d: DriverState)
        ensures
            d@ == initial_model(),
            d.settings().tap == config.tap,
            d.settings().tap_timeout_ms == config.tap_timeout_ms,
            d.settings().tap_move_threshold == config.tap_move_threshold,
            d.settings().ring_limit == ring_limit,
            d.settings().left_clockwise.0@ == config.button_gestures.left_clockwise.0@,
            d.settings().left_counterclockwise.0@
                == config.button_gestures.left_counterclockwise.0@,
            d.settings().right_clockwise.0@ == config.button_gestures.right_clockwise.0@,
            d.settings().right_counterclockwise.0@
                == config.button_gestures.right_counterclockwise.0@,
            d.settings().swipe_enabled == config.two_finger_swipe.enabled,
            d.settings().swipe_distance == config.two_finger_swipe.distance,
            d.settings().swipe_up.0@ == config.two_finger_swipe.up.0@,
    {
        let mut slots: Vec<SlotState> = Vec::new();
        let mut taps: Vec<TapState> = Vec::new();
        let mut i: usize = 0;
        while i < SLOT_COUNT
            invariant
                i <= SLOT_COUNT,
                slots@.len() == i,
                taps@.len() == i,
                forall|j: int| 0 <= j < i ==> #[trigger] slots@[j] == empty_slot(),
                forall|j: int| 0 <= j < i ==> #[trigger] taps@[j] == idle_tap(),
            decreases SLOT_COUNT - i,
        {
            slots.push(SlotState { tracking_id: -1, x: 0, y: 0 });
            taps.push(TapState::idle());
            i = i + 1;
        }
        let d = DriverState {
            settings: Settings::new(config, ring_limit),
            slots,
            current_slot: 0,
            tap_states: taps,
            locked_zone: None,
            prev_pos: None,
            detent_carry: 0,
            left_down: false,
            right_down: false,
            swipe_candidate: None,
            swipe_blocked_until_lift: false,
            swipe_consuming_sequence: false,
        };
        assert(d@.slots =~= initial_model().slots);
        assert(d@.taps =~= initial_model().taps);
        d
    }

    fn active_count(&self) -> (n: usize)
        ensures
            n == down_count(self@.slots),
    {
        proof {
            use_type_invariant(self);
        }
        let mut n: usize = 0;
        if self.slots[0].tracking_id != -1 {
            n = n + 1;
        }
        if self.slots[1].tracking_id != -1 {
            n = n + 1;
        }
        if self.slots[2].tracking_id != -1 {
            n = n + 1;
        }
        if self.slots[3].tracking_id != -1 {
            n = n + 1;
        }
        if self.slots[4].tracking_id != -1 {
            n = n + 1;
        }
        n
    }

    fn reset_motion_history(&mut self)
        ensures
            final(self)@ == reset_motion(old(self)@),
            final(self).settings() == old(self).settings(),
    {
        proof {
            use_type_invariant(&*self);
        }
        self.prev_pos = None;
        self.detent_carry = 0;
    }

    fn reset_swipe_sequence(&mut self)
        ensures
            final(self)@ == reset_swipe(old(self)@),
            final(self).settings() == old(self).settings(),
    {
        proof {
            use_type_invariant(&*self);
        }
        self.swipe_candidate = None;
        self.swipe_blocked_until_lift = false;
        self.swipe_consuming_sequence = false;
    }

    fn lift_outputs(&self, now: u64) -> (r: Vec<Output>)
        ensures
            outputs_view(r@) == lift_clicks(self.settings(), self@, now),
    {
        proof {
            use_type_invariant(self);
        }
        let timeout = self.settings.tap_timeout_ms;
        let slot0_valid = self.tap_states[0].valid(now, timeout) && match self.locked_zone {
            Some(Zone::Inner) => true,
            _ => false,
        };
        let slot1_valid = self.tap_states[1].valid(now, timeout);
        if !self.settings.tap {
            let r: Vec<Output> = Vec::new();
            assert(outputs_view(r@) =~= Seq::<OutputView>::empty());
            return r;
        }
        if self.current_slot == 0 {
            let slot1_down = self.slots[1].tracking_id != -1;
            if slot1_down && slot0_valid && slot1_valid {
                return click(PhysicalButton::Right);
            } else if slot0_valid && !slot1_down {
                return click(PhysicalButton::Left);
            }
        } else if self.current_slot == 1 {
            let slot0_down = self.slots[0].tracking_id != -1;
            if slot0_down && slot0_valid && slot1_valid {
                return click(PhysicalButton::Right);
            }
        }
        let r: Vec<Output> = Vec::new();
        assert(outputs_view(r@) =~= Seq::<OutputView>::empty());
        r
    }

    fn handle_tracking(&mut self, id: i32, now: u64) -> (r: (Vec<Output>, Motion))
        ensures
            (final(self)@, outputs_view(r.0@), r.1) == on_tracking(
                old(self).settings(),
                old(self)@,
                id,
                now,
            ),
            final(self).settings() == old(self).settings(),
    {
        proof {
            use_type_invariant(&*self);
        }
        let ghost m = self@;
        let cs = self.current_slot;
        if cs >= SLOT_COUNT {
            let r: Vec<Output> = Vec::new();
            assert(outputs_view(r@) =~= Seq::<OutputView>::empty());
            return (r, Motion::Keep);
        }
        let slot = self.slots[cs];
        self.slots[cs] = SlotState { tracking_id: id, x: slot.x, y: slot.y };
        if id != -1 {
            self.tap_states[cs] = TapState {
                start_time: Some(now),
                start_pos: None,
                moved: false,
                canceled: self.left_down || self.right_down,
            };
            let r: Vec<Output> = Vec::new();
            assert(outputs_view(r@) =~= Seq::<OutputView>::empty());
            return (r, Motion::Keep);
        }
        let outputs = self.lift_outputs(now);
        if cs == 1 && outputs.len() > 0 {
            self.tap_states[0] = TapState::idle();
        }
        self.tap_states[cs] = TapState::idle();
        let mut motion = Motion::Keep;
        if cs == 0 {
            self.locked_zone = None;
            self.tap_states[1] = TapState::idle();
            self.reset_motion_history();
            motion = Motion::ResetHistory;
        }
        if self.swipe_candidate.is_some() {
            self.swipe_candidate = None;
            self.swipe_blocked_until_lift = true;
            self.swipe_consuming_sequence = true;
            self.reset_motion_history();
            motion = Motion::ResetHistory;
        }
        if self.active_count() == 0 {
            self.reset_swipe_sequence();
        }
        (outputs, motion)
    }

    fn handle_button(&mut self, button: PhysicalButton, value: i32) -> (r: (Vec<Output>, Motion))
        ensures
            (final(self)@, outputs_view(r.0@), r.1) == on_button(
                old(self).settings(),
                old(self)@,
                button,
                value,
            ),
            final(self).settings() == old(self).settings(),
    {
        proof {
            use_type_invariant(&*self);
        }
        if button == PhysicalButton::Middle {
            return (single_frame(PointerEvent::Button(button, value)), Motion::Keep);
        }
        if value == 0 || value == 1 {
            let down = value == 1;
            if button == PhysicalButton::Left {
                self.left_down = down;
            } else {
                self.right_down = down;
            }
        }
        if !self.settings.tap {
            return (single_frame(PointerEvent::Button(button, value)), Motion::Keep);
        }
        let none: Vec<Output> = Vec::new();
        assert(outputs_view(none@) =~= Seq::<OutputView>::empty());
        if value != 0 && value != 1 {
            return (none, Motion::Keep);
        }
        self.detent_carry = 0;
        let mut motion = Motion::ResetAccumulators;
        if value == 1 {
            self.cancel_started_taps();
            if self.swipe_candidate.is_some() {
                self.swipe_candidate = None;
                self.swipe_blocked_until_lift = true;
                self.swipe_consuming_sequence = true;
                self.reset_motion_history();
                motion = Motion::ResetHistory;
            }
        }
        (none, motion)
    }

    fn cancel_started_taps(&mut self)
        ensures
            final(self)@ == (DriverModel { taps: cancel_started(old(self)@.taps), ..old(self)@ }),
            final(self).settings() == old(self).settings(),
    {
        proof {
            use_type_invariant(&*self);
        }
        let ghost before = self.tap_states@;
        let mut i: usize = 0;
        while i < SLOT_COUNT
            invariant
                i <= SLOT_COUNT,
                model_wf(self@),
                self@ == (DriverModel { taps: self@.taps, ..old(self)@ }),
                self.settings == old(self).settings,
                before == old(self)@.taps,
                before.len() == SLOT_COUNT,
                forall|j: int|
                    0 <= j < i ==> #[trigger] self.tap_states@[j] == cancel_started(before)[j],
                forall|j: int| i <= j < SLOT_COUNT ==> #[trigger] self.tap_states@[j] == before[j],
            decreases SLOT_COUNT - i,
        {
            let tap = self.tap_states[i];
            if tap.start_time.is_some() {
                self.tap_states[i] = TapState {
                    start_time: tap.start_time,
                    start_pos: tap.start_pos,
                    moved: tap.moved,
                    canceled: true,
                };
            }
            i = i + 1;
        }
        assert(self.tap_states@ =~= cancel_started(before));
    }

    fn cancel_pair_taps(&mut self)
        ensures
            final(self)@ == (DriverModel { taps: cancel_pair(old(self)@.taps), ..old(self)@ }),
            final(self).settings() == old(self).settings(),
    {
        proof {
            use_type_invariant(&*self);
        }
        let t0 = self.tap_states[0];
        self.tap_states[0] = TapState {
            start_time: t0.start_time,
            start_pos: t0.start_pos,
            moved: t0.moved,
            canceled: true,
        };
        let t1 = self.tap_states[1];
        self.tap_states[1] = TapState {
            start_time: t1.start_time,
            start_pos: t1.start_pos,
            moved: t1.moved,
            canceled: true,
        };
    }

    fn update_tap(&mut self, index: usize)
        requires
            index < 2,
        ensures
            final(self)@ == (DriverModel {
                taps: old(self)@.taps.update(
                    index as int,
                    tap_after_motion(
                        old(self).settings(),
                        old(self)@.slots[index as int],
                        old(self)@.taps[index as int],
                    ),
                ),
                ..old(self)@
            }),
            final(self).settings() == old(self).settings(),
    {
        proof {
            use_type_invariant(&*self);
        }
        let slot = self.slots[index];
        if slot.tracking_id == -1 {
            assert(self@.taps =~= self@.taps.update(index as int, self@.taps[index as int]));
            return;
        }
        let mut tap = self.tap_states[index];
        if tap.start_time.is_some() && tap.start_pos.is_none() {
            tap.start_pos = Some((slot.x, slot.y));
        }
        if let Some((start_x, start_y)) = tap.start_pos {
            let ddx: i64 = slot.x as i64 - start_x as i64;
            let ddy: i64 = slot.y as i64 - start_y as i64;
            let adx: i64 = if ddx >= 0 {
                ddx
            } else {
                -ddx
            };
            let ady: i64 = if ddy >= 0 {
                ddy
            } else {
                -ddy
            };
            let threshold = self.settings.tap_move_threshold as i64;
            if adx > threshold || ady > threshold {
                tap.moved = true;
            }
        }
        self.tap_states[index] = tap;
    }

    fn update_swipe_state(&mut self, count: usize)
        requires
            count == down_count(old(self)@.slots),
        ensures
            final(self)@ == update_swipe(old(self).settings(), old(self)@, count as int),
            final(self).settings() == old(self).settings(),
    {
        proof {
            use_type_invariant(&*self);
        }
        if !self.settings.swipe_enabled {
            return;
        }
        if count > 2 {
            if self.swipe_candidate.is_some() {
                self.swipe_candidate = None;
                self.swipe_consuming_sequence = true;
                self.cancel_pair_taps();
            }
            self.swipe_blocked_until_lift = true;
            return;
        }
        if self.swipe_blocked_until_lift {
            return;
        }
        let s0 = self.slots[0];
        let s1 = self.slots[1];
        if count != 2 || s0.tracking_id == -1 || s1.tracking_id == -1 {
            return;
        }
        if self.left_down || self.right_down {
            self.swipe_blocked_until_lift = true;
            return;
        }
        if self.swipe_candidate.is_some() {
            return;
        }
        let zone0 = match self.locked_zone {
            Some(z) => z,
            None => Zone::Inner,
        };
        let zone1 = classify(self.settings.ring_limit, s1.x, s1.y);
        self.swipe_blocked_until_lift = true;
        if zone0 == Zone::Inner && zone1 == Zone::Inner {
            self.swipe_candidate = Some(
                SwipeCandidate { start0: (s0.x, s0.y), start1: (s1.x, s1.y), triggered: false },
            );
            self.swipe_consuming_sequence = true;
        }
    }

    fn ring_mode_exec(&self) -> (mode: RingMode)
        ensures
            mode == ring_mode(self.settings(), self@),
    {
        if !self.settings.tap {
            RingMode::Scroll
        } else if self.left_down && !self.right_down {
            RingMode::Gesture(PhysicalButton::Left)
        } else if !self.left_down && self.right_down {
            RingMode::Gesture(PhysicalButton::Right)
        } else if !(self.left_down && self.right_down) {
            RingMode::Scroll
        } else {
            RingMode::Idle
        }
    }

    fn consume_swipe_frame(&mut self) -> (r: (Vec<Output>, Motion))
        ensures
            (final(self)@, outputs_view(r.0@), r.1) == consume_swipe(old(self).settings(), old(self)@),
            final(self).settings() == old(self).settings(),
    {
        proof {
            use_type_invariant(&*self);
        }
        let none: Vec<Output> = Vec::new();
        assert(outputs_view(none@) =~= Seq::<OutputView>::empty());
        let s0 = self.slots[0];
        let s1 = self.slots[1];
        self.reset_motion_history();
        if let Some(c) = self.swipe_candidate {
            if !c.triggered && swipe_triggered(
                c.start0,
                c.start1,
                (s0.x, s0.y),
                (s1.x, s1.y),
                self.settings.swipe_distance,
            ) {
                self.swipe_candidate = Some(
                    SwipeCandidate { start0: c.start0, start1: c.start1, triggered: true },
                );
                self.cancel_pair_taps();
                let mut out: Vec<Output> = Vec::new();
                out.push(Output::Shortcut(self.settings.swipe_up.duplicate()));
                assert(outputs_view(out@) =~= seq![
                    OutputView::Shortcut(self.settings.swipe_up.0@),
                ]);
                return (out, Motion::ResetHistory);
            }
        }
        (none, Motion::ResetHistory)
    }

    fn follow_primary_frame(&mut self) -> (r: (Vec<Output>, Motion))
        ensures
            (final(self)@, outputs_view(r.0@), r.1) == follow_primary(old(self).settings(), old(self)@),
            final(self).settings() == old(self).settings(),
    {
        proof {
            use_type_invariant(&*self);
        }
        let none: Vec<Output> = Vec::new();
        assert(outputs_view(none@) =~= Seq::<OutputView>::empty());
        let s0 = self.slots[0];
        if s0.tracking_id == -1 {
            return (none, Motion::Keep);
        }
        let zone = match self.locked_zone {
            Some(z) => z,
            None => classify(self.settings.ring_limit, s0.x, s0.y),
        };
        self.locked_zone = Some(zone);
        match zone {
            Zone::Ring => {
                let mode = self.ring_mode_exec();
                (none, Motion::Ring { x: s0.x, y: s0.y, mode })
            },
            Zone::Inner => {
                let motion = match self.prev_pos {
                    Some((px, py)) => Motion::Pointer {
                        dx: s0.x as i64 - px as i64,
                        dy: s0.y as i64 - py as i64,
                    },
                    None => Motion::Keep,
                };
                self.prev_pos = Some((s0.x, s0.y));
                (none, motion)
            },
        }
    }

    fn handle_frame(&mut self, now: u64) -> (r: (Vec<Output>, Motion))
        ensures
            (final(self)@, outputs_view(r.0@), r.1) == on_frame(
                old(self).settings(),
                old(self)@,
                now,
            ),
            final(self).settings() == old(self).settings(),
    {
        proof {
            use_type_invariant(&*self);
        }
        self.update_tap(0);
        self.update_tap(1);
        let count = self.active_count();
        if count == 0 {
            self.reset_swipe_sequence();
            let none: Vec<Output> = Vec::new();
            assert(outputs_view(none@) =~= Seq::<OutputView>::empty());
            return (none, Motion::Keep);
        }
        let s0 = self.slots[0];
        if self.locked_zone.is_none() && s0.tracking_id != -1 {
            self.locked_zone = Some(classify(self.settings.ring_limit, s0.x, s0.y));
        }
        self.update_swipe_state(count);
        if self.swipe_consuming_sequence {
            self.consume_swipe_frame()
        } else {
            self.follow_primary_frame()
        }
    }

    /// Feeds one trackpad event to the driver, with the time in nanoseconds.
    pub fn process(&mut self, event: Event, now: u64) -> (r: Response)
        ensures
            (final(self)@, outputs_view(r.outputs@), r.motion) == step(
                old(self).settings(),
                old(self)@,
                event,
                now,
            ),
            final(self).settings() == old(self).settings(),
            model_wf(final(self)@),
    {
        proof {
            use_type_invariant(&*self);
        }
        let none: Vec<Output> = Vec::new();
        assert(outputs_view(none@) =~= Seq::<OutputView>::empty());
        let (outputs, motion) = match event {
            Event::SelectSlot(slot) => {
                self.current_slot = slot;
                (none, Motion::Keep)
            },
            Event::TrackingId(id) => self.handle_tracking(id, now),
            Event::PositionX(x) => {
                let cs = self.current_slot;
                if cs < SLOT_COUNT {
                    let slot = self.slots[cs];
                    self.slots[cs] = SlotState { tracking_id: slot.tracking_id, x, y: slot.y };
                }
                (none, Motion::Keep)
            },
            Event::PositionY(y) => {
                let cs = self.current_slot;
                if cs < SLOT_COUNT {
                    let slot = self.slots[cs];
                    self.slots[cs] = SlotState { tracking_id: slot.tracking_id, x: slot.x, y };
                }
                (none, Motion::Keep)
            },
            Event::Button(button, value) => self.handle_button(button, value),
            Event::Frame => self.handle_frame(now),
        };
        proof {
            use_type_invariant(&*self);
        }
        Response { outputs, motion }
    }

    /// The shortcut for one step of ring rotation while `button` is held.
    pub fn ring_turn(&self, button: PhysicalButton, clockwise: bool) -> (o: Output)
        requires
            button != PhysicalButton::Middle,
        ensures
            output_view(o) == OutputView::Shortcut(turn_keys(self.settings(), button, clockwise)),
            button == PhysicalButton::Left && clockwise ==> output_view(o) == OutputView::Shortcut(
                self.settings().left_clockwise.0@,
            ),
            button == PhysicalButton::Left && !clockwise ==> output_view(o) == OutputView::Shortcut(
                self.settings().left_counterclockwise.0@,
            ),
            button == PhysicalButton::Right && clockwise ==> output_view(o) == OutputView::Shortcut(
                self.settings().right_clockwise.0@,
            ),
            button == PhysicalButton::Right && !clockwise ==> output_view(o)
                == OutputView::Shortcut(self.settings().right_counterclockwise.0@),
    {
        let shortcut = if button == PhysicalButton::Left {
            if clockwise {
                self.settings.left_clockwise.duplicate()
            } else {
                self.settings.left_counterclockwise.duplicate()
            }
        } else {
            if clockwise {
                self.settings.right_clockwise.duplicate()
            } else {
                self.settings.right_counterclockwise.duplicate()
            }
        };
        Output::Shortcut(shortcut)
    }

    /// Emits `hires` high-resolution scroll units, with a whole detent for every
    /// 120 units gathered.
    pub fn scroll(&mut self, hires: i32) -> (r: Vec<Output>)
        ensures
            final(self)@ == (DriverModel {
                detent_carry: scroll_step(old(self)@.detent_carry, hires).0 as i32,
                ..old(self)@
            }),
            scroll_step(old(self)@.detent_carry, hires).0 == final(self)@.detent_carry,
            outputs_view(r@) == scroll_step(old(self)@.detent_carry, hires).1,
            final(self).settings() == old(self).settings(),
            model_wf(final(self)@),
    {
        proof {
            use_type_invariant(&*self);
        }
        if hires == 0 {
            let r: Vec<Output> = Vec::new();
            assert(outputs_view(r@) =~= Seq::<OutputView>::empty());
            return r;
        }
        let ghost old_carry = self.detent_carry;
        let total: i64 = self.detent_carry as i64 + hires as i64;
        let detents: i64 = trunc_div_i64(total, 120);
        proof {
            lemma_trunc_div_120(total as int);
        }
        let rest: i64 = total - detents * 120;
        let mut events: Vec<PointerEvent> = Vec::new();
        events.push(PointerEvent::WheelHiRes(hires));
        if detents != 0 {
            events.push(PointerEvent::Wheel(detents as i32));
        }
        assert(events@ =~= (if detents != 0 {
            seq![PointerEvent::WheelHiRes(hires), PointerEvent::Wheel(detents as i32)]
        } else {
            seq![PointerEvent::WheelHiRes(hires)]
        }));
        self.detent_carry = rest as i32;
        let mut r: Vec<Output> = Vec::new();
        r.push(Output::PointerFrame(events));
        assert(outputs_view(r@) =~= scroll_step(old_carry, hires).1);
        r
    }
}

} // verus!
