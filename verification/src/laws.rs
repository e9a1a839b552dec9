//! Properties of the driver and of configuration resolution that hold for every
//! input, stated over the models that the executable functions' contracts use.
use crate::config::{
    config_matches, path_join, spec_config_path, Config,
    evdev_key_code, has_key_prefix, key_issue, parse_keys, resolved_device,
    resolved_invert_scroll, resolved_left_clockwise, resolved_swipe_distance,
    resolved_swipe_enabled, resolved_swipe_up, resolved_tap, resolved_tap_move_threshold,
    resolved_tap_timeout_ms, settings_error, spec_parse_shortcut, Cli, FileConfig, FloatChecks,
};
use crate::gestures::{
    click_view, down_count, initial_model, is_down, lock_zone, model_wf, ring_mode, scroll_step,
    single_frame_view, step, update_taps, zone_of, update_swipe, trunc_div, abs, swipe_is_triggered, TapState, pointer_view, DriverModel, Event, Motion, OutputView,
    PhysicalButton, PointerEvent, RingMode, Settings, Zone, SLOT_COUNT,
};
use vstd::prelude::*;

verus! {

/// Every event keeps a well-formed state well-formed.
pub proof fn step_keeps_wf(st: Settings, m: DriverModel, event: Event, now: u64)
    requires
        model_wf(m),
    ensures
        model_wf(step(st, m, event, now).0),
{
}

/// The middle button always passes through unchanged and changes nothing.
pub proof fn middle_button_passes_through(st: Settings, m: DriverModel, value: i32, now: u64)
    ensures
        step(st, m, Event::Button(PhysicalButton::Middle, value), now) == (
            m,
            single_frame_view(PointerEvent::Button(PhysicalButton::Middle, value)),
            Motion::Keep,
        ),
{
}

/// With tap-to-click off, every physical button passes through unchanged.
pub proof fn buttons_pass_through_without_taps(
    st: Settings,
    m: DriverModel,
    button: PhysicalButton,
    value: i32,
    now: u64,
)
    requires
        !st.tap,
    ensures
        step(st, m, Event::Button(button, value), now).1 == single_frame_view(
            PointerEvent::Button(button, value),
        ),
        step(st, m, Event::Button(button, value), now).2 == Motion::Keep,
{
}

/// With tap-to-click on, the left and right buttons are never passed through:
/// they only select what ring motion does.
pub proof fn buttons_are_modifiers_with_taps(
    st: Settings,
    m: DriverModel,
    button: PhysicalButton,
    value: i32,
    now: u64,
)
    requires
        st.tap,
        button != PhysicalButton::Middle,
    ensures
        step(st, m, Event::Button(button, value), now).1 == Seq::<OutputView>::empty(),
{
}

/// With tap-to-click off, a physical button never turns ring motion into
/// shortcuts, and lifting a finger never clicks.
pub proof fn no_taps_no_gestures_no_clicks(st: Settings, m: DriverModel, event: Event, now: u64)
    requires
        !st.tap,
    ensures
        !(step(st, m, event, now).2 matches Motion::Ring { mode: RingMode::Gesture(_), .. }),
        event is TrackingId ==> step(st, m, event, now).1 == Seq::<OutputView>::empty(),
{
}

/// While both buttons are held (with taps on), ring motion neither scrolls nor
/// sends shortcuts.
pub proof fn both_buttons_suppress_ring(st: Settings, m: DriverModel, now: u64)
    requires
        st.tap,
        m.left_down,
        m.right_down,
        model_wf(m),
    ensures
        step(st, m, Event::Frame, now).2 matches Motion::Ring { mode, .. } ==> mode
            == RingMode::Idle,
{
}

/// A held button selects its own shortcuts for ring motion.
pub proof fn held_button_selects_ring_gesture(st: Settings, m: DriverModel)
    requires
        st.tap,
    ensures
        m.left_down && !m.right_down ==> ring_mode(st, m) == RingMode::Gesture(
            PhysicalButton::Left,
        ),
        !m.left_down && m.right_down ==> ring_mode(st, m) == RingMode::Gesture(
            PhysicalButton::Right,
        ),
        !m.left_down && !m.right_down ==> ring_mode(st, m) == RingMode::Scroll,
{
}

/// Lifting a finger emits nothing, a left click, or a right click: each click
/// is a press followed by a release.
pub proof fn lifts_emit_whole_clicks(st: Settings, m: DriverModel, id: i32, now: u64)
    ensures
        ({
            let out = step(st, m, Event::TrackingId(id), now).1;
            ||| out == Seq::<OutputView>::empty()
            ||| out == click_view(PhysicalButton::Left)
            ||| out == click_view(PhysicalButton::Right)
        }),
{
}

/// A lift clicks only when the primary tap is still valid: started, unmoved,
/// not canceled, within the timeout, and begun in the inner disc.
pub proof fn clicks_need_valid_primary_tap(st: Settings, m: DriverModel, now: u64)
    requires
        model_wf(m),
        step(st, m, Event::TrackingId(-1i32), now).1.len() > 0,
    ensures
        st.tap,
        m.taps[0].spec_valid(now, st.tap_timeout_ms),
        m.locked_zone == Some(Zone::Inner),
{
}

/// A frame emits at most the swipe shortcut, and only when it triggers the
/// swipe candidate, which afterwards stays triggered and has canceled both taps.
pub proof fn frames_emit_only_the_swipe_once(st: Settings, m: DriverModel, now: u64)
    requires
        model_wf(m),
    ensures
        ({
            let (m2, out, _) = step(st, m, Event::Frame, now);
            out.len() > 0 ==> {
                &&& out == seq![OutputView::Shortcut(st.swipe_up.0@)]
                &&& m2.swipe_candidate matches Some(c) && c.triggered
                &&& !(m.swipe_candidate matches Some(c0) && c0.triggered)
                &&& m2.taps[0].canceled && m2.taps[1].canceled
            }
        }),
{
}

/// Once the swipe has fired, later frames emit nothing.
pub proof fn triggered_swipe_stays_silent(st: Settings, m: DriverModel, now: u64)
    requires
        model_wf(m),
        m.swipe_candidate matches Some(c) && c.triggered,
    ensures
        step(st, m, Event::Frame, now).1 == Seq::<OutputView>::empty(),
{
}

/// Lifting a finger while both primary taps are canceled (as a fired swipe
/// leaves them) emits no click.
pub proof fn canceled_taps_do_not_click(st: Settings, m: DriverModel, now: u64)
    requires
        model_wf(m),
        m.taps[0].canceled,
        m.taps[1].canceled,
    ensures
        step(st, m, Event::TrackingId(-1i32), now).1 == Seq::<OutputView>::empty(),
{
}

/// A frame arms a swipe only for exactly two fingers that both started in the
/// inner disc, with no button held and swipes enabled.
pub proof fn swipe_arms_only_for_two_inner_fingers(st: Settings, m: DriverModel, now: u64)
    requires
        model_wf(m),
        m.swipe_candidate is None,
        step(st, m, Event::Frame, now).0.swipe_candidate is Some,
    ensures
        st.swipe_enabled,
        !m.left_down && !m.right_down,
        down_count(m.slots) == 2,
        is_down(m.slots[0]) && is_down(m.slots[1]),
        zone_of(st.ring_limit, m.slots[1].x, m.slots[1].y) == Zone::Inner,
        lock_zone(st, update_taps(st, m)).locked_zone is None || lock_zone(
            st,
            update_taps(st, m),
        ).locked_zone == Some(Zone::Inner),
        !m.swipe_blocked_until_lift,
{
}

/// A third finger drops the swipe candidate and blocks swipes until all lift.
pub proof fn third_finger_cancels_swipe(st: Settings, m: DriverModel, now: u64)
    requires
        model_wf(m),
        st.swipe_enabled,
        down_count(m.slots) > 2,
    ensures
        step(st, m, Event::Frame, now).0.swipe_candidate is None,
        step(st, m, Event::Frame, now).0.swipe_blocked_until_lift,
        step(st, m, Event::Frame, now).1 == Seq::<OutputView>::empty(),
{
}

/// Once blocked, no swipe is armed until every finger has lifted.
pub proof fn blocked_swipe_stays_blocked(st: Settings, m: DriverModel, event: Event, now: u64)
    requires
        model_wf(m),
        m.swipe_blocked_until_lift,
        m.swipe_candidate is None,
    ensures
        step(st, m, event, now).0.swipe_candidate is None,
        !step(st, m, event, now).0.swipe_blocked_until_lift ==> down_count(
            step(st, m, event, now).0.slots,
        ) == 0,
{
}

/// Pressing a button while two fingers are down blocks the swipe for the rest
/// of the sequence.
pub proof fn button_blocks_swipe(st: Settings, m: DriverModel, now: u64)
    requires
        model_wf(m),
        st.swipe_enabled,
        m.left_down || m.right_down,
        m.swipe_candidate is None,
        down_count(m.slots) == 2,
        is_down(m.slots[0]),
        is_down(m.slots[1]),
    ensures
        step(st, m, Event::Frame, now).0.swipe_candidate is None,
        step(st, m, Event::Frame, now).0.swipe_blocked_until_lift,
{
}

/// Scrolling loses no units: what enters (carry and new units) equals what
/// leaves (whole detents of 120 units) plus the new carry, which stays below a
/// detent in size and has the sign of the total.
pub proof fn scrolling_conserves_units(carry: i32, hires: i32)
    requires
        -120 < carry < 120,
    ensures
        ({
            let (rest, out) = scroll_step(carry, hires);
            &&& -120 < rest < 120
            &&& hires == 0 ==> rest == carry && out.len() == 0
            &&& hires != 0 ==> out.len() == 1 && (out[0] matches OutputView::PointerFrame(events)
                && events[0] == PointerEvent::WheelHiRes(hires) && (if events.len() == 2 {
                events[1] matches PointerEvent::Wheel(d) && carry + hires == rest + 120 * d
            } else {
                events.len() == 1 && carry + hires == rest
            }))
        }),
{
    if hires != 0 {
        crate::gestures::lemma_trunc_div_120(carry + hires);
    }
}

/// Selecting an out-of-range slot makes touches in it change nothing.
pub proof fn out_of_range_slot_is_ignored(st: Settings, m: DriverModel, event: Event, now: u64)
    requires
        m.current_slot >= SLOT_COUNT,
        event is TrackingId || event is PositionX || event is PositionY,
    ensures
        step(st, m, event, now) == (m, Seq::<OutputView>::empty(), Motion::Keep),
{
}

/// A successful shortcut holds one distinct code per name, each the code evdev
/// gives that `KEY_*` name, in order.
pub proof fn parsed_shortcut_matches_names(field: Seq<char>, names: Seq<Seq<char>>)
    requires
        spec_parse_shortcut(field, names) is Ok,
    ensures
        ({
            let codes = spec_parse_shortcut(field, names)->Ok_0;
            &&& names.len() > 0
            &&& codes.len() == names.len()
            &&& codes.no_duplicates()
            &&& forall|i: int|
                0 <= i < names.len() ==> has_key_prefix(#[trigger] names[i]) && evdev_key_code(
                    names[i],
                ) == Some(codes[i])
        }),
{
    lemma_parse_keys_ok(field, names);
}

proof fn lemma_parse_keys_ok(field: Seq<char>, names: Seq<Seq<char>>)
    requires
        parse_keys(field, names) is Ok,
    ensures
        ({
            let codes = parse_keys(field, names)->Ok_0;
            &&& codes.len() == names.len()
            &&& codes.no_duplicates()
            &&& forall|i: int|
                0 <= i < names.len() ==> has_key_prefix(#[trigger] names[i]) && evdev_key_code(
                    names[i],
                ) == Some(codes[i])
        }),
    decreases names.len(),
{
    if names.len() > 0 {
        let prefix = names.drop_last();
        lemma_parse_keys_ok(field, prefix);
        let codes = parse_keys(field, prefix)->Ok_0;
        let code = evdev_key_code(names.last()).unwrap();
        assert(key_issue(field, names.last(), codes) is None);
        assert(!codes.contains(code));
        let all = codes.push(code);
        assert forall|i: int|
            0 <= i < names.len() implies has_key_prefix(#[trigger] names[i]) && evdev_key_code(
                names[i],
            ) == Some(all[i]) by {
            if i < names.len() - 1 {
                assert(names[i] == prefix[i]);
            }
        }
        assert forall|i: int, j: int|
            0 <= i < all.len() && 0 <= j < all.len() && i != j implies all[i] != all[j] by {
            if i == all.len() - 1 {
                assert(codes[j] == all[j]);
            } else if j == all.len() - 1 {
                assert(codes[i] == all[i]);
            }
        }
    }
}

/// Every list of known, distinct `KEY_*` names is accepted.
pub proof fn valid_names_are_accepted(field: Seq<char>, names: Seq<Seq<char>>)
    requires
        names.len() > 0,
        forall|i: int|
            0 <= i < names.len() ==> has_key_prefix(#[trigger] names[i]) && evdev_key_code(
                names[i],
            ) is Some,
        forall|i: int, j: int|
            0 <= i < names.len() && 0 <= j < names.len() && i != j ==> evdev_key_code(
                #[trigger] names[i],
            ) != evdev_key_code(#[trigger] names[j]),
    ensures
        spec_parse_shortcut(field, names) is Ok,
{
    lemma_valid_names_parse(field, names);
}

proof fn lemma_valid_names_parse(field: Seq<char>, names: Seq<Seq<char>>)
    requires
        forall|i: int|
            0 <= i < names.len() ==> has_key_prefix(#[trigger] names[i]) && evdev_key_code(
                names[i],
            ) is Some,
        forall|i: int, j: int|
            0 <= i < names.len() && 0 <= j < names.len() && i != j ==> evdev_key_code(
                #[trigger] names[i],
            ) != evdev_key_code(#[trigger] names[j]),
    ensures
        parse_keys(field, names) is Ok,
    decreases names.len(),
{
    if names.len() > 0 {
        let prefix = names.drop_last();
        assert forall|i: int| 0 <= i < prefix.len() implies has_key_prefix(#[trigger] prefix[i])
            && evdev_key_code(prefix[i]) is Some by {
            assert(prefix[i] == names[i]);
        }
        assert forall|i: int, j: int|
            0 <= i < prefix.len() && 0 <= j < prefix.len() && i != j implies evdev_key_code(
            #[trigger] prefix[i],
        ) != evdev_key_code(#[trigger] prefix[j]) by {
            assert(prefix[i] == names[i]);
            assert(prefix[j] == names[j]);
        }
        lemma_valid_names_parse(field, prefix);
        lemma_parse_keys_ok(field, prefix);
        let codes = parse_keys(field, prefix)->Ok_0;
        let last = names.last();
        assert(has_key_prefix(names[names.len() - 1]));
        if codes.contains(evdev_key_code(last).unwrap()) {
            let k = choose|k: int| 0 <= k < codes.len() && codes[k] == evdev_key_code(last).unwrap();
            assert(prefix[k] == names[k]);
            assert(evdev_key_code(names[k]) == evdev_key_code(names[names.len() - 1]));
        }
    }
}

/// The command line overrides the file, and the file the built-in defaults.
pub proof fn command_line_overrides_file(cli: Cli, file: FileConfig)
    ensures
        resolved_tap_timeout_ms(cli, file) == (match cli.tap_timeout {
            Some(v) => v,
            None => match file.tap_timeout_ms {
                Some(v) => v,
                None => 180u64,
            },
        }),
        resolved_tap_move_threshold(cli, file) == (match cli.tap_move_threshold {
            Some(v) => v,
            None => match file.tap_move_threshold {
                Some(v) => v,
                None => 20i32,
            },
        }),
        cli.invert_scroll ==> resolved_invert_scroll(cli, file),
        !cli.invert_scroll && cli.no_invert_scroll ==> !resolved_invert_scroll(cli, file),
        !cli.invert_scroll && !cli.no_invert_scroll ==> resolved_invert_scroll(cli, file) == (
        match file.invert_scroll {
            Some(v) => v,
            None => false,
        }),
        cli.tap ==> resolved_tap(cli, file),
        !cli.tap && cli.no_tap ==> !resolved_tap(cli, file),
        !cli.tap && !cli.no_tap ==> resolved_tap(cli, file) == (match file.tap {
            Some(v) => v,
            None => true,
        }),
        cli.device matches Some(d) ==> resolved_device(cli, file) == Some(d@),
{
}

/// Without a file and without command-line options the built-in defaults hold,
/// and they pass every scalar rule.
pub proof fn missing_file_uses_defaults(cli: Cli, file: FileConfig, floats: FloatChecks)
    requires
        file.spec_empty(),
        !cli.spec_has_daemon_overrides(),
        floats.pointer_ok && floats.scroll_ok && floats.ring_ok && floats.step_degrees_ok,
    ensures
        resolved_tap_timeout_ms(cli, file) == 180,
        resolved_tap_move_threshold(cli, file) == 20,
        !resolved_invert_scroll(cli, file),
        resolved_tap(cli, file),
        resolved_swipe_enabled(file),
        resolved_swipe_distance(file) == 80,
        resolved_device(cli, file) is None,
        settings_error(cli, file, floats) is None,
        resolved_left_clockwise(file) == seq!["KEY_LEFTALT"@, "KEY_ESC"@],
        resolved_swipe_up(file) == seq!["KEY_LEFTMETA"@],
{
}

/// The swipe distance must exceed the tap movement threshold.
pub proof fn swipe_distance_exceeds_tap_threshold(cli: Cli, file: FileConfig, floats: FloatChecks)
    requires
        settings_error(cli, file, floats) is None,
    ensures
        resolved_swipe_distance(file) > resolved_tap_move_threshold(cli, file),
        resolved_tap_move_threshold(cli, file) >= 0,
        resolved_tap_timeout_ms(cli, file) > 0,
{
}


/// The initial state is well-formed and has nothing down or pending.
pub proof fn initial_state_is_quiet()
    ensures
        model_wf(initial_model()),
        down_count(initial_model().slots) == 0,
        initial_model().swipe_candidate is None,
        !initial_model().left_down && !initial_model().right_down,
{
}

/// The swipe of the current touch sequence has fired (or was dropped after
/// arming): its candidate is triggered, or gone with swipes blocked.
pub open spec fn swipe_spent(m: DriverModel) -> bool {
    ||| m.swipe_candidate matches Some(c) && c.triggered
    ||| m.swipe_candidate is None && m.swipe_blocked_until_lift
}

/// The state and all outputs after a sequence of timed events.
pub open spec fn run(st: Settings, m: DriverModel, events: Seq<(Event, u64)>) -> (
    DriverModel,
    Seq<OutputView>,
)
    decreases events.len(),
{
    if events.len() == 0 {
        (m, Seq::empty())
    } else {
        let (m1, out1) = run(st, m, events.drop_last());
        let (m2, out2, _) = step(st, m1, events.last().0, events.last().1);
        (m2, out1 + out2)
    }
}

/// No output is a shortcut.
pub open spec fn no_shortcut(out: Seq<OutputView>) -> bool {
    forall|i: int| 0 <= i < out.len() ==> !(#[trigger] out[i] is Shortcut)
}

/// A spent swipe stays spent until every finger has lifted, and meanwhile no
/// event emits a shortcut.
pub proof fn spent_swipe_step(st: Settings, m: DriverModel, event: Event, now: u64)
    requires
        model_wf(m),
        swipe_spent(m),
    ensures
        swipe_spent(step(st, m, event, now).0) || down_count(step(st, m, event, now).0.slots) == 0,
        no_shortcut(step(st, m, event, now).1),
{
    let out = step(st, m, event, now).1;
    if event is TrackingId {
        lifts_emit_whole_clicks(st, m, event->TrackingId_0, now);
        assert(no_shortcut(click_view(PhysicalButton::Left)));
        assert(no_shortcut(click_view(PhysicalButton::Right)));
    }
    if event is Button {
        assert(no_shortcut(single_frame_view(PointerEvent::Button(event->Button_0, event->Button_1))));
    }
}

/// The two-finger swipe sends its shortcut at most once per touch sequence:
/// once spent, no later event sends a shortcut while any finger stays down.
pub proof fn swipe_fires_once_per_sequence(st: Settings, m: DriverModel, events: Seq<(Event, u64)>)
    requires
        model_wf(m),
        swipe_spent(m),
        forall|k: int| 0 < k <= events.len() ==> down_count(#[trigger] run(st, m, events.take(k)).0.slots) > 0,
    ensures
        no_shortcut(run(st, m, events).1),
        swipe_spent(run(st, m, events).0),
        model_wf(run(st, m, events).0),
    decreases events.len(),
{
    if events.len() > 0 {
        let prefix = events.drop_last();
        assert forall|k: int| 0 < k <= prefix.len() implies down_count(
            #[trigger] run(st, m, prefix.take(k)).0.slots,
        ) > 0 by {
            assert(prefix.take(k) =~= events.take(k));
        }
        swipe_fires_once_per_sequence(st, m, prefix);
        let (m1, out1) = run(st, m, prefix);
        step_keeps_wf(st, m1, events.last().0, events.last().1);
        spent_swipe_step(st, m1, events.last().0, events.last().1);
        assert(events.take(events.len() as int) =~= events);
        let out2 = step(st, m1, events.last().0, events.last().1).1;
        assert forall|i: int| 0 <= i < (out1 + out2).len() implies !(#[trigger] (out1
            + out2)[i] is Shortcut) by {
            if i < out1.len() {
                assert((out1 + out2)[i] == out1[i]);
            } else {
                assert((out1 + out2)[i] == out2[i - out1.len()]);
            }
        }
    }
}


/// A tap clicks at most once: after a lift that clicks (a left click, or the
/// right click of a two-finger tap), selecting any slot and lifting again, at
/// any time, emits nothing.
pub proof fn a_tap_clicks_once(
    st: Settings,
    m: DriverModel,
    now: u64,
    slot: usize,
    later: u64,
    last: u64,
)
    requires
        model_wf(m),
        step(st, m, Event::TrackingId(-1i32), now).1.len() > 0,
    ensures
        ({
            let m2 = step(st, m, Event::TrackingId(-1i32), now).0;
            let m3 = step(st, m2, Event::SelectSlot(slot), later).0;
            step(st, m3, Event::TrackingId(-1i32), last).1 == Seq::<OutputView>::empty()
        }),
{
}

/// The clicks a lift owes: a lone valid tap in the inner disc gives a left click;
/// two valid taps give a right click, whichever finger lifts first.
pub proof fn valid_taps_click(st: Settings, m: DriverModel, now: u64)
    requires
        model_wf(m),
        st.tap,
        m.locked_zone == Some(Zone::Inner),
        m.taps[0].spec_valid(now, st.tap_timeout_ms),
    ensures
        m.current_slot == 0 && !is_down(m.slots[1]) ==> step(
            st,
            m,
            Event::TrackingId(-1i32),
            now,
        ).1 == click_view(PhysicalButton::Left),
        m.current_slot == 0 && is_down(m.slots[1]) && m.taps[1].spec_valid(now, st.tap_timeout_ms)
            ==> step(st, m, Event::TrackingId(-1i32), now).1 == click_view(PhysicalButton::Right),
        m.current_slot == 1 && is_down(m.slots[0]) && m.taps[1].spec_valid(now, st.tap_timeout_ms)
            ==> step(st, m, Event::TrackingId(-1i32), now).1 == click_view(PhysicalButton::Right),
{
}

/// A landing finger records its id and starts a tap at that time, canceled
/// exactly when a physical button is held.
pub proof fn landing_starts_a_tap(st: Settings, m: DriverModel, id: i32, now: u64)
    requires
        model_wf(m),
        id != -1,
        m.current_slot < SLOT_COUNT,
    ensures
        ({
            let m2 = step(st, m, Event::TrackingId(id), now).0;
            let cs = m.current_slot as int;
            &&& m2.slots[cs].tracking_id == id
            &&& m2.taps[cs].start_time == Some(now)
            &&& !m2.taps[cs].moved
            &&& m2.taps[cs].canceled == (m.left_down || m.right_down)
            &&& step(st, m, Event::TrackingId(id), now).1 == Seq::<OutputView>::empty()
        }),
{
}

/// Position events move only the selected slot.
pub proof fn positions_move_the_selected_slot(st: Settings, m: DriverModel, v: i32, now: u64)
    requires
        model_wf(m),
        m.current_slot < SLOT_COUNT,
    ensures
        step(st, m, Event::PositionX(v), now).0.slots[m.current_slot as int].x == v,
        step(st, m, Event::PositionY(v), now).0.slots[m.current_slot as int].y == v,
        forall|i: int|
            0 <= i < SLOT_COUNT && i != m.current_slot ==> step(st, m, Event::PositionX(v), now).0.slots[i]
                == m.slots[i] && step(st, m, Event::PositionY(v), now).0.slots[i] == m.slots[i],
{
}

/// A press marks its button held, a release marks it free, other values leave it.
pub proof fn buttons_track_their_state(st: Settings, m: DriverModel, value: i32, now: u64)
    ensures
        value == 1 ==> step(st, m, Event::Button(PhysicalButton::Left, value), now).0.left_down,
        value == 0 ==> !step(st, m, Event::Button(PhysicalButton::Left, value), now).0.left_down,
        value == 1 ==> step(st, m, Event::Button(PhysicalButton::Right, value), now).0.right_down,
        value == 0 ==> !step(st, m, Event::Button(PhysicalButton::Right, value), now).0.right_down,
        value != 0 && value != 1 ==> step(
            st,
            m,
            Event::Button(PhysicalButton::Left, value),
            now,
        ).0.left_down == m.left_down,
        step(st, m, Event::Button(PhysicalButton::Left, value), now).0.right_down == m.right_down,
        step(st, m, Event::Button(PhysicalButton::Right, value), now).0.left_down == m.left_down,
{
}

/// A frame that sends the swipe shortcut does so only when each contact rose
/// from its start by at least half the swipe distance, and both together by at
/// least twice the distance.
pub proof fn swipe_needs_both_fingers_to_rise(st: Settings, m: DriverModel, now: u64)
    requires
        model_wf(m),
        step(st, m, Event::Frame, now).1.len() > 0,
    ensures
        ({
            let m2 = step(st, m, Event::Frame, now).0;
            let c = m2.swipe_candidate->Some_0;
            &&& m2.swipe_candidate is Some
            &&& c.start0.1 - m.slots[0].y >= trunc_div(st.swipe_distance as int, 2)
            &&& c.start1.1 - m.slots[1].y >= trunc_div(st.swipe_distance as int, 2)
            &&& (c.start0.1 - m.slots[0].y) + (c.start1.1 - m.slots[1].y) >= 2 * st.swipe_distance
        }),
{
    let m1 = update_taps(st, m);
    let m3 = update_swipe(st, lock_zone(st, m1), down_count(m1.slots));
    if let Some(c) = m3.swipe_candidate {
        lemma_swipe_rise(c.start0, c.start1, (m.slots[0].x, m.slots[0].y), (m.slots[1].x, m.slots[1].y), st.swipe_distance);
    }
}

/// A triggered swipe needs each contact to rise by at least half the distance.
pub proof fn lemma_swipe_rise(
    start0: (i32, i32),
    start1: (i32, i32),
    current0: (i32, i32),
    current1: (i32, i32),
    distance: i32,
)
    ensures
        swipe_is_triggered(start0, start1, current0, current1, distance) ==> {
            &&& start0.1 - current0.1 >= trunc_div(distance as int, 2)
            &&& start1.1 - current1.1 >= trunc_div(distance as int, 2)
            &&& (start0.1 - current0.1) + (start1.1 - current1.1) >= 2 * distance
        },
{
    let a = (current0.1 - start0.1) + (current1.1 - start1.1);
    if a >= 0 {
        vstd::arithmetic::div_mod::lemma_fundamental_div_mod(a, 2);
        vstd::arithmetic::div_mod::lemma_mod_pos_bound(a, 2);
    } else {
        vstd::arithmetic::div_mod::lemma_fundamental_div_mod(-a, 2);
        vstd::arithmetic::div_mod::lemma_mod_pos_bound(-a, 2);
    }
}

/// With tap-to-click off, ring motion always scrolls.
pub proof fn ring_scrolls_without_taps(st: Settings, m: DriverModel, now: u64)
    requires
        model_wf(m),
        !st.tap,
    ensures
        step(st, m, Event::Frame, now).2 matches Motion::Ring { mode, .. } ==> mode
            == RingMode::Scroll,
        ring_mode(st, m) == RingMode::Scroll,
{
}

/// Ring motion is followed whenever the primary contact is locked on the ring
/// outside a swipe: the frame hands its position on.
pub proof fn ring_contacts_are_followed(st: Settings, m: DriverModel, now: u64)
    requires
        model_wf(m),
        is_down(m.slots[0]),
        m.locked_zone == Some(Zone::Ring),
        !m.swipe_consuming_sequence,
        !st.swipe_enabled,
    ensures
        step(st, m, Event::Frame, now).2 matches Motion::Ring { x, y, .. } && x == m.slots[0].x && y
            == m.slots[0].y,
{
}

/// A pointer move is the primary contact's move since the previous inner-disc
/// frame, and that frame's position becomes the reference for the next one;
/// the zone locked for the touch decides between pointer and ring.
pub proof fn pointer_moves_are_relative(st: Settings, m: DriverModel, now: u64)
    requires
        model_wf(m),
    ensures
        ({
            let (m2, _, motion) = step(st, m, Event::Frame, now);
            &&& motion matches Motion::Pointer { dx, dy } ==> {
                &&& m.prev_pos is Some
                &&& dx == m.slots[0].x - m.prev_pos->Some_0.0
                &&& dy == m.slots[0].y - m.prev_pos->Some_0.1
                &&& m2.prev_pos == Some((m.slots[0].x, m.slots[0].y))
                &&& m2.locked_zone == Some(Zone::Inner)
            }
            &&& motion is Ring ==> m2.locked_zone == Some(Zone::Ring) && m2.prev_pos == m.prev_pos
            &&& motion is Pointer && m.locked_zone is Some ==> m.locked_zone == Some(Zone::Inner)
            &&& motion is Ring && m.locked_zone is Some ==> m.locked_zone == Some(Zone::Ring)
        }),
{
}

/// Two consecutive pointer moves add up to the whole move across both frames.
pub proof fn pointer_moves_add_up(st: Settings, m: DriverModel, x: i32, y: i32, now: u64, later: u64)
    requires
        model_wf(m),
        m.current_slot == 0,
        step(st, m, Event::Frame, now).2 is Pointer,
    ensures
        ({
            let m2 = step(st, m, Event::Frame, now).0;
            let m3 = step(st, step(st, m2, Event::PositionX(x), later).0, Event::PositionY(y), later).0;
            let first = step(st, m, Event::Frame, now).2;
            let second = step(st, m3, Event::Frame, later).2;
            second matches Motion::Pointer { dx, dy } ==> {
                &&& dx + first->Pointer_dx == x - m.prev_pos->Some_0.0
                &&& dy + first->Pointer_dy == y - m.prev_pos->Some_0.1
            }
        }),
{
}

/// A file's swipe settings reach the resolved configuration: its `enabled` and
/// `distance` win when given, and swipes are on by default.
pub proof fn file_swipe_settings_apply(
    c: Config,
    cli: Cli,
    file: FileConfig,
    path: Seq<char>,
    file_found: bool,
)
    requires
        config_matches(c, cli, file, path, file_found),
    ensures
        file.two_finger_swipe matches Some(s) ==> (s.enabled matches Some(v)
            ==> c.two_finger_swipe.enabled == v),
        file.two_finger_swipe matches Some(s) ==> (s.distance matches Some(d)
            ==> c.two_finger_swipe.distance == d),
        file.two_finger_swipe is None ==> c.two_finger_swipe.enabled && c.two_finger_swipe.distance
            == 80,
        cli.tap_timeout is None ==> (file.tap_timeout_ms matches Some(t) ==> c.tap_timeout_ms == t),
        !cli.tap && !cli.no_tap ==> (file.tap matches Some(t) ==> c.tap == t),
        !cli.invert_scroll && !cli.no_invert_scroll ==> (file.invert_scroll matches Some(t)
            ==> c.invert_scroll == t),
{
}

/// A tap valid at some time stays valid for a longer timeout and at any earlier
/// time after it started.
pub proof fn tap_validity_is_monotone(tap: TapState, now: u64, earlier: u64, timeout: u64, longer: u64)
    requires
        tap.spec_valid(now, timeout),
        timeout <= longer,
        earlier <= now,
    ensures
        tap.spec_valid(now, longer),
        tap.spec_valid(earlier, timeout),
        tap.start_time is Some && !tap.moved && !tap.canceled,
{
}

/// A finger that strays from its tap's start by more than the threshold along
/// an axis spoils the tap at the next frame.
pub proof fn straying_spoils_the_tap(st: Settings, m: DriverModel, now: u64, timeout_now: u64)
    requires
        model_wf(m),
        is_down(m.slots[0]),
        m.taps[0].start_pos matches Some(p) && (abs(m.slots[0].x - p.0) > st.tap_move_threshold || abs(
            m.slots[0].y - p.1,
        ) > st.tap_move_threshold),
    ensures
        step(st, m, Event::Frame, now).0.taps[0].moved,
        !step(st, m, Event::Frame, now).0.taps[0].spec_valid(timeout_now, st.tap_timeout_ms),
{
}


/// Pressing a button (with taps on) cancels every tap that has started, leaves
/// the others, drops the scroll carry, and drops a pending swipe for the rest
/// of the sequence.
pub proof fn pressing_cancels_taps_and_swipes(st: Settings, m: DriverModel, b: PhysicalButton, now: u64)
    requires
        model_wf(m),
        st.tap,
        b != PhysicalButton::Middle,
    ensures
        ({
            let (m2, _, motion) = step(st, m, Event::Button(b, 1), now);
            &&& forall|i: int|
                0 <= i < SLOT_COUNT ==> (#[trigger] m2.taps[i]).canceled == (m.taps[i].canceled
                    || m.taps[i].start_time is Some)
            &&& forall|i: int|
                0 <= i < SLOT_COUNT ==> (#[trigger] m2.taps[i]).start_time == m.taps[i].start_time
            &&& m2.detent_carry == 0
            &&& m2.swipe_candidate is None
            &&& m.swipe_candidate is Some ==> m2.swipe_blocked_until_lift && motion
                == Motion::ResetHistory
            &&& m.swipe_candidate is None ==> motion == Motion::ResetAccumulators
        }),
        step(st, m, Event::Button(b, 0), now).0.detent_carry == 0,
        step(st, m, Event::Button(b, 0), now).2 == Motion::ResetAccumulators,
{
}

/// A tap is valid up to and including the timeout after it started (also when
/// the clock reads earlier than the start), and not a nanosecond later.
pub proof fn tap_timeout_is_inclusive(tap: TapState, start: u64, now: u64, timeout: u64)
    requires
        tap.start_time == Some(start),
        !tap.moved,
        !tap.canceled,
    ensures
        now <= start ==> tap.spec_valid(now, timeout),
        now >= start && now - start <= timeout * 1_000_000 ==> tap.spec_valid(now, timeout),
        now >= start && now - start > timeout * 1_000_000 ==> !tap.spec_valid(now, timeout),
{
}

/// At a frame, a started tap remembers where its finger first was, and a finger
/// that stays within the threshold on both axes keeps its tap unmoved.
pub proof fn taps_remember_their_start(st: Settings, m: DriverModel, now: u64)
    requires
        model_wf(m),
        is_down(m.slots[0]),
        m.taps[0].start_time is Some,
        st.tap_move_threshold >= 0,
    ensures
        ({
            let t = step(st, m, Event::Frame, now).0.taps[0];
            &&& m.taps[0].start_pos is None ==> t.start_pos == Some((m.slots[0].x, m.slots[0].y))
                && t.moved == m.taps[0].moved
            &&& m.taps[0].start_pos matches Some(p) ==> t.start_pos == Some(p)
            &&& (m.taps[0].start_pos matches Some(p) && abs(m.slots[0].x - p.0)
                <= st.tap_move_threshold && abs(m.slots[0].y - p.1) <= st.tap_move_threshold)
                ==> t.moved == m.taps[0].moved
            &&& t.canceled == m.taps[0].canceled || t.canceled
            &&& t.start_time == m.taps[0].start_time
        }),
{
}

/// The first frame that sees the primary finger fixes its zone: the ring when
/// its squared distance from the centre exceeds the ring limit, the inner disc
/// otherwise.
pub proof fn first_frame_locks_the_zone(st: Settings, m: DriverModel, now: u64)
    requires
        model_wf(m),
        is_down(m.slots[0]),
        m.locked_zone is None,
    ensures
        ({
            let dx = m.slots[0].x - 264;
            let dy = m.slots[0].y - 264;
            let m2 = step(st, m, Event::Frame, now).0;
            &&& dx * dx + dy * dy > st.ring_limit ==> m2.locked_zone == Some(Zone::Ring)
            &&& dx * dx + dy * dy <= st.ring_limit ==> m2.locked_zone == Some(Zone::Inner)
        }),
{
}

/// A locked zone stays locked while the primary finger is down.
pub proof fn locked_zone_stays(st: Settings, m: DriverModel, event: Event, now: u64)
    requires
        model_wf(m),
        m.locked_zone is Some,
        !(event is TrackingId && m.current_slot == 0),
    ensures
        step(st, m, event, now).0.locked_zone == m.locked_zone,
{
}

/// Arming a swipe records where both fingers are, untriggered, and consumes
/// the sequence.
pub proof fn arming_records_start_positions(st: Settings, m: DriverModel, now: u64)
    requires
        model_wf(m),
        m.swipe_candidate is None,
        step(st, m, Event::Frame, now).0.swipe_candidate is Some,
    ensures
        ({
            let m2 = step(st, m, Event::Frame, now).0;
            let c = m2.swipe_candidate->Some_0;
            &&& c.start0 == (m.slots[0].x, m.slots[0].y)
            &&& c.start1 == (m.slots[1].x, m.slots[1].y)
            &&& m2.swipe_consuming_sequence
            &&& m2.swipe_blocked_until_lift
        }),
{
}

/// A third finger also cancels both primary taps when it drops a candidate.
pub proof fn third_finger_cancels_taps(st: Settings, m: DriverModel, now: u64)
    requires
        model_wf(m),
        st.swipe_enabled,
        down_count(m.slots) > 2,
        m.swipe_candidate is Some,
    ensures
        step(st, m, Event::Frame, now).0.taps[0].canceled,
        step(st, m, Event::Frame, now).0.taps[1].canceled,
        step(st, m, Event::Frame, now).0.swipe_consuming_sequence,
{
}

/// When no finger is down the swipe sequence starts afresh.
pub proof fn empty_pad_resets_swipes(st: Settings, m: DriverModel, now: u64, id_event: Event)
    requires
        model_wf(m),
        down_count(m.slots) == 0,
    ensures
        ({
            let m2 = step(st, m, Event::Frame, now).0;
            &&& m2.swipe_candidate is None
            &&& !m2.swipe_blocked_until_lift
            &&& !m2.swipe_consuming_sequence
            &&& step(st, m, Event::Frame, now).1 == Seq::<OutputView>::empty()
        }),
{
}

/// Lifting the last finger ends the swipe sequence; lifting the primary
/// finger releases its zone and its motion history.
pub proof fn lifting_ends_sequences(st: Settings, m: DriverModel, now: u64)
    requires
        model_wf(m),
        m.current_slot < SLOT_COUNT,
    ensures
        ({
            let (m2, _, motion) = step(st, m, Event::TrackingId(-1i32), now);
            &&& m2.slots[m.current_slot as int].tracking_id == -1
            &&& down_count(m2.slots) == 0 ==> m2.swipe_candidate is None
                && !m2.swipe_blocked_until_lift && !m2.swipe_consuming_sequence
            &&& m.current_slot == 0 ==> m2.locked_zone is None && m2.prev_pos is None
                && motion == Motion::ResetHistory
        }),
{
}

/// Selecting a slot only changes the selection.
pub proof fn selecting_changes_only_the_slot(st: Settings, m: DriverModel, slot: usize, now: u64)
    ensures
        step(st, m, Event::SelectSlot(slot), now) == (
            DriverModel { current_slot: slot, ..m },
            Seq::<OutputView>::empty(),
            Motion::Keep,
        ),
{
}

/// The remainder after scrolling has the sign of the units gathered, so
/// detents round toward zero.
pub proof fn scrolling_rounds_toward_zero(carry: i32, hires: i32)
    requires
        -120 < carry < 120,
        hires != 0,
    ensures
        carry + hires >= 0 ==> 0 <= scroll_step(carry, hires).0 < 120,
        carry + hires <= 0 ==> -120 < scroll_step(carry, hires).0 <= 0,
{
    crate::gestures::lemma_trunc_div_120(carry + hires);
    let a = carry + hires;
    if a >= 0 {
        vstd::arithmetic::div_mod::lemma_fundamental_div_mod(a, 120);
        vstd::arithmetic::div_mod::lemma_mod_pos_bound(a, 120);
    } else {
        vstd::arithmetic::div_mod::lemma_fundamental_div_mod(-a, 120);
        vstd::arithmetic::div_mod::lemma_mod_pos_bound(-a, 120);
    }
}

/// A pointer frame holds exactly the non-zero axes, x first.
pub proof fn pointer_frames_hold_nonzero_axes(dx: i32, dy: i32)
    ensures
        dx == 0 && dy == 0 <==> pointer_view(dx, dy).len() == 0,
        pointer_view(dx, dy).len() > 0 ==> pointer_view(dx, dy).len() == 1 && (pointer_view(
            dx,
            dy,
        )[0] matches OutputView::PointerFrame(events) && (dx != 0 ==> events[0]
            == PointerEvent::RelX(dx)) && (dy != 0 ==> events.last() == PointerEvent::RelY(dy))
            && events.len() == (if dx != 0 { 1int } else { 0 }) + (if dy != 0 { 1int } else { 0 })),
{
}

/// A click presses its button and then releases it, in two frames.
pub proof fn clicks_press_then_release(b: PhysicalButton)
    ensures
        click_view(b).len() == 2,
        click_view(b)[0] matches OutputView::PointerFrame(e) && e.len() == 1 && e[0]
            == PointerEvent::Button(b, 1),
        click_view(b)[1] matches OutputView::PointerFrame(e) && e.len() == 1 && e[0]
            == PointerEvent::Button(b, 0),
{
}

/// The configuration path: a non-empty `XDG_CONFIG_HOME` must be absolute and
/// is used, else a non-empty `HOME` under `.config`; either way the result
/// starts with the base directory and ends with the fixed relative path.
pub proof fn config_path_bases(xdg: Option<Seq<char>>, home: Option<Seq<char>>)
    ensures
        xdg matches Some(x) ==> (x.len() > 0 ==> (x[0] == '/' <==> spec_config_path(xdg, home) is Ok)),
        xdg matches Some(x) ==> (x.len() > 0 && x[0] == '/' ==> ({
            let p = spec_config_path(xdg, home)->Ok_0;
            &&& p.subrange(0, x.len() as int) == x
            &&& p.subrange(p.len() - "circulartrackpad/config.toml"@.len(), p.len() as int)
                == "circulartrackpad/config.toml"@
            &&& p.len() >= x.len() + "circulartrackpad/config.toml"@.len()
        })),
        (xdg is None || xdg->Some_0.len() == 0) ==> (home matches Some(h) ==> (h.len() > 0 ==> ({
            let p = spec_config_path(xdg, home)->Ok_0;
            &&& spec_config_path(xdg, home) is Ok
            &&& p.subrange(0, h.len() as int) == h
            &&& p.subrange(
                p.len() - ".config/circulartrackpad/config.toml"@.len(),
                p.len() as int,
            ) == ".config/circulartrackpad/config.toml"@
        }))),
        (xdg is None || xdg->Some_0.len() == 0) && (home is None || home->Some_0.len() == 0)
            ==> spec_config_path(xdg, home) is Err,
{
    lemma_join_ends(xdg, "circulartrackpad/config.toml"@);
    if xdg is None || xdg->Some_0.len() == 0 {
        lemma_join_ends(home, ".config/circulartrackpad/config.toml"@);
    }
}

proof fn lemma_join_ends(base: Option<Seq<char>>, rel: Seq<char>)
    ensures
        base matches Some(b) ==> ({
            let p = path_join(b, rel);
            &&& p.subrange(0, b.len() as int) == b
            &&& p.subrange(p.len() - rel.len(), p.len() as int) == rel
            &&& p.len() >= b.len() + rel.len()
        }),
{
    if let Some(b) = base {
        let p = path_join(b, rel);
        assert(p.subrange(0, b.len() as int) =~= b);
        assert(p.subrange(p.len() - rel.len(), p.len() as int) =~= rel);
    }
}

/// Any single daemon option counts as an override; the subcommand alone does not.
pub proof fn daemon_overrides_are_any_option(cli: Cli)
    ensures
        cli.device is Some ==> cli.spec_has_daemon_overrides(),
        cli.pointer_given || cli.scroll_given || cli.ring_given ==> cli.spec_has_daemon_overrides(),
        cli.invert_scroll || cli.no_invert_scroll || cli.tap || cli.no_tap
            ==> cli.spec_has_daemon_overrides(),
        cli.tap_timeout is Some || cli.tap_move_threshold is Some ==> cli.spec_has_daemon_overrides(),
        cli.device is None && !cli.pointer_given && !cli.scroll_given && !cli.ring_given
            && !cli.invert_scroll && !cli.no_invert_scroll && !cli.tap && !cli.no_tap
            && cli.tap_timeout is None && cli.tap_move_threshold is None
            ==> !cli.spec_has_daemon_overrides(),
{
}

/// A configuration is accepted only when every floating-point rule holds.
pub proof fn accepted_configs_pass_float_rules(cli: Cli, file: FileConfig, floats: FloatChecks)
    requires
        settings_error(cli, file, floats) is None,
    ensures
        floats.pointer_ok && floats.scroll_ok && floats.ring_ok && floats.step_degrees_ok,
        resolved_device(cli, file) matches Some(d) ==> d.len() > 0,
{
}

} // verus!
