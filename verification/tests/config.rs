use circulartrackpad::config::{
    config_path_from, key_names, resolve, restart_service_with, Cli, CliCommand, Config,
    ConfigError, FileButtonGestures, FileConfig, FileTwoFingerSwipe, FloatChecks, Shortcut,
};
use evdev::KeyCode;
use std::cell::RefCell;

fn cli() -> Cli {
    Cli {
        command: None,
        device: None,
        pointer_given: false,
        scroll_given: false,
        ring_given: false,
        invert_scroll: false,
        no_invert_scroll: false,
        tap: false,
        no_tap: false,
        tap_timeout: None,
        tap_move_threshold: None,
    }
}

fn floats_ok() -> FloatChecks {
    FloatChecks {
        pointer_ok: true,
        scroll_ok: true,
        ring_ok: true,
        step_degrees_ok: true,
    }
}

fn load(cli: &Cli, file: FileConfig) -> Result<Config, ConfigError> {
    resolve(cli, file, true, "/tmp/config.toml".to_string(), floats_ok())
}

fn names(list: &[&str]) -> Vec<String> {
    list.iter().map(|s| s.to_string()).collect()
}

fn swipe_up(up: Vec<String>) -> FileConfig {
    FileConfig {
        two_finger_swipe: Some(FileTwoFingerSwipe {
            enabled: None,
            distance: None,
            up: Some(up),
        }),
        ..FileConfig::default()
    }
}

fn left_clockwise(list: Vec<String>) -> FileConfig {
    FileConfig {
        button_gestures: Some(FileButtonGestures {
            left_clockwise: Some(list),
            left_counterclockwise: None,
            right_clockwise: None,
            right_counterclockwise: None,
        }),
        ..FileConfig::default()
    }
}

#[test]
fn restart_invokes_exact_systemctl_command() {
    let invocation = RefCell::new(None);
    restart_service_with(|program: &str, args: &[&str]| {
        *invocation.borrow_mut() = Some((program.to_string(), args.join(" ")));
        Ok(())
    })
    .unwrap();
    assert_eq!(
        invocation.into_inner(),
        Some((
            "systemctl".to_string(),
            "--user restart circulartrackpad.service".to_string()
        ))
    );
}

#[test]
fn restart_failure_becomes_config_error() {
    let error = restart_service_with(|_: &str, _: &[&str]| Err("exit status: 5".to_string()))
        .unwrap_err();
    assert_eq!(error.message(), "failed to restart service: exit status: 5");
}

#[test]
fn config_path_prefers_xdg_and_falls_back_to_home() {
    assert_eq!(
        config_path_from(Some("/xdg".to_string()), Some("/home/me".to_string())).unwrap(),
        "/xdg/circulartrackpad/config.toml"
    );
    assert_eq!(
        config_path_from(None, Some("/home/me".to_string())).unwrap(),
        "/home/me/.config/circulartrackpad/config.toml"
    );
    assert!(config_path_from(Some("relative".to_string()), None).is_err());
}

#[test]
fn config_path_edge_cases() {
    assert_eq!(
        config_path_from(Some("/xdg/".to_string()), None).unwrap(),
        "/xdg/circulartrackpad/config.toml"
    );
    assert_eq!(
        config_path_from(Some(String::new()), Some("/home/me".to_string())).unwrap(),
        "/home/me/.config/circulartrackpad/config.toml"
    );
    assert_eq!(
        config_path_from(Some("relative".to_string()), None)
            .unwrap_err()
            .message(),
        "XDG_CONFIG_HOME must be an absolute path"
    );
    assert_eq!(
        config_path_from(None, Some(String::new()))
            .unwrap_err()
            .message(),
        "HOME is not set; cannot locate user configuration"
    );
    assert!(config_path_from(None, None).is_err());
}

#[test]
fn missing_file_uses_defaults() {
    let config = resolve(
        &cli(),
        FileConfig::default(),
        false,
        "/tmp/circulartrackpad-does-not-exist.toml".to_string(),
        floats_ok(),
    )
    .unwrap();
    assert!(!config.file_found);
    assert_eq!(config.two_finger_swipe.distance, 80);
    assert_eq!(config.tap_timeout_ms, 180);
    assert_eq!(config.tap_move_threshold, 20);
    assert!(config.tap);
    assert!(!config.invert_scroll);
    assert!(config.two_finger_swipe.enabled);
    assert_eq!(config.device, None);
    assert_eq!(config.path, "/tmp/circulartrackpad-does-not-exist.toml");
}

#[test]
fn partial_file_and_cli_precedence() {
    let file = FileConfig {
        invert_scroll: Some(true),
        tap: Some(false),
        ..FileConfig::default()
    };
    let parsed = Cli {
        pointer_given: true,
        no_invert_scroll: true,
        tap: true,
        ..cli()
    };
    let config = load(&parsed, file).unwrap();
    assert!(!config.invert_scroll);
    assert!(config.tap);
}

#[test]
fn file_values_apply_without_cli() {
    let file = FileConfig {
        invert_scroll: Some(true),
        tap: Some(false),
        tap_timeout_ms: Some(250),
        tap_move_threshold: Some(5),
        device: Some("/dev/input/event7".to_string()),
        ..FileConfig::default()
    };
    let config = load(&cli(), file).unwrap();
    assert!(config.invert_scroll);
    assert!(!config.tap);
    assert_eq!(config.tap_timeout_ms, 250);
    assert_eq!(config.tap_move_threshold, 5);
    assert_eq!(config.device.as_deref(), Some("/dev/input/event7"));

    let overriding = Cli {
        tap_timeout: Some(90),
        tap_move_threshold: Some(3),
        device: Some("/dev/input/event2".to_string()),
        ..cli()
    };
    let file = FileConfig {
        tap_timeout_ms: Some(250),
        tap_move_threshold: Some(5),
        device: Some("/dev/input/event7".to_string()),
        ..FileConfig::default()
    };
    let config = load(&overriding, file).unwrap();
    assert_eq!(config.tap_timeout_ms, 90);
    assert_eq!(config.tap_move_threshold, 3);
    assert_eq!(config.device.as_deref(), Some("/dev/input/event2"));
}

#[test]
fn rejects_unknown_fields_and_keys() {
    let unknown_key = left_clockwise(names(&["KEY_NOT_A_REAL_KEY"]));
    let error = load(&cli(), unknown_key).unwrap_err();
    assert!(error.message().contains("unknown Linux key"));
    assert_eq!(
        error.message(),
        "button_gestures.left_clockwise: unknown Linux key name 'KEY_NOT_A_REAL_KEY'"
    );
}

#[test]
fn rejects_malformed_empty_and_duplicate_shortcuts() {
    let empty = swipe_up(Vec::new());
    assert!(load(&cli(), empty)
        .unwrap_err()
        .message()
        .contains("must not be empty"));

    let duplicate = swipe_up(names(&["KEY_LEFTMETA", "KEY_LEFTMETA"]));
    assert!(load(&cli(), duplicate)
        .unwrap_err()
        .message()
        .contains("duplicate key"));
}

#[test]
fn rejects_names_without_key_prefix() {
    let error = load(&cli(), swipe_up(names(&["BTN_LEFT"]))).unwrap_err();
    assert_eq!(
        error.message(),
        "two_finger_swipe.up: 'BTN_LEFT' is not a Linux KEY_* name"
    );
}

#[test]
fn rejects_invalid_ranges_and_threshold_order() {
    let ring = resolve(
        &cli(),
        FileConfig::default(),
        true,
        "/tmp/c.toml".to_string(),
        FloatChecks {
            ring_ok: false,
            ..floats_ok()
        },
    );
    assert!(ring.is_err());

    let swipe = FileConfig {
        tap_move_threshold: Some(20),
        two_finger_swipe: Some(FileTwoFingerSwipe {
            enabled: None,
            distance: Some(20),
            up: None,
        }),
        ..FileConfig::default()
    };
    assert!(load(&cli(), swipe).is_err());
}

#[test]
fn errors_come_in_rule_order() {
    let all_bad = FloatChecks {
        pointer_ok: false,
        scroll_ok: false,
        ring_ok: false,
        step_degrees_ok: false,
    };
    let err = resolve(&cli(), FileConfig::default(), true, String::new(), all_bad).unwrap_err();
    assert_eq!(err.message(), "pointer must be finite and greater than zero");
    let err = resolve(
        &cli(),
        FileConfig::default(),
        true,
        String::new(),
        FloatChecks {
            pointer_ok: true,
            ..all_bad
        },
    )
    .unwrap_err();
    assert_eq!(err.message(), "scroll must be finite and zero or greater");
    let zero_timeout = Cli {
        tap_timeout: Some(0),
        tap_move_threshold: Some(-1),
        ..cli()
    };
    let err = load(&zero_timeout, FileConfig::default()).unwrap_err();
    assert_eq!(err.message(), "tap_timeout_ms must be greater than zero");
    let negative = Cli {
        tap_move_threshold: Some(-1),
        ..cli()
    };
    let err = load(&negative, FileConfig::default()).unwrap_err();
    assert_eq!(err.message(), "tap_move_threshold must be zero or greater");
    let err = resolve(
        &cli(),
        FileConfig::default(),
        true,
        String::new(),
        FloatChecks {
            step_degrees_ok: false,
            ..floats_ok()
        },
    )
    .unwrap_err();
    assert_eq!(
        err.message(),
        "button_gestures.step_degrees must be within 0.0 (exclusive)..=360.0"
    );
    let empty_device = Cli {
        device: Some(String::new()),
        ..cli()
    };
    let err = load(&empty_device, FileConfig::default()).unwrap_err();
    assert_eq!(err.message(), "device must not be empty");
}

#[test]
fn keyboard_capabilities_include_every_shortcut_key() {
    let config = load(&cli(), FileConfig::default()).unwrap();
    let keys = config.keyboard_keys();
    assert!(keys.contains(&KeyCode::KEY_LEFTALT.code()));
    assert!(keys.contains(&KeyCode::KEY_LEFTMETA.code()));
    assert!(keys.contains(&KeyCode::KEY_PAGEDOWN.code()));
    let mut sorted = keys.clone();
    sorted.sort();
    let mut expected = vec![
        KeyCode::KEY_ESC.code(),
        KeyCode::KEY_LEFTSHIFT.code(),
        KeyCode::KEY_LEFTALT.code(),
        KeyCode::KEY_PAGEUP.code(),
        KeyCode::KEY_PAGEDOWN.code(),
        KeyCode::KEY_LEFTMETA.code(),
    ];
    expected.sort();
    assert_eq!(sorted, expected);
}

#[test]
fn default_shortcuts_use_evdev_codes() {
    let config = load(&cli(), FileConfig::default()).unwrap();
    assert_eq!(
        config.button_gestures.left_clockwise,
        Shortcut(vec![KeyCode::KEY_LEFTALT.code(), KeyCode::KEY_ESC.code()])
    );
    assert_eq!(
        config.button_gestures.left_counterclockwise,
        Shortcut(vec![
            KeyCode::KEY_LEFTSHIFT.code(),
            KeyCode::KEY_LEFTALT.code(),
            KeyCode::KEY_ESC.code()
        ])
    );
    assert_eq!(
        config.button_gestures.right_clockwise,
        Shortcut(vec![KeyCode::KEY_LEFTMETA.code(), KeyCode::KEY_PAGEDOWN.code()])
    );
    assert_eq!(
        config.button_gestures.right_counterclockwise,
        Shortcut(vec![KeyCode::KEY_LEFTMETA.code(), KeyCode::KEY_PAGEUP.code()])
    );
    assert_eq!(
        config.two_finger_swipe.up,
        Shortcut(vec![KeyCode::KEY_LEFTMETA.code()])
    );
}

#[test]
fn shortcut_parse_keeps_press_order() {
    let shortcut = Shortcut::parse("field", names(&["KEY_LEFTCTRL", "KEY_A"])).unwrap();
    assert_eq!(
        shortcut,
        Shortcut(vec![KeyCode::KEY_LEFTCTRL.code(), KeyCode::KEY_A.code()])
    );
    assert_eq!(
        Shortcut::parse("field", Vec::new()).unwrap_err().message(),
        "field must not be empty"
    );
    assert_eq!(
        Shortcut::parse("f", names(&["KEY_A", "KEY_B", "KEY_A"]))
            .unwrap_err()
            .message(),
        "f: duplicate key 'KEY_A'"
    );
}

#[test]
fn daemon_overrides_detection() {
    assert!(!cli().has_daemon_overrides());
    let restart = Cli {
        command: Some(CliCommand::Restart),
        ..cli()
    };
    assert!(!restart.has_daemon_overrides());
    assert!(Cli {
        ring_given: true,
        ..cli()
    }
    .has_daemon_overrides());
    assert!(Cli {
        tap_move_threshold: Some(3),
        ..cli()
    }
    .has_daemon_overrides());
    assert!(Cli {
        no_tap: true,
        ..cli()
    }
    .has_daemon_overrides());
}

#[test]
fn key_names_copies_names() {
    assert_eq!(
        key_names(&["KEY_A", "KEY_B"]),
        vec!["KEY_A".to_string(), "KEY_B".to_string()]
    );
    assert!(key_names(&[]).is_empty());
}

#[test]
fn config_error_keeps_message() {
    assert_eq!(ConfigError::new("boom".to_string()).message(), "boom");
}
