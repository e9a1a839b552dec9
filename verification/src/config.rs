use vstd::prelude::*;

verus! {

/// The subcommands of the command line.
#[derive(Debug, Clone, Copy, PartialEq, Eq)]
pub enum CliCommand {
    /// Validate the configuration and restart the service.
    Restart,
}

/// The command line as far as configuration resolution reads it.
///
/// Floating-point options are carried by the front end; here only whether
/// each was given is recorded.
#[derive(Debug, Clone)]
pub struct Cli {
    pub command: Option<CliCommand>,
    pub device: Option<String>,
    pub pointer_given: bool,
    pub scroll_given: bool,
    pub ring_given: bool,
    pub invert_scroll: bool,
    pub no_invert_scroll: bool,
    pub tap: bool,
    pub no_tap: bool,
    pub tap_timeout: Option<u64>,
    pub tap_move_threshold: Option<i32>,
}

impl Cli {
    /// Whether any option that only a running daemon uses was given.
    pub open spec fn spec_has_daemon_overrides(&self) -> bool {
        ||| self.device is Some
        ||| self.pointer_given
        ||| self.scroll_given
        ||| self.ring_given
        ||| self.invert_scroll
        ||| self.no_invert_scroll
        ||| self.tap
        ||| self.no_tap
        ||| self.tap_timeout is Some
        ||| self.tap_move_threshold is Some
    }

    pub fn has_daemon_overrides(&self) -> (r: bool)
        ensures
            r == self.spec_has_daemon_overrides(),
    {
        self.device.is_some() || self.pointer_given || self.scroll_given || self.ring_given
            || self.invert_scroll || self.no_invert_scroll || self.tap || self.no_tap
            || self.tap_timeout.is_some() || self.tap_move_threshold.is_some()
    }
}

/// An error in the configuration, carrying its message.
#[derive(Debug)]
pub struct ConfigError(String);

impl View for ConfigError {
    type V = Seq<char>;

    closed spec fn view(&self) -> Seq<char> {
        self.0@
    }
}

impl ConfigError {
    pub fn new(message: String) -> (e: ConfigError)
        ensures
            e@ == message@,
    {
        ConfigError(message)
    }

    /// The message of the error.
    pub fn message(&self) -> (m: &str)
        ensures
            m@ == self@,
    {
        self.0.as_str()
    }
}

/// Copies a list of names into owned strings.
pub fn key_names(names: &[&str]) -> (r: Vec<String>)
    ensures
        r@.len() == names@.len(),
        forall|i: int| 0 <= i < names@.len() ==> #[trigger] r@[i]@ == names@[i]@,
{
    let mut r: Vec<String> = Vec::new();
    let mut i: usize = 0;
    while i < names.len()
        invariant
            i <= names@.len(),
            r@.len() == i,
            forall|j: int| 0 <= j < i ==> #[trigger] r@[j]@ == names@[j]@,
        decreases names@.len() - i,
    {
        r.push(String::from_str(names[i]));
        i = i + 1;
    }
    r
}


/// The code that evdev's key table gives a Linux key name, if it knows the name.
pub uninterp spec fn evdev_key_code(name: Seq<char>) -> Option<u16>;

/// Looks `name` up with `evdev::KeyCode::from_str`, which searches evdev's fixed
/// table of `KEY_*`/`BTN_*` names and yields the code of the entry whose name is
/// exactly `name`, or an error when there is none. The result is named, not
/// stated: it depends on the name alone.
#[verifier::external_body]
fn key_code_from_name(name: &str) -> (r: Option<u16>)
    ensures
        r == evdev_key_code(name@),
{
    match <evdev::KeyCode as std::str::FromStr>::from_str(name) {
        Ok(key) => Some(key.0),
        Err(_) => None,
    }
}

/// A key combination, as the codes of its keys in press order.
#[derive(Debug, Clone, PartialEq, Eq)]
pub struct Shortcut(pub Vec<u16>);

impl Shortcut {
    /// A copy of the shortcut.
    pub fn duplicate(&self) -> (r: Shortcut)
        ensures
            r.0@ == self.0@,
    {
        let keys = self.0.clone();
        assert(keys@ =~= self.0@);
        Shortcut(keys)
    }
}

/// Whether a name has the `KEY_` prefix.
pub open spec fn has_key_prefix(name: Seq<char>) -> bool {
    &&& name.len() >= 4
    &&& name[0] == 'K'
    &&& name[1] == 'E'
    &&& name[2] == 'Y'
    &&& name[3] == '_'
}

/// What is wrong with the next name of a shortcut, given the codes before it.
pub open spec fn key_issue(field: Seq<char>, name: Seq<char>, earlier: Seq<u16>) -> Option<
    Seq<char>,
> {
    if !has_key_prefix(name) {
        Some(field + ": '"@ + name + "' is not a Linux KEY_* name"@)
    } else {
        match evdev_key_code(name) {
            None => Some(field + ": unknown Linux key name '"@ + name + "'"@),
            Some(code) => if earlier.contains(code) {
                Some(field + ": duplicate key '"@ + name + "'"@)
            } else {
                None
            },
        }
    }
}

/// The codes of a list of key names, or the message for the first bad name.
pub open spec fn parse_keys(field: Seq<char>, names: Seq<Seq<char>>) -> Result<Seq<u16>, Seq<char>>
    decreases names.len(),
{
    if names.len() == 0 {
        Ok(Seq::empty())
    } else {
        match parse_keys(field, names.drop_last()) {
            Err(message) => Err(message),
            Ok(codes) => match key_issue(field, names.last(), codes) {
                Some(message) => Err(message),
                None => Ok(codes.push(evdev_key_code(names.last()).unwrap())),
            },
        }
    }
}

/// A shortcut read from a configuration field: a non-empty list of known,
/// distinct `KEY_*` names.
pub open spec fn spec_parse_shortcut(field: Seq<char>, names: Seq<Seq<char>>) -> Result<
    Seq<u16>,
    Seq<char>,
> {
    if names.len() == 0 {
        Err(field + " must not be empty"@)
    } else {
        parse_keys(field, names)
    }
}

/// The views of a list of strings.
pub open spec fn strings_view(names: Seq<String>) -> Seq<Seq<char>> {
    names.map_values(|s: String| s@)
}

fn has_key_prefix_exec(name: &str) -> (r: bool)
    ensures
        r == has_key_prefix(name@),
{
    let len = name.unicode_len();
    len >= 4 && name.get_char(0) == 'K' && name.get_char(1) == 'E' && name.get_char(2) == 'Y'
        && name.get_char(3) == '_'
}

fn contains_code(codes: &Vec<u16>, code: u16) -> (r: bool)
    ensures
        r == codes@.contains(code),
{
    let mut i: usize = 0;
    while i < codes.len()
        invariant
            i <= codes@.len(),
            forall|j: int| 0 <= j < i ==> codes@[j] != code,
        decreases codes@.len() - i,
    {
        if codes[i] == code {
            assert(codes@[i as int] == code);
            return true;
        }
        i = i + 1;
    }
    false
}

fn field_message(field: &str, middle: &str, name: &str, tail: &str) -> (m: String)
    ensures
        m@ == field@ + middle@ + name@ + tail@,
{
    let mut m = String::from_str(field);
    m.append(middle);
    m.append(name);
    m.append(tail);
    m
}

impl Shortcut {
    /// Reads the shortcut of configuration field `field` from key names.
    pub fn parse(field: &str, names: Vec<String>) -> (r: Result<Shortcut, ConfigError>)
        ensures
            match r {
                Ok(s) => spec_parse_shortcut(field@, strings_view(names@)) == Ok::<
                    Seq<u16>,
                    Seq<char>,
                >(s.0@),
                Err(e) => spec_parse_shortcut(field@, strings_view(names@)) == Err::<
                    Seq<u16>,
                    Seq<char>,
                >(e@),
            },
    {
        let ghost nv = strings_view(names@);
        if names.len() == 0 {
            let mut m = String::from_str(field);
            m.append(" must not be empty");
            return Err(ConfigError::new(m));
        }
        let mut keys: Vec<u16> = Vec::new();
        let mut i: usize = 0;
        while i < names.len()
            invariant
                nv == strings_view(names@),
                nv.len() == names@.len(),
                names@.len() > 0,
                i <= names@.len(),
                parse_keys(field@, nv.take(i as int)) == Ok::<Seq<u16>, Seq<char>>(keys@),
            decreases names@.len() - i,
        {
            let name: &str = names[i].as_str();
            assert(nv.take(i + 1).drop_last() =~= nv.take(i as int));
            assert(nv.take(i + 1).last() == name@);
            if !has_key_prefix_exec(name) {
                let m = field_message(field, ": '", name, "' is not a Linux KEY_* name");
                proof {
                    assert(nv.take(names@.len() as int) =~= nv);
                    lemma_parse_keys_err_extends(field@, nv, (i + 1) as int, m@);
                }
                return Err(ConfigError::new(m));
            }
            match key_code_from_name(name) {
                None => {
                    let m = field_message(field, ": unknown Linux key name '", name, "'");
                    proof {
                        assert(nv.take(names@.len() as int) =~= nv);
                        lemma_parse_keys_err_extends(field@, nv, (i + 1) as int, m@);
                    }
                    return Err(ConfigError::new(m));
                },
                Some(code) => {
                    if contains_code(&keys, code) {
                        let m = field_message(field, ": duplicate key '", name, "'");
                        proof {
                            assert(nv.take(names@.len() as int) =~= nv);
                            lemma_parse_keys_err_extends(field@, nv, (i + 1) as int, m@);
                        }
                        return Err(ConfigError::new(m));
                    }
                    keys.push(code);
                },
            }
            i = i + 1;
        }
        assert(nv.take(names@.len() as int) =~= nv);
        Ok(Shortcut(keys))
    }
}

/// Once a prefix of the names fails, the whole list fails with the same message.
proof fn lemma_parse_keys_err_extends(
    field: Seq<char>,
    names: Seq<Seq<char>>,
    k: int,
    message: Seq<char>,
)
    requires
        0 <= k <= names.len(),
        parse_keys(field, names.take(k)) == Err::<Seq<u16>, Seq<char>>(message),
    ensures
        parse_keys(field, names) == Err::<Seq<u16>, Seq<char>>(message),
    decreases names.len() - k,
{
    if k < names.len() {
        assert(names.take(k + 1).drop_last() =~= names.take(k));
        lemma_parse_keys_err_extends(field, names, k + 1, message);
    } else {
        assert(names.take(k) =~= names);
    }
}


/// The shortcuts used while a physical button turns the ring.
#[derive(Debug, Clone)]
pub struct ButtonGestures {
    pub left_clockwise: Shortcut,
    pub left_counterclockwise: Shortcut,
    pub right_clockwise: Shortcut,
    pub right_counterclockwise: Shortcut,
}

/// The two-finger upward swipe.
#[derive(Debug, Clone)]
pub struct TwoFingerSwipe {
    pub enabled: bool,
    pub distance: i32,
    pub up: Shortcut,
}

/// A resolved configuration (its floating-point settings are held by the front end).
#[derive(Debug, Clone)]
pub struct Config {
    pub path: String,
    pub file_found: bool,
    pub device: Option<String>,
    pub invert_scroll: bool,
    pub tap: bool,
    pub tap_timeout_ms: u64,
    pub tap_move_threshold: i32,
    pub button_gestures: ButtonGestures,
    pub two_finger_swipe: TwoFingerSwipe,
}

/// The `[button_gestures]` table of a configuration file.
#[derive(Debug)]
pub struct FileButtonGestures {
    pub left_clockwise: Option<Vec<String>>,
    pub left_counterclockwise: Option<Vec<String>>,
    pub right_clockwise: Option<Vec<String>>,
    pub right_counterclockwise: Option<Vec<String>>,
}

/// The `[two_finger_swipe]` table of a configuration file.
#[derive(Debug)]
pub struct FileTwoFingerSwipe {
    pub enabled: Option<bool>,
    pub distance: Option<i32>,
    pub up: Option<Vec<String>>,
}

/// The settings a configuration file gives; every one may be absent.
#[derive(Debug)]
pub struct FileConfig {
    pub device: Option<String>,
    pub invert_scroll: Option<bool>,
    pub tap: Option<bool>,
    pub tap_timeout_ms: Option<u64>,
    pub tap_move_threshold: Option<i32>,
    pub button_gestures: Option<FileButtonGestures>,
    pub two_finger_swipe: Option<FileTwoFingerSwipe>,
}

impl FileConfig {
    /// The settings of an empty (or missing) configuration file.
    pub open spec fn spec_empty(self) -> bool {
        &&& self.device is None
        &&& self.invert_scroll is None
        &&& self.tap is None
        &&& self.tap_timeout_ms is None
        &&& self.tap_move_threshold is None
        &&& self.button_gestures is None
        &&& self.two_finger_swipe is None
    }
}

impl Default for FileConfig {
    fn default() -> (r: FileConfig)
        ensures
            r.spec_empty(),
    {
        FileConfig {
            device: None,
            invert_scroll: None,
            tap: None,
            tap_timeout_ms: None,
            tap_move_threshold: None,
            button_gestures: None,
            two_finger_swipe: None,
        }
    }
}

/// Whether each resolved floating-point setting obeys its rule: `pointer` finite
/// and greater than zero, `scroll` finite and zero or greater, `ring` finite and
/// within 0..=1, `button_gestures.step_degrees` finite and within (0, 360].
#[derive(Debug, Clone, Copy)]
pub struct FloatChecks {
    pub pointer_ok: bool,
    pub scroll_ok: bool,
    pub ring_ok: bool,
    pub step_degrees_ok: bool,
}

pub open spec fn or_default<T>(first: Option<T>, second: Option<T>, default: T) -> T {
    match first {
        Some(v) => v,
        None => match second {
            Some(v) => v,
            None => default,
        },
    }
}

pub open spec fn flag_with_override(on: bool, off: bool, file: Option<bool>, default: bool) -> bool {
    if on {
        true
    } else if off {
        false
    } else {
        or_default(file, None, default)
    }
}

pub open spec fn resolved_invert_scroll(cli: Cli, file: FileConfig) -> bool {
    flag_with_override(cli.invert_scroll, cli.no_invert_scroll, file.invert_scroll, false)
}

pub open spec fn resolved_tap(cli: Cli, file: FileConfig) -> bool {
    flag_with_override(cli.tap, cli.no_tap, file.tap, true)
}

pub open spec fn resolved_tap_timeout_ms(cli: Cli, file: FileConfig) -> u64 {
    or_default(cli.tap_timeout, file.tap_timeout_ms, 180)
}

pub open spec fn resolved_tap_move_threshold(cli: Cli, file: FileConfig) -> i32 {
    or_default(cli.tap_move_threshold, file.tap_move_threshold, 20)
}

pub open spec fn resolved_swipe_enabled(file: FileConfig) -> bool {
    match file.two_finger_swipe {
        Some(s) => or_default(s.enabled, None, true),
        None => true,
    }
}

pub open spec fn resolved_swipe_distance(file: FileConfig) -> i32 {
    match file.two_finger_swipe {
        Some(s) => or_default(s.distance, None, 80),
        None => 80,
    }
}

pub open spec fn resolved_device(cli: Cli, file: FileConfig) -> Option<Seq<char>> {
    match cli.device {
        Some(d) => Some(d@),
        None => match file.device {
            Some(d) => Some(d@),
            None => None,
        },
    }
}

/// Names given in a file, or the built-in ones.
pub open spec fn names_or(given: Option<Vec<String>>, default: Seq<Seq<char>>) -> Seq<Seq<char>> {
    match given {
        Some(v) => strings_view(v@),
        None => default,
    }
}

pub open spec fn resolved_left_clockwise(file: FileConfig) -> Seq<Seq<char>> {
    let d = seq!["KEY_LEFTALT"@, "KEY_ESC"@];
    match file.button_gestures {
        Some(b) => names_or(b.left_clockwise, d),
        None => d,
    }
}

pub open spec fn resolved_left_counterclockwise(file: FileConfig) -> Seq<Seq<char>> {
    let d = seq!["KEY_LEFTSHIFT"@, "KEY_LEFTALT"@, "KEY_ESC"@];
    match file.button_gestures {
        Some(b) => names_or(b.left_counterclockwise, d),
        None => d,
    }
}

pub open spec fn resolved_right_clockwise(file: FileConfig) -> Seq<Seq<char>> {
    let d = seq!["KEY_LEFTMETA"@, "KEY_PAGEDOWN"@];
    match file.button_gestures {
        Some(b) => names_or(b.right_clockwise, d),
        None => d,
    }
}

pub open spec fn resolved_right_counterclockwise(file: FileConfig) -> Seq<Seq<char>> {
    let d = seq!["KEY_LEFTMETA"@, "KEY_PAGEUP"@];
    match file.button_gestures {
        Some(b) => names_or(b.right_counterclockwise, d),
        None => d,
    }
}

pub open spec fn resolved_swipe_up(file: FileConfig) -> Seq<Seq<char>> {
    let d = seq!["KEY_LEFTMETA"@];
    match file.two_finger_swipe {
        Some(s) => names_or(s.up, d),
        None => d,
    }
}

/// The first rule, other than a shortcut's, that the resolved settings break.
pub open spec fn settings_error(cli: Cli, file: FileConfig, floats: FloatChecks) -> Option<
    Seq<char>,
> {
    let threshold = resolved_tap_move_threshold(cli, file);
    if !floats.pointer_ok {
        Some("pointer must be finite and greater than zero"@)
    } else if !floats.scroll_ok {
        Some("scroll must be finite and zero or greater"@)
    } else if !floats.ring_ok {
        Some("ring must be finite and within 0.0..=1.0"@)
    } else if resolved_tap_timeout_ms(cli, file) == 0 {
        Some("tap_timeout_ms must be greater than zero"@)
    } else if threshold < 0 {
        Some("tap_move_threshold must be zero or greater"@)
    } else if !floats.step_degrees_ok {
        Some("button_gestures.step_degrees must be within 0.0 (exclusive)..=360.0"@)
    } else if resolved_swipe_distance(file) <= threshold {
        Some("two_finger_swipe.distance must be greater than tap_move_threshold"@)
    } else if resolved_device(cli, file) matches Some(d) && d.len() == 0 {
        Some("device must not be empty"@)
    } else {
        None
    }
}

pub open spec fn error_of(r: Result<Seq<u16>, Seq<char>>) -> Option<Seq<char>> {
    match r {
        Ok(_) => None,
        Err(m) => Some(m),
    }
}

pub open spec fn left_clockwise_result(file: FileConfig) -> Result<Seq<u16>, Seq<char>> {
    spec_parse_shortcut("button_gestures.left_clockwise"@, resolved_left_clockwise(file))
}

pub open spec fn left_counterclockwise_result(file: FileConfig) -> Result<Seq<u16>, Seq<char>> {
    spec_parse_shortcut(
        "button_gestures.left_counterclockwise"@,
        resolved_left_counterclockwise(file),
    )
}

pub open spec fn right_clockwise_result(file: FileConfig) -> Result<Seq<u16>, Seq<char>> {
    spec_parse_shortcut("button_gestures.right_clockwise"@, resolved_right_clockwise(file))
}

pub open spec fn right_counterclockwise_result(file: FileConfig) -> Result<Seq<u16>, Seq<char>> {
    spec_parse_shortcut(
        "button_gestures.right_counterclockwise"@,
        resolved_right_counterclockwise(file),
    )
}

pub open spec fn swipe_up_result(file: FileConfig) -> Result<Seq<u16>, Seq<char>> {
    spec_parse_shortcut("two_finger_swipe.up"@, resolved_swipe_up(file))
}

/// The message of the first rule that the configuration breaks, checked in
/// order: the scalar settings, then the shortcuts.
pub open spec fn resolve_error(cli: Cli, file: FileConfig, floats: FloatChecks) -> Option<
    Seq<char>,
> {
    if settings_error(cli, file, floats) is Some {
        settings_error(cli, file, floats)
    } else if left_clockwise_result(file) is Err {
        error_of(left_clockwise_result(file))
    } else if left_counterclockwise_result(file) is Err {
        error_of(left_counterclockwise_result(file))
    } else if right_clockwise_result(file) is Err {
        error_of(right_clockwise_result(file))
    } else if right_counterclockwise_result(file) is Err {
        error_of(right_counterclockwise_result(file))
    } else {
        error_of(swipe_up_result(file))
    }
}

/// The configuration resolved from the command line and the file matches every
/// resolved value: the command line wins over the file, the file over the defaults.
pub open spec fn config_matches(
    c: Config,
    cli: Cli,
    file: FileConfig,
    path: Seq<char>,
    file_found: bool,
) -> bool {
    &&& c.path@ == path
    &&& c.file_found == file_found
    &&& (match c.device {
        Some(d) => resolved_device(cli, file) == Some(d@),
        None => resolved_device(cli, file) is None,
    })
    &&& c.invert_scroll == resolved_invert_scroll(cli, file)
    &&& c.tap == resolved_tap(cli, file)
    &&& c.tap_timeout_ms == resolved_tap_timeout_ms(cli, file)
    &&& c.tap_move_threshold == resolved_tap_move_threshold(cli, file)
    &&& left_clockwise_result(file) == Ok::<Seq<u16>, Seq<char>>(
        c.button_gestures.left_clockwise.0@,
    )
    &&& left_counterclockwise_result(file) == Ok::<Seq<u16>, Seq<char>>(
        c.button_gestures.left_counterclockwise.0@,
    )
    &&& right_clockwise_result(file) == Ok::<Seq<u16>, Seq<char>>(
        c.button_gestures.right_clockwise.0@,
    )
    &&& right_counterclockwise_result(file) == Ok::<Seq<u16>, Seq<char>>(
        c.button_gestures.right_counterclockwise.0@,
    )
    &&& c.two_finger_swipe.enabled == resolved_swipe_enabled(file)
    &&& c.two_finger_swipe.distance == resolved_swipe_distance(file)
    &&& swipe_up_result(file) == Ok::<Seq<u16>, Seq<char>>(c.two_finger_swipe.up.0@)
}

fn names_or_default(given: Option<Vec<String>>, default: &[&str]) -> (r: Vec<String>)
    ensures
        strings_view(r@) == names_or(given, default@.map_values(|s: &str| s@)),
{
    match given {
        Some(v) => v,
        None => {
            let r = key_names(default);
            assert(strings_view(r@) =~= default@.map_values(|s: &str| s@));
            r
        },
    }
}

fn text(s: &str) -> (r: String)
    ensures
        r@ == s@,
{
    String::from_str(s)
}

fn resolve_tap_timeout_ms(cli: &Cli, file: &FileConfig) -> (r: u64)
    ensures
        r == resolved_tap_timeout_ms(*cli, *file),
{
    match cli.tap_timeout {
        Some(v) => v,
        None => match file.tap_timeout_ms {
            Some(v) => v,
            None => 180,
        },
    }
}

fn resolve_tap_move_threshold(cli: &Cli, file: &FileConfig) -> (r: i32)
    ensures
        r == resolved_tap_move_threshold(*cli, *file),
{
    match cli.tap_move_threshold {
        Some(v) => v,
        None => match file.tap_move_threshold {
            Some(v) => v,
            None => 20,
        },
    }
}

fn resolve_flag(on: bool, off: bool, file: Option<bool>, default: bool) -> (r: bool)
    ensures
        r == flag_with_override(on, off, file, default),
{
    if on {
        true
    } else if off {
        false
    } else {
        match file {
            Some(v) => v,
            None => default,
        }
    }
}

fn resolve_swipe(file: &FileConfig) -> (r: (bool, i32))
    ensures
        r.0 == resolved_swipe_enabled(*file),
        r.1 == resolved_swipe_distance(*file),
{
    match &file.two_finger_swipe {
        Some(s) => (
            match s.enabled {
                Some(v) => v,
                None => true,
            },
            match s.distance {
                Some(v) => v,
                None => 80,
            },
        ),
        None => (true, 80),
    }
}

fn resolve_device(cli: &Cli, file: &FileConfig) -> (r: Option<String>)
    ensures
        match r {
            Some(d) => resolved_device(*cli, *file) == Some(d@),
            None => resolved_device(*cli, *file) is None,
        },
{
    match &cli.device {
        Some(d) => Some(d.clone()),
        None => match &file.device {
            Some(d) => Some(d.clone()),
            None => None,
        },
    }
}

/// Checks the scalar settings in order and reports the first rule broken.
fn check_settings(cli: &Cli, file: &FileConfig, floats: FloatChecks, device: &Option<String>) -> (r:
    Result<(), ConfigError>)
    requires
        match device {
            Some(d) => resolved_device(*cli, *file) == Some(d@),
            None => resolved_device(*cli, *file) is None,
        },
    ensures
        match r {
            Ok(_) => settings_error(*cli, *file, floats) is None,
            Err(e) => settings_error(*cli, *file, floats) == Some(e@),
        },
{
    let tap_timeout_ms = resolve_tap_timeout_ms(cli, file);
    let tap_move_threshold = resolve_tap_move_threshold(cli, file);
    let (_, swipe_distance) = resolve_swipe(file);
    if !floats.pointer_ok {
        return Err(ConfigError::new(text("pointer must be finite and greater than zero")));
    }
    if !floats.scroll_ok {
        return Err(ConfigError::new(text("scroll must be finite and zero or greater")));
    }
    if !floats.ring_ok {
        return Err(ConfigError::new(text("ring must be finite and within 0.0..=1.0")));
    }
    if tap_timeout_ms == 0 {
        return Err(ConfigError::new(text("tap_timeout_ms must be greater than zero")));
    }
    if tap_move_threshold < 0 {
        return Err(ConfigError::new(text("tap_move_threshold must be zero or greater")));
    }
    if !floats.step_degrees_ok {
        return Err(
            ConfigError::new(
                text("button_gestures.step_degrees must be within 0.0 (exclusive)..=360.0"),
            ),
        );
    }
    if swipe_distance <= tap_move_threshold {
        return Err(
            ConfigError::new(
                text("two_finger_swipe.distance must be greater than tap_move_threshold"),
            ),
        );
    }
    if let Some(d) = device {
        if d.as_str().is_empty() {
            return Err(ConfigError::new(text("device must not be empty")));
        }
    }
    Ok(())
}

/// Reads the five shortcuts of a file, in order, with the built-in ones for
/// those it does not give.
fn parse_shortcuts(file: FileConfig) -> (r: Result<(ButtonGestures, Shortcut), ConfigError>)
    ensures
        match r {
            Ok((b, up)) => {
                &&& left_clockwise_result(file) == Ok::<Seq<u16>, Seq<char>>(b.left_clockwise.0@)
                &&& left_counterclockwise_result(file) == Ok::<Seq<u16>, Seq<char>>(
                    b.left_counterclockwise.0@,
                )
                &&& right_clockwise_result(file) == Ok::<Seq<u16>, Seq<char>>(
                    b.right_clockwise.0@,
                )
                &&& right_counterclockwise_result(file) == Ok::<Seq<u16>, Seq<char>>(
                    b.right_counterclockwise.0@,
                )
                &&& swipe_up_result(file) == Ok::<Seq<u16>, Seq<char>>(up.0@)
            },
            Err(e) => {
                ||| left_clockwise_result(file) == Err::<Seq<u16>, Seq<char>>(e@)
                ||| left_clockwise_result(file) is Ok && left_counterclockwise_result(file)
                    == Err::<Seq<u16>, Seq<char>>(e@)
                ||| left_clockwise_result(file) is Ok && left_counterclockwise_result(file) is Ok
                    && right_clockwise_result(file) == Err::<Seq<u16>, Seq<char>>(e@)
                ||| left_clockwise_result(file) is Ok && left_counterclockwise_result(file) is Ok
                    && right_clockwise_result(file) is Ok && right_counterclockwise_result(file)
                    == Err::<Seq<u16>, Seq<char>>(e@)
                ||| left_clockwise_result(file) is Ok && left_counterclockwise_result(file) is Ok
                    && right_clockwise_result(file) is Ok && right_counterclockwise_result(file) is Ok
                    && swipe_up_result(file) == Err::<Seq<u16>, Seq<char>>(e@)
            },
        },
{
    let ghost f = file;
    let (lc, lcc, rc, rcc) = match file.button_gestures {
        Some(b) => (
            b.left_clockwise,
            b.left_counterclockwise,
            b.right_clockwise,
            b.right_counterclockwise,
        ),
        None => (None, None, None, None),
    };
    let up = match file.two_finger_swipe {
        Some(s) => s.up,
        None => None,
    };
    let lc_names = names_or_default(lc, &["KEY_LEFTALT", "KEY_ESC"]);
    assert(strings_view(lc_names@) == resolved_left_clockwise(f));
    let left_clockwise = Shortcut::parse("button_gestures.left_clockwise", lc_names)?;
    let lcc_names = names_or_default(lcc, &["KEY_LEFTSHIFT", "KEY_LEFTALT", "KEY_ESC"]);
    assert(strings_view(lcc_names@) == resolved_left_counterclockwise(f));
    let left_counterclockwise = Shortcut::parse(
        "button_gestures.left_counterclockwise",
        lcc_names,
    )?;
    let rc_names = names_or_default(rc, &["KEY_LEFTMETA", "KEY_PAGEDOWN"]);
    assert(strings_view(rc_names@) == resolved_right_clockwise(f));
    let right_clockwise = Shortcut::parse("button_gestures.right_clockwise", rc_names)?;
    let rcc_names = names_or_default(rcc, &["KEY_LEFTMETA", "KEY_PAGEUP"]);
    assert(strings_view(rcc_names@) == resolved_right_counterclockwise(f));
    let right_counterclockwise = Shortcut::parse(
        "button_gestures.right_counterclockwise",
        rcc_names,
    )?;
    let up_names = names_or_default(up, &["KEY_LEFTMETA"]);
    assert(strings_view(up_names@) == resolved_swipe_up(f));
    let up = Shortcut::parse("two_finger_swipe.up", up_names)?;
    Ok(
        (
            ButtonGestures {
                left_clockwise,
                left_counterclockwise,
                right_clockwise,
                right_counterclockwise,
            },
            up,
        ),
    )
}

/// Resolves the configuration from the command line, the settings a file gave
/// (`file_found` tells whether the file at `path` existed) and the outcome of
/// the floating-point rules.
pub fn resolve(cli: &Cli, file: FileConfig, file_found: bool, path: String, floats: FloatChecks) -> (r:
    Result<Config, ConfigError>)
    ensures
        match r {
            Ok(c) => resolve_error(*cli, file, floats) is None && config_matches(
                c,
                *cli,
                file,
                path@,
                file_found,
            ),
            Err(e) => resolve_error(*cli, file, floats) == Some(e@),
        },
        r matches Ok(c) ==> (file.two_finger_swipe matches Some(s) ==> (s.enabled matches Some(v)
            ==> c.two_finger_swipe.enabled == v)),
        r matches Ok(c) ==> (file.two_finger_swipe is None || file.two_finger_swipe->Some_0.enabled is None
            ==> c.two_finger_swipe.enabled),
        r matches Ok(c) ==> (file.two_finger_swipe matches Some(s) ==> (s.distance matches Some(d)
            ==> c.two_finger_swipe.distance == d)),
        r matches Ok(c) ==> c.tap_timeout_ms > 0 && c.tap_move_threshold >= 0
            && c.two_finger_swipe.distance > c.tap_move_threshold,
{
    let tap_timeout_ms = resolve_tap_timeout_ms(cli, &file);
    let tap_move_threshold = resolve_tap_move_threshold(cli, &file);
    let invert_scroll = resolve_flag(cli.invert_scroll, cli.no_invert_scroll, file.invert_scroll, false);
    let tap = resolve_flag(cli.tap, cli.no_tap, file.tap, true);
    let (swipe_enabled, swipe_distance) = resolve_swipe(&file);
    let device = resolve_device(cli, &file);
    check_settings(cli, &file, floats, &device)?;
    let (button_gestures, up) = parse_shortcuts(file)?;
    Ok(Config {
        path,
        file_found,
        device,
        invert_scroll,
        tap,
        tap_timeout_ms,
        tap_move_threshold,
        button_gestures,
        two_finger_swipe: TwoFingerSwipe { enabled: swipe_enabled, distance: swipe_distance, up },
    })
}


/// Whether `code` is a key of one of the configured shortcuts.
pub open spec fn shortcut_key(c: Config, code: u16) -> bool {
    ||| c.button_gestures.left_clockwise.0@.contains(code)
    ||| c.button_gestures.left_counterclockwise.0@.contains(code)
    ||| c.button_gestures.right_clockwise.0@.contains(code)
    ||| c.button_gestures.right_counterclockwise.0@.contains(code)
    ||| c.two_finger_swipe.up.0@.contains(code)
}

fn add_keys(keys: &mut Vec<u16>, shortcut: &Shortcut)
    requires
        old(keys)@.no_duplicates(),
    ensures
        final(keys)@.no_duplicates(),
        forall|k: u16|
            #[trigger] final(keys)@.contains(k) <==> (old(keys)@.contains(k)
                || shortcut.0@.contains(k)),
{
    let mut i: usize = 0;
    while i < shortcut.0.len()
        invariant
            i <= shortcut.0@.len(),
            keys@.no_duplicates(),
            forall|k: u16|
                #[trigger] keys@.contains(k) <==> (old(keys)@.contains(k) || exists|j: int|
                    0 <= j < i && shortcut.0@[j] == k),
        decreases shortcut.0@.len() - i,
    {
        let code = shortcut.0[i];
        let ghost prev = keys@;
        if !contains_code(keys, code) {
            keys.push(code);
            assert(keys@[keys@.len() - 1] == code);
            assert forall|k: u16| #[trigger] keys@.contains(k) implies prev.contains(k) || k == code by {
                let j = choose|j: int| 0 <= j < keys@.len() && keys@[j] == k;
                if j < prev.len() {
                    assert(prev[j] == k);
                }
            }
            assert forall|k: u16| prev.contains(k) implies #[trigger] keys@.contains(k) by {
                let j = choose|j: int| 0 <= j < prev.len() && prev[j] == k;
                assert(keys@[j] == k);
            }
        }
        assert(keys@.contains(code));
        assert forall|k: u16| #[trigger]
            keys@.contains(k) <==> (old(keys)@.contains(k) || exists|j: int|
                0 <= j < i + 1 && shortcut.0@[j] == k) by {
            if exists|j: int| 0 <= j < i + 1 && shortcut.0@[j] == k {
                let j = choose|j: int| 0 <= j < i + 1 && shortcut.0@[j] == k;
                if j < i {
                    assert(prev.contains(k));
                }
            }
            if keys@.contains(k) && !old(keys)@.contains(k) && !prev.contains(k) {
                assert(0 <= i < i + 1 && shortcut.0@[i as int] == k);
            }
        }
        i = i + 1;
    }
    assert forall|k: u16| #[trigger]
        keys@.contains(k) <==> (old(keys)@.contains(k) || shortcut.0@.contains(k)) by {
        if shortcut.0@.contains(k) {
            let j = choose|j: int| 0 <= j < shortcut.0@.len() && shortcut.0@[j] == k;
            assert(0 <= j < i && shortcut.0@[j] == k);
        }
    }
}

impl Config {
    /// The codes of every key that some shortcut presses, each once.
    pub fn keyboard_keys(&self) -> (keys: Vec<u16>)
        ensures
            keys@.no_duplicates(),
            forall|code: u16| #[trigger] keys@.contains(code) <==> shortcut_key(*self, code),
    {
        let mut keys: Vec<u16> = Vec::new();
        add_keys(&mut keys, &self.button_gestures.left_clockwise);
        add_keys(&mut keys, &self.button_gestures.left_counterclockwise);
        add_keys(&mut keys, &self.button_gestures.right_clockwise);
        add_keys(&mut keys, &self.button_gestures.right_counterclockwise);
        add_keys(&mut keys, &self.two_finger_swipe.up);
        keys
    }
}

/// `rel` appended to `base` as one more path component: a separator goes
/// between them unless `base` is empty or already ends in one.
pub open spec fn path_join(base: Seq<char>, rel: Seq<char>) -> Seq<char> {
    if base.len() > 0 && base.last() != '/' {
        base + seq!['/'] + rel
    } else {
        base + rel
    }
}

/// Where the configuration file lives, given `XDG_CONFIG_HOME` and `HOME`:
/// a non-empty `XDG_CONFIG_HOME` is used and must be absolute; otherwise a
/// non-empty `HOME` is used.
pub open spec fn spec_config_path(xdg: Option<Seq<char>>, home: Option<Seq<char>>) -> Result<
    Seq<char>,
    Seq<char>,
> {
    if xdg matches Some(x) && x.len() > 0 {
        let x = xdg.unwrap();
        if x[0] == '/' {
            Ok(path_join(x, "circulartrackpad/config.toml"@))
        } else {
            Err("XDG_CONFIG_HOME must be an absolute path"@)
        }
    } else if home matches Some(h) && h.len() > 0 {
        Ok(path_join(home.unwrap(), ".config/circulartrackpad/config.toml"@))
    } else {
        Err("HOME is not set; cannot locate user configuration"@)
    }
}

pub open spec fn opt_view(s: Option<String>) -> Option<Seq<char>> {
    match s {
        Some(v) => Some(v@),
        None => None,
    }
}

fn join_path(base: String, rel: &str) -> (r: String)
    ensures
        r@ == path_join(base@, rel@),
{
    let n = base.as_str().unicode_len();
    let mut r = base;
    if n > 0 && r.as_str().get_char(n - 1) != '/' {
        r.append("/");
        proof {
            reveal_strlit("/");
        }
        assert("/"@ =~= seq!['/']);
    }
    r.append(rel);
    r
}

/// The configuration file's path from the values of `XDG_CONFIG_HOME` and `HOME`.
pub fn config_path_from(xdg_config_home: Option<String>, home: Option<String>) -> (r: Result<
    String,
    ConfigError,
>)
    ensures
        match r {
            Ok(p) => spec_config_path(opt_view(xdg_config_home), opt_view(home)) == Ok::<
                Seq<char>,
                Seq<char>,
            >(p@),
            Err(e) => spec_config_path(opt_view(xdg_config_home), opt_view(home)) == Err::<
                Seq<char>,
                Seq<char>,
            >(e@),
        },
{
    if let Some(x) = xdg_config_home {
        if x.as_str().unicode_len() > 0 {
            if x.as_str().get_char(0) != '/' {
                return Err(ConfigError::new(text("XDG_CONFIG_HOME must be an absolute path")));
            }
            return Ok(join_path(x, "circulartrackpad/config.toml"));
        }
    }
    if let Some(h) = home {
        if h.as_str().unicode_len() > 0 {
            return Ok(join_path(h, ".config/circulartrackpad/config.toml"));
        }
    }
    Err(ConfigError::new(text("HOME is not set; cannot locate user configuration")))
}

/// The views of a list of string slices.
pub open spec fn strs_view(args: Seq<&str>) -> Seq<Seq<char>> {
    args.map_values(|a: &str| a@)
}

/// Restarts the service through `runner`, which is handed the program and its
/// arguments; a failure it reports becomes a configuration error.
pub fn restart_service_with<F>(runner: F) -> (r: Result<(), ConfigError>) where
    F: Fn(&str, &[&str]) -> Result<(), String>,

    requires
        forall|program: &str, args: &[&str]| #[trigger] runner.requires((program, args)),
    ensures
        exists|program: &str, args: &[&str], out: Result<(), String>|
            {
                &&& #[trigger] runner.ensures((program, args), out)
                &&& program@ == "systemctl"@
                &&& strs_view(args@) == seq!["--user"@, "restart"@, "circulartrackpad.service"@]
                &&& match out {
                    Ok(_) => r is Ok,
                    Err(m) => r matches Err(e) && e@ == "failed to restart service: "@ + m@,
                }
            },
{
    let args: [&str; 3] = ["--user", "restart", "circulartrackpad.service"];
    let program: &str = "systemctl";
    let slice: &[&str] = args.as_slice();
    let out = runner(program, slice);
    assert(strs_view(slice@) =~= seq![
        "--user"@,
        "restart"@,
        "circulartrackpad.service"@,
    ]);
    match out {
        Ok(()) => Ok(()),
        Err(m) => {
            let mut message = text("failed to restart service: ");
            message.append(m.as_str());
            Err(ConfigError::new(message))
        },
    }
}

} // verus!
