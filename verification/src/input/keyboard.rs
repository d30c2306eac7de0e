//! The keyboard of the host: its settings, its events and which of its
//! keys are down.

use crate::emulator::timers::instant_now;
use crate::error::InputError;
use vstd::prelude::*;

verus! {

/// Result of an operation of the input system.
pub type InputSystemResult<T> = Result<T, InputError>;

/// How keyboard events are taken.
#[derive(Debug, Clone)]
pub struct KeyboardConfig {
    /// Whether keyboard events are taken at all.
    pub capture_enabled: bool,
    /// How often per second the keyboard is polled.
    pub polling_rate: u32,
    /// Whether repeat events are taken.
    pub handle_repeats: bool,
    /// Least time between repeat events, in milliseconds.
    pub repeat_delay: u32,
    /// Whether raw input is used where there is any.
    pub use_raw_input: bool,
}

/// The settings that a new keyboard configuration starts with.
pub open spec fn default_keyboard() -> KeyboardConfig {
    KeyboardConfig {
        capture_enabled: true,
        polling_rate: 60,
        handle_repeats: false,
        repeat_delay: 500,
        use_raw_input: false,
    }
}

impl Default for KeyboardConfig {
    fn default() -> (config: Self)
        ensures
            config == default_keyboard(),
    {
        Self {
            capture_enabled: true,
            polling_rate: 60,
            handle_repeats: false,
            repeat_delay: 500,
            use_raw_input: false,
        }
    }
}

impl KeyboardConfig {
    /// The default settings.
    pub fn new() -> (config: Self)
        ensures
            config == default_keyboard(),
    {
        Self::default()
    }

    /// These settings with capture on or off.
    pub fn with_capture_enabled(self, enabled: bool) -> (config: Self)
        ensures
            config == (KeyboardConfig { capture_enabled: enabled, ..self }),
    {
        let mut config = self;
        config.capture_enabled = enabled;
        config
    }

    /// These settings with another polling rate.
    pub fn with_polling_rate(self, rate: u32) -> (config: Self)
        ensures
            config == (KeyboardConfig { polling_rate: rate, ..self }),
    {
        let mut config = self;
        config.polling_rate = rate;
        config
    }

    /// These settings with repeat events taken or not.
    pub fn with_handle_repeats(self, handle: bool) -> (config: Self)
        ensures
            config == (KeyboardConfig { handle_repeats: handle, ..self }),
    {
        let mut config = self;
        config.handle_repeats = handle;
        config
    }

    /// These settings with another repeat delay.
    pub fn with_repeat_delay(self, delay: u32) -> (config: Self)
        ensures
            config == (KeyboardConfig { repeat_delay: delay, ..self }),
    {
        let mut config = self;
        config.repeat_delay = delay;
        config
    }

    /// These settings with raw input on or off.
    pub fn with_raw_input(self, raw: bool) -> (config: Self)
        ensures
            config == (KeyboardConfig { use_raw_input: raw, ..self }),
    {
        let mut config = self;
        config.use_raw_input = raw;
        config
    }

    /// Settings for games: fast polling, no repeats, raw input.
    pub fn gaming() -> (config: Self)
        ensures
            config == (KeyboardConfig {
                polling_rate: 120,
                handle_repeats: false,
                use_raw_input: true,
                ..default_keyboard()
            }),
    {
        Self::new().with_polling_rate(120).with_handle_repeats(false).with_raw_input(true)
    }

    /// Settings for the desktop: repeats are taken.
    pub fn desktop() -> (config: Self)
        ensures
            config == (KeyboardConfig {
                polling_rate: 60,
                handle_repeats: true,
                use_raw_input: false,
                ..default_keyboard()
            }),
    {
        Self::new().with_polling_rate(60).with_handle_repeats(true).with_raw_input(false)
    }
}

/// The keys of a keyboard by their place.
#[derive(Debug, Clone, Copy, PartialEq, Eq, Hash, Structural)]
pub enum PhysicalKey {
    Key1,
    Key2,
    Key3,
    Key4,
    Key5,
    Key6,
    Key7,
    Key8,
    Key9,
    Key0,
    KeyQ,
    KeyW,
    KeyE,
    KeyR,
    KeyT,
    KeyY,
    KeyU,
    KeyI,
    KeyO,
    KeyP,
    KeyA,
    KeyS,
    KeyD,
    KeyF,
    KeyG,
    KeyH,
    KeyJ,
    KeyK,
    KeyL,
    KeyZ,
    KeyX,
    KeyC,
    KeyV,
    KeyB,
    KeyN,
    KeyM,
    Space,
    Enter,
    Escape,
    Backspace,
    Tab,
    LeftShift,
    RightShift,
    LeftCtrl,
    RightCtrl,
    LeftAlt,
    RightAlt,
    ArrowUp,
    ArrowDown,
    ArrowLeft,
    ArrowRight,
    F1,
    F2,
    F3,
    F4,
    F5,
    F6,
    F7,
    F8,
    F9,
    F10,
    F11,
    F12,
    /// A key that has no name here, with its scan code.
    Unknown(u32),
}

/// The keys of a keyboard by what the layout makes of them.
#[derive(Debug, Clone, Copy, PartialEq, Eq, Hash, Structural)]
pub enum LogicalKey {
    /// A key that produces a character.
    Character(char),
    /// A key with a name.
    Named(NamedKey),
    /// A key of which nothing is known.
    Unidentified,
}

/// The keys that have a name.
#[derive(Debug, Clone, Copy, PartialEq, Eq, Hash, Structural)]
pub enum NamedKey {
    Space,
    Enter,
    Escape,
    Backspace,
    Tab,
    ArrowUp,
    ArrowDown,
    ArrowLeft,
    ArrowRight,
    F1,
    F2,
    F3,
    F4,
    F5,
    F6,
    F7,
    F8,
    F9,
    F10,
    F11,
    F12,
    Shift,
    Control,
    Alt,
}

/// Whether a key went down or up.
#[derive(Debug, Clone, Copy, PartialEq, Eq, Structural)]
pub enum KeyState {
    Pressed,
    Released,
}

/// A key going down or up.
#[derive(Debug, Clone, PartialEq, Eq)]
pub struct KeyboardEvent {
    /// The key by its place.
    pub physical_key: PhysicalKey,
    /// The key by what the layout makes of it.
    pub logical_key: LogicalKey,
    /// Whether the key went down or up.
    pub state: KeyState,
    /// Whether the event repeats an earlier one.
    pub is_repeat: bool,
    /// When the event happened.
    pub timestamp: std::time::Instant,
}

/// What the basic layout makes of a key.
pub open spec fn logical_key_of(physical: PhysicalKey) -> LogicalKey {
    match physical {
        PhysicalKey::Key1 => LogicalKey::Character('1'),
        PhysicalKey::Key2 => LogicalKey::Character('2'),
        PhysicalKey::Key3 => LogicalKey::Character('3'),
        PhysicalKey::Key4 => LogicalKey::Character('4'),
        PhysicalKey::Key5 => LogicalKey::Character('5'),
        PhysicalKey::Key6 => LogicalKey::Character('6'),
        PhysicalKey::Key7 => LogicalKey::Character('7'),
        PhysicalKey::Key8 => LogicalKey::Character('8'),
        PhysicalKey::Key9 => LogicalKey::Character('9'),
        PhysicalKey::Key0 => LogicalKey::Character('0'),
        PhysicalKey::KeyQ => LogicalKey::Character('q'),
        PhysicalKey::KeyW => LogicalKey::Character('w'),
        PhysicalKey::KeyE => LogicalKey::Character('e'),
        PhysicalKey::KeyR => LogicalKey::Character('r'),
        PhysicalKey::KeyT => LogicalKey::Character('t'),
        PhysicalKey::KeyY => LogicalKey::Character('y'),
        PhysicalKey::KeyU => LogicalKey::Character('u'),
        PhysicalKey::KeyI => LogicalKey::Character('i'),
        PhysicalKey::KeyO => LogicalKey::Character('o'),
        PhysicalKey::KeyP => LogicalKey::Character('p'),
        PhysicalKey::KeyA => LogicalKey::Character('a'),
        PhysicalKey::KeyS => LogicalKey::Character('s'),
        PhysicalKey::KeyD => LogicalKey::Character('d'),
        PhysicalKey::KeyF => LogicalKey::Character('f'),
        PhysicalKey::KeyG => LogicalKey::Character('g'),
        PhysicalKey::KeyH => LogicalKey::Character('h'),
        PhysicalKey::KeyJ => LogicalKey::Character('j'),
        PhysicalKey::KeyK => LogicalKey::Character('k'),
        PhysicalKey::KeyL => LogicalKey::Character('l'),
        PhysicalKey::KeyZ => LogicalKey::Character('z'),
        PhysicalKey::KeyX => LogicalKey::Character('x'),
        PhysicalKey::KeyC => LogicalKey::Character('c'),
        PhysicalKey::KeyV => LogicalKey::Character('v'),
        PhysicalKey::KeyB => LogicalKey::Character('b'),
        PhysicalKey::KeyN => LogicalKey::Character('n'),
        PhysicalKey::KeyM => LogicalKey::Character('m'),
        PhysicalKey::Space => LogicalKey::Named(NamedKey::Space),
        PhysicalKey::Enter => LogicalKey::Named(NamedKey::Enter),
        PhysicalKey::Escape => LogicalKey::Named(NamedKey::Escape),
        PhysicalKey::Backspace => LogicalKey::Named(NamedKey::Backspace),
        PhysicalKey::Tab => LogicalKey::Named(NamedKey::Tab),
        PhysicalKey::LeftShift | PhysicalKey::RightShift => LogicalKey::Named(NamedKey::Shift),
        PhysicalKey::LeftCtrl | PhysicalKey::RightCtrl => LogicalKey::Named(NamedKey::Control),
        PhysicalKey::LeftAlt | PhysicalKey::RightAlt => LogicalKey::Named(NamedKey::Alt),
        PhysicalKey::ArrowUp => LogicalKey::Named(NamedKey::ArrowUp),
        PhysicalKey::ArrowDown => LogicalKey::Named(NamedKey::ArrowDown),
        PhysicalKey::ArrowLeft => LogicalKey::Named(NamedKey::ArrowLeft),
        PhysicalKey::ArrowRight => LogicalKey::Named(NamedKey::ArrowRight),
        PhysicalKey::F1 => LogicalKey::Named(NamedKey::F1),
        PhysicalKey::F2 => LogicalKey::Named(NamedKey::F2),
        PhysicalKey::F3 => LogicalKey::Named(NamedKey::F3),
        PhysicalKey::F4 => LogicalKey::Named(NamedKey::F4),
        PhysicalKey::F5 => LogicalKey::Named(NamedKey::F5),
        PhysicalKey::F6 => LogicalKey::Named(NamedKey::F6),
        PhysicalKey::F7 => LogicalKey::Named(NamedKey::F7),
        PhysicalKey::F8 => LogicalKey::Named(NamedKey::F8),
        PhysicalKey::F9 => LogicalKey::Named(NamedKey::F9),
        PhysicalKey::F10 => LogicalKey::Named(NamedKey::F10),
        PhysicalKey::F11 => LogicalKey::Named(NamedKey::F11),
        PhysicalKey::F12 => LogicalKey::Named(NamedKey::F12),
        PhysicalKey::Unknown(_) => LogicalKey::Unidentified,
    }
}

/// Whether a keyboard with these settings takes the event.
pub open spec fn takes_event(config: KeyboardConfig, event: KeyboardEvent) -> bool {
    config.capture_enabled && !(event.is_repeat && !config.handle_repeats)
}

/// What a sequence contains after a push: what it contained, and what was
/// pushed.
proof fn lemma_contains_push<T>(s: Seq<T>, x: T, k: T)
    ensures
        s.push(x).contains(k) <==> (s.contains(k) || k == x),
{
    if s.contains(k) {
        let at = choose|at: int| 0 <= at < s.len() && s[at] == k;
        assert(s.push(x)[at] == k);
    }
    if k == x {
        assert(s.push(x)[s.len() as int] == k);
    }
    if s.push(x).contains(k) {
        let at = choose|at: int| 0 <= at < s.push(x).len() && s.push(x)[at] == k;
        if at < s.len() {
            assert(s[at] == k);
        }
    }
}

/// Pushing what a sequence without duplicates does not contain leaves it
/// without duplicates.
proof fn lemma_no_duplicates_push<T>(s: Seq<T>, x: T)
    requires
        s.no_duplicates(),
        !s.contains(x),
    ensures
        s.push(x).no_duplicates(),
{
    let t = s.push(x);
    assert forall|a: int, b: int| 0 <= a < t.len() && 0 <= b < t.len() && a != b implies t[a]
        != t[b] by {
        if a < s.len() && b < s.len() {
            assert(s[a] != s[b]);
        } else if a < s.len() {
            assert(s.contains(s[a]));
        } else {
            assert(s.contains(s[b]));
        }
    }
}

/// The keys that are down, each once.
struct KeysDown {
    keys: Vec<PhysicalKey>,
}

impl KeysDown {
    #[verifier::type_invariant]
    spec fn well_formed(&self) -> bool {
        self.keys@.no_duplicates()
    }

    /// Whether `key` is down.
    closed spec fn holds(&self, key: PhysicalKey) -> bool {
        self.keys@.contains(key)
    }

    /// No key down.
    fn new() -> (keys: Self)
        ensures
            forall|k: PhysicalKey| !keys.holds(k),
    {
        Self { keys: Vec::new() }
    }

    /// Whether `key` is down.
    fn contains(&self, key: PhysicalKey) -> (down: bool)
        ensures
            down == self.holds(key),
    {
        let mut i: usize = 0;
        while i < self.keys.len()
            invariant
                i <= self.keys@.len(),
                forall|j: int| 0 <= j < i ==> self.keys@[j] != key,
            decreases self.keys@.len() - i,
        {
            if self.keys[i] == key {
                return true;
            }
            i += 1;
        }
        false
    }

    /// Puts `key` down or lets it up.
    fn set(&mut self, key: PhysicalKey, down: bool)
        ensures
            forall|k: PhysicalKey|
                final(self).holds(k) == (if k == key {
                    down
                } else {
                    old(self).holds(k)
                }),
    {
        proof {
            use_type_invariant(&*self);
        }
        let mut pressed: Vec<PhysicalKey> = Vec::new();
        let mut i: usize = 0;
        while i < self.keys.len()
            invariant
                i <= self.keys@.len(),
                self.keys@.no_duplicates(),
                pressed@.no_duplicates(),
                forall|k: PhysicalKey|
                    pressed@.contains(k) <==> (k != key && self.keys@.take(i as int).contains(k)),
            decreases self.keys@.len() - i,
        {
            let current = self.keys[i];
            let ghost before = pressed@;
            let ghost seen = self.keys@.take(i as int);
            proof {
                assert(self.keys@.take(i + 1) =~= seen.push(current));
                if seen.contains(current) {
                    let at = choose|at: int| 0 <= at < seen.len() && seen[at] == current;
                    assert(self.keys@[at] == self.keys@[i as int]);
                }
                if current != key {
                    assert(!before.contains(current));
                    lemma_no_duplicates_push(before, current);
                }
            }
            if current != key {
                pressed.push(current);
            }
            proof {
                assert forall|k: PhysicalKey| #[trigger]
                    pressed@.contains(k) <==> (k != key && self.keys@.take(i + 1).contains(
                        k,
                    )) by {
                    lemma_contains_push(seen, current, k);
                    lemma_contains_push(before, current, k);
                }
            }
            i += 1;
        }
        let ghost rest = pressed@;
        proof {
            assert(self.keys@.take(self.keys@.len() as int) =~= self.keys@);
            assert(!rest.contains(key));
            lemma_no_duplicates_push(rest, key);
        }
        if down {
            pressed.push(key);
        }
        proof {
            assert forall|k: PhysicalKey| #[trigger]
                pressed@.contains(k) == (if k == key {
                    down
                } else {
                    old(self).keys@.contains(k)
                }) by {
                lemma_contains_push(rest, key, k);
            }
        }
        self.keys = pressed;
    }

    /// The keys that are down, each once.
    fn list(&self) -> (keys: Vec<PhysicalKey>)
        ensures
            keys@.no_duplicates(),
            forall|k: PhysicalKey| keys@.contains(k) <==> self.holds(k),
    {
        proof {
            use_type_invariant(self);
        }
        self.keys.clone()
    }
}

/// Follows the keys of the host's keyboard.
pub struct KeyboardInput {
    config: KeyboardConfig,
    pressed: KeysDown,
    last_update: std::time::Instant,
    event_queue: Vec<KeyboardEvent>,
}

impl KeyboardInput {
    /// The settings.
    pub closed spec fn settings(&self) -> KeyboardConfig {
        self.config
    }

    /// Whether `key` is down.
    pub closed spec fn key_down(&self, key: PhysicalKey) -> bool {
        self.pressed.holds(key)
    }

    /// The events taken since the last update, oldest first.
    pub closed spec fn events(&self) -> Seq<KeyboardEvent> {
        self.event_queue@
    }

    /// Creates a keyboard with the given settings, no key down and no
    /// event taken.
    pub fn new(config: KeyboardConfig) -> (result: InputSystemResult<Self>)
        ensures
            result is Ok,
            result->Ok_0.settings() == config,
            result->Ok_0.events() == Seq::<KeyboardEvent>::empty(),
            forall|k: PhysicalKey| !result->Ok_0.key_down(k),
    {
        Ok(
            Self {
                config,
                pressed: KeysDown::new(),
                last_update: instant_now(),
                event_queue: Vec::new(),
            },
        )
    }

    /// Creates a keyboard for headless runs: the default settings, which
    /// take events.
    pub fn null() -> (keyboard: Self)
        ensures
            keyboard.settings() == default_keyboard(),
            keyboard.events() == Seq::<KeyboardEvent>::empty(),
            forall|k: PhysicalKey| !keyboard.key_down(k),
    {
        Self {
            config: KeyboardConfig::new().with_capture_enabled(true),
            pressed: KeysDown::new(),
            last_update: instant_now(),
            event_queue: Vec::new(),
        }
    }

    /// Starts a new frame: the events are forgotten, the keys stay as they
    /// are.
    pub fn update(&mut self) -> (result: InputSystemResult<()>)
        ensures
            result == Ok::<(), InputError>(()),
            final(self).settings() == old(self).settings(),
            final(self).events() == Seq::<KeyboardEvent>::empty(),
            forall|k: PhysicalKey| final(self).key_down(k) == old(self).key_down(k),
    {
        let now = instant_now();
        self.event_queue.clear();
        self.last_update = now;
        Ok(())
    }

    /// Takes an event, unless the settings say otherwise: with capture
    /// off nothing is taken, and repeat events are taken only where the
    /// settings ask for them. An event that is taken puts its key down or
    /// lets it up and joins the events of the frame.
    pub fn process_event(&mut self, event: KeyboardEvent) -> (result: InputSystemResult<()>)
        ensures
            result == Ok::<(), InputError>(()),
            final(self).settings() == old(self).settings(),
            !takes_event(old(self).settings(), event) ==> final(self).events() == old(
                self,
            ).events() && forall|k: PhysicalKey| final(self).key_down(k) == old(self).key_down(k),
            takes_event(old(self).settings(), event) ==> final(self).events() == old(
                self,
            ).events().push(event) && forall|k: PhysicalKey|
                final(self).key_down(k) == (if k == event.physical_key {
                    event.state == KeyState::Pressed
                } else {
                    old(self).key_down(k)
                }),
    {
        if !self.config.capture_enabled {
            return Ok(());
        }
        if event.is_repeat && !self.config.handle_repeats {
            return Ok(());
        }
        match event.state {
            KeyState::Pressed => {
                self.pressed.set(event.physical_key, true);
            },
            KeyState::Released => {
                self.pressed.set(event.physical_key, false);
            },
        }
        self.event_queue.push(event);
        Ok(())
    }

    /// Whether `key` is down.
    pub fn is_physical_key_pressed(&self, key: PhysicalKey) -> (down: bool)
        ensures
            down == self.key_down(key),
    {
        self.pressed.contains(key)
    }

    /// The keys that are down, each once.
    pub fn get_pressed_physical_keys(&self) -> (keys: Vec<PhysicalKey>)
        ensures
            keys@.no_duplicates(),
            forall|k: PhysicalKey| keys@.contains(k) <==> self.key_down(k),
    {
        self.pressed.list()
    }

    /// The events taken since the last update, oldest first.
    pub fn get_events(&self) -> (events: &[KeyboardEvent])
        ensures
            events@ == self.events(),
    {
        self.event_queue.as_slice()
    }

    /// Makes up an event for `physical_key` that happens now and is no
    /// repeat, and takes it as `process_event` does.
    pub fn simulate_key_event(&mut self, physical_key: PhysicalKey, state: KeyState)
        ensures
            final(self).settings() == old(self).settings(),
            !old(self).settings().capture_enabled ==> final(self).events() == old(self).events()
                && forall|k: PhysicalKey| final(self).key_down(k) == old(self).key_down(k),
            old(self).settings().capture_enabled ==> final(self).events().len() == old(
                self,
            ).events().len() + 1 && final(self).events().drop_last() == old(self).events(),
            old(self).settings().capture_enabled ==> final(self).events().last().physical_key
                == physical_key && final(self).events().last().logical_key == logical_key_of(
                physical_key,
            ) && final(self).events().last().state == state
                && !final(self).events().last().is_repeat,
            old(self).settings().capture_enabled ==> forall|k: PhysicalKey|
                final(self).key_down(k) == (if k == physical_key {
                    state == KeyState::Pressed
                } else {
                    old(self).key_down(k)
                }),
    {
        let logical_key = Self::physical_to_logical(physical_key);
        let event = KeyboardEvent {
            physical_key,
            logical_key,
            state,
            is_repeat: false,
            timestamp: instant_now(),
        };
        let _ = self.process_event(event);
        proof {
            if old(self).settings().capture_enabled {
                assert(self.events().drop_last() =~= old(self).events());
            }
        }
    }

    /// The settings.
    pub fn config(&self) -> (config: &KeyboardConfig)
        ensures
            *config == self.settings(),
    {
        &self.config
    }

    /// What the basic layout makes of a key.
    pub fn physical_to_logical(physical: PhysicalKey) -> (logical: LogicalKey)
        ensures
            logical == logical_key_of(physical),
    {
        match physical {
            PhysicalKey::Key1 => LogicalKey::Character('1'),
            PhysicalKey::Key2 => LogicalKey::Character('2'),
            PhysicalKey::Key3 => LogicalKey::Character('3'),
            PhysicalKey::Key4 => LogicalKey::Character('4'),
            PhysicalKey::Key5 => LogicalKey::Character('5'),
            PhysicalKey::Key6 => LogicalKey::Character('6'),
            PhysicalKey::Key7 => LogicalKey::Character('7'),
            PhysicalKey::Key8 => LogicalKey::Character('8'),
            PhysicalKey::Key9 => LogicalKey::Character('9'),
            PhysicalKey::Key0 => LogicalKey::Character('0'),
            PhysicalKey::KeyQ => LogicalKey::Character('q'),
            PhysicalKey::KeyW => LogicalKey::Character('w'),
            PhysicalKey::KeyE => LogicalKey::Character('e'),
            PhysicalKey::KeyR => LogicalKey::Character('r'),
            PhysicalKey::KeyT => LogicalKey::Character('t'),
            PhysicalKey::KeyY => LogicalKey::Character('y'),
            PhysicalKey::KeyU => LogicalKey::Character('u'),
            PhysicalKey::KeyI => LogicalKey::Character('i'),
            PhysicalKey::KeyO => LogicalKey::Character('o'),
            PhysicalKey::KeyP => LogicalKey::Character('p'),
            PhysicalKey::KeyA => LogicalKey::Character('a'),
            PhysicalKey::KeyS => LogicalKey::Character('s'),
            PhysicalKey::KeyD => LogicalKey::Character('d'),
            PhysicalKey::KeyF => LogicalKey::Character('f'),
            PhysicalKey::KeyG => LogicalKey::Character('g'),
            PhysicalKey::KeyH => LogicalKey::Character('h'),
            PhysicalKey::KeyJ => LogicalKey::Character('j'),
            PhysicalKey::KeyK => LogicalKey::Character('k'),
            PhysicalKey::KeyL => LogicalKey::Character('l'),
            PhysicalKey::KeyZ => LogicalKey::Character('z'),
            PhysicalKey::KeyX => LogicalKey::Character('x'),
            PhysicalKey::KeyC => LogicalKey::Character('c'),
            PhysicalKey::KeyV => LogicalKey::Character('v'),
            PhysicalKey::KeyB => LogicalKey::Character('b'),
            PhysicalKey::KeyN => LogicalKey::Character('n'),
            PhysicalKey::KeyM => LogicalKey::Character('m'),
            PhysicalKey::Space => LogicalKey::Named(NamedKey::Space),
            PhysicalKey::Enter => LogicalKey::Named(NamedKey::Enter),
            PhysicalKey::Escape => LogicalKey::Named(NamedKey::Escape),
            PhysicalKey::Backspace => LogicalKey::Named(NamedKey::Backspace),
            PhysicalKey::Tab => LogicalKey::Named(NamedKey::Tab),
            PhysicalKey::LeftShift | PhysicalKey::RightShift => LogicalKey::Named(NamedKey::Shift),
            PhysicalKey::LeftCtrl | PhysicalKey::RightCtrl => LogicalKey::Named(
                NamedKey::Control,
            ),
            PhysicalKey::LeftAlt | PhysicalKey::RightAlt => LogicalKey::Named(NamedKey::Alt),
            PhysicalKey::ArrowUp => LogicalKey::Named(NamedKey::ArrowUp),
            PhysicalKey::ArrowDown => LogicalKey::Named(NamedKey::ArrowDown),
            PhysicalKey::ArrowLeft => LogicalKey::Named(NamedKey::ArrowLeft),
            PhysicalKey::ArrowRight => LogicalKey::Named(NamedKey::ArrowRight),
            PhysicalKey::F1 => LogicalKey::Named(NamedKey::F1),
            PhysicalKey::F2 => LogicalKey::Named(NamedKey::F2),
            PhysicalKey::F3 => LogicalKey::Named(NamedKey::F3),
            PhysicalKey::F4 => LogicalKey::Named(NamedKey::F4),
            PhysicalKey::F5 => LogicalKey::Named(NamedKey::F5),
            PhysicalKey::F6 => LogicalKey::Named(NamedKey::F6),
            PhysicalKey::F7 => LogicalKey::Named(NamedKey::F7),
            PhysicalKey::F8 => LogicalKey::Named(NamedKey::F8),
            PhysicalKey::F9 => LogicalKey::Named(NamedKey::F9),
            PhysicalKey::F10 => LogicalKey::Named(NamedKey::F10),
            PhysicalKey::F11 => LogicalKey::Named(NamedKey::F11),
            PhysicalKey::F12 => LogicalKey::Named(NamedKey::F12),
            PhysicalKey::Unknown(_) => LogicalKey::Unidentified,
        }
    }
}

} // verus!
