//! The input system: a keyboard, a key map and the keypad that they
//! drive.

use crate::error::InputError;
use crate::hardware::input::{lists_in_order, ChipKey, Input, InputResult, NullInput, SoftwareInput};
use crate::input::keyboard::{
    default_keyboard, InputSystemResult, KeyState, KeyboardConfig, KeyboardEvent, KeyboardInput,
    LogicalKey, PhysicalKey,
};
use crate::input::mapper::{
    event_answer, qwerty_logical, qwerty_physical, qwerty_virtual, KeyMapper, QwertyMapper,
    VirtualKey, QWERTY_DESCRIPTION, QWERTY_NAME,
};
use vstd::prelude::*;

verus! {

/// The key map that an input system holds. It answers as the map does
/// that the system was given, and has that map's name and description;
/// without one it is the QWERTY placement.
struct HeldMapper {
    given: Option<Box<dyn KeyMapper>>,
}

impl KeyMapper for HeldMapper {
    closed spec fn physical(&self, key: PhysicalKey) -> Option<ChipKey> {
        match self.given {
            Some(given) => given.physical(key),
            None => qwerty_physical(key),
        }
    }

    closed spec fn logical(&self, key: LogicalKey) -> Option<ChipKey> {
        match self.given {
            Some(given) => given.logical(key),
            None => qwerty_logical(key),
        }
    }

    closed spec fn virtual_key(&self, key: VirtualKey) -> Option<ChipKey> {
        match self.given {
            Some(given) => given.virtual_key(key),
            None => qwerty_virtual(key),
        }
    }

    closed spec fn name_text(&self) -> Seq<char> {
        match self.given {
            Some(given) => given.name_text(),
            None => QWERTY_NAME@,
        }
    }

    closed spec fn description_text(&self) -> Seq<char> {
        match self.given {
            Some(given) => given.description_text(),
            None => QWERTY_DESCRIPTION@,
        }
    }

    fn map_key_event(&self, event: &KeyboardEvent) -> (key: Option<ChipKey>) {
        match &self.given {
            Some(given) => given.map_key_event(event),
            None => QwertyMapper.map_key_event(event),
        }
    }

    fn map_physical_key(&self, key: PhysicalKey) -> (mapped: Option<ChipKey>) {
        match &self.given {
            Some(given) => given.map_physical_key(key),
            None => QwertyMapper.map_physical_key(key),
        }
    }

    fn map_logical_key(&self, key: &LogicalKey) -> (mapped: Option<ChipKey>) {
        match &self.given {
            Some(given) => given.map_logical_key(key),
            None => QwertyMapper.map_logical_key(key),
        }
    }

    fn map_virtual_keycode(&self, key: VirtualKey) -> (mapped: Option<ChipKey>) {
        match &self.given {
            Some(given) => given.map_virtual_keycode(key),
            None => QwertyMapper.map_virtual_keycode(key),
        }
    }

    fn get_physical_mappings(&self) -> (pairs: Vec<(PhysicalKey, ChipKey)>) {
        match &self.given {
            Some(given) => given.get_physical_mappings(),
            None => QwertyMapper.get_physical_mappings(),
        }
    }

    fn name(&self) -> (name: &str) {
        match &self.given {
            Some(given) => given.name(),
            None => QwertyMapper.name(),
        }
    }

    fn description(&self) -> (description: &str) {
        match &self.given {
            Some(given) => given.description(),
            None => QwertyMapper.description(),
        }
    }
}

/// A keypad that is driven by the events of a keyboard.
pub struct InputSystem {
    keyboard: KeyboardInput,
    mapper: HeldMapper,
    keys: SoftwareInput,
    capture_enabled: bool,
}

impl InputSystem {
    /// The answer of the key map for a key by its place.
    pub closed spec fn by_place(&self, key: PhysicalKey) -> Option<ChipKey> {
        self.mapper.physical(key)
    }

    /// The answer of the key map for a key by what the layout makes of it.
    pub closed spec fn by_layout(&self, key: LogicalKey) -> Option<ChipKey> {
        self.mapper.logical(key)
    }

    /// The answer of the key map for a key code of the window system.
    pub closed spec fn by_code(&self, key: VirtualKey) -> Option<ChipKey> {
        self.mapper.virtual_key(key)
    }

    /// The name of the key map.
    pub closed spec fn map_name(&self) -> Seq<char> {
        self.mapper.name_text()
    }

    /// The description of the key map.
    pub closed spec fn map_description(&self) -> Seq<char> {
        self.mapper.description_text()
    }

    /// The key of the keypad that the key map gives for an event: its
    /// answer for the logical key, or else its answer for the physical
    /// key.
    pub open spec fn mapped(&self, event: KeyboardEvent) -> Option<ChipKey> {
        event_answer(self.by_layout(event.logical_key), self.by_place(event.physical_key))
    }

    /// Whether this system has the key map that `map` is: the same
    /// answers, the same name and the same description.
    pub open spec fn maps_as<M: KeyMapper + ?Sized>(&self, map: &M) -> bool {
        &&& forall|key: PhysicalKey|
            #![trigger self.by_place(key)]
            #![trigger map.physical(key)]
            self.by_place(key) == map.physical(key)
        &&& forall|key: LogicalKey|
            #![trigger self.by_layout(key)]
            #![trigger map.logical(key)]
            self.by_layout(key) == map.logical(key)
        &&& forall|key: VirtualKey|
            #![trigger self.by_code(key)]
            #![trigger map.virtual_key(key)]
            self.by_code(key) == map.virtual_key(key)
        &&& self.map_name() == map.name_text()
        &&& self.map_description() == map.description_text()
    }

    /// Whether this system has the key map that `other` has.
    pub open spec fn same_map(&self, other: Self) -> bool {
        &&& forall|key: PhysicalKey|
            #![trigger self.by_place(key)]
            #![trigger other.by_place(key)]
            self.by_place(key) == other.by_place(key)
        &&& forall|key: LogicalKey|
            #![trigger self.by_layout(key)]
            #![trigger other.by_layout(key)]
            self.by_layout(key) == other.by_layout(key)
        &&& forall|key: VirtualKey|
            #![trigger self.by_code(key)]
            #![trigger other.by_code(key)]
            self.by_code(key) == other.by_code(key)
        &&& self.map_name() == other.map_name()
        &&& self.map_description() == other.map_description()
    }

    /// Whether keyboard events are taken.
    pub closed spec fn capture(&self) -> bool {
        self.capture_enabled
    }

    /// The settings of the keyboard.
    pub closed spec fn settings(&self) -> KeyboardConfig {
        self.keyboard.settings()
    }

    /// Whether `key` went down since the last `update`.
    pub closed spec fn just_pressed(&self, key: ChipKey) -> bool {
        self.keys.just_pressed(key)
    }

    /// Whether `key` went up since the last `update`.
    pub closed spec fn just_released(&self, key: ChipKey) -> bool {
        self.keys.just_released(key)
    }

    /// Whether no key is down and none is remembered to have gone down or
    /// up.
    pub open spec fn at_rest(&self) -> bool {
        forall|k: ChipKey| !self.pressed(k) && !self.just_pressed(k) && !self.just_released(k)
    }

    /// Creates an input system with the default keyboard settings and the
    /// QWERTY placement. It takes events; no key is down.
    pub fn new() -> (result: InputSystemResult<Self>)
        ensures
            result is Ok,
            result->Ok_0.capture(),
            result->Ok_0.settings() == default_keyboard(),
            result->Ok_0.at_rest(),
            result->Ok_0.maps_as(&QwertyMapper),
    {
        Self::with_config(KeyboardConfig::default(), Box::new(QwertyMapper::new()))
    }

    /// Creates an input system with the given keyboard settings and key
    /// map. It takes events; no key is down.
    pub fn with_config(keyboard_config: KeyboardConfig, mapper: Box<dyn KeyMapper>) -> (result:
        InputSystemResult<Self>)
        ensures
            result is Ok,
            result->Ok_0.capture(),
            result->Ok_0.settings() == keyboard_config,
            result->Ok_0.at_rest(),
            result->Ok_0.maps_as(&*mapper),
    {
        let given = Some(mapper);
        match KeyboardInput::new(keyboard_config) {
            Ok(keyboard) => {
                let system = Self {
                    keyboard,
                    mapper: HeldMapper { given },
                    keys: SoftwareInput::new(),
                    capture_enabled: true,
                };
                Ok(system)
            },
            Err(e) => Err(e),
        }
    }

    /// Takes another key map. The keys stay as they are.
    pub fn set_mapper(&mut self, mapper: Box<dyn KeyMapper>)
        ensures
            final(self).maps_as(&*mapper),
            final(self).capture() == old(self).capture(),
            final(self).settings() == old(self).settings(),
            forall|k: ChipKey|
                final(self).pressed(k) == old(self).pressed(k) && final(self).just_pressed(k)
                    == old(self).just_pressed(k) && final(self).just_released(k) == old(
                    self,
                ).just_released(k),
    {
        let given = Some(mapper);
        self.mapper = HeldMapper { given };
    }

    /// The key map of the system: a map with the answers, the name and
    /// the description of the map that the system was given last.
    pub fn mapper(&self) -> (held: &dyn KeyMapper)
        ensures
            self.maps_as(held),
    {
        return &self.mapper;
    }

    /// Switches the taking of keyboard events on or off.
    pub fn set_capture_enabled(&mut self, enabled: bool)
        ensures
            final(self).capture() == enabled,
            final(self).settings() == old(self).settings(),
            final(self).same_map(*old(self)),
            forall|k: ChipKey|
                final(self).pressed(k) == old(self).pressed(k) && final(self).just_pressed(k)
                    == old(self).just_pressed(k) && final(self).just_released(k) == old(
                    self,
                ).just_released(k),
    {
        self.capture_enabled = enabled;
    }

    /// Whether keyboard events are taken.
    pub fn is_capture_enabled(&self) -> (enabled: bool)
        ensures
            enabled == self.capture(),
    {
        self.capture_enabled
    }

    /// Takes an event of the keyboard: if events are taken and the key map
    /// has a key of the keypad for it, that key goes down or up as the
    /// event says. Never fails.
    pub fn process_keyboard_event(&mut self, event: &KeyboardEvent) -> (result: InputSystemResult<
        (),
    >)
        ensures
            result == Ok::<(), InputError>(()),
            final(self).capture() == old(self).capture(),
            final(self).settings() == old(self).settings(),
            final(self).same_map(*old(self)),
            !(old(self).capture() && old(self).mapped(*event) is Some) ==> forall|k: ChipKey|
                final(self).pressed(k) == old(self).pressed(k) && final(self).just_pressed(k)
                    == old(self).just_pressed(k) && final(self).just_released(k) == old(
                    self,
                ).just_released(k),
            old(self).capture() && old(self).mapped(*event) is Some && event.state
                == KeyState::Pressed ==> final(self).follows_press(
                *old(self),
                old(self).mapped(*event)->0,
            ),
            old(self).capture() && old(self).mapped(*event) is Some && event.state
                == KeyState::Released ==> final(self).follows_release(
                *old(self),
                old(self).mapped(*event)->0,
            ),
    {
        if !self.capture_enabled {
            return Ok(());
        }
        let mapped = self.mapper.map_key_event(event);
        match mapped {
            Some(chip_key) => {
                match event.state {
                    KeyState::Pressed => {
                        self.keys.press_key(chip_key);
                    },
                    KeyState::Released => {
                        self.keys.release_key(chip_key);
                    },
                }
            },
            None => {},
        }
        Ok(())
    }

    /// Whether this system is `before` after `key` went down: the key is
    /// down, and remembered as just pressed if it was up.
    pub open spec fn follows_press(&self, before: Self, key: ChipKey) -> bool {
        &&& forall|k: ChipKey| self.pressed(k) == (k == key || before.pressed(k))
        &&& forall|k: ChipKey|
            self.just_pressed(k) == ((k == key && !before.pressed(key)) || before.just_pressed(k))
        &&& forall|k: ChipKey| self.just_released(k) == before.just_released(k)
    }

    /// Whether this system is `before` after `key` went up: the key is up,
    /// and remembered as just released if it was down.
    pub open spec fn follows_release(&self, before: Self, key: ChipKey) -> bool {
        &&& forall|k: ChipKey| self.pressed(k) == (k != key && before.pressed(k))
        &&& forall|k: ChipKey|
            self.just_released(k) == ((k == key && before.pressed(key)) || before.just_released(k))
        &&& forall|k: ChipKey| self.just_pressed(k) == before.just_pressed(k)
    }

    /// Puts `key` down, whatever the keyboard does.
    pub fn simulate_key_press(&mut self, key: ChipKey)
        ensures
            final(self).follows_press(*old(self), key),
            final(self).capture() == old(self).capture(),
            final(self).settings() == old(self).settings(),
            final(self).same_map(*old(self)),
    {
        self.keys.press_key(key);
    }

    /// Lets `key` up, whatever the keyboard does.
    pub fn simulate_key_release(&mut self, key: ChipKey)
        ensures
            final(self).follows_release(*old(self), key),
            final(self).capture() == old(self).capture(),
            final(self).settings() == old(self).settings(),
            final(self).same_map(*old(self)),
    {
        self.keys.release_key(key);
    }

    /// The keys that went down since the last `update`, in the order of
    /// their numbers.
    pub fn get_keys_pressed_this_frame(&self) -> (keys: Vec<ChipKey>)
        ensures
            lists_in_order(keys@, |k: ChipKey| self.just_pressed(k)),
    {
        self.keys.get_keys_pressed_this_frame()
    }

    /// The keys that went up since the last `update`, in the order of
    /// their numbers.
    pub fn get_keys_released_this_frame(&self) -> (keys: Vec<ChipKey>)
        ensures
            lists_in_order(keys@, |k: ChipKey| self.just_released(k)),
    {
        self.keys.get_keys_released_this_frame()
    }

    /// Whether `key` went down since the last `update`.
    pub fn was_key_just_pressed(&self, key: ChipKey) -> (just: bool)
        ensures
            just == self.just_pressed(key),
    {
        self.keys.was_key_just_pressed(key)
    }

    /// Whether `key` went up since the last `update`.
    pub fn was_key_just_released(&self, key: ChipKey) -> (just: bool)
        ensures
            just == self.just_released(key),
    {
        self.keys.was_key_just_released(key)
    }

    /// The settings of the keyboard.
    pub fn keyboard_config(&self) -> (config: &KeyboardConfig)
        ensures
            *config == self.settings(),
    {
        self.keyboard.config()
    }
}

impl Default for InputSystem {
    fn default() -> (system: Self)
        ensures
            system.capture(),
            system.settings() == default_keyboard(),
            system.at_rest(),
            system.maps_as(&QwertyMapper),
    {
        match Self::new() {
            Ok(system) => system,
            Err(_) => Self {
                keyboard: KeyboardInput::null(),
                mapper: HeldMapper { given: None },
                keys: SoftwareInput::new(),
                capture_enabled: true,
            },
        }
    }
}

impl Input for InputSystem {
    closed spec fn pressed(&self, key: ChipKey) -> bool {
        self.keys.pressed(key)
    }

    fn is_key_pressed(&self, key: ChipKey) -> (down: bool) {
        self.keys.is_key_pressed(key)
    }

    /// The key with the lowest number among those held down.
    fn wait_for_key(&self) -> (key: Option<ChipKey>) {
        self.keys.wait_for_key()
    }

    /// The keys that are held down, each once, in the order of their
    /// numbers.
    fn get_pressed_keys(&self) -> (keys: Vec<ChipKey>)
        ensures
            lists_in_order(keys@, |k: ChipKey| self.pressed(k)),
            keys@.no_duplicates(),
    {
        self.keys.get_pressed_keys()
    }

    /// Starts a new frame for keyboard and keypad: the events of the
    /// keyboard and what is remembered of keys going down or up are
    /// forgotten. Never fails.
    fn update(&mut self) -> (result: InputResult<()>)
        ensures
            result is Ok,
            forall|k: ChipKey| final(self).pressed(k) == old(self).pressed(k),
            forall|k: ChipKey| !final(self).just_pressed(k) && !final(self).just_released(k),
            final(self).capture() == old(self).capture(),
            final(self).settings() == old(self).settings(),
            final(self).same_map(*old(self)),
    {
        match self.keyboard.update() {
            Ok(_) => {},
            Err(e) => {
                return Err(e);
            },
        }
        self.keys.update()
    }
}

/// An input system for tests and headless runs: a keypad that is operated
/// by calls.
pub struct NullInputSystem {
    input: NullInput,
}

impl NullInputSystem {
    /// Creates an input system with no key down.
    pub fn new() -> (system: Self)
        ensures
            forall|k: ChipKey| !system.pressed(k),
    {
        Self { input: NullInput::new() }
    }

    /// Puts `key` down.
    pub fn press_key(&mut self, key: ChipKey)
        ensures
            forall|k: ChipKey| final(self).pressed(k) == (k == key || old(self).pressed(k)),
    {
        self.input.press_key(key);
    }

    /// Lets `key` up.
    pub fn release_key(&mut self, key: ChipKey)
        ensures
            forall|k: ChipKey| final(self).pressed(k) == (k != key && old(self).pressed(k)),
    {
        self.input.release_key(key);
    }
}

impl Default for NullInputSystem {
    fn default() -> (system: Self)
        ensures
            forall|k: ChipKey| !system.pressed(k),
    {
        Self::new()
    }
}

impl Input for NullInputSystem {
    closed spec fn pressed(&self, key: ChipKey) -> bool {
        self.input.pressed(key)
    }

    fn is_key_pressed(&self, key: ChipKey) -> (down: bool) {
        self.input.is_key_pressed(key)
    }

    fn wait_for_key(&self) -> (key: Option<ChipKey>) {
        self.input.wait_for_key()
    }

    /// The keys that are held down, each once, in the order of their
    /// numbers.
    fn get_pressed_keys(&self) -> (keys: Vec<ChipKey>)
        ensures
            lists_in_order(keys@, |k: ChipKey| self.pressed(k)),
            keys@.no_duplicates(),
    {
        self.input.get_pressed_keys()
    }

    /// The keys that are held down stay so. Never fails.
    fn update(&mut self) -> (result: InputResult<()>)
        ensures
            result is Ok,
            forall|k: ChipKey| final(self).pressed(k) == old(self).pressed(k),
    {
        self.input.update()
    }
}

} // verus!
