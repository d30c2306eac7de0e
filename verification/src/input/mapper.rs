//! Key maps: which key of the keyboard is which key of the keypad.
//!
//! A mapper answers for keys by their place, for keys by what the layout
//! makes of them, and for the key codes of the window system. An event is
//! mapped by its logical key first and by its physical key second.

use crate::hardware::input::ChipKey;
use crate::input::keyboard::{logical_key_of, KeyboardEvent, LogicalKey, PhysicalKey};
use crate::input::table::{Entries, TableKey};
use crate::text::{lowercase, lowercase_text, reads};
use vstd::prelude::*;
use vstd::string::StringExecFns;

verus! {

/// The key codes of the window system, as far as key maps speak of them.
#[derive(Debug, Clone, Copy, PartialEq, Eq, Hash, Structural)]
pub enum VirtualKey {
    Key1,
    Key2,
    Key3,
    Key4,
    Key5,
    Key6,
    Key7,
    Key8,
    Key9,
    Key0,
    A,
    B,
    C,
    D,
    E,
    F,
    G,
    H,
    I,
    J,
    K,
    L,
    M,
    N,
    O,
    P,
    Q,
    R,
    S,
    T,
    U,
    V,
    W,
    X,
    Y,
    Z,
    /// Any other key, with its code.
    Other(u32),
}

impl TableKey for PhysicalKey {
    fn same(&self, other: &Self) -> (same: bool) {
        *self == *other
    }

    fn copied(&self) -> (copy: Self) {
        *self
    }
}

impl TableKey for LogicalKey {
    fn same(&self, other: &Self) -> (same: bool) {
        *self == *other
    }

    fn copied(&self) -> (copy: Self) {
        *self
    }
}

impl TableKey for VirtualKey {
    fn same(&self, other: &Self) -> (same: bool) {
        *self == *other
    }

    fn copied(&self) -> (copy: Self) {
        *self
    }
}

/// The QWERTY placement of the keypad, for keys by their place.
///
/// ```text
/// keypad:    keyboard:
/// 1 2 3 C    1 2 3 4
/// 4 5 6 D    Q W E R
/// 7 8 9 E    A S D F
/// A 0 B F    Z X C V
/// ```
pub open spec fn qwerty_physical(key: PhysicalKey) -> Option<ChipKey> {
    match key {
        PhysicalKey::Key1 => Some(ChipKey::Key1),
        PhysicalKey::Key2 => Some(ChipKey::Key2),
        PhysicalKey::Key3 => Some(ChipKey::Key3),
        PhysicalKey::Key4 => Some(ChipKey::KeyC),
        PhysicalKey::KeyQ => Some(ChipKey::Key4),
        PhysicalKey::KeyW => Some(ChipKey::Key5),
        PhysicalKey::KeyE => Some(ChipKey::Key6),
        PhysicalKey::KeyR => Some(ChipKey::KeyD),
        PhysicalKey::KeyA => Some(ChipKey::Key7),
        PhysicalKey::KeyS => Some(ChipKey::Key8),
        PhysicalKey::KeyD => Some(ChipKey::Key9),
        PhysicalKey::KeyF => Some(ChipKey::KeyE),
        PhysicalKey::KeyZ => Some(ChipKey::KeyA),
        PhysicalKey::KeyX => Some(ChipKey::Key0),
        PhysicalKey::KeyC => Some(ChipKey::KeyB),
        PhysicalKey::KeyV => Some(ChipKey::KeyF),
        _ => None,
    }
}

/// The QWERTY placement of the keypad, for characters in lower case and
/// for digits.
pub open spec fn qwerty_lower(c: char) -> Option<ChipKey> {
    if c == '1' {
        Some(ChipKey::Key1)
    } else if c == '2' {
        Some(ChipKey::Key2)
    } else if c == '3' {
        Some(ChipKey::Key3)
    } else if c == '4' {
        Some(ChipKey::KeyC)
    } else if c == 'q' {
        Some(ChipKey::Key4)
    } else if c == 'w' {
        Some(ChipKey::Key5)
    } else if c == 'e' {
        Some(ChipKey::Key6)
    } else if c == 'r' {
        Some(ChipKey::KeyD)
    } else if c == 'a' {
        Some(ChipKey::Key7)
    } else if c == 's' {
        Some(ChipKey::Key8)
    } else if c == 'd' {
        Some(ChipKey::Key9)
    } else if c == 'f' {
        Some(ChipKey::KeyE)
    } else if c == 'z' {
        Some(ChipKey::KeyA)
    } else if c == 'x' {
        Some(ChipKey::Key0)
    } else if c == 'c' {
        Some(ChipKey::KeyB)
    } else if c == 'v' {
        Some(ChipKey::KeyF)
    } else {
        None
    }
}

/// The lower-case form of an ASCII letter; any other character is its own
/// lower-case form.
pub open spec fn ascii_lower(c: char) -> char {
    if 'A' <= c <= 'Z' {
        ((c as u32) + 32) as char
    } else {
        c
    }
}

/// The QWERTY placement of the keypad, for keys by what the layout makes
/// of them: letters count in either case.
pub open spec fn qwerty_logical(key: LogicalKey) -> Option<ChipKey> {
    match key {
        LogicalKey::Character(c) => qwerty_lower(ascii_lower(c)),
        _ => None,
    }
}

/// The alternative placement, for keys by what the layout makes of them:
/// what the basic layout makes of the keys of the QWERTY placement, so
/// letters count in lower case only.
pub open spec fn alternative_logical(key: LogicalKey) -> Option<ChipKey> {
    match key {
        LogicalKey::Character(c) => qwerty_lower(c),
        _ => None,
    }
}

/// The QWERTY placement of the keypad, for key codes of the window
/// system.
pub open spec fn qwerty_virtual(key: VirtualKey) -> Option<ChipKey> {
    match key {
        VirtualKey::Key1 => Some(ChipKey::Key1),
        VirtualKey::Key2 => Some(ChipKey::Key2),
        VirtualKey::Key3 => Some(ChipKey::Key3),
        VirtualKey::Key4 => Some(ChipKey::KeyC),
        VirtualKey::Q => Some(ChipKey::Key4),
        VirtualKey::W => Some(ChipKey::Key5),
        VirtualKey::E => Some(ChipKey::Key6),
        VirtualKey::R => Some(ChipKey::KeyD),
        VirtualKey::A => Some(ChipKey::Key7),
        VirtualKey::S => Some(ChipKey::Key8),
        VirtualKey::D => Some(ChipKey::Key9),
        VirtualKey::F => Some(ChipKey::KeyE),
        VirtualKey::Z => Some(ChipKey::KeyA),
        VirtualKey::X => Some(ChipKey::Key0),
        VirtualKey::C => Some(ChipKey::KeyB),
        VirtualKey::V => Some(ChipKey::KeyF),
        _ => None,
    }
}

/// Law: the alternative placement answers for a logical key what the
/// QWERTY placement answers for the physical key that the basic layout
/// turns into it.
pub proof fn lemma_alternative_follows_layout(physical: PhysicalKey)
    ensures
        qwerty_physical(physical) is Some ==> alternative_logical(logical_key_of(physical))
            == qwerty_physical(physical),
{
}

/// The answer for an event: the answer for its logical key, or else the
/// answer for its physical key.
pub open spec fn event_answer(logical: Option<ChipKey>, physical: Option<ChipKey>) -> Option<
    ChipKey,
> {
    match logical {
        Some(key) => Some(key),
        None => physical,
    }
}

/// The name of the QWERTY placement.
pub const QWERTY_NAME: &'static str = "QWERTY";

/// The description of the QWERTY placement: the placement as a table.
pub const QWERTY_DESCRIPTION: &'static str =
    "Standard QWERTY keyboard layout:\n1 2 3 4 -> 1 2 3 C\nQ W E R -> 4 5 6 D\nA S D F -> 7 8 9 E\nZ X C V -> A 0 B F";

/// The name of the alternative placement.
pub const ALTERNATIVE_NAME: &'static str = "Alternative QWERTY";

/// The description of the alternative placement.
pub const ALTERNATIVE_DESCRIPTION: &'static str = "Alternative QWERTY keyboard layout";

/// A key map.
pub trait KeyMapper: Send + Sync {
    /// The answer for a key by its place. Key maps that are verified say
    /// what this is; of any other key map nothing is known.
    open spec fn physical(&self, key: PhysicalKey) -> Option<ChipKey> {
        arbitrary()
    }

    /// The answer for a key by what the layout makes of it. Key maps that
    /// are verified say what this is; of any other key map nothing is
    /// known.
    open spec fn logical(&self, key: LogicalKey) -> Option<ChipKey> {
        arbitrary()
    }

    /// The answer for a key code of the window system. Key maps that are
    /// verified say what this is; of any other key map nothing is known.
    open spec fn virtual_key(&self, key: VirtualKey) -> Option<ChipKey> {
        arbitrary()
    }

    /// The key of the keypad that an event belongs to.
    fn map_key_event(&self, event: &KeyboardEvent) -> (key: Option<ChipKey>)
        ensures
            key == event_answer(
                self.logical(event.logical_key),
                self.physical(event.physical_key),
            ),
    ;

    /// The key of the keypad on a key by its place.
    fn map_physical_key(&self, key: PhysicalKey) -> (mapped: Option<ChipKey>)
        ensures
            mapped == self.physical(key),
    ;

    /// The key of the keypad on a key by what the layout makes of it.
    fn map_logical_key(&self, key: &LogicalKey) -> (mapped: Option<ChipKey>)
        ensures
            mapped == self.logical(*key),
    ;

    /// The key of the keypad on a key code of the window system.
    fn map_virtual_keycode(&self, key: VirtualKey) -> (mapped: Option<ChipKey>)
        ensures
            mapped == self.virtual_key(key),
    ;

    /// Every key by its place that lies on a key of the keypad, with that
    /// key, each once.
    fn get_physical_mappings(&self) -> (pairs: Vec<(PhysicalKey, ChipKey)>)
        ensures
            pairs@.no_duplicates(),
            forall|key: PhysicalKey, mapped: ChipKey|
                pairs@.contains((key, mapped)) <==> self.physical(key) == Some(mapped),
    ;

    /// The name of this map. Key maps that are verified say what this is;
    /// of any other key map nothing is known.
    open spec fn name_text(&self) -> Seq<char> {
        arbitrary()
    }

    /// The description of this map. Key maps that are verified say what
    /// this is; of any other key map nothing is known.
    open spec fn description_text(&self) -> Seq<char> {
        arbitrary()
    }

    /// The name of this map.
    fn name(&self) -> (name: &str)
        ensures
            name@ == self.name_text(),
    ;

    /// A description of this map.
    fn description(&self) -> (description: &str)
        ensures
            description@ == self.description_text(),
    ;
}

/// The answer of the QWERTY placement for a key by its place.
fn qwerty_physical_key(key: PhysicalKey) -> (mapped: Option<ChipKey>)
    ensures
        mapped == qwerty_physical(key),
{
    match key {
        PhysicalKey::Key1 => Some(ChipKey::Key1),
        PhysicalKey::Key2 => Some(ChipKey::Key2),
        PhysicalKey::Key3 => Some(ChipKey::Key3),
        PhysicalKey::Key4 => Some(ChipKey::KeyC),
        PhysicalKey::KeyQ => Some(ChipKey::Key4),
        PhysicalKey::KeyW => Some(ChipKey::Key5),
        PhysicalKey::KeyE => Some(ChipKey::Key6),
        PhysicalKey::KeyR => Some(ChipKey::KeyD),
        PhysicalKey::KeyA => Some(ChipKey::Key7),
        PhysicalKey::KeyS => Some(ChipKey::Key8),
        PhysicalKey::KeyD => Some(ChipKey::Key9),
        PhysicalKey::KeyF => Some(ChipKey::KeyE),
        PhysicalKey::KeyZ => Some(ChipKey::KeyA),
        PhysicalKey::KeyX => Some(ChipKey::Key0),
        PhysicalKey::KeyC => Some(ChipKey::KeyB),
        PhysicalKey::KeyV => Some(ChipKey::KeyF),
        _ => None,
    }
}

/// The answer of the QWERTY placement for a character in lower case or a
/// digit.
fn qwerty_lower_key(c: char) -> (mapped: Option<ChipKey>)
    ensures
        mapped == qwerty_lower(c),
{
    match c {
        '1' => Some(ChipKey::Key1),
        '2' => Some(ChipKey::Key2),
        '3' => Some(ChipKey::Key3),
        '4' => Some(ChipKey::KeyC),
        'q' => Some(ChipKey::Key4),
        'w' => Some(ChipKey::Key5),
        'e' => Some(ChipKey::Key6),
        'r' => Some(ChipKey::KeyD),
        'a' => Some(ChipKey::Key7),
        's' => Some(ChipKey::Key8),
        'd' => Some(ChipKey::Key9),
        'f' => Some(ChipKey::KeyE),
        'z' => Some(ChipKey::KeyA),
        'x' => Some(ChipKey::Key0),
        'c' => Some(ChipKey::KeyB),
        'v' => Some(ChipKey::KeyF),
        _ => None,
    }
}

/// The answer of the QWERTY placement for a character in upper case.
fn qwerty_upper_key(c: char) -> (mapped: Option<ChipKey>)
    ensures
        'A' <= c <= 'Z' ==> mapped == qwerty_lower(ascii_lower(c)),
        !('A' <= c <= 'Z') ==> mapped is None,
{
    match c {
        'Q' => Some(ChipKey::Key4),
        'W' => Some(ChipKey::Key5),
        'E' => Some(ChipKey::Key6),
        'R' => Some(ChipKey::KeyD),
        'A' => Some(ChipKey::Key7),
        'S' => Some(ChipKey::Key8),
        'D' => Some(ChipKey::Key9),
        'F' => Some(ChipKey::KeyE),
        'Z' => Some(ChipKey::KeyA),
        'X' => Some(ChipKey::Key0),
        'C' => Some(ChipKey::KeyB),
        'V' => Some(ChipKey::KeyF),
        _ => None,
    }
}

/// The answer of the QWERTY placement for a key code of the window
/// system.
fn qwerty_virtual_key(key: VirtualKey) -> (mapped: Option<ChipKey>)
    ensures
        mapped == qwerty_virtual(key),
{
    match key {
        VirtualKey::Key1 => Some(ChipKey::Key1),
        VirtualKey::Key2 => Some(ChipKey::Key2),
        VirtualKey::Key3 => Some(ChipKey::Key3),
        VirtualKey::Key4 => Some(ChipKey::KeyC),
        VirtualKey::Q => Some(ChipKey::Key4),
        VirtualKey::W => Some(ChipKey::Key5),
        VirtualKey::E => Some(ChipKey::Key6),
        VirtualKey::R => Some(ChipKey::KeyD),
        VirtualKey::A => Some(ChipKey::Key7),
        VirtualKey::S => Some(ChipKey::Key8),
        VirtualKey::D => Some(ChipKey::Key9),
        VirtualKey::F => Some(ChipKey::KeyE),
        VirtualKey::Z => Some(ChipKey::KeyA),
        VirtualKey::X => Some(ChipKey::Key0),
        VirtualKey::C => Some(ChipKey::KeyB),
        VirtualKey::V => Some(ChipKey::KeyF),
        _ => None,
    }
}

/// The sixteen keys of the QWERTY placement by their place, each with its
/// key of the keypad.
fn qwerty_pairs() -> (pairs: Vec<(PhysicalKey, ChipKey)>)
    ensures
        pairs@.no_duplicates(),
        forall|key: PhysicalKey, mapped: ChipKey|
            pairs@.contains((key, mapped)) <==> qwerty_physical(key) == Some(mapped),
{
    let keys: [PhysicalKey; 16] = [
        PhysicalKey::Key1,
        PhysicalKey::Key2,
        PhysicalKey::Key3,
        PhysicalKey::Key4,
        PhysicalKey::KeyQ,
        PhysicalKey::KeyW,
        PhysicalKey::KeyE,
        PhysicalKey::KeyR,
        PhysicalKey::KeyA,
        PhysicalKey::KeyS,
        PhysicalKey::KeyD,
        PhysicalKey::KeyF,
        PhysicalKey::KeyZ,
        PhysicalKey::KeyX,
        PhysicalKey::KeyC,
        PhysicalKey::KeyV,
    ];
    let mut pairs: Vec<(PhysicalKey, ChipKey)> = Vec::new();
    let mut i: usize = 0;
    while i < 16
        invariant
            i <= 16,
            pairs@.len() == i,
            keys@ == seq![
                PhysicalKey::Key1,
                PhysicalKey::Key2,
                PhysicalKey::Key3,
                PhysicalKey::Key4,
                PhysicalKey::KeyQ,
                PhysicalKey::KeyW,
                PhysicalKey::KeyE,
                PhysicalKey::KeyR,
                PhysicalKey::KeyA,
                PhysicalKey::KeyS,
                PhysicalKey::KeyD,
                PhysicalKey::KeyF,
                PhysicalKey::KeyZ,
                PhysicalKey::KeyX,
                PhysicalKey::KeyC,
                PhysicalKey::KeyV,
            ],
            forall|j: int|
                0 <= j < i ==> (#[trigger] pairs@[j]).0 == keys@[j] && qwerty_physical(keys@[j])
                    == Some(pairs@[j].1),
        decreases 16 - i,
    {
        match qwerty_physical_key(keys[i]) {
            Some(mapped) => {
                pairs.push((keys[i], mapped));
            },
            None => {
                assert(false);
            },
        }
        i += 1;
    }
    proof {
        assert forall|key: PhysicalKey, mapped: ChipKey|
            pairs@.contains((key, mapped)) <==> qwerty_physical(key) == Some(mapped) by {
            if pairs@.contains((key, mapped)) {
                let at = choose|at: int| 0 <= at < pairs@.len() && pairs@[at] == (key, mapped);
                assert(pairs@[at].0 == keys@[at]);
            }
            if qwerty_physical(key) == Some(mapped) {
                let at = choose|at: int| 0 <= at < 16 && keys@[at] == key;
                assert(pairs@[at].0 == key);
                assert(pairs@[at] == (key, mapped));
            }
        }
        assert forall|a: int, b: int| 0 <= a < pairs@.len() && 0 <= b < pairs@.len() && a
            != b implies pairs@[a] != pairs@[b] by {
            assert(pairs@[a].0 == keys@[a]);
            assert(pairs@[b].0 == keys@[b]);
        }
    }
    pairs
}

/// The QWERTY placement of the keypad.
pub struct QwertyMapper;

impl QwertyMapper {
    /// Creates the map.
    pub fn new() -> (mapper: Self) {
        QwertyMapper
    }
}

impl Default for QwertyMapper {
    fn default() -> (mapper: Self) {
        Self::new()
    }
}

impl KeyMapper for QwertyMapper {
    open spec fn physical(&self, key: PhysicalKey) -> Option<ChipKey> {
        qwerty_physical(key)
    }

    open spec fn logical(&self, key: LogicalKey) -> Option<ChipKey> {
        qwerty_logical(key)
    }

    open spec fn virtual_key(&self, key: VirtualKey) -> Option<ChipKey> {
        qwerty_virtual(key)
    }

    fn map_key_event(&self, event: &KeyboardEvent) -> (key: Option<ChipKey>) {
        match self.map_logical_key(&event.logical_key) {
            Some(key) => Some(key),
            None => self.map_physical_key(event.physical_key),
        }
    }

    fn map_physical_key(&self, key: PhysicalKey) -> (mapped: Option<ChipKey>) {
        qwerty_physical_key(key)
    }

    fn map_logical_key(&self, key: &LogicalKey) -> (mapped: Option<ChipKey>) {
        match key {
            LogicalKey::Character(c) => match qwerty_upper_key(*c) {
                Some(mapped) => Some(mapped),
                None => qwerty_lower_key(*c),
            },
            _ => None,
        }
    }

    fn map_virtual_keycode(&self, key: VirtualKey) -> (mapped: Option<ChipKey>) {
        qwerty_virtual_key(key)
    }

    fn get_physical_mappings(&self) -> (pairs: Vec<(PhysicalKey, ChipKey)>) {
        qwerty_pairs()
    }

    /// `QWERTY`.
    open spec fn name_text(&self) -> Seq<char> {
        QWERTY_NAME@
    }

    /// The placement as a table.
    open spec fn description_text(&self) -> Seq<char> {
        QWERTY_DESCRIPTION@
    }

    fn name(&self) -> (name: &str) {
        QWERTY_NAME
    }

    fn description(&self) -> (description: &str) {
        QWERTY_DESCRIPTION
    }
}

/// Another placement of the keypad on a QWERTY keyboard. It puts the keys
/// where the QWERTY placement puts them, but takes letters in lower case
/// only.
pub struct AlternativeQwertyMapper;

impl AlternativeQwertyMapper {
    /// Creates the map.
    pub fn new() -> (mapper: Self) {
        AlternativeQwertyMapper
    }
}

impl Default for AlternativeQwertyMapper {
    fn default() -> (mapper: Self) {
        Self::new()
    }
}

impl KeyMapper for AlternativeQwertyMapper {
    open spec fn physical(&self, key: PhysicalKey) -> Option<ChipKey> {
        qwerty_physical(key)
    }

    open spec fn logical(&self, key: LogicalKey) -> Option<ChipKey> {
        alternative_logical(key)
    }

    open spec fn virtual_key(&self, key: VirtualKey) -> Option<ChipKey> {
        qwerty_virtual(key)
    }

    fn map_key_event(&self, event: &KeyboardEvent) -> (key: Option<ChipKey>) {
        match self.map_logical_key(&event.logical_key) {
            Some(key) => Some(key),
            None => self.map_physical_key(event.physical_key),
        }
    }

    fn map_physical_key(&self, key: PhysicalKey) -> (mapped: Option<ChipKey>) {
        qwerty_physical_key(key)
    }

    fn map_logical_key(&self, key: &LogicalKey) -> (mapped: Option<ChipKey>) {
        match key {
            LogicalKey::Character(c) => qwerty_lower_key(*c),
            _ => None,
        }
    }

    fn map_virtual_keycode(&self, key: VirtualKey) -> (mapped: Option<ChipKey>) {
        qwerty_virtual_key(key)
    }

    fn get_physical_mappings(&self) -> (pairs: Vec<(PhysicalKey, ChipKey)>) {
        qwerty_pairs()
    }

    /// `Alternative QWERTY`.
    open spec fn name_text(&self) -> Seq<char> {
        ALTERNATIVE_NAME@
    }

    /// One line that names the placement.
    open spec fn description_text(&self) -> Seq<char> {
        ALTERNATIVE_DESCRIPTION@
    }

    fn name(&self) -> (name: &str) {
        ALTERNATIVE_NAME
    }

    fn description(&self) -> (description: &str) {
        ALTERNATIVE_DESCRIPTION
    }
}

/// A key map that its user fills.
pub struct CustomMapper {
    physical_map: Entries<PhysicalKey>,
    logical_map: Entries<LogicalKey>,
    virtual_keycode_map: Entries<VirtualKey>,
    name: String,
    description: String,
}

impl CustomMapper {
    /// Creates a map that answers for no key.
    pub fn new(name: String, description: String) -> (mapper: Self)
        ensures
            mapper.name_text() == name@,
            mapper.description_text() == description@,
            forall|key: PhysicalKey| mapper.physical(key) is None,
            forall|key: LogicalKey| mapper.logical(key) is None,
            forall|key: VirtualKey| mapper.virtual_key(key) is None,
    {
        Self {
            physical_map: Entries::new(),
            logical_map: Entries::new(),
            virtual_keycode_map: Entries::new(),
            name,
            description,
        }
    }

    /// Puts `chip` on the key `physical`, in place of what was there.
    pub fn add_physical_mapping(&mut self, physical: PhysicalKey, chip: ChipKey)
        ensures
            forall|key: PhysicalKey|
                final(self).physical(key) == (if key == physical {
                    Some(chip)
                } else {
                    old(self).physical(key)
                }),
            forall|key: LogicalKey| final(self).logical(key) == old(self).logical(key),
            forall|key: VirtualKey| final(self).virtual_key(key) == old(self).virtual_key(key),
            final(self).name_text() == old(self).name_text(),
            final(self).description_text() == old(self).description_text(),
    {
        self.physical_map.insert(physical, chip);
    }

    /// Puts `chip` on the key `logical`, in place of what was there.
    pub fn add_logical_mapping(&mut self, logical: LogicalKey, chip: ChipKey)
        ensures
            forall|key: LogicalKey|
                final(self).logical(key) == (if key == logical {
                    Some(chip)
                } else {
                    old(self).logical(key)
                }),
            forall|key: PhysicalKey| final(self).physical(key) == old(self).physical(key),
            forall|key: VirtualKey| final(self).virtual_key(key) == old(self).virtual_key(key),
            final(self).name_text() == old(self).name_text(),
            final(self).description_text() == old(self).description_text(),
    {
        self.logical_map.insert(logical, chip);
    }

    /// Puts `chip` on the key code `virtual_keycode`, in place of what was
    /// there.
    pub fn add_virtual_keycode_mapping(&mut self, virtual_keycode: VirtualKey, chip: ChipKey)
        ensures
            forall|key: VirtualKey|
                final(self).virtual_key(key) == (if key == virtual_keycode {
                    Some(chip)
                } else {
                    old(self).virtual_key(key)
                }),
            forall|key: PhysicalKey| final(self).physical(key) == old(self).physical(key),
            forall|key: LogicalKey| final(self).logical(key) == old(self).logical(key),
            final(self).name_text() == old(self).name_text(),
            final(self).description_text() == old(self).description_text(),
    {
        self.virtual_keycode_map.insert(virtual_keycode, chip);
    }

    /// Takes the key `physical` off the map.
    pub fn remove_physical_mapping(&mut self, physical: PhysicalKey)
        ensures
            forall|key: PhysicalKey|
                final(self).physical(key) == (if key == physical {
                    None
                } else {
                    old(self).physical(key)
                }),
            forall|key: LogicalKey| final(self).logical(key) == old(self).logical(key),
            forall|key: VirtualKey| final(self).virtual_key(key) == old(self).virtual_key(key),
            final(self).name_text() == old(self).name_text(),
            final(self).description_text() == old(self).description_text(),
    {
        self.physical_map.remove(&physical);
    }

    /// Takes the key `logical` off the map.
    pub fn remove_logical_mapping(&mut self, logical: &LogicalKey)
        ensures
            forall|key: LogicalKey|
                final(self).logical(key) == (if key == *logical {
                    None
                } else {
                    old(self).logical(key)
                }),
            forall|key: PhysicalKey| final(self).physical(key) == old(self).physical(key),
            forall|key: VirtualKey| final(self).virtual_key(key) == old(self).virtual_key(key),
            final(self).name_text() == old(self).name_text(),
            final(self).description_text() == old(self).description_text(),
    {
        self.logical_map.remove(logical);
    }

    /// Takes the key code `virtual_keycode` off the map.
    pub fn remove_virtual_keycode_mapping(&mut self, virtual_keycode: VirtualKey)
        ensures
            forall|key: VirtualKey|
                final(self).virtual_key(key) == (if key == virtual_keycode {
                    None
                } else {
                    old(self).virtual_key(key)
                }),
            forall|key: PhysicalKey| final(self).physical(key) == old(self).physical(key),
            forall|key: LogicalKey| final(self).logical(key) == old(self).logical(key),
            final(self).name_text() == old(self).name_text(),
            final(self).description_text() == old(self).description_text(),
    {
        self.virtual_keycode_map.remove(&virtual_keycode);
    }

    /// Makes the map answer as the QWERTY placement does, in place of
    /// whatever it answered before.
    pub fn load_from_qwerty(&mut self)
        ensures
            forall|key: PhysicalKey| final(self).physical(key) == qwerty_physical(key),
            forall|key: LogicalKey| final(self).logical(key) == qwerty_logical(key),
            forall|key: VirtualKey| final(self).virtual_key(key) == qwerty_virtual(key),
            final(self).name_text() == old(self).name_text(),
            final(self).description_text() == old(self).description_text(),
    {
        self.clear_mappings();
        let physical: [PhysicalKey; 16] = [
            PhysicalKey::Key1,
            PhysicalKey::Key2,
            PhysicalKey::Key3,
            PhysicalKey::Key4,
            PhysicalKey::KeyQ,
            PhysicalKey::KeyW,
            PhysicalKey::KeyE,
            PhysicalKey::KeyR,
            PhysicalKey::KeyA,
            PhysicalKey::KeyS,
            PhysicalKey::KeyD,
            PhysicalKey::KeyF,
            PhysicalKey::KeyZ,
            PhysicalKey::KeyX,
            PhysicalKey::KeyC,
            PhysicalKey::KeyV,
        ];
        let lower: [char; 16] = [
            '1',
            '2',
            '3',
            '4',
            'q',
            'w',
            'e',
            'r',
            'a',
            's',
            'd',
            'f',
            'z',
            'x',
            'c',
            'v',
        ];
        let upper: [char; 12] = ['Q', 'W', 'E', 'R', 'A', 'S', 'D', 'F', 'Z', 'X', 'C', 'V'];
        let codes: [VirtualKey; 16] = [
            VirtualKey::Key1,
            VirtualKey::Key2,
            VirtualKey::Key3,
            VirtualKey::Key4,
            VirtualKey::Q,
            VirtualKey::W,
            VirtualKey::E,
            VirtualKey::R,
            VirtualKey::A,
            VirtualKey::S,
            VirtualKey::D,
            VirtualKey::F,
            VirtualKey::Z,
            VirtualKey::X,
            VirtualKey::C,
            VirtualKey::V,
        ];
        let ghost lower_keys = lower@;
        let ghost upper_keys = upper@;
        let ghost physical_keys = physical@;
        let ghost code_keys = codes@;
        assert(lower_keys == seq![
            '1',
            '2',
            '3',
            '4',
            'q',
            'w',
            'e',
            'r',
            'a',
            's',
            'd',
            'f',
            'z',
            'x',
            'c',
            'v',
        ]);
        assert(upper_keys == seq!['Q', 'W', 'E', 'R', 'A', 'S', 'D', 'F', 'Z', 'X', 'C', 'V']);
        assert(physical_keys == seq![
            PhysicalKey::Key1,
            PhysicalKey::Key2,
            PhysicalKey::Key3,
            PhysicalKey::Key4,
            PhysicalKey::KeyQ,
            PhysicalKey::KeyW,
            PhysicalKey::KeyE,
            PhysicalKey::KeyR,
            PhysicalKey::KeyA,
            PhysicalKey::KeyS,
            PhysicalKey::KeyD,
            PhysicalKey::KeyF,
            PhysicalKey::KeyZ,
            PhysicalKey::KeyX,
            PhysicalKey::KeyC,
            PhysicalKey::KeyV,
        ]);
        assert(code_keys == seq![
            VirtualKey::Key1,
            VirtualKey::Key2,
            VirtualKey::Key3,
            VirtualKey::Key4,
            VirtualKey::Q,
            VirtualKey::W,
            VirtualKey::E,
            VirtualKey::R,
            VirtualKey::A,
            VirtualKey::S,
            VirtualKey::D,
            VirtualKey::F,
            VirtualKey::Z,
            VirtualKey::X,
            VirtualKey::C,
            VirtualKey::V,
        ]);
        assert(forall|j: int| 0 <= j < 16 ==> !('A' <= #[trigger] lower_keys[j] <= 'Z'));
        assert(forall|j: int| 0 <= j < 12 ==> 'A' <= #[trigger] upper_keys[j] <= 'Z');
        assert(forall|key: PhysicalKey|
            qwerty_physical(key) is Some ==> exists|j: int|
                0 <= j < 16 && physical_keys[j] == key) by {
            assert(physical_keys[0] == PhysicalKey::Key1);
            assert(physical_keys[1] == PhysicalKey::Key2);
            assert(physical_keys[2] == PhysicalKey::Key3);
            assert(physical_keys[3] == PhysicalKey::Key4);
            assert(physical_keys[4] == PhysicalKey::KeyQ);
            assert(physical_keys[5] == PhysicalKey::KeyW);
            assert(physical_keys[6] == PhysicalKey::KeyE);
            assert(physical_keys[7] == PhysicalKey::KeyR);
            assert(physical_keys[8] == PhysicalKey::KeyA);
            assert(physical_keys[9] == PhysicalKey::KeyS);
            assert(physical_keys[10] == PhysicalKey::KeyD);
            assert(physical_keys[11] == PhysicalKey::KeyF);
            assert(physical_keys[12] == PhysicalKey::KeyZ);
            assert(physical_keys[13] == PhysicalKey::KeyX);
            assert(physical_keys[14] == PhysicalKey::KeyC);
            assert(physical_keys[15] == PhysicalKey::KeyV);
        }
        assert(forall|key: VirtualKey|
            qwerty_virtual(key) is Some ==> exists|j: int| 0 <= j < 16 && code_keys[j] == key) by {
            assert(code_keys[0] == VirtualKey::Key1);
            assert(code_keys[1] == VirtualKey::Key2);
            assert(code_keys[2] == VirtualKey::Key3);
            assert(code_keys[3] == VirtualKey::Key4);
            assert(code_keys[4] == VirtualKey::Q);
            assert(code_keys[5] == VirtualKey::W);
            assert(code_keys[6] == VirtualKey::E);
            assert(code_keys[7] == VirtualKey::R);
            assert(code_keys[8] == VirtualKey::A);
            assert(code_keys[9] == VirtualKey::S);
            assert(code_keys[10] == VirtualKey::D);
            assert(code_keys[11] == VirtualKey::F);
            assert(code_keys[12] == VirtualKey::Z);
            assert(code_keys[13] == VirtualKey::X);
            assert(code_keys[14] == VirtualKey::C);
            assert(code_keys[15] == VirtualKey::V);
        }
        assert(forall|c: char|
            qwerty_lower(c) is Some ==> exists|j: int| 0 <= j < 16 && lower_keys[j] == c) by {
            assert(lower_keys[0] == '1');
            assert(lower_keys[1] == '2');
            assert(lower_keys[2] == '3');
            assert(lower_keys[3] == '4');
            assert(lower_keys[4] == 'q');
            assert(lower_keys[5] == 'w');
            assert(lower_keys[6] == 'e');
            assert(lower_keys[7] == 'r');
            assert(lower_keys[8] == 'a');
            assert(lower_keys[9] == 's');
            assert(lower_keys[10] == 'd');
            assert(lower_keys[11] == 'f');
            assert(lower_keys[12] == 'z');
            assert(lower_keys[13] == 'x');
            assert(lower_keys[14] == 'c');
            assert(lower_keys[15] == 'v');
        }
        assert(forall|c: char|
            'A' <= c <= 'Z' && qwerty_lower(ascii_lower(c)) is Some ==> exists|j: int|
                0 <= j < 12 && upper_keys[j] == c) by {
            assert(upper_keys[0] == 'Q');
            assert(upper_keys[1] == 'W');
            assert(upper_keys[2] == 'E');
            assert(upper_keys[3] == 'R');
            assert(upper_keys[4] == 'A');
            assert(upper_keys[5] == 'S');
            assert(upper_keys[6] == 'D');
            assert(upper_keys[7] == 'F');
            assert(upper_keys[8] == 'Z');
            assert(upper_keys[9] == 'X');
            assert(upper_keys[10] == 'C');
            assert(upper_keys[11] == 'V');
        }
        let mut i: usize = 0;
        while i < 16
            invariant
                i <= 16,
                self.name_text() == old(self).name_text(),
                self.description_text() == old(self).description_text(),
                forall|key: LogicalKey| self.logical(key) is None,
                physical@.len() == 16,
                codes@.len() == 16,
                forall|key: PhysicalKey|
                    self.physical(key) == (if exists|j: int| 0 <= j < i && physical@[j] == key {
                        qwerty_physical(key)
                    } else {
                        None
                    }),
                forall|key: VirtualKey|
                    self.virtual_key(key) == (if exists|j: int| 0 <= j < i && codes@[j] == key {
                        qwerty_virtual(key)
                    } else {
                        None
                    }),
            decreases 16 - i,
        {
            match qwerty_physical_key(physical[i]) {
                Some(chip) => {
                    self.add_physical_mapping(physical[i], chip);
                },
                None => {},
            }
            match qwerty_virtual_key(codes[i]) {
                Some(chip) => {
                    self.add_virtual_keycode_mapping(codes[i], chip);
                },
                None => {},
            }
            i += 1;
        }
        let mut i: usize = 0;
        while i < 16
            invariant
                i <= 16,
                self.name_text() == old(self).name_text(),
                self.description_text() == old(self).description_text(),
                lower@.len() == 16,
                forall|j: int| 0 <= j < 16 ==> !('A' <= #[trigger] lower@[j] <= 'Z'),
                forall|key: PhysicalKey|
                    self.physical(key) == (if exists|j: int| 0 <= j < 16 && physical@[j] == key {
                        qwerty_physical(key)
                    } else {
                        None
                    }),
                forall|key: VirtualKey|
                    self.virtual_key(key) == (if exists|j: int| 0 <= j < 16 && codes@[j] == key {
                        qwerty_virtual(key)
                    } else {
                        None
                    }),
                forall|key: LogicalKey|
                    self.logical(key) == (if exists|j: int|
                        0 <= j < i && LogicalKey::Character(lower@[j]) == key {
                        qwerty_logical(key)
                    } else {
                        None
                    }),
            decreases 16 - i,
        {
            match qwerty_lower_key(lower[i]) {
                Some(chip) => {
                    self.add_logical_mapping(LogicalKey::Character(lower[i]), chip);
                },
                None => {},
            }
            i += 1;
        }
        let mut i: usize = 0;
        while i < 12
            invariant
                i <= 12,
                self.name_text() == old(self).name_text(),
                self.description_text() == old(self).description_text(),
                lower@.len() == 16,
                upper@.len() == 12,
                forall|j: int| 0 <= j < 12 ==> 'A' <= #[trigger] upper@[j] <= 'Z',
                forall|key: PhysicalKey|
                    self.physical(key) == (if exists|j: int| 0 <= j < 16 && physical@[j] == key {
                        qwerty_physical(key)
                    } else {
                        None
                    }),
                forall|key: VirtualKey|
                    self.virtual_key(key) == (if exists|j: int| 0 <= j < 16 && codes@[j] == key {
                        qwerty_virtual(key)
                    } else {
                        None
                    }),
                forall|key: LogicalKey|
                    self.logical(key) == (if (exists|j: int|
                        0 <= j < 16 && LogicalKey::Character(lower@[j]) == key) || (exists|j: int|
                        0 <= j < i && LogicalKey::Character(upper@[j]) == key) {
                        qwerty_logical(key)
                    } else {
                        None
                    }),
            decreases 12 - i,
        {
            match qwerty_upper_key(upper[i]) {
                Some(chip) => {
                    self.add_logical_mapping(LogicalKey::Character(upper[i]), chip);
                },
                None => {},
            }
            i += 1;
        }
        proof {
            assert forall|key: PhysicalKey| self.physical(key) == qwerty_physical(key) by {
                if qwerty_physical(key) is Some {
                    assert(exists|j: int| 0 <= j < 16 && physical_keys[j] == key);
                }
            }
            assert forall|key: VirtualKey| self.virtual_key(key) == qwerty_virtual(key) by {
                if qwerty_virtual(key) is Some {
                    assert(exists|j: int| 0 <= j < 16 && code_keys[j] == key);
                }
            }
            assert forall|key: LogicalKey| self.logical(key) == qwerty_logical(key) by {
                if qwerty_logical(key) is Some {
                    let c = key->Character_0;
                    if 'A' <= c <= 'Z' {
                        let j = choose|j: int| 0 <= j < 12 && upper_keys[j] == c;
                        assert(LogicalKey::Character(upper@[j]) == key);
                    } else {
                        let j = choose|j: int| 0 <= j < 16 && lower_keys[j] == c;
                        assert(LogicalKey::Character(lower@[j]) == key);
                    }
                }
            }
        }
    }

    /// Takes every key off the map.
    pub fn clear_mappings(&mut self)
        ensures
            forall|key: PhysicalKey| final(self).physical(key) is None,
            forall|key: LogicalKey| final(self).logical(key) is None,
            forall|key: VirtualKey| final(self).virtual_key(key) is None,
            final(self).name_text() == old(self).name_text(),
            final(self).description_text() == old(self).description_text(),
    {
        self.physical_map.clear();
        self.logical_map.clear();
        self.virtual_keycode_map.clear();
    }
}

impl KeyMapper for CustomMapper {
    closed spec fn physical(&self, key: PhysicalKey) -> Option<ChipKey> {
        self.physical_map.get(key)
    }

    closed spec fn logical(&self, key: LogicalKey) -> Option<ChipKey> {
        self.logical_map.get(key)
    }

    closed spec fn virtual_key(&self, key: VirtualKey) -> Option<ChipKey> {
        self.virtual_keycode_map.get(key)
    }

    /// The name that the map was created with.
    closed spec fn name_text(&self) -> Seq<char> {
        self.name@
    }

    /// The description that the map was created with.
    closed spec fn description_text(&self) -> Seq<char> {
        self.description@
    }

    fn map_key_event(&self, event: &KeyboardEvent) -> (key: Option<ChipKey>) {
        match self.map_logical_key(&event.logical_key) {
            Some(key) => Some(key),
            None => self.map_physical_key(event.physical_key),
        }
    }

    fn map_physical_key(&self, key: PhysicalKey) -> (mapped: Option<ChipKey>) {
        self.physical_map.find(&key)
    }

    fn map_logical_key(&self, key: &LogicalKey) -> (mapped: Option<ChipKey>) {
        self.logical_map.find(key)
    }

    fn map_virtual_keycode(&self, key: VirtualKey) -> (mapped: Option<ChipKey>) {
        self.virtual_keycode_map.find(&key)
    }

    fn get_physical_mappings(&self) -> (pairs: Vec<(PhysicalKey, ChipKey)>) {
        self.physical_map.pairs()
    }

    fn name(&self) -> (name: &str) {
        self.name.as_str()
    }

    fn description(&self) -> (description: &str) {
        self.description.as_str()
    }
}

/// What `mapper_named` reports for a name that it does not know.
pub open spec fn unknown_mapper_message(given: Seq<char>) -> Seq<char> {
    "Unknown mapper configuration: "@ + given
}

/// Whether a name in lower case is one of the QWERTY placement.
pub open spec fn names_qwerty(lowered: Seq<char>) -> bool {
    lowered == "qwerty"@ || lowered == "standard"@
}

/// Whether a name in lower case is one of the alternative placement.
pub open spec fn names_alternative(lowered: Seq<char>) -> bool {
    lowered == "alternative"@ || lowered == "alt"@
}

/// The key map with the name `lowered`, which must be in lower case:
/// `qwerty` or `standard` for the QWERTY placement, `alternative` or `alt`
/// for the alternative one. Any other name is refused with a message that
/// quotes the name as it was `given`.
pub fn mapper_named(lowered: &str, given: &str) -> (result: Result<Box<dyn KeyMapper>, String>)
    ensures
        result is Ok <==> names_qwerty(lowered@) || names_alternative(lowered@),
        result matches Err(message) ==> message@ == unknown_mapper_message(given@),
        result is Ok ==> forall|key: PhysicalKey|
            #[trigger] result->Ok_0.physical(key) == qwerty_physical(key),
        result is Ok ==> forall|key: VirtualKey|
            #[trigger] result->Ok_0.virtual_key(key) == qwerty_virtual(key),
        names_qwerty(lowered@) ==> forall|key: LogicalKey|
            #[trigger] result->Ok_0.logical(key) == qwerty_logical(key),
        names_alternative(lowered@) ==> forall|key: LogicalKey|
            #[trigger] result->Ok_0.logical(key) == alternative_logical(key),
        names_qwerty(lowered@) ==> result->Ok_0.name_text() == QWERTY_NAME@
            && result->Ok_0.description_text() == QWERTY_DESCRIPTION@,
        names_alternative(lowered@) ==> result->Ok_0.name_text() == ALTERNATIVE_NAME@
            && result->Ok_0.description_text() == ALTERNATIVE_DESCRIPTION@,
{
    proof {
        reveal_strlit("qwerty");
        reveal_strlit("standard");
        reveal_strlit("alternative");
        reveal_strlit("alt");
        assert("qwerty"@.len() == 6 && "standard"@.len() == 8);
        assert("alternative"@.len() == 11 && "alt"@.len() == 3);
    }
    if reads(lowered, "qwerty") || reads(lowered, "standard") {
        let mapper: Box<dyn KeyMapper> = Box::new(QwertyMapper::new());
        let found = Ok(mapper);
        found
    } else if reads(lowered, "alternative") || reads(lowered, "alt") {
        let mapper: Box<dyn KeyMapper> = Box::new(AlternativeQwertyMapper::new());
        let found = Ok(mapper);
        found
    } else {
        Err(String::from_str("Unknown mapper configuration: ").concat(given))
    }
}

/// The key map with the name `config`, in whatever case it is written.
pub fn create_mapper_from_config(config: &str) -> (result: Result<Box<dyn KeyMapper>, String>)
    ensures
        result is Ok <==> names_qwerty(lowercase_text(config@)) || names_alternative(
            lowercase_text(config@),
        ),
        result matches Err(message) ==> message@ == unknown_mapper_message(config@),
        result is Ok ==> forall|key: PhysicalKey|
            #[trigger] result->Ok_0.physical(key) == qwerty_physical(key),
        result is Ok ==> forall|key: VirtualKey|
            #[trigger] result->Ok_0.virtual_key(key) == qwerty_virtual(key),
        names_qwerty(lowercase_text(config@)) ==> forall|key: LogicalKey|
            #[trigger] result->Ok_0.logical(key) == qwerty_logical(key),
        names_alternative(lowercase_text(config@)) ==> forall|key: LogicalKey|
            #[trigger] result->Ok_0.logical(key) == alternative_logical(key),
        names_qwerty(lowercase_text(config@)) ==> result->Ok_0.name_text() == QWERTY_NAME@
            && result->Ok_0.description_text() == QWERTY_DESCRIPTION@,
        names_alternative(lowercase_text(config@)) ==> result->Ok_0.name_text()
            == ALTERNATIVE_NAME@ && result->Ok_0.description_text() == ALTERNATIVE_DESCRIPTION@,
{
    let lowered = lowercase(config);
    mapper_named(lowered.as_str(), config)
}

/// The names under which `create_mapper_from_config` knows a map.
pub fn get_available_mappers() -> (names: Vec<&'static str>)
    ensures
        names@.len() == 2,
        names@[0]@ == "qwerty"@,
        names@[1]@ == "alternative"@,
{
    let mut names: Vec<&'static str> = Vec::new();
    names.push("qwerty");
    names.push("alternative");
    names
}

} // verus!
