//! The sixteen-key hexadecimal keypad.
//!
//! ```text
//! 1 2 3 C
//! 4 5 6 D
//! 7 8 9 E
//! A 0 B F
//! ```

use crate::error::InputError;
use vstd::prelude::*;
use vstd::string::StringExecFns;

verus! {

/// Result of an input operation.
pub type InputResult<T> = Result<T, InputError>;

/// The keys of the keypad.
#[derive(Debug, Clone, Copy, PartialEq, Eq, Hash, Structural)]
pub enum ChipKey {
    Key0,
    Key1,
    Key2,
    Key3,
    Key4,
    Key5,
    Key6,
    Key7,
    Key8,
    Key9,
    KeyA,
    KeyB,
    KeyC,
    KeyD,
    KeyE,
    KeyF,
}

impl ChipKey {
    /// The number that the key stands for, 0 to 15.
    pub open spec fn index(self) -> int {
        match self {
            ChipKey::Key0 => 0x0,
            ChipKey::Key1 => 0x1,
            ChipKey::Key2 => 0x2,
            ChipKey::Key3 => 0x3,
            ChipKey::Key4 => 0x4,
            ChipKey::Key5 => 0x5,
            ChipKey::Key6 => 0x6,
            ChipKey::Key7 => 0x7,
            ChipKey::Key8 => 0x8,
            ChipKey::Key9 => 0x9,
            ChipKey::KeyA => 0xA,
            ChipKey::KeyB => 0xB,
            ChipKey::KeyC => 0xC,
            ChipKey::KeyD => 0xD,
            ChipKey::KeyE => 0xE,
            ChipKey::KeyF => 0xF,
        }
    }

    /// The key that stands for `value`, if `value` is at most 15.
    pub fn from_u8(value: u8) -> (key: Option<Self>)
        ensures
            value <= 0xF ==> key is Some && key->0.index() == value,
            value > 0xF ==> key is None,
    {
        match value {
            0x0 => Some(ChipKey::Key0),
            0x1 => Some(ChipKey::Key1),
            0x2 => Some(ChipKey::Key2),
            0x3 => Some(ChipKey::Key3),
            0x4 => Some(ChipKey::Key4),
            0x5 => Some(ChipKey::Key5),
            0x6 => Some(ChipKey::Key6),
            0x7 => Some(ChipKey::Key7),
            0x8 => Some(ChipKey::Key8),
            0x9 => Some(ChipKey::Key9),
            0xA => Some(ChipKey::KeyA),
            0xB => Some(ChipKey::KeyB),
            0xC => Some(ChipKey::KeyC),
            0xD => Some(ChipKey::KeyD),
            0xE => Some(ChipKey::KeyE),
            0xF => Some(ChipKey::KeyF),
            _ => None,
        }
    }

    /// The number that the key stands for.
    pub fn to_u8(self) -> (value: u8)
        ensures
            value == self.index(),
            value <= 0xF,
    {
        match self {
            ChipKey::Key0 => 0x0,
            ChipKey::Key1 => 0x1,
            ChipKey::Key2 => 0x2,
            ChipKey::Key3 => 0x3,
            ChipKey::Key4 => 0x4,
            ChipKey::Key5 => 0x5,
            ChipKey::Key6 => 0x6,
            ChipKey::Key7 => 0x7,
            ChipKey::Key8 => 0x8,
            ChipKey::Key9 => 0x9,
            ChipKey::KeyA => 0xA,
            ChipKey::KeyB => 0xB,
            ChipKey::KeyC => 0xC,
            ChipKey::KeyD => 0xD,
            ChipKey::KeyE => 0xE,
            ChipKey::KeyF => 0xF,
        }
    }

    /// All keys, in the order of their numbers.
    pub fn all_keys() -> (keys: [ChipKey; 16])
        ensures
            forall|i: int| 0 <= i < 16 ==> (#[trigger] keys@[i]).index() == i,
    {
        [
            ChipKey::Key0,
            ChipKey::Key1,
            ChipKey::Key2,
            ChipKey::Key3,
            ChipKey::Key4,
            ChipKey::Key5,
            ChipKey::Key6,
            ChipKey::Key7,
            ChipKey::Key8,
            ChipKey::Key9,
            ChipKey::KeyA,
            ChipKey::KeyB,
            ChipKey::KeyC,
            ChipKey::KeyD,
            ChipKey::KeyE,
            ChipKey::KeyF,
        ]
    }

    /// The key's hexadecimal digit, in upper case.
    pub fn to_string(&self) -> (text: String)
        ensures
            text@ == seq![key_digit(*self)],
    {
        proof {
            reveal_strlit("0");
            reveal_strlit("1");
            reveal_strlit("2");
            reveal_strlit("3");
            reveal_strlit("4");
            reveal_strlit("5");
            reveal_strlit("6");
            reveal_strlit("7");
            reveal_strlit("8");
            reveal_strlit("9");
            reveal_strlit("A");
            reveal_strlit("B");
            reveal_strlit("C");
            reveal_strlit("D");
            reveal_strlit("E");
            reveal_strlit("F");
        }
        let text = match self {
            ChipKey::Key0 => String::from_str("0"),
            ChipKey::Key1 => String::from_str("1"),
            ChipKey::Key2 => String::from_str("2"),
            ChipKey::Key3 => String::from_str("3"),
            ChipKey::Key4 => String::from_str("4"),
            ChipKey::Key5 => String::from_str("5"),
            ChipKey::Key6 => String::from_str("6"),
            ChipKey::Key7 => String::from_str("7"),
            ChipKey::Key8 => String::from_str("8"),
            ChipKey::Key9 => String::from_str("9"),
            ChipKey::KeyA => String::from_str("A"),
            ChipKey::KeyB => String::from_str("B"),
            ChipKey::KeyC => String::from_str("C"),
            ChipKey::KeyD => String::from_str("D"),
            ChipKey::KeyE => String::from_str("E"),
            ChipKey::KeyF => String::from_str("F"),
        };
        assert(text@ =~= seq![key_digit(*self)]);
        text
    }
}

/// The upper-case hexadecimal digit of a key.
pub open spec fn key_digit(key: ChipKey) -> char {
    match key {
        ChipKey::Key0 => '0',
        ChipKey::Key1 => '1',
        ChipKey::Key2 => '2',
        ChipKey::Key3 => '3',
        ChipKey::Key4 => '4',
        ChipKey::Key5 => '5',
        ChipKey::Key6 => '6',
        ChipKey::Key7 => '7',
        ChipKey::Key8 => '8',
        ChipKey::Key9 => '9',
        ChipKey::KeyA => 'A',
        ChipKey::KeyB => 'B',
        ChipKey::KeyC => 'C',
        ChipKey::KeyD => 'D',
        ChipKey::KeyE => 'E',
        ChipKey::KeyF => 'F',
    }
}

/// Law: a key is known by its number. Two keys with the same number are
/// the same key.
pub proof fn lemma_key_by_index(a: ChipKey, b: ChipKey)
    ensures
        0 <= a.index() < 16,
        a.index() == b.index() ==> a == b,
{
}

/// The key whose number is `value`, for `value` up to 15.
pub open spec fn key_numbered(value: u8) -> ChipKey {
    choose|k: ChipKey| k.index() == value
}

/// The key that has the number `value` is the key numbered `value`.
pub proof fn lemma_key_numbered(value: u8, key: ChipKey)
    requires
        key.index() == value,
    ensures
        key_numbered(value) == key,
{
    lemma_key_by_index(key_numbered(value), key);
}

/// Every number up to 15 is the number of a key.
pub proof fn lemma_every_number_has_a_key(value: u8)
    requires
        value <= 0xF,
    ensures
        key_numbered(value).index() == value,
{
    let key = if value == 0x0 {
        ChipKey::Key0
    } else if value == 0x1 {
        ChipKey::Key1
    } else if value == 0x2 {
        ChipKey::Key2
    } else if value == 0x3 {
        ChipKey::Key3
    } else if value == 0x4 {
        ChipKey::Key4
    } else if value == 0x5 {
        ChipKey::Key5
    } else if value == 0x6 {
        ChipKey::Key6
    } else if value == 0x7 {
        ChipKey::Key7
    } else if value == 0x8 {
        ChipKey::Key8
    } else if value == 0x9 {
        ChipKey::Key9
    } else if value == 0xA {
        ChipKey::KeyA
    } else if value == 0xB {
        ChipKey::KeyB
    } else if value == 0xC {
        ChipKey::KeyC
    } else if value == 0xD {
        ChipKey::KeyD
    } else if value == 0xE {
        ChipKey::KeyE
    } else {
        ChipKey::KeyF
    };
    assert(key.index() == value);
}

/// The state of the keypad, as the machine sees it.
pub trait Input {
    /// Whether `key` is held down. Keypads that are verified say what this
    /// is; of any other keypad nothing is known.
    open spec fn pressed(&self, key: ChipKey) -> bool {
        arbitrary()
    }

    /// Whether `key` is held down.
    fn is_key_pressed(&self, key: ChipKey) -> (down: bool)
        ensures
            down == self.pressed(key),
    ;

    /// Some key that is held down, if there is one.
    fn wait_for_key(&self) -> (key: Option<ChipKey>)
        ensures
            key matches Some(k) ==> self.pressed(k),
            key is None ==> forall|k: ChipKey| !self.pressed(k),
    ;

    /// The keys that are held down.
    fn get_pressed_keys(&self) -> (keys: Vec<ChipKey>)
        ensures
            forall|k: ChipKey| keys@.contains(k) <==> self.pressed(k),
    ;

    /// Starts a new frame.
    fn update(&mut self) -> InputResult<()>;

    /// Whether any key is held down.
    fn any_key_pressed(&self) -> (any: bool)
        ensures
            any == exists|k: ChipKey| self.pressed(k),
    {
        let keys = ChipKey::all_keys();
        let mut i: usize = 0;
        while i < 16
            invariant
                i <= 16,
                forall|j: int| 0 <= j < 16 ==> (#[trigger] keys@[j]).index() == j,
                forall|k: ChipKey| k.index() < i ==> !self.pressed(k),
            decreases 16 - i,
        {
            if self.is_key_pressed(keys[i]) {
                return true;
            }
            proof {
                assert forall|k: ChipKey| k.index() < i + 1 implies !self.pressed(k) by {
                    lemma_key_by_index(k, keys@[i as int]);
                }
            }
            i += 1;
        }
        proof {
            assert forall|k: ChipKey| !self.pressed(k) by {
                lemma_key_by_index(k, k);
            }
        }
        false
    }

    /// The key with the lowest number among those held down.
    fn get_first_pressed_key(&self) -> (key: Option<ChipKey>)
        ensures
            key matches Some(k) ==> self.pressed(k) && forall|j: ChipKey|
                j.index() < k.index() ==> !self.pressed(j),
            key is None ==> forall|k: ChipKey| !self.pressed(k),
    {
        let keys = ChipKey::all_keys();
        let mut i: usize = 0;
        while i < 16
            invariant
                i <= 16,
                forall|j: int| 0 <= j < 16 ==> (#[trigger] keys@[j]).index() == j,
                forall|k: ChipKey| k.index() < i ==> !self.pressed(k),
            decreases 16 - i,
        {
            if self.is_key_pressed(keys[i]) {
                return Some(keys[i]);
            }
            proof {
                assert forall|k: ChipKey| k.index() < i + 1 implies !self.pressed(k) by {
                    lemma_key_by_index(k, keys@[i as int]);
                }
            }
            i += 1;
        }
        proof {
            assert forall|k: ChipKey| !self.pressed(k) by {
                lemma_key_by_index(k, k);
            }
        }
        None
    }
}

/// Whether `keys` lists exactly the keys that `wanted` holds of, in the
/// order of their numbers.
pub open spec fn lists_in_order(keys: Seq<ChipKey>, wanted: spec_fn(ChipKey) -> bool) -> bool {
    &&& forall|k: ChipKey| keys.contains(k) <==> wanted(k)
    &&& forall|i: int, j: int|
        0 <= i < j < keys.len() ==> (#[trigger] keys[i]).index() < (#[trigger] keys[j]).index()
}

/// One flag for each key, none of them set.
fn no_flags() -> (flags: [bool; 16])
    ensures
        forall|i: int| 0 <= i < 16 ==> #[trigger] flags@[i] == false,
{
    let flags: [bool; 16] = [false;16];
    assert forall|i: int| 0 <= i < 16 implies #[trigger] flags@[i] == false by {
        assert(flags@[i] == vstd::array::spec_array_fill_for_copy_type::<bool, 16>(false)@[i]);
    }
    flags
}

/// The keys whose flag is set, in the order of their numbers.
fn keys_flagged(flags: &[bool; 16]) -> (keys: Vec<ChipKey>)
    ensures
        lists_in_order(keys@, |k: ChipKey| flags@[k.index()]),
        keys@.no_duplicates(),
{
    let all = ChipKey::all_keys();
    let mut keys: Vec<ChipKey> = Vec::new();
    let mut i: usize = 0;
    while i < 16
        invariant
            i <= 16,
            forall|j: int| 0 <= j < 16 ==> (#[trigger] all@[j]).index() == j,
            forall|k: ChipKey| keys@.contains(k) <==> (k.index() < i && flags@[k.index()]),
            forall|a: int, b: int|
                0 <= a < b < keys@.len() ==> (#[trigger] keys@[a]).index() < (
                #[trigger] keys@[b]).index(),
            forall|a: int| 0 <= a < keys@.len() ==> (#[trigger] keys@[a]).index() < i,
        decreases 16 - i,
    {
        if flags[i] {
            let ghost before = keys@;
            keys.push(all[i]);
            proof {
                assert forall|k: ChipKey| keys@.contains(k) <==> (k.index() < i + 1
                    && flags@[k.index()]) by {
                    lemma_key_by_index(k, all@[i as int]);
                    if before.contains(k) {
                        let at = choose|at: int| 0 <= at < before.len() && before[at] == k;
                        assert(keys@[at] == k);
                    }
                    if k == all@[i as int] {
                        assert(keys@[before.len() as int] == k);
                    }
                    if keys@.contains(k) {
                        let at = choose|at: int| 0 <= at < keys@.len() && keys@[at] == k;
                        if at < before.len() {
                            assert(before[at] == k);
                        }
                    }
                }
            }
        } else {
            proof {
                assert forall|k: ChipKey| keys@.contains(k) <==> (k.index() < i + 1
                    && flags@[k.index()]) by {
                    lemma_key_by_index(k, all@[i as int]);
                }
            }
        }
        i += 1;
    }
    proof {
        assert forall|k: ChipKey| keys@.contains(k) <==> flags@[k.index()] by {
            lemma_key_by_index(k, k);
        }
        assert forall|a: int, b: int| 0 <= a < keys@.len() && 0 <= b < keys@.len() && a != b
            implies keys@[a] != keys@[b] by {
            if a < b {
                assert(keys@[a].index() < keys@[b].index());
            } else {
                assert(keys@[b].index() < keys@[a].index());
            }
        }
    }
    keys
}

/// A keypad that is operated by calls.
///
/// Besides the keys that are held down it remembers which keys went down
/// and which went up since the last `update`.
#[derive(Clone)]
pub struct SoftwareInput {
    pressed_keys: [bool; 16],
    keys_pressed_this_frame: [bool; 16],
    keys_released_this_frame: [bool; 16],
}

impl SoftwareInput {
    /// Whether `key` went down since the last `update`.
    pub closed spec fn just_pressed(&self, key: ChipKey) -> bool {
        self.keys_pressed_this_frame@[key.index()]
    }

    /// Whether `key` went up since the last `update`.
    pub closed spec fn just_released(&self, key: ChipKey) -> bool {
        self.keys_released_this_frame@[key.index()]
    }

    /// Creates a keypad with no key down and nothing remembered.
    pub fn new() -> (input: Self)
        ensures
            forall|k: ChipKey|
                !input.pressed(k) && !input.just_pressed(k) && !input.just_released(k),
    {
        let input = Self {
            pressed_keys: no_flags(),
            keys_pressed_this_frame: no_flags(),
            keys_released_this_frame: no_flags(),
        };
        proof {
            assert forall|k: ChipKey|
                !input.pressed(k) && !input.just_pressed(k) && !input.just_released(k) by {
                lemma_key_by_index(k, k);
            }
        }
        input
    }

    /// Puts `key` down. A key that was up is remembered as just pressed.
    pub fn press_key(&mut self, key: ChipKey)
        ensures
            forall|k: ChipKey| final(self).pressed(k) == (k == key || old(self).pressed(k)),
            forall|k: ChipKey|
                final(self).just_pressed(k) == ((k == key && !old(self).pressed(key)) || old(
                    self,
                ).just_pressed(k)),
            forall|k: ChipKey| final(self).just_released(k) == old(self).just_released(k),
    {
        let i = key.to_u8() as usize;
        if !self.pressed_keys[i] {
            self.keys_pressed_this_frame[i] = true;
        }
        self.pressed_keys[i] = true;
        proof {
            assert forall|k: ChipKey| k.index() == key.index() implies k == key by {
                lemma_key_by_index(k, key);
            }
        }
    }

    /// Lets `key` up. A key that was down is remembered as just released.
    pub fn release_key(&mut self, key: ChipKey)
        ensures
            forall|k: ChipKey| final(self).pressed(k) == (k != key && old(self).pressed(k)),
            forall|k: ChipKey|
                final(self).just_released(k) == ((k == key && old(self).pressed(key)) || old(
                    self,
                ).just_released(k)),
            forall|k: ChipKey| final(self).just_pressed(k) == old(self).just_pressed(k),
    {
        let i = key.to_u8() as usize;
        if self.pressed_keys[i] {
            self.keys_released_this_frame[i] = true;
        }
        self.pressed_keys[i] = false;
        proof {
            assert forall|k: ChipKey| k.index() == key.index() implies k == key by {
                lemma_key_by_index(k, key);
            }
        }
    }

    /// Lets every key up; those that were down are remembered as just
    /// released.
    pub fn release_all_keys(&mut self)
        ensures
            forall|k: ChipKey| !final(self).pressed(k),
            forall|k: ChipKey|
                final(self).just_released(k) == (old(self).pressed(k) || old(self).just_released(
                    k,
                )),
            forall|k: ChipKey| final(self).just_pressed(k) == old(self).just_pressed(k),
    {
        let mut i: usize = 0;
        while i < 16
            invariant
                i <= 16,
                self.keys_pressed_this_frame == old(self).keys_pressed_this_frame,
                forall|j: int|
                    0 <= j < 16 ==> #[trigger] self.pressed_keys@[j] == (j >= i && old(
                        self,
                    ).pressed_keys@[j]),
                forall|j: int|
                    0 <= j < 16 ==> #[trigger] self.keys_released_this_frame@[j] == (old(
                        self,
                    ).keys_released_this_frame@[j] || (j < i && old(self).pressed_keys@[j])),
            decreases 16 - i,
        {
            if self.pressed_keys[i] {
                self.keys_released_this_frame[i] = true;
            }
            self.pressed_keys[i] = false;
            i += 1;
        }
        proof {
            assert forall|k: ChipKey| 0 <= #[trigger] k.index() < 16 by {
                lemma_key_by_index(k, k);
            }
        }
    }

    /// Whether `key` went down since the last `update`.
    pub fn was_key_just_pressed(&self, key: ChipKey) -> (just: bool)
        ensures
            just == self.just_pressed(key),
    {
        self.keys_pressed_this_frame[key.to_u8() as usize]
    }

    /// Whether `key` went up since the last `update`.
    pub fn was_key_just_released(&self, key: ChipKey) -> (just: bool)
        ensures
            just == self.just_released(key),
    {
        self.keys_released_this_frame[key.to_u8() as usize]
    }

    /// The keys that went down since the last `update`, in the order of
    /// their numbers.
    pub fn get_keys_pressed_this_frame(&self) -> (keys: Vec<ChipKey>)
        ensures
            lists_in_order(keys@, |k: ChipKey| self.just_pressed(k)),
    {
        keys_flagged(&self.keys_pressed_this_frame)
    }

    /// The keys that went up since the last `update`, in the order of
    /// their numbers.
    pub fn get_keys_released_this_frame(&self) -> (keys: Vec<ChipKey>)
        ensures
            lists_in_order(keys@, |k: ChipKey| self.just_released(k)),
    {
        keys_flagged(&self.keys_released_this_frame)
    }
}

impl Default for SoftwareInput {
    fn default() -> (input: Self)
        ensures
            forall|k: ChipKey|
                !input.pressed(k) && !input.just_pressed(k) && !input.just_released(k),
    {
        Self::new()
    }
}

impl Input for SoftwareInput {
    closed spec fn pressed(&self, key: ChipKey) -> bool {
        self.pressed_keys@[key.index()]
    }

    fn is_key_pressed(&self, key: ChipKey) -> (down: bool) {
        self.pressed_keys[key.to_u8() as usize]
    }

    /// The key with the lowest number among those held down.
    fn wait_for_key(&self) -> (key: Option<ChipKey>)
        ensures
            key matches Some(k) ==> forall|j: ChipKey| j.index() < k.index() ==> !self.pressed(j),
    {
        self.get_first_pressed_key()
    }

    /// The keys that are held down, each once, in the order of their
    /// numbers.
    fn get_pressed_keys(&self) -> (keys: Vec<ChipKey>)
        ensures
            lists_in_order(keys@, |k: ChipKey| self.pressed(k)),
            keys@.no_duplicates(),
    {
        keys_flagged(&self.pressed_keys)
    }

    /// Forgets which keys went down or up; the keys that are held down
    /// stay so. Never fails.
    fn update(&mut self) -> (result: InputResult<()>)
        ensures
            result is Ok,
            forall|k: ChipKey| final(self).pressed(k) == old(self).pressed(k),
            forall|k: ChipKey| !final(self).just_pressed(k) && !final(self).just_released(k),
    {
        self.keys_pressed_this_frame = no_flags();
        self.keys_released_this_frame = no_flags();
        proof {
            assert forall|k: ChipKey|
                !self.just_pressed(k) && !self.just_released(k) by {
                lemma_key_by_index(k, k);
            }
        }
        Ok(())
    }
}

/// A keypad for tests and automated runs: a software keypad under another
/// name.
pub struct NullInput {
    input: SoftwareInput,
}

impl NullInput {
    /// Creates a keypad with no key down.
    pub fn new() -> (input: Self)
        ensures
            forall|k: ChipKey| !input.pressed(k),
    {
        Self { input: SoftwareInput::new() }
    }

    /// Puts `key` down.
    pub fn press_key(&mut self, key: ChipKey)
        ensures
            forall|k: ChipKey| final(self).pressed(k) == (k == key || old(self).pressed(k)),
    {
        self.input.press_key(key);
    }

    /// Lets `key` up.
    pub fn release_key(&mut self, key: ChipKey)
        ensures
            forall|k: ChipKey| final(self).pressed(k) == (k != key && old(self).pressed(k)),
    {
        self.input.release_key(key);
    }
}

impl Default for NullInput {
    fn default() -> (input: Self)
        ensures
            forall|k: ChipKey| !input.pressed(k),
    {
        Self::new()
    }
}

impl Input for NullInput {
    closed spec fn pressed(&self, key: ChipKey) -> bool {
        self.input.pressed(key)
    }

    fn is_key_pressed(&self, key: ChipKey) -> (down: bool) {
        self.input.is_key_pressed(key)
    }

    fn wait_for_key(&self) -> (key: Option<ChipKey>) {
        self.input.wait_for_key()
    }

    /// The keys that are held down, each once, in the order of their
    /// numbers.
    fn get_pressed_keys(&self) -> (keys: Vec<ChipKey>)
        ensures
            lists_in_order(keys@, |k: ChipKey| self.pressed(k)),
            keys@.no_duplicates(),
    {
        self.input.get_pressed_keys()
    }

    /// The keys that are held down stay so. Never fails.
    fn update(&mut self) -> (result: InputResult<()>)
        ensures
            result is Ok,
            forall|k: ChipKey| final(self).pressed(k) == old(self).pressed(k),
    {
        self.input.update()
    }
}

/// The usual placement of the keypad on a QWERTY keyboard.
///
/// ```text
/// keypad:    keyboard:
/// 1 2 3 C    1 2 3 4
/// 4 5 6 D    Q W E R
/// 7 8 9 E    A S D F
/// A 0 B F    Z X C V
/// ```
pub struct QwertyKeyMap;

/// The keyboard character, in upper case, on which a key of the keypad
/// lies.
pub open spec fn qwerty_char(key: ChipKey) -> char {
    match key {
        ChipKey::Key1 => '1',
        ChipKey::Key2 => '2',
        ChipKey::Key3 => '3',
        ChipKey::KeyC => '4',
        ChipKey::Key4 => 'Q',
        ChipKey::Key5 => 'W',
        ChipKey::Key6 => 'E',
        ChipKey::KeyD => 'R',
        ChipKey::Key7 => 'A',
        ChipKey::Key8 => 'S',
        ChipKey::Key9 => 'D',
        ChipKey::KeyE => 'F',
        ChipKey::KeyA => 'Z',
        ChipKey::Key0 => 'X',
        ChipKey::KeyB => 'C',
        ChipKey::KeyF => 'V',
    }
}

/// The upper-case form of an ASCII letter; any other character is its own
/// upper-case form.
pub open spec fn ascii_upper(c: char) -> char {
    if 'a' <= c <= 'z' {
        ((c as u32) - 32) as char
    } else {
        c
    }
}

/// The key of the keypad that lies on the keyboard character `c`, in
/// either case.
pub open spec fn qwerty_key(c: char) -> Option<ChipKey> {
    if exists|k: ChipKey| qwerty_char(k) == ascii_upper(c) {
        Some(choose|k: ChipKey| qwerty_char(k) == ascii_upper(c))
    } else {
        None
    }
}

/// Law: no two keys of the keypad lie on the same keyboard character.
pub proof fn lemma_qwerty_chars_differ(a: ChipKey, b: ChipKey)
    ensures
        qwerty_char(a) == qwerty_char(b) ==> a == b,
{
}

/// Law: the two directions of the mapping agree. The key found for a
/// key's own character, in either case, is that key.
pub proof fn lemma_qwerty_round_trip(key: ChipKey)
    ensures
        qwerty_key(qwerty_char(key)) == Some(key),
        forall|c: char|
            ascii_upper(c) == qwerty_char(key) ==> #[trigger] qwerty_key(c) == Some(key),
{
    assert forall|c: char| ascii_upper(c) == qwerty_char(key) implies #[trigger] qwerty_key(c)
        == Some(key) by {
        assert(qwerty_char(key) == ascii_upper(c));
        let found = choose|k: ChipKey| qwerty_char(k) == ascii_upper(c);
        lemma_qwerty_chars_differ(found, key);
    }
    assert(ascii_upper(qwerty_char(key)) == qwerty_char(key));
}

impl QwertyKeyMap {
    /// The key of the keypad that lies on the keyboard character `c`; the
    /// case of a letter does not matter.
    pub fn char_to_chip_key(c: char) -> (key: Option<ChipKey>)
        ensures
            key == qwerty_key(c),
    {
        let key = match c {
            '1' => Some(ChipKey::Key1),
            '2' => Some(ChipKey::Key2),
            '3' => Some(ChipKey::Key3),
            '4' => Some(ChipKey::KeyC),
            'Q' | 'q' => Some(ChipKey::Key4),
            'W' | 'w' => Some(ChipKey::Key5),
            'E' | 'e' => Some(ChipKey::Key6),
            'R' | 'r' => Some(ChipKey::KeyD),
            'A' | 'a' => Some(ChipKey::Key7),
            'S' | 's' => Some(ChipKey::Key8),
            'D' | 'd' => Some(ChipKey::Key9),
            'F' | 'f' => Some(ChipKey::KeyE),
            'Z' | 'z' => Some(ChipKey::KeyA),
            'X' | 'x' => Some(ChipKey::Key0),
            'C' | 'c' => Some(ChipKey::KeyB),
            'V' | 'v' => Some(ChipKey::KeyF),
            _ => None,
        };
        proof {
            match key {
                Some(k) => {
                    assert(qwerty_char(k) == ascii_upper(c));
                    let found = choose|j: ChipKey| qwerty_char(j) == ascii_upper(c);
                    lemma_qwerty_chars_differ(found, k);
                },
                None => {
                    assert forall|k: ChipKey| qwerty_char(k) != ascii_upper(c) by {}
                },
            }
        }
        key
    }

    /// The keyboard character on which `key` lies.
    pub fn chip_key_to_char(key: ChipKey) -> (c: char)
        ensures
            c == qwerty_char(key),
    {
        match key {
            ChipKey::Key1 => '1',
            ChipKey::Key2 => '2',
            ChipKey::Key3 => '3',
            ChipKey::KeyC => '4',
            ChipKey::Key4 => 'Q',
            ChipKey::Key5 => 'W',
            ChipKey::Key6 => 'E',
            ChipKey::KeyD => 'R',
            ChipKey::Key7 => 'A',
            ChipKey::Key8 => 'S',
            ChipKey::Key9 => 'D',
            ChipKey::KeyE => 'F',
            ChipKey::KeyA => 'Z',
            ChipKey::Key0 => 'X',
            ChipKey::KeyB => 'C',
            ChipKey::KeyF => 'V',
        }
    }

    /// Every key with its keyboard character, in the order of the keys'
    /// numbers.
    pub fn get_all_mappings() -> (mappings: [(ChipKey, char); 16])
        ensures
            forall|i: int|
                0 <= i < 16 ==> (#[trigger] mappings@[i]).0.index() == i && mappings@[i].1
                    == qwerty_char(mappings@[i].0),
    {
        [
            (ChipKey::Key0, 'X'),
            (ChipKey::Key1, '1'),
            (ChipKey::Key2, '2'),
            (ChipKey::Key3, '3'),
            (ChipKey::Key4, 'Q'),
            (ChipKey::Key5, 'W'),
            (ChipKey::Key6, 'E'),
            (ChipKey::Key7, 'A'),
            (ChipKey::Key8, 'S'),
            (ChipKey::Key9, 'D'),
            (ChipKey::KeyA, 'Z'),
            (ChipKey::KeyB, 'C'),
            (ChipKey::KeyC, '4'),
            (ChipKey::KeyD, 'R'),
            (ChipKey::KeyE, 'F'),
            (ChipKey::KeyF, 'V'),
        ]
    }
}

} // verus!
