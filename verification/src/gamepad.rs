use vstd::prelude::*;

verus! {

/// Index of a keypad key under the fixed layout, by its one-character
/// symbolic name; both cases of a letter name the same key, and any other
/// character is unrecognized.
pub open spec fn key_char_index(c: char) -> Option<usize> {
    if c == '1' {
        Some(0usize)
    } else if c == '2' {
        Some(1usize)
    } else if c == '3' {
        Some(2usize)
    } else if c == '4' {
        Some(3usize)
    } else if c == 'q' || c == 'Q' {
        Some(4usize)
    } else if c == 'w' || c == 'W' {
        Some(5usize)
    } else if c == 'e' || c == 'E' {
        Some(6usize)
    } else if c == 'r' || c == 'R' {
        Some(7usize)
    } else if c == 'a' || c == 'A' {
        Some(8usize)
    } else if c == 's' || c == 'S' {
        Some(9usize)
    } else if c == 'd' || c == 'D' {
        Some(10usize)
    } else if c == 'f' || c == 'F' {
        Some(11usize)
    } else if c == 'z' || c == 'Z' {
        Some(12usize)
    } else if c == 'x' || c == 'X' {
        Some(13usize)
    } else if c == 'c' || c == 'C' {
        Some(14usize)
    } else if c == 'v' || c == 'V' {
        Some(15usize)
    } else {
        None
    }
}

/// Index for a symbolic key name: a single character out of the fixed
/// layout; every other name is unrecognized.
pub open spec fn key_name_index(name: Seq<char>) -> Option<usize> {
    if name.len() == 1 {
        key_char_index(name[0])
    } else {
        None
    }
}

/// Lowest pressed key index at or after position `i`, if any.
pub open spec fn first_pressed_from(keys: Seq<bool>, i: int) -> Option<usize>
    decreases keys.len() - i,
{
    if i < 0 || i >= keys.len() {
        None
    } else if keys[i] {
        Some(i as usize)
    } else {
        first_pressed_from(keys, i + 1)
    }
}

/// Lowest pressed key index, if any key is pressed.
pub open spec fn spec_first_pressed(keys: Seq<bool>) -> Option<usize> {
    first_pressed_from(keys, 0)
}

proof fn lemma_first_pressed_from_props(keys: Seq<bool>, i: int)
    requires
        0 <= i <= keys.len(),
        keys.len() <= usize::MAX,
    ensures
        match first_pressed_from(keys, i) {
            Some(k) => i <= k < keys.len() && keys[k as int] && (forall|j: int|
                i <= j < k ==> !keys[j]),
            None => forall|j: int| i <= j < keys.len() ==> !keys[j],
        },
    decreases keys.len() - i,
{
    if i < keys.len() && !keys[i] {
        lemma_first_pressed_from_props(keys, i + 1);
        match first_pressed_from(keys, i + 1) {
            Some(k) => {
                assert(forall|j: int| i <= j < k ==> !(#[trigger] keys[j]));
            },
            None => {
                assert(forall|j: int| i <= j < keys.len() ==> !(#[trigger] keys[j]));
            },
        }
    }
}

/// The lowest pressed index is pressed, nothing below it is, and it exists
/// exactly when some key is pressed.
pub proof fn lemma_first_pressed_props(keys: Seq<bool>)
    requires
        keys.len() <= usize::MAX,
    ensures
        match spec_first_pressed(keys) {
            Some(k) => k < keys.len() && keys[k as int] && (forall|j: int|
                0 <= j < k ==> !keys[j]),
            None => forall|j: int| 0 <= j < keys.len() ==> !keys[j],
        },
{
    lemma_first_pressed_from_props(keys, 0);
}

/// The 16 boolean key states of the hexadecimal keypad.
pub struct Gamepad {
    keys: Vec<bool>,
}

impl View for Gamepad {
    type V = Seq<bool>;

    closed spec fn view(&self) -> Seq<bool> {
        self.keys@
    }
}

impl Gamepad {
    /// The keypad always holds exactly 16 key states.
    pub open spec fn wf(&self) -> bool {
        self@.len() == 16
    }

    /// A fresh keypad with every key up.
    pub fn new() -> (r: Gamepad)
        ensures
            r.wf(),
            forall|i: int| 0 <= i < 16 ==> !(#[trigger] r@[i]),
    {
        Gamepad { keys: vec![false; 16] }
    }

    /// Index for a symbolic key name, or `None` for an unrecognized name.
    pub fn key_to_idx(&self, key: &str) -> (r: Option<usize>)
        ensures
            r == key_name_index(key@),
            r matches Some(i) ==> i < 16,
    {
        if key.unicode_len() != 1 {
            return None;
        }
        let c = key.get_char(0);
        match c {
            '1' => Some(0),
            '2' => Some(1),
            '3' => Some(2),
            '4' => Some(3),
            'q' | 'Q' => Some(4),
            'w' | 'W' => Some(5),
            'e' | 'E' => Some(6),
            'r' | 'R' => Some(7),
            'a' | 'A' => Some(8),
            's' | 'S' => Some(9),
            'd' | 'D' => Some(10),
            'f' | 'F' => Some(11),
            'z' | 'Z' => Some(12),
            'x' | 'X' => Some(13),
            'c' | 'C' => Some(14),
            'v' | 'V' => Some(15),
            _ => None,
        }
    }

    /// Presses the named key; an unrecognized name changes nothing.
    pub fn set_key_down(&mut self, key: &str)
        requires
            old(self).wf(),
        ensures
            final(self).wf(),
            final(self)@ == (match key_name_index(key@) {
                Some(i) => old(self)@.update(i as int, true),
                None => old(self)@,
            }),
    {
        match self.key_to_idx(key) {
            Some(idx) => {
                self.keys[idx] = true;
            },
            None => (),
        }
    }

    /// Releases the named key; an unrecognized name changes nothing.
    pub fn set_key_up(&mut self, key: &str)
        requires
            old(self).wf(),
        ensures
            final(self).wf(),
            final(self)@ == (match key_name_index(key@) {
                Some(i) => old(self)@.update(i as int, false),
                None => old(self)@,
            }),
    {
        match self.key_to_idx(key) {
            Some(idx) => {
                self.keys[idx] = false;
            },
            None => (),
        }
    }

    /// Whether the named key is pressed; an unrecognized name reports not
    /// pressed.
    pub fn is_key_pressed(&self, key: &str) -> (r: bool)
        requires
            self.wf(),
        ensures
            r == (match key_name_index(key@) {
                Some(i) => self@[i as int],
                None => false,
            }),
    {
        match self.key_to_idx(key) {
            Some(idx) => self.is_key_idx_pressed(idx),
            None => false,
        }
    }

    /// Whether the key with the given index is pressed.
    pub fn is_key_idx_pressed(&self, idx: usize) -> (r: bool)
        requires
            self.wf(),
            idx < 16,
        ensures
            r == self@[idx as int],
    {
        self.keys[idx]
    }

    /// The lowest pressed key index, or `None` when no key is pressed.
    pub fn get_first_pressed_key_idx(&self) -> (r: Option<usize>)
        requires
            self.wf(),
        ensures
            r == spec_first_pressed(self@),
    {
        let mut i: usize = 0;
        while i < 16
            invariant
                self.wf(),
                0 <= i <= 16,
                spec_first_pressed(self@) == first_pressed_from(self@, i as int),
            decreases 16 - i,
        {
            if self.keys[i] {
                return Some(i);
            }
            i = i + 1;
        }
        None
    }
}

} // verus!

