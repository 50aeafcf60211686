use vstd::prelude::*;

verus! {

/// Number of keys on the pad, indexed `0x0` to `0xF`.
pub const KEY_COUNT: usize = 16;

/// Which of the sixteen keys are currently held.
#[derive(Debug)]
pub struct Keyboard {
    key: [bool; KEY_COUNT],
}

impl View for Keyboard {
    type V = Seq<bool>;

    closed spec fn view(&self) -> Seq<bool> {
        self.key@
    }
}

/// The lowest-indexed pressed key of `keys`, if any.
pub open spec fn lowest_pressed(keys: Seq<bool>) -> Option<u8> {
    if exists|k: int| 0 <= k < keys.len() && #[trigger] keys[k] {
        let k = choose|k: int|
            0 <= k < keys.len() && #[trigger] keys[k] && forall|j: int| 0 <= j < k ==> !keys[j];
        Some(k as u8)
    } else {
        None
    }
}

/// Sixteen released keys.
pub open spec fn released() -> Seq<bool> {
    Seq::new(KEY_COUNT as nat, |k: int| false)
}

impl Keyboard {
    /// A pad with every key released.
    pub fn new() -> (r: Keyboard)
        ensures
            r@ == released(),
    {
        let r = Keyboard { key: [false; KEY_COUNT] };
        assert(r@ =~= released());
        r
    }

    /// Releases every key.
    pub fn reset(&mut self)
        ensures
            final(self)@ == released(),
    {
        self.key = [false; KEY_COUNT];
        assert(self@ =~= released());
    }

    /// Marks `key` as pressed.
    pub fn set_key(&mut self, key: u8)
        requires
            key < KEY_COUNT,
        ensures
            final(self)@ == old(self)@.update(key as int, true),
    {
        self.key[key as usize] = true;
    }

    /// Marks `key` as released.
    pub fn unset_key(&mut self, key: u8)
        requires
            key < KEY_COUNT,
        ensures
            final(self)@ == old(self)@.update(key as int, false),
    {
        self.key[key as usize] = false;
    }

    /// Whether `key` is held.
    pub fn is_pressed(&self, key: u8) -> (r: bool)
        requires
            key < KEY_COUNT,
        ensures
            r == self@[key as int],
    {
        self.key[key as usize]
    }

    /// The lowest-indexed held key, or `None` when no key is held.
    pub fn get_pressed(&self) -> (r: Option<u8>)
        ensures
            r == lowest_pressed(self@),
            r is Some ==> r->0 < KEY_COUNT && self@[r->0 as int],
    {
        let mut k: usize = 0;
        while k < KEY_COUNT
            invariant
                0 <= k <= KEY_COUNT,
                self@.len() == KEY_COUNT,
                forall|j: int| 0 <= j < k ==> !#[trigger] self@[j],
            decreases KEY_COUNT - k,
        {
            if self.key[k] {
                let ghost c = choose|c: int|
                    0 <= c < self@.len() && #[trigger] self@[c] && forall|j: int|
                        0 <= j < c ==> !self@[j];
                assert(self@[k as int]);
                assert(c == k) by {
                    if c < k {
                        assert(!self@[c]);
                    } else if c > k {
                        assert(!self@[k as int]);
                    }
                }
                return Some(k as u8);
            }
            k = k + 1;
        }
        None
    }
}

impl Default for Keyboard {
    fn default() -> (r: Keyboard)
        ensures
            r@ == released(),
    {
        Keyboard::new()
    }
}

} // verus!
