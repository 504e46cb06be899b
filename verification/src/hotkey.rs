//! Hotkey decisions.
//!
//! Device events arrive from the caller as plain key codes and press or
//! release values; this module decides when the configured combination
//! is engaged or disengaged, and which configuration names denote a
//! supported key.

use vstd::prelude::*;
use vstd::string::*;

verus! {

/// A combo transition: the configured keys all went down, or stopped all
/// being down.
#[derive(Debug, Clone, Copy, PartialEq, Eq, Structural)]
pub enum HotkeyEvent {
    Pressed,
    Released,
}

/// The uppercase form of an ASCII letter; any other character is kept.
pub open spec fn ascii_upper(c: char) -> char {
    if 'a' <= c && c <= 'z' {
        ((c as u32) - 32) as char
    } else {
        c
    }
}

/// Case-insensitive (ASCII) equality of two texts.
pub open spec fn eq_ignore_ascii_case_spec(a: Seq<char>, b: Seq<char>) -> bool {
    a.len() == b.len() && forall|i: int|
        0 <= i < a.len() ==> ascii_upper(#[trigger] a[i]) == ascii_upper(b[i])
}

/// Compare two texts ignoring ASCII case.
pub fn eq_ignore_ascii_case(a: &str, b: &str) -> (r: bool)
    ensures
        r == eq_ignore_ascii_case_spec(a@, b@),
{
    let n = a.unicode_len();
    if n != b.unicode_len() {
        return false;
    }
    let mut i: usize = 0;
    while i < n
        invariant
            0 <= i <= n,
            n == a@.len(),
            n == b@.len(),
            forall|j: int| 0 <= j < i ==> ascii_upper(#[trigger] a@[j]) == ascii_upper(b@[j]),
        decreases n - i,
    {
        let ca = upper_char(a.get_char(i));
        let cb = upper_char(b.get_char(i));
        if ca != cb {
            return false;
        }
        i = i + 1;
    }
    true
}

/// The uppercase form of one character.
fn upper_char(c: char) -> (r: char)
    ensures
        r == ascii_upper(c),
{
    let u = c as u32;
    if 97 <= u && u <= 122 {
        ((c as u8) - 32) as char
    } else {
        c
    }
}

/// The supported key names: each canonical `KEY_` name with its bare
/// form.
pub open spec fn spec_key_names() -> Seq<(Seq<char>, Seq<char>)> {
    seq![
        ("KEY_LEFTMETA"@, "LEFTMETA"@),
        ("KEY_RIGHTMETA"@, "RIGHTMETA"@),
        ("KEY_LEFTSHIFT"@, "LEFTSHIFT"@),
        ("KEY_RIGHTSHIFT"@, "RIGHTSHIFT"@),
        ("KEY_LEFTCTRL"@, "LEFTCTRL"@),
        ("KEY_RIGHTCTRL"@, "RIGHTCTRL"@),
        ("KEY_LEFTALT"@, "LEFTALT"@),
        ("KEY_RIGHTALT"@, "RIGHTALT"@),
        ("KEY_F1"@, "F1"@),
        ("KEY_F2"@, "F2"@),
        ("KEY_F3"@, "F3"@),
        ("KEY_F4"@, "F4"@),
        ("KEY_F5"@, "F5"@),
        ("KEY_F6"@, "F6"@),
        ("KEY_F7"@, "F7"@),
        ("KEY_F8"@, "F8"@),
        ("KEY_F9"@, "F9"@),
        ("KEY_F10"@, "F10"@),
        ("KEY_F11"@, "F11"@),
        ("KEY_F12"@, "F12"@),
        ("KEY_A"@, "A"@),
        ("KEY_B"@, "B"@),
        ("KEY_C"@, "C"@),
        ("KEY_D"@, "D"@),
        ("KEY_E"@, "E"@),
        ("KEY_F"@, "F"@),
        ("KEY_G"@, "G"@),
        ("KEY_H"@, "H"@),
        ("KEY_I"@, "I"@),
        ("KEY_J"@, "J"@),
        ("KEY_K"@, "K"@),
        ("KEY_L"@, "L"@),
        ("KEY_M"@, "M"@),
        ("KEY_N"@, "N"@),
        ("KEY_O"@, "O"@),
        ("KEY_P"@, "P"@),
        ("KEY_Q"@, "Q"@),
        ("KEY_R"@, "R"@),
        ("KEY_S"@, "S"@),
        ("KEY_T"@, "T"@),
        ("KEY_U"@, "U"@),
        ("KEY_V"@, "V"@),
        ("KEY_W"@, "W"@),
        ("KEY_X"@, "X"@),
        ("KEY_Y"@, "Y"@),
        ("KEY_Z"@, "Z"@),
        ("KEY_SPACE"@, "SPACE"@),
        ("KEY_ENTER"@, "ENTER"@),
        ("KEY_ESC"@, "ESC"@),
        ("KEY_TAB"@, "TAB"@),
        ("KEY_CAPSLOCK"@, "CAPSLOCK"@),
    ]
}

/// The supported key names, canonical and bare.
pub fn supported_key_names() -> (r: Vec<(&'static str, &'static str)>)
    ensures
        r.deep_view() == spec_key_names(),
{
    let mut v: Vec<(&'static str, &'static str)> = Vec::new();
    v.push(("KEY_LEFTMETA", "LEFTMETA"));
    v.push(("KEY_RIGHTMETA", "RIGHTMETA"));
    v.push(("KEY_LEFTSHIFT", "LEFTSHIFT"));
    v.push(("KEY_RIGHTSHIFT", "RIGHTSHIFT"));
    v.push(("KEY_LEFTCTRL", "LEFTCTRL"));
    v.push(("KEY_RIGHTCTRL", "RIGHTCTRL"));
    v.push(("KEY_LEFTALT", "LEFTALT"));
    v.push(("KEY_RIGHTALT", "RIGHTALT"));
    v.push(("KEY_F1", "F1"));
    v.push(("KEY_F2", "F2"));
    v.push(("KEY_F3", "F3"));
    v.push(("KEY_F4", "F4"));
    v.push(("KEY_F5", "F5"));
    v.push(("KEY_F6", "F6"));
    v.push(("KEY_F7", "F7"));
    v.push(("KEY_F8", "F8"));
    v.push(("KEY_F9", "F9"));
    v.push(("KEY_F10", "F10"));
    v.push(("KEY_F11", "F11"));
    v.push(("KEY_F12", "F12"));
    v.push(("KEY_A", "A"));
    v.push(("KEY_B", "B"));
    v.push(("KEY_C", "C"));
    v.push(("KEY_D", "D"));
    v.push(("KEY_E", "E"));
    v.push(("KEY_F", "F"));
    v.push(("KEY_G", "G"));
    v.push(("KEY_H", "H"));
    v.push(("KEY_I", "I"));
    v.push(("KEY_J", "J"));
    v.push(("KEY_K", "K"));
    v.push(("KEY_L", "L"));
    v.push(("KEY_M", "M"));
    v.push(("KEY_N", "N"));
    v.push(("KEY_O", "O"));
    v.push(("KEY_P", "P"));
    v.push(("KEY_Q", "Q"));
    v.push(("KEY_R", "R"));
    v.push(("KEY_S", "S"));
    v.push(("KEY_T", "T"));
    v.push(("KEY_U", "U"));
    v.push(("KEY_V", "V"));
    v.push(("KEY_W", "W"));
    v.push(("KEY_X", "X"));
    v.push(("KEY_Y", "Y"));
    v.push(("KEY_Z", "Z"));
    v.push(("KEY_SPACE", "SPACE"));
    v.push(("KEY_ENTER", "ENTER"));
    v.push(("KEY_ESC", "ESC"));
    v.push(("KEY_TAB", "TAB"));
    v.push(("KEY_CAPSLOCK", "CAPSLOCK"));
    proof {
        assert(v.deep_view() =~~= spec_key_names());
    }
    v
}

/// Resolve a configured key name to its canonical `KEY_` name. A name
/// matches a supported key when it equals, ignoring ASCII case, either
/// the canonical name or its bare form.
pub fn parse_key_name(name: &str) -> (r: Option<&'static str>)
    ensures
        r matches Some(k) ==> exists|i: int|
            0 <= i < spec_key_names().len() && (#[trigger] spec_key_names()[i]).0 == k@ && (
            eq_ignore_ascii_case_spec(name@, spec_key_names()[i].0) || eq_ignore_ascii_case_spec(
                name@,
                spec_key_names()[i].1,
            )),
        r is None ==> forall|i: int|
            0 <= i < spec_key_names().len() ==> !eq_ignore_ascii_case_spec(
                name@,
                (#[trigger] spec_key_names()[i]).0,
            ) && !eq_ignore_ascii_case_spec(name@, spec_key_names()[i].1),
{
    let keys = supported_key_names();
    let mut i: usize = 0;
    while i < keys.len()
        invariant
            0 <= i <= keys.len(),
            keys.deep_view() == spec_key_names(),
            forall|j: int|
                0 <= j < i ==> !eq_ignore_ascii_case_spec(
                    name@,
                    (#[trigger] spec_key_names()[j]).0,
                ) && !eq_ignore_ascii_case_spec(name@, spec_key_names()[j].1),
        decreases keys.len() - i,
    {
        let (full, bare) = keys[i];
        if eq_ignore_ascii_case(name, full) || eq_ignore_ascii_case(name, bare) {
            proof {
                assert((spec_key_names()[i as int]).0 == keys.deep_view()[i as int].0);
            }
            return Some(full);
        }
        i = i + 1;
    }
    None
}

/// Whether a code occurs among the configured keys.
pub open spec fn keys_is_target(targets: Seq<u16>, code: u16) -> bool {
    exists|i: int| 0 <= i < targets.len() && #[trigger] targets[i] == code
}

/// Whether the configured key with this code is held.
pub open spec fn keys_is_held(targets: Seq<u16>, held: Seq<bool>, code: u16) -> bool {
    exists|i: int| 0 <= i < targets.len() && #[trigger] targets[i] == code && held[i]
}

/// Whether every configured key is held.
pub open spec fn keys_all_held(targets: Seq<u16>, held: Seq<bool>) -> bool {
    forall|i: int| 0 <= i < targets.len() ==> #[trigger] held[i]
}

/// Tracks which keys of the configured combination are held, and whether
/// the combination is currently engaged.
pub struct ComboTracker {
    target_keys: Vec<u16>,
    held: Vec<bool>,
    combo_active: bool,
}

impl ComboTracker {
    /// The configured key codes, each exactly once.
    pub closed spec fn targets(self) -> Seq<u16> {
        self.target_keys@
    }

    /// Whether the key at each target position is held.
    pub closed spec fn held_flags(self) -> Seq<bool> {
        self.held@
    }

    /// Whether the combination is currently engaged.
    pub closed spec fn active(self) -> bool {
        self.combo_active
    }

    /// Whether a code is one of the configured keys.
    pub open spec fn is_target(self, code: u16) -> bool {
        keys_is_target(self.targets(), code)
    }

    /// Whether a configured key is currently held.
    pub open spec fn is_held(self, code: u16) -> bool {
        keys_is_held(self.targets(), self.held_flags(), code)
    }

    /// Whether every configured key is currently held.
    pub open spec fn all_held(self) -> bool {
        keys_all_held(self.targets(), self.held_flags())
    }

    /// Well-formed: one held flag per configured key, and no configured
    /// key listed twice.
    pub open spec fn wf(self) -> bool {
        &&& self.held_flags().len() == self.targets().len()
        &&& forall|i: int, j: int|
            0 <= i < self.targets().len() && 0 <= j < self.targets().len() && i != j
                ==> #[trigger] self.targets()[i] != #[trigger] self.targets()[j]
    }

    /// A tracker for the given key codes; duplicates are dropped and no
    /// key is initially held.
    pub fn new(codes: &Vec<u16>) -> (r: ComboTracker)
        ensures
            r.wf(),
            !r.active(),
            forall|c: u16| r.is_target(c) <==> codes@.contains(c),
            forall|c: u16| !r.is_held(c),
    {
        let mut target_keys: Vec<u16> = Vec::new();
        let mut k: usize = 0;
        while k < codes.len()
            invariant
                0 <= k <= codes@.len(),
                forall|i: int, j: int|
                    0 <= i < target_keys@.len() && 0 <= j < target_keys@.len() && i != j
                        ==> #[trigger] target_keys@[i] != #[trigger] target_keys@[j],
                forall|c: u16|
                    #[trigger] keys_is_target(target_keys@, c) <==> codes@.subrange(
                        0,
                        k as int,
                    ).contains(c),
            decreases codes@.len() - k,
        {
            let ghost tk_pre = target_keys@;
            let code = codes[k];
            let mut seen = false;
            let mut m: usize = 0;
            while m < target_keys.len()
                invariant
                    0 <= m <= target_keys@.len(),
                    target_keys@ == tk_pre,
                    seen == (exists|i: int| 0 <= i < m && #[trigger] target_keys@[i] == code),
                decreases target_keys@.len() - m,
            {
                if target_keys[m] == code {
                    seen = true;
                }
                m = m + 1;
            }
            if !seen {
                target_keys.push(code);
            }
            k = k + 1;
            proof {
                let prev_sub = codes@.subrange(0, k - 1);
                let cur_sub = codes@.subrange(0, k as int);
                assert(cur_sub =~= prev_sub.push(codes@[k - 1]));
                assert(codes@[k - 1] == code);
                assert forall|c: u16| #[trigger] keys_is_target(target_keys@, c) <==> cur_sub.contains(
                    c,
                ) by {
                    if keys_is_target(target_keys@, c) {
                        let i = choose|i: int|
                            0 <= i < target_keys@.len() && #[trigger] target_keys@[i] == c;
                        if i < tk_pre.len() {
                            assert(tk_pre[i] == c);
                            assert(keys_is_target(tk_pre, c));
                            assert(prev_sub.contains(c));
                            let j = choose|j: int| 0 <= j < prev_sub.len() && prev_sub[j] == c;
                            assert(cur_sub[j] == c);
                        } else {
                            assert(c == code);
                            assert(cur_sub[k - 1] == c);
                        }
                    }
                    if cur_sub.contains(c) {
                        let j = choose|j: int| 0 <= j < cur_sub.len() && cur_sub[j] == c;
                        if j < k - 1 {
                            assert(prev_sub[j] == c);
                            assert(prev_sub.contains(c));
                            assert(keys_is_target(tk_pre, c));
                            let i = choose|i: int|
                                0 <= i < tk_pre.len() && #[trigger] tk_pre[i] == c;
                            assert(target_keys@[i] == c);
                        } else {
                            assert(c == code);
                            if seen {
                                let i = choose|i: int|
                                    0 <= i < tk_pre.len() && #[trigger] tk_pre[i] == code;
                                assert(target_keys@[i] == c);
                            } else {
                                assert(target_keys@[target_keys@.len() - 1] == c);
                            }
                        }
                    }
                }
            }
        }
        let mut held: Vec<bool> = Vec::new();
        let mut m: usize = 0;
        while m < target_keys.len()
            invariant
                0 <= m <= target_keys@.len(),
                held@.len() == m,
                forall|i: int| 0 <= i < m ==> !(#[trigger] held@[i]),
            decreases target_keys@.len() - m,
        {
            held.push(false);
            m = m + 1;
        }
        proof {
            assert(codes@.subrange(0, codes@.len() as int) =~= codes@);
        }
        let r = ComboTracker { target_keys, held, combo_active: false };
        proof {
            assert forall|c: u16| !(#[trigger] r.is_held(c)) by {
                if keys_is_held(r.targets(), r.held_flags(), c) {
                    let i = choose|i: int|
                        0 <= i < r.targets().len() && #[trigger] r.targets()[i] == c
                            && r.held_flags()[i];
                }
            }
        }
        r
    }

    /// Whether every configured key is down.
    fn check_all_held(&self) -> (r: bool)
        requires
            self.wf(),
        ensures
            r == self.all_held(),
    {
        let mut i: usize = 0;
        while i < self.held.len()
            invariant
                0 <= i <= self.held@.len(),
                self.held@.len() == self.target_keys@.len(),
                forall|j: int| 0 <= j < i ==> #[trigger] self.held@[j],
            decreases self.held@.len() - i,
        {
            if !self.held[i] {
                return false;
            }
            i = i + 1;
        }
        true
    }

    /// Feed one key transition: `pressed` is true for a key-down event,
    /// false for a key-up event (repeats are not fed). Returns the combo
    /// transition this causes, if any: `Pressed` exactly when the last
    /// missing key goes down while the combo is disengaged, `Released`
    /// exactly when an engaged combo stops being fully held.
    pub fn on_key(&mut self, code: u16, pressed: bool) -> (r: Option<HotkeyEvent>)
        requires
            old(self).wf(),
        ensures
            final(self).wf(),
            final(self).targets() == old(self).targets(),
            !old(self).is_target(code) ==> *final(self) == *old(self) && r is None,
            old(self).is_target(code) ==> {
                &&& final(self).is_held(code) == pressed
                &&& forall|c: u16|
                    #[trigger] final(self).is_held(c) == if c == code {
                        pressed
                    } else {
                        old(self).is_held(c)
                    }
                &&& final(self).active() == if pressed {
                    old(self).active() || final(self).all_held()
                } else {
                    old(self).active() && final(self).all_held()
                }
                &&& r == Some(HotkeyEvent::Pressed) <==> pressed && !old(self).active()
                    && final(self).all_held()
                &&& r == Some(HotkeyEvent::Released) <==> !pressed && old(self).active()
                    && !final(self).all_held()
            },
    {
        let mut idx: usize = 0;
        let mut found = false;
        let n = self.target_keys.len();
        let mut i: usize = 0;
        while i < n
            invariant
                0 <= i <= n,
                n == self.target_keys@.len(),
                !found ==> forall|j: int| 0 <= j < i ==> #[trigger] self.target_keys@[j] != code,
                found ==> 0 <= idx < n && self.target_keys@[idx as int] == code,
            decreases n - i,
        {
            if self.target_keys[i] == code {
                found = true;
                idx = i;
            }
            i = i + 1;
        }
        if !found {
            return None;
        }
        let ghost pre = *self;
        self.held[idx] = pressed;
        proof {
            assert(self.held@ =~= pre.held@.update(idx as int, pressed));
            lemma_held_update(pre.target_keys@, pre.held@, idx as int, code, pressed);
        }
        let ghost s1 = *self;
        let was_active = self.combo_active;
        let now_all = self.check_all_held();
        let r: Option<HotkeyEvent> = if pressed {
            if !was_active && now_all {
                self.combo_active = true;
                Some(HotkeyEvent::Pressed)
            } else {
                None
            }
        } else {
            if was_active && !now_all {
                self.combo_active = false;
                Some(HotkeyEvent::Released)
            } else {
                None
            }
        };
        proof {
            assert(self.target_keys@ == pre.target_keys@);
            assert(self.held@ == pre.held@.update(idx as int, pressed));
        }
        r
    }
}

/// Updating the held flag at the position of `code` changes exactly that
/// key's held state.
proof fn lemma_held_update(targets: Seq<u16>, held: Seq<bool>, idx: int, code: u16, v: bool)
    requires
        held.len() == targets.len(),
        forall|i: int, j: int|
            0 <= i < targets.len() && 0 <= j < targets.len() && i != j ==> #[trigger] targets[i]
                != #[trigger] targets[j],
        0 <= idx < targets.len(),
        targets[idx] == code,
    ensures
        keys_is_held(targets, held.update(idx, v), code) == v,
        forall|c: u16|
            #[trigger] keys_is_held(targets, held.update(idx, v), c) == if c == code {
                v
            } else {
                keys_is_held(targets, held, c)
            },
{
    let post = held.update(idx, v);
    assert forall|c: u16|
        #[trigger] keys_is_held(targets, post, c) == if c == code {
            v
        } else {
            keys_is_held(targets, held, c)
        } by {
        if c == code {
            if v {
                assert(targets[idx] == code && post[idx]);
            } else {
                if keys_is_held(targets, post, c) {
                    let i = choose|i: int|
                        0 <= i < targets.len() && #[trigger] targets[i] == c && post[i];
                    assert(i == idx);
                    assert(false);
                }
            }
        } else {
            if keys_is_held(targets, held, c) {
                let i = choose|i: int|
                    0 <= i < targets.len() && #[trigger] targets[i] == c && held[i];
                assert(i != idx);
                assert(targets[i] == c && post[i]);
            }
            if keys_is_held(targets, post, c) {
                let i = choose|i: int|
                    0 <= i < targets.len() && #[trigger] targets[i] == c && post[i];
                assert(i != idx);
                assert(targets[i] == c && held[i]);
            }
        }
    }
}

} // verus!
