use vstd::prelude::*;

verus! {

/// Number of logical keys, coded `0x0..=0xF`.
pub const KEY_COUNT: usize = 16;

/// What `poll` returns when no mapped key is down.
pub const NO_KEY: usize = 0xFF;

/// A key of the host keyboard. The sixteen that stand for the machine's
/// keypad are named; every other host key is `Other`.
#[derive(Debug, Clone, Copy, PartialEq, Eq, Structural)]
pub enum HostKey {
    Key1,
    Key2,
    Key3,
    Key4,
    Q,
    W,
    E,
    R,
    A,
    S,
    D,
    F,
    Z,
    X,
    C,
    V,
    Other,
}

/// Whether the machine runs, or is blocked until a key press is stored in
/// `register`.
#[derive(Debug, Clone, Copy, PartialEq, Eq, Structural)]
pub enum KeyWait {
    Running,
    AwaitingKey { register: u8 },
}

/// The logical key that a host key stands for, if any.
pub open spec fn key_code(key: HostKey) -> Option<u8> {
    match key {
        HostKey::Key1 => Some(0x1u8),
        HostKey::Key2 => Some(0x2u8),
        HostKey::Key3 => Some(0x3u8),
        HostKey::Key4 => Some(0xCu8),
        HostKey::Q => Some(0x4u8),
        HostKey::W => Some(0x5u8),
        HostKey::E => Some(0x6u8),
        HostKey::R => Some(0xDu8),
        HostKey::A => Some(0x7u8),
        HostKey::S => Some(0x8u8),
        HostKey::D => Some(0x9u8),
        HostKey::F => Some(0xEu8),
        HostKey::Z => Some(0xAu8),
        HostKey::X => Some(0x0u8),
        HostKey::C => Some(0xBu8),
        HostKey::V => Some(0xFu8),
        HostKey::Other => None,
    }
}

/// The logical key of the first host key in `keys` that has one: the first
/// of all but the last, or else the last one's own.
pub open spec fn first_mapped(keys: Seq<HostKey>) -> Option<u8>
    decreases keys.len(),
{
    if keys.len() == 0 {
        None
    } else {
        match first_mapped(keys.drop_last()) {
            Some(k) => Some(k),
            None => key_code(keys.last()),
        }
    }
}

/// Whether some host key in `keys` stands for logical key `k`.
pub open spec fn is_down(keys: Seq<HostKey>, k: int) -> bool {
    exists|i: int| 0 <= i < keys.len() && #[trigger] key_code(keys[i]) == Some(k as u8)
}

/// What a keyboard holds: which logical keys are down, the wait state, and
/// the key that the last poll reported.
pub struct KeyboardView {
    pub keys: Seq<bool>,
    pub wait: KeyWait,
    pub pressed: Option<u8>,
}

/// The sixteen-key pad: which keys are down, whether the machine waits for
/// a press, and what the last poll reported.
pub struct Keyboard {
    keys: [bool; KEY_COUNT],
    wait: KeyWait,
    pressed: Option<u8>,
}

impl View for Keyboard {
    type V = KeyboardView;

    closed spec fn view(&self) -> KeyboardView {
        KeyboardView { keys: self.keys@, wait: self.wait, pressed: self.pressed }
    }
}

impl Keyboard {
    /// Sixteen keys; a waited-for register and a reported key are in range.
    pub open spec fn wf(&self) -> bool {
        &&& self@.keys.len() == KEY_COUNT
        &&& (self@.wait matches KeyWait::AwaitingKey { register } ==> register < 16)
        &&& (self@.pressed matches Some(k) ==> k < 16)
    }

    /// All keys up, running, nothing reported.
    pub fn new() -> (kb: Keyboard)
        ensures
            kb.wf(),
            kb@.keys == Seq::new(KEY_COUNT as nat, |k: int| false),
            kb@.wait == KeyWait::Running,
            kb@.pressed == None::<u8>,
    {
        let kb = Keyboard { keys: [false; KEY_COUNT], wait: KeyWait::Running, pressed: None };
        assert(kb@.keys =~= Seq::new(KEY_COUNT as nat, |k: int| false));
        kb
    }

    /// The logical key that a host key stands for, if any.
    pub fn key_map(key: HostKey) -> (r: Option<u8>)
        ensures
            r == key_code(key),
            r matches Some(k) ==> k < 16,
    {
        match key {
            HostKey::Key1 => Some(0x1),
            HostKey::Key2 => Some(0x2),
            HostKey::Key3 => Some(0x3),
            HostKey::Key4 => Some(0xC),
            HostKey::Q => Some(0x4),
            HostKey::W => Some(0x5),
            HostKey::E => Some(0x6),
            HostKey::R => Some(0xD),
            HostKey::A => Some(0x7),
            HostKey::S => Some(0x8),
            HostKey::D => Some(0x9),
            HostKey::F => Some(0xE),
            HostKey::Z => Some(0xA),
            HostKey::X => Some(0x0),
            HostKey::C => Some(0xB),
            HostKey::V => Some(0xF),
            HostKey::Other => None,
        }
    }

    /// Records which logical keys are down from the host keys held now, and
    /// returns the first mapped one, or `NO_KEY`. Unmapped host keys are
    /// ignored. The wait state is not touched.
    pub fn poll(&mut self, keys_pressed: Vec<HostKey>) -> (r: usize)
        requires
            old(self).wf(),
        ensures
            final(self).wf(),
            final(self)@.keys == Seq::new(KEY_COUNT as nat, |k: int| is_down(keys_pressed@, k)),
            final(self)@.pressed == first_mapped(keys_pressed@),
            final(self)@.wait == old(self)@.wait,
            r == match first_mapped(keys_pressed@) {
                Some(k) => k as usize,
                None => NO_KEY,
            },
    {
        let mut keys = [false; KEY_COUNT];
        let mut found: Option<u8> = None;
        let mut i: usize = 0;
        while i < keys_pressed.len()
            invariant
                i <= keys_pressed@.len(),
                keys@.len() == KEY_COUNT,
                forall|k: int|
                    0 <= k < KEY_COUNT ==> #[trigger] keys@[k] == is_down(
                        keys_pressed@.take(i as int),
                        k,
                    ),
                found == first_mapped(keys_pressed@.take(i as int)),
                found matches Some(k) ==> k < 16,
            decreases keys_pressed@.len() - i,
        {
            let key = keys_pressed[i];
            let code = Keyboard::key_map(key);
            let ghost pre = keys_pressed@.take(i as int);
            let ghost post = keys_pressed@.take(i + 1);
            assert(post.drop_last() =~= pre);
            assert(post.last() == key);
            match code {
                Some(k) => {
                    keys[k as usize] = true;
                    if found.is_none() {
                        found = Some(k);
                    }
                },
                None => {},
            }
            assert forall|j: int| 0 <= j < KEY_COUNT implies #[trigger] keys@[j] == is_down(
                post,
                j,
            ) by {
                if is_down(pre, j) {
                    let w = choose|w: int|
                        0 <= w < pre.len() && #[trigger] key_code(pre[w]) == Some(j as u8);
                    assert(post[w] == pre[w]);
                }
                if is_down(post, j) {
                    let w = choose|w: int|
                        0 <= w < post.len() && #[trigger] key_code(post[w]) == Some(j as u8);
                    if w < i {
                        assert(post[w] == pre[w]);
                    }
                }
                if code == Some(j as u8) {
                    assert(key_code(post[i as int]) == Some(j as u8));
                }
            }
            i += 1;
        }
        assert(keys_pressed@.take(keys_pressed@.len() as int) =~= keys_pressed@);
        assert(keys@ =~= Seq::new(KEY_COUNT as nat, |k: int| is_down(keys_pressed@, k)));
        self.keys = keys;
        self.pressed = found;
        match found {
            Some(k) => k as usize,
            None => NO_KEY,
        }
    }

    /// Leaves the wait state.
    pub fn stop_waiting_for_press(&mut self)
        requires
            old(self).wf(),
        ensures
            final(self).wf(),
            final(self)@ == (KeyboardView { wait: KeyWait::Running, ..old(self)@ }),
    {
        self.wait = KeyWait::Running;
    }

    /// Blocks the machine until a key press is stored in `register`.
    pub fn start_waiting_for_press(&mut self, register: u8)
        requires
            old(self).wf(),
            register < 16,
        ensures
            final(self).wf(),
            final(self)@ == (KeyboardView {
                wait: KeyWait::AwaitingKey { register },
                ..old(self)@
            }),
    {
        self.wait = KeyWait::AwaitingKey { register };
    }

    /// Whether the machine is blocked on a key press.
    pub fn is_waiting_for_press(&self) -> (r: bool)
        ensures
            r == (self@.wait is AwaitingKey),
    {
        match self.wait {
            KeyWait::Running => false,
            KeyWait::AwaitingKey { .. } => true,
        }
    }

    /// Whether logical key `key_value` is down; there is no key past `0xF`.
    pub fn query_key(&self, key_value: usize) -> (r: bool)
        requires
            self.wf(),
        ensures
            r == (key_value < KEY_COUNT && self@.keys[key_value as int]),
    {
        key_value < KEY_COUNT && self.keys[key_value]
    }

    /// The wait state.
    pub fn wait_state(&self) -> (w: KeyWait)
        ensures
            w == self@.wait,
    {
        self.wait
    }

    /// The key that the last poll reported, if any.
    pub fn last_pressed(&self) -> (k: Option<u8>)
        ensures
            k == self@.pressed,
    {
        self.pressed
    }
}

/// With no mapped host key held, `poll` reports no key.
pub proof fn law_poll_none(keys: Seq<HostKey>)
    requires
        forall|i: int| 0 <= i < keys.len() ==> #[trigger] key_code(keys[i]) == None::<u8>,
    ensures
        first_mapped(keys) == None::<u8>,
    decreases keys.len(),
{
    if keys.len() > 0 {
        let rest = keys.drop_last();
        assert forall|i: int| 0 <= i < rest.len() implies #[trigger] key_code(rest[i])
            == None::<u8> by {
            assert(rest[i] == keys[i]);
        }
        law_poll_none(rest);
    }
}

/// With exactly one mapped host key held, among any number of unmapped
/// ones, `poll` reports that key's logical code.
pub proof fn law_poll_single(keys: Seq<HostKey>, j: int)
    requires
        0 <= j < keys.len(),
        key_code(keys[j]) is Some,
        forall|i: int| 0 <= i < keys.len() && i != j ==> #[trigger] key_code(keys[i]) == None::<u8>,
    ensures
        first_mapped(keys) == key_code(keys[j]),
    decreases keys.len(),
{
    let rest = keys.drop_last();
    if j == keys.len() - 1 {
        assert forall|i: int| 0 <= i < rest.len() implies #[trigger] key_code(rest[i])
            == None::<u8> by {
            assert(rest[i] == keys[i]);
        }
        law_poll_none(rest);
    } else {
        assert forall|i: int| 0 <= i < rest.len() && i != j implies #[trigger] key_code(rest[i])
            == None::<u8> by {
            assert(rest[i] == keys[i]);
        }
        assert(rest[j] == keys[j]);
        law_poll_single(rest, j);
    }
}

} // verus!
