//! Debouncing of the key matrix: raw samples in, press and release edges out.
use vstd::prelude::*;
use crate::profile::KeyId;
use crate::time::Duration;

verus! {

/// A row line of the key matrix, driven while its row is scanned.
pub trait RowPin {
    fn set_high(&mut self);

    fn set_low(&mut self);
}

/// A column line of the key matrix, read while a row is driven.
pub trait ColPin {
    fn is_high(&self) -> bool;
}

/// Whether a key is down or up.
#[derive(Debug, Clone, Copy, PartialEq, Eq, Structural)]
pub enum KeyState {
    Pressed,
    Released,
}

/// An edge of a key, to report.
#[derive(Debug, Clone, Copy, PartialEq, Eq, Structural)]
pub struct KeyboardAction {
    pub action: KeyState,
    pub key_id: KeyId,
}

impl KeyboardAction {
    pub fn pressed(key_id: KeyId) -> (r: KeyboardAction)
        ensures
            r == (KeyboardAction { action: KeyState::Pressed, key_id }),
    {
        KeyboardAction { action: KeyState::Pressed, key_id }
    }

    pub fn released(key_id: KeyId) -> (r: KeyboardAction)
        ensures
            r == (KeyboardAction { action: KeyState::Released, key_id }),
    {
        KeyboardAction { action: KeyState::Released, key_id }
    }
}

impl Default for KeyboardAction {
    /// A release of the key whose identity is zero.
    fn default() -> (r: KeyboardAction)
        ensures
            r == (KeyboardAction { action: KeyState::Released, key_id: KeyId(0) }),
    {
        KeyboardAction { action: KeyState::Released, key_id: KeyId(0) }
    }
}

/// One debounced key. A press is reported at once; a release only once the key has been held
/// for `debounce_time` since the press that was reported, counted in microseconds.
#[derive(Debug, Clone, Copy, PartialEq, Eq, Structural)]
pub struct InputKey {
    pub id: KeyId,
    pub prev_actual_state: KeyState,
    pub prev_reported_state: KeyState,
    pub keydown_time: Duration,
    pub debounce_time: Duration,
}

/// The key `k` after a sample `state` taken `dt` after the previous one, and the edge to
/// report, if any.
pub open spec fn debounce(k: InputKey, state: KeyState, dt: Duration) -> (InputKey, Option<KeyState>) {
    let held = sat_add_u64(k.keydown_time.micros, dt.micros);
    let (actual, held) = if k.prev_actual_state == KeyState::Released && state == KeyState::Pressed {
        (KeyState::Pressed, if k.prev_reported_state == KeyState::Released { 0 } else { held })
    } else if k.prev_actual_state == KeyState::Pressed && state == KeyState::Released {
        (KeyState::Released, held)
    } else {
        (k.prev_actual_state, held)
    };
    let reported = if k.prev_reported_state == KeyState::Pressed && actual == KeyState::Released
        && held < k.debounce_time.micros {
        KeyState::Pressed
    } else {
        actual
    };
    (
        InputKey {
            prev_actual_state: actual,
            prev_reported_state: reported,
            keydown_time: Duration { micros: held },
            ..k
        },
        if reported != k.prev_reported_state {
            Some(reported)
        } else {
            None
        },
    )
}

/// `a + b`, held at `u64::MAX`.
pub open spec fn sat_add_u64(a: u64, b: u64) -> u64 {
    if a + b > u64::MAX {
        u64::MAX
    } else {
        (a + b) as u64
    }
}

/// A released key that has not been held.
pub open spec fn fresh_key(id: KeyId, debounce_time: Duration) -> InputKey {
    InputKey {
        id,
        prev_actual_state: KeyState::Released,
        prev_reported_state: KeyState::Released,
        keydown_time: Duration { micros: 0 },
        debounce_time,
    }
}

impl InputKey {
    /// A released key.
    pub fn new(id: KeyId, debounce_time: Duration) -> (r: InputKey)
        ensures
            r == fresh_key(id, debounce_time),
    {
        InputKey {
            id,
            prev_actual_state: KeyState::Released,
            prev_reported_state: KeyState::Released,
            keydown_time: Duration { micros: 0 },
            debounce_time,
        }
    }

    pub fn id(&self) -> (r: KeyId)
        ensures
            r == self.id,
    {
        self.id
    }

    /// Takes the sample `state`, taken `dt` after the previous one; returns the edge to report.
    pub fn update(&mut self, state: KeyState, dt: Duration) -> (r: Option<KeyState>)
        ensures
            (*final(self), r) == debounce(*old(self), state, dt),
    {
        let prev_actual_state = self.prev_actual_state;
        self.keydown_time = Duration { micros: self.keydown_time.micros.saturating_add(dt.micros) };
        if prev_actual_state == KeyState::Released && state == KeyState::Pressed {
            if self.prev_reported_state == KeyState::Released {
                self.keydown_time = Duration { micros: 0 };
            }
            self.prev_actual_state = KeyState::Pressed;
        } else if prev_actual_state == KeyState::Pressed && state == KeyState::Released {
            self.prev_actual_state = KeyState::Released;
        }
        let prev_reported_state = self.prev_reported_state;
        let new_state = if self.prev_reported_state == KeyState::Pressed
            && self.prev_actual_state == KeyState::Released {
            if self.keydown_time.micros < self.debounce_time.micros {
                KeyState::Pressed
            } else {
                KeyState::Released
            }
        } else {
            self.prev_actual_state
        };
        self.prev_reported_state = new_state;
        if new_state != prev_reported_state {
            Some(new_state)
        } else {
            None
        }
    }
}

/// The keys of `keys` after the samples `pressed`, from position `n` on dropped, and the edges
/// they report, in order.
pub open spec fn scan(keys: Seq<InputKey>, pressed: Seq<bool>, dt: Duration, n: int) -> (
    Seq<InputKey>,
    Seq<KeyboardAction>,
)
    decreases n,
{
    if n <= 0 {
        (keys, Seq::empty())
    } else {
        let (ks, out) = scan(keys, pressed, dt, n - 1);
        let state = if pressed[n - 1] {
            KeyState::Pressed
        } else {
            KeyState::Released
        };
        let (k, e) = debounce(ks[n - 1], state, dt);
        (
            ks.update(n - 1, k),
            match e {
                Some(a) => out.push(KeyboardAction { action: a, key_id: k.id }),
                None => out,
            },
        )
    }
}

/// A matrix of debounced keys, in row-major order.
pub struct KeyMatrix {
    rows: usize,
    cols: usize,
    keys: Vec<InputKey>,
}

impl KeyMatrix {
    pub closed spec fn spec_keys(&self) -> Seq<InputKey> {
        self.keys@
    }

    pub closed spec fn spec_cols(&self) -> usize {
        self.cols
    }

    pub closed spec fn spec_rows(&self) -> usize {
        self.rows
    }

    /// A matrix of released keys; `key_ids` in row-major order.
    pub fn new(rows: usize, cols: usize, key_ids: &Vec<KeyId>, debounce_time: Duration) -> (r:
        KeyMatrix)
        requires
            key_ids@.len() == rows * cols,
        ensures
            r.spec_rows() == rows,
            r.spec_cols() == cols,
            r.spec_keys().len() == key_ids@.len(),
            forall|i: int|
                0 <= i < key_ids@.len() ==> #[trigger] r.spec_keys()[i] == fresh_key(key_ids@[i], debounce_time),
    {
        let mut keys: Vec<InputKey> = Vec::new();
        let mut i: usize = 0;
        while i < key_ids.len()
            invariant
                i <= key_ids@.len(),
                keys@.len() == i,
                forall|j: int|
                    0 <= j < i ==> #[trigger] keys@[j] == fresh_key(key_ids@[j], debounce_time),
            decreases key_ids.len() - i,
        {
            keys.push(InputKey::new(key_ids[i], debounce_time));
            i = i + 1;
        }
        KeyMatrix { rows, cols, keys }
    }

    /// The number of keys.
    pub fn len(&self) -> (r: usize)
        ensures
            r == self.spec_keys().len(),
    {
        self.keys.len()
    }

    /// The position of the key at row `r` and column `c` of a matrix with `cols` columns.
    pub fn get_key_index(r: usize, c: usize, cols: usize) -> (i: usize)
        requires
            r * cols + c <= usize::MAX,
        ensures
            i == r * cols + c,
    {
        r * cols + c
    }

    /// Takes one sample of every key, `pressed` in row-major order, `dt` after the previous
    /// one; appends the edges to report to `output`, in order.
    pub fn update(&mut self, dt: Duration, pressed: &Vec<bool>, output: &mut Vec<KeyboardAction>)
        requires
            pressed@.len() == old(self).spec_keys().len(),
        ensures
            final(self).spec_rows() == old(self).spec_rows(),
            final(self).spec_cols() == old(self).spec_cols(),
            ({
                let (ks, out) = scan(
                    old(self).spec_keys(),
                    pressed@,
                    dt,
                    old(self).spec_keys().len() as int,
                );
                final(self).spec_keys() == ks && final(output)@ == old(output)@ + out
            }),
    {
        let ghost k0 = self.keys@;
        let ghost o0 = output@;
        let mut i: usize = 0;
        while i < self.keys.len()
            invariant
                i <= self.keys@.len(),
                self.keys@.len() == k0.len(),
                pressed@.len() == k0.len(),
                k0 == old(self).keys@,
                o0 == old(output)@,
                self.rows == old(self).rows,
                self.cols == old(self).cols,
                ({
                    let (ks, out) = scan(k0, pressed@, dt, i as int);
                    self.keys@ == ks && output@ == o0 + out
                }),
                forall|j: int| i <= j < k0.len() ==> #[trigger] self.keys@[j] == k0[j],
            decreases self.keys.len() - i,
        {
            proof {
                lemma_scan_len(k0, pressed@, dt, i as int);
                lemma_scan_rest(k0, pressed@, dt, i as int);
            }
            let state = if pressed[i] {
                KeyState::Pressed
            } else {
                KeyState::Released
            };
            let mut key = self.keys[i];
            let event = key.update(state, dt);
            self.keys.set(i, key);
            match event {
                Some(action) => {
                    let ghost before = output@;
                    output.push(KeyboardAction { action, key_id: key.id });
                    proof {
                        assert(output@ =~= before.push(KeyboardAction { action, key_id: key.id }));
                    }
                },
                None => {},
            }
            i = i + 1;
        }
    }
}

proof fn lemma_scan_len(keys: Seq<InputKey>, pressed: Seq<bool>, dt: Duration, n: int)
    requires
        0 <= n <= keys.len(),
    ensures
        scan(keys, pressed, dt, n).0.len() == keys.len(),
    decreases n,
{
    if n > 0 {
        lemma_scan_len(keys, pressed, dt, n - 1);
    }
}

proof fn lemma_scan_rest(keys: Seq<InputKey>, pressed: Seq<bool>, dt: Duration, n: int)
    requires
        0 <= n <= keys.len(),
    ensures
        forall|j: int| n <= j < keys.len() ==> #[trigger] scan(keys, pressed, dt, n).0[j] == keys[j],
    decreases n,
{
    if n > 0 {
        lemma_scan_len(keys, pressed, dt, n - 1);
        lemma_scan_rest(keys, pressed, dt, n - 1);
    }
}

} // verus!
