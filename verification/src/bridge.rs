//! Input-side boundary of the engine.
//!
//! The engine never talks to an input device itself.  Every update function
//! records the key strokes it wants performed in an [`InputLog`]; the host
//! loop drains the log once per tick and replays it on the real device.  The
//! log is therefore the single place where the engine's guarantees about
//! emitted inputs (which keys, in which order, paired down/up) are stated.

use vstd::prelude::*;

verus! {

/// A physical key the input backend can press.
#[derive(Clone, Copy, Debug, PartialEq, Eq, Structural)]
pub enum KeyKind {
    A,
    B,
    C,
    D,
    E,
    F,
    S,
    V,
    X,
    Z,
    Space,
    Alt,
    Ctrl,
    Shift,
    Esc,
    Enter,
    Up,
    Down,
    Left,
    Right,
    F1,
    F2,
    F3,
    F4,
}

/// One key stroke requested from the input backend.
#[derive(Clone, Copy, Debug, PartialEq, Eq, Structural)]
pub enum KeyRequest {
    /// Press and release the key in one stroke.
    Press(KeyKind),
    /// Hold the key down until a matching `Up` is requested.
    Down(KeyKind),
    /// Release a previously held key.
    Up(KeyKind),
}

/// Records the key strokes requested during the current tick, in order.
#[derive(Debug)]
pub struct InputLog {
    sent: Vec<KeyRequest>,
}

impl View for InputLog {
    type V = Seq<KeyRequest>;

    closed spec fn view(&self) -> Seq<KeyRequest> {
        self.sent@
    }
}

impl InputLog {
    pub fn new() -> (r: InputLog)
        ensures
            r@ == Seq::<KeyRequest>::empty(),
    {
        InputLog { sent: Vec::new() }
    }

    /// Requests a single press-and-release stroke of `key`.
    pub fn send_key(&mut self, key: KeyKind)
        ensures
            final(self)@ == old(self)@.push(KeyRequest::Press(key)),
    {
        self.sent.push(KeyRequest::Press(key));
    }

    /// Requests that `key` be held down.
    pub fn send_key_down(&mut self, key: KeyKind)
        ensures
            final(self)@ == old(self)@.push(KeyRequest::Down(key)),
    {
        self.sent.push(KeyRequest::Down(key));
    }

    /// Requests that a held `key` be released.
    pub fn send_key_up(&mut self, key: KeyKind)
        ensures
            final(self)@ == old(self)@.push(KeyRequest::Up(key)),
    {
        self.sent.push(KeyRequest::Up(key));
    }

    /// Hands the recorded strokes to the host loop and clears the log.
    pub fn drain(&mut self) -> (r: Vec<KeyRequest>)
        ensures
            r@ == old(self)@,
            final(self)@ == Seq::<KeyRequest>::empty(),
    {
        let mut out: Vec<KeyRequest> = Vec::new();
        core::mem::swap(&mut out, &mut self.sent);
        out
    }

    /// The number of strokes recorded so far this tick.
    pub fn len(&self) -> (r: usize)
        ensures
            r == self@.len(),
    {
        self.sent.len()
    }

    /// The stroke at position `index`, counted from the start of the tick.
    pub fn get(&self, index: usize) -> (r: KeyRequest)
        requires
            index < self@.len(),
        ensures
            r == self@[index as int],
    {
        self.sent[index]
    }
}

} // verus!
