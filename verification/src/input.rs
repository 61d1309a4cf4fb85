//! Key and mouse input directed at a target window. The OS delivery (the
//! synthesized events, the hook that captures strokes) lives in the
//! unverified shell; the focus rules that decide whether an input may be
//! sent, and the stroke queue a receiver drains, are verified.

use vstd::prelude::*;

use crate::platform::{Error, Window};

verus! {

#[derive(Debug, Clone, Copy, PartialEq, Eq, Structural)]
pub enum MouseKind {
    Move,
    Click,
    Scroll,
}

#[derive(Debug, Clone, Copy, PartialEq, Eq, Structural)]
pub enum KeyState {
    Pressed,
    Released,
}

#[derive(Debug, Clone, Copy, PartialEq, Eq, Structural)]
pub enum KeyKind {
    A,
    B,
    C,
    D,
    E,
    F,
    G,
    H,
    I,
    J,
    K,
    L,
    M,
    N,
    O,
    P,
    Q,
    R,
    S,
    T,
    U,
    V,
    W,
    X,
    Y,
    Z,
    Zero,
    One,
    Two,
    Three,
    Four,
    Five,
    Six,
    Seven,
    Eight,
    Nine,
    F1,
    F2,
    F3,
    F4,
    F5,
    F6,
    F7,
    F8,
    F9,
    F10,
    F11,
    F12,
    Up,
    Down,
    Left,
    Right,
    Home,
    End,
    PageUp,
    PageDown,
    Insert,
    Delete,
    Ctrl,
    Enter,
    Space,
    Tilde,
    Quote,
    Semicolon,
    Comma,
    Period,
    Slash,
    Esc,
    Shift,
    Alt,
}

/// Kind of input to send.
#[derive(Debug, Clone, Copy, PartialEq, Eq, Structural)]
pub enum InputKind {
    /// Send only if the foreground window is the target and focused.
    Focused,
    /// Send only if the foreground window is not the target, overlaps the
    /// target, and is focused.
    Foreground,
}

/// What the OS reports about the foreground at the moment of a send.
#[derive(Debug, Clone, Copy, PartialEq, Eq, Structural)]
pub struct FocusState {
    /// The foreground window is the target window.
    pub target_is_foreground: bool,
    /// The foreground window overlaps the target window.
    pub overlaps_target: bool,
    /// The foreground window is focused.
    pub focused: bool,
}

/// Whether an input of the given kind may be delivered under the given
/// focus conditions.
pub open spec fn spec_can_send(kind: InputKind, f: FocusState) -> bool {
    match kind {
        InputKind::Focused => f.target_is_foreground && f.focused,
        InputKind::Foreground => !f.target_is_foreground && f.overlaps_target && f.focused,
    }
}

/// Sends key and mouse inputs to a target window, subject to the focus
/// rules of its [`InputKind`].
#[derive(Debug)]
pub struct Input {
    window: Window,
    kind: InputKind,
}

impl Input {
    pub closed spec fn spec_window(self) -> Window {
        self.window
    }

    pub closed spec fn spec_kind(self) -> InputKind {
        self.kind
    }

    pub fn new(window: Window, kind: InputKind) -> (r: Result<Self, Error>)
        ensures
            r matches Ok(inp) && inp.spec_window() == window && inp.spec_kind() == kind,
    {
        Ok(Input { window, kind })
    }

    fn guard(&self, focus: FocusState) -> (r: bool)
        ensures
            r == spec_can_send(self.spec_kind(), focus),
    {
        match self.kind {
            InputKind::Focused => focus.target_is_foreground && focus.focused,
            InputKind::Foreground => !focus.target_is_foreground && focus.overlaps_target
                && focus.focused,
        }
    }

    /// Sends mouse input `kind` at `x`, `y` relative to the target
    /// window, if the focus rules allow it under the reported focus
    /// state; the shell performs the OS delivery after this decision.
    pub fn send_mouse(&self, x: i32, y: i32, kind: MouseKind, focus: FocusState) -> (r: Result<
        (),
        Error,
    >)
        ensures
            r.is_ok() == spec_can_send(self.spec_kind(), focus),
            r matches Err(e) ==> e == Error::MouseNotSent,
    {
        let _ = (x, y, kind);
        if self.guard(focus) {
            Ok(())
        } else {
            Err(Error::MouseNotSent)
        }
    }

    /// The current state of key `kind`, from the OS-reported pressed
    /// flag.
    pub fn key_state(&self, kind: KeyKind, pressed: bool) -> (r: Result<KeyState, Error>)
        ensures
            r == Ok::<KeyState, Error>(
                if pressed {
                    KeyState::Pressed
                } else {
                    KeyState::Released
                },
            ),
    {
        let _ = kind;
        if pressed {
            Ok(KeyState::Pressed)
        } else {
            Ok(KeyState::Released)
        }
    }

    /// Sends a single key press, if the focus rules allow it.
    pub fn send_key(&self, kind: KeyKind, focus: FocusState) -> (r: Result<(), Error>)
        ensures
            r.is_ok() == spec_can_send(self.spec_kind(), focus),
            r matches Err(e) ==> e == Error::KeyNotSent,
    {
        let _ = kind;
        if self.guard(focus) {
            Ok(())
        } else {
            Err(Error::KeyNotSent)
        }
    }

    /// Holds down key `kind`, if the focus rules allow it.
    pub fn send_key_down(&self, kind: KeyKind, focus: FocusState) -> (r: Result<(), Error>)
        ensures
            r.is_ok() == spec_can_send(self.spec_kind(), focus),
            r matches Err(e) ==> e == Error::KeyNotSent,
    {
        self.send_key(kind, focus)
    }

    /// Releases key `kind`, if the focus rules allow it.
    pub fn send_key_up(&self, kind: KeyKind, focus: FocusState) -> (r: Result<(), Error>)
        ensures
            r.is_ok() == spec_can_send(self.spec_kind(), focus),
            r matches Err(e) ==> e == Error::KeyNotSent,
    {
        self.send_key(kind, focus)
    }
}

/// Receives the key strokes the OS hook captured for a target window, in
/// arrival order.
#[derive(Debug)]
pub struct InputReceiver {
    window: Window,
    kind: InputKind,
    pending: Vec<KeyKind>,
}

impl InputReceiver {
    pub closed spec fn spec_window(self) -> Window {
        self.window
    }

    pub closed spec fn spec_kind(self) -> InputKind {
        self.kind
    }

    pub closed spec fn spec_pending(self) -> Seq<KeyKind> {
        self.pending@
    }

    pub fn new(window: Window, input_kind: InputKind) -> (r: Result<Self, Error>)
        ensures
            r matches Ok(rx) && rx.spec_window() == window && rx.spec_kind() == input_kind
                && rx.spec_pending() == Seq::<KeyKind>::empty(),
    {
        Ok(InputReceiver { window, kind: input_kind, pending: Vec::new() })
    }

    /// The shell hands in one captured stroke; it queues behind earlier
    /// ones.
    pub fn push_key(&mut self, key: KeyKind)
        ensures
            final(self).spec_pending() == old(self).spec_pending().push(key),
            final(self).spec_window() == old(self).spec_window(),
            final(self).spec_kind() == old(self).spec_kind(),
    {
        self.pending.push(key);
    }

    /// The oldest stroke not yet received; `KeyNotReceived` when there is
    /// no key event.
    pub fn try_recv(&mut self) -> (r: Result<KeyKind, Error>)
        ensures
            old(self).spec_pending().len() == 0 ==> r == Err::<KeyKind, Error>(
                Error::KeyNotReceived,
            ) && final(self).spec_pending() == old(self).spec_pending(),
            old(self).spec_pending().len() > 0 ==> r == Ok::<KeyKind, Error>(
                old(self).spec_pending()[0],
            ) && final(self).spec_pending() == old(self).spec_pending().drop_first(),
            final(self).spec_window() == old(self).spec_window(),
            final(self).spec_kind() == old(self).spec_kind(),
    {
        if self.pending.len() == 0 {
            Err(Error::KeyNotReceived)
        } else {
            let key = self.pending.remove(0);
            proof {
                assert(old(self).spec_pending().remove(0) =~= old(
                    self,
                ).spec_pending().drop_first());
            }
            Ok(key)
        }
    }
}

} // verus!
