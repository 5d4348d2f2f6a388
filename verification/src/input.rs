//! Client-side keyboard state, pointer tracking and controller mapping.

use vstd::prelude::*;

verus! {

/// Every key the client reacts to.
#[derive(Debug, Clone, Copy, PartialEq, Eq, Structural, PartialOrd, Ord, Hash)]
pub enum GameKey {
    Reset,
    Pause,
    ForcePause,
    Benchmark,
    Back,
    Controls,
    ReturnLauncher,
    NesUp,
    NesDown,
    NesLeft,
    NesRight,
    NesA,
    NesSelect,
    NesStart,
    P1Wing,
    P1Thrust,
    P1Brake,
    P1Reverse,
    P1TurnLeft,
    P1TurnRight,
    P1Laser,
    P1Cannon,
    P1ZoomIn,
    P1ZoomOut,
    P2Wing,
    P2Thrust,
    P2Brake,
    P2Reverse,
    P2TurnLeft,
    P2TurnRight,
    P2Laser,
    P2Cannon,
    P2ZoomIn,
    P2ZoomOut,
}

/// Number of distinct game keys.
pub const GAME_KEY_COUNT: usize = 34;

/// The position of `key` in declaration order.
pub open spec fn key_slot(key: GameKey) -> int {
    match key {
        GameKey::Reset => 0,
        GameKey::Pause => 1,
        GameKey::ForcePause => 2,
        GameKey::Benchmark => 3,
        GameKey::Back => 4,
        GameKey::Controls => 5,
        GameKey::ReturnLauncher => 6,
        GameKey::NesUp => 7,
        GameKey::NesDown => 8,
        GameKey::NesLeft => 9,
        GameKey::NesRight => 10,
        GameKey::NesA => 11,
        GameKey::NesSelect => 12,
        GameKey::NesStart => 13,
        GameKey::P1Wing => 14,
        GameKey::P1Thrust => 15,
        GameKey::P1Brake => 16,
        GameKey::P1Reverse => 17,
        GameKey::P1TurnLeft => 18,
        GameKey::P1TurnRight => 19,
        GameKey::P1Laser => 20,
        GameKey::P1Cannon => 21,
        GameKey::P1ZoomIn => 22,
        GameKey::P1ZoomOut => 23,
        GameKey::P2Wing => 24,
        GameKey::P2Thrust => 25,
        GameKey::P2Brake => 26,
        GameKey::P2Reverse => 27,
        GameKey::P2TurnLeft => 28,
        GameKey::P2TurnRight => 29,
        GameKey::P2Laser => 30,
        GameKey::P2Cannon => 31,
        GameKey::P2ZoomIn => 32,
        GameKey::P2ZoomOut => 33,
    }
}

/// Distinct keys occupy distinct slots.
pub proof fn lemma_key_slot_injective(a: GameKey, b: GameKey)
    ensures
        key_slot(a) == key_slot(b) <==> a == b,
        0 <= key_slot(a) < GAME_KEY_COUNT,
{
}

fn slot_of(key: GameKey) -> (slot: usize)
    ensures
        slot == key_slot(key),
{
    match key {
        GameKey::Reset => 0,
        GameKey::Pause => 1,
        GameKey::ForcePause => 2,
        GameKey::Benchmark => 3,
        GameKey::Back => 4,
        GameKey::Controls => 5,
        GameKey::ReturnLauncher => 6,
        GameKey::NesUp => 7,
        GameKey::NesDown => 8,
        GameKey::NesLeft => 9,
        GameKey::NesRight => 10,
        GameKey::NesA => 11,
        GameKey::NesSelect => 12,
        GameKey::NesStart => 13,
        GameKey::P1Wing => 14,
        GameKey::P1Thrust => 15,
        GameKey::P1Brake => 16,
        GameKey::P1Reverse => 17,
        GameKey::P1TurnLeft => 18,
        GameKey::P1TurnRight => 19,
        GameKey::P1Laser => 20,
        GameKey::P1Cannon => 21,
        GameKey::P1ZoomIn => 22,
        GameKey::P1ZoomOut => 23,
        GameKey::P2Wing => 24,
        GameKey::P2Thrust => 25,
        GameKey::P2Brake => 26,
        GameKey::P2Reverse => 27,
        GameKey::P2TurnLeft => 28,
        GameKey::P2TurnRight => 29,
        GameKey::P2Laser => 30,
        GameKey::P2Cannon => 31,
        GameKey::P2ZoomIn => 32,
        GameKey::P2ZoomOut => 33,
    }
}

/// The set of held game keys.
pub struct KeyboardState {
    pressed: Vec<bool>,
}

impl KeyboardState {
    pub closed spec fn wf(&self) -> bool {
        self.pressed.len() == GAME_KEY_COUNT
    }

    /// The held keys.
    pub closed spec fn held(&self) -> Set<GameKey> {
        Set::new(|key: GameKey| self.pressed@[key_slot(key)])
    }

    /// No key is held.
    pub fn new() -> (state: Self)
        ensures
            state.wf(),
            state.held() == Set::<GameKey>::empty(),
    {
        let mut pressed: Vec<bool> = Vec::new();
        let mut i: usize = 0;
        while i < GAME_KEY_COUNT
            invariant
                i <= GAME_KEY_COUNT,
                pressed.len() == i,
                forall|k: int| 0 <= k < i ==> !pressed@[k],
            decreases GAME_KEY_COUNT - i,
        {
            pressed.push(false);
            i = i + 1;
        }
        let state = KeyboardState { pressed };
        assert(state.held() =~= Set::<GameKey>::empty());
        state
    }

    /// Whether `key` is held.
    pub fn is_pressed(&self, key: GameKey) -> (held: bool)
        requires
            self.wf(),
        ensures
            held == self.held().contains(key),
    {
        self.pressed[slot_of(key)]
    }

    /// Marks `key` as held.
    pub fn press(&mut self, key: GameKey)
        requires
            old(self).wf(),
        ensures
            final(self).wf(),
            final(self).held() == old(self).held().insert(key),
    {
        self.pressed.set(slot_of(key), true);
        proof {
            assert forall|k: GameKey| #[trigger] self.held().contains(k) == old(self).held().insert(
                key,
            ).contains(k) by {
                lemma_key_slot_injective(k, key);
            }
            assert(self.held() =~= old(self).held().insert(key));
        }
    }

    /// Releases `key`.
    pub fn release(&mut self, key: GameKey)
        requires
            old(self).wf(),
        ensures
            final(self).wf(),
            final(self).held() == old(self).held().remove(key),
    {
        self.take(key);
    }

    /// Releases `key` and reports whether it was held: a one-shot request.
    pub fn take(&mut self, key: GameKey) -> (was_held: bool)
        requires
            old(self).wf(),
        ensures
            final(self).wf(),
            was_held == old(self).held().contains(key),
            final(self).held() == old(self).held().remove(key),
    {
        let slot = slot_of(key);
        let was_held = self.pressed[slot];
        self.pressed.set(slot, false);
        proof {
            assert forall|k: GameKey| #[trigger] self.held().contains(k) == old(self).held().remove(
                key,
            ).contains(k) by {
                lemma_key_slot_injective(k, key);
            }
            assert(self.held() =~= old(self).held().remove(key));
        }
        was_held
    }

    /// Releases every key.
    pub fn clear(&mut self)
        requires
            old(self).wf(),
        ensures
            final(self).wf(),
            final(self).held() == Set::<GameKey>::empty(),
    {
        let mut i: usize = 0;
        while i < GAME_KEY_COUNT
            invariant
                self.pressed.len() == GAME_KEY_COUNT,
                i <= GAME_KEY_COUNT,
                forall|k: int| 0 <= k < i ==> !self.pressed@[k],
            decreases GAME_KEY_COUNT - i,
        {
            self.pressed.set(i, false);
            i = i + 1;
        }
        assert(self.held() =~= Set::<GameKey>::empty());
    }
}


/// The physical keys the client maps; every other key is `Other`.
#[derive(Debug, Clone, Copy, PartialEq, Eq, Structural)]
pub enum KeyCode {
    KeyA,
    KeyB,
    KeyC,
    KeyD,
    KeyI,
    KeyJ,
    KeyK,
    KeyP,
    KeyQ,
    KeyR,
    KeyS,
    KeyU,
    KeyW,
    KeyX,
    KeyZ,
    F1,
    Escape,
    Tab,
    Enter,
    Space,
    ArrowUp,
    ArrowDown,
    ArrowLeft,
    ArrowRight,
    PageDown,
    Delete,
    End,
    Insert,
    Home,
    Numpad2,
    Numpad4,
    Numpad5,
    Numpad6,
    Numpad8,
    Other,
}

/// The game key bound to a physical key.
pub open spec fn key_binding(code: KeyCode) -> Option<GameKey> {
    match code {
        KeyCode::KeyR => Some(GameKey::Reset),
        KeyCode::KeyP => Some(GameKey::Pause),
        KeyCode::KeyB => Some(GameKey::Benchmark),
        KeyCode::Escape => Some(GameKey::Back),
        KeyCode::KeyC | KeyCode::F1 => Some(GameKey::Controls),
        KeyCode::KeyQ => Some(GameKey::ReturnLauncher),
        KeyCode::ArrowUp => Some(GameKey::NesUp),
        KeyCode::ArrowDown => Some(GameKey::NesDown),
        KeyCode::ArrowLeft => Some(GameKey::NesLeft),
        KeyCode::ArrowRight => Some(GameKey::NesRight),
        KeyCode::KeyZ => Some(GameKey::NesA),
        KeyCode::Tab => Some(GameKey::NesSelect),
        KeyCode::Enter => Some(GameKey::NesStart),
        KeyCode::KeyJ => Some(GameKey::P1Wing),
        KeyCode::KeyW => Some(GameKey::P1Thrust),
        KeyCode::KeyS => Some(GameKey::P1Brake),
        KeyCode::KeyX => Some(GameKey::P1Reverse),
        KeyCode::KeyA => Some(GameKey::P1TurnLeft),
        KeyCode::KeyD => Some(GameKey::P1TurnRight),
        KeyCode::Space => Some(GameKey::P1Laser),
        KeyCode::KeyK => Some(GameKey::P1Cannon),
        KeyCode::KeyU => Some(GameKey::P1ZoomIn),
        KeyCode::KeyI => Some(GameKey::P1ZoomOut),
        KeyCode::PageDown => Some(GameKey::P2Wing),
        KeyCode::Numpad8 => Some(GameKey::P2Thrust),
        KeyCode::Numpad5 => Some(GameKey::P2Brake),
        KeyCode::Numpad2 => Some(GameKey::P2Reverse),
        KeyCode::Numpad4 => Some(GameKey::P2TurnLeft),
        KeyCode::Numpad6 => Some(GameKey::P2TurnRight),
        KeyCode::Delete => Some(GameKey::P2Laser),
        KeyCode::End => Some(GameKey::P2Cannon),
        KeyCode::Insert => Some(GameKey::P2ZoomIn),
        KeyCode::Home => Some(GameKey::P2ZoomOut),
        KeyCode::Other => None,
    }
}

/// The game key bound to a physical key, if any.
pub fn game_key_from_key_code(code: KeyCode) -> (key: Option<GameKey>)
    ensures
        key == key_binding(code),
{
    match code {
        KeyCode::KeyR => Some(GameKey::Reset),
        KeyCode::KeyP => Some(GameKey::Pause),
        KeyCode::KeyB => Some(GameKey::Benchmark),
        KeyCode::Escape => Some(GameKey::Back),
        KeyCode::KeyC | KeyCode::F1 => Some(GameKey::Controls),
        KeyCode::KeyQ => Some(GameKey::ReturnLauncher),
        KeyCode::ArrowUp => Some(GameKey::NesUp),
        KeyCode::ArrowDown => Some(GameKey::NesDown),
        KeyCode::ArrowLeft => Some(GameKey::NesLeft),
        KeyCode::ArrowRight => Some(GameKey::NesRight),
        KeyCode::KeyZ => Some(GameKey::NesA),
        KeyCode::Tab => Some(GameKey::NesSelect),
        KeyCode::Enter => Some(GameKey::NesStart),
        KeyCode::KeyJ => Some(GameKey::P1Wing),
        KeyCode::KeyW => Some(GameKey::P1Thrust),
        KeyCode::KeyS => Some(GameKey::P1Brake),
        KeyCode::KeyX => Some(GameKey::P1Reverse),
        KeyCode::KeyA => Some(GameKey::P1TurnLeft),
        KeyCode::KeyD => Some(GameKey::P1TurnRight),
        KeyCode::Space => Some(GameKey::P1Laser),
        KeyCode::KeyK => Some(GameKey::P1Cannon),
        KeyCode::KeyU => Some(GameKey::P1ZoomIn),
        KeyCode::KeyI => Some(GameKey::P1ZoomOut),
        KeyCode::PageDown => Some(GameKey::P2Wing),
        KeyCode::Numpad8 => Some(GameKey::P2Thrust),
        KeyCode::Numpad5 => Some(GameKey::P2Brake),
        KeyCode::Numpad2 => Some(GameKey::P2Reverse),
        KeyCode::Numpad4 => Some(GameKey::P2TurnLeft),
        KeyCode::Numpad6 => Some(GameKey::P2TurnRight),
        KeyCode::Delete => Some(GameKey::P2Laser),
        KeyCode::End => Some(GameKey::P2Cannon),
        KeyCode::Insert => Some(GameKey::P2ZoomIn),
        KeyCode::Home => Some(GameKey::P2ZoomOut),
        KeyCode::Other => None,
    }
}

/// What a pointer did.
#[derive(Debug, Clone, Copy, PartialEq, Eq, Structural)]
pub enum PointerPhase {
    Press,
    Drag,
    Release,
    Cancel,
}

/// A pointer event at a screen position of type `P`.
#[derive(Debug, Clone, Copy, PartialEq)]
pub struct ScreenPointerEvent<P> {
    pub position: P,
    pub phase: PointerPhase,
}

/// Pointer events waiting for the scenario, and the position of the pointer
/// that is down, if one is.
pub struct PointerTracker<P> {
    events: Vec<ScreenPointerEvent<P>>,
    active: Option<P>,
}

/// The queue and active pointer after `event`: a press starts a gesture; a
/// drag or release only counts during one; a cancel ends the gesture with a
/// cancel at its last position, or does nothing without one.
pub open spec fn after_pointer_event<P>(
    events: Seq<ScreenPointerEvent<P>>,
    active: Option<P>,
    event: ScreenPointerEvent<P>,
) -> (Seq<ScreenPointerEvent<P>>, Option<P>) {
    match event.phase {
        PointerPhase::Press => (events.push(event), Some(event.position)),
        PointerPhase::Drag => if active is Some {
            (events.push(event), Some(event.position))
        } else {
            (events, active)
        },
        PointerPhase::Release => if active is Some {
            (events.push(event), None)
        } else {
            (events, active)
        },
        PointerPhase::Cancel => after_cancel(events, active),
    }
}

/// The queue and active pointer after cancelling the gesture.
pub open spec fn after_cancel<P>(events: Seq<ScreenPointerEvent<P>>, active: Option<P>) -> (
    Seq<ScreenPointerEvent<P>>,
    Option<P>,
) {
    match active {
        Some(position) => (
            events.push(ScreenPointerEvent { position, phase: PointerPhase::Cancel }),
            None,
        ),
        None => (events, None),
    }
}

impl<P: Copy> PointerTracker<P> {
    pub closed spec fn events_spec(&self) -> Seq<ScreenPointerEvent<P>> {
        self.events@
    }

    pub closed spec fn active_spec(&self) -> Option<P> {
        self.active
    }

    /// No events and no pointer down.
    pub fn new() -> (tracker: Self)
        ensures
            tracker.events_spec().len() == 0,
            tracker.active_spec() is None,
    {
        PointerTracker { events: Vec::new(), active: None }
    }

    /// Queues `event` if it belongs to a gesture.
    pub fn push_pointer_event(&mut self, event: ScreenPointerEvent<P>)
        ensures
            (final(self).events_spec(), final(self).active_spec()) == after_pointer_event(
                old(self).events_spec(),
                old(self).active_spec(),
                event,
            ),
    {
        match event.phase {
            PointerPhase::Press => {
                self.active = Some(event.position);
                self.events.push(event);
            },
            PointerPhase::Drag => {
                if self.active.is_some() {
                    self.active = Some(event.position);
                    self.events.push(event);
                }
            },
            PointerPhase::Release => {
                if self.active.is_some() {
                    self.active = None;
                    self.events.push(event);
                }
            },
            PointerPhase::Cancel => {
                self.cancel_pointer();
            },
        }
    }

    /// Ends the gesture under way with a cancel at its last position.
    pub fn cancel_pointer(&mut self)
        ensures
            (final(self).events_spec(), final(self).active_spec()) == after_cancel(
                old(self).events_spec(),
                old(self).active_spec(),
            ),
    {
        match self.active.take() {
            Some(position) => {
                self.events.push(ScreenPointerEvent { position, phase: PointerPhase::Cancel });
            },
            None => {},
        }
    }

    /// Some queued event is a cancel.
    pub fn has_pointer_cancellation(&self) -> (cancelled: bool)
        ensures
            cancelled == exists|i: int|
                0 <= i < self.events_spec().len() && (#[trigger] self.events_spec()[i]).phase
                    == PointerPhase::Cancel,
    {
        let mut i: usize = 0;
        while i < self.events.len()
            invariant
                i <= self.events@.len(),
                forall|k: int| 0 <= k < i ==> (#[trigger] self.events@[k]).phase != PointerPhase::Cancel,
            decreases self.events@.len() - i,
        {
            if self.events[i].phase == PointerPhase::Cancel {
                return true;
            }
            i = i + 1;
        }
        false
    }

    /// Hands over the queued events, oldest first.
    pub fn take_pointer_events(&mut self) -> (events: Vec<ScreenPointerEvent<P>>)
        ensures
            events@ == old(self).events_spec(),
            final(self).events_spec().len() == 0,
            final(self).active_spec() == old(self).active_spec(),
    {
        let mut events: Vec<ScreenPointerEvent<P>> = Vec::new();
        std::mem::swap(&mut events, &mut self.events);
        events
    }

    /// Forgets the queued events and the gesture under way.
    pub fn discard_pointer_events(&mut self)
        ensures
            final(self).events_spec().len() == 0,
            final(self).active_spec() is None,
    {
        self.events.clear();
        self.active = None;
    }
}

/// A cancel is delivered once: after a cancel, a second cancel adds nothing.
pub proof fn lemma_cancel_is_once<P>(events: Seq<ScreenPointerEvent<P>>, active: Option<P>)
    ensures
        after_cancel(after_cancel(events, active).0, after_cancel(events, active).1)
            == after_cancel(events, active),
{
}

/// The digital state of one game controller seat.
#[derive(Debug, Clone, Copy, Default, PartialEq, Eq, Structural)]
pub struct GamepadButtons {
    pub connected: bool,
    pub dpad_up: bool,
    pub dpad_down: bool,
    pub dpad_left: bool,
    pub dpad_right: bool,
    pub right_bumper: bool,
    pub south: bool,
    pub east: bool,
    pub west: bool,
    pub start: bool,
    pub select: bool,
}

/// The NES controller bits that player 1's keyboard holds.
pub open spec fn keyboard_nes_bits(held: Set<GameKey>) -> u8 {
    (if held.contains(GameKey::NesUp) { 0x10u8 } else { 0u8 })
        | (if held.contains(GameKey::NesDown) { 0x20u8 } else { 0u8 })
        | (if held.contains(GameKey::NesLeft) { 0x40u8 } else { 0u8 })
        | (if held.contains(GameKey::NesRight) { 0x80u8 } else { 0u8 })
        | (if held.contains(GameKey::NesA) || held.contains(GameKey::P1Laser) { 0x01u8 } else { 0u8 })
        | (if held.contains(GameKey::P1Reverse) { 0x02u8 } else { 0u8 })
        | (if held.contains(GameKey::NesSelect) { 0x04u8 } else { 0u8 })
        | (if held.contains(GameKey::NesStart) { 0x08u8 } else { 0u8 })
}

/// The NES controller bits that a connected controller holds.
pub open spec fn gamepad_nes_bits(pad: GamepadButtons) -> u8 {
    if !pad.connected {
        0u8
    } else {
        (if pad.dpad_up { 0x10u8 } else { 0u8 }) | (if pad.dpad_down { 0x20u8 } else { 0u8 })
            | (if pad.dpad_left { 0x40u8 } else { 0u8 }) | (if pad.dpad_right { 0x80u8 } else { 0u8 })
            | (if pad.south { 0x01u8 } else { 0u8 }) | (if pad.east { 0x02u8 } else { 0u8 })
            | (if pad.select { 0x04u8 } else { 0u8 }) | (if pad.start { 0x08u8 } else { 0u8 })
    }
}

/// Each NES button bit of `keys | pad` is set exactly when the key bit or the
/// pad bit of that button is.
proof fn lemma_button_bits(
    ku: bool, kd: bool, kl: bool, kr: bool, ka: bool, kb: bool, ks: bool, kt: bool,
    pu: bool, pd: bool, pl: bool, pr: bool, pa: bool, pb: bool, ps: bool, pt: bool,
)
    by (bit_vector)
    ensures
        ({
            let keys: u8 = (if ku { 0x10u8 } else { 0u8 }) | (if kd { 0x20u8 } else { 0u8 }) | (if kl {
                0x40u8
            } else {
                0u8
            }) | (if kr { 0x80u8 } else { 0u8 }) | (if ka { 0x01u8 } else { 0u8 }) | (if kb {
                0x02u8
            } else {
                0u8
            }) | (if ks { 0x04u8 } else { 0u8 }) | (if kt { 0x08u8 } else { 0u8 });
            let pad: u8 = (if pu { 0x10u8 } else { 0u8 }) | (if pd { 0x20u8 } else { 0u8 }) | (if pl {
                0x40u8
            } else {
                0u8
            }) | (if pr { 0x80u8 } else { 0u8 }) | (if pa { 0x01u8 } else { 0u8 }) | (if pb {
                0x02u8
            } else {
                0u8
            }) | (if ps { 0x04u8 } else { 0u8 }) | (if pt { 0x08u8 } else { 0u8 });
            let b: u8 = keys | pad;
            &&& (b & 0x10u8 != 0) == (ku || pu)
            &&& (b & 0x20u8 != 0) == (kd || pd)
            &&& (b & 0x40u8 != 0) == (kl || pl)
            &&& (b & 0x80u8 != 0) == (kr || pr)
            &&& (b & 0x01u8 != 0) == (ka || pa)
            &&& (b & 0x02u8 != 0) == (kb || pb)
            &&& (b & 0x04u8 != 0) == (ks || ps)
            &&& (b & 0x08u8 != 0) == (kt || pt)
        }),
{
}

/// Which NES buttons a player holds, button by button: player 1's up,
/// down, left and right keys press the matching directions, A is pressed by
/// the A key or the laser key, B by the reverse key, select and start by
/// their keys; a connected controller adds its d-pad, south (A), east (B),
/// select and start; a disconnected one adds nothing; player 2 has no keys.
/// Every bit of the state is one of these eight buttons.
pub proof fn lemma_nes_buttons_by_button(held: Set<GameKey>, pad: GamepadButtons, player: int)
    requires
        0 <= player < 2,
    ensures
        ({
            let b = (if player == 0 { keyboard_nes_bits(held) } else { 0u8 }) | gamepad_nes_bits(pad);
            let keys = player == 0;
            let on = pad.connected;
            &&& (b & crate::runtime::BUTTON_UP != 0) == (keys && held.contains(GameKey::NesUp) || on && pad.dpad_up)
            &&& (b & crate::runtime::BUTTON_DOWN != 0) == (keys && held.contains(GameKey::NesDown) || on
                && pad.dpad_down)
            &&& (b & crate::runtime::BUTTON_LEFT != 0) == (keys && held.contains(GameKey::NesLeft) || on
                && pad.dpad_left)
            &&& (b & crate::runtime::BUTTON_RIGHT != 0) == (keys && held.contains(GameKey::NesRight) || on
                && pad.dpad_right)
            &&& (b & crate::runtime::BUTTON_A != 0) == (keys && (held.contains(GameKey::NesA)
                || held.contains(GameKey::P1Laser)) || on && pad.south)
            &&& (b & crate::runtime::BUTTON_B != 0) == (keys && held.contains(GameKey::P1Reverse) || on
                && pad.east)
            &&& (b & crate::runtime::BUTTON_SELECT != 0) == (keys && held.contains(GameKey::NesSelect) || on
                && pad.select)
            &&& (b & crate::runtime::BUTTON_START != 0) == (keys && held.contains(GameKey::NesStart) || on
                && pad.start)
        }),
{
    let keys = player == 0;
    let on = pad.connected;
    lemma_button_bits(
        keys && held.contains(GameKey::NesUp),
        keys && held.contains(GameKey::NesDown),
        keys && held.contains(GameKey::NesLeft),
        keys && held.contains(GameKey::NesRight),
        keys && (held.contains(GameKey::NesA) || held.contains(GameKey::P1Laser)),
        keys && held.contains(GameKey::P1Reverse),
        keys && held.contains(GameKey::NesSelect),
        keys && held.contains(GameKey::NesStart),
        on && pad.dpad_up,
        on && pad.dpad_down,
        on && pad.dpad_left,
        on && pad.dpad_right,
        on && pad.south,
        on && pad.east,
        on && pad.select,
        on && pad.start,
    );
    assert((if player == 0 { keyboard_nes_bits(held) } else { 0u8 }) == (if keys && held.contains(
        GameKey::NesUp,
    ) {
        0x10u8
    } else {
        0u8
    }) | (if keys && held.contains(GameKey::NesDown) { 0x20u8 } else { 0u8 }) | (if keys
        && held.contains(GameKey::NesLeft) {
        0x40u8
    } else {
        0u8
    }) | (if keys && held.contains(GameKey::NesRight) { 0x80u8 } else { 0u8 }) | (if keys && (
    held.contains(GameKey::NesA) || held.contains(GameKey::P1Laser)) {
        0x01u8
    } else {
        0u8
    }) | (if keys && held.contains(GameKey::P1Reverse) { 0x02u8 } else { 0u8 }) | (if keys
        && held.contains(GameKey::NesSelect) {
        0x04u8
    } else {
        0u8
    }) | (if keys && held.contains(GameKey::NesStart) { 0x08u8 } else { 0u8 })) by {
        if player != 0 {
            assert(0u8 | 0u8 | 0u8 | 0u8 | 0u8 | 0u8 | 0u8 | 0u8 == 0u8) by (bit_vector);
        }
    }
    assert(gamepad_nes_bits(pad) == (if on && pad.dpad_up { 0x10u8 } else { 0u8 }) | (if on
        && pad.dpad_down {
        0x20u8
    } else {
        0u8
    }) | (if on && pad.dpad_left { 0x40u8 } else { 0u8 }) | (if on && pad.dpad_right {
        0x80u8
    } else {
        0u8
    }) | (if on && pad.south { 0x01u8 } else { 0u8 }) | (if on && pad.east { 0x02u8 } else { 0u8 })
        | (if on && pad.select { 0x04u8 } else { 0u8 }) | (if on && pad.start { 0x08u8 } else { 0u8 }))
        by {
        if !on {
            assert(0u8 | 0u8 | 0u8 | 0u8 | 0u8 | 0u8 | 0u8 | 0u8 == 0u8) by (bit_vector);
        }
    }
}

fn bit(on: bool, mask: u8) -> (b: u8)
    ensures
        b == if on { mask } else { 0u8 },
{
    if on {
        mask
    } else {
        0
    }
}

/// The NES controller state of `player`: for player 1 the keyboard's NES keys
/// (the laser key also fires A, reverse also presses B), combined with the
/// player's own controller when it is connected.
pub fn nes_controller_buttons(keyboard: &KeyboardState, pads: &[GamepadButtons; 2], player: usize) -> (buttons: u8)
    requires
        keyboard.wf(),
    ensures
        buttons == (if player == 0 { keyboard_nes_bits(keyboard.held()) } else { 0u8 }) | (if player
            < 2 { gamepad_nes_bits(pads[player as int]) } else { 0u8 }),
        player == 0 && !pads[0].connected ==> ((buttons & crate::runtime::BUTTON_UP != 0)
            == keyboard.held().contains(GameKey::NesUp) && (buttons & crate::runtime::BUTTON_DOWN != 0)
            == keyboard.held().contains(GameKey::NesDown) && (buttons & crate::runtime::BUTTON_LEFT != 0)
            == keyboard.held().contains(GameKey::NesLeft) && (buttons & crate::runtime::BUTTON_RIGHT
            != 0) == keyboard.held().contains(GameKey::NesRight)),
{
    proof {
        if player < 2 {
            lemma_nes_buttons_by_button(keyboard.held(), pads[player as int], player as int);
        }
    }
    let mut from_keys: u8 = 0;
    if player == 0 {
        from_keys = bit(keyboard.is_pressed(GameKey::NesUp), 0x10)
            | bit(keyboard.is_pressed(GameKey::NesDown), 0x20)
            | bit(keyboard.is_pressed(GameKey::NesLeft), 0x40)
            | bit(keyboard.is_pressed(GameKey::NesRight), 0x80)
            | bit(keyboard.is_pressed(GameKey::NesA) || keyboard.is_pressed(GameKey::P1Laser), 0x01)
            | bit(keyboard.is_pressed(GameKey::P1Reverse), 0x02)
            | bit(keyboard.is_pressed(GameKey::NesSelect), 0x04)
            | bit(keyboard.is_pressed(GameKey::NesStart), 0x08);
    }
    let from_pad: u8 = if player < 2 {
        let pad = pads[player];
        if !pad.connected {
            0
        } else {
            bit(pad.dpad_up, 0x10) | bit(pad.dpad_down, 0x20) | bit(pad.dpad_left, 0x40) | bit(
                pad.dpad_right,
                0x80,
            ) | bit(pad.south, 0x01) | bit(pad.east, 0x02) | bit(pad.select, 0x04) | bit(
                pad.start,
                0x08,
            )
        }
    } else {
        0
    };
    from_keys | from_pad
}


/// The keys of one player's ship.
#[derive(Debug, Clone, Copy, PartialEq, Eq, Structural)]
pub struct PlayerControlMap {
    pub player: usize,
    pub wing: GameKey,
    pub thrust: GameKey,
    pub brake: GameKey,
    pub reverse: GameKey,
    pub turn_left: GameKey,
    pub turn_right: GameKey,
    pub laser: GameKey,
    pub cannon: GameKey,
    pub zoom_in: GameKey,
    pub zoom_out: GameKey,
}

/// Player 1's keys.
pub open spec fn p1_controls() -> PlayerControlMap {
    PlayerControlMap {
        player: 0,
        wing: GameKey::P1Wing,
        thrust: GameKey::P1Thrust,
        brake: GameKey::P1Brake,
        reverse: GameKey::P1Reverse,
        turn_left: GameKey::P1TurnLeft,
        turn_right: GameKey::P1TurnRight,
        laser: GameKey::P1Laser,
        cannon: GameKey::P1Cannon,
        zoom_in: GameKey::P1ZoomIn,
        zoom_out: GameKey::P1ZoomOut,
    }
}

/// Player 2's keys.
pub open spec fn p2_controls() -> PlayerControlMap {
    PlayerControlMap {
        player: 1,
        wing: GameKey::P2Wing,
        thrust: GameKey::P2Thrust,
        brake: GameKey::P2Brake,
        reverse: GameKey::P2Reverse,
        turn_left: GameKey::P2TurnLeft,
        turn_right: GameKey::P2TurnRight,
        laser: GameKey::P2Laser,
        cannon: GameKey::P2Cannon,
        zoom_in: GameKey::P2ZoomIn,
        zoom_out: GameKey::P2ZoomOut,
    }
}

/// The keys of player `player` (0 or 1).
pub fn player_controls(player: usize) -> (controls: PlayerControlMap)
    requires
        player < 2,
    ensures
        controls == if player == 0 { p1_controls() } else { p2_controls() },
{
    if player == 0 {
        PlayerControlMap {
            player: 0,
            wing: GameKey::P1Wing,
            thrust: GameKey::P1Thrust,
            brake: GameKey::P1Brake,
            reverse: GameKey::P1Reverse,
            turn_left: GameKey::P1TurnLeft,
            turn_right: GameKey::P1TurnRight,
            laser: GameKey::P1Laser,
            cannon: GameKey::P1Cannon,
            zoom_in: GameKey::P1ZoomIn,
            zoom_out: GameKey::P1ZoomOut,
        }
    } else {
        PlayerControlMap {
            player: 1,
            wing: GameKey::P2Wing,
            thrust: GameKey::P2Thrust,
            brake: GameKey::P2Brake,
            reverse: GameKey::P2Reverse,
            turn_left: GameKey::P2TurnLeft,
            turn_right: GameKey::P2TurnRight,
            laser: GameKey::P2Laser,
            cannon: GameKey::P2Cannon,
            zoom_in: GameKey::P2ZoomIn,
            zoom_out: GameKey::P2ZoomOut,
        }
    }
}

/// A ship command from the keyboard at full scale: each axis is -1, 0 or 1.
#[derive(Debug, Clone, Copy, Default, PartialEq, Eq, Structural)]
pub struct KeyboardIntent {
    pub turn: i8,
    pub thrust: i8,
    pub brake: i8,
    pub wings_closed: bool,
    pub laser: bool,
    pub cannon: bool,
}

/// The ship command that held keys give: thrust wins over reverse, left over
/// right.
pub open spec fn keyboard_intent_spec(held: Set<GameKey>, c: PlayerControlMap) -> KeyboardIntent {
    KeyboardIntent {
        turn: if held.contains(c.turn_left) { -1i8 } else if held.contains(c.turn_right) { 1i8 } else { 0i8 },
        thrust: if held.contains(c.thrust) { 1i8 } else if held.contains(c.reverse) { -1i8 } else { 0i8 },
        brake: if held.contains(c.brake) { 1i8 } else { 0i8 },
        wings_closed: held.contains(c.wing),
        laser: held.contains(c.laser),
        cannon: held.contains(c.cannon),
    }
}

/// What each of a player's keys commands, key by key: the laser key fires
/// the laser and the cannon key the cannon, the wing key closes the wings,
/// the brake key brakes; turning left wins over turning right and thrust
/// over reverse, and with neither of a pair held that axis rests.
pub proof fn lemma_keyboard_intent_by_key(held: Set<GameKey>, c: PlayerControlMap)
    ensures
        ({
            let intent = keyboard_intent_spec(held, c);
            &&& intent.laser <==> held.contains(c.laser)
            &&& intent.cannon <==> held.contains(c.cannon)
            &&& intent.wings_closed <==> held.contains(c.wing)
            &&& (intent.brake == 1) <==> held.contains(c.brake)
            &&& intent.brake == 0 || intent.brake == 1
            &&& (intent.turn == -1) <==> held.contains(c.turn_left)
            &&& (intent.turn == 1) <==> !held.contains(c.turn_left) && held.contains(c.turn_right)
            &&& intent.turn == -1 || intent.turn == 0 || intent.turn == 1
            &&& (intent.thrust == 1) <==> held.contains(c.thrust)
            &&& (intent.thrust == -1) <==> !held.contains(c.thrust) && held.contains(c.reverse)
            &&& intent.thrust == -1 || intent.thrust == 0 || intent.thrust == 1
        }),
{
}

/// The ship command that the held keys of `controls` give.
pub fn keyboard_intent(keyboard: &KeyboardState, controls: PlayerControlMap) -> (intent: KeyboardIntent)
    requires
        keyboard.wf(),
    ensures
        intent == keyboard_intent_spec(keyboard.held(), controls),
        intent.laser == keyboard.held().contains(controls.laser),
        intent.cannon == keyboard.held().contains(controls.cannon),
        intent.wings_closed == keyboard.held().contains(controls.wing),
{
    KeyboardIntent {
        turn: if keyboard.is_pressed(controls.turn_left) {
            -1
        } else if keyboard.is_pressed(controls.turn_right) {
            1
        } else {
            0
        },
        thrust: if keyboard.is_pressed(controls.thrust) {
            1
        } else if keyboard.is_pressed(controls.reverse) {
            -1
        } else {
            0
        },
        brake: if keyboard.is_pressed(controls.brake) {
            1
        } else {
            0
        },
        wings_closed: keyboard.is_pressed(controls.wing),
        laser: keyboard.is_pressed(controls.laser),
        cannon: keyboard.is_pressed(controls.cannon),
    }
}

/// A zoom request from held keys: zoom in wins over zoom out.
#[derive(Debug, Clone, Copy, PartialEq, Eq, Structural)]
pub enum ZoomRequest {
    In,
    Out,
}

/// The zoom that `controls`' held keys ask for.
pub fn zoom_request(keyboard: &KeyboardState, controls: PlayerControlMap) -> (zoom: Option<ZoomRequest>)
    requires
        keyboard.wf(),
    ensures
        zoom == if keyboard.held().contains(controls.zoom_in) {
            Some(ZoomRequest::In)
        } else if keyboard.held().contains(controls.zoom_out) {
            Some(ZoomRequest::Out)
        } else {
            None
        },
{
    if keyboard.is_pressed(controls.zoom_in) {
        Some(ZoomRequest::In)
    } else if keyboard.is_pressed(controls.zoom_out) {
        Some(ZoomRequest::Out)
    } else {
        None
    }
}

/// Who steers a ship.
#[derive(Debug, Clone, Copy, PartialEq, Eq, Structural)]
pub enum SpacewarsControlMode {
    Human,
    RuleBot,
    Benchmark,
}

/// Where a ship's command comes from this frame.
#[derive(Debug, Clone, Copy, PartialEq, Eq, Structural)]
pub enum IntentSource {
    /// A neutral command, sent when control changes hands.
    Neutral,
    Human,
    RuleBot,
    Benchmark,
}

/// The mode that steers a ship: the benchmark, else the rule bot where asked
/// for, else the human.
pub open spec fn desired_mode(benchmark_active: bool, bot_player: bool) -> SpacewarsControlMode {
    if benchmark_active {
        SpacewarsControlMode::Benchmark
    } else if bot_player {
        SpacewarsControlMode::RuleBot
    } else {
        SpacewarsControlMode::Human
    }
}

/// The source that a settled mode uses.
pub open spec fn source_of(mode: SpacewarsControlMode) -> IntentSource {
    match mode {
        SpacewarsControlMode::Human => IntentSource::Human,
        SpacewarsControlMode::RuleBot => IntentSource::RuleBot,
        SpacewarsControlMode::Benchmark => IntentSource::Benchmark,
    }
}

/// The rule-bot message shown when no bot reports.
pub const NO_BOT_DIAGNOSTICS: &'static str = "No active rule-bot diagnostics.";

/// Who steers each ship, the context each rule bot was started in, and the
/// bots' latest reports.
pub struct ControlHandoff {
    active: [SpacewarsControlMode; 2],
    bot_contexts: [Option<u64>; 2],
    bot_diagnostics: Vec<Option<String>>,
    diagnostics_revision: u64,
}

impl ControlHandoff {
    pub closed spec fn wf(&self) -> bool {
        self.bot_diagnostics.len() == 2
    }

    pub closed spec fn active_spec(&self, player: int) -> SpacewarsControlMode {
        self.active[player]
    }

    /// The world seed that a player's rule bot was started for.
    pub closed spec fn bot_context_spec(&self, player: int) -> Option<u64> {
        self.bot_contexts[player]
    }

    pub closed spec fn diagnostics_spec(&self, player: int) -> Option<Seq<char>> {
        crate::runtime::error_view(self.bot_diagnostics@[player])
    }

    pub closed spec fn revision_spec(&self) -> u64 {
        self.diagnostics_revision
    }

    /// Humans steer; no bot has started or reported.
    pub fn new() -> (handoff: Self)
        ensures
            handoff.wf(),
            handoff.active_spec(0) == SpacewarsControlMode::Human,
            handoff.active_spec(1) == SpacewarsControlMode::Human,
            handoff.bot_context_spec(0) is None,
            handoff.bot_context_spec(1) is None,
            handoff.diagnostics_spec(0) is None,
            handoff.diagnostics_spec(1) is None,
            handoff.revision_spec() == 0,
    {
        let mut bot_diagnostics: Vec<Option<String>> = Vec::new();
        bot_diagnostics.push(None);
        bot_diagnostics.push(None);
        ControlHandoff {
            active: [SpacewarsControlMode::Human, SpacewarsControlMode::Human],
            bot_contexts: [None, None],
            bot_diagnostics,
            diagnostics_revision: 0,
        }
    }

    /// Decides where `player`'s command comes from this frame. When the mode
    /// changes, one neutral command is sent first so that nothing held by the
    /// previous source survives, and a rule bot starts afresh. Leaving the
    /// rule bot drops its report.
    pub fn select_source(&mut self, player: usize, benchmark_active: bool, bot_player: bool) -> (source: IntentSource)
        requires
            old(self).wf(),
            player < 2,
        ensures
            final(self).wf(),
            ({
                let mode = desired_mode(benchmark_active, bot_player);
                &&& final(self).active_spec(player as int) == mode
                &&& final(self).active_spec(1 - player) == old(self).active_spec(1 - player)
                &&& final(self).bot_context_spec(1 - player) == old(self).bot_context_spec(1 - player)
                &&& final(self).diagnostics_spec(1 - player) == old(self).diagnostics_spec(1 - player)
                &&& if old(self).active_spec(player as int) != mode {
                    &&& source == IntentSource::Neutral
                    &&& final(self).bot_context_spec(player as int) is None
                } else {
                    &&& source == source_of(mode)
                    &&& final(self).bot_context_spec(player as int) == old(self).bot_context_spec(player as int)
                }
                &&& if mode != SpacewarsControlMode::RuleBot && old(self).diagnostics_spec(player as int) is Some {
                    &&& final(self).diagnostics_spec(player as int) is None
                    &&& final(self).revision_spec() == old(self).revision_spec().wrapping_add(1)
                } else {
                    &&& final(self).diagnostics_spec(player as int) == old(self).diagnostics_spec(player as int)
                    &&& final(self).revision_spec() == old(self).revision_spec()
                }
            }),
    {
        let mode = if benchmark_active {
            SpacewarsControlMode::Benchmark
        } else if bot_player {
            SpacewarsControlMode::RuleBot
        } else {
            SpacewarsControlMode::Human
        };
        if mode != SpacewarsControlMode::RuleBot && self.bot_diagnostics[player].is_some() {
            self.bot_diagnostics.set(player, None);
            self.diagnostics_revision = self.diagnostics_revision.wrapping_add(1);
        }
        if self.active[player] != mode {
            self.active[player] = mode;
            self.bot_contexts[player] = None;
            IntentSource::Neutral
        } else {
            match mode {
                SpacewarsControlMode::Human => IntentSource::Human,
                SpacewarsControlMode::RuleBot => IntentSource::RuleBot,
                SpacewarsControlMode::Benchmark => IntentSource::Benchmark,
            }
        }
    }

    /// Records that `player`'s rule bot plays the world with `seed`; returns
    /// whether the bot must be reset first because it played another world.
    pub fn start_bot(&mut self, player: usize, seed: u64) -> (reset: bool)
        requires
            old(self).wf(),
            player < 2,
        ensures
            final(self).wf(),
            reset == (old(self).bot_context_spec(player as int) != Some(seed)),
            final(self).bot_context_spec(player as int) == Some(seed),
            final(self).bot_context_spec(1 - player) == old(self).bot_context_spec(1 - player),
            final(self).active_spec(0) == old(self).active_spec(0),
            final(self).active_spec(1) == old(self).active_spec(1),
            final(self).diagnostics_spec(0) == old(self).diagnostics_spec(0),
            final(self).diagnostics_spec(1) == old(self).diagnostics_spec(1),
            final(self).revision_spec() == old(self).revision_spec(),
    {
        let reset = match self.bot_contexts[player] {
            Some(current) => current != seed,
            None => true,
        };
        self.bot_contexts[player] = Some(seed);
        reset
    }

    /// Stores `player`'s latest rule-bot report.
    pub fn set_bot_diagnostics(&mut self, player: usize, report: String)
        requires
            old(self).wf(),
            player < 2,
        ensures
            final(self).wf(),
            final(self).diagnostics_spec(player as int) == Some(report@),
            final(self).diagnostics_spec(1 - player) == old(self).diagnostics_spec(1 - player),
            final(self).revision_spec() == old(self).revision_spec().wrapping_add(1),
            final(self).active_spec(0) == old(self).active_spec(0),
            final(self).active_spec(1) == old(self).active_spec(1),
            final(self).bot_context_spec(0) == old(self).bot_context_spec(0),
            final(self).bot_context_spec(1) == old(self).bot_context_spec(1),
    {
        self.bot_diagnostics.set(player, Some(report));
        self.diagnostics_revision = self.diagnostics_revision.wrapping_add(1);
    }

    /// Humans steer again; bots restart and reports are dropped.
    pub fn reset(&mut self)
        requires
            old(self).wf(),
        ensures
            final(self).wf(),
            final(self).active_spec(0) == SpacewarsControlMode::Human,
            final(self).active_spec(1) == SpacewarsControlMode::Human,
            final(self).bot_context_spec(0) is None,
            final(self).bot_context_spec(1) is None,
            final(self).diagnostics_spec(0) is None,
            final(self).diagnostics_spec(1) is None,
            final(self).revision_spec() == old(self).revision_spec().wrapping_add(1),
    {
        self.active = [SpacewarsControlMode::Human, SpacewarsControlMode::Human];
        self.bot_contexts = [None, None];
        self.bot_diagnostics.set(0, None);
        self.bot_diagnostics.set(1, None);
        self.diagnostics_revision = self.diagnostics_revision.wrapping_add(1);
    }

    /// Counts changes of the bots' reports.
    pub fn diagnostics_revision(&self) -> (revision: u64)
        ensures
            revision == self.revision_spec(),
    {
        self.diagnostics_revision
    }

    /// The bots' reports separated by blank lines, or a note that no bot
    /// reports.
    pub fn runtime_diagnostics_text(&self) -> (text: String)
        requires
            self.wf(),
        ensures
            text@ == match (self.diagnostics_spec(0), self.diagnostics_spec(1)) {
                (Some(a), Some(b)) => a + "\n\n"@ + b,
                (Some(a), None) => a,
                (None, Some(b)) => b,
                (None, None) => NO_BOT_DIAGNOSTICS@,
            },
    {
        let mut text = String::new();
        match (&self.bot_diagnostics[0], &self.bot_diagnostics[1]) {
            (Some(a), Some(b)) => {
                crate::text::push_str(&mut text, a.as_str());
                crate::text::push_str(&mut text, "\n\n");
                crate::text::push_str(&mut text, b.as_str());
            },
            (Some(a), None) => crate::text::push_str(&mut text, a.as_str()),
            (None, Some(b)) => crate::text::push_str(&mut text, b.as_str()),
            (None, None) => crate::text::push_str(&mut text, NO_BOT_DIAGNOSTICS),
        }
        text
    }
}

/// Rule bots report once every sixty ticks.
pub fn bot_report_due(tick: u64) -> (due: bool)
    ensures
        due == (tick % 60 == 0),
{
    tick % 60 == 0
}


/// Everything the client knows of its input: held keys, pointer gestures
/// at positions of type `P`, and the two controller seats.
pub struct ClientInput<P> {
    keyboard: KeyboardState,
    pointer: PointerTracker<P>,
    gamepads: [GamepadButtons; 2],
}

/// A disconnected controller seat.
pub open spec fn no_gamepad() -> GamepadButtons {
    GamepadButtons {
        connected: false,
        dpad_up: false,
        dpad_down: false,
        dpad_left: false,
        dpad_right: false,
        right_bumper: false,
        south: false,
        east: false,
        west: false,
        start: false,
        select: false,
    }
}

fn disconnected() -> (pad: GamepadButtons)
    ensures
        pad == no_gamepad(),
{
    GamepadButtons {
        connected: false,
        dpad_up: false,
        dpad_down: false,
        dpad_left: false,
        dpad_right: false,
        right_bumper: false,
        south: false,
        east: false,
        west: false,
        start: false,
        select: false,
    }
}

impl<P: Copy> ClientInput<P> {
    pub closed spec fn wf(&self) -> bool {
        self.keyboard.wf()
    }

    pub closed spec fn held(&self) -> Set<GameKey> {
        self.keyboard.held()
    }

    pub closed spec fn pointer_events(&self) -> Seq<ScreenPointerEvent<P>> {
        self.pointer.events_spec()
    }

    pub closed spec fn active_pointer(&self) -> Option<P> {
        self.pointer.active_spec()
    }

    pub closed spec fn seat(&self, player: int) -> GamepadButtons {
        self.gamepads[player]
    }

    /// Both controller seats.
    pub open spec fn seats_spec(&self) -> (GamepadButtons, GamepadButtons) {
        (self.seat(0), self.seat(1))
    }

    /// No key held, no gesture, no controller.
    pub fn new() -> (input: Self)
        ensures
            input.wf(),
            input.held() == Set::<GameKey>::empty(),
            input.pointer_events().len() == 0,
            input.active_pointer() is None,
            input.seat(0) == no_gamepad(),
            input.seat(1) == no_gamepad(),
    {
        ClientInput {
            keyboard: KeyboardState::new(),
            pointer: PointerTracker::new(),
            gamepads: [disconnected(), disconnected()],
        }
    }

    /// Whether `key` is held.
    pub fn is_pressed(&self, key: GameKey) -> (held: bool)
        requires
            self.wf(),
        ensures
            held == self.held().contains(key),
    {
        self.keyboard.is_pressed(key)
    }

    /// Marks `key` as held.
    pub fn press(&mut self, key: GameKey)
        requires
            old(self).wf(),
        ensures
            final(self).wf(),
            final(self).held() == old(self).held().insert(key),
            final(self).pointer_events() == old(self).pointer_events(),
            final(self).active_pointer() == old(self).active_pointer(),
            final(self).seats_spec() == old(self).seats_spec(),
    {
        self.keyboard.press(key);
    }

    /// Releases `key`.
    pub fn release(&mut self, key: GameKey)
        requires
            old(self).wf(),
        ensures
            final(self).wf(),
            final(self).held() == old(self).held().remove(key),
            final(self).pointer_events() == old(self).pointer_events(),
            final(self).active_pointer() == old(self).active_pointer(),
            final(self).seats_spec() == old(self).seats_spec(),
    {
        self.keyboard.release(key);
    }

    /// Takes a one-shot request held on `key`.
    pub fn take_requested(&mut self, key: GameKey) -> (requested: bool)
        requires
            old(self).wf(),
        ensures
            final(self).wf(),
            requested == old(self).held().contains(key),
            final(self).held() == old(self).held().remove(key),
            final(self).pointer_events() == old(self).pointer_events(),
            final(self).active_pointer() == old(self).active_pointer(),
            final(self).seats_spec() == old(self).seats_spec(),
    {
        self.keyboard.take(key)
    }

    /// Takes a pending restart request.
    pub fn take_reset_requested(&mut self) -> (requested: bool)
        requires
            old(self).wf(),
        ensures
            final(self).wf(),
            requested == old(self).held().contains(GameKey::Reset),
            final(self).held() == old(self).held().remove(GameKey::Reset),
            final(self).pointer_events() == old(self).pointer_events(),
            final(self).active_pointer() == old(self).active_pointer(),
            final(self).seats_spec() == old(self).seats_spec(),
    {
        self.take_requested(GameKey::Reset)
    }

    /// Takes a pending pause request.
    pub fn take_pause_requested(&mut self) -> (requested: bool)
        requires
            old(self).wf(),
        ensures
            final(self).wf(),
            requested == old(self).held().contains(GameKey::Pause),
            final(self).held() == old(self).held().remove(GameKey::Pause),
            final(self).pointer_events() == old(self).pointer_events(),
            final(self).active_pointer() == old(self).active_pointer(),
            final(self).seats_spec() == old(self).seats_spec(),
    {
        self.take_requested(GameKey::Pause)
    }

    /// Takes a pending forced pause (a controller disconnected).
    pub fn take_force_pause_requested(&mut self) -> (requested: bool)
        requires
            old(self).wf(),
        ensures
            final(self).wf(),
            requested == old(self).held().contains(GameKey::ForcePause),
            final(self).held() == old(self).held().remove(GameKey::ForcePause),
            final(self).pointer_events() == old(self).pointer_events(),
            final(self).active_pointer() == old(self).active_pointer(),
            final(self).seats_spec() == old(self).seats_spec(),
    {
        self.take_requested(GameKey::ForcePause)
    }

    /// Takes a pending benchmark request.
    pub fn take_benchmark_requested(&mut self) -> (requested: bool)
        requires
            old(self).wf(),
        ensures
            final(self).wf(),
            requested == old(self).held().contains(GameKey::Benchmark),
            final(self).held() == old(self).held().remove(GameKey::Benchmark),
            final(self).pointer_events() == old(self).pointer_events(),
            final(self).active_pointer() == old(self).active_pointer(),
            final(self).seats_spec() == old(self).seats_spec(),
    {
        self.take_requested(GameKey::Benchmark)
    }

    /// Takes a pending back request.
    pub fn take_back_requested(&mut self) -> (requested: bool)
        requires
            old(self).wf(),
        ensures
            final(self).wf(),
            requested == old(self).held().contains(GameKey::Back),
            final(self).held() == old(self).held().remove(GameKey::Back),
            final(self).pointer_events() == old(self).pointer_events(),
            final(self).active_pointer() == old(self).active_pointer(),
            final(self).seats_spec() == old(self).seats_spec(),
    {
        self.take_requested(GameKey::Back)
    }

    /// Takes a pending controls-screen request.
    pub fn take_controls_requested(&mut self) -> (requested: bool)
        requires
            old(self).wf(),
        ensures
            final(self).wf(),
            requested == old(self).held().contains(GameKey::Controls),
            final(self).held() == old(self).held().remove(GameKey::Controls),
            final(self).pointer_events() == old(self).pointer_events(),
            final(self).active_pointer() == old(self).active_pointer(),
            final(self).seats_spec() == old(self).seats_spec(),
    {
        self.take_requested(GameKey::Controls)
    }

    /// Takes a pending return-to-launcher request.
    pub fn take_return_launcher_requested(&mut self) -> (requested: bool)
        requires
            old(self).wf(),
        ensures
            final(self).wf(),
            requested == old(self).held().contains(GameKey::ReturnLauncher),
            final(self).held() == old(self).held().remove(GameKey::ReturnLauncher),
            final(self).pointer_events() == old(self).pointer_events(),
            final(self).active_pointer() == old(self).active_pointer(),
            final(self).seats_spec() == old(self).seats_spec(),
    {
        self.take_requested(GameKey::ReturnLauncher)
    }

    /// Sets the state of controller seat `player`; other seats are ignored.
    pub fn set_seat(&mut self, player: usize, state: GamepadButtons)
        ensures
            player < 2 ==> final(self).seat(player as int) == state,
            forall|other: int| 0 <= other < 2 && other != player ==> final(self).seat(other) == old(self).seat(other),
            final(self).held() == old(self).held(),
            final(self).wf() == old(self).wf(),
            final(self).pointer_events() == old(self).pointer_events(),
            final(self).active_pointer() == old(self).active_pointer(),
    {
        if player < 2 {
            self.gamepads[player] = state;
        }
    }

    /// Releases every control of seat `player`.
    pub fn disconnect_seat(&mut self, player: usize)
        ensures
            player < 2 ==> final(self).seat(player as int) == no_gamepad(),
            forall|other: int| 0 <= other < 2 && other != player ==> final(self).seat(other) == old(self).seat(other),
            final(self).held() == old(self).held(),
            final(self).wf() == old(self).wf(),
            final(self).pointer_events() == old(self).pointer_events(),
            final(self).active_pointer() == old(self).active_pointer(),
    {
        if player < 2 {
            self.gamepads[player] = disconnected();
        }
    }

    /// The NES controller state of `player`.
    pub fn nes_controller_buttons(&self, player: usize) -> (buttons: u8)
        requires
            self.wf(),
        ensures
            buttons == (if player == 0 { keyboard_nes_bits(self.held()) } else { 0u8 }) | (if player
                < 2 { gamepad_nes_bits(self.seat(player as int)) } else { 0u8 }),
    {
        nes_controller_buttons(&self.keyboard, &self.gamepads, player)
    }

    /// Queues a pointer event.
    pub fn push_pointer_event(&mut self, event: ScreenPointerEvent<P>)
        ensures
            (final(self).pointer_events(), final(self).active_pointer()) == after_pointer_event(
                old(self).pointer_events(),
                old(self).active_pointer(),
                event,
            ),
            final(self).held() == old(self).held(),
            final(self).wf() == old(self).wf(),
            final(self).seats_spec() == old(self).seats_spec(),
    {
        self.pointer.push_pointer_event(event);
    }

    /// Ends the gesture under way.
    pub fn cancel_pointer(&mut self)
        ensures
            (final(self).pointer_events(), final(self).active_pointer()) == after_cancel(
                old(self).pointer_events(),
                old(self).active_pointer(),
            ),
            final(self).held() == old(self).held(),
            final(self).wf() == old(self).wf(),
            final(self).seats_spec() == old(self).seats_spec(),
    {
        self.pointer.cancel_pointer();
    }

    /// Some queued pointer event is a cancel.
    pub fn has_pointer_cancellation(&self) -> (cancelled: bool)
        ensures
            cancelled == exists|i: int|
                0 <= i < self.pointer_events().len() && (#[trigger] self.pointer_events()[i]).phase
                    == PointerPhase::Cancel,
    {
        self.pointer.has_pointer_cancellation()
    }

    /// Hands over the queued pointer events.
    pub fn take_pointer_events(&mut self) -> (events: Vec<ScreenPointerEvent<P>>)
        ensures
            events@ == old(self).pointer_events(),
            final(self).pointer_events().len() == 0,
            final(self).active_pointer() == old(self).active_pointer(),
            final(self).held() == old(self).held(),
            final(self).wf() == old(self).wf(),
            final(self).seats_spec() == old(self).seats_spec(),
    {
        self.pointer.take_pointer_events()
    }

    /// Forgets queued pointer events and the gesture under way.
    pub fn discard_pointer_events(&mut self)
        ensures
            final(self).pointer_events().len() == 0,
            final(self).active_pointer() is None,
            final(self).held() == old(self).held(),
            final(self).wf() == old(self).wf(),
            final(self).seats_spec() == old(self).seats_spec(),
    {
        self.pointer.discard_pointer_events();
    }

    /// Releases every key; pointer events, a pending cancel among them, stay.
    pub fn clear_keyboard(&mut self)
        requires
            old(self).wf(),
        ensures
            final(self).wf(),
            final(self).held() == Set::<GameKey>::empty(),
            final(self).pointer_events() == old(self).pointer_events(),
            final(self).active_pointer() == old(self).active_pointer(),
            final(self).seats_spec() == old(self).seats_spec(),
    {
        self.keyboard.clear();
    }

    /// Releases every key and forgets every pointer event and gesture.
    pub fn clear(&mut self)
        requires
            old(self).wf(),
        ensures
            final(self).wf(),
            final(self).held() == Set::<GameKey>::empty(),
            final(self).pointer_events().len() == 0,
            final(self).active_pointer() is None,
            final(self).seats_spec() == old(self).seats_spec(),
    {
        self.keyboard.clear();
        self.pointer.discard_pointer_events();
    }

    /// The window lost focus: the gesture under way is cancelled (and the
    /// cancel kept for the scenario) and every key released, without asking
    /// for a pause.
    pub fn handle_focus_loss(&mut self)
        requires
            old(self).wf(),
        ensures
            final(self).wf(),
            final(self).held() == Set::<GameKey>::empty(),
            (final(self).pointer_events(), final(self).active_pointer()) == after_cancel(
                old(self).pointer_events(),
                old(self).active_pointer(),
            ),
            final(self).seats_spec() == old(self).seats_spec(),
    {
        self.pointer.cancel_pointer();
        self.keyboard.clear();
    }
}

impl<P: Copy> Default for ClientInput<P> {
    fn default() -> (input: Self)
        ensures
            input.wf(),
            input.held() == Set::<GameKey>::empty(),
            input.pointer_events().len() == 0,
            input.active_pointer() is None,
    {
        ClientInput::new()
    }
}

} // verus!
