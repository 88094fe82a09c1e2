//! Abstract actions, their key bindings, and live remapping.
//!
//! The control map binds each abstract action to at most one physical key,
//! identified by an opaque numeric code the host front end chooses. While a
//! remap is being listened for, the next key press rebinds the chosen action
//! and leaves paddle motion untouched; normal input handling and remap
//! listening are never active at the same time.

use vstd::prelude::*;

verus! {

/// The abstract actions the game reacts to.
#[derive(Clone, Copy, Debug, PartialEq, Eq, Structural)]
pub enum GameAction {
    Player1Up,
    Player1Down,
    Player2Up,
    Player2Down,
    Menu,
}

/// Default key codes, matching common host keyboard identifiers.
pub const KEY_ARROW_UP: u32 = 38;

pub const KEY_ARROW_DOWN: u32 = 40;

pub const KEY_W: u32 = 87;

pub const KEY_S: u32 = 83;

pub const KEY_ESCAPE: u32 = 27;

/// A one-to-one map from abstract action to physical key. An action can be
/// momentarily unbound between a clear and the insert that follows it.
#[derive(Clone, Copy, Debug, PartialEq, Eq, Structural)]
pub struct ControlMap {
    player1_up: Option<u32>,
    player1_down: Option<u32>,
    player2_up: Option<u32>,
    player2_down: Option<u32>,
    menu: Option<u32>,
}

impl ControlMap {
    /// The key currently bound to an action.
    pub closed spec fn spec_binding(self, action: GameAction) -> Option<u32> {
        match action {
            GameAction::Player1Up => self.player1_up,
            GameAction::Player1Down => self.player1_down,
            GameAction::Player2Up => self.player2_up,
            GameAction::Player2Down => self.player2_down,
            GameAction::Menu => self.menu,
        }
    }

    /// The stock bindings: arrows for player 1, W/S for player 2, escape for
    /// the menu.
    pub fn default_input_map() -> (m: ControlMap)
        ensures
            m.spec_binding(GameAction::Player1Up) == Some(KEY_ARROW_UP),
            m.spec_binding(GameAction::Player1Down) == Some(KEY_ARROW_DOWN),
            m.spec_binding(GameAction::Player2Up) == Some(KEY_W),
            m.spec_binding(GameAction::Player2Down) == Some(KEY_S),
            m.spec_binding(GameAction::Menu) == Some(KEY_ESCAPE),
    {
        ControlMap {
            player1_up: Some(KEY_ARROW_UP),
            player1_down: Some(KEY_ARROW_DOWN),
            player2_up: Some(KEY_W),
            player2_down: Some(KEY_S),
            menu: Some(KEY_ESCAPE),
        }
    }

    pub fn get(&self, action: GameAction) -> (k: Option<u32>)
        ensures
            k == self.spec_binding(action),
    {
        match action {
            GameAction::Player1Up => self.player1_up,
            GameAction::Player1Down => self.player1_down,
            GameAction::Player2Up => self.player2_up,
            GameAction::Player2Down => self.player2_down,
            GameAction::Menu => self.menu,
        }
    }

    /// Bind `action` to `key`, overwriting any prior binding; every other
    /// action keeps its binding.
    pub fn insert(&mut self, action: GameAction, key: u32)
        ensures
            final(self).spec_binding(action) == Some(key),
            forall|a: GameAction| a != action ==> final(self).spec_binding(a) == old(
                self,
            ).spec_binding(a),
    {
        match action {
            GameAction::Player1Up => self.player1_up = Some(key),
            GameAction::Player1Down => self.player1_down = Some(key),
            GameAction::Player2Up => self.player2_up = Some(key),
            GameAction::Player2Down => self.player2_down = Some(key),
            GameAction::Menu => self.menu = Some(key),
        }
    }

    /// Remove the binding for `action`; every other action keeps its
    /// binding.
    pub fn clear_action(&mut self, action: GameAction)
        ensures
            final(self).spec_binding(action) is None,
            forall|a: GameAction| a != action ==> final(self).spec_binding(a) == old(
                self,
            ).spec_binding(a),
    {
        match action {
            GameAction::Player1Up => self.player1_up = None,
            GameAction::Player1Down => self.player1_down = None,
            GameAction::Player2Up => self.player2_up = None,
            GameAction::Player2Down => self.player2_down = None,
            GameAction::Menu => self.menu = None,
        }
    }
}

impl Default for ControlMap {
    /// A fresh map carries the stock bindings.
    fn default() -> (m: ControlMap)
        ensures
            m.spec_binding(GameAction::Player1Up) == Some(KEY_ARROW_UP),
            m.spec_binding(GameAction::Player1Down) == Some(KEY_ARROW_DOWN),
            m.spec_binding(GameAction::Player2Up) == Some(KEY_W),
            m.spec_binding(GameAction::Player2Down) == Some(KEY_S),
            m.spec_binding(GameAction::Menu) == Some(KEY_ESCAPE),
    {
        ControlMap::default_input_map()
    }
}

/// The remap listener: while it is listening, the next key press rebinds
/// `current_action` instead of driving the game.
#[derive(Clone, Copy, Debug, PartialEq, Eq, Structural)]
pub struct ControlRemapping {
    current_action: Option<GameAction>,
    is_listening: bool,
}

impl ControlRemapping {
    pub closed spec fn spec_current_action(self) -> Option<GameAction> {
        self.current_action
    }

    pub closed spec fn spec_is_listening(self) -> bool {
        self.is_listening
    }

    /// Whether the next key press will be consumed as a remap.
    pub open spec fn spec_active(self) -> bool {
        self.spec_is_listening() && self.spec_current_action() is Some
    }

    /// Begin listening: the next key press will rebind `control`.
    pub fn start_remapping(control: GameAction) -> (r: ControlRemapping)
        ensures
            r.spec_current_action() == Some(control),
            r.spec_is_listening(),
    {
        ControlRemapping { current_action: Some(control), is_listening: true }
    }

    /// Stop listening and forget the chosen action.
    pub fn stop_remapping(&mut self)
        ensures
            final(self).spec_current_action() is None,
            !final(self).spec_is_listening(),
    {
        self.current_action = None;
        self.is_listening = false;
    }
}

impl Default for ControlRemapping {
    /// Initially no remap is in progress.
    fn default() -> (r: ControlRemapping)
        ensures
            r.spec_current_action() is None,
            !r.spec_is_listening(),
    {
        ControlRemapping { current_action: None, is_listening: false }
    }
}

/// Consume this frame's pressed keys while a remap is being listened for.
///
/// If the listener is active and at least one key is pressed, the chosen
/// action ends up bound to exactly the last pressed key (each pressed key
/// rebinds in turn and the last one wins), every other action keeps its
/// binding, and the listener goes inactive, so a later key press has no
/// effect on the map. With no key pressed the listener keeps waiting; with
/// the listener inactive nothing changes at all.
pub fn listen_for_keys(mapping: &mut ControlRemapping, key_map: &mut ControlMap, keys: &Vec<u32>)
    ensures
        ({
            &&& old(mapping).spec_active()
            &&& keys@.len() > 0
        }) ==> {
            &&& final(key_map).spec_binding(old(mapping).spec_current_action().unwrap()) == Some(
                keys@.last(),
            )
            &&& forall|a: GameAction|
                a != old(mapping).spec_current_action().unwrap() ==> final(key_map).spec_binding(a)
                    == old(key_map).spec_binding(a)
            &&& !final(mapping).spec_is_listening()
            &&& final(mapping).spec_current_action() is None
        },
        ({
            &&& old(mapping).spec_active()
            &&& keys@.len() == 0
        }) ==> *final(mapping) == *old(mapping) && *final(key_map) == *old(key_map),
        !old(mapping).spec_active() ==> *final(mapping) == *old(mapping) && *final(key_map) == *old(
            key_map,
        ),
{
    if mapping.is_listening && mapping.current_action.is_some() {
        if let Some(control) = mapping.current_action {
            let mut i: usize = 0;
            while i < keys.len()
                invariant
                    i <= keys.len(),
                    i == 0 ==> *key_map == *old(key_map) && *mapping == *old(mapping),
                    i > 0 ==> key_map.spec_binding(control) == Some(keys@[i - 1]),
                    i > 0 ==> forall|a: GameAction|
                        a != control ==> key_map.spec_binding(a) == old(key_map).spec_binding(a),
                    i > 0 ==> !mapping.spec_is_listening() && mapping.spec_current_action()
                        is None,
                decreases keys.len() - i,
            {
                let key = keys[i];
                key_map.clear_action(control);
                key_map.insert(control, key);
                mapping.stop_remapping();
                i = i + 1;
            }
        }
    }
}

} // verus!
