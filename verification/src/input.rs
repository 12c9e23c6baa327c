use vstd::prelude::*;

verus! {

/// All game actions that can be bound to input.
#[derive(Clone, Copy, PartialEq, Eq, Hash, Debug, Structural)]
pub enum GameAction {
    // Movement
    MoveUp,
    MoveDown,
    MoveLeft,
    MoveRight,
    Sprint,
    Dash,
    // Combat
    Attack,
    Block,
    ToggleWeapon,
    // Inventory
    ToggleInventory,
    Hotbar1,
    Hotbar2,
    Hotbar3,
    Hotbar4,
    Hotbar5,
    InventoryUse,
    InventoryPickup,
    // UI
    Pause,
}

/// Keyboard keys that game actions are bound to.
#[derive(Clone, Copy, PartialEq, Eq, Hash, Debug, Structural)]
pub enum BoundKey {
    KeyW,
    KeyS,
    KeyA,
    KeyD,
    KeyR,
    ShiftLeft,
    Space,
    Tab,
    Digit1,
    Digit2,
    Digit3,
    Digit4,
    Digit5,
    Escape,
}

/// Mouse buttons that game actions are bound to.
#[derive(Clone, Copy, PartialEq, Eq, Hash, Debug, Structural)]
pub enum BoundMouseButton {
    Left,
    Right,
}

/// Input binding - either keyboard or mouse.
#[derive(Clone, Copy, PartialEq, Eq, Debug, Structural)]
pub enum InputBinding {
    Key(BoundKey),
    Mouse(BoundMouseButton),
}

/// The default binding of every action.
pub open spec fn default_binding(action: GameAction) -> InputBinding {
    match action {
        GameAction::MoveUp => InputBinding::Key(BoundKey::KeyW),
        GameAction::MoveDown => InputBinding::Key(BoundKey::KeyS),
        GameAction::MoveLeft => InputBinding::Key(BoundKey::KeyA),
        GameAction::MoveRight => InputBinding::Key(BoundKey::KeyD),
        GameAction::Sprint => InputBinding::Key(BoundKey::ShiftLeft),
        GameAction::Dash => InputBinding::Key(BoundKey::Space),
        GameAction::Attack => InputBinding::Mouse(BoundMouseButton::Left),
        GameAction::Block => InputBinding::Mouse(BoundMouseButton::Right),
        GameAction::ToggleWeapon => InputBinding::Key(BoundKey::KeyR),
        GameAction::ToggleInventory => InputBinding::Key(BoundKey::Tab),
        GameAction::Hotbar1 => InputBinding::Key(BoundKey::Digit1),
        GameAction::Hotbar2 => InputBinding::Key(BoundKey::Digit2),
        GameAction::Hotbar3 => InputBinding::Key(BoundKey::Digit3),
        GameAction::Hotbar4 => InputBinding::Key(BoundKey::Digit4),
        GameAction::Hotbar5 => InputBinding::Key(BoundKey::Digit5),
        GameAction::InventoryUse => InputBinding::Mouse(BoundMouseButton::Right),
        GameAction::InventoryPickup => InputBinding::Mouse(BoundMouseButton::Left),
        GameAction::Pause => InputBinding::Key(BoundKey::Escape),
    }
}

/// Central table of input bindings: each entry binds one action.
pub struct InputBindings {
    bindings: Vec<(GameAction, InputBinding)>,
}

impl InputBindings {
    /// The bindings as a map from action to binding (the first entry for an action wins).
    pub closed spec fn binding_map(&self) -> Map<GameAction, InputBinding> {
        Map::new(
            |a: GameAction| exists|i: int| 0 <= i < self.bindings@.len() && #[trigger] self.bindings@[i].0 == a,
            |a: GameAction|
                self.bindings@[choose|i: int|
                    0 <= i < self.bindings@.len() && self.bindings@[i].0 == a && forall|j: int|
                        0 <= j < i ==> #[trigger] self.bindings@[j].0 != a].1,
        )
    }

    /// The binding of `action`, if it has one.
    pub fn get(&self, action: GameAction) -> (r: Option<InputBinding>)
        ensures
            r is Some <==> self.binding_map().contains_key(action),
            r matches Some(b) ==> b == self.binding_map()[action],
    {
        let mut i: usize = 0;
        while i < self.bindings.len()
            invariant
                0 <= i <= self.bindings@.len(),
                forall|j: int| 0 <= j < i ==> #[trigger] self.bindings@[j].0 != action,
            decreases self.bindings@.len() - i,
        {
            let (a, b) = self.bindings[i];
            if a == action {
                proof {
                    let k = i as int;
                    let c = choose|c: int|
                        0 <= c < self.bindings@.len() && self.bindings@[c].0 == action && forall|j: int|
                            0 <= j < c ==> #[trigger] self.bindings@[j].0 != action;
                    assert(0 <= k < self.bindings@.len() && self.bindings@[k].0 == action && forall|j: int|
                        0 <= j < k ==> #[trigger] self.bindings@[j].0 != action);
                    assert(c == k) by {
                        if c < k {
                            assert(self.bindings@[c].0 != action);
                        } else if c > k {
                            assert(self.bindings@[k].0 != action);
                        }
                    }
                    assert(self.binding_map().contains_key(action));
                }
                return Some(b);
            }
            i += 1;
        }
        None
    }
}

impl Default for InputBindings {
    fn default() -> (r: Self)
        ensures
            forall|a: GameAction| #[trigger] r.binding_map().contains_key(a),
            forall|a: GameAction| #[trigger] r.binding_map()[a] == default_binding(a),
    {
        let mut bindings: Vec<(GameAction, InputBinding)> = Vec::new();
        // Movement
        bindings.push((GameAction::MoveUp, InputBinding::Key(BoundKey::KeyW)));
        bindings.push((GameAction::MoveDown, InputBinding::Key(BoundKey::KeyS)));
        bindings.push((GameAction::MoveLeft, InputBinding::Key(BoundKey::KeyA)));
        bindings.push((GameAction::MoveRight, InputBinding::Key(BoundKey::KeyD)));
        bindings.push((GameAction::Sprint, InputBinding::Key(BoundKey::ShiftLeft)));
        bindings.push((GameAction::Dash, InputBinding::Key(BoundKey::Space)));
        // Combat
        bindings.push((GameAction::Attack, InputBinding::Mouse(BoundMouseButton::Left)));
        bindings.push((GameAction::Block, InputBinding::Mouse(BoundMouseButton::Right)));
        bindings.push((GameAction::ToggleWeapon, InputBinding::Key(BoundKey::KeyR)));
        // Inventory
        bindings.push((GameAction::ToggleInventory, InputBinding::Key(BoundKey::Tab)));
        bindings.push((GameAction::Hotbar1, InputBinding::Key(BoundKey::Digit1)));
        bindings.push((GameAction::Hotbar2, InputBinding::Key(BoundKey::Digit2)));
        bindings.push((GameAction::Hotbar3, InputBinding::Key(BoundKey::Digit3)));
        bindings.push((GameAction::Hotbar4, InputBinding::Key(BoundKey::Digit4)));
        bindings.push((GameAction::Hotbar5, InputBinding::Key(BoundKey::Digit5)));
        bindings.push((GameAction::InventoryUse, InputBinding::Mouse(BoundMouseButton::Right)));
        bindings.push((GameAction::InventoryPickup, InputBinding::Mouse(BoundMouseButton::Left)));
        // UI
        bindings.push((GameAction::Pause, InputBinding::Key(BoundKey::Escape)));
        let r = InputBindings { bindings };
        proof {
            assert forall|a: GameAction| #[trigger] r.binding_map().contains_key(a)
                && r.binding_map()[a] == default_binding(a) by {
                let k: int = match a {
                    GameAction::MoveUp => 0,
                    GameAction::MoveDown => 1,
                    GameAction::MoveLeft => 2,
                    GameAction::MoveRight => 3,
                    GameAction::Sprint => 4,
                    GameAction::Dash => 5,
                    GameAction::Attack => 6,
                    GameAction::Block => 7,
                    GameAction::ToggleWeapon => 8,
                    GameAction::ToggleInventory => 9,
                    GameAction::Hotbar1 => 10,
                    GameAction::Hotbar2 => 11,
                    GameAction::Hotbar3 => 12,
                    GameAction::Hotbar4 => 13,
                    GameAction::Hotbar5 => 14,
                    GameAction::InventoryUse => 15,
                    GameAction::InventoryPickup => 16,
                    GameAction::Pause => 17,
                };
                assert(r.bindings@[k].0 == a);
                let c = choose|c: int|
                    0 <= c < r.bindings@.len() && r.bindings@[c].0 == a && forall|j: int|
                        0 <= j < c ==> #[trigger] r.bindings@[j].0 != a;
                assert(0 <= k < r.bindings@.len() && r.bindings@[k].0 == a && forall|j: int|
                    0 <= j < k ==> #[trigger] r.bindings@[j].0 != a);
                assert(c == k) by {
                    if c < k {
                        assert(r.bindings@[c].0 != a);
                    } else if c > k {
                        assert(r.bindings@[k].0 != a);
                    }
                }
            }
            assert forall|a: GameAction| #[trigger] r.binding_map()[a] == default_binding(a) by {
                assert(r.binding_map().contains_key(a));
            }
        }
        r
    }
}

/// The hotbar action of each hotbar slot, in slot order.
pub open spec fn hotbar_action_spec(slot: int) -> GameAction {
    if slot == 0 {
        GameAction::Hotbar1
    } else if slot == 1 {
        GameAction::Hotbar2
    } else if slot == 2 {
        GameAction::Hotbar3
    } else if slot == 3 {
        GameAction::Hotbar4
    } else {
        GameAction::Hotbar5
    }
}

/// The action whose key uses hotbar slot `slot`.
pub fn hotbar_action(slot: usize) -> (r: GameAction)
    requires
        slot < 5,
    ensures
        r == hotbar_action_spec(slot as int),
        hotbar_number(r) == Some(slot + 1),
{
    if slot == 0 {
        GameAction::Hotbar1
    } else if slot == 1 {
        GameAction::Hotbar2
    } else if slot == 2 {
        GameAction::Hotbar3
    } else if slot == 3 {
        GameAction::Hotbar4
    } else {
        GameAction::Hotbar5
    }
}

/// The number printed on a digit key.
pub open spec fn digit_value(key: BoundKey) -> Option<int> {
    match key {
        BoundKey::Digit1 => Some(1),
        BoundKey::Digit2 => Some(2),
        BoundKey::Digit3 => Some(3),
        BoundKey::Digit4 => Some(4),
        BoundKey::Digit5 => Some(5),
        _ => None,
    }
}

/// The number of a hotbar action, counting from 1 (`None` for other actions).
pub open spec fn hotbar_number(action: GameAction) -> Option<int> {
    match action {
        GameAction::Hotbar1 => Some(1),
        GameAction::Hotbar2 => Some(2),
        GameAction::Hotbar3 => Some(3),
        GameAction::Hotbar4 => Some(4),
        GameAction::Hotbar5 => Some(5),
        _ => None,
    }
}

/// Column and row of a letter key on a QWERTY keyboard, relative to the A key
/// (rows counted downward).
pub open spec fn key_position(key: BoundKey) -> Option<(int, int)> {
    match key {
        BoundKey::KeyW => Some((1, 0)),
        BoundKey::KeyA => Some((0, 1)),
        BoundKey::KeyS => Some((1, 1)),
        BoundKey::KeyD => Some((2, 1)),
        _ => None,
    }
}

/// The on-screen direction of a movement action, as a (horizontal, vertical) step with
/// the vertical axis pointing down (`None` for other actions).
pub open spec fn move_direction(action: GameAction) -> Option<(int, int)> {
    match action {
        GameAction::MoveUp => Some((0, -1)),
        GameAction::MoveDown => Some((0, 1)),
        GameAction::MoveLeft => Some((-1, 0)),
        GameAction::MoveRight => Some((1, 0)),
        _ => None,
    }
}

/// Movement keys follow the keyboard layout: every movement action is bound to a letter
/// key, an action moving further left is bound to a key further left, an action moving
/// further up is bound to a key in the same row or above, and no two movement actions
/// share a key.
pub proof fn lemma_movement_keys_follow_layout(a: GameAction, b: GameAction)
    requires
        move_direction(a) is Some,
        move_direction(b) is Some,
    ensures
        default_binding(a) is Key,
        key_position(default_binding(a)->Key_0) is Some,
        ({
            let pa = key_position(default_binding(a)->Key_0)->0;
            let pb = key_position(default_binding(b)->Key_0)->0;
            let da = move_direction(a)->0;
            let db = move_direction(b)->0;
            &&& da.0 < db.0 ==> pa.0 < pb.0
            &&& da.1 < db.1 ==> pa.1 <= pb.1
            &&& a != b ==> default_binding(a) != default_binding(b)
        }),
{
}

/// Each hotbar action is bound to the digit key of its own number: key 1 uses the first
/// hotbar action, key 2 the second, and so on.
pub proof fn lemma_hotbar_keys_match_numbers(action: GameAction)
    requires
        hotbar_number(action) is Some,
    ensures
        default_binding(action) is Key,
        digit_value(default_binding(action)->Key_0) == hotbar_number(action),
{
}

/// Hotbar slot `i` (counting from 0) is used by the hotbar action numbered `i + 1`, so
/// the slots follow the hotbar actions in order.
pub proof fn lemma_hotbar_action_of_slot(slot: int)
    requires
        0 <= slot < 5,
    ensures
        hotbar_number(hotbar_action_spec(slot)) == Some(slot + 1),
{
}

} // verus!
