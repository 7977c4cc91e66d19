use vstd::prelude::*;

verus! {

/// Code of the Escape key.
pub const KEY_ESCAPE: u32 = 1;

/// Code of the W key.
pub const KEY_W: u32 = 2;

/// A physical key, identified by its code.
#[derive(Clone, Copy, Debug, PartialEq, Eq, Structural)]
pub struct KeyCode(pub u32);

/// A pointer button.
#[derive(Clone, Copy, Debug, PartialEq, Eq, Structural)]
pub enum MouseButton {
    Left,
    Right,
    Middle,
    Back,
    Forward,
    Other(u16),
}

/// Whether a key or button went down or up.
#[derive(Clone, Copy, Debug, PartialEq, Eq, Structural)]
pub enum ElementState {
    Pressed,
    Released,
}

/// The modifier keys held while an input event occurs.
#[derive(Clone, Copy, Debug, PartialEq, Eq, Structural)]
pub struct Modifiers {
    pub shift: bool,
    pub control: bool,
    pub alt: bool,
    pub logo: bool,
}

impl Modifiers {
    /// No modifier held.
    pub fn empty() -> (r: Modifiers)
        ensures
            r == Modifiers::none(),
    {
        Modifiers { shift: false, control: false, alt: false, logo: false }
    }

    pub open spec fn none() -> Modifiers {
        Modifiers { shift: false, control: false, alt: false, logo: false }
    }
}

/// What the application does in answer to an input.
#[derive(Clone, Copy, Debug, PartialEq, Eq, Structural)]
pub enum Action {
    CloseWindow,
    ButtonPress(MouseButton, ElementState),
    Keyboard(KeyCode, ElementState),
}

/// A static rule from a key or a button, with a modifier mask, to an action.
#[derive(Clone, Copy, Debug, PartialEq, Eq, Structural)]
pub struct Binding {
    pub key: Option<KeyCode>,
    pub button: Option<MouseButton>,
    pub modifiers: Modifiers,
    pub action: Action,
}

/// The binding applies to a press of `key` while exactly `modifiers` are held.
pub open spec fn key_matches(b: Binding, key: KeyCode, modifiers: Modifiers) -> bool {
    b.key == Some(key) && b.modifiers == modifiers
}

/// Index of the first binding of `s` that applies to the key event, if any.
pub open spec fn first_key_match(s: Seq<Binding>, key: KeyCode, modifiers: Modifiers) -> Option<int>
    decreases s.len(),
{
    if s.len() == 0 {
        None
    } else {
        match first_key_match(s.drop_last(), key, modifiers) {
            Some(i) => Some(i),
            None => if key_matches(s.last(), key, modifiers) {
                Some(s.len() - 1)
            } else {
                None
            },
        }
    }
}

/// The action of the first applicable binding, if any.
pub open spec fn resolve_key_spec(s: Seq<Binding>, key: KeyCode, modifiers: Modifiers) -> Option<Action> {
    match first_key_match(s, key, modifiers) {
        Some(i) => Some(s[i].action),
        None => None,
    }
}

/// The action a key event becomes: the first applicable binding's, or else a
/// plain keyboard action for the key.
pub open spec fn key_action_spec(
    s: Seq<Binding>,
    key: KeyCode,
    state: ElementState,
    modifiers: Modifiers,
) -> Action {
    match resolve_key_spec(s, key, modifiers) {
        Some(a) => a,
        None => Action::Keyboard(key, state),
    }
}

/// `first_key_match` finds the least index whose binding applies.
pub proof fn lemma_first_key_match(s: Seq<Binding>, key: KeyCode, modifiers: Modifiers)
    ensures
        match first_key_match(s, key, modifiers) {
            Some(i) => 0 <= i < s.len() && key_matches(s[i], key, modifiers) && forall|j: int|
                0 <= j < i ==> !key_matches(#[trigger] s[j], key, modifiers),
            None => forall|j: int| 0 <= j < s.len() ==> !key_matches(#[trigger] s[j], key, modifiers),
        },
    decreases s.len(),
{
    if s.len() > 0 {
        let t = s.drop_last();
        lemma_first_key_match(t, key, modifiers);
        assert(forall|j: int| 0 <= j < t.len() ==> t[j] == s[j]);
    }
}

/// Earlier bindings take priority: when the bindings at `i` and `k > i` both
/// apply to a key event, the one chosen stands at `i` or before, never at `k`.
pub proof fn lemma_earlier_binding_wins(
    s: Seq<Binding>,
    key: KeyCode,
    modifiers: Modifiers,
    i: int,
    k: int,
)
    requires
        0 <= i < k < s.len(),
        key_matches(s[i], key, modifiers),
        key_matches(s[k], key, modifiers),
    ensures
        first_key_match(s, key, modifiers) matches Some(j) && j <= i && j < k,
{
    lemma_first_key_match(s, key, modifiers);
}

/// The bindings every application starts with: left and right mouse buttons.
pub open spec fn default_bindings() -> Seq<Binding> {
    seq![
        Binding {
            key: None,
            button: Some(MouseButton::Left),
            modifiers: Modifiers::none(),
            action: Action::ButtonPress(MouseButton::Left, ElementState::Pressed),
        },
        Binding {
            key: None,
            button: Some(MouseButton::Right),
            modifiers: Modifiers::none(),
            action: Action::ButtonPress(MouseButton::Right, ElementState::Pressed),
        },
    ]
}

/// The binding that closes the window on Escape.
pub open spec fn escape_binding() -> Binding {
    Binding {
        key: Some(KeyCode(KEY_ESCAPE)),
        button: None,
        modifiers: Modifiers::none(),
        action: Action::CloseWindow,
    }
}

/// Returns the default bindings.
pub fn get_keybindings() -> (r: Vec<Binding>)
    ensures
        r@ == default_bindings(),
{
    let r = vec![
        Binding {
            key: None,
            button: Some(MouseButton::Left),
            modifiers: Modifiers::empty(),
            action: Action::ButtonPress(MouseButton::Left, ElementState::Pressed),
        },
        Binding {
            key: None,
            button: Some(MouseButton::Right),
            modifiers: Modifiers::empty(),
            action: Action::ButtonPress(MouseButton::Right, ElementState::Pressed),
        },
    ];
    assert(r@ =~= default_bindings());
    r
}

/// Scans `bindings` in order and returns the action of the first one bound to
/// `key` under exactly `modifiers`.
pub fn resolve_key(key: KeyCode, modifiers: Modifiers, bindings: &[Binding]) -> (r: Option<Action>)
    ensures
        r == resolve_key_spec(bindings@, key, modifiers),
{
    let mut i: usize = 0;
    while i < bindings.len()
        invariant
            0 <= i <= bindings@.len(),
            first_key_match(bindings@.subrange(0, i as int), key, modifiers) == None::<int>,
        decreases bindings@.len() - i,
    {
        let b = bindings[i];
        proof {
            assert(bindings@.subrange(0, i + 1).drop_last() =~= bindings@.subrange(0, i as int));
        }
        if b.key == Some(key) && b.modifiers == modifiers {
            proof {
                lemma_prefix_match(bindings@, key, modifiers, i as int);
            }
            return Some(b.action);
        }
        i = i + 1;
    }
    assert(bindings@.subrange(0, i as int) =~= bindings@);
    None
}

/// When no binding before `i` applies and the one at `i` does, it is the first.
proof fn lemma_prefix_match(s: Seq<Binding>, key: KeyCode, modifiers: Modifiers, i: int)
    requires
        0 <= i < s.len(),
        first_key_match(s.subrange(0, i), key, modifiers) == None::<int>,
        key_matches(s[i], key, modifiers),
    ensures
        first_key_match(s, key, modifiers) == Some(i),
    decreases s.len(),
{
    if i == s.len() - 1 {
        assert(s.drop_last() =~= s.subrange(0, i));
    } else {
        assert(s.drop_last().subrange(0, i) =~= s.subrange(0, i));
        lemma_prefix_match(s.drop_last(), key, modifiers, i);
    }
}

/// The action a key event becomes: the first binding bound to the key under
/// the current modifiers, or else a plain keyboard action for the key, so
/// that a registered handler can still pick it up.
pub fn make_key_action(
    key: KeyCode,
    state: ElementState,
    modifiers: Modifiers,
    bindings: &[Binding],
) -> (r: Action)
    ensures
        r == key_action_spec(bindings@, key, state, modifiers),
{
    match resolve_key(key, modifiers, bindings) {
        Some(a) => a,
        None => Action::Keyboard(key, state),
    }
}

/// A pointer event always becomes a button action, whatever the modifiers.
pub fn make_mouse_action(button: MouseButton, state: ElementState) -> (r: Action)
    ensures
        r == Action::ButtonPress(button, state),
{
    Action::ButtonPress(button, state)
}

} // verus!
