use vstd::prelude::*;

verus! {

/// A semantic game action; the input layer maps raw keys and buttons to
/// these.
#[derive(Debug, Clone, Copy, PartialEq, Eq, Hash, Structural)]
pub enum Action {
    // movement
    MoveUp,
    MoveDown,
    MoveLeft,
    MoveRight,
    Sprint,
    // interaction
    Interact,
    Inventory,
    Pause,
    // combat
    BasicAttack,
    // UI
    UIClick,
    UIRightClick,
    // misc
    Debug,
}

/// How a bound key or button must be pressed for its binding to fire.
///
/// `Press` fires every tick while the button is held down; `Release` fires
/// once, on the tick the button is released.
#[derive(Debug, Clone, Copy, PartialEq, Eq, Hash, Structural)]
pub enum ExpectedPressType {
    Press,
    Release,
}

/// A raw input source: a key or a mouse button, identified by its code.
#[derive(Debug, Clone, Copy, PartialEq, Eq, Hash, Structural)]
pub enum BindingType {
    Key(u16),
    Mouse(u16),
}

impl BindingType {
    /// The raw code, with the key/mouse distinction dropped.
    pub fn code(self) -> (r: u16)
        ensures
            r == self.spec_code(),
    {
        match self {
            BindingType::Key(k) => k,
            BindingType::Mouse(m) => m,
        }
    }

    pub open spec fn spec_code(self) -> u16 {
        match self {
            BindingType::Key(k) => k,
            BindingType::Mouse(m) => m,
        }
    }
}

// Key codes as reported by the windowing layer (X11 keysym values).
pub const KEY_W: u16 = 0x0057;
pub const KEY_A: u16 = 0x0041;
pub const KEY_S: u16 = 0x0053;
pub const KEY_D: u16 = 0x0044;
pub const KEY_LEFT_SHIFT: u16 = 0xffe1;
pub const KEY_TAB: u16 = 0xff09;
pub const KEY_ESCAPE: u16 = 0xff1b;
pub const KEY_GRAVE_ACCENT: u16 = 0x0060;

// Mouse button codes.
pub const MOUSE_LEFT: u16 = 0;
pub const MOUSE_MIDDLE: u16 = 1;
pub const MOUSE_RIGHT: u16 = 2;

/// A chord of raw inputs; the binding is active only when every entry is
/// satisfied (an empty chord is trivially active).
#[derive(Debug)]
pub struct Binding {
    pub binding: Vec<(BindingType, ExpectedPressType)>,
}

impl View for Binding {
    type V = Seq<(BindingType, ExpectedPressType)>;

    open spec fn view(&self) -> Seq<(BindingType, ExpectedPressType)> {
        self.binding@
    }
}

impl Binding {
    pub fn new(binding: Vec<(BindingType, ExpectedPressType)>) -> (r: Self)
        ensures
            r@ == binding@,
    {
        Self { binding }
    }
}

impl Clone for Binding {
    fn clone(&self) -> (r: Self)
        ensures
            r@ == self@,
    {
        let mut v: Vec<(BindingType, ExpectedPressType)> = Vec::new();
        let mut i: usize = 0;
        while i < self.binding.len()
            invariant
                0 <= i <= self.binding@.len(),
                v@ == self.binding@.take(i as int),
            decreases self.binding@.len() - i,
        {
            v.push(self.binding[i]);
            proof {
                assert(v@ =~= self.binding@.take(i + 1));
            }
            i += 1;
        }
        proof {
            assert(self.binding@.take(self.binding@.len() as int) =~= self.binding@);
        }
        Binding { binding: v }
    }
}

/// One tick's worth of raw input state, as observed by the platform layer:
/// the codes of the keys and mouse buttons that are currently held down, and
/// of those that were released this tick.
#[derive(Debug)]
pub struct InputSnapshot {
    pub keys_down: Vec<u16>,
    pub keys_released: Vec<u16>,
    pub mouse_down: Vec<u16>,
    pub mouse_released: Vec<u16>,
}

/// Whether the bound key or button is currently held down in `input`.
pub open spec fn bind_pressed(input: &InputSnapshot, b: BindingType) -> bool {
    match b {
        BindingType::Key(k) => input.keys_down@.contains(k),
        BindingType::Mouse(m) => input.mouse_down@.contains(m),
    }
}

/// Whether the bound key or button was released this tick in `input`.
pub open spec fn bind_released(input: &InputSnapshot, b: BindingType) -> bool {
    match b {
        BindingType::Key(k) => input.keys_released@.contains(k),
        BindingType::Mouse(m) => input.mouse_released@.contains(m),
    }
}

/// Whether one chord entry is satisfied by `input`.
pub open spec fn pair_active(input: &InputSnapshot, p: (BindingType, ExpectedPressType)) -> bool {
    match p.1 {
        ExpectedPressType::Press => bind_pressed(input, p.0),
        ExpectedPressType::Release => bind_released(input, p.0),
    }
}

/// Whether a whole chord is satisfied by `input`.
pub open spec fn binding_active(
    input: &InputSnapshot,
    pairs: Seq<(BindingType, ExpectedPressType)>,
) -> bool {
    forall|i: int| 0 <= i < pairs.len() ==> pair_active(input, #[trigger] pairs[i])
}

/// The binding mapped to `a`: the first entry for `a`, if any.
pub open spec fn spec_lookup(s: Seq<(Action, Binding)>, a: Action) -> Option<Binding>
    decreases s.len(),
{
    if s.len() == 0 {
        None
    } else if s[0].0 == a {
        Some(s[0].1)
    } else {
        spec_lookup(s.drop_first(), a)
    }
}

/// The mapping after rebinding `a` to `b`: the first entry for `a` is
/// replaced, or a new entry is appended when none exists.
pub open spec fn spec_set_binding(s: Seq<(Action, Binding)>, a: Action, b: Binding) -> Seq<
    (Action, Binding),
>
    decreases s.len(),
{
    if s.len() == 0 {
        seq![(a, b)]
    } else if s[0].0 == a {
        seq![(a, b)] + s.drop_first()
    } else {
        seq![s[0]] + spec_set_binding(s.drop_first(), a, b)
    }
}

/// Rebinding one action leaves every other action's binding as it was, and
/// maps the rebound action to the new binding.
pub proof fn lemma_lookup_set(s: Seq<(Action, Binding)>, a: Action, b: Binding, x: Action)
    ensures
        spec_lookup(spec_set_binding(s, a, b), x) == if x == a {
            Some(b)
        } else {
            spec_lookup(s, x)
        },
    decreases s.len(),
{
    if s.len() == 0 {
        assert(spec_set_binding(s, a, b) == seq![(a, b)]);
        assert(spec_set_binding(s, a, b).drop_first() =~= Seq::<(Action, Binding)>::empty());
    } else if s[0].0 == a {
        let t = spec_set_binding(s, a, b);
        assert(t == seq![(a, b)] + s.drop_first());
        assert(t[0] == (a, b));
        assert(t.drop_first() =~= s.drop_first());
    } else {
        let t = spec_set_binding(s, a, b);
        assert(t == seq![s[0]] + spec_set_binding(s.drop_first(), a, b));
        assert(t[0] == s[0]);
        assert(t.drop_first() =~= spec_set_binding(s.drop_first(), a, b));
        lemma_lookup_set(s.drop_first(), a, b, x);
    }
}

/// The actions whose chords are all satisfied by `input`, in mapping order.
pub open spec fn spec_active_actions(s: Seq<(Action, Binding)>, input: &InputSnapshot) -> Seq<
    Action,
>
    decreases s.len(),
{
    if s.len() == 0 {
        Seq::empty()
    } else {
        let rest = spec_active_actions(s.drop_first(), input);
        if binding_active(input, s[0].1@) {
            seq![s[0].0] + rest
        } else {
            rest
        }
    }
}

fn contains_code(v: &Vec<u16>, code: u16) -> (r: bool)
    ensures
        r == v@.contains(code),
{
    let mut i: usize = 0;
    while i < v.len()
        invariant
            0 <= i <= v@.len(),
            forall|j: int| 0 <= j < i ==> v@[j] != code,
        decreases v@.len() - i,
    {
        if v[i] == code {
            proof {
                assert(v@[i as int] == code);
            }
            return true;
        }
        i += 1;
    }
    proof {
        assert(!v@.contains(code)) by {
            if v@.contains(code) {
                let j = choose|j: int| 0 <= j < v@.len() && v@[j] == code;
                assert(v@[j] != code);
            }
        }
    }
    false
}

fn pair_active_exec(input: &InputSnapshot, p: (BindingType, ExpectedPressType)) -> (r: bool)
    ensures
        r == pair_active(input, p),
{
    match p.1 {
        ExpectedPressType::Press => match p.0 {
            BindingType::Key(k) => contains_code(&input.keys_down, k),
            BindingType::Mouse(m) => contains_code(&input.mouse_down, m),
        },
        ExpectedPressType::Release => match p.0 {
            BindingType::Key(k) => contains_code(&input.keys_released, k),
            BindingType::Mouse(m) => contains_code(&input.mouse_released, m),
        },
    }
}

fn binding_active_exec(input: &InputSnapshot, b: &Binding) -> (r: bool)
    ensures
        r == binding_active(input, b@),
{
    let mut i: usize = 0;
    while i < b.binding.len()
        invariant
            0 <= i <= b@.len(),
            forall|j: int| 0 <= j < i ==> pair_active(input, #[trigger] b@[j]),
        decreases b@.len() - i,
    {
        if !pair_active_exec(input, b.binding[i]) {
            return false;
        }
        i += 1;
    }
    true
}

/// The mapping from semantic actions to raw input chords, and the sprint
/// mode flag (toggle sprint vs. hold to sprint).
#[derive(Debug)]
pub struct ControlHandler {
    pub toggle_sprint: bool,
    pub bindings: Vec<(Action, Binding)>,
}

/// The action and chord that `default` installs at position `i`.
pub open spec fn spec_default_entry(i: int) -> (Action, Seq<(BindingType, ExpectedPressType)>) {
    if i == 0 {
        (Action::MoveUp, seq![(BindingType::Key(KEY_W), ExpectedPressType::Press)])
    } else if i == 1 {
        (Action::MoveDown, seq![(BindingType::Key(KEY_S), ExpectedPressType::Press)])
    } else if i == 2 {
        (Action::MoveLeft, seq![(BindingType::Key(KEY_A), ExpectedPressType::Press)])
    } else if i == 3 {
        (Action::MoveRight, seq![(BindingType::Key(KEY_D), ExpectedPressType::Press)])
    } else if i == 4 {
        (Action::Sprint, seq![(BindingType::Key(KEY_LEFT_SHIFT), ExpectedPressType::Press)])
    } else if i == 5 {
        (Action::Interact, seq![(BindingType::Mouse(MOUSE_RIGHT), ExpectedPressType::Release)])
    } else if i == 6 {
        (Action::Inventory, seq![(BindingType::Key(KEY_TAB), ExpectedPressType::Release)])
    } else if i == 7 {
        (Action::Pause, seq![(BindingType::Key(KEY_ESCAPE), ExpectedPressType::Release)])
    } else if i == 8 {
        (Action::UIClick, seq![(BindingType::Mouse(MOUSE_LEFT), ExpectedPressType::Release)])
    } else if i == 9 {
        (
            Action::UIRightClick,
            seq![(BindingType::Mouse(MOUSE_RIGHT), ExpectedPressType::Release)],
        )
    } else if i == 10 {
        (Action::BasicAttack, seq![(BindingType::Mouse(MOUSE_LEFT), ExpectedPressType::Press)])
    } else {
        (Action::Debug, seq![(BindingType::Key(KEY_GRAVE_ACCENT), ExpectedPressType::Release)])
    }
}

impl ControlHandler {
    /// The handler is usable by the sprint-mode switch: sprinting is bound,
    /// with at least one entry in its chord.
    pub open spec fn wf(&self) -> bool {
        &&& spec_lookup(self.bindings@, Action::Sprint) is Some
        &&& spec_lookup(self.bindings@, Action::Sprint).unwrap()@.len() > 0
    }

    /// The actions whose chords are satisfied by `input`, in mapping order.
    pub fn get_actions(&self, input: &InputSnapshot) -> (r: Vec<Action>)
        ensures
            r@ == spec_active_actions(self.bindings@, input),
    {
        let mut active: Vec<Action> = Vec::new();
        let mut i: usize = 0;
        proof {
            assert(self.bindings@.skip(0) =~= self.bindings@);
            assert(active@ + spec_active_actions(self.bindings@, input) =~= spec_active_actions(
                self.bindings@,
                input,
            ));
        }
        while i < self.bindings.len()
            invariant
                0 <= i <= self.bindings@.len(),
                spec_active_actions(self.bindings@, input) == active@ + spec_active_actions(
                    self.bindings@.skip(i as int),
                    input,
                ),
            decreases self.bindings@.len() - i,
        {
            let ghost pre = active@;
            let ghost rest = self.bindings@.skip(i as int);
            if binding_active_exec(input, &self.bindings[i].1) {
                active.push(self.bindings[i].0);
            }
            proof {
                assert(rest[0] == self.bindings@[i as int]);
                assert(rest.drop_first() =~= self.bindings@.skip(i + 1));
                if binding_active(input, rest[0].1@) {
                    assert(active@ =~= pre + seq![rest[0].0]);
                    assert(pre + (seq![rest[0].0] + spec_active_actions(rest.drop_first(), input))
                        =~= (pre + seq![rest[0].0]) + spec_active_actions(rest.drop_first(), input));
                }
            }
            i += 1;
        }
        proof {
            assert(self.bindings@.skip(self.bindings@.len() as int) =~= Seq::<(
                Action,
                Binding,
            )>::empty());
            assert(active@ + Seq::<Action>::empty() =~= active@);
        }
        active
    }

    /// Whether the chord bound to `action` is satisfied by `input`.
    pub fn is_action_active(&self, action: &Action, input: &InputSnapshot) -> (r: bool)
        requires
            spec_lookup(self.bindings@, *action) is Some,
        ensures
            r == binding_active(input, spec_lookup(self.bindings@, *action).unwrap()@),
    {
        let mut i: usize = 0;
        proof {
            assert(self.bindings@.skip(0) =~= self.bindings@);
        }
        while i < self.bindings.len()
            invariant
                0 <= i <= self.bindings@.len(),
                spec_lookup(self.bindings@, *action) is Some,
                spec_lookup(self.bindings@.skip(i as int), *action) == spec_lookup(
                    self.bindings@,
                    *action,
                ),
            decreases self.bindings@.len() - i,
        {
            proof {
                let ghost rest = self.bindings@.skip(i as int);
                assert(rest[0] == self.bindings@[i as int]);
                assert(rest.drop_first() =~= self.bindings@.skip(i + 1));
            }
            if self.bindings[i].0 == *action {
                return binding_active_exec(input, &self.bindings[i].1);
            }
            i += 1;
        }
        proof {
            assert(self.bindings@.skip(self.bindings@.len() as int) =~= Seq::<(
                Action,
                Binding,
            )>::empty());
            assert(false);
        }
        false
    }

    /// Rebinds `action` to `new_key` (replacing its previous binding, or
    /// adding one if the action was unbound). Persisting the change is the
    /// caller's concern.
    pub fn edit_keybind(&mut self, action: Action, new_key: Binding)
        ensures
            final(self).toggle_sprint == old(self).toggle_sprint,
            final(self).bindings@ == spec_set_binding(old(self).bindings@, action, new_key),
    {
        let ghost orig = self.bindings@;
        let mut i: usize = 0;
        while i < self.bindings.len()
            invariant
                0 <= i <= self.bindings@.len(),
                orig == old(self).bindings@,
                self.bindings@ == orig,
                self.toggle_sprint == old(self).toggle_sprint,
                forall|j: int| 0 <= j < i ==> orig[j].0 != action,
            decreases self.bindings@.len() - i,
        {
            if self.bindings[i].0 == action {
                self.bindings[i] = (action, new_key);
                proof {
                    lemma_set_binding_found(orig, action, new_key, i as int);
                }
                return ;
            }
            i += 1;
        }
        self.bindings.push((action, new_key));
        proof {
            lemma_set_binding_absent(orig, action, new_key);
        }
    }

    /// The binding for `action`, if one exists.
    pub fn get_binding(&self, action: &Action) -> (r: Option<Binding>)
        ensures
            match spec_lookup(self.bindings@, *action) {
                Some(b) => r is Some && r.unwrap()@ == b@,
                None => r is None,
            },
    {
        let mut i: usize = 0;
        proof {
            assert(self.bindings@.skip(0) =~= self.bindings@);
        }
        while i < self.bindings.len()
            invariant
                0 <= i <= self.bindings@.len(),
                spec_lookup(self.bindings@.skip(i as int), *action) == spec_lookup(
                    self.bindings@,
                    *action,
                ),
            decreases self.bindings@.len() - i,
        {
            proof {
                let ghost rest = self.bindings@.skip(i as int);
                assert(rest[0] == self.bindings@[i as int]);
                assert(rest.drop_first() =~= self.bindings@.skip(i + 1));
            }
            if self.bindings[i].0 == *action {
                return Some(self.bindings[i].1.clone());
            }
            i += 1;
        }
        proof {
            assert(self.bindings@.skip(self.bindings@.len() as int) =~= Seq::<(
                Action,
                Binding,
            )>::empty());
        }
        None
    }

    /// Whether sprinting is in toggle mode (press once to start, once to
    /// stop) rather than hold mode.
    pub fn is_sprint_toggle(&self) -> (r: bool)
        ensures
            r == self.toggle_sprint,
    {
        self.toggle_sprint
    }

    /// Switches the sprint binding between toggle mode (fires on release)
    /// and hold mode (fires while pressed), reusing the raw input the sprint
    /// action was already bound to.
    pub fn set_sprint_toggle(&mut self, toggle: bool)
        requires
            old(self).wf(),
        ensures
            final(self).toggle_sprint == toggle,
            final(self).wf(),
            spec_lookup(final(self).bindings@, Action::Sprint).unwrap()@ == seq![
                (
                    spec_lookup(old(self).bindings@, Action::Sprint).unwrap()@[0].0,
                    if toggle {
                        ExpectedPressType::Release
                    } else {
                        ExpectedPressType::Press
                    },
                ),
            ],
            forall|x: Action| x != Action::Sprint ==> spec_lookup(final(self).bindings@, x)
                == spec_lookup(old(self).bindings@, x),
    {
        let ghost orig = self.bindings@;
        let current = self.get_binding(&Action::Sprint);
        let current_bind = match current {
            Some(b) => b,
            None => {
                proof {
                    assert(false);
                }
                Binding::new(Vec::new())
            },
        };
        let first = current_bind.binding[0].0;
        let ept = if toggle {
            ExpectedPressType::Release
        } else {
            ExpectedPressType::Press
        };
        let new_sprint_bind = Binding::new(vec![(first, ept)]);
        let ghost nb = new_sprint_bind;
        self.edit_keybind(Action::Sprint, new_sprint_bind);
        self.toggle_sprint = toggle;
        proof {
            lemma_lookup_set(orig, Action::Sprint, nb, Action::Sprint);
            assert forall|x: Action| x != Action::Sprint implies spec_lookup(
                self.bindings@,
                x,
            ) == spec_lookup(orig, x) by {
                lemma_lookup_set(orig, Action::Sprint, nb, x);
            }
        }
    }
}

impl Default for ControlHandler {
    /// The default control mapping: WASD movement, shift to sprint (hold
    /// mode), right mouse to interact, tab for the inventory, escape to
    /// pause, left mouse for UI clicks and attacks, grave accent for debug.
    fn default() -> (r: Self)
        ensures
            r.toggle_sprint == false,
            r.bindings@.len() == 12,
            forall|i: int|
                0 <= i < 12 ==> (#[trigger] r.bindings@[i]).0 == spec_default_entry(i).0
                    && r.bindings@[i].1@ == spec_default_entry(i).1,
            r.wf(),
    {
        let mut bindings: Vec<(Action, Binding)> = Vec::new();
        bindings.push(
            (Action::MoveUp, Binding::new(vec![(BindingType::Key(KEY_W), ExpectedPressType::Press)])),
        );
        bindings.push(
            (
                Action::MoveDown,
                Binding::new(vec![(BindingType::Key(KEY_S), ExpectedPressType::Press)]),
            ),
        );
        bindings.push(
            (
                Action::MoveLeft,
                Binding::new(vec![(BindingType::Key(KEY_A), ExpectedPressType::Press)]),
            ),
        );
        bindings.push(
            (
                Action::MoveRight,
                Binding::new(vec![(BindingType::Key(KEY_D), ExpectedPressType::Press)]),
            ),
        );
        bindings.push(
            (
                Action::Sprint,
                Binding::new(vec![(BindingType::Key(KEY_LEFT_SHIFT), ExpectedPressType::Press)]),
            ),
        );
        bindings.push(
            (
                Action::Interact,
                Binding::new(vec![(BindingType::Mouse(MOUSE_RIGHT), ExpectedPressType::Release)]),
            ),
        );
        bindings.push(
            (
                Action::Inventory,
                Binding::new(vec![(BindingType::Key(KEY_TAB), ExpectedPressType::Release)]),
            ),
        );
        bindings.push(
            (
                Action::Pause,
                Binding::new(vec![(BindingType::Key(KEY_ESCAPE), ExpectedPressType::Release)]),
            ),
        );
        bindings.push(
            (
                Action::UIClick,
                Binding::new(vec![(BindingType::Mouse(MOUSE_LEFT), ExpectedPressType::Release)]),
            ),
        );
        bindings.push(
            (
                Action::UIRightClick,
                Binding::new(vec![(BindingType::Mouse(MOUSE_RIGHT), ExpectedPressType::Release)]),
            ),
        );
        bindings.push(
            (
                Action::BasicAttack,
                Binding::new(vec![(BindingType::Mouse(MOUSE_LEFT), ExpectedPressType::Press)]),
            ),
        );
        bindings.push(
            (
                Action::Debug,
                Binding::new(
                    vec![(BindingType::Key(KEY_GRAVE_ACCENT), ExpectedPressType::Release)],
                ),
            ),
        );
        let r = ControlHandler { toggle_sprint: false, bindings };
        proof {
            assert forall|i: int| 0 <= i < 12 implies (#[trigger] r.bindings@[i]).0
                == spec_default_entry(i).0 && r.bindings@[i].1@ == spec_default_entry(i).1 by {
                assert(r.bindings@[i].1@ =~= spec_default_entry(i).1);
            }
            assert(r.wf()) by {
                reveal_with_fuel(spec_lookup, 6);
                assert(r.bindings@.drop_first()[3] == r.bindings@[4]);
                assert(r.bindings@.drop_first().drop_first()[2] == r.bindings@[4]);
                assert(r.bindings@.drop_first().drop_first().drop_first()[1] == r.bindings@[4]);
                assert(r.bindings@.drop_first().drop_first().drop_first().drop_first()[0]
                    == r.bindings@[4]);
            }
        }
        r
    }
}

proof fn lemma_set_binding_found(s: Seq<(Action, Binding)>, a: Action, b: Binding, i: int)
    requires
        0 <= i < s.len(),
        s[i].0 == a,
        forall|j: int| 0 <= j < i ==> s[j].0 != a,
    ensures
        spec_set_binding(s, a, b) =~= s.update(i, (a, b)),
    decreases i,
{
    if i == 0 {
        assert(spec_set_binding(s, a, b) == seq![(a, b)] + s.drop_first());
    } else {
        assert(s.drop_first()[i - 1].0 == a);
        lemma_set_binding_found(s.drop_first(), a, b, i - 1);
        assert(spec_set_binding(s, a, b) == seq![s[0]] + spec_set_binding(s.drop_first(), a, b));
    }
}

proof fn lemma_set_binding_absent(s: Seq<(Action, Binding)>, a: Action, b: Binding)
    requires
        forall|j: int| 0 <= j < s.len() ==> s[j].0 != a,
    ensures
        spec_set_binding(s, a, b) =~= s.push((a, b)),
    decreases s.len(),
{
    if s.len() == 0 {
    } else {
        lemma_set_binding_absent(s.drop_first(), a, b);
    }
}

/// The display name of a key, by its raw code; unrecognized codes show as
/// unknown.
pub open spec fn spec_key_name(key: u16) -> Seq<char> {
    if key == 0x0020 {
        "Space"@
    } else if key == 0x0027 {
        "'"@
    } else if key == 0x002c {
        ","@
    } else if key == 0x002d {
        "-"@
    } else if key == 0x002e {
        "."@
    } else if key == 0x002f {
        "/"@
    } else if key == 0x0030 {
        "0"@
    } else if key == 0x0031 {
        "1"@
    } else if key == 0x0032 {
        "2"@
    } else if key == 0x0033 {
        "3"@
    } else if key == 0x0034 {
        "4"@
    } else if key == 0x0035 {
        "5"@
    } else if key == 0x0036 {
        "6"@
    } else if key == 0x0037 {
        "7"@
    } else if key == 0x0038 {
        "8"@
    } else if key == 0x0039 {
        "9"@
    } else if key == 0x003b {
        ";"@
    } else if key == 0x003d {
        "="@
    } else if key == 0x0041 {
        "A"@
    } else if key == 0x0042 {
        "B"@
    } else if key == 0x0043 {
        "C"@
    } else if key == 0x0044 {
        "D"@
    } else if key == 0x0045 {
        "E"@
    } else if key == 0x0046 {
        "F"@
    } else if key == 0x0047 {
        "G"@
    } else if key == 0x0048 {
        "H"@
    } else if key == 0x0049 {
        "I"@
    } else if key == 0x004a {
        "J"@
    } else if key == 0x004b {
        "K"@
    } else if key == 0x004c {
        "L"@
    } else if key == 0x004d {
        "M"@
    } else if key == 0x004e {
        "N"@
    } else if key == 0x004f {
        "O"@
    } else if key == 0x0050 {
        "P"@
    } else if key == 0x0051 {
        "Q"@
    } else if key == 0x0052 {
        "R"@
    } else if key == 0x0053 {
        "S"@
    } else if key == 0x0054 {
        "T"@
    } else if key == 0x0055 {
        "U"@
    } else if key == 0x0056 {
        "V"@
    } else if key == 0x0057 {
        "W"@
    } else if key == 0x0058 {
        "X"@
    } else if key == 0x0059 {
        "Y"@
    } else if key == 0x005a {
        "Z"@
    } else if key == 0x005b {
        "["@
    } else if key == 0x005c {
        "\\"@
    } else if key == 0x005d {
        "]"@
    } else if key == 0x0060 {
        "`"@
    } else if key == 0x0100 {
        "UKNWN"@
    } else if key == 0x0101 {
        "UKNWN"@
    } else if key == 0xfd1d {
        "PrntScrn"@
    } else if key == 0xff08 {
        "BkSpace"@
    } else if key == 0xff09 {
        "Tab"@
    } else if key == 0xff0d {
        "Enter"@
    } else if key == 0xff13 {
        "Pause"@
    } else if key == 0xff14 {
        "Scroll"@
    } else if key == 0xff1b {
        "Esc"@
    } else if key == 0xff50 {
        "Home"@
    } else if key == 0xff51 {
        "Left"@
    } else if key == 0xff52 {
        "Up"@
    } else if key == 0xff53 {
        "Right"@
    } else if key == 0xff54 {
        "Down"@
    } else if key == 0xff55 {
        "PgUp"@
    } else if key == 0xff56 {
        "PgDn"@
    } else if key == 0xff57 {
        "End"@
    } else if key == 0xff63 {
        "Ins"@
    } else if key == 0xff67 {
        "Menu"@
    } else if key == 0xff7f {
        "Num"@
    } else if key == 0xff8d {
        "NumEnter"@
    } else if key == 0xffaa {
        "Num*"@
    } else if key == 0xffab {
        "Num+"@
    } else if key == 0xffad {
        "Num-"@
    } else if key == 0xffae {
        "Num."@
    } else if key == 0xffaf {
        "Num/"@
    } else if key == 0xffb0 {
        "Num0"@
    } else if key == 0xffb1 {
        "Num1"@
    } else if key == 0xffb2 {
        "Num2"@
    } else if key == 0xffb3 {
        "Num3"@
    } else if key == 0xffb4 {
        "Num4"@
    } else if key == 0xffb5 {
        "Num5"@
    } else if key == 0xffb6 {
        "Num6"@
    } else if key == 0xffb7 {
        "Num7"@
    } else if key == 0xffb8 {
        "Num8"@
    } else if key == 0xffb9 {
        "Num9"@
    } else if key == 0xffbd {
        "Num="@
    } else if key == 0xffbe {
        "F1"@
    } else if key == 0xffbf {
        "F2"@
    } else if key == 0xffc0 {
        "F3"@
    } else if key == 0xffc1 {
        "F4"@
    } else if key == 0xffc2 {
        "F5"@
    } else if key == 0xffc3 {
        "F6"@
    } else if key == 0xffc4 {
        "F7"@
    } else if key == 0xffc5 {
        "F8"@
    } else if key == 0xffc6 {
        "F9"@
    } else if key == 0xffc7 {
        "F10"@
    } else if key == 0xffc8 {
        "F11"@
    } else if key == 0xffc9 {
        "F12"@
    } else if key == 0xffca {
        "F13"@
    } else if key == 0xffcb {
        "F14"@
    } else if key == 0xffcc {
        "F15"@
    } else if key == 0xffcd {
        "F16"@
    } else if key == 0xffce {
        "F17"@
    } else if key == 0xffcf {
        "F18"@
    } else if key == 0xffd0 {
        "F19"@
    } else if key == 0xffd1 {
        "F20"@
    } else if key == 0xffd2 {
        "F21"@
    } else if key == 0xffd3 {
        "F22"@
    } else if key == 0xffd4 {
        "F23"@
    } else if key == 0xffd5 {
        "F24"@
    } else if key == 0xffd6 {
        "F25"@
    } else if key == 0xffe1 {
        "LShift"@
    } else if key == 0xffe2 {
        "RShift"@
    } else if key == 0xffe3 {
        "LCtrl"@
    } else if key == 0xffe4 {
        "RControl"@
    } else if key == 0xffe5 {
        "Caps"@
    } else if key == 0xffe9 {
        "LAlt"@
    } else if key == 0xffea {
        "RAlt"@
    } else if key == 0xffeb {
        "LSuper"@
    } else if key == 0xffec {
        "RSuper"@
    } else if key == 0xffff {
        "Del"@
    } else {
        "UNKWN"@
    }
}

/// The display name of a key, by its raw code.
pub fn key_code_name(key: u16) -> (r: String)
    ensures
        r@ == spec_key_name(key),
{
    let name = match key {
        0x0020 => "Space",
        0x0027 => "'",
        0x002c => ",",
        0x002d => "-",
        0x002e => ".",
        0x002f => "/",
        0x0030 => "0",
        0x0031 => "1",
        0x0032 => "2",
        0x0033 => "3",
        0x0034 => "4",
        0x0035 => "5",
        0x0036 => "6",
        0x0037 => "7",
        0x0038 => "8",
        0x0039 => "9",
        0x003b => ";",
        0x003d => "=",
        0x0041 => "A",
        0x0042 => "B",
        0x0043 => "C",
        0x0044 => "D",
        0x0045 => "E",
        0x0046 => "F",
        0x0047 => "G",
        0x0048 => "H",
        0x0049 => "I",
        0x004a => "J",
        0x004b => "K",
        0x004c => "L",
        0x004d => "M",
        0x004e => "N",
        0x004f => "O",
        0x0050 => "P",
        0x0051 => "Q",
        0x0052 => "R",
        0x0053 => "S",
        0x0054 => "T",
        0x0055 => "U",
        0x0056 => "V",
        0x0057 => "W",
        0x0058 => "X",
        0x0059 => "Y",
        0x005a => "Z",
        0x005b => "[",
        0x005c => "\\",
        0x005d => "]",
        0x0060 => "`",
        0x0100 => "UKNWN",
        0x0101 => "UKNWN",
        0xfd1d => "PrntScrn",
        0xff08 => "BkSpace",
        0xff09 => "Tab",
        0xff0d => "Enter",
        0xff13 => "Pause",
        0xff14 => "Scroll",
        0xff1b => "Esc",
        0xff50 => "Home",
        0xff51 => "Left",
        0xff52 => "Up",
        0xff53 => "Right",
        0xff54 => "Down",
        0xff55 => "PgUp",
        0xff56 => "PgDn",
        0xff57 => "End",
        0xff63 => "Ins",
        0xff67 => "Menu",
        0xff7f => "Num",
        0xff8d => "NumEnter",
        0xffaa => "Num*",
        0xffab => "Num+",
        0xffad => "Num-",
        0xffae => "Num.",
        0xffaf => "Num/",
        0xffb0 => "Num0",
        0xffb1 => "Num1",
        0xffb2 => "Num2",
        0xffb3 => "Num3",
        0xffb4 => "Num4",
        0xffb5 => "Num5",
        0xffb6 => "Num6",
        0xffb7 => "Num7",
        0xffb8 => "Num8",
        0xffb9 => "Num9",
        0xffbd => "Num=",
        0xffbe => "F1",
        0xffbf => "F2",
        0xffc0 => "F3",
        0xffc1 => "F4",
        0xffc2 => "F5",
        0xffc3 => "F6",
        0xffc4 => "F7",
        0xffc5 => "F8",
        0xffc6 => "F9",
        0xffc7 => "F10",
        0xffc8 => "F11",
        0xffc9 => "F12",
        0xffca => "F13",
        0xffcb => "F14",
        0xffcc => "F15",
        0xffcd => "F16",
        0xffce => "F17",
        0xffcf => "F18",
        0xffd0 => "F19",
        0xffd1 => "F20",
        0xffd2 => "F21",
        0xffd3 => "F22",
        0xffd4 => "F23",
        0xffd5 => "F24",
        0xffd6 => "F25",
        0xffe1 => "LShift",
        0xffe2 => "RShift",
        0xffe3 => "LCtrl",
        0xffe4 => "RControl",
        0xffe5 => "Caps",
        0xffe9 => "LAlt",
        0xffea => "RAlt",
        0xffeb => "LSuper",
        0xffec => "RSuper",
        0xffff => "Del",
        _ => "UNKWN",
    };
    name.to_owned()
}

/// The display name of a mouse button, by its raw code.
pub open spec fn spec_mouse_name(code: u16) -> Seq<char> {
    if code == 0 {
        "MouseLeft"@
    } else if code == 1 {
        "MouseMiddle"@
    } else if code == 2 {
        "MouseRight"@
    } else {
        "MouseUNKWN"@
    }
}

/// The display name of a mouse button, by its raw code.
pub fn mouse_code_name(code: u16) -> (r: String)
    ensures
        r@ == spec_mouse_name(code),
{
    let name = match code {
        0 => "MouseLeft",
        1 => "MouseMiddle",
        2 => "MouseRight",
        _ => "MouseUNKWN",
    };
    name.to_owned()
}

/// The display name of one chord entry's raw input.
pub open spec fn spec_bind_name(b: BindingType) -> Seq<char> {
    match b {
        BindingType::Key(k) => spec_key_name(k),
        BindingType::Mouse(m) => spec_mouse_name(m),
    }
}

/// The display form of a whole chord: the entries' input names joined
/// with `+`.
pub open spec fn spec_binding_display(pairs: Seq<(BindingType, ExpectedPressType)>) -> Seq<char>
    decreases pairs.len(),
{
    if pairs.len() == 0 {
        Seq::empty()
    } else if pairs.len() == 1 {
        spec_bind_name(pairs[0].0)
    } else {
        spec_bind_name(pairs[0].0) + seq!['+'] + spec_binding_display(pairs.drop_first())
    }
}

impl Binding {
    /// The display form of this chord: its entries' input names joined
    /// with `+`.
    #[verifier::loop_isolation(false)]
    pub fn display_string(&self) -> (r: String)
        ensures
            r@ == spec_binding_display(self@),
    {
        let n = self.binding.len();
        let mut out = String::new();
        let mut i: usize = 0;
        proof {
            reveal_strlit("+");
            assert(self@.skip(0) =~= self@);
        }
        while i < n
            invariant
                0 <= i <= n,
                n == self@.len(),
                i == 0 ==> out@ == Seq::<char>::empty(),
                i >= 1 ==> spec_binding_display(self@) == out@ + (if i < n {
                    seq!['+'] + spec_binding_display(self@.skip(i as int))
                } else {
                    Seq::<char>::empty()
                }),
            decreases n - i,
        {
            let ghost pre = out@;
            let ghost rest = self@.skip(i as int);
            proof {
                reveal_strlit("+");
                assert(rest[0] == self@[i as int]);
                assert(rest.drop_first() =~= self@.skip(i + 1));
            }
            if i > 0 {
                out.append("+");
            }
            let name = match self.binding[i].0 {
                BindingType::Key(k) => key_code_name(k),
                BindingType::Mouse(m) => mouse_code_name(m),
            };
            out.append(name.as_str());
            proof {
                if i == 0 {
                    if n == 1 {
                        assert(out@ =~= spec_bind_name(self@[0].0));
                        assert(spec_binding_display(self@) == spec_bind_name(self@[0].0));
                    } else {
                        assert(out@ =~= Seq::<char>::empty() + spec_bind_name(self@[0].0));
                        assert(out@ =~= spec_bind_name(self@[0].0));
                        assert(spec_binding_display(self@) == spec_bind_name(self@[0].0) + seq![
                            '+',
                        ] + spec_binding_display(self@.skip(1)));
                    }
                } else {
                    assert(out@ =~= (pre + seq!['+']) + spec_bind_name(rest[0].0));
                    if rest.len() == 1 {
                        assert(spec_binding_display(rest) == spec_bind_name(rest[0].0));
                        assert(out@ =~= pre + (seq!['+'] + spec_bind_name(rest[0].0)));
                    } else {
                        assert(spec_binding_display(rest) == spec_bind_name(rest[0].0) + seq![
                            '+',
                        ] + spec_binding_display(rest.drop_first()));
                        assert(pre + (seq!['+'] + spec_binding_display(rest)) =~= out@ + (seq![
                            '+',
                        ] + spec_binding_display(self@.skip(i + 1))));
                    }
                }
            }
            i += 1;
        }
        proof {
            if n == 0 {
                assert(spec_binding_display(self@) == Seq::<char>::empty());
                assert(out@ =~= Seq::<char>::empty());
            }
        }
        out
    }
}

} // verus!
