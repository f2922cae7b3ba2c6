//! Keys, the actions they are bound to, and the prefix-key state machine
//! (`Ctrl+a` then a follower key, or `:` for a command line).
use vstd::prelude::*;
use crate::app::PaneId;

verus! {

#[derive(Debug, Clone, Copy, PartialEq, Eq, Hash, Structural)]
pub enum Dir {
    Left,
    Right,
    Up,
    Down,
}

/// The keys this application tells apart.
#[derive(Debug, Clone, Copy, PartialEq, Eq, Hash, Structural)]
pub enum KeyCode {
    Char(char),
    Enter,
    Backspace,
    Tab,
    Esc,
    Up,
    Down,
    Left,
    Right,
    Home,
    End,
    PageUp,
    PageDown,
    Delete,
    Insert,
    F(u8),
    /// Any other key.
    Other,
}

/// Modifier keys held with a key; `other` covers super, hyper and meta.
#[derive(Debug, Clone, Copy, PartialEq, Eq, Hash, Structural)]
pub struct KeyModifiers {
    pub shift: bool,
    pub control: bool,
    pub alt: bool,
    pub other: bool,
}

impl KeyModifiers {
    pub fn none() -> (r: Self)
        ensures
            r == (KeyModifiers { shift: false, control: false, alt: false, other: false }),
    {
        KeyModifiers { shift: false, control: false, alt: false, other: false }
    }

    pub fn shift() -> (r: Self)
        ensures
            r == (KeyModifiers { shift: true, control: false, alt: false, other: false }),
    {
        KeyModifiers { shift: true, control: false, alt: false, other: false }
    }

    pub fn control() -> (r: Self)
        ensures
            r == (KeyModifiers { shift: false, control: true, alt: false, other: false }),
    {
        KeyModifiers { shift: false, control: true, alt: false, other: false }
    }

    pub fn alt() -> (r: Self)
        ensures
            r == (KeyModifiers { shift: false, control: false, alt: true, other: false }),
    {
        KeyModifiers { shift: false, control: false, alt: true, other: false }
    }
}

/// A key press.
#[derive(Debug, Clone, Copy, PartialEq, Eq, Hash, Structural)]
pub struct Key {
    pub code: KeyCode,
    pub modifiers: KeyModifiers,
}

impl Key {
    pub fn new(code: KeyCode, modifiers: KeyModifiers) -> (r: Self)
        ensures
            r == (Key { code, modifiers }),
    {
        Key { code, modifiers }
    }
}

pub open spec fn no_mods() -> KeyModifiers {
    KeyModifiers { shift: false, control: false, alt: false, other: false }
}

pub open spec fn ctrl_mods() -> KeyModifiers {
    KeyModifiers { shift: false, control: true, alt: false, other: false }
}

pub open spec fn shift_mods() -> KeyModifiers {
    KeyModifiers { shift: true, control: false, alt: false, other: false }
}

/// A plain character key.
pub open spec fn char_key(c: char) -> Key {
    Key { code: KeyCode::Char(c), modifiers: no_mods() }
}

/// The prefix key: `Ctrl+a`.
pub open spec fn prefix_key_spec() -> Key {
    Key { code: KeyCode::Char('a'), modifiers: ctrl_mods() }
}

pub fn prefix_key() -> (r: Key)
    ensures
        r == prefix_key_spec(),
{
    Key { code: KeyCode::Char('a'), modifiers: KeyModifiers::control() }
}

#[derive(Debug, Clone, PartialEq, Eq)]
pub enum Action {
    FocusPane(PaneId),
    FocusDir(Dir),
    SwitchWorktree(usize),
    Quit,
    CyclePane,
    ToggleHelp,
    SendLiteralPrefix,
    EnterCommandMode,
    ExecuteCommand(String),
    PassThrough,
    Consume,
}

/// An action with its command as text.
pub enum ActionView {
    FocusPane(PaneId),
    FocusDir(Dir),
    SwitchWorktree(usize),
    Quit,
    CyclePane,
    ToggleHelp,
    SendLiteralPrefix,
    EnterCommandMode,
    ExecuteCommand(Seq<char>),
    PassThrough,
    Consume,
}

impl View for Action {
    type V = ActionView;

    open spec fn view(&self) -> ActionView {
        match *self {
            Action::FocusPane(p) => ActionView::FocusPane(p),
            Action::FocusDir(d) => ActionView::FocusDir(d),
            Action::SwitchWorktree(i) => ActionView::SwitchWorktree(i),
            Action::Quit => ActionView::Quit,
            Action::CyclePane => ActionView::CyclePane,
            Action::ToggleHelp => ActionView::ToggleHelp,
            Action::SendLiteralPrefix => ActionView::SendLiteralPrefix,
            Action::EnterCommandMode => ActionView::EnterCommandMode,
            Action::ExecuteCommand(s) => ActionView::ExecuteCommand(s@),
            Action::PassThrough => ActionView::PassThrough,
            Action::Consume => ActionView::Consume,
        }
    }
}

/// A copy of `a`.
pub fn copy_action(a: &Action) -> (r: Action)
    ensures
        r@ == a@,
{
    match a {
        Action::FocusPane(p) => Action::FocusPane(*p),
        Action::FocusDir(d) => Action::FocusDir(*d),
        Action::SwitchWorktree(i) => Action::SwitchWorktree(*i),
        Action::Quit => Action::Quit,
        Action::CyclePane => Action::CyclePane,
        Action::ToggleHelp => Action::ToggleHelp,
        Action::SendLiteralPrefix => Action::SendLiteralPrefix,
        Action::EnterCommandMode => Action::EnterCommandMode,
        Action::ExecuteCommand(s) => Action::ExecuteCommand(s.clone()),
        Action::PassThrough => Action::PassThrough,
        Action::Consume => Action::Consume,
    }
}

#[derive(Debug)]
pub enum InputMode {
    Normal,
    AwaitingPrefixFollower,
    Command(String),
}

/// An input mode with the command line as text.
pub enum ModeView {
    Normal,
    AwaitingPrefixFollower,
    Command(Seq<char>),
}

impl View for InputMode {
    type V = ModeView;

    open spec fn view(&self) -> ModeView {
        match *self {
            InputMode::Normal => ModeView::Normal,
            InputMode::AwaitingPrefixFollower => ModeView::AwaitingPrefixFollower,
            InputMode::Command(s) => ModeView::Command(s@),
        }
    }
}

pub open spec fn binding_views(b: Seq<(Key, Action)>) -> Seq<(Key, ActionView)> {
    b.map_values(|p: (Key, Action)| (p.0, p.1@))
}

/// The action bound to `k`: the last binding of that key wins, as later
/// insertions into a map replace earlier ones.
pub open spec fn binding_for(b: Seq<(Key, ActionView)>, k: Key) -> Option<ActionView>
    decreases b.len(),
{
    if b.len() == 0 {
        None
    } else if b.last().0 == k {
        Some(b.last().1)
    } else {
        binding_for(b.drop_last(), k)
    }
}

/// One step of the key state machine: the next mode and the action.
pub open spec fn handle_spec(b: Seq<(Key, ActionView)>, mode: ModeView, key: Key) -> (ModeView, ActionView) {
    match mode {
        ModeView::Normal => if key == prefix_key_spec() {
            (ModeView::AwaitingPrefixFollower, ActionView::Consume)
        } else {
            (ModeView::Normal, ActionView::PassThrough)
        },
        ModeView::AwaitingPrefixFollower => if key.code == KeyCode::Esc {
            (ModeView::Normal, ActionView::Consume)
        } else {
            let a = match binding_for(b, key) {
                Some(a) => a,
                None => ActionView::Consume,
            };
            if a == ActionView::EnterCommandMode {
                (ModeView::Command(Seq::empty()), ActionView::Consume)
            } else {
                (ModeView::Normal, a)
            }
        },
        ModeView::Command(buf) => match key.code {
            KeyCode::Esc => (ModeView::Normal, ActionView::Consume),
            KeyCode::Enter => (ModeView::Normal, ActionView::ExecuteCommand(buf)),
            KeyCode::Backspace => if buf.len() == 0 {
                (ModeView::Normal, ActionView::Consume)
            } else {
                (ModeView::Command(buf.drop_last()), ActionView::Consume)
            },
            KeyCode::Char(c) => if key.modifiers.control && (c == 'c' || c == 'g') {
                (ModeView::Normal, ActionView::Consume)
            } else {
                (ModeView::Command(buf.push(c)), ActionView::Consume)
            },
            _ => (ModeView::Command(buf), ActionView::Consume),
        },
    }
}

pub struct Keymap {
    pub bindings: Vec<(Key, Action)>,
}

impl Keymap {
    pub fn new(bindings: Vec<(Key, Action)>) -> (r: Self)
        ensures
            r.bindings == bindings,
    {
        Keymap { bindings }
    }

    fn lookup(&self, key: Key) -> (r: Option<Action>)
        ensures
            match r {
                Some(a) => binding_for(binding_views(self.bindings@), key) == Some(a@),
                None => binding_for(binding_views(self.bindings@), key) is None,
            },
    {
        let ghost bv = binding_views(self.bindings@);
        let mut i: usize = self.bindings.len();
        assert(bv.take(i as int) =~= bv);
        while i > 0
            invariant
                i <= self.bindings@.len(),
                bv == binding_views(self.bindings@),
                binding_for(bv, key) == binding_for(bv.take(i as int), key),
            decreases i,
        {
            let ghost t = bv.take(i as int);
            assert(t.drop_last() =~= bv.take(i - 1));
            assert(t.last() == (self.bindings@[i - 1].0, self.bindings@[i - 1].1@));
            if self.bindings[i - 1].0 == key {
                return Some(copy_action(&self.bindings[i - 1].1));
            }
            i = i - 1;
        }
        None
    }

    /// Processes a key press given the current mode. The prefix mode lasts
    /// for one follower key; `Esc` leaves any mode without an action.
    pub fn handle(&self, mode: &mut InputMode, key: Key, _focus: PaneId) -> (r: Action)
        ensures
            (final(mode)@, r@) == handle_spec(binding_views(self.bindings@), old(mode)@, key),
    {
        match mode {
            InputMode::Normal => {
                if key == prefix_key() {
                    *mode = InputMode::AwaitingPrefixFollower;
                    return Action::Consume;
                }
                Action::PassThrough
            },
            InputMode::AwaitingPrefixFollower => {
                *mode = InputMode::Normal;
                if key.code == KeyCode::Esc {
                    return Action::Consume;
                }
                let action = match self.lookup(key) {
                    Some(a) => a,
                    None => Action::Consume,
                };
                if let Action::EnterCommandMode = action {
                    *mode = InputMode::Command(String::new());
                    return Action::Consume;
                }
                action
            },
            InputMode::Command(buf) => match key.code {
                KeyCode::Esc => {
                    *mode = InputMode::Normal;
                    Action::Consume
                },
                KeyCode::Enter => {
                    let cmd = buf.clone();
                    *mode = InputMode::Normal;
                    Action::ExecuteCommand(cmd)
                },
                KeyCode::Backspace => {
                    let v = crate::text::chars_of(buf.as_str());
                    if v.len() == 0 {
                        *mode = InputMode::Normal;
                    } else {
                        let shorter = crate::text::slice_of(&v, 0, v.len() - 1);
                        *mode = InputMode::Command(crate::text::string_of(&shorter));
                    }
                    Action::Consume
                },
                KeyCode::Char(c) => {
                    if key.modifiers.control && (c == 'c' || c == 'g') {
                        *mode = InputMode::Normal;
                        return Action::Consume;
                    }
                    crate::text::push_char(buf, c);
                    Action::Consume
                },
                _ => Action::Consume,
            },
        }
    }
}

/// The default bindings of the follower keys.
pub open spec fn default_bindings_spec() -> Seq<(Key, ActionView)> {
    seq![
        (char_key('e'), ActionView::FocusPane(PaneId::Workspaces)),
        (char_key('m'), ActionView::FocusPane(PaneId::Members)),
        (char_key('t'), ActionView::FocusPane(PaneId::Terminal)),
        (char_key('g'), ActionView::FocusPane(PaneId::GitStatus)),
        (char_key('q'), ActionView::Quit),
        (char_key('?'), ActionView::ToggleHelp),
        (char_key('o'), ActionView::CyclePane),
        (prefix_key_spec(), ActionView::SendLiteralPrefix),
        (char_key(':'), ActionView::EnterCommandMode),
        (Key { code: KeyCode::Char(':'), modifiers: shift_mods() }, ActionView::EnterCommandMode),
        (char_key('h'), ActionView::FocusDir(Dir::Left)),
        (char_key('j'), ActionView::FocusDir(Dir::Down)),
        (char_key('k'), ActionView::FocusDir(Dir::Up)),
        (char_key('l'), ActionView::FocusDir(Dir::Right)),
        (char_key('1'), ActionView::SwitchWorktree(0)),
        (char_key('2'), ActionView::SwitchWorktree(1)),
        (char_key('3'), ActionView::SwitchWorktree(2)),
        (char_key('4'), ActionView::SwitchWorktree(3)),
        (char_key('5'), ActionView::SwitchWorktree(4)),
        (char_key('6'), ActionView::SwitchWorktree(5)),
        (char_key('7'), ActionView::SwitchWorktree(6)),
        (char_key('8'), ActionView::SwitchWorktree(7)),
        (char_key('9'), ActionView::SwitchWorktree(8)),
    ]
}

fn plain(c: char) -> (r: Key)
    ensures
        r == char_key(c),
{
    Key { code: KeyCode::Char(c), modifiers: KeyModifiers::none() }
}

/// The default follower-key bindings.
pub fn default_bindings() -> (r: Vec<(Key, Action)>)
    ensures
        binding_views(r@) == default_bindings_spec(),
{
    let mut map: Vec<(Key, Action)> = Vec::new();
    map.push((plain('e'), Action::FocusPane(PaneId::Workspaces)));
    map.push((plain('m'), Action::FocusPane(PaneId::Members)));
    map.push((plain('t'), Action::FocusPane(PaneId::Terminal)));
    map.push((plain('g'), Action::FocusPane(PaneId::GitStatus)));
    map.push((plain('q'), Action::Quit));
    map.push((plain('?'), Action::ToggleHelp));
    map.push((plain('o'), Action::CyclePane));
    map.push((prefix_key(), Action::SendLiteralPrefix));
    map.push((plain(':'), Action::EnterCommandMode));
    map.push((Key { code: KeyCode::Char(':'), modifiers: KeyModifiers::shift() }, Action::EnterCommandMode));
    map.push((plain('h'), Action::FocusDir(Dir::Left)));
    map.push((plain('j'), Action::FocusDir(Dir::Down)));
    map.push((plain('k'), Action::FocusDir(Dir::Up)));
    map.push((plain('l'), Action::FocusDir(Dir::Right)));
    map.push((plain('1'), Action::SwitchWorktree(0)));
    map.push((plain('2'), Action::SwitchWorktree(1)));
    map.push((plain('3'), Action::SwitchWorktree(2)));
    map.push((plain('4'), Action::SwitchWorktree(3)));
    map.push((plain('5'), Action::SwitchWorktree(4)));
    map.push((plain('6'), Action::SwitchWorktree(5)));
    map.push((plain('7'), Action::SwitchWorktree(6)));
    map.push((plain('8'), Action::SwitchWorktree(7)));
    map.push((plain('9'), Action::SwitchWorktree(8)));
    assert(binding_views(map@) =~= default_bindings_spec());
    map
}

/// The state machine run over a sequence of keys from `mode`: the final
/// mode and the last action.
pub open spec fn feed(b: Seq<(Key, ActionView)>, mode: ModeView, keys: Seq<Key>) -> ModeView
    decreases keys.len(),
{
    if keys.len() == 0 {
        mode
    } else {
        handle_spec(b, feed(b, mode, keys.drop_last()), keys.last()).0
    }
}

/// Typing plain characters on the command line collects them, and `Enter`
/// then executes exactly the typed text and returns to the normal mode.
pub proof fn law_command_line_collects_typed_text(b: Seq<(Key, ActionView)>, text: Seq<char>)
    ensures
        feed(b, ModeView::Command(Seq::empty()), text.map_values(|c: char| char_key(c)))
            == ModeView::Command(text),
        handle_spec(
            b,
            ModeView::Command(text),
            Key { code: KeyCode::Enter, modifiers: no_mods() },
        ) == (ModeView::Normal, ActionView::ExecuteCommand(text)),
    decreases text.len(),
{
    if text.len() > 0 {
        law_command_line_collects_typed_text(b, text.drop_last());
        let keys = text.map_values(|c: char| char_key(c));
        assert(keys.drop_last() =~= text.drop_last().map_values(|c: char| char_key(c)));
        assert(text.drop_last().push(text.last()) =~= text);
    } else {
        assert(text.map_values(|c: char| char_key(c)) =~= Seq::<Key>::empty());
        assert(text =~= Seq::<char>::empty());
    }
}

/// `Esc` leaves the prefix and command modes without an action, and in the
/// normal mode only the prefix key is intercepted.
pub proof fn law_escape_and_pass_through(b: Seq<(Key, ActionView)>, mode: ModeView, key: Key)
    ensures
        key.code == KeyCode::Esc && mode != ModeView::Normal ==> handle_spec(b, mode, key) == (
            ModeView::Normal,
            ActionView::Consume,
        ),
        mode == ModeView::Normal && key != prefix_key_spec() ==> handle_spec(b, mode, key) == (
            ModeView::Normal,
            ActionView::PassThrough,
        ),
{
}


/// The prefix mode lasts for one follower key: after it the mode is normal
/// again (or the command line, opened empty), and the action is the key's
/// binding, or nothing for an unbound key.
pub proof fn law_prefix_lasts_one_key(b: Seq<(Key, ActionView)>, key: Key)
    ensures
        ({
            let (m, a) = handle_spec(b, ModeView::AwaitingPrefixFollower, key);
            &&& m == ModeView::Normal || m == ModeView::Command(Seq::empty())
            &&& m == ModeView::Command(Seq::empty()) ==> a == ActionView::Consume
            &&& key.code != KeyCode::Esc && m == ModeView::Normal ==> a == (match binding_for(b, key) {
                Some(x) => x,
                None => ActionView::Consume,
            })
        }),
{
}

/// With the default bindings, `Ctrl+a` then a digit `d` from 1 to 9
/// switches to worktree `d - 1` (zero-based) and returns to the normal mode.
pub proof fn law_digit_follower_switches_worktree(d: char)
    requires
        '1' <= d <= '9',
    ensures
        handle_spec(default_bindings_spec(), ModeView::AwaitingPrefixFollower, char_key(d)) == (
            ModeView::Normal,
            ActionView::SwitchWorktree((d as u32 - '1' as u32) as usize),
        ),
{
    reveal_with_fuel(binding_for, 12);
    let b = default_bindings_spec();
    assert(b.len() == 23);
    let k = 14 + (d as u32 - '1' as u32) as int;
    assert(b[k] == (char_key(d), ActionView::SwitchWorktree((d as u32 - '1' as u32) as usize))) by {
        if d == '1' {} else if d == '2' {} else if d == '3' {} else if d == '4' {} else if d == '5' {}
        else if d == '6' {} else if d == '7' {} else if d == '8' {} else {}
    }
    lemma_binding_for_last_match(b, char_key(d), k);
}

/// `binding_for` finds the entry at `k` when no later entry has the key.
proof fn lemma_binding_for_last_match(b: Seq<(Key, ActionView)>, key: Key, k: int)
    requires
        0 <= k < b.len(),
        b[k].0 == key,
        forall|j: int| k < j < b.len() ==> #[trigger] b[j].0 != key,
    ensures
        binding_for(b, key) == Some(b[k].1),
    decreases b.len(),
{
    if k < b.len() - 1 {
        let t = b.drop_last();
        assert(b.last() == b[b.len() - 1]);
        assert forall|j: int| k < j < t.len() implies #[trigger] t[j].0 != key by {
            assert(t[j] == b[j]);
        }
        lemma_binding_for_last_match(t, key, k);
        assert(t[k] == b[k]);
    }
}

/// The default follower keys, as the help overlay lists them: `e`, `m`,
/// `t`, `g` focus the workspaces, members, terminal and git panes; `h`,
/// `j`, `k`, `l` move left, down, up and right; `o` cycles; `q` quits; `?`
/// toggles help; `:` opens an empty command line; `Ctrl+a` sends a literal
/// `Ctrl+a`; `Esc` cancels. Each leaves the prefix mode.
pub proof fn law_default_follower_keys()
    ensures
        ({
            let b = default_bindings_spec();
            let p = ModeView::AwaitingPrefixFollower;
            &&& handle_spec(b, p, char_key('e')) == (ModeView::Normal, ActionView::FocusPane(PaneId::Workspaces))
            &&& handle_spec(b, p, char_key('m')) == (ModeView::Normal, ActionView::FocusPane(PaneId::Members))
            &&& handle_spec(b, p, char_key('t')) == (ModeView::Normal, ActionView::FocusPane(PaneId::Terminal))
            &&& handle_spec(b, p, char_key('g')) == (ModeView::Normal, ActionView::FocusPane(PaneId::GitStatus))
            &&& handle_spec(b, p, char_key('h')) == (ModeView::Normal, ActionView::FocusDir(Dir::Left))
            &&& handle_spec(b, p, char_key('j')) == (ModeView::Normal, ActionView::FocusDir(Dir::Down))
            &&& handle_spec(b, p, char_key('k')) == (ModeView::Normal, ActionView::FocusDir(Dir::Up))
            &&& handle_spec(b, p, char_key('l')) == (ModeView::Normal, ActionView::FocusDir(Dir::Right))
            &&& handle_spec(b, p, char_key('o')) == (ModeView::Normal, ActionView::CyclePane)
            &&& handle_spec(b, p, char_key('q')) == (ModeView::Normal, ActionView::Quit)
            &&& handle_spec(b, p, char_key('?')) == (ModeView::Normal, ActionView::ToggleHelp)
            &&& handle_spec(b, p, char_key(':')) == (ModeView::Command(Seq::empty()), ActionView::Consume)
            &&& handle_spec(b, p, prefix_key_spec()) == (ModeView::Normal, ActionView::SendLiteralPrefix)
            &&& handle_spec(b, p, Key { code: KeyCode::Esc, modifiers: no_mods() }) == (
                ModeView::Normal,
                ActionView::Consume,
            )
        }),
{
    reveal_with_fuel(binding_for, 24);
}

} // verus!
