//! Key bindings: which key presses trigger an action, their help text, whether they
//! are enabled, and the parser from strings such as `"ctrl+s"` to key presses.
use vstd::prelude::*;
use crate::text::{chars_eq, contains_char, split_chars, split_on, str_to_chars};

pub mod modifiers;

verus! {

/// A key on the keyboard.
#[derive(Debug, Clone, Copy, PartialEq, Eq, Structural)]
pub enum KeyCode {
    Backspace,
    Enter,
    Left,
    Right,
    Up,
    Down,
    Home,
    End,
    PageUp,
    PageDown,
    Tab,
    BackTab,
    Delete,
    Insert,
    /// A function key, `F(1)` for F1.
    F(u8),
    /// A character key.
    Char(char),
    Null,
    Esc,
    CapsLock,
    ScrollLock,
    NumLock,
    PrintScreen,
    Pause,
    Menu,
    KeypadBegin,
    /// A media key, by its position in the terminal library's list of media keys.
    Media(u8),
    /// A lone modifier key, by its position in the terminal library's list of them.
    Modifier(u8),
}

/// Modifier bit flags (see `key::modifiers`).
pub type KeyModifiers = u8;

/// A key press: a key together with the modifiers held.
#[derive(Debug, Clone, Copy, PartialEq, Eq, Structural)]
pub struct KeyPress {
    pub code: KeyCode,
    pub mods: KeyModifiers,
}

/// A key event as the terminal reports it.
#[derive(Debug, Clone, Copy, PartialEq, Eq, Structural)]
pub struct KeyMsg {
    pub key: KeyCode,
    pub modifiers: KeyModifiers,
}

impl KeyPress {
    /// A key press without modifiers.
    pub fn from_code(code: KeyCode) -> (k: KeyPress)
        ensures
            k == (KeyPress { code, mods: modifiers::NONE }),
    {
        KeyPress { code, mods: modifiers::NONE }
    }

    /// A key press with the given modifiers.
    pub fn with_mods(code: KeyCode, mods: KeyModifiers) -> (k: KeyPress)
        ensures
            k == (KeyPress { code, mods }),
    {
        KeyPress { code, mods }
    }

    /// The key press that a string names (see `parse_key_string`).
    pub fn from_str(s: &str) -> (k: KeyPress)
        ensures
            k == spec_parse_key(s@),
    {
        parse_key_string(s)
    }
}

/// Help text for a binding.
#[derive(Debug, Clone, Default, PartialEq, Eq)]
pub struct Help {
    pub key: String,
    pub desc: String,
}

/// A key binding: the key presses that trigger it, its help text and whether it is
/// enabled.
#[derive(Debug, Clone)]
pub struct Binding {
    keys: Vec<KeyPress>,
    help: Help,
    enabled: bool,
}

/// The contents of a binding.
pub struct BindingView {
    pub keys: Seq<KeyPress>,
    pub help_key: Seq<char>,
    pub help_desc: Seq<char>,
    pub enabled: bool,
}

impl View for Binding {
    type V = BindingView;

    closed spec fn view(&self) -> BindingView {
        BindingView {
            keys: self.keys@,
            help_key: self.help.key@,
            help_desc: self.help.desc@,
            enabled: self.enabled,
        }
    }
}

/// A binding is active when it is enabled and has at least one key.
pub open spec fn spec_enabled(b: BindingView) -> bool {
    b.enabled && b.keys.len() > 0
}

/// A key event triggers an active binding when one of its key presses has the
/// event's key and exactly the event's modifiers.
pub open spec fn spec_matches(b: BindingView, msg: KeyMsg) -> bool {
    spec_enabled(b) && exists|i: int|
        0 <= i < b.keys.len() && #[trigger] b.keys[i] == (KeyPress { code: msg.key, mods: msg.modifiers })
}

/// A key event triggers at least one of the bindings.
pub open spec fn spec_matches_any(bs: Seq<BindingView>, msg: KeyMsg) -> bool {
    exists|i: int| 0 <= i < bs.len() && spec_matches(#[trigger] bs[i], msg)
}

/// A configuration option for `new_binding`.
#[derive(Debug, Clone)]
pub enum BindingOpt {
    /// Set the key presses.
    Keys(Vec<KeyPress>),
    /// Set the help text (key, description).
    Help(String, String),
    /// Disable the binding.
    Disabled,
}

/// What a binding becomes when `opt` is applied to it.
pub open spec fn apply_opt(b: BindingView, opt: BindingOpt) -> BindingView {
    match opt {
        BindingOpt::Keys(k) => BindingView { keys: k@, ..b },
        BindingOpt::Help(k, d) => BindingView { help_key: k@, help_desc: d@, ..b },
        BindingOpt::Disabled => BindingView { enabled: false, ..b },
    }
}

/// What a binding becomes when `opts` are applied in order.
pub open spec fn apply_opts(b: BindingView, opts: Seq<BindingOpt>) -> BindingView
    decreases opts.len(),
{
    if opts.len() == 0 {
        b
    } else {
        apply_opt(apply_opts(b, opts.drop_last()), opts.last())
    }
}

/// The binding `new_binding` starts from: no keys, empty help, enabled.
pub open spec fn empty_binding() -> BindingView {
    BindingView { keys: Seq::empty(), help_key: Seq::empty(), help_desc: Seq::empty(), enabled: true }
}

impl Binding {
    /// An enabled binding for the given key presses, with empty help.
    pub fn new(keys: Vec<KeyPress>) -> (b: Binding)
        ensures
            b@.keys == keys@,
            b@.help_key == Seq::<char>::empty(),
            b@.help_desc == Seq::<char>::empty(),
            b@.enabled,
    {
        Binding { keys, help: Help { key: String::new(), desc: String::new() }, enabled: true }
    }

    /// An enabled binding for the given keys without modifiers, with empty help.
    pub fn from_codes(codes: Vec<KeyCode>) -> (b: Binding)
        ensures
            b@.keys.len() == codes@.len(),
            forall|i: int| 0 <= i < codes@.len() ==> #[trigger] b@.keys[i] == (KeyPress {
                code: codes@[i],
                mods: modifiers::NONE,
            }),
            b@.help_key == Seq::<char>::empty(),
            b@.help_desc == Seq::<char>::empty(),
            b@.enabled,
    {
        let mut keys: Vec<KeyPress> = Vec::new();
        let mut i: usize = 0;
        while i < codes.len()
            invariant
                i <= codes@.len(),
                keys@.len() == i,
                forall|k: int| 0 <= k < i ==> #[trigger] keys@[k] == (KeyPress {
                    code: codes@[k],
                    mods: modifiers::NONE,
                }),
            decreases codes@.len() - i,
        {
            keys.push(KeyPress::from_code(codes[i]));
            i += 1;
        }
        Binding::new(keys)
    }

    /// A binding built from the empty enabled binding by applying `opts` in order.
    pub fn new_binding(opts: Vec<BindingOpt>) -> (b: Binding)
        ensures
            b@ == apply_opts(empty_binding(), opts@),
    {
        let mut b = Binding::new(Vec::new());
        let mut i: usize = 0;
        assert(b@ == empty_binding());
        while i < opts.len()
            invariant
                i <= opts@.len(),
                b@ == apply_opts(empty_binding(), opts@.take(i as int)),
            decreases opts@.len() - i,
        {
            assert(opts@.take(i as int + 1).drop_last() == opts@.take(i as int));
            b.apply(&opts[i]);
            i += 1;
        }
        assert(opts@.take(opts@.len() as int) == opts@);
        b
    }

    /// Applies one option.
    pub fn apply(&mut self, opt: &BindingOpt)
        ensures
            final(self)@ == apply_opt(old(self)@, *opt),
    {
        match opt {
            BindingOpt::Keys(k) => {
                self.keys = copy_keys(k);
            },
            BindingOpt::Help(k, d) => {
                self.help = Help { key: k.clone(), desc: d.clone() };
            },
            BindingOpt::Disabled => {
                self.enabled = false;
            },
        }
    }

    /// This binding with the given help text.
    pub fn with_help(self, key: &str, desc: &str) -> (b: Binding)
        ensures
            b@ == (BindingView { help_key: key@, help_desc: desc@, ..self@ }),
    {
        let mut b = self;
        b.set_help(key, desc);
        b
    }

    /// This binding, enabled or disabled.
    pub fn with_enabled(self, enabled: bool) -> (b: Binding)
        ensures
            b@ == (BindingView { enabled, ..self@ }),
    {
        let mut b = self;
        b.enabled = enabled;
        b
    }

    /// This binding, disabled.
    pub fn with_disabled(self) -> (b: Binding)
        ensures
            b@ == (BindingView { enabled: false, ..self@ }),
    {
        let mut b = self;
        b.enabled = false;
        b
    }

    /// This binding with its keys replaced by the key presses that `keys` name.
    pub fn with_keys(self, keys: &[&str]) -> (b: Binding)
        ensures
            b@.keys.len() == keys@.len(),
            forall|i: int| 0 <= i < keys@.len() ==> #[trigger] b@.keys[i] == spec_parse_key(keys@[i]@),
            b@.help_key == self@.help_key,
            b@.help_desc == self@.help_desc,
            b@.enabled == self@.enabled,
    {
        let mut b = self;
        b.keys = parse_keys(keys);
        b
    }

    /// Replaces the key presses.
    pub fn set_keys(&mut self, keys: Vec<KeyPress>)
        ensures
            final(self)@ == (BindingView { keys: keys@, ..old(self)@ }),
    {
        self.keys = keys;
    }

    /// The key presses.
    pub fn keys(&self) -> (r: &[KeyPress])
        ensures
            r@ == self@.keys,
    {
        self.keys.as_slice()
    }

    /// Replaces the help text.
    pub fn set_help(&mut self, key: &str, desc: &str)
        ensures
            final(self)@ == (BindingView { help_key: key@, help_desc: desc@, ..old(self)@ }),
    {
        self.help = Help { key: key.to_string(), desc: desc.to_string() };
    }

    /// The help text.
    pub fn help(&self) -> (r: &Help)
        ensures
            r.key@ == self@.help_key,
            r.desc@ == self@.help_desc,
    {
        &self.help
    }

    /// Whether the binding is enabled and has at least one key.
    pub fn enabled(&self) -> (r: bool)
        ensures
            r == spec_enabled(self@),
    {
        self.enabled && self.keys.len() > 0
    }

    /// Enables or disables the binding.
    pub fn set_enabled(&mut self, enabled: bool)
        ensures
            final(self)@ == (BindingView { enabled, ..old(self)@ }),
    {
        self.enabled = enabled;
    }

    /// Removes all keys and the help text.
    pub fn unbind(&mut self)
        ensures
            final(self)@ == (BindingView {
                keys: Seq::empty(),
                help_key: Seq::empty(),
                help_desc: Seq::empty(),
                ..old(self)@
            }),
    {
        self.keys = Vec::new();
        self.help = Help { key: String::new(), desc: String::new() };
    }

    /// Whether the key event triggers this binding.
    pub fn matches(&self, key_msg: &KeyMsg) -> (r: bool)
        ensures
            r == spec_matches(self@, *key_msg),
    {
        if !self.enabled() {
            return false;
        }
        let target = KeyPress { code: key_msg.key, mods: key_msg.modifiers };
        let mut i: usize = 0;
        while i < self.keys.len()
            invariant
                i <= self@.keys.len(),
                spec_enabled(self@),
                target == (KeyPress { code: key_msg.key, mods: key_msg.modifiers }),
                forall|k: int| 0 <= k < i ==> self@.keys[k] != target,
            decreases self@.keys.len() - i,
        {
            let kp = self.keys[i];
            if kp == target {
                assert(self@.keys[i as int] == target);
                return true;
            }
            i += 1;
        }
        false
    }

    /// Whether the key event triggers any of the bindings.
    pub fn matches_any(key_msg: &KeyMsg, bindings: &[&Binding]) -> (r: bool)
        ensures
            r == spec_matches_any(bindings@.map_values(|b: &Binding| b@), *key_msg),
    {
        matches(key_msg, bindings)
    }
}

/// A copy of a list of key presses.
fn copy_keys(k: &Vec<KeyPress>) -> (r: Vec<KeyPress>)
    ensures
        r@ == k@,
{
    let mut out: Vec<KeyPress> = Vec::new();
    let mut i: usize = 0;
    while i < k.len()
        invariant
            i <= k@.len(),
            out@ == k@.take(i as int),
        decreases k@.len() - i,
    {
        out.push(k[i]);
        assert(k@.take(i as int + 1) == k@.take(i as int).push(k@[i as int]));
        i += 1;
    }
    assert(k@.take(k@.len() as int) == k@);
    out
}

/// The key presses that each string names.
fn parse_keys(keys: &[&str]) -> (r: Vec<KeyPress>)
    ensures
        r@.len() == keys@.len(),
        forall|i: int| 0 <= i < keys@.len() ==> #[trigger] r@[i] == spec_parse_key(keys@[i]@),
{
    let mut out: Vec<KeyPress> = Vec::new();
    let mut i: usize = 0;
    while i < keys.len()
        invariant
            i <= keys@.len(),
            out@.len() == i,
            forall|k: int| 0 <= k < i ==> #[trigger] out@[k] == spec_parse_key(keys@[k]@),
        decreases keys@.len() - i,
    {
        out.push(parse_key_string(keys[i]));
        i += 1;
    }
    out
}

/// A set of key bindings that can describe itself for the help view.
pub trait KeyMap {
    /// The bindings for the one-line help view.
    fn short_help(&self) -> Vec<&Binding>;

    /// The bindings for the full help view, in columns.
    fn full_help(&self) -> Vec<Vec<&Binding>>;
}

/// Whether the key event triggers any of the bindings.
pub fn matches(key_msg: &KeyMsg, bindings: &[&Binding]) -> (r: bool)
    ensures
        r == spec_matches_any(bindings@.map_values(|b: &Binding| b@), *key_msg),
{
    let ghost views = bindings@.map_values(|b: &Binding| b@);
    let mut i: usize = 0;
    while i < bindings.len()
        invariant
            i <= bindings@.len(),
            views == bindings@.map_values(|b: &Binding| b@),
            forall|k: int| 0 <= k < i ==> !spec_matches(#[trigger] views[k], *key_msg),
        decreases bindings@.len() - i,
    {
        if bindings[i].matches(key_msg) {
            assert(spec_matches(views[i as int], *key_msg));
            return true;
        }
        i += 1;
    }
    false
}

/// Builds a binding from options (see `Binding::new_binding`).
pub fn new_binding(opts: Vec<BindingOpt>) -> (b: Binding)
    ensures
        b@ == apply_opts(empty_binding(), opts@),
{
    Binding::new_binding(opts)
}

/// An option setting the keys to those that the strings name.
pub fn with_keys_str(keys: &[&str]) -> (o: BindingOpt)
    ensures
        o matches BindingOpt::Keys(k) && k@.len() == keys@.len() && forall|i: int|
            0 <= i < keys@.len() ==> #[trigger] k@[i] == spec_parse_key(keys@[i]@),
{
    BindingOpt::Keys(parse_keys(keys))
}

/// Whether the key event triggers the binding.
pub fn matches_binding(key_msg: &KeyMsg, binding: &Binding) -> (r: bool)
    ensures
        r == spec_matches(binding@, *key_msg),
{
    binding.matches(key_msg)
}

/// An option setting the keys.
pub fn with_keys(keys: Vec<KeyPress>) -> (o: BindingOpt)
    ensures
        o matches BindingOpt::Keys(k) && k@ == keys@,
{
    BindingOpt::Keys(keys)
}

/// An option setting the help text.
pub fn with_help(key: &str, desc: &str) -> (o: BindingOpt)
    ensures
        o matches BindingOpt::Help(k, d) && k@ == key@ && d@ == desc@,
{
    BindingOpt::Help(key.to_string(), desc.to_string())
}

/// An option disabling the binding.
pub fn with_disabled() -> (o: BindingOpt)
    ensures
        o is Disabled,
{
    BindingOpt::Disabled
}

// ---------------------------------------------------------------------------
// Parsing key names
// ---------------------------------------------------------------------------

/// The keys with a fixed name.
pub open spec fn named_key(s: Seq<char>) -> Option<KeyCode> {
    if s == seq!['u', 'p'] { Some(KeyCode::Up) }
    else if s == seq!['d', 'o', 'w', 'n'] { Some(KeyCode::Down) }
    else if s == seq!['l', 'e', 'f', 't'] { Some(KeyCode::Left) }
    else if s == seq!['r', 'i', 'g', 'h', 't'] { Some(KeyCode::Right) }
    else if s == seq!['e', 'n', 't', 'e', 'r'] { Some(KeyCode::Enter) }
    else if s == seq!['t', 'a', 'b'] { Some(KeyCode::Tab) }
    else if s == seq!['b', 'a', 'c', 'k', 's', 'p', 'a', 'c', 'e'] { Some(KeyCode::Backspace) }
    else if s == seq!['d', 'e', 'l', 'e', 't', 'e'] || s == seq!['d', 'e', 'l'] { Some(KeyCode::Delete) }
    else if s == seq!['e', 's', 'c'] || s == seq!['e', 's', 'c', 'a', 'p', 'e'] { Some(KeyCode::Esc) }
    else if s == seq!['h', 'o', 'm', 'e'] { Some(KeyCode::Home) }
    else if s == seq!['e', 'n', 'd'] { Some(KeyCode::End) }
    else if s == seq!['p', 'g', 'u', 'p'] || s == seq!['p', 'a', 'g', 'e', 'u', 'p'] { Some(KeyCode::PageUp) }
    else if s == seq!['p', 'g', 'd', 'o', 'w', 'n'] || s == seq!['p', 'a', 'g', 'e', 'd', 'o', 'w', 'n']
        || s == seq!['p', 'g', 'd', 'n'] { Some(KeyCode::PageDown) }
    else if s == seq!['f', '1'] { Some(KeyCode::F(1)) }
    else if s == seq!['f', '2'] { Some(KeyCode::F(2)) }
    else if s == seq!['f', '3'] { Some(KeyCode::F(3)) }
    else if s == seq!['f', '4'] { Some(KeyCode::F(4)) }
    else if s == seq!['f', '5'] { Some(KeyCode::F(5)) }
    else if s == seq!['f', '6'] { Some(KeyCode::F(6)) }
    else if s == seq!['f', '7'] { Some(KeyCode::F(7)) }
    else if s == seq!['f', '8'] { Some(KeyCode::F(8)) }
    else if s == seq!['f', '9'] { Some(KeyCode::F(9)) }
    else if s == seq!['f', '1', '0'] { Some(KeyCode::F(10)) }
    else if s == seq!['f', '1', '1'] { Some(KeyCode::F(11)) }
    else if s == seq!['f', '1', '2'] { Some(KeyCode::F(12)) }
    else { None }
}

/// A string of exactly one byte: a single ASCII character.
pub open spec fn one_byte(s: Seq<char>) -> bool {
    s.len() == 1 && (s[0] as u32) < 0x80
}

/// The key a string without `+` names, when it is not in the fixed-name table:
/// `" "`/`"space"`, `"insert"`, `"null"`, any single ASCII character, or `Null`.
pub open spec fn simple_key(s: Seq<char>) -> KeyCode {
    if s == seq![' '] || s == seq!['s', 'p', 'a', 'c', 'e'] { KeyCode::Char(' ') }
    else if s == seq!['i', 'n', 's', 'e', 'r', 't'] { KeyCode::Insert }
    else if s == seq!['n', 'u', 'l', 'l'] { KeyCode::Null }
    else if one_byte(s) { KeyCode::Char(s[0]) }
    else { KeyCode::Null }
}

/// The key that a string naming no modifier names.
pub open spec fn plain_key(s: Seq<char>) -> KeyCode {
    match named_key(s) {
        Some(c) => c,
        None => simple_key(s),
    }
}

/// The modifier a modifier name stands for (`NONE` when it names none).
pub open spec fn modifier_of(s: Seq<char>) -> u8 {
    if s == seq!['c', 't', 'r', 'l'] { modifiers::CONTROL }
    else if s == seq!['a', 'l', 't'] { modifiers::ALT }
    else if s == seq!['s', 'h', 'i', 'f', 't'] { modifiers::SHIFT }
    else { modifiers::NONE }
}

/// The key press a compound name such as `"ctrl+s"` or `"ctrl+alt+x"` stands for.
pub open spec fn compound_key(s: Seq<char>) -> KeyPress {
    let parts = split_on(s, '+');
    if parts.len() == 2 {
        let m = parts[0];
        let k = parts[1];
        let code = if k == seq!['t', 'a', 'b'] && m == seq!['s', 'h', 'i', 'f', 't'] {
            KeyCode::BackTab
        } else if k == seq!['s', 'p', 'a', 'c', 'e'] || k == seq![' '] {
            KeyCode::Char(' ')
        } else if one_byte(k) {
            KeyCode::Char(k[0])
        } else {
            plain_key(k)
        };
        KeyPress { code, mods: modifier_of(m) }
    } else if parts.len() == 3 {
        let k = parts[2];
        let code = if one_byte(k) { KeyCode::Char(k[0]) } else { plain_key(k) };
        KeyPress { code, mods: modifier_of(parts[0]) | modifier_of(parts[1]) }
    } else {
        KeyPress { code: KeyCode::Null, mods: modifiers::NONE }
    }
}

/// The key press a string names: a fixed name (`"up"`, `"pgdown"`, `"f5"`, ...), a
/// compound with `+` (`"ctrl+c"`), `"space"`, `"insert"`, `"null"`, a single ASCII
/// character; anything else names `Null`.
pub open spec fn spec_parse_key(s: Seq<char>) -> KeyPress {
    match named_key(s) {
        Some(c) => KeyPress { code: c, mods: modifiers::NONE },
        None => if s.contains('+') {
            compound_key(s)
        } else {
            KeyPress { code: simple_key(s), mods: modifiers::NONE }
        },
    }
}

fn named_key_exec(s: &[char]) -> (r: Option<KeyCode>)
    ensures
        r == named_key(s@),
{
    if chars_eq(s, &['u', 'p']) { Some(KeyCode::Up) }
    else if chars_eq(s, &['d', 'o', 'w', 'n']) { Some(KeyCode::Down) }
    else if chars_eq(s, &['l', 'e', 'f', 't']) { Some(KeyCode::Left) }
    else if chars_eq(s, &['r', 'i', 'g', 'h', 't']) { Some(KeyCode::Right) }
    else if chars_eq(s, &['e', 'n', 't', 'e', 'r']) { Some(KeyCode::Enter) }
    else if chars_eq(s, &['t', 'a', 'b']) { Some(KeyCode::Tab) }
    else if chars_eq(s, &['b', 'a', 'c', 'k', 's', 'p', 'a', 'c', 'e']) { Some(KeyCode::Backspace) }
    else if chars_eq(s, &['d', 'e', 'l', 'e', 't', 'e']) || chars_eq(s, &['d', 'e', 'l']) { Some(KeyCode::Delete) }
    else if chars_eq(s, &['e', 's', 'c']) || chars_eq(s, &['e', 's', 'c', 'a', 'p', 'e']) { Some(KeyCode::Esc) }
    else if chars_eq(s, &['h', 'o', 'm', 'e']) { Some(KeyCode::Home) }
    else if chars_eq(s, &['e', 'n', 'd']) { Some(KeyCode::End) }
    else if chars_eq(s, &['p', 'g', 'u', 'p']) || chars_eq(s, &['p', 'a', 'g', 'e', 'u', 'p']) { Some(KeyCode::PageUp) }
    else if chars_eq(s, &['p', 'g', 'd', 'o', 'w', 'n']) || chars_eq(s, &['p', 'a', 'g', 'e', 'd', 'o', 'w', 'n'])
        || chars_eq(s, &['p', 'g', 'd', 'n']) { Some(KeyCode::PageDown) }
    else if chars_eq(s, &['f', '1']) { Some(KeyCode::F(1)) }
    else if chars_eq(s, &['f', '2']) { Some(KeyCode::F(2)) }
    else if chars_eq(s, &['f', '3']) { Some(KeyCode::F(3)) }
    else if chars_eq(s, &['f', '4']) { Some(KeyCode::F(4)) }
    else if chars_eq(s, &['f', '5']) { Some(KeyCode::F(5)) }
    else if chars_eq(s, &['f', '6']) { Some(KeyCode::F(6)) }
    else if chars_eq(s, &['f', '7']) { Some(KeyCode::F(7)) }
    else if chars_eq(s, &['f', '8']) { Some(KeyCode::F(8)) }
    else if chars_eq(s, &['f', '9']) { Some(KeyCode::F(9)) }
    else if chars_eq(s, &['f', '1', '0']) { Some(KeyCode::F(10)) }
    else if chars_eq(s, &['f', '1', '1']) { Some(KeyCode::F(11)) }
    else if chars_eq(s, &['f', '1', '2']) { Some(KeyCode::F(12)) }
    else { None }
}

fn one_byte_exec(s: &[char]) -> (r: bool)
    ensures
        r == one_byte(s@),
{
    s.len() == 1 && (s[0] as u32) < 0x80
}

fn simple_key_exec(s: &[char]) -> (r: KeyCode)
    ensures
        r == simple_key(s@),
{
    if chars_eq(s, &[' ']) || chars_eq(s, &['s', 'p', 'a', 'c', 'e']) { KeyCode::Char(' ') }
    else if chars_eq(s, &['i', 'n', 's', 'e', 'r', 't']) { KeyCode::Insert }
    else if chars_eq(s, &['n', 'u', 'l', 'l']) { KeyCode::Null }
    else if one_byte_exec(s) { KeyCode::Char(s[0]) }
    else { KeyCode::Null }
}

fn plain_key_exec(s: &[char]) -> (r: KeyCode)
    ensures
        r == plain_key(s@),
{
    match named_key_exec(s) {
        Some(c) => c,
        None => simple_key_exec(s),
    }
}

fn modifier_of_exec(s: &[char]) -> (r: u8)
    ensures
        r == modifier_of(s@),
{
    if chars_eq(s, &['c', 't', 'r', 'l']) { modifiers::CONTROL }
    else if chars_eq(s, &['a', 'l', 't']) { modifiers::ALT }
    else if chars_eq(s, &['s', 'h', 'i', 'f', 't']) { modifiers::SHIFT }
    else { modifiers::NONE }
}

fn compound_key_exec(s: &[char]) -> (r: KeyPress)
    ensures
        r == compound_key(s@),
{
    let parts = split_chars(s, '+');
    if parts.len() == 2 {
        let m = parts[0].as_slice();
        let k = parts[1].as_slice();
        let code = if chars_eq(k, &['t', 'a', 'b']) && chars_eq(m, &['s', 'h', 'i', 'f', 't']) {
            KeyCode::BackTab
        } else if chars_eq(k, &['s', 'p', 'a', 'c', 'e']) || chars_eq(k, &[' ']) {
            KeyCode::Char(' ')
        } else if one_byte_exec(k) {
            KeyCode::Char(k[0])
        } else {
            plain_key_exec(k)
        };
        KeyPress { code, mods: modifier_of_exec(m) }
    } else if parts.len() == 3 {
        let k = parts[2].as_slice();
        let code = if one_byte_exec(k) { KeyCode::Char(k[0]) } else { plain_key_exec(k) };
        let m0 = modifier_of_exec(parts[0].as_slice());
        let m1 = modifier_of_exec(parts[1].as_slice());
        KeyPress { code, mods: m0 | m1 }
    } else {
        KeyPress { code: KeyCode::Null, mods: modifiers::NONE }
    }
}

/// Parses a key name into a key press (see `spec_parse_key`).
pub fn parse_key_string(s: &str) -> (k: KeyPress)
    ensures
        k == spec_parse_key(s@),
{
    let v = str_to_chars(s);
    let cs = v.as_slice();
    match named_key_exec(cs) {
        Some(c) => KeyPress { code: c, mods: modifiers::NONE },
        None => if contains_char(cs, '+') {
            compound_key_exec(cs)
        } else {
            KeyPress { code: simple_key_exec(cs), mods: modifiers::NONE }
        },
    }
}


/// A key press with no modifier.
pub open spec fn plain_press(code: KeyCode) -> KeyPress {
    KeyPress { code, mods: modifiers::NONE }
}

proof fn lemma_key_name_0()
    ensures
        spec_parse_key(seq!['u', 'p']) == plain_press(KeyCode::Up),
{
}

proof fn lemma_key_name_1()
    ensures
        spec_parse_key(seq!['d', 'o', 'w', 'n']) == plain_press(KeyCode::Down),
{
}

proof fn lemma_key_name_2()
    ensures
        spec_parse_key(seq!['l', 'e', 'f', 't']) == plain_press(KeyCode::Left),
{
}

proof fn lemma_key_name_3()
    ensures
        spec_parse_key(seq!['r', 'i', 'g', 'h', 't']) == plain_press(KeyCode::Right),
{
}

proof fn lemma_key_name_4()
    ensures
        spec_parse_key(seq!['e', 'n', 't', 'e', 'r']) == plain_press(KeyCode::Enter),
{
}

proof fn lemma_key_name_5()
    ensures
        spec_parse_key(seq!['t', 'a', 'b']) == plain_press(KeyCode::Tab),
{
}

proof fn lemma_key_name_6()
    ensures
        spec_parse_key(seq!['b', 'a', 'c', 'k', 's', 'p', 'a', 'c', 'e']) == plain_press(KeyCode::Backspace),
{
}

proof fn lemma_key_name_7()
    ensures
        spec_parse_key(seq!['d', 'e', 'l', 'e', 't', 'e']) == plain_press(KeyCode::Delete),
{
}

proof fn lemma_key_name_8()
    ensures
        spec_parse_key(seq!['d', 'e', 'l']) == plain_press(KeyCode::Delete),
{
}

proof fn lemma_key_name_9()
    ensures
        spec_parse_key(seq!['e', 's', 'c']) == plain_press(KeyCode::Esc),
{
}

proof fn lemma_key_name_10()
    ensures
        spec_parse_key(seq!['e', 's', 'c', 'a', 'p', 'e']) == plain_press(KeyCode::Esc),
{
}

proof fn lemma_key_name_11()
    ensures
        spec_parse_key(seq!['h', 'o', 'm', 'e']) == plain_press(KeyCode::Home),
{
}

proof fn lemma_key_name_12()
    ensures
        spec_parse_key(seq!['e', 'n', 'd']) == plain_press(KeyCode::End),
{
}

proof fn lemma_key_name_13()
    ensures
        spec_parse_key(seq!['p', 'g', 'u', 'p']) == plain_press(KeyCode::PageUp),
{
}

proof fn lemma_key_name_14()
    ensures
        spec_parse_key(seq!['p', 'a', 'g', 'e', 'u', 'p']) == plain_press(KeyCode::PageUp),
{
}

proof fn lemma_key_name_15()
    ensures
        spec_parse_key(seq!['p', 'g', 'd', 'o', 'w', 'n']) == plain_press(KeyCode::PageDown),
{
}

proof fn lemma_key_name_16()
    ensures
        spec_parse_key(seq!['p', 'a', 'g', 'e', 'd', 'o', 'w', 'n']) == plain_press(KeyCode::PageDown),
{
}

proof fn lemma_key_name_17()
    ensures
        spec_parse_key(seq!['p', 'g', 'd', 'n']) == plain_press(KeyCode::PageDown),
{
}

proof fn lemma_key_name_18()
    ensures
        spec_parse_key(seq![' ']) == plain_press(KeyCode::Char(' ')),
{
}

proof fn lemma_key_name_19()
    ensures
        spec_parse_key(seq!['s', 'p', 'a', 'c', 'e']) == plain_press(KeyCode::Char(' ')),
{
}

proof fn lemma_key_name_20()
    ensures
        spec_parse_key(seq!['i', 'n', 's', 'e', 'r', 't']) == plain_press(KeyCode::Insert),
{
}

proof fn lemma_key_name_21()
    ensures
        spec_parse_key(seq!['n', 'u', 'l', 'l']) == plain_press(KeyCode::Null),
{
}

proof fn lemma_key_name_22()
    ensures
        spec_parse_key(seq!['f', '1']) == plain_press(KeyCode::F(1)),
{
}

proof fn lemma_key_name_23()
    ensures
        spec_parse_key(seq!['f', '2']) == plain_press(KeyCode::F(2)),
{
}

proof fn lemma_key_name_24()
    ensures
        spec_parse_key(seq!['f', '3']) == plain_press(KeyCode::F(3)),
{
}

proof fn lemma_key_name_25()
    ensures
        spec_parse_key(seq!['f', '4']) == plain_press(KeyCode::F(4)),
{
}

proof fn lemma_key_name_26()
    ensures
        spec_parse_key(seq!['f', '5']) == plain_press(KeyCode::F(5)),
{
}

proof fn lemma_key_name_27()
    ensures
        spec_parse_key(seq!['f', '6']) == plain_press(KeyCode::F(6)),
{
}

proof fn lemma_key_name_28()
    ensures
        spec_parse_key(seq!['f', '7']) == plain_press(KeyCode::F(7)),
{
}

proof fn lemma_key_name_29()
    ensures
        spec_parse_key(seq!['f', '8']) == plain_press(KeyCode::F(8)),
{
}

proof fn lemma_key_name_30()
    ensures
        spec_parse_key(seq!['f', '9']) == plain_press(KeyCode::F(9)),
{
}

proof fn lemma_key_name_31()
    ensures
        spec_parse_key(seq!['f', '1', '0']) == plain_press(KeyCode::F(10)),
{
}

proof fn lemma_key_name_32()
    ensures
        spec_parse_key(seq!['f', '1', '1']) == plain_press(KeyCode::F(11)),
{
}

proof fn lemma_key_name_33()
    ensures
        spec_parse_key(seq!['f', '1', '2']) == plain_press(KeyCode::F(12)),
{
}

/// The documented key names and what each parses to: arrows, enter, tab, backspace,
/// delete/del, esc/escape, home, end, pgup/pageup, pgdown/pagedown/pgdn, space, insert,
/// null and f1 to f12, each without modifiers.
pub proof fn law_key_name_table()
    ensures
        spec_parse_key(seq!['u', 'p']) == plain_press(KeyCode::Up),
        spec_parse_key(seq!['d', 'o', 'w', 'n']) == plain_press(KeyCode::Down),
        spec_parse_key(seq!['l', 'e', 'f', 't']) == plain_press(KeyCode::Left),
        spec_parse_key(seq!['r', 'i', 'g', 'h', 't']) == plain_press(KeyCode::Right),
        spec_parse_key(seq!['e', 'n', 't', 'e', 'r']) == plain_press(KeyCode::Enter),
        spec_parse_key(seq!['t', 'a', 'b']) == plain_press(KeyCode::Tab),
        spec_parse_key(seq!['b', 'a', 'c', 'k', 's', 'p', 'a', 'c', 'e']) == plain_press(KeyCode::Backspace),
        spec_parse_key(seq!['d', 'e', 'l', 'e', 't', 'e']) == plain_press(KeyCode::Delete),
        spec_parse_key(seq!['d', 'e', 'l']) == plain_press(KeyCode::Delete),
        spec_parse_key(seq!['e', 's', 'c']) == plain_press(KeyCode::Esc),
        spec_parse_key(seq!['e', 's', 'c', 'a', 'p', 'e']) == plain_press(KeyCode::Esc),
        spec_parse_key(seq!['h', 'o', 'm', 'e']) == plain_press(KeyCode::Home),
        spec_parse_key(seq!['e', 'n', 'd']) == plain_press(KeyCode::End),
        spec_parse_key(seq!['p', 'g', 'u', 'p']) == plain_press(KeyCode::PageUp),
        spec_parse_key(seq!['p', 'a', 'g', 'e', 'u', 'p']) == plain_press(KeyCode::PageUp),
        spec_parse_key(seq!['p', 'g', 'd', 'o', 'w', 'n']) == plain_press(KeyCode::PageDown),
        spec_parse_key(seq!['p', 'a', 'g', 'e', 'd', 'o', 'w', 'n']) == plain_press(KeyCode::PageDown),
        spec_parse_key(seq!['p', 'g', 'd', 'n']) == plain_press(KeyCode::PageDown),
        spec_parse_key(seq![' ']) == plain_press(KeyCode::Char(' ')),
        spec_parse_key(seq!['s', 'p', 'a', 'c', 'e']) == plain_press(KeyCode::Char(' ')),
        spec_parse_key(seq!['i', 'n', 's', 'e', 'r', 't']) == plain_press(KeyCode::Insert),
        spec_parse_key(seq!['n', 'u', 'l', 'l']) == plain_press(KeyCode::Null),
        spec_parse_key(seq!['f', '1']) == plain_press(KeyCode::F(1)),
        spec_parse_key(seq!['f', '2']) == plain_press(KeyCode::F(2)),
        spec_parse_key(seq!['f', '3']) == plain_press(KeyCode::F(3)),
        spec_parse_key(seq!['f', '4']) == plain_press(KeyCode::F(4)),
        spec_parse_key(seq!['f', '5']) == plain_press(KeyCode::F(5)),
        spec_parse_key(seq!['f', '6']) == plain_press(KeyCode::F(6)),
        spec_parse_key(seq!['f', '7']) == plain_press(KeyCode::F(7)),
        spec_parse_key(seq!['f', '8']) == plain_press(KeyCode::F(8)),
        spec_parse_key(seq!['f', '9']) == plain_press(KeyCode::F(9)),
        spec_parse_key(seq!['f', '1', '0']) == plain_press(KeyCode::F(10)),
        spec_parse_key(seq!['f', '1', '1']) == plain_press(KeyCode::F(11)),
        spec_parse_key(seq!['f', '1', '2']) == plain_press(KeyCode::F(12)),
{
    lemma_key_name_0();
    lemma_key_name_1();
    lemma_key_name_2();
    lemma_key_name_3();
    lemma_key_name_4();
    lemma_key_name_5();
    lemma_key_name_6();
    lemma_key_name_7();
    lemma_key_name_8();
    lemma_key_name_9();
    lemma_key_name_10();
    lemma_key_name_11();
    lemma_key_name_12();
    lemma_key_name_13();
    lemma_key_name_14();
    lemma_key_name_15();
    lemma_key_name_16();
    lemma_key_name_17();
    lemma_key_name_18();
    lemma_key_name_19();
    lemma_key_name_20();
    lemma_key_name_21();
    lemma_key_name_22();
    lemma_key_name_23();
    lemma_key_name_24();
    lemma_key_name_25();
    lemma_key_name_26();
    lemma_key_name_27();
    lemma_key_name_28();
    lemma_key_name_29();
    lemma_key_name_30();
    lemma_key_name_31();
    lemma_key_name_32();
    lemma_key_name_33();
}

/// A single ASCII character other than `+` parses to that character key without
/// modifiers.
pub proof fn law_single_character_key(c: char)
    requires
        (c as u32) < 0x80,
        c != '+',
    ensures
        spec_parse_key(seq![c]) == plain_press(KeyCode::Char(c)),
{
    let s = seq![c];
    assert(named_key(s) is None);
    assert(!s.contains('+')) by {
        if s.contains('+') {
            assert(s[0] == '+');
        }
    }
    assert(one_byte(s));
}


/// Text without `+` splits into itself alone.
proof fn lemma_split_without_sep(m: Seq<char>)
    requires
        !m.contains('+'),
    ensures
        split_on(m, '+') == seq![m],
    decreases m.len(),
{
    if m.len() > 0 {
        assert(!m.drop_last().contains('+')) by {
            if m.drop_last().contains('+') {
                let k = choose|k: int| 0 <= k < m.drop_last().len() && m.drop_last()[k] == '+';
                assert(m[k] == '+');
            }
        }
        lemma_split_without_sep(m.drop_last());
        assert(m.last() != '+') by {
            assert(m[m.len() - 1] == m.last());
        }
        assert(m.drop_last().push(m.last()) =~= m);
    } else {
        assert(m =~= Seq::<char>::empty());
    }
}

/// A modifier name, `+` and one character split into the name and the character.
proof fn lemma_split_compound(m: Seq<char>, c: char)
    requires
        !m.contains('+'),
        c != '+',
    ensures
        split_on(m + seq!['+', c], '+') == seq![m, seq![c]],
{
    let s = m + seq!['+', c];
    lemma_split_without_sep(m);
    assert(s.drop_last() =~= m.push('+'));
    assert(m.push('+').drop_last() =~= m);
    assert(split_on(m.push('+'), '+') == seq![m].push(Seq::<char>::empty()));
    assert(Seq::<char>::empty().push(c) =~= seq![c]);
    assert(split_on(s, '+') =~= seq![m, seq![c]]);
}

/// A fixed key name holds no `+`, so a text with `+` is no fixed name.
proof fn lemma_plus_is_no_name(s: Seq<char>)
    requires
        s.contains('+'),
    ensures
        named_key(s) is None,
{
    let k = choose|k: int| 0 <= k < s.len() && s[k] == '+';
    assert(s[k] == '+');
}

/// `ctrl+`, `alt+` or `shift+` and a single ASCII character other than `+` parse to
/// that character key with the one modifier.
pub proof fn law_modifier_and_character(c: char)
    requires
        (c as u32) < 0x80,
        c != '+',
    ensures
        spec_parse_key(seq!['c', 't', 'r', 'l', '+', c]) == (KeyPress { code: KeyCode::Char(c), mods: modifiers::CONTROL }),
        spec_parse_key(seq!['a', 'l', 't', '+', c]) == (KeyPress { code: KeyCode::Char(c), mods: modifiers::ALT }),
        spec_parse_key(seq!['s', 'h', 'i', 'f', 't', '+', c]) == (KeyPress { code: KeyCode::Char(c), mods: modifiers::SHIFT }),
{
    let ctrl = seq!['c', 't', 'r', 'l'];
    let alt = seq!['a', 'l', 't'];
    let shift = seq!['s', 'h', 'i', 'f', 't'];
    assert(!ctrl.contains('+')) by {
        if ctrl.contains('+') {
            let k = choose|k: int| 0 <= k < ctrl.len() && ctrl[k] == '+';
        }
    }
    assert(!alt.contains('+')) by {
        if alt.contains('+') {
            let k = choose|k: int| 0 <= k < alt.len() && alt[k] == '+';
        }
    }
    assert(!shift.contains('+')) by {
        if shift.contains('+') {
            let k = choose|k: int| 0 <= k < shift.len() && shift[k] == '+';
        }
    }
    lemma_split_compound(ctrl, c);
    lemma_split_compound(alt, c);
    lemma_split_compound(shift, c);
    assert(ctrl + seq!['+', c] =~= seq!['c', 't', 'r', 'l', '+', c]);
    assert(alt + seq!['+', c] =~= seq!['a', 'l', 't', '+', c]);
    assert(shift + seq!['+', c] =~= seq!['s', 'h', 'i', 'f', 't', '+', c]);
    assert(seq!['c', 't', 'r', 'l', '+', c][4] == '+');
    assert(seq!['a', 'l', 't', '+', c][3] == '+');
    assert(seq!['s', 'h', 'i', 'f', 't', '+', c][5] == '+');
    lemma_plus_is_no_name(seq!['c', 't', 'r', 'l', '+', c]);
    lemma_plus_is_no_name(seq!['a', 'l', 't', '+', c]);
    lemma_plus_is_no_name(seq!['s', 'h', 'i', 'f', 't', '+', c]);
    assert(one_byte(seq![c]));
    assert(seq![c] != seq!['t', 'a', 'b']) by {
        assert(seq![c].len() != seq!['t', 'a', 'b'].len());
    }
    assert(seq![c] != seq!['s', 'p', 'a', 'c', 'e']) by {
        assert(seq![c].len() != seq!['s', 'p', 'a', 'c', 'e'].len());
    }
}


/// An enabled binding fires on each of its key presses and on nothing else; a disabled
/// binding never fires.
pub proof fn law_binding_fires_on_its_keys(b: BindingView, msg: KeyMsg)
    ensures
        !b.enabled ==> !spec_matches(b, msg),
        b.enabled ==> (spec_matches(b, msg) <==> b.keys.contains(KeyPress { code: msg.key, mods: msg.modifiers })),
{
    let p = KeyPress { code: msg.key, mods: msg.modifiers };
    if b.enabled && b.keys.contains(p) {
        let i = choose|i: int| 0 <= i < b.keys.len() && b.keys[i] == p;
        assert(b.keys[i] == p);
    }
}

} // verus!
