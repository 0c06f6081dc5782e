//! The default key bindings of the list.
use vstd::prelude::*;
use crate::key::{self, Binding, BindingView, KeyCode, KeyMap, KeyPress};
use crate::key::modifiers;

verus! {

/// The key bindings of a list.
#[derive(Debug, Clone)]
pub struct ListKeyMap {
    pub cursor_up: Binding,
    pub cursor_down: Binding,
    pub next_page: Binding,
    pub prev_page: Binding,
    pub go_to_start: Binding,
    pub go_to_end: Binding,
    pub filter: Binding,
    pub clear_filter: Binding,
    pub cancel_filter: Binding,
    pub accept_filter: Binding,
    pub show_full_help: Binding,
    pub close_full_help: Binding,
    pub quit: Binding,
    pub force_quit: Binding,
}

/// A key press without modifiers.
pub open spec fn kp(c: KeyCode) -> KeyPress {
    KeyPress { code: c, mods: modifiers::NONE }
}

/// An enabled binding with the given keys and help.
pub open spec fn bound(keys: Seq<KeyPress>, help_key: Seq<char>, help_desc: Seq<char>) -> BindingView {
    BindingView { keys, help_key, help_desc, enabled: true }
}

/// The binding fixed by its keys and help, enabled.
pub(crate) fn binding(codes: Vec<KeyCode>, help_key: &str, help_desc: &str) -> (b: Binding)
    ensures
        b@.keys.len() == codes@.len(),
        forall|i: int| 0 <= i < codes@.len() ==> #[trigger] b@.keys[i] == kp(codes@[i]),
        b@.help_key == help_key@,
        b@.help_desc == help_desc@,
        b@.enabled,
{
    Binding::from_codes(codes).with_help(help_key, help_desc)
}

/// The bindings of `ListKeyMap::default`, one by one.
pub open spec fn is_default_keymap(k: ListKeyMap) -> bool {
    &&& k.cursor_up@ == bound(seq![kp(KeyCode::Up), kp(KeyCode::Char('k'))], "↑/k"@, "up"@)
    &&& k.cursor_down@ == bound(seq![kp(KeyCode::Down), kp(KeyCode::Char('j'))], "↓/j"@, "down"@)
    &&& k.next_page@ == bound(
            seq![kp(KeyCode::Right), kp(KeyCode::Char('l')), kp(KeyCode::PageDown), kp(KeyCode::Char('f')), kp(KeyCode::Char('d'))],
            "→/l/pgdn"@,
            "next page"@,
        )
    &&& k.prev_page@ == bound(
            seq![kp(KeyCode::Left), kp(KeyCode::Char('h')), kp(KeyCode::PageUp), kp(KeyCode::Char('b')), kp(KeyCode::Char('u'))],
            "←/h/pgup"@,
            "prev page"@,
        )
    &&& k.go_to_start@ == bound(seq![kp(KeyCode::Home), kp(KeyCode::Char('g'))], "g/home"@, "go to start"@)
    &&& k.go_to_end@ == bound(seq![kp(KeyCode::End), kp(KeyCode::Char('G'))], "G/end"@, "go to end"@)
    &&& k.filter@ == bound(seq![kp(KeyCode::Char('/'))], "/"@, "filter"@)
    &&& k.clear_filter@ == bound(
            seq![kp(KeyCode::Esc), KeyPress { code: KeyCode::Char('c'), mods: modifiers::CONTROL }],
            "esc"@,
            "clear filter"@,
        )
    &&& k.cancel_filter@ == bound(seq![kp(KeyCode::Esc)], "esc"@, "cancel"@)
    &&& k.accept_filter@ == bound(
            seq![kp(KeyCode::Enter), kp(KeyCode::Tab), kp(KeyCode::Up), kp(KeyCode::Down)],
            "enter"@,
            "apply filter"@,
        )
    &&& k.show_full_help@ == bound(seq![kp(KeyCode::Char('?'))], "?"@, "more"@)
    &&& k.close_full_help@ == bound(seq![kp(KeyCode::Char('?'))], "?"@, "close help"@)
    &&& k.quit@ == bound(seq![kp(KeyCode::Char('q')), kp(KeyCode::Esc)], "q"@, "quit"@)
    &&& k.force_quit@ == bound(
            seq![KeyPress { code: KeyCode::Char('c'), mods: modifiers::CONTROL }],
            "ctrl+c"@,
            "force quit"@,
        )
}

impl ListKeyMap {
    /// The default bindings: up/`k`, down/`j`, right/`l`/pgdown/`f`/`d` (next page),
    /// left/`h`/pgup/`b`/`u` (previous page), home/`g`, end/`G`, `/` (filter), esc
    /// (clear and cancel filter), ctrl+c (clear filter), enter/tab/up/down (accept filter), `?` (help),
    /// `q`/esc (quit), ctrl+c (force quit).
    pub fn default() -> (k: ListKeyMap)
        ensures
            is_default_keymap(k),
    {
        let k = ListKeyMap {
            cursor_up: binding(vec![KeyCode::Up, KeyCode::Char('k')], "↑/k", "up"),
            cursor_down: binding(vec![KeyCode::Down, KeyCode::Char('j')], "↓/j", "down"),
            next_page: binding(
                vec![KeyCode::Right, KeyCode::Char('l'), KeyCode::PageDown, KeyCode::Char('f'), KeyCode::Char('d')],
                "→/l/pgdn",
                "next page",
            ),
            prev_page: binding(
                vec![KeyCode::Left, KeyCode::Char('h'), KeyCode::PageUp, KeyCode::Char('b'), KeyCode::Char('u')],
                "←/h/pgup",
                "prev page",
            ),
            go_to_start: binding(vec![KeyCode::Home, KeyCode::Char('g')], "g/home", "go to start"),
            go_to_end: binding(vec![KeyCode::End, KeyCode::Char('G')], "G/end", "go to end"),
            filter: binding(vec![KeyCode::Char('/')], "/", "filter"),
            clear_filter: Binding::new(
                vec![KeyPress::from_code(KeyCode::Esc), KeyPress::with_mods(KeyCode::Char('c'), modifiers::CONTROL)],
            ).with_help("esc", "clear filter"),
            cancel_filter: binding(vec![KeyCode::Esc], "esc", "cancel"),
            accept_filter: binding(
                vec![KeyCode::Enter, KeyCode::Tab, KeyCode::Up, KeyCode::Down],
                "enter",
                "apply filter",
            ),
            show_full_help: binding(vec![KeyCode::Char('?')], "?", "more"),
            close_full_help: binding(vec![KeyCode::Char('?')], "?", "close help"),
            quit: binding(vec![KeyCode::Char('q'), KeyCode::Esc], "q", "quit"),
            force_quit: Binding::new(vec![KeyPress::with_mods(KeyCode::Char('c'), modifiers::CONTROL)])
                .with_help("ctrl+c", "force quit"),
        };
        assert(k.cursor_up@.keys =~= seq![kp(KeyCode::Up), kp(KeyCode::Char('k'))]);
        assert(k.cursor_down@.keys =~= seq![kp(KeyCode::Down), kp(KeyCode::Char('j'))]);
        assert(k.next_page@.keys =~= seq![kp(KeyCode::Right), kp(KeyCode::Char('l')), kp(KeyCode::PageDown), kp(KeyCode::Char('f')), kp(KeyCode::Char('d'))]);
        assert(k.prev_page@.keys =~= seq![kp(KeyCode::Left), kp(KeyCode::Char('h')), kp(KeyCode::PageUp), kp(KeyCode::Char('b')), kp(KeyCode::Char('u'))]);
        assert(k.go_to_start@.keys =~= seq![kp(KeyCode::Home), kp(KeyCode::Char('g'))]);
        assert(k.go_to_end@.keys =~= seq![kp(KeyCode::End), kp(KeyCode::Char('G'))]);
        assert(k.filter@.keys =~= seq![kp(KeyCode::Char('/'))]);
        assert(k.clear_filter@.keys =~= seq![kp(KeyCode::Esc), KeyPress { code: KeyCode::Char('c'), mods: modifiers::CONTROL }]);
        assert(k.cancel_filter@.keys =~= seq![kp(KeyCode::Esc)]);
        assert(k.accept_filter@.keys =~= seq![kp(KeyCode::Enter), kp(KeyCode::Tab), kp(KeyCode::Up), kp(KeyCode::Down)]);
        assert(k.show_full_help@.keys =~= seq![kp(KeyCode::Char('?'))]);
        assert(k.close_full_help@.keys =~= seq![kp(KeyCode::Char('?'))]);
        assert(k.quit@.keys =~= seq![kp(KeyCode::Char('q')), kp(KeyCode::Esc)]);
        assert(k.force_quit@.keys =~= seq![KeyPress { code: KeyCode::Char('c'), mods: modifiers::CONTROL }]);
        k
    }
}

impl KeyMap for ListKeyMap {
    fn short_help(&self) -> (r: Vec<&Binding>)
        ensures
            r@ == seq![&self.cursor_up, &self.cursor_down, &self.filter, &self.quit],
    {
        vec![&self.cursor_up, &self.cursor_down, &self.filter, &self.quit]
    }

    fn full_help(&self) -> (r: Vec<Vec<&Binding>>)
        ensures
            r@.len() == 3,
            r@[0]@ == seq![&self.cursor_up, &self.cursor_down, &self.next_page, &self.prev_page, &self.go_to_start, &self.go_to_end],
            r@[1]@ == seq![&self.filter, &self.clear_filter, &self.accept_filter, &self.cancel_filter],
            r@[2]@ == seq![&self.show_full_help, &self.quit],
    {
        vec![
            vec![
                &self.cursor_up,
                &self.cursor_down,
                &self.next_page,
                &self.prev_page,
                &self.go_to_start,
                &self.go_to_end,
            ],
            vec![&self.filter, &self.clear_filter, &self.accept_filter, &self.cancel_filter],
            vec![&self.show_full_help, &self.quit],
        ]
    }
}

} // verus!
