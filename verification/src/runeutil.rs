//! Text sanitization: removes escape sequences and control characters and replaces
//! newlines and tabs with
//! configurable strings.
use vstd::prelude::*;
use crate::text::{chars_to_string, str_to_chars};

verus! {

/// A Unicode control character (general category `Cc`): U+0000..=U+001F and
/// U+007F..=U+009F.
pub open spec fn is_control(c: char) -> bool {
    (c as u32) <= 0x1f || (0x7f <= (c as u32) && (c as u32) <= 0x9f)
}

/// Whether a character is a control character (`char::is_control`).
pub fn char_is_control(c: char) -> (r: bool)
    ensures
        r == is_control(c),
{
    let v = c as u32;
    v <= 0x1f || (0x7f <= v && v <= 0x9f)
}

/// What one input character becomes: newlines (`\n`, `\r`) the newline replacement,
/// tabs the tab replacement, other control characters nothing, everything else itself.
pub open spec fn sanitize_char(nl: Seq<char>, tab: Seq<char>, c: char) -> Seq<char> {
    if c == '\r' || c == '\n' {
        nl
    } else if c == '\t' {
        tab
    } else if is_control(c) {
        Seq::empty()
    } else {
        seq![c]
    }
}

/// The escape character, which starts a terminal control sequence.
pub open spec fn esc() -> char {
    '\u{1b}'
}

/// A parameter or intermediate character of a control sequence (U+0020..=U+003F).
pub open spec fn is_csi_body(c: char) -> bool {
    0x20 <= (c as u32) && (c as u32) <= 0x3f
}

/// The final character of a control sequence (U+0040..=U+007E).
pub open spec fn is_csi_final(c: char) -> bool {
    0x40 <= (c as u32) && (c as u32) <= 0x7e
}

/// The sanitized form of `s`, read from its start. Outside a control sequence, an escape
/// character followed by `[` opens one and both are dropped; every other character is
/// replaced as `sanitize_char` says. Inside one (`in_seq`), parameter characters are
/// dropped, a final character is dropped and closes it, and any other character closes
/// it and is then read as outside. A sequence left open drops the rest of the text.
pub open spec fn sanitize_from(nl: Seq<char>, tab: Seq<char>, s: Seq<char>, in_seq: bool) -> Seq<char>
    decreases s.len(), (if in_seq { 1int } else { 0int }),
{
    if s.len() == 0 {
        Seq::empty()
    } else if in_seq {
        if is_csi_body(s[0]) {
            sanitize_from(nl, tab, s.drop_first(), true)
        } else if is_csi_final(s[0]) {
            sanitize_from(nl, tab, s.drop_first(), false)
        } else {
            sanitize_from(nl, tab, s, false)
        }
    } else if s[0] == esc() && s.len() >= 2 && s[1] == '[' {
        sanitize_from(nl, tab, s.skip(2), true)
    } else {
        sanitize_char(nl, tab, s[0]) + sanitize_from(nl, tab, s.drop_first(), false)
    }
}

/// The sanitized form of a character sequence: escape sequences (`ESC [` parameters
/// final) removed whole, then each other character replaced as `sanitize_char` says.
pub open spec fn sanitize_seq(nl: Seq<char>, tab: Seq<char>, s: Seq<char>) -> Seq<char> {
    sanitize_from(nl, tab, s, false)
}

/// A configurable text sanitizer.
#[derive(Debug, Clone)]
pub struct Sanitizer {
    replace_newline: String,
    replace_tab: String,
}

/// The configuration of a sanitizer: its newline and tab replacements.
pub struct SanitizerView {
    pub newline: Seq<char>,
    pub tab: Seq<char>,
}

impl View for Sanitizer {
    type V = SanitizerView;

    closed spec fn view(&self) -> SanitizerView {
        SanitizerView { newline: self.replace_newline@, tab: self.replace_tab@ }
    }
}

/// A configuration option applied by `new_sanitizer`.
#[derive(Debug, Clone)]
pub enum SanitizerOpt {
    /// Replace tabs with the given string.
    ReplaceTabs(String),
    /// Replace newlines with the given string.
    ReplaceNewlines(String),
}

impl Sanitizer {
    /// The default sanitizer: newlines stay `"\n"`, tabs become four spaces.
    pub fn default() -> (s: Self)
        ensures
            s@.newline == seq!['\n'],
            s@.tab == seq![' ', ' ', ' ', ' '],
    {
        Sanitizer {
            replace_newline: chars_to_string(&['\n']),
            replace_tab: chars_to_string(&[' ', ' ', ' ', ' ']),
        }
    }

    /// Applies one option.
    pub fn apply(&mut self, opt: &SanitizerOpt)
        ensures
            match *opt {
                SanitizerOpt::ReplaceTabs(t) => final(self)@.tab == t@ && final(self)@.newline
                    == old(self)@.newline,
                SanitizerOpt::ReplaceNewlines(n) => final(self)@.newline == n@ && final(self)@.tab
                    == old(self)@.tab,
            },
    {
        match opt {
            SanitizerOpt::ReplaceTabs(t) => {
                self.replace_tab = t.clone();
            },
            SanitizerOpt::ReplaceNewlines(n) => {
                self.replace_newline = n.clone();
            },
        }
    }

    /// Removes escape sequences and control characters from `input` and replaces
    /// newlines and tabs.
    pub fn sanitize_str(&self, input: &str) -> (r: String)
        ensures
            r@ == sanitize_seq(self@.newline, self@.tab, input@),
    {
        let chars = str_to_chars(input);
        let out = self.sanitize_runes(chars.as_slice());
        chars_to_string(out.as_slice())
    }

    /// Removes escape sequences and control characters from `runes` and replaces
    /// newlines and tabs.
    pub fn sanitize_runes(&self, runes: &[char]) -> (r: Vec<char>)
        ensures
            r@ == sanitize_seq(self@.newline, self@.tab, runes@),
    {
        let nl = str_to_chars(self.replace_newline.as_str());
        let tab = str_to_chars(self.replace_tab.as_str());
        let mut out: Vec<char> = Vec::new();
        let mut in_seq = false;
        let mut i: usize = 0;
        assert(runes@.skip(0) =~= runes@);
        assert(Seq::<char>::empty() + sanitize_seq(self@.newline, self@.tab, runes@) =~= sanitize_seq(
            self@.newline,
            self@.tab,
            runes@,
        ));
        while i < runes.len()
            invariant
                i <= runes@.len(),
                nl@ == self@.newline,
                tab@ == self@.tab,
                out@ + sanitize_from(self@.newline, self@.tab, runes@.skip(i as int), in_seq)
                    == sanitize_seq(self@.newline, self@.tab, runes@),
            decreases runes@.len() - i, (if in_seq { 1int } else { 0int }),
        {
            let ghost rest = runes@.skip(i as int);
            let c = runes[i];
            assert(rest[0] == c);
            assert(rest.drop_first() =~= runes@.skip(i as int + 1));
            let v = c as u32;
            if in_seq {
                if 0x20 <= v && v <= 0x3f {
                    i += 1;
                } else if 0x40 <= v && v <= 0x7e {
                    in_seq = false;
                    i += 1;
                } else {
                    in_seq = false;
                }
            } else if c == '\u{1b}' && i + 1 < runes.len() && runes[i + 1] == '[' {
                assert(rest[1] == runes@[i as int + 1]);
                assert(rest.skip(2) =~= runes@.skip(i as int + 2));
                in_seq = true;
                i += 2;
            } else {
                let ghost before = out@;
                if c == '\r' || c == '\n' {
                    append_chars(&mut out, &nl);
                } else if c == '\t' {
                    append_chars(&mut out, &tab);
                } else if char_is_control(c) {
                } else {
                    out.push(c);
                }
                assert(out@ == before + sanitize_char(self@.newline, self@.tab, c));
                assert(before + (sanitize_char(self@.newline, self@.tab, c) + sanitize_from(
                    self@.newline,
                    self@.tab,
                    runes@.skip(i as int + 1),
                    false,
                )) == out@ + sanitize_from(self@.newline, self@.tab, runes@.skip(i as int + 1), false));
                i += 1;
            }
        }
        assert(runes@.skip(i as int) =~= Seq::<char>::empty());
        assert(out@ + Seq::<char>::empty() =~= out@);
        out
    }
}

/// Appends all characters of `src` to `dst`.
fn append_chars(dst: &mut Vec<char>, src: &Vec<char>)
    ensures
        final(dst)@ == old(dst)@ + src@,
{
    let mut i: usize = 0;
    while i < src.len()
        invariant
            i <= src@.len(),
            dst@ == old(dst)@ + src@.take(i as int),
        decreases src@.len() - i,
    {
        dst.push(src[i]);
        assert(src@.take(i as int + 1) == src@.take(i as int).push(src@[i as int]));
        i += 1;
    }
    assert(src@.take(src@.len() as int) == src@);
}

/// Creates a sanitizer from the defaults with the options applied in order.
pub fn new_sanitizer(opts: Vec<SanitizerOpt>) -> (s: Sanitizer)
    ensures
        s@.newline == final_newline(opts@, seq!['\n']),
        s@.tab == final_tab(opts@, seq![' ', ' ', ' ', ' ']),
{
    let mut s = Sanitizer::default();
    let mut i: usize = 0;
    while i < opts.len()
        invariant
            i <= opts@.len(),
            s@.newline == final_newline(opts@.take(i as int), seq!['\n']),
            s@.tab == final_tab(opts@.take(i as int), seq![' ', ' ', ' ', ' ']),
        decreases opts@.len() - i,
    {
        assert(opts@.take(i as int + 1).drop_last() == opts@.take(i as int));
        s.apply(&opts[i]);
        i += 1;
    }
    assert(opts@.take(opts@.len() as int) == opts@);
    s
}

/// The newline replacement after applying `opts` to a sanitizer whose newline
/// replacement was `init`: the last `ReplaceNewlines` option wins.
pub open spec fn final_newline(opts: Seq<SanitizerOpt>, init: Seq<char>) -> Seq<char>
    decreases opts.len(),
{
    if opts.len() == 0 {
        init
    } else {
        match opts.last() {
            SanitizerOpt::ReplaceNewlines(n) => n@,
            _ => final_newline(opts.drop_last(), init),
        }
    }
}

/// The tab replacement after applying `opts` to a sanitizer whose tab replacement was
/// `init`: the last `ReplaceTabs` option wins.
pub open spec fn final_tab(opts: Seq<SanitizerOpt>, init: Seq<char>) -> Seq<char>
    decreases opts.len(),
{
    if opts.len() == 0 {
        init
    } else {
        match opts.last() {
            SanitizerOpt::ReplaceTabs(t) => t@,
            _ => final_tab(opts.drop_last(), init),
        }
    }
}

/// An option that replaces tabs with `tab_repl`.
pub fn replace_tabs(tab_repl: &str) -> (o: SanitizerOpt)
    ensures
        o matches SanitizerOpt::ReplaceTabs(t) && t@ == tab_repl@,
{
    SanitizerOpt::ReplaceTabs(tab_repl.to_string())
}

/// An option that replaces newlines with `nl_repl`.
pub fn replace_newlines(nl_repl: &str) -> (o: SanitizerOpt)
    ensures
        o matches SanitizerOpt::ReplaceNewlines(n) && n@ == nl_repl@,
{
    SanitizerOpt::ReplaceNewlines(nl_repl.to_string())
}

/// Sanitizing distributes over concatenation when the first part holds no escape
/// character (so no escape sequence spans the two parts).
pub proof fn lemma_sanitize_append(nl: Seq<char>, tab: Seq<char>, a: Seq<char>, b: Seq<char>)
    requires
        !a.contains(esc()),
    ensures
        sanitize_seq(nl, tab, a + b) == sanitize_seq(nl, tab, a) + sanitize_seq(nl, tab, b),
    decreases a.len(),
{
    if a.len() == 0 {
        assert(a + b =~= b);
    } else {
        assert(a[0] != esc()) by {
            assert(a.contains(a[0]));
        }
        assert((a + b)[0] == a[0]);
        assert((a + b).drop_first() =~= a.drop_first() + b);
        assert(!a.drop_first().contains(esc())) by {
            if a.drop_first().contains(esc()) {
                let k = choose|k: int| 0 <= k < a.drop_first().len() && a.drop_first()[k] == esc();
                assert(a[k + 1] == esc());
            }
        }
        lemma_sanitize_append(nl, tab, a.drop_first(), b);
        assert(sanitize_char(nl, tab, a[0]) + (sanitize_seq(nl, tab, a.drop_first()) + sanitize_seq(nl, tab, b))
            =~= (sanitize_char(nl, tab, a[0]) + sanitize_seq(nl, tab, a.drop_first())) + sanitize_seq(nl, tab, b));
    }
}

/// Inside an escape sequence, its parameter characters and its final character are
/// dropped, and reading goes on outside after them.
proof fn lemma_sequence_body_dropped(nl: Seq<char>, tab: Seq<char>, params: Seq<char>, f: char, b: Seq<char>)
    requires
        forall|i: int| 0 <= i < params.len() ==> is_csi_body(#[trigger] params[i]),
        is_csi_final(f),
    ensures
        sanitize_from(nl, tab, params + seq![f] + b, true) == sanitize_seq(nl, tab, b),
    decreases params.len(),
{
    let t = params + seq![f] + b;
    if params.len() == 0 {
        assert(t[0] == f);
        assert(t.drop_first() =~= b);
    } else {
        assert(t[0] == params[0]);
        assert(is_csi_body(params[0]));
        assert(t.drop_first() =~= params.drop_first() + seq![f] + b);
        assert forall|i: int| 0 <= i < params.drop_first().len() implies is_csi_body(
            #[trigger] params.drop_first()[i],
        ) by {
            assert(params.drop_first()[i] == params[i + 1]);
        }
        lemma_sequence_body_dropped(nl, tab, params.drop_first(), f, b);
    }
}

/// An escape sequence (`ESC [`, parameter characters, a final character) is removed
/// whole, wherever it stands after text without escape characters.
pub proof fn law_escape_sequence_removed(
    nl: Seq<char>,
    tab: Seq<char>,
    a: Seq<char>,
    params: Seq<char>,
    f: char,
    b: Seq<char>,
)
    requires
        !a.contains(esc()),
        forall|i: int| 0 <= i < params.len() ==> is_csi_body(#[trigger] params[i]),
        is_csi_final(f),
    ensures
        sanitize_seq(nl, tab, a + seq![esc(), '['] + params + seq![f] + b) == sanitize_seq(nl, tab, a)
            + sanitize_seq(nl, tab, b),
{
    let rest = seq![esc(), '['] + params + seq![f] + b;
    assert(a + seq![esc(), '['] + params + seq![f] + b =~= a + rest);
    lemma_sanitize_append(nl, tab, a, rest);
    assert(rest[0] == esc() && rest[1] == '[');
    assert(rest.skip(2) =~= params + seq![f] + b);
    lemma_sequence_body_dropped(nl, tab, params, f, b);
}

/// Every character of the output comes from one `sanitize_char` replacement: it is a
/// character of `nl`, of `tab`, or a character that is not a control character.
pub open spec fn from_replacement(nl: Seq<char>, tab: Seq<char>, c: char) -> bool {
    nl.contains(c) || tab.contains(c) || !is_control(c)
}

proof fn lemma_output_from_replacements(nl: Seq<char>, tab: Seq<char>, s: Seq<char>, in_seq: bool)
    ensures
        forall|i: int|
            0 <= i < sanitize_from(nl, tab, s, in_seq).len() ==> from_replacement(
                nl,
                tab,
                #[trigger] sanitize_from(nl, tab, s, in_seq)[i],
            ),
    decreases s.len(), (if in_seq { 1int } else { 0int }),
{
    if s.len() == 0 {
    } else if in_seq {
        if is_csi_body(s[0]) {
            lemma_output_from_replacements(nl, tab, s.drop_first(), true);
            assert(sanitize_from(nl, tab, s, in_seq) == sanitize_from(nl, tab, s.drop_first(), true));
        } else if is_csi_final(s[0]) {
            lemma_output_from_replacements(nl, tab, s.drop_first(), false);
            assert(sanitize_from(nl, tab, s, in_seq) == sanitize_from(nl, tab, s.drop_first(), false));
        } else {
            lemma_output_from_replacements(nl, tab, s, false);
            assert(sanitize_from(nl, tab, s, in_seq) == sanitize_from(nl, tab, s, false));
        }
    } else if s[0] == esc() && s.len() >= 2 && s[1] == '[' {
        lemma_output_from_replacements(nl, tab, s.skip(2), true);
        assert(sanitize_from(nl, tab, s, in_seq) == sanitize_from(nl, tab, s.skip(2), true));
    } else {
        lemma_output_from_replacements(nl, tab, s.drop_first(), false);
        let head = sanitize_char(nl, tab, s[0]);
        let tail = sanitize_from(nl, tab, s.drop_first(), false);
        assert(sanitize_from(nl, tab, s, in_seq) == head + tail);
        assert forall|i: int| 0 <= i < (head + tail).len() implies from_replacement(
            nl,
            tab,
            #[trigger] (head + tail)[i],
        ) by {
            if i < head.len() {
                assert((head + tail)[i] == head[i]);
                if s[0] == '\r' || s[0] == '\n' {
                    assert(nl.contains(head[i]));
                } else if s[0] == '\t' {
                    assert(tab.contains(head[i]));
                }
            } else {
                assert((head + tail)[i] == tail[i - head.len()]);
            }
        }
    }
}

/// No character that the sanitizer outputs is a control character, unless it came from
/// one of the two replacement strings.
pub proof fn law_output_has_no_stray_controls(nl: Seq<char>, tab: Seq<char>, s: Seq<char>)
    requires
        forall|i: int| 0 <= i < nl.len() ==> !is_control(#[trigger] nl[i]),
        forall|i: int| 0 <= i < tab.len() ==> !is_control(#[trigger] tab[i]),
    ensures
        forall|i: int|
            0 <= i < sanitize_seq(nl, tab, s).len() ==> !is_control(
                #[trigger] sanitize_seq(nl, tab, s)[i],
            ),
{
    lemma_output_from_replacements(nl, tab, s, false);
    assert forall|i: int| 0 <= i < sanitize_seq(nl, tab, s).len() implies !is_control(
        #[trigger] sanitize_seq(nl, tab, s)[i],
    ) by {
        let c = sanitize_seq(nl, tab, s)[i];
        assert(from_replacement(nl, tab, c));
        if nl.contains(c) {
            let k = choose|k: int| 0 <= k < nl.len() && nl[k] == c;
            assert(!is_control(nl[k]));
        } else if tab.contains(c) {
            let k = choose|k: int| 0 <= k < tab.len() && tab[k] == c;
            assert(!is_control(tab[k]));
        }
    }
}

/// Text without control characters passes through the sanitizer unchanged.
pub proof fn law_printable_text_unchanged(nl: Seq<char>, tab: Seq<char>, s: Seq<char>)
    requires
        forall|i: int| 0 <= i < s.len() ==> !is_control(#[trigger] s[i]),
    ensures
        sanitize_seq(nl, tab, s) == s,
    decreases s.len(),
{
    if s.len() > 0 {
        assert(!is_control(s[0]));
        assert forall|i: int| 0 <= i < s.drop_first().len() implies !is_control(
            #[trigger] s.drop_first()[i],
        ) by {
            assert(s.drop_first()[i] == s[i + 1]);
        }
        law_printable_text_unchanged(nl, tab, s.drop_first());
        assert(seq![s[0]] + s.drop_first() =~= s);
    }
}

/// The sanitized form of each replacement is its own, when no replacement holds an
/// escape character.
proof fn lemma_sanitize_twice_from(nl: Seq<char>, tab: Seq<char>, s: Seq<char>, in_seq: bool)
    requires
        sanitize_seq(nl, tab, nl) == nl,
        sanitize_seq(nl, tab, tab) == tab,
        !nl.contains(esc()),
        !tab.contains(esc()),
    ensures
        sanitize_seq(nl, tab, sanitize_from(nl, tab, s, in_seq)) == sanitize_from(nl, tab, s, in_seq),
        !sanitize_from(nl, tab, s, in_seq).contains(esc()),
    decreases s.len(), (if in_seq { 1int } else { 0int }),
{
    if s.len() == 0 {
    } else if in_seq {
        if is_csi_body(s[0]) {
            lemma_sanitize_twice_from(nl, tab, s.drop_first(), true);
        } else if is_csi_final(s[0]) {
            lemma_sanitize_twice_from(nl, tab, s.drop_first(), false);
        } else {
            lemma_sanitize_twice_from(nl, tab, s, false);
        }
    } else if s[0] == esc() && s.len() >= 2 && s[1] == '[' {
        lemma_sanitize_twice_from(nl, tab, s.skip(2), true);
    } else {
        let c = s[0];
        let head = sanitize_char(nl, tab, c);
        let tail = sanitize_from(nl, tab, s.drop_first(), false);
        lemma_sanitize_twice_from(nl, tab, s.drop_first(), false);
        assert(sanitize_seq(nl, tab, head) == head && !head.contains(esc())) by {
            if c == '\r' || c == '\n' {
            } else if c == '\t' {
            } else if is_control(c) {
                assert(head =~= Seq::<char>::empty());
            } else {
                let one = seq![c];
                assert(one.drop_first() =~= Seq::<char>::empty());
                assert(sanitize_from(nl, tab, one.drop_first(), false) =~= Seq::<char>::empty());
                assert(c != esc());
                assert(one[0] == c);
                assert(sanitize_seq(nl, tab, one) =~= one);
                if one.contains(esc()) {
                    assert(one[0] == esc());
                }
            }
        }
        lemma_sanitize_append(nl, tab, head, tail);
        assert(!(head + tail).contains(esc())) by {
            if (head + tail).contains(esc()) {
                let k = choose|k: int| 0 <= k < (head + tail).len() && (head + tail)[k] == esc();
                if k < head.len() {
                    assert(head[k] == esc());
                    assert(head.contains(esc()));
                } else {
                    assert(tail[k - head.len()] == esc());
                    assert(tail.contains(esc()));
                }
            }
        }
    }
}

/// Sanitizing twice is the same as sanitizing once, when each replacement string is
/// itself left unchanged by the sanitizer and holds no escape character (as with the
/// default `"\n"` and four spaces).
pub proof fn law_sanitize_idempotent(nl: Seq<char>, tab: Seq<char>, s: Seq<char>)
    requires
        sanitize_seq(nl, tab, nl) == nl,
        sanitize_seq(nl, tab, tab) == tab,
        !nl.contains(esc()),
        !tab.contains(esc()),
    ensures
        sanitize_seq(nl, tab, sanitize_seq(nl, tab, s)) == sanitize_seq(nl, tab, s),
{
    lemma_sanitize_twice_from(nl, tab, s, false);
}

/// Sanitizing twice is the same as sanitizing once when each replacement holds no
/// control character, or is exactly the character it replaces (`"\n"` for newlines,
/// `"\t"` for tabs).
pub proof fn law_sanitize_twice_with_plain_replacements(nl: Seq<char>, tab: Seq<char>, s: Seq<char>)
    requires
        nl == seq!['\n'] || forall|i: int| 0 <= i < nl.len() ==> !is_control(#[trigger] nl[i]),
        tab == seq!['\t'] || forall|i: int| 0 <= i < tab.len() ==> !is_control(#[trigger] tab[i]),
    ensures
        sanitize_seq(nl, tab, sanitize_seq(nl, tab, s)) == sanitize_seq(nl, tab, s),
{
    lemma_plain_replacement(nl, tab, nl, '\n');
    lemma_plain_replacement(nl, tab, tab, '\t');
    law_sanitize_idempotent(nl, tab, s);
}

/// A replacement that is its own character, or holds no control character, is left
/// unchanged by the sanitizer and holds no escape character.
proof fn lemma_plain_replacement(nl: Seq<char>, tab: Seq<char>, r: Seq<char>, own: char)
    requires
        own == '\n' || own == '\t',
        own == '\n' ==> r == nl,
        own == '\t' ==> r == tab,
        r == seq![own] || forall|i: int| 0 <= i < r.len() ==> !is_control(#[trigger] r[i]),
    ensures
        sanitize_seq(nl, tab, r) == r,
        !r.contains(esc()),
{
    if r == seq![own] {
        assert(r[0] == own);
        assert(r.drop_first() =~= Seq::<char>::empty());
        assert(sanitize_from(nl, tab, r.drop_first(), false) =~= Seq::<char>::empty());
        assert(sanitize_seq(nl, tab, r) =~= r);
        if r.contains(esc()) {
            assert(r[0] == esc());
        }
    } else {
        law_printable_text_unchanged(nl, tab, r);
        if r.contains(esc()) {
            let k = choose|k: int| 0 <= k < r.len() && r[k] == esc();
            assert(!is_control(r[k]));
        }
    }
}

/// Text without tabs is sanitized the same whatever the tab replacement.
proof fn lemma_tab_replacement_unused(nl: Seq<char>, t1: Seq<char>, t2: Seq<char>, s: Seq<char>, in_seq: bool)
    requires
        !s.contains('\t'),
    ensures
        sanitize_from(nl, t1, s, in_seq) == sanitize_from(nl, t2, s, in_seq),
    decreases s.len(), (if in_seq { 1int } else { 0int }),
{
    if s.len() == 0 {
    } else {
        assert(s[0] != '\t') by {
            assert(s.contains(s[0]));
        }
        assert(!s.drop_first().contains('\t')) by {
            if s.drop_first().contains('\t') {
                let k = choose|k: int| 0 <= k < s.drop_first().len() && s.drop_first()[k] == '\t';
                assert(s[k + 1] == '\t');
            }
        }
        if in_seq {
            if is_csi_body(s[0]) || is_csi_final(s[0]) {
                lemma_tab_replacement_unused(nl, t1, t2, s.drop_first(), is_csi_body(s[0]));
            } else {
                lemma_tab_replacement_unused(nl, t1, t2, s, false);
            }
        } else if s[0] == esc() && s.len() >= 2 && s[1] == '[' {
            assert(!s.skip(2).contains('\t')) by {
                if s.skip(2).contains('\t') {
                    let k = choose|k: int| 0 <= k < s.skip(2).len() && s.skip(2)[k] == '\t';
                    assert(s[k + 2] == '\t');
                }
            }
            lemma_tab_replacement_unused(nl, t1, t2, s.skip(2), true);
        } else {
            lemma_tab_replacement_unused(nl, t1, t2, s.drop_first(), false);
        }
    }
}

/// Adding a tab replacement as the last option sets the tab replacement and leaves the
/// newline replacement as it was; text without tabs is then sanitized as before.
pub proof fn law_tab_option_changes_only_tabs(
    opts: Seq<SanitizerOpt>,
    r: String,
    nl0: Seq<char>,
    tab0: Seq<char>,
    s: Seq<char>,
)
    requires
        !s.contains('\t'),
    ensures
        final_newline(opts.push(SanitizerOpt::ReplaceTabs(r)), nl0) == final_newline(opts, nl0),
        final_tab(opts.push(SanitizerOpt::ReplaceTabs(r)), tab0) == r@,
        sanitize_seq(final_newline(opts, nl0), r@, s) == sanitize_seq(final_newline(opts, nl0), final_tab(opts, tab0), s),
{
    let o = opts.push(SanitizerOpt::ReplaceTabs(r));
    assert(o.drop_last() =~= opts);
    lemma_tab_replacement_unused(final_newline(opts, nl0), r@, final_tab(opts, tab0), s, false);
}


/// Text without line breaks is sanitized the same whatever the newline replacement.
proof fn lemma_newline_replacement_unused(n1: Seq<char>, n2: Seq<char>, tab: Seq<char>, s: Seq<char>, in_seq: bool)
    requires
        !s.contains('\n'),
        !s.contains('\r'),
    ensures
        sanitize_from(n1, tab, s, in_seq) == sanitize_from(n2, tab, s, in_seq),
    decreases s.len(), (if in_seq { 1int } else { 0int }),
{
    if s.len() == 0 {
    } else {
        assert(s[0] != '\n' && s[0] != '\r') by {
            assert(s.contains(s[0]));
        }
        assert(!s.drop_first().contains('\n') && !s.drop_first().contains('\r')) by {
            if s.drop_first().contains('\n') {
                let k = choose|k: int| 0 <= k < s.drop_first().len() && s.drop_first()[k] == '\n';
                assert(s[k + 1] == '\n');
            }
            if s.drop_first().contains('\r') {
                let k = choose|k: int| 0 <= k < s.drop_first().len() && s.drop_first()[k] == '\r';
                assert(s[k + 1] == '\r');
            }
        }
        if in_seq {
            if is_csi_body(s[0]) || is_csi_final(s[0]) {
                lemma_newline_replacement_unused(n1, n2, tab, s.drop_first(), is_csi_body(s[0]));
            } else {
                lemma_newline_replacement_unused(n1, n2, tab, s, false);
            }
        } else if s[0] == esc() && s.len() >= 2 && s[1] == '[' {
            assert(!s.skip(2).contains('\n') && !s.skip(2).contains('\r')) by {
                if s.skip(2).contains('\n') {
                    let k = choose|k: int| 0 <= k < s.skip(2).len() && s.skip(2)[k] == '\n';
                    assert(s[k + 2] == '\n');
                }
                if s.skip(2).contains('\r') {
                    let k = choose|k: int| 0 <= k < s.skip(2).len() && s.skip(2)[k] == '\r';
                    assert(s[k + 2] == '\r');
                }
            }
            lemma_newline_replacement_unused(n1, n2, tab, s.skip(2), true);
        } else {
            lemma_newline_replacement_unused(n1, n2, tab, s.drop_first(), false);
        }
    }
}

/// Adding a newline replacement as the last option sets the newline replacement and
/// leaves the tab replacement as it was; text without line breaks is then sanitized as
/// before.
pub proof fn law_newline_option_changes_only_newlines(
    opts: Seq<SanitizerOpt>,
    r: String,
    nl0: Seq<char>,
    tab0: Seq<char>,
    s: Seq<char>,
)
    requires
        !s.contains('\n'),
        !s.contains('\r'),
    ensures
        final_tab(opts.push(SanitizerOpt::ReplaceNewlines(r)), tab0) == final_tab(opts, tab0),
        final_newline(opts.push(SanitizerOpt::ReplaceNewlines(r)), nl0) == r@,
        sanitize_seq(r@, final_tab(opts, tab0), s) == sanitize_seq(final_newline(opts, nl0), final_tab(opts, tab0), s),
{
    let o = opts.push(SanitizerOpt::ReplaceNewlines(r));
    assert(o.drop_last() =~= opts);
    lemma_newline_replacement_unused(r@, final_newline(opts, nl0), final_tab(opts, tab0), s, false);
}

} // verus!
