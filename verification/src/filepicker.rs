//! A file picker: the listing of a directory with a cursor, a window of visible lines,
//! navigation into and out of directories and selection of files by extension. Reading
//! the file system is left to the caller, who hands the entries back.
use crate::ids::next_id;
use crate::key::{spec_matches, Binding, KeyCode, KeyMap, KeyMsg};
use crate::list::keys::{binding, bound, kp};
use crate::style::{
    bold_style, color_foreground, height_style, max_height_style, new_style, padding_left_style, render, style_bold,
    style_padding_left, style_width, width_style,
};
use crate::text::{chars_to_string, ends_with, push_char, push_str, str_to_chars};
use vstd::prelude::*;

verus! {

broadcast use vstd::seq_lib::group_to_multiset_ensures;

/// An error reported by the file picker.
#[derive(Debug, Clone)]
pub struct ErrorMsg {
    pub err: String,
}

/// The entries of a directory, read for the picker with the given id.
#[derive(Debug, Clone)]
pub struct ReadDirMsg {
    pub id: i64,
    pub entries: Vec<FileEntry>,
}

/// Lines of the window kept free below the listing when the height follows the window.
pub const MARGIN_BOTTOM: usize = 5;

/// A directory entry as the picker shows it.
#[derive(Debug, Clone)]
pub struct FileEntry {
    pub name: String,
    pub path: String,
    pub is_dir: bool,
    pub is_symlink: bool,
    pub size: u64,
    /// Unix mode bits: file type and permissions.
    pub mode: u32,
    /// Where a symbolic link points, when it could be resolved.
    pub symlink_target: Option<String>,
}

impl FileEntry {
    /// An exact copy of the entry.
    pub fn copy(&self) -> (r: FileEntry)
        ensures
            r == *self,
    {
        let target = match &self.symlink_target {
            Some(t) => Some(t.clone()),
            None => None,
        };
        FileEntry {
            name: self.name.clone(),
            path: self.path.clone(),
            is_dir: self.is_dir,
            is_symlink: self.is_symlink,
            size: self.size,
            mode: self.mode,
            symlink_target: target,
        }
    }
}

/// A stack of positions, saved when entering a directory and restored when leaving it.
#[derive(Debug, Clone)]
struct Stack {
    items: Vec<usize>,
}

impl Stack {
    fn new() -> (s: Stack)
        ensures
            s.items@ == Seq::<usize>::empty(),
    {
        Stack { items: Vec::new() }
    }

    fn push(&mut self, item: usize)
        ensures
            final(self).items@ == old(self).items@.push(item),
    {
        self.items.push(item);
    }

    fn pop(&mut self) -> (r: Option<usize>)
        ensures
            old(self).items@.len() == 0 ==> r is None && final(self).items@ == old(self).items@,
            old(self).items@.len() > 0 ==> r == Some(old(self).items@.last())
                && final(self).items@ == old(self).items@.drop_last(),
    {
        self.items.pop()
    }

    fn is_empty(&self) -> (b: bool)
        ensures
            b == (self.items@.len() == 0),
    {
        self.items.len() == 0
    }
}

/// The top of a stack as `pop` gives it: 0 when empty.
pub open spec fn top_or_zero(s: Seq<usize>) -> usize {
    if s.len() > 0 {
        s.last()
    } else {
        0
    }
}

/// The stack after `pop`.
pub open spec fn popped(s: Seq<usize>) -> Seq<usize> {
    if s.len() > 0 {
        s.drop_last()
    } else {
        s
    }
}

/// The key bindings of the file picker.
#[derive(Debug, Clone)]
pub struct FilepickerKeyMap {
    pub go_to_top: Binding,
    pub go_to_last: Binding,
    pub down: Binding,
    pub up: Binding,
    pub page_up: Binding,
    pub page_down: Binding,
    pub back: Binding,
    pub open: Binding,
    pub select: Binding,
}

/// The default bindings: `g` first, `G` last, `j`/down, `k`/up, pgup/`K`, pgdown/`J`,
/// `h`/backspace/left/esc back, `l`/right/enter open, enter select.
pub open spec fn is_default_keymap(k: FilepickerKeyMap) -> bool {
    &&& k.go_to_top@ == bound(seq![kp(KeyCode::Char('g'))], "g"@, "first"@)
    &&& k.go_to_last@ == bound(seq![kp(KeyCode::Char('G'))], "G"@, "last"@)
    &&& k.down@ == bound(seq![kp(KeyCode::Char('j')), kp(KeyCode::Down)], "j/↓"@, "down"@)
    &&& k.up@ == bound(seq![kp(KeyCode::Char('k')), kp(KeyCode::Up)], "k/↑"@, "up"@)
    &&& k.page_up@ == bound(seq![kp(KeyCode::PageUp), kp(KeyCode::Char('K'))], "pgup/K"@, "page up"@)
    &&& k.page_down@ == bound(seq![kp(KeyCode::PageDown), kp(KeyCode::Char('J'))], "pgdn/J"@, "page down"@)
    &&& k.back@ == bound(
        seq![kp(KeyCode::Char('h')), kp(KeyCode::Backspace), kp(KeyCode::Left), kp(KeyCode::Esc)],
        "h/←"@,
        "back"@,
    )
    &&& k.open@ == bound(seq![kp(KeyCode::Char('l')), kp(KeyCode::Right), kp(KeyCode::Enter)], "l/→"@, "open"@)
    &&& k.select@ == bound(seq![kp(KeyCode::Enter)], "enter"@, "select"@)
}

impl FilepickerKeyMap {
    /// The default bindings.
    pub fn default() -> (k: FilepickerKeyMap)
        ensures
            is_default_keymap(k),
    {
        let k = FilepickerKeyMap {
            go_to_top: binding(vec![KeyCode::Char('g')], "g", "first"),
            go_to_last: binding(vec![KeyCode::Char('G')], "G", "last"),
            down: binding(vec![KeyCode::Char('j'), KeyCode::Down], "j/↓", "down"),
            up: binding(vec![KeyCode::Char('k'), KeyCode::Up], "k/↑", "up"),
            page_up: binding(vec![KeyCode::PageUp, KeyCode::Char('K')], "pgup/K", "page up"),
            page_down: binding(vec![KeyCode::PageDown, KeyCode::Char('J')], "pgdn/J", "page down"),
            back: binding(
                vec![KeyCode::Char('h'), KeyCode::Backspace, KeyCode::Left, KeyCode::Esc],
                "h/←",
                "back",
            ),
            open: binding(vec![KeyCode::Char('l'), KeyCode::Right, KeyCode::Enter], "l/→", "open"),
            select: binding(vec![KeyCode::Enter], "enter", "select"),
        };
        assert(k.go_to_top@.keys =~= seq![kp(KeyCode::Char('g'))]);
        assert(k.go_to_last@.keys =~= seq![kp(KeyCode::Char('G'))]);
        assert(k.down@.keys =~= seq![kp(KeyCode::Char('j')), kp(KeyCode::Down)]);
        assert(k.up@.keys =~= seq![kp(KeyCode::Char('k')), kp(KeyCode::Up)]);
        assert(k.page_up@.keys =~= seq![kp(KeyCode::PageUp), kp(KeyCode::Char('K'))]);
        assert(k.page_down@.keys =~= seq![kp(KeyCode::PageDown), kp(KeyCode::Char('J'))]);
        assert(k.back@.keys =~= seq![kp(KeyCode::Char('h')), kp(KeyCode::Backspace), kp(KeyCode::Left), kp(KeyCode::Esc)]);
        assert(k.open@.keys =~= seq![kp(KeyCode::Char('l')), kp(KeyCode::Right), kp(KeyCode::Enter)]);
        assert(k.select@.keys =~= seq![kp(KeyCode::Enter)]);
        k
    }
}

impl KeyMap for FilepickerKeyMap {
    fn short_help(&self) -> (r: Vec<&Binding>)
        ensures
            r@ == seq![&self.up, &self.down, &self.open, &self.back],
    {
        vec![&self.up, &self.down, &self.open, &self.back]
    }

    fn full_help(&self) -> (r: Vec<Vec<&Binding>>)
        ensures
            r@.len() == 4,
            r@[0]@ == seq![&self.go_to_top, &self.go_to_last],
            r@[1]@ == seq![&self.up, &self.down],
            r@[2]@ == seq![&self.page_up, &self.page_down],
            r@[3]@ == seq![&self.open, &self.back, &self.select],
    {
        vec![
            vec![&self.go_to_top, &self.go_to_last],
            vec![&self.up, &self.down],
            vec![&self.page_up, &self.page_down],
            vec![&self.open, &self.back, &self.select],
        ]
    }
}

/// The file-type letter of a mode: `d` directory, `l` link, `b` block device, `c`
/// character device, `p` pipe, `s` socket, `-` otherwise.
pub open spec fn type_char(mode: u32) -> char {
    let t = mode & 0o170000u32;
    if t == 0o040000u32 {
        'd'
    } else if t == 0o120000u32 {
        'l'
    } else if t == 0o060000u32 {
        'b'
    } else if t == 0o020000u32 {
        'c'
    } else if t == 0o010000u32 {
        'p'
    } else if t == 0o140000u32 {
        's'
    } else {
        '-'
    }
}

/// `c` when the permission bit is set, `-` otherwise.
pub open spec fn perm_char(mode: u32, bit: u32, c: char) -> char {
    if mode & bit != 0 {
        c
    } else {
        '-'
    }
}

/// The `ls -l` form of a mode: the type letter, then read, write and execute for the
/// owner, the group and others.
pub open spec fn mode_string(mode: u32) -> Seq<char> {
    seq![
        type_char(mode),
        perm_char(mode, 0o400u32, 'r'),
        perm_char(mode, 0o200u32, 'w'),
        perm_char(mode, 0o100u32, 'x'),
        perm_char(mode, 0o040u32, 'r'),
        perm_char(mode, 0o020u32, 'w'),
        perm_char(mode, 0o010u32, 'x'),
        perm_char(mode, 0o004u32, 'r'),
        perm_char(mode, 0o002u32, 'w'),
        perm_char(mode, 0o001u32, 'x'),
    ]
}

/// The letter of permission position `i` (0 to 8): `r`, `w`, `x` in turn.
pub open spec fn rwx(i: int) -> char {
    if i % 3 == 0 {
        'r'
    } else if i % 3 == 1 {
        'w'
    } else {
        'x'
    }
}

/// The mode text is ten characters: the type letter (`d` exactly for directories), then
/// for each of the nine permission bits from the highest (owner read, `0o400`) to the
/// lowest (others execute, `0o001`) its letter when the bit is set and `-` when not.
pub proof fn law_mode_text_follows_the_bits(mode: u32)
    ensures
        mode_string(mode).len() == 10,
        (mode_string(mode)[0] == 'd') == (mode & 0o170000u32 == 0o040000u32),
        forall|i: int| 0 <= i < 9 ==> #[trigger] mode_string(mode)[i + 1] == (if (mode >> ((8 - i) as u32)) & 1u32
            == 1u32 {
            rwx(i)
        } else {
            '-'
        }),
{
    assert((mode & 0o400u32 != 0) == ((mode >> 8u32) & 1u32 == 1u32)) by (bit_vector);
    assert((mode & 0o200u32 != 0) == ((mode >> 7u32) & 1u32 == 1u32)) by (bit_vector);
    assert((mode & 0o100u32 != 0) == ((mode >> 6u32) & 1u32 == 1u32)) by (bit_vector);
    assert((mode & 0o40u32 != 0) == ((mode >> 5u32) & 1u32 == 1u32)) by (bit_vector);
    assert((mode & 0o20u32 != 0) == ((mode >> 4u32) & 1u32 == 1u32)) by (bit_vector);
    assert((mode & 0o10u32 != 0) == ((mode >> 3u32) & 1u32 == 1u32)) by (bit_vector);
    assert((mode & 0o4u32 != 0) == ((mode >> 2u32) & 1u32 == 1u32)) by (bit_vector);
    assert((mode & 0o2u32 != 0) == ((mode >> 1u32) & 1u32 == 1u32)) by (bit_vector);
    assert((mode & 0o1u32 != 0) == ((mode >> 0u32) & 1u32 == 1u32)) by (bit_vector);
    assert forall|i: int| 0 <= i < 9 implies #[trigger] mode_string(mode)[i + 1] == (if (mode >> ((8 - i) as u32))
        & 1u32 == 1u32 {
        rwx(i)
    } else {
        '-'
    }) by {
        if i == 0 {
        } else if i == 1 {
        } else if i == 2 {
        } else if i == 3 {
        } else if i == 4 {
        } else if i == 5 {
        } else if i == 6 {
        } else if i == 7 {
        } else {
        }
    }
}

fn perm(mode: u32, bit: u32, c: char) -> (r: char)
    ensures
        r == perm_char(mode, bit, c),
{
    if mode & bit != 0 {
        c
    } else {
        '-'
    }
}

/// The mode in the form `ls -l` shows it, such as `drwxr-xr-x`.
pub fn format_mode(mode: u32) -> (r: String)
    ensures
        r@ == mode_string(mode),
{
    let t = mode & 0o170000u32;
    let file_type = if t == 0o040000u32 {
        'd'
    } else if t == 0o120000u32 {
        'l'
    } else if t == 0o060000u32 {
        'b'
    } else if t == 0o020000u32 {
        'c'
    } else if t == 0o010000u32 {
        'p'
    } else if t == 0o140000u32 {
        's'
    } else {
        '-'
    };
    let chars: Vec<char> = vec![
        file_type,
        perm(mode, 0o400u32, 'r'),
        perm(mode, 0o200u32, 'w'),
        perm(mode, 0o100u32, 'x'),
        perm(mode, 0o040u32, 'r'),
        perm(mode, 0o020u32, 'w'),
        perm(mode, 0o010u32, 'x'),
        perm(mode, 0o004u32, 'r'),
        perm(mode, 0o002u32, 'w'),
        perm(mode, 0o001u32, 'x'),
    ];
    let r = crate::text::chars_to_string(chars.as_slice());
    assert(r@ =~= mode_string(mode));
    r
}

/// Whether a name is hidden: it starts with a dot.
pub open spec fn hidden(name: Seq<char>) -> bool {
    name.len() > 0 && name[0] == '.'
}

/// Whether the name is hidden (starts with a dot); the second part is always `None`.
pub fn is_hidden_name(name: &str) -> (r: (bool, Option<String>))
    ensures
        r.0 == hidden(name@),
        r.1 is None,
{
    let chars = str_to_chars(name);
    (chars.len() > 0 && chars[0] == '.', None)
}

/// Names in the order of `str`'s comparison: by characters, a proper prefix first.
pub open spec fn name_lt(a: Seq<char>, b: Seq<char>) -> bool
    decreases a.len(),
{
    if a.len() == 0 {
        b.len() > 0
    } else if b.len() == 0 {
        false
    } else if a[0] != b[0] {
        (a[0] as u32) < (b[0] as u32)
    } else {
        name_lt(a.drop_first(), b.drop_first())
    }
}

proof fn lemma_name_lt_asym(a: Seq<char>, b: Seq<char>)
    requires
        name_lt(a, b),
    ensures
        !name_lt(b, a),
    decreases a.len(),
{
    if a.len() > 0 && b.len() > 0 && a[0] == b[0] {
        lemma_name_lt_asym(a.drop_first(), b.drop_first());
    }
}

proof fn lemma_name_lt_trans(a: Seq<char>, b: Seq<char>, c: Seq<char>)
    requires
        name_lt(a, b),
        name_lt(b, c),
    ensures
        name_lt(a, c),
    decreases a.len(),
{
    if a.len() > 0 && b.len() > 0 && c.len() > 0 && a[0] == b[0] && b[0] == c[0] {
        lemma_name_lt_trans(a.drop_first(), b.drop_first(), c.drop_first());
    }
}

/// The listing order: directories before files, then by name.
pub open spec fn entry_lt(a: FileEntry, b: FileEntry) -> bool {
    (a.is_dir && !b.is_dir) || (a.is_dir == b.is_dir && name_lt(a.name@, b.name@))
}

proof fn lemma_entry_lt_asym(a: FileEntry, b: FileEntry)
    requires
        entry_lt(a, b),
    ensures
        !entry_lt(b, a),
{
    if a.is_dir == b.is_dir {
        lemma_name_lt_asym(a.name@, b.name@);
    }
}

proof fn lemma_entry_lt_trans(a: FileEntry, b: FileEntry, c: FileEntry)
    requires
        entry_lt(a, b),
        entry_lt(b, c),
    ensures
        entry_lt(a, c),
{
    if a.is_dir == b.is_dir && b.is_dir == c.is_dir {
        lemma_name_lt_trans(a.name@, b.name@, c.name@);
    }
}

/// Whether the entries are in listing order.
pub open spec fn sorted(s: Seq<FileEntry>) -> bool {
    forall|i: int, j: int| 0 <= i < j < s.len() ==> !entry_lt(#[trigger] s[j], #[trigger] s[i])
}

/// In a listing in listing order every directory comes before every file, and entries
/// of one kind come in name order.
pub proof fn law_listing_puts_directories_first(s: Seq<FileEntry>)
    requires
        sorted(s),
    ensures
        forall|i: int, j: int| 0 <= i < j < s.len() && (#[trigger] s[j]).is_dir ==> (#[trigger] s[i]).is_dir,
        forall|i: int, j: int|
            0 <= i < j < s.len() && (#[trigger] s[i]).is_dir == (#[trigger] s[j]).is_dir ==> !name_lt(
                s[j].name@,
                s[i].name@,
            ),
{
    assert forall|i: int, j: int| 0 <= i < j < s.len() && (#[trigger] s[j]).is_dir implies (#[trigger] s[i]).is_dir by {
        if !s[i].is_dir {
            assert(entry_lt(s[j], s[i]));
        }
    }
}

/// Names compare as `str` does: a name comes before every longer name it begins, and
/// before a name that agrees with it up to a position where its character is smaller.
pub proof fn law_name_order(a: Seq<char>, b: Seq<char>, k: int)
    requires
        0 <= k <= a.len(),
        k <= b.len(),
        a.subrange(0, k) == b.subrange(0, k),
        (k == a.len() && k < b.len()) || (k < a.len() && k < b.len() && (a[k] as u32) < (b[k] as u32)),
    ensures
        name_lt(a, b),
        !name_lt(b, a),
    decreases k,
{
    if k > 0 {
        assert(a[0] == a.subrange(0, k)[0]);
        assert(b[0] == b.subrange(0, k)[0]);
        assert(a.drop_first().subrange(0, k - 1) =~= a.subrange(0, k).drop_first());
        assert(b.drop_first().subrange(0, k - 1) =~= b.subrange(0, k).drop_first());
        law_name_order(a.drop_first(), b.drop_first(), k - 1);
    }
    lemma_name_lt_asym(a, b);
}

/// Whether an entry is listed: hidden ones only when they are shown.
pub open spec fn listed(show_hidden: bool) -> spec_fn(FileEntry) -> bool {
    |e: FileEntry| show_hidden || !hidden(e.name@)
}

fn chars_lt(a: &[char], b: &[char]) -> (r: bool)
    ensures
        r == name_lt(a@, b@),
{
    let mut i: usize = 0;
    assert(a@.skip(0) =~= a@ && b@.skip(0) =~= b@);
    while i < a.len() && i < b.len()
        invariant
            i <= a@.len(),
            i <= b@.len(),
            name_lt(a@.skip(i as int), b@.skip(i as int)) == name_lt(a@, b@),
        decreases a@.len() - i,
    {
        let ghost (sa, sb) = (a@.skip(i as int), b@.skip(i as int));
        assert(sa[0] == a@[i as int] && sb[0] == b@[i as int]);
        if a[i] != b[i] {
            assert(sa.len() > 0 && sb.len() > 0 && sa[0] != sb[0]);
            assert(name_lt(sa, sb) == ((sa[0] as u32) < (sb[0] as u32)));
            return (a[i] as u32) < (b[i] as u32);
        }
        assert(sa.drop_first() =~= a@.skip(i as int + 1));
        assert(sb.drop_first() =~= b@.skip(i as int + 1));
        i += 1;
    }
    i == a.len() && i < b.len()
}

fn entry_before(a: &FileEntry, b: &FileEntry) -> (r: bool)
    ensures
        r == entry_lt(*a, *b),
{
    if a.is_dir != b.is_dir {
        a.is_dir
    } else {
        let an = str_to_chars(a.name.as_str());
        let bn = str_to_chars(b.name.as_str());
        chars_lt(an.as_slice(), bn.as_slice())
    }
}

/// The entries to list, in listing order: hidden ones are dropped unless they are shown,
/// and the rest sorted with directories first, then by name.
pub fn prepare_entries(entries: Vec<FileEntry>, show_hidden: bool) -> (r: Vec<FileEntry>)
    ensures
        sorted(r@),
        r@.to_multiset() == entries@.filter(listed(show_hidden)).to_multiset(),
{
    let ghost orig = entries@;
    let ghost pred = listed(show_hidden);
    let mut input = entries;
    let mut out: Vec<FileEntry> = Vec::new();
    while input.len() > 0
        invariant
            pred == listed(show_hidden),
            sorted(out@),
            out@.to_multiset().add(input@.filter(pred).to_multiset()) == orig.filter(pred).to_multiset(),
        decreases input@.len(),
    {
        let ghost before_in = input@;
        let e = input.pop().unwrap();
        assert(before_in.drop_last() =~= input@);
        let keep = show_hidden || !is_hidden_name(e.name.as_str()).0;
        let ghost fin = input@.filter(pred);
        let ghost ms_out = out@.to_multiset();
        assert(before_in.last() == e);
        assert(pred(e) == keep);
        assert(before_in.len() > 0);
        reveal(Seq::filter);
        assert(before_in.drop_last().filter(pred) == fin);
        assert(before_in.filter(pred) == (if pred(before_in.last()) {
            before_in.drop_last().filter(pred).push(before_in.last())
        } else {
            before_in.drop_last().filter(pred)
        }));
        assert(before_in.filter(pred) == (if keep { fin.push(e) } else { fin }));
        if keep {
            assert(before_in.filter(pred).to_multiset() =~= fin.to_multiset().insert(e));
            let mut p: usize = 0;
            while p < out.len() && !entry_before(&e, &out[p])
                invariant
                    p <= out@.len(),
                    forall|k: int| 0 <= k < p ==> !entry_lt(e, #[trigger] out@[k]),
                decreases out@.len() - p,
            {
                p += 1;
            }
            let ghost old_out = out@;
            let ghost ge = e;
            proof {
                assert forall|k: int| p <= k < old_out.len() implies !entry_lt(#[trigger] old_out[k], e) by {
                    if entry_lt(old_out[k], e) {
                        assert(entry_lt(e, old_out[p as int]));
                        if k > p {
                            lemma_entry_lt_trans(old_out[k], e, old_out[p as int]);
                        } else {
                            lemma_entry_lt_asym(old_out[k], e);
                        }
                    }
                }
            }
            out.insert(p, e);
            proof {
                assert forall|i: int, j: int| 0 <= i < j < out@.len() implies !entry_lt(
                    #[trigger] out@[j],
                    #[trigger] out@[i],
                ) by {
                    if i < p && j < p {
                        assert(out@[i] == old_out[i] && out@[j] == old_out[j]);
                    } else if i < p && j == p {
                        assert(out@[i] == old_out[i] && out@[j] == ge);
                    } else if i < p && j > p {
                        assert(out@[i] == old_out[i] && out@[j] == old_out[j - 1]);
                    } else if i == p {
                        assert(out@[i] == ge && out@[j] == old_out[j - 1]);
                    } else {
                        assert(out@[i] == old_out[i - 1] && out@[j] == old_out[j - 1]);
                    }
                }
                assert(out@.to_multiset() == old_out.to_multiset().insert(ge));
                assert(out@.to_multiset().add(fin.to_multiset()) =~= ms_out.add(fin.to_multiset().insert(ge)));
            }
        }
    }
    reveal(Seq::filter);
    assert(input@.filter(pred) =~= Seq::<FileEntry>::empty());
    assert(out@.to_multiset().add(Seq::<FileEntry>::empty().to_multiset()) =~= out@.to_multiset());
    out
}

/// The message that hands a directory's entries to the picker `id`: hidden entries are
/// dropped and the rest put in listing order.
pub fn listing_msg(id: i64, entries: Vec<FileEntry>) -> (m: ReadDirMsg)
    ensures
        m.id == id,
        sorted(m.entries@),
        m.entries@.to_multiset() == entries@.filter(listed(false)).to_multiset(),
{
    ReadDirMsg { id, entries: prepare_entries(entries, false) }
}

/// The number of lines of a text as `str::lines` counts them: each line break ends a
/// line, and text after the last one is a line of its own.
pub open spec fn lines_in(s: Seq<char>) -> nat {
    s.filter(|c: char| c == '\n').len() + (if s.len() > 0 && s.last() != '\n' {
        1nat
    } else {
        0nat
    })
}

/// A text that is empty or ends with a line break has as many lines as line breaks.
proof fn lemma_lines_of_ended(s: Seq<char>)
    ensures
        s.len() == 0 || s.last() == '\n' ==> lines_in(s) == s.filter(|c: char| c == '\n').len(),
        lines_in(s) > 0 ==> s.len() > 0,
{
    reveal(Seq::filter);
    if s.len() == 0 {
        assert(s.filter(|c: char| c == '\n').len() == 0);
    }
}

/// Adding a line break to a text that is empty or ends with one adds a line.
proof fn lemma_lines_push_newline(s: Seq<char>)
    requires
        s.len() == 0 || s.last() == '\n',
    ensures
        lines_in(s.push('\n')) == lines_in(s) + 1,
        s.push('\n').last() == '\n',
{
    reveal(Seq::filter);
    assert(s.push('\n').drop_last() =~= s);
    lemma_lines_of_ended(s);
}

/// The number of lines of a text, counted as `str::lines` counts them.
pub fn line_count(s: &[char]) -> (r: usize)
    ensures
        r == lines_in(s@),
{
    if s.len() == 0 {
        proof {
            reveal(Seq::filter);
        }
        return 0;
    }
    let last = s.len() - 1;
    let mut n: usize = 0;
    let mut i: usize = 0;
    while i < last
        invariant
            i <= last,
            last == s@.len() - 1,
            n == s@.take(i as int).filter(|c: char| c == '\n').len(),
            n <= i,
        decreases last - i,
    {
        proof {
            reveal(Seq::filter);
            assert(s@.take(i as int + 1).drop_last() =~= s@.take(i as int));
        }
        if s[i] == '\n' {
            n += 1;
        }
        i += 1;
    }
    proof {
        reveal(Seq::filter);
        assert(s@.drop_last() =~= s@.take(last as int));
    }
    n + 1
}

/// The text right-aligned in `width` characters: spaces before it up to that width.
pub open spec fn padded_left(s: Seq<char>, width: nat) -> Seq<char> {
    if s.len() >= width {
        s
    } else {
        Seq::new((width - s.len()) as nat, |i: int| ' ') + s
    }
}

/// The text right-aligned in `width` characters (as `format!("{:>width$}", s)`).
pub fn pad_left(s: &str, width: usize) -> (r: String)
    ensures
        r@ == padded_left(s@, width as nat),
{
    let chars = str_to_chars(s);
    let mut out = String::new();
    if chars.len() < width {
        let mut k: usize = chars.len();
        while k < width
            invariant
                chars@.len() <= k <= width,
                out@ == Seq::new((k - chars@.len()) as nat, |i: int| ' '),
            decreases width - k,
        {
            push_char(&mut out, ' ');
            k += 1;
            assert(out@ =~= Seq::new((k - chars@.len()) as nat, |i: int| ' '));
        }
    }
    push_str(&mut out, s);
    assert(out@ =~= padded_left(s@, width as nat));
    out
}

/// The styles of the picker's lines.
#[derive(Debug, Clone)]
pub struct Styles {
    pub disabled_cursor: lipgloss::Style,
    pub cursor: lipgloss::Style,
    pub symlink: lipgloss::Style,
    pub directory: lipgloss::Style,
    pub file: lipgloss::Style,
    pub disabled_file: lipgloss::Style,
    pub permission: lipgloss::Style,
    pub selected: lipgloss::Style,
    pub disabled_selected: lipgloss::Style,
    pub file_size: lipgloss::Style,
    pub empty_directory: lipgloss::Style,
}

/// The width of the size column.
pub const FILE_SIZE_WIDTH: i32 = 7;

/// The left padding of the empty-directory message.
pub const PADDING_LEFT: i32 = 2;

/// How the default picker styles are built: the selected line is the cursor's color in
/// bold, a disabled selected line looks as the disabled cursor does, the size column is
/// the grey `details` style seven wide, and the empty-directory message is the same grey
/// padded by two on the left.
pub open spec fn picker_styles_built(st: Styles, details: lipgloss::Style) -> bool {
    &&& st.selected == style_bold(st.cursor)
    &&& st.disabled_selected == st.disabled_cursor
    &&& st.file_size == style_width(details, FILE_SIZE_WIDTH)
    &&& st.empty_directory == style_padding_left(details, PADDING_LEFT)
}

impl Styles {
    /// Pink cursor and selection, purple directories, cyan links, grey details.
    pub fn default() -> (st: Styles)
        ensures
            exists|details: lipgloss::Style| #[trigger] picker_styles_built(st, details),
    {
        let base = new_style();
        let pink = color_foreground(&base, "212");
        let disabled = color_foreground(&base, "247");
        let details = color_foreground(&base, "240");
        let st = Styles {
            disabled_cursor: disabled.clone(),
            cursor: pink.clone(),
            symlink: color_foreground(&base, "36"),
            directory: color_foreground(&base, "99"),
            file: new_style(),
            disabled_file: color_foreground(&base, "243"),
            permission: color_foreground(&base, "244"),
            selected: bold_style(&pink),
            disabled_selected: disabled,
            file_size: width_style(&details, FILE_SIZE_WIDTH),
            empty_directory: padding_left_style(&details, PADDING_LEFT),
        };
        assert(picker_styles_built(st, details));
        st
    }
}

/// The state of a file picker.
#[derive(Debug, Clone)]
pub struct Model {
    id: i64,
    /// The path of the file last selected.
    pub path: String,
    /// The directory whose entries are listed.
    pub current_directory: String,
    /// Extensions that may be selected; none means any.
    pub allowed_types: Vec<String>,
    pub keymap: FilepickerKeyMap,
    files: Vec<FileEntry>,
    pub show_permissions: bool,
    pub show_size: bool,
    pub show_hidden: bool,
    pub dir_allowed: bool,
    pub file_allowed: bool,
    pub file_selected: String,
    selected: usize,
    selected_stack: Stack,
    min: usize,
    max: usize,
    max_stack: Stack,
    min_stack: Stack,
    /// Lines of the listing.
    pub height: usize,
    /// Whether the height follows the window's.
    pub auto_height: bool,
    /// The mark of the selected line.
    pub cursor: String,
    pub error: Option<String>,
    pub styles: Styles,
}

/// The state of a file picker as its contracts see it.
pub struct PickerView {
    pub id: i64,
    pub path: Seq<char>,
    pub current_directory: Seq<char>,
    pub allowed_types: Seq<Seq<char>>,
    pub keymap: FilepickerKeyMap,
    pub files: Seq<FileEntry>,
    pub show_permissions: bool,
    pub show_size: bool,
    pub show_hidden: bool,
    pub dir_allowed: bool,
    pub file_allowed: bool,
    pub file_selected: Seq<char>,
    /// The index of the entry under the cursor.
    pub selected: usize,
    pub selected_stack: Seq<usize>,
    /// The first entry in view.
    pub min: usize,
    /// The last entry in view.
    pub max: usize,
    pub max_stack: Seq<usize>,
    pub min_stack: Seq<usize>,
    pub height: usize,
    pub auto_height: bool,
    pub cursor: Seq<char>,
    pub error: Option<Seq<char>>,
    pub styles: Styles,
}

impl View for Model {
    type V = PickerView;

    closed spec fn view(&self) -> PickerView {
        PickerView {
            id: self.id,
            path: self.path@,
            current_directory: self.current_directory@,
            allowed_types: self.allowed_types@.map_values(|t: String| t@),
            keymap: self.keymap,
            files: self.files@,
            show_permissions: self.show_permissions,
            show_size: self.show_size,
            show_hidden: self.show_hidden,
            dir_allowed: self.dir_allowed,
            file_allowed: self.file_allowed,
            file_selected: self.file_selected@,
            selected: self.selected,
            selected_stack: self.selected_stack.items@,
            min: self.min,
            max: self.max,
            max_stack: self.max_stack.items@,
            min_stack: self.min_stack.items@,
            height: self.height,
            auto_height: self.auto_height,
            cursor: self.cursor@,
            error: match self.error {
                Some(e) => Some(e@),
                None => None,
            },
            styles: self.styles,
        }
    }
}

/// What the caller must do after an update.
#[derive(Debug, Clone, Copy, PartialEq, Eq, Structural)]
pub enum PickerAction {
    Nothing,
    /// Read the current directory and hand the outcome to `read_dir_done`.
    ReadDir,
}

/// A message for the picker.
pub enum PickerMsg {
    /// The window's size changed.
    WindowSize { width: u16, height: u16 },
    /// Entries of a directory were read.
    ReadDir(ReadDirMsg),
    /// A key was pressed.
    Key(KeyMsg),
}

/// Whether the cursor is on an entry whenever there are entries.
pub open spec fn picker_wf(v: PickerView) -> bool {
    v.files.len() > 0 ==> v.selected < v.files.len()
}

/// `a - b`, or 0 when `b > a`.
pub open spec fn dec(a: int, b: int) -> int {
    if a >= b {
        a - b
    } else {
        0
    }
}

/// The smaller of two integers.
pub open spec fn min_of(a: int, b: int) -> int {
    if a <= b {
        a
    } else {
        b
    }
}

/// After the window's height changed: with `auto_height` the listing takes the height
/// less the bottom margin; the window is reset to start at the top unless that would
/// leave the cursor below it.
pub open spec fn window_step(v: PickerView, height: u16) -> PickerView {
    let h = if v.auto_height {
        dec(height as int, MARGIN_BOTTOM as int)
    } else {
        v.height as int
    };
    let len = v.files.len() as int;
    let mx = if len == 0 {
        dec(h, 1)
    } else {
        min_of(dec(h, 1), dec(len, 1))
    };
    if mx < v.selected {
        PickerView { height: h as usize, min: dec(v.selected as int, dec(h, 1)) as usize, max: v.selected, ..v }
    } else {
        PickerView { height: h as usize, max: mx as usize, ..v }
    }
}

/// After entries arrived for this picker: they replace the listing, the cursor is kept
/// on an entry and the window moved to show it.
pub open spec fn read_dir_step(v: PickerView, id: i64, entries: Seq<FileEntry>) -> PickerView {
    if id != v.id {
        v
    } else if entries.len() == 0 {
        PickerView { files: entries, max: 0, ..v }
    } else {
        let vm = dec(v.height as int, 1);
        let fm = entries.len() - 1;
        let mx = min_of(vm, fm);
        let s = if v.selected >= entries.len() {
            fm
        } else {
            v.selected as int
        };
        if s > mx {
            PickerView { files: entries, selected: s as usize, min: dec(s, vm) as usize, max: s as usize, ..v }
        } else if s < v.min {
            PickerView {
                files: entries,
                selected: s as usize,
                min: s as usize,
                max: min_of(s + vm, fm) as usize,
                ..v
            }
        } else {
            PickerView { files: entries, selected: s as usize, max: mx as usize, ..v }
        }
    }
}

/// Whether handling the entries stays within `usize`.
pub open spec fn read_dir_ok(v: PickerView, id: i64, entries: Seq<FileEntry>) -> bool {
    let s = if v.selected >= entries.len() {
        entries.len() - 1
    } else {
        v.selected as int
    };
    id == v.id && entries.len() > 0 && s < v.min ==> s + dec(v.height as int, 1) <= usize::MAX
}

/// The cursor after moving down: one further unless on the last entry.
pub open spec fn down_selected(v: PickerView) -> int {
    if v.selected < dec(v.files.len() as int, 1) {
        v.selected + 1
    } else {
        v.selected as int
    }
}

/// `g`: the cursor and the window to the top.
pub open spec fn top_step(v: PickerView) -> PickerView {
    PickerView { selected: 0, min: 0, max: dec(v.height as int, 1) as usize, ..v }
}

/// `G`: the cursor to the last entry, the window to the end.
pub open spec fn last_step(v: PickerView) -> PickerView {
    let len = v.files.len() as int;
    PickerView {
        selected: dec(len, 1) as usize,
        min: dec(len, v.height as int) as usize,
        max: dec(len, 1) as usize,
        ..v
    }
}

/// Down: the cursor one further unless on the last entry; the window follows it.
pub open spec fn down_step(v: PickerView) -> PickerView {
    let s = down_selected(v);
    if s > v.max {
        PickerView { selected: s as usize, min: (v.min + 1) as usize, max: (v.max + 1) as usize, ..v }
    } else {
        PickerView { selected: s as usize, ..v }
    }
}

/// Up: the cursor one back unless at the top; the window follows it.
pub open spec fn up_step(v: PickerView) -> PickerView {
    let s = dec(v.selected as int, 1);
    if s < v.min {
        PickerView {
            selected: s as usize,
            min: dec(v.min as int, 1) as usize,
            max: dec(v.max as int, 1) as usize,
            ..v
        }
    } else {
        PickerView { selected: s as usize, ..v }
    }
}

/// Page down: the cursor and the window `height` further, kept within the entries.
pub open spec fn page_down_step(v: PickerView) -> PickerView {
    let len = v.files.len() as int;
    let h = v.height as int;
    let s0 = v.selected + h;
    let s = if s0 >= len {
        dec(len, 1)
    } else {
        s0
    };
    let mx = v.max + h;
    if mx >= len {
        let mx2 = dec(len, 1);
        PickerView { selected: s as usize, max: mx2 as usize, min: dec(mx2, h) as usize, ..v }
    } else {
        PickerView { selected: s as usize, min: (v.min + h) as usize, max: mx as usize, ..v }
    }
}

/// Page up: the cursor and the window `height` back; a window that reaches the top
/// spans `height + 1` lines from it.
pub open spec fn page_up_step(v: PickerView) -> PickerView {
    let h = v.height as int;
    let s = dec(v.selected as int, h);
    let mn = dec(v.min as int, h);
    if mn == 0 {
        PickerView { selected: s as usize, min: 0, max: h as usize, ..v }
    } else {
        PickerView { selected: s as usize, min: mn as usize, max: dec(v.max as int, h) as usize, ..v }
    }
}

/// Back, into the parent `p`: the cursor and window saved when entering are restored
/// (or reset to the top), and the listing emptied until the parent is read.
pub open spec fn back_step(v: PickerView, p: Seq<char>) -> PickerView {
    let restored = v.selected_stack.len() > 0;
    PickerView {
        current_directory: p,
        selected: if restored {
            v.selected_stack.last()
        } else {
            0
        },
        min: if restored {
            top_or_zero(v.min_stack)
        } else {
            0
        },
        max: if restored {
            top_or_zero(v.max_stack)
        } else {
            dec(v.height as int, 1) as usize
        },
        selected_stack: popped(v.selected_stack),
        min_stack: if restored {
            popped(v.min_stack)
        } else {
            v.min_stack
        },
        max_stack: if restored {
            popped(v.max_stack)
        } else {
            v.max_stack
        },
        files: Seq::empty(),
        error: None,
        ..v
    }
}

/// Open on the entry under the cursor: a directory is entered (the cursor and window
/// saved, the listing emptied until it is read; its path chosen when directories may be
/// and the key also selects); a file's path is chosen.
pub open spec fn open_step(v: PickerView, msg: KeyMsg) -> PickerView {
    let f = v.files[v.selected as int];
    if f.is_dir {
        PickerView {
            path: if v.dir_allowed && spec_matches(v.keymap.select@, msg) {
                f.path@
            } else {
                v.path
            },
            selected_stack: v.selected_stack.push(v.selected),
            min_stack: v.min_stack.push(v.min),
            max_stack: v.max_stack.push(v.max),
            current_directory: f.path@,
            selected: 0,
            min: 0,
            max: dec(v.height as int, 1) as usize,
            files: Seq::empty(),
            error: None,
            ..v
        }
    } else {
        PickerView { path: f.path@, ..v }
    }
}

/// The state after a key press, given the parent of the current directory, and what the
/// caller must do next: the first binding that matches decides.
pub open spec fn key_step(v: PickerView, msg: KeyMsg, parent: Option<Seq<char>>) -> (PickerView, PickerAction) {
    let k = v.keymap;
    if spec_matches(k.go_to_top@, msg) {
        (top_step(v), PickerAction::Nothing)
    } else if spec_matches(k.go_to_last@, msg) {
        (last_step(v), PickerAction::Nothing)
    } else if spec_matches(k.down@, msg) {
        (down_step(v), PickerAction::Nothing)
    } else if spec_matches(k.up@, msg) {
        (up_step(v), PickerAction::Nothing)
    } else if spec_matches(k.page_down@, msg) {
        (page_down_step(v), PickerAction::Nothing)
    } else if spec_matches(k.page_up@, msg) {
        (page_up_step(v), PickerAction::Nothing)
    } else if spec_matches(k.back@, msg) {
        match parent {
            Some(p) => (back_step(v, p), PickerAction::ReadDir),
            None => (v, PickerAction::Nothing),
        }
    } else if spec_matches(k.open@, msg) && v.files.len() > 0 {
        (open_step(v, msg), if v.files[v.selected as int].is_dir {
            PickerAction::ReadDir
        } else {
            PickerAction::Nothing
        })
    } else {
        (v, PickerAction::Nothing)
    }
}

/// The text of the line for the entry under the cursor, before it is styled: the
/// permissions after a space (when shown), the size right-aligned to seven characters
/// (when shown), a space, the name, and the link target after an arrow (for a link whose
/// target is known).
pub open spec fn selected_line_text(v: PickerView, f: FileEntry, size: Seq<char>) -> Seq<char> {
    (if v.show_permissions {
        seq![' '] + mode_string(f.mode)
    } else {
        Seq::<char>::empty()
    }) + (if v.show_size {
        padded_left(size, 7)
    } else {
        Seq::<char>::empty()
    }) + seq![' '] + f.name@ + (match f.symlink_target {
        Some(t) => if f.is_symlink {
            " → "@ + t@
        } else {
            Seq::<char>::empty()
        },
        None => Seq::<char>::empty(),
    })
}

/// Whether an entry is shown disabled: a file whose type may not be selected.
pub open spec fn entry_disabled(v: PickerView, f: FileEntry) -> bool {
    !selectable(v, f.name@) && !f.is_dir
}

/// The style of a name on a line that is not under the cursor.
pub open spec fn name_style(v: PickerView, f: FileEntry) -> lipgloss::Style {
    if f.is_dir {
        v.styles.directory
    } else if f.is_symlink {
        v.styles.symlink
    } else if entry_disabled(v, f) {
        v.styles.disabled_file
    } else {
        v.styles.file
    }
}

/// The link target after an arrow, for a link whose target is known.
pub open spec fn link_suffix(f: FileEntry) -> Seq<char> {
    match f.symlink_target {
        Some(t) => if f.is_symlink {
            " → "@ + t@
        } else {
            Seq::<char>::empty()
        },
        None => Seq::<char>::empty(),
    }
}

/// What the listing hands to the renderer for entry `f` at position `i` with its size
/// text: text parts in order, each with the style it is rendered in (`None`: written as
/// it is). Under the cursor: the cursor mark and `selected_line_text` in the cursor and
/// selected styles, or in their disabled forms for a disabled entry. Elsewhere: a blank
/// in the cursor style, the permissions and the size in their styles when shown, and the
/// name in `name_style` followed by the link target. Each ends the line.
pub open spec fn entry_plan(v: PickerView, f: FileEntry, i: int, size: Seq<char>) -> Seq<(Seq<char>, Option<lipgloss::Style>)> {
    let disabled = entry_disabled(v, f);
    if v.selected == i {
        seq![
            (v.cursor, Some(if disabled { v.styles.disabled_cursor } else { v.styles.cursor })),
            (selected_line_text(v, f, size), Some(if disabled { v.styles.disabled_selected } else { v.styles.selected })),
            (seq!['\n'], None::<lipgloss::Style>),
        ]
    } else {
        seq![(seq![' '], Some(v.styles.cursor))] + (if v.show_permissions {
            seq![(seq![' '], None::<lipgloss::Style>), (mode_string(f.mode), Some(v.styles.permission))]
        } else {
            Seq::empty()
        }) + (if v.show_size {
            seq![(size, Some(v.styles.file_size))]
        } else {
            Seq::empty()
        }) + seq![
            (seq![' '], None::<lipgloss::Style>),
            (f.name@, Some(name_style(v, f))),
            (link_suffix(f), None::<lipgloss::Style>),
            (seq!['\n'], None::<lipgloss::Style>),
        ]
    }
}

/// Text parts paired with the style each is rendered in, if any.
pub open spec fn mixed_view(v: Seq<(String, Option<lipgloss::Style>)>) -> Seq<(Seq<char>, Option<lipgloss::Style>)> {
    v.map_values(|p: (String, Option<lipgloss::Style>)| (p.0@, p.1))
}

/// Whether `r` is one piece per part, in order, the parts without a style written as
/// they are.
pub open spec fn rendered_mixed(r: Seq<char>, parts: Seq<(Seq<char>, Option<lipgloss::Style>)>) -> bool {
    exists|pieces: Seq<Seq<char>>|
        pieces.len() == parts.len() && r == #[trigger] pieces.flatten() && forall|k: int|
            0 <= k < parts.len() && parts[k].1 is None ==> pieces[k] == parts[k].0
}

/// Each part rendered in its style (or written as it is), concatenated.
pub fn render_mixed(parts: &Vec<(String, Option<lipgloss::Style>)>) -> (r: String)
    ensures
        rendered_mixed(r@, mixed_view(parts@)),
        parts@.len() > 0 && parts@.last().1 is None && parts@.last().0@ == seq!['\n'] ==> r@.len() > 0
            && r@.last() == '\n',
{
    let ghost pv = mixed_view(parts@);
    let mut result = String::new();
    let ghost mut pieces: Seq<Seq<char>> = Seq::empty();
    let mut i: usize = 0;
    assert(pieces.flatten() =~= Seq::<char>::empty());
    while i < parts.len()
        invariant
            i <= parts@.len(),
            pv == mixed_view(parts@),
            pieces.len() == i,
            result@ == pieces.flatten(),
            forall|k: int| 0 <= k < i && pv[k].1 is None ==> pieces[k] == pv[k].0,
            i > 0 && parts@[i - 1].1 is None && parts@[i - 1].0@ == seq!['\n'] ==> result@.len() > 0
                && result@.last() == '\n',
        decreases parts@.len() - i,
    {
        let piece = match &parts[i].1 {
            Some(st) => render(st, parts[i].0.as_str()),
            None => String::from_str(parts[i].0.as_str()),
        };
        push_str(&mut result, piece.as_str());
        proof {
            pieces.lemma_flatten_push(piece@);
            pieces = pieces.push(piece@);
        }
        i += 1;
    }
    result
}

/// How many of the entries below position `i` lie in the window `min..=max`.
pub open spec fn shown_below(v: PickerView, i: int) -> nat {
    if v.max < v.min || i <= v.min {
        0
    } else if i <= v.max + 1 {
        (i - v.min) as nat
    } else {
        (v.max + 1 - v.min) as nat
    }
}

/// How many entries the listing shows: those in the window `min..=max`.
pub open spec fn window_count(v: PickerView) -> nat {
    shown_below(v, v.files.len() as int)
}

/// Whether the key press is handled within `usize`.
pub open spec fn key_ok(v: PickerView, msg: KeyMsg) -> bool {
    let k = v.keymap;
    if spec_matches(k.go_to_top@, msg) || spec_matches(k.go_to_last@, msg) {
        true
    } else if spec_matches(k.down@, msg) {
        down_selected(v) > v.max ==> v.min + 1 <= usize::MAX && v.max + 1 <= usize::MAX
    } else if spec_matches(k.up@, msg) {
        true
    } else if spec_matches(k.page_down@, msg) {
        &&& v.selected + v.height <= usize::MAX
        &&& v.min + v.height <= usize::MAX
        &&& v.max + v.height <= usize::MAX
    } else {
        true
    }
}

/// The parent that `std::path::Path::parent` gives for a path: a function of the path
/// alone.
pub uninterp spec fn path_parent_of(p: Seq<char>) -> Option<Seq<char>>;

/// Calls `std::path::Path::parent` on the path and converts the parent to a string. Its
/// documentation: the path without its final component, or `None` when the path ends in
/// a root or a prefix or is empty. The result is the named parent of the path, and
/// `None` for the empty path.
#[verifier::external_body]
fn path_parent(p: &str) -> (r: Option<String>)
    ensures
        opt_str(r) == path_parent_of(p@),
        p@.len() == 0 ==> r is None,
{
    match std::path::Path::new(p).parent() {
        Some(q) => Some(q.to_string_lossy().to_string()),
        None => None,
    }
}

/// A fresh picker.
pub fn new() -> (m: Model)
    ensures
        m@.files.len() == 0,
        m@.current_directory == "."@,
        m@.path.len() == 0,
        m@.allowed_types.len() == 0,
        m@.show_permissions && m@.show_size && !m@.show_hidden,
        !m@.dir_allowed && m@.file_allowed,
        m@.selected == 0 && m@.min == 0 && m@.max == 0 && m@.height == 0,
        m@.selected_stack.len() == 0 && m@.min_stack.len() == 0 && m@.max_stack.len() == 0,
        m@.auto_height,
        m@.cursor == ">"@,
        m@.error is None,
        m@.file_selected.len() == 0,
        is_default_keymap(m@.keymap),
        m@.id >= 1,
        picker_wf(m@),
{
    Model::new()
}

impl Model {
    /// A fresh picker listing ".", with a new id: files may be selected, directories not,
    /// permissions and sizes shown, hidden entries not, height following the window.
    pub fn new() -> (m: Model)
        ensures
            m@.files.len() == 0,
            m@.current_directory == "."@,
            m@.path.len() == 0,
            m@.allowed_types.len() == 0,
            m@.show_permissions && m@.show_size && !m@.show_hidden,
            !m@.dir_allowed && m@.file_allowed,
            m@.selected == 0 && m@.min == 0 && m@.max == 0 && m@.height == 0,
            m@.selected_stack.len() == 0 && m@.min_stack.len() == 0 && m@.max_stack.len() == 0,
            m@.auto_height,
            m@.cursor == ">"@,
            m@.error is None,
            m@.file_selected.len() == 0,
            is_default_keymap(m@.keymap),
            m@.id >= 1,
            picker_wf(m@),
    {
        let id = (next_id() % (i64::MAX as u64)) as i64 + 1;
        let m = Model {
            id,
            path: String::new(),
            current_directory: String::from_str("."),
            allowed_types: Vec::new(),
            keymap: FilepickerKeyMap::default(),
            files: Vec::new(),
            show_permissions: true,
            show_size: true,
            show_hidden: false,
            dir_allowed: false,
            file_allowed: true,
            file_selected: String::new(),
            selected: 0,
            selected_stack: Stack::new(),
            min: 0,
            max: 0,
            max_stack: Stack::new(),
            min_stack: Stack::new(),
            height: 0,
            auto_height: true,
            cursor: String::from_str(">"),
            error: None,
            styles: Styles::default(),
        };
        assert(m@.allowed_types =~= Seq::<Seq<char>>::empty());
        m
    }

    /// The same as `new`.
    pub fn default() -> (m: Model)
        ensures
            m@.files.len() == 0,
            m@.current_directory == "."@,
            m@.selected == 0 && m@.min == 0 && m@.max == 0 && m@.height == 0,
            is_default_keymap(m@.keymap),
            picker_wf(m@),
    {
        Model::new()
    }

    /// The message shown in place of the listing, styled to the picker's height.
    fn boxed_message(&self, text: &str) -> String {
        let h: i32 = self.height as i32;
        let st = max_height_style(&height_style(&self.styles.empty_directory, h), h);
        render(&st, text)
    }

    /// What the listing hands to the renderer for the entry at position `i` with its
    /// size text (`entry_plan`).
    pub fn entry_parts(&self, i: usize, size: &str) -> (r: Vec<(String, Option<lipgloss::Style>)>)
        requires
            i < self@.files.len(),
        ensures
            mixed_view(r@) == entry_plan(self@, self@.files[i as int], i as int, size@),
    {
        let f = &self.files[i];
        let disabled = !self.can_select(f.name.as_str()) && !f.is_dir;
        assert(disabled == entry_disabled(self@, self@.files[i as int]));
        assert(self@.styles == self.styles);
        let mut parts: Vec<(String, Option<lipgloss::Style>)> = Vec::new();
        if self.selected == i {
            let line = self.selected_line(f, size);
            if disabled {
                parts.push((String::from_str(self.cursor.as_str()), Some(self.styles.disabled_cursor.clone())));
                parts.push((line, Some(self.styles.disabled_selected.clone())));
            } else {
                parts.push((String::from_str(self.cursor.as_str()), Some(self.styles.cursor.clone())));
                parts.push((line, Some(self.styles.selected.clone())));
            }
            parts.push((chars_to_string(&['\n']), None));
            assert(mixed_view(parts@).len() == 3);
            assert(mixed_view(parts@)[0] == entry_plan(self@, self@.files[i as int], i as int, size@)[0]);
            assert(mixed_view(parts@)[1] == entry_plan(self@, self@.files[i as int], i as int, size@)[1]);
            assert(mixed_view(parts@)[2] == entry_plan(self@, self@.files[i as int], i as int, size@)[2]);
            assert(mixed_view(parts@) =~= entry_plan(self@, self@.files[i as int], i as int, size@));
            return parts;
        }
        let style = if f.is_dir {
            self.styles.directory.clone()
        } else if f.is_symlink {
            self.styles.symlink.clone()
        } else if disabled {
            self.styles.disabled_file.clone()
        } else {
            self.styles.file.clone()
        };
        let ghost v = self@;
        let ghost fv = self@.files[i as int];
        assert(style == name_style(v, fv));
        let ghost perm_part: Seq<(Seq<char>, Option<lipgloss::Style>)> = if v.show_permissions {
            seq![(seq![' '], None::<lipgloss::Style>), (mode_string(fv.mode), Some(v.styles.permission))]
        } else {
            Seq::empty()
        };
        let ghost size_part: Seq<(Seq<char>, Option<lipgloss::Style>)> = if v.show_size {
            seq![(size@, Some(v.styles.file_size))]
        } else {
            Seq::empty()
        };
        let blank = chars_to_string(&[' ']);
        assert(blank@ =~= seq![' ']);
        let cs = self.styles.cursor.clone();
        assert(parts@.len() == 0);
        parts.push((blank, Some(cs)));
        assert(parts@.len() == 1);
        assert(mixed_view(parts@)[0] == (seq![' '], Some(v.styles.cursor)));
        assert(mixed_view(parts@) =~= seq![(seq![' '], Some(v.styles.cursor))]);
        if self.show_permissions {
            parts.push((chars_to_string(&[' ']), None));
            parts.push((format_mode(f.mode), Some(self.styles.permission.clone())));
        }
        assert(mixed_view(parts@) =~= seq![(seq![' '], Some(v.styles.cursor))] + perm_part);
        if self.show_size {
            parts.push((String::from_str(size), Some(self.styles.file_size.clone())));
        }
        assert(mixed_view(parts@) =~= seq![(seq![' '], Some(v.styles.cursor))] + perm_part + size_part);
        let ghost head = mixed_view(parts@);
        let sp = chars_to_string(&[' ']);
        assert(sp@ =~= seq![' ']);
        parts.push((sp, None));
        parts.push((String::from_str(f.name.as_str()), Some(style)));
        let mut suffix = String::new();
        if f.is_symlink {
            match &f.symlink_target {
                Some(t) => {
                    push_str(&mut suffix, " → ");
                    push_str(&mut suffix, t.as_str());
                },
                None => {},
            }
        }
        assert(suffix@ == link_suffix(fv));
        parts.push((suffix, None));
        let nl = chars_to_string(&['\n']);
        assert(nl@ =~= seq!['\n']);
        parts.push((nl, None));
        let ghost tail = seq![
            (seq![' '], None::<lipgloss::Style>),
            (fv.name@, Some(name_style(v, fv))),
            (link_suffix(fv), None::<lipgloss::Style>),
            (seq!['\n'], None::<lipgloss::Style>),
        ];
        assert(mixed_view(parts@) =~= head + tail);
        assert(v.selected != i);
        assert(mixed_view(parts@) =~= entry_plan(self@, self@.files[i as int], i as int, size@));
        parts
    }

    /// The text of the line for the entry under the cursor (`selected_line_text`), before
    /// it is styled.
    pub fn selected_line(&self, f: &FileEntry, size: &str) -> (r: String)
        ensures
            r@ == selected_line_text(self@, *f, size@),
    {
        let mut line = String::new();
        if self.show_permissions {
            push_char(&mut line, ' ');
            let m = format_mode(f.mode);
            push_str(&mut line, m.as_str());
        }
        if self.show_size {
            let padded = pad_left(size, 7);
            push_str(&mut line, padded.as_str());
        }
        push_char(&mut line, ' ');
        push_str(&mut line, f.name.as_str());
        if f.is_symlink {
            match &f.symlink_target {
                Some(t) => {
                    push_str(&mut line, " → ");
                    push_str(&mut line, t.as_str());
                },
                None => {},
            }
        }
        line
    }

    /// The listing given each entry's size as text (`sizes[i]` for `files[i]`): each
    /// entry in the window rendered from the parts `entry_parts` plans for it (the one
    /// under the cursor after the cursor mark in the selected style, the others after a
    /// blank cursor with styled parts; entries whose type may not be selected shown
    /// disabled), then blank lines up to the height. The error, or a note that there are
    /// no files, takes the place of an empty listing.
    pub fn view_with_sizes(&self, sizes: &Vec<String>) -> (r: String)
        requires
            sizes@.len() == self@.files.len(),
        ensures
            self@.error is None && self@.files.len() > 0 ==> {
                &&& r@.len() > 0
                &&& r@.last() == '\n'
                &&& lines_in(r@) >= self@.height + 1
                &&& exists|entries: Seq<Seq<char>>| {
                    &&& entries.len() == window_count(self@)
                    &&& forall|k: int| 0 <= k < entries.len() ==> (#[trigger] entries[k]).len() > 0
                        && entries[k].last() == '\n'
                        && rendered_mixed(
                            entries[k],
                            entry_plan(self@, self@.files[self@.min + k], self@.min + k, sizes@[self@.min + k]@),
                        )
                    &&& entries.flatten().len() <= r@.len()
                    &&& r@.subrange(0, entries.flatten().len() as int) == entries.flatten()
                    &&& forall|j: int| entries.flatten().len() <= j < r@.len() ==> #[trigger] r@[j] == '\n'
                }
            },
    {
        match &self.error {
            Some(e) => {
                return self.boxed_message(e.as_str());
            },
            None => {},
        }
        if self.files.len() == 0 {
            return self.boxed_message("Bummer. No Files Found.");
        }
        let mut output = String::new();
        let ghost mut entries: Seq<Seq<char>> = Seq::empty();
        let mut i: usize = 0;
        while i < self.files.len()
            invariant
                i <= self.files@.len(),
                sizes@.len() == self.files@.len(),
                output@.len() == 0 || output@.last() == '\n',
                output@ == entries.flatten(),
                entries.len() == shown_below(self@, i as int),
                forall|k: int| 0 <= k < entries.len() ==> (#[trigger] entries[k]).len() > 0
                    && entries[k].last() == '\n'
                    && rendered_mixed(
                        entries[k],
                        entry_plan(self@, self@.files[self@.min + k], self@.min + k, sizes@[self@.min + k]@),
                    ),
            decreases self.files@.len() - i,
        {
            if i < self.min || i > self.max {
                i += 1;
                continue;
            }
            let ghost before = output@;
            let parts = self.entry_parts(i, sizes[i].as_str());
            let ghost plan = entry_plan(self@, self@.files[i as int], i as int, sizes@[i as int]@);
            assert(mixed_view(parts@).len() == parts@.len());
            assert(parts@.len() > 0 && parts@.last().1 is None && parts@.last().0@ == seq!['\n']) by {
                assert(plan.last() == mixed_view(parts@).last());
            }
            let piece = render_mixed(&parts);
            push_str(&mut output, piece.as_str());
            proof {
                assert(output@ =~= before + piece@);
                entries.lemma_flatten_push(piece@);
                assert(entries.len() == i - self@.min);
                entries = entries.push(piece@);
            }
            i += 1;
        }
        let ghost flat = output@;
        assert(flat.subrange(0, flat.len() as int) =~= flat);
        let chars = str_to_chars(output.as_str());
        let current = line_count(chars.as_slice());
        proof {
            lemma_lines_of_ended(output@);
        }
        if current <= self.height {
            let mut k = current;
            loop
                invariant_except_break
                    current <= k <= self.height,
                    lines_in(output@) == k,
                invariant
                    output@.len() == 0 || output@.last() == '\n',
                    flat.len() <= output@.len(),
                    output@.subrange(0, flat.len() as int) == flat,
                    forall|j: int| flat.len() <= j < output@.len() ==> #[trigger] output@[j] == '\n',
                ensures
                    lines_in(output@) == self.height + 1,
                    output@.len() > 0 && output@.last() == '\n',
                decreases self.height - k,
            {
                proof {
                    lemma_lines_push_newline(output@);
                }
                let ghost prev = output@;
                push_char(&mut output, '\n');
                assert(output@.subrange(0, flat.len() as int) =~= prev.subrange(0, flat.len() as int));
                if k == self.height {
                    break;
                }
                k += 1;
            }
        }
        output
    }

    /// The picker's id, which its directory messages carry.
    pub fn id(&self) -> (r: i64)
        ensures
            r == self@.id,
    {
        self.id
    }

    /// The listed entries.
    pub fn files(&self) -> (r: &Vec<FileEntry>)
        ensures
            r@ == self@.files,
    {
        &self.files
    }

    /// The index of the entry under the cursor.
    pub fn selected(&self) -> (r: usize)
        ensures
            r == self@.selected,
    {
        self.selected
    }

    /// The first and last entries in view.
    pub fn window(&self) -> (r: (usize, usize))
        ensures
            r == (self@.min, self@.max),
    {
        (self.min, self.max)
    }

    /// Sets the height; a window that no longer fits ends `height` lines after its start.
    pub fn set_height(&mut self, height: usize)
        requires
            old(self)@.max > dec(height as int, 1) ==> 1 <= old(self)@.min + height <= usize::MAX,
        ensures
            final(self)@ == (if old(self)@.max > dec(height as int, 1) {
                PickerView { height, max: (old(self)@.min + height - 1) as usize, ..old(self)@ }
            } else {
                PickerView { height, ..old(self)@ }
            }),
    {
        self.height = height;
        if self.max > self.height.saturating_sub(1) {
            self.max = self.min + self.height - 1;
        }
    }

    /// Whether a file name may be selected: any when no types are allowed, else one that
    /// ends with an allowed type.
    pub fn can_select(&self, file: &str) -> (r: bool)
        ensures
            r == (self@.allowed_types.len() == 0 || exists|i: int|
                0 <= i < self@.allowed_types.len() && file@.len() >= (#[trigger] self@.allowed_types[i]).len()
                    && file@.subrange(file@.len() - self@.allowed_types[i].len(), file@.len() as int)
                    == self@.allowed_types[i]),
    {
        if self.allowed_types.len() == 0 {
            return true;
        }
        let name = str_to_chars(file);
        let mut i: usize = 0;
        while i < self.allowed_types.len()
            invariant
                i <= self.allowed_types@.len(),
                name@ == file@,
                self@.allowed_types == self.allowed_types@.map_values(|t: String| t@),
                forall|k: int| 0 <= k < i ==> !(file@.len() >= (#[trigger] self@.allowed_types[k]).len()
                    && file@.subrange(file@.len() - self@.allowed_types[k].len(), file@.len() as int)
                    == self@.allowed_types[k]),
            decreases self.allowed_types@.len() - i,
        {
            let ext = str_to_chars(self.allowed_types[i].as_str());
            assert(ext@ == self@.allowed_types[i as int]);
            if ends_with(name.as_slice(), ext.as_slice()) {
                return true;
            }
            i += 1;
        }
        false
    }

    /// Whether the key selects the entry under the cursor, and the picker's path if so.
    fn did_select_file_internal(&self, msg: &PickerMsg) -> (r: (bool, String))
        requires
            picker_wf(self@),
        ensures
            r.0 == select_pressed(self@, *msg),
            r.0 ==> r.1@ == self@.path,
            !r.0 ==> r.1@.len() == 0,
    {
        if self.files.len() == 0 {
            return (false, String::new());
        }
        match msg {
            PickerMsg::Key(key_msg) => {
                if !self.keymap.select.matches(key_msg) {
                    return (false, String::new());
                }
                let is_dir = self.files[self.selected].is_dir;
                if (!is_dir && self.file_allowed) || (is_dir && self.dir_allowed) && self.path.as_str().unicode_len() > 0 {
                    return (true, self.path.clone());
                }
                (false, String::new())
            },
            _ => (false, String::new()),
        }
    }

    /// Whether the message selects an allowed file, and its path if so.
    pub fn did_select_file(&self, msg: &PickerMsg) -> (r: (bool, String))
        requires
            picker_wf(self@),
        ensures
            r.0 == (select_pressed(self@, *msg) && selectable(self@, self@.path)),
            r.0 ==> r.1@ == self@.path,
            !r.0 ==> r.1@.len() == 0,
    {
        let (did_select, path) = self.did_select_file_internal(msg);
        if did_select && self.can_select(path.as_str()) {
            (true, path)
        } else {
            (false, String::new())
        }
    }

    /// Whether the message selects a file whose type is not allowed, and its path if so.
    pub fn did_select_disabled_file(&self, msg: &PickerMsg) -> (r: (bool, String))
        requires
            picker_wf(self@),
        ensures
            r.0 == (select_pressed(self@, *msg) && !selectable(self@, self@.path)),
            r.0 ==> r.1@ == self@.path,
            !r.0 ==> r.1@.len() == 0,
    {
        let (did_select, path) = self.did_select_file_internal(msg);
        if did_select && !self.can_select(path.as_str()) {
            (true, path)
        } else {
            (false, String::new())
        }
    }

    /// Takes in the outcome of reading the current directory: the listed entries, in
    /// listing order, with the cursor at the top, or the error. (A listing delivered as a
    /// `ReadDir` message instead keeps the cursor where going back put it.)
    pub fn read_dir_done(&mut self, result: Result<Vec<FileEntry>, String>)
        ensures
            match result {
                Ok(entries) => {
                    &&& sorted(final(self)@.files)
                    &&& final(self)@.files.to_multiset() == entries@.filter(listed(old(self)@.show_hidden)).to_multiset()
                    &&& final(self)@ == (PickerView {
                        files: final(self)@.files,
                        error: None,
                        selected: 0,
                        max: if old(self)@.max >= dec(old(self)@.height as int, 1) {
                            old(self)@.max
                        } else {
                            dec(old(self)@.height as int, 1) as usize
                        },
                        ..old(self)@
                    })
                },
                Err(e) => final(self)@ == (PickerView {
                    files: Seq::empty(),
                    error: Some(read_dir_error(e@)),
                    ..old(self)@
                }),
            },
            picker_wf(final(self)@),
    {
        self.files = Vec::new();
        self.error = None;
        match result {
            Ok(entries) => {
                self.files = prepare_entries(entries, self.show_hidden);
                self.selected = 0;
                let h = self.height.saturating_sub(1);
                if self.max < h {
                    self.max = h;
                }
            },
            Err(e) => {
                let mut msg = String::from_str("Failed to read directory: ");
                push_str(&mut msg, e.as_str());
                self.error = Some(msg);
            },
        }
    }

    /// Handles a message, given the parent of the current directory (`None` when it has
    /// none). When the result is `ReadDir`, the caller reads the new current directory and
    /// hands the outcome to `read_dir_done`.
    pub fn update_with_parent(&mut self, msg: PickerMsg, parent: Option<String>) -> (r: PickerAction)
        requires
            picker_wf(old(self)@),
            match msg {
                PickerMsg::ReadDir(d) => read_dir_ok(old(self)@, d.id, d.entries@),
                PickerMsg::Key(k) => key_ok(old(self)@, k),
                _ => true,
            },
        ensures
            picker_wf(final(self)@),
            match msg {
                PickerMsg::WindowSize { width, height } => final(self)@ == window_step(old(self)@, height)
                    && r == PickerAction::Nothing,
                PickerMsg::ReadDir(d) => final(self)@ == read_dir_step(old(self)@, d.id, d.entries@)
                    && r == PickerAction::Nothing,
                PickerMsg::Key(k) => (final(self)@, r) == key_step(
                    old(self)@,
                    k,
                    opt_str(parent),
                ),
            },
    {
        match msg {
            PickerMsg::WindowSize { width, height } => {
                self.window_size(height);
                PickerAction::Nothing
            },
            PickerMsg::ReadDir(d) => {
                self.read_dir_msg(d);
                PickerAction::Nothing
            },
            PickerMsg::Key(k) => self.key(&k, parent),
        }
    }

    /// Handles a message; see `update_with_parent`, with the parent of the current
    /// directory as `std::path::Path::parent` gives it.
    pub fn update(&mut self, msg: PickerMsg) -> (r: PickerAction)
        requires
            picker_wf(old(self)@),
            match msg {
                PickerMsg::ReadDir(d) => read_dir_ok(old(self)@, d.id, d.entries@),
                PickerMsg::Key(k) => key_ok(old(self)@, k),
                _ => true,
            },
        ensures
            picker_wf(final(self)@),
            match msg {
                PickerMsg::WindowSize { width, height } => final(self)@ == window_step(old(self)@, height)
                    && r == PickerAction::Nothing,
                PickerMsg::ReadDir(d) => final(self)@ == read_dir_step(old(self)@, d.id, d.entries@)
                    && r == PickerAction::Nothing,
                PickerMsg::Key(k) => (final(self)@, r) == key_step(
                    old(self)@,
                    k,
                    path_parent_of(old(self)@.current_directory),
                ),
            },
    {
        let parent = path_parent(self.current_directory.as_str());
        self.update_with_parent(msg, parent)
    }

    fn window_size(&mut self, height: u16)
        requires
            picker_wf(old(self)@),
        ensures
            final(self)@ == window_step(old(self)@, height),
            picker_wf(final(self)@),
    {
        if self.auto_height {
            self.height = (height as usize).saturating_sub(MARGIN_BOTTOM);
        }
        let h1 = self.height.saturating_sub(1);
        self.max = if self.files.len() == 0 {
            h1
        } else {
            let f1 = self.files.len() - 1;
            if h1 <= f1 { h1 } else { f1 }
        };
        if self.max < self.selected {
            self.min = self.selected.saturating_sub(h1);
            self.max = self.selected;
        }
    }

    #[verifier::rlimit(50)]
    fn read_dir_msg(&mut self, d: ReadDirMsg)
        requires
            picker_wf(old(self)@),
            read_dir_ok(old(self)@, d.id, d.entries@),
        ensures
            final(self)@ == read_dir_step(old(self)@, d.id, d.entries@),
            picker_wf(final(self)@),
    {
        if d.id != self.id {
            return;
        }
        self.files = d.entries;
        if self.files.len() == 0 {
            self.max = 0;
        } else {
            let viewport_max = self.height.saturating_sub(1);
            let file_max = self.files.len() - 1;
            self.max = if viewport_max <= file_max { viewport_max } else { file_max };
            if self.selected >= self.files.len() {
                self.selected = file_max;
            }
            if self.selected > self.max {
                self.min = self.selected.saturating_sub(viewport_max);
                self.max = self.selected;
            } else if self.selected < self.min {
                self.min = self.selected;
                let top = self.min + viewport_max;
                self.max = if top <= file_max { top } else { file_max };
            }
        }
    }

    fn push_view(&mut self, selected: usize, minimum: usize, maximum: usize)
        ensures
            final(self)@ == (PickerView {
                selected_stack: old(self)@.selected_stack.push(selected),
                min_stack: old(self)@.min_stack.push(minimum),
                max_stack: old(self)@.max_stack.push(maximum),
                ..old(self)@
            }),
    {
        self.selected_stack.push(selected);
        self.min_stack.push(minimum);
        self.max_stack.push(maximum);
    }

    fn pop_view(&mut self) -> (r: (usize, usize, usize))
        ensures
            r == (top_or_zero(old(self)@.selected_stack), top_or_zero(old(self)@.min_stack), top_or_zero(
                old(self)@.max_stack,
            )),
            final(self)@ == (PickerView {
                selected_stack: popped(old(self)@.selected_stack),
                min_stack: popped(old(self)@.min_stack),
                max_stack: popped(old(self)@.max_stack),
                ..old(self)@
            }),
    {
        let selected = match self.selected_stack.pop() {
            Some(s) => s,
            None => 0,
        };
        let min = match self.min_stack.pop() {
            Some(s) => s,
            None => 0,
        };
        let max = match self.max_stack.pop() {
            Some(s) => s,
            None => 0,
        };
        (selected, min, max)
    }

    fn key(&mut self, msg: &KeyMsg, parent: Option<String>) -> (r: PickerAction)
        requires
            picker_wf(old(self)@),
            key_ok(old(self)@, *msg),
        ensures
            (final(self)@, r) == key_step(old(self)@, *msg, opt_str(parent)),
            picker_wf(final(self)@),
    {
        if self.keymap.go_to_top.matches(msg) {
            self.go_to_top();
        } else if self.keymap.go_to_last.matches(msg) {
            self.go_to_last();
        } else if self.keymap.down.matches(msg) {
            self.move_down();
        } else if self.keymap.up.matches(msg) {
            self.move_up();
        } else if self.keymap.page_down.matches(msg) {
            self.page_down();
        } else if self.keymap.page_up.matches(msg) {
            self.page_up();
        } else if self.keymap.back.matches(msg) {
            match parent {
                Some(p) => {
                    self.back(p);
                    return PickerAction::ReadDir;
                },
                None => {},
            }
        } else if self.keymap.open.matches(msg) && self.files.len() > 0 {
            let is_dir = self.files[self.selected].is_dir;
            self.open(msg);
            if is_dir {
                return PickerAction::ReadDir;
            }
        }
        PickerAction::Nothing
    }

    fn go_to_top(&mut self)
        ensures
            final(self)@ == top_step(old(self)@),
    {
        self.selected = 0;
        self.min = 0;
        self.max = self.height.saturating_sub(1);
    }

    fn go_to_last(&mut self)
        ensures
            final(self)@ == last_step(old(self)@),
    {
        let len = self.files.len();
        self.selected = len.saturating_sub(1);
        self.min = len.saturating_sub(self.height);
        self.max = len.saturating_sub(1);
    }

    fn move_down(&mut self)
        requires
            down_selected(old(self)@) > old(self)@.max ==> old(self)@.min + 1 <= usize::MAX && old(self)@.max + 1
                <= usize::MAX,
        ensures
            final(self)@ == down_step(old(self)@),
    {
        if self.selected < self.files.len().saturating_sub(1) {
            self.selected = self.selected + 1;
        }
        if self.selected > self.max {
            self.min = self.min + 1;
            self.max = self.max + 1;
        }
    }

    fn move_up(&mut self)
        ensures
            final(self)@ == up_step(old(self)@),
    {
        self.selected = self.selected.saturating_sub(1);
        if self.selected < self.min {
            self.min = self.min.saturating_sub(1);
            self.max = self.max.saturating_sub(1);
        }
    }

    fn page_down(&mut self)
        requires
            old(self)@.selected + old(self)@.height <= usize::MAX,
            old(self)@.min + old(self)@.height <= usize::MAX,
            old(self)@.max + old(self)@.height <= usize::MAX,
        ensures
            final(self)@ == page_down_step(old(self)@),
    {
        let len = self.files.len();
        self.selected = self.selected + self.height;
        if self.selected >= len {
            self.selected = len.saturating_sub(1);
        }
        self.min = self.min + self.height;
        self.max = self.max + self.height;
        if self.max >= len {
            self.max = len.saturating_sub(1);
            self.min = self.max.saturating_sub(self.height);
        }
    }

    fn page_up(&mut self)
        ensures
            final(self)@ == page_up_step(old(self)@),
    {
        self.selected = self.selected.saturating_sub(self.height);
        self.min = self.min.saturating_sub(self.height);
        self.max = self.max.saturating_sub(self.height);
        if self.min == 0 {
            self.max = self.height;
        }
    }

    fn back(&mut self, p: String)
        ensures
            final(self)@ == back_step(old(self)@, p@),
    {
        self.current_directory = p;
        if !self.selected_stack.is_empty() {
            let (selected, min, max) = self.pop_view();
            self.selected = selected;
            self.min = min;
            self.max = max;
        } else {
            self.selected = 0;
            self.min = 0;
            self.max = self.height.saturating_sub(1);
        }
        self.files = Vec::new();
        self.error = None;
    }

    fn open(&mut self, msg: &KeyMsg)
        requires
            old(self)@.files.len() > 0,
            picker_wf(old(self)@),
        ensures
            final(self)@ == open_step(old(self)@, *msg),
    {
        let f = self.files[self.selected].copy();
        if f.is_dir {
            if self.dir_allowed && self.keymap.select.matches(msg) {
                self.path = f.path.clone();
            }
            self.push_view(self.selected, self.min, self.max);
            self.current_directory = f.path;
            self.selected = 0;
            self.min = 0;
            self.max = self.height.saturating_sub(1);
            self.files = Vec::new();
            self.error = None;
        } else {
            self.path = f.path;
        }
    }
}

/// Entering a directory and coming back restores the cursor and the window as they were
/// before entering, and the saved positions as they were, whatever happened in between
/// that saved or restored none.
pub proof fn law_back_restores_position(v: PickerView, msg: KeyMsg, w: PickerView, p: Seq<char>)
    requires
        picker_wf(v),
        v.files.len() > 0,
        v.files[v.selected as int].is_dir,
        w.selected_stack == open_step(v, msg).selected_stack,
        w.min_stack == open_step(v, msg).min_stack,
        w.max_stack == open_step(v, msg).max_stack,
    ensures
        back_step(w, p).selected == v.selected,
        back_step(w, p).min == v.min,
        back_step(w, p).max == v.max,
        back_step(w, p).selected_stack == v.selected_stack,
        back_step(w, p).min_stack == v.min_stack,
        back_step(w, p).max_stack == v.max_stack,
        back_step(w, p).current_directory == p,
{
    assert(w.selected_stack.drop_last() =~= v.selected_stack);
    assert(w.min_stack.drop_last() =~= v.min_stack);
    assert(w.max_stack.drop_last() =~= v.max_stack);
}

/// The cursor lies in the window, and the window spans at most `height + 1` entries.
pub open spec fn cursor_in_window(v: PickerView) -> bool {
    &&& v.min <= v.selected <= v.max
    &&& v.max <= v.min + v.height
}

/// Whether the key press is one of the moving keys: top, last, down, up, page down,
/// page up.
pub open spec fn is_move_key(v: PickerView, msg: KeyMsg) -> bool {
    let k = v.keymap;
    spec_matches(k.go_to_top@, msg) || spec_matches(k.go_to_last@, msg) || spec_matches(k.down@, msg)
        || spec_matches(k.up@, msg) || spec_matches(k.page_down@, msg) || spec_matches(k.page_up@, msg)
}

/// Where each moving key puts the cursor, in a listing of `len` entries: top to the
/// first entry, last to the last; down one further and up one back, stopping at the
/// ends; page down `height` further and page up `height` back, stopping at the ends.
pub proof fn law_move_keys_move_the_cursor(v: PickerView, msg: KeyMsg, p: Option<Seq<char>>)
    requires
        key_ok(v, msg),
        0 < v.files.len() <= usize::MAX,
        v.selected < v.files.len(),
    ensures
        ({
            let k = v.keymap;
            let len = v.files.len() as int;
            let s = key_step(v, msg, p).0.selected as int;
            &&& spec_matches(k.go_to_top@, msg) ==> s == 0
            &&& !spec_matches(k.go_to_top@, msg) && spec_matches(k.go_to_last@, msg) ==> s == len - 1
            &&& !spec_matches(k.go_to_top@, msg) && !spec_matches(k.go_to_last@, msg) && spec_matches(k.down@, msg)
                ==> s == min_of(v.selected + 1, len - 1)
            &&& !spec_matches(k.go_to_top@, msg) && !spec_matches(k.go_to_last@, msg) && !spec_matches(k.down@, msg)
                && spec_matches(k.up@, msg) ==> s == (if v.selected >= 1 { v.selected - 1 } else { 0 })
            &&& !spec_matches(k.go_to_top@, msg) && !spec_matches(k.go_to_last@, msg) && !spec_matches(k.down@, msg)
                && !spec_matches(k.up@, msg) && spec_matches(k.page_down@, msg) ==> s == min_of(
                v.selected + v.height,
                len - 1,
            )
            &&& !spec_matches(k.go_to_top@, msg) && !spec_matches(k.go_to_last@, msg) && !spec_matches(k.down@, msg)
                && !spec_matches(k.up@, msg) && !spec_matches(k.page_down@, msg) && spec_matches(k.page_up@, msg)
                ==> s == (if v.selected >= v.height { v.selected - v.height } else { 0 })
        }),
{
    let k = v.keymap;
    let r = key_step(v, msg, p).0;
    if spec_matches(k.go_to_top@, msg) {
        assert(r == top_step(v));
        assert(r.selected == 0);
    } else if spec_matches(k.go_to_last@, msg) {
        assert(r == last_step(v));
        assert(r.selected == v.files.len() - 1);
    } else if spec_matches(k.down@, msg) {
        assert(r == down_step(v));
        assert(r.selected == min_of(v.selected + 1, v.files.len() - 1));
    } else if spec_matches(k.up@, msg) {
        assert(r == up_step(v));
        assert(r.selected == (if v.selected >= 1 { v.selected - 1 } else { 0 }));
    } else if spec_matches(k.page_down@, msg) {
        assert(r == page_down_step(v));
        assert(v.selected + v.height <= usize::MAX);
    } else if spec_matches(k.page_up@, msg) {
        assert(r == page_up_step(v));
        assert(r.selected == (if v.selected >= v.height { v.selected - v.height } else { 0 }));
    }
}

/// The moving keys keep the cursor inside the window.
pub proof fn law_move_keys_keep_cursor_in_window(v: PickerView, msg: KeyMsg, p: Option<Seq<char>>)
    requires
        key_ok(v, msg),
        cursor_in_window(v),
        v.height >= 1,
        v.files.len() <= usize::MAX,
        is_move_key(v, msg),
    ensures
        cursor_in_window(key_step(v, msg, p).0),
{
    let k = v.keymap;
    let r = key_step(v, msg, p).0;
    let len = v.files.len() as int;
    let h = v.height as int;
    if spec_matches(k.go_to_top@, msg) {
        assert(r == top_step(v));
        assert(cursor_in_window(r));
    } else if spec_matches(k.go_to_last@, msg) {
        assert(r == last_step(v));
        assert(cursor_in_window(r));
    } else if spec_matches(k.down@, msg) {
        assert(r == down_step(v));
        assert(cursor_in_window(r));
    } else if spec_matches(k.up@, msg) {
        assert(r == up_step(v));
        assert(cursor_in_window(r));
    } else if spec_matches(k.page_down@, msg) {
        assert(r == page_down_step(v));
        assert(v.selected + v.height <= usize::MAX);
        assert(v.min + v.height <= usize::MAX);
        assert(v.max + v.height <= usize::MAX);
        if v.max + h >= len {
            assert(v.selected >= len - 2 * h);
        }
        assert(cursor_in_window(r));
    } else {
        assert(spec_matches(k.page_up@, msg));
        assert(r == page_up_step(v));
        assert(cursor_in_window(r));
    }
}

/// The open key on a directory enters it: its path becomes the current directory, the
/// cursor goes to the top, the listing is emptied to be read again, and the position is
/// saved so that going back restores it. On a file it chooses the file's path and
/// changes nothing else.
pub proof fn law_open_enters_directory_or_chooses_file(v: PickerView, msg: KeyMsg, p: Option<Seq<char>>)
    requires
        v.files.len() > 0,
        v.selected < v.files.len(),
        !is_move_key(v, msg),
        !spec_matches(v.keymap.back@, msg),
        spec_matches(v.keymap.open@, msg),
    ensures
        ({
            let f = v.files[v.selected as int];
            let (w, a) = key_step(v, msg, p);
            &&& f.is_dir ==> w.current_directory == f.path@ && w.selected == 0 && w.files.len() == 0
                && w.selected_stack == v.selected_stack.push(v.selected) && a == PickerAction::ReadDir
            &&& !f.is_dir ==> w == (PickerView { path: f.path@, ..v }) && a == PickerAction::Nothing
        }),
{
}

/// Every key press leaves the cursor on an entry whenever there are entries.
pub proof fn law_keys_keep_cursor_on_entry(v: PickerView, msg: KeyMsg, parent: Option<Seq<char>>)
    requires
        picker_wf(v),
        v.files.len() <= usize::MAX,
    ensures
        picker_wf(key_step(v, msg, parent).0),
{
}

/// Whether the message is the select key while the entry under the cursor may be
/// chosen (a file when files are allowed; a directory when directories are and a path
/// was chosen before).
pub open spec fn select_pressed(v: PickerView, msg: PickerMsg) -> bool {
    &&& v.files.len() > 0
    &&& msg matches PickerMsg::Key(k)
    &&& spec_matches(v.keymap.select@, k)
    &&& {
        let is_dir = v.files[v.selected as int].is_dir;
        (!is_dir && v.file_allowed) || (is_dir && v.dir_allowed && v.path.len() > 0)
    }
}

/// Whether a path may be selected: any when no types are allowed, else one that ends
/// with an allowed type.
pub open spec fn selectable(v: PickerView, file: Seq<char>) -> bool {
    v.allowed_types.len() == 0 || exists|i: int|
        0 <= i < v.allowed_types.len() && file.len() >= (#[trigger] v.allowed_types[i]).len()
            && file.subrange(file.len() - v.allowed_types[i].len(), file.len() as int) == v.allowed_types[i]
}

/// The characters of an optional string.
pub open spec fn opt_str(o: Option<String>) -> Option<Seq<char>> {
    match o {
        Some(s) => Some(s@),
        None => None,
    }
}

/// The error recorded when a directory cannot be read.
pub open spec fn read_dir_error(e: Seq<char>) -> Seq<char> {
    "Failed to read directory: "@ + e
}

} // verus!
