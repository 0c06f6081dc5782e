//! Pagination state (current page, items per page, page count) and its one-line view,
//! either as `"page/total"` or as a row of dots.
use vstd::prelude::*;
use crate::key::{self, Binding, KeyCode, KeyMap, KeyMsg, KeyPress, spec_matches};
use crate::text::{
    chars_to_string, decimal, first_occurrence, occurs_at, push_char, push_decimal, push_str, replace_first,
    replace_first_exec, str_to_chars,
};

verus! {

/// How the paginator is drawn.
#[derive(Debug, Clone, Copy, PartialEq, Eq, Structural)]
pub enum Type {
    /// `"2/10"`.
    Arabic,
    /// A row of dots with the current page highlighted.
    Dots,
}

impl Type {
    /// The default type, `Arabic`.
    pub fn default() -> (t: Type)
        ensures
            t == Type::Arabic,
    {
        Type::Arabic
    }
}

/// The keys that change page.
#[derive(Debug, Clone)]
pub struct PaginatorKeyMap {
    pub prev_page: Binding,
    pub next_page: Binding,
}

impl PaginatorKeyMap {
    /// Page back with pgup, left or `h`; forward with pgdown, right or `l`.
    pub fn default() -> (k: PaginatorKeyMap)
        ensures
            k.prev_page@.keys == seq![
                KeyPress { code: KeyCode::PageUp, mods: key::modifiers::NONE },
                KeyPress { code: KeyCode::Left, mods: key::modifiers::NONE },
                KeyPress { code: KeyCode::Char('h'), mods: key::modifiers::NONE },
            ],
            k.prev_page@.help_key == "←/h"@,
            k.prev_page@.help_desc == "prev page"@,
            k.prev_page@.enabled,
            k.next_page@.keys == seq![
                KeyPress { code: KeyCode::PageDown, mods: key::modifiers::NONE },
                KeyPress { code: KeyCode::Right, mods: key::modifiers::NONE },
                KeyPress { code: KeyCode::Char('l'), mods: key::modifiers::NONE },
            ],
            k.next_page@.help_key == "→/l"@,
            k.next_page@.help_desc == "next page"@,
            k.next_page@.enabled,
    {
        let prev = Binding::new(
            vec![
                KeyPress::from_code(KeyCode::PageUp),
                KeyPress::from_code(KeyCode::Left),
                KeyPress::from_code(KeyCode::Char('h')),
            ],
        ).with_help("←/h", "prev page");
        let next = Binding::new(
            vec![
                KeyPress::from_code(KeyCode::PageDown),
                KeyPress::from_code(KeyCode::Right),
                KeyPress::from_code(KeyCode::Char('l')),
            ],
        ).with_help("→/l", "next page");
        PaginatorKeyMap { prev_page: prev, next_page: next }
    }
}

impl KeyMap for PaginatorKeyMap {
    fn short_help(&self) -> (r: Vec<&Binding>)
        ensures
            r@ == seq![&self.prev_page, &self.next_page],
    {
        vec![&self.prev_page, &self.next_page]
    }

    fn full_help(&self) -> (r: Vec<Vec<&Binding>>)
        ensures
            r@.len() == 1,
            r@[0]@ == seq![&self.prev_page, &self.next_page],
    {
        vec![vec![&self.prev_page, &self.next_page]]
    }
}

/// Pagination state.
#[derive(Debug, Clone)]
pub struct Model {
    pub paginator_type: Type,
    /// The current page, from 0.
    pub page: usize,
    pub per_page: usize,
    pub total_pages: usize,
    /// The item count the page count was last set for.
    pub total_items: usize,
    pub active_dot: String,
    pub inactive_dot: String,
    /// Format of the arabic view: the first `%d` becomes the page (from 1), the next
    /// the page count.
    pub arabic_format: String,
    pub keymap: PaginatorKeyMap,
}

/// The number of pages needed for `items` items, `per_page` to a page (at least 1).
pub open spec fn pages_for(items: nat, per_page: nat) -> nat {
    if items == 0 {
        1
    } else {
        ((items + per_page - 1) / per_page as int) as nat
    }
}

/// The paginator after `set_total_items(items)`.
pub open spec fn after_total_items(p: Model, items: nat) -> Model {
    let t = pages_for(items, p.per_page as nat);
    Model {
        total_pages: t as usize,
        total_items: items as usize,
        page: if p.page >= t { (t - 1) as usize } else { p.page },
        ..p
    }
}

/// The dots view: one dot per page, the active one at `page`, separated by spaces.
pub open spec fn dots(k: nat, page: nat, total: nat, active: Seq<char>, inactive: Seq<char>) -> Seq<char>
    decreases k,
{
    if k == 0 {
        Seq::empty()
    } else {
        let i = (k - 1) as nat;
        dots(i, page, total, active, inactive) + (if i == page { active } else { inactive }) + (
        if i + 1 < total { seq![' '] } else { Seq::empty() })
    }
}

impl Model {
    /// Well-formed state: at least one item per page and one page, current page in range.
    pub open spec fn wf(&self) -> bool {
        &&& self.per_page >= 1
        &&& self.total_pages >= 1
        &&& self.page < self.total_pages
    }

    /// Page 0 of 1, one item per page, arabic view `"%d/%d"`, dots `•` and `○`.
    pub fn new() -> (m: Model)
        ensures
            m.paginator_type == Type::Arabic,
            m.page == 0,
            m.per_page == 1,
            m.total_pages == 1,
            m.total_items == 0,
            m.active_dot@ == "•"@,
            m.inactive_dot@ == "○"@,
            m.arabic_format@ == "%d/%d"@,
            m.wf(),
    {
        Model {
            paginator_type: Type::Arabic,
            page: 0,
            per_page: 1,
            total_pages: 1,
            total_items: 0,
            active_dot: "•".to_string(),
            inactive_dot: "○".to_string(),
            arabic_format: "%d/%d".to_string(),
            keymap: PaginatorKeyMap::default(),
        }
    }

    /// This model with the page count set for `items` items.
    pub fn with_total_items(self, items: usize) -> (m: Model)
        requires
            self.per_page >= 1,
        ensures
            m.total_pages == pages_for(items as nat, self.per_page as nat),
            m.page == (if self.page >= m.total_pages { (m.total_pages - 1) as usize } else { self.page }),
            m.per_page == self.per_page,
            m.paginator_type == self.paginator_type,
    {
        let mut m = self;
        m.set_total_items(items);
        m
    }

    /// This model with `per_page` items per page (at least 1), its page count worked
    /// out again for the item count it was last given.
    pub fn with_per_page(self, per_page: usize) -> (m: Model)
        ensures
            m == after_total_items(
                Model { per_page: if per_page == 0 { 1 } else { per_page }, ..self },
                self.total_items as nat,
            ),
    {
        let mut m = self;
        m.set_per_page(per_page);
        let n = m.total_items;
        m.set_total_items(n);
        m
    }

    /// Sets the items per page (at least 1).
    pub fn set_per_page(&mut self, per_page: usize)
        ensures
            *final(self) == (Model { per_page: if per_page == 0 { 1 } else { per_page }, ..*old(self) }),
        no_unwind
    {
        self.per_page = if per_page == 0 { 1 } else { per_page };
    }

    /// This model with the given active dot.
    pub fn with_active_dot(self, dot: &str) -> (m: Model)
        ensures
            m.active_dot@ == dot@,
            m.page == self.page,
            m.total_pages == self.total_pages,
            m.per_page == self.per_page,
    {
        let mut m = self;
        m.active_dot = dot.to_string();
        m
    }

    /// This model with the given inactive dot.
    pub fn with_inactive_dot(self, dot: &str) -> (m: Model)
        ensures
            m.inactive_dot@ == dot@,
            m.page == self.page,
            m.total_pages == self.total_pages,
            m.per_page == self.per_page,
    {
        let mut m = self;
        m.inactive_dot = dot.to_string();
        m
    }

    /// Sets the active dot.
    pub fn set_active_dot(&mut self, dot: &str)
        ensures
            final(self).active_dot@ == dot@,
            final(self).page == old(self).page,
            final(self).total_pages == old(self).total_pages,
            final(self).per_page == old(self).per_page,
    {
        self.active_dot = dot.to_string();
    }

    /// Sets the inactive dot.
    pub fn set_inactive_dot(&mut self, dot: &str)
        ensures
            final(self).inactive_dot@ == dot@,
            final(self).page == old(self).page,
            final(self).total_pages == old(self).total_pages,
            final(self).per_page == old(self).per_page,
    {
        self.inactive_dot = dot.to_string();
    }

    /// Sets the page count (at least 1), moving the page back into range.
    pub fn set_total_pages(&mut self, pages: usize)
        ensures
            final(self).total_pages == if pages == 0 { 1 } else { pages },
            final(self).page == if old(self).page >= final(self).total_pages {
                (final(self).total_pages - 1) as usize
            } else {
                old(self).page
            },
            final(self).per_page == old(self).per_page,
            final(self).paginator_type == old(self).paginator_type,
    {
        self.total_pages = if pages == 0 { 1 } else { pages };
        if self.page >= self.total_pages {
            self.page = self.total_pages - 1;
        }
    }

    /// Sets the page count for `items` items, moving the page back into range.
    pub fn set_total_items(&mut self, items: usize)
        requires
            old(self).per_page >= 1,
        ensures
            final(self).total_pages == pages_for(items as nat, old(self).per_page as nat),
            final(self).page == if old(self).page >= final(self).total_pages {
                (final(self).total_pages - 1) as usize
            } else {
                old(self).page
            },
            *final(self) == after_total_items(*old(self), items as nat),
            final(self).wf(),
        no_unwind
    {
        self.total_items = items;
        if items == 0 {
            self.total_pages = 1;
        } else {
            proof { lemma_div_ceil(items as nat, self.per_page as nat); }
            self.total_pages = (items - 1) / self.per_page + 1;
        }
        if self.page >= self.total_pages {
            self.page = self.total_pages - 1;
        }
    }

    /// How many items are on the current page, of `total_items` items: none when the
    /// page starts at or past the end.
    pub fn items_on_page(&self, total_items: usize) -> (n: usize)
        requires
            self.page * self.per_page + self.per_page <= usize::MAX,
        ensures
            n == if self.page * self.per_page >= total_items {
                0
            } else {
                spec_min(self.page * self.per_page + self.per_page, total_items as int) - self.page
                    * self.per_page
            },
            n <= self.per_page,
            n <= total_items,
    {
        if total_items == 0 {
            return 0;
        }
        let (start, end) = self.get_slice_bounds(total_items);
        if start >= total_items {
            return 0;
        }
        end - start
    }

    /// The bounds `[start, end)` of the current page in a list of `length` items.
    pub fn get_slice_bounds(&self, length: usize) -> (r: (usize, usize))
        requires
            self.page * self.per_page + self.per_page <= usize::MAX,
        ensures
            r.0 == self.page * self.per_page,
            r.1 == spec_min(self.page * self.per_page + self.per_page, length as int),
    {
        proof {
            vstd::arithmetic::mul::lemma_mul_nonnegative(self.page as int, self.per_page as int);
        }
        let start = self.page * self.per_page;
        let e = start + self.per_page;
        let end = if e < length { e } else { length };
        (start, end)
    }

    /// The slice bounds of the current page over `per_page * total_pages` items.
    pub fn start_index_end_index(&self) -> (r: (usize, usize))
        requires
            self.page * self.per_page + self.per_page <= usize::MAX,
            self.per_page * self.total_pages <= usize::MAX,
        ensures
            r.0 == self.page * self.per_page,
            r.1 == spec_min(self.page * self.per_page + self.per_page, self.per_page * self.total_pages),
    {
        self.get_slice_bounds(self.per_page * self.total_pages)
    }

    /// Goes back one page, unless on the first.
    pub fn prev_page(&mut self)
        ensures
            final(self).page == if old(self).page > 0 { (old(self).page - 1) as usize } else { 0 },
            final(self).per_page == old(self).per_page,
            final(self).total_pages == old(self).total_pages,
            final(self).paginator_type == old(self).paginator_type,
    {
        if self.page > 0 {
            self.page -= 1;
        }
    }

    /// Goes forward one page, unless on the last.
    pub fn next_page(&mut self)
        requires
            old(self).page < usize::MAX || old(self).page == spec_last_page(old(self).total_pages),
        ensures
            final(self).page == if old(self).page == spec_last_page(old(self).total_pages) {
                old(self).page
            } else {
                (old(self).page + 1) as usize
            },
            final(self).per_page == old(self).per_page,
            final(self).total_pages == old(self).total_pages,
            final(self).paginator_type == old(self).paginator_type,
    {
        if !self.on_last_page() {
            self.page += 1;
        }
    }

    /// Whether on the first page.
    pub fn on_first_page(&self) -> (r: bool)
        ensures
            r == (self.page == 0),
    {
        self.page == 0
    }

    /// Whether on the last page.
    pub fn on_last_page(&self) -> (r: bool)
        ensures
            r == (self.page == spec_last_page(self.total_pages)),
    {
        self.page == if self.total_pages == 0 { 0 } else { self.total_pages - 1 }
    }

    /// Handles a key event: the next-page keys go forward, the previous-page keys back.
    pub fn update(&mut self, msg: &KeyMsg)
        requires
            old(self).page < usize::MAX || old(self).page == spec_last_page(old(self).total_pages),
        ensures
            final(self).page == if spec_matches(old(self).keymap.next_page@, *msg) {
                if old(self).page == spec_last_page(old(self).total_pages) {
                    old(self).page
                } else {
                    (old(self).page + 1) as usize
                }
            } else if spec_matches(old(self).keymap.prev_page@, *msg) {
                if old(self).page > 0 { (old(self).page - 1) as usize } else { 0 }
            } else {
                old(self).page
            },
            final(self).per_page == old(self).per_page,
            final(self).total_pages == old(self).total_pages,
    {
        if self.keymap.next_page.matches(msg) {
            self.next_page();
        } else if self.keymap.prev_page.matches(msg) {
            self.prev_page();
        }
    }

    /// The view: arabic or dots, by the paginator's type.
    pub fn view(&self) -> (r: String)
        requires
            self.page < usize::MAX,
        ensures
            r@ == match self.paginator_type {
                Type::Arabic => spec_arabic(self.arabic_format@, self.page as nat, self.total_pages as nat),
                Type::Dots => dots(
                    self.total_pages as nat,
                    self.page as nat,
                    self.total_pages as nat,
                    self.active_dot@,
                    self.inactive_dot@,
                ),
            },
    {
        match self.paginator_type {
            Type::Arabic => self.arabic_view(),
            Type::Dots => self.dots_view(),
        }
    }

    fn arabic_view(&self) -> (r: String)
        requires
            self.page < usize::MAX,
        ensures
            r@ == spec_arabic(self.arabic_format@, self.page as nat, self.total_pages as nat),
    {
        let fmt = str_to_chars(self.arabic_format.as_str());
        let mut page = String::new();
        push_decimal(&mut page, (self.page + 1) as u64);
        let mut total = String::new();
        push_decimal(&mut total, self.total_pages as u64);
        let pat = ['%', 'd'];
        let once = replace_first_exec(fmt.as_slice(), &pat, str_to_chars(page.as_str()).as_slice());
        let twice = replace_first_exec(once.as_slice(), &pat, str_to_chars(total.as_str()).as_slice());
        chars_to_string(twice.as_slice())
    }

    fn dots_view(&self) -> (r: String)
        ensures
            r@ == dots(
                self.total_pages as nat,
                self.page as nat,
                self.total_pages as nat,
                self.active_dot@,
                self.inactive_dot@,
            ),
    {
        let mut s = String::new();
        let mut i: usize = 0;
        while i < self.total_pages
            invariant
                i <= self.total_pages,
                s@ == dots(i as nat, self.page as nat, self.total_pages as nat, self.active_dot@, self.inactive_dot@),
            decreases self.total_pages - i,
        {
            if i == self.page {
                push_str(&mut s, self.active_dot.as_str());
            } else {
                push_str(&mut s, self.inactive_dot.as_str());
            }
            if i < self.total_pages - 1 {
                push_char(&mut s, ' ');
            }
            i += 1;
        }
        s
    }
}

/// The arabic view: the format with its first `%d` replaced by the page (from 1) and
/// the next by the page count.
pub open spec fn spec_arabic(fmt: Seq<char>, page: nat, total: nat) -> Seq<char> {
    replace_first(replace_first(fmt, seq!['%', 'd'], decimal(page + 1)), seq!['%', 'd'], decimal(total))
}

/// The last page index (0 when there are no pages).
pub open spec fn spec_last_page(total_pages: usize) -> usize {
    if total_pages == 0 { 0 } else { (total_pages - 1) as usize }
}

/// The smaller of two integers.
pub open spec fn spec_min(a: int, b: int) -> int {
    if a < b { a } else { b }
}

/// `items / per_page` rounded up, as `(items - 1) / per_page + 1`.
proof fn lemma_div_ceil(items: nat, per_page: nat)
    requires
        per_page >= 1,
        items >= 1,
    ensures
        (items - 1) / per_page as int + 1 == (items + per_page - 1) / per_page as int,
        (items - 1) / per_page as int <= items - 1,
{
    let q = (items - 1) / per_page as int;
    let r = (items - 1) % per_page as int;
    vstd::arithmetic::div_mod::lemma_fundamental_div_mod((items - 1) as int, per_page as int);
    assert((q + 1) * per_page == q * per_page + per_page) by (nonlinear_arith);
    assert(q * per_page == per_page * q) by (nonlinear_arith);
    vstd::arithmetic::div_mod::lemma_fundamental_div_mod_converse(
        (items + per_page - 1) as int, per_page as int, q + 1, r);
    vstd::arithmetic::div_mod::lemma_div_is_ordered_by_denominator((items - 1) as int, 1, per_page as int);
}

/// The page count for `n` items holds them all and wastes less than a page:
/// `(pages - 1) * per_page < n <= pages * per_page`.
pub proof fn law_pages_fit_items(n: nat, per_page: nat)
    requires
        per_page >= 1,
        n >= 1,
    ensures
        (pages_for(n, per_page) - 1) * per_page < n,
        n <= pages_for(n, per_page) * per_page,
{
    let p = pages_for(n, per_page);
    vstd::arithmetic::div_mod::lemma_fundamental_div_mod((n + per_page - 1) as int, per_page as int);
    let q = (n + per_page - 1) / per_page as int;
    let r = (n + per_page - 1) % per_page as int;
    assert(p == q);
    assert((n + per_page - 1) == per_page * q + r);
    assert((q - 1) * per_page == q * per_page - per_page) by (nonlinear_arith);
    assert(q * per_page == per_page * q) by (nonlinear_arith);
}

/// Every operation that changes pages keeps the state well formed, and going forward
/// then back returns to the same page.
pub proof fn law_next_then_prev(page: usize, total_pages: usize)
    requires
        page < total_pages,
        page != spec_last_page(total_pages),
    ensures
        ({
            let after_next = (page + 1) as usize;
            &&& after_next < total_pages
            &&& (if after_next > 0 { (after_next - 1) as usize } else { 0 }) == page
        }),
{
}


/// The first `k` dots of a view of `total` pages with one-character dots `a` (active)
/// and `b` (inactive): dot `i` stands at position `2 i`, a space after every dot but the
/// last page's.
proof fn lemma_dots_positions(k: nat, page: nat, total: nat, a: char, b: char)
    requires
        k <= total,
    ensures
        dots(k, page, total, seq![a], seq![b]).len() == (if k == total && k > 0 { 2 * k - 1 } else { 2 * k as int }),
        forall|i: int| 0 <= i < k ==> #[trigger] dots(k, page, total, seq![a], seq![b])[2 * i] == (if i == page {
            a
        } else {
            b
        }),
        forall|i: int| 0 <= i < k && i + 1 < total ==> #[trigger] dots(k, page, total, seq![a], seq![b])[2 * i + 1]
            == ' ',
    decreases k,
{
    if k > 0 {
        let i0 = (k - 1) as nat;
        lemma_dots_positions(i0, page, total, a, b);
        let prev = dots(i0, page, total, seq![a], seq![b]);
        let cur = dots(k, page, total, seq![a], seq![b]);
        let d = if i0 == page { seq![a] } else { seq![b] };
        let sp = if i0 + 1 < total { seq![' '] } else { Seq::<char>::empty() };
        assert(cur == prev + d + sp);
        assert(prev.len() == 2 * i0);
        assert forall|i: int| 0 <= i < k implies #[trigger] cur[2 * i] == (if i == page { a } else { b }) by {
            if i < i0 {
                assert(cur[2 * i] == prev[2 * i]);
            } else {
                assert(cur[2 * i] == d[0]);
            }
        }
        assert forall|i: int| 0 <= i < k && i + 1 < total implies #[trigger] cur[2 * i + 1] == ' ' by {
            if i < i0 {
                assert(cur[2 * i + 1] == prev[2 * i + 1]);
            } else {
                assert(cur[2 * i + 1] == sp[0]);
            }
        }
    }
}

/// The dots view of `total` pages with one-character dots shows one dot per page, at
/// even positions and separated by spaces, and the dot at page `i` is the active one
/// exactly when `i` is the current page.
pub proof fn law_dots_one_active_at_page(page: nat, total: nat, a: char, b: char)
    requires
        total >= 1,
    ensures
        dots(total, page, total, seq![a], seq![b]).len() == 2 * total - 1,
        forall|i: int| 0 <= i < total ==> (#[trigger] dots(total, page, total, seq![a], seq![b])[2 * i] == a) == (i
            == page || a == b),
        forall|i: int| 0 <= i < total - 1 ==> #[trigger] dots(total, page, total, seq![a], seq![b])[2 * i + 1] == ' ',
{
    lemma_dots_positions(total, page, total, a, b);
}


/// A number's decimal digits hold no `%`.
proof fn lemma_decimal_has_no_percent(n: nat)
    ensures
        forall|i: int| 0 <= i < decimal(n).len() ==> #[trigger] decimal(n)[i] != '%',
        decimal(n).len() >= 1,
    decreases n,
{
    if n >= 10 {
        lemma_decimal_has_no_percent(n / 10);
        let d = decimal(n / 10);
        assert forall|i: int| 0 <= i < decimal(n).len() implies #[trigger] decimal(n)[i] != '%' by {
            if i < d.len() {
                assert(decimal(n)[i] == d[i]);
            }
        }
    }
}

/// `%d` first occurs at `at` in `pre + "%d" + post` when `pre` holds no `%`.
proof fn lemma_first_percent_d(pre: Seq<char>, post: Seq<char>)
    requires
        forall|i: int| 0 <= i < pre.len() ==> #[trigger] pre[i] != '%',
    ensures
        first_occurrence(pre + seq!['%', 'd'] + post, seq!['%', 'd'], pre.len() as int),
        replace_first(pre + seq!['%', 'd'] + post, seq!['%', 'd'], Seq::<char>::empty()) == pre + post,
{
    let hay = pre + seq!['%', 'd'] + post;
    let pat = seq!['%', 'd'];
    assert(hay.subrange(pre.len() as int, pre.len() as int + 2) =~= pat);
    assert forall|j: int| 0 <= j < pre.len() implies !occurs_at(hay, pat, j) by {
        if occurs_at(hay, pat, j) {
            assert(hay.subrange(j, j + 2)[0] == hay[j]);
            assert(hay[j] == pre[j]);
        }
    }
    assert(first_occurrence(hay, pat, pre.len() as int));
    lemma_first_occurrence_unique(hay, pat, pre.len() as int);
    assert(hay.subrange(0, pre.len() as int) =~= pre);
    assert(hay.subrange(pre.len() as int + 2, hay.len() as int) =~= post);
}

/// Only one index is the first occurrence.
proof fn lemma_first_occurrence_unique(hay: Seq<char>, pat: Seq<char>, i: int)
    requires
        first_occurrence(hay, pat, i),
    ensures
        forall|j: int| first_occurrence(hay, pat, j) ==> j == i,
{
}

/// Replacing the first `%d` of `pre + "%d" + post`, with no `%` in `pre`, puts `rep`
/// in its place.
proof fn lemma_replace_first_percent_d(pre: Seq<char>, post: Seq<char>, rep: Seq<char>)
    requires
        forall|i: int| 0 <= i < pre.len() ==> #[trigger] pre[i] != '%',
    ensures
        replace_first(pre + seq!['%', 'd'] + post, seq!['%', 'd'], rep) == pre + rep + post,
{
    let hay = pre + seq!['%', 'd'] + post;
    lemma_first_percent_d(pre, post);
    lemma_first_occurrence_unique(hay, seq!['%', 'd'], pre.len() as int);
    assert(hay.subrange(0, pre.len() as int) =~= pre);
    assert(hay.subrange(pre.len() as int + 2, hay.len() as int) =~= post);
}

/// With the default format `"%d/%d"` the arabic view is the page number (from 1), a
/// slash, and the page count, in decimal.
pub proof fn law_default_arabic_view(page: nat, total: nat)
    ensures
        spec_arabic(seq!['%', 'd', '/', '%', 'd'], page, total) == decimal(page + 1) + seq!['/'] + decimal(total),
{
    let fmt = seq!['%', 'd', '/', '%', 'd'];
    let post1 = seq!['/', '%', 'd'];
    assert(fmt =~= Seq::<char>::empty() + seq!['%', 'd'] + post1);
    lemma_replace_first_percent_d(Seq::<char>::empty(), post1, decimal(page + 1));
    let once = Seq::<char>::empty() + decimal(page + 1) + post1;
    lemma_decimal_has_no_percent(page + 1);
    let pre2 = decimal(page + 1) + seq!['/'];
    assert forall|i: int| 0 <= i < pre2.len() implies #[trigger] pre2[i] != '%' by {
        if i < decimal(page + 1).len() {
            assert(pre2[i] == decimal(page + 1)[i]);
        }
    }
    assert(once =~= pre2 + seq!['%', 'd'] + Seq::<char>::empty());
    lemma_replace_first_percent_d(pre2, Seq::<char>::empty(), decimal(total));
    assert(pre2 + decimal(total) + Seq::<char>::empty() =~= decimal(page + 1) + seq!['/'] + decimal(total));
}

} // verus!
