//! A minimal list: items with a wrapping selection and an optional filter line.
use vstd::prelude::*;
use super::types::Item;
use crate::text::{push_char, push_str};

verus! {

/// Renders the items of a simple list.
pub trait SimpleDelegate<T: Item> {
    /// The rendering of an item, selected or not.
    spec fn spec_render(&self, item: T, selected: bool) -> Seq<char>;

    /// Renders an item.
    fn render(&self, item: &T, selected: bool) -> (r: String)
        ensures
            r@ == self.spec_render(*item, selected),
    ;
}

/// A minimal list.
#[derive(Debug, Clone)]
pub struct Model<T: Item> {
    items: Vec<T>,
    selected: usize,
    filter: String,
    filtered_items: Vec<(usize, T)>,
    show_filter: bool,
}

/// The state of a minimal list.
pub struct SimpleView<T> {
    pub items: Seq<T>,
    pub selected: usize,
    pub filter: Seq<char>,
    pub filtered: Seq<(usize, T)>,
    pub show_filter: bool,
}

impl<T: Item> Model<T> {
    /// The state of the list.
    pub closed spec fn state(&self) -> SimpleView<T> {
        SimpleView {
            items: self.items@,
            selected: self.selected,
            filter: self.filter@,
            filtered: self.filtered_items@,
            show_filter: self.show_filter,
        }
    }
}

/// The view text of the shown items from the `k`-th on... up to `n`: each rendered,
/// selected when its position is the selection, followed by a newline.
pub open spec fn rendered_rows<T: Item, D: SimpleDelegate<T>>(d: D, rows: Seq<(usize, T)>, selected: usize, n: nat) -> Seq<char>
    decreases n,
{
    if n == 0 {
        Seq::empty()
    } else {
        let i = (n - 1) as nat;
        rendered_rows(d, rows, selected, i) + d.spec_render(rows[i as int].1, i == selected) + seq!['\n']
    }
}

impl<T: Item> Model<T> {
    /// A list of the given items, all shown, the first selected, no filter.
    pub fn new(items: Vec<T>) -> (m: Self)
        ensures
            m.state().items == items@,
            m.state().selected == 0,
            m.state().filter.len() == 0,
            !m.state().show_filter,
            m.state().filtered.len() == items@.len(),
            forall|i: int| 0 <= i < items@.len() ==> (#[trigger] m.state().filtered[i]).0 == i && cloned(items@[i], m.state().filtered[i].1),
    {
        let mut filtered: Vec<(usize, T)> = Vec::new();
        let mut i: usize = 0;
        while i < items.len()
            invariant
                i <= items@.len(),
                filtered@.len() == i,
                forall|k: int| 0 <= k < i ==> (#[trigger] filtered@[k]).0 == k && cloned(items@[k], filtered@[k].1),
            decreases items@.len() - i,
        {
            filtered.push((i, items[i].clone()));
            i += 1;
        }
        Model { items, selected: 0, filter: String::new(), filtered_items: filtered, show_filter: false }
    }

    /// The view: the filter line when the filter is shown, then each shown item on its
    /// own line.
    pub fn view<D: SimpleDelegate<T>>(&self, delegate: &D) -> (r: String)
        ensures
            r@ == (if self.state().show_filter { "Filter: "@ + self.state().filter + seq!['\n'] } else { Seq::empty() })
                + rendered_rows(*delegate, self.state().filtered, self.state().selected, self.state().filtered.len()),
    {
        let mut out = String::new();
        if self.show_filter {
            push_str(&mut out, "Filter: ");
            push_str(&mut out, self.filter.as_str());
            push_char(&mut out, '\n');
        }
        let ghost prefix = out@;
        let mut i: usize = 0;
        while i < self.filtered_items.len()
            invariant
                i <= self.state().filtered.len(),
                out@ == prefix + rendered_rows(*delegate, self.state().filtered, self.state().selected, i as nat),
            decreases self.state().filtered.len() - i,
        {
            let row = delegate.render(&self.filtered_items[i].1, i == self.selected);
            push_str(&mut out, row.as_str());
            push_char(&mut out, '\n');
            i += 1;
        }
        out
    }

    /// The selected shown item, if any.
    pub fn selected_item(&self) -> (r: Option<&T>)
        ensures
            r == (if self.state().selected < self.state().filtered.len() { Some(&self.state().filtered[self.state().selected as int].1) } else { None }),
    {
        if self.selected < self.filtered_items.len() {
            Some(&self.filtered_items[self.selected].1)
        } else {
            None
        }
    }

    /// Selects the next shown item, wrapping to the first.
    pub fn select_next(&mut self)
        ensures
            final(self).state() == (SimpleView {
                selected: if old(self).state().filtered.len() > 0 {
                    ((old(self).state().selected + 1) % (old(self).state().filtered.len() as int)) as usize
                } else {
                    old(self).state().selected
                },
                ..old(self).state()
            }),
    {
        let n = self.filtered_items.len();
        if n > 0 {
            self.selected = ((self.selected as u128 + 1) % (n as u128)) as usize;
        }
    }

    /// Selects the previous shown item, wrapping to the last.
    pub fn select_prev(&mut self)
        ensures
            final(self).state() == (SimpleView {
                selected: if old(self).state().filtered.len() > 0 {
                    if old(self).state().selected == 0 { (old(self).state().filtered.len() - 1) as usize } else { (old(self).state().selected - 1) as usize }
                } else {
                    old(self).state().selected
                },
                ..old(self).state()
            }),
    {
        let n = self.filtered_items.len();
        if n > 0 {
            self.selected = if self.selected == 0 { n - 1 } else { self.selected - 1 };
        }
    }
}

} // verus!
