//! A text cursor that blinks while focused in blink mode. The caller delivers the
//! messages the cursor asks for after the delays it gives.
use vstd::prelude::*;
use crate::ids::next_id;
use crate::style::{inline_style, new_style, render, reverse_style, style_inline, style_reverse};
use crate::time::Duration;

verus! {

/// The first blink of a cursor.
#[derive(Debug, Clone, Copy)]
pub struct InitialBlinkMsg;

/// A blink of cursor `id`, valid when `tag` is the cursor's current blink tag.
#[derive(Debug, Clone, Copy)]
pub struct BlinkMsg {
    pub id: usize,
    pub tag: usize,
}

/// A message for a cursor.
#[derive(Debug, Clone, Copy)]
pub enum CursorMsg {
    InitialBlink(InitialBlinkMsg),
    Blink(BlinkMsg),
}

/// A message the cursor asks to be delivered after a delay.
#[derive(Debug, Clone, Copy)]
pub struct Scheduled {
    pub delay: Duration,
    pub msg: CursorMsg,
}

/// How the cursor behaves.
#[derive(Debug, Clone, Copy, PartialEq, Eq, Structural)]
pub enum Mode {
    Blink,
    Static,
    Hide,
}

impl Mode {
    /// `"blink"`, `"static"` or `"hidden"`.
    pub fn to_string(&self) -> (s: String)
        ensures
            s@ == match *self {
                Mode::Blink => "blink"@,
                Mode::Static => "static"@,
                Mode::Hide => "hidden"@,
            },
    {
        match self {
            Mode::Blink => "blink".to_string(),
            Mode::Static => "static".to_string(),
            Mode::Hide => "hidden".to_string(),
        }
    }
}

/// A cursor.
#[derive(Debug)]
pub struct Model {
    pub blink_speed: Duration,
    pub style: lipgloss::Style,
    pub text_style: lipgloss::Style,
    char: String,
    id: usize,
    focus: bool,
    blink: bool,
    blink_tag: usize,
    mode: Mode,
}

/// The state of a cursor. `blink` true means the cursor block is not drawn.
pub struct CursorView {
    pub blink_speed: Duration,
    pub char: Seq<char>,
    pub id: usize,
    pub focus: bool,
    pub blink: bool,
    pub blink_tag: usize,
    pub mode: Mode,
    /// The style of the cursor block.
    pub style: lipgloss::Style,
    /// The style of the character when the block is not drawn.
    pub text_style: lipgloss::Style,
}

impl Model {
    /// The state of the cursor.
    pub closed spec fn state(&self) -> CursorView {
        CursorView {
            blink_speed: self.blink_speed,
            char: self.char@,
            id: self.id,
            focus: self.focus,
            blink: self.blink,
            blink_tag: self.blink_tag,
            mode: self.mode,
            style: self.style,
            text_style: self.text_style,
        }
    }
}

/// The blink the cursor schedules: after its blink speed, for its id and tag.
pub open spec fn is_blink_for(s: Scheduled, v: CursorView) -> bool {
    &&& s.delay == v.blink_speed
    &&& s.msg matches CursorMsg::Blink(b) && b.id == v.id && b.tag == v.blink_tag
}

/// The initial blink, right away.
pub open spec fn is_initial_blink(s: Scheduled) -> bool {
    &&& s.delay.spec_nanos() == 0
    &&& s.msg is InitialBlink
}

/// The cursor after `blink_cmd`: in blink mode the tag advances and a blink is asked
/// for; otherwise nothing.
pub open spec fn blink_step(v: CursorView, new: CursorView, r: Option<Scheduled>) -> bool {
    if v.mode != Mode::Blink {
        new == v && r is None
    } else {
        &&& new == (CursorView { blink_tag: v.blink_tag.wrapping_add(1), ..v })
        &&& r matches Some(s) && is_blink_for(s, new)
    }
}

/// Asks for the first blink right away.
pub fn blink() -> (s: Scheduled)
    ensures
        is_initial_blink(s),
{
    Scheduled { delay: Duration::from_millis(0), msg: CursorMsg::InitialBlink(InitialBlinkMsg) }
}

/// A cursor with a fresh id (see `Model::new`).
pub fn new() -> (m: Model)
    ensures
        m.state().blink_speed.spec_nanos() == 530_000_000,
        m.state().char == seq![' '],
        !m.state().focus,
        m.state().blink,
        m.state().blink_tag == 0,
        m.state().mode == Mode::Blink,
{
    Model::new()
}

impl Model {
    /// An unfocused blinking cursor over a space, with the given id, blinking every
    /// 530ms.
    pub fn new_with_id(id: usize) -> (m: Model)
        ensures
            m.state() == (CursorView {
                blink_speed: m.state().blink_speed,
                char: seq![' '],
                id,
                focus: false,
                blink: true,
                blink_tag: 0,
                mode: Mode::Blink,
                style: m.state().style,
                text_style: m.state().text_style,
            }),
            m.state().blink_speed.spec_nanos() == 530_000_000,
    {
        let c = chars_space();
        Model {
            blink_speed: Duration::from_millis(530),
            style: new_style(),
            text_style: new_style(),
            char: c,
            id,
            focus: false,
            blink: true,
            blink_tag: 0,
            mode: Mode::Blink,
        }
    }

    /// An unfocused blinking cursor with a fresh id (see `new_with_id`).
    pub fn new() -> (m: Model)
        ensures
            m.state().blink_speed.spec_nanos() == 530_000_000,
            m.state().char == seq![' '],
            !m.state().focus,
            m.state().blink,
            m.state().blink_tag == 0,
            m.state().mode == Mode::Blink,
    {
        Model::new_with_id(next_id() as usize)
    }

    /// Shows (`true`) or hides the cursor block.
    pub fn set_visible(&mut self, visible: bool)
        ensures
            final(self).state() == (CursorView { blink: !visible, ..old(self).state() }),
    {
        self.blink = !visible;
    }

    /// Handles a message. While focused in blink mode, the initial blink starts the
    /// blinking, and a blink with this cursor's id and current tag flips the block and
    /// asks for the next blink; anything else is ignored.
    pub fn update(&mut self, msg: &CursorMsg) -> (r: Option<Scheduled>)
        ensures
            old(self).state().mode != Mode::Blink || !old(self).state().focus ==> r is None && final(self).state()
                == old(self).state(),
            old(self).state().mode == Mode::Blink && old(self).state().focus ==> match *msg {
                CursorMsg::InitialBlink(_) => blink_step(old(self).state(), final(self).state(), r),
                CursorMsg::Blink(b) => if b.id != old(self).state().id || b.tag != old(self).state().blink_tag {
                    r is None && final(self).state() == old(self).state()
                } else {
                    blink_step(CursorView { blink: !old(self).state().blink, ..old(self).state() }, final(self).state(), r)
                },
            },
    {
        if self.mode != Mode::Blink || !self.focus {
            return None;
        }
        match msg {
            CursorMsg::InitialBlink(_) => self.blink_cmd(),
            CursorMsg::Blink(b) => {
                if b.id != self.id || b.tag != self.blink_tag {
                    return None;
                }
                self.blink = !self.blink;
                self.blink_cmd()
            },
        }
    }

    /// The mode.
    pub fn mode(&self) -> (m: Mode)
        ensures
            m == self.state().mode,
    {
        self.mode
    }

    /// Sets the mode; the block is hidden when the mode is `Hide` or the cursor is not
    /// focused. In blink mode asks for the initial blink.
    pub fn set_mode(&mut self, mode: Mode) -> (r: Option<Scheduled>)
        ensures
            final(self).state() == (CursorView {
                mode,
                blink: mode == Mode::Hide || !old(self).state().focus,
                ..old(self).state()
            }),
            mode == Mode::Blink ==> (r matches Some(s) && is_initial_blink(s)),
            mode != Mode::Blink ==> r is None,
    {
        self.mode = mode;
        self.blink = self.mode == Mode::Hide || !self.focus;
        if mode == Mode::Blink {
            return Some(blink());
        }
        None
    }

    /// Asks for the next blink after the blink speed, under a new tag so that blinks
    /// asked for earlier are dropped; nothing outside blink mode.
    pub fn blink_cmd(&mut self) -> (r: Option<Scheduled>)
        ensures
            blink_step(old(self).state(), final(self).state(), r),
    {
        if self.mode != Mode::Blink {
            return None;
        }
        self.blink_tag = self.blink_tag.wrapping_add(1);
        Some(Scheduled { delay: self.blink_speed, msg: CursorMsg::Blink(BlinkMsg { id: self.id, tag: self.blink_tag }) })
    }

    /// Focuses the cursor: the block shows unless the mode is `Hide`; in blink mode the
    /// blinking starts.
    pub fn focus(&mut self) -> (r: Option<Scheduled>)
        ensures
            blink_step(
                CursorView { focus: true, blink: old(self).state().mode == Mode::Hide, ..old(self).state() },
                final(self).state(),
                r,
            ),
    {
        self.focus = true;
        self.blink = self.mode == Mode::Hide;
        if self.mode == Mode::Blink && self.focus {
            return self.blink_cmd();
        }
        None
    }

    /// Unfocuses the cursor and hides the block.
    pub fn blur(&mut self)
        ensures
            final(self).state() == (CursorView { focus: false, blink: true, ..old(self).state() }),
    {
        self.focus = false;
        self.blink = true;
    }

    /// Whether focused.
    pub fn focused(&self) -> (b: bool)
        ensures
            b == self.state().focus,
    {
        self.focus
    }

    /// Sets the character under the cursor.
    pub fn set_char(&mut self, s: &str)
        ensures
            final(self).state() == (CursorView { char: s@, ..old(self).state() }),
    {
        self.char = s.to_string();
    }

    /// Whether the view draws the cursor block (reverse video) rather than plain text.
    pub fn shows_block(&self) -> (b: bool)
        ensures
            b == !(self.state().mode == Mode::Hide || self.state().blink),
    {
        !(self.mode == Mode::Hide || self.blink)
    }

    /// What the view hands to the renderer: whether the character is drawn as the block
    /// or as plain text, the character, and the style: the text style made inline for
    /// text, the cursor style made inline and reversed for the block. The block is drawn
    /// unless the cursor is hidden or in the off phase of a blink.
    pub fn view_parts(&self) -> (r: (CursorLook, String, lipgloss::Style))
        ensures
            r.0 == (if self.state().mode == Mode::Hide || self.state().blink {
                CursorLook::Text
            } else {
                CursorLook::Block
            }),
            r.1@ == self.state().char,
            r.2 == (if r.0 == CursorLook::Text {
                style_inline(self.state().text_style)
            } else {
                style_reverse(style_inline(self.state().style))
            }),
    {
        if self.mode == Mode::Hide || self.blink {
            (CursorLook::Text, String::from_str(self.char.as_str()), inline_style(&self.text_style))
        } else {
            (CursorLook::Block, String::from_str(self.char.as_str()), reverse_style(&inline_style(&self.style)))
        }
    }

    /// The character of `view_parts` rendered in the style of `view_parts`.
    pub fn view(&self) -> String {
        let (_look, ch, style) = self.view_parts();
        render(&style, ch.as_str())
    }
}

/// How the cursor's character is drawn.
#[derive(Debug, Clone, Copy, PartialEq, Eq, Structural)]
pub enum CursorLook {
    /// In the text style.
    Text,
    /// As the block: in the cursor style, reversed.
    Block,
}

fn chars_space() -> (s: String)
    ensures
        s@ == seq![' '],
{
    crate::text::chars_to_string(&[' '])
}


/// A blink of a focused blinking cursor that carries its id and current tag flips the
/// block, and the blink it asks for carries the new tag, so that it is the one the
/// cursor takes next and the one before it is stale.
pub proof fn law_blink_flips_and_chains(v: CursorView, new: CursorView, r: Option<Scheduled>)
    requires
        v.mode == Mode::Blink,
        blink_step(CursorView { blink: !v.blink, ..v }, new, r),
    ensures
        new.blink == !v.blink,
        new.id == v.id,
        new.blink_tag != v.blink_tag,
        r matches Some(s) && is_blink_for(s, new),
        new.blink_speed == v.blink_speed,
{
    let t = v.blink_tag;
    assert(t.wrapping_add(1) != t) by {
        if t == usize::MAX {
        }
    }
}

} // verus!
