//! A spinner: cycles through frames, one per tick. The caller delivers the ticks the
//! spinner asks for after the delays it gives.
use vstd::prelude::*;
use crate::ids::next_id;
use crate::style::{new_style, render};
use crate::time::Duration;

verus! {

/// A set of frames and the time each is shown.
#[derive(Debug, Clone)]
pub struct Spinner {
    pub frames: Vec<String>,
    pub fps: Duration,
}

/// The frames of a spinner, as character sequences.
pub open spec fn frames_view(frames: Seq<String>) -> Seq<Seq<char>> {
    frames.map_values(|f: String| f@)
}

/// A copy of a list of strings.
pub(crate) fn copy_strings(v: &Vec<String>) -> (r: Vec<String>)
    ensures
        r@ == v@,
{
    let mut out: Vec<String> = Vec::new();
    let mut i: usize = 0;
    while i < v.len()
        invariant
            i <= v@.len(),
            out@ == v@.take(i as int),
        decreases v@.len() - i,
    {
        out.push(v[i].clone());
        assert(v@.take(i as int + 1) == v@.take(i as int).push(v@[i as int]));
        i += 1;
    }
    assert(v@.take(v@.len() as int) == v@);
    out
}

/// A list of strings from string slices.
fn strings(v: &[&str]) -> (r: Vec<String>)
    ensures
        r@.len() == v@.len(),
        forall|i: int| 0 <= i < v@.len() ==> #[trigger] r@[i]@ == v@[i]@,
{
    let mut out: Vec<String> = Vec::new();
    let mut i: usize = 0;
    while i < v.len()
        invariant
            i <= v@.len(),
            out@.len() == i,
            forall|k: int| 0 <= k < i ==> #[trigger] out@[k]@ == v@[k]@,
        decreases v@.len() - i,
    {
        out.push(v[i].to_string());
        i += 1;
    }
    out
}

impl Spinner {
    /// A spinner with the given frames and frame time.
    pub fn new(frames: Vec<String>, fps: Duration) -> (s: Spinner)
        ensures
            s.frames@ == frames@,
            s.fps == fps,
    {
        Spinner { frames, fps }
    }

    /// A copy of this spinner.
    pub fn copy(&self) -> (s: Spinner)
        ensures
            s.frames@ == self.frames@,
            s.fps == self.fps,
    {
        Spinner { frames: copy_strings(&self.frames), fps: self.fps }
    }

    fn of(frames: &[&str], millis: u64) -> (s: Spinner)
        ensures
            s.frames@.len() == frames@.len(),
            forall|i: int| 0 <= i < frames@.len() ==> #[trigger] s.frames@[i]@ == frames@[i]@,
            s.fps.spec_nanos() == millis * 1_000_000,
    {
        Spinner { frames: strings(frames), fps: Duration::from_millis(millis) }
    }
}

/// The frames of `line`.
pub open spec fn line_frames() -> Seq<Seq<char>> {
    seq!["|"@, "/"@, "-"@, "\\"@]
}

/// `| / - \`, a tenth of a second each.
pub fn line() -> (s: Spinner)
    ensures
        frames_view(s.frames@) == line_frames(),
        s.fps.spec_nanos() == 100_000_000,
{
    let s = Spinner::of(&["|", "/", "-", "\\"], 100);
    assert(frames_view(s.frames@) =~= line_frames());
    s
}

/// The frames of `dot`.
pub open spec fn dot_frames() -> Seq<Seq<char>> {
    seq!["⣾ "@, "⣽ "@, "⣻ "@, "⢿ "@, "⡿ "@, "⣟ "@, "⣯ "@, "⣷ "@]
}

/// A rotating braille dot, a tenth of a second each.
pub fn dot() -> (s: Spinner)
    ensures
        frames_view(s.frames@) == dot_frames(),
        s.fps.spec_nanos() == 100_000_000,
{
    let s = Spinner::of(&["⣾ ", "⣽ ", "⣻ ", "⢿ ", "⡿ ", "⣟ ", "⣯ ", "⣷ "], 100);
    assert(frames_view(s.frames@) =~= dot_frames());
    s
}

/// The frames of `mini_dot`.
pub open spec fn mini_dot_frames() -> Seq<Seq<char>> {
    seq!["⠋"@, "⠙"@, "⠹"@, "⠸"@, "⠼"@, "⠴"@, "⠦"@, "⠧"@, "⠇"@, "⠏"@]
}

/// A small rotating braille dot, 83ms each.
pub fn mini_dot() -> (s: Spinner)
    ensures
        frames_view(s.frames@) == mini_dot_frames(),
        s.fps.spec_nanos() == 83_000_000,
{
    let s = Spinner::of(&["⠋", "⠙", "⠹", "⠸", "⠼", "⠴", "⠦", "⠧", "⠇", "⠏"], 83);
    assert(frames_view(s.frames@) =~= mini_dot_frames());
    s
}

/// The frames of `jump`.
pub open spec fn jump_frames() -> Seq<Seq<char>> {
    seq!["⢄"@, "⢂"@, "⢁"@, "⡁"@, "⡈"@, "⡐"@, "⡠"@]
}

/// A jumping braille dot, a tenth of a second each.
pub fn jump() -> (s: Spinner)
    ensures
        frames_view(s.frames@) == jump_frames(),
        s.fps.spec_nanos() == 100_000_000,
{
    let s = Spinner::of(&["⢄", "⢂", "⢁", "⡁", "⡈", "⡐", "⡠"], 100);
    assert(frames_view(s.frames@) =~= jump_frames());
    s
}

/// The frames of `pulse`.
pub open spec fn pulse_frames() -> Seq<Seq<char>> {
    seq!["█"@, "▓"@, "▒"@, "░"@]
}

/// A pulsing block, 125ms each.
pub fn pulse() -> (s: Spinner)
    ensures
        frames_view(s.frames@) == pulse_frames(),
        s.fps.spec_nanos() == 125_000_000,
{
    let s = Spinner::of(&["█", "▓", "▒", "░"], 125);
    assert(frames_view(s.frames@) =~= pulse_frames());
    s
}

/// The frames of `points`.
pub open spec fn points_frames() -> Seq<Seq<char>> {
    seq!["∙∙∙"@, "●∙∙"@, "∙●∙"@, "∙∙●"@]
}

/// A moving point among three, 143ms each.
pub fn points() -> (s: Spinner)
    ensures
        frames_view(s.frames@) == points_frames(),
        s.fps.spec_nanos() == 143_000_000,
{
    let s = Spinner::of(&["∙∙∙", "●∙∙", "∙●∙", "∙∙●"], 143);
    assert(frames_view(s.frames@) =~= points_frames());
    s
}

/// The frames of `globe`.
pub open spec fn globe_frames() -> Seq<Seq<char>> {
    seq!["🌍"@, "🌎"@, "🌏"@]
}

/// A turning globe, a quarter second each.
pub fn globe() -> (s: Spinner)
    ensures
        frames_view(s.frames@) == globe_frames(),
        s.fps.spec_nanos() == 250_000_000,
{
    let s = Spinner::of(&["🌍", "🌎", "🌏"], 250);
    assert(frames_view(s.frames@) =~= globe_frames());
    s
}

/// The frames of `moon`.
pub open spec fn moon_frames() -> Seq<Seq<char>> {
    seq!["🌑"@, "🌒"@, "🌓"@, "🌔"@, "🌕"@, "🌖"@, "🌗"@, "🌘"@]
}

/// The moon's phases, 125ms each.
pub fn moon() -> (s: Spinner)
    ensures
        frames_view(s.frames@) == moon_frames(),
        s.fps.spec_nanos() == 125_000_000,
{
    let s = Spinner::of(&["🌑", "🌒", "🌓", "🌔", "🌕", "🌖", "🌗", "🌘"], 125);
    assert(frames_view(s.frames@) =~= moon_frames());
    s
}

/// The frames of `monkey`.
pub open spec fn monkey_frames() -> Seq<Seq<char>> {
    seq!["🙈"@, "🙉"@, "🙊"@]
}

/// Three monkeys, a third of a second each.
pub fn monkey() -> (s: Spinner)
    ensures
        frames_view(s.frames@) == monkey_frames(),
        s.fps.spec_nanos() == 333_000_000,
{
    let s = Spinner::of(&["🙈", "🙉", "🙊"], 333);
    assert(frames_view(s.frames@) =~= monkey_frames());
    s
}

/// The frames of `meter`.
pub open spec fn meter_frames() -> Seq<Seq<char>> {
    seq!["▱▱▱"@, "▰▱▱"@, "▰▰▱"@, "▰▰▰"@, "▰▰▱"@, "▰▱▱"@, "▱▱▱"@]
}

/// A filling and emptying meter, 143ms each.
pub fn meter() -> (s: Spinner)
    ensures
        frames_view(s.frames@) == meter_frames(),
        s.fps.spec_nanos() == 143_000_000,
{
    let s = Spinner::of(&["▱▱▱", "▰▱▱", "▰▰▱", "▰▰▰", "▰▰▱", "▰▱▱", "▱▱▱"], 143);
    assert(frames_view(s.frames@) =~= meter_frames());
    s
}

/// The frames of `hamburger`.
pub open spec fn hamburger_frames() -> Seq<Seq<char>> {
    seq!["☱"@, "☲"@, "☴"@, "☲"@]
}

/// A trigram, a third of a second each.
pub fn hamburger() -> (s: Spinner)
    ensures
        frames_view(s.frames@) == hamburger_frames(),
        s.fps.spec_nanos() == 333_000_000,
{
    let s = Spinner::of(&["☱", "☲", "☴", "☲"], 333);
    assert(frames_view(s.frames@) =~= hamburger_frames());
    s
}

/// The frames of `ellipsis`.
pub open spec fn ellipsis_frames() -> Seq<Seq<char>> {
    seq![""@, "."@, ".."@, "..."@]
}

/// Growing dots, a third of a second each.
pub fn ellipsis() -> (s: Spinner)
    ensures
        frames_view(s.frames@) == ellipsis_frames(),
        s.fps.spec_nanos() == 333_000_000,
{
    let s = Spinner::of(&["", ".", "..", "..."], 333);
    assert(frames_view(s.frames@) =~= ellipsis_frames());
    s
}

/// A tick for a spinner.
#[derive(Debug, Clone, Copy)]
pub struct TickMsg {
    pub id: i64,
    tag: i64,
}

impl TickMsg {
    /// The tick's tag: ticks with another tag than the spinner expects are dropped.
    pub closed spec fn spec_tag(&self) -> i64 {
        self.tag
    }

    /// The spinner the tick is for (0 for any).
    pub closed spec fn spec_id(&self) -> i64 {
        self.id
    }

    /// A tick for spinner `id` (0 for any) with the given tag.
    pub fn new(id: i64, tag: i64) -> (t: TickMsg)
        ensures
            t.spec_id() == id,
            t.spec_tag() == tag,
    {
        TickMsg { id, tag }
    }
}

/// A tick to deliver after a delay.
#[derive(Debug, Clone, Copy)]
pub struct Scheduled {
    pub delay: Duration,
    pub msg: TickMsg,
}

/// A spinner's state and style.
#[derive(Debug)]
pub struct Model {
    pub spinner: Spinner,
    pub style: lipgloss::Style,
    frame: usize,
    id: i64,
    tag: i64,
}

/// An option for `new`.
pub enum SpinnerOption {
    WithSpinner(Spinner),
    WithStyle(Box<lipgloss::Style>),
}

/// An option setting the spinner.
pub fn with_spinner(spinner: Spinner) -> (o: SpinnerOption)
    ensures
        o matches SpinnerOption::WithSpinner(s) && s == spinner,
{
    SpinnerOption::WithSpinner(spinner)
}

/// An option setting the style.
pub fn with_style(style: lipgloss::Style) -> (o: SpinnerOption)
    ensures
        o matches SpinnerOption::WithStyle(s) && *s == style,
{
    SpinnerOption::WithStyle(Box::new(style))
}

impl Model {
    /// The frames and frame time.
    pub closed spec fn spec_spinner(&self) -> Spinner {
        self.spinner
    }

    /// The style the frames are shown in.
    pub closed spec fn spec_style(&self) -> lipgloss::Style {
        self.style
    }

    /// The frame shown.
    pub closed spec fn spec_frame(&self) -> usize {
        self.frame
    }

    /// The id.
    pub closed spec fn spec_id(&self) -> i64 {
        self.id
    }

    /// The tag of the tick the spinner expects next.
    pub closed spec fn spec_tag(&self) -> i64 {
        self.tag
    }

    /// A spinner (`line`) with the given id, on its first frame.
    pub fn new_with_id(id: i64) -> (m: Model)
        ensures
            frames_view(m.spec_spinner().frames@) == line_frames(),
            m.spec_frame() == 0,
            m.spec_id() == id,
            m.spec_tag() == 0,
    {
        Model { spinner: line(), style: new_style(), frame: 0, id, tag: 0 }
    }

    /// A spinner (`line`) with a fresh id, on its first frame.
    pub fn new() -> (m: Model)
        ensures
            frames_view(m.spec_spinner().frames@) == line_frames(),
            m.spec_frame() == 0,
            m.spec_id() >= 1,
            m.spec_tag() == 0,
    {
        Model::new_with_id((next_id() % (i64::MAX as u64)) as i64 + 1)
    }

    /// A spinner with a fresh id and the options applied in order.
    pub fn new_with_options(opts: &[SpinnerOption]) -> (m: Model)
        ensures
            m.spec_frame() == 0,
            m.spec_id() >= 1,
            m.spec_tag() == 0,
            frames_view(m.spec_spinner().frames@) == last_spinner_frames(opts@, line_frames()),
    {
        let mut m = Model::new();
        let mut i: usize = 0;
        while i < opts.len()
            invariant
                i <= opts@.len(),
                m.spec_frame() == 0,
                m.spec_id() >= 1,
                m.spec_tag() == 0,
                frames_view(m.spinner.frames@) == last_spinner_frames(opts@.take(i as int), line_frames()),
            decreases opts@.len() - i,
        {
            assert(opts@.take(i as int + 1).drop_last() == opts@.take(i as int));
            match &opts[i] {
                SpinnerOption::WithSpinner(s) => {
                    m.spinner = s.copy();
                },
                SpinnerOption::WithStyle(st) => {
                    m.style = (&**st).clone();
                },
            }
            i += 1;
        }
        assert(opts@.take(opts@.len() as int) == opts@);
        m
    }

    /// This model with the given spinner.
    pub fn with_spinner(self, spinner: Spinner) -> (m: Model)
        ensures
            m.spec_spinner() == spinner,
            m.spec_frame() == self.spec_frame(),
            m.spec_id() == self.spec_id(),
            m.spec_tag() == self.spec_tag(),
    {
        let mut m = self;
        m.spinner = spinner;
        m
    }

    /// This model with the given style.
    pub fn with_style(self, style: lipgloss::Style) -> (m: Model)
        ensures
            m.spec_style() == style,
            m.spec_spinner() == self.spec_spinner(),
            m.spec_frame() == self.spec_frame(),
            m.spec_id() == self.spec_id(),
            m.spec_tag() == self.spec_tag(),
    {
        let mut m = self;
        m.style = style;
        m
    }

    /// The id.
    pub fn id(&self) -> (i: i64)
        ensures
            i == self.spec_id(),
    {
        self.id
    }

    /// A tick for this spinner with its current tag.
    pub fn tick_msg(&self) -> (t: TickMsg)
        ensures
            t.spec_id() == self.spec_id(),
            t.spec_tag() == self.spec_tag(),
    {
        TickMsg { id: self.id, tag: self.tag }
    }

    /// Handles a tick. Ticks for another spinner (id other than 0 and this one's) or with
    /// an unexpected tag (other than 0 and the current one) are dropped. Otherwise the
    /// spinner moves to the next frame (back to the first after the last), advances its
    /// tag and asks for the next tick after its frame time.
    pub fn update(&mut self, msg: &TickMsg) -> (r: Option<Scheduled>)
        ensures
            (msg.spec_id() > 0 && msg.spec_id() != old(self).spec_id()) || (msg.spec_tag() > 0 && msg.spec_tag()
                != old(self).spec_tag()) ==> r is None && *final(self) == *old(self),
            !((msg.spec_id() > 0 && msg.spec_id() != old(self).spec_id()) || (msg.spec_tag() > 0 && msg.spec_tag()
                != old(self).spec_tag())) ==> {
                &&& final(self).spec_frame() == next_frame(
                    old(self).spec_frame() as nat,
                    old(self).spec_spinner().frames@.len(),
                )
                &&& final(self).spec_tag() == old(self).spec_tag().wrapping_add(1)
                &&& final(self).spec_id() == old(self).spec_id()
                &&& final(self).spec_spinner() == old(self).spec_spinner()
                &&& r matches Some(s) && s.delay == old(self).spec_spinner().fps && s.msg.spec_id() == old(self).spec_id()
                    && s.msg.spec_tag() == final(self).spec_tag()
            },
    {
        if msg.id > 0 && msg.id != self.id {
            return None;
        }
        if msg.tag > 0 && msg.tag != self.tag {
            return None;
        }
        let len = self.spinner.frames.len();
        if self.frame >= len.saturating_sub(1) {
            self.frame = 0;
        } else {
            self.frame = self.frame + 1;
        }
        self.tag = self.tag.wrapping_add(1);
        Some(Scheduled { delay: self.spinner.fps, msg: TickMsg { id: self.id, tag: self.tag } })
    }

    /// The text of the current frame, or `None` when the frame is out of range.
    pub fn frame_text(&self) -> (r: Option<String>)
        ensures
            match r {
                Some(t) => self.spec_frame() < self.spec_spinner().frames@.len()
                    && t@ == self.spec_spinner().frames@[self.spec_frame() as int]@,
                None => self.spec_frame() >= self.spec_spinner().frames@.len(),
            },
    {
        if self.frame >= self.spinner.frames.len() {
            None
        } else {
            Some(self.spinner.frames[self.frame].clone())
        }
    }

    /// The current frame (`frame_text`) rendered in the spinner's style, or `"(error)"`
    /// when the frame is out of range.
    pub fn view(&self) -> (r: String)
        ensures
            self.spec_frame() >= self.spec_spinner().frames@.len() ==> r@ == "(error)"@,
    {
        match self.frame_text() {
            Some(t) => render(&self.style, t.as_str()),
            None => "(error)".to_string(),
        }
    }
}

/// The frame after `f` in a spinner of `len` frames: the next one, back to the first
/// after the last.
pub open spec fn next_frame(f: nat, len: nat) -> nat {
    if f + 1 >= len {
        0
    } else {
        f + 1
    }
}

/// The frame reached from `f` after `n` accepted ticks.
pub open spec fn frame_after(f: nat, len: nat, n: nat) -> nat
    decreases n,
{
    if n == 0 {
        f
    } else {
        next_frame(frame_after(f, len, (n - 1) as nat), len)
    }
}

/// Starting at the first frame, the `k`-th tick shows frame `k` while `k` is within the
/// spinner, and after as many ticks as there are frames the spinner is back at the first.
pub proof fn law_frames_cycle(len: nat, k: nat)
    requires
        len >= 1,
        k <= len,
    ensures
        k < len ==> frame_after(0, len, k) == k,
        k == len ==> frame_after(0, len, k) == 0,
    decreases k,
{
    if k > 0 {
        law_frames_cycle(len, (k - 1) as nat);
    }
}

/// A spinner with a fresh id and the options applied in order.
pub fn new(opts: &[SpinnerOption]) -> (m: Model)
    ensures
        m.spec_frame() == 0,
        m.spec_id() >= 1,
        m.spec_tag() == 0,
        frames_view(m.spec_spinner().frames@) == last_spinner_frames(opts@, line_frames()),
{
    Model::new_with_options(opts)
}

/// The same as `new`, under its older name.
pub fn new_model(opts: &[SpinnerOption]) -> (m: Model)
    ensures
        m.spec_frame() == 0,
        m.spec_id() >= 1,
        m.spec_tag() == 0,
        frames_view(m.spec_spinner().frames@) == last_spinner_frames(opts@, line_frames()),
{
    new(opts)
}

/// A tick for any spinner.
pub fn tick() -> (t: TickMsg)
    ensures
        t.spec_id() == 0,
        t.spec_tag() == 0,
{
    TickMsg { id: 0, tag: 0 }
}

/// The frames after applying `opts` to a spinner with frames `init`: the last
/// `WithSpinner` option wins.
pub open spec fn last_spinner_frames(opts: Seq<SpinnerOption>, init: Seq<Seq<char>>) -> Seq<Seq<char>>
    decreases opts.len(),
{
    if opts.len() == 0 {
        init
    } else {
        match opts.last() {
            SpinnerOption::WithSpinner(s) => frames_view(s.frames@),
            _ => last_spinner_frames(opts.drop_last(), init),
        }
    }
}

} // verus!
