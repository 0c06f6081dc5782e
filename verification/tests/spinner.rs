use bubbletea_widgets::spinner;
use bubbletea_widgets::spinner::{Model, TickMsg};

fn frames(v: &[&str]) -> Vec<String> {
    v.iter().map(|s| s.to_string()).collect()
}

#[test]
fn test_spinner_constants() {
    assert_eq!(spinner::line().frames.len(), 4);
    assert_eq!(spinner::dot().frames.len(), 8);
    assert_eq!(spinner::mini_dot().frames.len(), 10);
    assert_eq!(spinner::jump().frames.len(), 7);
    assert_eq!(spinner::pulse().frames.len(), 4);
    assert_eq!(spinner::points().frames.len(), 4);
    assert_eq!(spinner::globe().frames.len(), 3);
    assert_eq!(spinner::moon().frames.len(), 8);
    assert_eq!(spinner::monkey().frames.len(), 3);
    assert_eq!(spinner::meter().frames.len(), 7);
    assert_eq!(spinner::hamburger().frames.len(), 4);
    assert_eq!(spinner::ellipsis().frames.len(), 4);
}

#[test]
fn test_spinner_frames_match_go() {
    assert_eq!(spinner::line().frames, frames(&["|", "/", "-", "\\"]));
    assert_eq!(spinner::dot().frames, frames(&["⣾ ", "⣽ ", "⣻ ", "⢿ ", "⡿ ", "⣟ ", "⣯ ", "⣷ "]));
    assert_eq!(spinner::mini_dot().frames, frames(&["⠋", "⠙", "⠹", "⠸", "⠼", "⠴", "⠦", "⠧", "⠇", "⠏"]));
    assert_eq!(spinner::jump().frames, frames(&["⢄", "⢂", "⢁", "⡁", "⡈", "⡐", "⡠"]));
    assert_eq!(spinner::pulse().frames, frames(&["█", "▓", "▒", "░"]));
    assert_eq!(spinner::points().frames, frames(&["∙∙∙", "●∙∙", "∙●∙", "∙∙●"]));
    assert_eq!(spinner::globe().frames, frames(&["🌍", "🌎", "🌏"]));
    assert_eq!(spinner::moon().frames, frames(&["🌑", "🌒", "🌓", "🌔", "🌕", "🌖", "🌗", "🌘"]));
    assert_eq!(spinner::monkey().frames, frames(&["🙈", "🙉", "🙊"]));
    assert_eq!(spinner::meter().frames, frames(&["▱▱▱", "▰▱▱", "▰▰▱", "▰▰▰", "▰▰▱", "▰▱▱", "▱▱▱"]));
    assert_eq!(spinner::hamburger().frames, frames(&["☱", "☲", "☴", "☲"]));
    assert_eq!(spinner::ellipsis().frames, frames(&["", ".", "..", "..."]));
}

#[test]
fn spinner_test_new_with_no_options() {
    let spinner = spinner::new(&[]);
    assert!(spinner.id() > 0);
    assert_eq!(spinner.spinner.frames, spinner::line().frames);
}

#[test]
fn test_new_with_spinner_option() {
    let spinner = spinner::new(&[spinner::with_spinner(spinner::dot())]);
    assert_eq!(spinner.spinner.frames, spinner::dot().frames);
}

#[test]
fn test_new_with_style_option() {
    let style = lipgloss::Style::new().foreground(lipgloss::Color::from("red"));
    let _spinner = spinner::new(&[spinner::with_style(style.clone())]);
}

#[test]
fn spinner_test_new_with_multiple_options() {
    let style = lipgloss::Style::new().foreground(lipgloss::Color::from("blue"));
    let spinner = spinner::new(&[spinner::with_spinner(spinner::jump()), spinner::with_style(style.clone())]);
    assert_eq!(spinner.spinner.frames, spinner::jump().frames);
}

#[test]
fn test_model_id() {
    let spinner1 = spinner::new(&[]);
    let spinner2 = spinner::new(&[]);
    assert_ne!(spinner1.id(), spinner2.id());
    assert!(spinner1.id() > 0);
    assert!(spinner2.id() > 0);
}

#[test]
fn test_model_tick_msg() {
    let spinner = spinner::new(&[]);
    let tick_msg = spinner.tick_msg();
    assert_eq!(tick_msg.id, spinner.id());
}

#[test]
fn test_global_tick_deprecated() {
    let tick_msg = spinner::tick();
    assert_eq!(tick_msg.id, 0);
}

#[test]
fn spinner_test_update_with_wrong_id() {
    let mut spinner = spinner::new(&[]);
    let wrong_tick = TickMsg::new(spinner.id() + 999, 0);
    let result = spinner.update(&wrong_tick);
    assert!(result.is_none());
}

#[test]
fn test_update_with_correct_id() {
    let mut spinner = spinner::new(&[]);
    let correct_tick = TickMsg::new(spinner.id(), 0);
    let result = spinner.update(&correct_tick);
    assert!(result.is_some());
}

#[test]
fn test_view_renders_correctly() {
    let mut spinner = spinner::new(&[spinner::with_spinner(spinner::line())]);
    let view = spinner.view();
    assert_eq!(view, "|");
    let tick_msg = spinner.tick_msg();
    spinner.update(&tick_msg);
    let view = spinner.view();
    assert_eq!(view, "/");
}

#[test]
fn test_frame_wrapping() {
    let mut spinner = spinner::new(&[spinner::with_spinner(spinner::line())]);
    for expected_frame in &["|", "/", "-", "\\", "|"] {
        let view = spinner.view();
        assert_eq!(view, *expected_frame);
        if expected_frame != &"|" || view == "|" {
            let tick_msg = spinner.tick_msg();
            spinner.update(&tick_msg);
        }
    }
}

#[test]
fn test_deprecated_functions() {
    let spinner_line = spinner::line();
    assert_eq!(spinner_line.frames, spinner::line().frames);
    let spinner_dot = spinner::dot();
    assert_eq!(spinner_dot.frames, spinner::dot().frames);
    let model = spinner::new(&[]);
    assert!(model.id() > 0);
}

#[test]
fn test_builder_methods_still_work() {
    let spinner = Model::new().with_spinner(spinner::pulse()).with_style(lipgloss::Style::new());
    assert_eq!(spinner.spinner.frames, spinner::pulse().frames);
}

#[test]
fn spinner_stale_tag_is_dropped() {
    let mut spinner = spinner::new(&[spinner::with_spinner(spinner::line())]);
    let first = spinner.tick_msg();
    let t = spinner.update(&first).unwrap().msg;
    assert!(spinner.update(&t).is_some());
    // That tick's tag is now stale; a tick without a tag is always taken.
    assert!(spinner.update(&t).is_none());
    assert_eq!(spinner.view(), "-");
}

#[test]
fn spinner_next_tick_carries_fps_delay() {
    let mut spinner = spinner::new(&[spinner::with_spinner(spinner::dot())]);
    let t = spinner.tick_msg();
    let next = spinner.update(&t).unwrap();
    assert_eq!(next.delay, spinner::dot().fps);
    assert_eq!(next.msg.id, spinner.id());
}

#[test]
fn spinner_frame_text_follows_the_frames() {
    let mut s = spinner::new(&[spinner::with_spinner(spinner::line())]);
    for expected in &["|", "/", "-", "\\", "|"] {
        assert_eq!(s.frame_text().as_deref(), Some(*expected));
        let t = s.tick_msg();
        s.update(&t);
    }
}
