use shunt::color::ConsoleColor;
use shunt::console::{render_line, ProcessInfo};

#[test]
fn console_prefix_and_body_spans() {
    let info = ProcessInfo { name: String::from("build"), color: Some(ConsoleColor::Green) };
    let spans = render_line(&info, "hi");
    assert_eq!(spans.len(), 2);
    assert_eq!(spans[0].color, Some(ConsoleColor::Green));
    assert_eq!(spans[0].text.as_str(), "[build] ");
    assert_eq!(spans[1].color, None);
    assert_eq!(spans[1].text.as_str(), "hi\n");
}

#[test]
fn console_color_stable_across_lines() {
    let info = ProcessInfo { name: String::from("serve"), color: Some(ConsoleColor::Magenta) };
    let first = render_line(&info, "starting");
    let second = render_line(&info, "listening");
    assert_eq!(first[0].color, second[0].color);
    assert_eq!(first[0].text, second[0].text);
    assert_eq!(first[0].color, Some(ConsoleColor::Magenta));
}

#[test]
fn console_no_color_when_info_plain() {
    let info = ProcessInfo { name: String::from("job"), color: None };
    let spans = render_line(&info, "plain output");
    assert!(spans.iter().all(|s| s.color.is_none()));
    assert_eq!(spans[0].text.as_str(), "[job] ");
    assert_eq!(spans[1].text.as_str(), "plain output\n");
}
