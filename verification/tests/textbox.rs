use squarepad::mark::textbox::TextBox;
use squarepad::pages::Pages;
use squarepad::platform::{FontStyle, Request};
use squarepad::position::PageSquare;
use squarepad::rect::Color;

fn text_box(max_width: u32) -> TextBox {
    let pages = Pages::new((42, 59));
    let ps = PageSquare::new(0, (2, 3), &pages).unwrap();
    TextBox::new(ps, "NotoSerif".to_string(), FontStyle::normal(), 30, Color::black(), max_width)
}

/// Measures as a font would in which every character is ten pixels wide.
fn overflows(request: &Request) -> bool {
    match request {
        Request::Measure(m) => 10 * m.text.chars().count() as u32 > m.max_width,
        _ => panic!("not a measurement"),
    }
}

/// Types `s`, measured and rendered as the platform would.
fn type_str(t: &mut TextBox, s: &str) {
    let overflow = overflows(&t.measure_request(s));
    t.push_str(s, overflow);
    match t.render_request() {
        Request::Render(r) => t.update((10 * r.text.chars().count() as u32, 31)),
        _ => panic!("nothing to render after typing"),
    }
}

fn backspace(t: &mut TextBox) {
    t.pop();
    if let Request::Render(r) = t.render_request() {
        t.update((10 * r.text.chars().count() as u32, 31));
    }
}

fn lines(t: &TextBox) -> Vec<String> {
    t.lines().clone()
}

#[test]
fn new_box_is_empty() {
    let t = text_box(100);
    assert!(t.lines().is_empty());
    assert!(t.line_sizes().is_empty());
    assert_eq!(t.max_width(), 100);
    assert_eq!(t.page_square().square, (2, 3));
    assert!(matches!(t.render_request(), Request::Nothing));
}

#[test]
fn eleventh_character_wraps() {
    let mut t = text_box(100);
    for c in "abcdefghij".chars() {
        type_str(&mut t, &c.to_string());
    }
    assert_eq!(lines(&t), vec!["abcdefghij".to_string()]);
    assert_eq!(t.line_sizes().clone(), vec![(100, 31)]);
    type_str(&mut t, "k");
    assert_eq!(t.lines().len(), 2);
    assert_eq!(t.line_sizes().len(), 2);
    assert_eq!(lines(&t), vec!["abcdefghij".to_string(), "k".to_string()]);
    assert_eq!(t.lines()[0].chars().count(), 10);
    assert_eq!(t.line_sizes().clone(), vec![(100, 31), (10, 31)]);
}

#[test]
fn popping_the_last_character_of_a_line_removes_the_line() {
    let mut t = text_box(100);
    for c in "abcdefghijklm".chars() {
        type_str(&mut t, &c.to_string());
    }
    assert_eq!(lines(&t), vec!["abcdefghij".to_string(), "klm".to_string()]);
    backspace(&mut t);
    backspace(&mut t);
    assert_eq!(lines(&t), vec!["abcdefghij".to_string(), "k".to_string()]);
    assert_eq!(t.line_sizes().len(), 2);
    backspace(&mut t);
    assert_eq!(lines(&t), vec!["abcdefghij".to_string()]);
    assert_eq!(t.lines().len(), 1);
    assert_eq!(t.line_sizes().len(), 1);
    assert_eq!(t.line_sizes().clone(), vec![(100, 31)]);
}

#[test]
fn popping_down_to_nothing() {
    let mut t = text_box(100);
    type_str(&mut t, "ab");
    backspace(&mut t);
    assert_eq!(lines(&t), vec!["a".to_string()]);
    backspace(&mut t);
    assert!(t.lines().is_empty());
    assert!(t.line_sizes().is_empty());
    backspace(&mut t);
    assert!(t.lines().is_empty());
    assert!(t.line_sizes().is_empty());
}

#[test]
fn popping_an_empty_line_removes_it() {
    let mut t = text_box(100);
    type_str(&mut t, "ab");
    t.new_line();
    assert_eq!(lines(&t), vec!["ab".to_string(), "".to_string()]);
    assert_eq!(t.line_sizes().clone(), vec![(20, 31), (0, 0)]);
    t.pop();
    assert_eq!(lines(&t), vec!["ab".to_string()]);
    assert_eq!(t.line_sizes().clone(), vec![(20, 31)]);
}

#[test]
fn pop_removes_one_character_whatever_its_width_in_bytes() {
    let mut t = text_box(1000);
    t.push_str("añé", false);
    t.pop();
    assert_eq!(lines(&t), vec!["añ".to_string()]);
    t.pop();
    assert_eq!(lines(&t), vec!["a".to_string()]);
}

#[test]
fn overflow_on_an_empty_box_leaves_an_empty_first_line() {
    let mut t = text_box(100);
    t.push_str("a fragment wider than the box", true);
    assert_eq!(lines(&t), vec!["".to_string(), "a fragment wider than the box".to_string()]);
    assert_eq!(t.line_sizes().clone(), vec![(0, 0), (0, 0)]);
}

#[test]
fn a_fragment_is_never_split() {
    let mut t = text_box(100);
    type_str(&mut t, "abcdefgh");
    type_str(&mut t, "ijkl");
    assert_eq!(lines(&t), vec!["abcdefgh".to_string(), "ijkl".to_string()]);
    // earlier lines are not filled up again
    type_str(&mut t, "m");
    assert_eq!(lines(&t), vec!["abcdefgh".to_string(), "ijklm".to_string()]);
}

#[test]
fn measurement_is_of_the_last_line_with_the_fragment() {
    let mut t = text_box(100);
    match t.measure_request("xy") {
        Request::Measure(m) => {
            assert_eq!(m.text, "xy");
            assert_eq!(m.font_name, "NotoSerif");
            assert_eq!(m.font_style, FontStyle::normal());
            assert_eq!(m.point, 30);
            assert_eq!(m.max_width, 100);
        }
        _ => panic!("not a measurement"),
    }
    t.push_str("ab", false);
    t.new_line();
    t.push_str("cd", false);
    match t.measure_request("xy") {
        Request::Measure(m) => assert_eq!(m.text, "cdxy"),
        _ => panic!("not a measurement"),
    }
}

#[test]
fn rendering_is_of_the_last_line() {
    let mut t = text_box(100);
    t.push_str("ab", false);
    t.new_line();
    t.push_str("cd", false);
    match t.render_request() {
        Request::Render(r) => {
            assert_eq!(r.id, t.id());
            assert_eq!(r.index, 1);
            assert_eq!(r.text, "cd");
            assert_eq!(r.font_name, "NotoSerif");
            assert_eq!(r.point, 30);
            assert_eq!(r.color, Color::black());
        }
        _ => panic!("not a rendering"),
    }
    t.update((7, 9));
    assert_eq!(t.line_sizes().clone(), vec![(0, 0), (7, 9)]);
}

#[test]
fn update_on_an_empty_box_does_nothing() {
    let mut t = text_box(100);
    t.update((7, 9));
    assert!(t.line_sizes().is_empty());
    assert!(t.lines().is_empty());
}

#[test]
fn two_boxes_have_different_ids() {
    assert!(text_box(1).id() != text_box(1).id());
}

#[test]
fn open_gives_an_empty_box_its_first_line() {
    let mut t = text_box(100);
    t.open();
    assert_eq!(lines(&t), vec!["".to_string()]);
    assert_eq!(t.line_sizes().clone(), vec![(0, 0)]);
    t.open();
    assert_eq!(t.lines().len(), 1);
    t.push_str("ab", false);
    t.update((20, 31));
    t.open();
    assert_eq!(lines(&t), vec!["ab".to_string()]);
    assert_eq!(t.line_sizes().clone(), vec![(20, 31)]);
}
