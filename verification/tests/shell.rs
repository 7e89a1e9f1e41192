use sudoku_wfc::sudoku::{build_grid, Canvas, CanvasEvent, CanvasState, Cell};
use sudoku_wfc::ui::{Color, Rectangle, TextStyle, UIButton, UIElement, UIText, DEFAULT_TEXT_SIZE};

#[test]
fn fresh_cell_holds_candidates_one_through_eight() {
    let c = Cell::new(4, 7);
    assert_eq!(c.row, 4);
    assert_eq!(c.col, 7);
    assert_eq!(c.values, vec![1, 2, 3, 4, 5, 6, 7, 8]);
}

#[test]
fn every_grid_cell_has_the_same_candidate_list() {
    let g = build_grid(9, 9);
    assert_eq!(g.len(), 9);
    for (i, row) in g.iter().enumerate() {
        assert_eq!(row.len(), 9);
        for (j, cell) in row.iter().enumerate() {
            assert_eq!(cell.row, i);
            assert_eq!(cell.col, j);
            assert_eq!(cell.values, vec![1, 2, 3, 4, 5, 6, 7, 8]);
        }
    }
}

#[test]
fn calc_position_maps_grid_to_pixels() {
    let c = Cell::new(2, 3);
    assert_eq!(c.calc_position(20, 0), (60, 40));
    let origin = Cell::new(0, 0);
    assert_eq!(origin.calc_position(20, 0), (0, 0));
}

#[test]
fn calc_position_counts_spacing_once_per_step() {
    let c = Cell::new(1, 2);
    assert_eq!(c.calc_position(20, 5), (50, 25));
}

#[test]
fn set_position_moves_the_background_too() {
    let fill = Color { r: 1, g: 2, b: 3, a: 4 };
    let mut e = UIElement {
        position: (1, 2),
        size: None,
        background: Some(Rectangle { fill_color: fill, position: (0, 0) }),
    };
    e.set_position(30, 40);
    assert_eq!(e.get_position(), (30, 40));
    let bg = e.background.expect("background kept");
    assert_eq!(bg.position, (30, 40));
    assert_eq!(bg.fill_color, fill);
}

#[test]
fn set_position_without_background_only_moves_the_element() {
    let mut e = UIElement { position: (7, 8), size: Some((10, 10)), background: None };
    e.set_position(-3, 5);
    assert_eq!(e.get_position(), (-3, 5));
    assert_eq!(e.size, Some((10, 10)));
    assert!(e.background.is_none());
}

#[test]
fn close_request_closes_an_open_canvas() {
    assert_eq!(
        CanvasState::Open.step(&CanvasEvent::CloseRequested),
        CanvasState::Closed
    );
    assert_eq!(CanvasState::Open.step(&CanvasEvent::Other), CanvasState::Open);
}

#[test]
fn closed_is_terminal_whatever_comes_next() {
    assert_eq!(
        CanvasState::Closed.step(&CanvasEvent::CloseRequested),
        CanvasState::Closed
    );
    assert_eq!(CanvasState::Closed.step(&CanvasEvent::Other), CanvasState::Closed);
}

#[test]
fn canvas_close_transition_fires_once_and_sticks() {
    let mut c = Canvas::new(400, 400, "Wavefunction Collapse");
    assert!(c.is_open());
    c.handle_event(&CanvasEvent::Other);
    assert!(c.is_open());
    c.handle_event(&CanvasEvent::CloseRequested);
    assert!(!c.is_open());
    c.handle_event(&CanvasEvent::CloseRequested);
    assert!(!c.is_open());
    c.handle_event(&CanvasEvent::Other);
    assert!(!c.is_open());
}

#[test]
fn fresh_canvas_keeps_its_configuration() {
    let c = Canvas::new(400, 300, "Wavefunction Collapse");
    assert_eq!(c.width, 400);
    assert_eq!(c.height, 300);
    assert_eq!(c.title, "Wavefunction Collapse");
    assert!(c.framerate_limit.is_none());
    assert_eq!(c.state, CanvasState::Open);
    assert_eq!(c.text.text, "hello world!");
}

#[test]
fn setup_caps_the_frame_rate_at_sixty() {
    let mut c = Canvas::new(400, 400, "Wavefunction Collapse");
    c.setup();
    assert_eq!(c.framerate_limit, Some(60));
    assert_eq!(c.state, CanvasState::Open);
}

#[test]
fn fresh_text_has_the_documented_defaults() {
    let t = UIText::new("hello world!");
    assert_eq!(t.text, "hello world!");
    assert_eq!(t.char_size, DEFAULT_TEXT_SIZE);
    assert_eq!(t.color, Color { r: 255, g: 0, b: 0, a: 255 });
    assert_eq!(t.style, TextStyle::Regular);
    assert_eq!(t.ui_element.position, (0, 0));
    assert!(t.ui_element.size.is_none());
    let bg = t.ui_element.background.expect("fresh label has a background");
    assert_eq!(bg.fill_color, Color { r: 255, g: 0, b: 255, a: 255 });
    assert_eq!(bg.position, (0, 0));
}

#[test]
fn set_color_changes_only_the_fill_color() {
    let mut t = UIText::new("abc");
    let before = t.ui_element.position;
    t.set_color(Color { r: 0, g: 128, b: 0, a: 255 });
    assert_eq!(t.color, Color { r: 0, g: 128, b: 0, a: 255 });
    assert_eq!(t.text, "abc");
    assert_eq!(t.style, TextStyle::Regular);
    assert_eq!(t.ui_element.position, before);
}

#[test]
fn set_bold_toggles_between_bold_and_regular() {
    let mut t = UIText::new("abc");
    t.set_bold(true);
    assert_eq!(t.style, TextStyle::Bold);
    t.set_bold(false);
    assert_eq!(t.style, TextStyle::Regular);
    assert_eq!(t.color, Color { r: 255, g: 0, b: 0, a: 255 });
}

#[test]
fn fresh_button_composes_element_and_label() {
    let b = UIButton::new("ok", (10, 20), (100, 30));
    assert_eq!(b.ui_element.position, (10, 20));
    assert_eq!(b.ui_element.size, Some((100, 30)));
    let bg = b.ui_element.background.expect("button has a background");
    assert_eq!(bg.fill_color, Color { r: 255, g: 255, b: 0, a: 255 });
    assert_eq!(bg.position, (0, 0));
    assert_eq!(b.label.text, "ok");
    assert_eq!(b.label.color, Color { r: 255, g: 0, b: 0, a: 255 });
}

#[test]
fn named_colors_have_their_channel_values() {
    assert_eq!(Color::red(), Color { r: 255, g: 0, b: 0, a: 255 });
    assert_eq!(Color::magenta(), Color { r: 255, g: 0, b: 255, a: 255 });
    assert_eq!(Color::yellow(), Color { r: 255, g: 255, b: 0, a: 255 });
    assert_eq!(Color::black(), Color { r: 0, g: 0, b: 0, a: 255 });
}
