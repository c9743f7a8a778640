use term_dashboard::about::AboutTab;
use term_dashboard::app::App;
use term_dashboard::clock::utc_date_text;
use term_dashboard::frame::{
    legend_entries, status_line, Content, FrameLayout, SpanRole,
};
use term_dashboard::key::Key;
use term_dashboard::layout::{centered_rect, middle_part, Direction, Rect};

fn rect(x: u16, y: u16, width: u16, height: u16) -> Rect {
    Rect { x, y, width, height }
}

fn within(outer: Rect, inner: Rect) -> bool {
    outer.x <= inner.x
        && inner.x as u32 + inner.width as u32 <= outer.x as u32 + outer.width as u32
        && outer.y <= inner.y
        && inner.y as u32 + inner.height as u32 <= outer.y as u32 + outer.height as u32
}

#[test]
fn frame_layout_on_a_standard_terminal() {
    let layout = FrameLayout::of(rect(0, 0, 80, 24));
    assert_eq!(layout.tabs, rect(0, 0, 80, 1));
    assert_eq!(layout.middle, rect(0, 1, 80, 10));
    assert_eq!(layout.event_log, rect(0, 11, 80, 12));
    assert_eq!(layout.bottom_bar, rect(0, 23, 80, 1));
}

#[test]
fn frame_layout_keeps_the_offset_of_the_area() {
    let layout = FrameLayout::of(rect(3, 2, 100, 40));
    assert_eq!(layout.tabs, rect(3, 2, 100, 1));
    assert_eq!(layout.middle, rect(3, 3, 100, 26));
    assert_eq!(layout.event_log, rect(3, 29, 100, 12));
    assert_eq!(layout.bottom_bar, rect(3, 41, 100, 1));
}

#[test]
fn frame_layout_regions_are_bands_of_the_area() {
    for height in [0u16, 1, 5, 13, 14, 15, 24, 200] {
        let area = rect(2, 1, 50, height);
        let layout = FrameLayout::of(area);
        for part in [layout.tabs, layout.middle, layout.event_log, layout.bottom_bar] {
            assert_eq!(part.x, area.x);
            assert_eq!(part.width, area.width);
            assert!(within(area, part));
        }
    }
}

#[test]
fn frame_layout_from_parts_takes_them_in_order() {
    let parts = vec![rect(0, 0, 9, 1), rect(0, 1, 9, 2), rect(0, 3, 9, 3), rect(0, 6, 9, 4)];
    let layout = FrameLayout::from_parts(&parts);
    assert_eq!(layout.tabs, parts[0]);
    assert_eq!(layout.middle, parts[1]);
    assert_eq!(layout.event_log, parts[2]);
    assert_eq!(layout.bottom_bar, parts[3]);
}

#[test]
fn middle_part_takes_the_asked_share() {
    assert_eq!(
        middle_part(Direction::Horizontal, rect(0, 0, 100, 40), 60),
        rect(20, 0, 60, 40)
    );
    assert_eq!(
        middle_part(Direction::Vertical, rect(0, 0, 100, 40), 50),
        rect(0, 10, 100, 20)
    );
    assert_eq!(
        middle_part(Direction::Vertical, rect(5, 7, 100, 40), 100),
        rect(5, 7, 100, 40)
    );
}

#[test]
fn centered_rect_of_the_popup() {
    let area = rect(0, 0, 100, 40);
    let popup = centered_rect(area, 60, 25);
    assert_eq!(popup, rect(20, 15, 60, 10));
    assert_eq!(popup.x, 20);
    assert_eq!(popup.width, 60);
    assert_eq!(popup.height, 10);
    assert!(within(area, popup));
    assert_ne!(popup, area);
}

#[test]
fn centered_rect_lies_within_the_area() {
    for (px, py) in [(0u16, 0u16), (1, 1), (25, 60), (60, 25), (75, 25), (99, 99), (100, 100)] {
        for area in [rect(0, 0, 80, 24), rect(7, 3, 33, 11), rect(0, 0, 1, 1), rect(4, 4, 0, 0)] {
            assert!(within(area, centered_rect(area, px, py)));
        }
    }
}

#[test]
fn centered_rect_of_everything_is_the_area() {
    let area = rect(2, 3, 40, 20);
    assert_eq!(centered_rect(area, 100, 100), area);
}

#[test]
fn legend_lists_six_bindings() {
    let entries = legend_entries();
    assert_eq!(
        entries,
        vec![
            ("H/←", "Left"),
            ("L/→", "Right"),
            ("K/↑", "Up"),
            ("J/↓", "Down"),
            ("Enter", "Interact/Send"),
            ("Q/Esc", "Quit"),
        ]
    );
}

#[test]
fn status_line_pairs_keys_with_descriptions_and_ends_with_the_date() {
    let spans = status_line("2024-01-02 03:04:05");
    let texts: Vec<&str> = spans.iter().map(|s| s.text.as_str()).collect();
    assert_eq!(
        texts,
        vec![
            " H/← ",
            " Left ",
            " L/→ ",
            " Right ",
            " K/↑ ",
            " Up ",
            " J/↓ ",
            " Down ",
            " Enter ",
            " Interact/Send ",
            " Q/Esc ",
            " Quit ",
            "| 2024-01-02 03:04:05",
        ]
    );
    for (i, span) in spans.iter().enumerate() {
        let expected = if i == 12 {
            SpanRole::Date
        } else if i % 2 == 0 {
            SpanRole::Key
        } else {
            SpanRole::Description
        };
        assert_eq!(span.role, expected);
    }
}

#[test]
fn status_line_with_an_empty_date() {
    let spans = status_line("");
    assert_eq!(spans.len(), 13);
    assert_eq!(spans[12].text, "| ");
    assert_eq!(spans[12].role, SpanRole::Date);
}

#[test]
fn tab_bar_lists_every_title_and_highlights_the_selection() {
    let app = App::default();
    let bar = app.render_tabs(rect(0, 0, 80, 1));
    assert_eq!(bar.area, rect(0, 0, 80, 1));
    assert_eq!(bar.titles, vec![String::from(" About ")]);
    assert_eq!(bar.selected, 0);
}

#[test]
fn selected_tab_is_the_about_panel() {
    let app = App::default();
    let panel = app.render_selected_tab(rect(0, 1, 80, 10));
    assert_eq!(panel.area, rect(0, 1, 80, 10));
    assert_eq!(panel.title, "About");
    assert_eq!(panel.text, "term_dashboard");

    let direct = AboutTab::default().render(rect(1, 2, 3, 4));
    assert_eq!(direct.area, rect(1, 2, 3, 4));
    assert_eq!(direct.title, "About");
}

#[test]
fn popup_shows_the_input_within_the_area() {
    let mut app = App::default();
    app.handle_key(Key::Enter);
    app.handle_key(Key::Char('h'));
    app.handle_key(Key::Char('i'));
    let area = rect(0, 1, 100, 40);
    let popup = app.render_send_message_popup(area);
    assert_eq!(popup.cleared, area);
    assert_eq!(popup.title, "Enter message");
    assert_eq!(popup.text, "hi");
    assert_eq!(popup.frame, centered_rect(area, 60, 25));
    assert_eq!(popup.field, centered_rect(popup.frame, 75, 25));
    assert!(within(area, popup.frame));
    assert!(within(popup.frame, popup.field));
    assert_eq!(popup.frame.x, 20);
    assert_eq!(popup.frame.width, 60);
}

#[test]
fn event_log_region() {
    let app = App::default();
    let log = app.render_event_log(rect(0, 11, 80, 12));
    assert_eq!(log.area, rect(0, 11, 80, 12));
    assert_eq!(log.title, "Event Log");
}

#[test]
fn bottom_bar_ends_with_the_clock() {
    let bar = App::render_bottom_bar(rect(0, 23, 80, 1)).unwrap();
    assert_eq!(bar.area, rect(0, 23, 80, 1));
    assert_eq!(bar.spans.len(), 13);
    assert_eq!(bar.spans[0].text, " H/← ");
    assert_eq!(bar.spans[11].text, " Quit ");
    let date = &bar.spans[12];
    assert_eq!(date.role, SpanRole::Date);
    assert!(date.text.starts_with("| "));
    assert!(date.text.len() > 2);
}

#[test]
fn clock_text_is_a_date_in_utc() {
    let text = utc_date_text().unwrap();
    assert!(text.ends_with("+0000"));
    assert!(text.contains(':'));
}

#[test]
fn frame_in_normal_mode_shows_the_selected_tab() {
    let app = App::default();
    let area = rect(0, 0, 80, 24);
    let frame = app.render(area).unwrap();
    assert_eq!(frame.area, area);
    assert_eq!(frame.layout, FrameLayout::of(area));
    assert_eq!(frame.tabs.area, frame.layout.tabs);
    assert_eq!(frame.tabs.titles, vec![String::from(" About ")]);
    assert_eq!(frame.tabs.selected, 0);
    match &frame.content {
        Content::Tab(panel) => {
            assert_eq!(panel.area, frame.layout.middle);
            assert_eq!(panel.title, "About");
        }
        Content::Popup(_) => panic!("popup in normal mode"),
    }
    assert_eq!(frame.event_log.area, frame.layout.event_log);
    assert_eq!(frame.event_log.title, "Event Log");
    assert_eq!(frame.bottom_bar.area, frame.layout.bottom_bar);
    assert_eq!(frame.bottom_bar.spans.len(), 13);
}

#[test]
fn frame_in_editing_mode_shows_the_popup() {
    let mut app = App::default();
    app.handle_key(Key::Enter);
    app.handle_key(Key::Char('o'));
    app.handle_key(Key::Char('k'));
    let area = rect(0, 0, 120, 50);
    let frame = app.render(area).unwrap();
    match &frame.content {
        Content::Popup(popup) => {
            assert_eq!(popup.cleared, frame.layout.middle);
            assert_eq!(popup.text, "ok");
            assert_eq!(popup.title, "Enter message");
            assert!(within(frame.layout.middle, popup.frame));
            assert!(within(popup.frame, popup.field));
        }
        Content::Tab(_) => panic!("tab content in editing mode"),
    }
    app.handle_key(Key::Esc);
    let frame = app.render(area).unwrap();
    assert!(matches!(frame.content, Content::Tab(_)));
}

fn share(len: u32, percent: u32) -> u32 {
    (len * percent + 50) / 100
}

#[test]
fn middle_part_runs_between_the_rounded_shares() {
    for percent in 0..=100u16 {
        let side = (100 - percent as u32) / 2;
        for extent in [0u16, 1, 2, 3, 7, 10, 24, 33, 40, 50, 79, 80, 99, 100, 101, 250, 999] {
            for origin in [0u16, 5, 64000] {
                let from = origin as u32 + share(extent as u32, side);
                let to = origin as u32 + share(extent as u32, side + percent as u32);
                let across = middle_part(Direction::Horizontal, rect(origin, 9, extent, 4), percent);
                assert_eq!(across, rect(from as u16, 9, (to - from) as u16, 4));
                let down = middle_part(Direction::Vertical, rect(9, origin, 4, extent), percent);
                assert_eq!(down, rect(9, from as u16, 4, (to - from) as u16));
            }
        }
    }
}

#[test]
fn centered_rect_runs_between_the_rounded_shares() {
    for (px, py) in [(60u16, 25u16), (75, 25), (0, 0), (100, 100), (33, 67), (1, 99), (50, 50)] {
        for area in [rect(0, 0, 80, 24), rect(0, 1, 100, 40), rect(7, 3, 33, 11), rect(0, 0, 1, 1)] {
            let inner = centered_rect(area, px, py);
            let (sx, sy) = ((100 - px as u32) / 2, (100 - py as u32) / 2);
            let left = area.x as u32 + share(area.width as u32, sx);
            let right = area.x as u32 + share(area.width as u32, sx + px as u32);
            let top = area.y as u32 + share(area.height as u32, sy);
            let bottom = area.y as u32 + share(area.height as u32, sy + py as u32);
            assert_eq!(inner.x as u32, left);
            assert_eq!(inner.x as u32 + inner.width as u32, right);
            assert_eq!(inner.y as u32, top);
            assert_eq!(inner.y as u32 + inner.height as u32, bottom);
        }
    }
}

#[test]
fn centered_rect_on_a_small_area() {
    assert_eq!(centered_rect(rect(0, 0, 7, 3), 75, 25), rect(1, 1, 5, 1));
    assert_eq!(centered_rect(rect(0, 0, 80, 24), 60, 25), rect(16, 9, 48, 6));
}

#[test]
fn frame_layout_gives_each_region_its_rows() {
    for height in 14..=120u16 {
        for (x, y) in [(0u16, 0u16), (3, 2), (0, 65400)] {
            let area = rect(x, y, 50, height);
            let layout = FrameLayout::of(area);
            assert_eq!(layout.tabs, rect(x, y, 50, 1));
            assert_eq!(layout.middle, rect(x, y + 1, 50, height - 14));
            assert_eq!(layout.event_log, rect(x, y + height - 13, 50, 12));
            assert_eq!(layout.bottom_bar, rect(x, y + height - 1, 50, 1));
        }
    }
}

#[test]
fn popup_box_and_field_take_their_shares() {
    let mut app = App::default();
    app.handle_key(Key::Enter);
    let popup = app.render_send_message_popup(rect(0, 1, 100, 40));
    assert_eq!(popup.frame, rect(20, 16, 60, 10));
    assert_eq!(popup.field, rect(27, 20, 45, 2));
    let popup = app.render_send_message_popup(rect(0, 1, 80, 10));
    assert_eq!(popup.frame, rect(16, 5, 48, 2));
}
