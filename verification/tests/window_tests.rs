use serial_chat::layout::{Rect, RenderError, ViewportSize};
use serial_chat::screen::DrawOp;
use serial_chat::window::{
    compose_frame, draw_chat_in_window, draw_prompt_bar, draw_window, render_frame, visible_lines,
};

fn put(col: u16, row: u16, text: &str) -> DrawOp {
    DrawOp::Put { col, row, text: text.as_bytes().to_vec() }
}

fn lines(texts: &[&str]) -> Vec<String> {
    let mut out = Vec::new();
    for text in texts {
        out.push(String::from(*text));
    }
    out
}

#[test]
fn visible_lines_shows_all_when_they_fit() {
    let chat = lines(&["a", "b"]);
    assert_eq!(visible_lines(&chat, 5), &chat[..]);
    assert_eq!(visible_lines(&chat, 2), &chat[..]);
}

#[test]
fn visible_lines_shows_the_tail_when_they_do_not_fit() {
    let chat = lines(&["a", "b", "c", "d", "e"]);
    assert_eq!(visible_lines(&chat, 3), &chat[2..]);
    assert_eq!(visible_lines(&chat, 1), &chat[4..]);
    assert_eq!(visible_lines(&chat, 4), &chat[1..]);
}

#[test]
fn visible_lines_of_an_empty_transcript() {
    let chat: Vec<String> = Vec::new();
    assert_eq!(visible_lines(&chat, 1).len(), 0);
    assert_eq!(visible_lines(&chat, 0).len(), 0);
}

#[test]
fn visible_lines_with_no_rows_shows_nothing() {
    let chat = lines(&["a", "b"]);
    assert_eq!(visible_lines(&chat, 0).len(), 0);
}

#[test]
fn draw_window_smallest_has_three_bars_and_no_sides() {
    let mut out = Vec::new();
    assert_eq!(draw_window(&mut out, &Rect { x: 0, y: 0, w: 2, h: 2 }), Ok(()));
    assert_eq!(
        out,
        vec![
            put(0, 0, "\u{2554}\u{2557}"),
            put(0, 1, "\u{2560}\u{2563}"),
            put(0, 3, "\u{255A}\u{255D}"),
        ]
    );
}

#[test]
fn draw_window_frames_the_rectangle() {
    let mut out = Vec::new();
    assert_eq!(draw_window(&mut out, &Rect { x: 0, y: 0, w: 5, h: 4 }), Ok(()));
    assert_eq!(
        out,
        vec![
            put(0, 0, "\u{2554}\u{2550}\u{2550}\u{2550}\u{2557}"),
            put(0, 3, "\u{2560}\u{2550}\u{2550}\u{2550}\u{2563}"),
            put(0, 5, "\u{255A}\u{2550}\u{2550}\u{2550}\u{255D}"),
            put(0, 1, "\u{2551}"),
            put(4, 1, "\u{2551}"),
            put(0, 2, "\u{2551}"),
            put(4, 2, "\u{2551}"),
        ]
    );
}

#[test]
fn draw_window_starts_at_the_origin_of_the_rectangle() {
    let mut out = Vec::new();
    assert_eq!(draw_window(&mut out, &Rect { x: 10, y: 20, w: 3, h: 3 }), Ok(()));
    assert_eq!(
        out,
        vec![
            put(10, 20, "\u{2554}\u{2550}\u{2557}"),
            put(10, 22, "\u{2560}\u{2550}\u{2563}"),
            put(10, 24, "\u{255A}\u{2550}\u{255D}"),
            put(10, 21, "\u{2551}"),
            put(12, 21, "\u{2551}"),
        ]
    );
}

#[test]
fn draw_window_appends_to_what_is_there() {
    let mut out = vec![DrawOp::Clear];
    assert_eq!(draw_window(&mut out, &Rect { x: 0, y: 0, w: 2, h: 2 }), Ok(()));
    assert_eq!(out.len(), 4);
    assert_eq!(out[0], DrawOp::Clear);
}

#[test]
fn draw_window_refuses_a_rect_too_small_and_draws_nothing() {
    let mut out = vec![DrawOp::Clear];
    assert_eq!(draw_window(&mut out, &Rect { x: 0, y: 0, w: 1, h: 5 }), Err(RenderError::TooSmall));
    assert_eq!(draw_window(&mut out, &Rect { x: 0, y: 0, w: 5, h: 1 }), Err(RenderError::TooSmall));
    assert_eq!(draw_window(&mut out, &Rect { x: 0, y: 0, w: 0, h: 0 }), Err(RenderError::TooSmall));
    assert_eq!(out, vec![DrawOp::Clear]);
}

#[test]
fn draw_window_refuses_a_rect_out_of_range_and_draws_nothing() {
    let mut out = Vec::new();
    assert_eq!(
        draw_window(&mut out, &Rect { x: 65530, y: 0, w: 10, h: 10 }),
        Err(RenderError::OutOfRange)
    );
    assert_eq!(
        draw_window(&mut out, &Rect { x: 0, y: 65530, w: 10, h: 10 }),
        Err(RenderError::OutOfRange)
    );
    assert_eq!(out, Vec::new());
}

#[test]
fn draw_chat_puts_lines_inside_the_frame_oldest_first() {
    let mut out = Vec::new();
    let chat = lines(&["one", "two"]);
    assert_eq!(draw_chat_in_window(&mut out, &chat, Rect { x: 0, y: 0, w: 10, h: 5 }), Ok(()));
    // 3 bars, 3 interior rows with 2 sides each, then the lines
    assert_eq!(out.len(), 3 + 6 + 2);
    assert_eq!(out[9], put(1, 1, "one"));
    assert_eq!(out[10], put(1, 2, "two"));
}

#[test]
fn draw_chat_shows_only_the_tail_that_fits() {
    let mut out = Vec::new();
    let chat = lines(&["1", "2", "3", "4", "5"]);
    // interior of h - 2 = 2 rows
    assert_eq!(draw_chat_in_window(&mut out, &chat, Rect { x: 3, y: 7, w: 10, h: 4 }), Ok(()));
    assert_eq!(out.len(), 3 + 4 + 2);
    assert_eq!(out[7], put(4, 8, "4"));
    assert_eq!(out[8], put(4, 9, "5"));
}

#[test]
fn draw_chat_with_no_interior_shows_no_line() {
    let mut out = Vec::new();
    let chat = lines(&["1", "2"]);
    assert_eq!(draw_chat_in_window(&mut out, &chat, Rect { x: 0, y: 0, w: 4, h: 2 }), Ok(()));
    assert_eq!(out.len(), 3);
}

#[test]
fn draw_chat_cuts_lines_to_the_width_of_the_rectangle() {
    let mut out = Vec::new();
    let chat = lines(&["abcdefgh", "abcd", "abc"]);
    assert_eq!(draw_chat_in_window(&mut out, &chat, Rect { x: 0, y: 0, w: 4, h: 5 }), Ok(()));
    assert_eq!(out[9], put(1, 1, "abcd"));
    assert_eq!(out[10], put(1, 2, "abcd"));
    assert_eq!(out[11], put(1, 3, "abc"));
}

#[test]
fn draw_chat_refuses_what_draw_window_refuses() {
    let mut out = vec![DrawOp::Clear];
    let chat = lines(&["a"]);
    assert_eq!(
        draw_chat_in_window(&mut out, &chat, Rect { x: 0, y: 0, w: 1, h: 1 }),
        Err(RenderError::TooSmall)
    );
    assert_eq!(
        draw_chat_in_window(&mut out, &chat, Rect { x: 65535, y: 0, w: 2, h: 2 }),
        Err(RenderError::OutOfRange)
    );
    assert_eq!(out, vec![DrawOp::Clear]);
}

#[test]
fn prompt_bar_is_sides_and_input_on_the_row_above_the_last() {
    let mut out = Vec::new();
    assert_eq!(draw_prompt_bar(&mut out, "hello", ViewportSize::new(40, 10)), Ok(()));
    assert_eq!(out, vec![put(0, 8, "\u{2551}"), put(2, 8, "hello"), put(39, 8, "\u{2551}")]);
}

#[test]
fn prompt_bar_cuts_input_to_the_width_of_the_viewport() {
    let mut out = Vec::new();
    assert_eq!(draw_prompt_bar(&mut out, "abcdefgh", ViewportSize::new(4, 4)), Ok(()));
    assert_eq!(out, vec![put(0, 2, "\u{2551}"), put(2, 2, "abcd"), put(3, 2, "\u{2551}")]);
}

#[test]
fn prompt_bar_refuses_a_viewport_too_small() {
    let mut out = vec![DrawOp::Clear];
    assert_eq!(draw_prompt_bar(&mut out, "x", ViewportSize::new(1, 10)), Err(RenderError::TooSmall));
    assert_eq!(draw_prompt_bar(&mut out, "x", ViewportSize::new(10, 3)), Err(RenderError::TooSmall));
    assert_eq!(out, vec![DrawOp::Clear]);
}

#[test]
fn compose_frame_clears_then_draws_window_then_prompt() {
    let chat = lines(&["ping"]);
    let ops = compose_frame(&chat, "hi", ViewportSize::new(6, 5)).unwrap();
    assert_eq!(
        ops,
        vec![
            DrawOp::Clear,
            put(0, 0, "\u{2554}\u{2550}\u{2550}\u{2550}\u{2550}\u{2557}"),
            put(0, 2, "\u{2560}\u{2550}\u{2550}\u{2550}\u{2550}\u{2563}"),
            put(0, 4, "\u{255A}\u{2550}\u{2550}\u{2550}\u{2550}\u{255D}"),
            put(0, 1, "\u{2551}"),
            put(5, 1, "\u{2551}"),
            put(1, 1, "ping"),
            put(0, 3, "\u{2551}"),
            put(2, 3, "hi"),
            put(5, 3, "\u{2551}"),
        ]
    );
}

#[test]
fn compose_frame_refuses_a_viewport_too_small() {
    let chat = lines(&["ping"]);
    assert_eq!(compose_frame(&chat, "", ViewportSize::new(80, 3)), Err(RenderError::TooSmall));
    assert_eq!(compose_frame(&chat, "", ViewportSize::new(1, 24)), Err(RenderError::TooSmall));
}

#[test]
fn render_frame_gives_the_bytes_for_the_terminal() {
    let chat = lines(&["a"]);
    let bytes = render_frame(&chat, "b", ViewportSize::new(2, 4)).unwrap();
    let mut expected: Vec<u8> = Vec::new();
    expected.extend_from_slice(b"\x1b[2J");
    expected.extend_from_slice(b"\x1b[1;1H");
    expected.extend_from_slice("\u{2554}\u{2557}".as_bytes());
    expected.extend_from_slice(b"\x1b[2;1H");
    expected.extend_from_slice("\u{2560}\u{2563}".as_bytes());
    expected.extend_from_slice(b"\x1b[4;1H");
    expected.extend_from_slice("\u{255A}\u{255D}".as_bytes());
    expected.extend_from_slice(b"\x1b[3;1H");
    expected.extend_from_slice("\u{2551}".as_bytes());
    expected.extend_from_slice(b"\x1b[3;3Hb");
    expected.extend_from_slice(b"\x1b[3;2H");
    expected.extend_from_slice("\u{2551}".as_bytes());
    assert_eq!(bytes, expected);
}

#[test]
fn render_frame_refuses_a_viewport_too_small() {
    let chat: Vec<String> = Vec::new();
    assert_eq!(render_frame(&chat, "", ViewportSize::new(0, 0)), Err(RenderError::TooSmall));
    assert_eq!(render_frame(&chat, "", ViewportSize::new(2, 3)), Err(RenderError::TooSmall));
}

#[test]
fn render_frame_of_the_largest_viewport_is_in_range() {
    let chat: Vec<String> = Vec::new();
    let ops = compose_frame(&chat, "", ViewportSize::new(2, 65535)).unwrap();
    // clear, three bars, two sides on each of 65531 interior rows, three for the prompt
    assert_eq!(ops.len(), 1 + 3 + 2 * 65531 + 3);
    assert!(render_frame(&chat, "", ViewportSize::new(2, 65535)).is_ok());
}
