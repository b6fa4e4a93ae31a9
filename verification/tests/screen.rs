use rumatui::app::{AppError, AppWidget, Screen};
use rumatui::buffer::Buffer;
use rumatui::chat::ChatWidget;
use rumatui::layout::{fits, parts_within, split, Constraint, Direction, Rect};
use rumatui::request::{ProtocolError, RequestResult, StateResult, UserRequest};
use rumatui::style::{Color, Modifier, Style};
use tokio::sync::mpsc::channel;

fn text_rows(buf: &Buffer) -> Vec<String> {
    let mut out = Vec::new();
    for y in buf.area.top()..buf.area.bottom() {
        let mut line = String::new();
        for x in buf.area.left()..buf.area.right() {
            line.push_str(&buf.get(x, y).symbol);
        }
        out.push(line);
    }
    out
}

fn fresh_app() -> AppWidget {
    let (send_jobs, _jobs) = channel::<UserRequest>(4);
    let (_results, ev_msgs) = channel::<RequestResult>(4);
    let (_events, emitter_msgs) = channel::<StateResult>(4);
    AppWidget::new(send_jobs, ev_msgs, emitter_msgs)
}

#[test]
fn split_cuts_two_rows_off_the_top() {
    let parts = split(
        Direction::Vertical,
        &vec![Constraint::Length(2), Constraint::Min(0)],
        Rect::new(0, 0, 10, 6),
    );
    assert_eq!(parts, Some(vec![Rect::new(0, 0, 10, 2), Rect::new(0, 2, 10, 4)]));
}

#[test]
fn split_by_shares_of_the_width() {
    let parts = split(
        Direction::Horizontal,
        &vec![Constraint::Percentage(30), Constraint::Percentage(70)],
        Rect::new(4, 1, 10, 3),
    );
    assert_eq!(parts, Some(vec![Rect::new(4, 1, 3, 3), Rect::new(7, 1, 7, 3)]));
}

#[test]
fn split_refuses_a_share_that_leaves_u16() {
    let whole = vec![Constraint::Percentage(100)];
    assert_eq!(split(Direction::Vertical, &whole, Rect::new(0, 0, 10, 656)), None);
    assert_eq!(
        split(Direction::Vertical, &whole, Rect::new(0, 0, 10, 655)),
        Some(vec![Rect::new(0, 0, 10, 655)])
    );
    assert_eq!(split(Direction::Vertical, &vec![], Rect::new(0, 0, 10, 10)), Some(vec![]));
}

#[test]
fn fits_compares_both_corners() {
    let outer = Rect::new(2, 2, 10, 10);
    assert!(fits(Rect::new(2, 2, 10, 10), outer));
    assert!(fits(Rect::new(5, 5, 0, 0), outer));
    assert!(!fits(Rect::new(1, 2, 3, 3), outer));
    assert!(!fits(Rect::new(2, 2, 11, 3), outer));
    assert!(!fits(Rect::new(2, 10, 3, 3), outer));
    assert!(!fits(Rect::new(65535, 65535, 1, 1), Rect::new(65535, 65535, 1, 1)));
}

#[test]
fn draw_puts_the_title_bar_on_top_and_names_the_screen() {
    let app = fresh_app();
    let mut buf = Buffer::empty(Rect::new(0, 0, 12, 6));
    let body = app.draw(&mut buf);
    assert_eq!(body, Some((Screen::Login, Rect::new(0, 2, 12, 4))));
    assert_eq!(
        text_rows(&buf),
        vec!["┌RumaTui───┐", "└──────────┘", "            ", "            ", "            ", "            "]
    );
    let title_style = Style::default().fg(Color::Green).modifier(Modifier::bold());
    assert_eq!(buf.get(1, 0).style, title_style);
    assert_eq!(Modifier::bold(), Modifier { bits: 1 });
    assert_eq!(buf.get(0, 0).style, Style::default());
}

#[test]
fn the_screen_follows_error_then_login_then_chat() {
    let mut app = fresh_app();
    assert_eq!(app.screen(), Screen::Login);
    app.apply_result(rumatui::channel::Polled::Item(RequestResult::Login(Ok(vec![]))));
    assert_eq!(app.screen(), Screen::Chat);
    app.set_error(AppError::Protocol(ProtocolError::SendFailed));
    assert_eq!(app.screen(), Screen::Error);
    app.clear_transient();
    assert_eq!(app.screen(), Screen::Chat);
    app.apply_event(rumatui::channel::Polled::Closed);
    assert_eq!(app.screen(), Screen::Error);
    app.clear_transient();
    assert_eq!(app.error, Some(AppError::Disconnected));
}

#[test]
fn draw_on_a_buffer_too_small_for_a_bar() {
    let app = fresh_app();
    let mut buf = Buffer::empty(Rect::new(0, 0, 1, 1));
    let _ = app.draw(&mut buf);
    assert_eq!(text_rows(&buf), vec![" "]);
}

#[test]
fn the_chat_draws_two_frames_side_by_side() {
    let chat = ChatWidget::new();
    let mut buf = Buffer::empty(Rect::new(0, 0, 20, 4));
    let parts = chat.render(Rect::new(0, 1, 20, 3), &mut buf);
    assert_eq!(parts, Some((Rect::new(0, 1, 6, 3), Rect::new(6, 1, 14, 3))));
    assert_eq!(
        text_rows(&buf),
        vec![
            "                    ",
            "┌Room┐┌Messages────┐",
            "│    ││            │",
            "└────┘└────────────┘",
        ]
    );
    assert_eq!(chat.render(Rect::new(0, 2, 20, 3), &mut buf), None);
}

#[test]
fn split_refuses_an_area_that_leaves_the_screen() {
    let parts = split(
        Direction::Vertical,
        &vec![Constraint::Length(2), Constraint::Min(0)],
        Rect::new(65530, 0, 10, 6),
    );
    assert_eq!(parts, None);
}

#[test]
fn parts_are_handed_out_all_or_none() {
    let area = Rect::new(2, 2, 10, 10);
    let inside = vec![Rect::new(2, 2, 10, 4), Rect::new(2, 6, 10, 6)];
    assert_eq!(parts_within(inside.clone(), area), Some(inside));
    assert_eq!(parts_within(vec![], area), Some(vec![]));
    let one_outside = vec![Rect::new(2, 2, 10, 4), Rect::new(2, 6, 10, 7)];
    assert_eq!(parts_within(one_outside, area), None);
    let not_valid = vec![Rect::new(65535, 2, 1, 1)];
    assert_eq!(parts_within(not_valid, Rect::new(65535, 2, 1, 1)), None);
}

#[test]
fn the_chat_draws_on_two_parts_inside_the_buffer_only() {
    let chat = ChatWidget::new();
    let mut buf = Buffer::empty(Rect::new(0, 0, 8, 3));
    let blank = vec!["        ", "        ", "        "];

    assert_eq!(chat.render_parts(None, &mut buf), None);
    assert_eq!(text_rows(&buf), blank);

    let three = vec![Rect::new(0, 0, 2, 3), Rect::new(2, 0, 2, 3), Rect::new(4, 0, 4, 3)];
    assert_eq!(chat.render_parts(Some(three), &mut buf), None);
    assert_eq!(text_rows(&buf), blank);

    let one = vec![Rect::new(0, 0, 8, 3)];
    assert_eq!(chat.render_parts(Some(one), &mut buf), None);
    assert_eq!(text_rows(&buf), blank);

    let outside = vec![Rect::new(0, 0, 4, 3), Rect::new(4, 0, 5, 3)];
    assert_eq!(chat.render_parts(Some(outside), &mut buf), None);
    assert_eq!(text_rows(&buf), blank);

    let two = vec![Rect::new(0, 0, 3, 3), Rect::new(3, 0, 5, 3)];
    assert_eq!(
        chat.render_parts(Some(two), &mut buf),
        Some((Rect::new(0, 0, 3, 3), Rect::new(3, 0, 5, 3)))
    );
    assert_eq!(text_rows(&buf), vec!["┌R┐┌Mes┐", "│ ││   │", "└─┘└───┘"]);
}
