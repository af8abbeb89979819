use tiledata_log::dispatch::Event;
use tiledata_log::error::CoreError;
use tiledata_log::screen::Logger;
use vte::{Params, Parser, Perform};

/// Hands the tokenizer's callbacks to the logger and keeps what came back.
struct Feed {
    logger: Logger,
    events: Vec<Event>,
    errors: Vec<CoreError>,
}

impl Feed {
    fn new(logger: Logger) -> Feed {
        Feed { logger, events: Vec::new(), errors: Vec::new() }
    }

    fn run(&mut self, input: &str) {
        let mut statemachine = Parser::new();
        for byte in input.bytes() {
            statemachine.advance(self, byte);
        }
    }
}

impl Perform for Feed {
    fn print(&mut self, c: char) {
        if let Err(e) = self.logger.print(c) {
            self.errors.push(e);
        }
    }

    fn csi_dispatch(&mut self, params: &Params, _intermediates: &[u8], ignore: bool, c: char) {
        match self.logger.csi_dispatch_params(params, ignore, c) {
            Ok(mut events) => self.events.append(&mut events),
            Err(e) => self.errors.push(e),
        }
    }
}

#[test]
fn test_single_a_1_should_decrement_y() {
    let input: &str = "\x1B[1A";
    let mut start_state = Logger::default();
    start_state.cursor_y = 42;
    let mut feed = Feed::new(start_state);
    feed.run(input);
    assert_eq!(41, feed.logger.cursor_y);
}

#[test]
fn test_single_b_1_should_increment_y() {
    let input: &str = "\x1B[1B";
    let mut start_state = Logger::default();
    start_state.cursor_y = 42;
    let mut feed = Feed::new(start_state);
    feed.run(input);
    assert_eq!(43, feed.logger.cursor_y);
}

#[test]
fn test_single_c_4_should_increment_x_with_4() {
    let input: &str = "\x1B[4C";
    let mut start_state = Logger::default();
    start_state.cursor_x = 12;
    let mut feed = Feed::new(start_state);
    feed.run(input);
    assert_eq!(16, feed.logger.cursor_x);
}

#[test]
fn test_single_d_7_should_increment_x_with_7() {
    let input: &str = "\x1B[7D";
    let mut start_state = Logger::default();
    start_state.cursor_x = 12;
    let mut feed = Feed::new(start_state);
    feed.run(input);
    assert_eq!(5, feed.logger.cursor_x);
}

#[test]
fn test_single_h_should_increment_move_to_0_0() {
    let input: &str = "\x1B[H";
    let mut start_state = Logger::default();
    start_state.cursor_x = 12;
    start_state.cursor_y = 28;
    let mut feed = Feed::new(start_state);
    feed.run(input);
    assert_eq!(0, feed.logger.cursor_x);
    assert_eq!(0, feed.logger.cursor_y);
}

#[test]
fn test_single_line_column_h_should_increment_move_to_position() {
    let input: &str = "\x1B[23;45H";
    let mut start_state = Logger::default();
    start_state.cursor_x = 12;
    start_state.cursor_y = 28;
    let mut feed = Feed::new(start_state);
    feed.run(input);
    assert_eq!(45, feed.logger.cursor_x);
    assert_eq!(23, feed.logger.cursor_y);
}

#[test]
fn stream_map_print_then_window_switch_emits_snapshot_and_message() {
    let mut feed = Feed::new(Logger::default());
    feed.run("\x1B[1;2;3z\x1B[2;5H@\x1B[1;2;1z");
    assert!(feed.errors.is_empty());
    assert_eq!(feed.events.len(), 2);
    match &feed.events[0] {
        Event::ScreenSnapshot(lines) => {
            assert_eq!(lines.len(), 20);
            assert_eq!(lines[2][5], '@');
            assert_eq!(lines[2][4], ' ');
        }
        other => panic!("expected a snapshot, got {:?}", other),
    }
    assert_eq!(feed.events[1], Event::MessageBlock(3, vec!['@']));
    assert_eq!(feed.logger.selected_window, 1);
    assert!(feed.logger.current_message.is_empty());
}

#[test]
fn stream_glyph_block_reports_printed_glyph() {
    let mut feed = Feed::new(Logger::default());
    feed.run("\x1B[1;2;3z\x1B[1;0;1234;8zd\x1B[1;1z");
    assert!(feed.errors.is_empty());
    assert_eq!(feed.events, vec![Event::GlyphDecoded('d')]);
    assert_eq!(feed.logger.cursor_x, 1);
}

#[test]
fn stream_unknown_sequence_is_ignored() {
    let mut feed = Feed::new(Logger::default());
    feed.logger.cursor_x = 7;
    feed.run("\x1B[2J\x1B[0m\x1B[K");
    assert!(feed.errors.is_empty());
    assert!(feed.events.is_empty());
    assert_eq!(feed.logger.cursor_x, 7);
    assert_eq!(feed.logger.cursor_y, 0);
}

#[test]
fn stream_movement_without_count_moves_by_zero() {
    let mut feed = Feed::new(Logger::default());
    feed.logger.cursor_y = 4;
    feed.run("\x1B[A");
    assert!(feed.errors.is_empty());
    assert_eq!(feed.logger.cursor_y, 4);
}

#[test]
fn stream_glyph_start_outside_map_reports_invalid_context() {
    let mut feed = Feed::new(Logger::default());
    feed.run("\x1B[1;0;1234;8z");
    assert_eq!(feed.errors, vec![CoreError::InvalidContext]);
    assert_eq!(feed.logger.selected_window, 255);
}
