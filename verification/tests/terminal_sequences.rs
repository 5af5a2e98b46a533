use memfill::error::TerminalStep;
use memfill::status::StatusStyle;
use memfill::terminal::{init_cursor, print_buffer_statistics, TerminalCommand};

#[test]
fn init_cursor_moves_saves_and_flushes() {
    assert_eq!(
        init_cursor(),
        vec![
            TerminalCommand::MoveToColumn(0),
            TerminalCommand::SavePosition,
            TerminalCommand::Flush,
        ]
    );
}

#[test]
fn init_cursor_is_the_same_every_time() {
    assert_eq!(init_cursor(), init_cursor());
    let wire: String = init_cursor().iter().map(|command| command.sequence()).collect();
    assert_eq!(wire, "\x1b[1G\x1b7");
}

#[test]
fn statistics_of_an_empty_buffer() {
    assert_eq!(
        print_buffer_statistics(StatusStyle::Plain, 0),
        vec![
            TerminalCommand::RestorePosition,
            TerminalCommand::ClearFromCursorDown,
            TerminalCommand::Print(String::from("Buffer: 0 bytes")),
            TerminalCommand::Flush,
        ]
    );
}

#[test]
fn statistics_of_two_clusters_with_magnitude() {
    assert_eq!(
        print_buffer_statistics(StatusStyle::WithMagnitude, 2_097_152),
        vec![
            TerminalCommand::RestorePosition,
            TerminalCommand::ClearFromCursorDown,
            TerminalCommand::Print(String::from("Buffer: 2097152 bytes (2.00 MiB)")),
            TerminalCommand::Flush,
        ]
    );
    let wire: String = print_buffer_statistics(StatusStyle::WithMagnitude, 2_097_152)
        .iter()
        .map(|command| command.sequence())
        .collect();
    assert_eq!(wire, "\x1b8\x1b[JBuffer: 2097152 bytes (2.00 MiB)");
}

#[test]
fn move_to_column_counts_from_one_on_the_wire() {
    assert_eq!(TerminalCommand::MoveToColumn(0).sequence(), "\x1b[1G");
    assert_eq!(TerminalCommand::MoveToColumn(9).sequence(), "\x1b[10G");
    assert_eq!(TerminalCommand::MoveToColumn(79).sequence(), "\x1b[80G");
    assert_eq!(TerminalCommand::MoveToColumn(u16::MAX - 1).sequence(), "\x1b[65535G");
}

#[test]
fn move_to_the_last_column_has_no_encoding() {
    assert_eq!(TerminalCommand::MoveToColumn(u16::MAX).checked_sequence(), None);
    assert_eq!(
        TerminalCommand::MoveToColumn(0).checked_sequence(),
        Some(String::from("\x1b[1G"))
    );
}

#[test]
fn save_and_restore_sequences() {
    assert_eq!(TerminalCommand::SavePosition.sequence(), "\x1b7");
    assert_eq!(TerminalCommand::RestorePosition.sequence(), "\x1b8");
}

#[test]
fn clear_from_cursor_down_sequence() {
    assert_eq!(TerminalCommand::ClearFromCursorDown.sequence(), "\x1b[J");
}

#[test]
fn print_sends_the_text_as_it_is() {
    let text = String::from("Buffer: 0 bytes");
    assert_eq!(TerminalCommand::Print(text.clone()).sequence(), text);
    assert_eq!(TerminalCommand::Print(String::new()).sequence(), "");
    assert_eq!(
        TerminalCommand::Print(String::from("\u{e9} {} \x1b")).sequence(),
        "\u{e9} {} \x1b"
    );
}

#[test]
fn flush_sends_nothing_of_its_own() {
    assert_eq!(TerminalCommand::Flush.sequence(), "");
    assert_eq!(TerminalCommand::Flush.checked_sequence(), Some(String::new()));
}

#[test]
fn each_command_stands_for_its_step() {
    assert_eq!(TerminalCommand::MoveToColumn(3).step(), TerminalStep::Move);
    assert_eq!(TerminalCommand::SavePosition.step(), TerminalStep::Save);
    assert_eq!(TerminalCommand::RestorePosition.step(), TerminalStep::Restore);
    assert_eq!(TerminalCommand::ClearFromCursorDown.step(), TerminalStep::Clear);
    assert_eq!(TerminalCommand::Print(String::from("x")).step(), TerminalStep::Print);
    assert_eq!(TerminalCommand::Flush.step(), TerminalStep::Flush);
}
