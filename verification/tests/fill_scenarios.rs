use memfill::buffer::CLUSTER_SIZE;
use memfill::driver::{FillDriver, Phase};
use memfill::error::{FillError, Operation, TerminalStep};
use memfill::status::StatusStyle;
use memfill::terminal::TerminalCommand;

/// Carries out commands without fault, recording them, until `count` of them
/// are recorded or none is pending. The allocator is the real one.
fn record_commands(driver: &mut FillDriver, count: usize) -> Vec<TerminalCommand> {
    let mut recorded = Vec::new();
    while recorded.len() < count {
        match driver.pending_command() {
            Some(command) => {
                recorded.push(command);
                driver.command_succeeded();
            }
            None => break,
        }
    }
    recorded
}

/// Carries out the pending commands of the operation under way without
/// asking the allocator afterwards; returns the texts printed.
fn finish_operation(driver: &mut FillDriver) -> Vec<String> {
    let mut printed = Vec::new();
    while let Some(command) = driver.pending_command() {
        if let TerminalCommand::Print(text) = &command {
            printed.push(text.clone());
        }
        driver.complete_command();
    }
    printed
}

fn initialize_script() -> Vec<TerminalCommand> {
    vec![
        TerminalCommand::MoveToColumn(0),
        TerminalCommand::SavePosition,
        TerminalCommand::Flush,
    ]
}

fn render_script(status: &str) -> Vec<TerminalCommand> {
    vec![
        TerminalCommand::RestorePosition,
        TerminalCommand::ClearFromCursorDown,
        TerminalCommand::Print(String::from(status)),
        TerminalCommand::Flush,
    ]
}

#[test]
fn new_driver_is_at_the_start() {
    let driver = FillDriver::new(StatusStyle::Plain);
    assert_eq!(driver.phase(), Phase::Initializing(0));
    assert_eq!(driver.len(), 0);
    assert_eq!(driver.capacity(), 0);
    assert_eq!(driver.reservations(), 0);
    assert_eq!(driver.renders(), 0);
    assert_eq!(driver.last_status(), None);
    assert_eq!(driver.error(), None);
    assert_eq!(driver.pending_command(), Some(TerminalCommand::MoveToColumn(0)));
}

#[test]
fn first_status() {
    let mut driver = FillDriver::new(StatusStyle::Plain);
    let recorded = record_commands(&mut driver, 7);
    let mut expected = initialize_script();
    expected.extend(render_script("Buffer: 0 bytes"));
    assert_eq!(recorded, expected);
}

#[test]
fn first_status_with_magnitude() {
    let mut driver = FillDriver::new(StatusStyle::WithMagnitude);
    let recorded = record_commands(&mut driver, 7);
    let mut expected = initialize_script();
    expected.extend(render_script("Buffer: 0 bytes (0 B)"));
    assert_eq!(recorded, expected);
    assert!(matches!(&recorded[5], TerminalCommand::Print(text) if text.starts_with("Buffer: 0 bytes")));
}

#[test]
fn iteration_zero_reserves_then_renders_then_appends() {
    let mut driver = FillDriver::new(StatusStyle::Plain);
    let recorded = record_commands(&mut driver, 3);
    assert_eq!(recorded, initialize_script());
    // The reservation has been made, nothing is rendered or written yet.
    assert_eq!(driver.phase(), Phase::Rendering(0));
    assert_eq!(driver.reservations(), 1);
    assert_eq!(driver.capacity(), CLUSTER_SIZE);
    assert_eq!(driver.renders(), 0);
    assert_eq!(driver.len(), 0);
    let recorded = record_commands(&mut driver, 3);
    assert_eq!(recorded[2], TerminalCommand::Print(String::from("Buffer: 0 bytes")));
    // Printed, not flushed: still nothing written.
    assert_eq!(driver.phase(), Phase::Rendering(3));
    assert_eq!(driver.len(), 0);
    assert_eq!(driver.renders(), 0);
    driver.complete_command();
    assert_eq!(driver.renders(), 1);
    assert_eq!(driver.last_status(), Some(0));
    assert_eq!(driver.len(), CLUSTER_SIZE);
    assert_eq!(driver.phase(), Phase::Reserving);
}

#[test]
fn second_cluster_boundary() {
    let mut driver = FillDriver::new(StatusStyle::Plain);
    let mut printed = finish_operation(&mut driver);
    // Two reservations are granted.
    for _ in 0..2 {
        assert_eq!(driver.phase(), Phase::Reserving);
        driver.reserve();
        assert_eq!(driver.phase(), Phase::Rendering(0));
        printed.extend(finish_operation(&mut driver));
    }
    // The third is refused.
    assert_eq!(driver.phase(), Phase::Reserving);
    driver.settle_reservation(false);
    assert_eq!(
        printed,
        vec![String::from("Buffer: 0 bytes"), String::from("Buffer: 1048576 bytes")]
    );
    assert_eq!(driver.error(), Some(FillError::ReservationRefused { bytes: 1_048_576 }));
    assert_eq!(driver.phase(), Phase::Terminated(FillError::ReservationRefused { bytes: 1_048_576 }));
    assert!(driver.error().unwrap().message().contains("1048576"));
    assert_eq!(driver.renders(), 2);
    assert_eq!(driver.reservations(), 2);
    assert_eq!(driver.last_status(), Some(1_048_576));
    // Both granted clusters were filled before the third request.
    assert_eq!(driver.len(), 2 * 1_048_576);
    assert_eq!(driver.capacity(), 2 * 1_048_576);
    assert_eq!(driver.pending_command(), None);
}

#[test]
fn append_cadence() {
    let mut driver = FillDriver::new(StatusStyle::Plain);
    let mut prints = 0;
    // Run until two clusters are written and the third status line is printed.
    while !(driver.len() == 2_097_152 && driver.phase() == Phase::Rendering(3)) {
        let command = driver.pending_command().unwrap();
        if let TerminalCommand::Print(_) = command {
            prints += 1;
        }
        driver.command_succeeded();
    }
    assert_eq!(driver.len(), 2_097_152);
    assert_eq!(driver.reservations(), 3);
    assert_eq!(prints, 3);
    assert_eq!(driver.renders(), 2);
    assert_eq!(driver.capacity(), 3 * 1_048_576);
    driver.command_succeeded();
    assert_eq!(driver.renders(), 3);
    assert_eq!(driver.last_status(), Some(2_097_152));
    assert_eq!(driver.len(), 3 * 1_048_576);
}

#[test]
fn counters_at_every_boundary() {
    let mut driver = FillDriver::new(StatusStyle::Plain);
    finish_operation(&mut driver);
    for cluster in 0..4usize {
        // Between iterations: as many reservations and status lines as clusters.
        assert_eq!(driver.phase(), Phase::Reserving);
        assert_eq!(driver.len(), cluster * CLUSTER_SIZE);
        assert_eq!(driver.capacity(), cluster * CLUSTER_SIZE);
        assert_eq!(driver.reservations(), cluster);
        assert_eq!(driver.renders(), cluster);
        driver.reserve();
        assert_eq!(driver.reservations(), cluster + 1);
        assert_eq!(driver.capacity(), (cluster + 1) * CLUSTER_SIZE);
        assert!(driver.capacity() >= driver.len());
        assert_eq!(driver.capacity() % CLUSTER_SIZE, 0);
        let printed = finish_operation(&mut driver);
        assert_eq!(printed, vec![format!("Buffer: {} bytes", cluster * CLUSTER_SIZE)]);
        assert_eq!(driver.last_status(), Some(cluster * CLUSTER_SIZE));
    }
}

#[test]
fn no_scrolling() {
    for style in [StatusStyle::Plain, StatusStyle::WithMagnitude] {
        let mut driver = FillDriver::new(style);
        let mut commands = 0;
        while commands < 3 + 4 * 3 {
            let command = driver.pending_command().unwrap();
            assert!(!command.sequence().contains('\n'));
            if let TerminalCommand::Print(text) = &command {
                assert!(!text.contains('\n'));
            }
            driver.command_succeeded();
            commands += 1;
        }
        assert_eq!(driver.len(), 3 * CLUSTER_SIZE);
    }
}

#[test]
fn wire_of_the_first_status() {
    let mut driver = FillDriver::new(StatusStyle::WithMagnitude);
    let mut wire = String::new();
    for command in record_commands(&mut driver, 7) {
        wire.push_str(&command.sequence());
    }
    assert_eq!(wire, "\x1b[1G\x1b7\x1b8\x1b[JBuffer: 0 bytes (0 B)");
}

#[test]
fn terminal_init_failure() {
    let mut driver = FillDriver::new(StatusStyle::Plain);
    assert_eq!(driver.pending_command(), Some(TerminalCommand::MoveToColumn(0)));
    driver.command_succeeded();
    assert_eq!(driver.pending_command(), Some(TerminalCommand::SavePosition));
    driver.command_failed();
    let expected = FillError::TerminalIoFailed {
        operation: Operation::Initialize,
        step: TerminalStep::Save,
    };
    assert_eq!(driver.error(), Some(expected));
    assert_eq!(TerminalStep::Save.name(), "save");
    assert_eq!(expected.cause(), Some(String::from("Unable to save cursor position")));
    assert_eq!(driver.len(), 0);
    assert_eq!(driver.reservations(), 0);
    assert_eq!(driver.pending_command(), None);
}

#[test]
fn init_failure_at_each_step() {
    let steps = [TerminalStep::Move, TerminalStep::Save, TerminalStep::Flush];
    for (index, step) in steps.iter().enumerate() {
        let mut driver = FillDriver::new(StatusStyle::Plain);
        for _ in 0..index {
            driver.command_succeeded();
        }
        driver.command_failed();
        assert_eq!(
            driver.error(),
            Some(FillError::TerminalIoFailed { operation: Operation::Initialize, step: *step })
        );
        assert_eq!(driver.len(), 0);
        assert_eq!(driver.capacity(), 0);
    }
}

#[test]
fn render_failure_at_each_step_appends_nothing() {
    let steps =
        [TerminalStep::Restore, TerminalStep::Clear, TerminalStep::Print, TerminalStep::Flush];
    for (index, step) in steps.iter().enumerate() {
        let mut driver = FillDriver::new(StatusStyle::Plain);
        // Through the initialization and the whole first cluster.
        record_commands(&mut driver, 7);
        assert_eq!(driver.len(), CLUSTER_SIZE);
        for _ in 0..index {
            driver.command_succeeded();
        }
        let pending = driver.pending_command().unwrap();
        assert_eq!(pending.step(), *step);
        driver.command_failed();
        let expected =
            FillError::TerminalIoFailed { operation: Operation::RenderStatus, step: *step };
        assert_eq!(driver.error(), Some(expected));
        assert_eq!(expected.message(), "Unable to print buffer statistics");
        assert_eq!(driver.len(), CLUSTER_SIZE);
        assert_eq!(driver.renders(), 1);
        // Nothing moves a stopped run.
        driver.command_succeeded();
        driver.command_failed();
        driver.reserve();
        driver.settle_reservation(true);
        driver.settle_reservation(false);
        assert_eq!(driver.error(), Some(expected));
        assert_eq!(driver.len(), CLUSTER_SIZE);
        assert_eq!(driver.pending_command(), None);
    }
}

#[test]
fn refusal_on_the_first_reservation() {
    let mut driver = FillDriver::new(StatusStyle::Plain);
    let printed = finish_operation(&mut driver);
    driver.settle_reservation(false);
    assert!(printed.is_empty());
    assert_eq!(driver.error(), Some(FillError::ReservationRefused { bytes: CLUSTER_SIZE }));
    assert_eq!(driver.len(), 0);
    assert_eq!(driver.renders(), 0);
    assert_eq!(driver.last_status(), None);
}

#[test]
fn refusal_on_a_later_reservation() {
    for refused in 1..=4usize {
        let mut driver = FillDriver::new(StatusStyle::Plain);
        finish_operation(&mut driver);
        for _ in 1..refused {
            driver.reserve();
            assert_eq!(driver.phase(), Phase::Rendering(0));
            finish_operation(&mut driver);
        }
        driver.settle_reservation(false);
        let error = driver.error().unwrap();
        assert_eq!(error, FillError::ReservationRefused { bytes: 1_048_576 });
        assert!(error.message().contains("1048576"));
        assert_eq!(driver.reservations(), refused - 1);
        assert_eq!(driver.renders(), refused - 1);
        assert_eq!(driver.len(), (refused - 1) * CLUSTER_SIZE);
        if refused >= 2 {
            assert_eq!(driver.last_status(), Some((refused - 2) * CLUSTER_SIZE));
        } else {
            assert_eq!(driver.last_status(), None);
        }
    }
}

#[test]
fn events_away_from_their_phase_change_nothing() {
    let mut driver = FillDriver::new(StatusStyle::Plain);
    // No reservation while a command is pending.
    driver.settle_reservation(false);
    driver.reserve();
    assert_eq!(driver.phase(), Phase::Initializing(0));
    assert_eq!(driver.capacity(), 0);
    finish_operation(&mut driver);
    // No command at a boundary.
    assert_eq!(driver.phase(), Phase::Reserving);
    assert_eq!(driver.pending_command(), None);
    driver.complete_command();
    driver.command_failed();
    assert_eq!(driver.phase(), Phase::Reserving);
    assert_eq!(driver.len(), 0);
}
