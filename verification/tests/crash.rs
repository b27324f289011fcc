use wasm_pack::crash::{
    CrashReporter, FaultAction, FaultEvent, PanicMetadata, DIAGNOSTICS_TOGGLE, DOUBLE_FAULT,
};

fn metadata() -> PanicMetadata {
    PanicMetadata::new("wasm-pack", "0.13.1", "The wasm-pack team", "https://example.org/wasm-pack")
}

fn installed_reporter() -> CrashReporter {
    let mut reporter = CrashReporter::new(metadata());
    assert!(reporter.install(None));
    reporter
}

#[test]
fn the_toggle_and_the_double_fault_message_are_the_documented_ones() {
    assert_eq!(DIAGNOSTICS_TOGGLE, "RUST_BACKTRACE");
    assert_eq!(DOUBLE_FAULT, "human-panic: printing error message to console failed");
}

#[test]
fn metadata_keeps_its_four_parts() {
    let meta = metadata();
    assert_eq!(meta.name(), "wasm-pack");
    assert_eq!(meta.version(), "0.13.1");
    assert_eq!(meta.authors(), "The wasm-pack team");
    assert_eq!(meta.homepage(), "https://example.org/wasm-pack");
}

#[test]
fn metadata_may_be_empty() {
    let meta = PanicMetadata::new("", "", "", "");
    assert_eq!(meta.name(), "");
    assert_eq!(meta.version(), "");
    assert_eq!(meta.authors(), "");
    assert_eq!(meta.homepage(), "");
}

#[test]
fn the_report_writer_takes_the_record() {
    let record = metadata().to_report();
    assert!(human_panic::print_msg(Some("report.toml"), &record).is_ok());
    let record = PanicMetadata::new("wasm-pack", "0.13.1", "", "").to_report();
    assert!(human_panic::print_msg(None::<&str>, &record).is_ok());
}

#[test]
fn a_new_reporter_has_no_handler_in_place() {
    let reporter = CrashReporter::new(metadata());
    assert!(!reporter.is_installed());
    assert_eq!(reporter.meta(), &metadata());
}

#[test]
fn installing_with_the_toggle_set_changes_nothing() {
    for value in ["1", "0", "full", ""] {
        let mut reporter = CrashReporter::new(metadata());
        let before = reporter.clone();
        assert!(!reporter.install(Some(value)));
        assert_eq!(reporter, before);
        assert!(!reporter.is_installed());
    }
}

#[test]
fn installing_with_the_toggle_unset_registers_the_handler() {
    let mut reporter = CrashReporter::new(metadata());
    assert!(reporter.install(None));
    assert!(reporter.is_installed());
    assert_eq!(reporter.meta(), &metadata());
}

#[test]
fn the_handler_is_registered_at_most_once() {
    let mut reporter = installed_reporter();
    assert!(!reporter.install(None));
    assert!(reporter.is_installed());
    assert!(!reporter.install(Some("1")));
    assert!(reporter.is_installed());
}

#[test]
fn without_the_handler_only_the_previous_one_runs() {
    let mut reporter = CrashReporter::new(metadata());
    reporter.install(Some("1"));
    assert_eq!(reporter.react(FaultEvent::Fault), FaultAction::RunPrevious);
    assert_eq!(reporter.react(FaultEvent::PreviousRan), FaultAction::Resume);
}

#[test]
fn without_the_handler_every_later_event_lets_the_fault_go_on() {
    let reporter = CrashReporter::new(metadata());
    let path = Some("/tmp/report.toml".to_string());
    assert_eq!(reporter.react(FaultEvent::DumpWritten(path)), FaultAction::Resume);
    assert_eq!(reporter.react(FaultEvent::DumpWritten(None)), FaultAction::Resume);
    assert_eq!(reporter.react(FaultEvent::MessagePrinted(true)), FaultAction::Resume);
    assert_eq!(reporter.react(FaultEvent::MessagePrinted(false)), FaultAction::Resume);
}

#[test]
fn with_the_handler_a_fault_is_reported_step_by_step() {
    let reporter = installed_reporter();
    let path = Some("/tmp/report-8351cad6.toml".to_string());
    assert_eq!(reporter.react(FaultEvent::Fault), FaultAction::RunPrevious);
    assert_eq!(reporter.react(FaultEvent::PreviousRan), FaultAction::WriteDump);
    assert_eq!(
        reporter.react(FaultEvent::DumpWritten(path.clone())),
        FaultAction::PrintMessage(path)
    );
    assert_eq!(reporter.react(FaultEvent::MessagePrinted(true)), FaultAction::Resume);
}

#[test]
fn a_dump_that_could_not_be_written_still_gets_a_message() {
    let reporter = installed_reporter();
    assert_eq!(reporter.react(FaultEvent::DumpWritten(None)), FaultAction::PrintMessage(None));
}

#[test]
fn a_message_that_could_not_be_printed_is_a_failure_of_its_own() {
    let reporter = installed_reporter();
    assert_eq!(reporter.react(FaultEvent::MessagePrinted(false)), FaultAction::Abort(DOUBLE_FAULT));
}

/// Drives the reporter through one fault, with the given outcomes of the dump
/// and of the message, and gives back everything it asked for, in order.
fn course(reporter: &CrashReporter, dump: Option<&str>, printed: bool) -> Vec<FaultAction> {
    let mut asked = Vec::new();
    let mut event = FaultEvent::Fault;
    loop {
        let action = reporter.react(event);
        asked.push(action.clone());
        event = match action {
            FaultAction::RunPrevious => FaultEvent::PreviousRan,
            FaultAction::WriteDump => FaultEvent::DumpWritten(dump.map(|path| path.to_string())),
            FaultAction::PrintMessage(_) => FaultEvent::MessagePrinted(printed),
            FaultAction::Resume | FaultAction::Abort(_) => return asked,
        };
        assert!(asked.len() < 10);
    }
}

#[test]
fn with_the_toggle_set_a_fault_runs_the_previous_handler_and_nothing_else() {
    let mut reporter = CrashReporter::new(metadata());
    reporter.install(Some("1"));
    assert_eq!(
        course(&reporter, Some("/tmp/report.toml"), true),
        vec![FaultAction::RunPrevious, FaultAction::Resume]
    );
}

#[test]
fn with_the_toggle_unset_a_fault_is_dumped_and_announced() {
    let reporter = installed_reporter();
    assert_eq!(
        course(&reporter, Some("/tmp/report.toml"), true),
        vec![
            FaultAction::RunPrevious,
            FaultAction::WriteDump,
            FaultAction::PrintMessage(Some("/tmp/report.toml".to_string())),
            FaultAction::Resume,
        ]
    );
}

#[test]
fn a_fault_without_a_dump_is_still_announced() {
    let reporter = installed_reporter();
    assert_eq!(
        course(&reporter, None, true),
        vec![
            FaultAction::RunPrevious,
            FaultAction::WriteDump,
            FaultAction::PrintMessage(None),
            FaultAction::Resume,
        ]
    );
}

#[test]
fn a_fault_that_cannot_be_announced_ends_in_a_second_failure() {
    let reporter = installed_reporter();
    assert_eq!(
        course(&reporter, Some("/tmp/report.toml"), false),
        vec![
            FaultAction::RunPrevious,
            FaultAction::WriteDump,
            FaultAction::PrintMessage(Some("/tmp/report.toml".to_string())),
            FaultAction::Abort(DOUBLE_FAULT),
        ]
    );
}
