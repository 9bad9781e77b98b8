use host_bridge::crash::{classify_crash, crash_message, report_crash, CrashClass};
use host_bridge::effects::{
    line_output, take_full_read, write_failure_policy, EmitEffect, ErrorStream, ReadLengthError,
    WriteFailurePolicy,
};
use host_bridge::protocol::{
    program_argument, run_host, size_from_query, ArgString, Driver, GuestModel, Phase,
};

#[test]
fn classify_crash_tags() {
    assert_eq!(classify_crash(0), Some(CrashClass::RuntimeFault));
    assert_eq!(classify_crash(1), Some(CrashClass::UserCrash));
    assert_eq!(classify_crash(2), None);
    assert_eq!(classify_crash(u32::MAX), None);
}

#[test]
fn runtime_fault_diagnostic_text() {
    let report = report_crash(b"oops", 0).unwrap();
    assert_eq!(report.message, b"Roc crashed with:\n\n\toops\n\n".to_vec());
    assert_eq!(report.exit_code, 1);
}

#[test]
fn user_crash_diagnostic_text() {
    let report = report_crash(b"oops", 1).unwrap();
    assert_eq!(report.message, b"The program crashed with:\n\n\toops\n\n".to_vec());
    assert_eq!(report.exit_code, 1);
}

#[test]
fn crash_classes_produce_distinct_text() {
    let fault = crash_message(CrashClass::RuntimeFault, b"same message");
    let user = crash_message(CrashClass::UserCrash, b"same message");
    assert_ne!(fault, user);
}

#[test]
fn unknown_crash_tag_is_refused() {
    assert!(report_crash(b"x", 2).is_none());
    assert!(report_crash(b"x", 7).is_none());
}

#[test]
fn line_output_appends_terminator() {
    assert_eq!(line_output(b"abc"), b"abc\n".to_vec());
    assert_eq!(line_output(b""), b"\n".to_vec());
}

#[test]
fn emit_line_then_emit_raw_order() {
    let mut err = ErrorStream::new();
    err.emit_line(b"a");
    err.emit_raw(b"b");
    assert_eq!(err.bytes().as_slice(), b"a\nb");
}

#[test]
fn write_failure_asymmetry() {
    let line = EmitEffect::Line { text: b"a".to_vec() };
    let raw = EmitEffect::Raw { bytes: b"b".to_vec() };
    assert_eq!(write_failure_policy(&line), WriteFailurePolicy::Ignore);
    assert_eq!(write_failure_policy(&raw), WriteFailurePolicy::Abort);
}

#[test]
fn full_read_round_trip() {
    for n in [0usize, 1, 4096, 8192] {
        let bytes: Vec<u8> = (0..n).map(|i| (i % 251) as u8).collect();
        let back = take_full_read(n, bytes.clone()).unwrap();
        assert_eq!(back.len(), n);
        assert_eq!(back, bytes);
    }
}

#[test]
fn short_read_is_rejected() {
    let got = take_full_read(10, vec![1u8, 2, 3, 4, 5]);
    assert_eq!(got, Err(ReadLengthError { expected: 10, got: 5 }));
}

#[test]
fn long_read_is_rejected() {
    let got = take_full_read(1, vec![1u8, 2]);
    assert_eq!(got, Err(ReadLengthError { expected: 1, got: 2 }));
}

#[test]
fn size_query_conversion() {
    assert_eq!(size_from_query(0), Some(0));
    assert_eq!(size_from_query(4096), Some(4096));
    assert_eq!(size_from_query(-1), None);
    assert_eq!(size_from_query(i64::MIN), None);
}

#[test]
fn missing_program_argument() {
    let none: Vec<String> = vec![];
    let only_name = vec!["host".to_string()];
    assert!(program_argument(&none).is_none());
    assert!(program_argument(&only_name).is_none());
}

#[test]
fn present_program_argument() {
    let args = vec!["host".to_string(), "prog.data".to_string()];
    let arg = program_argument(&args).unwrap();
    assert_eq!(arg.as_str(), "prog.data");
}

#[test]
fn driver_walks_the_protocol() {
    let mut driver = Driver::new();
    assert_eq!(driver.current_phase(), Phase::Start);
    driver.record_main_size(24);
    assert_eq!(driver.current_phase(), Phase::MainSized);
    let main_bytes = driver.allocate_main_buffer();
    assert_eq!(main_bytes, 24);
    assert_eq!(driver.current_phase(), Phase::MainBuffered);
    driver.invoke_main(ArgString::new("prog.data".to_string()));
    assert_eq!(driver.current_phase(), Phase::MainInvoked);
    driver.record_result_size(8);
    assert_eq!(driver.current_phase(), Phase::ResultSized);
    let result_bytes = driver.allocate_result_buffer();
    assert_eq!(result_bytes, 8);
    assert_eq!(driver.current_phase(), Phase::ResultBuffered);
    driver.record_effect_invoked();
    assert_eq!(driver.current_phase(), Phase::EffectInvoked);
    driver.free_result_buffer();
    assert_eq!(driver.current_phase(), Phase::ResultFreed);
    driver.free_main_buffer();
    assert_eq!(driver.current_phase(), Phase::MainFreed);
    let code = driver.finish();
    assert_eq!(code, 0);
    assert_eq!(driver.current_phase(), Phase::Finished);
}

#[test]
fn hello_guest_end_to_end() {
    let guest = GuestModel {
        main_size: 32,
        result_size: 0,
        effects: vec![EmitEffect::Line { text: b"hello".to_vec() }],
    };
    let outcome = run_host(ArgString::new("prog.data".to_string()), &guest);
    assert_eq!(outcome.exit_code, 0);
    assert_eq!(outcome.error_output, b"hello\n".to_vec());
    assert_eq!(outcome.driver.current_phase(), Phase::Finished);
}

#[test]
fn guest_output_keeps_request_order() {
    let guest = GuestModel {
        main_size: 16,
        result_size: 4,
        effects: vec![
            EmitEffect::Line { text: b"a".to_vec() },
            EmitEffect::Raw { bytes: b"b".to_vec() },
        ],
    };
    let outcome = run_host(ArgString::new("prog.data".to_string()), &guest);
    assert_eq!(outcome.exit_code, 0);
    assert_eq!(outcome.error_output, b"a\nb".to_vec());
}

#[test]
fn empty_guest_produces_no_output() {
    let guest = GuestModel { main_size: 0, result_size: 0, effects: vec![] };
    let outcome = run_host(ArgString::new("prog.data".to_string()), &guest);
    assert_eq!(outcome.exit_code, 0);
    assert!(outcome.error_output.is_empty());
}
