use shellrun::decimal::i32_decimal;
use shellrun::{classify, ExitOutcome, Output, RunError};

#[test]
fn exit_zero_returns_stdout() {
    let r = classify(
        ExitOutcome::Exited { code: 0 },
        b"known text\n".to_vec(),
        Vec::new(),
    );
    let out = r.unwrap();
    assert_eq!(out.stdout, "known text\n");
    assert_eq!(out.stderr, "");
}

#[test]
fn exit_zero_keeps_stderr_text() {
    let r = classify(
        ExitOutcome::Exited { code: 0 },
        b"result\n".to_vec(),
        b"warning: deprecated\n".to_vec(),
    );
    let out = r.unwrap();
    assert_eq!(out.stdout, "result\n");
    assert_eq!(out.stderr, "warning: deprecated\n");
}

#[test]
fn nonzero_exit_is_an_error_with_the_code() {
    let r = classify(
        ExitOutcome::Exited { code: 3 },
        b"partial".to_vec(),
        b"boom".to_vec(),
    );
    match r {
        Ok(_) => panic!("a non-zero exit must not succeed"),
        Err(e) => {
            assert_eq!(
                e,
                RunError::NonZeroExit {
                    code: 3,
                    stderr: "boom".to_string(),
                }
            );
            let msg = e.message();
            assert_eq!(msg, "command failed with status code 3: boom");
            assert!(msg.contains("3"));
        }
    }
}

#[test]
fn signal_termination_is_reported_in_words() {
    let r = classify(ExitOutcome::Signaled, Vec::new(), b"killed".to_vec());
    match r {
        Ok(_) => panic!("a signal termination must not succeed"),
        Err(e) => {
            assert_eq!(
                e,
                RunError::SignalTerminated {
                    stderr: "killed".to_string(),
                }
            );
            let msg = e.message();
            assert_eq!(
                msg,
                "command terminated by signal with no status code: killed"
            );
            assert!(!msg.contains("status code 1"));
        }
    }
}

#[test]
fn spawn_failure_message_is_verbatim() {
    let os_text = "No such file or directory (os error 2)";
    let e = RunError::SpawnFailed {
        message: os_text.to_string(),
    };
    assert_eq!(e.message(), os_text);
}

#[test]
fn invalid_utf8_is_replaced_not_rejected() {
    let r = classify(
        ExitOutcome::Exited { code: 0 },
        vec![0xff, 0x68, 0x69],
        vec![0x61, 0xc3],
    );
    let out = r.unwrap();
    assert_eq!(out.stdout, "\u{fffd}hi");
    assert_eq!(out.stderr, "a\u{fffd}");
}

#[test]
fn nonzero_exit_with_negative_code() {
    let e = RunError::NonZeroExit {
        code: -9,
        stderr: String::new(),
    };
    assert_eq!(e.message(), "command failed with status code -9: ");
}

#[test]
fn decimal_rendering_exact_values() {
    assert_eq!(i32_decimal(0), "0");
    assert_eq!(i32_decimal(7), "7");
    assert_eq!(i32_decimal(10), "10");
    assert_eq!(i32_decimal(255), "255");
    assert_eq!(i32_decimal(-1), "-1");
    assert_eq!(i32_decimal(2147483647), "2147483647");
    assert_eq!(i32_decimal(-2147483648), "-2147483648");
}

#[test]
fn output_is_a_plain_value() {
    let out = Output {
        stdout: "a".to_string(),
        stderr: "b".to_string(),
    };
    let copy = out.clone();
    assert_eq!(out, copy);
    assert_eq!(copy.stdout, "a");
    assert_eq!(copy.stderr, "b");
}

#[test]
fn each_outcome_maps_to_its_own_error_kind() {
    let nonzero = classify(ExitOutcome::Exited { code: 1 }, Vec::new(), Vec::new());
    assert!(matches!(nonzero, Err(RunError::NonZeroExit { code: 1, .. })));
    let signaled = classify(ExitOutcome::Signaled, Vec::new(), Vec::new());
    assert!(matches!(signaled, Err(RunError::SignalTerminated { .. })));
}
