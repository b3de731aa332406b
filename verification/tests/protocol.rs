use activity_log::delivery::classify_attempt;
use activity_log::delivery::is_success_status;
use activity_log::delivery::record_attempt;
use activity_log::delivery::run_delivery;
use activity_log::delivery::wants_attempt;
use activity_log::delivery::AttemptFailure;
use activity_log::delivery::AttemptOutcome;
use activity_log::delivery::DeliveryStatus;
use activity_log::delivery::MAX_ATTEMPTS;
use activity_log::event::EventType;
use activity_log::report::after_local_write;
use activity_log::report::after_remote_attempt;
use activity_log::report::report_start;
use activity_log::report::report_with_journal;
use activity_log::report::run_report;
use activity_log::report::ReportPhase;
use activity_log::report::ReportSummary;
use activity_log::timefmt::display_line;
use activity_log::timefmt::ClockReading;

fn response(status: u16) -> AttemptOutcome {
    AttemptOutcome::Response { status }
}

#[test]
fn success_range_is_two_hundreds_inclusive() {
    assert!(!is_success_status(199));
    assert!(is_success_status(200));
    assert!(is_success_status(250));
    assert!(is_success_status(299));
    assert!(!is_success_status(300));
    assert!(!is_success_status(500));
}

#[test]
fn failures_are_classified_per_attempt() {
    assert_eq!(classify_attempt(&response(204)), None);
    assert_eq!(
        classify_attempt(&response(404)),
        Some(AttemptFailure::Rejected { status: 404 })
    );
    assert_eq!(
        classify_attempt(&AttemptOutcome::TransportFailed),
        Some(AttemptFailure::Transport)
    );
    assert_eq!(
        classify_attempt(&AttemptOutcome::TimedOut),
        Some(AttemptFailure::Timeout)
    );
}

#[test]
fn budget_is_three_attempts() {
    assert_eq!(MAX_ATTEMPTS, 3);
}

#[test]
fn stub_succeeding_on_second_attempt_sees_two_requests() {
    let outcomes = vec![AttemptOutcome::TimedOut, response(200), response(200)];
    let status = run_delivery(&outcomes);
    assert_eq!(status, DeliveryStatus::Delivered { attempts_made: 2 });
}

#[test]
fn first_attempt_success_stops_immediately() {
    let outcomes = vec![response(204), response(500), response(500)];
    let status = run_delivery(&outcomes);
    assert_eq!(status, DeliveryStatus::Delivered { attempts_made: 1 });
}

#[test]
fn always_timing_out_exhausts_exactly_three_attempts() {
    let outcomes = vec![
        AttemptOutcome::TimedOut,
        AttemptOutcome::TimedOut,
        AttemptOutcome::TimedOut,
    ];
    let status = run_delivery(&outcomes);
    assert_eq!(status, DeliveryStatus::Exhausted);
}

#[test]
fn late_success_after_spent_budget_is_never_seen() {
    let outcomes = vec![
        response(500),
        AttemptOutcome::TransportFailed,
        response(300),
        response(200),
    ];
    let status = run_delivery(&outcomes);
    assert_eq!(status, DeliveryStatus::Exhausted);
}

#[test]
fn protocol_steps_one_attempt_at_a_time() {
    let st = DeliveryStatus::Pending { attempts_made: 0 };
    assert!(wants_attempt(&st));
    let st = record_attempt(&st, &AttemptOutcome::TransportFailed);
    assert_eq!(st, DeliveryStatus::Pending { attempts_made: 1 });
    assert!(wants_attempt(&st));
    let st = record_attempt(&st, &response(503));
    assert_eq!(st, DeliveryStatus::Pending { attempts_made: 2 });
    let st = record_attempt(&st, &response(201));
    assert_eq!(st, DeliveryStatus::Delivered { attempts_made: 3 });
    assert!(!wants_attempt(&st));
}

#[test]
fn local_failure_does_not_block_remote_delivery() {
    let outcomes = vec![response(200), response(200), response(200)];
    let summary = run_report(false, &outcomes);
    assert_eq!(
        summary,
        ReportSummary {
            local_ok: false,
            remote: DeliveryStatus::Delivered { attempts_made: 1 },
        }
    );
}

#[test]
fn remote_exhaustion_does_not_rewrite_local_verdict() {
    let outcomes = vec![
        AttemptOutcome::TimedOut,
        AttemptOutcome::TransportFailed,
        response(500),
    ];
    let summary = run_report(true, &outcomes);
    assert_eq!(
        summary,
        ReportSummary {
            local_ok: true,
            remote: DeliveryStatus::Exhausted,
        }
    );
}

#[test]
fn phases_run_local_then_remote_to_done() {
    let p = report_start();
    assert_eq!(p, ReportPhase::LocalWrite);
    let p = after_local_write(&p, false);
    assert_eq!(
        p,
        ReportPhase::Remote {
            local_ok: false,
            status: DeliveryStatus::Pending { attempts_made: 0 },
        }
    );
    let p = after_remote_attempt(&p, &AttemptOutcome::TimedOut);
    assert_eq!(
        p,
        ReportPhase::Remote {
            local_ok: false,
            status: DeliveryStatus::Pending { attempts_made: 1 },
        }
    );
    let p = after_remote_attempt(&p, &response(299));
    assert_eq!(
        p,
        ReportPhase::Done {
            summary: ReportSummary {
                local_ok: false,
                remote: DeliveryStatus::Delivered { attempts_made: 2 },
            },
        }
    );
}

#[test]
fn journal_gains_one_line_per_call_in_order() {
    let now_one = ClockReading {
        secs: 0,
        millis: 0,
        offset_secs: 28800,
    };
    let now_two = ClockReading {
        secs: 1700000000,
        millis: 123,
        offset_secs: 28800,
    };
    let mut journal: Vec<String> = Vec::new();

    let delivered = vec![response(200), response(200), response(200)];
    let summary = report_with_journal(
        &mut journal,
        &EventType::KeyboardPress,
        "hello",
        &now_one,
        &delivered,
    );
    assert!(summary.local_ok);
    assert_eq!(journal.len(), 1);

    let unreachable_endpoint = vec![
        AttemptOutcome::TimedOut,
        AttemptOutcome::TimedOut,
        AttemptOutcome::TimedOut,
    ];
    let summary = report_with_journal(
        &mut journal,
        &EventType::ClipboardCopy,
        "copied",
        &now_two,
        &unreachable_endpoint,
    );
    // An unreachable endpoint still leaves the local line appended.
    assert!(summary.local_ok);
    assert_eq!(summary.remote, DeliveryStatus::Exhausted);

    assert_eq!(journal.len(), 2);
    assert_eq!(
        journal[0],
        display_line(&EventType::KeyboardPress, "hello", &now_one)
    );
    assert_eq!(
        journal[1],
        display_line(&EventType::ClipboardCopy, "copied", &now_two)
    );
    assert_eq!(journal[0], "1970/01/01-08:00:00.000 UTC+8 按下按键 hello");
    assert_eq!(journal[1], "2023/11/15-06:13:20.123 UTC+8 复制文本 copied");
}
