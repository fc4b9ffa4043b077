use nvprime::config::{CpuTune, GpuTune, SysTune};
use nvprime::watchdog::{start_pid_watchdog, WatchdogAction};
use std::cell::RefCell;
use nvprime::daemon::{Adapter, AdapterCall, DaemonState, TuningError};
use nvprime::gpu::PowerTarget;
use nvprime::service::{
    Applied, ApplyStep, Awaiting, NvPrimeService, PendingApply, PendingRestore, RestoreAwaiting,
    RestoreReport, RestoreStep, TuningRequest,
};

/// Carries a tuning request through all its turns, answering each adapter
/// request with `answers`, and hands back the requests seen and the outcome.
fn run_apply(
    service: &mut NvPrimeService,
    request: Result<TuningRequest, String>,
    answers: &dyn Fn(&AdapterCall) -> Result<(), String>,
) -> (Vec<AdapterCall>, Result<Applied, TuningError>) {
    let mut calls = Vec::new();
    let mut step = service.apply_tuning(request);
    loop {
        match step {
            ApplyStep::Done { outcome } => return (calls, outcome),
            ApplyStep::Invoke { call, pending } => {
                let answer = answers(&call);
                calls.push(call);
                step = service.resume_apply(pending, answer);
            }
        }
    }
}

/// Carries a restoring operation through all its turns.
fn run_restore(
    service: &mut NvPrimeService,
    first: RestoreStep,
    answers: &dyn Fn(&AdapterCall) -> Result<(), String>,
) -> (Vec<AdapterCall>, RestoreReport) {
    let mut calls = Vec::new();
    let mut step = first;
    loop {
        match step {
            RestoreStep::Done { report } => return (calls, report),
            RestoreStep::Invoke { call, pending } => {
                let answer = answers(&call);
                calls.push(call);
                step = service.resume_restore(pending, answer);
            }
        }
    }
}

fn all_ok(_call: &AdapterCall) -> Result<(), String> {
    Ok(())
}

fn gpu_fails(call: &AdapterCall) -> Result<(), String> {
    match call.adapter() {
        Adapter::Gpu => Err("gpu refused".to_string()),
        _ => Ok(()),
    }
}

fn cpu_fails(call: &AdapterCall) -> Result<(), String> {
    match call.adapter() {
        Adapter::Cpu => Err("cpu refused".to_string()),
        _ => Ok(()),
    }
}

fn priority_fails(call: &AdapterCall) -> Result<(), String> {
    match call.adapter() {
        Adapter::Priority => Err("priority refused".to_string()),
        _ => Ok(()),
    }
}

fn everything_fails(_call: &AdapterCall) -> Result<(), String> {
    Err("refused".to_string())
}

fn full_request(pid: u32) -> TuningRequest {
    TuningRequest::new(
        pid,
        CpuTune {
            enabled: true,
            amd_epp_tune: "performance".to_string(),
            amd_epp_base: "balance_performance".to_string(),
        },
        GpuTune {
            enabled: true,
            gpu_name: None,
            gpu_uuid: None,
            gpu_vlk_icd: String::new(),
            set_max_pwr: true,
            pwr_limit_tune: None,
        },
        SysTune {
            enabled: true,
            proc_ioprio: 4,
            proc_renice: -10,
            splitlock_hack: false,
            watchdog_interval_sec: 3,
        },
    )
}

fn idle_request(pid: u32) -> TuningRequest {
    TuningRequest::new(pid, CpuTune::default(), GpuTune::default(), SysTune::default())
}

fn service_with_gpu() -> NvPrimeService {
    let mut state = DaemonState::new();
    state.record_gpu(None, Ok(250000)).unwrap();
    NvPrimeService::new(state)
}

#[test]
fn test_nvprime_service_new() {
    let state = DaemonState::new();
    let service = NvPrimeService::new(state);

    assert!(service.state.gpu.is_none());
    assert!(service.state.active_pids.is_empty());
}

#[test]
fn test_ping_answers_pong() {
    let service = NvPrimeService::new(DaemonState::new());
    assert_eq!(service.ping(), "pong");
}

#[test]
fn test_tuning_request_new_stamps_current_version() {
    let request = idle_request(9);
    assert_eq!(request.pid, 9);
    assert_eq!(request.protocol_version, 1);
    assert_eq!(request.cpu_config, CpuTune::default());
    assert_eq!(request.gpu_config, GpuTune::default());
    assert_eq!(request.sys_config, SysTune::default());
}

#[test]
fn test_apply_full_request_calls_adapters_in_order() {
    let mut service = service_with_gpu();
    let (calls, outcome) = run_apply(&mut service, Ok(full_request(100)), &all_ok);
    assert_eq!(
        calls,
        vec![
            AdapterCall::SetPowerLimit { target: PowerTarget::Maximum },
            AdapterCall::SetEpp { profile: "performance".to_string() },
            AdapterCall::SetPriority { pid: 100, nice: -10 },
        ]
    );
    assert_eq!(
        outcome,
        Ok(Applied { pid: 100, watchdog_interval_sec: 3, cpu_warning: None })
    );
    assert!(service.state.has_pid(100));
    assert_eq!(service.state.active_pids.len(), 1);
    assert_eq!(service.state.baseline_epp, Some("balance_performance".to_string()));
    assert_eq!(service.state.baseline_power_limit, Some(250000));
}

#[test]
fn test_apply_set_max_then_death_restores_default() {
    // A request that asks for the maximum reaches the adapter as such; the
    // death of the process brings the restore; nothing is tracked afterwards.
    let mut service = service_with_gpu();
    let mut request = idle_request(100);
    request.gpu_config.enabled = true;
    request.gpu_config.set_max_pwr = true;
    let (calls, outcome) = run_apply(&mut service, Ok(request), &all_ok);
    assert_eq!(calls, vec![AdapterCall::SetPowerLimit { target: PowerTarget::Maximum }]);
    let applied = outcome.unwrap();
    assert_eq!(applied.pid, 100);
    assert_eq!(applied.watchdog_interval_sec, 10);
    assert!(service.state.is_active());

    let first = service.remove_pid_and_maybe_restore(100);
    let (calls, report) = run_restore(&mut service, first, &all_ok);
    assert_eq!(calls, vec![AdapterCall::RestoreGpuDefault]);
    assert!(report.restored);
    assert_eq!(report.outcome(), Ok(()));
    assert!(service.state.active_pids.is_empty());
}

#[test]
fn test_apply_malformed_payload_is_config_error() {
    let mut service = service_with_gpu();
    service.state.add_active_pid(5);
    let (calls, outcome) = run_apply(
        &mut service,
        Err("EOF while parsing an object at line 1 column 9".to_string()),
        &all_ok,
    );
    assert!(calls.is_empty());
    assert_eq!(
        outcome,
        Err(TuningError::Config {
            message: "EOF while parsing an object at line 1 column 9".to_string()
        })
    );
    assert_eq!(service.state.active_pids.len(), 1);
    assert!(service.state.has_pid(5));
    assert!(service.state.baseline_epp.is_none());
}

#[test]
fn test_apply_rejects_other_protocol_versions() {
    let mut service = service_with_gpu();
    for version in [0u8, 2, 255] {
        let mut request = full_request(100);
        request.protocol_version = version;
        let (calls, outcome) = run_apply(&mut service, Ok(request), &all_ok);
        assert!(calls.is_empty());
        assert_eq!(
            outcome,
            Err(TuningError::Config { message: "Unsupported protocol version".to_string() })
        );
        assert!(!service.state.is_active());
        assert!(service.state.baseline_epp.is_none());
    }
}

#[test]
fn test_apply_gpu_failure_stops_the_request() {
    let mut service = service_with_gpu();
    let (calls, outcome) = run_apply(&mut service, Ok(full_request(100)), &gpu_fails);
    assert_eq!(calls, vec![AdapterCall::SetPowerLimit { target: PowerTarget::Maximum }]);
    assert_eq!(
        outcome,
        Err(TuningError::Hardware { adapter: Adapter::Gpu, message: "gpu refused".to_string() })
    );
    assert!(!service.state.is_active());
    assert!(service.state.baseline_epp.is_none());
}

#[test]
fn test_apply_without_gpu_fails_before_any_call() {
    let mut service = NvPrimeService::new(DaemonState::new());
    let (calls, outcome) = run_apply(&mut service, Ok(full_request(100)), &all_ok);
    assert!(calls.is_empty());
    assert_eq!(
        outcome,
        Err(TuningError::Hardware {
            adapter: Adapter::Gpu,
            message: "GPU not initialized".to_string()
        })
    );
    assert!(!service.state.is_active());
}

#[test]
fn test_apply_cpu_failure_is_only_a_warning() {
    let mut service = service_with_gpu();
    let (calls, outcome) = run_apply(&mut service, Ok(full_request(100)), &cpu_fails);
    assert_eq!(calls.len(), 3);
    assert_eq!(
        outcome,
        Ok(Applied {
            pid: 100,
            watchdog_interval_sec: 3,
            cpu_warning: Some("cpu refused".to_string())
        })
    );
    assert!(service.state.has_pid(100));
}

#[test]
fn test_apply_priority_failure_leaves_pid_untracked() {
    let mut service = service_with_gpu();
    let (calls, outcome) = run_apply(&mut service, Ok(full_request(100)), &priority_fails);
    assert_eq!(calls.len(), 3);
    assert_eq!(
        outcome,
        Err(TuningError::Hardware {
            adapter: Adapter::Priority,
            message: "priority refused".to_string()
        })
    );
    assert!(!service.state.is_active());
    assert_eq!(service.state.baseline_epp, Some("balance_performance".to_string()));
}

#[test]
fn test_apply_disabled_sections_call_no_adapter() {
    let mut service = service_with_gpu();
    let (calls, outcome) = run_apply(&mut service, Ok(idle_request(7)), &everything_fails);
    assert!(calls.is_empty());
    assert_eq!(outcome, Ok(Applied { pid: 7, watchdog_interval_sec: 10, cpu_warning: None }));
    assert!(service.state.has_pid(7));

    let mut no_gpu = full_request(8);
    no_gpu.gpu_config.enabled = false;
    let (calls, _) = run_apply(&mut service, Ok(no_gpu), &all_ok);
    assert!(calls.iter().all(|c| c.adapter() != Adapter::Gpu));
    assert_eq!(calls.len(), 2);

    let mut no_cpu = full_request(9);
    no_cpu.cpu_config.enabled = false;
    let (calls, _) = run_apply(&mut service, Ok(no_cpu), &all_ok);
    assert!(calls.iter().all(|c| c.adapter() != Adapter::Cpu));
    assert_eq!(calls.len(), 2);

    let mut no_sys = full_request(10);
    no_sys.sys_config.enabled = false;
    let (calls, _) = run_apply(&mut service, Ok(no_sys), &all_ok);
    assert!(calls.iter().all(|c| c.adapter() != Adapter::Priority));
    assert_eq!(calls.len(), 2);

    let mut zero_nice = full_request(11);
    zero_nice.sys_config.proc_renice = 0;
    let (calls, _) = run_apply(&mut service, Ok(zero_nice), &all_ok);
    assert!(calls.iter().all(|c| c.adapter() != Adapter::Priority));
}

#[test]
fn test_apply_again_keeps_baselines_and_calls_adapters_again() {
    let mut service = service_with_gpu();
    run_apply(&mut service, Ok(full_request(100)), &all_ok).1.unwrap();
    let mut second = full_request(200);
    second.cpu_config.amd_epp_tune = "power".to_string();
    second.cpu_config.amd_epp_base = "default".to_string();
    second.gpu_config.set_max_pwr = false;
    second.gpu_config.pwr_limit_tune = Some(123000);
    let (calls, outcome) = run_apply(&mut service, Ok(second), &all_ok);
    assert_eq!(
        calls,
        vec![
            AdapterCall::SetPowerLimit { target: PowerTarget::Milliwatts(123000) },
            AdapterCall::SetEpp { profile: "power".to_string() },
            AdapterCall::SetPriority { pid: 200, nice: -10 },
        ]
    );
    assert!(outcome.is_ok());
    assert_eq!(service.state.baseline_epp, Some("balance_performance".to_string()));
    assert_eq!(service.state.baseline_power_limit, Some(250000));
    assert_eq!(service.state.active_pids.len(), 2);

    // The same process again: still two tracked.
    run_apply(&mut service, Ok(full_request(200)), &all_ok).1.unwrap();
    assert_eq!(service.state.active_pids.len(), 2);
}

#[test]
fn test_reset_restores_both_and_clears() {
    let mut service = service_with_gpu();
    run_apply(&mut service, Ok(full_request(100)), &all_ok).1.unwrap();
    run_apply(&mut service, Ok(full_request(200)), &all_ok).1.unwrap();
    let first = service.reset_tuning();
    assert!(service.state.active_pids.is_empty());
    let (calls, report) = run_restore(&mut service, first, &all_ok);
    assert_eq!(
        calls,
        vec![
            AdapterCall::RestoreGpuDefault,
            AdapterCall::SetEpp { profile: "balance_performance".to_string() },
        ]
    );
    assert_eq!(report, RestoreReport { restored: true, gpu_error: None, cpu_error: None });
    assert_eq!(report.outcome(), Ok(()));
    assert!(service.state.active_pids.is_empty());
}

#[test]
fn test_reset_when_idle_calls_nothing() {
    let mut service = service_with_gpu();
    let first = service.reset_tuning();
    let (calls, report) = run_restore(&mut service, first, &everything_fails);
    assert!(calls.is_empty());
    assert_eq!(report, RestoreReport { restored: false, gpu_error: None, cpu_error: None });
    assert_eq!(report.outcome(), Ok(()));

    // After a full cycle a second reset is silent again.
    run_apply(&mut service, Ok(full_request(100)), &all_ok).1.unwrap();
    let first = service.reset_tuning();
    let (calls, _) = run_restore(&mut service, first, &all_ok);
    assert_eq!(calls.len(), 2);
    let again = service.reset_tuning();
    let (calls, report) = run_restore(&mut service, again, &everything_fails);
    assert!(calls.is_empty());
    assert_eq!(report.outcome(), Ok(()));
}

#[test]
fn test_reset_gpu_failure_is_partial_restore_and_still_clears() {
    let mut service = service_with_gpu();
    run_apply(&mut service, Ok(full_request(100)), &all_ok).1.unwrap();
    let first = service.reset_tuning();
    let (calls, report) = run_restore(&mut service, first, &gpu_fails);
    assert_eq!(calls.len(), 2);
    assert_eq!(
        report,
        RestoreReport {
            restored: true,
            gpu_error: Some("gpu refused".to_string()),
            cpu_error: None
        }
    );
    assert_eq!(
        report.outcome(),
        Err(TuningError::PartialRestore { gpu_failed: true, cpu_failed: false })
    );
    assert!(service.state.active_pids.is_empty());
}

#[test]
fn test_reset_failures_are_named() {
    let mut service = service_with_gpu();
    run_apply(&mut service, Ok(full_request(100)), &all_ok).1.unwrap();
    let first = service.reset_tuning();
    let (_, report) = run_restore(&mut service, first, &cpu_fails);
    assert_eq!(
        report.outcome(),
        Err(TuningError::PartialRestore { gpu_failed: false, cpu_failed: true })
    );
    assert!(!service.state.is_active());

    run_apply(&mut service, Ok(full_request(100)), &all_ok).1.unwrap();
    let first = service.reset_tuning();
    let (calls, report) = run_restore(&mut service, first, &everything_fails);
    assert_eq!(calls.len(), 2);
    assert_eq!(
        report.outcome(),
        Err(TuningError::PartialRestore { gpu_failed: true, cpu_failed: true })
    );
    assert!(!service.state.is_active());
}

#[test]
fn test_two_processes_restore_once_after_the_last_death() {
    let mut service = service_with_gpu();
    run_apply(&mut service, Ok(full_request(1)), &all_ok).1.unwrap();
    run_apply(&mut service, Ok(full_request(2)), &all_ok).1.unwrap();

    let first = service.remove_pid_and_maybe_restore(1);
    let (calls, report) = run_restore(&mut service, first, &all_ok);
    assert!(calls.is_empty());
    assert!(!report.restored);
    assert!(service.state.has_pid(2));
    assert_eq!(service.state.active_pids.len(), 1);

    let second = service.remove_pid_and_maybe_restore(2);
    let (calls, report) = run_restore(&mut service, second, &all_ok);
    assert_eq!(calls.len(), 2);
    assert!(report.restored);
    assert!(service.state.active_pids.is_empty());

    // A late cleanup for either process does nothing more.
    for pid in [1, 2] {
        let late = service.remove_pid_and_maybe_restore(pid);
        let (calls, report) = run_restore(&mut service, late, &all_ok);
        assert!(calls.is_empty());
        assert!(!report.restored);
    }
}

#[test]
fn test_cleanup_spares_a_newcomer() {
    let mut service = service_with_gpu();
    run_apply(&mut service, Ok(full_request(1)), &all_ok).1.unwrap();
    // Process 1 has died, but before its cleanup runs process 3 is tuned.
    run_apply(&mut service, Ok(full_request(3)), &all_ok).1.unwrap();
    let first = service.remove_pid_and_maybe_restore(1);
    let (calls, report) = run_restore(&mut service, first, &all_ok);
    assert!(calls.is_empty());
    assert!(!report.restored);
    assert!(service.state.has_pid(3));
    assert!(!service.state.has_pid(1));
}

#[test]
fn test_cleanup_of_unknown_pid_is_a_no_op() {
    let mut service = service_with_gpu();
    run_apply(&mut service, Ok(full_request(1)), &all_ok).1.unwrap();
    let first = service.remove_pid_and_maybe_restore(99);
    let (calls, report) = run_restore(&mut service, first, &all_ok);
    assert!(calls.is_empty());
    assert!(!report.restored);
    assert!(service.state.has_pid(1));
}

#[test]
fn test_cleanup_failures_are_reported_not_raised() {
    let mut service = service_with_gpu();
    run_apply(&mut service, Ok(full_request(1)), &all_ok).1.unwrap();
    let first = service.remove_pid_and_maybe_restore(1);
    let (calls, report) = run_restore(&mut service, first, &everything_fails);
    assert_eq!(calls.len(), 2);
    assert!(report.restored);
    assert_eq!(report.gpu_error, Some("refused".to_string()));
    assert_eq!(report.cpu_error, Some("refused".to_string()));
    assert!(service.state.active_pids.is_empty());
}

#[test]
fn test_restore_without_gpu_or_baseline_calls_nothing() {
    let mut service = NvPrimeService::new(DaemonState::new());
    run_apply(&mut service, Ok(idle_request(1)), &all_ok).1.unwrap();
    let first = service.reset_tuning();
    let (calls, report) = run_restore(&mut service, first, &all_ok);
    assert!(calls.is_empty());
    assert!(report.restored);
    assert_eq!(report.outcome(), Ok(()));
    assert!(!service.state.is_active());
}

#[test]
fn test_shutdown_restores_in_any_case() {
    let mut service = service_with_gpu();
    let first = service.shutdown();
    let (calls, report) = run_restore(&mut service, first, &all_ok);
    assert_eq!(calls, vec![AdapterCall::RestoreGpuDefault]);
    assert!(report.restored);

    run_apply(&mut service, Ok(full_request(1)), &all_ok).1.unwrap();
    let first = service.shutdown();
    assert!(!service.state.is_active());
    let (calls, _) = run_restore(&mut service, first, &gpu_fails);
    assert_eq!(calls.len(), 2);
}

#[test]
fn test_resume_apply_from_each_stage() {
    let mut service = service_with_gpu();
    let pending = PendingApply {
        request: idle_request(5),
        awaiting: Awaiting::Priority,
        cpu_warning: Some("soft".to_string()),
    };
    assert_eq!(
        service.resume_apply(pending, Ok(())),
        ApplyStep::Done {
            outcome: Ok(Applied {
                pid: 5,
                watchdog_interval_sec: 10,
                cpu_warning: Some("soft".to_string())
            })
        }
    );
    let pending = PendingApply {
        request: full_request(6),
        awaiting: Awaiting::Gpu,
        cpu_warning: None,
    };
    match service.resume_apply(pending, Ok(())) {
        ApplyStep::Invoke { call, pending } => {
            assert_eq!(call, AdapterCall::SetEpp { profile: "performance".to_string() });
            assert_eq!(pending.awaiting, Awaiting::Cpu);
            assert_eq!(pending.request, full_request(6));
        }
        other => panic!("unexpected step {:?}", other),
    }
}

#[test]
fn test_resume_restore_from_each_stage() {
    let mut service = NvPrimeService::new(DaemonState::new());
    let pending = PendingRestore { awaiting: RestoreAwaiting::Cpu, gpu_error: Some("g".to_string()) };
    assert_eq!(
        service.resume_restore(pending, Err("c".to_string())),
        RestoreStep::Done {
            report: RestoreReport {
                restored: true,
                gpu_error: Some("g".to_string()),
                cpu_error: Some("c".to_string())
            }
        }
    );
    let pending = PendingRestore { awaiting: RestoreAwaiting::Gpu, gpu_error: None };
    assert_eq!(
        service.resume_restore(pending, Err("g".to_string())),
        RestoreStep::Done {
            report: RestoreReport {
                restored: true,
                gpu_error: Some("g".to_string()),
                cpu_error: None
            }
        }
    );
}

#[test]
fn test_run_apply_drives_the_whole_request() {
    let seen = RefCell::new(Vec::new());
    let mut service = service_with_gpu();
    let outcome = service.run_apply(Ok(full_request(100)), |call| {
        seen.borrow_mut().push(call.adapter());
        cpu_fails(call)
    });
    assert_eq!(
        outcome,
        Ok(Applied {
            pid: 100,
            watchdog_interval_sec: 3,
            cpu_warning: Some("cpu refused".to_string())
        })
    );
    assert_eq!(*seen.borrow(), vec![Adapter::Gpu, Adapter::Cpu, Adapter::Priority]);
    assert!(service.state.has_pid(100));

    seen.borrow_mut().clear();
    let outcome = service.run_apply(Ok(full_request(200)), |call| {
        seen.borrow_mut().push(call.adapter());
        gpu_fails(call)
    });
    assert_eq!(
        outcome,
        Err(TuningError::Hardware { adapter: Adapter::Gpu, message: "gpu refused".to_string() })
    );
    assert_eq!(*seen.borrow(), vec![Adapter::Gpu]);
    assert!(!service.state.has_pid(200));

    seen.borrow_mut().clear();
    let outcome = service.run_apply(Err("bad payload".to_string()), |call| {
        seen.borrow_mut().push(call.adapter());
        Ok(())
    });
    assert_eq!(outcome, Err(TuningError::Config { message: "bad payload".to_string() }));
    assert!(seen.borrow().is_empty());
}

#[test]
fn test_run_reset_cleanup_and_shutdown() {
    let seen = RefCell::new(Vec::new());
    let record = |call: &AdapterCall| {
        seen.borrow_mut().push(call.adapter());
        Ok(())
    };
    let mut service = service_with_gpu();
    service.run_apply(Ok(full_request(1)), &record).unwrap();
    service.run_apply(Ok(full_request(2)), &record).unwrap();
    seen.borrow_mut().clear();

    let report = service.run_cleanup(1, &record);
    assert!(!report.restored);
    assert!(seen.borrow().is_empty());
    let report = service.run_cleanup(2, &record);
    assert!(report.restored);
    assert_eq!(*seen.borrow(), vec![Adapter::Gpu, Adapter::Cpu]);
    assert!(!service.state.is_active());

    seen.borrow_mut().clear();
    let report = service.run_reset(&record);
    assert_eq!(report, RestoreReport { restored: false, gpu_error: None, cpu_error: None });
    assert!(seen.borrow().is_empty());

    service.run_apply(Ok(full_request(3)), &record).unwrap();
    seen.borrow_mut().clear();
    let report = service.run_reset(gpu_fails);
    assert_eq!(
        report.outcome(),
        Err(TuningError::PartialRestore { gpu_failed: true, cpu_failed: false })
    );
    assert!(!service.state.is_active());

    let report = service.run_shutdown(&record);
    assert!(report.restored);
    assert_eq!(*seen.borrow(), vec![Adapter::Gpu, Adapter::Cpu]);
}

#[test]
fn test_watchdog_drives_the_cleanup() {
    let mut service = service_with_gpu();
    let mut request = idle_request(100);
    request.gpu_config.enabled = true;
    request.gpu_config.set_max_pwr = true;
    request.sys_config.watchdog_interval_sec = 2;
    let calls = RefCell::new(Vec::new());
    let record = |call: &AdapterCall| {
        calls.borrow_mut().push(call.clone());
        Ok(())
    };
    let applied = service.run_apply(Ok(request), &record).unwrap();
    assert_eq!(
        *calls.borrow(),
        vec![AdapterCall::SetPowerLimit { target: PowerTarget::Maximum }]
    );

    let mut task = start_pid_watchdog(applied.pid, applied.watchdog_interval_sec);
    let mut action = task.first_action();
    let probes = [true, true, false];
    let mut slept = 0;
    for alive in probes {
        match action {
            WatchdogAction::Sleep { seconds } => {
                slept += seconds;
                action = task.on_probe(alive);
            }
            other => panic!("unexpected action {:?}", other),
        }
    }
    assert_eq!(slept, 6);
    assert_eq!(action, WatchdogAction::Cleanup { pid: 100 });

    calls.borrow_mut().clear();
    let report = service.run_cleanup(100, &record);
    assert!(report.restored);
    assert_eq!(*calls.borrow(), vec![AdapterCall::RestoreGpuDefault]);
    assert!(service.state.active_pids.is_empty());
    assert_eq!(task.on_probe(false), WatchdogAction::Stop);
}
