use bootstrap_core::{
    included, module_table, plan, BootstrapContext, Classification, Inclusion, ModuleId, Phase,
    StartupError, Step,
};

fn classify(mobile: bool, debug: bool) -> Classification {
    Classification { mobile, debug }
}

#[test]
fn included_if_mobile_follows_target() {
    assert!(included(Inclusion::IfMobile, classify(true, false)));
    assert!(!included(Inclusion::IfMobile, classify(false, true)));
}

#[test]
fn included_always_holds_everywhere() {
    assert!(included(Inclusion::Always, classify(false, false)));
    assert!(included(Inclusion::Always, classify(true, true)));
}

#[test]
fn included_if_debug_follows_profile() {
    assert!(included(Inclusion::IfDebug, classify(false, true)));
    assert!(!included(Inclusion::IfDebug, classify(true, false)));
}

#[test]
fn table_is_declared_in_order() {
    let t = module_table();
    assert_eq!(t.len(), 3);
    assert_eq!(t[0].id, ModuleId::BarcodeScanner);
    assert_eq!(t[0].inclusion, Inclusion::IfMobile);
    assert_eq!(t[1].id, ModuleId::OsInfo);
    assert_eq!(t[1].inclusion, Inclusion::Always);
    assert_eq!(t[2].id, ModuleId::LogCollector);
    assert_eq!(t[2].inclusion, Inclusion::IfDebug);
}

#[test]
fn plan_desktop_release_is_unconditional_only() {
    assert_eq!(plan(classify(false, false)), vec![ModuleId::OsInfo]);
}

#[test]
fn plan_desktop_debug_adds_log_collector() {
    assert_eq!(
        plan(classify(false, true)),
        vec![ModuleId::OsInfo, ModuleId::LogCollector]
    );
}

#[test]
fn plan_mobile_release_adds_barcode_scanner() {
    assert_eq!(
        plan(classify(true, false)),
        vec![ModuleId::BarcodeScanner, ModuleId::OsInfo]
    );
}

#[test]
fn plan_mobile_debug_is_full_table() {
    assert_eq!(
        plan(classify(true, true)),
        vec![ModuleId::BarcodeScanner, ModuleId::OsInfo, ModuleId::LogCollector]
    );
}

/// Drives a context until it either asks for the hand-off or fails, answering
/// each registration attempt from `answers` in order. Returns the modules
/// attempted and how often the run loop was invoked.
fn drive(
    ctx: &mut BootstrapContext,
    mut answers: Vec<Result<(), String>>,
) -> (Vec<ModuleId>, usize) {
    let mut attempted: Vec<ModuleId> = Vec::new();
    let mut runs: usize = 0;
    answers.reverse();
    loop {
        match ctx.next_step() {
            Step::Register(m) => {
                attempted.push(m);
                let answer = answers.pop().expect("driver ran out of scripted answers");
                ctx.record_registration(answer);
            }
            Step::HandOff => {
                ctx.begin_run();
                runs += 1;
                ctx.record_run(Ok(()));
            }
            Step::Fatal | Step::Settled => break,
        }
    }
    (attempted, runs)
}

#[test]
fn scenario_desktop_release_runs_after_unconditional_module() {
    let mut ctx = BootstrapContext::new(classify(false, false));
    let (attempted, runs) = drive(&mut ctx, vec![Ok(())]);
    assert_eq!(attempted, vec![ModuleId::OsInfo]);
    assert_eq!(runs, 1);
    assert_eq!(ctx.phase, Phase::Completed);
    assert!(ctx.error.is_none());
    assert_eq!(ctx.registered, vec![ModuleId::OsInfo]);
}

#[test]
fn scenario_mobile_debug_runs_after_all_three_modules() {
    let mut ctx = BootstrapContext::new(classify(true, true));
    let (attempted, runs) = drive(&mut ctx, vec![Ok(()), Ok(()), Ok(())]);
    assert_eq!(
        attempted,
        vec![ModuleId::BarcodeScanner, ModuleId::OsInfo, ModuleId::LogCollector]
    );
    assert_eq!(runs, 1);
    assert_eq!(ctx.phase, Phase::Completed);
    assert_eq!(
        ctx.registered,
        vec![ModuleId::BarcodeScanner, ModuleId::OsInfo, ModuleId::LogCollector]
    );
}

#[test]
fn scenario_desktop_debug_failure_stops_before_log_collector() {
    let mut ctx = BootstrapContext::new(classify(false, true));
    let (attempted, runs) = drive(
        &mut ctx,
        vec![Err(String::from("os bridge unavailable")), Ok(())],
    );
    assert_eq!(attempted, vec![ModuleId::OsInfo]);
    assert_eq!(runs, 0);
    assert_eq!(ctx.phase, Phase::Failed);
    assert_eq!(ctx.registered, Vec::<ModuleId>::new());
    match &ctx.error {
        Some(StartupError::Registration { module, reason }) => {
            assert_eq!(*module, ModuleId::OsInfo);
            assert_eq!(reason, "os bridge unavailable");
        }
        other => panic!("expected a registration failure, got {:?}", other),
    }
}

#[test]
fn failure_at_first_module_stops_the_rest() {
    let mut ctx = BootstrapContext::new(classify(true, true));
    let (attempted, runs) = drive(
        &mut ctx,
        vec![Err(String::from("no camera permission")), Ok(()), Ok(())],
    );
    assert_eq!(attempted, vec![ModuleId::BarcodeScanner]);
    assert_eq!(runs, 0);
    assert_eq!(ctx.phase, Phase::Failed);
    match &ctx.error {
        Some(StartupError::Registration { module, .. }) => {
            assert_eq!(*module, ModuleId::BarcodeScanner);
        }
        other => panic!("expected a registration failure, got {:?}", other),
    }
}

#[test]
fn failure_in_the_middle_keeps_earlier_registrations() {
    let mut ctx = BootstrapContext::new(classify(true, true));
    let (attempted, runs) = drive(
        &mut ctx,
        vec![Ok(()), Err(String::from("conflicting registration")), Ok(())],
    );
    assert_eq!(attempted, vec![ModuleId::BarcodeScanner, ModuleId::OsInfo]);
    assert_eq!(runs, 0);
    assert_eq!(ctx.phase, Phase::Failed);
    assert_eq!(ctx.registered, vec![ModuleId::BarcodeScanner]);
}

#[test]
fn abnormal_run_loop_end_is_fatal() {
    let mut ctx = BootstrapContext::new(classify(false, false));
    match ctx.next_step() {
        Step::Register(m) => {
            assert_eq!(m, ModuleId::OsInfo);
            ctx.record_registration(Ok(()));
        }
        other => panic!("expected a registration step, got {:?}", other),
    }
    assert_eq!(ctx.next_step(), Step::HandOff);
    ctx.begin_run();
    assert_eq!(ctx.phase, Phase::Running);
    ctx.record_run(Err(String::from("event loop panicked")));
    assert_eq!(ctx.phase, Phase::Failed);
    match &ctx.error {
        Some(StartupError::RunLoop { reason }) => {
            assert_eq!(reason, "event loop panicked");
        }
        other => panic!("expected a run-loop failure, got {:?}", other),
    }
}

#[test]
fn failed_context_keeps_reporting_fatal() {
    let mut ctx = BootstrapContext::new(classify(false, false));
    ctx.record_registration(Err(String::from("refused")));
    assert_eq!(ctx.next_step(), Step::Fatal);
    assert_eq!(ctx.next_step(), Step::Fatal);
}

#[test]
fn new_context_is_empty_and_accepting() {
    let ctx = BootstrapContext::new(classify(true, false));
    assert_eq!(ctx.phase, Phase::Accepting);
    assert!(ctx.error.is_none());
    assert!(ctx.registered.is_empty());
    assert_eq!(ctx.classification, classify(true, false));
    assert_eq!(ctx.plan, vec![ModuleId::BarcodeScanner, ModuleId::OsInfo]);
}
