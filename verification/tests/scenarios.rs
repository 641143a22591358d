use luau_harness::compile_run;
use luau_harness::engine;
use luau_harness::error_prop;
use luau_harness::protocol::{Action, Event, Failure};

/// Drives a compile-and-run machine over the given observations, returning
/// every action it emitted in order.
fn drive_compile_run(machine: &mut compile_run::CompileRun, events: Vec<Event>) -> Vec<Action> {
    let mut actions: Vec<Action> = Vec::new();
    for ev in events {
        actions.push(machine.step(ev));
    }
    actions
}

/// The observations of a full compile-and-run scenario in which every check
/// passes, with the backend probe answering `supported`.
fn happy_sum_events(supported: bool, version: &str, status: i32, result: i32) -> Vec<Event> {
    let mut events = vec![
        Event::Created { nonnull: true },
        Event::CodegenProbed { supported },
    ];
    if supported {
        events.push(Event::Done); // native-code context attached
    }
    events.push(Event::Done); // standard libraries loaded
    events.push(Event::TextRead { text: version.to_string() });
    events.push(Event::Compiled { size: 97 });
    events.push(Event::Loaded { status });
    events.push(Event::Done); // bytecode buffer released
    if supported {
        events.push(Event::Done); // loaded function compiled to native code
    }
    events.push(Event::Done); // unprotected call completed
    events.push(Event::IntRead { value: result });
    events.push(Event::Done); // instance destroyed
    events
}

#[test]
fn test_luau() {
    let mut machine = compile_run::CompileRun::new(123, 321);
    let actions = drive_compile_run(&mut machine, happy_sum_events(false, "Luau", 0, 444));
    assert_eq!(
        actions,
        vec![
            Action::ProbeCodegen,
            Action::OpenLibs,
            Action::FetchVersion,
            Action::CompileSource,
            Action::LoadChunk,
            Action::ReleaseBytecode,
            Action::PushArgsAndCall { first: 123, second: 321 },
            Action::ReadIntResult,
            Action::CloseInstance,
            Action::Pass,
        ]
    );
    assert_eq!(machine.phase, compile_run::Phase::Finished);
}

#[test]
fn sum_scenario_with_codegen_passes() {
    let mut machine = compile_run::CompileRun::new(123, 321);
    let actions = drive_compile_run(&mut machine, happy_sum_events(true, "Luau", 0, 444));
    assert_eq!(
        actions,
        vec![
            Action::ProbeCodegen,
            Action::AttachCodegen,
            Action::OpenLibs,
            Action::FetchVersion,
            Action::CompileSource,
            Action::LoadChunk,
            Action::ReleaseBytecode,
            Action::CompileLoadedFunction,
            Action::PushArgsAndCall { first: 123, second: 321 },
            Action::ReadIntResult,
            Action::CloseInstance,
            Action::Pass,
        ]
    );
    assert_eq!(machine.phase, compile_run::Phase::Finished);
}

#[test]
fn codegen_support_never_changes_the_verdict() {
    for result in [444, 443] {
        let mut interpreted = compile_run::CompileRun::new(123, 321);
        let without = drive_compile_run(&mut interpreted, happy_sum_events(false, "Luau", 0, result));
        let mut native = compile_run::CompileRun::new(123, 321);
        let with = drive_compile_run(&mut native, happy_sum_events(true, "Luau", 0, result));
        assert_eq!(without.last(), with.last());
        assert_eq!(interpreted.phase, native.phase);
    }
}

#[test]
fn null_handle_fails_both_scenarios() {
    let mut sum = compile_run::CompileRun::new(123, 321);
    assert_eq!(
        sum.step(Event::Created { nonnull: false }),
        Action::Fail(Failure::NullHandle)
    );
    let mut error = error_prop::ErrorProp::new();
    assert_eq!(
        error.step(Event::Created { nonnull: false }),
        Action::Fail(Failure::NullHandle)
    );
}

#[test]
fn wrong_version_fails() {
    let mut machine = compile_run::CompileRun::new(123, 321);
    let actions = drive_compile_run(&mut machine, happy_sum_events(false, "Lua 5.1", 0, 444));
    assert_eq!(actions[3], Action::Fail(Failure::WrongVersion));
    assert_eq!(machine.phase, compile_run::Phase::Failed(Failure::WrongVersion));
}

#[test]
fn nonzero_load_status_fails() {
    let mut machine = compile_run::CompileRun::new(123, 321);
    let actions = drive_compile_run(&mut machine, happy_sum_events(false, "Luau", 1, 444));
    assert_eq!(actions[5], Action::Fail(Failure::LoadFailed));
    assert_eq!(machine.phase, compile_run::Phase::Failed(Failure::LoadFailed));
}

#[test]
fn wrong_sum_fails() {
    let mut machine = compile_run::CompileRun::new(123, 321);
    let actions = drive_compile_run(&mut machine, happy_sum_events(false, "Luau", 0, 443));
    assert_eq!(actions[8], Action::Fail(Failure::WrongResult));
    assert_eq!(machine.phase, compile_run::Phase::Failed(Failure::WrongResult));
}

#[test]
fn sum_check_accepts_exactly_the_sum() {
    let mut machine = compile_run::CompileRun::new(-5, 7);
    let actions = drive_compile_run(&mut machine, happy_sum_events(false, "Luau", 0, 2));
    assert_eq!(actions.last(), Some(&Action::Pass));
}

#[test]
fn wrapped_sum_is_rejected() {
    // i32::MAX + 1 is not representable, so no engine reply can pass the
    // check; in particular the wrapped value must not.
    let mut machine = compile_run::CompileRun::new(i32::MAX, 1);
    let actions = drive_compile_run(&mut machine, happy_sum_events(false, "Luau", 0, i32::MIN));
    assert_eq!(actions[8], Action::Fail(Failure::WrongResult));
}

#[test]
fn bytecode_released_exactly_once_on_success() {
    for supported in [false, true] {
        let mut machine = compile_run::CompileRun::new(123, 321);
        let actions = drive_compile_run(&mut machine, happy_sum_events(supported, "Luau", 0, 444));
        let releases = actions
            .iter()
            .filter(|a| matches!(a, Action::ReleaseBytecode))
            .count();
        assert_eq!(releases, 1);
        assert_eq!(machine.phase, compile_run::Phase::Finished);
    }
}

#[test]
fn no_release_requested_on_failed_load() {
    let mut machine = compile_run::CompileRun::new(123, 321);
    let actions = drive_compile_run(&mut machine, happy_sum_events(false, "Luau", 1, 444));
    let releases = actions
        .iter()
        .filter(|a| matches!(a, Action::ReleaseBytecode))
        .count();
    assert_eq!(releases, 0);
}

#[test]
fn test_exceptions() {
    let mut machine = error_prop::ErrorProp::new();
    assert_eq!(
        machine.step(Event::Created { nonnull: true }),
        Action::RegisterErrorClosure
    );
    assert_eq!(machine.step(Event::Done), Action::ProtectedCall);
    assert_eq!(
        machine.step(Event::CallReturned { status: 2 }),
        Action::ReadErrorMessage
    );
    assert_eq!(
        machine.step(Event::TextRead { text: "exception!".to_string() }),
        Action::Pass
    );
    assert_eq!(machine.phase, error_prop::Phase::Finished);
}

#[test]
fn wrong_protected_call_status_fails() {
    let mut machine = error_prop::ErrorProp::new();
    machine.step(Event::Created { nonnull: true });
    machine.step(Event::Done);
    assert_eq!(
        machine.step(Event::CallReturned { status: 0 }),
        Action::Fail(Failure::WrongStatus)
    );
}

#[test]
fn wrong_error_message_fails() {
    let mut machine = error_prop::ErrorProp::new();
    machine.step(Event::Created { nonnull: true });
    machine.step(Event::Done);
    machine.step(Event::CallReturned { status: 2 });
    assert_eq!(
        machine.step(Event::TextRead { text: "oops".to_string() }),
        Action::Fail(Failure::WrongMessage)
    );
}

#[test]
fn repeating_a_scenario_fresh_gives_identical_results() {
    let mut first_run = compile_run::CompileRun::new(123, 321);
    let first = drive_compile_run(&mut first_run, happy_sum_events(false, "Luau", 0, 444));
    let mut second_run = compile_run::CompileRun::new(123, 321);
    let second = drive_compile_run(&mut second_run, happy_sum_events(false, "Luau", 0, 444));
    assert_eq!(first, second);
    assert_eq!(first_run.phase, second_run.phase);

    let mut error_first = error_prop::ErrorProp::new();
    let mut error_second = error_prop::ErrorProp::new();
    for machine in [&mut error_first, &mut error_second] {
        assert_eq!(
            machine.step(Event::Created { nonnull: true }),
            Action::RegisterErrorClosure
        );
        assert_eq!(machine.step(Event::Done), Action::ProtectedCall);
        assert_eq!(
            machine.step(Event::CallReturned { status: 2 }),
            Action::ReadErrorMessage
        );
        assert_eq!(
            machine.step(Event::TextRead { text: "exception!".to_string() }),
            Action::Pass
        );
    }
    assert_eq!(error_first.phase, error_second.phase);
}

#[test]
fn mismatched_observation_fails() {
    let mut machine = compile_run::CompileRun::new(123, 321);
    assert_eq!(machine.step(Event::Done), Action::Fail(Failure::UnexpectedEvent));
    let mut error = error_prop::ErrorProp::new();
    assert_eq!(
        error.step(Event::Loaded { status: 0 }),
        Action::Fail(Failure::UnexpectedEvent)
    );
}

#[test]
fn verdicts_are_sticky() {
    let mut machine = compile_run::CompileRun::new(123, 321);
    drive_compile_run(&mut machine, happy_sum_events(false, "Luau", 0, 444));
    assert_eq!(machine.step(Event::Done), Action::Pass);
    assert_eq!(machine.step(Event::Loaded { status: 0 }), Action::Pass);

    let mut failed = compile_run::CompileRun::new(123, 321);
    failed.step(Event::Created { nonnull: false });
    assert_eq!(failed.step(Event::Done), Action::Fail(Failure::NullHandle));
    assert_eq!(
        failed.step(Event::Created { nonnull: true }),
        Action::Fail(Failure::NullHandle)
    );
}

#[test]
fn engine_sentinels_are_fixed() {
    assert_eq!(engine::STATUS_OK, 0);
    assert_eq!(engine::STATUS_RUNTIME_ERROR, 2);
    assert_eq!(engine::GLOBALS_PSEUDO_INDEX, -102002);
    assert!(engine::GLOBALS_PSEUDO_INDEX < 0);
}

#[test]
fn scenario_texts_are_exact() {
    assert_eq!(engine::version_global(), "_VERSION");
    assert_eq!(engine::expected_version(), "Luau");
    assert_eq!(engine::sum_source(), "local a, b = ... return a + b");
    assert_eq!(engine::chunk_name(), "sum");
    assert_eq!(engine::error_message(), "exception!");
}
