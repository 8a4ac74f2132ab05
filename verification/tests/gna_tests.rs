use nanai_intel_gna_monitor::gna::DemoStep::{
    AllocateMemory, BuildModel, CreateRequest, EnablePerformanceCounter, Enqueue, ReadOutputs,
    ReadStats, RunStress, SetAccelerationMode, SetInputBuffer, SetOutputBuffer, Wait,
};
use nanai_intel_gna_monitor::gna::{
    first_demo_step, next_demo_transition, performance_counter_notice, DemoFailure, DemoStep,
    DemoTransition, TensorDataType, AccelerationMode, demo_acceleration_mode, INPUT_OPERAND_INDEX,
    OUTPUT_OPERAND_INDEX, MODEL_OPERATION_INDEX, library_source, model_layout, model_operands, parse_args, stress_limit, usage_text, CliCommand,
    CliError, DemoOptions, LibrarySource, StressLimit, TensorRegion, DEFAULT_STRESS_ITERATIONS,
    MODEL_MEMORY_BYTES,
};

fn args(list: &[&str]) -> Vec<String> {
    list.iter().map(|s| s.to_string()).collect()
}

fn run_options(list: &[&str]) -> DemoOptions {
    match parse_args(&args(list)) {
        CliCommand::Run(o) => o,
        _ => panic!("expected options for {:?}", list),
    }
}

fn invalid(list: &[&str]) -> CliError {
    match parse_args(&args(list)) {
        CliCommand::Invalid(e) => e,
        _ => panic!("expected an error for {:?}", list),
    }
}

#[test]
fn no_arguments_give_default_options() {
    let o = run_options(&[]);
    assert_eq!(o.dll_path, None);
    assert_eq!(o.env_var, None);
    assert!(!o.stress);
    assert_eq!(o.iterations, None);
    assert_eq!(o.duration, None);
    assert_eq!(o.concurrency, 1);
}

#[test]
fn dll_env_and_bare_path() {
    let o = run_options(&["--dll", "C:/gna/gna.dll", "--env", "GNA_LIB"]);
    assert_eq!(o.dll_path.as_deref(), Some("C:/gna/gna.dll"));
    assert_eq!(o.env_var.as_deref(), Some("GNA_LIB"));
    let o = run_options(&["first.dll", "second.dll"]);
    assert_eq!(o.dll_path.as_deref(), Some("second.dll"));
    // The value of --dll is taken even when it looks like an option.
    let o = run_options(&["--dll", "-weird"]);
    assert_eq!(o.dll_path.as_deref(), Some("-weird"));
}

#[test]
fn stress_takes_the_next_argument() {
    let o = run_options(&["--stress"]);
    assert!(o.stress);
    assert_eq!(o.iterations, Some(DEFAULT_STRESS_ITERATIONS));
    let o = run_options(&["--stress", "50"]);
    assert_eq!(o.iterations, Some(50));
    let o = run_options(&["--stress", "+7"]);
    assert_eq!(o.iterations, Some(7));
    // A non-number after --stress is consumed and the default is used.
    let o = run_options(&["--stress", "--dll", "lib.dll"]);
    assert_eq!(o.iterations, Some(1000));
    assert_eq!(o.dll_path.as_deref(), Some("lib.dll"));
}

#[test]
fn duration_and_concurrency() {
    let o = run_options(&["--duration", "30", "--concurrency", "4"]);
    assert!(o.stress);
    assert_eq!(o.duration, Some(30));
    assert_eq!(o.iterations, None);
    assert_eq!(o.concurrency, 4);
    let o = run_options(&["--concurrency", "0"]);
    assert_eq!(o.concurrency, 1);
    assert!(!o.stress);
}

#[test]
fn refused_command_lines() {
    assert_eq!(invalid(&["--dll"]), CliError::MissingDllPath);
    assert_eq!(invalid(&["--env"]), CliError::MissingEnvVar);
    assert_eq!(invalid(&["--duration"]), CliError::InvalidDuration);
    assert_eq!(invalid(&["--duration", "ten"]), CliError::InvalidDuration);
    assert_eq!(invalid(&["--duration", "18446744073709551616"]), CliError::InvalidDuration);
    assert_eq!(invalid(&["--concurrency", "-1"]), CliError::InvalidConcurrency);
    assert_eq!(invalid(&["--concurrency"]), CliError::InvalidConcurrency);
    assert_eq!(CliError::MissingDllPath.message(), "Error: --dll requires a path argument.");
    assert_eq!(
        CliError::MissingEnvVar.message(),
        "Error: --env requires an environment variable name."
    );
    assert_eq!(CliError::InvalidDuration.message(), "Error: --duration requires integer seconds.");
    assert_eq!(
        CliError::InvalidConcurrency.message(),
        "Error: --concurrency requires a positive integer."
    );
}

#[test]
fn help_and_unknown_options() {
    assert!(matches!(parse_args(&args(&["-h"])), CliCommand::Help));
    assert!(matches!(parse_args(&args(&["x.dll", "--help", "--dll"])), CliCommand::Help));
    match parse_args(&args(&["--verbose"])) {
        CliCommand::UnknownOption(o) => assert_eq!(o, "--verbose"),
        _ => panic!("expected an unknown option"),
    }
    match parse_args(&args(&["-"])) {
        CliCommand::UnknownOption(o) => assert_eq!(o, "-"),
        _ => panic!("expected an unknown option"),
    }
    // An error stops reading before a later --help.
    assert_eq!(invalid(&["--duration", "x", "--help"]), CliError::InvalidDuration);
}

#[test]
fn usage_text_lists_every_option() {
    let expected = "Usage: gna_demo [OPTIONS]\n\
\n\
Options:\n\
\x20 --dll <PATH>               Load DLL directly from a file or directory\n\
\x20 --env <VAR_NAME>           Load DLL from an environment variable\n\
\x20 --stress [ITERATIONS]      Run stress test (default: 1000 iterations)\n\
\x20 --duration <SECS>          Run stress test for a duration\n\
\x20 --concurrency <N>          Stress-test queue depth (default: 1)\n\
\x20 --help, -h                 Show this help message\n\
\n\
Without options, GNA_LIB_PATH, GNA_LIB_DIR, the current directory, and\n\
the system library search path are checked in that order.\n";
    assert_eq!(usage_text("gna_demo"), expected);
}

#[test]
fn library_source_prefers_path_then_env() {
    let o = run_options(&["--env", "GNA_LIB", "--dll", "a.dll"]);
    match library_source(&o) {
        LibrarySource::Path(p) => assert_eq!(p, "a.dll"),
        _ => panic!("expected a path"),
    }
    let o = run_options(&["--env", "GNA_LIB"]);
    match library_source(&o) {
        LibrarySource::EnvVar(v) => assert_eq!(v, "GNA_LIB"),
        _ => panic!("expected an environment variable"),
    }
    let o = run_options(&[]);
    assert!(matches!(library_source(&o), LibrarySource::Default));
}

#[test]
fn stress_limit_prefers_duration() {
    assert_eq!(stress_limit(Some(5), Some(60)), StressLimit::ForDuration { seconds: 60, iterations: Some(5) });
    assert_eq!(stress_limit(None, Some(60)), StressLimit::ForDuration { seconds: 60, iterations: None });
    assert_eq!(stress_limit(Some(5), None), StressLimit::Iterations(5));
    assert_eq!(stress_limit(None, None), StressLimit::Iterations(1000));
}

#[test]
fn model_layout_matches_the_demo_buffers() {
    let l = model_layout();
    assert_eq!(l.inputs, TensorRegion { offset: 0, rows: 16, cols: 1, data_type: TensorDataType::Int16, element_bytes: 2 });
    assert_eq!(l.outputs, TensorRegion { offset: 4096, rows: 16, cols: 1, data_type: TensorDataType::Int32, element_bytes: 4 });
    assert_eq!(l.weights, TensorRegion { offset: 8192, rows: 16, cols: 16, data_type: TensorDataType::Int16, element_bytes: 2 });
    assert!(!l.activation);
    assert_eq!(l.biases, TensorRegion { offset: 12288, rows: 16, cols: 1, data_type: TensorDataType::Int32, element_bytes: 4 });
    let regions = [l.inputs, l.outputs, l.weights, l.biases];
    for (i, a) in regions.iter().enumerate() {
        let a_end = a.offset + a.rows as usize * a.cols as usize * a.element_bytes;
        assert!(a_end <= MODEL_MEMORY_BYTES);
        assert_eq!(a.offset % a.element_bytes, 0);
        for b in regions.iter().skip(i + 1) {
            let b_end = b.offset + b.rows as usize * b.cols as usize * b.element_bytes;
            assert!(a_end <= b.offset || b_end <= a.offset);
        }
    }
}

#[test]
fn model_operands_fill_the_regions() {
    let ops = model_operands();
    assert_eq!(ops.inputs, vec![1i16; 16]);
    assert_eq!(ops.weights, vec![1i16; 256]);
    assert_eq!(ops.biases, vec![0i32; 16]);
    assert_eq!(ops.outputs, vec![0i32; 16]);
}

#[test]
fn demo_outputs_with_the_demo_operands_are_sixteen() {
    let ops = model_operands();
    for row in 0..16 {
        let dot: i32 = (0..16).map(|c| ops.weights[row * 16 + c] as i32 * ops.inputs[c] as i32).sum();
        assert_eq!(dot + ops.biases[row], 16);
    }
}

fn run_all(stress: bool, fail_at: Option<DemoStep>) -> (Vec<DemoStep>, DemoTransition) {
    let mut step = first_demo_step();
    let mut seen = vec![];
    loop {
        seen.push(step);
        let t = next_demo_transition(step, fail_at != Some(step), stress);
        match t {
            DemoTransition::Next(n) | DemoTransition::NoticeThenNext(n) => step = n,
            other => return (seen, other),
        }
    }
}

#[test]
fn single_run_makes_every_inference_call() {
    let (steps, end) = run_all(false, None);
    assert_eq!(
        steps,
        vec![
            AllocateMemory, BuildModel, CreateRequest, SetInputBuffer, SetOutputBuffer,
            SetAccelerationMode, EnablePerformanceCounter, Enqueue, Wait, ReadStats, ReadOutputs
        ]
    );
    assert_eq!(end, DemoTransition::Finish);
}

#[test]
fn stress_run_skips_enqueue_and_wait() {
    let (steps, end) = run_all(true, None);
    assert_eq!(
        steps,
        vec![AllocateMemory, BuildModel, CreateRequest, SetInputBuffer, SetOutputBuffer, SetAccelerationMode, RunStress]
    );
    assert_eq!(end, DemoTransition::Finish);
    assert_eq!(run_all(true, Some(RunStress)).1, DemoTransition::Stop(DemoFailure::StressTest));
}

#[test]
fn failures_stop_or_pass_as_the_demo_does() {
    assert_eq!(run_all(false, Some(BuildModel)).1, DemoTransition::Stop(DemoFailure::BuildModel));
    assert_eq!(run_all(false, Some(Wait)).1, DemoTransition::Stop(DemoFailure::Wait));
    assert_eq!(run_all(false, Some(SetAccelerationMode)).1, DemoTransition::Finish);
    assert_eq!(run_all(false, Some(ReadStats)).1, DemoTransition::Finish);
    assert_eq!(
        next_demo_transition(EnablePerformanceCounter, false, false),
        DemoTransition::NoticeThenNext(Enqueue)
    );
    assert_eq!(DemoFailure::AllocateMemory.message(), "Failed to allocate model memory");
    assert_eq!(DemoFailure::Wait.message(), "Inference failed / timed out");
    assert_eq!(performance_counter_notice(), "Performance counter unavailable");
}

#[test]
fn request_binds_inputs_then_outputs_with_auto_mode() {
    assert_eq!(MODEL_OPERATION_INDEX, 0);
    assert_eq!(INPUT_OPERAND_INDEX, 0);
    assert_eq!(OUTPUT_OPERAND_INDEX, 1);
    assert_eq!(demo_acceleration_mode(), AccelerationMode::Auto);
}
