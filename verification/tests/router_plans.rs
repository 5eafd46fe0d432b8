use carrier::BuildInput;
use carrier::RunPlan;
use carrier::SourceFile;
use carrier::XnError;
use carrier::compiler_args;
use carrier::exit_outcome;
use carrier::merge_files;
use carrier::parse_config;
use carrier::plan_init;
use carrier::plan_run;
use carrier::render_config;
use carrier::resolve_build_input;
use carrier::run_needs_gather;
use carrier::vm_args;

#[test]
fn init_scaffolds_demo_with_documented_defaults() {
    let plan = plan_init(&String::from("demo"));
    assert_eq!(plan.project_dir, "demo");
    assert_eq!(plan.src_dir, "demo/src");
    assert_eq!(plan.sample_path, "demo/src/main.xn");
    assert_eq!(plan.config_path, "demo/xn.toml");
    assert_eq!(plan.config.compiler_path, "xcc");
    assert_eq!(plan.config.interpreter_path, "xin");
    assert_eq!(plan.config.vm_path, "xrun");
    assert_eq!(plan.config.project_name, "demo");
    assert!(plan.sample_source.contains("fn main()"));
    let persisted = render_config(&plan.config);
    let reloaded = parse_config(&persisted).unwrap();
    assert_eq!(reloaded.project_name, "demo");
}

#[test]
fn an_explicit_source_bypasses_the_collector() {
    let r = resolve_build_input(Some(String::from("lib/extra.xn")));
    match r {
        BuildInput::Explicit(p) => assert_eq!(p, "lib/extra.xn"),
        BuildInput::FromSources => panic!("an explicit source must be used directly"),
    }
}

#[test]
fn without_a_source_the_collector_route_is_taken() {
    assert!(matches!(resolve_build_input(None), BuildInput::FromSources));
}

#[test]
fn compiler_receives_input_then_output_flag() {
    let args = compiler_args(&String::from("out/output.xn"), &String::from("out/output.wasm"));
    assert_eq!(
        args,
        vec![
            String::from("out/output.xn"),
            String::from("-o"),
            String::from("out/output.wasm"),
        ]
    );
}

#[test]
fn build_over_two_gathered_files_feeds_the_merged_path_to_the_compiler() {
    let files = vec![
        SourceFile { path: String::from("src/a.xn"), contents: String::from("a") },
        SourceFile { path: String::from("src/b.xn"), contents: String::from("b") },
    ];
    let merged = merge_files(&files).unwrap();
    assert_eq!(
        merged,
        "// Start of file: src/a.xn\na\n// Start of file: src/b.xn\nb\n"
    );
    let args = compiler_args(&String::from("out/output.xn"), &String::from("out/output.wasm"));
    assert_eq!(args[0], "out/output.xn");
}

#[test]
fn running_with_nothing_resolved_spawns_nothing() {
    assert!(matches!(plan_run(Vec::new(), None), RunPlan::NothingToRun));
    assert!(matches!(
        plan_run(Vec::new(), Some(String::from("main.xn"))),
        RunPlan::NothingToRun
    ));
}

#[test]
fn gathering_happens_exactly_when_no_files_were_named() {
    assert!(run_needs_gather(&Vec::new()));
    assert!(!run_needs_gather(&vec![String::from("a.xn")]));
}

#[test]
fn interpreter_receives_files_then_entry_flag() {
    let plan = plan_run(
        vec![String::from("a.xn"), String::from("b.xn")],
        Some(String::from("a.xn")),
    );
    match plan {
        RunPlan::Invoke(args) => assert_eq!(
            args,
            vec![
                String::from("a.xn"),
                String::from("b.xn"),
                String::from("-e"),
                String::from("a.xn"),
            ]
        ),
        RunPlan::NothingToRun => panic!("two files must be run"),
    }
}

#[test]
fn interpreter_receives_files_alone_without_an_entry() {
    let plan = plan_run(vec![String::from("a.xn")], None);
    match plan {
        RunPlan::Invoke(args) => assert_eq!(args, vec![String::from("a.xn")]),
        RunPlan::NothingToRun => panic!("one file must be run"),
    }
}

#[test]
fn vm_receives_the_module_then_passthrough_args() {
    let args = vm_args(
        &String::from("out/output.wasm"),
        &vec![String::from("--trace"), String::from("7")],
    );
    assert_eq!(
        args,
        vec![
            String::from("out/output.wasm"),
            String::from("--trace"),
            String::from("7"),
        ]
    );
}

#[test]
fn exit_statuses_are_classified_distinctly() {
    assert_eq!(exit_outcome(Some(0)), Ok(()));
    assert_eq!(exit_outcome(Some(3)), Err(XnError::NonZeroExit(3)));
    assert_eq!(exit_outcome(None), Err(XnError::AbnormalTermination));
}

#[test]
fn every_failure_kind_has_a_description() {
    assert!(!XnError::ConfigNotFound.describe().is_empty());
    assert!(!XnError::ConfigParseError.describe().is_empty());
    assert!(!XnError::ConfigWriteError.describe().is_empty());
    assert!(!XnError::EmptyInput.describe().is_empty());
    assert!(!XnError::SpawnError.describe().is_empty());
    assert!(!XnError::NonZeroExit(1).describe().is_empty());
    assert!(!XnError::AbnormalTermination.describe().is_empty());
    assert!(!XnError::IoError.describe().is_empty());
}
