use ukv::backend::BackendFlagSet;
use ukv::orchestrator::{
    binding_request, compile_command, configure_command, link_directives, preprocess_command,
    BuildProfile,
};
use ukv::pipeline::{Action, Pipeline, Stage, StepReport};
use ukv::DataStoreError;

fn rocksdb_only() -> BackendFlagSet {
    BackendFlagSet::new(false, false, true, false, false)
}

fn ok(output: &str) -> StepReport {
    StepReport { exit_code: 0, output: output.to_string() }
}

fn failed(code: i32, output: &str) -> StepReport {
    StepReport { exit_code: code, output: output.to_string() }
}

fn advanced_to(stage: Stage) -> Pipeline {
    let mut pipeline = Pipeline::new(rocksdb_only(), BuildProfile::Release, 4);
    let reports = ["/src/ukv", "configured", "compiled", "", "", "", "int a;\n", ""];
    for output in reports {
        if pipeline.stage() == stage {
            break;
        }
        pipeline.advance(ok(output)).expect("a successful step is accepted");
    }
    assert_eq!(pipeline.stage(), stage);
    pipeline
}

#[test]
fn a_new_pipeline_starts_by_locating_the_source() {
    let pipeline = Pipeline::new(rocksdb_only(), BuildProfile::Release, 4);
    assert_eq!(pipeline.stage(), Stage::Locate);
    assert_eq!(pipeline.next_action(), Action::Locate);
    assert_eq!(pipeline.source_root(), "");
    assert_eq!(pipeline.failure(), None);
    assert!(!pipeline.is_halted());
    assert_eq!(pipeline.flags(), rocksdb_only());
    assert_eq!(pipeline.profile(), BuildProfile::Release);
    assert_eq!(pipeline.jobs(), 4);
}

#[test]
fn a_clean_run_takes_every_step_in_order() {
    let flags = rocksdb_only();
    let profile = BuildProfile::Release;
    let mut pipeline = Pipeline::new(flags, profile, 8);

    assert_eq!(pipeline.next_action(), Action::Locate);
    assert_eq!(pipeline.advance(ok("/src/ukv")), Ok(()));
    assert_eq!(pipeline.source_root(), "/src/ukv");

    assert_eq!(pipeline.stage(), Stage::Configure);
    assert_eq!(pipeline.next_action(), Action::Run(configure_command(flags, profile, "/src/ukv")));
    assert_eq!(pipeline.advance(ok("-- Configuring done")), Ok(()));

    assert_eq!(pipeline.stage(), Stage::Compile);
    assert_eq!(pipeline.next_action(), Action::Run(compile_command(profile, 8, "/src/ukv")));
    assert_eq!(pipeline.advance(ok("[100%] Built target")), Ok(()));

    assert_eq!(pipeline.stage(), Stage::StageHeaders);
    assert_eq!(
        pipeline.next_action(),
        Action::CopyHeaders {
            from: "/src/ukv/include".to_string(),
            to: "/src/ukv/build_release/build/include".to_string(),
        }
    );
    assert_eq!(pipeline.advance(ok("")), Ok(()));

    assert_eq!(pipeline.stage(), Stage::Announce);
    let mut directives = link_directives(flags, profile, "/src/ukv");
    directives.push("cargo:rerun-if-changed=wrapper.h".to_string());
    assert_eq!(
        directives,
        vec![
            "cargo:rustc-link-search=native=/src/ukv/build_release/build/lib",
            "cargo:rustc-link-lib=static=rocksdb_bundle",
            "cargo:rerun-if-changed=wrapper.h",
        ]
    );
    assert_eq!(pipeline.next_action(), Action::Emit(directives));
    assert_eq!(pipeline.advance(ok("")), Ok(()));

    assert_eq!(pipeline.stage(), Stage::Preprocess);
    assert_eq!(pipeline.next_action(), Action::Run(preprocess_command("/src/ukv")));
    assert_eq!(pipeline.advance(ok("")), Ok(()));

    assert_eq!(pipeline.stage(), Stage::Inspect);
    assert_eq!(pipeline.next_action(), Action::ReadHeader("wrapper.expanded.h".to_string()));
    assert_eq!(pipeline.advance(ok("# 1 \"wrapper.h\"\ntypedef void* ukv_database_t;\n")), Ok(()));

    assert_eq!(pipeline.stage(), Stage::Bind);
    assert_eq!(pipeline.next_action(), Action::GenerateBindings(binding_request("/src/ukv")));
    assert_eq!(pipeline.advance(ok("")), Ok(()));

    assert_eq!(pipeline.stage(), Stage::Done);
    assert_eq!(pipeline.next_action(), Action::Finish);
    assert!(pipeline.is_halted());
    assert_eq!(pipeline.failure(), None);
}

#[test]
fn a_missing_source_root_is_a_build_failure_and_halts_the_pipeline() {
    let mut pipeline = Pipeline::new(rocksdb_only(), BuildProfile::Release, 4);
    let result = pipeline.advance(failed(1, "No such file or directory (os error 2)"));
    let error = DataStoreError::Build("No such file or directory (os error 2)".to_string());
    assert_eq!(result, Err(error.clone()));
    assert_eq!(pipeline.stage(), Stage::Failed);
    assert_eq!(pipeline.failure(), Some(error.clone()));
    assert!(pipeline.is_halted());
    for _ in 0..10 {
        let action = pipeline.next_action();
        assert_eq!(action, Action::Abort);
        assert!(!matches!(action, Action::Run(_) | Action::GenerateBindings(_) | Action::ReadHeader(_)));
        assert_eq!(pipeline.advance(ok("/src/ukv")), Err(error.clone()));
        assert_eq!(pipeline.stage(), Stage::Failed);
    }
    assert_eq!(pipeline.source_root(), "");
}

#[test]
fn a_failing_configure_step_carries_its_output_unchanged() {
    let mut pipeline = advanced_to(Stage::Configure);
    let diagnostics = "CMake Error: The source directory does not appear to contain CMakeLists.txt.\n\n";
    assert_eq!(
        pipeline.advance(failed(1, diagnostics)),
        Err(DataStoreError::Build(diagnostics.to_string()))
    );
    assert_eq!(pipeline.next_action(), Action::Abort);
}

#[test]
fn any_non_zero_exit_code_is_fatal() {
    for code in [1, 2, -1, 127, 255, i32::MAX, i32::MIN] {
        let mut pipeline = advanced_to(Stage::Compile);
        assert_eq!(
            pipeline.advance(failed(code, "make: *** [all] Error")),
            Err(DataStoreError::Build("make: *** [all] Error".to_string()))
        );
        assert_eq!(pipeline.stage(), Stage::Failed);
    }
}

#[test]
fn each_stage_fails_with_its_own_error() {
    let expectations = [
        (Stage::Locate, DataStoreError::Build("x".to_string())),
        (Stage::Configure, DataStoreError::Build("x".to_string())),
        (Stage::Compile, DataStoreError::Build("x".to_string())),
        (Stage::StageHeaders, DataStoreError::Build("x".to_string())),
        (Stage::Announce, DataStoreError::Build("x".to_string())),
        (Stage::Preprocess, DataStoreError::Preprocess("x".to_string())),
        (Stage::Inspect, DataStoreError::Preprocess("x".to_string())),
        (Stage::Bind, DataStoreError::BindingGeneration("x".to_string())),
    ];
    for (stage, error) in expectations {
        let mut pipeline = advanced_to(stage);
        assert_eq!(pipeline.advance(failed(3, "x")), Err(error.clone()));
        assert_eq!(pipeline.failure(), Some(error));
        assert_eq!(pipeline.next_action(), Action::Abort);
    }
}

#[test]
fn a_conditional_directive_left_in_the_header_fails_expansion() {
    let mut pipeline = advanced_to(Stage::Inspect);
    let header = "typedef int a;\n#ifdef __cplusplus\n}\n#endif\n";
    let error = DataStoreError::Preprocess("conditional directive left at byte 15".to_string());
    assert_eq!(pipeline.advance(ok(header)), Err(error.clone()));
    assert_eq!(pipeline.stage(), Stage::Failed);
    assert_eq!(pipeline.failure(), Some(error));
    assert_eq!(pipeline.next_action(), Action::Abort);
}

#[test]
fn a_finished_pipeline_ignores_further_reports() {
    let mut pipeline = advanced_to(Stage::Done);
    assert_eq!(pipeline.advance(failed(1, "late")), Ok(()));
    assert_eq!(pipeline.advance(ok("")), Ok(()));
    assert_eq!(pipeline.stage(), Stage::Done);
    assert_eq!(pipeline.next_action(), Action::Finish);
    assert_eq!(pipeline.failure(), None);
}

#[test]
fn the_host_pipeline_compiles_with_one_job_per_core() {
    let pipeline = Pipeline::for_host(rocksdb_only(), BuildProfile::Debug);
    let jobs = pipeline.jobs();
    assert!(jobs >= 1);
    assert_eq!(pipeline.stage(), Stage::Locate);
    assert_eq!(pipeline.flags(), rocksdb_only());
    assert_eq!(pipeline.profile(), BuildProfile::Debug);
    let mut pipeline = pipeline;
    pipeline.advance(ok("/r")).unwrap();
    pipeline.advance(ok("")).unwrap();
    match pipeline.next_action() {
        Action::Run(command) => {
            assert_eq!(command.program, "make");
            assert_eq!(command.args[0], format!("-j{jobs}"));
        }
        other => panic!("expected the compile step, got {other:?}"),
    }
}

#[test]
fn the_selection_reaches_the_configure_step_unchanged() {
    for mask in 0..32u32 {
        let flags = BackendFlagSet::new(
            mask & 1 != 0,
            mask & 2 != 0,
            mask & 4 != 0,
            mask & 8 != 0,
            mask & 16 != 0,
        );
        let mut pipeline = Pipeline::new(flags, BuildProfile::Release, 2);
        pipeline.advance(ok("/root")).unwrap();
        assert_eq!(
            pipeline.next_action(),
            Action::Run(configure_command(flags, BuildProfile::Release, "/root"))
        );
    }
}

#[test]
fn the_first_failing_report_decides_every_run() {
    let stages = [
        Stage::Locate,
        Stage::Configure,
        Stage::Compile,
        Stage::StageHeaders,
        Stage::Announce,
        Stage::Preprocess,
        Stage::Inspect,
        Stage::Bind,
        Stage::Done,
    ];
    // Every sequence of up to ten reports, each either succeeding or failing.
    for length in 0..=10usize {
        for code in 0..(1u32 << length) {
            let mut pipeline = Pipeline::new(rocksdb_only(), BuildProfile::Debug, 1);
            for i in 0..length {
                let fails = code & (1 << i) != 0;
                let _ = pipeline.advance(if fails { failed(1, "x") } else { ok("") });
            }
            let first: Option<usize> = (0..length.min(8)).find(|i| code & (1 << i) != 0);
            match first {
                Some(k) => {
                    assert_eq!(pipeline.stage(), Stage::Failed);
                    let error = pipeline.failure().expect("a failed pipeline holds its error");
                    assert!(error.is_build_time());
                    assert_eq!(error.detail(), "x");
                    let expected = match stages[k] {
                        Stage::Preprocess | Stage::Inspect => {
                            DataStoreError::Preprocess("x".to_string())
                        }
                        Stage::Bind => DataStoreError::BindingGeneration("x".to_string()),
                        _ => DataStoreError::Build("x".to_string()),
                    };
                    assert_eq!(error, expected);
                    assert_eq!(pipeline.next_action(), Action::Abort);
                }
                None => {
                    assert_eq!(pipeline.stage(), stages[length.min(8)]);
                    assert_eq!(pipeline.failure(), None);
                }
            }
        }
    }
}

#[test]
fn bindings_are_requested_only_after_the_header_was_inspected() {
    let mut pipeline = Pipeline::new(rocksdb_only(), BuildProfile::Release, 1);
    let mut seen: Vec<Stage> = Vec::new();
    while !pipeline.is_halted() {
        seen.push(pipeline.stage());
        if let Action::GenerateBindings(_) = pipeline.next_action() {
            assert_eq!(seen[seen.len() - 2], Stage::Inspect);
            assert!(seen.contains(&Stage::Preprocess));
            assert!(seen.contains(&Stage::Compile));
        }
        pipeline.advance(ok("")).unwrap();
    }
    assert_eq!(seen.len(), 8);
    assert_eq!(pipeline.stage(), Stage::Done);
}
