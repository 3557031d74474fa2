use ukv::backend::{BackendFlagSet, BuildDefinition};
use ukv::text::join;
use ukv::orchestrator::{
    binding_request, compile_command, configure_command, configure_definition_list,
    engine_include_path, include_path, library_path, link_directives, parent_candidate,
    preprocess_command, staged_include_path, BindingRequest, BuildProfile, Command,
    NativeBuildArtifact,
};

fn rocksdb_only() -> BackendFlagSet {
    BackendFlagSet::new(false, false, true, false, false)
}

fn strings(items: &[&str]) -> Vec<String> {
    items.iter().map(|s| s.to_string()).collect()
}

#[test]
fn the_profile_selects_build_type_and_directory() {
    assert_eq!(BuildProfile::Release.build_type(), "Release");
    assert_eq!(BuildProfile::Debug.build_type(), "Debug");
    assert_eq!(BuildProfile::Release.build_dir(), "build_release");
    assert_eq!(BuildProfile::Debug.build_dir(), "build_debug");
}

#[test]
fn configure_for_rocksdb_alone() {
    let command = configure_command(rocksdb_only(), BuildProfile::Release, "/src/ukv");
    let expected = Command {
        program: "cmake".to_string(),
        args: strings(&[
            "-DCMAKE_C_COMPILER=gcc",
            "-DCMAKE_CXX_COMPILER=g++",
            "-DCMAKE_BUILD_TYPE=Release",
            "-DUKV_BUILD_TESTS=0",
            "-DUKV_BUILD_BENCHMARKS=0",
            "-DUKV_BUILD_BUNDLES=1",
            "-DUKV_BUILD_ENGINE_UMEM=0",
            "-DUKV_BUILD_ENGINE_LEVELDB=0",
            "-DUKV_BUILD_ENGINE_ROCKSDB=1",
            "-DUKV_BUILD_API_FLIGHT_CLIENT=0",
            "-DUKV_BUILD_API_FLIGHT_SERVER=0",
            "-B ./build_release",
        ]),
        dir: Some("/src/ukv".to_string()),
    };
    assert_eq!(command, expected);
}

#[test]
fn configure_for_everything_in_debug() {
    let flags = BackendFlagSet::new(true, true, true, true, true);
    let command = configure_command(flags, BuildProfile::Debug, "/w");
    assert_eq!(command.program, "cmake");
    assert_eq!(command.dir, Some("/w".to_string()));
    assert_eq!(
        command.args,
        strings(&[
            "-DCMAKE_C_COMPILER=gcc",
            "-DCMAKE_CXX_COMPILER=g++",
            "-DCMAKE_BUILD_TYPE=Debug",
            "-DUKV_BUILD_TESTS=0",
            "-DUKV_BUILD_BENCHMARKS=0",
            "-DUKV_BUILD_BUNDLES=1",
            "-DUKV_BUILD_ENGINE_UMEM=1",
            "-DUKV_BUILD_ENGINE_LEVELDB=1",
            "-DUKV_BUILD_ENGINE_ROCKSDB=1",
            "-DUKV_BUILD_API_FLIGHT_CLIENT=1",
            "-DUKV_BUILD_API_FLIGHT_SERVER=1",
            "-B ./build_debug",
        ])
    );
}

#[test]
fn tests_and_benchmarks_are_never_built() {
    for mask in 0..32u32 {
        let flags = BackendFlagSet::new(
            mask & 1 != 0,
            mask & 2 != 0,
            mask & 4 != 0,
            mask & 8 != 0,
            mask & 16 != 0,
        );
        for profile in [BuildProfile::Debug, BuildProfile::Release] {
            let defs = configure_definition_list(flags, profile);
            assert_eq!(defs.len(), 11);
            assert!(defs.contains(&BuildDefinition::new("UKV_BUILD_TESTS", "0")));
            assert!(defs.contains(&BuildDefinition::new("UKV_BUILD_BENCHMARKS", "0")));
            assert!(!defs.contains(&BuildDefinition::new("UKV_BUILD_TESTS", "1")));
            assert!(!defs.contains(&BuildDefinition::new("UKV_BUILD_BENCHMARKS", "1")));
            assert_eq!(&defs[6..], &flags.build_definitions()[..]);
        }
    }
}

#[test]
fn compile_uses_one_job_per_core() {
    let command = compile_command(BuildProfile::Release, 16, "/src/ukv");
    let expected = Command {
        program: "make".to_string(),
        args: strings(&["-j16", "-C", "./build_release"]),
        dir: Some("/src/ukv".to_string()),
    };
    assert_eq!(command, expected);
    assert_eq!(compile_command(BuildProfile::Debug, 1, "/x").args, strings(&["-j1", "-C", "./build_debug"]));
    assert_eq!(compile_command(BuildProfile::Debug, 128, "/x").args[0], "-j128");
}

#[test]
fn preprocess_searches_the_build_include_directories() {
    let command = preprocess_command("/src/ukv");
    let expected = Command {
        program: "gcc".to_string(),
        args: strings(&[
            "-E",
            "-I",
            "/src/ukv/include",
            "-I",
            "/src/ukv/include/ukv",
            "wrapper.h",
            "-o",
            "wrapper.expanded.h",
        ]),
        dir: None,
    };
    assert_eq!(command, expected);
}

#[test]
fn paths_below_the_source_root() {
    assert_eq!(include_path("/src/ukv"), "/src/ukv/include");
    assert_eq!(engine_include_path("/src/ukv"), "/src/ukv/include/ukv");
    assert_eq!(library_path(BuildProfile::Release, "/src/ukv"), "/src/ukv/build_release/build/lib");
    assert_eq!(library_path(BuildProfile::Debug, "/src/ukv"), "/src/ukv/build_debug/build/lib");
    assert_eq!(
        staged_include_path(BuildProfile::Release, "/src/ukv"),
        "/src/ukv/build_release/build/include"
    );
    assert_eq!(parent_candidate("/src/ukv/rust"), "/src/ukv/rust/../");
    assert_eq!(parent_candidate(""), "/../");
    assert_eq!(join("ab", "cd"), "abcd");
    assert_eq!(join("", ""), "");
}

#[test]
fn link_directives_for_rocksdb_alone() {
    let directives = link_directives(rocksdb_only(), BuildProfile::Release, "/src/ukv");
    assert_eq!(
        directives,
        strings(&[
            "cargo:rustc-link-search=native=/src/ukv/build_release/build/lib",
            "cargo:rustc-link-lib=static=rocksdb_bundle",
        ])
    );
}

#[test]
fn link_directives_for_all_engines_keep_their_order() {
    let flags = BackendFlagSet::new(true, true, true, false, false);
    let directives = link_directives(flags, BuildProfile::Release, "/r");
    assert_eq!(
        directives,
        strings(&[
            "cargo:rustc-link-search=native=/r/build_release/build/lib",
            "cargo:rustc-link-lib=static=umem_bundle",
            "cargo:rustc-link-lib=static=rocksdb_bundle",
            "cargo:rustc-link-lib=static=leveldb_bundle",
        ])
    );
}

#[test]
fn a_disabled_engine_never_appears_in_the_link_directives() {
    let names = ["umem_bundle", "leveldb_bundle", "rocksdb_bundle"];
    for mask in 0..32u32 {
        let enabled = [mask & 1 != 0, mask & 2 != 0, mask & 4 != 0];
        let flags =
            BackendFlagSet::new(enabled[0], enabled[1], enabled[2], mask & 8 != 0, mask & 16 != 0);
        let directives = link_directives(flags, BuildProfile::Debug, "/r");
        assert_eq!(directives[0], "cargo:rustc-link-search=native=/r/build_debug/build/lib");
        for (name, on) in names.iter().zip(enabled) {
            let directive = format!("cargo:rustc-link-lib=static={name}");
            assert_eq!(directives.contains(&directive), on);
        }
        let count: usize = enabled.iter().filter(|on| **on).count();
        assert_eq!(directives.len(), 1 + count);
    }
}

#[test]
fn the_artifact_holds_the_search_path_and_the_libraries() {
    let flags = BackendFlagSet::new(true, false, true, true, false);
    let artifact = NativeBuildArtifact::of(flags, BuildProfile::Release, "/src/ukv");
    assert_eq!(artifact.search_path(), "/src/ukv/build_release/build/lib");
    assert_eq!(artifact.libraries(), &strings(&["umem_bundle", "rocksdb_bundle"]));
    assert_eq!(artifact.link_directives(), link_directives(flags, BuildProfile::Release, "/src/ukv"));
    assert_eq!(artifact, NativeBuildArtifact::of(flags, BuildProfile::Release, "/src/ukv"));
}

#[test]
fn the_binding_request_maps_the_size_type_to_the_native_word() {
    let request = binding_request("/src/ukv");
    let expected = BindingRequest {
        header: "wrapper.expanded.h".to_string(),
        output: "bindings.rs".to_string(),
        size_t_is_usize: true,
        enable_cxx_namespaces: true,
        detect_include_paths: true,
        respect_cxx_access_specs: true,
        clang_args: strings(&["-I", "/src/ukv/include", "-I", "/src/ukv/include/ukv", "--verbose"]),
    };
    assert_eq!(request, expected);
}

#[test]
fn planning_twice_gives_the_same_values() {
    let flags = BackendFlagSet::new(true, false, false, false, true);
    assert_eq!(
        configure_command(flags, BuildProfile::Release, "/a"),
        configure_command(flags, BuildProfile::Release, "/a")
    );
    assert_eq!(binding_request("/a"), binding_request("/a"));
    assert_eq!(preprocess_command("/a"), preprocess_command("/a"));
}
