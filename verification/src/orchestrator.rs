//! Planning of the native build: the commands that configure, compile and
//! preprocess the engine, the link directives for the libraries that were
//! built, and the request handed to the binding generator.
//!
//! Nothing here runs a tool. Each function computes, from the backend
//! selection, the build profile and the engine's source root, the exact
//! values the caller passes to the tool.

use vstd::prelude::*;
use crate::backend::{
    definitions, link_set_is_exact, switch, Backend, BackendFlagSet, BuildDefinition,
    DefinitionView,
};
use crate::text::{append_decimal, decimal, join, texts};

verus! {

/// The host build profile, which selects the native optimization level.
#[derive(Clone, Copy, Debug, PartialEq, Eq, Structural)]
pub enum BuildProfile {
    /// Unoptimized, with debug information.
    Debug,
    /// Optimized.
    Release,
}

/// A tool invocation: what to run, with which arguments, and where.
#[derive(Debug, PartialEq, Eq)]
pub struct Command {
    pub program: String,
    pub args: Vec<String>,
    /// The directory to run in; `None` for the caller's own working directory.
    pub dir: Option<String>,
}

/// Mathematical model of a [`Command`].
pub struct CommandView {
    pub program: Seq<char>,
    pub args: Seq<Seq<char>>,
    pub dir: Option<Seq<char>>,
}

impl View for Command {
    type V = CommandView;

    open spec fn view(&self) -> CommandView {
        CommandView {
            program: self.program@,
            args: texts(self.args@),
            dir: match self.dir {
                Some(d) => Some(d@),
                None => None,
            },
        }
    }
}

/// What the binding generator is asked to do.
#[derive(Debug, PartialEq, Eq)]
pub struct BindingRequest {
    /// The expanded header to parse.
    pub header: String,
    /// The file, inside the build's output directory, that receives the bindings.
    pub output: String,
    /// Map the generic size type to the platform's word-sized unsigned integer.
    pub size_t_is_usize: bool,
    /// Mirror native namespaces as modules.
    pub enable_cxx_namespaces: bool,
    /// Let the generator find the system include directories.
    pub detect_include_paths: bool,
    /// Keep the access specifiers of native members.
    pub respect_cxx_access_specs: bool,
    /// Extra arguments for the native front end.
    pub clang_args: Vec<String>,
}

/// Mathematical model of a [`BindingRequest`].
pub struct BindingRequestView {
    pub header: Seq<char>,
    pub output: Seq<char>,
    pub size_t_is_usize: bool,
    pub enable_cxx_namespaces: bool,
    pub detect_include_paths: bool,
    pub respect_cxx_access_specs: bool,
    pub clang_args: Seq<Seq<char>>,
}

impl View for BindingRequest {
    type V = BindingRequestView;

    open spec fn view(&self) -> BindingRequestView {
        BindingRequestView {
            header: self.header@,
            output: self.output@,
            size_t_is_usize: self.size_t_is_usize,
            enable_cxx_namespaces: self.enable_cxx_namespaces,
            detect_include_paths: self.detect_include_paths,
            respect_cxx_access_specs: self.respect_cxx_access_specs,
            clang_args: texts(self.clang_args@),
        }
    }
}

/// The value of the native build-type definition for a profile.
pub open spec fn build_type(profile: BuildProfile) -> Seq<char> {
    match profile {
        BuildProfile::Debug => "Debug"@,
        BuildProfile::Release => "Release"@,
    }
}

/// The directory, below the source root, that the native build writes to.
pub open spec fn build_dir(profile: BuildProfile) -> Seq<char> {
    match profile {
        BuildProfile::Debug => "build_debug"@,
        BuildProfile::Release => "build_release"@,
    }
}

/// The definitions that do not depend on the backend selection: the
/// toolchain, the optimization level, and the targets that are never built
/// (tests, benchmarks) or always built (bundles).
pub open spec fn fixed_definitions(profile: BuildProfile) -> Seq<DefinitionView> {
    seq![
        DefinitionView { key: "CMAKE_C_COMPILER"@, value: "gcc"@ },
        DefinitionView { key: "CMAKE_CXX_COMPILER"@, value: "g++"@ },
        DefinitionView { key: "CMAKE_BUILD_TYPE"@, value: build_type(profile) },
        DefinitionView { key: "UKV_BUILD_TESTS"@, value: "0"@ },
        DefinitionView { key: "UKV_BUILD_BENCHMARKS"@, value: "0"@ },
        DefinitionView { key: "UKV_BUILD_BUNDLES"@, value: "1"@ },
    ]
}

/// Every definition handed to the configure step, in order.
pub open spec fn configure_definitions(flags: BackendFlagSet, profile: BuildProfile) -> Seq<
    DefinitionView,
> {
    fixed_definitions(profile) + flags.definition_list()
}

/// The configure step's arguments: one per definition, then the build directory.
pub open spec fn configure_arguments(flags: BackendFlagSet, profile: BuildProfile) -> Seq<
    Seq<char>,
> {
    configure_definitions(flags, profile).map_values(|d: DefinitionView| d.argument()).push(
        "-B ./"@ + build_dir(profile),
    )
}

/// The configure step.
pub open spec fn configure_model(
    flags: BackendFlagSet,
    profile: BuildProfile,
    root: Seq<char>,
) -> CommandView {
    CommandView {
        program: "cmake"@,
        args: configure_arguments(flags, profile),
        dir: Some(root),
    }
}

/// The compile step, spread over `jobs` parallel jobs.
pub open spec fn compile_model(profile: BuildProfile, jobs: nat, root: Seq<char>) -> CommandView {
    CommandView {
        program: "make"@,
        args: seq!["-j"@ + decimal(jobs), "-C"@, "./"@ + build_dir(profile)],
        dir: Some(root),
    }
}

/// The engine's public include directory.
pub open spec fn include_dir(root: Seq<char>) -> Seq<char> {
    root + "/include"@
}

/// The include directory of the engine's own headers.
pub open spec fn engine_include_dir(root: Seq<char>) -> Seq<char> {
    root + "/include/ukv"@
}

/// The directory the compiled libraries end up in.
pub open spec fn library_dir(profile: BuildProfile, root: Seq<char>) -> Seq<char> {
    root + "/"@ + build_dir(profile) + "/build/lib"@
}

/// Where the copy of the public headers is placed, next to the libraries.
pub open spec fn staged_include_dir(profile: BuildProfile, root: Seq<char>) -> Seq<char> {
    root + "/"@ + build_dir(profile) + "/build/include"@
}

/// The header expansion step. It searches the same include directories the
/// native build used.
pub open spec fn preprocess_model(root: Seq<char>) -> CommandView {
    CommandView {
        program: "gcc"@,
        args: seq![
            "-E"@,
            "-I"@,
            include_dir(root),
            "-I"@,
            engine_include_dir(root),
            "wrapper.h"@,
            "-o"@,
            "wrapper.expanded.h"@,
        ],
        dir: None,
    }
}

/// The directive that names the library search path.
pub open spec fn search_directive(path: Seq<char>) -> Seq<char> {
    "cargo:rustc-link-search=native="@ + path
}

/// The directive that links one library.
pub open spec fn library_directive(library: Seq<char>) -> Seq<char> {
    "cargo:rustc-link-lib=static="@ + library
}

/// Whether `directive` links the library of a storage engine that is switched on.
pub open spec fn links_enabled_engine(flags: BackendFlagSet, directive: Seq<char>) -> bool {
    ||| flags.umem && directive == library_directive(Backend::Umem.library())
    ||| flags.leveldb && directive == library_directive(Backend::Leveldb.library())
    ||| flags.rocksdb && directive == library_directive(Backend::Rocksdb.library())
}

/// Mathematical model of a [`NativeBuildArtifact`].
pub struct ArtifactView {
    pub search_path: Seq<char>,
    pub libraries: Seq<Seq<char>>,
}

impl ArtifactView {
    /// The link directives for this artifact: the search path, then one
    /// directive per library.
    pub open spec fn directives(self) -> Seq<Seq<char>> {
        seq![search_directive(self.search_path)] + self.libraries.map_values(
            |l: Seq<char>| library_directive(l),
        )
    }
}

/// What a build of `flags` under `profile` below `root` produces.
pub open spec fn artifact_model(
    flags: BackendFlagSet,
    profile: BuildProfile,
    root: Seq<char>,
) -> ArtifactView {
    ArtifactView { search_path: library_dir(profile, root), libraries: flags.libraries() }
}

/// The link directives of a build: the search path, then one directive per
/// library of an enabled storage engine.
pub open spec fn link_directive_list(
    flags: BackendFlagSet,
    profile: BuildProfile,
    root: Seq<char>,
) -> Seq<Seq<char>> {
    artifact_model(flags, profile, root).directives()
}

/// The request for the binding generator.
pub open spec fn binding_model(root: Seq<char>) -> BindingRequestView {
    BindingRequestView {
        header: "wrapper.expanded.h"@,
        output: "bindings.rs"@,
        size_t_is_usize: true,
        enable_cxx_namespaces: true,
        detect_include_paths: true,
        respect_cxx_access_specs: true,
        clang_args: seq![
            "-I"@,
            include_dir(root),
            "-I"@,
            engine_include_dir(root),
            "--verbose"@,
        ],
    }
}

/// Whether `defs` defines `key`, and defines it as `value` wherever it does.
pub open spec fn defines(defs: Seq<DefinitionView>, key: Seq<char>, value: Seq<char>) -> bool {
    &&& exists|i: int| 0 <= i < defs.len() && (#[trigger] defs[i]).key == key
    &&& forall|i: int| 0 <= i < defs.len() && (#[trigger] defs[i]).key == key ==> defs[i].value == value
}

/// The configure step is told the truth about the selection. Every backend
/// is defined, as `1` if it is switched on and as `0` if it is not, and
/// never as both; tests and benchmarks are always defined as `0`; bundles
/// are always defined as `1`; and the build type is that of the profile.
pub proof fn definitions_mirror_selection(flags: BackendFlagSet, profile: BuildProfile)
    ensures
        switch(true) != switch(false),
        forall|b: Backend|
            defines(
                configure_definitions(flags, profile),
                #[trigger] b.key(),
                switch(flags.enabled(b)),
            ),
        defines(configure_definitions(flags, profile), "UKV_BUILD_TESTS"@, "0"@),
        defines(configure_definitions(flags, profile), "UKV_BUILD_BENCHMARKS"@, "0"@),
        defines(configure_definitions(flags, profile), "UKV_BUILD_BUNDLES"@, "1"@),
        defines(configure_definitions(flags, profile), "CMAKE_BUILD_TYPE"@, build_type(profile)),
{
    reveal_strlit("0");
    reveal_strlit("1");
    reveal_strlit("CMAKE_C_COMPILER");
    reveal_strlit("CMAKE_CXX_COMPILER");
    reveal_strlit("CMAKE_BUILD_TYPE");
    reveal_strlit("UKV_BUILD_TESTS");
    reveal_strlit("UKV_BUILD_BENCHMARKS");
    reveal_strlit("UKV_BUILD_BUNDLES");
    reveal_strlit("UKV_BUILD_ENGINE_UMEM");
    reveal_strlit("UKV_BUILD_ENGINE_LEVELDB");
    reveal_strlit("UKV_BUILD_ENGINE_ROCKSDB");
    reveal_strlit("UKV_BUILD_API_FLIGHT_CLIENT");
    reveal_strlit("UKV_BUILD_API_FLIGHT_SERVER");
    let defs = configure_definitions(flags, profile);
    assert(switch(true)[0] != switch(false)[0]);
    assert(defs.len() == 11);
    assert(defs[2].key == "CMAKE_BUILD_TYPE"@ && defs[3].key == "UKV_BUILD_TESTS"@ && defs[4].key
        == "UKV_BUILD_BENCHMARKS"@ && defs[5].key == "UKV_BUILD_BUNDLES"@);
    assert(defs[6] == flags.definition(Backend::Umem));
    assert(defs[7] == flags.definition(Backend::Leveldb));
    assert(defs[8] == flags.definition(Backend::Rocksdb));
    assert(defs[9] == flags.definition(Backend::FlightClient));
    assert(defs[10] == flags.definition(Backend::FlightServer));
    // Keys of equal length differ in one of these places.
    assert("CMAKE_C_COMPILER"@[6] != "CMAKE_BUILD_TYPE"@[6]);
    assert("UKV_BUILD_ENGINE_LEVELDB"@[17] != "UKV_BUILD_ENGINE_ROCKSDB"@[17]);
    assert("UKV_BUILD_API_FLIGHT_CLIENT"@[21] != "UKV_BUILD_API_FLIGHT_SERVER"@[21]);
    assert forall|i: int, j: int| 0 <= i < 11 && 0 <= j < 11 && i != j implies defs[i].key
        != defs[j].key by {
        assert(defs[i].key.len() != defs[j].key.len() || defs[i].key[6] != defs[j].key[6]
            || defs[i].key[17] != defs[j].key[17] || defs[i].key[21] != defs[j].key[21]);
    }
    assert forall|b: Backend|
        defines(defs, #[trigger] b.key(), switch(flags.enabled(b))) by {
        let at: int = match b {
            Backend::Umem => 6,
            Backend::Leveldb => 7,
            Backend::Rocksdb => 8,
            Backend::FlightClient => 9,
            Backend::FlightServer => 10,
        };
        assert(defs[at] == flags.definition(b));
    }
}

/// The binding generator searches the include directories that header
/// expansion searched, in the same order, and parses the file that header
/// expansion wrote.
pub proof fn generator_reads_what_was_expanded(root: Seq<char>)
    ensures
        binding_model(root).clang_args.subrange(0, 4) == preprocess_model(root).args.subrange(
            1,
            5,
        ),
        binding_model(root).header == preprocess_model(root).args[7],
        binding_model(root).size_t_is_usize,
{
    assert(binding_model(root).clang_args.subrange(0, 4) =~= preprocess_model(root).args.subrange(
        1,
        5,
    ));
}

/// A path is absolute when it starts at the root of the file system.
pub open spec fn is_absolute(path: Seq<char>) -> bool {
    path.len() > 0 && path[0] == '/'
}

/// With an absolute source root, the library search path and the place of
/// the staged headers are absolute too.
pub proof fn build_paths_are_absolute(profile: BuildProfile, root: Seq<char>)
    requires
        is_absolute(root),
    ensures
        is_absolute(library_dir(profile, root)),
        is_absolute(staged_include_dir(profile, root)),
        is_absolute(include_dir(root)),
        is_absolute(engine_include_dir(root)),
{
}

/// Two libraries with the same link directive are the same library.
pub proof fn library_directive_is_injective(a: Seq<char>, b: Seq<char>)
    ensures
        library_directive(a) == library_directive(b) <==> a == b,
{
    let prefix = "cargo:rustc-link-lib=static="@;
    if library_directive(a) == library_directive(b) {
        let n = prefix.len() as int;
        assert(library_directive(a).subrange(n, n + a.len()) =~= a);
        assert(library_directive(b).subrange(n, n + b.len()) =~= b);
        assert(library_directive(a).len() == n + a.len());
        assert(library_directive(b).len() == n + b.len());
    }
}

/// The search-path directive is not a library directive.
pub proof fn search_directive_links_nothing(path: Seq<char>, library: Seq<char>)
    ensures
        search_directive(path) != library_directive(library),
{
    reveal_strlit("cargo:rustc-link-search=native=");
    reveal_strlit("cargo:rustc-link-lib=static=");
    assert(search_directive(path)[17] == 's');
    assert(library_directive(library)[17] == 'l');
}

/// The link directives name exactly the libraries of the enabled storage
/// engines. After the search path comes one directive per enabled engine;
/// an engine's directive is present if and only if the engine is enabled;
/// every directive after the first belongs to an enabled engine; none is
/// repeated; and with at least one engine enabled at least one library is
/// linked.
pub proof fn link_directives_are_exact(flags: BackendFlagSet, profile: BuildProfile, root: Seq<char>)
    ensures
        link_directive_list(flags, profile, root).len() == 1 + flags.libraries().len(),
        link_directive_list(flags, profile, root)[0] == search_directive(
            library_dir(profile, root),
        ),
        forall|b: Backend|
            b.storage() ==> (#[trigger] link_directive_list(flags, profile, root).contains(
                library_directive(b.library()),
            ) <==> flags.enabled(b)),
        forall|i: int|
            1 <= i < link_directive_list(flags, profile, root).len() ==> links_enabled_engine(
                flags,
                #[trigger] link_directive_list(flags, profile, root)[i],
            ),
        link_directive_list(flags, profile, root).no_duplicates(),
        flags.any_storage() ==> link_directive_list(flags, profile, root).len() >= 2,
{
    let libs = flags.libraries();
    let all = link_directive_list(flags, profile, root);
    link_set_is_exact(flags);
    assert(all.len() == 1 + libs.len());
    assert forall|i: int| 1 <= i < all.len() implies all[i] == library_directive(libs[i - 1]) by {}
    assert forall|b: Backend| b.storage() implies (#[trigger] all.contains(
        library_directive(b.library()),
    ) <==> flags.enabled(b)) by {
        let wanted = library_directive(b.library());
        if flags.enabled(b) {
            assert(libs.contains(b.library()));
            let j = choose|j: int| 0 <= j < libs.len() && libs[j] == b.library();
            assert(all[j + 1] == wanted);
        }
        if all.contains(wanted) {
            let i = choose|i: int| 0 <= i < all.len() && all[i] == wanted;
            search_directive_links_nothing(library_dir(profile, root), b.library());
            assert(i >= 1);
            library_directive_is_injective(libs[i - 1], b.library());
            assert(libs[i - 1] == b.library());
            assert(libs.contains(b.library()));
        }
    }
    assert forall|i: int| 1 <= i < all.len() implies links_enabled_engine(
        flags,
        #[trigger] all[i],
    ) by {
        assert(flags.builds(libs[i - 1]));
    }
    assert forall|i: int, j: int| 0 <= i < all.len() && 0 <= j < all.len() && i != j implies all[i]
        != all[j] by {
        if i == 0 {
            search_directive_links_nothing(library_dir(profile, root), libs[j - 1]);
        } else if j == 0 {
            search_directive_links_nothing(library_dir(profile, root), libs[i - 1]);
        } else {
            library_directive_is_injective(libs[i - 1], libs[j - 1]);
        }
    }
}

impl BuildProfile {
    /// The value of the native build-type definition.
    pub fn build_type(&self) -> (name: &'static str)
        ensures
            name@ == build_type(*self),
    {
        match self {
            BuildProfile::Debug => "Debug",
            BuildProfile::Release => "Release",
        }
    }

    /// The directory, below the source root, that the native build writes to.
    pub fn build_dir(&self) -> (name: &'static str)
        ensures
            name@ == build_dir(*self),
    {
        match self {
            BuildProfile::Debug => "build_debug",
            BuildProfile::Release => "build_release",
        }
    }
}

/// The candidate for the engine's source root: the parent of `working_dir`,
/// written relative to it. The caller resolves it to an absolute path.
pub fn parent_candidate(working_dir: &str) -> (path: String)
    ensures
        path@ == working_dir@ + "/../"@,
{
    join(working_dir, "/../")
}

/// The engine's public include directory below `root`.
pub fn include_path(root: &str) -> (path: String)
    ensures
        path@ == include_dir(root@),
{
    join(root, "/include")
}

/// The include directory of the engine's own headers below `root`.
pub fn engine_include_path(root: &str) -> (path: String)
    ensures
        path@ == engine_include_dir(root@),
{
    join(root, "/include/ukv")
}

/// The directory the compiled libraries end up in.
pub fn library_path(profile: BuildProfile, root: &str) -> (path: String)
    ensures
        path@ == library_dir(profile, root@),
{
    let mut path = join(root, "/");
    path.append(profile.build_dir());
    path.append("/build/lib");
    path
}

/// Where the copy of the public headers is placed.
pub fn staged_include_path(profile: BuildProfile, root: &str) -> (path: String)
    ensures
        path@ == staged_include_dir(profile, root@),
{
    let mut path = join(root, "/");
    path.append(profile.build_dir());
    path.append("/build/include");
    path
}

/// Every definition handed to the configure step: the fixed ones, then one
/// per backend.
pub fn configure_definition_list(flags: BackendFlagSet, profile: BuildProfile) -> (defs: Vec<
    BuildDefinition,
>)
    ensures
        definitions(defs@) == configure_definitions(flags, profile),
{
    let mut defs: Vec<BuildDefinition> = Vec::new();
    defs.push(BuildDefinition::new("CMAKE_C_COMPILER", "gcc"));
    defs.push(BuildDefinition::new("CMAKE_CXX_COMPILER", "g++"));
    defs.push(BuildDefinition::new("CMAKE_BUILD_TYPE", profile.build_type()));
    defs.push(BuildDefinition::new("UKV_BUILD_TESTS", "0"));
    defs.push(BuildDefinition::new("UKV_BUILD_BENCHMARKS", "0"));
    defs.push(BuildDefinition::new("UKV_BUILD_BUNDLES", "1"));
    assert(definitions(defs@) =~= fixed_definitions(profile));
    let mut selected = flags.build_definitions();
    let ghost fixed = defs@;
    let ghost chosen = selected@;
    defs.append(&mut selected);
    assert(definitions(defs@) =~= definitions(fixed) + definitions(chosen));
    defs
}

/// The configure step: every definition as an argument, and the build
/// directory, run in the source root.
pub fn configure_command(flags: BackendFlagSet, profile: BuildProfile, root: &str) -> (command:
    Command)
    ensures
        command@ == configure_model(flags, profile, root@),
{
    let defs = configure_definition_list(flags, profile);
    let mut args: Vec<String> = Vec::new();
    let mut i: usize = 0;
    while i < defs.len()
        invariant
            i <= defs.len(),
            args@.len() == i,
            forall|k: int| 0 <= k < i ==> (#[trigger] args@[k])@ == defs@[k]@.argument(),
        decreases defs.len() - i,
    {
        args.push(defs[i].argument());
        i += 1;
    }
    args.push(join("-B ./", profile.build_dir()));
    assert(texts(args@) =~= configure_arguments(flags, profile)) by {
        let expected = configure_arguments(flags, profile);
        assert(definitions(defs@).len() == defs@.len());
        assert(expected.len() == args@.len());
        assert forall|k: int| 0 <= k < expected.len() implies texts(args@)[k] == expected[k] by {
            if k < defs@.len() {
                assert(definitions(defs@)[k] == defs@[k]@);
            }
        }
    }
    Command { program: String::from_str("cmake"), args, dir: Some(String::from_str(root)) }
}

/// The compile step, run in the source root with `jobs` parallel jobs.
pub fn compile_command(profile: BuildProfile, jobs: usize, root: &str) -> (command: Command)
    ensures
        command@ == compile_model(profile, jobs as nat, root@),
{
    let mut parallel = String::from_str("-j");
    append_decimal(&mut parallel, jobs);
    let mut args: Vec<String> = Vec::new();
    args.push(parallel);
    args.push(String::from_str("-C"));
    args.push(join("./", profile.build_dir()));
    assert(texts(args@) =~= compile_model(profile, jobs as nat, root@).args);
    Command { program: String::from_str("make"), args, dir: Some(String::from_str(root)) }
}

/// The header expansion step, run in the caller's working directory.
pub fn preprocess_command(root: &str) -> (command: Command)
    ensures
        command@ == preprocess_model(root@),
{
    let mut args: Vec<String> = Vec::new();
    args.push(String::from_str("-E"));
    args.push(String::from_str("-I"));
    args.push(include_path(root));
    args.push(String::from_str("-I"));
    args.push(engine_include_path(root));
    args.push(String::from_str("wrapper.h"));
    args.push(String::from_str("-o"));
    args.push(String::from_str("wrapper.expanded.h"));
    assert(texts(args@) =~= preprocess_model(root@).args);
    Command { program: String::from_str("gcc"), args, dir: None }
}

/// What the native build leaves behind for the link step: where the
/// libraries are and what they are called. It is made once for a backend
/// selection and cannot be changed afterwards.
#[derive(Debug, PartialEq, Eq)]
pub struct NativeBuildArtifact {
    search_path: String,
    libraries: Vec<String>,
}

impl View for NativeBuildArtifact {
    type V = ArtifactView;

    closed spec fn view(&self) -> ArtifactView {
        ArtifactView { search_path: self.search_path@, libraries: texts(self.libraries@) }
    }
}

impl NativeBuildArtifact {
    /// The artifact of building `flags` under `profile` below the source root.
    pub fn of(flags: BackendFlagSet, profile: BuildProfile, root: &str) -> (artifact:
        NativeBuildArtifact)
        ensures
            artifact@ == artifact_model(flags, profile, root@),
    {
        NativeBuildArtifact {
            search_path: library_path(profile, root),
            libraries: flags.link_libraries(),
        }
    }

    /// The directory the libraries are found in.
    pub fn search_path(&self) -> (path: &str)
        ensures
            path@ == self@.search_path,
    {
        self.search_path.as_str()
    }

    /// The names of the compiled libraries.
    pub fn libraries(&self) -> (names: &Vec<String>)
        ensures
            texts(names@) == self@.libraries,
    {
        &self.libraries
    }

    /// The link directives: the search path, then one directive per library.
    pub fn link_directives(&self) -> (directives: Vec<String>)
        ensures
            texts(directives@) == self@.directives(),
    {
        let mut directives: Vec<String> = Vec::new();
        directives.push(join("cargo:rustc-link-search=native=", self.search_path.as_str()));
        let mut i: usize = 0;
        while i < self.libraries.len()
            invariant
                i <= self.libraries.len(),
                directives@.len() == i + 1,
                directives@[0]@ == search_directive(self.search_path@),
                forall|k: int|
                    0 <= k < i ==> (#[trigger] directives@[k + 1])@ == library_directive(
                        self.libraries@[k]@,
                    ),
            decreases self.libraries.len() - i,
        {
            directives.push(join("cargo:rustc-link-lib=static=", self.libraries[i].as_str()));
            i += 1;
        }
        assert(texts(directives@) =~= self@.directives()) by {
            let expected = self@.directives();
            assert(texts(self.libraries@).len() == self.libraries@.len());
            assert(expected.len() == directives@.len());
            assert forall|k: int| 0 <= k < expected.len() implies texts(directives@)[k]
                == expected[k] by {
                if k > 0 {
                    assert(directives@[(k - 1) + 1]@ == library_directive(
                        self.libraries@[k - 1]@,
                    ));
                    assert(texts(self.libraries@)[k - 1] == self.libraries@[k - 1]@);
                }
            }
        }
        directives
    }
}

/// The link directives for a build: the library search path, then one
/// directive per enabled storage engine and none for a disabled one.
pub fn link_directives(flags: BackendFlagSet, profile: BuildProfile, root: &str) -> (directives:
    Vec<String>)
    ensures
        texts(directives@) == link_directive_list(flags, profile, root@),
{
    NativeBuildArtifact::of(flags, profile, root).link_directives()
}

/// The request for the binding generator: parse the expanded header with the
/// include directories of the native build, and map the generic size type to
/// the platform's word-sized unsigned integer.
pub fn binding_request(root: &str) -> (request: BindingRequest)
    ensures
        request@ == binding_model(root@),
{
    let mut clang_args: Vec<String> = Vec::new();
    clang_args.push(String::from_str("-I"));
    clang_args.push(include_path(root));
    clang_args.push(String::from_str("-I"));
    clang_args.push(engine_include_path(root));
    clang_args.push(String::from_str("--verbose"));
    assert(texts(clang_args@) =~= binding_model(root@).clang_args);
    BindingRequest {
        header: String::from_str("wrapper.expanded.h"),
        output: String::from_str("bindings.rs"),
        size_t_is_usize: true,
        enable_cxx_namespaces: true,
        detect_include_paths: true,
        respect_cxx_access_specs: true,
        clang_args,
    }
}

} // verus!
