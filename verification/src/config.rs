//! The build configuration: an accumulator of options whose terminal
//! operation turns the options and a snapshot of the build environment
//! into a fully determined plan — two command lines, a child-process
//! environment block, and the output directories.

use crate::paths::spec_join;
use crate::paths::spec_stem;
use crate::paths::join_path;
use crate::paths::stem_of;
use crate::paths::str_eq;
use crate::target_map::spec_system_pair;
use crate::target_map::system_pair;
use vstd::prelude::*;

verus! {

/// The accumulated build options.
pub struct Config {
    path: String,
    profile: String,
    args: Vec<String>,
    cflags: String,
    cxxflags: String,
    uses_toolchain_file: bool,
    defined_system_name: bool,
}

/// The mathematical value of a [`Config`].
pub ghost struct ConfigView {
    pub path: Seq<char>,
    pub profile: Seq<char>,
    pub args: Seq<Seq<char>>,
    pub cflags: Seq<char>,
    pub cxxflags: Seq<char>,
    pub uses_toolchain_file: bool,
    pub defined_system_name: bool,
}

impl View for Config {
    type V = ConfigView;

    closed spec fn view(&self) -> ConfigView {
        ConfigView {
            path: self.path@,
            profile: self.profile@,
            args: self.args.deep_view(),
            cflags: self.cflags@,
            cxxflags: self.cxxflags@,
            uses_toolchain_file: self.uses_toolchain_file,
            defined_system_name: self.defined_system_name,
        }
    }
}

/// A snapshot of everything the planner reads from the calling build
/// process's environment, taken by the caller before planning.
pub struct BuildEnv {
    /// The target platform triple, when set.
    pub target: Option<String>,
    /// The host platform triple, when set.
    pub host: Option<String>,
    /// The output root directory, when set.
    pub out_dir: Option<String>,
    /// The target's operating-system component, when set.
    pub target_os: Option<String>,
    /// The target's architecture component, when set.
    pub target_arch: Option<String>,
    /// Whether a toolchain-file override is present in the environment.
    pub toolchain_file_set: bool,
    /// Whether a system-name override is present in the environment.
    pub system_name_set: bool,
}

/// The mathematical value of a [`BuildEnv`].
pub ghost struct BuildEnvView {
    pub target: Option<Seq<char>>,
    pub host: Option<Seq<char>>,
    pub out_dir: Option<Seq<char>>,
    pub target_os: Option<Seq<char>>,
    pub target_arch: Option<Seq<char>>,
    pub toolchain_file_set: bool,
    pub system_name_set: bool,
}

impl View for BuildEnv {
    type V = BuildEnvView;

    open spec fn view(&self) -> BuildEnvView {
        BuildEnvView {
            target: self.target.deep_view(),
            host: self.host.deep_view(),
            out_dir: self.out_dir.deep_view(),
            target_os: self.target_os.deep_view(),
            target_arch: self.target_arch.deep_view(),
            toolchain_file_set: self.toolchain_file_set,
            system_name_set: self.system_name_set,
        }
    }
}

/// Why a plan could not be produced: a required environment value is
/// absent, or the source path has no final component to namespace the
/// output directories with.
#[derive(Clone, Copy, Debug, PartialEq, Eq, Structural)]
pub enum BuildError {
    MissingTarget,
    MissingHost,
    InvalidSourcePath,
    MissingOutDir,
    MissingTargetOs,
    MissingTargetArch,
}

/// The description of each planning failure, in words.
pub open spec fn spec_message(err: BuildError) -> Seq<char> {
    match err {
        BuildError::MissingTarget => "the target triple is not set"@,
        BuildError::MissingHost => "the host triple is not set"@,
        BuildError::InvalidSourcePath => "the source path has no final component"@,
        BuildError::MissingOutDir => "the output root directory is not set"@,
        BuildError::MissingTargetOs => "the target operating system is not set"@,
        BuildError::MissingTargetArch => "the target architecture is not set"@,
    }
}

impl BuildError {
    /// A short description of the failure, for the caller to surface.
    pub fn message(&self) -> (r: String)
        ensures
            r@ == spec_message(*self),
    {
        match self {
            BuildError::MissingTarget => String::from_str("the target triple is not set"),
            BuildError::MissingHost => String::from_str("the host triple is not set"),
            BuildError::InvalidSourcePath => String::from_str(
                "the source path has no final component",
            ),
            BuildError::MissingOutDir => String::from_str("the output root directory is not set"),
            BuildError::MissingTargetOs => String::from_str(
                "the target operating system is not set",
            ),
            BuildError::MissingTargetArch => String::from_str(
                "the target architecture is not set",
            ),
        }
    }
}

/// Everything the two planned tool invocations need: the program, the
/// argument list of the configure step and of the build step, the
/// environment block to give both children, and the output
/// directories.
pub struct BuildPlan {
    /// The name of the tool to invoke.
    pub program: String,
    /// The argument list of the configure step.
    pub configure_args: Vec<String>,
    /// The argument list of the build step.
    pub build_args: Vec<String>,
    /// Extra environment entries for the spawned children.
    pub child_env: Vec<(String, String)>,
    /// Where the tool is told to place its build tree.
    pub bin_dir: String,
    /// Where the tool is told to place the produced libraries.
    pub lib_dir: String,
}

/// A definition argument, as the tool expects it on the command line.
pub open spec fn def_arg(key: Seq<char>, val: Seq<char>) -> Seq<char> {
    "-D"@ + key + "="@ + val
}

/// Whether the configuration describes a cross build: the target
/// triple differs from the host triple.
pub open spec fn spec_cross_compiling(e: BuildEnvView) -> bool {
    e.target != e.host
}

/// Whether the caller has already declared a system identity, through
/// a definition or through the environment.
pub open spec fn spec_explicit_system(c: ConfigView, e: BuildEnvView) -> bool {
    c.uses_toolchain_file || c.defined_system_name || e.toolchain_file_set || e.system_name_set
}

/// Whether the planner injects a system name and processor: only on a
/// cross build where no explicit system identity has been declared.
pub open spec fn spec_injects(c: ConfigView, e: BuildEnvView) -> bool {
    spec_cross_compiling(e) && !spec_explicit_system(c, e)
}

/// The injected cross-compilation definitions: two, from the mapping
/// table, or none at all.
pub open spec fn spec_injected_args(c: ConfigView, e: BuildEnvView) -> Seq<Seq<char>> {
    if spec_injects(c, e) {
        let pair = spec_system_pair(e.target_os.unwrap(), e.target_arch.unwrap());
        seq![
            def_arg("CMAKE_SYSTEM_NAME"@, pair.0),
            def_arg("CMAKE_SYSTEM_PROCESSOR"@, pair.1),
        ]
    } else {
        Seq::empty()
    }
}

/// The build tree directory: `<out_dir>/<stem>/bin`.
pub open spec fn spec_bin_dir(path: Seq<char>, out_dir: Seq<char>) -> Seq<char> {
    spec_join(out_dir, spec_join(spec_stem(path).unwrap(), "bin"@))
}

/// The library output directory: `<out_dir>/<stem>/lib`.
pub open spec fn spec_lib_dir(path: Seq<char>, out_dir: Seq<char>) -> Seq<char> {
    spec_join(out_dir, spec_join(spec_stem(path).unwrap(), "lib"@))
}

/// The arguments the planner itself appends to the configure command
/// line, after the accumulated ones: source and build-tree pointers,
/// the three output-directory definitions, the build type when a
/// profile was set, and an undefine for each flags variable that the
/// environment block overrides.
pub open spec fn spec_tail_args(c: ConfigView, bin: Seq<char>, lib: Seq<char>) -> Seq<Seq<char>> {
    seq![
        "-S"@ + c.path,
        "-B"@ + bin,
        "-DCMAKE_ARCHIVE_OUTPUT_DIRECTORY="@ + lib,
        "-DCMAKE_RUNTIME_OUTPUT_DIRECTORY="@ + lib,
        "-DCMAKE_LIBRARY_OUTPUT_DIRECTORY="@ + lib,
    ] + (if c.profile.len() > 0 {
        seq!["-DCMAKE_BUILD_TYPE="@ + c.profile]
    } else {
        Seq::empty()
    }) + (if c.cflags.len() > 0 {
        seq!["-UCMAKE_C_FLAGS"@]
    } else {
        Seq::empty()
    }) + (if c.cxxflags.len() > 0 {
        seq!["-UCMAKE_CXX_FLAGS"@]
    } else {
        Seq::empty()
    })
}

/// The whole configure command line: the accumulated arguments in
/// order, then any injected cross-compilation definitions, then the
/// planner's own tail.
pub open spec fn spec_configure_args(c: ConfigView, e: BuildEnvView) -> Seq<Seq<char>> {
    c.args + spec_injected_args(c, e) + spec_tail_args(
        c,
        spec_bin_dir(c.path, e.out_dir.unwrap()),
        spec_lib_dir(c.path, e.out_dir.unwrap()),
    )
}

/// The build-step command line: build-tree pointer, parallelism, and
/// the configuration name.
pub open spec fn spec_build_args(c: ConfigView, e: BuildEnvView) -> Seq<Seq<char>> {
    seq![
        "--build"@,
        spec_bin_dir(c.path, e.out_dir.unwrap()),
        "--parallel"@,
        "--config"@,
        c.profile,
    ]
}

/// The environment block for the spawned children: each accumulated
/// flag string that is non-empty, under its variable's name, and
/// nothing else.
pub open spec fn spec_child_env(c: ConfigView) -> Seq<(Seq<char>, Seq<char>)> {
    (if c.cflags.len() > 0 {
        seq![("CFLAGS"@, c.cflags)]
    } else {
        Seq::empty()
    }) + (if c.cxxflags.len() > 0 {
        seq![("CXXFLAGS"@, c.cxxflags)]
    } else {
        Seq::empty()
    })
}

/// Why planning fails on a given configuration and environment, if it
/// does: the first absent value in the order the planner reads them.
pub open spec fn spec_plan_error(c: ConfigView, e: BuildEnvView) -> Option<BuildError> {
    if e.target is None {
        Some(BuildError::MissingTarget)
    } else if e.host is None {
        Some(BuildError::MissingHost)
    } else if spec_stem(c.path) is None {
        Some(BuildError::InvalidSourcePath)
    } else if e.out_dir is None {
        Some(BuildError::MissingOutDir)
    } else if spec_injects(c, e) && e.target_os is None {
        Some(BuildError::MissingTargetOs)
    } else if spec_injects(c, e) && e.target_arch is None {
        Some(BuildError::MissingTargetArch)
    } else {
        None
    }
}

/// Appends one argument, keeping the view in step.
fn push_arg(args: &mut Vec<String>, s: String)
    ensures
        final(args).deep_view() == old(args).deep_view().push(s@),
{
    let ghost pre = args.deep_view();
    let ghost sv = s@;
    args.push(s);
    proof {
        assert(args.deep_view() =~= pre.push(sv));
    }
}

/// Builds `<prefix><rest>` as one argument string.
fn prefixed(prefix: &str, rest: &str) -> (r: String)
    ensures
        r@ == prefix@ + rest@,
{
    let mut s = String::from_str(prefix);
    s.append(rest);
    s
}

/// Builds a definition argument for the configure command line.
fn def_string(key: &str, val: &str) -> (r: String)
    ensures
        r@ == def_arg(key@, val@),
{
    let mut s = String::from_str("-D");
    s.append(key);
    s.append("=");
    s.append(val);
    proof {
        assert(s@ =~= def_arg(key@, val@));
    }
    s
}

/// The directive that tells the calling build process where to look
/// for the produced libraries.
pub fn link_search_directive(lib_dir: &str) -> (r: String)
    ensures
        r@ == "cargo:rustc-link-search="@ + lib_dir@,
{
    prefixed("cargo:rustc-link-search=", lib_dir)
}

impl Config {
    /// A fresh configuration for the project at `path`; everything
    /// else starts empty.
    pub fn new(path: &str) -> (c: Config)
        ensures
            c@.path == path@,
            c@.profile == Seq::<char>::empty(),
            c@.args == Seq::<Seq<char>>::empty(),
            c@.cflags == Seq::<char>::empty(),
            c@.cxxflags == Seq::<char>::empty(),
            !c@.uses_toolchain_file,
            !c@.defined_system_name,
    {
        let c = Config {
            path: String::from_str(path),
            profile: String::new(),
            args: Vec::new(),
            cflags: String::new(),
            cxxflags: String::new(),
            uses_toolchain_file: false,
            defined_system_name: false,
        };
        proof {
            assert(c@.args =~= Seq::<Seq<char>>::empty());
        }
        c
    }

    /// Requests a generator: records `-G<name>` among the accumulated
    /// arguments.
    pub fn generator(&mut self, name: &str)
        ensures
            final(self)@.args == old(self)@.args.push("-G"@ + name@),
            final(self)@.path == old(self)@.path,
            final(self)@.profile == old(self)@.profile,
            final(self)@.cflags == old(self)@.cflags,
            final(self)@.cxxflags == old(self)@.cxxflags,
            final(self)@.uses_toolchain_file == old(self)@.uses_toolchain_file,
            final(self)@.defined_system_name == old(self)@.defined_system_name,
    {
        let s = prefixed("-G", name);
        push_arg(&mut self.args, s);
    }

    /// Records the build profile, replacing any earlier choice.
    pub fn profile(&mut self, prof: &str)
        ensures
            final(self)@.profile == prof@,
            final(self)@.path == old(self)@.path,
            final(self)@.args == old(self)@.args,
            final(self)@.cflags == old(self)@.cflags,
            final(self)@.cxxflags == old(self)@.cxxflags,
            final(self)@.uses_toolchain_file == old(self)@.uses_toolchain_file,
            final(self)@.defined_system_name == old(self)@.defined_system_name,
    {
        self.profile = String::from_str(prof);
    }

    /// Appends the definition `-D<key>=<value>` to the accumulated
    /// arguments, and remembers — permanently — when the toolchain-file
    /// or system-name key has been given explicitly.
    pub fn define(&mut self, key: &str, value: &str)
        ensures
            final(self)@.args == old(self)@.args.push(def_arg(key@, value@)),
            final(self)@.uses_toolchain_file == (old(self)@.uses_toolchain_file || key@
                == "CMAKE_TOOLCHAIN_FILE"@),
            final(self)@.defined_system_name == (old(self)@.defined_system_name || key@
                == "CMAKE_SYSTEM_NAME"@),
            final(self)@.path == old(self)@.path,
            final(self)@.profile == old(self)@.profile,
            final(self)@.cflags == old(self)@.cflags,
            final(self)@.cxxflags == old(self)@.cxxflags,
    {
        if str_eq(key, "CMAKE_TOOLCHAIN_FILE") {
            self.uses_toolchain_file = true;
        }
        if str_eq(key, "CMAKE_SYSTEM_NAME") {
            self.defined_system_name = true;
        }
        let s = def_string(key, value);
        push_arg(&mut self.args, s);
    }

    /// Appends a flag, and a separating space, to the accumulated
    /// C compiler flag string.
    pub fn cflag(&mut self, flag: &str)
        ensures
            final(self)@.cflags == old(self)@.cflags + flag@ + seq![' '],
            final(self)@.path == old(self)@.path,
            final(self)@.profile == old(self)@.profile,
            final(self)@.args == old(self)@.args,
            final(self)@.cxxflags == old(self)@.cxxflags,
            final(self)@.uses_toolchain_file == old(self)@.uses_toolchain_file,
            final(self)@.defined_system_name == old(self)@.defined_system_name,
    {
        self.cflags.append(flag);
        self.cflags.append(" ");
        proof {
            reveal_strlit(" ");
            assert(" "@ =~= seq![' ']);
        }
    }

    /// Appends a flag, and a separating space, to the accumulated
    /// C++ compiler flag string.
    pub fn cxxflag(&mut self, flag: &str)
        ensures
            final(self)@.cxxflags == old(self)@.cxxflags + flag@ + seq![' '],
            final(self)@.path == old(self)@.path,
            final(self)@.profile == old(self)@.profile,
            final(self)@.args == old(self)@.args,
            final(self)@.cflags == old(self)@.cflags,
            final(self)@.uses_toolchain_file == old(self)@.uses_toolchain_file,
            final(self)@.defined_system_name == old(self)@.defined_system_name,
    {
        self.cxxflags.append(flag);
        self.cxxflags.append(" ");
        proof {
            reveal_strlit(" ");
            assert(" "@ =~= seq![' ']);
        }
    }

    /// The terminal operation: turns the accumulated options and the
    /// given environment snapshot into the plan of the two tool
    /// invocations, or says which required value is absent.  Nothing
    /// is read from the process environment and nothing is spawned
    /// here; the caller runs the plan.
    pub fn try_build(&self, env: &BuildEnv) -> (r: Result<BuildPlan, BuildError>)
        ensures
            match r {
                Ok(plan) => spec_plan_error(self@, env@) is None && plan.program@ == "cmake"@
                    && plan.configure_args.deep_view() == spec_configure_args(self@, env@)
                    && plan.build_args.deep_view() == spec_build_args(self@, env@)
                    && plan.child_env.deep_view() == spec_child_env(self@) && plan.bin_dir@
                    == spec_bin_dir(self@.path, env@.out_dir.unwrap()) && plan.lib_dir@
                    == spec_lib_dir(self@.path, env@.out_dir.unwrap()),
                Err(err) => spec_plan_error(self@, env@) == Some(err),
            },
    {
        let target = match &env.target {
            Some(t) => t,
            None => {
                return Err(BuildError::MissingTarget);
            },
        };
        let host = match &env.host {
            Some(h) => h,
            None => {
                return Err(BuildError::MissingHost);
            },
        };
        let stem = match stem_of(self.path.as_str()) {
            Some(s) => s,
            None => {
                return Err(BuildError::InvalidSourcePath);
            },
        };
        let out_dir = match &env.out_dir {
            Some(o) => o,
            None => {
                return Err(BuildError::MissingOutDir);
            },
        };
        let cross = !str_eq(target.as_str(), host.as_str());
        let explicit = self.uses_toolchain_file || self.defined_system_name
            || env.toolchain_file_set || env.system_name_set;
        let injects = cross && !explicit;
        let bin_dir = join_path(out_dir.as_str(), join_path(stem.as_str(), "bin").as_str());
        let lib_dir = join_path(out_dir.as_str(), join_path(stem.as_str(), "lib").as_str());

        let ghost c = self@;
        let ghost e = env@;

        let mut configure_args: Vec<String> = Vec::new();
        proof {
            assert(configure_args.deep_view() =~= c.args.subrange(0, 0));
        }
        let n = self.args.len();
        let mut i: usize = 0;
        while i < n
            invariant
                i <= n,
                n == self.args.len(),
                c == self@,
                configure_args.deep_view() == c.args.subrange(0, i as int),
            decreases n - i,
        {
            let ghost pre = configure_args.deep_view();
            push_arg(&mut configure_args, self.args[i].clone());
            proof {
                assert(self.args[i as int].deep_view() == c.args[i as int]);
                assert(pre.push(c.args[i as int]) =~= c.args.subrange(0, i as int + 1));
            }
            i = i + 1;
        }
        proof {
            assert(c.args.subrange(0, n as int) =~= c.args);
        }

        if injects {
            let os = match &env.target_os {
                Some(o) => o,
                None => {
                    return Err(BuildError::MissingTargetOs);
                },
            };
            let arch = match &env.target_arch {
                Some(a) => a,
                None => {
                    return Err(BuildError::MissingTargetArch);
                },
            };
            let pair = system_pair(os.as_str(), arch.as_str());
            push_arg(&mut configure_args, def_string("CMAKE_SYSTEM_NAME", pair.0.as_str()));
            push_arg(&mut configure_args, def_string("CMAKE_SYSTEM_PROCESSOR", pair.1.as_str()));
            proof {
                assert(configure_args.deep_view() =~= c.args + spec_injected_args(c, e));
            }
        } else {
            proof {
                assert(configure_args.deep_view() =~= c.args + spec_injected_args(c, e));
            }
        }
        let ghost with_injected = configure_args.deep_view();

        push_arg(&mut configure_args, prefixed("-S", self.path.as_str()));
        push_arg(&mut configure_args, prefixed("-B", bin_dir.as_str()));
        push_arg(
            &mut configure_args,
            prefixed("-DCMAKE_ARCHIVE_OUTPUT_DIRECTORY=", lib_dir.as_str()),
        );
        push_arg(
            &mut configure_args,
            prefixed("-DCMAKE_RUNTIME_OUTPUT_DIRECTORY=", lib_dir.as_str()),
        );
        push_arg(
            &mut configure_args,
            prefixed("-DCMAKE_LIBRARY_OUTPUT_DIRECTORY=", lib_dir.as_str()),
        );
        if !self.profile.as_str().is_empty() {
            push_arg(&mut configure_args, prefixed("-DCMAKE_BUILD_TYPE=", self.profile.as_str()));
        }

        let mut child_env: Vec<(String, String)> = Vec::new();
        if !self.cflags.as_str().is_empty() {
            child_env.push((String::from_str("CFLAGS"), self.cflags.clone()));
            push_arg(&mut configure_args, String::from_str("-UCMAKE_C_FLAGS"));
        }
        if !self.cxxflags.as_str().is_empty() {
            child_env.push((String::from_str("CXXFLAGS"), self.cxxflags.clone()));
            push_arg(&mut configure_args, String::from_str("-UCMAKE_CXX_FLAGS"));
        }
        proof {
            assert(configure_args.deep_view() =~= spec_configure_args(c, e));
            assert(child_env.deep_view() =~= spec_child_env(c));
        }

        let mut build_args: Vec<String> = Vec::new();
        push_arg(&mut build_args, String::from_str("--build"));
        push_arg(&mut build_args, bin_dir.clone());
        push_arg(&mut build_args, String::from_str("--parallel"));
        push_arg(&mut build_args, String::from_str("--config"));
        push_arg(&mut build_args, self.profile.clone());
        proof {
            assert(build_args.deep_view() =~= spec_build_args(c, e));
        }

        Ok(
            BuildPlan {
                program: String::from_str("cmake"),
                configure_args,
                build_args,
                child_env,
                bin_dir,
                lib_dir,
            },
        )
    }
}

/// When the target triple equals the host triple, no cross-compilation
/// definitions are injected, whatever the mapping table holds.
pub proof fn lemma_native_build_injects_nothing(c: ConfigView, e: BuildEnvView)
    requires
        e.target == e.host,
    ensures
        spec_injected_args(c, e) == Seq::<Seq<char>>::empty(),
{
}

/// An explicitly declared system identity — a toolchain-file or
/// system-name definition, given through `define` or found in the
/// environment — suppresses automatic injection, even on a cross
/// build.
pub proof fn lemma_explicit_identity_wins(c: ConfigView, e: BuildEnvView)
    requires
        c.uses_toolchain_file || c.defined_system_name || e.toolchain_file_set
            || e.system_name_set,
    ensures
        spec_injected_args(c, e) == Seq::<Seq<char>>::empty(),
{
}

/// The accumulated arguments — every definition among them — are
/// replayed at the front of the configure command line, in exactly the
/// order they were supplied; duplicates all appear.
pub proof fn lemma_args_replayed_in_order(c: ConfigView, e: BuildEnvView)
    ensures
        spec_configure_args(c, e).len() >= c.args.len(),
        forall|i: int|
            0 <= i < c.args.len() ==> spec_configure_args(c, e)[i] == c.args[i],
{
    assert forall|i: int| 0 <= i < c.args.len() implies spec_configure_args(c, e)[i]
        == c.args[i] by {
        assert((c.args + spec_injected_args(c, e))[i] == c.args[i]);
    }
}

} // verus!
