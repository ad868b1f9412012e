//! The build-strategy decision engine and the multi-target aggregation.
use vstd::prelude::*;
use vstd::multiset::Multiset;
use crate::config::{copy_opt, copy_pairs, copy_strings, find_key, Config, TargetCustomView};
use crate::container::{lower_of, runtime_type_of, RuntimeType};
use crate::error::{opt_view, Error, Result};
use crate::strs::{concat2, concat3, joined, owned, str_eq};
use crate::target::{command_available, is_valid_triple, os_of, pairs_view, strings_view, Target};
use crate::zig::{linker_env_var, linker_var_spec, upper_of, zig_env_spec, zig_supported, ZigToolchain};

verus! {

/// Cargo operation to perform
#[derive(Debug, Clone, Copy, PartialEq, Eq, Structural)]
pub enum CargoOperation {
    /// Compile the project
    Build,
    /// Type-check the project
    Check,
    /// Run the tests
    Test,
}

impl CargoOperation {
    /// The build-driver subcommand.
    pub open spec fn as_str_spec(self) -> Seq<char> {
        match self {
            CargoOperation::Build => "build"@,
            CargoOperation::Check => "check"@,
            CargoOperation::Test => "test"@,
        }
    }

    /// The build-driver subcommand.
    pub fn as_str(&self) -> (r: &'static str)
        ensures
            r@ == self.as_str_spec(),
    {
        match self {
            CargoOperation::Build => "build",
            CargoOperation::Check => "check",
            CargoOperation::Test => "test",
        }
    }

    /// A participle for progress and summary lines.
    pub fn description(&self) -> (r: &'static str)
        ensures
            r@ == (match self {
                CargoOperation::Build => "Building"@,
                CargoOperation::Check => "Checking"@,
                CargoOperation::Test => "Testing"@,
            }),
    {
        match self {
            CargoOperation::Build => "Building",
            CargoOperation::Check => "Checking",
            CargoOperation::Test => "Testing",
        }
    }
}

/// Preference for the cross-compiler-wrapper strategy.
#[derive(Debug, Clone, Copy, PartialEq, Eq, Structural)]
pub enum WrapperMode {
    /// Use the wrapper when the target OS differs from the host OS and the
    /// wrapper supports the target
    Auto,
    /// Always use the wrapper; an unsupported target is an error
    Force,
    /// Never use the wrapper
    Disable,
}

/// Options of one build request
#[derive(Debug, Clone, PartialEq)]
pub struct BuildOptions {
    /// Target triple, if given explicitly
    pub target: Option<String>,
    /// Release mode
    pub release: bool,
    /// Verbose output
    pub verbose: bool,
    /// Toolchain override (e.g. "nightly")
    pub toolchain: Option<String>,
    /// Request a containerized build
    pub use_container: bool,
    /// Wrapper preference: None = auto, Some(true) = force, Some(false) = disable
    pub use_zig: Option<bool>,
    /// Pass-through build-driver arguments
    pub cargo_args: Vec<String>,
    /// Operation to perform
    pub operation: CargoOperation,
}

impl Default for BuildOptions {
    fn default() -> (r: Self)
        ensures
            r.target is None,
            !r.release,
            !r.verbose,
            r.toolchain is None,
            !r.use_container,
            r.use_zig is None,
            r.cargo_args.len() == 0,
            r.operation == CargoOperation::Build,
    {
        BuildOptions {
            target: None,
            release: false,
            verbose: false,
            toolchain: None,
            use_container: false,
            use_zig: None,
            cargo_args: Vec::new(),
            operation: CargoOperation::Build,
        }
    }
}

/// The wrapper preference an optional switch stands for.
pub open spec fn wrapper_mode_of(use_zig: Option<bool>) -> WrapperMode {
    match use_zig {
        None => WrapperMode::Auto,
        Some(true) => WrapperMode::Force,
        Some(false) => WrapperMode::Disable,
    }
}

impl BuildOptions {
    /// The wrapper preference of these options.
    pub fn wrapper_mode(&self) -> (r: WrapperMode)
        ensures
            r == wrapper_mode_of(self.use_zig),
    {
        match self.use_zig {
            None => WrapperMode::Auto,
            Some(true) => WrapperMode::Force,
            Some(false) => WrapperMode::Disable,
        }
    }

    /// The same request with `target` substituted.
    pub fn with_target(&self, target: &str) -> (r: BuildOptions)
        ensures
            opt_view(r.target) == Some(target@),
            r.release == self.release,
            r.verbose == self.verbose,
            opt_view(r.toolchain) == opt_view(self.toolchain),
            r.use_container == self.use_container,
            r.use_zig == self.use_zig,
            strings_view(r.cargo_args@) == strings_view(self.cargo_args@),
            r.operation == self.operation,
    {
        BuildOptions {
            target: Some(owned(target)),
            release: self.release,
            verbose: self.verbose,
            toolchain: copy_opt(&self.toolchain),
            use_container: self.use_container,
            use_zig: self.use_zig,
            cargo_args: copy_strings(&self.cargo_args),
            operation: self.operation,
        }
    }
}

/// The strategy chosen for one target.
#[derive(Debug, Clone, Copy, PartialEq, Eq, Structural)]
pub enum Strategy {
    /// The host's own toolchain, with a cross linker if one is needed
    Native,
    /// The cross-compiler wrapper shims
    Wrapper,
    /// A build inside a container
    Container,
}

/// Whether the container policy asks for a container for this pair of
/// operating systems.
pub open spec fn container_policy(use_when: Seq<char>, target_os: Seq<char>, host_os: Seq<char>) -> bool {
    if use_when == "always"@ {
        true
    } else if use_when == "never"@ {
        false
    } else if use_when == "target.os != host.os"@ {
        target_os != host_os
    } else {
        false
    }
}

/// What the wrapper step decides.
#[derive(Debug, Clone, Copy, PartialEq, Eq, Structural)]
pub enum WrapperOutcome {
    /// Not used; fall through to the native strategy
    Skip,
    /// Used
    Use,
    /// Forced but impossible: the selection fails
    Fail,
}

/// The wrapper decision: disabled means skip; in automatic mode only a
/// cross-OS target is tried; a present wrapper that supports the target is
/// used; otherwise forcing fails and automatic mode falls through.
pub open spec fn wrapper_outcome(
    mode: WrapperMode,
    target_os: Seq<char>,
    host_os: Seq<char>,
    zig_present: bool,
    triple: Seq<char>,
) -> WrapperOutcome {
    if mode == WrapperMode::Disable {
        WrapperOutcome::Skip
    } else if mode != WrapperMode::Force && target_os == host_os {
        WrapperOutcome::Skip
    } else if zig_present && zig_supported(triple) {
        WrapperOutcome::Use
    } else if mode == WrapperMode::Force {
        WrapperOutcome::Fail
    } else {
        WrapperOutcome::Skip
    }
}

/// The per-target configuration for `triple`, as plain values.
pub open spec fn custom_view(config: Config, triple: Seq<char>) -> Option<TargetCustomView> {
    match find_key(config.targets.custom@, triple) {
        Some(i) => Some(config.targets.custom@[i].1@),
        None => None,
    }
}

/// The linker of the native strategy: the configured one, else the one the
/// requirement table suggests.
pub open spec fn native_linker(custom: Option<TargetCustomView>, suggested: Option<Seq<char>>) -> Option<Seq<char>> {
    match custom {
        Some(c) => if c.linker is Some {
            c.linker
        } else {
            suggested
        },
        None => suggested,
    }
}

/// Configuration layered over the strategy's variables: the target's custom
/// variables, then its rustflags joined by spaces. Later entries win.
pub open spec fn layered_env(
    base: Seq<(Seq<char>, Seq<char>)>,
    custom: Option<TargetCustomView>,
) -> Seq<(Seq<char>, Seq<char>)> {
    match custom {
        Some(c) => {
            let with_env = base + c.env;
            match c.rustflags {
                Some(f) => with_env.push(("RUSTFLAGS"@, joined(f, " "@))),
                None => with_env,
            }
        },
        None => base,
    }
}

/// The value an environment list gives a key: its last entry wins.
pub open spec fn env_value(env: Seq<(Seq<char>, Seq<char>)>, key: Seq<char>) -> Option<Seq<char>>
    decreases env.len(),
{
    if env.len() == 0 {
        None
    } else if env.last().0 == key {
        Some(env.last().1)
    } else {
        env_value(env.drop_last(), key)
    }
}

/// Config flags passed through: a `--verbose` is left out when the request
/// is verbose already.
pub open spec fn kept_flags(flags: Seq<Seq<char>>, verbose: bool) -> Seq<Seq<char>>
    decreases flags.len(),
{
    if flags.len() == 0 {
        seq![]
    } else if flags.last() != "--verbose"@ || !verbose {
        kept_flags(flags.drop_last(), verbose).push(flags.last())
    } else {
        kept_flags(flags.drop_last(), verbose)
    }
}

/// The build-driver arguments: toolchain override, operation, target,
/// release and verbose switches, configured flags, pass-through arguments.
pub open spec fn driver_args_spec(
    toolchain: Option<Seq<char>>,
    op: CargoOperation,
    triple: Seq<char>,
    release: bool,
    verbose: bool,
    flags: Seq<Seq<char>>,
    extra: Seq<Seq<char>>,
) -> Seq<Seq<char>> {
    let tc = match toolchain {
        Some(t) => seq!["+"@ + t],
        None => seq![],
    };
    let rel = if release {
        seq!["--release"@]
    } else {
        seq![]
    };
    let verb = if verbose || flags.contains("--verbose"@) {
        seq!["--verbose"@]
    } else {
        seq![]
    };
    tc + seq![op.as_str_spec(), "--target"@, triple] + rel + verb + kept_flags(flags, verbose) + extra
}

/// The pass-through arguments of a container build: `--verbose` and
/// `--release` first when asked for.
pub open spec fn container_args_spec(release: bool, verbose: bool, extra: Seq<Seq<char>>) -> Seq<Seq<char>> {
    let rel = if release {
        seq!["--release"@]
    } else {
        seq![]
    };
    let verb = if verbose {
        seq!["--verbose"@]
    } else {
        seq![]
    };
    verb + rel + extra
}

/// The engine a configured runtime name asks for: the name read without
/// regard to case, and detection for any other name ("youki" among them).
pub open spec fn requested_runtime(name: Seq<char>) -> RuntimeType {
    match runtime_type_of(lower_of(name)) {
        Some(t) => t,
        None => RuntimeType::Auto,
    }
}

/// Install steps after a failed build, by host OS and target OS.
pub open spec fn failure_install_spec(host_os: Seq<char>, target_os: Seq<char>) -> Seq<Seq<char>> {
    if host_os == "macos"@ && target_os == "linux"@ {
        seq![
            "Install via Homebrew: brew install SomeLinuxCrossCompiler"@,
            "Or use a container-based build (coming soon)"@,
        ]
    } else if host_os == "macos"@ && target_os == "windows"@ {
        seq![
            "Install via Homebrew: brew install mingw-w64"@,
            "Then set: [targets.\"x86_64-pc-windows-gnu\"] linker = \"x86_64-w64-mingw32-gcc\""@,
        ]
    } else if host_os == "linux"@ && target_os == "windows"@ {
        seq![
            "Install via package manager: sudo apt install mingw-w64"@,
            "Then set: [targets.\"x86_64-pc-windows-gnu\"] linker = \"x86_64-w64-mingw32-gcc\""@,
        ]
    } else if host_os == "linux"@ && target_os == "macos"@ {
        seq![
            "macOS cross-compilation from Linux requires osxcross"@,
            "See: https://github.com/tpoechtrager/osxcross"@,
        ]
    } else {
        seq![
            "Cross-compiling from "@ + host_os + " to "@ + target_os
                + " may require specific toolchains"@,
        ]
    }
}

/// Remediation tips after the build driver failed. Without a linker in
/// use, a target whose requirements name one gets how to install and
/// configure it, its other tools, and install steps for the host; a linker
/// in use that is not on the search path gets a hint; the last tip is
/// always to rerun verbosely.
pub open spec fn failure_tips_spec(
    host_os: Seq<char>,
    target_os: Seq<char>,
    triple: Seq<char>,
    reqs: crate::target::RequirementsView,
    linker: Option<Seq<char>>,
    linker_found: bool,
) -> Seq<Seq<char>> {
    let body = match linker {
        None => match reqs.linker {
            Some(s) => seq![
                "This target requires a cross-compilation linker"@,
                "Install the linker: "@ + s,
                "Then configure it in xcargo.toml:"@,
                "[targets.\""@ + triple + "\"] linker = \""@ + s + "\""@,
            ] + (if reqs.tools.len() > 0 {
                seq!["Additional required tools: "@ + joined(reqs.tools, ", "@)]
            } else {
                seq![]
            }) + failure_install_spec(host_os, target_os),
            None => seq![],
        },
        Some(l) => if linker_found {
            seq![]
        } else {
            seq![
                "The configured linker '"@ + l + "' is not in your PATH"@,
                "Install it or update your xcargo.toml configuration"@,
            ]
        },
    };
    body.push("Run with --verbose to see detailed error output"@)
}

/// How a container build is to run.
#[derive(Debug, Clone)]
pub struct ContainerRequest {
    /// Requested engine
    pub runtime: RuntimeType,
    /// Environment forwarded into the container
    pub env: Vec<(String, String)>,
    /// Pass-through build-driver arguments
    pub cargo_args: Vec<String>,
}

/// The decision for one target and everything needed to carry it out.
#[derive(Debug, Clone)]
pub struct BuildPlan {
    /// The target
    pub target: Target,
    /// The chosen strategy
    pub strategy: Strategy,
    /// Environment of the build driver (native and wrapper strategies);
    /// later entries win on a repeated key
    pub env: Vec<(String, String)>,
    /// Build-driver arguments (native and wrapper strategies)
    pub args: Vec<String>,
    /// Linker of the native strategy
    pub linker: Option<String>,
    /// Install tips when the native linker is not on the search path
    pub diagnostics: Vec<String>,
    /// The container request (container strategy)
    pub container: Option<ContainerRequest>,
}

/// Running tally of a multi-target run.
#[derive(Debug, Clone)]
pub struct BuildSummary {
    /// Targets that built
    pub successes: Vec<String>,
    /// Targets that failed
    pub failures: Vec<String>,
}

/// The targets of the outcomes that match `ok`, in order.
pub open spec fn outcome_targets(events: Seq<(Seq<char>, bool)>, ok: bool) -> Seq<Seq<char>>
    decreases events.len(),
{
    if events.len() == 0 {
        seq![]
    } else if events.last().1 == ok {
        outcome_targets(events.drop_last(), ok).push(events.last().0)
    } else {
        outcome_targets(events.drop_last(), ok)
    }
}

/// The failing outcomes among a multiset of outcomes.
pub open spec fn failures_of(m: Multiset<(Seq<char>, bool)>) -> Multiset<(Seq<char>, bool)> {
    m.filter(|e: (Seq<char>, bool)| !e.1)
}

/// Number of failing outcomes, counted without regard to order.
pub open spec fn failure_count(events: Seq<(Seq<char>, bool)>) -> nat {
    failures_of(events.to_multiset()).len()
}

impl BuildSummary {
    /// An empty tally.
    pub fn new() -> (r: Self)
        ensures
            r.successes.len() == 0,
            r.failures.len() == 0,
    {
        BuildSummary { successes: Vec::new(), failures: Vec::new() }
    }

    /// Record the outcome of one target.
    pub fn record(&mut self, target: &str, ok: bool)
        ensures
            ok ==> strings_view(final(self).successes@) == strings_view(old(self).successes@).push(target@)
                && final(self).failures@ == old(self).failures@,
            !ok ==> strings_view(final(self).failures@) == strings_view(old(self).failures@).push(target@)
                && final(self).successes@ == old(self).successes@,
    {
        if ok {
            self.successes.push(owned(target));
            assert(strings_view(self.successes@) =~= strings_view(old(self).successes@).push(target@));
        } else {
            self.failures.push(owned(target));
            assert(strings_view(self.failures@) =~= strings_view(old(self).failures@).push(target@));
        }
    }

    /// The verdict of the run: a failure exactly when some target failed.
    pub fn finish(&self) -> (r: Result<()>)
        ensures
            r is Ok <==> self.failures.len() == 0,
            r matches Err(e) ==> (e matches Error::Build(m) && m@ == "Some targets failed to build"@),
    {
        if self.failures.len() > 0 {
            Err(Error::Build(owned("Some targets failed to build")))
        } else {
            Ok(())
        }
    }

    /// Tally a whole list of outcomes, in the order they arrived.
    pub fn summarize(events: &Vec<(String, bool)>) -> (r: Self)
        ensures
            strings_view(r.successes@) == outcome_targets(events_view(events@), true),
            strings_view(r.failures@) == outcome_targets(events_view(events@), false),
    {
        let mut s = BuildSummary::new();
        let mut i: usize = 0;
        assert(strings_view(s.successes@) =~= seq![]);
        assert(strings_view(s.failures@) =~= seq![]);
        while i < events.len()
            invariant
                i <= events.len(),
                strings_view(s.successes@) == outcome_targets(events_view(events@.subrange(0, i as int)), true),
                strings_view(s.failures@) == outcome_targets(events_view(events@.subrange(0, i as int)), false),
            decreases events.len() - i,
        {
            s.record(events[i].0.as_str(), events[i].1);
            proof {
                let pre = events_view(events@.subrange(0, i + 1));
                assert(pre.drop_last() =~= events_view(events@.subrange(0, i as int)));
            }
            i = i + 1;
        }
        assert(events@.subrange(0, events.len() as int) =~= events@);
        s
    }
}

/// Plain-value form of a list of outcomes.
pub open spec fn events_view(v: Seq<(String, bool)>) -> Seq<(Seq<char>, bool)> {
    v.map_values(|e: (String, bool)| (e.0@, e.1))
}

proof fn lemma_outcomes_count(events: Seq<(Seq<char>, bool)>)
    ensures
        outcome_targets(events, false).len() == failure_count(events),
    decreases events.len(),
{
    broadcast use vstd::multiset::group_multiset_axioms;
    if events.len() > 0 {
        let rest = events.drop_last();
        let a = events.last();
        lemma_outcomes_count(rest);
        assert(events =~= rest.push(a));
        vstd::seq_lib::to_multiset_build(rest, a);
        let m = rest.to_multiset();
        if !a.1 {
            assert(failures_of(m.insert(a)) =~= failures_of(m).insert(a));
        } else {
            assert(failures_of(m.insert(a)) =~= failures_of(m));
        }
    } else {
        vstd::seq_lib::to_multiset_len(events);
        assert(events.to_multiset() =~= Multiset::empty()) by {
            assert forall|e| events.to_multiset().count(e) == 0 by {
                vstd::seq_lib::to_multiset_contains(events, e);
            }
        }
        assert(failures_of(Multiset::<(Seq<char>, bool)>::empty()) =~= Multiset::empty());
    }
}

/// Aggregation law: whatever order the outcomes of a run arrive in (two
/// arrival orders being the same multiset of outcomes), the failure list has
/// one entry per failing target, the same count in both orders, and the run
/// fails exactly when that count is positive.
pub proof fn lemma_aggregation(a: Seq<(Seq<char>, bool)>, b: Seq<(Seq<char>, bool)>)
    requires
        a.to_multiset() == b.to_multiset(),
    ensures
        outcome_targets(a, false).len() == failure_count(a),
        outcome_targets(b, false).len() == failure_count(b),
        failure_count(a) == failure_count(b),
        (outcome_targets(a, false).len() > 0) == (outcome_targets(b, false).len() > 0),
{
    lemma_outcomes_count(a);
    lemma_outcomes_count(b);
}

/// Host-specific tips for installing a cross linker.
pub open spec fn linker_tips_spec(host_os: Seq<char>, target_os: Seq<char>, triple: Seq<char>) -> Seq<Seq<char>> {
    if host_os == "macos"@ && target_os == "linux"@ {
        seq![
            "For Linux cross-compilation on macOS, consider using Zig: brew install zig"@,
            "Then build with: xcargo build --target "@ + triple + " --zig"@,
        ]
    } else if host_os == "macos"@ && target_os == "windows"@ {
        seq!["Install MinGW for Windows cross-compilation: brew install mingw-w64"@]
    } else if host_os == "linux"@ && target_os == "windows"@ {
        seq![
            "Install MinGW: sudo apt install mingw-w64 (Debian/Ubuntu)"@,
            "Or: sudo dnf install mingw64-gcc (Fedora)"@,
        ]
    } else if host_os == "linux"@ && target_os == "macos"@ {
        seq!["macOS cross-compilation requires osxcross: https://github.com/tpoechtrager/osxcross"@]
    } else if host_os == "windows"@ && target_os == "linux"@ {
        seq!["For Linux cross-compilation on Windows, consider using WSL or containers"@]
    } else {
        seq!["Install cross-compilation tools for "@ + host_os + " → "@ + target_os]
    }
}

fn one(s: String) -> (r: Vec<String>)
    ensures
        strings_view(r@) == seq![s@],
{
    let mut v = Vec::new();
    v.push(s);
    assert(strings_view(v@) =~= seq![s@]);
    v
}

fn pair(a: String, b: String) -> (r: Vec<String>)
    ensures
        strings_view(r@) == seq![a@, b@],
{
    let mut v = Vec::new();
    v.push(a);
    v.push(b);
    assert(strings_view(v@) =~= seq![a@, b@]);
    v
}

fn append_strings(out: &mut Vec<String>, items: &Vec<String>)
    ensures
        strings_view(final(out)@) == strings_view(old(out)@) + strings_view(items@),
{
    let ghost start = strings_view(out@);
    let mut i: usize = 0;
    while i < items.len()
        invariant
            i <= items.len(),
            strings_view(out@) == start + strings_view(items@.subrange(0, i as int)),
        decreases items.len() - i,
    {
        let ghost before = strings_view(out@);
        out.push(owned(items[i].as_str()));
        proof {
            assert(strings_view(out@) =~= before.push(items@[i as int]@));
            assert(strings_view(items@.subrange(0, i + 1)) =~= strings_view(items@.subrange(0, i as int)).push(items@[i as int]@));
        }
        i = i + 1;
    }
    assert(items@.subrange(0, items.len() as int) =~= items@);
}

fn append_pairs(out: &mut Vec<(String, String)>, items: &Vec<(String, String)>)
    ensures
        pairs_view(final(out)@) == pairs_view(old(out)@) + pairs_view(items@),
{
    let ghost start = pairs_view(out@);
    let mut i: usize = 0;
    while i < items.len()
        invariant
            i <= items.len(),
            pairs_view(out@) == start + pairs_view(items@.subrange(0, i as int)),
        decreases items.len() - i,
    {
        let ghost before = pairs_view(out@);
        out.push((owned(items[i].0.as_str()), owned(items[i].1.as_str())));
        proof {
            assert(pairs_view(out@) =~= before.push((items@[i as int].0@, items@[i as int].1@)));
            assert(pairs_view(items@.subrange(0, i + 1)) =~= pairs_view(items@.subrange(0, i as int)).push((items@[i as int].0@, items@[i as int].1@)));
        }
        i = i + 1;
    }
    assert(items@.subrange(0, items.len() as int) =~= items@);
}

fn contains_string(v: &Vec<String>, s: &str) -> (r: bool)
    ensures
        r == strings_view(v@).contains(s@),
{
    let mut i: usize = 0;
    while i < v.len()
        invariant
            i <= v.len(),
            forall|j: int| 0 <= j < i ==> v@[j]@ != s@,
        decreases v.len() - i,
    {
        if str_eq(v[i].as_str(), s) {
            assert(strings_view(v@)[i as int] == s@);
            return true;
        }
        i = i + 1;
    }
    assert(!strings_view(v@).contains(s@)) by {
        if strings_view(v@).contains(s@) {
            let j = choose|j: int| 0 <= j < strings_view(v@).len() && strings_view(v@)[j] == s@;
            assert(v@[j]@ == s@);
        }
    }
    false
}

fn push_kept_flags(out: &mut Vec<String>, flags: &Vec<String>, verbose: bool)
    ensures
        strings_view(final(out)@) == strings_view(old(out)@) + kept_flags(strings_view(flags@), verbose),
{
    let ghost start = strings_view(out@);
    let mut i: usize = 0;
    while i < flags.len()
        invariant
            i <= flags.len(),
            strings_view(out@) == start + kept_flags(strings_view(flags@.subrange(0, i as int)), verbose),
        decreases flags.len() - i,
    {
        let ghost before = strings_view(out@);
        proof {
            let pre = strings_view(flags@.subrange(0, i + 1));
            assert(pre.drop_last() =~= strings_view(flags@.subrange(0, i as int)));
            assert(pre.last() == flags@[i as int]@);
        }
        if !str_eq(flags[i].as_str(), "--verbose") || !verbose {
            out.push(owned(flags[i].as_str()));
            assert(strings_view(out@) =~= before.push(flags@[i as int]@));
        }
        i = i + 1;
    }
    assert(flags@.subrange(0, flags.len() as int) =~= flags@);
}

/// Build executor: decides the strategy for each target.
#[derive(Debug, Clone)]
pub struct Builder {
    /// Configuration
    config: Config,
    /// Zig toolchain (if available)
    zig_toolchain: Option<ZigToolchain>,
    /// The host platform
    host: Target,
}

impl Builder {
    pub closed spec fn config_spec(&self) -> Config {
        self.config
    }

    pub closed spec fn zig_spec(&self) -> Option<ZigToolchain> {
        self.zig_toolchain
    }

    pub closed spec fn host_spec(&self) -> Target {
        self.host
    }

    /// A builder with the default configuration for `host`, using the
    /// wrapper toolchain if one was detected.
    pub fn new(host: Target, zig_toolchain: Option<ZigToolchain>) -> (r: Result<Self>)
        ensures
            (r matches Ok(b) && b.host_spec() == host && b.zig_spec() == zig_toolchain
                && b.config_spec().targets.default.len() == 0
                && b.config_spec().targets.custom.len() == 0
                && b.config_spec().container.use_when@ == "target.os != host.os"@
                && b.config_spec().build.cargo_flags.len() == 0),
    {
        Ok(Builder { config: Config::default(), zig_toolchain, host })
    }

    /// Create a builder with a specific configuration
    pub fn with_config(config: Config, host: Target, zig_toolchain: Option<ZigToolchain>) -> (r: Result<Self>)
        ensures
            (r matches Ok(b) && b.config_spec() == config && b.host_spec() == host
                && b.zig_spec() == zig_toolchain),
    {
        Ok(Builder { config, zig_toolchain, host })
    }

    /// The wrapper toolchain, if one was detected
    pub fn zig_toolchain(&self) -> (r: Option<&ZigToolchain>)
        ensures
            r == match self.zig_spec() {
                Some(z) => Some(&z),
                None => None::<&ZigToolchain>,
            },
    {
        match &self.zig_toolchain {
            Some(z) => Some(z),
            None => None,
        }
    }

    /// The host platform
    pub fn host(&self) -> (r: &Target)
        ensures
            *r == self.host_spec(),
    {
        &self.host
    }

    /// The configuration in use
    pub fn config(&self) -> (r: &Config)
        ensures
            *r == self.config_spec(),
    {
        &self.config
    }

    /// The triple to build: the explicit one, else the first configured
    /// default, else the host's.
    pub open spec fn effective_triple_spec(&self, options: BuildOptions) -> Seq<char> {
        match options.target {
            Some(t) => t@,
            None => if self.config_spec().targets.default.len() > 0 {
                self.config_spec().targets.default@[0]@
            } else {
                self.host_spec().triple@
            },
        }
    }

    /// The triple to build: the explicit one, else the first configured
    /// default, else the host's.
    pub fn effective_triple(&self, options: &BuildOptions) -> (r: String)
        ensures
            r@ == self.effective_triple_spec(*options),
    {
        match &options.target {
            Some(t) => owned(t.as_str()),
            None => if self.config.targets.default.len() > 0 {
                owned(self.config.targets.default[0].as_str())
            } else {
                owned(self.host.triple.as_str())
            },
        }
    }

    /// Determine if a container build should be used for this target,
    /// according to the configured policy.
    pub fn should_use_container_for_target(&self, target: &Target) -> (r: bool)
        ensures
            r == container_policy(self.config_spec().container.use_when@, target.os@, self.host_spec().os@),
    {
        let w = self.config.container.use_when.as_str();
        if str_eq(w, "always") {
            true
        } else if str_eq(w, "never") {
            false
        } else if str_eq(w, "target.os != host.os") {
            !str_eq(target.os.as_str(), self.host.os.as_str())
        } else {
            false
        }
    }

    /// Try to use the wrapper toolchain for this target. `Ok(Some(env))`
    /// when it is used, `Ok(None)` when the build falls through to the
    /// native strategy, and a toolchain error when it was forced but cannot
    /// serve the target.
    pub fn try_zig_cross_compilation(&self, target: &Target, options: &BuildOptions) -> (r: Result<
        Option<Vec<(String, String)>>,
    >)
        ensures
            ({
                let outcome = wrapper_outcome(
                    wrapper_mode_of(options.use_zig),
                    target.os@,
                    self.host_spec().os@,
                    self.zig_spec() is Some,
                    target.triple@,
                );
                &&& outcome == WrapperOutcome::Skip ==> (r matches Ok(None))
                &&& outcome == WrapperOutcome::Use ==> (r matches Ok(Some(env)) && pairs_view(env@)
                    == zig_env_spec(self.zig_spec()->0.cache_dir_spec(), target.triple@))
                &&& outcome == WrapperOutcome::Fail ==> (r matches Err(e) && e is Toolchain)
            }),
    {
        let mode = options.wrapper_mode();
        if mode == WrapperMode::Disable {
            return Ok(None);
        }
        let force = mode == WrapperMode::Force;
        let is_cross_os = !str_eq(target.os.as_str(), self.host.os.as_str());
        if !force && !is_cross_os {
            return Ok(None);
        }
        match &self.zig_toolchain {
            Some(zig) => {
                if zig.supports_target(target) {
                    let env = zig.environment_for_target(target)?;
                    return Ok(Some(env));
                } else if force {
                    return Err(
                        Error::Toolchain(
                            concat3(
                                "Zig does not support target '",
                                target.triple.as_str(),
                                "'. Supported targets: x86_64-linux-gnu, aarch64-linux-gnu, armv7-linux-gnueabihf",
                            ),
                        ),
                    );
                }
                Ok(None)
            },
            None => {
                if force {
                    return Err(
                        Error::Toolchain(
                            owned(
                                "Zig not found. Install Zig to use --zig flag: brew install zig (macOS) or scoop install zig (Windows)",
                            ),
                        ),
                    );
                }
                Ok(None)
            },
        }
    }

    /// Suggest platform-specific installation instructions for a linker
    pub fn suggest_linker_installation(&self, target: &Target) -> (r: Vec<String>)
        ensures
            strings_view(r@) == linker_tips_spec(self.host_spec().os@, target.os@, target.triple@),
    {
        let h = self.host.os.as_str();
        let t = target.os.as_str();
        if str_eq(h, "macos") && str_eq(t, "linux") {
            let mut second = concat2("Then build with: xcargo build --target ", target.triple.as_str());
            second.append(" --zig");
            pair(
                owned("For Linux cross-compilation on macOS, consider using Zig: brew install zig"),
                second,
            )
        } else if str_eq(h, "macos") && str_eq(t, "windows") {
            one(owned("Install MinGW for Windows cross-compilation: brew install mingw-w64"))
        } else if str_eq(h, "linux") && str_eq(t, "windows") {
            pair(
                owned("Install MinGW: sudo apt install mingw-w64 (Debian/Ubuntu)"),
                owned("Or: sudo dnf install mingw64-gcc (Fedora)"),
            )
        } else if str_eq(h, "linux") && str_eq(t, "macos") {
            one(
                owned(
                    "macOS cross-compilation requires osxcross: https://github.com/tpoechtrager/osxcross",
                ),
            )
        } else if str_eq(h, "windows") && str_eq(t, "linux") {
            one(owned("For Linux cross-compilation on Windows, consider using WSL or containers"))
        } else {
            let mut s = concat3("Install cross-compilation tools for ", h, " → ");
            s.append(t);
            one(s)
        }
    }

    /// Install tips for a target's linker, given whether it was found on the
    /// search path: none when found, else the tips for this host.
    pub fn linker_diagnostics(&self, target: &Target, linker_found: bool) -> (r: Vec<String>)
        ensures
            linker_found ==> r.len() == 0,
            !linker_found ==> strings_view(r@) == linker_tips_spec(
                self.host_spec().os@,
                target.os@,
                target.triple@,
            ),
    {
        if linker_found {
            Vec::new()
        } else {
            self.suggest_linker_installation(target)
        }
    }

    /// Install steps after a failed build, by host OS and target OS.
    pub fn failure_install_steps(&self, target: &Target) -> (r: Vec<String>)
        ensures
            strings_view(r@) == failure_install_spec(self.host_spec().os@, target.os@),
    {
        let h = self.host.os.as_str();
        let t = target.os.as_str();
        if str_eq(h, "macos") && str_eq(t, "linux") {
            pair(
                owned("Install via Homebrew: brew install SomeLinuxCrossCompiler"),
                owned("Or use a container-based build (coming soon)"),
            )
        } else if str_eq(h, "macos") && str_eq(t, "windows") {
            pair(
                owned("Install via Homebrew: brew install mingw-w64"),
                owned("Then set: [targets.\"x86_64-pc-windows-gnu\"] linker = \"x86_64-w64-mingw32-gcc\""),
            )
        } else if str_eq(h, "linux") && str_eq(t, "windows") {
            pair(
                owned("Install via package manager: sudo apt install mingw-w64"),
                owned("Then set: [targets.\"x86_64-pc-windows-gnu\"] linker = \"x86_64-w64-mingw32-gcc\""),
            )
        } else if str_eq(h, "linux") && str_eq(t, "macos") {
            pair(
                owned("macOS cross-compilation from Linux requires osxcross"),
                owned("See: https://github.com/tpoechtrager/osxcross"),
            )
        } else {
            let mut m = concat3("Cross-compiling from ", h, " to ");
            m.append(t);
            m.append(" may require specific toolchains");
            one(m)
        }
    }

    /// Remediation tips after the build driver failed for `target`, given
    /// the linker the build used and whether it is on the search path.
    pub fn failure_tips(&self, target: &Target, linker: &Option<String>, linker_found: bool) -> (r: Vec<
        String,
    >)
        ensures
            strings_view(r@) == failure_tips_spec(
                self.host_spec().os@,
                target.os@,
                target.triple@,
                target.requirements_view(),
                opt_view(*linker),
                linker_found,
            ),
    {
        let mut tips: Vec<String> = Vec::new();
        match linker {
            None => {
                let reqs = target.get_requirements();
                match &reqs.linker {
                    Some(s) => {
                        tips.push(owned("This target requires a cross-compilation linker"));
                        tips.push(concat2("Install the linker: ", s.as_str()));
                        tips.push(owned("Then configure it in xcargo.toml:"));
                        let mut line = concat3("[targets.\"", target.triple.as_str(), "\"] linker = \"");
                        line.append(s.as_str());
                        line.append("\"");
                        tips.push(line);
                        let ghost head = strings_view(tips@);
                        if reqs.tools.len() > 0 {
                            let list = crate::strs::join(&reqs.tools, ", ");
                            tips.push(concat2("Additional required tools: ", list.as_str()));
                        }
                        let ghost mid = strings_view(tips@);
                        assert(mid =~= head + if reqs@.tools.len() > 0 {
                            seq!["Additional required tools: "@ + joined(reqs@.tools, ", "@)]
                        } else {
                            seq![]
                        });
                        let steps = self.failure_install_steps(target);
                        append_strings(&mut tips, &steps);
                    },
                    None => {},
                }
            },
            Some(l) => {
                if !linker_found {
                    tips.push(concat3("The configured linker '", l.as_str(), "' is not in your PATH"));
                    tips.push(owned("Install it or update your xcargo.toml configuration"));
                }
            },
        }
        let ghost body = strings_view(tips@);
        tips.push(owned("Run with --verbose to see detailed error output"));
        assert(strings_view(tips@) =~= body.push("Run with --verbose to see detailed error output"@));
        tips
    }

    /// The build-driver arguments for a target.
    pub fn driver_args(&self, target: &Target, options: &BuildOptions) -> (r: Vec<String>)
        ensures
            strings_view(r@) == driver_args_spec(
                opt_view(options.toolchain),
                options.operation,
                target.triple@,
                options.release,
                options.verbose,
                strings_view(self.config_spec().build.cargo_flags@),
                strings_view(options.cargo_args@),
            ),
    {
        let mut args: Vec<String> = Vec::new();
        match &options.toolchain {
            Some(tc) => {
                args.push(concat2("+", tc.as_str()));
            },
            None => {},
        }
        let ghost a0 = strings_view(args@);
        args.push(owned(options.operation.as_str()));
        args.push(owned("--target"));
        args.push(owned(target.triple.as_str()));
        assert(strings_view(args@) =~= a0 + seq![options.operation.as_str_spec(), "--target"@, target.triple@]);
        let ghost a1 = strings_view(args@);
        if options.release {
            args.push(owned("--release"));
        }
        assert(strings_view(args@) =~= a1 + if options.release { seq!["--release"@] } else { seq![] });
        let ghost a2 = strings_view(args@);
        let flags = &self.config.build.cargo_flags;
        if options.verbose || contains_string(flags, "--verbose") {
            args.push(owned("--verbose"));
        }
        assert(strings_view(args@) =~= a2 + if options.verbose || strings_view(flags@).contains("--verbose"@) { seq!["--verbose"@] } else { seq![] });
        push_kept_flags(&mut args, flags, options.verbose);
        append_strings(&mut args, &options.cargo_args);
        proof {
            let tc = match opt_view(options.toolchain) {
                Some(t) => seq!["+"@ + t],
                None => Seq::<Seq<char>>::empty(),
            };
            assert(a0 =~= tc);
        }
        args
    }

    /// Decide how to build one target and compute everything needed to do
    /// it. The container strategy short-circuits the others; a forced
    /// wrapper that cannot serve the target fails the selection; otherwise
    /// the native strategy resolves a linker. Configured variables are
    /// layered over the strategy's.
    pub fn plan_build(&self, options: &BuildOptions) -> (r: Result<BuildPlan>)
        ensures
            !is_valid_triple(self.effective_triple_spec(*options)) ==> (r matches Err(e) && e is TargetNotFound),
            r matches Ok(p) ==> p.target.wf() && p.target.triple@ == self.effective_triple_spec(*options),
            r matches Ok(p) ==> (p.strategy != Strategy::Container ==> strings_view(p.args@)
                == driver_args_spec(
                    opt_view(options.toolchain),
                    options.operation,
                    self.effective_triple_spec(*options),
                    options.release,
                    options.verbose,
                    strings_view(self.config_spec().build.cargo_flags@),
                    strings_view(options.cargo_args@),
                )),
            is_valid_triple(self.effective_triple_spec(*options)) && options.use_container ==> (r matches Ok(p)
                && p.strategy == Strategy::Container),
            r matches Ok(p) ==> (p.strategy != Strategy::Native ==> p.diagnostics.len() == 0),
            r matches Ok(p) ==> (p.strategy == Strategy::Native ==> (p.linker is None ==> p.diagnostics.len() == 0)
                && (p.diagnostics.len() == 0 || strings_view(p.diagnostics@) == linker_tips_spec(
                self.host_spec().os@,
                p.target.os@,
                p.target.triple@,
            ))),
            ({
                let triple = self.effective_triple_spec(*options);
                let container = options.use_container || container_policy(
                    self.config_spec().container.use_when@,
                    os_of(triple),
                    self.host_spec().os@,
                );
                let outcome = wrapper_outcome(
                    wrapper_mode_of(options.use_zig),
                    os_of(triple),
                    self.host_spec().os@,
                    self.zig_spec() is Some,
                    triple,
                );
                let custom = custom_view(self.config_spec(), triple);
                is_valid_triple(triple) ==> {
                    &&& container ==> (r matches Ok(p) && p.strategy == Strategy::Container
                        && (p.container matches Some(req)
                        && req.runtime == requested_runtime(self.config_spec().container.runtime@)
                        && strings_view(req.cargo_args@) == container_args_spec(
                        options.release,
                        options.verbose,
                        strings_view(options.cargo_args@),
                    ) && pairs_view(req.env@) == match custom {
                        Some(c) => c.env,
                        None => Seq::<(Seq<char>, Seq<char>)>::empty(),
                    }))
                    &&& !container && outcome == WrapperOutcome::Fail ==> (r matches Err(e) && e is Toolchain)
                    &&& !container && outcome == WrapperOutcome::Use ==> (r matches Ok(p)
                        && p.strategy == Strategy::Wrapper
                        && pairs_view(p.env@) == layered_env(zig_env_spec(self.zig_spec()->0.cache_dir_spec(), triple), custom))
                    &&& !container && outcome == WrapperOutcome::Skip ==> (r matches Ok(p)
                        && p.strategy == Strategy::Native
                        && opt_view(p.linker) == native_linker(custom, p.target.requirements_view().linker)
                        && pairs_view(p.env@) == layered_env(
                            match opt_view(p.linker) {
                                Some(l) => seq![(linker_var_spec(upper_of(triple)), l)],
                                None => seq![],
                            },
                            custom,
                        ))
                }
            }),
    {
        let triple = self.effective_triple(options);
        let target = Target::from_triple(triple.as_str())?;
        let target_config = self.config.get_target_config(target.triple.as_str());
        let ghost custom = custom_view(self.config, target.triple@);
        proof {
            crate::config::lemma_find_key_some(self.config.targets.custom@, target.triple@);
        }
        if options.use_container || self.should_use_container_for_target(&target) {
            let runtime = match RuntimeType::from_str(self.config.container.runtime.as_str()) {
                Ok(t) => t,
                Err(_) => RuntimeType::Auto,
            };
            let env = match target_config {
                Some(c) => copy_pairs(&c.env),
                None => Vec::new(),
            };
            let mut cargo_args: Vec<String> = Vec::new();
            if options.verbose {
                cargo_args.push(owned("--verbose"));
            }
            let ghost v0 = strings_view(cargo_args@);
            assert(v0 =~= if options.verbose { seq!["--verbose"@] } else { seq![] });
            if options.release {
                cargo_args.push(owned("--release"));
            }
            assert(strings_view(cargo_args@) =~= v0 + if options.release { seq!["--release"@] } else { seq![] });
            append_strings(&mut cargo_args, &options.cargo_args);
            return Ok(
                BuildPlan {
                    target,
                    strategy: Strategy::Container,
                    env: Vec::new(),
                    args: Vec::new(),
                    linker: None,
                    diagnostics: Vec::new(),
                    container: Some(ContainerRequest { runtime, env, cargo_args }),
                },
            );
        }
        let zig_env = self.try_zig_cross_compilation(&target, options)?;
        let args = self.driver_args(&target, options);
        let (strategy, mut env, linker, diagnostics) = match zig_env {
            Some(e) => (Strategy::Wrapper, e, None, Vec::new()),
            None => {
                let configured = match target_config {
                    Some(c) => copy_opt(&c.linker),
                    None => None,
                };
                let linker = match configured {
                    Some(l) => Some(l),
                    None => target.get_requirements().linker,
                };
                let mut env: Vec<(String, String)> = Vec::new();
                let mut diagnostics: Vec<String> = Vec::new();
                match &linker {
                    Some(l) => {
                        env.push((linker_env_var(target.triple.as_str()), owned(l.as_str())));
                        diagnostics = self.linker_diagnostics(&target, command_available(l.as_str()));
                    },
                    None => {},
                }
                (Strategy::Native, env, linker, diagnostics)
            },
        };
        let ghost base = pairs_view(env@);
        match target_config {
            Some(c) => {
                append_pairs(&mut env, &c.env);
                match &c.rustflags {
                    Some(f) => {
                        let ghost before = pairs_view(env@);
                        env.push((owned("RUSTFLAGS"), crate::strs::join(f, " ")));
                        assert(pairs_view(env@) =~= before.push(("RUSTFLAGS"@, joined(strings_view(f@), " "@))));
                    },
                    None => {},
                }
            },
            None => {},
        }
        Ok(BuildPlan { target, strategy, env, args, linker, diagnostics, container: None })
    }
}

proof fn lemma_env_value_append(
    base: Seq<(Seq<char>, Seq<char>)>,
    extra: Seq<(Seq<char>, Seq<char>)>,
    key: Seq<char>,
)
    requires
        env_value(extra, key) is Some,
    ensures
        env_value(base + extra, key) == env_value(extra, key),
    decreases extra.len(),
{
    let all = base + extra;
    assert(all.drop_last() =~= base + extra.drop_last());
    assert(all.last() == extra.last());
    if extra.last().0 != key {
        lemma_env_value_append(base, extra.drop_last(), key);
    }
}

/// Configuration wins on a key collision: a variable that the target's
/// configuration sets (other than the rustflags variable when rustflags are
/// configured) takes the configured value whatever the strategy set.
pub proof fn lemma_config_env_precedence(
    base: Seq<(Seq<char>, Seq<char>)>,
    c: TargetCustomView,
    key: Seq<char>,
)
    requires
        env_value(c.env, key) is Some,
        c.rustflags is Some ==> key != "RUSTFLAGS"@,
    ensures
        env_value(layered_env(base, Some(c)), key) == env_value(c.env, key),
{
    lemma_env_value_append(base, c.env, key);
    if let Some(f) = c.rustflags {
        let with_env = base + c.env;
        let pushed = with_env.push(("RUSTFLAGS"@, joined(f, " "@)));
        assert(pushed.drop_last() =~= with_env);
    }
}


/// Building `x86_64-unknown-linux-gnu` on a Linux host without a container
/// request and with any policy but "always" takes the native strategy in
/// automatic wrapper mode, with no linker and so no linker variable.
pub proof fn lemma_native_linux_on_linux(use_when: Seq<char>, zig_present: bool)
    requires
        use_when != "always"@,
    ensures
        !container_policy(use_when, os_of("x86_64-unknown-linux-gnu"@), "linux"@),
        wrapper_outcome(
            WrapperMode::Auto,
            os_of("x86_64-unknown-linux-gnu"@),
            "linux"@,
            zig_present,
            "x86_64-unknown-linux-gnu"@,
        ) == WrapperOutcome::Skip,
        native_linker(
            None,
            crate::target::requirements_spec(
                os_of("x86_64-unknown-linux-gnu"@),
                crate::target::arch_of("x86_64-unknown-linux-gnu"@),
                crate::target::env_of("x86_64-unknown-linux-gnu"@),
            ).linker,
        ) is None,
{
    crate::target::lemma_native_linux_triple();
}

/// With no per-target configuration, the native strategy for
/// `aarch64-unknown-linux-gnu` uses the requirement table's linker.
pub proof fn lemma_aarch64_native_linker()
    ensures
        native_linker(
            None,
            crate::target::requirements_spec(
                os_of("aarch64-unknown-linux-gnu"@),
                crate::target::arch_of("aarch64-unknown-linux-gnu"@),
                crate::target::env_of("aarch64-unknown-linux-gnu"@),
            ).linker,
        ) == Some("aarch64-linux-gnu-gcc"@),
{
    crate::target::lemma_aarch64_linux_triple();
}

} // verus!
