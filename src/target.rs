//! Target triples: parsing, tier classification and toolchain requirements.
use vstd::prelude::*;
use crate::error::{opt_view, Error, Result};
use crate::strs::{concat2, concat3, contains, has_infix, has_prefix, lines, lines_from, occurs_at, trim, trim_of, owned, starts_with, str_eq, to_strings};
use crate::container::{lower_of, lowercase};

verus! {

/// Index of the first `-` in `s` at or after `from`, or `s.len()` when there is none.
pub open spec fn find_dash(s: Seq<char>, from: int) -> int
    decreases s.len() - from,
{
    if from >= s.len() {
        s.len() as int
    } else if s[from] == '-' {
        from
    } else {
        find_dash(s, from + 1)
    }
}

/// End of the first segment of a triple.
pub open spec fn dash1(s: Seq<char>) -> int {
    find_dash(s, 0)
}

/// End of the second segment of a triple.
pub open spec fn dash2(s: Seq<char>) -> int {
    find_dash(s, dash1(s) + 1)
}

/// End of the third segment of a triple.
pub open spec fn dash3(s: Seq<char>) -> int {
    find_dash(s, dash2(s) + 1)
}

/// A triple is well formed when it has at least three dash-separated
/// segments, that is at least two dashes.
pub open spec fn is_valid_triple(s: Seq<char>) -> bool {
    dash2(s) < s.len()
}

/// Architecture segment of a well-formed triple.
pub open spec fn arch_of(s: Seq<char>) -> Seq<char> {
    s.subrange(0, dash1(s))
}

/// Vendor segment of a well-formed triple.
pub open spec fn vendor_of(s: Seq<char>) -> Seq<char> {
    s.subrange(dash1(s) + 1, dash2(s))
}

/// Operating-system segment of a well-formed triple.
pub open spec fn os_of(s: Seq<char>) -> Seq<char> {
    s.subrange(dash2(s) + 1, dash3(s))
}

/// Everything after the third dash (the remaining segments joined by `-`), if any.
pub open spec fn env_of(s: Seq<char>) -> Option<Seq<char>> {
    if dash3(s) < s.len() {
        Some(s.subrange(dash3(s) + 1, s.len() as int))
    } else {
        None
    }
}

/// The fixed allow-list of targets that build natively.
pub open spec fn native_listed(t: Seq<char>) -> bool {
    t == "x86_64-unknown-linux-gnu"@ || t == "x86_64-unknown-linux-musl"@ || t
        == "x86_64-pc-windows-gnu"@ || t == "x86_64-apple-darwin"@ || t == "aarch64-apple-darwin"@
        || t == "i686-pc-windows-gnu"@ || t == "i686-unknown-linux-gnu"@
}

/// Mobile, embedded or WebAssembly markers in a triple.
pub open spec fn has_special_marker(t: Seq<char>) -> bool {
    has_infix(t, "android"@) || has_infix(t, "ios"@) || has_prefix(t, "wasm"@) || has_prefix(
        t,
        "thumb"@,
    ) || has_prefix(t, "riscv"@)
}

/// The tier of a triple: allow-list first, then the specialised markers,
/// else container-recommended.
pub open spec fn tier_of(t: Seq<char>) -> TargetTier {
    if native_listed(t) {
        TargetTier::Native
    } else if has_special_marker(t) {
        TargetTier::Specialized
    } else {
        TargetTier::Container
    }
}

proof fn lemma_find_dash_skip(s: Seq<char>, from: int, i: int)
    requires
        0 <= from <= i <= s.len(),
        forall|j: int| from <= j < i ==> s[j] != '-',
    ensures
        find_dash(s, from) == find_dash(s, i),
    decreases i - from,
{
    if from < i {
        lemma_find_dash_skip(s, from + 1, i);
    }
}

proof fn lemma_find_dash_bounds(s: Seq<char>, from: int)
    requires
        0 <= from,
    ensures
        from <= s.len() ==> from <= find_dash(s, from) <= s.len(),
        from > s.len() ==> find_dash(s, from) == s.len(),
        find_dash(s, from) < s.len() ==> s[find_dash(s, from)] == '-',
    decreases s.len() - from,
{
    if from < s.len() && s[from] != '-' {
        lemma_find_dash_bounds(s, from + 1);
    }
}

/// Index of the first `-` in `s` at or after `from`, or the length of `s`.
fn find_dash_exec(s: &str, from: usize) -> (r: usize)
    ensures
        r as int == find_dash(s@, from as int),
{
    let n = s.unicode_len();
    if from >= n {
        return n;
    }
    let mut i = from;
    while i < n
        invariant
            n == s@.len(),
            from <= i <= n,
            forall|j: int| from <= j < i ==> s@[j] != '-',
        decreases n - i,
    {
        if s.get_char(i) == '-' {
            proof {
                lemma_find_dash_skip(s@, from as int, i as int);
            }
            return i;
        }
        i = i + 1;
    }
    proof {
        lemma_find_dash_skip(s@, from as int, n as int);
    }
    n
}

/// The requirement set of a target, as plain values.
pub struct RequirementsView {
    pub linker: Option<Seq<char>>,
    pub tools: Seq<Seq<char>>,
    pub system_libs: Seq<Seq<char>>,
    pub env_vars: Seq<(Seq<char>, Seq<char>)>,
}

/// Character views of a list of strings.
pub open spec fn strings_view(v: Seq<String>) -> Seq<Seq<char>> {
    v.map_values(|s: String| s@)
}

/// Character views of a list of string pairs.
pub open spec fn pairs_view(v: Seq<(String, String)>) -> Seq<(Seq<char>, Seq<char>)> {
    v.map_values(|p: (String, String)| (p.0@, p.1@))
}

/// Requirements with a single linker that is also the single required tool.
pub open spec fn linker_reqs(l: Seq<char>) -> RequirementsView {
    RequirementsView { linker: Some(l), tools: seq![l], system_libs: seq![], env_vars: seq![] }
}

/// Requirements with one tool and no linker.
pub open spec fn tool_reqs(t: Seq<char>) -> RequirementsView {
    RequirementsView { linker: None, tools: seq![t], system_libs: seq![], env_vars: seq![] }
}

/// No requirements at all: the default toolchain suffices.
pub open spec fn no_reqs() -> RequirementsView {
    RequirementsView { linker: None, tools: seq![], system_libs: seq![], env_vars: seq![] }
}

/// The requirement table, keyed by (os, arch, environment).
pub open spec fn requirements_spec(
    os: Seq<char>,
    arch: Seq<char>,
    env: Option<Seq<char>>,
) -> RequirementsView {
    if os == "linux"@ && arch == "aarch64"@ && env == Some("gnu"@) {
        linker_reqs("aarch64-linux-gnu-gcc"@)
    } else if os == "linux"@ && arch == "aarch64"@ && env == Some("musl"@) {
        linker_reqs("aarch64-linux-musl-gcc"@)
    } else if os == "linux"@ && arch == "armv7"@ {
        linker_reqs("arm-linux-gnueabihf-gcc"@)
    } else if os == "linux"@ && arch == "arm"@ {
        linker_reqs("arm-linux-gnueabi-gcc"@)
    } else if os == "windows"@ && arch == "x86_64"@ && env == Some("gnu"@) {
        linker_reqs("x86_64-w64-mingw32-gcc"@)
    } else if os == "windows"@ && arch == "i686"@ && env == Some("gnu"@) {
        linker_reqs("i686-w64-mingw32-gcc"@)
    } else if os == "windows"@ && env == Some("msvc"@) {
        tool_reqs("cl.exe"@)
    } else if os == "android"@ {
        RequirementsView {
            linker: None,
            tools: seq!["ndk-build"@],
            system_libs: seq![],
            env_vars: seq![("ANDROID_NDK_HOME"@, "$ANDROID_NDK_HOME"@)],
        }
    } else if os == "ios"@ || (os == "darwin"@ && env == Some("ios"@)) {
        tool_reqs("xcrun"@)
    } else {
        no_reqs()
    }
}

/// Represents the requirements needed to build for a target
#[derive(Debug, Clone, PartialEq, Eq)]
pub struct TargetRequirements {
    /// Linker required for this target
    pub linker: Option<String>,
    /// Additional tools needed (e.g., "lld", "gcc-aarch64-linux-gnu")
    pub tools: Vec<String>,
    /// System libraries needed
    pub system_libs: Vec<String>,
    /// Environment variables that should be set
    pub env_vars: Vec<(String, String)>,
}

impl View for TargetRequirements {
    type V = RequirementsView;

    open spec fn view(&self) -> RequirementsView {
        RequirementsView {
            linker: opt_view(self.linker),
            tools: strings_view(self.tools@),
            system_libs: strings_view(self.system_libs@),
            env_vars: pairs_view(self.env_vars@),
        }
    }
}

/// Relies on `which::which`: whether `cmd` resolves to an executable on the
/// search path. The answer depends on the machine, so nothing is promised.
#[verifier::external_body]
pub(crate) fn command_available(cmd: &str) -> bool {
    which::which(cmd).is_ok()
}

fn single(s: &str) -> (r: Vec<String>)
    ensures
        strings_view(r@) == seq![s@],
{
    let mut v = Vec::new();
    v.push(owned(s));
    assert(strings_view(v@) =~= seq![s@]);
    v
}

fn with_linker(l: &str) -> (r: TargetRequirements)
    ensures
        r@ == linker_reqs(l@),
{
    let r = TargetRequirements {
        linker: Some(owned(l)),
        tools: single(l),
        system_libs: Vec::new(),
        env_vars: Vec::new(),
    };
    assert(strings_view(r.system_libs@) =~= seq![]);
    assert(pairs_view(r.env_vars@) =~= seq![]);
    r
}

fn with_tool(t: &str) -> (r: TargetRequirements)
    ensures
        r@ == tool_reqs(t@),
{
    let r = TargetRequirements {
        linker: None,
        tools: single(t),
        system_libs: Vec::new(),
        env_vars: Vec::new(),
    };
    assert(strings_view(r.system_libs@) =~= seq![]);
    assert(pairs_view(r.env_vars@) =~= seq![]);
    r
}

impl TargetRequirements {
    /// Create empty requirements
    pub fn none() -> (r: Self)
        ensures
            r@ == no_reqs(),
    {
        let r = Self { linker: None, tools: Vec::new(), system_libs: Vec::new(), env_vars: Vec::new() };
        assert(strings_view(r.tools@) =~= seq![]);
        assert(strings_view(r.system_libs@) =~= seq![]);
        assert(pairs_view(r.env_vars@) =~= seq![]);
        r
    }

    /// Whether the requirements are met, given whether the linker was found
    /// and whether each tool was found: a required linker must be found, and
    /// every tool.
    pub fn requirements_met(&self, linker_found: bool, tools_found: &Vec<bool>) -> (r: bool)
        requires
            tools_found.len() == self.tools.len(),
        ensures
            r == ((self.linker is None || linker_found) && forall|i: int|
                0 <= i < tools_found.len() ==> tools_found@[i]),
    {
        if self.linker.is_some() && !linker_found {
            return false;
        }
        let mut i: usize = 0;
        while i < tools_found.len()
            invariant
                i <= tools_found.len(),
                forall|j: int| 0 <= j < i ==> tools_found@[j],
            decreases tools_found.len() - i,
        {
            if !tools_found[i] {
                return false;
            }
            i = i + 1;
        }
        true
    }

    /// Look the linker and each tool up on the search path.
    pub fn probe(&self) -> (r: (bool, Vec<bool>))
        ensures
            r.1.len() == self.tools.len(),
    {
        let linker_found = match &self.linker {
            Some(l) => command_available(l.as_str()),
            None => true,
        };
        let mut found: Vec<bool> = Vec::new();
        let mut i: usize = 0;
        while i < self.tools.len()
            invariant
                i <= self.tools.len(),
                found.len() == i,
            decreases self.tools.len() - i,
        {
            found.push(command_available(self.tools[i].as_str()));
            i = i + 1;
        }
        (linker_found, found)
    }

    /// Check if all requirements are satisfied: the linker and every tool
    /// must be found on the search path. Nothing is cached.
    pub fn are_satisfied(&self) -> (r: bool)
        ensures
            self.linker is None && self.tools.len() == 0 ==> r,
    {
        let (linker_found, tools_found) = self.probe();
        self.requirements_met(linker_found, &tools_found)
    }
}

/// Classification of target support levels
#[derive(Debug, Clone, Copy, PartialEq, Eq, Hash, Structural)]
pub enum TargetTier {
    /// Tier 1: Native compilation (fast, no containers)
    Native,
    /// Tier 2: Container-based (automatic fallback)
    Container,
    /// Tier 3: Specialized (mobile, embedded, etc.)
    Specialized,
}

impl TargetTier {
    /// Human-readable name of the tier.
    pub fn label(&self) -> (r: &'static str)
        ensures
            r@ == (match self {
                TargetTier::Native => "Tier 1 (Native)"@,
                TargetTier::Container => "Tier 2 (Container)"@,
                TargetTier::Specialized => "Tier 3 (Specialized)"@,
            }),
    {
        match self {
            TargetTier::Native => "Tier 1 (Native)",
            TargetTier::Container => "Tier 2 (Container)",
            TargetTier::Specialized => "Tier 3 (Specialized)",
        }
    }
}

/// Represents a target platform for cross-compilation
#[derive(Debug, Clone, PartialEq, Eq, Hash)]
pub struct Target {
    /// The full target triple (e.g., "x86_64-unknown-linux-gnu")
    pub triple: String,
    /// Target architecture (e.g., "`x86_64`", "aarch64")
    pub arch: String,
    /// Target vendor (e.g., "unknown", "apple", "pc")
    pub vendor: String,
    /// Target operating system (e.g., "linux", "windows", "darwin")
    pub os: String,
    /// Target environment/ABI (e.g., "gnu", "musl", "msvc")
    pub env: Option<String>,
    /// Target tier (1 = native, 2 = container, 3 = specialized)
    pub tier: TargetTier,
}

impl Target {
    /// The descriptor is exactly the parse of its own triple.
    pub open spec fn wf(&self) -> bool {
        &&& is_valid_triple(self.triple@)
        &&& self.arch@ == arch_of(self.triple@)
        &&& self.vendor@ == vendor_of(self.triple@)
        &&& self.os@ == os_of(self.triple@)
        &&& opt_view(self.env) == env_of(self.triple@)
        &&& self.tier == tier_of(self.triple@)
    }

    /// The requirements this target needs, as plain values.
    pub open spec fn requirements_view(&self) -> RequirementsView {
        requirements_spec(self.os@, self.arch@, opt_view(self.env))
    }

    /// Parse a target triple string into a Target struct
    ///
    /// Fails exactly when the triple has fewer than three dash-separated
    /// segments; on success every field is the matching segment of the input.
    pub fn from_triple(triple: &str) -> (r: Result<Self>)
        ensures
            r is Ok <==> is_valid_triple(triple@),
            r matches Ok(t) ==> t.wf() && t.triple@ == triple@,
            r matches Err(e) ==> (e matches Error::TargetNotFound(m) && m@ == "Invalid target triple: "@
                + triple@ + ". Expected format: arch-vendor-os[-env]"@),
    {
        let n = triple.unicode_len();
        let d1 = find_dash_exec(triple, 0);
        proof {
            lemma_find_dash_bounds(triple@, 0);
        }
        if d1 >= n {
            proof {
                lemma_find_dash_bounds(triple@, d1 + 1);
            }
            return Err(
                Error::TargetNotFound(
                    concat3(
                        "Invalid target triple: ",
                        triple,
                        ". Expected format: arch-vendor-os[-env]",
                    ),
                ),
            );
        }
        let d2 = find_dash_exec(triple, d1 + 1);
        proof {
            lemma_find_dash_bounds(triple@, d1 + 1);
        }
        if d2 >= n {
            return Err(
                Error::TargetNotFound(
                    concat3(
                        "Invalid target triple: ",
                        triple,
                        ". Expected format: arch-vendor-os[-env]",
                    ),
                ),
            );
        }
        let d3 = find_dash_exec(triple, d2 + 1);
        proof {
            lemma_find_dash_bounds(triple@, d2 + 1);
        }
        let arch = owned(triple.substring_char(0, d1));
        let vendor = owned(triple.substring_char(d1 + 1, d2));
        let os = owned(triple.substring_char(d2 + 1, d3));
        let env = if d3 < n {
            Some(owned(triple.substring_char(d3 + 1, n)))
        } else {
            None
        };
        let tier = Self::classify_tier(triple);
        Ok(Target { triple: owned(triple), arch, vendor, os, env, tier })
    }

    /// Classify a target into a tier based on its triple
    pub fn classify_tier(triple: &str) -> (r: TargetTier)
        ensures
            r == tier_of(triple@),
    {
        if str_eq(triple, "x86_64-unknown-linux-gnu") || str_eq(triple, "x86_64-unknown-linux-musl")
            || str_eq(triple, "x86_64-pc-windows-gnu") || str_eq(triple, "x86_64-apple-darwin")
            || str_eq(triple, "aarch64-apple-darwin") || str_eq(triple, "i686-pc-windows-gnu")
            || str_eq(triple, "i686-unknown-linux-gnu") {
            return TargetTier::Native;
        }
        if contains(triple, "android") || contains(triple, "ios") || starts_with(triple, "wasm")
            || starts_with(triple, "thumb") || starts_with(triple, "riscv") {
            return TargetTier::Specialized;
        }
        TargetTier::Container
    }

    /// Check if native compilation is likely possible for this target
    pub fn supports_native_build(&self) -> (r: bool)
        ensures
            r == (self.tier == TargetTier::Native),
    {
        matches!(self.tier, TargetTier::Native)
    }

    /// Check if this target requires container-based compilation
    pub fn requires_container(&self) -> (r: bool)
        ensures
            r == (self.tier != TargetTier::Native),
    {
        matches!(self.tier, TargetTier::Container | TargetTier::Specialized)
    }

    /// Get the requirements needed to build for this target
    pub fn get_requirements(&self) -> (r: TargetRequirements)
        ensures
            r@ == self.requirements_view(),
    {
        let os = self.os.as_str();
        let arch = self.arch.as_str();
        let (gnu, musl, msvc, ios_env) = match &self.env {
            Some(e) => (
                str_eq(e.as_str(), "gnu"),
                str_eq(e.as_str(), "musl"),
                str_eq(e.as_str(), "msvc"),
                str_eq(e.as_str(), "ios"),
            ),
            None => (false, false, false, false),
        };
        let linux = str_eq(os, "linux");
        let windows = str_eq(os, "windows");
        if linux && str_eq(arch, "aarch64") && gnu {
            with_linker("aarch64-linux-gnu-gcc")
        } else if linux && str_eq(arch, "aarch64") && musl {
            with_linker("aarch64-linux-musl-gcc")
        } else if linux && str_eq(arch, "armv7") {
            with_linker("arm-linux-gnueabihf-gcc")
        } else if linux && str_eq(arch, "arm") {
            with_linker("arm-linux-gnueabi-gcc")
        } else if windows && str_eq(arch, "x86_64") && gnu {
            with_linker("x86_64-w64-mingw32-gcc")
        } else if windows && str_eq(arch, "i686") && gnu {
            with_linker("i686-w64-mingw32-gcc")
        } else if windows && msvc {
            with_tool("cl.exe")
        } else if str_eq(os, "android") {
            let mut env_vars = Vec::new();
            env_vars.push((owned("ANDROID_NDK_HOME"), owned("$ANDROID_NDK_HOME")));
            let r = TargetRequirements {
                linker: None,
                tools: single("ndk-build"),
                system_libs: Vec::new(),
                env_vars,
            };
            assert(strings_view(r.system_libs@) =~= seq![]);
            assert(pairs_view(r.env_vars@) =~= seq![("ANDROID_NDK_HOME"@, "$ANDROID_NDK_HOME"@)]);
            r
        } else if str_eq(os, "ios") || (str_eq(os, "darwin") && ios_env) {
            with_tool("xcrun")
        } else {
            TargetRequirements::none()
        }
    }

    /// Check if we can build for this target without containers: the same
    /// triple as the host always can; otherwise the target must be of the
    /// native tier and its requirements present on the search path.
    pub fn can_cross_compile_from(&self, host: &Target) -> (r: bool)
        ensures
            self.triple@ == host.triple@ ==> r,
            self.triple@ != host.triple@ && self.tier != TargetTier::Native ==> !r,
    {
        if str_eq(self.triple.as_str(), host.triple.as_str()) {
            return true;
        }
        if !self.supports_native_build() {
            return false;
        }
        let reqs = self.get_requirements();
        reqs.are_satisfied()
    }

    /// The triple itself, as shown to users.
    pub fn to_display_string(&self) -> (r: String)
        ensures
            r@ == self.triple@,
    {
        owned(self.triple.as_str())
    }
}

/// The static alias table, keyed by lowercased alias ("macos" depends on the host).
pub open spec fn alias_table(a: Seq<char>) -> Option<Seq<char>> {
    if a == "linux"@ {
        Some("x86_64-unknown-linux-gnu"@)
    } else if a == "windows"@ {
        Some("x86_64-pc-windows-gnu"@)
    } else if a == "linux-arm64"@ || a == "linux-aarch64"@ {
        Some("aarch64-unknown-linux-gnu"@)
    } else if a == "linux-armv7"@ {
        Some("armv7-unknown-linux-gnueabihf"@)
    } else if a == "linux-musl"@ {
        Some("x86_64-unknown-linux-musl"@)
    } else if a == "linux-arm64-musl"@ {
        Some("aarch64-unknown-linux-musl"@)
    } else if a == "windows-msvc"@ {
        Some("x86_64-pc-windows-msvc"@)
    } else if a == "windows-gnu"@ {
        Some("x86_64-pc-windows-gnu"@)
    } else if a == "windows-32"@ {
        Some("i686-pc-windows-gnu"@)
    } else if a == "android"@ || a == "android-arm64"@ {
        Some("aarch64-linux-android"@)
    } else if a == "android-armv7"@ {
        Some("armv7-linux-androideabi"@)
    } else if a == "android-x86"@ {
        Some("x86_64-linux-android"@)
    } else if a == "ios"@ || a == "ios-arm64"@ {
        Some("aarch64-apple-ios"@)
    } else if a == "ios-sim"@ {
        Some("aarch64-apple-ios-sim"@)
    } else if a == "wasm"@ || a == "wasm32"@ {
        Some("wasm32-unknown-unknown"@)
    } else if a == "wasi"@ {
        Some("wasm32-wasi"@)
    } else {
        None
    }
}

/// Whether the host is an Apple Silicon machine.
pub open spec fn apple_silicon_host(host: Option<&Target>) -> bool {
    match host {
        Some(h) => h.arch@ == "aarch64"@ && h.os@ == "darwin"@,
        None => false,
    }
}

/// What an alias resolves to, given its lowercased form: "macos" follows
/// the host's architecture, table entries map to their triple, and anything
/// else is kept as written.
pub open spec fn resolved_alias(lowered: Seq<char>, alias: Seq<char>, host: Option<&Target>) -> Seq<char> {
    if lowered == "macos"@ {
        if apple_silicon_host(host) {
            "aarch64-apple-darwin"@
        } else {
            "x86_64-apple-darwin"@
        }
    } else {
        match alias_table(lowered) {
            Some(t) => t,
            None => alias,
        }
    }
}

/// Linkers tried, in order, when the suggested one is not found.
pub open spec fn linker_alternatives(os: Seq<char>, arch: Seq<char>) -> Seq<Seq<char>> {
    if os == "linux"@ && arch == "aarch64"@ {
        seq!["aarch64-linux-gnu-gcc"@, "aarch64-linux-musl-gcc"@]
    } else if os == "linux"@ && arch == "armv7"@ {
        seq!["arm-linux-gnueabihf-gcc"@, "arm-linux-gnueabi-gcc"@]
    } else if os == "windows"@ && arch == "x86_64"@ {
        seq!["x86_64-w64-mingw32-gcc"@, "gcc"@]
    } else if os == "windows"@ && arch == "i686"@ {
        seq!["i686-w64-mingw32-gcc"@, "gcc"@]
    } else {
        seq!["gcc"@, "clang"@, "cc"@]
    }
}

/// Installation instructions for a target's tools, keyed by target OS,
/// target architecture and host OS.
pub open spec fn install_instructions_spec(
    os: Seq<char>,
    arch: Seq<char>,
    host_os: Seq<char>,
    triple: Seq<char>,
) -> Seq<Seq<char>> {
    if os == "linux"@ && arch == "aarch64"@ && host_os == "linux"@ {
        seq![
            "# Debian/Ubuntu:"@,
            "sudo apt-get install gcc-aarch64-linux-gnu"@,
            "# Fedora/RHEL:"@,
            "sudo dnf install gcc-aarch64-linux-gnu"@,
        ]
    } else if os == "linux"@ && arch == "aarch64"@ && host_os == "macos"@ {
        seq![
            "# macOS: Container build recommended"@,
            "# Or use cross-compilation toolchain:"@,
            "brew tap messense/macos-cross-toolchains"@,
            "brew install aarch64-unknown-linux-gnu"@,
        ]
    } else if os == "linux"@ && arch == "armv7"@ && host_os == "linux"@ {
        seq![
            "# Debian/Ubuntu:"@,
            "sudo apt-get install gcc-arm-linux-gnueabihf"@,
            "# Fedora/RHEL:"@,
            "sudo dnf install gcc-arm-linux-gnu"@,
        ]
    } else if os == "windows"@ && arch == "x86_64"@ && host_os == "linux"@ {
        seq![
            "# Debian/Ubuntu:"@,
            "sudo apt-get install mingw-w64"@,
            "# Fedora/RHEL:"@,
            "sudo dnf install mingw64-gcc"@,
        ]
    } else if os == "windows"@ && arch == "x86_64"@ && host_os == "macos"@ {
        seq!["# macOS (Homebrew):"@, "brew install mingw-w64"@]
    } else if os == "android"@ {
        seq![
            "# Install Android NDK:"@,
            "# Download from: https://developer.android.com/ndk/downloads"@,
            "export ANDROID_NDK_HOME=/path/to/ndk"@,
        ]
    } else if os == "ios"@ && host_os == "macos"@ {
        seq!["# iOS requires Xcode:"@, "xcode-select --install"@]
    } else if os == "ios"@ {
        seq!["# iOS requires macOS with Xcode"@, "# Consider using a container or CI/CD on macOS"@]
    } else {
        seq![
            "# No automatic installation instructions available for "@ + triple,
            "# Consider using container-based build"@,
        ]
    }
}

fn from_parts(parts: &[&str]) -> (r: Vec<String>)
    ensures
        strings_view(r@) == parts@.map_values(|p: &str| p@),
{
    let v = to_strings(parts);
    assert(strings_view(v@) =~= parts@.map_values(|p: &str| p@));
    v
}

/// The host triple a compiler's verbose version report names: the rest of
/// its first line that starts with `host: `, trimmed.
pub open spec fn host_line(ls: Seq<Seq<char>>) -> Option<Seq<char>>
    decreases ls.len(),
{
    if ls.len() == 0 {
        None
    } else if has_prefix(ls[0], "host: "@) {
        Some(trim_of(ls[0].subrange("host: "@.len() as int, ls[0].len() as int)))
    } else {
        host_line(ls.subrange(1, ls.len() as int))
    }
}

impl Target {
    /// The host triple named in a compiler's verbose version report.
    pub fn host_triple_from(report: &str) -> (r: Option<String>)
        ensures
            opt_view(r) == host_line(lines_from(report@, 0)),
    {
        let ls = lines(report);
        let ghost views = strings_view(ls@);
        let mut i: usize = 0;
        assert(views.subrange(0, views.len() as int) =~= views);
        while i < ls.len()
            invariant
                i <= ls.len(),
                views == strings_view(ls@),
                views == lines_from(report@, 0),
                host_line(views.subrange(i as int, views.len() as int)) == host_line(views),
            decreases ls.len() - i,
        {
            let line = ls[i].as_str();
            let ghost rest = views.subrange(i as int, views.len() as int);
            assert(views[i as int] == ls@[i as int]@);
            assert(rest[0] == line@);
            assert(rest.subrange(1, rest.len() as int) =~= views.subrange(i + 1, views.len() as int));
            assert(rest.len() > 0);
            assert(host_line(rest) == if has_prefix(rest[0], "host: "@) {
                Some(trim_of(rest[0].subrange("host: "@.len() as int, rest[0].len() as int)))
            } else {
                host_line(rest.subrange(1, rest.len() as int))
            });
            if starts_with(line, "host: ") {
                let n = line.unicode_len();
                let start = "host: ".unicode_len();
                let tail = line.substring_char(start, n);
                let t = trim(tail);
                assert(tail@ == rest[0].subrange("host: "@.len() as int, rest[0].len() as int));
                return Some(t);
            }
            i = i + 1;
        }
        assert(views.subrange(i as int, views.len() as int) =~= Seq::<Seq<char>>::empty());
        None
    }

    /// Resolve an alias whose lowercased form is already known; `host`
    /// decides which macOS triple "macos" means.
    pub fn resolve_lowered_alias(lowered: &str, alias: &str, host: Option<&Target>) -> (r: String)
        ensures
            r@ == resolved_alias(lowered@, alias@, host),
    {
        let l = lowered;
        if str_eq(l, "macos") {
            let arm = match host {
                Some(h) => str_eq(h.arch.as_str(), "aarch64") && str_eq(h.os.as_str(), "darwin"),
                None => false,
            };
            return if arm {
                owned("aarch64-apple-darwin")
            } else {
                owned("x86_64-apple-darwin")
            };
        }
        let t = if str_eq(l, "linux") {
            "x86_64-unknown-linux-gnu"
        } else if str_eq(l, "windows") {
            "x86_64-pc-windows-gnu"
        } else if str_eq(l, "linux-arm64") || str_eq(l, "linux-aarch64") {
            "aarch64-unknown-linux-gnu"
        } else if str_eq(l, "linux-armv7") {
            "armv7-unknown-linux-gnueabihf"
        } else if str_eq(l, "linux-musl") {
            "x86_64-unknown-linux-musl"
        } else if str_eq(l, "linux-arm64-musl") {
            "aarch64-unknown-linux-musl"
        } else if str_eq(l, "windows-msvc") {
            "x86_64-pc-windows-msvc"
        } else if str_eq(l, "windows-gnu") {
            "x86_64-pc-windows-gnu"
        } else if str_eq(l, "windows-32") {
            "i686-pc-windows-gnu"
        } else if str_eq(l, "android") || str_eq(l, "android-arm64") {
            "aarch64-linux-android"
        } else if str_eq(l, "android-armv7") {
            "armv7-linux-androideabi"
        } else if str_eq(l, "android-x86") {
            "x86_64-linux-android"
        } else if str_eq(l, "ios") || str_eq(l, "ios-arm64") {
            "aarch64-apple-ios"
        } else if str_eq(l, "ios-sim") {
            "aarch64-apple-ios-sim"
        } else if str_eq(l, "wasm") || str_eq(l, "wasm32") {
            "wasm32-unknown-unknown"
        } else if str_eq(l, "wasi") {
            "wasm32-wasi"
        } else {
            alias
        };
        owned(t)
    }

    /// Resolve a target alias (matched without regard to case) to a full
    /// target triple; anything that is not an alias is returned unchanged.
    pub fn resolve_alias(alias: &str, host: Option<&Target>) -> (r: Result<String>)
        ensures
            r matches Ok(s) && s@ == resolved_alias(lower_of(alias@), alias@, host),
    {
        let lowered = lowercase(alias);
        Ok(Self::resolve_lowered_alias(lowered.as_str(), alias, host))
    }

    /// Installation instructions for this target's tools on a host OS,
    /// whether or not they are present.
    pub fn install_instructions_for(&self, host_os: &str) -> (r: Vec<String>)
        ensures
            strings_view(r@) == install_instructions_spec(self.os@, self.arch@, host_os@, self.triple@),
    {
        let os = self.os.as_str();
        let arch = self.arch.as_str();
        let linux = str_eq(os, "linux");
        let windows = str_eq(os, "windows");
        let on_linux = str_eq(host_os, "linux");
        let on_mac = str_eq(host_os, "macos");
        if linux && str_eq(arch, "aarch64") && on_linux {
            from_parts(&["# Debian/Ubuntu:", "sudo apt-get install gcc-aarch64-linux-gnu", "# Fedora/RHEL:", "sudo dnf install gcc-aarch64-linux-gnu"])
        } else if linux && str_eq(arch, "aarch64") && on_mac {
            from_parts(&["# macOS: Container build recommended", "# Or use cross-compilation toolchain:", "brew tap messense/macos-cross-toolchains", "brew install aarch64-unknown-linux-gnu"])
        } else if linux && str_eq(arch, "armv7") && on_linux {
            from_parts(&["# Debian/Ubuntu:", "sudo apt-get install gcc-arm-linux-gnueabihf", "# Fedora/RHEL:", "sudo dnf install gcc-arm-linux-gnu"])
        } else if windows && str_eq(arch, "x86_64") && on_linux {
            from_parts(&["# Debian/Ubuntu:", "sudo apt-get install mingw-w64", "# Fedora/RHEL:", "sudo dnf install mingw64-gcc"])
        } else if windows && str_eq(arch, "x86_64") && on_mac {
            from_parts(&["# macOS (Homebrew):", "brew install mingw-w64"])
        } else if str_eq(os, "android") {
            from_parts(&["# Install Android NDK:", "# Download from: https://developer.android.com/ndk/downloads", "export ANDROID_NDK_HOME=/path/to/ndk"])
        } else if str_eq(os, "ios") && on_mac {
            from_parts(&["# iOS requires Xcode:", "xcode-select --install"])
        } else if str_eq(os, "ios") {
            from_parts(&["# iOS requires macOS with Xcode", "# Consider using a container or CI/CD on macOS"])
        } else {
            let first = concat2("# No automatic installation instructions available for ", self.triple.as_str());
            let mut v: Vec<String> = Vec::new();
            v.push(first);
            v.push(owned("# Consider using container-based build"));
            assert(strings_view(v@) =~= install_instructions_spec(self.os@, self.arch@, host_os@, self.triple@));
            v
        }
    }

    /// Get installation instructions for missing requirements: none when
    /// the requirements are all on the search path.
    pub fn get_install_instructions(&self, host_os: &str) -> (r: Vec<String>)
        ensures
            r.len() == 0 || strings_view(r@) == install_instructions_spec(
                self.os@,
                self.arch@,
                host_os@,
                self.triple@,
            ),
            self.requirements_view().linker is None && self.requirements_view().tools.len() == 0
                ==> r.len() == 0,
    {
        let reqs = self.get_requirements();
        let (linker_found, tools_found) = reqs.probe();
        self.install_instructions_given(host_os, linker_found, &tools_found)
    }

    /// Installation instructions given what the search path holds: none
    /// when this target's requirements are met, else the instructions for
    /// the host OS.
    pub fn install_instructions_given(&self, host_os: &str, linker_found: bool, tools_found: &Vec<
        bool,
    >) -> (r: Vec<String>)
        requires
            tools_found@.len() == self.requirements_view().tools.len(),
        ensures
            ((self.requirements_view().linker is None || linker_found) && forall|i: int|
                0 <= i < tools_found.len() ==> tools_found@[i]) ==> r.len() == 0,
            !((self.requirements_view().linker is None || linker_found) && forall|i: int|
                0 <= i < tools_found.len() ==> tools_found@[i]) ==> strings_view(r@)
                == install_instructions_spec(self.os@, self.arch@, host_os@, self.triple@),
    {
        let reqs = self.get_requirements();
        if reqs.requirements_met(linker_found, tools_found) {
            return Vec::new();
        }
        self.install_instructions_for(host_os)
    }

    /// Detect the linker that will be used for this target: the suggested
    /// one if it is on the search path, else the first alternative found.
    pub fn detect_linker(&self) -> (r: Option<String>)
        ensures
            r matches Some(l) ==> (self.requirements_view().linker == Some(l@) || linker_alternatives(
                self.os@,
                self.arch@,
            ).contains(l@)),
    {
        let reqs = self.get_requirements();
        let suggested_found = match &reqs.linker {
            Some(l) => command_available(l.as_str()),
            None => false,
        };
        let alternatives = self.linker_alternatives();
        let mut found: Vec<bool> = Vec::new();
        let mut i: usize = 0;
        while i < alternatives.len()
            invariant
                i <= alternatives.len(),
                found.len() == i,
            decreases alternatives.len() - i,
        {
            found.push(command_available(alternatives[i].as_str()));
            i = i + 1;
        }
        let r = self.choose_linker(suggested_found, &found);
        proof {
            lemma_first_found_bounds(found@, 0);
            if r is Some && !(self.requirements_view().linker == Some(r->0@)) {
                let k = first_found(found@, 0);
                assert(linker_alternatives(self.os@, self.arch@)[k] == r->0@);
            }
        }
        r
    }

    /// Linkers tried, in order, when the suggested one is not found.
    pub fn linker_alternatives(&self) -> (r: Vec<String>)
        ensures
            strings_view(r@) == linker_alternatives(self.os@, self.arch@),
    {
        let os = self.os.as_str();
        let arch = self.arch.as_str();
        if str_eq(os, "linux") && str_eq(arch, "aarch64") {
            from_parts(&["aarch64-linux-gnu-gcc", "aarch64-linux-musl-gcc"])
        } else if str_eq(os, "linux") && str_eq(arch, "armv7") {
            from_parts(&["arm-linux-gnueabihf-gcc", "arm-linux-gnueabi-gcc"])
        } else if str_eq(os, "windows") && str_eq(arch, "x86_64") {
            from_parts(&["x86_64-w64-mingw32-gcc", "gcc"])
        } else if str_eq(os, "windows") && str_eq(arch, "i686") {
            from_parts(&["i686-w64-mingw32-gcc", "gcc"])
        } else {
            from_parts(&["gcc", "clang", "cc"])
        }
    }

    /// The linker chosen from what the search path holds: the suggested one
    /// if it was found, else the first alternative found, else none.
    /// `alternatives_found[i]` tells whether alternative `i` was found.
    pub fn choose_linker(&self, suggested_found: bool, alternatives_found: &Vec<bool>) -> (r: Option<
        String,
    >)
        requires
            alternatives_found@.len() == linker_alternatives(self.os@, self.arch@).len(),
        ensures
            opt_view(r) == linker_choice(
                self.requirements_view().linker,
                suggested_found,
                linker_alternatives(self.os@, self.arch@),
                alternatives_found@,
            ),
    {
        let reqs = self.get_requirements();
        if suggested_found {
            match reqs.linker {
                Some(l) => {
                    return Some(l);
                },
                None => {},
            }
        }
        assert(!(self.requirements_view().linker is Some && suggested_found));
        let alternatives = self.linker_alternatives();
        let n = alternatives_found.len();
        let mut i: usize = 0;
        while i < n
            invariant
                n == alternatives_found@.len(),
                n == alternatives@.len(),
                strings_view(alternatives@) == linker_alternatives(self.os@, self.arch@),
                !(self.requirements_view().linker is Some && suggested_found),
                i <= n,
                forall|j: int| 0 <= j < i ==> !alternatives_found@[j],
            decreases n - i,
        {
            if alternatives_found[i] {
                proof {
                    lemma_first_found_skip(alternatives_found@, 0, i as int);
                }
                assert(strings_view(alternatives@)[i as int] == alternatives@[i as int]@);
                return Some(owned(alternatives[i].as_str()));
            }
            i = i + 1;
        }
        proof {
            lemma_first_found_skip(alternatives_found@, 0, n as int);
        }
        None
    }
}

/// Index of the first `true` in `found` at or after `from`, or its length.
pub open spec fn first_found(found: Seq<bool>, from: int) -> int
    decreases found.len() - from,
{
    if from >= found.len() {
        found.len() as int
    } else if found[from] {
        from
    } else {
        first_found(found, from + 1)
    }
}

proof fn lemma_first_found_bounds(found: Seq<bool>, from: int)
    requires
        0 <= from <= found.len(),
    ensures
        from <= first_found(found, from) <= found.len(),
    decreases found.len() - from,
{
    if from < found.len() && !found[from] {
        lemma_first_found_bounds(found, from + 1);
    }
}

proof fn lemma_first_found_skip(found: Seq<bool>, from: int, i: int)
    requires
        0 <= from <= i <= found.len(),
        forall|j: int| from <= j < i ==> !found[j],
    ensures
        first_found(found, from) == first_found(found, i),
    decreases i - from,
{
    if from < i {
        lemma_first_found_skip(found, from + 1, i);
    }
}

/// The linker chosen from probe answers: the suggested one if found, else
/// the first alternative found.
pub open spec fn linker_choice(
    suggested: Option<Seq<char>>,
    suggested_found: bool,
    alternatives: Seq<Seq<char>>,
    found: Seq<bool>,
) -> Option<Seq<char>> {
    if suggested is Some && suggested_found {
        suggested
    } else if first_found(found, 0) < found.len() {
        Some(alternatives[first_found(found, 0)])
    } else {
        None
    }
}

proof fn lemma_no_marker(s: Seq<char>)
    requires
        s.len() >= 1,
        s[0] != 'w' && s[0] != 't' && s[0] != 'r',
        forall|i: int| 0 <= i && i + 1 < s.len() ==> !(#[trigger] s[i] == 'i' && s[i + 1] == 'o'),
        forall|i: int| 0 <= i && i + 1 < s.len() ==> !(#[trigger] s[i] == 'a' && s[i + 1] == 'n'),
    ensures
        !has_special_marker(s),
{
    reveal_strlit("android");
    reveal_strlit("ios");
    reveal_strlit("wasm");
    reveal_strlit("thumb");
    reveal_strlit("riscv");
    assert forall|i: int| !occurs_at(s, "ios"@, i) by {
        if occurs_at(s, "ios"@, i) {
            assert(s.subrange(i, i + 3)[0] == 'i');
            assert(s.subrange(i, i + 3)[1] == 'o');
        }
    }
    assert forall|i: int| !occurs_at(s, "android"@, i) by {
        if occurs_at(s, "android"@, i) {
            assert(s.subrange(i, i + 7)[0] == 'a');
            assert(s.subrange(i, i + 7)[1] == 'n');
        }
    }
    if s.len() >= 4 {
        assert(s.subrange(0, 4)[0] == s[0]);
    }
    if s.len() >= 5 {
        assert(s.subrange(0, 5)[0] == s[0]);
    }
}

/// No allow-listed triple carries a mobile, embedded or WebAssembly marker.
proof fn lemma_native_list_has_no_marker(t: Seq<char>)
    requires
        native_listed(t),
    ensures
        !has_special_marker(t),
{
    reveal_strlit("x86_64-unknown-linux-gnu");
    reveal_strlit("x86_64-unknown-linux-musl");
    reveal_strlit("x86_64-pc-windows-gnu");
    reveal_strlit("x86_64-apple-darwin");
    reveal_strlit("aarch64-apple-darwin");
    reveal_strlit("i686-pc-windows-gnu");
    reveal_strlit("i686-unknown-linux-gnu");
    lemma_no_marker(t);
}

/// `x86_64-unknown-linux-gnu` parses, is native, and needs no linker.
pub proof fn lemma_native_linux_triple()
    ensures
        is_valid_triple("x86_64-unknown-linux-gnu"@),
        os_of("x86_64-unknown-linux-gnu"@) == "linux"@,
        tier_of("x86_64-unknown-linux-gnu"@) == TargetTier::Native,
        requirements_spec(
            os_of("x86_64-unknown-linux-gnu"@),
            arch_of("x86_64-unknown-linux-gnu"@),
            env_of("x86_64-unknown-linux-gnu"@),
        ).linker is None,
{
    reveal_strlit("x86_64-unknown-linux-gnu");
    reveal_strlit("linux");
    reveal_strlit("x86_64");
    reveal_strlit("gnu");
    reveal_strlit("windows");
    reveal_strlit("android");
    reveal_strlit("ios");
    reveal_strlit("darwin");
    reveal_with_fuel(find_dash, 30);
    let s = "x86_64-unknown-linux-gnu"@;
    assert(dash1(s) == 6);
    assert(dash2(s) == 14);
    assert(dash3(s) == 20);
    assert(os_of(s) =~= "linux"@);
    assert(arch_of(s) =~= "x86_64"@);
    assert(s.subrange(21, 24) =~= "gnu"@);
    assert(arch_of(s) != "aarch64"@ && arch_of(s) != "armv7"@ && arch_of(s) != "arm"@) by {
        reveal_strlit("aarch64");
        reveal_strlit("armv7");
        reveal_strlit("arm");
        assert(arch_of(s)[0] == 'x');
    }
}

/// `aarch64-unknown-linux-gnu` parses, is container-recommended, and needs
/// the `aarch64-linux-gnu-gcc` linker.
pub proof fn lemma_aarch64_linux_triple()
    ensures
        is_valid_triple("aarch64-unknown-linux-gnu"@),
        tier_of("aarch64-unknown-linux-gnu"@) == TargetTier::Container,
        requirements_spec(
            os_of("aarch64-unknown-linux-gnu"@),
            arch_of("aarch64-unknown-linux-gnu"@),
            env_of("aarch64-unknown-linux-gnu"@),
        ).linker == Some("aarch64-linux-gnu-gcc"@),
{
    reveal_strlit("aarch64-unknown-linux-gnu");
    reveal_strlit("linux");
    reveal_strlit("aarch64");
    reveal_strlit("gnu");
    reveal_with_fuel(find_dash, 30);
    let s = "aarch64-unknown-linux-gnu"@;
    assert(dash1(s) == 7);
    assert(dash2(s) == 15);
    assert(dash3(s) == 21);
    assert(os_of(s) =~= "linux"@);
    assert(arch_of(s) =~= "aarch64"@);
    assert(s.subrange(22, 25) =~= "gnu"@);
    assert(!native_listed(s)) by {
        reveal_strlit("x86_64-unknown-linux-gnu");
        reveal_strlit("x86_64-unknown-linux-musl");
        reveal_strlit("x86_64-pc-windows-gnu");
        reveal_strlit("x86_64-apple-darwin");
        reveal_strlit("aarch64-apple-darwin");
        reveal_strlit("i686-pc-windows-gnu");
        reveal_strlit("i686-unknown-linux-gnu");
        assert(s[0] == 'a' && s[8] == 'u');
        assert("aarch64-apple-darwin"@[8] == 'a');
    }
    lemma_no_marker(s);
}

/// Tier classification depends on the triple alone; allow-listed triples are
/// native, and every triple with a mobile, embedded or WebAssembly marker is
/// specialised.
pub proof fn lemma_tier_laws(t: Seq<char>, u: Seq<char>)
    ensures
        t == u ==> tier_of(t) == tier_of(u),
        native_listed(t) ==> tier_of(t) == TargetTier::Native,
        has_special_marker(t) ==> tier_of(t) == TargetTier::Specialized,
{
    if native_listed(t) {
        lemma_native_list_has_no_marker(t);
    }
}

/// Requirement lookup is deterministic: two results computed for the same
/// descriptor are equal field by field.
pub proof fn lemma_requirements_deterministic(t: Target, r1: TargetRequirements, r2: TargetRequirements)
    requires
        r1@ == t.requirements_view(),
        r2@ == t.requirements_view(),
    ensures
        r1@.linker == r2@.linker,
        r1@.tools == r2@.tools,
        r1@.system_libs == r2@.system_libs,
        r1@.env_vars == r2@.env_vars,
{
}

} // verus!
