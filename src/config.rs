//! Typed project configuration: targets, build settings, container policy.
use vstd::prelude::*;
use crate::error::{opt_view, Error, Result};
use crate::strs::{concat3, owned, str_eq};
use crate::target::{pairs_view, strings_view};

verus! {

/// A copy of a list of strings.
pub fn copy_strings(v: &Vec<String>) -> (r: Vec<String>)
    ensures
        strings_view(r@) == strings_view(v@),
{
    let mut r: Vec<String> = Vec::new();
    let mut i: usize = 0;
    while i < v.len()
        invariant
            i <= v.len(),
            strings_view(r@) == strings_view(v@.subrange(0, i as int)),
        decreases v.len() - i,
    {
        r.push(owned(v[i].as_str()));
        assert(strings_view(v@.subrange(0, i + 1)) =~= strings_view(v@.subrange(0, i as int)).push(v@[i as int]@));
        assert(strings_view(r@) =~= strings_view(v@.subrange(0, i as int)).push(v@[i as int]@));
        i = i + 1;
    }
    assert(v@.subrange(0, v.len() as int) =~= v@);
    r
}

/// A copy of a list of string pairs.
pub fn copy_pairs(v: &Vec<(String, String)>) -> (r: Vec<(String, String)>)
    ensures
        pairs_view(r@) == pairs_view(v@),
{
    let mut r: Vec<(String, String)> = Vec::new();
    let mut i: usize = 0;
    while i < v.len()
        invariant
            i <= v.len(),
            pairs_view(r@) == pairs_view(v@.subrange(0, i as int)),
        decreases v.len() - i,
    {
        r.push((owned(v[i].0.as_str()), owned(v[i].1.as_str())));
        assert(pairs_view(v@.subrange(0, i + 1)) =~= pairs_view(v@.subrange(0, i as int)).push((v@[i as int].0@, v@[i as int].1@)));
        assert(pairs_view(r@) =~= pairs_view(v@.subrange(0, i as int)).push((v@[i as int].0@, v@[i as int].1@)));
        i = i + 1;
    }
    assert(v@.subrange(0, v.len() as int) =~= v@);
    r
}

/// A copy of an optional string.
pub fn copy_opt(o: &Option<String>) -> (r: Option<String>)
    ensures
        opt_view(r) == opt_view(*o),
{
    match o {
        Some(s) => Some(owned(s.as_str())),
        None => None,
    }
}

/// No two entries share a key. Keyed lists stand where a hash map would:
/// Verus proves nothing of lookups in a map keyed by `String`, so the lists
/// are searched with `str_eq`, and every insertion goes through `upsert`,
/// which keeps keys unique.
pub open spec fn keys_unique<V>(entries: Seq<(String, V)>) -> bool {
    forall|i: int, j: int| 0 <= i < j < entries.len() ==> entries[i].0@ != entries[j].0@
}

/// Index of the first entry whose key is `key`, if any. Keyed lists are
/// meant to hold each key once; where a key repeats, lookups take its first
/// entry.
pub open spec fn find_key<V>(entries: Seq<(String, V)>, key: Seq<char>) -> Option<int> {
    if exists|i: int| 0 <= i < entries.len() && entries[i].0@ == key {
        Some(choose|i: int| 0 <= i < entries.len() && entries[i].0@ == key && (forall|j: int| 0 <= j < i ==> entries[j].0@ != key))
    } else {
        None
    }
}

/// Index of the first entry whose key is `key`.
pub(crate) fn position<V>(entries: &Vec<(String, V)>, key: &str) -> (r: Option<usize>)
    ensures
        match r {
            Some(i) => i < entries.len() && entries@[i as int].0@ == key@
                && (forall|j: int| 0 <= j < i ==> entries@[j].0@ != key@),
            None => forall|j: int| 0 <= j < entries.len() ==> entries@[j].0@ != key@,
        },
{
    let mut i: usize = 0;
    while i < entries.len()
        invariant
            i <= entries.len(),
            forall|j: int| 0 <= j < i ==> entries@[j].0@ != key@,
        decreases entries.len() - i,
    {
        if str_eq(entries[i].0.as_str(), key) {
            return Some(i);
        }
        i = i + 1;
    }
    None
}

/// Custom configuration for a specific target
#[derive(Debug, Clone, PartialEq)]
pub struct TargetCustomConfig {
    /// Custom linker to use for this target
    pub linker: Option<String>,
    /// Force container build for this target
    pub force_container: Option<bool>,
    /// Additional environment variables
    pub env: Vec<(String, String)>,
    /// Additional rustflags
    pub rustflags: Option<Vec<String>>,
}

/// Plain-value form of a per-target configuration.
pub struct TargetCustomView {
    pub linker: Option<Seq<char>>,
    pub force_container: Option<bool>,
    pub env: Seq<(Seq<char>, Seq<char>)>,
    pub rustflags: Option<Seq<Seq<char>>>,
}

impl View for TargetCustomConfig {
    type V = TargetCustomView;

    open spec fn view(&self) -> TargetCustomView {
        TargetCustomView {
            linker: opt_view(self.linker),
            force_container: self.force_container,
            env: pairs_view(self.env@),
            rustflags: match self.rustflags {
                Some(f) => Some(strings_view(f@)),
                None => None,
            },
        }
    }
}

impl TargetCustomConfig {
    /// A field-by-field copy.
    pub fn duplicate(&self) -> (r: Self)
        ensures
            r@ == self@,
    {
        TargetCustomConfig {
            linker: copy_opt(&self.linker),
            force_container: self.force_container,
            env: copy_pairs(&self.env),
            rustflags: match &self.rustflags {
                Some(f) => Some(copy_strings(f)),
                None => None,
            },
        }
    }
}

/// Target configuration section
#[derive(Debug, Clone, PartialEq)]
pub struct TargetsConfig {
    /// Default targets to build when no target is specified
    pub default: Vec<String>,
    /// Per-target custom configuration, keyed by triple
    pub custom: Vec<(String, TargetCustomConfig)>,
}

impl Default for TargetsConfig {
    fn default() -> (r: Self)
        ensures
            r.default.len() == 0,
            r.custom.len() == 0,
    {
        TargetsConfig { default: Vec::new(), custom: Vec::new() }
    }
}

/// Build configuration section
#[derive(Debug, Clone, PartialEq)]
pub struct BuildConfig {
    /// Enable parallel builds for multiple targets
    pub parallel: bool,
    /// Number of parallel jobs (None = auto-detect)
    pub jobs: Option<usize>,
    /// Enable build caching
    pub cache: bool,
    /// Force container builds even when native is possible
    pub force_container: bool,
    /// Additional cargo flags
    pub cargo_flags: Vec<String>,
}

/// Plain-value form of the build section.
pub struct BuildView {
    pub parallel: bool,
    pub jobs: Option<usize>,
    pub cache: bool,
    pub force_container: bool,
    pub cargo_flags: Seq<Seq<char>>,
}

impl View for BuildConfig {
    type V = BuildView;

    open spec fn view(&self) -> BuildView {
        BuildView {
            parallel: self.parallel,
            jobs: self.jobs,
            cache: self.cache,
            force_container: self.force_container,
            cargo_flags: strings_view(self.cargo_flags@),
        }
    }
}

impl BuildConfig {
    /// A field-by-field copy.
    pub fn duplicate(&self) -> (r: Self)
        ensures
            r@ == self@,
    {
        BuildConfig {
            parallel: self.parallel,
            jobs: self.jobs,
            cache: self.cache,
            force_container: self.force_container,
            cargo_flags: copy_strings(&self.cargo_flags),
        }
    }
}

impl Default for BuildConfig {
    fn default() -> (r: Self)
        ensures
            r.parallel,
            r.jobs is None,
            r.cache,
            !r.force_container,
            r.cargo_flags.len() == 0,
    {
        BuildConfig {
            parallel: true,
            jobs: None,
            cache: true,
            force_container: false,
            cargo_flags: Vec::new(),
        }
    }
}

/// Container runtime configuration
#[derive(Debug, Clone, PartialEq)]
pub struct ContainerConfig {
    /// Container runtime to use: auto, youki, docker, podman
    pub runtime: String,
    /// Condition for when to use containers:
    /// "always", "never", "target.os != host.os"
    pub use_when: String,
    /// Custom container image registry
    pub registry: Option<String>,
    /// Image pull policy: always, never, if-not-present
    pub pull_policy: String,
}

impl Default for ContainerConfig {
    fn default() -> (r: Self)
        ensures
            r.runtime@ == "auto"@,
            r.use_when@ == "target.os != host.os"@,
            r.registry is None,
            r.pull_policy@ == "if-not-present"@,
    {
        ContainerConfig {
            runtime: default_runtime(),
            use_when: default_use_when(),
            registry: None,
            pull_policy: default_pull_policy(),
        }
    }
}

/// Profile configuration for different build scenarios
#[derive(Debug, Clone, PartialEq)]
pub struct ProfileConfig {
    /// Targets to build in this profile
    pub targets: Vec<String>,
    /// Build configuration overrides
    pub build: Option<BuildConfig>,
}

/// Plain-value form of a profile.
pub struct ProfileView {
    pub targets: Seq<Seq<char>>,
    pub build: Option<BuildView>,
}

impl View for ProfileConfig {
    type V = ProfileView;

    open spec fn view(&self) -> ProfileView {
        ProfileView {
            targets: strings_view(self.targets@),
            build: match self.build {
                Some(b) => Some(b@),
                None => None,
            },
        }
    }
}

impl ProfileConfig {
    /// A field-by-field copy.
    pub fn duplicate(&self) -> (r: Self)
        ensures
            r@ == self@,
    {
        ProfileConfig {
            targets: copy_strings(&self.targets),
            build: match &self.build {
                Some(b) => Some(b.duplicate()),
                None => None,
            },
        }
    }
}

/// Default value of boolean switches that are on unless configured.
pub fn default_true() -> (r: bool)
    ensures
        r,
{
    true
}

/// Default container runtime: detect.
pub fn default_runtime() -> (r: String)
    ensures
        r@ == "auto"@,
{
    owned("auto")
}

/// Default container policy: only when the target OS differs from the host's.
pub fn default_use_when() -> (r: String)
    ensures
        r@ == "target.os != host.os"@,
{
    owned("target.os != host.os")
}

/// Default image pull policy.
pub fn default_pull_policy() -> (r: String)
    ensures
        r@ == "if-not-present"@,
{
    owned("if-not-present")
}

/// Main configuration structure
#[derive(Debug, Clone, PartialEq)]
pub struct Config {
    /// Target platform configuration
    pub targets: TargetsConfig,
    /// Build configuration
    pub build: BuildConfig,
    /// Container runtime configuration
    pub container: ContainerConfig,
    /// Custom profiles for different build scenarios, keyed by name
    pub profiles: Vec<(String, ProfileConfig)>,
}

impl Default for Config {
    fn default() -> (r: Self)
        ensures
            r.targets.default.len() == 0,
            r.targets.custom.len() == 0,
            r.build.parallel,
            r.build.jobs is None,
            r.build.cache,
            !r.build.force_container,
            r.build.cargo_flags.len() == 0,
            r.container.runtime@ == "auto"@,
            r.container.use_when@ == "target.os != host.os"@,
            r.container.registry is None,
            r.container.pull_policy@ == "if-not-present"@,
            r.profiles.len() == 0,
    {
        Config {
            targets: TargetsConfig::default(),
            build: BuildConfig::default(),
            container: ContainerConfig::default(),
            profiles: Vec::new(),
        }
    }
}

/// The accepted container runtimes. "youki" is accepted and, having no
/// engine of its own here, builds as detection does.
pub open spec fn valid_runtime(r: Seq<char>) -> bool {
    r == "auto"@ || r == "youki"@ || r == "docker"@ || r == "podman"@
}

/// The accepted container policies.
pub open spec fn valid_use_when(w: Seq<char>) -> bool {
    w == "always"@ || w == "never"@ || w == "target.os != host.os"@
}

/// The accepted image pull policies.
pub open spec fn valid_pull_policy(p: Seq<char>) -> bool {
    p == "always"@ || p == "never"@ || p == "if-not-present"@
}

/// A configuration is acceptable when its runtime, container policy and
/// pull policy are known and a configured job count is positive.
pub open spec fn config_valid(c: Config) -> bool {
    valid_runtime(c.container.runtime@) && valid_use_when(c.container.use_when@)
        && valid_pull_policy(c.container.pull_policy@) && !(c.build.jobs == Some(0usize))
}

impl Config {
    /// Get the default configuration
    pub fn default_config() -> (r: Self)
        ensures
            r.targets.default.len() == 0,
            r.targets.custom.len() == 0,
            r.build.parallel,
            r.build.jobs is None,
            r.build.cache,
            !r.build.force_container,
            r.build.cargo_flags.len() == 0,
            r.container.runtime@ == "auto"@,
            r.container.use_when@ == "target.os != host.os"@,
            r.container.registry is None,
            r.container.pull_policy@ == "if-not-present"@,
            r.profiles.len() == 0,
            config_valid(r),
    {
        Self::default()
    }

    /// Merge this configuration with another, with other taking precedence:
    /// lists and optional values of `other` replace ours only when present,
    /// plain switches and strings always replace ours, and keyed entries of
    /// `other` overwrite ours with the same key.
    pub fn merge(&mut self, other: &Config)
        ensures
            strings_view(final(self).targets.default@) == (if other.targets.default.len() > 0 {
                strings_view(other.targets.default@)
            } else {
                strings_view(old(self).targets.default@)
            }),
            forall|i: int|
                #[trigger] last_with_key(other.targets.custom@, i) ==> (find_key(
                    final(self).targets.custom@,
                    other.targets.custom@[i].0@,
                ) matches Some(j) && final(self).targets.custom@[j].1@ == other.targets.custom@[i].1@),
            forall|k: Seq<char>|
                key_absent(other.targets.custom@, k) && (#[trigger] find_key(old(self).targets.custom@, k)) is Some
                    ==> find_key(final(self).targets.custom@, k) == find_key(old(self).targets.custom@, k)
                    && final(self).targets.custom@[find_key(old(self).targets.custom@, k)->0]
                    == old(self).targets.custom@[find_key(old(self).targets.custom@, k)->0],
            forall|k: Seq<char>|
                (#[trigger] find_key(final(self).targets.custom@, k)) is Some ==> find_key(
                    old(self).targets.custom@,
                    k,
                ) is Some || !key_absent(other.targets.custom@, k),
            forall|k: Seq<char>|
                (#[trigger] find_key(final(self).profiles@, k)) is Some ==> find_key(old(self).profiles@, k)
                    is Some || !key_absent(other.profiles@, k),
            keys_unique(old(self).targets.custom@) ==> keys_unique(final(self).targets.custom@),
            keys_unique(old(self).profiles@) ==> keys_unique(final(self).profiles@),
            forall|i: int|
                #[trigger] last_with_key(other.profiles@, i) ==> (find_key(
                    final(self).profiles@,
                    other.profiles@[i].0@,
                ) matches Some(j) && final(self).profiles@[j].1@ == other.profiles@[i].1@),
            forall|k: Seq<char>|
                key_absent(other.profiles@, k) && (#[trigger] find_key(old(self).profiles@, k)) is Some
                    ==> find_key(final(self).profiles@, k) == find_key(old(self).profiles@, k)
                    && final(self).profiles@[find_key(old(self).profiles@, k)->0]
                    == old(self).profiles@[find_key(old(self).profiles@, k)->0],
            final(self).build.parallel == other.build.parallel,
            final(self).build.jobs == (if other.build.jobs is Some {
                other.build.jobs
            } else {
                old(self).build.jobs
            }),
            final(self).build.cache == other.build.cache,
            final(self).build.force_container == other.build.force_container,
            strings_view(final(self).build.cargo_flags@) == (if other.build.cargo_flags.len() > 0 {
                strings_view(other.build.cargo_flags@)
            } else {
                strings_view(old(self).build.cargo_flags@)
            }),
            final(self).container.runtime@ == other.container.runtime@,
            final(self).container.use_when@ == other.container.use_when@,
            opt_view(final(self).container.registry) == (if other.container.registry is Some {
                opt_view(other.container.registry)
            } else {
                opt_view(old(self).container.registry)
            }),
            final(self).container.pull_policy@ == other.container.pull_policy@,
    {
        if other.targets.default.len() > 0 {
            self.targets.default = copy_strings(&other.targets.default);
        }
        merge_custom(&mut self.targets.custom, &other.targets.custom);
        self.build.parallel = other.build.parallel;
        if other.build.jobs.is_some() {
            self.build.jobs = other.build.jobs;
        }
        self.build.cache = other.build.cache;
        self.build.force_container = other.build.force_container;
        if other.build.cargo_flags.len() > 0 {
            self.build.cargo_flags = copy_strings(&other.build.cargo_flags);
        }
        self.container.runtime = owned(other.container.runtime.as_str());
        self.container.use_when = owned(other.container.use_when.as_str());
        if other.container.registry.is_some() {
            self.container.registry = copy_opt(&other.container.registry);
        }
        self.container.pull_policy = owned(other.container.pull_policy.as_str());
        merge_profiles(&mut self.profiles, &other.profiles);
    }

    /// Get configuration for a specific target: the first entry for it
    pub fn get_target_config(&self, target: &str) -> (r: Option<&TargetCustomConfig>)
        ensures
            match find_key(self.targets.custom@, target@) {
                Some(i) => r == Some(&self.targets.custom@[i].1),
                None => r is None,
            },
    {
        match position(&self.targets.custom, target) {
            Some(i) => Some(&self.targets.custom[i].1),
            None => None,
        }
    }

    /// Get a profile by name: the first entry for it
    pub fn get_profile(&self, name: &str) -> (r: Option<&ProfileConfig>)
        ensures
            match find_key(self.profiles@, name@) {
                Some(i) => r == Some(&self.profiles@[i].1),
                None => r is None,
            },
    {
        match position(&self.profiles, name) {
            Some(i) => Some(&self.profiles[i].1),
            None => None,
        }
    }

    /// Validate the configuration
    pub fn validate(&self) -> (r: Result<()>)
        ensures
            r is Ok <==> config_valid(*self),
            r matches Err(e) ==> e is Config,
    {
        let rt = self.container.runtime.as_str();
        if !(str_eq(rt, "auto") || str_eq(rt, "youki") || str_eq(rt, "docker") || str_eq(rt, "podman")) {
            return Err(
                Error::Config(
                    concat3(
                        "Invalid container runtime: ",
                        rt,
                        ". Must be one of: auto, youki, docker, podman",
                    ),
                ),
            );
        }
        let w = self.container.use_when.as_str();
        if !(str_eq(w, "always") || str_eq(w, "never") || str_eq(w, "target.os != host.os")) {
            return Err(
                Error::Config(
                    concat3(
                        "Invalid container policy: ",
                        w,
                        ". Must be one of: always, never, target.os != host.os",
                    ),
                ),
            );
        }
        let pp = self.container.pull_policy.as_str();
        if !(str_eq(pp, "always") || str_eq(pp, "never") || str_eq(pp, "if-not-present")) {
            return Err(
                Error::Config(
                    concat3("Invalid pull policy: ", pp, ". Must be one of: always, never, if-not-present"),
                ),
            );
        }
        if let Some(jobs) = self.build.jobs {
            if jobs == 0 {
                return Err(Error::Config(owned("build.jobs must be greater than 0")));
            }
        }
        Ok(())
    }
}

/// Lemma: the first entry found for a key stays first when entries with other keys are appended
/// or when the value at a different index is replaced.
proof fn lemma_find_key_unique<V>(entries: Seq<(String, V)>, key: Seq<char>, i: int)
    requires
        0 <= i < entries.len(),
        entries[i].0@ == key,
        forall|j: int| 0 <= j < i ==> entries[j].0@ != key,
    ensures
        find_key(entries, key) == Some(i),
{
    let c = choose|k: int| 0 <= k < entries.len() && entries[k].0@ == key && (forall|j: int| 0 <= j < k ==> entries[j].0@ != key);
    assert(0 <= c < entries.len() && entries[c].0@ == key && (forall|j: int| 0 <= j < c ==> entries[j].0@ != key));
    if c < i {
        assert(entries[c].0@ != key);
    } else if c > i {
        assert(entries[i].0@ != key);
    }
}

/// Insert or overwrite the entry for `key`; entries for other keys stay where they are.
pub(crate) fn upsert<V>(entries: &mut Vec<(String, V)>, key: &str, value: V)
    ensures
        find_key(final(entries)@, key@) matches Some(j) && final(entries)@[j].1 == value,
        forall|k: Seq<char>|
            k != key@ && (#[trigger] find_key(old(entries)@, k)) is Some ==> find_key(
                final(entries)@,
                k,
            ) == find_key(old(entries)@, k) && final(entries)@[find_key(old(entries)@, k)->0]
                == old(entries)@[find_key(old(entries)@, k)->0],
        forall|k: Seq<char>|
            k != key@ && (#[trigger] find_key(old(entries)@, k)) is None ==> find_key(
                final(entries)@,
                k,
            ) is None,
        keys_unique(old(entries)@) ==> keys_unique(final(entries)@),
{
    let ghost before = entries@;
    match position(entries, key) {
        Some(i) => {
            let name = owned(entries[i].0.as_str());
            entries.set(i, (name, value));
            proof {
                lemma_find_key_unique(entries@, key@, i as int);
                assert forall|k: Seq<char>|
                    k != key@ && (#[trigger] find_key(before, k)) is Some implies find_key(
                    entries@,
                    k,
                ) == find_key(before, k) && entries@[find_key(before, k)->0] == before[find_key(before, k)->0] by {
                    lemma_find_key_some(before, k);
                    lemma_find_key_unique(entries@, k, find_key(before, k)->0);
                }
                assert forall|k: Seq<char>|
                    k != key@ && (#[trigger] find_key(before, k)) is None implies find_key(entries@, k) is None by {
                    assert forall|m: int| 0 <= m < entries@.len() implies entries@[m].0@ != k by {
                        if m != i {
                            assert(entries@[m] == before[m]);
                        }
                    }
                }
            }
        },
        None => {
            entries.push((owned(key), value));
            proof {
                let n = before.len() as int;
                assert(entries@[n].0@ == key@);
                lemma_find_key_unique(entries@, key@, n);
                assert forall|k: Seq<char>|
                    k != key@ && (#[trigger] find_key(before, k)) is Some implies find_key(
                    entries@,
                    k,
                ) == find_key(before, k) && entries@[find_key(before, k)->0] == before[find_key(before, k)->0] by {
                    lemma_find_key_some(before, k);
                    lemma_find_key_unique(entries@, k, find_key(before, k)->0);
                }
                assert forall|k: Seq<char>|
                    k != key@ && (#[trigger] find_key(before, k)) is None implies find_key(entries@, k) is None by {
                    assert forall|m: int| 0 <= m < entries@.len() implies entries@[m].0@ != k by {
                        if m < n {
                            assert(entries@[m] == before[m]);
                        }
                    }
                }
            }
        },
    }
}

/// `entries[i]` is the last entry with its key.
pub open spec fn last_with_key<V>(entries: Seq<(String, V)>, i: int) -> bool {
    0 <= i < entries.len() && forall|m: int| i < m < entries.len() ==> entries[m].0@ != entries[i].0@
}

/// The key occurs in none of the entries.
pub open spec fn key_absent<V>(entries: Seq<(String, V)>, k: Seq<char>) -> bool {
    forall|i: int| 0 <= i < entries.len() ==> entries[i].0@ != k
}

/// Overlay per-target entries of `src` onto `dst`: the last entry of `src` for a key
/// wins, and entries of `dst` whose key `src` lacks stay where they are.
fn merge_custom(dst: &mut Vec<(String, TargetCustomConfig)>, src: &Vec<(String, TargetCustomConfig)>)
    ensures
        forall|i: int|
            #[trigger] last_with_key(src@, i) ==> (find_key(final(dst)@, src@[i].0@) matches Some(j)
                && final(dst)@[j].1@ == src@[i].1@),
        forall|k: Seq<char>|
            key_absent(src@, k) && (#[trigger] find_key(old(dst)@, k)) is Some ==> find_key(
                final(dst)@,
                k,
            ) == find_key(old(dst)@, k) && final(dst)@[find_key(old(dst)@, k)->0] == old(
                dst,
            )@[find_key(old(dst)@, k)->0],
        forall|k: Seq<char>|
            (#[trigger] find_key(final(dst)@, k)) is Some ==> find_key(old(dst)@, k) is Some
                || !key_absent(src@, k),
        keys_unique(old(dst)@) ==> keys_unique(final(dst)@),
{
    let ghost start = dst@;
    let mut i: usize = 0;
    while i < src.len()
        invariant
            i <= src.len(),
            forall|k: int|
                #[trigger] last_with_key(src@.subrange(0, i as int), k) ==> (find_key(dst@, src@[k].0@) matches Some(j)
                    && dst@[j].1@ == src@[k].1@),
            forall|k: Seq<char>|
                key_absent(src@.subrange(0, i as int), k) && (#[trigger] find_key(start, k)) is Some
                    ==> find_key(dst@, k) == find_key(start, k) && dst@[find_key(start, k)->0]
                    == start[find_key(start, k)->0],
            forall|k: Seq<char>|
                (#[trigger] find_key(dst@, k)) is Some ==> find_key(start, k) is Some
                    || !key_absent(src@.subrange(0, i as int), k),
            keys_unique(start) ==> keys_unique(dst@),
        decreases src.len() - i,
    {
        let ghost before = dst@;
        let value = src[i].1.duplicate();
        upsert(dst, src[i].0.as_str(), value);
        proof {
            assert forall|k: int| #[trigger] last_with_key(src@.subrange(0, i + 1), k) implies (find_key(dst@, src@[k].0@) matches Some(j)
                && dst@[j].1@ == src@[k].1@) by {
                if k < i {
                    assert(src@.subrange(0, i + 1)[i as int] == src@[i as int]);
                    assert(last_with_key(src@.subrange(0, i as int), k));
                    assert(find_key(before, src@[k].0@) is Some);
                }
            }
            assert forall|k: Seq<char>|
                key_absent(src@.subrange(0, i + 1), k) && (#[trigger] find_key(start, k)) is Some
                    implies find_key(dst@, k) == find_key(start, k) && dst@[find_key(start, k)->0]
                    == start[find_key(start, k)->0] by {
                assert(src@.subrange(0, i + 1)[i as int] == src@[i as int]);
                assert forall|m: int| 0 <= m < i implies src@.subrange(0, i as int)[m].0@ != k by {
                    assert(src@.subrange(0, i + 1)[m] == src@.subrange(0, i as int)[m]);
                }
                assert(key_absent(src@.subrange(0, i as int), k));
                assert(find_key(before, k) is Some);
            }
            assert forall|k: Seq<char>|
                (#[trigger] find_key(dst@, k)) is Some implies find_key(start, k) is Some
                    || !key_absent(src@.subrange(0, i + 1), k) by {
                assert(src@.subrange(0, i + 1)[i as int] == src@[i as int]);
                if k != src@[i as int].0@ {
                    assert(find_key(before, k) is Some);
                    if !key_absent(src@.subrange(0, i as int), k) {
                        let m = choose|m: int| 0 <= m < i && !(src@.subrange(0, i as int)[m].0@ != k);
                        assert(src@.subrange(0, i + 1)[m] == src@.subrange(0, i as int)[m]);
                    }
                }
            }
        }
        i = i + 1;
    }
    proof {
        assert(src@.subrange(0, src.len() as int) =~= src@);
    }
}

/// Overlay profiles of `src` onto `dst`: the last entry of `src` for a key
/// wins, and entries of `dst` whose key `src` lacks stay where they are.
fn merge_profiles(dst: &mut Vec<(String, ProfileConfig)>, src: &Vec<(String, ProfileConfig)>)
    ensures
        forall|i: int|
            #[trigger] last_with_key(src@, i) ==> (find_key(final(dst)@, src@[i].0@) matches Some(j)
                && final(dst)@[j].1@ == src@[i].1@),
        forall|k: Seq<char>|
            key_absent(src@, k) && (#[trigger] find_key(old(dst)@, k)) is Some ==> find_key(
                final(dst)@,
                k,
            ) == find_key(old(dst)@, k) && final(dst)@[find_key(old(dst)@, k)->0] == old(
                dst,
            )@[find_key(old(dst)@, k)->0],
        forall|k: Seq<char>|
            (#[trigger] find_key(final(dst)@, k)) is Some ==> find_key(old(dst)@, k) is Some
                || !key_absent(src@, k),
        keys_unique(old(dst)@) ==> keys_unique(final(dst)@),
{
    let ghost start = dst@;
    let mut i: usize = 0;
    while i < src.len()
        invariant
            i <= src.len(),
            forall|k: int|
                #[trigger] last_with_key(src@.subrange(0, i as int), k) ==> (find_key(dst@, src@[k].0@) matches Some(j)
                    && dst@[j].1@ == src@[k].1@),
            forall|k: Seq<char>|
                key_absent(src@.subrange(0, i as int), k) && (#[trigger] find_key(start, k)) is Some
                    ==> find_key(dst@, k) == find_key(start, k) && dst@[find_key(start, k)->0]
                    == start[find_key(start, k)->0],
            forall|k: Seq<char>|
                (#[trigger] find_key(dst@, k)) is Some ==> find_key(start, k) is Some
                    || !key_absent(src@.subrange(0, i as int), k),
            keys_unique(start) ==> keys_unique(dst@),
        decreases src.len() - i,
    {
        let ghost before = dst@;
        let value = src[i].1.duplicate();
        upsert(dst, src[i].0.as_str(), value);
        proof {
            assert forall|k: int| #[trigger] last_with_key(src@.subrange(0, i + 1), k) implies (find_key(dst@, src@[k].0@) matches Some(j)
                && dst@[j].1@ == src@[k].1@) by {
                if k < i {
                    assert(src@.subrange(0, i + 1)[i as int] == src@[i as int]);
                    assert(last_with_key(src@.subrange(0, i as int), k));
                    assert(find_key(before, src@[k].0@) is Some);
                }
            }
            assert forall|k: Seq<char>|
                key_absent(src@.subrange(0, i + 1), k) && (#[trigger] find_key(start, k)) is Some
                    implies find_key(dst@, k) == find_key(start, k) && dst@[find_key(start, k)->0]
                    == start[find_key(start, k)->0] by {
                assert(src@.subrange(0, i + 1)[i as int] == src@[i as int]);
                assert forall|m: int| 0 <= m < i implies src@.subrange(0, i as int)[m].0@ != k by {
                    assert(src@.subrange(0, i + 1)[m] == src@.subrange(0, i as int)[m]);
                }
                assert(key_absent(src@.subrange(0, i as int), k));
                assert(find_key(before, k) is Some);
            }
            assert forall|k: Seq<char>|
                (#[trigger] find_key(dst@, k)) is Some implies find_key(start, k) is Some
                    || !key_absent(src@.subrange(0, i + 1), k) by {
                assert(src@.subrange(0, i + 1)[i as int] == src@[i as int]);
                if k != src@[i as int].0@ {
                    assert(find_key(before, k) is Some);
                    if !key_absent(src@.subrange(0, i as int), k) {
                        let m = choose|m: int| 0 <= m < i && !(src@.subrange(0, i as int)[m].0@ != k);
                        assert(src@.subrange(0, i + 1)[m] == src@.subrange(0, i as int)[m]);
                    }
                }
            }
        }
        i = i + 1;
    }
    proof {
        assert(src@.subrange(0, src.len() as int) =~= src@);
    }
}

pub proof fn lemma_find_key_some<V>(entries: Seq<(String, V)>, key: Seq<char>)
    ensures
        find_key(entries, key) matches Some(i) ==> 0 <= i < entries.len() && entries[i].0@ == key
            && (forall|j: int| 0 <= j < i ==> entries[j].0@ != key),
{
    if exists|i: int| 0 <= i < entries.len() && entries[i].0@ == key {
        let w = choose|i: int| 0 <= i < entries.len() && entries[i].0@ == key;
        lemma_first_exists(entries, key, w);
    }
}

proof fn lemma_first_exists<V>(entries: Seq<(String, V)>, key: Seq<char>, w: int)
    requires
        0 <= w < entries.len(),
        entries[w].0@ == key,
    ensures
        exists|i: int| 0 <= i < entries.len() && entries[i].0@ == key && (forall|j: int| 0 <= j < i ==> entries[j].0@ != key),
    decreases w,
{
    if exists|j: int| 0 <= j < w && entries[j].0@ == key {
        let j = choose|j: int| 0 <= j < w && entries[j].0@ == key;
        lemma_first_exists(entries, key, j);
    } else {
        assert(forall|j: int| 0 <= j < w ==> entries[j].0@ != key);
    }
}

} // verus!
