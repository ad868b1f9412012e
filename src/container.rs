//! Containerized builds: engine selection, image lookup and the command
//! lines handed to the engine.
use vstd::prelude::*;
use crate::error::{container_hint_spec, Error, Result};
use crate::strs::{concat2, concat3, owned, str_eq};
use crate::target::{pairs_view, strings_view};

verus! {

/// What `str::to_lowercase` returns for `s`.
pub uninterp spec fn lower_of(s: Seq<char>) -> Seq<char>;

/// Relies on `str::to_lowercase`: the result depends on the characters of
/// `s` alone.
#[verifier::external_body]
pub(crate) fn lowercase(s: &str) -> (r: String)
    ensures
        r@ == lower_of(s@),
{
    s.to_lowercase()
}

/// Container runtime type
#[derive(Debug, Clone, Copy, PartialEq, Eq, Structural)]
pub enum RuntimeType {
    /// Automatically detect available runtime
    Auto,
    /// Use Docker
    Docker,
    /// Use Podman
    Podman,
}

/// The runtime type a lowercased name stands for.
pub open spec fn runtime_type_of(lowered: Seq<char>) -> Option<RuntimeType> {
    if lowered == "auto"@ {
        Some(RuntimeType::Auto)
    } else if lowered == "docker"@ {
        Some(RuntimeType::Docker)
    } else if lowered == "podman"@ {
        Some(RuntimeType::Podman)
    } else {
        None
    }
}

impl RuntimeType {
    /// Parse from an already lowercased name; `as_written` is quoted in the error.
    pub fn from_lowercase(lowered: &str, as_written: &str) -> (r: Result<Self>)
        ensures
            runtime_type_of(lowered@) matches Some(t) ==> (r matches Ok(u) && u == t),
            runtime_type_of(lowered@) is None ==> (r matches Err(Error::Config(m))
                && m@ == "Unknown runtime type: "@ + as_written@),
    {
        if str_eq(lowered, "auto") {
            Ok(RuntimeType::Auto)
        } else if str_eq(lowered, "docker") {
            Ok(RuntimeType::Docker)
        } else if str_eq(lowered, "podman") {
            Ok(RuntimeType::Podman)
        } else {
            Err(Error::Config(concat2("Unknown runtime type: ", as_written)))
        }
    }

    /// Parse from string, ignoring case
    pub fn from_str(s: &str) -> (r: Result<Self>)
        ensures
            runtime_type_of(lower_of(s@)) matches Some(t) ==> (r matches Ok(u) && u == t),
            runtime_type_of(lower_of(s@)) is None ==> (r matches Err(Error::Config(m))
                && m@ == "Unknown runtime type: "@ + s@),
    {
        let lowered = lowercase(s);
        Self::from_lowercase(lowered.as_str(), s)
    }
}

/// A concrete container engine.
#[derive(Debug, Clone, Copy, PartialEq, Eq, Structural)]
pub enum Engine {
    /// Docker
    Docker,
    /// Podman
    Podman,
}

impl Engine {
    /// Name of the engine, which is also its executable.
    pub open spec fn name_spec(self) -> Seq<char> {
        match self {
            Engine::Docker => "docker"@,
            Engine::Podman => "podman"@,
        }
    }

    /// Name of the engine, which is also its executable.
    pub fn name(&self) -> (r: &'static str)
        ensures
            r@ == self.name_spec(),
    {
        match self {
            Engine::Docker => "docker",
            Engine::Podman => "podman",
        }
    }
}

/// Flag/value pairs for a list of `a:b` (or `a=b`) items.
pub open spec fn pair_args(
    items: Seq<(Seq<char>, Seq<char>)>,
    flag: Seq<char>,
    sep: Seq<char>,
) -> Seq<Seq<char>>
    decreases items.len(),
{
    if items.len() == 0 {
        seq![]
    } else {
        pair_args(items.drop_last(), flag, sep) + seq![flag, items.last().0 + sep + items.last().1]
    }
}

/// Arguments of the engine's `run` command: remove the container afterwards,
/// attach a terminal, set the working directory, mount the volumes, pass the
/// environment, then the image and the command to run in it.
pub open spec fn run_args_spec(
    image: Seq<char>,
    command: Seq<Seq<char>>,
    volumes: Seq<(Seq<char>, Seq<char>)>,
    env: Seq<(Seq<char>, Seq<char>)>,
    workdir: Seq<char>,
) -> Seq<Seq<char>> {
    seq!["run"@, "--rm"@, "-it"@, "-w"@, workdir] + pair_args(volumes, "-v"@, ":"@) + pair_args(
        env,
        "-e"@,
        "="@,
    ) + seq![image] + command
}

fn push_pair_args(out: &mut Vec<String>, items: &Vec<(String, String)>, flag: &str, sep: &str)
    ensures
        strings_view(final(out)@) == strings_view(old(out)@) + pair_args(pairs_view(items@), flag@, sep@),
{
    let ghost start = strings_view(out@);
    let mut i: usize = 0;
    while i < items.len()
        invariant
            i <= items.len(),
            strings_view(out@) == start + pair_args(pairs_view(items@.subrange(0, i as int)), flag@, sep@),
        decreases items.len() - i,
    {
        let ghost before = strings_view(out@);
        out.push(owned(flag));
        out.push(concat3(items[i].0.as_str(), sep, items[i].1.as_str()));
        proof {
            let pre = pairs_view(items@.subrange(0, i + 1));
            assert(pre.drop_last() =~= pairs_view(items@.subrange(0, i as int)));
            assert(strings_view(out@) =~= before + seq![flag@, items@[i as int].0@ + sep@ + items@[i as int].1@]);
        }
        i = i + 1;
    }
    assert(items@.subrange(0, items.len() as int) =~= items@);
}

fn push_all(out: &mut Vec<String>, items: &Vec<String>)
    ensures
        strings_view(final(out)@) == strings_view(old(out)@) + strings_view(items@),
{
    let ghost start = strings_view(out@);
    let mut i: usize = 0;
    while i < items.len()
        invariant
            i <= items.len(),
            strings_view(out@) == start + strings_view(items@.subrange(0, i as int)),
        decreases items.len() - i,
    {
        let ghost before = strings_view(out@);
        out.push(owned(items[i].as_str()));
        proof {
            assert(strings_view(out@) =~= before.push(items@[i as int]@));
            assert(strings_view(items@.subrange(0, i + 1)) =~= strings_view(items@.subrange(0, i as int)).push(items@[i as int]@));
            assert(strings_view(out@) =~= start + strings_view(items@.subrange(0, i + 1)));
        }
        i = i + 1;
    }
    assert(items@.subrange(0, items.len() as int) =~= items@);
}

/// Build the engine's `run` arguments.
pub fn run_args(
    image: &str,
    command: &Vec<String>,
    volumes: &Vec<(String, String)>,
    env: &Vec<(String, String)>,
    workdir: &str,
) -> (r: Vec<String>)
    ensures
        strings_view(r@) == run_args_spec(
            image@,
            strings_view(command@),
            pairs_view(volumes@),
            pairs_view(env@),
            workdir@,
        ),
{
    let mut r: Vec<String> = Vec::new();
    r.push(owned("run"));
    r.push(owned("--rm"));
    r.push(owned("-it"));
    r.push(owned("-w"));
    r.push(owned(workdir));
    assert(strings_view(r@) =~= seq!["run"@, "--rm"@, "-it"@, "-w"@, workdir@]);
    push_pair_args(&mut r, volumes, "-v", ":");
    push_pair_args(&mut r, env, "-e", "=");
    let ghost mid = strings_view(r@);
    r.push(owned(image));
    assert(strings_view(r@) =~= mid + seq![image@]);
    push_all(&mut r, command);
    r
}

/// The operations a container engine offers, as the command lines that
/// perform them; running those commands is left to the caller.
pub trait ContainerRuntime {
    /// Get the runtime name, which is also its executable
    fn name(&self) -> &str;

    /// Arguments that probe whether the engine is installed and answers
    fn version_args(&self) -> (r: Vec<String>)
        ensures
            strings_view(r@) == seq!["--version"@],
    ;

    /// Arguments that pull an image
    fn pull_args(&self, image: &str) -> (r: Vec<String>)
        ensures
            strings_view(r@) == seq!["pull"@, image@],
    ;

    /// Arguments that run a command in a container
    fn run_command(
        &self,
        image: &str,
        command: &Vec<String>,
        volumes: &Vec<(String, String)>,
        env: &Vec<(String, String)>,
        workdir: &str,
    ) -> (r: Vec<String>)
        ensures
            strings_view(r@) == run_args_spec(
                image@,
                strings_view(command@),
                pairs_view(volumes@),
                pairs_view(env@),
                workdir@,
            ),
    ;

    /// Arguments that list the local images as `repository:tag` lines
    fn list_images_args(&self) -> (r: Vec<String>)
        ensures
            strings_view(r@) == seq!["images"@, "--format"@, "{{.Repository}}:{{.Tag}}"@],
    ;
}

fn two(a: &str, b: &str) -> (r: Vec<String>)
    ensures
        strings_view(r@) == seq![a@, b@],
{
    let mut v = Vec::new();
    v.push(owned(a));
    v.push(owned(b));
    assert(strings_view(v@) =~= seq![a@, b@]);
    v
}

fn listing_args() -> (r: Vec<String>)
    ensures
        strings_view(r@) == seq!["images"@, "--format"@, "{{.Repository}}:{{.Tag}}"@],
{
    let mut v = Vec::new();
    v.push(owned("images"));
    v.push(owned("--format"));
    v.push(owned("{{.Repository}}:{{.Tag}}"));
    assert(strings_view(v@) =~= seq!["images"@, "--format"@, "{{.Repository}}:{{.Tag}}"@]);
    v
}

/// Docker runtime implementation
#[derive(Debug, Clone, Copy)]
pub struct DockerRuntime;

impl DockerRuntime {
    /// The Docker engine
    pub fn new() -> (r: Self) {
        DockerRuntime
    }

    /// Get the runtime name
    pub fn name(&self) -> (r: &'static str)
        ensures
            r@ == "docker"@,
    {
        "docker"
    }
}

impl ContainerRuntime for DockerRuntime {
    fn name(&self) -> &str {
        "docker"
    }

    fn version_args(&self) -> (r: Vec<String>) {
        let mut v = Vec::new();
        v.push(owned("--version"));
        assert(strings_view(v@) =~= seq!["--version"@]);
        v
    }

    fn pull_args(&self, image: &str) -> (r: Vec<String>) {
        two("pull", image)
    }

    fn run_command(
        &self,
        image: &str,
        command: &Vec<String>,
        volumes: &Vec<(String, String)>,
        env: &Vec<(String, String)>,
        workdir: &str,
    ) -> (r: Vec<String>) {
        run_args(image, command, volumes, env, workdir)
    }

    fn list_images_args(&self) -> (r: Vec<String>) {
        listing_args()
    }
}

/// Podman runtime implementation
#[derive(Debug, Clone, Copy)]
pub struct PodmanRuntime;

impl PodmanRuntime {
    /// The Podman engine
    pub fn new() -> (r: Self) {
        PodmanRuntime
    }

    /// Get the runtime name
    pub fn name(&self) -> (r: &'static str)
        ensures
            r@ == "podman"@,
    {
        "podman"
    }
}

impl ContainerRuntime for PodmanRuntime {
    fn name(&self) -> &str {
        "podman"
    }

    fn version_args(&self) -> (r: Vec<String>) {
        let mut v = Vec::new();
        v.push(owned("--version"));
        assert(strings_view(v@) =~= seq!["--version"@]);
        v
    }

    fn pull_args(&self, image: &str) -> (r: Vec<String>) {
        two("pull", image)
    }

    fn run_command(
        &self,
        image: &str,
        command: &Vec<String>,
        volumes: &Vec<(String, String)>,
        env: &Vec<(String, String)>,
        workdir: &str,
    ) -> (r: Vec<String>) {
        run_args(image, command, volumes, env, workdir)
    }

    fn list_images_args(&self) -> (r: Vec<String>) {
        listing_args()
    }
}

/// The engine chosen for a requested runtime type, given which engines
/// answered their version probe: `Auto` takes Docker first, then Podman.
pub open spec fn engine_choice(
    runtime_type: RuntimeType,
    docker_available: bool,
    podman_available: bool,
) -> Option<Engine> {
    match runtime_type {
        RuntimeType::Auto => if docker_available {
            Some(Engine::Docker)
        } else if podman_available {
            Some(Engine::Podman)
        } else {
            None
        },
        RuntimeType::Docker => if docker_available {
            Some(Engine::Docker)
        } else {
            None
        },
        RuntimeType::Podman => if podman_available {
            Some(Engine::Podman)
        } else {
            None
        },
    }
}

/// Name quoted in the "not available" error for a runtime type.
pub open spec fn requested_name(runtime_type: RuntimeType) -> Seq<char> {
    match runtime_type {
        RuntimeType::Auto => "docker/podman"@,
        RuntimeType::Docker => "docker"@,
        RuntimeType::Podman => "podman"@,
    }
}

/// Choose the engine. An engine that was asked for by name must have
/// answered its probe; otherwise the error names it with install
/// instructions for the host OS.
pub fn select_engine(
    runtime_type: RuntimeType,
    docker_available: bool,
    podman_available: bool,
    host_os: &str,
) -> (r: Result<Engine>)
    ensures
        engine_choice(runtime_type, docker_available, podman_available) matches Some(e) ==> (r matches Ok(
            f,
        ) && f == e),
        engine_choice(runtime_type, docker_available, podman_available) is None ==> (r matches Err(
            Error::ContainerNotAvailable { runtime, install_hint },
        ) && runtime@ == requested_name(runtime_type) && install_hint@ == container_hint_spec(
            requested_name(runtime_type),
            host_os@,
        )),
{
    match runtime_type {
        RuntimeType::Auto => {
            if docker_available {
                Ok(Engine::Docker)
            } else if podman_available {
                Ok(Engine::Podman)
            } else {
                Err(Error::container_not_found("docker/podman", host_os))
            }
        },
        RuntimeType::Docker => {
            if docker_available {
                Ok(Engine::Docker)
            } else {
                Err(Error::container_not_found("docker", host_os))
            }
        },
        RuntimeType::Podman => {
            if podman_available {
                Ok(Engine::Podman)
            } else {
                Err(Error::container_not_found("podman", host_os))
            }
        },
    }
}

/// Check if any container runtime is available, Docker first.
pub fn check_runtime_availability(docker_available: bool, podman_available: bool) -> (r: Option<
    String,
>)
    ensures
        docker_available ==> (r matches Some(n) && n@ == "docker"@),
        !docker_available && podman_available ==> (r matches Some(n) && n@ == "podman"@),
        !docker_available && !podman_available ==> r is None,
{
    if docker_available {
        return Some(owned("docker"));
    }
    if podman_available {
        return Some(owned("podman"));
    }
    None
}

/// The targets that have a prebuilt cross image.
pub open spec fn image_supported(t: Seq<char>) -> bool {
    t == "x86_64-unknown-linux-gnu"@ || t == "x86_64-unknown-linux-musl"@ || t
        == "aarch64-unknown-linux-gnu"@ || t == "aarch64-unknown-linux-musl"@ || t
        == "armv7-unknown-linux-gnueabihf"@ || t == "arm-unknown-linux-gnueabihf"@ || t
        == "x86_64-pc-windows-gnu"@ || t == "aarch64-linux-android"@ || t
        == "armv7-linux-androideabi"@ || t == "x86_64-linux-android"@ || t
        == "i686-linux-android"@
}

/// The message of the error for a target without an image.
pub open spec fn image_error_spec(t: Seq<char>) -> Seq<char> {
    if t == "x86_64-apple-darwin"@ || t == "aarch64-apple-darwin"@ {
        "No container image available for macOS target: "@ + t
            + "\nConsider using osxcross or build on macOS"@
    } else if t == "wasm32-unknown-unknown"@ {
        "WebAssembly doesn't require containers - use native build"@
    } else {
        "No container image mapping for target: "@ + t
            + "\nYou can specify a custom image in xcargo.toml"@
    }
}

/// Container image information
#[derive(Debug, Clone)]
pub struct CrossImage {
    /// Image repository
    pub repository: String,
    /// Image tag
    pub tag: String,
    /// Target triple this image supports
    pub target: String,
}

impl CrossImage {
    /// Get the full image name (repository:tag)
    pub fn full_name(&self) -> (r: String)
        ensures
            r@ == self.repository@ + ":"@ + self.tag@,
    {
        concat3(self.repository.as_str(), ":", self.tag.as_str())
    }
}

/// Image selector for choosing appropriate images
#[derive(Debug, Clone)]
pub struct ImageSelector {
    /// Image registry (default: ghcr.io/cross-rs)
    registry: String,
}

impl ImageSelector {
    pub closed spec fn registry_spec(&self) -> Seq<char> {
        self.registry@
    }

    /// Create a new image selector
    pub fn new() -> (r: Self)
        ensures
            r.registry_spec() == "ghcr.io/cross-rs"@,
    {
        ImageSelector { registry: owned("ghcr.io/cross-rs") }
    }

    /// Create with custom registry
    pub fn with_registry(registry: String) -> (r: Self)
        ensures
            r.registry_spec() == registry@,
    {
        ImageSelector { registry }
    }

    /// Select appropriate image for a target: `<registry>/<target>:latest`
    /// for the targets with an image, a container error otherwise.
    pub fn select_for_target(&self, target: &str) -> (r: Result<CrossImage>)
        ensures
            r is Ok <==> image_supported(target@),
            r matches Ok(img) ==> img.repository@ == self.registry_spec() + "/"@ + target@
                && img.tag@ == "latest"@ && img.target@ == target@,
            r matches Err(e) ==> (e matches Error::Container(m) && m@ == image_error_spec(target@)),
    {
        let supported = str_eq(target, "x86_64-unknown-linux-gnu") || str_eq(
            target,
            "x86_64-unknown-linux-musl",
        ) || str_eq(target, "aarch64-unknown-linux-gnu") || str_eq(
            target,
            "aarch64-unknown-linux-musl",
        ) || str_eq(target, "armv7-unknown-linux-gnueabihf") || str_eq(
            target,
            "arm-unknown-linux-gnueabihf",
        ) || str_eq(target, "x86_64-pc-windows-gnu") || str_eq(target, "aarch64-linux-android")
            || str_eq(target, "armv7-linux-androideabi") || str_eq(target, "x86_64-linux-android")
            || str_eq(target, "i686-linux-android");
        if supported {
            return Ok(
                CrossImage {
                    repository: concat3(self.registry.as_str(), "/", target),
                    tag: owned("latest"),
                    target: owned(target),
                },
            );
        }
        if str_eq(target, "x86_64-apple-darwin") || str_eq(target, "aarch64-apple-darwin") {
            Err(
                Error::Container(
                    concat3(
                        "No container image available for macOS target: ",
                        target,
                        "\nConsider using osxcross or build on macOS",
                    ),
                ),
            )
        } else if str_eq(target, "wasm32-unknown-unknown") {
            Err(Error::Container(owned("WebAssembly doesn't require containers - use native build")))
        } else {
            Err(
                Error::Container(
                    concat3(
                        "No container image mapping for target: ",
                        target,
                        "\nYou can specify a custom image in xcargo.toml",
                    ),
                ),
            )
        }
    }

    /// List all supported targets with images
    pub fn supported_targets(&self) -> (r: Vec<&'static str>)
        ensures
            r.len() == 11,
            forall|i: int| 0 <= i < r.len() ==> image_supported(#[trigger] r@[i]@),
            forall|t: Seq<char>| image_supported(t) ==> exists|i: int| 0 <= i < r.len() && #[trigger] r@[i]@ == t,
            forall|i: int, j: int| 0 <= i < j < r.len() ==> #[trigger] r@[i]@ != #[trigger] r@[j]@,
    {
        let mut v: Vec<&'static str> = Vec::new();
        v.push("x86_64-unknown-linux-gnu");
        v.push("x86_64-unknown-linux-musl");
        v.push("aarch64-unknown-linux-gnu");
        v.push("aarch64-unknown-linux-musl");
        v.push("armv7-unknown-linux-gnueabihf");
        v.push("arm-unknown-linux-gnueabihf");
        v.push("x86_64-pc-windows-gnu");
        v.push("aarch64-linux-android");
        v.push("armv7-linux-androideabi");
        v.push("x86_64-linux-android");
        v.push("i686-linux-android");
        proof {
            reveal_strlit("x86_64-unknown-linux-gnu");
            reveal_strlit("x86_64-unknown-linux-musl");
            reveal_strlit("aarch64-unknown-linux-gnu");
            reveal_strlit("aarch64-unknown-linux-musl");
            reveal_strlit("armv7-unknown-linux-gnueabihf");
            reveal_strlit("arm-unknown-linux-gnueabihf");
            reveal_strlit("x86_64-pc-windows-gnu");
            reveal_strlit("aarch64-linux-android");
            reveal_strlit("armv7-linux-androideabi");
            reveal_strlit("x86_64-linux-android");
            reveal_strlit("i686-linux-android");
            assert forall|t: Seq<char>| image_supported(t) implies exists|i: int| 0 <= i < v.len() && #[trigger] v@[i]@ == t by {
                if t == v@[0]@ {} else if t == v@[1]@ {} else if t == v@[2]@ {} else if t == v@[3]@ {}
                else if t == v@[4]@ {} else if t == v@[5]@ {} else if t == v@[6]@ {} else if t == v@[7]@ {}
                else if t == v@[8]@ {} else if t == v@[9]@ {} else if t == v@[10]@ {}
            }
            assert forall|i: int, j: int| 0 <= i < j < v.len() implies #[trigger] v@[i]@ != #[trigger] v@[j]@ by {
                assert(v@[i]@.len() != v@[j]@.len() || v@[i]@[0] != v@[j]@[0]);
            }
        }
        v
    }
}

/// Container build configuration
#[derive(Debug, Clone)]
pub struct ContainerConfig {
    /// Runtime to use (docker, podman, auto)
    pub runtime: RuntimeType,
    /// Container image to use; empty means "select by target"
    pub image: String,
    /// Additional volumes to mount
    pub volumes: Vec<(String, String)>,
    /// Environment variables to pass to container
    pub env: Vec<(String, String)>,
    /// Working directory inside container
    pub workdir: String,
}

impl Default for ContainerConfig {
    fn default() -> (r: Self)
        ensures
            r.runtime == RuntimeType::Auto,
            r.image@.len() == 0,
            r.volumes.len() == 0,
            r.env.len() == 0,
            r.workdir@ == "/project"@,
    {
        ContainerConfig {
            runtime: RuntimeType::Auto,
            image: String::new(),
            volumes: Vec::new(),
            env: Vec::new(),
            workdir: owned("/project"),
        }
    }
}

/// A composed container build: the image to pull and the engine arguments
/// of the run.
#[derive(Debug, Clone)]
pub struct ContainerRun {
    /// Engine executable
    pub program: String,
    /// Image to pull before running
    pub image: String,
    /// Arguments of the pull
    pub pull_args: Vec<String>,
    /// Arguments of the run
    pub run_args: Vec<String>,
}

/// The command run inside the container: the build driver for the target,
/// then the pass-through arguments.
pub open spec fn container_command_spec(target: Seq<char>, cargo_args: Seq<Seq<char>>) -> Seq<
    Seq<char>,
> {
    seq!["cargo"@, "build"@, "--target"@, target] + cargo_args
}

/// Volumes of a container build: the configured ones, then the project
/// directory on the working directory, then the dependency cache if the home
/// directory is known.
pub open spec fn volumes_spec(
    configured: Seq<(Seq<char>, Seq<char>)>,
    project_dir: Seq<char>,
    workdir: Seq<char>,
    home: Option<Seq<char>>,
) -> Seq<(Seq<char>, Seq<char>)> {
    let with_project = configured.push((project_dir, workdir));
    match home {
        Some(h) => with_project.push((h + "/.cargo"@, "/root/.cargo"@)),
        None => with_project,
    }
}

/// Container builder for executing builds in containers
#[derive(Debug, Clone)]
pub struct ContainerBuilder {
    engine: Engine,
    image_selector: ImageSelector,
}

impl ContainerBuilder {
    pub closed spec fn engine_spec(&self) -> Engine {
        self.engine
    }

    pub closed spec fn registry_spec(&self) -> Seq<char> {
        self.image_selector.registry_spec()
    }

    /// Create a new container builder over the engine chosen for
    /// `runtime_type`, given which engines answered their probe.
    pub fn new(
        runtime_type: RuntimeType,
        docker_available: bool,
        podman_available: bool,
        host_os: &str,
    ) -> (r: Result<Self>)
        ensures
            engine_choice(runtime_type, docker_available, podman_available) matches Some(e) ==> (r matches Ok(
                b,
            ) && b.engine_spec() == e && b.registry_spec() == "ghcr.io/cross-rs"@),
            engine_choice(runtime_type, docker_available, podman_available) is None ==> (r matches Err(
                Error::ContainerNotAvailable { runtime, install_hint },
            ) && runtime@ == requested_name(runtime_type) && install_hint@ == container_hint_spec(
                requested_name(runtime_type),
                host_os@,
            )),
    {
        match select_engine(runtime_type, docker_available, podman_available, host_os) {
            Ok(engine) => Ok(ContainerBuilder { engine, image_selector: ImageSelector::new() }),
            Err(e) => Err(e),
        }
    }

    /// The engine of a builder is chosen only among engines that answered.
    pub fn is_available(&self) -> (r: bool)
        ensures
            r,
    {
        true
    }

    /// Get the runtime name
    pub fn runtime_name(&self) -> (r: &str)
        ensures
            r@ == self.engine_spec().name_spec(),
    {
        self.engine.name()
    }

    /// The engine in use
    pub fn engine(&self) -> (r: Engine)
        ensures
            r == self.engine_spec(),
    {
        self.engine
    }

    /// Select appropriate image for target
    pub fn select_image(&self, target: &str) -> (r: Result<CrossImage>)
        ensures
            r is Ok <==> image_supported(target@),
            r matches Ok(img) ==> img.repository@ == self.registry_spec() + "/"@ + target@
                && img.tag@ == "latest"@ && img.target@ == target@,
            r matches Err(e) ==> (e matches Error::Container(m) && m@ == image_error_spec(target@)),
    {
        self.image_selector.select_for_target(target)
    }

    /// Compose a build in a container: the image is the configured one, or
    /// the target's image when none is configured; the project directory and
    /// the dependency cache are mounted; the configured environment is
    /// forwarded; the build driver runs for the target with the
    /// pass-through arguments.
    pub fn build(
        &self,
        target: &str,
        cargo_args: &Vec<String>,
        config: &ContainerConfig,
        project_dir: &str,
        home: Option<&str>,
    ) -> (r: Result<ContainerRun>)
        ensures
            config.image@.len() == 0 && !image_supported(target@) ==> (r matches Err(
                Error::Container(m),
            ) && m@ == image_error_spec(target@)),
            config.image@.len() > 0 || image_supported(target@) ==> (r matches Ok(run) && {
                let image = if config.image@.len() > 0 {
                    config.image@
                } else {
                    self.registry_spec() + "/"@ + target@ + ":"@ + "latest"@
                };
                &&& run.program@ == self.engine_spec().name_spec()
                &&& run.image@ == image
                &&& strings_view(run.pull_args@) == seq!["pull"@, image]
                &&& strings_view(run.run_args@) == run_args_spec(
                    image,
                    container_command_spec(target@, strings_view(cargo_args@)),
                    volumes_spec(
                        pairs_view(config.volumes@),
                        project_dir@,
                        config.workdir@,
                        match home {
                            Some(h) => Some(h@),
                            None => None,
                        },
                    ),
                    pairs_view(config.env@),
                    config.workdir@,
                )
            }),
    {
        let image = if config.image.as_str().unicode_len() == 0 {
            let img = self.select_image(target)?;
            img.full_name()
        } else {
            owned(config.image.as_str())
        };
        let mut volumes = crate::config::copy_pairs(&config.volumes);
        let ghost configured = pairs_view(volumes@);
        volumes.push((owned(project_dir), owned(config.workdir.as_str())));
        assert(pairs_view(volumes@) =~= configured.push((project_dir@, config.workdir@)));
        match home {
            Some(h) => {
                let ghost before = pairs_view(volumes@);
                volumes.push((concat2(h, "/.cargo"), owned("/root/.cargo")));
                assert(pairs_view(volumes@) =~= before.push((h@ + "/.cargo"@, "/root/.cargo"@)));
            },
            None => {},
        }
        let mut cmd: Vec<String> = Vec::new();
        cmd.push(owned("cargo"));
        cmd.push(owned("build"));
        cmd.push(owned("--target"));
        cmd.push(owned(target));
        assert(strings_view(cmd@) =~= seq!["cargo"@, "build"@, "--target"@, target@]);
        push_all(&mut cmd, cargo_args);
        let run = run_args(image.as_str(), &cmd, &volumes, &config.env, config.workdir.as_str());
        let pull = two("pull", image.as_str());
        Ok(ContainerRun { program: owned(self.engine.name()), image, pull_args: pull, run_args: run })
    }
}

} // verus!
