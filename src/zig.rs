//! The cross-compiler wrapper strategy: a general-purpose cross toolchain
//! that carries its own libc and headers, adapted through small shim scripts.
use vstd::prelude::*;
use crate::error::{opt_view, Error, Result};
use crate::strs::{concat3, owned, replace_all_char, replace_char, str_eq};
use crate::target::{pairs_view, Target};

verus! {

/// What `str::to_uppercase` returns for `s`.
pub uninterp spec fn upper_of(s: Seq<char>) -> Seq<char>;

/// Relies on `str::to_uppercase`: the result depends on the characters of
/// `s` alone.
#[verifier::external_body]
fn uppercase(s: &str) -> (r: String)
    ensures
        r@ == upper_of(s@),
{
    s.to_uppercase()
}

/// Name of the per-target linker variable, built from the already
/// uppercased triple: dashes become underscores.
pub open spec fn linker_var_spec(upper: Seq<char>) -> Seq<char> {
    "CARGO_TARGET_"@ + replace_char(upper, '-', '_') + "_LINKER"@
}

/// Name of the linker-selection variable, given the uppercased triple.
pub fn linker_env_var_from_upper(upper: &str) -> (r: String)
    ensures
        r@ == linker_var_spec(upper@),
{
    let body = replace_all_char(upper, '-', '_');
    concat3("CARGO_TARGET_", body.as_str(), "_LINKER")
}

/// Name of the linker-selection variable for a triple
/// (`x86_64-pc-windows-gnu` gives `CARGO_TARGET_X86_64_PC_WINDOWS_GNU_LINKER`).
pub fn linker_env_var(triple: &str) -> (r: String)
    ensures
        r@ == linker_var_spec(upper_of(triple@)),
{
    let upper = uppercase(triple);
    linker_env_var_from_upper(upper.as_str())
}

/// The triples the wrapper toolchain can build for.
pub open spec fn zig_supported(t: Seq<char>) -> bool {
    t == "x86_64-unknown-linux-gnu"@ || t == "aarch64-unknown-linux-gnu"@ || t
        == "armv7-unknown-linux-gnueabihf"@ || t == "i686-unknown-linux-gnu"@ || t
        == "arm-unknown-linux-gnueabihf"@ || t == "x86_64-unknown-linux-musl"@ || t
        == "aarch64-unknown-linux-musl"@ || t == "x86_64-pc-windows-gnu"@ || t
        == "i686-pc-windows-gnu"@
}

/// The wrapper toolchain's own name for a triple, if it has one.
pub open spec fn zig_triple_of(t: Seq<char>) -> Option<Seq<char>> {
    if t == "x86_64-unknown-linux-gnu"@ {
        Some("x86_64-linux-gnu"@)
    } else if t == "x86_64-unknown-linux-musl"@ {
        Some("x86_64-linux-musl"@)
    } else if t == "aarch64-unknown-linux-gnu"@ {
        Some("aarch64-linux-gnu"@)
    } else if t == "aarch64-unknown-linux-musl"@ {
        Some("aarch64-linux-musl"@)
    } else if t == "armv7-unknown-linux-gnueabihf"@ {
        Some("arm-linux-gnueabihf"@)
    } else if t == "arm-unknown-linux-gnueabihf"@ {
        Some("arm-linux-gnueabihf"@)
    } else if t == "i686-unknown-linux-gnu"@ {
        Some("i386-linux-gnu"@)
    } else if t == "x86_64-pc-windows-gnu"@ {
        Some("x86_64-windows-gnu"@)
    } else if t == "i686-pc-windows-gnu"@ {
        Some("i686-windows-gnu"@)
    } else {
        None
    }
}

/// Path of the compiler/linker shim for a triple inside the cache directory.
pub open spec fn cc_path_spec(cache_dir: Seq<char>, triple: Seq<char>) -> Seq<char> {
    cache_dir + "/"@ + triple + "-cc"@
}

/// Path of the shared archiver shim inside the cache directory.
pub open spec fn ar_path_spec(cache_dir: Seq<char>) -> Seq<char> {
    cache_dir + "/"@ + "zig-ar"@
}

/// The environment the wrapper strategy sets: compiler and archiver
/// variables, and the per-target linker variable on the compiler shim.
pub open spec fn zig_env_spec(cache_dir: Seq<char>, triple: Seq<char>) -> Seq<(Seq<char>, Seq<char>)> {
    seq![
        ("CC"@, cc_path_spec(cache_dir, triple)),
        ("AR"@, ar_path_spec(cache_dir)),
        (linker_var_spec(upper_of(triple)), cc_path_spec(cache_dir, triple)),
    ]
}

/// Text of the compiler shim that fixes `-target <zig_target>`.
pub open spec fn cc_script_spec(zig_target: Seq<char>, windows: bool) -> Seq<char> {
    if windows {
        "@echo off\nzig cc -target "@ + zig_target + " %*\n"@
    } else {
        "#!/bin/sh\nexec zig cc -target "@ + zig_target + " \"$@\"\n"@
    }
}

/// Text of the archiver shim.
pub open spec fn ar_script_spec(windows: bool) -> Seq<char> {
    if windows {
        "@echo off\nzig ar %*\n"@
    } else {
        "#!/bin/sh\nexec zig ar \"$@\"\n"@
    }
}

/// The role a shim plays for the build driver.
#[derive(Debug, Clone, Copy, PartialEq, Eq, Structural)]
pub enum WrapperRole {
    /// C compiler entry point
    Compiler,
    /// Linker driver (the compiler shim itself)
    Linker,
    /// Static archiver
    Archiver,
}

/// One shim to be written: its role, its path and its text.
#[derive(Debug, Clone)]
pub struct WrapperScript {
    /// What the shim stands for
    pub role: WrapperRole,
    /// Where it lives
    pub path: String,
    /// What it holds
    pub content: String,
}

/// The shims a target needs: the compiler shim, also used as the linker,
/// and the archiver shim shared by all targets of one cache directory.
#[derive(Debug, Clone)]
pub struct WrapperPlan {
    /// Compiler/linker shim, one per target
    pub compiler: WrapperScript,
    /// Archiver shim, one per cache directory
    pub archiver: WrapperScript,
}

/// Zig toolchain for cross-compilation
#[derive(Debug, Clone)]
pub struct ZigToolchain {
    /// Path to zig binary
    zig_path: String,
    /// Zig version
    version: String,
    /// Cache directory for wrapper scripts
    cache_dir: String,
}

impl ZigToolchain {
    pub closed spec fn path_spec(&self) -> Seq<char> {
        self.zig_path@
    }

    pub closed spec fn version_spec(&self) -> Seq<char> {
        self.version@
    }

    pub closed spec fn cache_dir_spec(&self) -> Seq<char> {
        self.cache_dir@
    }

    /// A toolchain found at `zig_path`, reporting `version`, whose shims
    /// live under `cache_dir`.
    pub fn new(zig_path: String, version: String, cache_dir: String) -> (r: Self)
        ensures
            r.path_spec() == zig_path@,
            r.version_spec() == version@,
            r.cache_dir_spec() == cache_dir@,
    {
        ZigToolchain { zig_path, version, cache_dir }
    }

    /// Get the Zig version
    pub fn version(&self) -> (r: &str)
        ensures
            r@ == self.version_spec(),
    {
        self.version.as_str()
    }

    /// Get the path to the Zig binary
    pub fn path(&self) -> (r: &str)
        ensures
            r@ == self.path_spec(),
    {
        self.zig_path.as_str()
    }

    /// Get the directory that holds the shims
    pub fn cache_dir(&self) -> (r: &str)
        ensures
            r@ == self.cache_dir_spec(),
    {
        self.cache_dir.as_str()
    }

    /// Check if Zig supports a target by triple name (static method)
    pub fn supports_target_name(triple: &str) -> (r: bool)
        ensures
            r == zig_supported(triple@),
    {
        str_eq(triple, "x86_64-unknown-linux-gnu") || str_eq(triple, "aarch64-unknown-linux-gnu")
            || str_eq(triple, "armv7-unknown-linux-gnueabihf") || str_eq(
            triple,
            "i686-unknown-linux-gnu",
        ) || str_eq(triple, "arm-unknown-linux-gnueabihf") || str_eq(
            triple,
            "x86_64-unknown-linux-musl",
        ) || str_eq(triple, "aarch64-unknown-linux-musl") || str_eq(triple, "x86_64-pc-windows-gnu")
            || str_eq(triple, "i686-pc-windows-gnu")
    }

    /// Check if Zig can cross-compile to a target
    pub fn supports_target(&self, target: &Target) -> (r: bool)
        ensures
            r == zig_supported(target.triple@),
    {
        Self::supports_target_name(target.triple.as_str())
    }

    /// Get the Zig target triple for a Rust target
    pub fn zig_target_for_rust_target(target: &Target) -> (r: Option<String>)
        ensures
            opt_view(r) == zig_triple_of(target.triple@),
    {
        let t = target.triple.as_str();
        if str_eq(t, "x86_64-unknown-linux-gnu") {
            Some(owned("x86_64-linux-gnu"))
        } else if str_eq(t, "x86_64-unknown-linux-musl") {
            Some(owned("x86_64-linux-musl"))
        } else if str_eq(t, "aarch64-unknown-linux-gnu") {
            Some(owned("aarch64-linux-gnu"))
        } else if str_eq(t, "aarch64-unknown-linux-musl") {
            Some(owned("aarch64-linux-musl"))
        } else if str_eq(t, "armv7-unknown-linux-gnueabihf") {
            Some(owned("arm-linux-gnueabihf"))
        } else if str_eq(t, "arm-unknown-linux-gnueabihf") {
            Some(owned("arm-linux-gnueabihf"))
        } else if str_eq(t, "i686-unknown-linux-gnu") {
            Some(owned("i386-linux-gnu"))
        } else if str_eq(t, "x86_64-pc-windows-gnu") {
            Some(owned("x86_64-windows-gnu"))
        } else if str_eq(t, "i686-pc-windows-gnu") {
            Some(owned("i686-windows-gnu"))
        } else {
            None
        }
    }

    /// Path of the compiler/linker shim for a target.
    pub fn cc_wrapper_path(&self, target: &Target) -> (r: String)
        ensures
            r@ == cc_path_spec(self.cache_dir_spec(), target.triple@),
    {
        let mut r = concat3(self.cache_dir.as_str(), "/", target.triple.as_str());
        r.append("-cc");
        r
    }

    /// Path of the shared archiver shim.
    pub fn ar_wrapper_path(&self) -> (r: String)
        ensures
            r@ == ar_path_spec(self.cache_dir_spec()),
    {
        concat3(self.cache_dir.as_str(), "/", "zig-ar")
    }

    /// The shims to write for a target. The caller writes each one that is
    /// not present yet and marks it executable. `windows` selects batch
    /// scripts instead of POSIX shell scripts.
    pub fn wrapper_plan(&self, target: &Target, windows: bool) -> (r: Result<WrapperPlan>)
        ensures
            r is Ok <==> zig_triple_of(target.triple@) is Some,
            r matches Err(e) ==> e is Toolchain,
            r matches Ok(p) ==> {
                &&& p.compiler.role == WrapperRole::Compiler
                &&& p.compiler.path@ == cc_path_spec(self.cache_dir_spec(), target.triple@)
                &&& p.compiler.content@ == cc_script_spec(zig_triple_of(target.triple@)->0, windows)
                &&& p.archiver.role == WrapperRole::Archiver
                &&& p.archiver.path@ == ar_path_spec(self.cache_dir_spec())
                &&& p.archiver.content@ == ar_script_spec(windows)
            },
    {
        let zig_target = match Self::zig_target_for_rust_target(target) {
            Some(z) => z,
            None => {
                return Err(
                    Error::Toolchain(
                        concat3("Target ", target.triple.as_str(), " not supported by Zig"),
                    ),
                );
            },
        };
        let cc_content = if windows {
            concat3("@echo off\nzig cc -target ", zig_target.as_str(), " %*\n")
        } else {
            concat3("#!/bin/sh\nexec zig cc -target ", zig_target.as_str(), " \"$@\"\n")
        };
        let ar_content = if windows {
            owned("@echo off\nzig ar %*\n")
        } else {
            owned("#!/bin/sh\nexec zig ar \"$@\"\n")
        };
        Ok(
            WrapperPlan {
                compiler: WrapperScript {
                    role: WrapperRole::Compiler,
                    path: self.cc_wrapper_path(target),
                    content: cc_content,
                },
                archiver: WrapperScript {
                    role: WrapperRole::Archiver,
                    path: self.ar_wrapper_path(),
                    content: ar_content,
                },
            },
        )
    }

    /// Environment variables for cross-compiling to a target: the compiler
    /// variable and the archiver variable point at their shims, and the
    /// per-target linker variable points at the compiler shim.
    pub fn environment_for_target(&self, target: &Target) -> (r: Result<Vec<(String, String)>>)
        ensures
            r is Ok <==> zig_supported(target.triple@),
            r matches Err(e) ==> e is Toolchain,
            r matches Ok(env) ==> pairs_view(env@) == zig_env_spec(self.cache_dir_spec(), target.triple@),
    {
        if !self.supports_target(target) {
            return Err(
                Error::Toolchain(
                    concat3("Target ", target.triple.as_str(), " is not supported by Zig"),
                ),
            );
        }
        let mut env: Vec<(String, String)> = Vec::new();
        env.push((owned("CC"), self.cc_wrapper_path(target)));
        env.push((owned("AR"), self.ar_wrapper_path()));
        env.push((linker_env_var(target.triple.as_str()), self.cc_wrapper_path(target)));
        assert(pairs_view(env@) =~= zig_env_spec(self.cache_dir_spec(), target.triple@));
        Ok(env)
    }

    /// Get a summary of Zig's capabilities
    pub fn info(&self) -> (r: String)
        ensures
            r@ == "Zig "@ + self.version_spec() + " ("@ + self.path_spec()
                + ")\nSupports: Linux (x86_64, aarch64, armv7), Windows (x86_64, i686)\nLimitations: musl may have linking issues, macOS/wasm not supported"@,
    {
        let mut r = concat3("Zig ", self.version.as_str(), " (");
        r.append(self.zig_path.as_str());
        r.append(
            ")\nSupports: Linux (x86_64, aarch64, armv7), Windows (x86_64, i686)\nLimitations: musl may have linking issues, macOS/wasm not supported",
        );
        r
    }
}

} // verus!
