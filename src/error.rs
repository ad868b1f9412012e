//! Error values, their exit codes, and the remedies shown beside them.
use vstd::prelude::*;
use crate::strs::{contains, concat2, concat3, joined, owned, str_eq, has_infix, decimal_spec};

verus! {

#[verifier::external_type_specification]
#[verifier::external_body]
pub struct ExIoError(std::io::Error);

/// Exit codes for CI systems, one per error category, stable across runs.
#[derive(Debug, Clone, Copy, PartialEq, Eq, Structural)]
pub enum ExitCode {
    /// Success
    Success,
    /// General error
    GeneralError,
    /// Configuration error (malformed config, missing file)
    ConfigError,
    /// Target not found or invalid
    TargetError,
    /// Toolchain error (rustup, linker missing)
    ToolchainError,
    /// Build failed (cargo returned error)
    BuildError,
    /// Container error (Docker/Podman issue)
    ContainerError,
    /// IO error (file not found, permission denied)
    IoError,
    /// User cancelled operation
    UserCancelled,
}

impl ExitCode {
    /// The numeric process exit status of this category.
    pub open spec fn code_spec(self) -> i32 {
        match self {
            ExitCode::Success => 0,
            ExitCode::GeneralError => 1,
            ExitCode::ConfigError => 2,
            ExitCode::TargetError => 3,
            ExitCode::ToolchainError => 4,
            ExitCode::BuildError => 5,
            ExitCode::ContainerError => 6,
            ExitCode::IoError => 7,
            ExitCode::UserCancelled => 130,
        }
    }

    /// The numeric process exit status of this category.
    pub fn code(&self) -> (r: i32)
        ensures
            r == self.code_spec(),
    {
        match self {
            ExitCode::Success => 0,
            ExitCode::GeneralError => 1,
            ExitCode::ConfigError => 2,
            ExitCode::TargetError => 3,
            ExitCode::ToolchainError => 4,
            ExitCode::BuildError => 5,
            ExitCode::ContainerError => 6,
            ExitCode::IoError => 7,
            ExitCode::UserCancelled => 130,
        }
    }

    /// The category an error falls into.
    pub open spec fn for_error_spec(e: &Error) -> ExitCode {
        match e {
            Error::Io(_) => ExitCode::IoError,
            Error::Prompt(_) => ExitCode::UserCancelled,
            Error::TargetNotFound(_) | Error::InvalidTarget { .. } => ExitCode::TargetError,
            Error::Toolchain(_) | Error::ToolchainMissing { .. } | Error::LinkerMissing {
                ..
            } => ExitCode::ToolchainError,
            Error::Build(_) | Error::BuildFailed { .. } => ExitCode::BuildError,
            Error::Config(_) | Error::ConfigParse { .. } => ExitCode::ConfigError,
            Error::Container(_) | Error::ContainerNotAvailable { .. } => ExitCode::ContainerError,
        }
    }

    /// The category an error falls into.
    pub fn for_error(e: &Error) -> (r: ExitCode)
        ensures
            r == Self::for_error_spec(e),
    {
        match e {
            Error::Io(_) => ExitCode::IoError,
            Error::Prompt(_) => ExitCode::UserCancelled,
            Error::TargetNotFound(_) | Error::InvalidTarget { .. } => ExitCode::TargetError,
            Error::Toolchain(_) | Error::ToolchainMissing { .. } | Error::LinkerMissing {
                ..
            } => ExitCode::ToolchainError,
            Error::Build(_) | Error::BuildFailed { .. } => ExitCode::BuildError,
            Error::Config(_) | Error::ConfigParse { .. } => ExitCode::ConfigError,
            Error::Container(_) | Error::ContainerNotAvailable { .. } => ExitCode::ContainerError,
        }
    }
}

/// Main error type of the library.
#[derive(Debug)]
pub enum Error {
    /// IO error
    Io(std::io::Error),
    /// Prompt/interactive input error
    Prompt(String),
    /// Target not found (simple)
    TargetNotFound(String),
    /// Invalid target with suggestion
    InvalidTarget {
        /// The invalid target triple
        target: String,
        /// Suggested valid targets
        suggestions: Vec<String>,
    },
    /// Toolchain error (simple)
    Toolchain(String),
    /// Toolchain missing with install hint
    ToolchainMissing {
        /// The missing toolchain
        toolchain: String,
        /// Install command hint
        install_hint: String,
    },
    /// Linker missing with install hint
    LinkerMissing {
        /// The missing linker
        linker: String,
        /// Target that requires it
        target: String,
        /// Install command hint
        install_hint: String,
    },
    /// Build error (simple)
    Build(String),
    /// Build failed with details
    BuildFailed {
        /// Target that failed
        target: String,
        /// Exit code from cargo
        exit_code: Option<i32>,
        /// Suggestion for fixing
        suggestion: Option<String>,
    },
    /// Configuration error (simple)
    Config(String),
    /// Config parse error with location
    ConfigParse {
        /// Config file path
        path: String,
        /// Line number if available
        line: Option<usize>,
        /// Parse error message
        message: String,
    },
    /// Container error (simple)
    Container(String),
    /// Container runtime not available
    ContainerNotAvailable {
        /// Tried runtime
        runtime: String,
        /// Install hint
        install_hint: String,
    },
}

/// Result type alias
pub type Result<T> = std::result::Result<T, Error>;

/// The character view of an optional string.
pub open spec fn opt_view(o: Option<String>) -> Option<Seq<char>> {
    match o {
        Some(s) => Some(s@),
        None => None,
    }
}

/// Host-specific install hint for a missing linker.
pub open spec fn linker_hint_spec(host_os: Seq<char>, target: Seq<char>) -> Seq<char> {
    if host_os == "macos"@ && has_infix(target, "windows"@) {
        "brew install mingw-w64"@
    } else if host_os == "macos"@ && has_infix(target, "linux"@) {
        "Consider using Zig: brew install zig && xcargo build --zig"@
    } else if host_os == "linux"@ && has_infix(target, "windows"@) {
        "sudo apt install mingw-w64  # or your distro's package manager"@
    } else if host_os == "linux"@ && (has_infix(target, "darwin"@) || has_infix(target, "apple"@)) {
        "macOS cross-compilation requires osxcross: https://github.com/tpoechtrager/osxcross"@
    } else if host_os == "windows"@ && has_infix(target, "linux"@) {
        "Consider using Zig: scoop install zig && xcargo build --zig"@
    } else {
        "Install a linker that supports "@ + target
    }
}

/// Host-specific install hint for a missing container runtime.
pub open spec fn container_hint_spec(runtime: Seq<char>, host_os: Seq<char>) -> Seq<char> {
    if host_os == "macos"@ {
        "Install Docker Desktop: https://www.docker.com/products/docker-desktop\nOr Podman: brew install podman && podman machine init && podman machine start"@
    } else if host_os == "linux"@ {
        "Install Docker: sudo apt install docker.io && sudo systemctl start docker\nOr Podman: sudo apt install podman"@
    } else if host_os == "windows"@ {
        "Install Docker Desktop: https://www.docker.com/products/docker-desktop\nOr Podman: winget install RedHat.Podman"@
    } else {
        "Install "@ + runtime + " or a compatible container runtime"@
    }
}

/// Relies on `std::io::Error`'s `Display`: some text describing the error.
/// Nothing is stated of it.
#[verifier::external_body]
fn io_error_text(e: &std::io::Error) -> String {
    e.to_string()
}

impl Error {
    /// The one-line description of this error; for an IO error, the part
    /// after the prefix comes from the IO error itself.
    pub open spec fn message_spec(&self) -> Option<Seq<char>> {
        match self {
            Error::Io(_) => None,
            Error::Prompt(m) => Some("Input error: "@ + m@),
            Error::TargetNotFound(m) => Some("Target not found: "@ + m@),
            Error::InvalidTarget { target, .. } => Some("Invalid target '"@ + target@ + "'"@),
            Error::Toolchain(m) => Some("Toolchain error: "@ + m@),
            Error::ToolchainMissing { toolchain, .. } => Some(
                "Toolchain '"@ + toolchain@ + "' is not installed"@,
            ),
            Error::LinkerMissing { linker, target, .. } => Some(
                "Linker '"@ + linker@ + "' not found for target '"@ + target@ + "'"@,
            ),
            Error::Build(m) => Some("Build failed: "@ + m@),
            Error::BuildFailed { target, .. } => Some("Build failed for target '"@ + target@ + "'"@),
            Error::Config(m) => Some("Configuration error: "@ + m@),
            Error::ConfigParse { .. } => Some("Failed to parse configuration"@),
            Error::Container(m) => Some("Container error: "@ + m@),
            Error::ContainerNotAvailable { .. } => Some("Container runtime not available"@),
        }
    }

    /// The one-line description of this error, as shown to users.
    pub fn to_display_string(&self) -> (r: String)
        ensures
            self.message_spec() matches Some(m) ==> r@ == m,
            self is Io ==> crate::strs::has_prefix(r@, "IO error: "@),
    {
        match self {
            Error::Io(e) => {
                let text = io_error_text(e);
                let r = concat2("IO error: ", text.as_str());
                assert(r@.subrange(0, "IO error: "@.len() as int) =~= "IO error: "@);
                r
            },
            Error::Prompt(m) => concat2("Input error: ", m.as_str()),
            Error::TargetNotFound(m) => concat2("Target not found: ", m.as_str()),
            Error::InvalidTarget { target, .. } => concat3("Invalid target '", target.as_str(), "'"),
            Error::Toolchain(m) => concat2("Toolchain error: ", m.as_str()),
            Error::ToolchainMissing { toolchain, .. } => concat3(
                "Toolchain '",
                toolchain.as_str(),
                "' is not installed",
            ),
            Error::LinkerMissing { linker, target, .. } => {
                let mut r = concat3("Linker '", linker.as_str(), "' not found for target '");
                r.append(target.as_str());
                r.append("'");
                r
            },
            Error::Build(m) => concat2("Build failed: ", m.as_str()),
            Error::BuildFailed { target, .. } => concat3(
                "Build failed for target '",
                target.as_str(),
                "'",
            ),
            Error::Config(m) => concat2("Configuration error: ", m.as_str()),
            Error::ConfigParse { .. } => owned("Failed to parse configuration"),
            Error::Container(m) => concat2("Container error: ", m.as_str()),
            Error::ContainerNotAvailable { .. } => owned("Container runtime not available"),
        }
    }

    /// The remedy suggested for this error, if any.
    pub open spec fn suggestion_spec(&self) -> Option<Seq<char>> {
        match self {
            Error::InvalidTarget { suggestions, .. } => {
                if suggestions.len() == 0 {
                    Some("Run 'xcargo target list' to see available targets"@)
                } else {
                    Some(
                        "Did you mean: "@ + joined(
                            suggestions@.map_values(|s: String| s@),
                            ", "@,
                        ) + "?"@,
                    )
                }
            },
            Error::ToolchainMissing { install_hint, .. } => Some(install_hint@),
            Error::LinkerMissing { install_hint, .. } => Some(install_hint@),
            Error::BuildFailed { suggestion, .. } => opt_view(*suggestion),
            Error::ContainerNotAvailable { install_hint, .. } => Some(install_hint@),
            Error::ConfigParse { path, .. } => Some("Check "@ + path@ + " for syntax errors"@),
            _ => None,
        }
    }

    /// The extra context shown for this error, if any.
    pub open spec fn hint_spec(&self) -> Option<Seq<char>> {
        match self {
            Error::TargetNotFound(_) | Error::InvalidTarget { .. } => Some(
                "Use 'xcargo target list' to see available targets"@,
            ),
            Error::LinkerMissing { target, .. } => Some(
                "Cross-compiling to "@ + target@ + " requires a compatible linker"@,
            ),
            Error::BuildFailed { exit_code: Some(code), .. } => Some(
                "Cargo exited with code "@ + decimal_spec(*code as int),
            ),
            Error::ContainerNotAvailable { runtime, .. } => Some(
                "Tried to use "@ + runtime@ + " but it's not running"@,
            ),
            _ => None,
        }
    }

    /// Get the exit code for this error
    pub fn exit_code(&self) -> (r: i32)
        ensures
            r == ExitCode::for_error_spec(self).code_spec(),
    {
        ExitCode::for_error(self).code()
    }

    /// Get a suggestion for fixing this error
    pub fn suggestion(&self) -> (r: Option<String>)
        ensures
            opt_view(r) == self.suggestion_spec(),
    {
        match self {
            Error::InvalidTarget { suggestions, .. } => {
                if suggestions.len() == 0 {
                    Some(owned("Run 'xcargo target list' to see available targets"))
                } else {
                    let list = crate::strs::join(suggestions, ", ");
                    Some(concat3("Did you mean: ", list.as_str(), "?"))
                }
            },
            Error::ToolchainMissing { install_hint, .. } => Some(install_hint.clone()),
            Error::LinkerMissing { install_hint, .. } => Some(install_hint.clone()),
            Error::BuildFailed { suggestion, .. } => match suggestion {
                Some(s) => Some(s.clone()),
                None => None,
            },
            Error::ContainerNotAvailable { install_hint, .. } => Some(install_hint.clone()),
            Error::ConfigParse { path, .. } => Some(
                concat3("Check ", path.as_str(), " for syntax errors"),
            ),
            _ => None,
        }
    }

    /// Get a hint (additional context) for this error
    pub fn hint(&self) -> (r: Option<String>)
        ensures
            opt_view(r) == self.hint_spec(),
    {
        match self {
            Error::TargetNotFound(_) | Error::InvalidTarget { .. } => Some(
                owned("Use 'xcargo target list' to see available targets"),
            ),
            Error::LinkerMissing { target, .. } => Some(
                concat3("Cross-compiling to ", target.as_str(), " requires a compatible linker"),
            ),
            Error::BuildFailed { exit_code: Some(code), .. } => {
                let digits = crate::strs::decimal(*code);
                Some(concat2("Cargo exited with code ", digits.as_str()))
            },
            Error::ContainerNotAvailable { runtime, .. } => Some(
                concat3("Tried to use ", runtime.as_str(), " but it's not running"),
            ),
            _ => None,
        }
    }

    /// Create a linker missing error with platform-specific install hints
    pub fn linker_not_found(linker: &str, target: &str, host_os: &str) -> (r: Error)
        ensures
            r matches Error::LinkerMissing { linker: l, target: t, install_hint: h }
                && l@ == linker@ && t@ == target@ && h@ == linker_hint_spec(host_os@, target@),
    {
        let mac = str_eq(host_os, "macos");
        let lin = str_eq(host_os, "linux");
        let win = str_eq(host_os, "windows");
        let install_hint = if mac && contains(target, "windows") {
            owned("brew install mingw-w64")
        } else if mac && contains(target, "linux") {
            owned("Consider using Zig: brew install zig && xcargo build --zig")
        } else if lin && contains(target, "windows") {
            owned("sudo apt install mingw-w64  # or your distro's package manager")
        } else if lin && (contains(target, "darwin") || contains(target, "apple")) {
            owned(
                "macOS cross-compilation requires osxcross: https://github.com/tpoechtrager/osxcross",
            )
        } else if win && contains(target, "linux") {
            owned("Consider using Zig: scoop install zig && xcargo build --zig")
        } else {
            concat2("Install a linker that supports ", target)
        };
        Error::LinkerMissing { linker: owned(linker), target: owned(target), install_hint }
    }

    /// Create a container not available error with platform-specific hints
    pub fn container_not_found(runtime: &str, host_os: &str) -> (r: Error)
        ensures
            r matches Error::ContainerNotAvailable { runtime: rt, install_hint: h }
                && rt@ == runtime@ && h@ == container_hint_spec(runtime@, host_os@),
    {
        let install_hint = if str_eq(host_os, "macos") {
            owned(
                "Install Docker Desktop: https://www.docker.com/products/docker-desktop\nOr Podman: brew install podman && podman machine init && podman machine start",
            )
        } else if str_eq(host_os, "linux") {
            owned(
                "Install Docker: sudo apt install docker.io && sudo systemctl start docker\nOr Podman: sudo apt install podman",
            )
        } else if str_eq(host_os, "windows") {
            owned(
                "Install Docker Desktop: https://www.docker.com/products/docker-desktop\nOr Podman: winget install RedHat.Podman",
            )
        } else {
            concat3("Install ", runtime, " or a compatible container runtime")
        };
        Error::ContainerNotAvailable { runtime: owned(runtime), install_hint }
    }
}

} // verus!
