//! User-facing message values: kind, icon, colour and rendered text.
use vstd::prelude::*;
use crate::strs::{concat2, concat3, decimal_u64, digits_of, owned};

verus! {

/// Reset to default color
pub const RESET: &'static str = "\x1b[0m";
/// Bold text
pub const BOLD: &'static str = "\x1b[1m";
/// Dim text
pub const DIM: &'static str = "\x1b[2m";
/// Green (success)
pub const GREEN: &'static str = "\x1b[32m";
/// Yellow (warning)
pub const YELLOW: &'static str = "\x1b[33m";
/// Blue (info)
pub const BLUE: &'static str = "\x1b[34m";
/// Cyan (hint)
pub const CYAN: &'static str = "\x1b[36m";
/// Red (error)
pub const RED: &'static str = "\x1b[31m";
/// Magenta (special)
pub const MAGENTA: &'static str = "\x1b[35m";

/// Tip about installing targets
pub const INSTALL_TARGET: &'static str = "Use 'xcargo target add <triple>' to install a new target";
/// Tip about checking installed targets
pub const LIST_TARGETS: &'static str = "Use 'xcargo target list' to see all available targets";
/// Tip about configuration
pub const CONFIG_FILE: &'static str = "Create an xcargo.toml file to customize build behavior";
/// Tip about parallel builds
pub const PARALLEL_BUILDS: &'static str = "Enable parallel builds in xcargo.toml with 'parallel = true' for faster builds";
/// Tip about caching
pub const BUILD_CACHE: &'static str = "xcargo caches builds by default. Use '--no-cache' to force a clean build";
/// Tip about container builds
pub const CONTAINER_BUILDS: &'static str = "xcargo uses containers only when necessary. Set 'force_container = true' to always use containers";
/// Tip about native builds
pub const NATIVE_BUILDS: &'static str = "Native builds are 2-3x faster than container builds when possible";
/// Tip about profiles
pub const BUILD_PROFILES: &'static str = "Define custom build profiles in xcargo.toml for different scenarios (CI, release, etc.)";

/// Message type for different kinds of output
#[derive(Debug, Clone, Copy, PartialEq, Eq, Structural)]
pub enum MessageType {
    /// Success message (green checkmark)
    Success,
    /// Error message (red X)
    Error,
    /// Warning message (yellow exclamation)
    Warning,
    /// Info message (blue i)
    Info,
    /// Tip message (cyan lightbulb)
    Tip,
    /// Hint message (cyan arrow)
    Hint,
    /// Progress message (blue arrow)
    Progress,
}

impl MessageType {
    /// The icon of each kind.
    pub open spec fn icon_spec(self) -> Seq<char> {
        match self {
            MessageType::Success => "✓"@,
            MessageType::Error => "✗"@,
            MessageType::Warning => "⚠"@,
            MessageType::Info => "ℹ"@,
            MessageType::Tip => "💡"@,
            MessageType::Hint => "→"@,
            MessageType::Progress => "⏵"@,
        }
    }

    /// The terminal colour of each kind.
    pub open spec fn color_spec(self) -> Seq<char> {
        match self {
            MessageType::Success => "\x1b[32m"@,
            MessageType::Error => "\x1b[31m"@,
            MessageType::Warning => "\x1b[33m"@,
            MessageType::Info => "\x1b[34m"@,
            MessageType::Tip => "\x1b[36m"@,
            MessageType::Hint => "\x1b[36m"@,
            MessageType::Progress => "\x1b[34m"@,
        }
    }

    /// Get the icon for this message type
    pub fn icon(&self) -> (r: &'static str)
        ensures
            r@ == self.icon_spec(),
    {
        match self {
            MessageType::Success => "✓",
            MessageType::Error => "✗",
            MessageType::Warning => "⚠",
            MessageType::Info => "ℹ",
            MessageType::Tip => "💡",
            MessageType::Hint => "→",
            MessageType::Progress => "⏵",
        }
    }

    /// Get the color for this message type
    pub fn color(&self) -> (r: &'static str)
        ensures
            r@ == self.color_spec(),
    {
        match self {
            MessageType::Success => "\x1b[32m",
            MessageType::Error => "\x1b[31m",
            MessageType::Warning => "\x1b[33m",
            MessageType::Info => "\x1b[34m",
            MessageType::Tip => "\x1b[36m",
            MessageType::Hint => "\x1b[36m",
            MessageType::Progress => "\x1b[34m",
        }
    }

    /// Get the label for this message type
    pub fn label(&self) -> (r: &'static str)
        ensures
            r@ == (match self {
                MessageType::Success => "Success"@,
                MessageType::Error => "Error"@,
                MessageType::Warning => "Warning"@,
                MessageType::Info => "Info"@,
                MessageType::Tip => "Tip"@,
                MessageType::Hint => "Hint"@,
                MessageType::Progress => "Progress"@,
            }),
    {
        match self {
            MessageType::Success => "Success",
            MessageType::Error => "Error",
            MessageType::Warning => "Warning",
            MessageType::Info => "Info",
            MessageType::Tip => "Tip",
            MessageType::Hint => "Hint",
            MessageType::Progress => "Progress",
        }
    }
}

/// A formatted message with type, color, and content
#[derive(Debug, Clone)]
pub struct Message {
    /// Type of message
    pub msg_type: MessageType,
    /// Message content
    pub content: String,
}

impl Message {
    /// Create a new message
    pub fn new(msg_type: MessageType, content: &str) -> (r: Self)
        ensures
            r.msg_type == msg_type,
            r.content@ == content@,
    {
        Message { msg_type, content: owned(content) }
    }

    /// Create a success message
    pub fn success(content: &str) -> (r: Self)
        ensures
            r.msg_type == MessageType::Success,
            r.content@ == content@,
    {
        Self::new(MessageType::Success, content)
    }

    /// Create an error message
    pub fn error(content: &str) -> (r: Self)
        ensures
            r.msg_type == MessageType::Error,
            r.content@ == content@,
    {
        Self::new(MessageType::Error, content)
    }

    /// Create a warning message
    pub fn warning(content: &str) -> (r: Self)
        ensures
            r.msg_type == MessageType::Warning,
            r.content@ == content@,
    {
        Self::new(MessageType::Warning, content)
    }

    /// Create an info message
    pub fn info(content: &str) -> (r: Self)
        ensures
            r.msg_type == MessageType::Info,
            r.content@ == content@,
    {
        Self::new(MessageType::Info, content)
    }

    /// Create a tip message
    pub fn tip(content: &str) -> (r: Self)
        ensures
            r.msg_type == MessageType::Tip,
            r.content@ == content@,
    {
        Self::new(MessageType::Tip, content)
    }

    /// Create a hint message
    pub fn hint(content: &str) -> (r: Self)
        ensures
            r.msg_type == MessageType::Hint,
            r.content@ == content@,
    {
        Self::new(MessageType::Hint, content)
    }

    /// Create a progress message
    pub fn progress(content: &str) -> (r: Self)
        ensures
            r.msg_type == MessageType::Progress,
            r.content@ == content@,
    {
        Self::new(MessageType::Progress, content)
    }

    /// The message as printed: bold coloured icon, then the content.
    pub fn render(&self) -> (r: String)
        ensures
            r@ == "\x1b[1m"@ + self.msg_type.color_spec() + self.msg_type.icon_spec() + " "@
                + "\x1b[0m"@ + self.content@ + "\x1b[0m"@,
    {
        let mut r = concat3("\x1b[1m", self.msg_type.color(), self.msg_type.icon());
        r.append(" ");
        r.append("\x1b[0m");
        r.append(self.content.as_str());
        r.append("\x1b[0m");
        r
    }
}

/// Two-digit decimal notation of `n < 100`, zero-padded.
pub open spec fn two_digits(n: nat) -> Seq<char> {
    if n < 10 {
        seq!['0'] + digits_of(n)
    } else {
        digits_of(n)
    }
}

/// A duration in a human-readable way: minutes and zero-padded seconds from
/// a minute on, seconds and hundredths from a second on, else milliseconds.
pub open spec fn duration_text(secs: nat, millis: nat) -> Seq<char> {
    if secs >= 60 {
        digits_of(secs / 60) + "m "@ + two_digits(secs % 60) + "s"@
    } else if secs > 0 {
        digits_of(secs) + "."@ + two_digits(millis / 10) + "s"@
    } else {
        digits_of(millis) + "ms"@
    }
}

fn padded(n: u64) -> (r: String)
    requires
        n < 100,
    ensures
        r@ == two_digits(n as nat),
{
    let d = decimal_u64(n);
    proof {
        reveal_strlit("0");
    }
    if n < 10 {
        concat2("0", d.as_str())
    } else {
        d
    }
}

/// Format a duration, given as whole seconds and the milliseconds of the
/// last second, in a human-readable way
pub fn format_duration(secs: u64, subsec_millis: u32) -> (r: String)
    requires
        subsec_millis < 1000,
    ensures
        r@ == duration_text(secs as nat, subsec_millis as nat),
{
    if secs >= 60 {
        let mins = decimal_u64(secs / 60);
        let rest = padded(secs % 60);
        let mut r = concat3(mins.as_str(), "m ", rest.as_str());
        r.append("s");
        r
    } else if secs > 0 {
        let whole = decimal_u64(secs);
        let frac = padded((subsec_millis / 10) as u64);
        let mut r = concat3(whole.as_str(), ".", frac.as_str());
        r.append("s");
        r
    } else {
        let ms = decimal_u64(subsec_millis as u64);
        concat2(ms.as_str(), "ms")
    }
}

} // verus!
