//! Toolchain-installer decisions: which toolchains and targets are present,
//! and the installer invocations that add what is missing.
use vstd::prelude::*;
use crate::strs::{contains, has_infix, has_prefix, lines, lines_from, owned, remove_all, starts_with, str_eq, to_strings, trim, trim_of, without};
use crate::target::{strings_view, Target};

verus! {

/// Represents a Rust toolchain
#[derive(Debug, Clone, PartialEq)]
pub struct Toolchain {
    /// Toolchain name (e.g., "stable", "nightly", "1.70.0")
    pub name: String,
    /// Whether this is the default/active toolchain
    pub is_default: bool,
    /// Installed targets for this toolchain
    pub targets: Vec<String>,
}

/// Toolchain manager: speaks to the toolchain installer through the
/// argument lists it builds; the caller runs them and hands back listings.
#[derive(Debug, Clone)]
pub struct ToolchainManager {
    /// Path to rustup binary
    rustup_path: String,
}

/// Whether some toolchain's name starts with `name`.
pub open spec fn toolchain_listed(toolchains: Seq<Toolchain>, name: Seq<char>) -> bool {
    exists|i: int| 0 <= i < toolchains.len() && has_prefix(toolchains[i].name@, name)
}

/// Installer arguments that add `target` to `toolchain`.
pub open spec fn target_add_args(toolchain: Seq<char>, target: Seq<char>) -> Seq<Seq<char>> {
    seq!["target"@, "add"@, target, "--toolchain"@, toolchain]
}

/// Installer arguments that install `toolchain`.
pub open spec fn toolchain_install_args(toolchain: Seq<char>) -> Seq<Seq<char>> {
    seq!["toolchain"@, "install"@, toolchain]
}

/// Plain-value form of a list of installer invocations.
pub open spec fn steps_view(v: Seq<Vec<String>>) -> Seq<Seq<Seq<char>>> {
    v.map_values(|a: Vec<String>| strings_view(a@))
}

/// The entries of an installer listing: each line trimmed, blank lines dropped.
pub open spec fn listing_entries(ls: Seq<Seq<char>>) -> Seq<Seq<char>>
    decreases ls.len(),
{
    if ls.len() == 0 {
        seq![]
    } else {
        let rest = listing_entries(ls.drop_last());
        let t = trim_of(ls.last());
        if t.len() == 0 {
            rest
        } else {
            rest.push(t)
        }
    }
}

/// Name of the toolchain a listing entry describes: the entry without its
/// default marker, trimmed.
pub open spec fn toolchain_entry_name(entry: Seq<char>) -> Seq<char> {
    trim_of(without(entry, "(default)"@))
}

/// The entries of a listing, in order.
pub fn listing(stdout: &str) -> (r: Vec<String>)
    ensures
        strings_view(r@) == listing_entries(lines_from(stdout@, 0)),
{
    let ls = lines(stdout);
    let ghost views = strings_view(ls@);
    let mut r: Vec<String> = Vec::new();
    let mut i: usize = 0;
    while i < ls.len()
        invariant
            i <= ls.len(),
            views == strings_view(ls@),
            strings_view(r@) == listing_entries(views.subrange(0, i as int)),
        decreases ls.len() - i,
    {
        let t = trim(ls[i].as_str());
        proof {
            assert(views.subrange(0, i + 1).drop_last() =~= views.subrange(0, i as int));
        }
        if t.as_str().unicode_len() > 0 {
            let ghost before = strings_view(r@);
            r.push(t);
            assert(strings_view(r@) =~= before.push(trim_of(views[i as int])));
        }
        i = i + 1;
    }
    assert(views.subrange(0, ls.len() as int) =~= views);
    r
}

/// The targets of an installed-target listing.
pub fn parse_target_list(stdout: &str) -> (r: Vec<String>)
    ensures
        strings_view(r@) == listing_entries(lines_from(stdout@, 0)),
{
    listing(stdout)
}

/// The toolchains of a toolchain listing: one per entry, default when the
/// entry carries the default marker.
pub fn parse_toolchain_list(stdout: &str) -> (r: Vec<Toolchain>)
    ensures
        r.len() == listing_entries(lines_from(stdout@, 0)).len(),
        forall|i: int|
            0 <= i < r.len() ==> {
                let entry = #[trigger] listing_entries(lines_from(stdout@, 0))[i];
                &&& r@[i].name@ == toolchain_entry_name(entry)
                &&& r@[i].is_default == has_infix(entry, "(default)"@)
                &&& r@[i].targets.len() == 0
            },
{
    let entries = listing(stdout);
    let ghost views = strings_view(entries@);
    let mut r: Vec<Toolchain> = Vec::new();
    let mut i: usize = 0;
    while i < entries.len()
        invariant
            i <= entries.len(),
            views == strings_view(entries@),
            views == listing_entries(lines_from(stdout@, 0)),
            r.len() == i,
            forall|k: int|
                0 <= k < i ==> {
                    &&& r@[k].name@ == toolchain_entry_name(views[k])
                    &&& r@[k].is_default == has_infix(views[k], "(default)"@)
                    &&& r@[k].targets.len() == 0
                },
        decreases entries.len() - i,
    {
        let entry = entries[i].as_str();
        let is_default = contains(entry, "(default)");
        let stripped = remove_all(entry, "(default)");
        let name = trim(stripped.as_str());
        r.push(Toolchain { name, is_default, targets: Vec::new() });
        i = i + 1;
    }
    r
}

impl ToolchainManager {
    pub closed spec fn rustup_spec(&self) -> Seq<char> {
        self.rustup_path@
    }

    /// A manager for the `rustup` found on the search path.
    pub fn new() -> (r: crate::error::Result<Self>)
        ensures
            r matches Ok(m) && m.rustup_spec() == "rustup"@,
    {
        Ok(ToolchainManager { rustup_path: owned("rustup") })
    }

    /// The installer executable.
    pub fn rustup_path(&self) -> (r: &str)
        ensures
            r@ == self.rustup_spec(),
    {
        self.rustup_path.as_str()
    }

    /// Installer arguments that list the installed toolchains.
    pub fn list_toolchains_args(&self) -> (r: Vec<String>)
        ensures
            strings_view(r@) == seq!["toolchain"@, "list"@],
    {
        let v = to_strings(&["toolchain", "list"]);
        assert(strings_view(v@) =~= seq!["toolchain"@, "list"@]);
        v
    }

    /// Installer arguments that list the targets installed for a toolchain.
    pub fn list_targets_args(&self, toolchain: &str) -> (r: Vec<String>)
        ensures
            strings_view(r@) == seq!["target"@, "list"@, "--installed"@, "--toolchain"@, toolchain@],
    {
        let v = to_strings(&["target", "list", "--installed", "--toolchain", toolchain]);
        assert(strings_view(v@) =~= seq!["target"@, "list"@, "--installed"@, "--toolchain"@, toolchain@]);
        v
    }

    /// The default/active toolchain of a listing: the first marked default.
    pub fn get_default_toolchain(&self, toolchains: Vec<Toolchain>) -> (r: Option<Toolchain>)
        ensures
            (forall|i: int| 0 <= i < toolchains.len() ==> !toolchains@[i].is_default) ==> r is None,
            r matches Some(t) ==> exists|i: int|
                0 <= i < toolchains.len() && toolchains@[i] == t && t.is_default && forall|j: int|
                    0 <= j < i ==> !toolchains@[j].is_default,
    {
        let mut list = toolchains;
        let ghost all = list@;
        let n = list.len();
        let mut i: usize = 0;
        while i < n
            invariant
                n == all.len(),
                list@ == all,
                all == toolchains@,
                i <= n,
                forall|j: int| 0 <= j < i ==> !all[j].is_default,
            decreases n - i,
        {
            if list[i].is_default {
                let t = list.swap_remove(i);
                assert(t == all[i as int]);
                return Some(t);
            }
            i = i + 1;
        }
        None
    }

    /// Whether `target` is among the installed targets of a listing.
    pub fn is_target_installed(&self, installed: &Vec<String>, target: &str) -> (r: bool)
        ensures
            r == strings_view(installed@).contains(target@),
    {
        let mut i: usize = 0;
        while i < installed.len()
            invariant
                i <= installed.len(),
                forall|j: int| 0 <= j < i ==> installed@[j]@ != target@,
            decreases installed.len() - i,
        {
            if str_eq(installed[i].as_str(), target) {
                assert(strings_view(installed@)[i as int] == target@);
                return true;
            }
            i = i + 1;
        }
        assert(!strings_view(installed@).contains(target@)) by {
            if strings_view(installed@).contains(target@) {
                let j = choose|j: int| 0 <= j < installed.len() && strings_view(installed@)[j] == target@;
                assert(installed@[j]@ == target@);
            }
        }
        false
    }

    /// Whether a toolchain is installed: some listed name starts with it
    /// (so "stable" matches "stable-x86_64-unknown-linux-gnu").
    pub fn is_toolchain_installed(&self, toolchains: &Vec<Toolchain>, toolchain: &str) -> (r: bool)
        ensures
            r == toolchain_listed(toolchains@, toolchain@),
    {
        let mut i: usize = 0;
        while i < toolchains.len()
            invariant
                i <= toolchains.len(),
                forall|j: int| 0 <= j < i ==> !has_prefix(toolchains@[j].name@, toolchain@),
            decreases toolchains.len() - i,
        {
            if starts_with(toolchains[i].name.as_str(), toolchain) {
                return true;
            }
            i = i + 1;
        }
        false
    }

    /// What it takes to ensure a target is installed: nothing when it is
    /// listed, else the installer arguments that add it.
    pub fn ensure_target(&self, installed: &Vec<String>, toolchain: &str, target: &str) -> (r: Option<
        Vec<String>,
    >)
        ensures
            strings_view(installed@).contains(target@) ==> r is None,
            !strings_view(installed@).contains(target@) ==> (r matches Some(a) && strings_view(a@)
                == target_add_args(toolchain@, target@)),
    {
        if self.is_target_installed(installed, target) {
            return None;
        }
        let v = to_strings(&["target", "add", target, "--toolchain", toolchain]);
        assert(strings_view(v@) =~= target_add_args(toolchain@, target@));
        Some(v)
    }

    /// What it takes to ensure a toolchain is installed: nothing when it is
    /// listed, else the installer arguments that install it.
    pub fn ensure_toolchain(&self, toolchains: &Vec<Toolchain>, toolchain: &str) -> (r: Option<
        Vec<String>,
    >)
        ensures
            toolchain_listed(toolchains@, toolchain@) ==> r is None,
            !toolchain_listed(toolchains@, toolchain@) ==> (r matches Some(a) && strings_view(a@)
                == toolchain_install_args(toolchain@)),
    {
        if self.is_toolchain_installed(toolchains, toolchain) {
            return None;
        }
        let v = to_strings(&["toolchain", "install", toolchain]);
        assert(strings_view(v@) =~= toolchain_install_args(toolchain@));
        Some(v)
    }

    /// The installer runs that prepare a target: the toolchain first, then
    /// the target, each only when missing from the listings.
    pub fn prepare_target(
        &self,
        toolchains: &Vec<Toolchain>,
        installed: &Vec<String>,
        toolchain: &str,
        target: &Target,
    ) -> (r: Vec<Vec<String>>)
        ensures
            steps_view(r@) == (if toolchain_listed(toolchains@, toolchain@) {
                seq![]
            } else {
                seq![toolchain_install_args(toolchain@)]
            }) + (if strings_view(installed@).contains(target.triple@) {
                seq![]
            } else {
                seq![target_add_args(toolchain@, target.triple@)]
            }),
    {
        let mut steps: Vec<Vec<String>> = Vec::new();
        match self.ensure_toolchain(toolchains, toolchain) {
            Some(a) => steps.push(a),
            None => {},
        }
        let ghost first = steps_view(steps@);
        match self.ensure_target(installed, toolchain, target.triple.as_str()) {
            Some(a) => {
                steps.push(a);
                assert(steps_view(steps@) =~= first.push(target_add_args(toolchain@, target.triple@)));
            },
            None => {},
        }
        assert(steps_view(steps@) =~= (if toolchain_listed(toolchains@, toolchain@) {
            seq![]
        } else {
            seq![toolchain_install_args(toolchain@)]
        }) + (if strings_view(installed@).contains(target.triple@) {
            seq![]
        } else {
            seq![target_add_args(toolchain@, target.triple@)]
        }));
        steps
    }
}

} // verus!
