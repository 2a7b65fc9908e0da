//! Where activation scripts go under a prefix, and for which shells.
use vstd::prelude::*;
use vstd::string::*;

verus! {

/// The path of the history marker, relative to the prefix.
pub const HISTORY_FILE: &'static str = "conda-meta/history";

/// The directory of the activation scripts, relative to the prefix.
pub const ACTIVATION_DIR: &'static str = "conda-meta/activation";

/// A shell dialect that an activation script can be written for.
#[derive(PartialEq, Eq, Structural, Clone, Copy, Debug)]
pub enum ShellDialect {
    Bash,
    Zsh,
    Xonsh,
    CmdExe,
    PowerShell,
    Fish,
    NuShell,
}

pub open spec fn extension_of(shell: ShellDialect) -> Seq<char> {
    match shell {
        ShellDialect::Bash => "sh"@,
        ShellDialect::Zsh => "sh"@,
        ShellDialect::Xonsh => "xsh"@,
        ShellDialect::CmdExe => "bat"@,
        ShellDialect::PowerShell => "ps1"@,
        ShellDialect::Fish => "fish"@,
        ShellDialect::NuShell => "nu"@,
    }
}

impl ShellDialect {
    /// The file extension of this dialect's scripts.
    pub fn extension(&self) -> (r: &'static str)
        ensures
            r@ == extension_of(*self),
    {
        match self {
            ShellDialect::Bash => "sh",
            ShellDialect::Zsh => "sh",
            ShellDialect::Xonsh => "xsh",
            ShellDialect::CmdExe => "bat",
            ShellDialect::PowerShell => "ps1",
            ShellDialect::Fish => "fish",
            ShellDialect::NuShell => "nu",
        }
    }
}

/// The platforms of the Windows family, by name.
pub open spec fn is_windows(platform: Seq<char>) -> bool {
    platform == "win-32"@ || platform == "win-64"@ || platform == "win-arm64"@
}

pub fn is_windows_platform(platform: &String) -> (r: bool)
    ensures
        r == is_windows(platform@),
{
    *platform == String::from_str("win-32") || *platform == String::from_str("win-64")
        || *platform == String::from_str("win-arm64")
}

/// The dialects that scripts are written for when none are asked for.
pub open spec fn default_shells_for(platform: Seq<char>) -> Seq<ShellDialect> {
    if is_windows(platform) {
        seq![ShellDialect::CmdExe, ShellDialect::PowerShell, ShellDialect::Bash]
    } else {
        seq![ShellDialect::Bash, ShellDialect::Fish]
    }
}

pub fn default_shells(platform: &String) -> (r: Vec<ShellDialect>)
    ensures
        r@ == default_shells_for(platform@),
{
    if is_windows_platform(platform) {
        let r = vec![ShellDialect::CmdExe, ShellDialect::PowerShell, ShellDialect::Bash];
        assert(r@ =~= default_shells_for(platform@));
        r
    } else {
        let r = vec![ShellDialect::Bash, ShellDialect::Fish];
        assert(r@ =~= default_shells_for(platform@));
        r
    }
}

/// The script of `shell`, relative to the prefix:
/// `conda-meta/activation/activate.<extension>`.
pub open spec fn script_path_of(shell: ShellDialect) -> Seq<char> {
    "conda-meta/activation/activate."@ + extension_of(shell)
}

pub fn activation_script_path(shell: ShellDialect) -> (r: String)
    ensures
        r@ == script_path_of(shell),
{
    String::from_str("conda-meta/activation/activate.").concat(shell.extension())
}

/// One script to write: its dialect and its path relative to the prefix.
pub struct ScriptTarget {
    pub shell: ShellDialect,
    pub path: String,
}

/// `targets` holds, in order, one script for each of `shells`.
pub open spec fn targets_for(shells: Seq<ShellDialect>, targets: Seq<ScriptTarget>) -> bool {
    &&& targets.len() == shells.len()
    &&& forall|i: int| 0 <= i < shells.len() ==> (#[trigger] targets[i]).shell == shells[i]
        && targets[i].path@ == script_path_of(shells[i])
}

/// The scripts to write for `shells`, in the order asked.
pub fn activation_targets(shells: &Vec<ShellDialect>) -> (r: Vec<ScriptTarget>)
    ensures
        targets_for(shells@, r@),
{
    let mut r: Vec<ScriptTarget> = Vec::new();
    let mut i: usize = 0;
    while i < shells.len()
        invariant
            i <= shells@.len(),
            targets_for(shells@.subrange(0, i as int), r@),
        decreases shells@.len() - i,
    {
        let shell = shells[i];
        let path = activation_script_path(shell);
        r.push(ScriptTarget { shell, path });
        i = i + 1;
        assert forall|k: int| 0 <= k < i implies (#[trigger] r@[k]).shell == shells@.subrange(0, i as int)[k]
            && r@[k].path@ == script_path_of(shells@.subrange(0, i as int)[k]) by {
            if k < i - 1 {
                assert(shells@.subrange(0, i - 1)[k] == shells@[k]);
            }
        }
    }
    assert(shells@.subrange(0, i as int) =~= shells@);
    r
}

/// Two dialects with different extensions get two different script files,
/// each named after its own dialect's extension.
pub proof fn lemma_two_dialects_two_files(shells: Seq<ShellDialect>, targets: Seq<ScriptTarget>)
    requires
        shells.len() == 2,
        extension_of(shells[0]) != extension_of(shells[1]),
        targets_for(shells, targets),
    ensures
        targets.len() == 2,
        targets[0].path@ != targets[1].path@,
        targets[0].path@ == "conda-meta/activation/activate."@ + extension_of(shells[0]),
        targets[1].path@ == "conda-meta/activation/activate."@ + extension_of(shells[1]),
{
    let dir = "conda-meta/activation/activate."@;
    let a = targets[0].path@;
    let b = targets[1].path@;
    assert(a == script_path_of(shells[0]));
    assert(b == script_path_of(shells[1]));
    if a == b {
        assert(a.subrange(dir.len() as int, a.len() as int) =~= extension_of(shells[0]));
        assert(b.subrange(dir.len() as int, b.len() as int) =~= extension_of(shells[1]));
    }
}

/// The dialects to write scripts for: none when scripts are turned off, else
/// those asked for, else the platform's defaults.
pub fn shells_to_activate(requested: Option<Vec<ShellDialect>>, disabled: bool, platform: &String) -> (r: Vec<ShellDialect>)
    ensures
        disabled ==> r@.len() == 0,
        !disabled ==> r@ == match requested {
            Some(v) => v@,
            None => default_shells_for(platform@),
        },
{
    if disabled {
        Vec::new()
    } else {
        match requested {
            Some(v) => v,
            None => default_shells(platform),
        }
    }
}

} // verus!
