use vstd::prelude::*;
use vstd::string::*;

verus! {

/// The shells for which completion can be installed.
#[derive(Debug, Clone, Copy, PartialEq, Eq, Structural)]
pub enum ShellKind {
    Bash,
    Zsh,
    Fish,
    PowerShell,
    Elvish,
}

/// The shell that a program name stands for.
pub open spec fn shell_of_name(n: Seq<char>) -> Option<ShellKind> {
    if n == "bash"@ {
        Some(ShellKind::Bash)
    } else if n == "zsh"@ {
        Some(ShellKind::Zsh)
    } else if n == "fish"@ {
        Some(ShellKind::Fish)
    } else if n == "powershell"@ || n == "pwsh"@ {
        Some(ShellKind::PowerShell)
    } else if n == "elvish"@ {
        Some(ShellKind::Elvish)
    } else {
        None
    }
}

/// `b` is what follows the last `/` of `p` (all of `p` where it has none).
pub open spec fn is_base_name(p: Seq<char>, b: Seq<char>) -> bool {
    &&& b.len() <= p.len()
    &&& b == p.subrange(p.len() - b.len(), p.len() as int)
    &&& !b.contains('/')
    &&& (b.len() == p.len() || p[p.len() - b.len() - 1] == '/')
}

/// `p` occurs in `s`.
pub open spec fn has_substring(s: Seq<char>, p: Seq<char>) -> bool {
    exists|i: int| 0 <= i && i + p.len() <= s.len() && #[trigger] s.subrange(i, i + p.len()) == p
}

pub open spec fn completion_line_spec(k: ShellKind) -> Seq<char> {
    match k {
        ShellKind::Bash => "eval \"$(vex completions bash)\""@,
        ShellKind::Zsh => "eval \"$(vex completions zsh)\""@,
        ShellKind::Fish => "vex completions fish | source"@,
        ShellKind::PowerShell => "Invoke-Expression (& vex completions powershell)"@,
        ShellKind::Elvish => "eval (vex completions elvish)"@,
    }
}

/// The start-up file of a shell, relative to the home directory.
pub open spec fn rc_file_spec(k: ShellKind, bashrc_exists: bool, windows: bool) -> Seq<char> {
    match k {
        ShellKind::Bash => if bashrc_exists {
            ".bashrc"@
        } else {
            ".bash_profile"@
        },
        ShellKind::Zsh => ".zshrc"@,
        ShellKind::Fish => ".config/fish/config.fish"@,
        ShellKind::PowerShell => if windows {
            "Documents/WindowsPowerShell/Microsoft.PowerShell_profile.ps1"@
        } else {
            ".config/powershell/Microsoft.PowerShell_profile.ps1"@
        },
        ShellKind::Elvish => ".elvish/rc.elv"@,
    }
}

/// Relies on `str::contains` with a string pattern: whether the pattern
/// matches a sub-slice of the string.
#[verifier::external_body]
fn contains_str(s: &str, p: &str) -> (r: bool)
    ensures
        r == has_substring(s@, p@),
{
    s.contains(p)
}

/// The last component of a path: what follows its last `/`.
pub fn base_name(path: &str) -> (r: String)
    ensures
        is_base_name(path@, r@),
{
    let n = path.unicode_len();
    let mut i: usize = n;
    while i > 0 && path.get_char(i - 1) != '/'
        invariant
            i <= n,
            n == path@.len(),
            forall|j: int| i <= j < n ==> path@[j] != '/',
        decreases i,
    {
        i = i - 1;
    }
    let r = String::from_str(path.substring_char(i, n));
    proof {
        let b = r@;
        assert(b == path@.subrange(i as int, n as int));
        assert(b.len() == n - i);
        assert(i == 0 || path@[i - 1] == '/');
        assert(!b.contains('/')) by {
            if b.contains('/') {
                let k = choose|k: int| 0 <= k < b.len() && b[k] == '/';
                assert(path@[i + k] == '/');
            }
        }
    }
    r
}

/// The shell that a program name stands for.
pub fn shell_from_name(name: &str) -> (r: Option<ShellKind>)
    ensures
        r == shell_of_name(name@),
{
    let n = String::from_str(name);
    if n == String::from_str("bash") {
        Some(ShellKind::Bash)
    } else if n == String::from_str("zsh") {
        Some(ShellKind::Zsh)
    } else if n == String::from_str("fish") {
        Some(ShellKind::Fish)
    } else if n == String::from_str("powershell") || n == String::from_str("pwsh") {
        Some(ShellKind::PowerShell)
    } else if n == String::from_str("elvish") {
        Some(ShellKind::Elvish)
    } else {
        None
    }
}

/// The shell named by the last component of a program path such as the
/// value of `SHELL`.
pub fn shell_from_path(path: &str) -> (r: Option<ShellKind>)
    ensures
        exists|b: Seq<char>| is_base_name(path@, b) && r == shell_of_name(b),
{
    let b = base_name(path);
    shell_from_name(b.as_str())
}

/// The line that a shell's start-up file needs to load the completions.
pub fn completion_line(k: ShellKind) -> (r: String)
    ensures
        r@ == completion_line_spec(k),
{
    match k {
        ShellKind::Bash => String::from_str("eval \"$(vex completions bash)\""),
        ShellKind::Zsh => String::from_str("eval \"$(vex completions zsh)\""),
        ShellKind::Fish => String::from_str("vex completions fish | source"),
        ShellKind::PowerShell => String::from_str("Invoke-Expression (& vex completions powershell)"),
        ShellKind::Elvish => String::from_str("eval (vex completions elvish)"),
    }
}

/// The start-up file of a shell, relative to the home directory. Bash uses
/// `.bashrc` where it exists.
pub fn rc_file(k: ShellKind, bashrc_exists: bool, windows: bool) -> (r: String)
    ensures
        r@ == rc_file_spec(k, bashrc_exists, windows),
{
    match k {
        ShellKind::Bash => if bashrc_exists {
            String::from_str(".bashrc")
        } else {
            String::from_str(".bash_profile")
        },
        ShellKind::Zsh => String::from_str(".zshrc"),
        ShellKind::Fish => String::from_str(".config/fish/config.fish"),
        ShellKind::PowerShell => if windows {
            String::from_str("Documents/WindowsPowerShell/Microsoft.PowerShell_profile.ps1")
        } else {
            String::from_str(".config/powershell/Microsoft.PowerShell_profile.ps1")
        },
        ShellKind::Elvish => String::from_str(".elvish/rc.elv"),
    }
}

/// Whether a start-up file already loads the completions.
pub fn already_configured(content: &str) -> (r: bool)
    ensures
        r == (has_substring(content@, "vex completions"@) || has_substring(content@, "vex init"@)),
{
    contains_str(content, "vex completions") || contains_str(content, "vex init")
}

} // verus!
