//! Installing shell completions: which shell, and what is added to its
//! start-up file.

use vstd::prelude::*;
use crate::text::{contains, push_str, str_contains, string_of};

verus! {

/// A shell that completions can be installed for.
#[derive(Debug, Clone, Copy, PartialEq, Eq, Structural)]
pub enum ShellKind {
    Bash,
    Zsh,
    Fish,
    PowerShell,
}

/// The shell in use: PowerShell on Windows; elsewhere what the variable
/// `SHELL` names, bash where it names none of bash, zsh and fish or is not
/// set.
pub open spec fn shell_in_use(windows: bool, shell: Option<Seq<char>>) -> ShellKind {
    if windows {
        ShellKind::PowerShell
    } else {
        match shell {
            Some(s) => if contains(s, "bash"@) {
                ShellKind::Bash
            } else if contains(s, "zsh"@) {
                ShellKind::Zsh
            } else if contains(s, "fish"@) {
                ShellKind::Fish
            } else {
                ShellKind::Bash
            },
            None => ShellKind::Bash,
        }
    }
}

/// Finds the shell in use. `shell` is the value of the variable `SHELL`, if
/// it is set.
pub fn detect_shell(windows: bool, shell: Option<&str>) -> (kind: ShellKind)
    ensures
        kind == shell_in_use(
            windows,
            match shell {
                Some(s) => Some(s@),
                None => None,
            },
        ),
{
    if windows {
        return ShellKind::PowerShell;
    }
    match shell {
        Some(s) => {
            if str_contains(s, "bash") {
                ShellKind::Bash
            } else if str_contains(s, "zsh") {
                ShellKind::Zsh
            } else if str_contains(s, "fish") {
                ShellKind::Fish
            } else {
                ShellKind::Bash
            }
        },
        None => ShellKind::Bash,
    }
}

/// The shell that completions are installed for: the one asked for, or
/// else the shell in use.
pub fn install_completions(requested: Option<ShellKind>, windows: bool, shell: Option<&str>) -> (kind:
    ShellKind)
    ensures
        kind == match requested {
            Some(k) => k,
            None => shell_in_use(
                windows,
                match shell {
                    Some(s) => Some(s@),
                    None => None,
                },
            ),
        },
{
    match requested {
        Some(k) => k,
        None => detect_shell(windows, shell),
    }
}

/// What the user is told to run so that the completions take effect.
pub open spec fn reload_hint(kind: ShellKind) -> Seq<char> {
    match kind {
        ShellKind::Bash => "  source ~/.bashrc"@,
        ShellKind::Zsh => "  source ~/.zshrc"@,
        ShellKind::PowerShell => "  . $PROFILE"@,
        ShellKind::Fish => "  source ~/.config/fish/config.fish"@,
    }
}

/// What the user is told to run so that the completions take effect.
pub fn reload_command(kind: ShellKind) -> (hint: &'static str)
    ensures
        hint@ == reload_hint(kind),
{
    match kind {
        ShellKind::Bash => "  source ~/.bashrc",
        ShellKind::Zsh => "  source ~/.zshrc",
        ShellKind::PowerShell => "  . $PROFILE",
        ShellKind::Fish => "  source ~/.config/fish/config.fish",
    }
}

/// What is added to `.bashrc`.
pub open spec fn bash_hook() -> Seq<char> {
    "\n# Ricci CLI 자동완성\n[ -f ~/.local/share/bash-completion/completions/ricci ] && source ~/.local/share/bash-completion/completions/ricci\n"@
}

/// What is added to `.zshrc`.
pub open spec fn zsh_hook() -> Seq<char> {
    "\n# Ricci CLI 자동완성\nfpath=(~/.local/share/zsh/completions $fpath)\nautoload -Uz compinit && compinit\n"@
}

/// The line that loads the completion file in PowerShell.
pub open spec fn powershell_import(completion_file: Seq<char>) -> Seq<char> {
    ". \""@ + completion_file + "\""@
}

/// What is added to the profile of PowerShell.
pub open spec fn powershell_hook(completion_file: Seq<char>) -> Seq<char> {
    "\n# Ricci CLI 자동완성\n"@ + powershell_import(completion_file) + "\n"@
}

/// What is to be added to `.bashrc`, given what it holds: the hook, unless
/// the file mentions the completions directory already.
pub fn bash_addition(content: &str) -> (addition: Option<String>)
    ensures
        match addition {
            Some(a) => !contains(content@, "bash-completion/completions"@) && a@ == bash_hook(),
            None => contains(content@, "bash-completion/completions"@),
        },
{
    if str_contains(content, "bash-completion/completions") {
        None
    } else {
        Some(
            "\n# Ricci CLI 자동완성\n[ -f ~/.local/share/bash-completion/completions/ricci ] && source ~/.local/share/bash-completion/completions/ricci\n".to_owned(),
        )
    }
}

/// What is to be added to `.zshrc`, given what it holds: the hook, unless
/// the file mentions the completions directory already.
pub fn zsh_addition(content: &str) -> (addition: Option<String>)
    ensures
        match addition {
            Some(a) => !contains(content@, ".local/share/zsh/completions"@) && a@ == zsh_hook(),
            None => contains(content@, ".local/share/zsh/completions"@),
        },
{
    if str_contains(content, ".local/share/zsh/completions") {
        None
    } else {
        Some(
            "\n# Ricci CLI 자동완성\nfpath=(~/.local/share/zsh/completions $fpath)\nautoload -Uz compinit && compinit\n".to_owned(),
        )
    }
}

/// What is to be added to the profile of PowerShell, given what it holds:
/// the hook, unless the profile loads the completion file already.
pub fn powershell_addition(content: &str, completion_file: &str) -> (addition: Option<String>)
    ensures
        match addition {
            Some(a) => !contains(content@, powershell_import(completion_file@)) && a@
                == powershell_hook(completion_file@),
            None => contains(content@, powershell_import(completion_file@)),
        },
{
    let mut import: Vec<char> = Vec::new();
    push_str(&mut import, ". \"");
    push_str(&mut import, completion_file);
    push_str(&mut import, "\"");
    proof {
        assert(import@ =~= powershell_import(completion_file@));
    }
    let line = string_of(&import);
    if str_contains(content, line.as_str()) {
        None
    } else {
        let mut out: Vec<char> = Vec::new();
        push_str(&mut out, "\n# Ricci CLI 자동완성\n");
        push_str(&mut out, line.as_str());
        push_str(&mut out, "\n");
        proof {
            assert(out@ =~= powershell_hook(completion_file@));
        }
        Some(string_of(&out))
    }
}

} // verus!
