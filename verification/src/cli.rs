//! The command line: the commands, the verbosity levels and the shell
//! completion hints.
use vstd::prelude::*;

verus! {

/// The commands of `bgit`; with none, the default workflow runs.
#[derive(Debug, Clone, Copy, PartialEq, Eq, Structural)]
pub enum Commands {
    /// Print commit history
    Log,
    /// Initialize bgit
    Init,
    /// Do maintenance tasks
    Check,
    /// Set up credentials
    CreateCreds,
}

/// The shells that completions can be generated for.
#[derive(Debug, Clone, Copy, PartialEq, Eq, Structural)]
pub enum ShellKind {
    Bash,
    Elvish,
    Fish,
    PowerShell,
    Zsh,
}

/// The log filter for a verbosity count: warnings, then info, debug and
/// trace.
pub fn log_filter(verbose: u8) -> (r: &'static str)
    ensures
        verbose == 0 ==> r@ == "warn"@,
        verbose == 1 ==> r@ == "info"@,
        verbose == 2 ==> r@ == "debug"@,
        verbose >= 3 ==> r@ == "trace"@,
{
    match verbose {
        0 => "warn",
        1 => "info",
        2 => "debug",
        _ => "trace",
    }
}

/// The command that installs the completions for good, for the shells that
/// have one.
pub fn completion_install_hint(shell: ShellKind) -> (r: Option<&'static str>)
    ensures
        shell == ShellKind::Zsh ==> (r matches Some(h) && h@ == "bgit --completions=zsh | sudo tee /usr/local/share/zsh/site-functions/_bgit"@),
        shell == ShellKind::Bash ==> (r matches Some(h) && h@ == "bgit --completions=bash | sudo tee /etc/bash_completion.d/bgit.bash"@),
        shell == ShellKind::Fish ==> (r matches Some(h) && h@ == "bgit --completions=fish > ~/.local/share/fish/generated_completions/bgit.fish"@),
        shell == ShellKind::PowerShell ==> (r matches Some(h) && h@ == "bgit --completions=powershell | Out-File -FilePath $PROFILE -Append"@),
        shell == ShellKind::Elvish ==> r is None,
{
    match shell {
        ShellKind::Zsh => Some("bgit --completions=zsh | sudo tee /usr/local/share/zsh/site-functions/_bgit"),
        ShellKind::Bash => Some("bgit --completions=bash | sudo tee /etc/bash_completion.d/bgit.bash"),
        ShellKind::Fish => Some("bgit --completions=fish > ~/.local/share/fish/generated_completions/bgit.fish"),
        ShellKind::PowerShell => Some("bgit --completions=powershell | Out-File -FilePath $PROFILE -Append"),
        ShellKind::Elvish => None,
    }
}

} // verus!
