//! Instructions for hooking the program into a shell.

use vstd::prelude::*;

verus! {

/// The lines that tell a zsh user how to enable completions.
pub open spec fn zsh_instructions() -> Seq<Seq<char>> {
    seq![
        "To install autocomplete-rs for zsh, add this to your ~/.zshrc:"@,
        ""@,
        "# autocomplete-rs"@,
        "source <(autocomplete-rs shell-init zsh)"@,
        ""@,
        "Or manually source the integration script:"@,
        "source /path/to/autocomplete-rs/shell-integration/zsh.zsh"@,
    ]
}

/// The complaint about a shell there are no instructions for.
pub open spec fn unsupported_shell(shell: Seq<char>) -> Seq<char> {
    "Unsupported shell: "@ + shell + ". Currently only 'zsh' is supported."@
}

/// The views of `lines`, in order.
pub open spec fn line_views(lines: Seq<String>) -> Seq<Seq<char>> {
    lines.map_values(|line: String| line@)
}

/// What `install` has to say for `shell`: the lines to print for zsh, the
/// complaint for any other shell.
pub open spec fn install_text(shell: Seq<char>) -> Result<Seq<Seq<char>>, Seq<char>> {
    if shell == "zsh"@ {
        Ok(zsh_instructions())
    } else {
        Err(unsupported_shell(shell))
    }
}

/// The lines the `install` command prints for `shell`, or the error it
/// fails with. Only zsh is supported.
pub fn install_command(shell: &str) -> (outcome: Result<Vec<String>, String>)
    ensures
        match outcome {
            Ok(lines) => install_text(shell@) == Ok::<Seq<Seq<char>>, Seq<char>>(line_views(lines@)),
            Err(complaint) => install_text(shell@) == Err::<Seq<Seq<char>>, Seq<char>>(
                complaint@,
            ),
        },
{
    if shell.to_owned() == "zsh".to_owned() {
        let mut lines: Vec<String> = Vec::new();
        lines.push("To install autocomplete-rs for zsh, add this to your ~/.zshrc:".to_owned());
        lines.push("".to_owned());
        lines.push("# autocomplete-rs".to_owned());
        lines.push("source <(autocomplete-rs shell-init zsh)".to_owned());
        lines.push("".to_owned());
        lines.push("Or manually source the integration script:".to_owned());
        lines.push("source /path/to/autocomplete-rs/shell-integration/zsh.zsh".to_owned());
        assert(line_views(lines@) =~= zsh_instructions());
        Ok(lines)
    } else {
        let mut complaint = "Unsupported shell: ".to_owned();
        complaint.append(shell);
        complaint.append(". Currently only 'zsh' is supported.");
        Err(complaint)
    }
}

} // verus!
