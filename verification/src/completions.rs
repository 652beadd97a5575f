//! Shell selection for completion generation; the generation itself is the
//! embedding program's step.

use vstd::prelude::*;

verus! {

/// Shell types for completion generation.
#[derive(Debug, Clone, Copy, PartialEq, Eq, Structural)]
pub enum CompletionShell {
    /// Bash shell.
    Bash,
    /// Zsh shell.
    Zsh,
    /// Fish shell.
    Fish,
}

} // verus!
