use vstd::prelude::*;

verus! {

/// The failure taxonomy of the engine. Whatever the cause, a failed query is
/// answered with a reject verdict; the variants only feed diagnostics.
#[derive(Clone, Copy, Debug, PartialEq, Eq, Structural)]
pub enum FilterError {
    /// The shard directory root could not be obtained from configuration.
    Config,
    /// A shard resource could not be opened, or held fewer bytes than a read needed.
    Io,
    /// A shard header broke the segment invariant (corrupt or incompatible shard).
    Format,
    /// The secret could not be decoded from its external representation.
    Encoding,
}

impl FilterError {
    /// Every failure collapses to the same externally observable outcome:
    /// reject (`false` = do not allow the secret).
    pub fn fail_closed_verdict(&self) -> (allow: bool)
        ensures
            !allow,
    {
        false
    }
}

} // verus!
