//! Why a downgrade can fail.

use vstd::prelude::*;

verus! {

/// The two conditions under which a newer-revision tree has no
/// older-revision counterpart. Both are fatal for the subtree being
/// converted: no partial result is produced.
#[derive(Clone, Copy, Debug, PartialEq, Eq, Structural)]
pub enum DowngradeError {
    /// The tree uses a construct that only the newer revision has
    /// (a Mutual-TLS security scheme).
    UnsupportedFeature,
    /// The tree has a shape that the format itself rules out
    /// (a Path Item given as a reference inside a callback).
    StructuralInvariantViolation,
}

impl DowngradeError {
    /// The wording of [`DowngradeError::message`].
    pub open spec fn message_text(self) -> Seq<char> {
        match self {
            DowngradeError::UnsupportedFeature => "MutualTLS is not supported in Open API 3.0.x"@,
            DowngradeError::StructuralInvariantViolation => "PathItems cannot be $ref"@,
        }
    }

    /// A sentence that says what went wrong.
    pub fn message(&self) -> (out: String)
        ensures
            out@ == self.message_text(),
    {
        match self {
            DowngradeError::UnsupportedFeature => {
                "MutualTLS is not supported in Open API 3.0.x".to_owned()
            },
            DowngradeError::StructuralInvariantViolation => "PathItems cannot be $ref".to_owned(),
        }
    }
}

} // verus!
