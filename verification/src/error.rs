use vstd::prelude::*;

verus! {

/// The one failure this library raises by itself. It carries no detail: it
/// stands for a conversion that could not be made.
#[derive(Debug, Clone, Copy, PartialEq, Eq)]
pub struct Error;

impl Error {
    /// The text under which the failure is reported.
    pub open spec fn spec_message() -> Seq<char> {
        "MinecraftRpcError"@
    }

    /// The text under which the failure is reported.
    pub fn message(&self) -> (text: String)
        ensures
            text@ == Self::spec_message(),
    {
        "MinecraftRpcError".to_owned()
    }
}

} // verus!
