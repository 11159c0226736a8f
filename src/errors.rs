use vstd::prelude::*;

verus! {

/// Recoverable failures of the memory subsystem.
///
/// Exhaustion of the frame allocator is not an error: it is reported as `None`.
#[derive(Debug)]
pub enum KernelError {
    /// A value could not be reinterpreted as a more specific type.
    Conversion { from: String, to: String, reason: String },
    /// A frame was handed back that the allocator does not consider outstanding.
    Deallocate { ppn: usize },
}

impl KernelError {
    /// Builds a conversion error naming the source type, the destination type and the reason.
    pub fn conversion(from: &str, to: &str, reason: &str) -> (r: KernelError)
        ensures
            r matches KernelError::Conversion { from: f, to: t, reason: w }
                && f@ == from@ && t@ == to@ && w@ == reason@,
    {
        KernelError::Conversion { from: from.to_owned(), to: to.to_owned(), reason: reason.to_owned() }
    }
}

} // verus!
