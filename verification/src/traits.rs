use vstd::prelude::*;

use crate::error::MistError;

verus! {

/// A controller that fetches one kind of API object by its identifier; for the
/// users of the library to implement.
pub trait ApiController<T> {
    /// The object with the given identifier.
    fn get(&self, identifier: String) -> Result<T, MistError>;
}

} // verus!
