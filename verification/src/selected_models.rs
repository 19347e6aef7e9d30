//! The (connection, model) pair shared with the model picker.

use vstd::prelude::*;

verus! {

/// Identifies a single (connection, model) pair the user keeps in the model
/// picker.
#[derive(Debug, PartialEq, Eq)]
pub struct SelectedModel {
    pub connection_id: String,
    pub model_id: String,
}

impl Clone for SelectedModel {
    fn clone(&self) -> (r: Self)
        ensures
            r == *self,
    {
        SelectedModel {
            connection_id: self.connection_id.clone(),
            model_id: self.model_id.clone(),
        }
    }
}

} // verus!
