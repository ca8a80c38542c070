//! A role document as the storage stage reads it.

use vstd::prelude::*;

verus! {

/// One role stored by the backend; the pipeline only ever reads its
/// identifier, but the remaining fields mirror the stored document.
pub struct Role {
    pub id: String,
    pub name: String,
    pub permissions: Vec<String>,
    pub default_admin: Option<bool>,
    pub default_member: Option<bool>,
}

impl Role {
    /// The stored identifier of this role.
    pub fn id(&self) -> (i: String)
        ensures
            i@ == self.id@,
    {
        self.id.clone()
    }
}

} // verus!
