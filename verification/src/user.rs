use vstd::prelude::*;

verus! {

/// A record of the directory: a unique numeric id assigned by the store,
/// a display name and an email address. Neither text field is validated
/// and emails need not be unique.
#[derive(Debug, PartialEq, Eq)]
pub struct User {
    pub id: u32,
    pub name: String,
    pub email: String,
}

impl Clone for User {
    fn clone(&self) -> (result: Self)
        ensures
            result == *self,
    {
        User { id: self.id, name: self.name.clone(), email: self.email.clone() }
    }
}

} // verus!
