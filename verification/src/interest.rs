//! Interests (categories a member can be interested in).
use vstd::prelude::*;
use crate::dates::DateTime;

verus! {

/// An interest that members can be tagged with.
#[derive(Debug, Clone)]
pub struct Interest {
    pub id: Option<i32>,
    pub name: String,
    pub description: String,
    pub is_deleted: bool,
    pub created_at: Option<DateTime>,
    pub updated_at: Option<DateTime>,
}

impl Interest {
    /// Whether the interest may be saved: it has a name.
    pub open spec fn valid(&self) -> bool {
        self.name@.len() > 0
    }

    /// Returns true if the entity is valid (ready for submission to the db).
    pub fn is_valid(&self) -> (r: bool)
        ensures
            r == self.valid(),
    {
        !self.name.as_str().is_empty()
    }

    /// The text an interest is displayed as: its name.
    pub fn display_text(&self) -> (r: String)
        ensures
            r@ == self.name@,
    {
        self.name.clone()
    }

    /// A copy of the interest with every field equal.
    pub fn copy_of(&self) -> (r: Interest)
        ensures
            r == *self,
    {
        Interest {
            id: self.id,
            name: self.name.clone(),
            description: self.description.clone(),
            is_deleted: self.is_deleted,
            created_at: self.created_at,
            updated_at: self.updated_at,
        }
    }
}

impl Default for Interest {
    fn default() -> (r: Interest)
        ensures
            r.id is None,
            r.name@ == Seq::<char>::empty(),
            r.description@ == Seq::<char>::empty(),
            !r.is_deleted,
            r.created_at is None,
            r.updated_at is None,
    {
        Interest {
            id: None,
            name: String::new(),
            description: String::new(),
            is_deleted: false,
            created_at: None,
            updated_at: None,
        }
    }
}

} // verus!
