//! Stored articles and the input that creates one.

use crate::object_id::{hex_lower, ObjectId};
use vstd::prelude::*;

verus! {

/// A stored article: its object id and its name.
pub struct Article {
    pub _id: ObjectId,
    pub name: String,
}

impl Article {
    /// The article's id as 24 lowercase hexadecimal digits (an id shown as a
    /// map of bytes would be of no use to a client).
    pub fn _id(&self) -> (id: String)
        ensures
            id@ == hex_lower(self._id@),
    {
        self._id.to_hex()
    }

    /// The article's name.
    pub fn name(&self) -> (name: &str)
        ensures
            name@ == self.name@,
    {
        self.name.as_str()
    }
}

/// The input of the `insertArticle` mutation.
pub struct NewArticle {
    pub name: String,
}

impl NewArticle {
    /// Replaces the name.
    pub fn set_name(&mut self, name: String)
        ensures
            final(self).name == name,
    {
        self.name = name;
    }
}

} // verus!
