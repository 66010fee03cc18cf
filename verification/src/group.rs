//! The group record handed to Python.
use vstd::prelude::*;

use crate::text::{bool_str, bool_text, debug_str, debug_text, decimal_string, decimal_text};

verus! {

/// A group as the bindings show it.
#[derive(Debug, Clone, PartialEq, Eq)]
pub struct PyGroup {
    pub id: i64,
    pub name: String,
    pub description: String,
    pub is_admin: bool,
    pub created_at: String,
    pub updated_at: String,
}

impl PyGroup {
    /// The text of `repr(group)`: `Group(id=<id>, name=<quoted>, is_admin=<bool>)`.
    pub open spec fn repr_text(&self) -> Seq<char> {
        "Group(id="@ + decimal_text(self.id as int) + ", name="@ + debug_text(self.name@)
            + ", is_admin="@ + bool_text(self.is_admin) + ")"@
    }

    /// Writes the record as Python's `repr` shows it.
    pub fn repr(&self) -> (r: String)
        ensures
            r@ == self.repr_text(),
    {
        let mut out = String::from_str("Group(id=");
        out.append(decimal_string(self.id).as_str());
        out.append(", name=");
        out.append(debug_str(self.name.as_str()).as_str());
        out.append(", is_admin=");
        out.append(bool_str(self.is_admin));
        out.append(")");
        out
    }
}

} // verus!
