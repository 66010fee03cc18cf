//! The user record handed to Python.
use vstd::prelude::*;

use crate::text::{bool_str, bool_text, debug_str, debug_text, decimal_string, decimal_text};

verus! {

/// A user account as the bindings show it.
#[derive(Debug, Clone, PartialEq, Eq)]
pub struct PyUser {
    pub id: i64,
    pub username: String,
    pub display_name: String,
    pub is_active: bool,
    pub created_at: String,
    pub updated_at: String,
}

impl PyUser {
    /// The text of `repr(user)`:
    /// `User(id=<id>, username=<quoted>, display_name=<quoted>, is_active=<bool>)`.
    pub open spec fn repr_text(&self) -> Seq<char> {
        "User(id="@ + decimal_text(self.id as int) + ", username="@ + debug_text(self.username@)
            + ", display_name="@ + debug_text(self.display_name@) + ", is_active="@
            + bool_text(self.is_active) + ")"@
    }

    /// Writes the record as Python's `repr` shows it.
    pub fn repr(&self) -> (r: String)
        ensures
            r@ == self.repr_text(),
    {
        let mut out = String::from_str("User(id=");
        out.append(decimal_string(self.id).as_str());
        out.append(", username=");
        out.append(debug_str(self.username.as_str()).as_str());
        out.append(", display_name=");
        out.append(debug_str(self.display_name.as_str()).as_str());
        out.append(", is_active=");
        out.append(bool_str(self.is_active));
        out.append(")");
        out
    }
}

} // verus!
