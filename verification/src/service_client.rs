//! Service clients: their record, and the check that keeps their scopes
//! within the read-only scope set.
use vstd::prelude::*;

use crate::error::BindingError;
use crate::text::{
    bool_str, bool_text, debug_list, debug_str, debug_string_list, debug_text, decimal_string,
    decimal_text, string_views, text_equals,
};

verus! {

/// The scope that lets a service read the user directory.
pub open spec fn users_read_scope() -> Seq<char> {
    "users:read"@
}

/// The scope that lets a service read groups and memberships.
pub open spec fn groups_read_scope() -> Seq<char> {
    "groups:read"@
}

/// Whether `scope` is one a service client may be granted: only the two
/// read-only scopes exist, never a write or admin scope.
pub open spec fn is_known_scope(scope: Seq<char>) -> bool {
    scope == users_read_scope() || scope == groups_read_scope()
}

/// Whether every scope of `scopes` may be granted.
pub open spec fn scopes_valid(scopes: Seq<Seq<char>>) -> bool {
    forall|i: int| 0 <= i < scopes.len() ==> #[trigger] is_known_scope(scopes[i])
}

/// Whether the scope at position `i` is the first one of `scopes` that may
/// not be granted.
pub open spec fn is_first_unknown_scope(scopes: Seq<Seq<char>>, i: int) -> bool {
    &&& 0 <= i < scopes.len()
    &&& !is_known_scope(scopes[i])
    &&& forall|j: int| 0 <= j < i ==> #[trigger] is_known_scope(scopes[j])
}

/// Whether `scope` may be granted to a service client.
pub fn is_known_scope_str(scope: &str) -> (r: bool)
    ensures
        r == is_known_scope(scope@),
        r <==> (scope@ == "users:read"@ || scope@ == "groups:read"@),
{
    text_equals(scope, "users:read") || text_equals(scope, "groups:read")
}

/// Exactly two scopes exist, `users:read` and `groups:read`: any other scope
/// (a write or admin scope among them) is never known.
pub proof fn lemma_known_scopes_are_the_read_scopes(scope: Seq<char>)
    ensures
        is_known_scope(scope) <==> {
            ||| scope == seq!['u', 's', 'e', 'r', 's', ':', 'r', 'e', 'a', 'd']
            ||| scope == seq!['g', 'r', 'o', 'u', 'p', 's', ':', 'r', 'e', 'a', 'd']
        },
{
    reveal_strlit("users:read");
    reveal_strlit("groups:read");
    assert(users_read_scope() =~= seq!['u', 's', 'e', 'r', 's', ':', 'r', 'e', 'a', 'd']);
    assert(groups_read_scope() =~= seq!['g', 'r', 'o', 'u', 'p', 's', ':', 'r', 'e', 'a', 'd']);
}

/// Refuses any scope outside the read-only scope set, naming the first one
/// that is refused.
pub fn validate_scopes(scopes: Vec<String>) -> (r: Result<(), BindingError>)
    ensures
        r is Ok <==> scopes_valid(string_views(scopes@)),
        r is Ok <==> forall|i: int|
            0 <= i < scopes.len() ==> (#[trigger] scopes@[i]@ == "users:read"@ || scopes@[i]@ == "groups:read"@),
        r is Err ==> (r matches Err(BindingError::UnknownScope { scope }) && exists|i: int|
            #[trigger] is_first_unknown_scope(string_views(scopes@), i) && scopes@[i]@ == scope@),
{
    let ghost views = string_views(scopes@);
    proof {
        assert forall|i: int| 0 <= i < scopes.len() implies #[trigger] views[i] == scopes@[i]@ by {}
        if scopes_valid(views) {
            assert forall|i: int| 0 <= i < scopes.len() implies (#[trigger] scopes@[i]@ == "users:read"@
                || scopes@[i]@ == "groups:read"@) by {
                assert(is_known_scope(views[i]));
            }
        }
        if forall|i: int|
            0 <= i < scopes.len() ==> (#[trigger] scopes@[i]@ == "users:read"@ || scopes@[i]@ == "groups:read"@) {
            assert forall|i: int| 0 <= i < views.len() implies #[trigger] is_known_scope(views[i]) by {
                assert(views[i] == scopes@[i]@);
            }
        }
    }
    let n = scopes.len();
    let mut i: usize = 0;
    while i < n
        invariant
            n == scopes.len(),
            views == string_views(scopes@),
            i <= n,
            forall|j: int| 0 <= j < i ==> #[trigger] is_known_scope(views[j]),
        decreases n - i,
    {
        if !is_known_scope_str(scopes[i].as_str()) {
            proof {
                assert(is_first_unknown_scope(views, i as int));
            }
            return Err(BindingError::UnknownScope { scope: scopes[i].clone() });
        }
        i = i + 1;
    }
    Ok(())
}

/// A list of scopes may be granted exactly when both of its parts may:
/// granting never depends on which other scopes are asked for alongside.
pub proof fn lemma_scope_lists_compose(a: Seq<Seq<char>>, b: Seq<Seq<char>>)
    ensures
        scopes_valid(a + b) <==> (scopes_valid(a) && scopes_valid(b)),
{
    if scopes_valid(a + b) {
        assert forall|i: int| 0 <= i < a.len() implies #[trigger] is_known_scope(a[i]) by {
            assert((a + b)[i] == a[i]);
        }
        assert forall|i: int| 0 <= i < b.len() implies #[trigger] is_known_scope(b[i]) by {
            assert((a + b)[a.len() + i] == b[i]);
        }
    }
    if scopes_valid(a) && scopes_valid(b) {
        assert forall|i: int| 0 <= i < (a + b).len() implies #[trigger] is_known_scope((a + b)[i]) by {
            if i < a.len() {
                assert((a + b)[i] == a[i]);
            } else {
                assert((a + b)[i] == b[i - a.len()]);
            }
        }
    }
}

/// Both read-only scopes, and any list of them, may be granted; a scope that
/// is neither is refused wherever it stands in a list.
pub proof fn lemma_only_read_scopes_granted(scopes: Seq<Seq<char>>, i: int)
    requires
        0 <= i < scopes.len(),
    ensures
        scopes_valid(seq![users_read_scope(), groups_read_scope()]),
        scopes_valid(Seq::<Seq<char>>::empty()),
        !is_known_scope(scopes[i]) ==> !scopes_valid(scopes),
{
    let both = seq![users_read_scope(), groups_read_scope()];
    assert forall|j: int| 0 <= j < both.len() implies #[trigger] is_known_scope(both[j]) by {
        if j == 0 {
            assert(both[j] == users_read_scope());
        } else {
            assert(both[j] == groups_read_scope());
        }
    }
}

/// A service client as the bindings show it.
#[derive(Debug, Clone, PartialEq, Eq)]
pub struct PyServiceClient {
    pub id: i64,
    pub client_id: String,
    pub name: String,
    pub scopes: Vec<String>,
    pub is_active: bool,
    pub expires_at: Option<String>,
    pub created_at: String,
    pub last_used_at: Option<String>,
}

impl PyServiceClient {
    /// The text of `repr(client)`: `ServiceClient(id=<id>, client_id=<quoted>,
    /// name=<quoted>, scopes=<list of quoted>, is_active=<bool>)`.
    pub open spec fn repr_text(&self) -> Seq<char> {
        "ServiceClient(id="@ + decimal_text(self.id as int) + ", client_id="@
            + debug_text(self.client_id@) + ", name="@ + debug_text(self.name@) + ", scopes="@
            + debug_list(string_views(self.scopes@)) + ", is_active="@ + bool_text(self.is_active)
            + ")"@
    }

    /// Writes the record as Python's `repr` shows it.
    pub fn repr(&self) -> (r: String)
        ensures
            r@ == self.repr_text(),
    {
        let mut out = String::from_str("ServiceClient(id=");
        out.append(decimal_string(self.id).as_str());
        out.append(", client_id=");
        out.append(debug_str(self.client_id.as_str()).as_str());
        out.append(", name=");
        out.append(debug_str(self.name.as_str()).as_str());
        out.append(", scopes=");
        out.append(debug_string_list(&self.scopes).as_str());
        out.append(", is_active=");
        out.append(bool_str(self.is_active));
        out.append(")");
        out
    }
}

} // verus!
