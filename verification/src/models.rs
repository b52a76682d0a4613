use vstd::prelude::*;

use crate::ids::{lemma_uuid_text_len, uuid_text, uuid_to_text};

verus! {

/// A point in time, as seconds and nanoseconds since the Unix epoch, UTC.
#[derive(Debug, Clone, Copy, PartialEq, Eq, Structural)]
pub struct Timestamp {
    pub seconds: i64,
    pub nanoseconds: u32,
}

/// A role that users can be given.
#[derive(Debug)]
pub struct Role {
    pub id: u128,
    pub created_at: Timestamp,
    pub updated_at: Option<Timestamp>,
    pub name: String,
}

/// A permission, identified by its label path in the permission tree.
#[derive(Debug)]
pub struct Permission {
    pub id: String,
    pub created_at: Timestamp,
    pub updated_at: Option<Timestamp>,
    pub name: String,
}

/// A user of the service.
#[derive(Debug)]
pub struct User {
    pub id: u128,
    pub created_at: Timestamp,
    pub updated_at: Option<Timestamp>,
    pub name: String,
    pub email: String,
    pub phone: String,
}

/// A role given to a user.
#[derive(Debug)]
pub struct UserRole {
    pub role_id: u128,
    pub user_id: u128,
}

/// A permission granted to a role.
#[derive(Debug)]
pub struct RolePermission {
    pub permission_id: String,
    pub role_id: u128,
}

/// A permission granted to a user directly.
#[derive(Debug)]
pub struct UserPermission {
    pub permission_id: String,
    pub user_id: u128,
}

/// The text form of a user: `User (Id=<id>, Name=<name>)`.
pub open spec fn user_text(id: u128, name: Seq<char>) -> Seq<char> {
    "User (Id="@ + uuid_text(id) + ", Name="@ + name + ")"@
}

/// The text form of a user is `User (Id=`, the 36 characters of the id,
/// `, Name=`, the whole name unchanged whatever its length, and `)`.
pub proof fn lemma_user_text_shows_whole_name(id: u128, name: Seq<char>)
    ensures
        user_text(id, name).len() == name.len() + 53,
        user_text(id, name).subrange(0, 9) == "User (Id="@,
        user_text(id, name).subrange(9, 45) == uuid_text(id),
        user_text(id, name).subrange(45, 52) == ", Name="@,
        user_text(id, name).subrange(52, 52int + name.len()) == name,
        user_text(id, name)[name.len() + 52int] == ')',
{
    reveal_strlit("User (Id=");
    reveal_strlit(", Name=");
    reveal_strlit(")");
    lemma_uuid_text_len(id);
    let t = user_text(id, name);
    assert(t.subrange(0, 9) =~= "User (Id="@);
    assert(t.subrange(9, 45) =~= uuid_text(id));
    assert(t.subrange(45, 52) =~= ", Name="@);
    assert(t.subrange(52, 52int + name.len()) =~= name);
}

impl User {
    /// The text form of the user, with its hyphenated id and its name.
    pub fn to_display_string(&self) -> (s: String)
        ensures
            s@ == user_text(self.id, self.name@),
            s@.len() == self.name@.len() + 53,
            s@.subrange(52, 52int + self.name@.len()) == self.name@,
            s@[self.name@.len() + 52int] == ')',
    {
        proof {
            lemma_user_text_shows_whole_name(self.id, self.name@);
        }
        let id = uuid_to_text(self.id);
        let mut s = String::from_str("User (Id=");
        s.append(id.as_str());
        s.append(", Name=");
        s.append(self.name.as_str());
        s.append(")");
        s
    }
}

} // verus!
