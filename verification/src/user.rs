//! The user entity, its role tier and its validation rules.

use vstd::prelude::*;

use crate::errors::AppError;
use crate::text::clone_opt_string;
use crate::text::str_eq;

verus! {

/// Privilege tier gating command access.
#[derive(Debug, Clone, Copy, PartialEq, Eq, Structural)]
pub enum Role {
    /// No privileges; the tier of unknown callers.
    Guest,
    /// May create and manage own content.
    Editor,
    /// Full access, including the global user listing.
    Admin,
}

impl Default for Role {
    /// An unknown caller is a guest.
    fn default() -> (r: Self)
        ensures
            r is Guest,
    {
        Role::Guest
    }
}

impl Role {
    /// Numeric code of the role, as carried on the wire.
    pub fn as_i32(&self) -> (r: i32)
        ensures
            r == role_code(*self),
    {
        match self {
            Role::Guest => 0,
            Role::Editor => 1,
            Role::Admin => 2,
        }
    }

    /// Decodes a numeric role code; every value outside the three codes is
    /// rejected.
    pub fn from_i32(value: i32) -> (r: Result<Self, AppError>)
        ensures
            r is Ok <==> 0 <= value <= 2,
            r matches Ok(s) ==> role_code(s) == value,
            r matches Err(e) ==> e is InvalidArgument,
    {
        match value {
            0 => Ok(Role::Guest),
            1 => Ok(Role::Editor),
            2 => Ok(Role::Admin),
            _ => Err(AppError::InvalidArgument),
        }
    }

    /// The role name, as stored with the user record.
    pub fn name(&self) -> (r: &'static str)
        ensures
            r@ == role_name(*self),
    {
        match self {
            Role::Guest => "Guest",
            Role::Editor => "Editor",
            Role::Admin => "Admin",
        }
    }

    /// Reads a role back from its name; anything unrecognized falls back to
    /// `Guest`, the lowest privilege.
    pub fn from_name(value: &str) -> (r: Self)
        ensures
            r == role_of_name(value@),
    {
        if str_eq(value, "Admin") {
            Role::Admin
        } else if str_eq(value, "Editor") {
            Role::Editor
        } else {
            Role::Guest
        }
    }
}

/// Numeric code of each role.
pub open spec fn role_code(r: Role) -> i32 {
    match r {
        Role::Guest => 0,
        Role::Editor => 1,
        Role::Admin => 2,
    }
}

/// Name of each role.
pub open spec fn role_name(r: Role) -> Seq<char> {
    match r {
        Role::Guest => "Guest"@,
        Role::Editor => "Editor"@,
        Role::Admin => "Admin"@,
    }
}

/// The role whose name matches, with `Guest` for anything else.
pub open spec fn role_of_name(v: Seq<char>) -> Role {
    if v == role_name(Role::Admin) {
        Role::Admin
    } else if v == role_name(Role::Editor) {
        Role::Editor
    } else {
        Role::Guest
    }
}

/// A personal name holds between 1 and 64 characters.
pub open spec fn valid_person_name(s: Seq<char>) -> bool {
    1 <= s.len() <= 64
}

/// A username character: ASCII letter, digit or underscore.
pub open spec fn username_char(c: char) -> bool {
    ||| 'a' <= c <= 'z'
    ||| 'A' <= c <= 'Z'
    ||| '0' <= c <= '9'
    ||| c == '_'
}

/// A username: 5 to 32 characters, each a letter, digit or underscore.
pub open spec fn valid_username(s: Seq<char>) -> bool {
    &&& 5 <= s.len() <= 32
    &&& forall|i: int| 0 <= i < s.len() ==> username_char(#[trigger] s[i])
}

/// A language code: exactly two ASCII lowercase letters.
pub open spec fn valid_language_code(s: Seq<char>) -> bool {
    &&& s.len() == 2
    &&& forall|i: int| 0 <= i < s.len() ==> 'a' <= #[trigger] s[i] <= 'z'
}

/// Checks a candidate username against [`valid_username`].
pub fn check_username(s: &str) -> (r: bool)
    ensures
        r == valid_username(s@),
{
    let n = s.unicode_len();
    if n < 5 || n > 32 {
        return false;
    }
    let mut i: usize = 0;
    while i < n
        invariant
            n == s@.len(),
            5 <= n <= 32,
            0 <= i <= n,
            forall|j: int| 0 <= j < i ==> username_char(#[trigger] s@[j]),
        decreases n - i,
    {
        let c = s.get_char(i);
        let ok = ('a' <= c && c <= 'z') || ('A' <= c && c <= 'Z') || ('0' <= c && c <= '9')
            || c == '_';
        if !ok {
            return false;
        }
        i = i + 1;
    }
    true
}

/// Checks a candidate language code against [`valid_language_code`].
pub fn check_language_code(s: &str) -> (r: bool)
    ensures
        r == valid_language_code(s@),
{
    let n = s.unicode_len();
    if n != 2 {
        return false;
    }
    let c0 = s.get_char(0);
    let c1 = s.get_char(1);
    ('a' <= c0 && c0 <= 'z') && ('a' <= c1 && c1 <= 'z')
}

/// A registered member of the team, keyed by the stable chat identifier.
#[derive(Debug, PartialEq)]
pub struct User {
    pub id: u128,
    pub telegram_id: i64,
    pub first_name: String,
    pub last_name: Option<String>,
    pub username: Option<String>,
    pub language_code: Option<String>,
    pub role: Role,
    pub created_at: i64,
    pub updated_at: i64,
    pub last_activity: i64,
}

impl Clone for User {
    /// A copy of the user, equal to the original field by field.
    fn clone(&self) -> (res: Self)
        ensures
            res == *self,
    {
        User {
            id: self.id,
            telegram_id: self.telegram_id,
            first_name: self.first_name.clone(),
            last_name: clone_opt_string(&self.last_name),
            username: clone_opt_string(&self.username),
            language_code: clone_opt_string(&self.language_code),
            role: self.role,
            created_at: self.created_at,
            updated_at: self.updated_at,
            last_activity: self.last_activity,
        }
    }
}

impl User {
    /// Structural invariant of a stored user record.
    pub open spec fn wf(self) -> bool {
        &&& self.telegram_id >= 0
        &&& valid_person_name(self.first_name@)
        &&& self.last_name matches Some(l) ==> valid_person_name(l@)
        &&& self.username matches Some(u) ==> valid_username(u@)
        &&& self.language_code matches Some(c) ==> valid_language_code(c@)
    }

    /// Starts assembling a user.
    pub fn builder() -> (r: UserBuilder)
        ensures
            r == UserBuilder::empty_spec(),
    {
        UserBuilder {
            id: None,
            telegram_id: None,
            first_name: None,
            last_name: None,
            username: None,
            language_code: None,
            role: None,
            created_at: None,
            updated_at: None,
            last_activity: None,
        }
    }
}

/// Field-by-field assembly of a [`User`], validated before it is built.
#[derive(Debug)]
pub struct UserBuilder {
    pub id: Option<u128>,
    pub telegram_id: Option<i64>,
    pub first_name: Option<String>,
    pub last_name: Option<String>,
    pub username: Option<String>,
    pub language_code: Option<String>,
    pub role: Option<Role>,
    pub created_at: Option<i64>,
    pub updated_at: Option<i64>,
    pub last_activity: Option<i64>,
}

impl UserBuilder {
    /// The builder with nothing set yet.
    pub open spec fn empty_spec() -> UserBuilder {
        UserBuilder {
            id: None,
            telegram_id: None,
            first_name: None,
            last_name: None,
            username: None,
            language_code: None,
            role: None,
            created_at: None,
            updated_at: None,
            last_activity: None,
        }
    }

    pub fn id(self, id: u128) -> (r: Self)
        ensures
            r == (Self { id: Some(id), ..self }),
    {
        Self { id: Some(id), ..self }
    }

    pub fn telegram_id(self, telegram_id: i64) -> (r: Self)
        ensures
            r == (Self { telegram_id: Some(telegram_id), ..self }),
    {
        Self { telegram_id: Some(telegram_id), ..self }
    }

    pub fn first_name(self, first_name: String) -> (r: Self)
        ensures
            r == (Self { first_name: Some(first_name), ..self }),
    {
        Self { first_name: Some(first_name), ..self }
    }

    pub fn last_name(self, v: Option<String>) -> (r: Self)
        ensures
            r == (Self { last_name: v, ..self }),
    {
        Self { last_name: v, ..self }
    }

    pub fn username(self, v: Option<String>) -> (r: Self)
        ensures
            r == (Self { username: v, ..self }),
    {
        Self { username: v, ..self }
    }

    pub fn language_code(self, v: Option<String>) -> (r: Self)
        ensures
            r == (Self { language_code: v, ..self }),
    {
        Self { language_code: v, ..self }
    }

    pub fn role(self, role: Role) -> (r: Self)
        ensures
            r == (Self { role: Some(role), ..self }),
    {
        Self { role: Some(role), ..self }
    }

    pub fn created_at(self, at: i64) -> (r: Self)
        ensures
            r == (Self { created_at: Some(at), ..self }),
    {
        Self { created_at: Some(at), ..self }
    }

    pub fn updated_at(self, at: i64) -> (r: Self)
        ensures
            r == (Self { updated_at: Some(at), ..self }),
    {
        Self { updated_at: Some(at), ..self }
    }

    pub fn last_activity(self, at: i64) -> (r: Self)
        ensures
            r == (Self { last_activity: Some(at), ..self }),
    {
        Self { last_activity: Some(at), ..self }
    }

    /// Whether every field that has been set is admissible.
    pub open spec fn fields_valid(self) -> bool {
        &&& self.telegram_id matches Some(t) ==> t >= 0
        &&& self.first_name matches Some(f) ==> valid_person_name(f@)
        &&& self.last_name matches Some(l) ==> valid_person_name(l@)
        &&& self.username matches Some(u) ==> valid_username(u@)
        &&& self.language_code matches Some(c) ==> valid_language_code(c@)
    }

    /// Checks the set fields: a non-negative chat identifier, bounded names,
    /// a well-formed username and language code. Fields not yet set are not
    /// faulted.
    pub fn validate(&self) -> (r: Result<(), AppError>)
        ensures
            r is Ok <==> self.fields_valid(),
            r matches Err(e) ==> e is InvalidArgument,
    {
        if let Some(tid) = self.telegram_id {
            if tid < 0 {
                return Err(AppError::InvalidArgument);
            }
        }
        if let Some(firstname) = self.first_name.as_ref() {
            let n = firstname.as_str().unicode_len();
            if n < 1 || n > 64 {
                return Err(AppError::InvalidArgument);
            }
        }
        if let Some(lastname) = self.last_name.as_ref() {
            let n = lastname.as_str().unicode_len();
            if n < 1 || n > 64 {
                return Err(AppError::InvalidArgument);
            }
        }
        if let Some(un) = self.username.as_ref() {
            if !check_username(un.as_str()) {
                return Err(AppError::InvalidArgument);
            }
        }
        if let Some(lc) = self.language_code.as_ref() {
            if !check_language_code(lc.as_str()) {
                return Err(AppError::InvalidArgument);
            }
        }
        Ok(())
    }

    /// Builds the user.
    ///
    /// Succeeds exactly when id, chat identifier and first name are set and
    /// every set field is admissible. Role defaults to `Guest` and the
    /// timestamps to 0 when unset.
    pub fn build(self) -> (r: Result<User, AppError>)
        ensures
            r is Ok <==> {
                &&& self.id is Some
                &&& self.telegram_id is Some
                &&& self.first_name is Some
                &&& self.fields_valid()
            },
            r matches Ok(u) ==> {
                &&& Some(u.id) == self.id
                &&& Some(u.telegram_id) == self.telegram_id
                &&& Some(u.first_name) == self.first_name
                &&& u.last_name == self.last_name
                &&& u.username == self.username
                &&& u.language_code == self.language_code
                &&& u.role == self.role.unwrap_or(Role::Guest)
                &&& u.created_at == self.created_at.unwrap_or(0)
                &&& u.updated_at == self.updated_at.unwrap_or(0)
                &&& u.last_activity == self.last_activity.unwrap_or(0)
                &&& u.wf()
            },
            r matches Err(e) ==> e is InvalidArgument,
    {
        self.validate()?;
        let role = match self.role {
            Some(r) => r,
            None => Role::Guest,
        };
        match (self.id, self.telegram_id, self.first_name) {
            (Some(id), Some(telegram_id), Some(first_name)) => Ok(User {
                id,
                telegram_id,
                first_name,
                last_name: self.last_name,
                username: self.username,
                language_code: self.language_code,
                role,
                created_at: self.created_at.unwrap_or(0),
                updated_at: self.updated_at.unwrap_or(0),
                last_activity: self.last_activity.unwrap_or(0),
            }),
            _ => Err(AppError::InvalidArgument),
        }
    }
}

/// One page of a user listing, with the paging totals.
#[derive(Debug, PartialEq)]
pub struct ListUsersResult {
    pub users: Vec<User>,
    pub total_count: u32,
    pub current_page: u32,
    pub total_pages: u32,
}

} // verus!
