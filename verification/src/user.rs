//! Application users (staff accounts) and their passwords.
use vstd::prelude::*;
use crate::dates::DateTime;
use crate::passwords::{argon2_accepts, encrypt_password, has_prefix, phc_valid, utf8_len, verify_password};

verus! {

/// An account that can log into the application. The password field holds
/// the stored hash, or is empty when the user is handed out.
#[derive(Debug, Clone)]
pub struct User {
    pub id: Option<i32>,
    pub username: String,
    pub password: String,
    pub created_at: Option<DateTime>,
    pub updated_at: Option<DateTime>,
}

/// The form model for creating, renaming a user or changing its password.
#[derive(Debug, Clone)]
pub struct UserUpsertModel {
    pub id: Option<i32>,
    pub username: String,
    pub old_password: String,
    pub new_password: String,
    pub new_password_repeat: String,
}

/// What a user form is submitted for.
#[derive(Debug, Clone, Copy, PartialEq, Eq, Structural)]
pub enum UpsertOperation {
    Add,
    Edit,
    PasswordChange,
}

/// A database failure, as the user operations tell them apart.
#[derive(Debug, Clone)]
pub enum DbError {
    /// The query found no row.
    RowNotFound,
    /// Any other failure, with its description.
    Other(String),
}

/// Why a user operation failed.
#[derive(Debug, Clone)]
pub enum UserError {
    OperationFailed(String),
    DatabaseError(String),
}

/// The values to insert for a new user.
#[derive(Debug, Clone)]
pub struct NewUserRecord {
    pub username: String,
    pub password_hash: String,
}

impl UserUpsertModel {
    /// The form is complete for the operation: a username for adding and
    /// renaming; for adding and for a password change, a new password that
    /// is repeated identically; for a password change, the old password.
    pub open spec fn valid_for(&self, operation: UpsertOperation) -> bool {
        match operation {
            UpsertOperation::Add => {
                &&& self.username@.len() > 0
                &&& self.new_password@.len() > 0
                &&& self.new_password_repeat@.len() > 0
                &&& self.new_password@ == self.new_password_repeat@
            },
            UpsertOperation::Edit => self.username@.len() > 0,
            UpsertOperation::PasswordChange => {
                &&& self.new_password@.len() > 0
                &&& self.new_password_repeat@.len() > 0
                &&& self.new_password@ == self.new_password_repeat@
                &&& self.old_password@.len() > 0
            },
        }
    }

    /// Returns true if the entity is valid (ready for submission to the db).
    pub fn is_valid(&self, operation: UpsertOperation) -> (r: bool)
        ensures
            r == self.valid_for(operation),
    {
        match operation {
            UpsertOperation::Add => {
                if self.username.as_str().is_empty() {
                    return false;
                }
                if self.new_password.as_str().is_empty() || self.new_password_repeat.as_str().is_empty() {
                    return false;
                }
                if self.new_password != self.new_password_repeat {
                    return false;
                }
            },
            UpsertOperation::Edit => {
                if self.username.as_str().is_empty() {
                    return false;
                }
            },
            UpsertOperation::PasswordChange => {
                if self.new_password.as_str().is_empty() || self.new_password_repeat.as_str().is_empty() {
                    return false;
                }
                if self.new_password != self.new_password_repeat {
                    return false;
                }
                if self.old_password.as_str().is_empty() {
                    return false;
                }
            },
        }
        true
    }

    /// The form model of a stored user: its id and name, every password
    /// field empty.
    pub fn from_stored(id: Option<i32>, username: String) -> (r: UserUpsertModel)
        ensures
            r.id == id,
            r.username == username,
            r.old_password@ == Seq::<char>::empty(),
            r.new_password@ == Seq::<char>::empty(),
            r.new_password_repeat@ == Seq::<char>::empty(),
    {
        UserUpsertModel {
            id,
            username,
            old_password: String::new(),
            new_password: String::new(),
            new_password_repeat: String::new(),
        }
    }
}

impl Default for UserUpsertModel {
    fn default() -> (r: UserUpsertModel)
        ensures
            r.id is None,
            r.username@ == Seq::<char>::empty(),
            r.old_password@ == Seq::<char>::empty(),
            r.new_password@ == Seq::<char>::empty(),
            r.new_password_repeat@ == Seq::<char>::empty(),
    {
        UserUpsertModel {
            id: None,
            username: String::new(),
            old_password: String::new(),
            new_password: String::new(),
            new_password_repeat: String::new(),
        }
    }
}

/// What the user comparison (`==`) decides: the left user has an id, and
/// it equals the right user's id, where a missing id counts as 0.
pub open spec fn same_user_ids(a: Option<i32>, b: Option<i32>) -> bool {
    match a {
        Some(x) => x == match b {
            Some(y) => y,
            None => 0i32,
        },
        None => false,
    }
}

impl PartialEq for User {
    fn eq(&self, other: &Self) -> (r: bool) {
        match self.id {
            Some(x) => x == match other.id {
                Some(y) => y,
                None => 0,
            },
            None => false,
        }
    }
}

impl vstd::std_specs::cmp::PartialEqSpecImpl for User {
    open spec fn obeys_eq_spec() -> bool {
        true
    }

    open spec fn eq_spec(&self, other: &User) -> bool {
        same_user_ids(self.id, other.id)
    }
}

/// The text a user error is shown as.
pub open spec fn user_error_text(e: UserError) -> Seq<char> {
    match e {
        UserError::OperationFailed(m) => "Operation failed: "@ + m@,
        UserError::DatabaseError(m) => "Database error: "@ + m@,
    }
}

impl UserError {
    /// The user error a database failure becomes: a missing row means the
    /// username was not found; any other failure is a database error.
    pub fn from_db(value: DbError) -> (r: UserError)
        ensures
            value is RowNotFound ==> (r matches UserError::OperationFailed(m) && m@ == "Username not found"@),
            value matches DbError::Other(t) ==> r == UserError::DatabaseError(t),
    {
        match value {
            DbError::RowNotFound => UserError::OperationFailed(String::from_str("Username not found")),
            DbError::Other(t) => UserError::DatabaseError(t),
        }
    }

    /// `Operation failed: <message>` or `Database error: <description>`.
    pub fn message(&self) -> (r: String)
        ensures
            r@ == user_error_text(*self),
    {
        match self {
            UserError::OperationFailed(m) => {
                let mut s = String::from_str("Operation failed: ");
                s.append(m.as_str());
                s
            },
            UserError::DatabaseError(m) => {
                let mut s = String::from_str("Database error: ");
                s.append(m.as_str());
                s
            },
        }
    }
}

impl User {
    /// A stored user as it is listed: its password hash left out.
    pub fn without_password(id: Option<i32>, username: String, created_at: Option<DateTime>, updated_at: Option<DateTime>) -> (r: User)
        ensures
            r.id == id,
            r.username == username,
            r.password@ == Seq::<char>::empty(),
            r.created_at == created_at,
            r.updated_at == updated_at,
    {
        User { id, username, password: String::new(), created_at, updated_at }
    }

    /// Logs in against a stored user (whose `password` is the stored hash).
    ///
    /// Succeeds exactly when Argon2 accepts the password for the stored hash,
    /// and then gives the stored user with its password field emptied;
    /// otherwise the error is `OperationFailed` with the message of the password check.
    pub fn login(stored: User, password: String) -> (r: Result<User, UserError>)
        ensures
            r is Ok <==> argon2_accepts(password@, stored.password@),
            r matches Ok(u) ==> {
                &&& u.id == stored.id
                &&& u.username == stored.username
                &&& u.password@ == Seq::<char>::empty()
                &&& u.created_at == stored.created_at
                &&& u.updated_at == stored.updated_at
            },
            r matches Err(e) ==> e is OperationFailed,
    {
        let checked = verify_password(password, stored.password);
        match checked {
            Err(m) => Err(UserError::OperationFailed(m)),
            Ok(()) => Ok(User::without_password(stored.id, stored.username, stored.created_at, stored.updated_at)),
        }
    }

    /// The record to insert for a new user: its name and the hash of its new
    /// password (hashing succeeds for a password of at most `u32::MAX` UTF-8
    /// bytes). A hashing failure is `OperationFailed`.
    pub fn add(user: UserUpsertModel) -> (r: Result<NewUserRecord, UserError>)
        ensures
            utf8_len(user.new_password@) <= 0xFFFF_FFFF ==> r is Ok,
            r matches Ok(rec) ==> {
                &&& rec.username == user.username
                &&& phc_valid(rec.password_hash@)
                &&& argon2_accepts(user.new_password@, rec.password_hash@)
            },
            r matches Err(e) ==> e is OperationFailed,
    {
        match encrypt_password(user.new_password) {
            Err(m) => Err(UserError::OperationFailed(m)),
            Ok(h) => Ok(NewUserRecord { username: user.username, password_hash: h }),
        }
    }

    /// The hash to store when a user changes its password: the old password
    /// must be accepted for the stored hash (else `Old password is
    /// incorrect`), and the new one is hashed.
    pub fn change_password(stored_hash: String, old_password: String, new_password: String) -> (r: Result<String, UserError>)
        ensures
            argon2_accepts(old_password@, stored_hash@) && utf8_len(new_password@) <= 0xFFFF_FFFF ==> r is Ok,
            !argon2_accepts(old_password@, stored_hash@) ==> (r matches Err(UserError::OperationFailed(m))
                && m@ == "Old password is incorrect"@),
            r matches Ok(h) ==> {
                &&& argon2_accepts(old_password@, stored_hash@)
                &&& phc_valid(h@)
                &&& argon2_accepts(new_password@, h@)
            },
            r matches Err(e) ==> e is OperationFailed,
    {
        match verify_password(old_password, stored_hash) {
            Err(_) => {
                return Err(UserError::OperationFailed(String::from_str("Old password is incorrect")));
            },
            Ok(()) => {},
        }
        match encrypt_password(new_password) {
            Err(m) => Err(UserError::OperationFailed(m)),
            Ok(h) => Ok(h),
        }
    }
}

/// The answer of a failed log-in.
pub open spec fn login_failure_text(e: UserError) -> Seq<char> {
    match e {
        UserError::OperationFailed(m) => "Login failed: "@ + m@,
        UserError::DatabaseError(m) => "Login failed with database error: "@ + m@,
    }
}

/// `prefix` followed by `rest`.
fn joined_text(prefix: &str, rest: &str) -> (r: String)
    ensures
        r@ == prefix@ + rest@,
{
    let mut s = String::from_str(prefix);
    s.append(rest);
    s
}

/// The answer of a failed log-in: `Login failed: <message>`, or
/// `Login failed with database error: <description>`.
pub fn login_failure(e: &UserError) -> (r: String)
    ensures
        r@ == login_failure_text(*e),
{
    match e {
        UserError::OperationFailed(m) => joined_text("Login failed: ", m.as_str()),
        UserError::DatabaseError(m) => joined_text("Login failed with database error: ", m.as_str()),
    }
}

/// The answer of a failed save of a user: `Failed to upsert user: <error>`.
pub fn upsert_failure(e: &UserError) -> (r: String)
    ensures
        r@ == "Failed to upsert user: "@ + user_error_text(*e),
{
    let m = e.message();
    joined_text("Failed to upsert user: ", m.as_str())
}

/// The answer of a failed password change: `Failed to change user password: <error>`.
pub fn password_change_failure(e: &UserError) -> (r: String)
    ensures
        r@ == "Failed to change user password: "@ + user_error_text(*e),
{
    let m = e.message();
    joined_text("Failed to change user password: ", m.as_str())
}

/// Saving a record (a user, a member or an interest) adds it when it has
/// no id and edits it otherwise.
pub fn upsert_operation(id: Option<i32>) -> (r: UpsertOperation)
    ensures
        id is None ==> r == UpsertOperation::Add,
        id is Some ==> r == UpsertOperation::Edit,
{
    match id {
        Some(_) => UpsertOperation::Edit,
        None => UpsertOperation::Add,
    }
}

/// The user a session holds: none without a session (`Failed to retrieve
/// session`), none when the session keeps no user (`Failed to retrieve user
/// in session`), and otherwise that user.
pub fn session_user(session: Option<Option<User>>) -> (r: Result<Option<User>, String>)
    ensures
        session is None ==> (r matches Err(m) && m@ == "Failed to retrieve session"@),
        session matches Some(None) ==> (r matches Err(m) && m@ == "Failed to retrieve user in session"@),
        session matches Some(Some(u)) ==> r == Ok::<Option<User>, String>(Some(u)),
{
    match session {
        None => Err(String::from_str("Failed to retrieve session")),
        Some(None) => Err(String::from_str("Failed to retrieve user in session")),
        Some(Some(u)) => Ok(Some(u)),
    }
}

/// A form accepted for adding a user or for a password change has its new
/// password repeated identically; a form whose repeat differs is refused
/// for both.
pub proof fn lemma_new_password_is_confirmed(model: UserUpsertModel)
    ensures
        model.valid_for(UpsertOperation::PasswordChange) ==> model.new_password@ == model.new_password_repeat@
            && model.new_password@.len() > 0 && model.old_password@.len() > 0,
        model.valid_for(UpsertOperation::Add) ==> model.new_password@ == model.new_password_repeat@
            && model.new_password@.len() > 0 && model.username@.len() > 0,
        model.new_password@ != model.new_password_repeat@ ==> !model.valid_for(UpsertOperation::PasswordChange)
            && !model.valid_for(UpsertOperation::Add),
{
}

} // verus!
