use crate::clock::{days_between, now, Timestamp};
use crate::status::UserStatus;
use vstd::prelude::*;

verus! {

#[verifier::external_type_specification]
#[verifier::external_body]
pub struct ExValue(serde_json::Value);

#[verifier::external_type_specification]
#[verifier::external_body]
pub struct ExSqlxError(sqlx::Error);

/// Relies on the derived `Clone` of `serde_json::Value`, which copies the
/// value field by field, so the copy equals the original.
pub assume_specification[ <serde_json::Value as Clone>::clone ](v: &serde_json::Value) -> (r:
    serde_json::Value)
    ensures
        r == *v,
;

/// What can go wrong when handling users.
#[derive(Debug)]
pub enum UserError {
    /// No user can be looked up under this identifier.
    NotFound { id: String },
    /// The email lacks an `@` or a `.`.
    InvalidEmail { email: String },
    /// The remote service reported a failure.
    ApiError { message: String },
    /// A record's identifier is empty.
    EmptyId,
    /// A record's name is empty.
    EmptyName,
    /// A failure of the underlying storage, passed through as it came.
    DatabaseError(sqlx::Error),
}

/// The human-readable message of an error.
pub open spec fn error_message(e: UserError) -> Seq<char> {
    match e {
        UserError::NotFound { id } => "User not found: "@ + id@,
        UserError::InvalidEmail { email } => "Invalid email format: "@ + email@,
        UserError::ApiError { message } => "API request failed: "@ + message@,
        UserError::EmptyId => "User ID cannot be empty"@,
        UserError::EmptyName => "User name cannot be empty"@,
        UserError::DatabaseError(_) => "Database error"@,
    }
}

impl UserError {
    /// The human-readable message of the error.
    pub fn message(&self) -> (r: String)
        ensures
            r@ == error_message(*self),
    {
        match self {
            UserError::NotFound { id } => {
                let mut r = String::from_str("User not found: ");
                r.append(id.as_str());
                r
            },
            UserError::InvalidEmail { email } => {
                let mut r = String::from_str("Invalid email format: ");
                r.append(email.as_str());
                r
            },
            UserError::ApiError { message } => {
                let mut r = String::from_str("API request failed: ");
                r.append(message.as_str());
                r
            },
            UserError::EmptyId => String::from_str("User ID cannot be empty"),
            UserError::EmptyName => String::from_str("User name cannot be empty"),
            UserError::DatabaseError(_) => String::from_str("Database error"),
        }
    }
}

/// The plain-value view of a user record.
pub struct UserView {
    pub id: Seq<char>,
    pub name: Seq<char>,
    pub email: Seq<char>,
    pub status: UserStatus,
    pub created_at: Timestamp,
    pub metadata: Seq<(Seq<char>, serde_json::Value)>,
}

/// A user record. `metadata` holds key/value pairs in insertion order;
/// `add_metadata` keeps its keys distinct.
#[derive(Debug, Clone)]
pub struct User {
    pub id: String,
    pub name: String,
    pub email: String,
    pub status: UserStatus,
    pub created_at: Timestamp,
    pub metadata: Vec<(String, serde_json::Value)>,
}

/// The plain view of a list of metadata entries.
pub open spec fn metadata_view(m: Seq<(String, serde_json::Value)>) -> Seq<(Seq<char>, serde_json::Value)> {
    m.map_values(|e: (String, serde_json::Value)| (e.0@, e.1))
}

impl View for User {
    type V = UserView;

    open spec fn view(&self) -> UserView {
        UserView {
            id: self.id@,
            name: self.name@,
            email: self.email@,
            status: self.status,
            created_at: self.created_at,
            metadata: metadata_view(self.metadata@),
        }
    }
}

/// The deliberately weak email check: an `@` and a `.` somewhere.
pub open spec fn is_valid_email(email: Seq<char>) -> bool {
    email.contains('@') && email.contains('.')
}

/// The name shown for a user: the name, or the email when the name is empty.
pub open spec fn display_name_of(name: Seq<char>, email: Seq<char>) -> Seq<char> {
    if name.len() > 0 {
        name
    } else {
        email
    }
}

/// The category of a user that has been active for `days` whole days.
pub open spec fn age_category(days: int) -> Seq<char> {
    if 0 <= days <= 30 {
        seq!['N', 'e', 'w']
    } else if 31 <= days <= 365 {
        seq!['R', 'e', 'g', 'u', 'l', 'a', 'r']
    } else {
        seq!['V', 'e', 't', 'e', 'r', 'a', 'n']
    }
}

/// The entries after `key` is set to `value`: the first entry with that key
/// gets the value, or a new entry is appended where there is none.
pub open spec fn metadata_set(
    m: Seq<(Seq<char>, serde_json::Value)>,
    key: Seq<char>,
    value: serde_json::Value,
) -> Seq<(Seq<char>, serde_json::Value)> {
    if exists|i: int| 0 <= i < m.len() && m[i].0 == key {
        let i = choose|i: int|
            0 <= i < m.len() && m[i].0 == key && forall|j: int| 0 <= j < i ==> m[j].0 != key;
        m.update(i, (key, value))
    } else {
        m.push((key, value))
    }
}

fn contains_char(s: &str, c: char) -> (r: bool)
    ensures
        r == s@.contains(c),
{
    let n = s.unicode_len();
    let mut i: usize = 0;
    while i < n
        invariant
            n == s@.len(),
            i <= n,
            forall|j: int| 0 <= j < i ==> s@[j] != c,
        decreases n - i,
    {
        if s.get_char(i) == c {
            return true;
        }
        i = i + 1;
    }
    false
}

fn copy_metadata(m: &Vec<(String, serde_json::Value)>) -> (r: Vec<(String, serde_json::Value)>)
    ensures
        metadata_view(r@) == metadata_view(m@),
{
    let mut r: Vec<(String, serde_json::Value)> = Vec::new();
    let mut i: usize = 0;
    while i < m.len()
        invariant
            i <= m@.len(),
            r@.len() == i,
            forall|j: int| 0 <= j < i ==> r@[j].0@ == m@[j].0@ && r@[j].1 == m@[j].1,
        decreases m@.len() - i,
    {
        let k = m[i].0.clone();
        let v = m[i].1.clone();
        r.push((k, v));
        i = i + 1;
    }
    assert(metadata_view(r@) =~= metadata_view(m@));
    r
}

impl User {
    /// Checks the email format.
    pub fn is_valid_email(email: &str) -> (r: bool)
        ensures
            r == is_valid_email(email@),
    {
        contains_char(email, '@') && contains_char(email, '.')
    }

    /// A user created at `created_at`, active and without metadata, or
    /// `InvalidEmail` when the email lacks an `@` or a `.`.
    pub fn new_at(id: String, name: String, email: String, created_at: Timestamp) -> (r: Result<
        User,
        UserError,
    >)
        ensures
            is_valid_email(email@) <==> r is Ok,
            r matches Ok(u) ==> u@ == (UserView {
                id: id@,
                name: name@,
                email: email@,
                status: UserStatus::Active,
                created_at,
                metadata: Seq::empty(),
            }),
            r matches Err(e) ==> e == (UserError::InvalidEmail { email }),
    {
        if !User::is_valid_email(email.as_str()) {
            return Err(UserError::InvalidEmail { email });
        }
        let u = User {
            id,
            name,
            email,
            status: UserStatus::Active,
            created_at,
            metadata: Vec::new(),
        };
        assert(u@.metadata =~= Seq::empty());
        Ok(u)
    }

    /// A user created now, active and without metadata, or `InvalidEmail`
    /// when the email lacks an `@` or a `.`.
    pub fn new(id: String, name: String, email: String) -> (r: Result<User, UserError>)
        ensures
            is_valid_email(email@) <==> r is Ok,
            r matches Ok(u) ==> u@.id == id@ && u@.name == name@ && u@.email == email@
                && u@.status == UserStatus::Active && u@.metadata.len() == 0,
            r matches Err(e) ==> e == (UserError::InvalidEmail { email }),
    {
        User::new_at(id, name, email, now())
    }

    pub fn is_active(&self) -> (r: bool)
        ensures
            r == (self.status == UserStatus::Active),
    {
        self.status == UserStatus::Active
    }

    /// The name, or the email when the name is empty.
    pub fn display_name(&self) -> (r: &str)
        ensures
            r@ == display_name_of(self.name@, self.email@),
    {
        if self.name.unicode_len() > 0 {
            self.name.as_str()
        } else {
            self.email.as_str()
        }
    }

    /// Whole days from the creation of the record to `at`.
    pub fn days_active_at(&self, at: Timestamp) -> (r: i64)
        ensures
            r == days_between(self.created_at, at),
    {
        self.created_at.days_until(at)
    }

    /// Whole days from the creation of the record to now.
    pub fn days_active(&self) -> (r: i64)
        ensures
            exists|at: Timestamp| r == days_between(self.created_at, at),
    {
        self.days_active_at(now())
    }

    /// The same record with `status` in place of its status.
    pub fn with_status(self, status: UserStatus) -> (r: User)
        ensures
            r@ == (UserView { status, ..self@ }),
    {
        let mut u = self;
        u.status = status;
        u
    }

    /// Sets metadata `key` to `value`, replacing the value already under that
    /// key or appending a new entry.
    pub fn add_metadata(&mut self, key: String, value: serde_json::Value)
        ensures
            final(self)@ == (UserView {
                metadata: metadata_set(old(self)@.metadata, key@, value),
                ..old(self)@
            }),
    {
        let ghost m = old(self)@.metadata;
        let mut i: usize = 0;
        while i < self.metadata.len()
            invariant
                self@ == old(self)@,
                m == metadata_view(self.metadata@),
                m.len() == self.metadata@.len(),
                i <= self.metadata@.len(),
                forall|j: int| 0 <= j < i ==> m[j].0 != key@,
            decreases self.metadata@.len() - i,
        {
            assert(m[i as int].0 == self.metadata@[i as int].0@);
            if self.metadata[i].0 == key {
                let ghost k = key@;
                self.metadata.set(i, (key, value));
                proof {
                    assert(m[i as int].0 == k);
                    assert(exists|c: int| 0 <= c < m.len() && m[c].0 == k);
                    let c = choose|c: int|
                        0 <= c < m.len() && m[c].0 == k && forall|j: int| 0 <= j < c ==> m[j].0 != k;
                    assert(c == i) by {
                        if c < i {
                            assert(m[c].0 != k);
                        } else if c > i {
                            assert(m[i as int].0 != k);
                        }
                    }
                    assert(metadata_view(self.metadata@) =~= m.update(i as int, (k, value)));
                }
                return;
            }
            i = i + 1;
        }
        self.metadata.push((key, value));
        assert(metadata_view(self.metadata@) =~= m.push((key@, value)));
    }

    /// A copy of the record that shares nothing with it.
    pub fn duplicate(&self) -> (r: User)
        ensures
            r@ == self@,
    {
        User {
            id: self.id.clone(),
            name: self.name.clone(),
            email: self.email.clone(),
            status: self.status,
            created_at: self.created_at,
            metadata: copy_metadata(&self.metadata),
        }
    }

    /// "User(id=..., name=..., email=..., status=...)", with the capitalised
    /// status name.
    pub fn describe(&self) -> (r: String)
        ensures
            r@ == seq!['U', 's', 'e', 'r', '(', 'i', 'd', '='] + self.id@ + seq![',', ' ', 'n', 'a', 'm', 'e', '=']
                + self.name@ + seq![',', ' ', 'e', 'm', 'a', 'i', 'l', '='] + self.email@
                + seq![',', ' ', 's', 't', 'a', 't', 'u', 's', '='] + crate::status::status_label(self.status)
                + seq![')'],
    {
        proof {
            reveal_strlit("User(id=");
            reveal_strlit(", name=");
            reveal_strlit(", email=");
            reveal_strlit(", status=");
            reveal_strlit(")");
        }
        let mut r = String::from_str("User(id=");
        r.append(self.id.as_str());
        r.append(", name=");
        r.append(self.name.as_str());
        r.append(", email=");
        r.append(self.email.as_str());
        r.append(", status=");
        let label = self.status.label();
        r.append(label.as_str());
        r.append(")");
        r
    }
}

/// The envelope in which the remote service answers: a payload on success,
/// a message on failure, and the time the envelope was made.
#[derive(Debug)]
pub struct ApiResponse<T> {
    pub success: bool,
    pub data: Option<T>,
    pub error: Option<String>,
    pub timestamp: Timestamp,
}

impl<T> ApiResponse<T> {
    /// A successful envelope around `data`, stamped with `at`.
    pub fn success_at(data: T, at: Timestamp) -> (r: Self)
        ensures
            r.success,
            r.data == Some(data),
            r.error is None,
            r.timestamp == at,
    {
        ApiResponse { success: true, data: Some(data), error: None, timestamp: at }
    }

    /// A successful envelope around `data`, stamped now.
    pub fn success(data: T) -> (r: Self)
        ensures
            r.success,
            r.data == Some(data),
            r.error is None,
    {
        Self::success_at(data, now())
    }

    /// A failed envelope carrying `message`, stamped with `at`.
    pub fn error_at(message: String, at: Timestamp) -> (r: Self)
        ensures
            !r.success,
            r.data is None,
            r.error == Some(message),
            r.timestamp == at,
    {
        ApiResponse { success: false, data: None, error: Some(message), timestamp: at }
    }

    /// A failed envelope carrying `message`, stamped now.
    pub fn error(message: String) -> (r: Self)
        ensures
            !r.success,
            r.data is None,
            r.error == Some(message),
    {
        Self::error_at(message, now())
    }
}

/// What a record checks of itself.
pub trait UserOperations {
    /// The outcome that `validate` owes.
    spec fn validation(&self) -> Result<(), UserError>;

    /// The category that `get_age_category` owes when the time is `at`.
    spec fn age_category_at(&self, at: Timestamp) -> Seq<char>;

    /// Fails when the identifier is empty, then when the name is empty, then
    /// when the email is malformed.
    fn validate(&self) -> (r: Result<(), UserError>)
        ensures
            r == self.validation(),
    ;

    /// "New", "Regular" or "Veteran", by the days active now.
    fn get_age_category(&self) -> (r: String)
        ensures
            exists|at: Timestamp| r@ == self.age_category_at(at),
    ;
}

impl User {
    /// The category of a record at the time `at`: "New" up to 30 whole days
    /// active, "Regular" up to 365, "Veteran" beyond.
    pub fn age_category_on(&self, at: Timestamp) -> (r: String)
        ensures
            r@ == age_category(days_between(self.created_at, at)),
    {
        let days = self.days_active_at(at);
        proof {
            reveal_strlit("New");
            reveal_strlit("Regular");
            reveal_strlit("Veteran");
        }
        if 0 <= days && days <= 30 {
            let r = String::from_str("New");
            assert(r@ =~= seq!['N', 'e', 'w']);
            r
        } else if 31 <= days && days <= 365 {
            let r = String::from_str("Regular");
            assert(r@ =~= seq!['R', 'e', 'g', 'u', 'l', 'a', 'r']);
            r
        } else {
            let r = String::from_str("Veteran");
            assert(r@ =~= seq!['V', 'e', 't', 'e', 'r', 'a', 'n']);
            r
        }
    }
}

impl UserOperations for User {
    open spec fn validation(&self) -> Result<(), UserError> {
        if self.id@.len() == 0 {
            Err(UserError::EmptyId)
        } else if self.name@.len() == 0 {
            Err(UserError::EmptyName)
        } else if !is_valid_email(self.email@) {
            Err(UserError::InvalidEmail { email: self.email })
        } else {
            Ok(())
        }
    }

    open spec fn age_category_at(&self, at: Timestamp) -> Seq<char> {
        age_category(days_between(self.created_at, at))
    }

    fn validate(&self) -> (r: Result<(), UserError>) {
        if self.id.unicode_len() == 0 {
            return Err(UserError::EmptyId);
        }
        if self.name.unicode_len() == 0 {
            return Err(UserError::EmptyName);
        }
        if !User::is_valid_email(self.email.as_str()) {
            return Err(UserError::InvalidEmail { email: self.email.clone() });
        }
        Ok(())
    }

    fn get_age_category(&self) -> (r: String) {
        let at = now();
        let r = self.age_category_on(at);
        assert(r@ == self.age_category_at(at));
        r
    }
}

} // verus!
