use vstd::prelude::*;

verus! {

/// The closed set of states a user account can be in.
#[derive(Debug, Clone, Copy, PartialEq, Eq, Structural)]
pub enum UserStatus {
    Active,
    Inactive,
    Pending,
    Suspended,
}

/// Business validity: every status but `Suspended`.
pub open spec fn status_is_valid(s: UserStatus) -> bool {
    s == UserStatus::Active || s == UserStatus::Inactive || s == UserStatus::Pending
}

/// The lowercase token that stands for a status in the JSON form of a user.
pub open spec fn status_token(s: UserStatus) -> Seq<char> {
    match s {
        UserStatus::Active => seq!['a', 'c', 't', 'i', 'v', 'e'],
        UserStatus::Inactive => seq!['i', 'n', 'a', 'c', 't', 'i', 'v', 'e'],
        UserStatus::Pending => seq!['p', 'e', 'n', 'd', 'i', 'n', 'g'],
        UserStatus::Suspended => seq!['s', 'u', 's', 'p', 'e', 'n', 'd', 'e', 'd'],
    }
}

/// The status whose token is `t`, if there is one.
pub open spec fn status_of_token(t: Seq<char>) -> Option<UserStatus> {
    if t == status_token(UserStatus::Active) {
        Some(UserStatus::Active)
    } else if t == status_token(UserStatus::Inactive) {
        Some(UserStatus::Inactive)
    } else if t == status_token(UserStatus::Pending) {
        Some(UserStatus::Pending)
    } else if t == status_token(UserStatus::Suspended) {
        Some(UserStatus::Suspended)
    } else {
        None
    }
}

/// The capitalised name of a status, as it is shown to people.
pub open spec fn status_label(s: UserStatus) -> Seq<char> {
    match s {
        UserStatus::Active => seq!['A', 'c', 't', 'i', 'v', 'e'],
        UserStatus::Inactive => seq!['I', 'n', 'a', 'c', 't', 'i', 'v', 'e'],
        UserStatus::Pending => seq!['P', 'e', 'n', 'd', 'i', 'n', 'g'],
        UserStatus::Suspended => seq!['S', 'u', 's', 'p', 'e', 'n', 'd', 'e', 'd'],
    }
}

impl UserStatus {
    /// True for `Active`, `Inactive` and `Pending`; `Suspended` is a status
    /// but not a valid one.
    pub fn is_valid(&self) -> (r: bool)
        ensures
            r == status_is_valid(*self),
    {
        match self {
            UserStatus::Active | UserStatus::Inactive | UserStatus::Pending => true,
            UserStatus::Suspended => false,
        }
    }

    /// The status whose token is `t`, if there is one.
pub open spec fn status_of_token(t: Seq<char>) -> Option<UserStatus> {
    if t == status_token(UserStatus::Active) {
        Some(UserStatus::Active)
    } else if t == status_token(UserStatus::Inactive) {
        Some(UserStatus::Inactive)
    } else if t == status_token(UserStatus::Pending) {
        Some(UserStatus::Pending)
    } else if t == status_token(UserStatus::Suspended) {
        Some(UserStatus::Suspended)
    } else {
        None
    }
}

/// The capitalised name of the status ("Active", ...).
    pub fn label(&self) -> (r: String)
        ensures
            r@ == status_label(*self),
    {
        proof {
            reveal_strlit("Active");
            reveal_strlit("Inactive");
            reveal_strlit("Pending");
            reveal_strlit("Suspended");
        }
        match self {
            UserStatus::Active => String::from_str("Active"),
            UserStatus::Inactive => String::from_str("Inactive"),
            UserStatus::Pending => String::from_str("Pending"),
            UserStatus::Suspended => String::from_str("Suspended"),
        }
    }

    /// The lowercase token of the status ("active", ...).
    pub fn token(&self) -> (r: String)
        ensures
            r@ == status_token(*self),
    {
        proof {
            reveal_strlit("active");
            reveal_strlit("inactive");
            reveal_strlit("pending");
            reveal_strlit("suspended");
        }
        match self {
            UserStatus::Active => String::from_str("active"),
            UserStatus::Inactive => String::from_str("inactive"),
            UserStatus::Pending => String::from_str("pending"),
            UserStatus::Suspended => String::from_str("suspended"),
        }
    }

    /// The status whose lowercase token is `t`, if any.
    pub fn from_token(t: &str) -> (r: Option<UserStatus>)
        ensures
            r == status_of_token(t@),
    {
        let active = String::from_str("active");
        let inactive = String::from_str("inactive");
        let pending = String::from_str("pending");
        let suspended = String::from_str("suspended");
        let given = String::from_str(t);
        proof {
            reveal_strlit("active");
            reveal_strlit("inactive");
            reveal_strlit("pending");
            reveal_strlit("suspended");
            assert(active@ =~= status_token(UserStatus::Active));
            assert(inactive@ =~= status_token(UserStatus::Inactive));
            assert(pending@ =~= status_token(UserStatus::Pending));
            assert(suspended@ =~= status_token(UserStatus::Suspended));
        }
        if given == active {
            Some(UserStatus::Active)
        } else if given == inactive {
            Some(UserStatus::Inactive)
        } else if given == pending {
            Some(UserStatus::Pending)
        } else if given == suspended {
            Some(UserStatus::Suspended)
        } else {
            None
        }
    }
}

/// Reading back the token of a status gives that status again.
pub proof fn lemma_token_round_trip(s: UserStatus)
    ensures
        status_of_token(status_token(s)) == Some(s),
{
    let a = status_token(UserStatus::Active);
    let i = status_token(UserStatus::Inactive);
    let p = status_token(UserStatus::Pending);
    assert(a.len() != i.len());
    assert(a.len() != p.len() || a[0] != p[0]);
    assert(i.len() != p.len() || i[0] != p[0]);
    assert(a.len() != status_token(UserStatus::Suspended).len() || a[0] != status_token(UserStatus::Suspended)[0]);
    assert(i[0] != status_token(UserStatus::Suspended)[0]);
    assert(p[0] != status_token(UserStatus::Suspended)[0]);
}

} // verus!
