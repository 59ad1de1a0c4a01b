use crate::clock::{days_between, now, Timestamp};
use crate::status::UserStatus;
use crate::user::{ApiResponse, User, UserError, UserView};
use vstd::prelude::*;

verus! {

/// What a fetch does first: answer from the cache, or ask the service at a
/// URL.
pub enum FetchStep {
    Cached(User),
    Request(String),
}

/// What came back from the service for a fetch.
pub enum FetchReply {
    /// The service answered with a status code that is not a success.
    Rejected,
    /// The service answered with a success status and this envelope.
    Delivered(ApiResponse<User>),
}

/// Counts of a collection of users by status, and the days active summed
/// over them.
#[derive(Debug, Clone, Copy)]
pub struct UserStatistics {
    pub total: usize,
    pub active: usize,
    pub inactive: usize,
    pub pending: usize,
    pub suspended: usize,
    pub total_days_active: i128,
}

/// The cached user under `id`, if any.
pub open spec fn lookup(cache: Map<Seq<char>, UserView>, id: Seq<char>) -> Option<UserView> {
    if cache.contains_key(id) {
        Some(cache[id])
    } else {
        None
    }
}

/// The URL at which the user `id` is fetched and updated.
pub open spec fn user_url(base: Seq<char>, id: Seq<char>) -> Seq<char> {
    base + seq!['/', 'u', 's', 'e', 'r', 's', '/'] + id
}

/// The message of a failed envelope: its own, or "Unknown error".
pub open spec fn failure_message(error: Option<String>) -> Seq<char> {
    match error {
        Some(m) => m@,
        None => seq!['U', 'n', 'k', 'n', 'o', 'w', 'n', ' ', 'e', 'r', 'r', 'o', 'r'],
    }
}

/// The cache after `reply` came back for `id`: a delivered user is stored
/// under `id`; anything else leaves the cache as it was.
pub open spec fn cache_after_reply(
    cache: Map<Seq<char>, UserView>,
    id: Seq<char>,
    reply: FetchReply,
) -> Map<Seq<char>, UserView> {
    match reply {
        FetchReply::Delivered(resp) => if resp.success && resp.data is Some {
            cache.insert(id, resp.data->Some_0@)
        } else {
            cache
        },
        FetchReply::Rejected => cache,
    }
}

/// How many users in `users` have status `s`.
pub open spec fn count_with_status(users: Seq<User>, s: UserStatus) -> nat
    decreases users.len(),
{
    if users.len() == 0 {
        0
    } else {
        count_with_status(users.drop_last(), s) + if users.last().status == s {
            1nat
        } else {
            0nat
        }
    }
}

/// The users of `users` with status `s`, in their order.
pub open spec fn users_with_status(users: Seq<User>, s: UserStatus) -> Seq<User>
    decreases users.len(),
{
    if users.len() == 0 {
        Seq::empty()
    } else {
        let prev = users_with_status(users.drop_last(), s);
        if users.last().status == s {
            prev.push(users.last())
        } else {
            prev
        }
    }
}

/// The days active of `users` at the time `at`, summed.
pub open spec fn days_active_sum(users: Seq<User>, at: Timestamp) -> int
    decreases users.len(),
{
    if users.len() == 0 {
        0
    } else {
        days_active_sum(users.drop_last(), at) + days_between(users.last().created_at, at)
    }
}

/// A cache of users by the identifier they were fetched under, and the base
/// URL of the service they come from.
pub struct UserManager {
    entries: Vec<(String, User)>,
    base_url: String,
    cached: Ghost<Map<Seq<char>, UserView>>,
}

impl UserManager {
    /// The cache's contents, by identifier.
    pub closed spec fn cache_view(&self) -> Map<Seq<char>, UserView> {
        self.cached@
    }

    /// The service's base URL.
    pub closed spec fn base_url_view(&self) -> Seq<char> {
        self.base_url@
    }

    /// The entries hold the cache's contents, one entry for each key.
    pub closed spec fn wf(&self) -> bool {
        &&& self.cached@.dom().finite()
        &&& self.cached@.dom().len() == self.entries@.len()
        &&& forall|i: int|
            0 <= i < self.entries@.len() ==> #[trigger] self.cached@.contains_key(
                self.entries@[i].0@,
            ) && self.cached@[self.entries@[i].0@] == self.entries@[i].1@
        &&& forall|k: Seq<char>|
            #[trigger] self.cached@.contains_key(k) ==> exists|i: int|
                0 <= i < self.entries@.len() && self.entries@[i].0@ == k
        &&& forall|i: int, j: int|
            0 <= i < j < self.entries@.len() ==> self.entries@[i].0@ != self.entries@[j].0@
    }

    /// A manager with an empty cache for the service at `base_url`.
    pub fn new(base_url: String) -> (r: UserManager)
        ensures
            r.wf(),
            r.cache_view() == Map::<Seq<char>, UserView>::empty(),
            r.base_url_view() == base_url@,
    {
        UserManager { entries: Vec::new(), base_url, cached: Ghost(Map::empty()) }
    }

    /// The index of the entry under `id`, if there is one.
    fn find(&self, id: &str) -> (r: Option<usize>)
        requires
            self.wf(),
        ensures
            r matches Some(i) ==> i < self.entries@.len() && self.entries@[i as int].0@ == id@,
            r is None <==> !self.cache_view().contains_key(id@),
    {
        let key = String::from_str(id);
        let mut i: usize = 0;
        while i < self.entries.len()
            invariant
                self.wf(),
                key@ == id@,
                i <= self.entries@.len(),
                forall|j: int| 0 <= j < i ==> self.entries@[j].0@ != id@,
            decreases self.entries@.len() - i,
        {
            if self.entries[i].0 == key {
                return Some(i);
            }
            i = i + 1;
        }
        proof {
            if self.cached@.contains_key(id@) {
                let j = choose|j: int| 0 <= j < self.entries@.len() && self.entries@[j].0@ == id@;
                assert(self.entries@[j].0@ != id@);
            }
        }
        None
    }

    /// A copy of the user cached under `id`, if any.
    pub fn cached_user(&self, id: &str) -> (r: Option<User>)
        requires
            self.wf(),
        ensures
            r matches Some(u) ==> lookup(self.cache_view(), id@) == Some(u@),
            r is None ==> lookup(self.cache_view(), id@) is None,
    {
        match self.find(id) {
            Some(i) => Some(self.entries[i].1.duplicate()),
            None => None,
        }
    }

    /// The URL of the user `id` at the service.
    pub fn user_url(&self, id: &str) -> (r: String)
        ensures
            r@ == user_url(self.base_url_view(), id@),
    {
        proof {
            reveal_strlit("/users/");
        }
        let mut r = self.base_url.clone();
        r.append("/users/");
        r.append(id);
        assert(r@ =~= user_url(self.base_url_view(), id@));
        r
    }

    /// The first step of fetching `user_id`: `NotFound` for an empty
    /// identifier, else a copy of the cached user, else the URL to ask.
    pub fn begin_fetch(&self, user_id: &str) -> (r: Result<FetchStep, UserError>)
        requires
            self.wf(),
        ensures
            user_id@.len() == 0 <==> r is Err,
            r matches Err(e) ==> e matches UserError::NotFound { id } && id@ == user_id@,
            r matches Ok(FetchStep::Cached(u)) ==> lookup(self.cache_view(), user_id@) == Some(u@),
            r matches Ok(FetchStep::Request(url)) ==> lookup(self.cache_view(), user_id@) is None
                && url@ == user_url(self.base_url_view(), user_id@),
            user_id@.len() != 0 && lookup(self.cache_view(), user_id@) is Some ==> r matches Ok(
                FetchStep::Cached(_),
            ),
    {
        if user_id.unicode_len() == 0 {
            return Err(UserError::NotFound { id: String::from_str(user_id) });
        }
        match self.cached_user(user_id) {
            Some(u) => Ok(FetchStep::Cached(u)),
            None => Ok(FetchStep::Request(self.user_url(user_id))),
        }
    }

    /// Stores `user` under `key`, replacing what was there.
    fn store(&mut self, key: String, user: User)
        requires
            old(self).wf(),
        ensures
            final(self).wf(),
            final(self).cache_view() == old(self).cache_view().insert(key@, user@),
            final(self).base_url_view() == old(self).base_url_view(),
    {
        let ghost k = key@;
        let ghost v = user@;
        match self.find(key.as_str()) {
            Some(i) => {
                self.entries.set(i, (key, user));
                proof {
                    self.cached@ = self.cached@.insert(k, v);
                    assert(self.cached@.dom() =~= old(self).cached@.dom());
                    assert forall|j: int| 0 <= j < self.entries@.len() implies #[trigger] self.cached@.contains_key(
                        self.entries@[j].0@) && self.cached@[self.entries@[j].0@] == self.entries@[j].1@ by {
                        if j != i {
                            assert(old(self).entries@[j].0@ != k);
                        }
                    }
                    assert forall|kk: Seq<char>| #[trigger]
                        self.cached@.contains_key(kk) implies exists|j: int|
                        0 <= j < self.entries@.len() && self.entries@[j].0@ == kk by {
                        let j = choose|j: int|
                            0 <= j < old(self).entries@.len() && old(self).entries@[j].0@ == kk;
                        assert(self.entries@[j].0@ == kk);
                    }
                }
            },
            None => {
                self.entries.push((key, user));
                proof {
                    let n = old(self).entries@.len() as int;
                    self.cached@ = self.cached@.insert(k, v);
                    assert(!old(self).cached@.dom().contains(k));
                    assert(self.cached@.dom() =~= old(self).cached@.dom().insert(k));
                    assert(self.cached@.dom().len() == old(self).cached@.dom().len() + 1);
                    assert forall|j: int| 0 <= j < self.entries@.len() implies #[trigger] self.cached@.contains_key(
                        self.entries@[j].0@) && self.cached@[self.entries@[j].0@] == self.entries@[j].1@ by {
                        if j != n {
                            assert(old(self).cached@.contains_key(old(self).entries@[j].0@));
                        }
                    }
                    assert forall|kk: Seq<char>| #[trigger]
                        self.cached@.contains_key(kk) implies exists|j: int|
                        0 <= j < self.entries@.len() && self.entries@[j].0@ == kk by {
                        if kk == k {
                            assert(self.entries@[n].0@ == kk);
                        } else {
                            let j = choose|j: int|
                                0 <= j < old(self).entries@.len() && old(self).entries@[j].0@ == kk;
                            assert(self.entries@[j].0@ == kk);
                        }
                    }
                    assert forall|i: int, j: int|
                        0 <= i < j < self.entries@.len() implies self.entries@[i].0@
                        != self.entries@[j].0@ by {
                        if j == n {
                            assert(old(self).cached@.contains_key(old(self).entries@[i].0@));
                        }
                    }
                }
            },
        }
    }

    /// Takes in what the service sent back for `user_id`: a delivered user is
    /// cached under `user_id` and returned; a rejected request or a success
    /// without a user gives no user; a failed envelope gives `ApiError` with
    /// its message, or "Unknown error".
    pub fn complete_fetch(&mut self, user_id: &str, reply: FetchReply) -> (r: Result<
        Option<User>,
        UserError,
    >)
        requires
            old(self).wf(),
        ensures
            final(self).wf(),
            final(self).base_url_view() == old(self).base_url_view(),
            final(self).cache_view() == cache_after_reply(old(self).cache_view(), user_id@, reply),
            match reply {
                FetchReply::Rejected => r matches Ok(None),
                FetchReply::Delivered(resp) => if !resp.success {
                    r matches Err(UserError::ApiError { message }) && message@ == failure_message(
                        resp.error,
                    )
                } else {
                    match resp.data {
                        Some(u) => r matches Ok(Some(v)) && v@ == u@,
                        None => r matches Ok(None),
                    }
                },
            },
    {
        match reply {
            FetchReply::Rejected => Ok(None),
            FetchReply::Delivered(resp) => {
                if resp.success {
                    match resp.data {
                        Some(user) => {
                            let copy = user.duplicate();
                            self.store(String::from_str(user_id), copy);
                            Ok(Some(user))
                        },
                        None => Ok(None),
                    }
                } else {
                    let message = match resp.error {
                        Some(m) => m,
                        None => {
                            proof {
                                reveal_strlit("Unknown error");
                            }
                            let m = String::from_str("Unknown error");
                            assert(m@ =~= failure_message(None));
                            m
                        },
                    };
                    Err(UserError::ApiError { message })
                }
            },
        }
    }

    /// Takes in whether the service accepted an update of `user_id`: on
    /// acceptance the cached copy is dropped, so the next fetch asks again.
    /// Returns whether the update was accepted.
    pub fn complete_update(&mut self, user_id: &str, accepted: bool) -> (r: bool)
        requires
            old(self).wf(),
        ensures
            final(self).wf(),
            final(self).base_url_view() == old(self).base_url_view(),
            r == accepted,
            accepted ==> final(self).cache_view() == old(self).cache_view().remove(user_id@),
            !accepted ==> final(self).cache_view() == old(self).cache_view(),
    {
        if accepted {
            self.evict(user_id);
        }
        accepted
    }

    /// Drops the entry under `id`, if any.
    fn evict(&mut self, id: &str)
        requires
            old(self).wf(),
        ensures
            final(self).wf(),
            final(self).base_url_view() == old(self).base_url_view(),
            final(self).cache_view() == old(self).cache_view().remove(id@),
    {
        match self.find(id) {
            Some(i) => {
                let ghost k = id@;
                let _ = self.entries.remove(i);
                proof {
                    let o = old(self).entries@;
                    self.cached@ = self.cached@.remove(k);
                    assert(self.cached@.dom() =~= old(self).cached@.dom().remove(k));
                    assert forall|j: int| 0 <= j < self.entries@.len() implies #[trigger] self.cached@.contains_key(
                        self.entries@[j].0@) && self.cached@[self.entries@[j].0@] == self.entries@[j].1@ by {
                        if j < i {
                            assert(self.entries@[j] == o[j]);
                            assert(o[j].0@ != k);
                        } else {
                            assert(self.entries@[j] == o[j + 1]);
                            assert(o[j + 1].0@ != k);
                        }
                    }
                    assert forall|kk: Seq<char>| #[trigger]
                        self.cached@.contains_key(kk) implies exists|j: int|
                        0 <= j < self.entries@.len() && self.entries@[j].0@ == kk by {
                        let j = choose|j: int| 0 <= j < o.len() && o[j].0@ == kk;
                        if j < i {
                            assert(self.entries@[j].0@ == kk);
                        } else {
                            assert(j != i);
                            assert(self.entries@[j - 1].0@ == kk);
                        }
                    }
                    assert forall|a: int, b: int|
                        0 <= a < b < self.entries@.len() implies self.entries@[a].0@
                        != self.entries@[b].0@ by {
                        let a2 = if a < i { a } else { a + 1 };
                        let b2 = if b < i { b } else { b + 1 };
                        assert(self.entries@[a] == o[a2]);
                        assert(self.entries@[b] == o[b2]);
                    }
                }
            },
            None => {
                proof {
                    assert(old(self).cached@.remove(id@) =~= old(self).cached@);
                }
            },
        }
    }

    /// Empties the cache and returns how many entries it held.
    pub fn clear_cache(&mut self) -> (r: usize)
        requires
            old(self).wf(),
        ensures
            final(self).wf(),
            final(self).base_url_view() == old(self).base_url_view(),
            r == old(self).cache_view().len(),
            final(self).cache_view() == Map::<Seq<char>, UserView>::empty(),
    {
        let count = self.entries.len();
        self.entries.clear();
        proof {
            self.cached@ = Map::empty();
            assert(self.cached@.dom() =~= Set::empty());
        }
        count
    }

    /// The users of `users` whose status is `status`, in their order.
    pub fn filter_users_by_status(users: &[User], status: UserStatus) -> (r: Vec<&User>)
        ensures
            r@.map_values(|u: &User| *u) == users_with_status(users@, status),
    {
        let mut r: Vec<&User> = Vec::new();
        let mut i: usize = 0;
        while i < users.len()
            invariant
                i <= users@.len(),
                r@.map_values(|u: &User| *u) == users_with_status(users@.subrange(0, i as int), status),
            decreases users@.len() - i,
        {
            assert(users@.subrange(0, i + 1).drop_last() =~= users@.subrange(0, i as int));
            let u = &users[i];
            let ghost before = r@;
            if u.status == status {
                r.push(u);
                assert(r@.map_values(|u: &User| *u) =~= before.map_values(|u: &User| *u).push(*u));
            }
            i = i + 1;
        }
        assert(users@.subrange(0, users@.len() as int) =~= users@);
        r
    }

    /// Counts of `users` by status, with the days active summed at the time
    /// `at`.
    pub fn user_statistics_at(users: &[User], at: Timestamp) -> (r: UserStatistics)
        ensures
            r.total == users@.len(),
            r.active == count_with_status(users@, UserStatus::Active),
            r.inactive == count_with_status(users@, UserStatus::Inactive),
            r.pending == count_with_status(users@, UserStatus::Pending),
            r.suspended == count_with_status(users@, UserStatus::Suspended),
            r.total_days_active == days_active_sum(users@, at),
    {
        let mut active: usize = 0;
        let mut inactive: usize = 0;
        let mut pending: usize = 0;
        let mut suspended: usize = 0;
        let mut days: i128 = 0;
        let mut i: usize = 0;
        while i < users.len()
            invariant
                i <= users@.len(),
                active == count_with_status(users@.subrange(0, i as int), UserStatus::Active),
                inactive == count_with_status(users@.subrange(0, i as int), UserStatus::Inactive),
                pending == count_with_status(users@.subrange(0, i as int), UserStatus::Pending),
                suspended == count_with_status(users@.subrange(0, i as int), UserStatus::Suspended),
                active + inactive + pending + suspended == i,
                days == days_active_sum(users@.subrange(0, i as int), at),
                -(i as int) * 0x8000_0000_0000_0000 <= days <= (i as int) * 0x8000_0000_0000_0000,
            decreases users@.len() - i,
        {
            assert(users@.subrange(0, i + 1).drop_last() =~= users@.subrange(0, i as int));
            let u = &users[i];
            match u.status {
                UserStatus::Active => active = active + 1,
                UserStatus::Inactive => inactive = inactive + 1,
                UserStatus::Pending => pending = pending + 1,
                UserStatus::Suspended => suspended = suspended + 1,
            }
            let d = u.days_active_at(at);
            assert((i as int) * 0x8000_0000_0000_0000 + 0x8000_0000_0000_0000 <= 0x8000_0000_0000_0000_0000_0000_0000_0000) by (nonlinear_arith)
                requires
                    i < 0x1_0000_0000_0000_0000,
            ;
            days = days + d as i128;
            i = i + 1;
        }
        assert(users@.subrange(0, users@.len() as int) =~= users@);
        UserStatistics { total: users.len(), active, inactive, pending, suspended, total_days_active: days }
    }

    /// Counts of `users` by status, with the days active summed now.
    pub fn get_user_statistics(users: &[User]) -> (r: UserStatistics)
        ensures
            r.total == users@.len(),
            r.active == count_with_status(users@, UserStatus::Active),
            r.inactive == count_with_status(users@, UserStatus::Inactive),
            r.pending == count_with_status(users@, UserStatus::Pending),
            r.suspended == count_with_status(users@, UserStatus::Suspended),
            exists|at: Timestamp| r.total_days_active == days_active_sum(users@, at),
    {
        UserManager::user_statistics_at(users, now())
    }
}

/// Over any collection, the counts by status add up to the number of users.
pub proof fn lemma_status_counts_sum_to_total(users: Seq<User>)
    ensures
        count_with_status(users, UserStatus::Active) + count_with_status(users, UserStatus::Inactive)
            + count_with_status(users, UserStatus::Pending) + count_with_status(
            users,
            UserStatus::Suspended,
        ) == users.len(),
    decreases users.len(),
{
    if users.len() > 0 {
        lemma_status_counts_sum_to_total(users.drop_last());
    }
}

/// The statistics of no users count nothing and sum no days, whatever the
/// time.
pub proof fn lemma_empty_statistics(at: Timestamp)
    ensures
        count_with_status(Seq::<User>::empty(), UserStatus::Active) == 0,
        count_with_status(Seq::<User>::empty(), UserStatus::Inactive) == 0,
        count_with_status(Seq::<User>::empty(), UserStatus::Pending) == 0,
        count_with_status(Seq::<User>::empty(), UserStatus::Suspended) == 0,
        days_active_sum(Seq::<User>::empty(), at) == 0,
{
}

/// Once a fetch of `id` has delivered a user, the cache answers for `id`
/// with that user, so a second fetch needs no request.
pub proof fn lemma_delivered_user_is_cached(
    cache: Map<Seq<char>, UserView>,
    id: Seq<char>,
    resp: ApiResponse<User>,
)
    requires
        resp.success,
        resp.data is Some,
    ensures
        lookup(cache_after_reply(cache, id, FetchReply::Delivered(resp)), id) == Some(
            resp.data->Some_0@,
        ),
{
}

/// A cleared cache holds nothing and answers no identifier.
pub proof fn lemma_cleared_cache_misses(id: Seq<char>)
    ensures
        Map::<Seq<char>, UserView>::empty().len() == 0,
        lookup(Map::<Seq<char>, UserView>::empty(), id) is None,
{
    assert(Map::<Seq<char>, UserView>::empty().dom() =~= Set::empty());
}

} // verus!
