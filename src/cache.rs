//! Token trust cache: access-token secret to the identity that introspection
//! vouched for, served while it has not expired.
use crate::keyed::KeyedStore;
use vstd::prelude::*;

verus! {

/// Relies on time's `OffsetDateTime::now_utc` and `unix_timestamp`: the
/// current time, in seconds since the Unix epoch.
#[verifier::external_body]
fn unix_now() -> (r: i64) {
    time::OffsetDateTime::now_utc().unix_timestamp()
}

/// A verified identity, as mathematical values.
pub struct AuthenticatedUserView {
    pub expiry: int,
    pub subject: Seq<char>,
    pub username: Seq<char>,
}

/// A verified identity, trusted until `expiry` (a Unix timestamp, exclusive).
#[derive(Clone, Debug, Hash, PartialEq, Eq)]
pub struct AuthenticatedUser {
    pub expiry: i64,
    pub subject: String,
    pub username: String,
}

impl View for AuthenticatedUser {
    type V = AuthenticatedUserView;

    open spec fn view(&self) -> AuthenticatedUserView {
        AuthenticatedUserView {
            expiry: self.expiry as int,
            subject: self.subject@,
            username: self.username@,
        }
    }
}

/// The views of an optional identity.
pub open spec fn user_view(u: Option<AuthenticatedUser>) -> Option<AuthenticatedUserView> {
    match u {
        Some(u) => Some(u@),
        None => None,
    }
}

impl AuthenticatedUser {
    /// Still trusted at time `now`: validity is strict, so at `now == expiry`
    /// the identity has expired.
    pub open spec fn valid_at(&self, now: int) -> bool {
        now < self.expiry
    }

    pub fn is_valid_at(&self, now: i64) -> (r: bool)
        ensures
            r == self.valid_at(now as int),
    {
        now < self.expiry
    }

    /// Whether the identity is still trusted by the clock of this machine.
    pub fn is_valid(&self) -> (r: bool)
        ensures
            exists|now: i64| r == #[trigger] self.valid_at(now as int),
    {
        self.is_valid_at(unix_now())
    }

    /// A copy of this identity.
    pub fn duplicate(&self) -> (r: AuthenticatedUser)
        ensures
            r@ == self@,
    {
        AuthenticatedUser {
            expiry: self.expiry,
            subject: self.subject.clone(),
            username: self.username.clone(),
        }
    }
}

/// What the provider's introspection endpoint reported of a token.
pub struct IntrospectionReply {
    pub active: bool,
    pub subject: Option<String>,
    pub username: Option<String>,
    pub expiry: Option<i64>,
}

/// The identity that a reply vouches for at time `now`: the token is active,
/// the reply names the subject, the username and an expiry that has not
/// passed yet.
pub open spec fn vouched_user(reply: IntrospectionReply, now: int) -> Option<AuthenticatedUserView> {
    if reply.active && reply.subject is Some && reply.username is Some && reply.expiry is Some
        && now < reply.expiry->Some_0 {
        Some(
            AuthenticatedUserView {
                expiry: reply.expiry->Some_0 as int,
                subject: reply.subject->Some_0@,
                username: reply.username->Some_0@,
            },
        )
    } else {
        None
    }
}

/// What the cache serves for `token` at time `now`: an entry that has not
/// expired.
pub open spec fn cached_user(
    cache: Map<Seq<char>, AuthenticatedUserView>,
    token: Seq<char>,
    now: int,
) -> Option<AuthenticatedUserView> {
    if cache.contains_key(token) && now < cache[token].expiry {
        Some(cache[token])
    } else {
        None
    }
}

/// The cache after an introspection of `token` at time `now` (`None`: the
/// request failed). A vouched identity is stored; any other reply drops the
/// entry; a failed request changes nothing.
pub open spec fn after_introspection(
    cache: Map<Seq<char>, AuthenticatedUserView>,
    token: Seq<char>,
    reply: Option<IntrospectionReply>,
    now: int,
) -> Map<Seq<char>, AuthenticatedUserView> {
    match reply {
        None => cache,
        Some(reply) => match vouched_user(reply, now) {
            Some(u) => cache.insert(token, u),
            None => cache.remove(token),
        },
    }
}

/// The identity returned after an introspection at time `now`.
pub open spec fn introspected_user(reply: Option<IntrospectionReply>, now: int) -> Option<
    AuthenticatedUserView,
> {
    match reply {
        None => None,
        Some(reply) => vouched_user(reply, now),
    }
}

/// Access-token secret to the identity that introspection vouched for.
pub struct TokenCache {
    users: KeyedStore<AuthenticatedUser>,
}

impl View for TokenCache {
    type V = Map<Seq<char>, AuthenticatedUserView>;

    closed spec fn view(&self) -> Map<Seq<char>, AuthenticatedUserView> {
        self.users@.map_values(|u: AuthenticatedUser| u@)
    }
}

impl TokenCache {
    pub closed spec fn wf(&self) -> bool {
        self.users.wf()
    }

    /// An empty cache.
    pub fn new() -> (r: TokenCache)
        ensures
            r.wf(),
            r@ == Map::<Seq<char>, AuthenticatedUserView>::empty(),
    {
        let r = TokenCache { users: KeyedStore::new() };
        assert(r@ =~= Map::<Seq<char>, AuthenticatedUserView>::empty());
        r
    }

    /// The cached identity for `token`, if it is still valid at `now`; `None`
    /// means that the token must be introspected.
    pub fn lookup(&self, token: &str, now: i64) -> (r: Option<AuthenticatedUser>)
        requires
            self.wf(),
        ensures
            user_view(r) == cached_user(self@, token@, now as int),
    {
        match self.users.get(token) {
            Some(u) => {
                if u.is_valid_at(now) {
                    Some(u.duplicate())
                } else {
                    None
                }
            },
            None => None,
        }
    }

    /// The cached identity for `token` if it is still valid by the clock of
    /// this machine, whatever time that reads.
    pub fn lookup_now(&self, token: &str) -> (r: Option<AuthenticatedUser>)
        requires
            self.wf(),
        ensures
            exists|now: int| user_view(r) == #[trigger] cached_user(self@, token@, now),
    {
        let now = unix_now();
        let r = self.lookup(token, now);
        assert(user_view(r) == cached_user(self@, token@, now as int));
        r
    }

    /// `record` at the time that the clock of this machine reads, whatever
    /// that is.
    pub fn record_now(&mut self, token: &str, reply: Option<IntrospectionReply>) -> (r: Option<
        AuthenticatedUser,
    >)
        requires
            old(self).wf(),
        ensures
            final(self).wf(),
            exists|now: i64|
                {
                    &&& final(self)@ == #[trigger] after_introspection(
                        old(self)@,
                        token@,
                        reply,
                        now as int,
                    )
                    &&& user_view(r) == introspected_user(reply, now as int)
                    &&& (r matches Some(u) ==> u.valid_at(now as int))
                },
    {
        let now = unix_now();
        self.record(token, reply, now)
    }

    /// Takes in the outcome of introspecting `token` (`None`: the request
    /// failed), received at time `now`, and returns the identity that it
    /// vouches for. Only a vouched identity that has not expired is cached;
    /// any other reply evicts the token.
    pub fn record(&mut self, token: &str, reply: Option<IntrospectionReply>, now: i64) -> (r:
        Option<AuthenticatedUser>)
        requires
            old(self).wf(),
        ensures
            final(self).wf(),
            final(self)@ == after_introspection(old(self)@, token@, reply, now as int),
            user_view(r) == introspected_user(reply, now as int),
            r matches Some(u) ==> u.valid_at(now as int),
    {
        match reply {
            None => None,
            Some(reply) => {
                if reply.active {
                    match (reply.subject, reply.username, reply.expiry) {
                        (Some(subject), Some(username), Some(expiry)) if now < expiry => {
                            let user = AuthenticatedUser { expiry, subject, username };
                            let copy = user.duplicate();
                            self.users.insert(String::from_str(token), user);
                            assert(self@ =~= old(self)@.insert(token@, copy@));
                            return Some(copy);
                        },
                        _ => {},
                    }
                }
                self.users.remove(token);
                assert(self@ =~= old(self)@.remove(token@));
                None
            },
        }
    }
}

/// Once introspection vouched for an identity, the cache serves that same
/// identity for the token at every time before its expiry, so no second
/// introspection is needed until then.
pub proof fn lemma_vouched_user_is_served(
    cache: Map<Seq<char>, AuthenticatedUserView>,
    token: Seq<char>,
    reply: IntrospectionReply,
    received: int,
    now: int,
)
    requires
        vouched_user(reply, received) is Some,
        now < vouched_user(reply, received)->Some_0.expiry,
    ensures
        cached_user(after_introspection(cache, token, Some(reply), received), token, now)
            == introspected_user(Some(reply), received),
{
}

/// A cached identity is served strictly before its expiry and never from its
/// expiry on.
pub proof fn lemma_expiry_is_exclusive(
    cache: Map<Seq<char>, AuthenticatedUserView>,
    token: Seq<char>,
    now: int,
)
    requires
        cache.contains_key(token),
    ensures
        now >= cache[token].expiry ==> cached_user(cache, token, now) is None,
        now < cache[token].expiry ==> cached_user(cache, token, now) == Some(cache[token]),
        cached_user(cache, token, cache[token].expiry) is None,
{
}

/// A reply that reports the token inactive evicts it: the cache serves
/// nothing for it afterwards, whatever it held before.
pub proof fn lemma_inactive_reply_evicts(
    cache: Map<Seq<char>, AuthenticatedUserView>,
    token: Seq<char>,
    reply: IntrospectionReply,
    received: int,
    now: int,
)
    requires
        !reply.active,
    ensures
        cached_user(after_introspection(cache, token, Some(reply), received), token, now) is None,
        introspected_user(Some(reply), received) is None,
{
}

/// An identity that introspection returns has not expired when it is
/// returned, even where the provider reports an expiry already past.
pub proof fn lemma_introspected_user_is_current(reply: Option<IntrospectionReply>, now: int)
    ensures
        introspected_user(reply, now) matches Some(u) ==> now < u.expiry,
{
}

} // verus!
