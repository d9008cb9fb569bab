//! The cached secret and its expiry bookkeeping.

use crate::time::{representable, Timestamp, NANOS_PER_SECOND};
use vstd::prelude::*;

verus! {

/// How a source command is run.
#[derive(Debug, Clone, Copy, PartialEq, Eq, Structural)]
pub enum SourceType {
    /// The whole string is one line for `sh -c`.
    Sh,
    /// The string is split on whitespace into a program and its arguments.
    Cmd,
}

/// A cached secret with the metadata that decides when it is fetched again.
#[derive(Debug, Clone)]
pub struct StoredSecret {
    pub value: String,
    pub created_at: Timestamp,
    pub source_command: Option<String>,
    pub source_type: Option<SourceType>,
    pub ttl_seconds: Option<i64>,
    pub expires_at: Option<Timestamp>,
}

/// What a [`StoredSecret`] holds, as mathematical values: text as sequences of
/// characters, instants as nanoseconds since the epoch.
pub struct SecretView {
    pub value: Seq<char>,
    pub created_at: int,
    pub source_command: Option<Seq<char>>,
    pub source_type: Option<SourceType>,
    pub ttl_seconds: Option<i64>,
    pub expires_at: Option<int>,
}

/// The view of an optional string.
pub open spec fn text_view(s: Option<String>) -> Option<Seq<char>> {
    match s {
        Some(s) => Some(s@),
        None => None,
    }
}

/// The view of an optional instant.
pub open spec fn instant_view(t: Option<Timestamp>) -> Option<int> {
    match t {
        Some(t) => Some(t@),
        None => None,
    }
}

/// The instant at which a secret created at `created_at` with the given
/// time-to-live expires: `created_at + ttl` where there is one, none otherwise.
pub open spec fn expiry_of(created_at: int, ttl_seconds: Option<i64>) -> Option<int> {
    match ttl_seconds {
        Some(ttl) => Some(created_at + ttl * NANOS_PER_SECOND),
        None => None,
    }
}

/// Whether the expiry of such a secret is an instant a [`Timestamp`] can hold.
pub open spec fn expiry_representable(created_at: int, ttl_seconds: Option<i64>) -> bool {
    match expiry_of(created_at, ttl_seconds) {
        Some(e) => representable(e),
        None => true,
    }
}

impl SecretView {
    /// The expiry is derived: present exactly when the time-to-live is, and
    /// then equal to `created_at + ttl_seconds`.
    pub open spec fn consistent(self) -> bool {
        self.expires_at == expiry_of(self.created_at, self.ttl_seconds)
    }

    /// Expired at `now`: there is an expiry and `now` is strictly later.
    pub open spec fn expired_at(self, now: int) -> bool {
        match self.expires_at {
            Some(e) => now > e,
            None => false,
        }
    }

    /// This secret with another time-to-live and the expiry derived from it.
    pub open spec fn with_ttl(self, ttl_seconds: Option<i64>) -> SecretView {
        SecretView {
            ttl_seconds,
            expires_at: expiry_of(self.created_at, ttl_seconds),
            ..self
        }
    }

    /// This secret with another source.
    pub open spec fn with_source(self, command: Seq<char>, source_type: SourceType) -> SecretView {
        SecretView { source_command: Some(command), source_type: Some(source_type), ..self }
    }
}

impl View for StoredSecret {
    type V = SecretView;

    open spec fn view(&self) -> SecretView {
        SecretView {
            value: self.value@,
            created_at: self.created_at@,
            source_command: text_view(self.source_command),
            source_type: self.source_type,
            ttl_seconds: self.ttl_seconds,
            expires_at: instant_view(self.expires_at),
        }
    }
}

impl StoredSecret {
    /// Well-formed: the expiry is consistent with creation time and
    /// time-to-live.
    pub open spec fn wf(&self) -> bool {
        self@.consistent()
    }

    /// A secret fetched at `created_at`.
    pub fn new_at(
        value: String,
        source_command: Option<String>,
        source_type: Option<SourceType>,
        ttl_seconds: Option<i64>,
        created_at: Timestamp,
    ) -> (r: StoredSecret)
        requires
            expiry_representable(created_at@, ttl_seconds),
        ensures
            r@ == (SecretView {
                value: value@,
                created_at: created_at@,
                source_command: text_view(source_command),
                source_type,
                ttl_seconds,
                expires_at: expiry_of(created_at@, ttl_seconds),
            }),
            r.wf(),
    {
        let expires_at = match ttl_seconds {
            Some(ttl) => created_at.checked_add_seconds(ttl),
            None => None,
        };
        StoredSecret { value, created_at, source_command, source_type, ttl_seconds, expires_at }
    }

    /// A secret fetched at the instant that the clock gave, where it gave
    /// one. There is a secret exactly where there is an instant and the expiry
    /// that the time-to-live asks for is one that a [`Timestamp`] can hold.
    pub fn new_from(
        value: String,
        source_command: Option<String>,
        source_type: Option<SourceType>,
        ttl_seconds: Option<i64>,
        now: Option<Timestamp>,
    ) -> (r: Option<StoredSecret>)
        ensures
            r is Some <==> (now matches Some(c) && expiry_representable(c@, ttl_seconds)),
            r matches Some(s) ==> {
                &&& s.wf()
                &&& s@ == (SecretView {
                    value: value@,
                    created_at: now.unwrap()@,
                    source_command: text_view(source_command),
                    source_type,
                    ttl_seconds,
                    expires_at: expiry_of(now.unwrap()@, ttl_seconds),
                })
            },
    {
        match now {
            Some(created_at) => {
                if Self::expiry_fits(&created_at, ttl_seconds) {
                    Some(Self::new_at(value, source_command, source_type, ttl_seconds, created_at))
                } else {
                    None
                }
            },
            None => None,
        }
    }

    /// A secret fetched now: [`StoredSecret::new_from`] on what the system
    /// clock gives. `None` where the clock cannot be read as a [`Timestamp`],
    /// or where the expiry that the time-to-live asks for lies outside the
    /// range of [`Timestamp`].
    pub fn new(
        value: String,
        source_command: Option<String>,
        source_type: Option<SourceType>,
        ttl_seconds: Option<i64>,
    ) -> (r: Option<StoredSecret>)
        ensures
            r matches Some(s) ==> {
                &&& s.wf()
                &&& s.created_at.wf()
                &&& expiry_representable(s@.created_at, ttl_seconds)
                &&& s@ == (SecretView {
                    value: value@,
                    created_at: s@.created_at,
                    source_command: text_view(source_command),
                    source_type,
                    ttl_seconds,
                    expires_at: expiry_of(s@.created_at, ttl_seconds),
                })
            },
    {
        Self::new_from(value, source_command, source_type, ttl_seconds, Timestamp::now())
    }

    /// Whether a secret created at `created_at` with this time-to-live has an
    /// expiry that a [`Timestamp`] can hold.
    pub fn expiry_fits(created_at: &Timestamp, ttl_seconds: Option<i64>) -> (r: bool)
        ensures
            r == expiry_representable(created_at@, ttl_seconds),
    {
        match ttl_seconds {
            Some(ttl) => created_at.checked_add_seconds(ttl).is_some(),
            None => true,
        }
    }

    /// Whether the secret is expired at `now`. A secret without expiry never
    /// is; one with an expiry is from the first instant after it.
    pub fn is_expired_at(&self, now: &Timestamp) -> (r: bool)
        ensures
            r == self@.expired_at(now@),
    {
        match &self.expires_at {
            Some(exp) => now.is_after(exp),
            None => false,
        }
    }

    /// Whether the secret is expired by the system clock. A secret without
    /// expiry is not, and the clock is not read for it. `None` where there is
    /// an expiry and the system clock cannot be read as a [`Timestamp`].
    pub fn is_expired(&self) -> (r: Option<bool>)
        ensures
            self.expires_at is None ==> r == Some(false),
            r matches Some(expired) ==> exists|now: int|
                representable(now) && expired == #[trigger] self@.expired_at(now),
    {
        match &self.expires_at {
            Some(exp) => match Timestamp::now() {
                Some(now) => {
                    let expired = now.is_after(exp);
                    proof {
                        assert(representable(now@) && expired == self@.expired_at(now@));
                    }
                    Some(expired)
                },
                None => None,
            },
            None => {
                proof {
                    assert(representable(0) && !self@.expired_at(0));
                }
                Some(false)
            },
        }
    }

    /// Derives the expiry again from creation time and time-to-live. To be
    /// called after either of the two has changed.
    pub fn recalculate_expires_at(&mut self)
        requires
            expiry_representable(old(self)@.created_at, old(self).ttl_seconds),
        ensures
            final(self)@ == old(self)@.with_ttl(old(self).ttl_seconds),
            final(self).wf(),
    {
        self.expires_at = match self.ttl_seconds {
            Some(ttl) => self.created_at.checked_add_seconds(ttl),
            None => None,
        };
    }
}

/// A secret without time-to-live is never expired, however late it is.
pub proof fn lemma_no_ttl_never_expires(s: SecretView, now: int)
    requires
        s.consistent(),
        s.ttl_seconds is None,
    ensures
        !s.expired_at(now),
{
}

/// A secret with time-to-live `t` is not expired at `created_at + t` exactly,
/// and is expired one second later, as at every instant after `created_at + t`.
pub proof fn lemma_expiry_boundary(s: SecretView, t: i64, now: int)
    requires
        s.consistent(),
        s.ttl_seconds == Some(t),
    ensures
        !s.expired_at(s.created_at + t * NANOS_PER_SECOND),
        s.expired_at(s.created_at + (t + 1) * NANOS_PER_SECOND),
        now > s.created_at + t * NANOS_PER_SECOND ==> s.expired_at(now),
        now <= s.created_at + t * NANOS_PER_SECOND ==> !s.expired_at(now),
{
}

} // verus!
