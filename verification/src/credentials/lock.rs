//! The lock file that keeps two migrations of one home apart.

use vstd::prelude::*;

use crate::credentials::error::CredentialsError;
use crate::numbers::{decimal, digits, value_of};
use crate::text::{concat3, lemma_until_is, same_text};

verus! {

/// How often the lock is tried for before it counts as busy.
pub const LOCK_TRIES: u32 = 200;

/// The pause between two tries, in milliseconds.
pub const LOCK_PAUSE_MS: u64 = 50;

/// The name of the lock file.
pub const LOCK_FILE: &'static str = ".credentials.migrate.lock";

/// How a try to create the lock file ended.
pub enum LockTry {
    /// It was created.
    Created,
    /// It is there already. Its age is given in seconds and nanoseconds, where it can be
    /// told.
    Held(Option<(u64, u32)>),
    /// The file could not be created for another reason.
    Failed(CredentialsError),
}

/// What follows a try.
pub enum LockStep {
    /// The lock is held now.
    Acquired,
    /// Remove the abandoned lock file and try again.
    Steal,
    /// Pause and try again.
    Wait,
    /// Give up.
    Fail(CredentialsError),
}

/// Whether a lock file of this age was abandoned: it is older than a minute. An age that
/// cannot be told does not count.
pub open spec fn abandoned(age: Option<(u64, u32)>) -> bool {
    match age {
        Some((secs, nanos)) => secs > 60 || (secs == 60 && nanos > 0),
        None => false,
    }
}

/// Decides [`abandoned`].
pub fn is_stale(age: Option<(u64, u32)>) -> (r: bool)
    ensures
        r == abandoned(age),
{
    match age {
        Some((secs, nanos)) => secs > 60 || (secs == 60 && nanos > 0),
        None => false,
    }
}

/// The tries to get the lock.
pub struct LockTries {
    made: u32,
}

impl LockTries {
    #[verifier::type_invariant]
    spec fn within_limit(self) -> bool {
        self.made <= LOCK_TRIES
    }

    /// The number of tries so far.
    pub closed spec fn count(self) -> nat {
        self.made as nat
    }

    /// No try so far.
    pub fn new() -> (r: Self)
        ensures
            r.count() == 0,
    {
        LockTries { made: 0 }
    }

    /// Whether another try is due.
    pub fn may_try(&self) -> (r: bool)
        ensures
            r == (self.count() < LOCK_TRIES),
            self.count() <= LOCK_TRIES,
    {
        proof {
            use_type_invariant(self);
        }
        self.made < LOCK_TRIES
    }

    /// Counts a try and says what follows it.
    pub fn after(&mut self, outcome: LockTry) -> (r: LockStep)
        requires
            old(self).count() < LOCK_TRIES,
        ensures
            final(self).count() == old(self).count() + 1,
            match outcome {
                LockTry::Created => r is Acquired,
                LockTry::Held(age) => if abandoned(age) {
                    r is Steal
                } else {
                    r is Wait
                },
                LockTry::Failed(e) => r == LockStep::Fail(e),
            },
    {
        self.made = self.made + 1;
        match outcome {
            LockTry::Created => LockStep::Acquired,
            LockTry::Held(age) => if is_stale(age) {
                LockStep::Steal
            } else {
                LockStep::Wait
            },
            LockTry::Failed(e) => LockStep::Fail(e),
        }
    }
}

/// The error for a lock that stayed busy.
pub fn lock_busy() -> (r: CredentialsError)
    ensures
        r.is_unavailable("credentials migration lock is busy; will retry on next open"@),
{
    CredentialsError::BackendUnavailable(
        "credentials migration lock is busy; will retry on next open".to_owned(),
    )
}

/// What the holder of the lock writes into its file: the process and the number of the
/// acquisition in it.
pub open spec fn nonce_of(process: u32, acquisition: u64) -> Seq<char> {
    digits(process as nat, 10) + "-"@ + digits(acquisition as nat, 10)
}

/// What the holder of the lock writes into its file.
pub fn lock_nonce(process: u32, acquisition: u64) -> (r: String)
    ensures
        r@ == nonce_of(process, acquisition),
{
    concat3(decimal(process as u64).as_str(), "-", decimal(acquisition).as_str())
}

/// Whether the lock file, with the content that was read from it, is the holder's own to
/// remove.
pub fn owns_lock(content: Option<&str>, nonce: &str) -> (r: bool)
    ensures
        r == (content matches Some(c) && c@ == nonce@),
{
    match content {
        Some(c) => same_text(c, nonce),
        None => false,
    }
}

proof fn lemma_digits(n: nat)
    ensures
        value_of(digits(n, 10)) == n,
        digits(n, 10).len() > 0,
        forall|i: int| 0 <= i < digits(n, 10).len() ==> (#[trigger] digits(n, 10)[i]) != '-',
    decreases n,
{
    let s = digits(n, 10);
    if n < 10 {
        assert(s.drop_last() =~= Seq::empty());
        assert(value_of(s.drop_last()) == 0);
        assert(s.last() as nat == n + 48);
    } else {
        lemma_digits(n / 10);
        let front = digits(n / 10, 10);
        assert(s.drop_last() =~= front);
        assert(s.last() as nat == n % 10 + 48);
        assert forall|i: int| 0 <= i < s.len() implies (#[trigger] s[i]) != '-' by {
            if i < front.len() {
                assert(s[i] == front[i]);
            }
        }
    }
}

/// Two acquisitions never write the same into the lock file.
pub proof fn law_nonces_differ(p: u32, a: u64, q: u32, b: u64)
    requires
        nonce_of(p, a) == nonce_of(q, b),
    ensures
        p == q,
        a == b,
{
    reveal_strlit("-");
    lemma_digits(p as nat);
    lemma_digits(q as nat);
    lemma_digits(a as nat);
    lemma_digits(b as nat);
    let s = nonce_of(p, a);
    let x = digits(p as nat, 10);
    let y = digits(q as nat, 10);
    assert forall|i: int| 0 <= i < x.len() implies s[i] != '-' by {
        assert(s[i] == x[i]);
    }
    assert(s[x.len() as int] == '-');
    lemma_until_is(s, '-', x.len() as int);
    assert forall|i: int| 0 <= i < y.len() implies s[i] != '-' by {
        assert(s[i] == y[i]);
    }
    assert(s[y.len() as int] == '-');
    lemma_until_is(s, '-', y.len() as int);
    assert(s.take(x.len() as int) =~= x);
    assert(s.take(y.len() as int) =~= y);
    assert(s.skip(x.len() as int + 1) =~= digits(a as nat, 10));
    assert(s.skip(y.len() as int + 1) =~= digits(b as nat, 10));
}

} // verus!
