//! The one-time move of plaintext secrets into the vault.
//!
//! Each step takes what the last action on the disk came to and says what to do next. The
//! plaintext file goes only after every secret in it was read back from the vault.

use vstd::prelude::*;

use crate::credentials::error::CredentialsError;
use crate::credentials::secrets::{
    first_text, found, get_secret, held, import_secrets, load_all, pair_texts, secret,
    string_entries, text_of,
};
use crate::table::StrMap;
use crate::text::concat3;
use crate::value::Value;

verus! {

/// The secrets of a plaintext file.
pub struct Loaded {
    pairs: Vec<(String, String)>,
    raw_count: usize,
}

impl Loaded {
    #[verifier::type_invariant]
    spec fn well_formed(self) -> bool {
        self.pairs@.len() <= self.raw_count
    }

    /// The string entries of its secrets table.
    pub closed spec fn secrets(self) -> Seq<(String, String)> {
        self.pairs@
    }

    /// The number of all entries of that table.
    pub closed spec fn total(self) -> nat {
        self.raw_count as nat
    }
}

/// How far a migration has come.
pub enum Stage {
    /// Nothing was done.
    Start,
    /// The lock is being taken.
    Locking,
    /// The plaintext file is being read.
    Reading,
    /// The files of the vault are being looked at.
    Looking(Loaded),
    /// The vault is being read.
    Importing(Loaded),
    /// The vault is being written.
    Writing(Loaded),
    /// The vault is being read back.
    Checking(Loaded),
    /// The migration has ended.
    Done,
}

/// What an action came to.
pub enum Event {
    /// The migration begins.
    Begin {
        /// The vault can be unlocked without asking the user.
        unlock_material: bool,
        /// There is a plaintext file.
        plaintext_exists: bool,
    },
    /// The lock was taken or not.
    Lock(Result<(), CredentialsError>),
    /// The document of the plaintext file. A file that has gone is an empty document.
    Plaintext(Result<StrMap<Value>, CredentialsError>),
    /// The files of the vault.
    VaultFiles {
        /// There is a ciphertext file.
        cipher_exists: bool,
        /// There is a parameter file that can be read.
        params_usable: bool,
    },
    /// The document of the vault. A vault without a ciphertext file is an empty document.
    Vault(Result<StrMap<Value>, CredentialsError>),
    /// The vault was written or not.
    Written(Result<(), CredentialsError>),
    /// The document of the vault after the write.
    ReadBack(Result<StrMap<Value>, CredentialsError>),
}

/// How a migration ended.
pub enum Ending {
    /// There was nothing to move.
    Nothing,
    /// The secrets are in the vault.
    Moved {
        /// The number of secrets.
        count: usize,
        /// The number of other entries in the plaintext secrets table.
        skipped: usize,
        /// The plaintext file goes.
        remove_plaintext: bool,
    },
    /// The migration failed.
    Failed(CredentialsError),
}

/// What to do next.
pub enum Action {
    /// Take the lock.
    TakeLock,
    /// Read the plaintext file.
    ReadPlaintext,
    /// Look at the files of the vault.
    LookAtVault,
    /// Read the vault, after removing its files where `discard` is set.
    ReadVault {
        /// The ciphertext cannot be decrypted by anyone and goes first.
        discard: bool,
    },
    /// Write this document to the vault.
    WriteVault(StrMap<Value>),
    /// Read the vault back.
    ReadVaultBack,
    /// The migration is over.
    Finish(Ending),
}

/// Whether `event` is what `stage` waits for.
pub open spec fn awaits(stage: Stage, event: Event) -> bool {
    match stage {
        Stage::Start => event is Begin,
        Stage::Locking => event is Lock,
        Stage::Reading => event is Plaintext,
        Stage::Looking(_) => event is VaultFiles,
        Stage::Importing(_) => event is Vault,
        Stage::Writing(_) => event is Written,
        Stage::Checking(_) => event is ReadBack,
        Stage::Done => false,
    }
}

/// Whether a document has a secret under each key of `pairs`.
pub open spec fn resolves_all(doc: Map<Seq<char>, Value>, pairs: Seq<(String, String)>) -> bool {
    forall|i: int| 0 <= i < pairs.len() ==> secret(doc, (#[trigger] pairs[i]).0@) is Some
}

/// Whether `after` is `before` with the secrets of `pairs` added that it did not hold.
pub open spec fn is_import(
    after: Map<Seq<char>, Value>,
    before: Map<Seq<char>, Value>,
    pairs: Seq<(String, String)>,
) -> bool {
    &&& forall|k: Seq<char>|
        found(held(before), k) is Some ==> #[trigger] found(held(after), k) == found(held(before), k)
    &&& forall|k: Seq<char>|
        found(held(before), k) is None ==> text_of(#[trigger] found(held(after), k)) == first_text(
            pair_texts(pairs),
            k,
        )
    &&& after.remove("secrets"@) == before.remove("secrets"@)
}

/// Whether `action` ends the migration with the error `e`.
pub open spec fn fails_with(action: Action, e: CredentialsError) -> bool {
    action matches Action::Finish(Ending::Failed(x)) && x == e
}

/// What follows the read-back of the vault: an error for the first key without a secret, else
/// the end, at which the plaintext file goes if all its entries were moved.
pub open spec fn is_checked(
    doc: Map<Seq<char>, Value>,
    loaded: Loaded,
    action: Action,
) -> bool {
    if resolves_all(doc, loaded.secrets()) {
        action matches Action::Finish(Ending::Moved { count, skipped, remove_plaintext }) && count
            == loaded.secrets().len() && skipped == loaded.total() - loaded.secrets().len()
            && remove_plaintext == (loaded.secrets().len() == loaded.total())
    } else {
        exists|i: int| #[trigger] is_first_missing(doc, loaded.secrets(), i) && (action matches
            Action::Finish(Ending::Failed(e)) && e.is_unavailable(
            "vault migration readback missing key '"@ + loaded.secrets()[i].0@ + "'"@,
        ))
    }
}

/// Whether `i` is the first of `pairs` whose key has no secret in `doc`.
pub open spec fn is_first_missing(
    doc: Map<Seq<char>, Value>,
    pairs: Seq<(String, String)>,
    i: int,
) -> bool {
    &&& 0 <= i < pairs.len()
    &&& secret(doc, pairs[i].0@) is None
    &&& forall|j: int| 0 <= j < i ==> secret(doc, (#[trigger] pairs[j]).0@) is Some
}

/// Whether `next` and `action` follow `event` in `stage`.
pub open spec fn is_step(stage: Stage, event: Event, next: Stage, action: Action) -> bool {
    match (stage, event) {
        (Stage::Start, Event::Begin { unlock_material, plaintext_exists }) => if unlock_material
            && plaintext_exists {
            next is Locking && action is TakeLock
        } else {
            next is Done && action == Action::Finish(Ending::Nothing)
        },
        (Stage::Locking, Event::Lock(r)) => match r {
            Ok(_) => next is Reading && action is ReadPlaintext,
            Err(e) => next is Done && fails_with(action, e),
        },
        (Stage::Reading, Event::Plaintext(r)) => match r {
            Err(e) => next is Done && fails_with(action, e),
            Ok(doc) => if string_entries(held(doc@)).len() == 0 {
                next is Done && action == Action::Finish(Ending::Nothing)
            } else {
                &&& next matches Stage::Looking(loaded) && pair_texts(loaded.secrets())
                    == string_entries(held(doc@)) && loaded.total() == held(doc@).len()
                &&& action is LookAtVault
            },
        },
        (Stage::Looking(loaded), Event::VaultFiles { cipher_exists, params_usable }) => {
            &&& next == Stage::Importing(loaded)
            &&& action == Action::ReadVault { discard: cipher_exists && !params_usable }
        },
        (Stage::Importing(loaded), Event::Vault(r)) => match r {
            Err(e) => next is Done && fails_with(action, e),
            Ok(doc) => {
                &&& next == Stage::Writing(loaded)
                &&& action matches Action::WriteVault(after) && is_import(
                    after@,
                    doc@,
                    loaded.secrets(),
                )
            },
        },
        (Stage::Writing(loaded), Event::Written(r)) => match r {
            Err(e) => next is Done && fails_with(action, e),
            Ok(_) => next == Stage::Checking(loaded) && action is ReadVaultBack,
        },
        (Stage::Checking(loaded), Event::ReadBack(r)) => match r {
            Err(e) => next is Done && fails_with(action, e),
            Ok(doc) => next is Done && is_checked(doc@, loaded, action),
        },
        _ => false,
    }
}

fn check(doc: &StrMap<Value>, loaded: Loaded) -> (r: Action)
    ensures
        is_checked(doc@, loaded, r),
{
    proof {
        use_type_invariant(&loaded);
    }
    let mut i: usize = 0;
    while i < loaded.pairs.len()
        invariant
            i <= loaded.pairs@.len(),
            forall|j: int|
                0 <= j < i ==> secret(doc@, (#[trigger] loaded.pairs@[j]).0@) is Some,
        decreases loaded.pairs.len() - i,
    {
        if get_secret(doc, loaded.pairs[i].0.as_str()).is_none() {
            let why = concat3(
                "vault migration readback missing key '",
                loaded.pairs[i].0.as_str(),
                "'",
            );
            assert(is_first_missing(doc@, loaded.pairs@, i as int));
            return Action::Finish(Ending::Failed(CredentialsError::BackendUnavailable(why)));
        }
        i = i + 1;
    }
    let count: usize = loaded.pairs.len();
    Action::Finish(
        Ending::Moved {
            count,
            skipped: loaded.raw_count - count,
            remove_plaintext: count == loaded.raw_count,
        },
    )
}

/// The next stage and what to do in it.
pub fn migrate_plaintext_into_vault(stage: Stage, event: Event) -> (r: (Stage, Action))
    requires
        awaits(stage, event),
    ensures
        is_step(stage, event, r.0, r.1),
{
    match (stage, event) {
        (Stage::Start, Event::Begin { unlock_material, plaintext_exists }) => {
            if unlock_material && plaintext_exists {
                (Stage::Locking, Action::TakeLock)
            } else {
                (Stage::Done, Action::Finish(Ending::Nothing))
            }
        },
        (Stage::Locking, Event::Lock(taken)) => match taken {
            Ok(_) => (Stage::Reading, Action::ReadPlaintext),
            Err(e) => (Stage::Done, Action::Finish(Ending::Failed(e))),
        },
        (Stage::Reading, Event::Plaintext(read)) => match read {
            Err(e) => (Stage::Done, Action::Finish(Ending::Failed(e))),
            Ok(doc) => {
                let (pairs, raw_count) = load_all(&doc);
                proof {
                    assert(pair_texts(pairs@).len() == pairs@.len());
                    lemma_string_entries_bound(held(doc@));
                }
                if pairs.len() == 0 {
                    (Stage::Done, Action::Finish(Ending::Nothing))
                } else {
                    (Stage::Looking(Loaded { pairs, raw_count }), Action::LookAtVault)
                }
            },
        },
        (Stage::Looking(loaded), Event::VaultFiles { cipher_exists, params_usable }) => {
            (
                Stage::Importing(loaded),
                Action::ReadVault { discard: cipher_exists && !params_usable },
            )
        },
        (Stage::Importing(loaded), Event::Vault(read)) => match read {
            Err(e) => (Stage::Done, Action::Finish(Ending::Failed(e))),
            Ok(doc) => {
                let mut after = doc;
                import_secrets(&mut after, &loaded.pairs);
                (Stage::Writing(loaded), Action::WriteVault(after))
            },
        },
        (Stage::Writing(loaded), Event::Written(written)) => match written {
            Err(e) => (Stage::Done, Action::Finish(Ending::Failed(e))),
            Ok(_) => (Stage::Checking(loaded), Action::ReadVaultBack),
        },
        (Stage::Checking(loaded), Event::ReadBack(read)) => match read {
            Err(e) => (Stage::Done, Action::Finish(Ending::Failed(e))),
            Ok(doc) => (Stage::Done, check(&doc, loaded)),
        },
        (_, _) => (Stage::Done, Action::Finish(Ending::Nothing)),
    }
}

/// A step that lets the plaintext file go has just read the vault back and found in it a
/// secret for every entry of the plaintext secrets table.
pub proof fn law_plaintext_goes_only_when_all_moved(
    stage: Stage,
    event: Event,
    next: Stage,
    action: Action,
)
    requires
        awaits(stage, event),
        is_step(stage, event, next, action),
        action matches Action::Finish(Ending::Moved { remove_plaintext, .. }) && remove_plaintext,
    ensures
        stage matches Stage::Checking(loaded) && event matches Event::ReadBack(Ok(doc))
            && resolves_all(doc@, loaded.secrets()) && loaded.secrets().len() == loaded.total(),
{
}

/// Whether the secrets of a plaintext file are fewer than its entries or as many.
proof fn lemma_string_entries_bound(entries: Seq<(String, Value)>)
    ensures
        string_entries(entries).len() <= entries.len(),
    decreases entries.len(),
{
    if entries.len() > 0 {
        lemma_string_entries_bound(entries.drop_last());
    }
}

/// Whether the secrets that a stage carries are no more than the entries they come from.
pub open spec fn counts_right(stage: Stage) -> bool {
    match stage {
        Stage::Looking(loaded)
        | Stage::Importing(loaded)
        | Stage::Writing(loaded)
        | Stage::Checking(loaded) => loaded.secrets().len() <= loaded.total(),
        _ => true,
    }
}

/// Every step keeps the count of secrets within the count of entries.
pub proof fn law_steps_keep_counts(stage: Stage, event: Event, next: Stage, action: Action)
    requires
        counts_right(stage),
        is_step(stage, event, next, action),
    ensures
        counts_right(next),
{
    match (stage, event) {
        (Stage::Reading, Event::Plaintext(Ok(doc))) => {
            lemma_string_entries_bound(held(doc@));
            match next {
                Stage::Looking(loaded) => {
                    assert(pair_texts(loaded.secrets()).len() == loaded.secrets().len());
                },
                _ => {},
            }
        },
        _ => {},
    }
}

/// A vault that holds what an import wrote has a secret for every imported key that it did
/// not hold before.
pub proof fn law_import_resolves(
    after: Map<Seq<char>, Value>,
    before: Map<Seq<char>, Value>,
    pairs: Seq<(String, String)>,
    i: int,
)
    requires
        is_import(after, before, pairs),
        0 <= i < pairs.len(),
        found(held(before), pairs[i].0@) is None,
    ensures
        secret(after, pairs[i].0@) is Some,
{
    let k = pairs[i].0@;
    lemma_first_text(pair_texts(pairs), i);
    assert(pair_texts(pairs)[i].0 == k);
    assert(text_of(found(held(after), k)) is Some);
}

proof fn lemma_first_text(pairs: Seq<(Seq<char>, Seq<char>)>, i: int)
    requires
        0 <= i < pairs.len(),
    ensures
        first_text(pairs, pairs[i].0) is Some,
    decreases pairs.len(),
{
    if i < pairs.len() - 1 {
        assert(pairs.drop_last()[i] == pairs[i]);
        lemma_first_text(pairs.drop_last(), i);
    }
}

} // verus!
