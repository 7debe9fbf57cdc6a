//! Names and errors of the secrets that single services keep in the OS keychain.

use vstd::prelude::*;

use crate::text::{concat, concat3};

verus! {

/// What the service name of every entry begins with.
pub const SERVICE_PREFIX: &'static str = "genesis-core";

/// Why a keychain operation failed.
#[derive(Debug)]
#[non_exhaustive]
pub enum KeychainError {
    /// There is no such secret.
    NotFound {
        /// The service.
        service: String,
        /// The account.
        account: String,
    },
    /// There is no keychain, with the reason.
    NoKeychain(String),
    /// The keychain failed, with the reason.
    Backend(String),
}

impl KeychainError {
    /// What the error says to the user.
    pub open spec fn says(self) -> Seq<char> {
        match self {
            KeychainError::NotFound { service, account } => "secret not found for service="@
                + service@ + " account="@ + account@,
            KeychainError::NoKeychain(why) => "no keychain backend available: "@ + why@,
            KeychainError::Backend(why) => "keychain backend error: "@ + why@,
        }
    }

    /// What the error says to the user.
    pub fn message(&self) -> (r: String)
        ensures
            r@ == self.says(),
    {
        match self {
            KeychainError::NotFound { service, account } => {
                let head = concat3("secret not found for service=", service.as_str(), " account=");
                concat(head.as_str(), account.as_str())
            },
            KeychainError::NoKeychain(why) => concat("no keychain backend available: ", why.as_str()),
            KeychainError::Backend(why) => concat("keychain backend error: ", why.as_str()),
        }
    }
}

/// The service name of the entries of `service`.
pub open spec fn entry_service(service: Seq<char>) -> Seq<char> {
    SERVICE_PREFIX@ + "."@ + service
}

/// The service name of the entries of `service`.
pub fn service_name(service: &str) -> (r: String)
    ensures
        r@ == entry_service(service@),
{
    concat3(SERVICE_PREFIX, ".", service)
}

/// Different services never share an entry.
pub proof fn law_services_are_kept_apart(a: Seq<char>, b: Seq<char>)
    requires
        entry_service(a) == entry_service(b),
    ensures
        a == b,
{
    let n = (SERVICE_PREFIX@ + "."@).len() as int;
    assert(entry_service(a).skip(n) =~= a);
    assert(entry_service(b).skip(n) =~= b);
}

/// How the keychain answered a request.
pub enum KeychainReply<T> {
    /// With this value.
    Value(T),
    /// There is no such entry.
    NoEntry,
    /// The platform refused or has no keychain, with the reason.
    Unreachable(String),
    /// Something else went wrong, with the reason.
    Other(String),
}

/// What reading a secret comes to.
pub fn get_secret(service: &str, account: &str, reply: KeychainReply<String>) -> (r: Result<
    String,
    KeychainError,
>)
    ensures
        match reply {
            KeychainReply::Value(s) => r == Ok::<String, KeychainError>(s),
            KeychainReply::NoEntry => r matches Err(KeychainError::NotFound { service: a, account: b })
                && a@ == service@ && b@ == account@,
            KeychainReply::Unreachable(why) => r matches Err(KeychainError::NoKeychain(w)) && w == why,
            KeychainReply::Other(why) => r matches Err(KeychainError::Backend(w)) && w == why,
        },
{
    match reply {
        KeychainReply::Value(s) => Ok(s),
        KeychainReply::NoEntry => Err(
            KeychainError::NotFound { service: service.to_owned(), account: account.to_owned() },
        ),
        KeychainReply::Unreachable(why) => Err(KeychainError::NoKeychain(why)),
        KeychainReply::Other(why) => Err(KeychainError::Backend(why)),
    }
}

/// What deleting a secret comes to. Deleting what is not there is no failure.
pub fn delete_secret(reply: KeychainReply<()>) -> (r: Result<(), KeychainError>)
    ensures
        match reply {
            KeychainReply::Value(_) | KeychainReply::NoEntry => r is Ok,
            KeychainReply::Unreachable(why) => r matches Err(KeychainError::NoKeychain(w)) && w == why,
            KeychainReply::Other(why) => r matches Err(KeychainError::Backend(w)) && w == why,
        },
{
    match reply {
        KeychainReply::Value(_) => Ok(()),
        KeychainReply::NoEntry => Ok(()),
        KeychainReply::Unreachable(why) => Err(KeychainError::NoKeychain(why)),
        KeychainReply::Other(why) => Err(KeychainError::Backend(why)),
    }
}

/// The text of the keychain's error for a missing entry.
pub const NO_ENTRY: &'static str = "No matching entry found in secure storage";

/// What storing a secret comes to.
pub fn store_secret(reply: KeychainReply<()>) -> (r: Result<(), KeychainError>)
    ensures
        match reply {
            KeychainReply::Value(_) => r is Ok,
            KeychainReply::NoEntry => r matches Err(KeychainError::Backend(w)) && w@ == NO_ENTRY@,
            KeychainReply::Unreachable(why) => r matches Err(KeychainError::NoKeychain(w)) && w == why,
            KeychainReply::Other(why) => r matches Err(KeychainError::Backend(w)) && w == why,
        },
{
    match reply {
        KeychainReply::Value(_) => Ok(()),
        KeychainReply::NoEntry => Err(KeychainError::Backend(NO_ENTRY.to_owned())),
        KeychainReply::Unreachable(why) => Err(KeychainError::NoKeychain(why)),
        KeychainReply::Other(why) => Err(KeychainError::Backend(why)),
    }
}

} // verus!
