use wcore_config::keychain::{
    delete_secret, get_secret, service_name, store_secret, KeychainError, KeychainReply, NO_ENTRY,
};

#[test]
fn service_name_prefixed() {
    assert_eq!(service_name("anthropic"), "genesis-core.anthropic");
    assert_eq!(service_name("openai"), "genesis-core.openai");
    assert_eq!(service_name(""), "genesis-core.");
}

#[test]
fn keychain_replies_are_told_apart() {
    let found = get_secret("svc", "acct", KeychainReply::Value("s3".to_string()));
    assert_eq!(found.unwrap(), "s3");
    match get_secret("svc", "acct", KeychainReply::NoEntry) {
        Err(e) => assert_eq!(e.message(), "secret not found for service=svc account=acct"),
        Ok(_) => panic!("nothing was stored"),
    }
    match get_secret("svc", "acct", KeychainReply::Unreachable("no daemon".to_string())) {
        Err(e) => {
            assert!(matches!(e, KeychainError::NoKeychain(_)));
            assert_eq!(e.message(), "no keychain backend available: no daemon");
        }
        Ok(_) => panic!("there is no keychain"),
    }
    match get_secret("svc", "acct", KeychainReply::Other("torn".to_string())) {
        Err(e) => {
            assert!(matches!(e, KeychainError::Backend(_)));
            assert_eq!(e.message(), "keychain backend error: torn");
        }
        Ok(_) => panic!("the backend failed"),
    }
}

#[test]
fn deleting_what_is_not_there_succeeds() {
    assert!(delete_secret(KeychainReply::Value(())).is_ok());
    assert!(delete_secret(KeychainReply::NoEntry).is_ok());
    assert!(delete_secret(KeychainReply::Unreachable("x".to_string())).is_err());
    assert!(delete_secret(KeychainReply::Other("x".to_string())).is_err());
}

#[test]
fn storing_reports_every_failure() {
    assert!(store_secret(KeychainReply::Value(())).is_ok());
    match store_secret(KeychainReply::NoEntry) {
        Err(KeychainError::Backend(why)) => assert_eq!(why, NO_ENTRY),
        other => panic!("got {other:?}"),
    }
    assert!(matches!(
        store_secret(KeychainReply::Unreachable("x".to_string())),
        Err(KeychainError::NoKeychain(_))
    ));
    assert!(matches!(
        store_secret(KeychainReply::Other("x".to_string())),
        Err(KeychainError::Backend(_))
    ));
}
