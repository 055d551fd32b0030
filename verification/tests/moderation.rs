use adda::moderation::suspension::{Suspension, SuspensionAction, SuspensionEvent, SuspensionStep};
use adda::moderation::{
    admin_credentials_match, check_passphrase, g_open_setting, hash_passphrase, suspension_seconds,
    ModerationError,
};

#[test]
fn registered_passphrase_verifies() {
    let hash = hash_passphrase(b"correct horse").unwrap();
    assert!(hash.starts_with("$argon2"));
    assert_eq!(check_passphrase(Some(hash.clone()), b"correct horse"), Ok(true));
    assert_eq!(check_passphrase(Some(hash), b"wrong horse"), Ok(false));
}

#[test]
fn unknown_and_malformed_hashes() {
    assert_eq!(check_passphrase(None, b"anything"), Ok(false));
    assert_eq!(
        check_passphrase(Some("not a phc string".to_string()), b"anything"),
        Err(ModerationError::MalformedStoredHash)
    );
    assert_eq!(ModerationError::HashFailed.message(), "Argon couldn't hash passphrase");
}

#[test]
fn salts_differ() {
    let a = hash_passphrase(b"p").unwrap();
    let b = hash_passphrase(b"p").unwrap();
    assert_ne!(a, b);
}

#[test]
fn admin_and_settings() {
    assert!(admin_credentials_match("1234", "pass", "1234", "pass"));
    assert!(!admin_credentials_match("1234", "pass", "1234", "Pass"));
    assert!(!admin_credentials_match("123", "pass", "1234", "pass"));
    assert!(g_open_setting("true"));
    assert!(!g_open_setting("TRUE"));
    assert!(!g_open_setting(""));
}

#[test]
fn suspension_length() {
    assert_eq!(suspension_seconds(7), 604800);
    assert_eq!(suspension_seconds(0), 0);
}

#[test]
fn suspension_falls_back_to_replies() {
    let mut s = Suspension::new(0x1f, 7);
    assert_eq!(s.decide(), SuspensionStep::Do(SuspensionAction::FindThreadAuthor { post_id: 31 }));
    assert_eq!(
        s.advance(SuspensionEvent::ThreadAuthor(Err(()))),
        SuspensionStep::Do(SuspensionAction::FindReplyAuthor { post_id: 31 })
    );
    assert_eq!(s.advance(SuspensionEvent::ReplyAuthor(Ok(77))), SuspensionStep::Do(SuspensionAction::FindModerator));
    assert_eq!(
        s.advance(SuspensionEvent::Moderator(Ok(5))),
        SuspensionStep::Do(SuspensionAction::RecordSuspension { uid: 77, moderator_id: 5, post_id: 31, seconds: 604800 })
    );
    assert_eq!(s.advance(SuspensionEvent::Recorded(Ok(()))), SuspensionStep::Finish(Ok(())));
}

#[test]
fn suspension_fails_without_author() {
    let mut s = Suspension::new(1, 7);
    s.advance(SuspensionEvent::ThreadAuthor(Err(())));
    assert_eq!(s.advance(SuspensionEvent::ReplyAuthor(Err(()))), SuspensionStep::Finish(Err(())));
}

#[test]
fn hashing_with_a_given_salt() {
    let a = adda::moderation::hash_passphrase_with_salt(b"correct horse", "c2FsdHNhbHRzYWx0").unwrap();
    let b = adda::moderation::hash_passphrase_with_salt(b"correct horse", "c2FsdHNhbHRzYWx0").unwrap();
    assert_eq!(a, b);
    assert!(a.contains("c2FsdHNhbHRzYWx0"));
    assert_eq!(check_passphrase(Some(a), b"correct horse"), Ok(true));
    assert_eq!(
        adda::moderation::hash_passphrase_with_salt(b"correct horse", "!"),
        Err(ModerationError::HashFailed)
    );
}

#[test]
fn sixteen_byte_salts_always_hash() {
    let h = adda::moderation::hash_passphrase_with_salt(b"pass", "AAAAAAAAAAAAAAAAAAAAAw");
    assert!(h.is_ok());
    assert_eq!(check_passphrase(Some(h.unwrap()), b"pass"), Ok(true));
    assert_eq!(
        adda::moderation::hash_passphrase_with_salt(b"pass", "AAAAAAAAAAAAAAAAAAAAAB"),
        Err(ModerationError::HashFailed)
    );
    assert!(hash_passphrase(b"").is_ok());
}
