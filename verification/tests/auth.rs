use smart_guard::auth::{Authenticator, EntryResult, MAX_ATTEMPTS, PASSWORD_LEN};

fn with_password(password: [char; 4]) -> Authenticator {
    let mut auth = Authenticator::new();
    assert!(auth.set_password(password));
    auth
}

fn submit_all(auth: &mut Authenticator, symbols: &str) -> Vec<EntryResult> {
    symbols.chars().map(|c| auth.submit(c)).collect()
}

#[test]
fn limits_have_their_documented_values() {
    assert_eq!(PASSWORD_LEN, 4);
    assert_eq!(MAX_ATTEMPTS, 3);
}

#[test]
fn new_authenticator_is_empty() {
    let auth = Authenticator::new();
    assert!(!auth.has_password());
    assert!(!auth.is_locked());
    assert_eq!(auth.attempts(), 0);
    assert_eq!(auth.entry_len(), 0);
}

#[test]
fn password_is_set_once() {
    let mut auth = Authenticator::new();
    assert!(auth.set_password(['1', '2', '3', '4']));
    assert!(auth.has_password());
    assert!(!auth.set_password(['4', '3', '2', '1']));
    assert_eq!(
        submit_all(&mut auth, "1234"),
        vec![
            EntryResult::Pending,
            EntryResult::Pending,
            EntryResult::Pending,
            EntryResult::Correct
        ]
    );
}

#[test]
fn submit_without_password_is_rejected() {
    let mut auth = Authenticator::new();
    assert_eq!(auth.submit('1'), EntryResult::Rejected);
    assert_eq!(auth.entry_len(), 0);
    assert_eq!(auth.attempts(), 0);
}

#[test]
fn correct_entry_yields_correct_on_fourth_symbol() {
    let mut auth = with_password(['1', '2', '3', '4']);
    assert_eq!(auth.submit('1'), EntryResult::Pending);
    assert_eq!(auth.entry_len(), 1);
    assert_eq!(auth.submit('2'), EntryResult::Pending);
    assert_eq!(auth.entry_len(), 2);
    assert_eq!(auth.submit('3'), EntryResult::Pending);
    assert_eq!(auth.entry_len(), 3);
    assert_eq!(auth.submit('4'), EntryResult::Correct);
    assert_eq!(auth.entry_len(), 0);
    assert_eq!(auth.attempts(), 0);
    assert!(!auth.is_locked());
}

#[test]
fn every_password_over_the_alphabet_is_accepted() {
    let alphabet = ['1', '2', '3', '4'];
    for a in alphabet {
        for b in alphabet {
            for c in alphabet {
                for d in alphabet {
                    let mut auth = with_password([a, b, c, d]);
                    assert_eq!(auth.submit(a), EntryResult::Pending);
                    assert_eq!(auth.submit(b), EntryResult::Pending);
                    assert_eq!(auth.submit(c), EntryResult::Pending);
                    assert_eq!(auth.submit(d), EntryResult::Correct);
                    assert_eq!(auth.attempts(), 0);
                }
            }
        }
    }
}

#[test]
fn wrong_entry_yields_incorrect_with_count() {
    let mut auth = with_password(['1', '2', '3', '4']);
    assert_eq!(
        submit_all(&mut auth, "1243"),
        vec![
            EntryResult::Pending,
            EntryResult::Pending,
            EntryResult::Pending,
            EntryResult::Incorrect(1)
        ]
    );
    assert_eq!(auth.entry_len(), 0);
    assert_eq!(auth.attempts(), 1);
    assert_eq!(submit_all(&mut auth, "4234")[3], EntryResult::Incorrect(2));
    assert_eq!(auth.entry_len(), 0);
    assert_eq!(auth.attempts(), 2);
}

#[test]
fn entry_differing_in_one_position_is_incorrect() {
    for position in 0..4 {
        let mut auth = with_password(['1', '1', '1', '1']);
        let mut last = EntryResult::Pending;
        for i in 0..4 {
            last = auth.submit(if i == position { '2' } else { '1' });
        }
        assert_eq!(last, EntryResult::Incorrect(1));
        assert_eq!(auth.entry_len(), 0);
    }
}

#[test]
fn correct_entry_resets_the_counter() {
    let mut auth = with_password(['1', '2', '3', '4']);
    submit_all(&mut auth, "1111");
    submit_all(&mut auth, "2222");
    assert_eq!(auth.attempts(), 2);
    assert_eq!(submit_all(&mut auth, "1234")[3], EntryResult::Correct);
    assert_eq!(auth.attempts(), 0);
    assert_eq!(submit_all(&mut auth, "3333")[3], EntryResult::Incorrect(1));
}

#[test]
fn third_wrong_entry_locks_and_resets_counter() {
    let mut auth = with_password(['1', '2', '3', '4']);
    assert_eq!(submit_all(&mut auth, "1111")[3], EntryResult::Incorrect(1));
    assert_eq!(submit_all(&mut auth, "2222")[3], EntryResult::Incorrect(2));
    assert_eq!(
        submit_all(&mut auth, "3333"),
        vec![
            EntryResult::Pending,
            EntryResult::Pending,
            EntryResult::Pending,
            EntryResult::LockedOut
        ]
    );
    assert!(auth.is_locked());
    assert_eq!(auth.attempts(), 0);
    assert_eq!(auth.entry_len(), 0);
}

#[test]
fn locked_authenticator_ignores_submissions() {
    let mut auth = with_password(['1', '2', '3', '4']);
    submit_all(&mut auth, "1111");
    submit_all(&mut auth, "2222");
    submit_all(&mut auth, "3333");
    assert!(auth.is_locked());
    for symbol in "12341234123".chars() {
        assert_eq!(auth.submit(symbol), EntryResult::Rejected);
        assert_eq!(auth.entry_len(), 0);
        assert_eq!(auth.attempts(), 0);
        assert!(auth.is_locked());
    }
}

#[test]
fn lockout_expiry_resumes_entry() {
    let mut auth = with_password(['1', '2', '3', '4']);
    submit_all(&mut auth, "1111");
    submit_all(&mut auth, "2222");
    submit_all(&mut auth, "3333");
    auth.on_lockout_expired();
    assert!(!auth.is_locked());
    assert_eq!(auth.attempts(), 0);
    assert_eq!(submit_all(&mut auth, "4444")[3], EntryResult::Incorrect(1));
    assert_eq!(submit_all(&mut auth, "1234")[3], EntryResult::Correct);
}

#[test]
fn lockout_expiry_without_lockout_changes_nothing() {
    let mut auth = with_password(['1', '2', '3', '4']);
    submit_all(&mut auth, "1111");
    auth.submit('1');
    auth.on_lockout_expired();
    assert!(!auth.is_locked());
    assert_eq!(auth.attempts(), 1);
    assert_eq!(auth.entry_len(), 1);
}
