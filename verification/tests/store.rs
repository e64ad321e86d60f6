use pylon_emulator::ident::{fresh_token, session_id, to_upper, token_from_text};
use pylon_emulator::session::{Fault, Outcome, Status};
use pylon_emulator::store::SessionStore;
use pylon_emulator::text::{append_decimal, last_digit};

fn is_upper_hex(c: char) -> bool {
    c.is_ascii_digit() || ('A'..='F').contains(&c)
}

#[test]
fn new_store_is_empty() {
    let store = SessionStore::new();
    assert_eq!(store.len(), 0);
    assert!(!store.contains("ver_local_ABCD1234"));
}

#[test]
fn create_files_a_pending_session() {
    let mut store = SessionStore::new();
    let id = store.create(18, "https://rp.example/cb");
    assert_eq!(store.len(), 1);
    assert!(store.contains(&id));
    let session = store.get(&id).unwrap();
    assert_eq!(session.id, id);
    assert_eq!(session.min_age, 18);
    assert_eq!(session.callback_url, "https://rp.example/cb");
    assert_eq!(session.status, Status::Pending);
    assert_eq!(session.verified, None);
}

#[test]
fn create_gives_prefix_and_eight_upper_hex() {
    let mut store = SessionStore::new();
    let id = store.create(21, "http://localhost:3000/hook");
    assert_eq!(id.len(), 18);
    assert!(id.starts_with("ver_local_"));
    assert!(id["ver_local_".len()..].chars().all(is_upper_hex));
}

#[test]
fn create_never_repeats_an_identifier() {
    let mut store = SessionStore::new();
    let mut seen: Vec<String> = Vec::new();
    for _ in 0..300 {
        let id = store.create(18, "https://rp.example/cb");
        assert!(!seen.contains(&id));
        seen.push(id);
    }
    assert_eq!(store.len(), 300);
    for id in &seen {
        assert_eq!(store.get(id).unwrap().status, Status::Pending);
    }
}

#[test]
fn create_accepts_any_threshold_and_address() {
    let mut store = SessionStore::new();
    let low = store.create(0, "");
    let high = store.create(u32::MAX, "x");
    assert_eq!(store.get(&low).unwrap().min_age, 0);
    assert_eq!(store.get(&low).unwrap().callback_url, "");
    assert_eq!(store.get(&high).unwrap().min_age, u32::MAX);
}

#[test]
fn create_with_token_uses_the_token() {
    let mut store = SessionStore::new();
    let id = store.create_with_token("ABCD1234", 18, "https://rp.example/cb");
    assert_eq!(id, "ver_local_ABCD1234");
    let session = store.get("ver_local_ABCD1234").unwrap();
    assert_eq!(session.id, "ver_local_ABCD1234");
    assert_eq!(session.min_age, 18);
    assert_eq!(session.callback_url, "https://rp.example/cb");
}

#[test]
fn create_with_taken_token_widens_the_identifier() {
    let mut store = SessionStore::new();
    let first = store.create_with_token("ABCD1234", 18, "https://a.example");
    let second = store.create_with_token("ABCD1234", 21, "https://b.example");
    let third = store.create_with_token("ABCD1234", 16, "https://c.example");
    assert_eq!(first, "ver_local_ABCD1234");
    assert_eq!(second, "ver_local_ABCD12340");
    assert_eq!(third, "ver_local_ABCD123400");
    assert_eq!(store.len(), 3);
    assert_eq!(store.get(&first).unwrap().min_age, 18);
    assert_eq!(store.get(&second).unwrap().min_age, 21);
    assert_eq!(store.get(&third).unwrap().callback_url, "https://c.example");
}

#[test]
fn create_leaves_other_sessions_alone() {
    let mut store = SessionStore::new();
    let a = store.create_with_token("00000001", 18, "https://a.example");
    store.mark_resolved(&a, Outcome::Decided(true)).unwrap();
    let b = store.create_with_token("00000002", 30, "https://b.example");
    let first = store.get(&a).unwrap();
    assert_eq!(first.status, Status::Completed);
    assert_eq!(first.verified, Some(true));
    assert_eq!(store.get(&b).unwrap().status, Status::Pending);
}

#[test]
fn get_unknown_is_not_found() {
    let mut store = SessionStore::new();
    store.create_with_token("ABCD1234", 18, "https://rp.example/cb");
    assert!(matches!(store.get("ver_local_ABCD1235"), Err(Fault::NotFound)));
    assert!(matches!(store.get(""), Err(Fault::NotFound)));
    assert!(matches!(store.get("ver_local_ABCD123"), Err(Fault::NotFound)));
}

#[test]
fn get_does_not_change_the_store() {
    let mut store = SessionStore::new();
    let id = store.create_with_token("ABCD1234", 18, "https://rp.example/cb");
    let once = store.get(&id).unwrap();
    let twice = store.get(&id).unwrap();
    assert_eq!(once.status, twice.status);
    assert_eq!(once.min_age, twice.min_age);
    assert_eq!(store.len(), 1);
}

#[test]
fn mark_resolved_with_an_answer_completes() {
    let mut store = SessionStore::new();
    let id = store.create_with_token("ABCD1234", 18, "https://rp.example/cb");
    let session = store.mark_resolved(&id, Outcome::Decided(false)).unwrap();
    assert_eq!(session.status, Status::Completed);
    assert_eq!(session.verified, Some(false));
    assert_eq!(session.id, id);
    assert_eq!(session.min_age, 18);
    assert_eq!(session.callback_url, "https://rp.example/cb");
    let stored = store.get(&id).unwrap();
    assert_eq!(stored.status, Status::Completed);
    assert_eq!(stored.verified, Some(false));
}

#[test]
fn mark_resolved_with_a_breakdown_fails() {
    let mut store = SessionStore::new();
    let id = store.create_with_token("ABCD1234", 18, "https://rp.example/cb");
    let session = store.mark_resolved(&id, Outcome::Errored).unwrap();
    assert_eq!(session.status, Status::Failed);
    assert_eq!(session.verified, None);
    assert_eq!(store.get(&id).unwrap().status, Status::Failed);
    assert_eq!(store.get(&id).unwrap().min_age, 18);
}

#[test]
fn mark_resolved_unknown_is_not_found() {
    let mut store = SessionStore::new();
    let id = store.create_with_token("ABCD1234", 18, "https://rp.example/cb");
    assert!(matches!(
        store.mark_resolved("ver_local_FFFFFFFF", Outcome::Decided(true)),
        Err(Fault::NotFound)
    ));
    assert_eq!(store.len(), 1);
    assert_eq!(store.get(&id).unwrap().status, Status::Pending);
}

#[test]
fn mark_resolved_twice_is_refused() {
    let mut store = SessionStore::new();
    let id = store.create_with_token("ABCD1234", 18, "https://rp.example/cb");
    store.mark_resolved(&id, Outcome::Decided(true)).unwrap();
    assert!(matches!(
        store.mark_resolved(&id, Outcome::Decided(false)),
        Err(Fault::AlreadyResolved)
    ));
    assert!(matches!(store.mark_resolved(&id, Outcome::Errored), Err(Fault::AlreadyResolved)));
    let stored = store.get(&id).unwrap();
    assert_eq!(stored.status, Status::Completed);
    assert_eq!(stored.verified, Some(true));
}

#[test]
fn failed_session_stays_failed() {
    let mut store = SessionStore::new();
    let id = store.create_with_token("ABCD1234", 18, "https://rp.example/cb");
    store.mark_resolved(&id, Outcome::Errored).unwrap();
    assert!(matches!(
        store.mark_resolved(&id, Outcome::Decided(true)),
        Err(Fault::AlreadyResolved)
    ));
    assert_eq!(store.get(&id).unwrap().status, Status::Failed);
    assert_eq!(store.get(&id).unwrap().verified, None);
}

#[test]
fn session_copy_and_settle_keep_the_fields() {
    let mut store = SessionStore::new();
    let id = store.create_with_token("ABCD1234", 18, "https://rp.example/cb");
    let session = store.get(&id).unwrap();
    let copy = session.duplicate();
    assert_eq!(copy.id, session.id);
    assert_eq!(copy.status, Status::Pending);
    let done = session.settle(Outcome::Decided(true));
    assert_eq!(done.id, "ver_local_ABCD1234");
    assert_eq!(done.min_age, 18);
    assert_eq!(done.callback_url, "https://rp.example/cb");
    assert_eq!(done.status, Status::Completed);
    assert_eq!(done.verified, Some(true));
    assert_eq!(session.status, Status::Pending);
}

#[test]
fn token_is_cut_from_the_first_eight_characters() {
    assert_eq!(token_from_text("936da01f-9abd-4d9d-80c7-02af85c822a8"), "936DA01F");
    assert_eq!(token_from_text("abcdef0123"), "ABCDEF01");
    assert_eq!(token_from_text("abc"), "ABC");
    assert_eq!(token_from_text(""), "");
    assert_eq!(token_from_text("ABCD1234"), "ABCD1234");
}

#[test]
fn fresh_token_is_eight_upper_hex() {
    for _ in 0..50 {
        let token = fresh_token();
        assert_eq!(token.chars().count(), 8);
        assert!(token.chars().all(is_upper_hex));
    }
}

#[test]
fn fresh_tokens_differ() {
    let a = fresh_token();
    let b = fresh_token();
    let c = fresh_token();
    assert!(a != b || b != c);
}

#[test]
fn upper_case_of_a_character() {
    assert_eq!(to_upper('a'), 'A');
    assert_eq!(to_upper('f'), 'F');
    assert_eq!(to_upper('z'), 'Z');
    assert_eq!(to_upper('A'), 'A');
    assert_eq!(to_upper('7'), '7');
    assert_eq!(to_upper('-'), '-');
    assert_eq!(to_upper('{'), '{');
    assert_eq!(to_upper('`'), '`');
}

#[test]
fn session_id_is_prefix_and_token() {
    assert_eq!(session_id("ABCD1234"), "ver_local_ABCD1234");
    assert_eq!(session_id(""), "ver_local_");
}

#[test]
fn decimal_numerals() {
    let mut s = String::from("n=");
    append_decimal(&mut s, 0);
    assert_eq!(s, "n=0");
    let mut s = String::new();
    append_decimal(&mut s, 18);
    assert_eq!(s, "18");
    let mut s = String::new();
    append_decimal(&mut s, 100);
    assert_eq!(s, "100");
    let mut s = String::from("ageOver");
    append_decimal(&mut s, u32::MAX);
    assert_eq!(s, "ageOver4294967295");
}

#[test]
fn last_digit_of_a_number() {
    assert_eq!(last_digit(0), '0');
    assert_eq!(last_digit(9), '9');
    assert_eq!(last_digit(10), '0');
    assert_eq!(last_digit(4294967295), '5');
}
