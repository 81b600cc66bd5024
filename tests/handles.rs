use porcupine::{Error, HandleTable, LastError, Win32Function};

#[test]
fn weak_fails_after_strong_dropped() {
    let mut t = HandleTable::new();
    let s = t.insert(0x40);
    let w = t.downgrade(&s);
    assert_eq!(t.raw_of_weak(&w), Ok(0x40));
    assert_eq!(t.release(s), Some(0x40));
    assert_eq!(t.raw_of_weak(&w), Err(Error::ExpiredWeakPtr));
    assert_eq!(t.upgrade(&w).unwrap_err(), Error::ExpiredWeakPtr);
}

#[test]
fn weak_upgrades_while_owner_lives() {
    let mut t = HandleTable::new();
    let s = t.insert(7);
    let w = t.downgrade(&s);
    let s2 = t.upgrade(&w).unwrap();
    assert_eq!(t.strong_count(&w), 2);
    assert_eq!(t.raw(&s2), 7);
    assert_eq!(t.release(s), None);
    assert!(t.upgrade(&w).is_ok());
    assert_eq!(t.strong_count(&w), 2);
}

#[test]
fn last_release_hands_back_token_once() {
    let mut t = HandleTable::new();
    let a = t.insert(9);
    let b = t.share(&a);
    assert_eq!(t.release(a), None);
    assert_eq!(t.release(b), Some(9));
    assert_eq!(t.len(), 1);
}

#[test]
fn acquire_reports_null() {
    let mut t = HandleTable::new();
    let last = LastError { code: 8, message: b"Not enough memory.".to_vec() };
    match t.acquire(0, Win32Function::CreatePen, &last) {
        Err(Error::Win32 { code, message, function }) => {
            assert_eq!(code, 8);
            assert_eq!(message, "Not enough memory.");
            assert_eq!(function, Win32Function::CreatePen);
        }
        _ => panic!("expected a native error"),
    }
    assert_eq!(t.len(), 0);
    let s = t.acquire(5, Win32Function::CreatePen, &last).unwrap();
    assert_eq!(t.raw(&s), 5);
}
