use ws_stream_wasm::{FireAction, OnceSignal};

#[test]
fn fresh_guard_has_not_fired() {
    let guard = OnceSignal::new();
    assert!(!guard.has_fired());
}

#[test]
fn first_fire_sends_and_closes() {
    let mut guard = OnceSignal::new();
    assert_eq!(guard.fire(), FireAction::SendAndClose);
    assert!(guard.has_fired());
}

#[test]
fn second_fire_is_inert() {
    let mut guard = OnceSignal::new();
    assert_eq!(guard.fire(), FireAction::SendAndClose);
    assert_eq!(guard.fire(), FireAction::Ignore);
    assert!(guard.has_fired());
}

#[test]
fn many_fires_send_once() {
    for n in 1..20usize {
        let mut guard = OnceSignal::new();
        let mut sends: usize = 0;
        for i in 0..n {
            let a = guard.fire();
            if a == FireAction::SendAndClose {
                assert_eq!(i, 0);
                sends += 1;
            }
        }
        assert_eq!(sends, 1);
    }
}
