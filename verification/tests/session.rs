use music_tool::error::PcaError;
use music_tool::session::SessionStore;
use music_tool::validate_request;

#[test]
fn stored_result_is_returned_unchanged() {
    let mut store: SessionStore<Vec<f64>> = SessionStore::new();
    let waveform = vec![0.0, 0.5, -0.5, 1.0];
    let id = store.store(waveform.clone());
    assert_eq!(store.get(id), Ok(&waveform));
}

#[test]
fn unknown_session_is_not_found() {
    let store: SessionStore<Vec<f64>> = SessionStore::new();
    assert_eq!(store.get(42), Err(PcaError::SessionNotFound));

    let mut store: SessionStore<Vec<f64>> = SessionStore::new();
    let id = store.store(vec![1.0]);
    // Flipping one bit of a known id yields an id the store never issued.
    assert_eq!(store.get(id ^ 1), Err(PcaError::SessionNotFound));
}

#[test]
fn sessions_persist_side_by_side() {
    let mut store: SessionStore<Vec<f64>> = SessionStore::new();
    let first = vec![1.0, 2.0];
    let second = vec![3.0];
    let id_first = store.store(first.clone());
    let id_second = store.store(second.clone());
    assert_ne!(id_first, id_second);
    assert_eq!(store.get(id_first), Ok(&first));
    assert_eq!(store.get(id_second), Ok(&second));
}

#[test]
fn no_store_ever_overwrites_a_session() {
    // Every issued id is fresh, so filing many results keeps them all.
    let mut store: SessionStore<usize> = SessionStore::new();
    let ids: Vec<u128> = (0..100).map(|n| store.store(n)).collect();
    for (n, &id) in ids.iter().enumerate() {
        assert_eq!(store.get(id), Ok(&n));
    }
    for (n, &id) in ids.iter().enumerate() {
        assert!(!ids[n + 1..].contains(&id));
    }
}

#[test]
fn empty_buffer_is_invalid() {
    assert_eq!(validate_request(0, 2048, 512), Err(PcaError::InvalidInput));
}

#[test]
fn zero_window_is_invalid() {
    assert_eq!(validate_request(44100, 0, 512), Err(PcaError::InvalidInput));
}

#[test]
fn zero_hop_is_invalid() {
    assert_eq!(validate_request(44100, 2048, 0), Err(PcaError::InvalidInput));
}

#[test]
fn ordinary_request_is_accepted() {
    assert_eq!(validate_request(44100, 2048, 512), Ok(()));
}

#[test]
fn error_classes_split_client_from_server() {
    assert!(PcaError::InvalidInput.is_client_error());
    assert!(PcaError::SessionNotFound.is_client_error());
    assert!(!PcaError::DecodeFailure(String::from("bad stream")).is_client_error());
    assert!(!PcaError::DecompositionFailure(String::from("no convergence")).is_client_error());
}
