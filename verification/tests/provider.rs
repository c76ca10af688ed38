use rustls_rustcrypto::error::{GetRandomFailed, TlsError};
use rustls_rustcrypto::{random_outcome, Provider};

#[test]
fn provider_is_not_fips() {
    assert!(!Provider.fips());
}

#[test]
fn provider_declines_ticketing() {
    match Provider.ticketer() {
        Err(TlsError::General(msg)) => assert_eq!(msg, "Ticketing not supported"),
        _ => panic!("ticketing should be declined"),
    }
}

#[test]
fn provider_fills_buffer_with_random_bytes() {
    let mut a = [0u8; 64];
    let mut b = [0u8; 64];
    assert!(Provider.fill(&mut a).is_ok());
    assert!(Provider.fill(&mut b).is_ok());
    assert_ne!(a, [0u8; 64]);
    assert_ne!(a, b);
}

#[test]
fn provider_fill_of_empty_buffer() {
    let mut a: [u8; 0] = [];
    assert!(Provider.fill(&mut a).is_ok());
}

#[test]
fn random_outcome_maps_success_and_failure() {
    assert_eq!(random_outcome(Ok(())), Ok(()));
    let failure = rand_core::Error::from(
        core::num::NonZeroU32::new(rand_core::Error::CUSTOM_START).unwrap(),
    );
    assert_eq!(random_outcome(Err(failure)), Err(GetRandomFailed));
}
