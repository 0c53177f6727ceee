use caliber::providers::CircuitState;
use caliber::routing::ProviderRoster;
use caliber::routing::{next_round_robin, select_provider, ProviderCandidate, RoutingError, RoutingStrategy};

fn c(offers: bool, allows: bool, latency: Option<u64>) -> ProviderCandidate {
    ProviderCandidate { offers_capability: offers, circuit_allows: allows, latency_ms: latency }
}

#[test]
fn no_usable_provider_is_an_error() {
    let cs = vec![c(false, true, None), c(true, false, Some(1))];
    assert_eq!(select_provider(&cs, RoutingStrategy::First, 0, 0), Err(RoutingError::ProviderNotConfigured));
    assert_eq!(select_provider(&vec![], RoutingStrategy::RoundRobin, 3, 0), Err(RoutingError::ProviderNotConfigured));
}

#[test]
fn strategies_pick_among_usable_providers() {
    let cs = vec![c(true, true, Some(50)), c(false, true, Some(1)), c(true, true, Some(20)), c(true, true, Some(20)), c(true, false, Some(0))];
    assert_eq!(select_provider(&cs, RoutingStrategy::First, 0, 0), Ok(0));
    assert_eq!(select_provider(&cs, RoutingStrategy::Capability, 0, 0), Ok(0));
    assert_eq!(select_provider(&cs, RoutingStrategy::RoundRobin, 0, 0), Ok(0));
    assert_eq!(select_provider(&cs, RoutingStrategy::RoundRobin, 1, 0), Ok(2));
    assert_eq!(select_provider(&cs, RoutingStrategy::RoundRobin, 5, 0), Ok(3));
    assert_eq!(select_provider(&cs, RoutingStrategy::Random, 0, 7), Ok(2));
    assert_eq!(select_provider(&cs, RoutingStrategy::LeastLatency, 0, 0), Ok(2));
    let unmeasured = vec![c(true, true, None), c(true, true, Some(u64::MAX))];
    assert_eq!(select_provider(&unmeasured, RoutingStrategy::LeastLatency, 0, 0), Ok(0));
    assert_eq!(next_round_robin(u64::MAX), 0);
}

#[test]
fn roster_registers_and_unregisters_providers() {
    let mut roster = ProviderRoster::new();
    assert!(!roster.has_providers());
    roster.register("openai");
    roster.register("ollama");
    roster.register("openai");
    let mut ids = roster.provider_ids();
    ids.sort();
    assert_eq!(ids, vec!["ollama".to_string(), "openai".to_string()]);
    assert!(roster.has_providers());
    for _ in 0..5 {
        roster.record_failure("openai");
    }
    assert!(!roster.is_allowed("openai"));
    assert!(roster.is_allowed("ollama"));
    assert!(roster.is_allowed("unknown"));
    roster.register("openai");
    assert!(roster.is_allowed("openai"));
    roster.record_success("openai");
    roster.unregister("openai");
    roster.unregister("missing");
    assert_eq!(roster.provider_ids(), vec!["ollama".to_string()]);
    let _ = CircuitState::Closed;
}
