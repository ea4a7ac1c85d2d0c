use aesir_cloud::daemon::Daemon;
use aesir_cloud::daemon::PORT_RANGE_END;
use aesir_cloud::daemon::PORT_RANGE_START;
use aesir_cloud::errors::CloudError;

#[test]
fn allocate_returns_lowest_free_candidate() {
    let mut d = Daemon::default();
    assert_eq!(d.allocate_port(), Some(PORT_RANGE_START));
    assert_eq!(d.allocate_port(), Some(PORT_RANGE_START + 1));
}

#[test]
fn allocate_never_returns_a_used_port_and_all_are_distinct() {
    let mut d = Daemon::default();
    let mut seen: Vec<u16> = Vec::new();
    loop {
        match d.allocate_port() {
            Some(p) => {
                assert!(!seen.contains(&p), "port {} handed out twice", p);
                assert!((PORT_RANGE_START..PORT_RANGE_END).contains(&p));
                seen.push(p);
            }
            None => break,
        }
    }
    assert_eq!(seen.len(), (PORT_RANGE_END - PORT_RANGE_START) as usize);
    assert_eq!(d.allocate_port(), None);
    assert_eq!(d.allocate_port(), None);
}

#[test]
fn freed_port_can_be_allocated_again() {
    let mut d = Daemon::default();
    while d.allocate_port().is_some() {}
    assert_eq!(d.allocate_port(), None);
    d.free_port(25575);
    assert_eq!(d.allocate_port(), Some(25575));
    assert_eq!(d.allocate_port(), None);
}

#[test]
fn free_port_is_idempotent() {
    let mut d = Daemon::default();
    assert!(d.claim_port(25571).is_ok());
    assert!(d.claim_port(25572).is_ok());
    d.free_port(25571);
    d.free_port(25571);
    assert_eq!(d.used_ports, vec![25572]);
    assert!(d.claim_port(25571).is_ok());
}

#[test]
fn claim_port_refuses_used_port() {
    let mut d = Daemon::default();
    assert!(d.claim_port(25571).is_ok());
    assert!(matches!(d.claim_port(25571), Err(CloudError::UnavailablePort)));
    assert_eq!(d.used_ports, vec![25571]);
}

#[test]
fn claim_port_refuses_port_outside_candidate_range() {
    let mut d = Daemon::default();
    assert!(matches!(d.claim_port(25569), Err(CloudError::UnavailablePort)));
    assert!(matches!(d.claim_port(25590), Err(CloudError::UnavailablePort)));
    assert!(matches!(d.claim_port(80), Err(CloudError::UnavailablePort)));
    assert!(d.used_ports.is_empty());
}

#[test]
fn two_instances_requesting_the_same_port_never_share_it() {
    let mut d = Daemon::default();
    // Both definitions ask for 25571. The first claim wins.
    assert!(d.claim_port(25571).is_ok());
    // The second claim is refused, so the caller allocates a different port.
    assert!(matches!(d.claim_port(25571), Err(CloudError::UnavailablePort)));
    let other = d.allocate_port().expect("range not exhausted");
    assert_ne!(other, 25571);
}

#[test]
fn allocate_from_skips_lower_candidates_without_using_them() {
    let mut d = Daemon::default();
    assert_eq!(d.allocate_port_from(25575), Some(25575));
    // The skipped-over candidates below stay free.
    assert_eq!(d.allocate_port(), Some(PORT_RANGE_START));
    // A bind-probe retry resumes past the rejected candidate.
    d.free_port(25575);
    assert_eq!(d.allocate_port_from(25576), Some(25576));
}
