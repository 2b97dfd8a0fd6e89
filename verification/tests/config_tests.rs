use geobuffer::{resolve_cap, resolve_join, ResolvedCap, ResolvedJoin};

#[test]
fn cap_resolution_defaults_to_round() {
    assert!(matches!(resolve_cap(&None), ResolvedCap::Round(t) if t == "0.2"));
    assert!(matches!(resolve_cap(&Some("mitre".to_string())), ResolvedCap::Round(t) if t == "0.2"));
    assert!(matches!(resolve_cap(&Some("".to_string())), ResolvedCap::Round(t) if t == "0.2"));
    assert!(matches!(resolve_cap(&Some("square".to_string())), ResolvedCap::Square));
    assert!(matches!(resolve_cap(&Some("butt".to_string())), ResolvedCap::Butt));
}

#[test]
fn join_resolution_defaults_and_miter_limit() {
    assert!(matches!(resolve_join(&None, &None), ResolvedJoin::Round(t) if t == "0.2"));
    assert!(matches!(resolve_join(&Some("bevel".to_string()), &None), ResolvedJoin::Bevel));
    assert!(
        matches!(resolve_join(&Some("miter".to_string()), &None), ResolvedJoin::Miter(m) if m == "1.0")
    );
    assert!(
        matches!(resolve_join(&Some("miter".to_string()), &Some("2.5".to_string())), ResolvedJoin::Miter(m) if m == "2.5")
    );
    assert!(
        matches!(resolve_join(&Some("rounded".to_string()), &Some("2.5".to_string())), ResolvedJoin::Round(t) if t == "0.2")
    );
}
