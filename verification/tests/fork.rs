use tweak_core::fork::{
    default_local_endpoint, resolve_chain_id, resolve_fork_material, resolve_rpc_url,
};

#[test]
fn test_default_local_endpoint() {
    assert_eq!(default_local_endpoint(), "http://localhost:8545");
}

#[test]
fn test_resolve_rpc_url_prefers_configured() {
    let url = resolve_rpc_url(Some("https://example.invalid/rpc".to_string()));
    assert_eq!(url, "https://example.invalid/rpc");
}

#[test]
fn test_resolve_rpc_url_falls_back_to_local() {
    assert_eq!(resolve_rpc_url(None), "http://localhost:8545");
}

#[test]
fn test_resolve_chain_id_explicit_wins() {
    assert_eq!(resolve_chain_id(Some(10), Some(1)), Some(10));
    assert_eq!(resolve_chain_id(Some(10), None), Some(10));
}

#[test]
fn test_resolve_chain_id_falls_back_to_remote() {
    assert_eq!(resolve_chain_id(None, Some(1)), Some(1));
    assert_eq!(resolve_chain_id(None, None), None);
}

#[test]
fn test_resolve_fork_material() {
    let (fork, chain) = resolve_fork_material(
        Some("https://example.invalid/rpc".to_string()),
        Some(1_234_567),
        None,
        Some(1),
    );
    assert_eq!(fork.rpc_url, "https://example.invalid/rpc");
    assert_eq!(fork.block_number, Some(1_234_567));
    assert_eq!(chain, Some(1));

    let (fork, chain) = resolve_fork_material(None, None, Some(5), None);
    assert_eq!(fork.rpc_url, "http://localhost:8545");
    assert_eq!(fork.block_number, None);
    assert_eq!(chain, Some(5));
}
