use skunk_bat::threats::genetic::{LayerTopologyValidator, LocalLineageVerifier};

#[test]
fn local_lineage_returns_err_no_authority() {
    let verifier = LocalLineageVerifier;
    let result = verifier.is_family("any-peer");
    assert!(result.is_err());
    assert!(result.unwrap_err().message().contains("no lineage authority"));
}

#[test]
fn local_lineage_get_lineage_returns_err() {
    let verifier = LocalLineageVerifier;
    let result = verifier.get_lineage("any-peer");
    assert!(result.is_err());
}

#[test]
fn topology_valid_path() {
    let validator = LayerTopologyValidator::new(vec![1, 2, 3]);
    let result = validator.validate_path(&[1, 2, 3]);
    assert!(result.is_valid);
    assert!(result.bypassed_layers.is_empty());
    assert_eq!(result.expected_path, vec![1, 2, 3]);
    assert_eq!(result.actual_path, vec![1, 2, 3]);
}

#[test]
fn topology_invalid_path_detects_bypass() {
    let validator = LayerTopologyValidator::new(vec![1, 2, 3, 4]);
    let result = validator.validate_path(&[1, 4]);
    assert!(!result.is_valid);
    assert_eq!(result.bypassed_layers, vec![2, 3]);
}

#[test]
fn topology_empty_actual_path() {
    let validator = LayerTopologyValidator::new(vec![1, 2, 3]);
    let result = validator.validate_path(&[]);
    assert!(!result.is_valid);
    assert_eq!(result.bypassed_layers, vec![1, 2, 3]);
}

#[test]
fn topology_empty_expected_path() {
    let validator = LayerTopologyValidator::new(vec![]);
    let result = validator.validate_path(&[1, 2]);
    assert!(!result.is_valid);
    assert!(result.bypassed_layers.is_empty());
}
