use colmena::apply::{check_os, select_local_target, FatalError, NodeInfo};

#[test]
fn os_check_accepts_the_supported_platform() {
    let contents = "NAME=NixOS\nID=nixos\nVERSION=24.05\n";
    assert!(check_os(Some(contents)).is_ok());
}

#[test]
fn os_check_rejects_other_platforms() {
    let contents = "NAME=Debian\nID=debian\n";
    let r = check_os(Some(contents));
    assert_eq!(r, Err(FatalError::UnsupportedOs));
    assert_eq!(r.unwrap_err().exit_code(), 5);
}

#[test]
fn os_check_rejects_unreadable_identity() {
    let r = check_os(None);
    assert_eq!(r, Err(FatalError::UnknownOs));
    assert_eq!(r.unwrap_err().exit_code(), 5);
}

fn nodes() -> Vec<NodeInfo> {
    vec![
        NodeInfo { name: String::from("web1"), allows_local_deployment: true },
        NodeInfo { name: String::from("db1"), allows_local_deployment: false },
    ]
}

#[test]
fn target_selection_accepts_an_enabled_host() {
    assert!(select_local_target(&nodes(), "web1").is_ok());
}

#[test]
fn target_selection_rejects_a_disabled_host() {
    let r = select_local_target(&nodes(), "db1");
    assert_eq!(r, Err(FatalError::LocalDeploymentDisabled));
    assert_eq!(r.unwrap_err().exit_code(), 2);
}

#[test]
fn target_selection_rejects_an_unknown_host() {
    let r = select_local_target(&nodes(), "web2");
    assert_eq!(r, Err(FatalError::UnknownHost));
    assert_eq!(r.unwrap_err().exit_code(), 2);
}

#[test]
fn fatal_exit_codes_are_distinct_per_class() {
    assert_eq!(FatalError::UnsupportedOs.exit_code(), 5);
    assert_eq!(FatalError::UnknownOs.exit_code(), 5);
    assert_eq!(FatalError::EscalationFailed.exit_code(), 3);
    assert_eq!(FatalError::UnknownHost.exit_code(), 2);
    assert_eq!(FatalError::LocalDeploymentDisabled.exit_code(), 2);
}
