use colmena::escalate::{
    decide_escalation, escalation_argv, has_marker_flag, marker_flag_str, EscalationDecision,
    PrivilegeLevel,
};

#[test]
fn privileged_process_never_escalates() {
    for sudo in [false, true] {
        for marker in [false, true] {
            assert_eq!(
                decide_escalation(PrivilegeLevel::Elevated, sudo, marker),
                EscalationDecision::AlreadyPrivileged
            );
        }
    }
}

#[test]
fn unprivileged_with_sudo_escalates_once() {
    assert_eq!(
        decide_escalation(PrivilegeLevel::Standard, true, false),
        EscalationDecision::Escalate
    );
}

#[test]
fn unprivileged_with_marker_fails_without_a_child() {
    for sudo in [false, true] {
        assert_eq!(
            decide_escalation(PrivilegeLevel::Standard, sudo, true),
            EscalationDecision::EscalationFailed
        );
    }
}

#[test]
fn unprivileged_without_sudo_proceeds_with_warning() {
    assert_eq!(
        decide_escalation(PrivilegeLevel::Standard, false, false),
        EscalationDecision::ProceedUnprivileged
    );
}

#[test]
fn escalation_argv_appends_marker_under_sudo() {
    let args = vec![String::from("colmena"), String::from("apply-local"), String::from("switch")];
    let v = escalation_argv(&args);
    assert_eq!(
        v,
        vec![
            String::from("sudo"),
            String::from("--"),
            String::from("colmena"),
            String::from("apply-local"),
            String::from("switch"),
            String::from(marker_flag_str()),
        ]
    );
}

#[test]
fn reexec_arguments_carry_the_marker() {
    let args = vec![String::from("colmena"), String::from("apply-local")];
    assert!(!has_marker_flag(&args));
    let child_args = escalation_argv(&args);
    assert!(has_marker_flag(&child_args));
}
