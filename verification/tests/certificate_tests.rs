use bridge_bootstrap::certificate::{ensure_identity, CertPlan, CertProbe, CertificateError};
use bridge_bootstrap::identity::{derive_identity, HardwareId};

const HW: HardwareId = HardwareId { octets: [0xaa, 0xbb, 0xcc, 0xdd, 0xee, 0xff] };

const OTHER: HardwareId = HardwareId { octets: [0xaa, 0xbb, 0xcc, 0xdd, 0xee, 0xfe] };

#[test]
fn missing_certificate_is_generated() {
    match ensure_identity("/tmp/c.pem", CertProbe::Missing, HW) {
        Ok(CertPlan::Generate { identity }) => assert_eq!(identity, "aabbccfffeddeeff"),
        other => panic!("unexpected: {:?}", other),
    }
}

#[test]
fn matching_certificate_is_kept() {
    let probe = CertProbe::Present { identity: "aabbccfffeddeeff".to_string() };
    assert!(matches!(ensure_identity("/tmp/c.pem", probe, HW), Ok(CertPlan::Keep)));
}

#[test]
fn stale_certificate_is_replaced() {
    let probe = CertProbe::Present { identity: derive_identity(HW) };
    match ensure_identity("/tmp/c.pem", probe, OTHER) {
        Ok(CertPlan::Generate { identity }) => assert_eq!(identity, "aabbccfffeddeefe"),
        other => panic!("unexpected: {:?}", other),
    }
}

#[test]
fn upper_case_identity_does_not_match() {
    let probe = CertProbe::Present { identity: "AABBCCFFFEDDEEFF".to_string() };
    assert!(matches!(
        ensure_identity("/tmp/c.pem", probe, HW),
        Ok(CertPlan::Generate { .. })
    ));
}

#[test]
fn unusable_certificate_is_an_error_with_path_and_cause() {
    let probe = CertProbe::Unusable { cause: "no PEM block".to_string() };
    match ensure_identity("/etc/bridge/cert.pem", probe, HW) {
        Err(error) => {
            assert_eq!(error.path, "/etc/bridge/cert.pem");
            assert_eq!(error.cause, "no PEM block");
        }
        other => panic!("unexpected: {:?}", other),
    }
}

#[test]
fn second_run_writes_nothing() {
    let first = ensure_identity("/tmp/c.pem", CertProbe::Missing, HW);
    let written = match first {
        Ok(CertPlan::Generate { identity }) => identity,
        other => panic!("unexpected: {:?}", other),
    };
    let second = ensure_identity("/tmp/c.pem", CertProbe::Present { identity: written }, HW);
    assert!(matches!(second, Ok(CertPlan::Keep)));
}

#[test]
fn certificate_error_message_names_path_and_cause() {
    let error = CertificateError { path: "/tmp/c.pem".to_string(), cause: "denied".to_string() };
    assert_eq!(error.message(), "certificate /tmp/c.pem: denied");
}
