use signatures_bench::model::{DeviceBinding, Keypair};
use signatures_bench::requests::{
    benchmark_credential, issue_request, issue_request_native, present_request, requirements,
    requirements_native, verify_request, DeviceBindingRequirement, DeviceBindingVerification,
    ProofRequirement,
};
use signatures_bench::{___rust_probestack, __rust_probestack, hello, pasta_to};

fn issuer() -> Keypair {
    Keypair { public_key: "pk".to_string(), secret_key: "sk".to_string() }
}

#[test]
fn hello_greets() {
    assert_eq!(hello(), "Hello, World");
}

#[test]
fn exported_symbols_do_nothing() {
    pasta_to();
    __rust_probestack();
    ___rust_probestack();
}

#[test]
fn circuit_requirements() {
    let r = requirements();
    assert_eq!(r.len(), 2);
    match &r[0] {
        ProofRequirement::Required { key } => assert_eq!(key, "https://schema.org/name"),
        _ => panic!("the first requirement discloses the name"),
    }
    match &r[1] {
        ProofRequirement::Circuit { id, private_var, private_key, public_var, public_val } => {
            assert_eq!(id, "https://zkp-ld.org/circuit/ubique/lessThanPublic");
            assert_eq!(private_var, "a");
            assert_eq!(private_key, "https://schema.org/birthDate");
            assert_eq!(public_var, "b");
            assert_eq!(public_val.value, "2001-01-01T00:00:00Z");
            assert_eq!(public_val.datatype, "http://www.w3.org/2001/XMLSchema#dateTime");
        }
        _ => panic!("the second requirement is the birth-date circuit"),
    }
}

#[test]
fn native_requirements() {
    let r = requirements_native();
    assert_eq!(r.len(), 1);
    match &r[0] {
        ProofRequirement::Required { key } => assert_eq!(key, "https://schema.org/name"),
        _ => panic!("the requirement discloses the name"),
    }
}

#[test]
fn device_binding_labels() {
    let d = DeviceBindingRequirement::new(vec![1], vec![2, 3], vec![4]);
    assert_eq!(d.public_key, vec![1]);
    assert_eq!(d.message, vec![2, 3]);
    assert_eq!(d.message_signature, vec![4]);
    assert_eq!(d.comm_key_secp_label, b"secp".to_vec());
    assert_eq!(d.comm_key_tom_label, b"tom".to_vec());
    assert_eq!(d.comm_key_bls_label, b"bls".to_vec());
    assert_eq!(d.bpp_setup_label, b"bpp".to_vec());
    let v = DeviceBindingVerification::new(vec![2, 3]);
    assert_eq!(v.message, vec![2, 3]);
    assert_eq!(v.comm_key_secp_label, b"secp".to_vec());
    assert_eq!(v.comm_key_tom_label, b"tom".to_vec());
    assert_eq!(v.comm_key_bls_label, b"bls".to_vec());
    assert_eq!(v.bpp_setup_label, b"bpp".to_vec());
}

#[test]
fn credentials() {
    let c = benchmark_credential(true);
    assert_eq!(c.name, "John, Doe");
    assert_eq!(c.birth_date.value, "2000-01-01T00:00:00Z");
    assert_eq!(c.birth_date.datatype, "http://www.w3.org/2001/XMLSchema#dateTime");
    assert_eq!(c.dog_name.as_deref(), Some("Ricky"));
    let c = benchmark_credential(false);
    assert_eq!(c.name, "John, Doe");
    assert_eq!(c.dog_name, None);
}

#[test]
fn full_issue_request() {
    let db = DeviceBinding::from_coordinates(&[1, 2, 3], &[4, 5, 6]);
    let q = issue_request(&issuer(), &db);
    assert_eq!(q.credential.dog_name.as_deref(), Some("Ricky"));
    assert_eq!(q.issuer_public_key, "pk");
    assert_eq!(q.issuer_secret_key, "sk");
    assert_eq!(q.issuer_id, "did:example:issuer0");
    assert_eq!(q.issuer_key_id, "did:example:issuer0#key001");
    assert_eq!(q.device_binding, ("AQID".to_string(), "BAUG".to_string()));
}

#[test]
fn native_issue_request() {
    let q = issue_request_native(&issuer(), ("12".to_string(), "34".to_string()));
    assert_eq!(q.credential.dog_name, None);
    assert_eq!(q.credential.name, "John, Doe");
    assert_eq!(q.issuer_id, "did:example:issuer0");
    assert_eq!(q.issuer_key_id, "did:example:issuer0#key001");
    assert_eq!(q.device_binding, ("12".to_string(), "34".to_string()));
}

#[test]
fn prover_and_verifier_agree() {
    let p = present_request(false, vec![9, 9], vec![1, 2], vec![7]);
    let v = verify_request(false, vec![1, 2]);
    assert_eq!(p.requirements.len(), v.requirements.len());
    match (&p.requirements[0], &v.requirements[0]) {
        (ProofRequirement::Required { key: a }, ProofRequirement::Required { key: b }) => {
            assert_eq!(a, b)
        }
        _ => panic!("both disclose the name"),
    }
    assert_eq!(p.issuer_id, v.issuer_id);
    assert_eq!(p.issuer_key_id, v.issuer_key_id);
    assert_eq!(p.device_binding.message, v.device_binding.message);
    assert_eq!(p.device_binding.comm_key_secp_label, v.device_binding.comm_key_secp_label);
    assert_eq!(p.device_binding.comm_key_tom_label, v.device_binding.comm_key_tom_label);
    assert_eq!(p.device_binding.comm_key_bls_label, v.device_binding.comm_key_bls_label);
    assert_eq!(p.device_binding.bpp_setup_label, v.device_binding.bpp_setup_label);
    assert_eq!(p.device_binding.public_key, vec![9, 9]);
    assert_eq!(p.device_binding.message_signature, vec![7]);
}

#[test]
fn full_prover_and_verifier_agree() {
    let p = present_request(true, vec![9], vec![5], vec![6]);
    let v = verify_request(true, vec![5]);
    assert_eq!(p.requirements.len(), 2);
    assert_eq!(v.requirements.len(), 2);
    match (&p.requirements[1], &v.requirements[1]) {
        (
            ProofRequirement::Circuit { id: a, private_key: ka, public_val: va, .. },
            ProofRequirement::Circuit { id: b, private_key: kb, public_val: vb, .. },
        ) => {
            assert_eq!(a, b);
            assert_eq!(ka, kb);
            assert_eq!(va.value, vb.value);
            assert_eq!(va.value, "2001-01-01T00:00:00Z");
        }
        _ => panic!("both prove the birth date"),
    }
    assert_eq!(p.device_binding.message, v.device_binding.message);
    assert_eq!(p.issuer_id, v.issuer_id);
}
