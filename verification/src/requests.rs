//! What the benchmark asks of the credential engine: the credential it issues,
//! the proof requirements, the device-binding parameters, and the issuer it
//! names, gathered into one request per step (issue, present, verify).
use vstd::prelude::*;

use crate::model::{DeviceBinding, Keypair};

verus! {

/// The credential subject's name.
pub const NAME_KEY: &'static str = "https://schema.org/name";

/// The credential subject's birth date.
pub const BIRTH_DATE_KEY: &'static str = "https://schema.org/birthDate";

/// The credential subject's dog, a nested object with a name.
pub const DOG_KEY: &'static str = "https://schema.org/dog";

/// The datatype of date-time literals.
pub const DATE_TIME_TYPE: &'static str = "http://www.w3.org/2001/XMLSchema#dateTime";

/// The circuit that proves a private value less than a public one.
pub const LESS_THAN_PUBLIC_CIRCUIT: &'static str = "https://zkp-ld.org/circuit/ubique/lessThanPublic";

/// The issuer's identifier.
pub const ISSUER_ID: &'static str = "did:example:issuer0";

/// The identifier of the issuer's signing key.
pub const ISSUER_KEY_ID: &'static str = "did:example:issuer0#key001";

/// The subject's name in the benchmark credential.
pub const SUBJECT_NAME: &'static str = "John, Doe";

/// The subject's birth date in the benchmark credential.
pub const SUBJECT_BIRTH_DATE: &'static str = "2000-01-01T00:00:00Z";

/// The name of the subject's dog in the benchmark credential.
pub const SUBJECT_DOG_NAME: &'static str = "Ricky";

/// The public bound that the birth date is proved to lie before.
pub const BIRTH_DATE_BOUND: &'static str = "2001-01-01T00:00:00Z";

/// A literal with a datatype, such as a date-time.
pub struct TypedLiteral {
    pub value: String,
    pub datatype: String,
}

/// What a presentation must show of a credential.
pub enum ProofRequirement {
    /// Disclose the value under `key`.
    Required { key: String },
    /// Prove, with the circuit `id`, a relation between the private value
    /// under `private_key` (bound to `private_var`) and the public value
    /// `public_val` (bound to `public_var`).
    Circuit {
        id: String,
        private_var: String,
        private_key: String,
        public_var: String,
        public_val: TypedLiteral,
    },
}

/// `r` discloses the value under `key`.
pub open spec fn is_disclosure(r: ProofRequirement, key: Seq<char>) -> bool {
    match r {
        ProofRequirement::Required { key: k } => k@ == key,
        _ => false,
    }
}

/// `r` proves, with the less-than-public circuit, that the private value under
/// `private_key`, as `a`, is less than the public literal `value` of type
/// `datatype`, as `b`.
pub open spec fn is_less_than_public(
    r: ProofRequirement,
    private_key: Seq<char>,
    value: Seq<char>,
    datatype: Seq<char>,
) -> bool {
    match r {
        ProofRequirement::Circuit { id, private_var, private_key: k, public_var, public_val } => {
            &&& id@ == LESS_THAN_PUBLIC_CIRCUIT@
            &&& private_var@ == "a"@
            &&& k@ == private_key
            &&& public_var@ == "b"@
            &&& public_val.value@ == value
            &&& public_val.datatype@ == datatype
        },
        _ => false,
    }
}

/// Two requirements ask for the same thing.
pub open spec fn same_requirement(r: ProofRequirement, s: ProofRequirement) -> bool {
    match (r, s) {
        (ProofRequirement::Required { key: k1 }, ProofRequirement::Required { key: k2 }) => k1@
            == k2@,
        (
            ProofRequirement::Circuit {
                id: i1,
                private_var: pv1,
                private_key: pk1,
                public_var: qv1,
                public_val: v1,
            },
            ProofRequirement::Circuit {
                id: i2,
                private_var: pv2,
                private_key: pk2,
                public_var: qv2,
                public_val: v2,
            },
        ) => {
            &&& i1@ == i2@
            &&& pv1@ == pv2@
            &&& pk1@ == pk2@
            &&& qv1@ == qv2@
            &&& v1.value@ == v2.value@
            &&& v1.datatype@ == v2.datatype@
        },
        _ => false,
    }
}

/// `r` is the full list of requirements: disclose the name, and prove the
/// birth date before 2001-01-01.
pub open spec fn are_circuit_requirements(r: Seq<ProofRequirement>) -> bool {
    &&& r.len() == 2
    &&& is_disclosure(r[0], NAME_KEY@)
    &&& is_less_than_public(r[1], BIRTH_DATE_KEY@, BIRTH_DATE_BOUND@, DATE_TIME_TYPE@)
}

/// `r` is the native list of requirements: disclose the name.
pub open spec fn are_native_requirements(r: Seq<ProofRequirement>) -> bool {
    &&& r.len() == 1
    &&& is_disclosure(r[0], NAME_KEY@)
}

/// `r` is the full list when `with_circuit` holds, else the native one.
pub open spec fn are_requirements(r: Seq<ProofRequirement>, with_circuit: bool) -> bool {
    if with_circuit {
        are_circuit_requirements(r)
    } else {
        are_native_requirements(r)
    }
}

/// The full requirements, which the circuits are generated for: disclose the
/// name, and prove the birth date before 2001-01-01.
pub fn requirements() -> (r: Vec<ProofRequirement>)
    ensures
        are_circuit_requirements(r@),
{
    let mut r: Vec<ProofRequirement> = Vec::new();
    r.push(ProofRequirement::Required { key: NAME_KEY.to_owned() });
    r.push(
        ProofRequirement::Circuit {
            id: LESS_THAN_PUBLIC_CIRCUIT.to_owned(),
            private_var: "a".to_owned(),
            private_key: BIRTH_DATE_KEY.to_owned(),
            public_var: "b".to_owned(),
            public_val: TypedLiteral {
                value: BIRTH_DATE_BOUND.to_owned(),
                datatype: DATE_TIME_TYPE.to_owned(),
            },
        },
    );
    r
}

/// The native requirements, which the native presentations are made and
/// verified against: disclose the name.
pub fn requirements_native() -> (r: Vec<ProofRequirement>)
    ensures
        are_native_requirements(r@),
{
    let mut r: Vec<ProofRequirement> = Vec::new();
    r.push(ProofRequirement::Required { key: NAME_KEY.to_owned() });
    r
}

/// The label of the commitment key on the secp256r1 curve.
pub open spec fn secp_label() -> Seq<u8> {
    seq![115u8, 101u8, 99u8, 112u8]
}

/// The label of the commitment key on the Tom-256 curve.
pub open spec fn tom_label() -> Seq<u8> {
    seq![116u8, 111u8, 109u8]
}

/// The label of the commitment key on the BLS12-381 curve.
pub open spec fn bls_label() -> Seq<u8> {
    seq![98u8, 108u8, 115u8]
}

/// The label of the Bulletproofs++ setup.
pub open spec fn bpp_label() -> Seq<u8> {
    seq![98u8, 112u8, 112u8]
}

/// `b"secp"`.
fn secp_label_bytes() -> (v: Vec<u8>)
    ensures
        v@ == secp_label(),
{
    let v: Vec<u8> = vec![115u8, 101u8, 99u8, 112u8];
    assert(v@ =~= secp_label());
    v
}

/// `b"tom"`.
fn tom_label_bytes() -> (v: Vec<u8>)
    ensures
        v@ == tom_label(),
{
    let v: Vec<u8> = vec![116u8, 111u8, 109u8];
    assert(v@ =~= tom_label());
    v
}

/// `b"bls"`.
fn bls_label_bytes() -> (v: Vec<u8>)
    ensures
        v@ == bls_label(),
{
    let v: Vec<u8> = vec![98u8, 108u8, 115u8];
    assert(v@ =~= bls_label());
    v
}

/// `b"bpp"`.
fn bpp_label_bytes() -> (v: Vec<u8>)
    ensures
        v@ == bpp_label(),
{
    let v: Vec<u8> = vec![98u8, 112u8, 112u8];
    assert(v@ =~= bpp_label());
    v
}

/// What the prover needs to show that the credential is bound to the device:
/// the device's public key, a message and the device's signature on it, and
/// the labels of the commitment keys and the proof setup.
pub struct DeviceBindingRequirement {
    pub public_key: Vec<u8>,
    pub message: Vec<u8>,
    pub message_signature: Vec<u8>,
    pub comm_key_secp_label: Vec<u8>,
    pub comm_key_tom_label: Vec<u8>,
    pub comm_key_bls_label: Vec<u8>,
    pub bpp_setup_label: Vec<u8>,
}

/// What the verifier needs to check the device binding: the message, and the
/// same labels as the prover.
pub struct DeviceBindingVerification {
    pub message: Vec<u8>,
    pub comm_key_secp_label: Vec<u8>,
    pub comm_key_tom_label: Vec<u8>,
    pub comm_key_bls_label: Vec<u8>,
    pub bpp_setup_label: Vec<u8>,
}

impl DeviceBindingRequirement {
    /// The device-binding requirement for `public_key`, `message` and its
    /// signature, with the benchmark's labels.
    pub fn new(public_key: Vec<u8>, message: Vec<u8>, message_signature: Vec<u8>) -> (d: Self)
        ensures
            d.public_key@ == public_key@,
            d.message@ == message@,
            d.message_signature@ == message_signature@,
            d.comm_key_secp_label@ == secp_label(),
            d.comm_key_tom_label@ == tom_label(),
            d.comm_key_bls_label@ == bls_label(),
            d.bpp_setup_label@ == bpp_label(),
    {
        DeviceBindingRequirement {
            public_key,
            message,
            message_signature,
            comm_key_secp_label: secp_label_bytes(),
            comm_key_tom_label: tom_label_bytes(),
            comm_key_bls_label: bls_label_bytes(),
            bpp_setup_label: bpp_label_bytes(),
        }
    }
}

impl DeviceBindingVerification {
    /// The device-binding check for `message`, with the benchmark's labels.
    pub fn new(message: Vec<u8>) -> (d: Self)
        ensures
            d.message@ == message@,
            d.comm_key_secp_label@ == secp_label(),
            d.comm_key_tom_label@ == tom_label(),
            d.comm_key_bls_label@ == bls_label(),
            d.bpp_setup_label@ == bpp_label(),
    {
        DeviceBindingVerification {
            message,
            comm_key_secp_label: secp_label_bytes(),
            comm_key_tom_label: tom_label_bytes(),
            comm_key_bls_label: bls_label_bytes(),
            bpp_setup_label: bpp_label_bytes(),
        }
    }
}

/// The credential that the benchmark issues: the subject's name, birth date
/// and, in the full variant, the name of the subject's dog.
pub struct Credential {
    pub name: String,
    pub birth_date: TypedLiteral,
    pub dog_name: Option<String>,
}

/// `c` is the benchmark credential, with the dog when `with_dog` holds.
pub open spec fn is_benchmark_credential(c: Credential, with_dog: bool) -> bool {
    &&& c.name@ == SUBJECT_NAME@
    &&& c.birth_date.value@ == SUBJECT_BIRTH_DATE@
    &&& c.birth_date.datatype@ == DATE_TIME_TYPE@
    &&& if with_dog {
        c.dog_name matches Some(d) && d@ == SUBJECT_DOG_NAME@
    } else {
        c.dog_name is None
    }
}

/// The benchmark credential, with the dog when `with_dog` holds.
pub fn benchmark_credential(with_dog: bool) -> (c: Credential)
    ensures
        is_benchmark_credential(c, with_dog),
{
    Credential {
        name: SUBJECT_NAME.to_owned(),
        birth_date: TypedLiteral {
            value: SUBJECT_BIRTH_DATE.to_owned(),
            datatype: DATE_TIME_TYPE.to_owned(),
        },
        dog_name: if with_dog {
            Some(SUBJECT_DOG_NAME.to_owned())
        } else {
            None
        },
    }
}

/// Everything the issuing step hands to the credential engine, but for its
/// random source.
pub struct IssueRequest {
    pub credential: Credential,
    pub issuer_public_key: String,
    pub issuer_secret_key: String,
    pub issuer_id: String,
    pub issuer_key_id: String,
    /// The device binding embedded in the credential.
    pub device_binding: (String, String),
}

/// `q` issues the benchmark credential (with the dog when `with_dog` holds)
/// under `issuer`'s keys and the benchmark issuer's identifiers, bound to the
/// device by the pair (`x`, `y`).
pub open spec fn is_issue_request(
    q: IssueRequest,
    issuer: Keypair,
    with_dog: bool,
    x: Seq<char>,
    y: Seq<char>,
) -> bool {
    &&& is_benchmark_credential(q.credential, with_dog)
    &&& q.issuer_public_key@ == issuer.public_key@
    &&& q.issuer_secret_key@ == issuer.secret_key@
    &&& q.issuer_id@ == ISSUER_ID@
    &&& q.issuer_key_id@ == ISSUER_KEY_ID@
    &&& q.device_binding.0@ == x
    &&& q.device_binding.1@ == y
}

/// The request of the full issuing step: the credential with the dog, bound
/// by the device key's base64 coordinates.
pub fn issue_request(issuer: &Keypair, device_binding: &DeviceBinding) -> (q: IssueRequest)
    ensures
        is_issue_request(
            q,
            *issuer,
            true,
            device_binding.x_value@,
            device_binding.y_value@,
        ),
{
    IssueRequest {
        credential: benchmark_credential(true),
        issuer_public_key: issuer.public_key.clone(),
        issuer_secret_key: issuer.secret_key.clone(),
        issuer_id: ISSUER_ID.to_owned(),
        issuer_key_id: ISSUER_KEY_ID.to_owned(),
        device_binding: (device_binding.x_value.clone(), device_binding.y_value.clone()),
    }
}

/// The request of the native issuing step: the credential without the dog,
/// bound by the two limbs that the engine derives from the device key.
pub fn issue_request_native(issuer: &Keypair, limbs: (String, String)) -> (q: IssueRequest)
    ensures
        is_issue_request(q, *issuer, false, limbs.0@, limbs.1@),
{
    IssueRequest {
        credential: benchmark_credential(false),
        issuer_public_key: issuer.public_key.clone(),
        issuer_secret_key: issuer.secret_key.clone(),
        issuer_id: ISSUER_ID.to_owned(),
        issuer_key_id: ISSUER_KEY_ID.to_owned(),
        device_binding: limbs,
    }
}

/// Everything the presenting step hands to the credential engine, but for the
/// credential, the proving keys, the issuer's public key and the random source.
pub struct PresentRequest {
    pub requirements: Vec<ProofRequirement>,
    pub device_binding: DeviceBindingRequirement,
    pub issuer_id: String,
    pub issuer_key_id: String,
}

/// `q` presents against the full requirements when `with_circuit` holds, else
/// the native ones, bound to the device by `public_key`, `message` and
/// `message_signature`, for the benchmark issuer.
pub open spec fn is_present_request(
    q: PresentRequest,
    with_circuit: bool,
    public_key: Seq<u8>,
    message: Seq<u8>,
    message_signature: Seq<u8>,
) -> bool {
    &&& are_requirements(q.requirements@, with_circuit)
    &&& q.device_binding.public_key@ == public_key
    &&& q.device_binding.message@ == message
    &&& q.device_binding.message_signature@ == message_signature
    &&& q.device_binding.comm_key_secp_label@ == secp_label()
    &&& q.device_binding.comm_key_tom_label@ == tom_label()
    &&& q.device_binding.comm_key_bls_label@ == bls_label()
    &&& q.device_binding.bpp_setup_label@ == bpp_label()
    &&& q.issuer_id@ == ISSUER_ID@
    &&& q.issuer_key_id@ == ISSUER_KEY_ID@
}

/// The request of a presenting step: against the full requirements (the name
/// and the birth-date circuit) when `with_circuit` holds, else the native ones.
pub fn present_request(
    with_circuit: bool,
    public_key: Vec<u8>,
    message: Vec<u8>,
    message_signature: Vec<u8>,
) -> (q: PresentRequest)
    ensures
        is_present_request(q, with_circuit, public_key@, message@, message_signature@),
{
    PresentRequest {
        requirements: if with_circuit {
            requirements()
        } else {
            requirements_native()
        },
        device_binding: DeviceBindingRequirement::new(public_key, message, message_signature),
        issuer_id: ISSUER_ID.to_owned(),
        issuer_key_id: ISSUER_KEY_ID.to_owned(),
    }
}

/// Everything the verifying step hands to the credential engine, but for the
/// presentation, the verifying keys, the issuer's public key and the random
/// source.
pub struct VerifyRequest {
    pub requirements: Vec<ProofRequirement>,
    pub device_binding: DeviceBindingVerification,
    pub issuer_id: String,
    pub issuer_key_id: String,
}

/// `q` verifies against the full requirements when `with_circuit` holds, else
/// the native ones, bound to the device by `message`, for the benchmark issuer.
pub open spec fn is_verify_request(q: VerifyRequest, with_circuit: bool, message: Seq<u8>) -> bool {
    &&& are_requirements(q.requirements@, with_circuit)
    &&& q.device_binding.message@ == message
    &&& q.device_binding.comm_key_secp_label@ == secp_label()
    &&& q.device_binding.comm_key_tom_label@ == tom_label()
    &&& q.device_binding.comm_key_bls_label@ == bls_label()
    &&& q.device_binding.bpp_setup_label@ == bpp_label()
    &&& q.issuer_id@ == ISSUER_ID@
    &&& q.issuer_key_id@ == ISSUER_KEY_ID@
}

/// The request of a verifying step: against the full requirements when
/// `with_circuit` holds, else the native ones.
pub fn verify_request(with_circuit: bool, message: Vec<u8>) -> (q: VerifyRequest)
    ensures
        is_verify_request(q, with_circuit, message@),
{
    VerifyRequest {
        requirements: if with_circuit {
            requirements()
        } else {
            requirements_native()
        },
        device_binding: DeviceBindingVerification::new(message),
        issuer_id: ISSUER_ID.to_owned(),
        issuer_key_id: ISSUER_KEY_ID.to_owned(),
    }
}

/// For the same choice of requirements, the verifier checks what the prover
/// shows: the same requirements, the same issuer and key identifiers, the same
/// commitment and setup labels, and, for the same message, the same message.
pub proof fn lemma_prover_and_verifier_agree(
    p: PresentRequest,
    v: VerifyRequest,
    with_circuit: bool,
    public_key: Seq<u8>,
    message: Seq<u8>,
    message_signature: Seq<u8>,
)
    requires
        is_present_request(p, with_circuit, public_key, message, message_signature),
        is_verify_request(v, with_circuit, message),
    ensures
        p.requirements@.len() == v.requirements@.len(),
        forall|i: int|
            0 <= i < p.requirements@.len() ==> same_requirement(
                #[trigger] p.requirements@[i],
                v.requirements@[i],
            ),
        p.issuer_id@ == v.issuer_id@,
        p.issuer_key_id@ == v.issuer_key_id@,
        p.device_binding.message@ == v.device_binding.message@,
        p.device_binding.comm_key_secp_label@ == v.device_binding.comm_key_secp_label@,
        p.device_binding.comm_key_tom_label@ == v.device_binding.comm_key_tom_label@,
        p.device_binding.comm_key_bls_label@ == v.device_binding.comm_key_bls_label@,
        p.device_binding.bpp_setup_label@ == v.device_binding.bpp_setup_label@,
{
    assert forall|i: int| 0 <= i < p.requirements@.len() implies same_requirement(
        #[trigger] p.requirements@[i],
        v.requirements@[i],
    ) by {
        assert(i == 0 || (with_circuit && i == 1));
    }
}

/// `a` comes strictly before `b` in character order, as ISO 8601 date-times of
/// the same form do in time: they agree up to some position, where `a` has the
/// smaller character.
pub open spec fn precedes(a: Seq<char>, b: Seq<char>) -> bool {
    exists|i: int|
        0 <= i < a.len() && i < b.len() && #[trigger] a.take(i) == b.take(i) && (a[i] as u32) < (
        b[i] as u32)
}

/// The full requirement list discloses https://schema.org/name and proves,
/// with the less-than-public circuit, the private https://schema.org/birthDate
/// (as `a`) before the public date-time 2001-01-01T00:00:00Z (as `b`); the
/// native list only discloses https://schema.org/name.
pub proof fn lemma_requirement_lists(full: Seq<ProofRequirement>, native: Seq<ProofRequirement>)
    requires
        are_circuit_requirements(full),
        are_native_requirements(native),
    ensures
        full.len() == 2,
        full[0] matches ProofRequirement::Required { key } && key@ == "https://schema.org/name"@,
        full[1] matches ProofRequirement::Circuit {
            id,
            private_var,
            private_key,
            public_var,
            public_val,
        } && id@ == "https://zkp-ld.org/circuit/ubique/lessThanPublic"@ && private_var@ == "a"@
            && private_key@ == "https://schema.org/birthDate"@ && public_var@ == "b"@
            && public_val.value@ == "2001-01-01T00:00:00Z"@ && public_val.datatype@
            == "http://www.w3.org/2001/XMLSchema#dateTime"@,
        native.len() == 1,
        native[0] matches ProofRequirement::Required { key } && key@ == "https://schema.org/name"@,
{
}

/// The requirements that a presentation is made and verified against: with the
/// circuit, disclose https://schema.org/name and prove the birth date before
/// 2001-01-01T00:00:00Z; without it (the native steps), disclose only
/// https://schema.org/name.
pub proof fn lemma_request_requirements(
    p: PresentRequest,
    v: VerifyRequest,
    with_circuit: bool,
    public_key: Seq<u8>,
    message: Seq<u8>,
    message_signature: Seq<u8>,
)
    requires
        is_present_request(p, with_circuit, public_key, message, message_signature),
        is_verify_request(v, with_circuit, message),
    ensures
        p.requirements@.len() == v.requirements@.len(),
        p.requirements@.len() == if with_circuit { 2int } else { 1int },
        p.requirements@[0] matches ProofRequirement::Required { key } && key@
            == "https://schema.org/name"@,
        v.requirements@[0] matches ProofRequirement::Required { key } && key@
            == "https://schema.org/name"@,
        with_circuit ==> (p.requirements@[1] matches ProofRequirement::Circuit {
            private_key,
            public_val,
            ..
        } && private_key@ == "https://schema.org/birthDate"@ && public_val.value@
            == "2001-01-01T00:00:00Z"@),
        with_circuit ==> (v.requirements@[1] matches ProofRequirement::Circuit {
            private_key,
            public_val,
            ..
        } && private_key@ == "https://schema.org/birthDate"@ && public_val.value@
            == "2001-01-01T00:00:00Z"@),
{
}

/// The credential is issued, presented and verified under one issuer and one
/// key: the issuer id did:example:issuer0 and the key id
/// did:example:issuer0#key001, the same in the issue, present and verify
/// requests, with or without the circuit and the dog.
pub proof fn lemma_issuer_identifiers_agree(
    i: IssueRequest,
    issuer: Keypair,
    with_dog: bool,
    x: Seq<char>,
    y: Seq<char>,
    p: PresentRequest,
    with_circuit: bool,
    public_key: Seq<u8>,
    message: Seq<u8>,
    message_signature: Seq<u8>,
    v: VerifyRequest,
    verify_with_circuit: bool,
    verify_message: Seq<u8>,
)
    requires
        is_issue_request(i, issuer, with_dog, x, y),
        is_present_request(p, with_circuit, public_key, message, message_signature),
        is_verify_request(v, verify_with_circuit, verify_message),
    ensures
        i.issuer_id@ == "did:example:issuer0"@,
        i.issuer_key_id@ == "did:example:issuer0#key001"@,
        p.issuer_id@ == i.issuer_id@,
        p.issuer_key_id@ == i.issuer_key_id@,
        v.issuer_id@ == i.issuer_id@,
        v.issuer_key_id@ == i.issuer_key_id@,
{
}

/// The benchmark credential, with or without the dog, is John, Doe, born at
/// 2000-01-01T00:00:00Z (a date-time); the dog, when there is one, is Ricky.
pub proof fn lemma_benchmark_credential(c: Credential, with_dog: bool)
    requires
        is_benchmark_credential(c, with_dog),
    ensures
        c.name@ == "John, Doe"@,
        c.birth_date.value@ == "2000-01-01T00:00:00Z"@,
        c.birth_date.datatype@ == "http://www.w3.org/2001/XMLSchema#dateTime"@,
        with_dog <==> c.dog_name is Some,
        c.dog_name matches Some(d) ==> d@ == "Ricky"@,
{
}

/// Every issued credential meets the circuit requirement: its birth date,
/// 2000-01-01T00:00:00Z, has the circuit's datatype and comes strictly before
/// the circuit's public bound.
pub proof fn lemma_issued_credential_meets_circuit(
    q: IssueRequest,
    issuer: Keypair,
    with_dog: bool,
    x: Seq<char>,
    y: Seq<char>,
    full: Seq<ProofRequirement>,
)
    requires
        is_issue_request(q, issuer, with_dog, x, y),
        are_circuit_requirements(full),
    ensures
        q.credential.birth_date.value@ == "2000-01-01T00:00:00Z"@,
        full[1] matches ProofRequirement::Circuit { private_key, public_val, .. } && private_key@
            == "https://schema.org/birthDate"@ && public_val.datatype@
            == q.credential.birth_date.datatype@ && precedes(
            q.credential.birth_date.value@,
            public_val.value@,
        ),
{
    reveal_strlit("2000-01-01T00:00:00Z");
    reveal_strlit("2001-01-01T00:00:00Z");
    let a = q.credential.birth_date.value@;
    let b = "2001-01-01T00:00:00Z"@;
    assert(a.take(3) =~= b.take(3));
    assert((a[3] as u32) < (b[3] as u32));
}

/// The commitment-key and setup labels are the bytes of the strings `secp`,
/// `tom`, `bls` and `bpp`, and no two of them are equal.
pub proof fn lemma_labels()
    ensures
        secp_label() == vstd::utf8::encode_utf8("secp"@),
        tom_label() == vstd::utf8::encode_utf8("tom"@),
        bls_label() == vstd::utf8::encode_utf8("bls"@),
        bpp_label() == vstd::utf8::encode_utf8("bpp"@),
        secp_label() != tom_label(),
        secp_label() != bls_label(),
        secp_label() != bpp_label(),
        tom_label() != bls_label(),
        tom_label() != bpp_label(),
        bls_label() != bpp_label(),
{
    reveal_strlit("secp");
    reveal_strlit("tom");
    reveal_strlit("bls");
    reveal_strlit("bpp");
    broadcast use vstd::utf8::is_ascii_chars_encode_utf8;
    assert(vstd::utf8::is_ascii_chars("secp"@));
    assert(vstd::utf8::is_ascii_chars("tom"@));
    assert(vstd::utf8::is_ascii_chars("bls"@));
    assert(vstd::utf8::is_ascii_chars("bpp"@));
    assert(secp_label() =~= vstd::utf8::encode_utf8("secp"@));
    assert(tom_label() =~= vstd::utf8::encode_utf8("tom"@));
    assert(bls_label() =~= vstd::utf8::encode_utf8("bls"@));
    assert(bpp_label() =~= vstd::utf8::encode_utf8("bpp"@));
    assert(secp_label().len() != tom_label().len());
    assert(secp_label().len() != bls_label().len());
    assert(secp_label().len() != bpp_label().len());
    assert(tom_label()[0] != bls_label()[0]);
    assert(tom_label()[0] != bpp_label()[0]);
    assert(bls_label()[1] != bpp_label()[1]);
}

/// A present request carries the device's public key, the message and the
/// signature it was made from, each in its own place, and a verify request the
/// message it was made from; both carry the labels `secp`, `tom`, `bls`, `bpp`
/// in that order.
pub proof fn lemma_request_device_binding(
    p: PresentRequest,
    with_circuit: bool,
    public_key: Seq<u8>,
    message: Seq<u8>,
    message_signature: Seq<u8>,
    v: VerifyRequest,
    verify_with_circuit: bool,
    verify_message: Seq<u8>,
)
    requires
        is_present_request(p, with_circuit, public_key, message, message_signature),
        is_verify_request(v, verify_with_circuit, verify_message),
    ensures
        p.device_binding.public_key@ == public_key,
        p.device_binding.message@ == message,
        p.device_binding.message_signature@ == message_signature,
        v.device_binding.message@ == verify_message,
        p.device_binding.comm_key_secp_label@ == vstd::utf8::encode_utf8("secp"@),
        p.device_binding.comm_key_tom_label@ == vstd::utf8::encode_utf8("tom"@),
        p.device_binding.comm_key_bls_label@ == vstd::utf8::encode_utf8("bls"@),
        p.device_binding.bpp_setup_label@ == vstd::utf8::encode_utf8("bpp"@),
        v.device_binding.comm_key_secp_label@ == vstd::utf8::encode_utf8("secp"@),
        v.device_binding.comm_key_tom_label@ == vstd::utf8::encode_utf8("tom"@),
        v.device_binding.comm_key_bls_label@ == vstd::utf8::encode_utf8("bls"@),
        v.device_binding.bpp_setup_label@ == vstd::utf8::encode_utf8("bpp"@),
{
    lemma_labels();
}

/// An issue request carries the issuer's public and secret keys, each in its
/// own place, and the device binding it was made from, in order.
pub proof fn lemma_issue_request_fields(
    q: IssueRequest,
    issuer: Keypair,
    with_dog: bool,
    x: Seq<char>,
    y: Seq<char>,
)
    requires
        is_issue_request(q, issuer, with_dog, x, y),
    ensures
        q.issuer_public_key@ == issuer.public_key@,
        q.issuer_secret_key@ == issuer.secret_key@,
        q.device_binding.0@ == x,
        q.device_binding.1@ == y,
        with_dog <==> q.credential.dog_name is Some,
{
}

} // verus!
