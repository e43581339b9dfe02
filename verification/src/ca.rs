use vstd::prelude::*;
use vstd::string::*;

use crate::ca_material::{
    ca_cert_pem_accepted, certificate_header, csr_pem_accepted, error_text, generate_key, has_prefix, issued_for,
    key_from_pem, key_pem_accepted, parse_csr, parse_stored_cert, private_key_header, self_sign, self_signed_with, sign_request,
    to_rcgen_params, CaKey, CaPair, CaParams, CaParamsView, CaPathLength, KeyUsage, NameField, OriginView,
};

verus! {

broadcast use vstd::string::group_string_axioms;

fn prefixed(prefix: &str, e: &rcgen::Error) -> (r: String)
    ensures
        has_prefix(r@, prefix@),
{
    let r = String::from_str(prefix).concat(error_text(e).as_str());
    assert(r@.take(prefix@.len() as int) =~= prefix@);
    r
}

/// The common name of the node's root CA.
pub open spec fn ca_common_name() -> Seq<char> {
    "PlaceNet Root CA"@
}

/// The parameters of the node's root CA: an unconstrained CA whose key
/// signs certificates and CRLs, with subject `CN=PlaceNet Root CA, O=PlaceNet`.
pub open spec fn root_ca_params_view() -> CaParamsView {
    CaParamsView {
        path_length: CaPathLength::Unconstrained,
        usages: seq![KeyUsage::CertSign, KeyUsage::CrlSign],
        subject: seq![(NameField::CommonName, ca_common_name()), (NameField::OrganizationName, "PlaceNet"@)],
    }
}

/// The parameters of the node's root CA.
pub fn root_ca_params() -> (p: CaParams)
    ensures
        p@ == root_ca_params_view(),
{
    let mut usages: Vec<KeyUsage> = Vec::new();
    usages.push(KeyUsage::CertSign);
    usages.push(KeyUsage::CrlSign);
    let mut subject: Vec<(NameField, String)> = Vec::new();
    subject.push((NameField::CommonName, String::from_str("PlaceNet Root CA")));
    subject.push((NameField::OrganizationName, String::from_str("PlaceNet")));
    let p = CaParams { path_length: CaPathLength::Unconstrained, usages, subject };
    proof {
        reveal_strlit("PlaceNet Root CA");
        reveal_strlit("PlaceNet");
    }
    assert(p@.usages =~= root_ca_params_view().usages);
    assert(p@.subject =~= root_ca_params_view().subject);
    p
}

/// Live CA state held in memory after initialisation: the CA certificate
/// together with the key that signed it.
pub struct CaState {
    pub subject_cn: String,
    pub pair: CaPair,
}

impl CaState {
    /// The PEM text of the CA certificate.
    pub open spec fn cert_pem_view(&self) -> Seq<char> {
        self.pair.cert_pem()
    }

    /// The PEM text of the CA's private key.
    pub open spec fn key_pem_view(&self) -> Seq<char> {
        self.pair.key_pem()
    }

    /// Where the CA certificate's parameters came from.
    pub open spec fn origin(&self) -> OriginView {
        self.pair.origin()
    }
}

/// Sign a PEM-encoded CSR with the loaded root CA.
/// Returns the signed certificate as PEM.
pub fn sign_csr(ca: &CaState, csr_pem: &str) -> (r: Result<String, String>)
    ensures
        !csr_pem_accepted(csr_pem@) ==> (r matches Err(m) && has_prefix(m@, "Invalid CSR: "@)),
        csr_pem_accepted(csr_pem@) ==> (r is Ok || (r matches Err(m) && has_prefix(m@, "Failed to sign CSR: "@))),
        r matches Ok(cert) ==> has_prefix(cert@, certificate_header())
            && issued_for(cert@, csr_pem@, ca.cert_pem_view(), ca.key_pem_view()),
{
    let csr = match parse_csr(csr_pem) {
        Ok(c) => c,
        Err(e) => return Err(prefixed("Invalid CSR: ", &e)),
    };
    match sign_request(csr, &ca.pair) {
        Ok(cert) => Ok(cert),
        Err(e) => Err(prefixed("Failed to sign CSR: ", &e)),
    }
}

/// Sign a CSR with the CA once it is loaded; before that, refuse.
pub fn sign_with_loaded_ca(ca: Option<&CaState>, csr_pem: &str) -> (r: Result<String, String>)
    ensures
        ca is None ==> (r matches Err(m) && m@ == "CA not initialised"@),
        ca is Some && !csr_pem_accepted(csr_pem@) ==> (r matches Err(m) && has_prefix(m@, "Invalid CSR: "@)),
        ca is Some && csr_pem_accepted(csr_pem@) ==> (r is Ok || (r matches Err(m) && has_prefix(m@, "Failed to sign CSR: "@))),
        ca matches Some(state) ==> (r matches Ok(cert) ==> has_prefix(cert@, certificate_header())
            && issued_for(cert@, csr_pem@, state.cert_pem_view(), state.key_pem_view())),
{
    match ca {
        Some(state) => sign_csr(state, csr_pem),
        None => Err(String::from_str("CA not initialised")),
    }
}

/// The CA certificate in PEM form, for clients to trust.
pub fn ca_cert_pem(ca: &CaState) -> (r: String)
    ensures
        r@ == ca.cert_pem_view(),
{
    ca.pair.cert_pem_text().clone()
}

/// The CA's private key in PEM form.
pub fn ca_key_pem(ca: &CaState) -> (r: String)
    ensures
        r@ == ca.key_pem_view(),
{
    ca.pair.key_pem_text().clone()
}

/// What rebuilding the CA from stored texts may fail with: an unreadable
/// key; a certificate that is not a CA certificate (only once the key was
/// read); or the re-signing of the certificate (only once both were read).
pub open spec fn reload_error(m: Seq<char>, cert_pem: Seq<char>, key_pem: Seq<char>) -> bool {
    ||| has_prefix(m, "Failed to parse CA private key: "@)
    ||| has_prefix(m, "Failed to parse CA certificate: "@) && key_pem_accepted(key_pem) && !ca_cert_pem_accepted(cert_pem)
    ||| has_prefix(m, "Failed to reconstruct CA cert: "@) && key_pem_accepted(key_pem) && ca_cert_pem_accepted(cert_pem)
}

/// Rebuild the CA from its stored certificate and private key: the stored
/// key, and a certificate re-signed with it from the stored certificate's
/// parameters.
pub fn ca_from_pem(cert_pem: &str, key_pem: &str) -> (r: Result<CaState, String>)
    ensures
        !key_pem_accepted(key_pem@) ==> (r matches Err(m) && has_prefix(m@, "Failed to parse CA private key: "@)),
        r matches Err(m) ==> reload_error(m@, cert_pem@, key_pem@),
        r matches Ok(s) ==> key_pem_accepted(key_pem@) && ca_cert_pem_accepted(cert_pem@)
            && s.subject_cn@ == ca_common_name() && s.key_pem_view() == key_pem@
            && s.origin() == OriginView::Stored(cert_pem@)
            && has_prefix(s.cert_pem_view(), certificate_header())
            && self_signed_with(s.cert_pem_view(), key_pem@),
{
    let key: CaKey = match key_from_pem(key_pem) {
        Ok(k) => k,
        Err(e) => return Err(prefixed("Failed to parse CA private key: ", &e)),
    };
    let params = match parse_stored_cert(cert_pem) {
        Ok(p) => p,
        Err(e) => return Err(prefixed("Failed to parse CA certificate: ", &e)),
    };
    let pair = match self_sign(params, key) {
        Ok(c) => c,
        Err(e) => return Err(prefixed("Failed to reconstruct CA cert: ", &e)),
    };
    Ok(CaState { subject_cn: String::from_str("PlaceNet Root CA"), pair })
}

/// A newly generated CA and its PEM forms, to be stored.
pub struct GeneratedCa {
    pub state: CaState,
    pub cert_pem: String,
    pub key_pem: String,
}

/// Generate a new root CA: a fresh key pair and a self-signed certificate
/// from [`root_ca_params`].
pub fn generate_ca() -> (r: Result<GeneratedCa, String>)
    ensures
        r matches Ok(g) ==> g.state.subject_cn@ == ca_common_name()
            && g.state.origin() == OriginView::Built(root_ca_params_view())
            && g.cert_pem@ == g.state.cert_pem_view() && g.key_pem@ == g.state.key_pem_view()
            && has_prefix(g.cert_pem@, certificate_header()) && has_prefix(g.key_pem@, private_key_header())
            && self_signed_with(g.cert_pem@, g.key_pem@),
        r matches Err(m) ==> has_prefix(m@, "Failed to generate CA key pair: "@)
            || has_prefix(m@, "Failed to self-sign CA certificate: "@),
{
    let key = match generate_key() {
        Ok(k) => k,
        Err(e) => return Err(prefixed("Failed to generate CA key pair: ", &e)),
    };
    let params = to_rcgen_params(root_ca_params());
    let pair = match self_sign(params, key) {
        Ok(c) => c,
        Err(e) => return Err(prefixed("Failed to self-sign CA certificate: ", &e)),
    };
    let cert_pem = pair.cert_pem_text().clone();
    let key_pem = pair.key_pem_text().clone();
    Ok(GeneratedCa { state: CaState { subject_cn: String::from_str("PlaceNet Root CA"), pair }, cert_pem, key_pem })
}

/// The CA once loaded or generated, with the PEM forms to store when it is new.
pub struct CaSetup {
    pub state: CaState,
    pub to_store: Option<(String, String)>,
}

/// Load the stored CA (certificate and key PEM) when there is one, or
/// generate a new one, which must then be stored. A stored CA is loaded
/// with the stored key; a new one is stored with the key it holds.
pub fn load_or_generate_ca(stored: Option<(String, String)>) -> (r: Result<CaSetup, String>)
    ensures
        (match stored {
            Some((cert, key)) => {
                &&& r matches Ok(s) ==> s.to_store is None && s.state.subject_cn@ == ca_common_name()
                    && s.state.key_pem_view() == key@ && s.state.origin() == OriginView::Stored(cert@)
                    && self_signed_with(s.state.cert_pem_view(), key@)
                &&& !key_pem_accepted(key@) ==> (r matches Err(m) && has_prefix(m@, "Failed to parse CA private key: "@))
                &&& r matches Err(m) ==> reload_error(m@, cert@, key@)
            },
            None => {
                &&& r matches Ok(s) ==> s.state.subject_cn@ == ca_common_name()
                    && s.state.origin() == OriginView::Built(root_ca_params_view())
                    && (s.to_store matches Some((c, k)) && c@ == s.state.cert_pem_view() && k@ == s.state.key_pem_view()
                    && has_prefix(c@, certificate_header()) && has_prefix(k@, private_key_header())
                    && self_signed_with(c@, k@))
                &&& r matches Err(m) ==> has_prefix(m@, "Failed to generate CA key pair: "@)
                    || has_prefix(m@, "Failed to self-sign CA certificate: "@)
            },
        }),
{
    match stored {
        Some((cert_pem, key_pem)) => {
            let state = ca_from_pem(cert_pem.as_str(), key_pem.as_str())?;
            Ok(CaSetup { state, to_store: None })
        },
        None => {
            let generated = generate_ca()?;
            Ok(CaSetup { state: generated.state, to_store: Some((generated.cert_pem, generated.key_pem)) })
        },
    }
}

} // verus!
