//! Certificate lifecycle: the persisted self-signed pair is loaded
//! when structurally sound and regenerated otherwise; persistence
//! failures are non-fatal since the in-memory pair still serves the
//! running process.

use vstd::prelude::*;

verus! {

/// Whether the first characters of `s`, taken as ASCII bytes, are a
/// prefix of `b`.
pub open spec fn bytes_match_ascii(b: Seq<u8>, s: Seq<char>) -> bool {
    s.len() <= b.len() && forall|i: int| 0 <= i < s.len() ==> b[i] == #[trigger] s[i] as u8
}

/// A certificate file in PEM framing: it begins with the certificate
/// header line.
pub open spec fn cert_pem_framed(b: Seq<u8>) -> bool {
    bytes_match_ascii(b, "-----BEGIN CERTIFICATE-----"@)
}

/// Whether the bytes start with the given ASCII text.
pub fn bytes_have_prefix(b: &Vec<u8>, p: &str) -> (r: bool)
    ensures
        r == bytes_match_ascii(b@, p@),
{
    let pn = p.unicode_len();
    if pn > b.len() {
        return false;
    }
    let mut i: usize = 0;
    while i < pn
        invariant
            pn == p@.len(),
            pn <= b@.len(),
            i <= pn,
            forall|j: int| 0 <= j < i ==> b@[j] == #[trigger] p@[j] as u8,
        decreases pn - i,
    {
        if b[i] != (p.get_char(i) as u8) {
            return false;
        }
        i += 1;
    }
    true
}

/// The self-signed pair served over the encrypted channel and offered
/// for trust-store installation.
pub struct CertificateBundle {
    /// The certificate, PEM text as bytes.
    pub cert_pem: Vec<u8>,
    /// The private key, PEM text as bytes.
    pub key_pem: Vec<u8>,
}

/// Whether a stored pair read from disk can be served again: both
/// files present, both non-empty, and the certificate PEM-framed.
pub open spec fn stored_pair_valid(cert: Option<Seq<u8>>, key: Option<Seq<u8>>) -> bool {
    match (cert, key) {
        (Some(c), Some(k)) => c.len() > 0 && k.len() > 0 && cert_pem_framed(c),
        _ => false,
    }
}

/// Structural soundness of the two persisted files, as diagnostics
/// report it: both non-empty and the certificate PEM-framed.
pub fn cert_files_valid(cert: &Vec<u8>, key: &Vec<u8>) -> (r: bool)
    ensures
        r == (cert@.len() > 0 && key@.len() > 0 && cert_pem_framed(cert@)),
{
    cert.len() > 0 && key.len() > 0 && bytes_have_prefix(cert, "-----BEGIN CERTIFICATE-----")
}

/// That a certificate text is an issued certificate whose subject
/// alternative names are exactly `names`; stating it over the raw
/// encoding would take pages, so the generator's contract names it.
pub uninterp spec fn cert_covers(cert: Seq<u8>, names: Seq<Seq<char>>) -> bool;

/// The names the served certificate must cover: the local host name
/// and the loopback address, in the order handed to the generator.
pub open spec fn served_names() -> Seq<Seq<char>> {
    seq!["localhost"@, "127.0.0.1"@]
}

/// The subject alternative names handed to the certificate generator.
pub fn subject_alt_names() -> (r: Vec<String>)
    ensures
        r@.map_values(|n: String| n@) == served_names(),
{
    let mut names: Vec<String> = Vec::new();
    names.push(String::from_str("localhost"));
    names.push(String::from_str("127.0.0.1"));
    proof {
        assert(names@.map_values(|n: String| n@) =~= served_names());
    }
    names
}

/// Relies on rcgen::generate_simple_self_signed together with
/// rcgen::Certificate::pem and rcgen::KeyPair::serialize_pem: the
/// issued certificate is valid exactly for the given subject
/// alternative names, and both serialisers emit PEM text that opens
/// with its header line, so the certificate begins with the
/// certificate header and the key text is never empty.
#[verifier::external_body]
fn generate_self_signed_pem(names: Vec<String>) -> (r: Result<CertificateBundle, String>)
    ensures
        r matches Ok(b) ==> cert_pem_framed(b.cert_pem@) && b.key_pem@.len() > 0 && cert_covers(
            b.cert_pem@,
            names@.map_values(|n: String| n@),
        ),
{
    match rcgen::generate_simple_self_signed(names) {
        Ok(rcgen::CertifiedKey { cert, signing_key }) => Ok(
            CertificateBundle {
                cert_pem: cert.pem().into_bytes(),
                key_pem: signing_key.serialize_pem().into_bytes(),
            },
        ),
        Err(e) => Err(format!("Failed to generate certificate: {}", e)),
    }
}

/// Loads or creates the served certificate pair. A structurally sound
/// stored pair is reused as it is; anything else is replaced by a
/// freshly generated self-signed pair covering the local host name
/// and the loopback address, which the caller should persist. The
/// second component says whether persisting is due.
pub fn get_or_create_certificate(cert_file: Option<Vec<u8>>, key_file: Option<Vec<u8>>) -> (r:
    Result<(CertificateBundle, bool), String>)
    ensures
        ({
            let c = match cert_file {
                Some(v) => Some(v@),
                None => None,
            };
            let k = match key_file {
                Some(v) => Some(v@),
                None => None,
            };
            &&& stored_pair_valid(c, k) ==> (r matches Ok(p) && !p.1 && (cert_file matches Some(
                cv,
            ) && p.0.cert_pem@ == cv@) && (key_file matches Some(kv) && p.0.key_pem@ == kv@))
            &&& !stored_pair_valid(c, k) ==> (r matches Ok(p) ==> p.1 && cert_pem_framed(
                p.0.cert_pem@,
            ) && p.0.key_pem@.len() > 0 && cert_covers(p.0.cert_pem@, served_names()))
        }),
{
    let reuse = match (&cert_file, &key_file) {
        (Some(c), Some(k)) => cert_files_valid(c, k),
        _ => false,
    };
    if reuse {
        let cert_pem = cert_file.unwrap();
        let key_pem = key_file.unwrap();
        return Ok((CertificateBundle { cert_pem, key_pem }, false));
    }
    let names = subject_alt_names();
    match generate_self_signed_pem(names) {
        Ok(bundle) => Ok((bundle, true)),
        Err(e) => Err(e),
    }
}

} // verus!
