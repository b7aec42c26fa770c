//! The calls this library makes into `ssh-key`, `rand` and the system clock.

use vstd::prelude::*;

verus! {

#[verifier::external_type_specification]
#[verifier::external_body]
pub struct ExPublicKey(ssh_key::PublicKey);

#[verifier::external_type_specification]
#[verifier::external_body]
pub struct ExPrivateKey(ssh_key::PrivateKey);

#[verifier::external_type_specification]
#[verifier::external_body]
pub struct ExCertificate(ssh_key::Certificate);

#[verifier::external_type_specification]
#[verifier::external_body]
pub struct ExBuilder(ssh_key::certificate::Builder);

#[verifier::external_type_specification]
#[verifier::external_body]
pub struct ExSshError(ssh_key::Error);

#[verifier::external_type_specification]
#[verifier::external_body]
pub struct ExSystemTimeError(std::time::SystemTimeError);

/// The largest timestamp `ssh-key` accepts in a validity window.
pub const MAX_TIMESTAMP: u64 = 9223372036854775807;

/// Whether `ssh_key::PublicKey::from_openssh` accepts the text; this depends
/// on the text alone.
pub uninterp spec fn openssh_public_key_valid(text: Seq<char>) -> bool;

/// Whether `ssh_key::PrivateKey::from_openssh` accepts the text; this depends
/// on the text alone.
pub uninterp spec fn openssh_private_key_valid(text: Seq<char>) -> bool;

/// Relies on `ssh_key::PublicKey::from_openssh`: parses an OpenSSH public key.
#[verifier::external_body]
pub(crate) fn parse_public_key(text: &str) -> (r: Result<ssh_key::PublicKey, ssh_key::Error>)
    ensures
        (r is Ok) == openssh_public_key_valid(text@),
{
    ssh_key::PublicKey::from_openssh(text)
}

/// Relies on `ssh_key::PrivateKey::from_openssh`: parses an OpenSSH private key.
#[verifier::external_body]
pub(crate) fn parse_private_key(text: &str) -> (r: Result<ssh_key::PrivateKey, ssh_key::Error>)
    ensures
        (r is Ok) == openssh_private_key_valid(text@),
{
    ssh_key::PrivateKey::from_openssh(text)
}

/// Relies on `ssh_key::certificate::Builder::new`, which refuses a timestamp
/// above `MAX_TIMESTAMP` and a window that ends before it starts.
#[verifier::external_body]
pub(crate) fn new_builder(
    nonce: Vec<u8>,
    public_key: &ssh_key::PublicKey,
    valid_after: u64,
    valid_before: u64,
) -> (r: Result<ssh_key::certificate::Builder, ssh_key::Error>)
    ensures
        valid_after > MAX_TIMESTAMP || valid_before > MAX_TIMESTAMP || valid_before < valid_after
            ==> r is Err,
{
    ssh_key::certificate::Builder::new(nonce, public_key, valid_after, valid_before)
}

/// Relies on `ssh_key::certificate::Builder::cert_type`: sets the certificate type.
#[verifier::external_body]
pub(crate) fn builder_cert_type(
    builder: &mut ssh_key::certificate::Builder,
    cert_type: crate::options::CertType,
) -> (r: Result<(), ssh_key::Error>) {
    let cert_type = match cert_type {
        crate::options::CertType::Host => ssh_key::certificate::CertType::Host,
        crate::options::CertType::User => ssh_key::certificate::CertType::User,
    };
    builder.cert_type(cert_type).map(|_| ())
}

/// Relies on `ssh_key::certificate::Builder::valid_principal`, which appends
/// the principal and never fails.
#[verifier::external_body]
pub(crate) fn builder_principal(
    builder: &mut ssh_key::certificate::Builder,
    principal: &str,
) -> (r: Result<(), ssh_key::Error>)
    ensures
        r is Ok,
{
    builder.valid_principal(principal).map(|_| ())
}

/// Relies on `ssh_key::certificate::Builder::key_id`: sets the key id.
#[verifier::external_body]
pub(crate) fn builder_key_id(
    builder: &mut ssh_key::certificate::Builder,
    key_id: &str,
) -> (r: Result<(), ssh_key::Error>) {
    builder.key_id(key_id).map(|_| ())
}

/// Relies on `ssh_key::certificate::Builder::comment`: sets the comment.
#[verifier::external_body]
pub(crate) fn builder_comment(
    builder: &mut ssh_key::certificate::Builder,
    comment: &str,
) -> (r: Result<(), ssh_key::Error>) {
    builder.comment(comment).map(|_| ())
}

/// Relies on `ssh_key::certificate::Builder::extension`: adds an extension.
#[verifier::external_body]
pub(crate) fn builder_extension(
    builder: &mut ssh_key::certificate::Builder,
    name: &str,
    data: &str,
) -> (r: Result<(), ssh_key::Error>) {
    builder.extension(name, data).map(|_| ())
}

/// Relies on `ssh_key::certificate::Builder::critical_option`: adds a critical option.
#[verifier::external_body]
pub(crate) fn builder_critical_option(
    builder: &mut ssh_key::certificate::Builder,
    name: &str,
    data: &str,
) -> (r: Result<(), ssh_key::Error>) {
    builder.critical_option(name, data).map(|_| ())
}

/// Relies on `ssh_key::certificate::Builder::sign`: signs the certificate with the key.
#[verifier::external_body]
pub(crate) fn builder_sign(
    builder: ssh_key::certificate::Builder,
    key: &ssh_key::PrivateKey,
) -> (r: Result<ssh_key::Certificate, ssh_key::Error>) {
    builder.sign(key)
}

/// Relies on `ssh_key::Certificate::to_openssh`: encodes the certificate as text.
#[verifier::external_body]
pub(crate) fn certificate_to_openssh(
    certificate: &ssh_key::Certificate,
) -> (r: Result<String, ssh_key::Error>) {
    certificate.to_openssh()
}

/// Relies on `rand::thread_rng`: `len` bytes from a thread-local
/// cryptographically secure generator.
#[verifier::external_body]
pub(crate) fn random_bytes(len: usize) -> (r: Vec<u8>)
    ensures
        r@.len() == len,
{
    rand::Rng::sample_iter(rand::thread_rng(), rand::distributions::Standard).take(len).collect()
}

/// Relies on `std::time::SystemTime::elapsed`, taken from the Unix epoch:
/// whole seconds since then by the system clock.
#[verifier::external_body]
pub(crate) fn unix_now() -> (r: Result<u64, std::time::SystemTimeError>) {
    std::time::UNIX_EPOCH.elapsed().map(|d| d.as_secs())
}

} // verus!
