//! One signing request, from claims and a public key to an encoded
//! certificate or a classified error.

use vstd::prelude::*;
use crate::authority::{AuthorityRegistry, SignError, late_failure, registry_get};
use crate::ssh::openssh_public_key_valid;
use crate::claims::CertificateClaims;
use crate::options::{CertType, CertificateOptions, lemma_add_all_nonempty, strings_of};
use crate::settings::{Profiles, resolve};
use crate::ssh;

verus! {

/// Why a request got no certificate.
#[derive(Debug)]
pub enum RequestError {
    /// The public key does not parse.
    InvalidPublicKey(ssh_key::Error),
    /// No selector matches and there is no default profile.
    NoProfile,
    /// The claims name no principal.
    NoPrincipals,
    /// The profile names an authority that is not loaded.
    UnknownAuthority,
    /// The authority refused or failed to sign.
    Sign(SignError),
    /// The signed certificate could not be encoded.
    Encoding(ssh_key::Error),
}

/// The error that a request gets before any signing is attempted, if any:
/// no profile, no principals, no such authority, or a certificate type that
/// the authority does not issue, in that order.
pub open spec fn denial(
    profiles: Profiles,
    authorities: AuthorityRegistry,
    claims: CertificateClaims,
    cert_type: CertType,
) -> Option<RequestError> {
    match resolve(profiles, claims) {
        None => Some(RequestError::NoProfile),
        Some(s) => if claims.valid_principals@.len() == 0 {
            Some(RequestError::NoPrincipals)
        } else {
            match registry_get(authorities@, s.ssh_ca@) {
                None => Some(RequestError::UnknownAuthority),
                Some(p) => if p.allowed().contains(cert_type) {
                    None
                } else {
                    Some(RequestError::Sign(SignError::UnsupportedCertType))
                },
            }
        },
    }
}

/// Claims without principals are denied under whatever profile they resolve
/// to, before any authority is consulted.
pub proof fn lemma_no_principals_denied(
    profiles: Profiles,
    authorities: AuthorityRegistry,
    claims: CertificateClaims,
    cert_type: CertType,
)
    requires
        resolve(profiles, claims) is Some,
        claims.valid_principals@.len() == 0,
    ensures
        denial(profiles, authorities, claims, cert_type) == Some(RequestError::NoPrincipals),
{
}

/// The HTTP status for an error: bad input 400; a policy denial or a
/// certificate type the authority does not issue 403; everything else 500.
pub open spec fn status_spec(e: RequestError) -> u16 {
    match e {
        RequestError::InvalidPublicKey(_) => 400,
        RequestError::NoProfile => 403,
        RequestError::NoPrincipals => 403,
        RequestError::Sign(SignError::UnsupportedCertType) => 403,
        _ => 500,
    }
}

impl RequestError {
    /// The HTTP status for this error (see `status_spec`).
    pub fn status(&self) -> (r: u16)
        ensures
            r == status_spec(*self),
    {
        match self {
            RequestError::InvalidPublicKey(_) => 400,
            RequestError::NoProfile => 403,
            RequestError::NoPrincipals => 403,
            RequestError::Sign(SignError::UnsupportedCertType) => 403,
            _ => 500,
        }
    }

    /// The message shown to the client; internal failures get a generic one.
    pub fn message(&self) -> (r: &'static str)
        ensures
            self is InvalidPublicKey ==> r@ == "Not a valid ssh public key"@,
            self is NoProfile || self is NoPrincipals ==> r@ == "No applicable profile for client"@,
            self is UnknownAuthority ==> r@ == "Provider unavailable"@,
            self is Sign ==> r@ == "Failed to generate certificate"@,
            self is Encoding ==> r@ == "Failed to generate openssh certificate"@,
    {
        match self {
            RequestError::InvalidPublicKey(_) => "Not a valid ssh public key",
            RequestError::NoProfile => "No applicable profile for client",
            RequestError::NoPrincipals => "No applicable profile for client",
            RequestError::UnknownAuthority => "Provider unavailable",
            RequestError::Sign(_) => "Failed to generate certificate",
            RequestError::Encoding(_) => "Failed to generate openssh certificate",
        }
    }
}

/// Signs a certificate of type `cert_type` for `public_key` under the profile
/// that `claims` resolve to. Every error of `denial` is returned as it is,
/// before the authority is asked to sign; past those only the clock or the
/// signing can fail.
pub fn sign_certificate(
    profiles: &Profiles,
    authorities: &AuthorityRegistry,
    claims: &CertificateClaims,
    public_key: ssh_key::PublicKey,
    cert_type: CertType,
) -> (r: Result<ssh_key::Certificate, RequestError>)
    ensures
        match denial(*profiles, *authorities, *claims, cert_type) {
            Some(e) => r == Err::<ssh_key::Certificate, RequestError>(e),
            None => r is Ok || (r->Err_0 matches RequestError::Sign(e) && late_failure(e)),
        },
{
    let mut options = CertificateOptions::new(public_key, cert_type);
    let profile = match profiles.lookup(claims) {
        Some(p) => p,
        None => return Err(RequestError::NoProfile),
    };
    if profile.apply(&mut options, claims).is_err() {
        return Err(RequestError::NoPrincipals);
    }
    let authority = match authorities.get(&profile.ssh_ca) {
        Some(a) => a,
        None => return Err(RequestError::UnknownAuthority),
    };
    proof {
        lemma_add_all_nonempty(Seq::empty(), strings_of(claims.valid_principals@));
    }
    match authority.issue(&options) {
        Ok(certificate) => Ok(certificate),
        Err(e) => Err(RequestError::Sign(e)),
    }
}

/// Handles a request whose public key is given in OpenSSH form, and encodes
/// the certificate in OpenSSH form. A key that does not parse is bad input,
/// and only such a key gives that error; after that, every error of `denial`
/// is returned as it is, and otherwise only the clock, the signing or the
/// encoding can fail.
pub fn sign_key(
    profiles: &Profiles,
    authorities: &AuthorityRegistry,
    claims: &CertificateClaims,
    public_key: &str,
    cert_type: CertType,
) -> (r: Result<String, RequestError>)
    ensures
        (r matches Err(RequestError::InvalidPublicKey(_))) == !openssh_public_key_valid(
            public_key@,
        ),
        openssh_public_key_valid(public_key@) ==> match denial(
            *profiles,
            *authorities,
            *claims,
            cert_type,
        ) {
            Some(e) => r == Err::<String, RequestError>(e),
            None => r is Ok || (r->Err_0 matches RequestError::Sign(e) && late_failure(e))
                || r->Err_0 is Encoding,
        },
{
    let key = match ssh::parse_public_key(public_key) {
        Ok(k) => k,
        Err(e) => return Err(RequestError::InvalidPublicKey(e)),
    };
    match sign_certificate(profiles, authorities, claims, key, cert_type) {
        Ok(certificate) => match ssh::certificate_to_openssh(&certificate) {
            Ok(text) => Ok(text),
            Err(e) => Err(RequestError::Encoding(e)),
        },
        Err(e) => Err(e),
    }
}

} // verus!
