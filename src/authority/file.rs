//! The signing backend that holds a private key loaded from configuration.

use vstd::prelude::*;
use crate::authority::{SignError, Signer, check_spec, late_failure};
use crate::attrs::AttrMap;
use crate::options::{CertType, CertificateOptions, OptionsView, opt_view, strings_of};
use crate::ssh;
use crate::ssh::openssh_private_key_valid;

verus! {

/// The validity window of a certificate issued at `now`, after the checks.
pub open spec fn window_spec(allowed: Seq<CertType>, o: OptionsView, now: u64) -> Result<
    (u64, u64),
    SignError,
> {
    match check_spec(allowed, o) {
        Err(e) => Err(e),
        Ok(v) => if now + v > u64::MAX {
            Err(SignError::TimestampOverflow)
        } else {
            Ok((now, (now + v) as u64))
        },
    }
}

/// Everything a certificate records besides the keys.
pub struct CertFields {
    pub nonce: Vec<u8>,
    pub valid_after: u64,
    pub valid_before: u64,
    pub cert_type: CertType,
    pub principals: Vec<String>,
    pub key_id: Option<String>,
    pub comment: Option<String>,
    pub extensions: AttrMap,
    pub critical_options: AttrMap,
}

/// Whether `f` records the options `o` with the window from `valid_after` to
/// `valid_before` and the nonce `nonce`.
pub open spec fn fields_of(
    f: CertFields,
    o: OptionsView,
    valid_after: u64,
    valid_before: u64,
    nonce: Seq<u8>,
) -> bool {
    &&& f.nonce@ == nonce
    &&& f.valid_after == valid_after
    &&& f.valid_before == valid_before
    &&& f.cert_type == o.cert_type
    &&& strings_of(f.principals@) == o.principals
    &&& opt_view(f.key_id) == o.key_id
    &&& opt_view(f.comment) == o.comment
    &&& f.extensions@ == o.extensions
    &&& f.critical_options@ == o.critical_options
}

/// A copy of a list of strings.
fn copy_strings(v: &Vec<String>) -> (r: Vec<String>)
    ensures
        strings_of(r@) == strings_of(v@),
{
    let mut out: Vec<String> = Vec::new();
    let mut i: usize = 0;
    while i < v.len()
        invariant
            0 <= i <= v@.len(),
            out@.len() == i,
            forall|j: int| 0 <= j < i ==> (#[trigger] out@[j])@ == v@[j]@,
        decreases v@.len() - i,
    {
        out.push(v[i].clone());
        i = i + 1;
    }
    assert(strings_of(out@) =~= strings_of(v@));
    out
}

/// A copy of an optional string.
fn copy_opt(s: Option<&str>) -> (r: Option<String>)
    ensures
        match s {
            Some(v) => opt_view(r) == Some(v@),
            None => r is None,
        },
{
    match s {
        Some(v) => Some(v.to_owned()),
        None => None,
    }
}

/// How a file-backed authority is configured: its private key in OpenSSH
/// form, and the certificate types it may issue.
pub struct Config {
    pub private_key: String,
    pub cert_types: Vec<CertType>,
}

/// A file-backed authority, ready to sign.
pub struct State {
    private_key: ssh_key::PrivateKey,
    cert_types: Vec<CertType>,
}

impl Config {
    /// Parses the private key. Succeeds exactly when the key text parses; the
    /// authority then issues exactly the configured certificate types.
    pub fn load(&self) -> (r: Result<State, ssh_key::Error>)
        ensures
            (r is Ok) == openssh_private_key_valid(self.private_key@),
            r matches Ok(s) ==> s.allowed() == self.cert_types@,
    {
        match ssh::parse_private_key(self.private_key.as_str()) {
            Ok(private_key) => {
                let cert_types = self.cert_types.clone();
                Ok(State { private_key, cert_types })
            },
            Err(e) => Err(e),
        }
    }
}

impl State {
    /// The certificate types this authority may issue.
    pub closed spec fn allowed(&self) -> Seq<CertType> {
        self.cert_types@
    }

    /// Whether this authority may issue certificates of type `cert_type`.
    pub fn supports(&self, cert_type: CertType) -> (r: bool)
        ensures
            r == self.allowed().contains(cert_type),
    {
        let mut i: usize = 0;
        while i < self.cert_types.len()
            invariant
                0 <= i <= self.cert_types@.len(),
                forall|j: int| 0 <= j < i ==> self.cert_types@[j] != cert_type,
            decreases self.cert_types@.len() - i,
        {
            if self.cert_types[i] == cert_type {
                assert(self.cert_types@[i as int] == cert_type);
                return true;
            }
            i = i + 1;
        }
        false
    }

    /// The checks of `check_spec`, in that order.
    pub fn check(&self, options: &CertificateOptions) -> (r: Result<u64, SignError>)
        ensures
            r == check_spec(self.allowed(), options@),
    {
        if options.principals().len() == 0 {
            return Err(SignError::NoPrincipals);
        }
        if !self.supports(options.cert_type()) {
            return Err(SignError::UnsupportedCertType);
        }
        match options.validity() {
            Some(v) => Ok(v),
            None => Err(SignError::UnknownValidity),
        }
    }

    /// The validity window of a certificate for `options` issued at `now`:
    /// from `now` to `now` plus the validity.
    pub fn validity_window(&self, options: &CertificateOptions, now: u64) -> (r: Result<
        (u64, u64),
        SignError,
    >)
        ensures
            r == window_spec(self.allowed(), options@, now),
    {
        match self.check(options) {
            Err(e) => Err(e),
            Ok(v) => match now.checked_add(v) {
                Some(end) => Ok((now, end)),
                None => Err(SignError::TimestampOverflow),
            },
        }
    }

    /// What a certificate for `options` issued at `now` with `nonce` records:
    /// after the checks of `window_spec`, the window it gives, the nonce, and
    /// the options' type, principals, key id, comment, extensions and critical
    /// options.
    pub fn certificate_fields(&self, options: &CertificateOptions, now: u64, nonce: Vec<u8>) -> (r:
        Result<CertFields, SignError>)
        ensures
            match window_spec(self.allowed(), options@, now) {
                Err(e) => r == Err::<CertFields, SignError>(e),
                Ok(w) => r matches Ok(f) && fields_of(f, options@, w.0, w.1, nonce@),
            },
    {
        let (valid_after, valid_before) = match self.validity_window(options, now) {
            Ok(w) => w,
            Err(e) => return Err(e),
        };
        Ok(CertFields {
            nonce,
            valid_after,
            valid_before,
            cert_type: options.cert_type(),
            principals: copy_strings(options.principals()),
            key_id: copy_opt(options.key_id()),
            comment: copy_opt(options.comment()),
            extensions: options.extensions().duplicate(),
            critical_options: options.critical_options().duplicate(),
        })
    }

    /// Builds the certificate that `fields` describe for `public_key` and
    /// signs it with this authority's key: each field goes to the matching
    /// setter of ssh-key's certificate builder.
    pub fn sign_fields(&self, fields: CertFields, public_key: &ssh_key::PublicKey) -> (r: Result<
        ssh_key::Certificate,
        SignError,
    >)
        ensures
            fields.valid_after > ssh::MAX_TIMESTAMP || fields.valid_before > ssh::MAX_TIMESTAMP
                || fields.valid_before < fields.valid_after ==> r is Err,
            r is Ok || r->Err_0 is Certificate,
    {
        let CertFields {
            nonce,
            valid_after,
            valid_before,
            cert_type,
            principals,
            key_id,
            comment,
            extensions,
            critical_options,
        } = fields;
        let mut builder = match ssh::new_builder(nonce, public_key, valid_after, valid_before) {
            Ok(b) => b,
            Err(e) => return Err(SignError::Certificate(e)),
        };
        if let Err(e) = ssh::builder_cert_type(&mut builder, cert_type) {
            return Err(SignError::Certificate(e));
        }
        let mut i: usize = 0;
        while i < principals.len()
            invariant
                0 <= i <= principals@.len(),
            decreases principals@.len() - i,
        {
            if let Err(e) = ssh::builder_principal(&mut builder, principals[i].as_str()) {
                return Err(SignError::Certificate(e));
            }
            i = i + 1;
        }
        if let Some(k) = &key_id {
            if let Err(e) = ssh::builder_key_id(&mut builder, k.as_str()) {
                return Err(SignError::Certificate(e));
            }
        }
        if let Some(c) = &comment {
            if let Err(e) = ssh::builder_comment(&mut builder, c.as_str()) {
                return Err(SignError::Certificate(e));
            }
        }
        let entries = extensions.entries();
        let mut i: usize = 0;
        while i < entries.len()
            invariant
                0 <= i <= entries@.len(),
            decreases entries@.len() - i,
        {
            let (name, data) = &entries[i];
            if let Err(e) = ssh::builder_extension(&mut builder, name.as_str(), data.as_str()) {
                return Err(SignError::Certificate(e));
            }
            i = i + 1;
        }
        let entries = critical_options.entries();
        let mut i: usize = 0;
        while i < entries.len()
            invariant
                0 <= i <= entries@.len(),
            decreases entries@.len() - i,
        {
            let (name, data) = &entries[i];
            if let Err(e) = ssh::builder_critical_option(&mut builder, name.as_str(), data.as_str()) {
                return Err(SignError::Certificate(e));
            }
            i = i + 1;
        }
        match ssh::builder_sign(builder, &self.private_key) {
            Ok(certificate) => Ok(certificate),
            Err(e) => Err(SignError::Certificate(e)),
        }
    }

    /// Signs a certificate for `options`, valid from `now`, with a fresh
    /// 32-byte nonce: the certificate that `certificate_fields` describes for
    /// that nonce. Every error of `window_spec` is returned as it is; past
    /// those checks only the signing itself can fail.
    pub fn sign_at(&self, options: &CertificateOptions, now: u64) -> (r: Result<
        ssh_key::Certificate,
        SignError,
    >)
        ensures
            match window_spec(self.allowed(), options@, now) {
                Err(e) => r == Err::<ssh_key::Certificate, SignError>(e),
                Ok(w) => (r is Ok || r->Err_0 is Certificate) && (w.0 > ssh::MAX_TIMESTAMP || w.1
                    > ssh::MAX_TIMESTAMP ==> r is Err),
            },
    {
        let nonce = ssh::random_bytes(32);
        match self.certificate_fields(options, now, nonce) {
            Ok(fields) => self.sign_fields(fields, options.public_key()),
            Err(e) => Err(e),
        }
    }
}

impl State {
    /// Makes the checks of `check_spec`, then reads the clock and signs (see
    /// `sign_at`).
    pub fn issue(&self, options: &CertificateOptions) -> (r: Result<ssh_key::Certificate, SignError>)
        ensures
            check_spec(self.allowed(), options@) matches Err(e) ==> r == Err::<
                ssh_key::Certificate,
                SignError,
            >(e),
            check_spec(self.allowed(), options@) is Ok ==> r is Ok || late_failure(r->Err_0),
    {
        if let Err(e) = self.check(options) {
            return Err(e);
        }
        match ssh::unix_now() {
            Ok(now) => self.sign_at(options, now),
            Err(e) => Err(SignError::SystemTime(e)),
        }
    }
}

impl Signer for State {
    open spec fn issuable(&self) -> Seq<CertType> {
        self.allowed()
    }

    fn sign(&self, options: &CertificateOptions) -> (r: Result<ssh_key::Certificate, SignError>) {
        self.issue(options)
    }
}

} // verus!
