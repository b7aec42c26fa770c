//! Named signing backends, and what a backend must do.

use vstd::prelude::*;
use crate::options::{CertType, CertificateOptions, OptionsView};
use crate::ssh::openssh_private_key_valid;

pub mod file;

verus! {

/// Why a certificate was not issued.
#[derive(Debug)]
pub enum SignError {
    UnsupportedCertType,
    NoPrincipals,
    UnknownValidity,
    /// The end of the validity window does not fit in a timestamp.
    TimestampOverflow,
    /// The certificate could not be built or signed.
    Certificate(ssh_key::Error),
    /// The clock could not be read.
    SystemTime(std::time::SystemTimeError),
}

/// The checks made before any signing: principals present, certificate type
/// allowed, validity known. Gives the validity.
pub open spec fn check_spec(allowed: Seq<CertType>, o: OptionsView) -> Result<u64, SignError> {
    if o.principals.len() == 0 {
        Err(SignError::NoPrincipals)
    } else if !allowed.contains(o.cert_type) {
        Err(SignError::UnsupportedCertType)
    } else {
        match o.validity {
            Some(v) => Ok(v),
            None => Err(SignError::UnknownValidity),
        }
    }
}

/// An error that only the clock or the signing itself can cause, once the
/// checks of `check_spec` have passed.
pub open spec fn late_failure(e: SignError) -> bool {
    e is SystemTime || e is TimestampOverflow || e is Certificate
}

/// A backend that signs certificates.
pub trait Signer {
    /// The certificate types this backend may issue.
    spec fn issuable(&self) -> Seq<CertType>;

    /// Signs a certificate for `options`. The checks of `check_spec` come
    /// first and their errors are returned as they are; once they pass, only
    /// the clock or the signing can fail.
    fn sign(&self, options: &CertificateOptions) -> (r: Result<ssh_key::Certificate, SignError>)
        ensures
            check_spec(self.issuable(), options@) matches Err(e) ==> r == Err::<
                ssh_key::Certificate,
                SignError,
            >(e),
            check_spec(self.issuable(), options@) is Ok ==> r is Ok || late_failure(r->Err_0),
    ;
}

/// How one authority is configured, by kind.
pub enum ProviderConfig {
    File(file::Config),
}

/// The configured authorities, by name.
pub struct Config {
    pub providers: Vec<(String, ProviderConfig)>,
}

/// One loaded signing backend.
pub enum Provider {
    File(file::State),
}

impl Provider {
    /// The certificate types this backend may issue.
    pub open spec fn allowed(&self) -> Seq<CertType> {
        match self {
            Provider::File(s) => s.allowed(),
        }
    }
}

impl Provider {
    /// Signs with the backend; the checks of `check_spec` come first.
    pub fn issue(&self, options: &CertificateOptions) -> (r: Result<ssh_key::Certificate, SignError>)
        ensures
            check_spec(self.allowed(), options@) matches Err(e) ==> r == Err::<
                ssh_key::Certificate,
                SignError,
            >(e),
            check_spec(self.allowed(), options@) is Ok ==> r is Ok || late_failure(r->Err_0),
    {
        match self {
            Provider::File(s) => s.issue(options),
        }
    }
}

impl Signer for Provider {
    open spec fn issuable(&self) -> Seq<CertType> {
        self.allowed()
    }

    fn sign(&self, options: &CertificateOptions) -> (r: Result<ssh_key::Certificate, SignError>) {
        self.issue(options)
    }
}

/// The allow-list that a provider configuration names.
pub open spec fn configured_types(c: ProviderConfig) -> Seq<CertType> {
    match c {
        ProviderConfig::File(f) => f.cert_types@,
    }
}

/// The private key text that a provider configuration holds.
pub open spec fn configured_key(c: ProviderConfig) -> Seq<char> {
    match c {
        ProviderConfig::File(f) => f.private_key@,
    }
}

/// Whether the first `n` configured keys all parse.
pub open spec fn keys_valid_before(providers: Seq<(String, ProviderConfig)>, n: int) -> bool {
    forall|j: int| 0 <= j < n ==> openssh_private_key_valid(configured_key((#[trigger] providers[j]).1))
}

/// Why the authorities could not be loaded.
#[derive(Debug)]
pub enum LoadError {
    /// The private key of the named authority does not parse.
    PrivateKey(String, ssh_key::Error),
}

/// The loaded authorities, by name, in the order of configuration.
pub struct AuthorityRegistry {
    entries: Vec<(String, Provider)>,
}

/// Whether entry `i` is the first one called `name`.
pub open spec fn is_first_entry(s: Seq<(Seq<char>, Provider)>, name: Seq<char>, i: int) -> bool {
    &&& 0 <= i < s.len()
    &&& s[i].0 == name
    &&& forall|j: int| 0 <= j < i ==> (#[trigger] s[j]).0 != name
}

/// The first authority called `name`.
pub open spec fn registry_get(s: Seq<(Seq<char>, Provider)>, name: Seq<char>) -> Option<Provider> {
    if exists|i: int| is_first_entry(s, name, i) {
        Some(s[choose|i: int| is_first_entry(s, name, i)].1)
    } else {
        None
    }
}

impl View for AuthorityRegistry {
    type V = Seq<(Seq<char>, Provider)>;

    closed spec fn view(&self) -> Seq<(Seq<char>, Provider)> {
        self.entries@.map_values(|e: (String, Provider)| (e.0@, e.1))
    }
}

impl AuthorityRegistry {
    /// The authority called `name`.
    pub fn get(&self, name: &String) -> (r: Option<&Provider>)
        ensures
            match r {
                Some(p) => registry_get(self@, name@) == Some(*p),
                None => registry_get(self@, name@) is None,
            },
    {
        let mut i: usize = 0;
        while i < self.entries.len()
            invariant
                0 <= i <= self.entries@.len(),
                self@.len() == self.entries@.len(),
                forall|j: int| 0 <= j < i ==> (#[trigger] self@[j]).0 != name@,
            decreases self.entries@.len() - i,
        {
            if self.entries[i].0 == *name {
                assert(is_first_entry(self@, name@, i as int));
                proof {
                    let k = choose|k: int| is_first_entry(self@, name@, k);
                    if k < i {
                        assert(self@[k].0 != name@);
                    } else if k > i {
                        assert(self@[i as int].0 != name@);
                    }
                }
                return Some(&self.entries[i].1);
            }
            i = i + 1;
        }
        assert(!exists|k: int| is_first_entry(self@, name@, k));
        None
    }
}

impl Config {
    /// Loads every configured authority, in order. Succeeds exactly when
    /// every key parses; the registry then holds one backend per entry, under
    /// the entry's name, issuing the configured certificate types. Otherwise
    /// the whole load fails with the name of the first authority whose key
    /// does not parse.
    pub fn load(&self) -> (r: Result<AuthorityRegistry, LoadError>)
        ensures
            (r is Ok) == keys_valid_before(self.providers@, self.providers@.len() as int),
            r matches Err(LoadError::PrivateKey(name, _)) ==> exists|i: int|
                0 <= i < self.providers@.len() && (#[trigger] self.providers@[i]).0@ == name@
                    && !openssh_private_key_valid(configured_key(self.providers@[i].1))
                    && keys_valid_before(self.providers@, i),
            r matches Ok(reg) ==> {
                &&& reg@.len() == self.providers@.len()
                &&& forall|i: int|
                    0 <= i < reg@.len() ==> (#[trigger] reg@[i]).0 == self.providers@[i].0@
                        && reg@[i].1.allowed() == configured_types(self.providers@[i].1)
            },
    {
        let mut entries: Vec<(String, Provider)> = Vec::new();
        let mut i: usize = 0;
        while i < self.providers.len()
            invariant
                0 <= i <= self.providers@.len(),
                entries@.len() == i,
                keys_valid_before(self.providers@, i as int),
                forall|j: int|
                    0 <= j < i ==> (#[trigger] entries@[j]).0@ == self.providers@[j].0@
                        && entries@[j].1.allowed() == configured_types(self.providers@[j].1),
            decreases self.providers@.len() - i,
        {
            let (name, config) = &self.providers[i];
            let provider = match config {
                ProviderConfig::File(file_config) => match file_config.load() {
                    Ok(state) => Provider::File(state),
                    Err(e) => {
                        assert(self.providers@[i as int].0@ == name@);
                        assert(!openssh_private_key_valid(configured_key(self.providers@[i as int].1)));
                        return Err(LoadError::PrivateKey(name.clone(), e));
                    },
                },
            };
            entries.push((name.clone(), provider));
            assert(keys_valid_before(self.providers@, i + 1)) by {
                assert forall|j: int| 0 <= j < i + 1 implies openssh_private_key_valid(
                    configured_key((#[trigger] self.providers@[j]).1),
                ) by {
                    if j < i {
                    }
                }
            }
            i = i + 1;
        }
        let reg = AuthorityRegistry { entries };
        assert forall|i: int| 0 <= i < reg@.len() implies (#[trigger] reg@[i]).0 == self.providers@[i].0@
            && reg@[i].1.allowed() == configured_types(self.providers@[i].1) by {
            assert(reg@[i] == (entries@[i].0@, entries@[i].1));
        }
        Ok(reg)
    }
}

} // verus!
