//! The attributes to embed in one certificate.

use vstd::prelude::*;
use crate::attrs::{AttrMap, AttrSeq, attr_set, attr_unset};

verus! {

/// Which kind of certificate to issue.
#[derive(Clone, Copy, Debug, PartialEq, Eq, Structural)]
pub enum CertType {
    User,
    Host,
}

/// The abstract form of a list of strings.
pub open spec fn strings_of(v: Seq<String>) -> Seq<Seq<char>> {
    v.map_values(|s: String| s@)
}

/// `s` with `p` appended, unless it is already there.
pub open spec fn add_unique(s: Seq<Seq<char>>, p: Seq<char>) -> Seq<Seq<char>> {
    if s.contains(p) {
        s
    } else {
        s.push(p)
    }
}

/// `s` with each of `ps` added in turn by `add_unique`.
pub open spec fn add_all(s: Seq<Seq<char>>, ps: Seq<Seq<char>>) -> Seq<Seq<char>>
    decreases ps.len(),
{
    if ps.len() == 0 {
        s
    } else {
        add_unique(add_all(s, ps.drop_last()), ps.last())
    }
}

/// Adding at least one principal leaves at least one.
pub proof fn lemma_add_all_nonempty(s: Seq<Seq<char>>, ps: Seq<Seq<char>>)
    requires
        ps.len() > 0,
    ensures
        add_all(s, ps).len() > 0,
{
    let before = add_all(s, ps.drop_last());
    if !before.contains(ps.last()) {
        assert(before.push(ps.last())[before.len() as int] == ps.last());
    }
}

/// The abstract contents of [`CertificateOptions`].
pub struct OptionsView {
    pub public_key: ssh_key::PublicKey,
    pub cert_type: CertType,
    pub validity: Option<u64>,
    pub principals: Seq<Seq<char>>,
    pub key_id: Option<Seq<char>>,
    pub comment: Option<Seq<char>>,
    pub extensions: AttrSeq,
    pub critical_options: AttrSeq,
}

/// The abstract form of an optional string.
pub open spec fn opt_view(s: Option<String>) -> Option<Seq<char>> {
    match s {
        Some(v) => Some(v@),
        None => None,
    }
}

/// The options of a fresh certificate: only the key and the type are set.
pub open spec fn empty_options(public_key: ssh_key::PublicKey, cert_type: CertType) -> OptionsView {
    OptionsView {
        public_key,
        cert_type,
        validity: None,
        principals: Seq::empty(),
        key_id: None,
        comment: None,
        extensions: Seq::empty(),
        critical_options: Seq::empty(),
    }
}

/// The attributes of one certificate to be signed. Principals form a set
/// that keeps the order of first insertion.
pub struct CertificateOptions {
    public_key: ssh_key::PublicKey,
    cert_type: CertType,
    validity: Option<u64>,
    principals: Vec<String>,
    key_id: Option<String>,
    comment: Option<String>,
    extensions: AttrMap,
    critical_options: AttrMap,
}

impl View for CertificateOptions {
    type V = OptionsView;

    closed spec fn view(&self) -> OptionsView {
        OptionsView {
            public_key: self.public_key,
            cert_type: self.cert_type,
            validity: self.validity,
            principals: strings_of(self.principals@),
            key_id: opt_view(self.key_id),
            comment: opt_view(self.comment),
            extensions: self.extensions@,
            critical_options: self.critical_options@,
        }
    }
}

impl CertificateOptions {
    #[verifier::type_invariant]
    spec fn inv(&self) -> bool {
        strings_of(self.principals@).no_duplicates()
    }

    /// Options for `public_key` with no attributes set.
    pub fn new(public_key: ssh_key::PublicKey, cert_type: CertType) -> (r: Self)
        ensures
            r@ == empty_options(public_key, cert_type),
    {
        let principals: Vec<String> = Vec::new();
        assert(strings_of(principals@) =~= Seq::<Seq<char>>::empty());
        CertificateOptions {
            public_key,
            cert_type,
            validity: None,
            principals,
            key_id: None,
            comment: None,
            extensions: AttrMap::new(),
            critical_options: AttrMap::new(),
        }
    }

    /// Options for a user certificate.
    pub fn new_user(public_key: ssh_key::PublicKey) -> (r: Self)
        ensures
            r@ == empty_options(public_key, CertType::User),
    {
        Self::new(public_key, CertType::User)
    }

    /// Options for a host certificate.
    pub fn new_host(public_key: ssh_key::PublicKey) -> (r: Self)
        ensures
            r@ == empty_options(public_key, CertType::Host),
    {
        Self::new(public_key, CertType::Host)
    }

    pub fn public_key(&self) -> (r: &ssh_key::PublicKey)
        ensures
            *r == self@.public_key,
    {
        &self.public_key
    }

    pub fn cert_type(&self) -> (r: CertType)
        ensures
            r == self@.cert_type,
    {
        self.cert_type
    }

    /// Adds a principal; one that is already present is left where it is.
    pub fn add_principal(&mut self, principal: String)
        ensures
            final(self)@ == (OptionsView {
                principals: add_unique(old(self)@.principals, principal@),
                ..old(self)@
            }),
    {
        proof {
            use_type_invariant(&*self);
        }
        let ghost p0 = strings_of(self.principals@);
        let mut i: usize = 0;
        while i < self.principals.len()
            invariant
                0 <= i <= self.principals@.len(),
                p0 == strings_of(self.principals@),
                forall|j: int| 0 <= j < i ==> p0[j] != principal@,
            decreases self.principals@.len() - i,
        {
            if self.principals[i] == principal {
                assert(p0[i as int] == principal@);
                assert(p0.contains(principal@));
                return;
            }
            i = i + 1;
        }
        assert(!p0.contains(principal@));
        let mut principals: Vec<String> = Vec::new();
        std::mem::swap(&mut principals, &mut self.principals);
        let ghost pv = principal@;
        principals.push(principal);
        assert(strings_of(principals@) =~= p0.push(pv));
        self.principals = principals;
    }

    /// Removes every principal.
    pub fn clear_principals(&mut self)
        ensures
            final(self)@ == (OptionsView { principals: Seq::empty(), ..old(self)@ }),
    {
        proof {
            use_type_invariant(&*self);
        }
        let principals: Vec<String> = Vec::new();
        assert(strings_of(principals@) =~= Seq::<Seq<char>>::empty());
        self.principals = principals;
    }

    /// The principals, in order of insertion.
    pub fn principals(&self) -> (r: &Vec<String>)
        ensures
            strings_of(r@) == self@.principals,
            self@.principals.no_duplicates(),
    {
        proof {
            use_type_invariant(self);
        }
        &self.principals
    }

    pub fn set_validity(&mut self, validity: u64)
        ensures
            final(self)@ == (OptionsView { validity: Some(validity), ..old(self)@ }),
    {
        proof {
            use_type_invariant(&*self);
        }
        self.validity = Some(validity);
    }

    pub fn clear_validity(&mut self)
        ensures
            final(self)@ == (OptionsView { validity: None, ..old(self)@ }),
    {
        proof {
            use_type_invariant(&*self);
        }
        self.validity = None;
    }

    pub fn validity(&self) -> (r: Option<u64>)
        ensures
            r == self@.validity,
    {
        self.validity
    }

    pub fn set_key_id(&mut self, key_id: String)
        ensures
            final(self)@ == (OptionsView { key_id: Some(key_id@), ..old(self)@ }),
    {
        proof {
            use_type_invariant(&*self);
        }
        self.key_id = Some(key_id);
    }

    pub fn clear_key_id(&mut self)
        ensures
            final(self)@ == (OptionsView { key_id: None, ..old(self)@ }),
    {
        proof {
            use_type_invariant(&*self);
        }
        self.key_id = None;
    }

    pub fn key_id(&self) -> (r: Option<&str>)
        ensures
            match r {
                Some(k) => self@.key_id == Some(k@),
                None => self@.key_id is None,
            },
    {
        match &self.key_id {
            Some(k) => Some(k.as_str()),
            None => None,
        }
    }

    pub fn set_comment(&mut self, comment: String)
        ensures
            final(self)@ == (OptionsView { comment: Some(comment@), ..old(self)@ }),
    {
        proof {
            use_type_invariant(&*self);
        }
        self.comment = Some(comment);
    }

    pub fn clear_comment(&mut self)
        ensures
            final(self)@ == (OptionsView { comment: None, ..old(self)@ }),
    {
        proof {
            use_type_invariant(&*self);
        }
        self.comment = None;
    }

    pub fn comment(&self) -> (r: Option<&str>)
        ensures
            match r {
                Some(c) => self@.comment == Some(c@),
                None => self@.comment is None,
            },
    {
        match &self.comment {
            Some(c) => Some(c.as_str()),
            None => None,
        }
    }

    pub fn set_extension(&mut self, extension: String, value: String)
        ensures
            final(self)@ == (OptionsView {
                extensions: attr_set(old(self)@.extensions, extension@, value@),
                ..old(self)@
            }),
    {
        proof {
            use_type_invariant(&*self);
        }
        let mut map = AttrMap::new();
        std::mem::swap(&mut map, &mut self.extensions);
        map.set(extension, value);
        self.extensions = map;
    }

    pub fn unset_extension(&mut self, extension: &String)
        ensures
            final(self)@ == (OptionsView {
                extensions: attr_unset(old(self)@.extensions, extension@),
                ..old(self)@
            }),
    {
        proof {
            use_type_invariant(&*self);
        }
        let mut map = AttrMap::new();
        std::mem::swap(&mut map, &mut self.extensions);
        map.unset(extension);
        self.extensions = map;
    }

    pub fn clear_extensions(&mut self)
        ensures
            final(self)@ == (OptionsView { extensions: Seq::empty(), ..old(self)@ }),
    {
        proof {
            use_type_invariant(&*self);
        }
        let mut map = AttrMap::new();
        std::mem::swap(&mut map, &mut self.extensions);
        map.clear();
        self.extensions = map;
    }

    /// Replaces all extensions by a copy of `extensions`.
    pub fn replace_extensions(&mut self, extensions: &AttrMap)
        ensures
            final(self)@ == (OptionsView { extensions: extensions@, ..old(self)@ }),
    {
        proof {
            use_type_invariant(&*self);
        }
        self.extensions = extensions.duplicate();
    }

    /// The extensions, in order of insertion.
    pub fn extensions(&self) -> (r: &AttrMap)
        ensures
            r@ == self@.extensions,
    {
        &self.extensions
    }

    pub fn set_critical_option(&mut self, critical_option: String, value: String)
        ensures
            final(self)@ == (OptionsView {
                critical_options: attr_set(old(self)@.critical_options, critical_option@, value@),
                ..old(self)@
            }),
    {
        proof {
            use_type_invariant(&*self);
        }
        let mut map = AttrMap::new();
        std::mem::swap(&mut map, &mut self.critical_options);
        map.set(critical_option, value);
        self.critical_options = map;
    }

    pub fn unset_critical_option(&mut self, critical_option: &String)
        ensures
            final(self)@ == (OptionsView {
                critical_options: attr_unset(old(self)@.critical_options, critical_option@),
                ..old(self)@
            }),
    {
        proof {
            use_type_invariant(&*self);
        }
        let mut map = AttrMap::new();
        std::mem::swap(&mut map, &mut self.critical_options);
        map.unset(critical_option);
        self.critical_options = map;
    }

    pub fn clear_critical_options(&mut self)
        ensures
            final(self)@ == (OptionsView { critical_options: Seq::empty(), ..old(self)@ }),
    {
        proof {
            use_type_invariant(&*self);
        }
        let mut map = AttrMap::new();
        std::mem::swap(&mut map, &mut self.critical_options);
        map.clear();
        self.critical_options = map;
    }

    /// Replaces all critical options by a copy of `critical_options`.
    pub fn replace_critical_options(&mut self, critical_options: &AttrMap)
        ensures
            final(self)@ == (OptionsView { critical_options: critical_options@, ..old(self)@ }),
    {
        proof {
            use_type_invariant(&*self);
        }
        self.critical_options = critical_options.duplicate();
    }

    /// The critical options, in order of insertion.
    pub fn critical_options(&self) -> (r: &AttrMap)
        ensures
            r@ == self@.critical_options,
    {
        &self.critical_options
    }
}

} // verus!
