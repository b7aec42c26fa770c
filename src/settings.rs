//! Issuance profiles: how claims select a policy, and how a policy fills in
//! certificate options.

use vstd::prelude::*;
use crate::attrs::AttrMap;
use crate::claims::{CertificateClaims, claim_get, value_matches};
use crate::options::{CertificateOptions, OptionsView, add_all, strings_of};

verus! {

/// Why `apply` refused to fill in options.
#[derive(Debug, PartialEq, Eq, Structural)]
pub enum ApplyError {
    /// The claims name no principal.
    NoPrincipals,
}

/// One issuance policy.
pub struct CertificateSettings {
    /// The name of the authority that signs under this policy.
    pub ssh_ca: String,
    /// Seconds of validity when the claims give none.
    pub validity: u64,
    pub comment: Option<String>,
    pub critical_options: Option<AttrMap>,
    pub extensions: Option<AttrMap>,
}

/// The comment: the claims' own, else the policy's, else what was there.
pub open spec fn chosen_comment(
    o: OptionsView,
    s: CertificateSettings,
    c: CertificateClaims,
) -> Option<Seq<char>> {
    match c.comment {
        Some(v) => Some(v@),
        None => match s.comment {
            Some(v) => Some(v@),
            None => o.comment,
        },
    }
}

/// A whole attribute map: the claims' own, else the policy's, else what was there.
pub open spec fn chosen_map(
    current: crate::attrs::AttrSeq,
    policy: Option<AttrMap>,
    claimed: Option<AttrMap>,
) -> crate::attrs::AttrSeq {
    match claimed {
        Some(m) => m@,
        None => match policy {
            Some(m) => m@,
            None => current,
        },
    }
}

/// The options `o` once policy `s` has been applied for claims `c`.
pub open spec fn applied(o: OptionsView, s: CertificateSettings, c: CertificateClaims) -> OptionsView {
    OptionsView {
        principals: add_all(o.principals, strings_of(c.valid_principals@)),
        validity: Some(
            match c.validity {
                Some(v) => v,
                None => s.validity,
            },
        ),
        key_id: match c.key_id {
            Some(k) => Some(k@),
            None => o.key_id,
        },
        comment: chosen_comment(o, s, c),
        extensions: chosen_map(o.extensions, s.extensions, c.extensions),
        critical_options: chosen_map(o.critical_options, s.critical_options, c.critical_options),
        ..o
    }
}

impl CertificateSettings {
    /// The name of the authority that signs under this policy.
    pub fn ssh_ca(&self) -> (r: &str)
        ensures
            r@ == self.ssh_ca@,
    {
        self.ssh_ca.as_str()
    }

    /// Fills in `options` for `claims`. Principals are added from the claims;
    /// validity, comment, extensions and critical options come from the
    /// claims when they carry them, else from this policy; a key id only from
    /// the claims. A claimed map replaces the policy's map as a whole. Without
    /// principals nothing is changed.
    pub fn apply(&self, options: &mut CertificateOptions, claims: &CertificateClaims) -> (r: Result<
        (),
        ApplyError,
    >)
        ensures
            claims.valid_principals@.len() == 0 ==> r == Err::<(), ApplyError>(
                ApplyError::NoPrincipals,
            ) && final(options)@ == old(options)@,
            claims.valid_principals@.len() > 0 ==> r is Ok && final(options)@ == applied(
                old(options)@,
                *self,
                *claims,
            ),
    {
        if claims.valid_principals.len() == 0 {
            return Err(ApplyError::NoPrincipals);
        }
        let ghost o0 = options@;
        let ghost ps = strings_of(claims.valid_principals@);
        let mut i: usize = 0;
        while i < claims.valid_principals.len()
            invariant
                0 <= i <= claims.valid_principals@.len(),
                ps == strings_of(claims.valid_principals@),
                options@ == (OptionsView { principals: add_all(o0.principals, ps.subrange(0, i as int)), ..o0 }),
            decreases claims.valid_principals@.len() - i,
        {
            let principal = claims.valid_principals[i].clone();
            options.add_principal(principal);
            assert(ps.subrange(0, i + 1).drop_last() =~= ps.subrange(0, i as int));
            i = i + 1;
        }
        assert(ps.subrange(0, ps.len() as int) =~= ps);
        match claims.validity {
            Some(v) => options.set_validity(v),
            None => options.set_validity(self.validity),
        }
        match &claims.key_id {
            Some(k) => options.set_key_id(k.clone()),
            None => {},
        }
        match &claims.comment {
            Some(c) => options.set_comment(c.clone()),
            None => match &self.comment {
                Some(c) => options.set_comment(c.clone()),
                None => {},
            },
        }
        match &claims.extensions {
            Some(m) => options.replace_extensions(m),
            None => match &self.extensions {
                Some(m) => options.replace_extensions(m),
                None => {},
            },
        }
        match &claims.critical_options {
            Some(m) => options.replace_critical_options(m),
            None => match &self.critical_options {
                Some(m) => options.replace_critical_options(m),
                None => {},
            },
        }
        assert(options@ == applied(o0, *self, *claims));
        Ok(())
    }
}

/// A rule: claims whose claim `claim` selects `value` get `settings`.
pub struct ProfileSelector {
    pub claim: String,
    pub value: String,
    pub settings: CertificateSettings,
}

/// The ordered selectors, and the policy for claims that none selects.
pub struct Profiles {
    pub map: Vec<ProfileSelector>,
    pub default: Option<CertificateSettings>,
}

/// Whether selector `sel` selects claims `c`.
pub open spec fn selects(sel: ProfileSelector, c: CertificateClaims) -> bool {
    match claim_get(c.other@, sel.claim@) {
        Some(v) => value_matches(v, sel.value@),
        None => false,
    }
}

/// Whether selector `i` is the first of `sels` that selects `c`.
pub open spec fn is_first_selector(sels: Seq<ProfileSelector>, c: CertificateClaims, i: int) -> bool {
    &&& 0 <= i < sels.len()
    &&& selects(sels[i], c)
    &&& forall|j: int| 0 <= j < i ==> !selects(#[trigger] sels[j], c)
}

/// The policy for claims `c`: that of the first selector that selects them,
/// else the default.
pub open spec fn resolve(p: Profiles, c: CertificateClaims) -> Option<CertificateSettings> {
    if exists|i: int| is_first_selector(p.map@, c, i) {
        Some(p.map@[choose|i: int| is_first_selector(p.map@, c, i)].settings)
    } else {
        p.default
    }
}

/// The first selector that selects the claims decides, whatever the
/// selectors after it would say.
pub proof fn lemma_first_selector_wins(p: Profiles, c: CertificateClaims, i: int)
    requires
        0 <= i < p.map@.len(),
        selects(p.map@[i], c),
        forall|j: int| 0 <= j < i ==> !selects(#[trigger] p.map@[j], c),
    ensures
        resolve(p, c) == Some(p.map@[i].settings),
{
    assert(is_first_selector(p.map@, c, i));
    let k = choose|k: int| is_first_selector(p.map@, c, k);
    if k < i {
        assert(!selects(p.map@[k], c));
    } else if k > i {
        assert(!selects(p.map@[i], c));
    }
}

/// Claims that no selector selects get the default, and no policy when
/// there is no default.
pub proof fn lemma_unselected_gets_default(p: Profiles, c: CertificateClaims)
    requires
        forall|j: int| 0 <= j < p.map@.len() ==> !selects(#[trigger] p.map@[j], c),
    ensures
        resolve(p, c) == p.default,
{
    assert(!exists|k: int| is_first_selector(p.map@, c, k));
}

/// A map in the claims replaces the policy's map as a whole; the two are
/// never merged.
pub proof fn lemma_claimed_maps_replace(o: OptionsView, s: CertificateSettings, c: CertificateClaims)
    ensures
        c.extensions matches Some(m) ==> applied(o, s, c).extensions == m@,
        c.critical_options matches Some(m) ==> applied(o, s, c).critical_options == m@,
        c.extensions is None ==> (s.extensions matches Some(m) ==> applied(o, s, c).extensions
            == m@),
        c.critical_options is None ==> (s.critical_options matches Some(m) ==> applied(
            o,
            s,
            c,
        ).critical_options == m@),
{
}

impl Profiles {
    /// The policy for `claims` (see `resolve`).
    pub fn lookup(&self, claims: &CertificateClaims) -> (r: Option<&CertificateSettings>)
        ensures
            match r {
                Some(s) => resolve(*self, *claims) == Some(*s),
                None => resolve(*self, *claims) is None,
            },
    {
        let mut i: usize = 0;
        while i < self.map.len()
            invariant
                0 <= i <= self.map@.len(),
                forall|j: int| 0 <= j < i ==> !selects(#[trigger] self.map@[j], *claims),
            decreases self.map@.len() - i,
        {
            let selector = &self.map[i];
            match claims.get_other(&selector.claim) {
                Some(value) => {
                    if value.matches(&selector.value) {
                        assert(is_first_selector(self.map@, *claims, i as int));
                        proof {
                            let k = choose|k: int| is_first_selector(self.map@, *claims, k);
                            if k < i {
                                assert(!selects(self.map@[k], *claims));
                            } else if k > i {
                                assert(!selects(self.map@[i as int], *claims));
                            }
                        }
                        return Some(&selector.settings);
                    }
                },
                None => {},
            }
            i = i + 1;
        }
        assert(!exists|k: int| is_first_selector(self.map@, *claims, k));
        match &self.default {
            Some(d) => Some(d),
            None => None,
        }
    }
}

} // verus!
