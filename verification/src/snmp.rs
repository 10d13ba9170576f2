//! SNMP query credentials, their banner lines, and the legacy per-address
//! credential resolution older daemons use.

use vstd::prelude::*;

use crate::ids::Uuid;
use crate::mapping::{
    BannerField, BannerFieldValue, BannerSource, CredentialMapping, IpOverride, Resolvable,
    ResolvableSecret, banner_matches, first_override_at, no_override,
};
use crate::net::IpAddress;

verus! {

/// SNMP protocol version.
#[derive(Clone, Copy, Debug, PartialEq, Eq, Structural)]
pub enum SnmpVersion {
    /// Community-string based SNMPv2c.
    V2c,
    /// SNMPv3.
    V3,
}

impl SnmpVersion {
    /// The version's name as displayed.
    pub open spec fn name(self) -> Seq<char> {
        match self {
            SnmpVersion::V2c => "V2c"@,
            SnmpVersion::V3 => "V3"@,
        }
    }

    /// The version's name as displayed.
    pub fn text(&self) -> (r: &'static str)
        ensures
            r@ == self.name(),
    {
        match self {
            SnmpVersion::V2c => "V2c",
            SnmpVersion::V3 => "V3",
        }
    }
}

/// `c` is the letter `upper` in either case.
pub open spec fn either_case(c: char, upper: char, lower: char) -> bool {
    c == upper || c == lower
}

/// The SNMP version a text names, ignoring case: `V2c`, `2c` or `2` for
/// SNMPv2c, `V3` or `3` for SNMPv3.
pub open spec fn version_named(s: Seq<char>) -> Option<SnmpVersion> {
    if (s.len() == 1 && s[0] == '2') || (s.len() == 2 && s[0] == '2' && either_case(s[1], 'C', 'c')) || (s.len()
        == 3 && either_case(s[0], 'V', 'v') && s[1] == '2' && either_case(s[2], 'C', 'c')) {
        Some(SnmpVersion::V2c)
    } else if (s.len() == 1 && s[0] == '3') || (s.len() == 2 && either_case(s[0], 'V', 'v') && s[1] == '3') {
        Some(SnmpVersion::V3)
    } else {
        None
    }
}

impl SnmpVersion {
    /// Parse a version name, ignoring case; anything else is refused with a
    /// message naming the text.
    pub fn parse(s: &str) -> (r: Result<SnmpVersion, String>)
        ensures
            match version_named(s@) {
                Some(v) => r == Ok::<SnmpVersion, String>(v),
                None => r matches Err(m) && m@ == "Invalid SNMP version: "@ + s@,
            },
    {
        let n = s.unicode_len();
        let v2c = if n == 1 {
            s.get_char(0) == '2'
        } else if n == 2 {
            let c1 = s.get_char(1);
            s.get_char(0) == '2' && (c1 == 'C' || c1 == 'c')
        } else if n == 3 {
            let c0 = s.get_char(0);
            let c2 = s.get_char(2);
            (c0 == 'V' || c0 == 'v') && s.get_char(1) == '2' && (c2 == 'C' || c2 == 'c')
        } else {
            false
        };
        if v2c {
            return Ok(SnmpVersion::V2c);
        }
        let v3 = if n == 1 {
            s.get_char(0) == '3'
        } else if n == 2 {
            let c0 = s.get_char(0);
            (c0 == 'V' || c0 == 'v') && s.get_char(1) == '3'
        } else {
            false
        };
        if v3 {
            Ok(SnmpVersion::V3)
        } else {
            Err(crate::text::join2("Invalid SNMP version: ", s))
        }
    }
}

impl Default for SnmpVersion {
    fn default() -> (r: SnmpVersion)
        ensures
            r == SnmpVersion::V2c,
    {
        SnmpVersion::V2c
    }
}

/// A query credential for SNMP: version and community.
#[derive(Clone, PartialEq, Eq)]
pub struct SnmpQueryCredential {
    pub version: SnmpVersion,
    pub community: ResolvableSecret,
}

/// An SNMP credential as plain values.
pub struct SnmpView {
    pub version: SnmpVersion,
    pub community: Resolvable,
}

/// The community every device is tried with when nothing more specific applies.
pub open spec fn public_community() -> Resolvable {
    Resolvable::Value("public"@)
}

impl SnmpQueryCredential {
    pub open spec fn view(self) -> SnmpView {
        SnmpView { version: self.version, community: self.community.view() }
    }

    /// The synthetic SNMPv2c credential with community `public`.
    pub fn public_default() -> (r: SnmpQueryCredential)
        ensures
            r.view() == (SnmpView { version: SnmpVersion::V2c, community: public_community() }),
    {
        SnmpQueryCredential {
            version: SnmpVersion::V2c,
            community: ResolvableSecret::Value { value: String::from_str("public") },
        }
    }

    /// A copy of this credential.
    pub fn duplicate(&self) -> (r: SnmpQueryCredential)
        ensures
            r.view() == self.view(),
    {
        SnmpQueryCredential { version: self.version, community: self.community.duplicate() }
    }

    /// What the banner lines of this credential report: the community, then the version.
    pub open spec fn banner_spec(self) -> Seq<(Seq<char>, BannerSource)> {
        seq![
            ("Community"@, BannerSource::Secret(self.community)),
            ("Version"@, BannerSource::Text(self.version.name())),
        ]
    }

    /// The banner lines logged for this credential.
    pub fn banner_lines(&self) -> (r: Vec<BannerField>)
        ensures
            banner_matches(r@, self.banner_spec()),
    {
        let mut lines: Vec<BannerField> = Vec::new();
        lines.push(BannerField { label: "Community", value: self.community.banner_value() });
        lines.push(
            BannerField {
                label: "Version",
                value: BannerFieldValue::Plain(String::from_str(self.version.text())),
            },
        );
        lines
    }
}

/// A legacy SNMP mapping: a network default and per-address overrides.
pub type SnmpCredentialMapping = CredentialMapping<SnmpQueryCredential>;

/// A credential paired with its server-side id, when it is host-assignable.
#[derive(Debug)]
pub struct ResolvedCredential<T> {
    pub credential: T,
    pub credential_id: Option<Uuid>,
}

/// Whether `s` holds a credential with community `c`.
pub open spec fn has_community(s: Seq<(SnmpView, Option<Uuid>)>, c: Resolvable) -> bool {
    exists|k: int| 0 <= k < s.len() && (#[trigger] s[k]).0.community == c
}

/// The credentials to try on `ip`, most specific first: its first override
/// (with its server-side id unless nil), then the network default unless its
/// community is already listed, then `public` unless already listed.
pub open spec fn by_specificity(m_default: Option<SnmpView>, ovs: Seq<IpOverride<SnmpQueryCredential>>, ip: IpAddress) -> Seq<(SnmpView, Option<Uuid>)> {
    let first: Seq<(SnmpView, Option<Uuid>)> = if no_override(ovs, ip) {
        Seq::empty()
    } else {
        let i = choose|i: int| first_override_at(ovs, ip, i);
        seq![(ovs[i].credential.view(), if ovs[i].credential_id.nil_spec() {
            None
        } else {
            Some(ovs[i].credential_id)
        })]
    };
    let with_default = match m_default {
        Some(d) => if has_community(first, d.community) {
            first
        } else {
            first.push((d, None))
        },
        None => first,
    };
    if has_community(with_default, public_community()) {
        with_default
    } else {
        with_default.push((SnmpView { version: SnmpVersion::V2c, community: public_community() }, None))
    }
}

pub open spec fn resolved_views(r: Seq<ResolvedCredential<SnmpQueryCredential>>) -> Seq<(SnmpView, Option<Uuid>)> {
    r.map_values(|c: ResolvedCredential<SnmpQueryCredential>| (c.credential.view(), c.credential_id))
}

pub open spec fn opt_snmp_view(c: Option<SnmpQueryCredential>) -> Option<SnmpView> {
    match c {
        Some(x) => Some(x.view()),
        None => None,
    }
}

fn lists_community(list: &Vec<ResolvedCredential<SnmpQueryCredential>>, c: &ResolvableSecret) -> (r: bool)
    ensures
        r == has_community(resolved_views(list@), c.view()),
{
    let mut i: usize = 0;
    while i < list.len()
        invariant
            i <= list@.len(),
            forall|k: int| 0 <= k < i ==> (#[trigger] list@[k]).credential.community.view() != c.view(),
        decreases list@.len() - i,
    {
        if list[i].credential.community.same_as(c) {
            proof {
                assert(resolved_views(list@)[i as int].0.community == c.view());
            }
            return true;
        }
        i = i + 1;
    }
    proof {
        assert forall|k: int| 0 <= k < resolved_views(list@).len() implies (#[trigger] resolved_views(list@)[k]).0.community != c.view() by {
            assert(resolved_views(list@)[k].0.community == list@[k].credential.community.view());
        }
    }
    false
}

impl CredentialMapping<SnmpQueryCredential> {
    /// The SNMP credentials to try on `ip`, most specific first, without two
    /// of the same community.
    pub fn get_credentials_by_specificity(&self, ip: &IpAddress) -> (r: Vec<ResolvedCredential<SnmpQueryCredential>>)
        ensures
            resolved_views(r@) == by_specificity(opt_snmp_view(self.default_credential), self.ip_overrides@, *ip),
    {
        let ghost ovs = self.ip_overrides@;
        let mut credentials: Vec<ResolvedCredential<SnmpQueryCredential>> = Vec::new();
        let mut i: usize = 0;
        let mut found = false;
        while !found && i < self.ip_overrides.len()
            invariant
                i <= ovs.len(),
                ovs == self.ip_overrides@,
                found ==> i < ovs.len() && ovs[i as int].ip == *ip,
                forall|j: int| 0 <= j < i ==> (#[trigger] ovs[j]).ip != *ip,
            decreases ovs.len() - i + (if found {
                0int
            } else {
                1int
            }),
        {
            if self.ip_overrides[i].ip == *ip {
                found = true;
            } else {
                i = i + 1;
            }
        }
        let ghost first: Seq<(SnmpView, Option<Uuid>)> = Seq::empty();
        if found {
            proof {
                assert(first_override_at(ovs, *ip, i as int));
                assert(!no_override(ovs, *ip));
                let c = choose|c: int| first_override_at(ovs, *ip, c);
                if c < i {
                    assert(ovs[c].ip != *ip);
                } else if c > i {
                    assert(ovs[i as int].ip != *ip);
                }
            }
            let o = &self.ip_overrides[i];
            let id = if o.credential_id.is_nil() {
                None
            } else {
                Some(o.credential_id)
            };
            credentials.push(ResolvedCredential { credential: o.credential.duplicate(), credential_id: id });
        } else {
            proof {
                assert(no_override(ovs, *ip));
            }
        }
        proof {
            assert(resolved_views(credentials@) =~= if no_override(ovs, *ip) {
                Seq::<(SnmpView, Option<Uuid>)>::empty()
            } else {
                let c = choose|c: int| first_override_at(ovs, *ip, c);
                seq![(ovs[c].credential.view(), if ovs[c].credential_id.nil_spec() {
                    None
                } else {
                    Some(ovs[c].credential_id)
                })]
            });
        }
        let ghost step1 = resolved_views(credentials@);
        match &self.default_credential {
            Some(d) => {
                if !lists_community(&credentials, &d.community) {
                    let ghost before = credentials@;
                    credentials.push(ResolvedCredential { credential: d.duplicate(), credential_id: None });
                    proof {
                        assert(resolved_views(credentials@) =~= resolved_views(before).push((d.view(), None)));
                    }
                }
            },
            None => {},
        }
        let public = SnmpQueryCredential::public_default();
        if !lists_community(&credentials, &public.community) {
            let ghost before = credentials@;
            credentials.push(ResolvedCredential { credential: public, credential_id: None });
            proof {
                assert(resolved_views(credentials@) =~= resolved_views(before).push((public.view(), None)));
            }
        }
        credentials
    }
}

// ---------------------------------------------------------------------------
// Plaintext forms sent to legacy daemons
// ---------------------------------------------------------------------------

/// An SNMP credential with its community in plain text.
#[derive(Debug)]
pub struct SnmpQueryCredentialExposed {
    pub version: SnmpVersion,
    /// The inline community; empty for a file path, which legacy daemons cannot read.
    pub community: String,
}

/// An address override with its credential in plain text.
#[derive(Debug)]
pub struct SnmpIpOverrideExposed {
    pub ip: IpAddress,
    pub credential: SnmpQueryCredentialExposed,
}

/// A legacy mapping with every credential in plain text.
#[derive(Debug)]
pub struct SnmpCredentialMappingExposed {
    pub default_credential: Option<SnmpQueryCredentialExposed>,
    pub ip_overrides: Vec<SnmpIpOverrideExposed>,
}

/// The plaintext community of a credential: the inline value, or empty for a file path.
pub open spec fn exposed_community(c: Resolvable) -> Seq<char> {
    match c {
        Resolvable::Value(v) => v,
        Resolvable::FilePath(_) => Seq::empty(),
    }
}

impl SnmpQueryCredentialExposed {
    /// The plaintext form of `cred`.
    pub fn from_credential(cred: &SnmpQueryCredential) -> (r: SnmpQueryCredentialExposed)
        ensures
            r.version == cred.version,
            r.community@ == exposed_community(cred.community.view()),
    {
        let community = match &cred.community {
            ResolvableSecret::Value { value } => value.clone(),
            ResolvableSecret::FilePath { .. } => String::new(),
        };
        SnmpQueryCredentialExposed { version: cred.version, community }
    }
}

impl SnmpCredentialMappingExposed {
    /// The plaintext form of `mapping`, overrides in order.
    pub fn from_mapping(mapping: &CredentialMapping<SnmpQueryCredential>) -> (r: SnmpCredentialMappingExposed)
        ensures
            r.default_credential is Some == mapping.default_credential is Some,
            mapping.default_credential matches Some(d) ==> (r.default_credential matches Some(e) && e.version
                == d.version && e.community@ == exposed_community(d.community.view())),
            r.ip_overrides@.len() == mapping.ip_overrides@.len(),
            forall|i: int| 0 <= i < r.ip_overrides@.len() ==> {
                let e = #[trigger] r.ip_overrides@[i];
                let o = mapping.ip_overrides@[i];
                e.ip == o.ip && e.credential.version == o.credential.version && e.credential.community@
                    == exposed_community(o.credential.community.view())
            },
    {
        let default_credential = match &mapping.default_credential {
            Some(d) => Some(SnmpQueryCredentialExposed::from_credential(d)),
            None => None,
        };
        let mut ip_overrides: Vec<SnmpIpOverrideExposed> = Vec::new();
        let mut i: usize = 0;
        while i < mapping.ip_overrides.len()
            invariant
                i <= mapping.ip_overrides@.len(),
                ip_overrides@.len() == i,
                forall|k: int| 0 <= k < i ==> {
                    let e = #[trigger] ip_overrides@[k];
                    let o = mapping.ip_overrides@[k];
                    e.ip == o.ip && e.credential.version == o.credential.version && e.credential.community@
                        == exposed_community(o.credential.community.view())
                },
            decreases mapping.ip_overrides@.len() - i,
        {
            let o = &mapping.ip_overrides[i];
            ip_overrides.push(
                SnmpIpOverrideExposed { ip: o.ip, credential: SnmpQueryCredentialExposed::from_credential(&o.credential) },
            );
            i = i + 1;
        }
        SnmpCredentialMappingExposed { default_credential, ip_overrides }
    }
}

} // verus!
