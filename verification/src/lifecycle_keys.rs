//! State-store keys for provider configuration, provenance and state.

use vstd::prelude::*;
use vstd::string::*;
use crate::text::{trim, trimmed, views};

verus! {

#[derive(Debug, Clone, PartialEq, Eq)]
pub struct ProviderProvenance {
    pub describe_hash: String,
    pub artifact_digest: String,
    pub schema_hash: String,
}

pub open spec fn opt_str_view(o: Option<&str>) -> Option<Seq<char>> {
    match o {
        Some(s) => Some(s@),
        None => None,
    }
}

/// The trimmed team, when it is not blank.
pub open spec fn team_of(team: Option<Seq<char>>) -> Option<Seq<char>> {
    match team {
        Some(t) => if trimmed(t).len() > 0 {
            Some(trimmed(t))
        } else {
            None
        },
        None => None,
    }
}

/// `providers:messaging:{provider}:tenants:{tenant}[:teams:{team}]`, with each
/// part trimmed and a blank team left out.
pub open spec fn base_key_of(provider: Seq<char>, tenant: Seq<char>, team: Option<Seq<char>>) -> Seq<
    char,
> {
    "providers:messaging:"@ + trimmed(provider) + ":tenants:"@ + trimmed(tenant) + match team_of(
        team,
    ) {
        Some(t) => ":teams:"@ + t,
        None => Seq::empty(),
    }
}

pub open spec fn config_key_of(provider: Seq<char>, tenant: Seq<char>, team: Option<Seq<char>>) -> Seq<
    char,
> {
    base_key_of(provider, tenant, team) + ":config"@
}

pub open spec fn provenance_key_of(
    provider: Seq<char>,
    tenant: Seq<char>,
    team: Option<Seq<char>>,
) -> Seq<char> {
    base_key_of(provider, tenant, team) + ":provenance"@
}

pub open spec fn state_key_of(
    provider: Seq<char>,
    tenant: Seq<char>,
    team: Option<Seq<char>>,
    state: Seq<char>,
) -> Seq<char> {
    base_key_of(provider, tenant, team) + ":state:"@ + trimmed(state)
}

/// The pre-0.6 key bases: three for the tenant, and three more for a
/// non-blank team.
pub open spec fn legacy_bases_of(provider: Seq<char>, tenant: Seq<char>, team: Option<Seq<char>>) -> Seq<
    Seq<char>,
> {
    let p = trimmed(provider);
    let t = trimmed(tenant);
    seq![
        "providers:"@ + p + ":tenants:"@ + t,
        "messaging:"@ + p + ":tenants:"@ + t,
        "messaging:"@ + p + ":tenant:"@ + t,
    ] + match team_of(team) {
        Some(tm) => seq![
            "providers:"@ + p + ":tenants:"@ + t + ":teams:"@ + tm,
            "messaging:"@ + p + ":tenants:"@ + t + ":teams:"@ + tm,
            "messaging:"@ + p + ":tenant:"@ + t + ":team:"@ + tm,
        ],
        None => Seq::empty(),
    }
}

pub open spec fn with_suffix(bases: Seq<Seq<char>>, suffix: Seq<char>) -> Seq<Seq<char>> {
    bases.map_values(|b: Seq<char>| b + suffix)
}

fn trimmed_team(team_id: Option<&str>) -> (r: Option<String>)
    ensures
        match r {
            Some(t) => team_of(opt_str_view(team_id)) == Some(t@),
            None => team_of(opt_str_view(team_id)) is None,
        },
{
    match team_id {
        Some(t) => {
            let tt = trim(t);
            if tt.as_str().is_empty() {
                None
            } else {
                Some(tt)
            }
        },
        None => None,
    }
}

fn base_key(provider_id: &str, tenant_id: &str, team_id: Option<&str>) -> (r: String)
    ensures
        r@ == base_key_of(provider_id@, tenant_id@, opt_str_view(team_id)),
{
    let provider = trim(provider_id);
    let tenant = trim(tenant_id);
    let mut key = String::from_str("providers:messaging:");
    key.append(provider.as_str());
    key.append(":tenants:");
    key.append(tenant.as_str());
    let ghost k0 = key@;
    match trimmed_team(team_id) {
        Some(team) => {
            key.append(":teams:");
            key.append(team.as_str());
            assert(key@ =~= k0 + (":teams:"@ + team@));
        },
        None => {
            assert(key@ =~= k0 + Seq::<char>::empty());
        },
    }
    key
}

pub fn messaging_config_key(provider_id: &str, tenant_id: &str, team_id: Option<&str>) -> (r: String)
    ensures
        r@ == config_key_of(provider_id@, tenant_id@, opt_str_view(team_id)),
{
    let mut key = base_key(provider_id, tenant_id, team_id);
    key.append(":config");
    key
}

pub fn messaging_provenance_key(provider_id: &str, tenant_id: &str, team_id: Option<&str>) -> (r:
    String)
    ensures
        r@ == provenance_key_of(provider_id@, tenant_id@, opt_str_view(team_id)),
{
    let mut key = base_key(provider_id, tenant_id, team_id);
    key.append(":provenance");
    key
}

pub fn messaging_state_key(
    provider_id: &str,
    tenant_id: &str,
    team_id: Option<&str>,
    state_name: &str,
) -> (r: String)
    ensures
        r@ == state_key_of(provider_id@, tenant_id@, opt_str_view(team_id), state_name@),
{
    let mut key = base_key(provider_id, tenant_id, team_id);
    key.append(":state:");
    let s = trim(state_name);
    key.append(s.as_str());
    key
}

fn legacy_base_keys(provider_id: &str, tenant_id: &str, team_id: Option<&str>) -> (r: Vec<String>)
    ensures
        views(r@) == legacy_bases_of(provider_id@, tenant_id@, opt_str_view(team_id)),
{
    let p = trim(provider_id);
    let t = trim(tenant_id);
    let mut b1 = String::from_str("providers:");
    b1.append(p.as_str());
    b1.append(":tenants:");
    b1.append(t.as_str());
    let mut b2 = String::from_str("messaging:");
    b2.append(p.as_str());
    b2.append(":tenants:");
    b2.append(t.as_str());
    let mut b3 = String::from_str("messaging:");
    b3.append(p.as_str());
    b3.append(":tenant:");
    b3.append(t.as_str());
    let mut bases: Vec<String> = Vec::new();
    bases.push(b1);
    bases.push(b2);
    bases.push(b3);
    let ghost first = views(bases@);
    assert(first =~= seq![
        "providers:"@ + p@ + ":tenants:"@ + t@,
        "messaging:"@ + p@ + ":tenants:"@ + t@,
        "messaging:"@ + p@ + ":tenant:"@ + t@,
    ]);
    match trimmed_team(team_id) {
        Some(team) => {
            let mut b4 = String::from_str("providers:");
            b4.append(p.as_str());
            b4.append(":tenants:");
            b4.append(t.as_str());
            b4.append(":teams:");
            b4.append(team.as_str());
            let mut b5 = String::from_str("messaging:");
            b5.append(p.as_str());
            b5.append(":tenants:");
            b5.append(t.as_str());
            b5.append(":teams:");
            b5.append(team.as_str());
            let mut b6 = String::from_str("messaging:");
            b6.append(p.as_str());
            b6.append(":tenant:");
            b6.append(t.as_str());
            b6.append(":team:");
            b6.append(team.as_str());
            bases.push(b4);
            bases.push(b5);
            bases.push(b6);
            assert(views(bases@) =~= legacy_bases_of(provider_id@, tenant_id@, opt_str_view(team_id)));
        },
        None => {
            assert(views(bases@) =~= legacy_bases_of(provider_id@, tenant_id@, opt_str_view(team_id)));
        },
    }
    bases
}

fn suffixed(bases: Vec<String>, suffix: &str) -> (r: Vec<String>)
    ensures
        views(r@) == with_suffix(views(bases@), suffix@),
{
    let mut out: Vec<String> = Vec::new();
    let mut i: usize = 0;
    while i < bases.len()
        invariant
            i <= bases.len(),
            views(out@) == with_suffix(views(bases@), suffix@).take(i as int),
        decreases bases.len() - i,
    {
        let mut k = bases[i].clone();
        k.append(suffix);
        let ghost before = out@;
        out.push(k);
        assert(out@ == before.push(k));
        assert(views(before.push(k)) =~= views(before).push(k@));
        assert(views(bases@)[i as int] == bases@[i as int]@);
        assert(with_suffix(views(bases@), suffix@).take(i + 1) =~= with_suffix(views(bases@), suffix@).take(i as int).push(k@));
        assert(views(out@) =~= with_suffix(views(bases@), suffix@).take(i + 1));
        i += 1;
    }
    assert(with_suffix(views(bases@), suffix@).take(i as int) =~= with_suffix(views(bases@), suffix@));
    out
}

/// Known pre-0.6 key candidates to probe during best-effort migration.
pub fn legacy_messaging_config_keys(provider_id: &str, tenant_id: &str, team_id: Option<&str>) -> (r:
    Vec<String>)
    ensures
        views(r@) == with_suffix(
            legacy_bases_of(provider_id@, tenant_id@, opt_str_view(team_id)),
            ":config"@,
        ),
{
    suffixed(legacy_base_keys(provider_id, tenant_id, team_id), ":config")
}

/// Known pre-0.6 provenance key candidates to probe during best-effort migration.
pub fn legacy_messaging_provenance_keys(
    provider_id: &str,
    tenant_id: &str,
    team_id: Option<&str>,
) -> (r: Vec<String>)
    ensures
        views(r@) == with_suffix(
            legacy_bases_of(provider_id@, tenant_id@, opt_str_view(team_id)),
            ":provenance"@,
        ),
{
    suffixed(legacy_base_keys(provider_id, tenant_id, team_id), ":provenance")
}

/// A blank team scope gives the same keys as no team scope.
pub proof fn law_blank_team_is_no_team(provider: Seq<char>, tenant: Seq<char>, team: Seq<char>)
    requires
        trimmed(team).len() == 0,
    ensures
        config_key_of(provider, tenant, Some(team)) == config_key_of(provider, tenant, None),
        provenance_key_of(provider, tenant, Some(team)) == provenance_key_of(provider, tenant, None),
        forall|s: Seq<char>|
            state_key_of(provider, tenant, Some(team), s) == state_key_of(provider, tenant, None, s),
        legacy_bases_of(provider, tenant, Some(team)) == legacy_bases_of(provider, tenant, None),
{
}

/// Configuration, provenance and state keys all extend one base key, and
/// differ in what follows it.
pub proof fn law_keys_share_base(
    provider: Seq<char>,
    tenant: Seq<char>,
    team: Option<Seq<char>>,
    state: Seq<char>,
)
    ensures
        config_key_of(provider, tenant, team).take(base_key_of(provider, tenant, team).len() as int)
            == base_key_of(provider, tenant, team),
        provenance_key_of(provider, tenant, team).take(
            base_key_of(provider, tenant, team).len() as int,
        ) == base_key_of(provider, tenant, team),
        state_key_of(provider, tenant, team, state).take(
            base_key_of(provider, tenant, team).len() as int,
        ) == base_key_of(provider, tenant, team),
        config_key_of(provider, tenant, team) != provenance_key_of(provider, tenant, team),
{
    let b = base_key_of(provider, tenant, team);
    assert(config_key_of(provider, tenant, team).take(b.len() as int) =~= b);
    assert(provenance_key_of(provider, tenant, team).take(b.len() as int) =~= b);
    assert(state_key_of(provider, tenant, team, state).take(b.len() as int) =~= b);
    reveal_strlit(":config");
    reveal_strlit(":provenance");
    assert(config_key_of(provider, tenant, team)[b.len() as int + 1] == 'c');
    assert(provenance_key_of(provider, tenant, team)[b.len() as int + 1] == 'p');
}

/// Without a team the legacy candidates are the three tenant-level keys;
/// with a non-blank team there are six.
pub proof fn law_legacy_candidate_count(provider: Seq<char>, tenant: Seq<char>, team: Option<Seq<char>>)
    ensures
        legacy_bases_of(provider, tenant, team).len() == if team_of(team) is Some {
            6nat
        } else {
            3nat
        },
{
}

} // verus!
