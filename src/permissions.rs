//! Permission rules for the abilities the AI-integration middleware asks
//! for: abilities blocked or approved for everyone, then per provider.
use vstd::prelude::*;
use crate::mcp::{ability_name, provider_debug, provider_debug_text, AiProvider, McpAbility, McpConfig};
use vstd::string::*;

verus! {

/// What `str::to_lowercase` makes of a text.
pub uninterp spec fn lower_of(s: Seq<char>) -> Seq<char>;

/// Relies on `str::to_lowercase`: the result depends on the characters alone.
#[verifier::external_body]
fn lowercase(s: &str) -> (r: String)
    ensures
        r@ == lower_of(s@),
{
    s.to_lowercase()
}

/// The key under which a provider's own rules are kept: its debug form in
/// lower case.
pub open spec fn provider_key(p: AiProvider) -> Seq<char> {
    lower_of(provider_debug(p))
}

/// Computes a provider's key.
pub fn provider_key_of(p: &AiProvider) -> (r: String)
    ensures
        r@ == provider_key(*p),
{
    let debug = provider_debug_text(p);
    lowercase(debug.as_str())
}

/// Whether a list of texts holds `s`.
pub open spec fn holds(v: Seq<String>, s: Seq<char>) -> bool {
    exists|i: int| 0 <= i < v.len() && (#[trigger] v[i])@ == s
}

/// Whether a list of texts holds `s`.
fn contains_text(v: &Vec<String>, s: &str) -> (r: bool)
    ensures
        r == holds(v@, s@),
{
    let mut i: usize = 0;
    while i < v.len()
        invariant
            i <= v@.len(),
            forall|j: int| 0 <= j < i ==> (#[trigger] v@[j])@ != s@,
        decreases v@.len() - i,
    {
        if v[i].as_str().to_owned() == s.to_owned() {
            return true;
        }
        i = i + 1;
    }
    false
}

/// Adds `s` to a list of texts unless it is there.
fn add_text(v: &mut Vec<String>, s: &str)
    ensures
        forall|t: Seq<char>| #[trigger] holds(final(v)@, t) == (holds(old(v)@, t) || t == s@),
{
    if !contains_text(v, s) {
        v.push(String::from_str(s));
        proof {
            let n = old(v)@.len() as int;
            assert forall|t: Seq<char>| #[trigger] holds(v@, t) == (holds(old(v)@, t) || t == s@) by {
                if holds(v@, t) {
                    let j = choose|j: int| 0 <= j < v@.len() && (#[trigger] v@[j])@ == t;
                    if j < n {
                        assert(old(v)@[j] == v@[j]);
                    }
                }
                if holds(old(v)@, t) {
                    let j = choose|j: int| 0 <= j < old(v)@.len() && (#[trigger] old(v)@[j])@ == t;
                    assert(old(v)@[j] == v@[j]);
                }
                if t == s@ {
                    assert(v@[n]@ == t);
                }
            }
        }
    }
}

/// Removes every `s` from a list of texts.
fn remove_text(v: &mut Vec<String>, s: &str)
    ensures
        forall|t: Seq<char>| #[trigger] holds(final(v)@, t) == (holds(old(v)@, t) && t != s@),
{
    let mut kept: Vec<String> = Vec::new();
    let mut i: usize = 0;
    while i < v.len()
        invariant
            i <= v@.len(),
            v@ == old(v)@,
            forall|t: Seq<char>| #[trigger]
                holds(kept@, t) == (t != s@ && exists|j: int| 0 <= j < i && (#[trigger] v@[j])@ == t),
        decreases v@.len() - i,
    {
        let keep = !(v[i].as_str().to_owned() == s.to_owned());
        if keep {
            let ghost before = kept@;
            kept.push(v[i].clone());
            proof {
                assert forall|t: Seq<char>| #[trigger] holds(kept@, t) == (t != s@ && exists|j: int|
                    0 <= j < i + 1 && (#[trigger] v@[j])@ == t) by {
                    if holds(kept@, t) {
                        let j = choose|j: int| 0 <= j < kept@.len() && (#[trigger] kept@[j])@ == t;
                        if j < before.len() {
                            assert(before[j] == kept@[j]);
                            assert(holds(before, t));
                        }
                    }
                    if holds(before, t) {
                        let j = choose|j: int| 0 <= j < before.len() && (#[trigger] before[j])@ == t;
                        assert(before[j] == kept@[j]);
                    }
                    if t == v@[i as int]@ {
                        assert(kept@[before.len() as int]@ == t);
                    }
                }
            }
        }
        i = i + 1;
    }
    *v = kept;
}

/// Rules of one provider.
pub struct ProviderPermission {
    pub allowed_abilities: Vec<String>,
    pub blocked_abilities: Vec<String>,
}

impl Default for ProviderPermission {
    fn default() -> (r: Self)
        ensures
            r.allowed_abilities@.len() == 0,
            r.blocked_abilities@.len() == 0,
    {
        ProviderPermission { allowed_abilities: Vec::new(), blocked_abilities: Vec::new() }
    }
}

/// The answer to a permission check.
#[derive(Debug, Clone, Copy, PartialEq, Eq, Structural)]
pub enum PermissionResult {
    Allowed,
    Denied,
    RequiresApproval,
}

/// The rules of the first entry kept under `key`, if any.
pub open spec fn rules_for(v: Seq<(String, ProviderPermission)>, key: Seq<char>) -> Option<
    ProviderPermission,
>
    decreases v.len(),
{
    if v.len() == 0 {
        None
    } else if v[0].0@ == key {
        Some(v[0].1)
    } else {
        rules_for(v.drop_first(), key)
    }
}

/// The permission manager: abilities blocked for everyone, abilities
/// approved for everyone, and per-provider rules.
pub struct PermissionManager {
    pub auto_approve: Vec<String>,
    pub blocked: Vec<String>,
    pub provider_permissions: Vec<(String, ProviderPermission)>,
}

/// The answer for the provider kept under `key` and the ability named `a`:
/// a block for everyone wins, then an approval for everyone, then the
/// provider's approval, then its block; otherwise the user is asked.
pub open spec fn permission_of(m: PermissionManager, key: Seq<char>, a: Seq<char>) -> PermissionResult {
    if holds(m.blocked@, a) {
        PermissionResult::Denied
    } else if holds(m.auto_approve@, a) {
        PermissionResult::Allowed
    } else {
        match rules_for(m.provider_permissions@, key) {
            Some(p) => if holds(p.allowed_abilities@, a) {
                PermissionResult::Allowed
            } else if holds(p.blocked_abilities@, a) {
                PermissionResult::Denied
            } else {
                PermissionResult::RequiresApproval
            },
            None => PermissionResult::RequiresApproval,
        }
    }
}

impl Default for PermissionManager {
    fn default() -> (r: Self)
        ensures
            r.auto_approve@.len() == 0,
            r.blocked@.len() == 0,
            r.provider_permissions@.len() == 0,
    {
        PermissionManager {
            auto_approve: Vec::new(),
            blocked: Vec::new(),
            provider_permissions: Vec::new(),
        }
    }
}

impl PermissionManager {
    /// The rules kept for a provider key.
    fn rules(&self, key: &str) -> (r: Option<&ProviderPermission>)
        ensures
            r matches Some(p) ==> rules_for(self.provider_permissions@, key@) == Some(*p),
            r is None ==> rules_for(self.provider_permissions@, key@) is None,
    {
        let v = &self.provider_permissions;
        let mut i: usize = 0;
        proof {
            assert(v@.subrange(0, v@.len() as int) == v@);
        }
        while i < v.len()
            invariant
                i <= v@.len(),
                v@ == self.provider_permissions@,
                rules_for(v@, key@) == rules_for(v@.subrange(i as int, v@.len() as int), key@),
            decreases v@.len() - i,
        {
            let ghost rest = v@.subrange(i as int, v@.len() as int);
            proof {
                assert(rest.drop_first() == v@.subrange(i as int + 1, v@.len() as int));
                assert(rest[0] == v@[i as int]);
            }
            if v[i].0.as_str().to_owned() == key.to_owned() {
                proof {
                    assert(rules_for(rest, key@) == Some(v@[i as int].1));
                    assert(rules_for(self.provider_permissions@, key@) == Some(v@[i as int].1));
                }
                let found = &v[i];
                return Some(&found.1);
            }
            i = i + 1;
        }
        None
    }

    /// Whether a provider may use an ability.
    pub fn check_permission(&self, provider: &AiProvider, ability: &McpAbility) -> (r:
        PermissionResult)
        ensures
            r == permission_of(*self, provider_key(*provider), ability_name(*ability)),
    {
        let name = ability.as_str();
        let key = provider_key_of(provider);
        if contains_text(&self.blocked, name) {
            return PermissionResult::Denied;
        }
        if contains_text(&self.auto_approve, name) {
            return PermissionResult::Allowed;
        }
        match self.rules(key.as_str()) {
            Some(p) => {
                if contains_text(&p.allowed_abilities, name) {
                    PermissionResult::Allowed
                } else if contains_text(&p.blocked_abilities, name) {
                    PermissionResult::Denied
                } else {
                    PermissionResult::RequiresApproval
                }
            },
            None => PermissionResult::RequiresApproval,
        }
    }

    /// Approves an ability for everyone; lifts any block of it for everyone.
    pub fn grant(&mut self, ability: &McpAbility)
        ensures
            forall|t: Seq<char>| #[trigger]
                holds(final(self).auto_approve@, t) == (holds(old(self).auto_approve@, t) || t
                    == ability_name(*ability)),
            forall|t: Seq<char>| #[trigger]
                holds(final(self).blocked@, t) == (holds(old(self).blocked@, t) && t
                    != ability_name(*ability)),
            final(self).provider_permissions == old(self).provider_permissions,
            forall|key: Seq<char>| #[trigger]
                permission_of(*final(self), key, ability_name(*ability))
                    == PermissionResult::Allowed,
    {
        add_text(&mut self.auto_approve, ability.as_str());
        remove_text(&mut self.blocked, ability.as_str());
    }

    /// Blocks an ability for everyone; withdraws any approval of it for
    /// everyone.
    pub fn block(&mut self, ability: &McpAbility)
        ensures
            forall|t: Seq<char>| #[trigger]
                holds(final(self).blocked@, t) == (holds(old(self).blocked@, t) || t
                    == ability_name(*ability)),
            forall|t: Seq<char>| #[trigger]
                holds(final(self).auto_approve@, t) == (holds(old(self).auto_approve@, t) && t
                    != ability_name(*ability)),
            final(self).provider_permissions == old(self).provider_permissions,
            forall|key: Seq<char>| #[trigger]
                permission_of(*final(self), key, ability_name(*ability))
                    == PermissionResult::Denied,
    {
        add_text(&mut self.blocked, ability.as_str());
        remove_text(&mut self.auto_approve, ability.as_str());
    }
}


/// Two providers are the same: the same kind, and for a custom one the same
/// name.
pub open spec fn same_provider(a: AiProvider, b: AiProvider) -> bool {
    match (a, b) {
        (AiProvider::Anthropic, AiProvider::Anthropic) => true,
        (AiProvider::ChatGPT, AiProvider::ChatGPT) => true,
        (AiProvider::Ollama, AiProvider::Ollama) => true,
        (AiProvider::Custom(x), AiProvider::Custom(y)) => x@ == y@,
        _ => false,
    }
}

/// Whether two providers are the same.
pub fn provider_matches(a: &AiProvider, b: &AiProvider) -> (r: bool)
    ensures
        r == same_provider(*a, *b),
{
    match (a, b) {
        (AiProvider::Anthropic, AiProvider::Anthropic) => true,
        (AiProvider::ChatGPT, AiProvider::ChatGPT) => true,
        (AiProvider::Ollama, AiProvider::Ollama) => true,
        (AiProvider::Custom(x), AiProvider::Custom(y)) => *x == *y,
        _ => false,
    }
}

/// What becomes of a request of the middleware.
#[derive(Debug, Clone, Copy, PartialEq, Eq, Structural)]
pub enum GateDecision {
    /// Run the ability.
    Execute,
    /// The provider is not among the allowed ones.
    ProviderNotAllowed,
    /// The ability is blocked for this provider.
    Denied,
    /// Queue the request for the user's approval; refuse it for now.
    AwaitApproval,
}

/// Admission of a request: the provider must be allowed; then the permission check
/// decides, and a request that needs approval waits for it where the
/// settings ask for approval, and runs otherwise.
pub open spec fn gate_spec(
    config: McpConfig,
    m: PermissionManager,
    provider: AiProvider,
    ability: McpAbility,
) -> GateDecision {
    if !(exists|i: int|
        0 <= i < config.allowed_providers@.len() && same_provider(
            #[trigger] config.allowed_providers@[i],
            provider,
        )) {
        GateDecision::ProviderNotAllowed
    } else {
        match permission_of(m, provider_key(provider), ability_name(ability)) {
            PermissionResult::Allowed => GateDecision::Execute,
            PermissionResult::Denied => GateDecision::Denied,
            PermissionResult::RequiresApproval => if config.require_approval {
                GateDecision::AwaitApproval
            } else {
                GateDecision::Execute
            },
        }
    }
}

/// Decides what becomes of a request for `ability` by `provider`.
pub fn gate_request(
    config: &McpConfig,
    m: &PermissionManager,
    provider: &AiProvider,
    ability: &McpAbility,
) -> (r: GateDecision)
    ensures
        r == gate_spec(*config, *m, *provider, *ability),
{
    let mut allowed = false;
    let mut i: usize = 0;
    while i < config.allowed_providers.len()
        invariant
            i <= config.allowed_providers@.len(),
            allowed <==> exists|j: int|
                0 <= j < i && same_provider(#[trigger] config.allowed_providers@[j], *provider),
        decreases config.allowed_providers@.len() - i,
    {
        if provider_matches(&config.allowed_providers[i], provider) {
            allowed = true;
        }
        i = i + 1;
    }
    if !allowed {
        return GateDecision::ProviderNotAllowed;
    }
    match m.check_permission(provider, ability) {
        PermissionResult::Allowed => GateDecision::Execute,
        PermissionResult::Denied => GateDecision::Denied,
        PermissionResult::RequiresApproval => {
            if config.require_approval {
                GateDecision::AwaitApproval
            } else {
                GateDecision::Execute
            }
        },
    }
}

} // verus!
