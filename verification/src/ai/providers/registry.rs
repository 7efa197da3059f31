//! Which providers the daemon registers.
use vstd::prelude::*;

verus! {

#[derive(Debug, Clone, Copy, PartialEq, Eq, Structural)]
pub enum ProviderKind {
    Mock,
    Ollama,
    Anthropic,
}

/// The local and cloud providers to register. In test mode only the mock provider, as the
/// one local provider. Otherwise Ollama locally, and the Anthropic provider in the cloud
/// when its credentials are configured.
pub fn provider_plan(test_mode: bool, cloud_configured: bool) -> (r: (Vec<ProviderKind>, Vec<ProviderKind>))
    ensures
        test_mode ==> r.0@ == seq![ProviderKind::Mock] && r.1@.len() == 0,
        !test_mode ==> r.0@ == seq![ProviderKind::Ollama] && r.1@ == (if cloud_configured {
            seq![ProviderKind::Anthropic]
        } else {
            Seq::<ProviderKind>::empty()
        }),
{
    let mut local: Vec<ProviderKind> = Vec::new();
    let mut cloud: Vec<ProviderKind> = Vec::new();
    if test_mode {
        local.push(ProviderKind::Mock);
    } else {
        local.push(ProviderKind::Ollama);
        if cloud_configured {
            cloud.push(ProviderKind::Anthropic);
        }
    }
    assert(local@ =~= if test_mode { seq![ProviderKind::Mock] } else { seq![ProviderKind::Ollama] });
    (local, cloud)
}

} // verus!
