//! AI orchestrator decisions: which provider serves a task, which model it is asked for,
//! and what is recorded when its stream completes.
use vstd::prelude::*;

use crate::ai::task::{RoutingPreference, StreamChunk};
use crate::error::ProviderError;
use crate::text::{owned, str_eq};

verus! {

/// The token limit the orchestrator asks every provider for.
pub const DEFAULT_MAX_TOKENS: u32 = 4096;

/// The model the orchestrator asks a provider for, by provider name; the cloud provider
/// is asked for the configured cloud model.
pub open spec fn default_model_text(provider: Seq<char>, cloud_model: Seq<char>) -> Seq<char> {
    if provider == "ollama"@ {
        "llama3.2"@
    } else if provider == "anthropic"@ {
        cloud_model
    } else if provider == "mock"@ {
        "mock-model"@
    } else {
        provider
    }
}

pub fn default_model_for(provider_name: &str, cloud_model: &str) -> (r: String)
    ensures
        r@ == default_model_text(provider_name@, cloud_model@),
{
    if str_eq(provider_name, "ollama") {
        owned("llama3.2")
    } else if str_eq(provider_name, "anthropic") {
        owned(cloud_model)
    } else if str_eq(provider_name, "mock") {
        owned("mock-model")
    } else {
        owned(provider_name)
    }
}

/// The provider chosen for a task: the index of the first available local or cloud provider.
#[derive(Debug, Clone, Copy, PartialEq, Eq, Structural)]
pub enum Route {
    Local(usize),
    Cloud(usize),
}

/// Whether the local providers are probed for this preference (local and auto).
pub fn probes_local(preferred: RoutingPreference) -> (r: bool)
    ensures
        r == (preferred != RoutingPreference::Cloud),
{
    match preferred {
        RoutingPreference::Cloud => false,
        _ => true,
    }
}

/// Whether the cloud providers are probed: for cloud, and for auto when no local
/// provider was available.
pub fn probes_cloud(preferred: RoutingPreference, local_found: bool) -> (r: bool)
    ensures
        r == (preferred == RoutingPreference::Cloud || (preferred == RoutingPreference::Auto
            && !local_found)),
{
    match preferred {
        RoutingPreference::Cloud => true,
        RoutingPreference::Auto => !local_found,
        RoutingPreference::Local => false,
    }
}

/// The route of a task from the first available local and cloud providers (`None` when
/// none is available or when they were not probed). Local uses only local providers;
/// cloud only cloud providers; auto prefers local and falls back to cloud.
pub open spec fn route_for(preferred: RoutingPreference, local: Option<usize>, cloud: Option<usize>) -> Option<Route> {
    match preferred {
        RoutingPreference::Local => match local {
            Some(i) => Some(Route::Local(i)),
            None => None,
        },
        RoutingPreference::Auto => match local {
            Some(i) => Some(Route::Local(i)),
            None => match cloud {
                Some(j) => Some(Route::Cloud(j)),
                None => None,
            },
        },
        RoutingPreference::Cloud => match cloud {
            Some(j) => Some(Route::Cloud(j)),
            None => None,
        },
    }
}

/// Resolves the provider of a task; with none available it fails with the provider kind
/// that was required ("local" for local and auto, "cloud" for cloud).
pub fn resolve_route(preferred: RoutingPreference, local: Option<usize>, cloud: Option<usize>) -> (r:
    Result<Route, ProviderError>)
    ensures
        match route_for(preferred, local, cloud) {
            Some(route) => r == Ok::<Route, ProviderError>(route),
            None => r matches Err(ProviderError::Unavailable { provider }) && provider@ == (
            if preferred == RoutingPreference::Cloud {
                "cloud"@
            } else {
                "local"@
            }),
        },
{
    match preferred {
        RoutingPreference::Local | RoutingPreference::Auto => {
            if let Some(i) = local {
                return Ok(Route::Local(i));
            }
            if preferred == RoutingPreference::Auto {
                if let Some(j) = cloud {
                    return Ok(Route::Cloud(j));
                }
            }
            Err(ProviderError::Unavailable { provider: owned("local") })
        },
        RoutingPreference::Cloud => {
            if let Some(j) = cloud {
                return Ok(Route::Cloud(j));
            }
            Err(ProviderError::Unavailable { provider: owned("cloud") })
        },
    }
}

/// The token counts recorded when a chunk completes the call: on the final chunk, the
/// reported usage with 0 for what is missing; nothing on other chunks.
pub fn completion_usage(chunk: &StreamChunk) -> (r: Option<(u32, u32)>)
    ensures
        !chunk.done ==> r is None,
        chunk.done ==> r == Some(
            match chunk.usage {
                Some(u) => (u.prompt_tokens, u.completion_tokens),
                None => (0u32, 0u32),
            },
        ),
{
    if !chunk.done {
        return None;
    }
    match chunk.usage {
        Some(u) => Some((u.prompt_tokens, u.completion_tokens)),
        None => Some((0, 0)),
    }
}

/// Local routing never reaches a cloud provider, and cloud routing never a local one.
pub proof fn lemma_routing_respects_preference(local: Option<usize>, cloud: Option<usize>)
    ensures
        !(route_for(RoutingPreference::Local, local, cloud) matches Some(Route::Cloud(_))),
        !(route_for(RoutingPreference::Cloud, local, cloud) matches Some(Route::Local(_))),
        local is Some ==> route_for(RoutingPreference::Auto, local, cloud) == route_for(
            RoutingPreference::Local,
            local,
            cloud,
        ),
{
}

} // verus!
