//! Whether the tool of a provider can be used.
//!
//! The tool of [`Provider::Cursor`] is usable when the host's executable
//! lookup finds it. [`Provider::ClaudeCode`] needs no command-line tool to be
//! usable, so it is always reported as available and nothing is looked up.

use vstd::prelude::*;
use vstd::string::StringExecFns;
use crate::provider::{provider_of, Provider};

verus! {

/// What the host does to learn whether a provider is available.
#[derive(Debug, Clone)]
pub enum ProbeStep {
    /// Nothing; this is the answer.
    Answer(bool),
    /// Run `utility` with `binary` as its only argument, then hand what it
    /// reported to [`check_cli_available`].
    Lookup { utility: String, binary: String },
}

/// What a [`ProbeStep`] holds, as mathematical values.
pub enum ProbeStepModel {
    Answer(bool),
    Lookup { utility: Seq<char>, binary: Seq<char> },
}

impl View for ProbeStep {
    type V = ProbeStepModel;

    open spec fn view(&self) -> ProbeStepModel {
        match self {
            ProbeStep::Answer(available) => ProbeStepModel::Answer(*available),
            ProbeStep::Lookup { utility, binary } => ProbeStepModel::Lookup {
                utility: utility@,
                binary: binary@,
            },
        }
    }
}

/// The probe of a provider.
pub open spec fn probe_planned(provider: Option<Provider>) -> ProbeStepModel {
    match provider {
        Some(Provider::Cursor) => ProbeStepModel::Lookup {
            utility: "which"@,
            binary: Provider::Cursor.program_text(),
        },
        Some(Provider::ClaudeCode) => ProbeStepModel::Answer(true),
        None => ProbeStepModel::Answer(false),
    }
}

/// The answer that a lookup gives: the tool is there only if the utility ran
/// and found it.
pub open spec fn probe_concluded(lookup: Option<bool>) -> bool {
    lookup == Some(true)
}

/// Whether a provider is available, given what a lookup of its tool would
/// report.
pub open spec fn available(provider: Option<Provider>, lookup: Option<bool>) -> bool {
    match probe_planned(provider) {
        ProbeStepModel::Answer(answer) => answer,
        ProbeStepModel::Lookup { .. } => probe_concluded(lookup),
    }
}

/// Decides how to probe the provider that `provider_type` names, whatever
/// its case. An identifier that names no provider is not available.
pub fn plan_probe(provider_type: &str) -> (r: ProbeStep)
    ensures
        r@ == probe_planned(provider_of(provider_type@)),
{
    match Provider::parse(provider_type) {
        Some(Provider::Cursor) => ProbeStep::Lookup {
            utility: String::from_str("which"),
            binary: Provider::Cursor.program_name(),
        },
        Some(Provider::ClaudeCode) => ProbeStep::Answer(true),
        None => ProbeStep::Answer(false),
    }
}

/// Reports whether the provider that `provider_type` names is available.
/// `lookup` is what a lookup of its tool reported: `Some(found)` when the
/// utility ran, `None` when it could not be run. It is only read for a
/// provider whose probe is a lookup.
pub fn check_cli_available(provider_type: &str, lookup: Option<bool>) -> (r: bool)
    ensures
        r == available(provider_of(provider_type@), lookup),
{
    match plan_probe(provider_type) {
        ProbeStep::Answer(answer) => answer,
        ProbeStep::Lookup { .. } => match lookup {
            Some(found) => found,
            None => false,
        },
    }
}

/// `ClaudeCode` is available whatever a lookup would report, and `Cursor` is
/// not available when its tool is not found or the lookup cannot be run.
pub proof fn lemma_availability(lookup: Option<bool>)
    ensures
        available(Some(Provider::ClaudeCode), lookup),
        probe_planned(Some(Provider::ClaudeCode)) is Answer,
        lookup != Some(true) ==> !available(Some(Provider::Cursor), lookup),
        !available(None, lookup),
{
}

} // verus!
