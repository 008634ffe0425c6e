//! The endpoint configuration handed to a connect-to-network call: at most
//! one DNS alias, present exactly when alias derivation succeeds.

use vstd::prelude::*;
use crate::alias::{alias_of, resolve, spec_resolve};
use crate::labels::{spec_lookup, Label};
use crate::names::{project_label_key, service_label_key};

verus! {

/// The value object for one attach call.  `aliases` mirrors the runtime's
/// endpoint settings: `None` means no alias list at all, `Some` carries the
/// single derived alias.
pub struct EndpointConfig {
    pub aliases: Option<Vec<String>>,
}

impl EndpointConfig {
    /// The alias list as a sequence of character sequences.
    pub open spec fn alias_views(self) -> Seq<Seq<char>> {
        match self.aliases {
            Some(v) => v.deep_view(),
            None => Seq::empty(),
        }
    }
}

/// The alias list a container's labels call for: exactly one entry when both
/// orchestration labels are present, none otherwise.
pub open spec fn spec_endpoint_aliases(labels: Seq<Label>) -> Seq<Seq<char>> {
    match spec_resolve(labels) {
        Some(a) => seq![a],
        None => Seq::empty(),
    }
}

/// Builds the endpoint configuration for one attach call from the
/// container's labels.
pub fn build_endpoint(labels: &Vec<Label>) -> (r: EndpointConfig)
    ensures
        r.alias_views() == spec_endpoint_aliases(labels@),
        r.aliases is Some <==> spec_resolve(labels@) is Some,
{
    match resolve(labels) {
        Some(a) => {
            let mut v: Vec<String> = Vec::new();
            v.push(a);
            proof {
                assert(v.deep_view() =~= spec_endpoint_aliases(labels@));
            }
            EndpointConfig { aliases: Some(v) }
        },
        None => EndpointConfig { aliases: None },
    }
}

/// A container whose configuration carries both orchestration labels is
/// attached with exactly one alias: the derived cluster-local name.
pub proof fn lemma_attach_with_alias(labels: Seq<Label>, service: Seq<char>, project: Seq<char>)
    requires
        spec_lookup(labels, service_label_key()) == Some(service),
        spec_lookup(labels, project_label_key()) == Some(project),
    ensures
        spec_endpoint_aliases(labels).len() == 1,
        spec_endpoint_aliases(labels)[0] == alias_of(service, project),
{
}

} // verus!
