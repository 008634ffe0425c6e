//! Alias derivation: a cluster-local DNS name built from the project and
//! service labels of a container, present exactly when both labels are.

use vstd::prelude::*;
use vstd::string::StringExecFns;
use crate::labels::{spec_lookup, Label};
use crate::names::{project_label_key, project_key_string, service_label_key, service_key_string};
use crate::labels::lookup;

verus! {

/// The alias derived from a service and a project name:
/// `{service}.{project}.svc.cluster.local`.
pub open spec fn alias_of(service: Seq<char>, project: Seq<char>) -> Seq<char> {
    service + "."@ + project + ".svc.cluster.local"@
}

/// The alias a container's labels yield: present exactly when both the
/// service and the project label are present.
pub open spec fn spec_resolve(labels: Seq<Label>) -> Option<Seq<char>> {
    match (spec_lookup(labels, service_label_key()), spec_lookup(labels, project_label_key())) {
        (Some(s), Some(p)) => Some(alias_of(s, p)),
        _ => None,
    }
}

/// Derives the DNS alias from a container's labels.  Deterministic and free
/// of side effects: the result is a function of the labels alone.
pub fn resolve(labels: &Vec<Label>) -> (r: Option<String>)
    ensures
        r.deep_view() == spec_resolve(labels@),
{
    let service = lookup(labels, &service_key_string());
    let project = lookup(labels, &project_key_string());
    match (service, project) {
        (Some(s), Some(p)) => {
            let mut a = s;
            a.append(".");
            a.append(p.as_str());
            a.append(".svc.cluster.local");
            Some(a)
        },
        _ => None,
    }
}

} // verus!
