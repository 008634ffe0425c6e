//! The reconciliation engine over a plain model of the runtime's state: a
//! flag for the managed network's existence and the inventory of containers,
//! each with its labels and its set of attached network names.  The three
//! operations — ensuring the network, attaching one container, and the
//! startup sweep — are the engine itself; the binary around the library
//! replays them against the live runtime, one call per decision.

use vstd::prelude::*;
use crate::endpoint::{build_endpoint, spec_endpoint_aliases, EndpointConfig};
use crate::labels::Label;
use crate::names::{managed_network_name, network_name_string};

verus! {

/// One container as the engine sees it: its runtime-assigned identifier,
/// its configuration labels, and the names of the networks it is on.
pub struct ContainerState {
    pub id: String,
    pub labels: Vec<Label>,
    pub networks: Vec<String>,
}

/// Whether `target` occurs among `names`.
pub open spec fn seq_contains_name(names: Seq<String>, target: Seq<char>) -> bool {
    exists|j: int| 0 <= j < names.len() && (#[trigger] names[j])@ == target
}

/// Whether a container is a member of the managed network.
pub open spec fn on_network(c: ContainerState) -> bool {
    seq_contains_name(c.networks@, managed_network_name())
}

/// Whether `target` occurs among `names`.
pub fn has_name(names: &Vec<String>, target: &String) -> (r: bool)
    ensures
        r == seq_contains_name(names@, target@),
{
    let n = names.len();
    for j in 0..n
        invariant
            n == names.len(),
            forall|k: int| 0 <= k < j ==> (#[trigger] names@[k])@ != target@,
    {
        if names[j] == *target {
            return true;
        }
    }
    false
}

/// The backing state the engine reconciles against.
pub struct RuntimeState {
    pub network_exists: bool,
    pub containers: Vec<ContainerState>,
}

impl RuntimeState {
    /// Identifiers are runtime-assigned and unique.
    pub open spec fn wf(self) -> bool {
        forall|i: int, j: int|
            #![trigger self.containers@[i].id, self.containers@[j].id]
            0 <= i < j < self.containers@.len() ==> self.containers@[i].id@
                != self.containers@[j].id@
    }

    /// Whether a container with this identifier exists.
    pub open spec fn has_container(self, id: Seq<char>) -> bool {
        exists|i: int|
            0 <= i < self.containers@.len() && (#[trigger] self.containers@[i]).id@ == id
    }

    /// Whether the container with this identifier is on the managed network.
    pub open spec fn member(self, id: Seq<char>) -> bool {
        exists|i: int|
            0 <= i < self.containers@.len() && (#[trigger] self.containers@[i]).id@ == id
                && on_network(self.containers@[i])
    }
}

/// The outcome the ensure step reports.
#[derive(PartialEq, Eq, Structural, Clone, Copy, Debug)]
pub enum EnsureOutcome {
    /// The network was already there; nothing was done.
    AlreadyExists,
    /// The network was absent and the create call succeeded.
    Created,
    /// The network was absent and the create call failed; the watcher goes
    /// on regardless, since a later attach may find the network repaired.
    CreateFailed,
}

/// What one run of the ensure step does to the network's existence: the
/// resulting existence, the outcome reported, and how many create calls it
/// issues.
pub open spec fn spec_ensure(exists: bool) -> (bool, EnsureOutcome, nat) {
    if exists {
        (true, EnsureOutcome::AlreadyExists, 0nat)
    } else {
        (true, EnsureOutcome::Created, 1nat)
    }
}

/// Whether the ensure step must issue a create call, given whether the
/// name query found the network.
pub fn ensure_needs_create(network_found: bool) -> (r: bool)
    ensures
        r == !network_found,
{
    !network_found
}

/// The outcome the ensure step reports once its create call has returned.
pub fn ensure_outcome_after_create(create_ok: bool) -> (r: EnsureOutcome)
    ensures
        create_ok ==> r == EnsureOutcome::Created,
        !create_ok ==> r == EnsureOutcome::CreateFailed,
{
    if create_ok {
        EnsureOutcome::Created
    } else {
        EnsureOutcome::CreateFailed
    }
}

/// What the ensure step reports: its outcome and the number of create calls
/// it issued.
pub struct EnsureReport {
    pub outcome: EnsureOutcome,
    pub create_calls: u64,
}

/// Ensures the managed network exists: queries for it by name, creates it
/// exactly when the query comes back empty, and otherwise leaves the state
/// untouched.  Safe to call repeatedly.
pub fn ensure_network(s: &mut RuntimeState) -> (r: EnsureReport)
    ensures
        final(s).network_exists == spec_ensure(old(s).network_exists).0,
        r.outcome == spec_ensure(old(s).network_exists).1,
        r.create_calls as nat == spec_ensure(old(s).network_exists).2,
        final(s).containers == old(s).containers,
{
    let found = s.network_exists;
    if ensure_needs_create(found) {
        s.network_exists = true;
        let outcome = ensure_outcome_after_create(true);
        EnsureReport { outcome, create_calls: 1 }
    } else {
        EnsureReport { outcome: EnsureOutcome::AlreadyExists, create_calls: 0 }
    }
}

/// Ensuring the network twice against the same backing state creates it at
/// most once — exactly once when it was absent, never when it was already
/// there — and the second run always reports `AlreadyExists`.
pub proof fn lemma_ensure_idempotent(exists: bool)
    ensures
        spec_ensure(spec_ensure(exists).0).1 == EnsureOutcome::AlreadyExists,
        spec_ensure(exists).2 + spec_ensure(spec_ensure(exists).0).2 == (if exists {
            0nat
        } else {
            1nat
        }),
        spec_ensure(spec_ensure(exists).0).0,
{
}

/// Why an attach call failed.
#[derive(PartialEq, Eq, Structural, Clone, Copy, Debug)]
pub enum AttachError {
    /// Inspection found no container under the identifier: the identifier is
    /// stale or the daemon is unreachable.  Hard error for this call alone.
    NotFound,
    /// The runtime rejected the connect call because the container is
    /// already on the network.  Expected under the sweep/subscription race;
    /// reportable and non-fatal.
    AlreadyConnected,
}

/// What a successful attach reports: the endpoint configuration the connect
/// call carried.
pub struct AttachReport {
    pub endpoint: EndpointConfig,
}

/// The networks of a container after an attach: the old names, in order,
/// with the managed network's name added at the end.
pub open spec fn attach_updates_networks(old_n: Seq<String>, new_n: Seq<String>) -> bool {
    &&& new_n.len() == old_n.len() + 1
    &&& (forall|j: int| 0 <= j < old_n.len() ==> new_n[j] == old_n[j])
    &&& new_n.last()@ == managed_network_name()
}

/// A container after an attach: same identifier and labels, its networks
/// extended by the managed network.
pub open spec fn attach_updates_container(oldc: ContainerState, newc: ContainerState) -> bool {
    &&& newc.id == oldc.id
    &&& newc.labels == oldc.labels
    &&& attach_updates_networks(oldc.networks@, newc.networks@)
}

/// What a successful attach does to the backing state: exactly one
/// container — the one under `id`, not yet a member — gains the managed
/// network, with the alias list its labels call for; everything else is
/// untouched.
pub open spec fn connect_ok_transition(
    pre: RuntimeState,
    post: RuntimeState,
    id: Seq<char>,
    aliases: Seq<Seq<char>>,
) -> bool {
    &&& post.network_exists == pre.network_exists
    &&& post.containers@.len() == pre.containers@.len()
    &&& exists|i: int|
        {
            &&& 0 <= i < pre.containers@.len()
            &&& (#[trigger] pre.containers@[i]).id@ == id
            &&& !on_network(pre.containers@[i])
            &&& attach_updates_container(pre.containers@[i], post.containers@[i])
            &&& (forall|j: int|
                0 <= j < pre.containers@.len() && j != i ==> post.containers@[j]
                    == pre.containers@[j])
            &&& aliases == spec_endpoint_aliases(pre.containers@[i].labels@)
        }
}

/// The attach operation: inspects the container under `container_id`,
/// resolves its alias from the labels, and connects it to the managed
/// network with the resulting endpoint configuration.  An unknown
/// identifier is a hard error for this call; a container already on the
/// network is rejected by the runtime, reported and otherwise harmless —
/// either way the state is left untouched.
pub fn connect_container_to_network(s: &mut RuntimeState, container_id: &String) -> (r: Result<
    AttachReport,
    AttachError,
>)
    requires
        old(s).wf(),
    ensures
        final(s).wf(),
        r matches Err(AttachError::NotFound) <==> !old(s).has_container(container_id@),
        r matches Err(AttachError::AlreadyConnected) <==> old(s).member(container_id@),
        r is Ok <==> old(s).has_container(container_id@) && !old(s).member(container_id@),
        r is Err ==> final(s).network_exists == old(s).network_exists && final(s).containers
            == old(s).containers,
        r matches Ok(rep) ==> connect_ok_transition(
            *old(s),
            *final(s),
            container_id@,
            rep.endpoint.alias_views(),
        ),
{
    let idx = match find_container(&s.containers, container_id) {
        Some(i) => i,
        None => {
            return Err(AttachError::NotFound);
        },
    };
    proof {
        lemma_unique_index(*s, container_id@, idx as int);
    }
    let net = network_name_string();
    if has_name(&s.containers[idx].networks, &net) {
        return Err(AttachError::AlreadyConnected);
    }
    let endpoint = build_endpoint(&s.containers[idx].labels);
    let mut c = s.containers.remove(idx);
    c.networks.push(net);
    s.containers.insert(idx, c);
    proof {
        assert(s.containers@ =~= old(s).containers@.update(
            idx as int,
            s.containers@[idx as int],
        ));
    }
    Ok(AttachReport { endpoint })
}

/// The first container under `id`, if any.
fn find_container(containers: &Vec<ContainerState>, id: &String) -> (r: Option<usize>)
    ensures
        match r {
            Some(i) => i < containers@.len() && containers@[i as int].id@ == id@,
            None => forall|i: int|
                0 <= i < containers@.len() ==> (#[trigger] containers@[i]).id@ != id@,
        },
{
    let n = containers.len();
    for i in 0..n
        invariant
            n == containers.len(),
            forall|k: int| 0 <= k < i ==> (#[trigger] containers@[k]).id@ != id@,
    {
        if containers[i].id == *id {
            return Some(i);
        }
    }
    None
}

/// In a well-formed state the container under a given identifier sits at
/// exactly one index.
proof fn lemma_unique_index(s: RuntimeState, id: Seq<char>, idx: int)
    requires
        s.wf(),
        0 <= idx < s.containers@.len(),
        s.containers@[idx].id@ == id,
    ensures
        forall|i: int|
            0 <= i < s.containers@.len() && (#[trigger] s.containers@[i]).id@ == id ==> i == idx,
        s.member(id) <==> on_network(s.containers@[idx]),
{
    assert forall|i: int|
        0 <= i < s.containers@.len() && (#[trigger] s.containers@[i]).id@ == id implies i
        == idx by {
        if i < idx {
            assert(s.containers@[i].id@ != s.containers@[idx].id@);
        } else if i > idx {
            assert(s.containers@[idx].id@ != s.containers@[i].id@);
        }
    }
}

/// A successful attach establishes membership: afterwards the container is
/// on the managed network, so a second attach for the same container is
/// rejected — by the attach contract it reports `AlreadyConnected`, a
/// non-fatal error that leaves the state unchanged, and the watcher goes on.
pub proof fn lemma_duplicate_attach(
    pre: RuntimeState,
    post: RuntimeState,
    id: Seq<char>,
    aliases: Seq<Seq<char>>,
)
    requires
        connect_ok_transition(pre, post, id, aliases),
    ensures
        post.has_container(id),
        post.member(id),
{
    let i = choose|i: int|
        {
            &&& 0 <= i < pre.containers@.len()
            &&& (#[trigger] pre.containers@[i]).id@ == id
            &&& !on_network(pre.containers@[i])
            &&& attach_updates_container(pre.containers@[i], post.containers@[i])
            &&& (forall|j: int|
                0 <= j < pre.containers@.len() && j != i ==> post.containers@[j]
                    == pre.containers@[j])
            &&& aliases == spec_endpoint_aliases(pre.containers@[i].labels@)
        };
    let new_n = post.containers@[i].networks@;
    assert(new_n[new_n.len() - 1]@ == managed_network_name());
    assert(on_network(post.containers@[i]));
}

/// An attach touches nothing but its target: every container keeps its
/// identifier and labels, and every member of the managed network remains
/// one.
pub proof fn lemma_connect_preserves(
    pre: RuntimeState,
    post: RuntimeState,
    id: Seq<char>,
    aliases: Seq<Seq<char>>,
)
    requires
        connect_ok_transition(pre, post, id, aliases),
    ensures
        post.containers@.len() == pre.containers@.len(),
        forall|j: int|
            0 <= j < pre.containers@.len() ==> (#[trigger] post.containers@[j]).id
                == pre.containers@[j].id && post.containers@[j].labels
                == pre.containers@[j].labels,
        forall|j: int|
            0 <= j < pre.containers@.len() && on_network(#[trigger] pre.containers@[j])
                ==> on_network(post.containers@[j]),
{
    let i = choose|i: int|
        {
            &&& 0 <= i < pre.containers@.len()
            &&& (#[trigger] pre.containers@[i]).id@ == id
            &&& !on_network(pre.containers@[i])
            &&& attach_updates_container(pre.containers@[i], post.containers@[i])
            &&& (forall|j: int|
                0 <= j < pre.containers@.len() && j != i ==> post.containers@[j]
                    == pre.containers@[j])
            &&& aliases == spec_endpoint_aliases(pre.containers@[i].labels@)
        };
    assert forall|j: int|
        0 <= j < pre.containers@.len() && on_network(#[trigger] pre.containers@[j]) implies
        on_network(post.containers@[j]) by {
        if j == i {
        } else {
            assert(post.containers@[j] == pre.containers@[j]);
        }
    }
}

/// What the sweep reports: the identifiers it attached, in inventory order.
pub struct SweepReport {
    pub attached: Vec<String>,
}

/// The containers a sweep must attach: those not yet on the managed
/// network, in inventory order.
pub open spec fn spec_pending(cs: Seq<ContainerState>) -> Seq<ContainerState> {
    cs.filter(|c: ContainerState| !on_network(c))
}

/// The identifiers of the containers a sweep must attach.
pub open spec fn spec_pending_ids(cs: Seq<ContainerState>) -> Seq<Seq<char>> {
    spec_pending(cs).map_values(|c: ContainerState| c.id@)
}

/// The one-time startup sweep: walks the whole inventory, skips every
/// container already on the managed network, and attaches each of the
/// others, in order.  Afterwards every container is a member, and the
/// report lists exactly the containers the sweep attached.
pub fn connect_existing_containers(s: &mut RuntimeState) -> (r: SweepReport)
    requires
        old(s).wf(),
    ensures
        final(s).wf(),
        final(s).network_exists == old(s).network_exists,
        final(s).containers@.len() == old(s).containers@.len(),
        forall|i: int|
            0 <= i < old(s).containers@.len() && on_network(#[trigger] old(s).containers@[i])
                ==> final(s).containers@[i] == old(s).containers@[i],
        forall|i: int|
            0 <= i < old(s).containers@.len() && !on_network(#[trigger] old(s).containers@[i])
                ==> attach_updates_container(old(s).containers@[i], final(s).containers@[i]),
        forall|i: int|
            0 <= i < final(s).containers@.len() ==> on_network(
                #[trigger] final(s).containers@[i],
            ),
        r.attached.deep_view() == spec_pending_ids(old(s).containers@),
{
    let mut attached: Vec<String> = Vec::new();
    let net = network_name_string();
    let n = s.containers.len();
    for i in 0..n
        invariant
            n == s.containers.len(),
            n == old(s).containers@.len(),
            s.wf(),
            s.network_exists == old(s).network_exists,
            net@ == managed_network_name(),
            forall|j: int|
                i <= j < n ==> s.containers@[j] == #[trigger] old(s).containers@[j],
            forall|j: int|
                0 <= j < n ==> (#[trigger] s.containers@[j]).id == old(s).containers@[j].id,
            forall|j: int|
                0 <= j < i && on_network(#[trigger] old(s).containers@[j]) ==> s.containers@[j]
                    == old(s).containers@[j],
            forall|j: int|
                0 <= j < i && !on_network(#[trigger] old(s).containers@[j])
                    ==> attach_updates_container(old(s).containers@[j], s.containers@[j]),
            forall|j: int| 0 <= j < i ==> on_network(#[trigger] s.containers@[j]),
            attached.deep_view() == spec_pending_ids(old(s).containers@.subrange(0, i as int)),
    {
        let ghost pre_step = *s;
        let ghost sub_i = old(s).containers@.subrange(0, i as int);
        let ghost sub_i1 = old(s).containers@.subrange(0, i as int + 1);
        proof {
            assert(sub_i1.drop_last() =~= sub_i);
            assert(sub_i1.last() == old(s).containers@[i as int]);
        }
        if !has_name(&s.containers[i].networks, &net) {
            let id = s.containers[i].id.clone();
            let ghost idv = id@;
            proof {
                lemma_unique_index(pre_step, idv, i as int);
            }
            let res = connect_container_to_network(s, &id);
            let ghost attached_dv = attached.deep_view();
            attached.push(id);
            proof {
                let aliases = (match res {
                    Ok(rep) => rep.endpoint.alias_views(),
                    Err(_) => Seq::empty(),
                });
                assert(connect_ok_transition(pre_step, *s, idv, aliases));
                let k = choose|k: int|
                    {
                        &&& 0 <= k < pre_step.containers@.len()
                        &&& (#[trigger] pre_step.containers@[k]).id@ == idv
                        &&& !on_network(pre_step.containers@[k])
                        &&& attach_updates_container(pre_step.containers@[k], s.containers@[k])
                        &&& (forall|j: int|
                            0 <= j < pre_step.containers@.len() && j != k ==> s.containers@[j]
                                == pre_step.containers@[j])
                        &&& aliases == spec_endpoint_aliases(pre_step.containers@[k].labels@)
                    };
                assert(k == i as int);
                assert(on_network(s.containers@[i as int])) by {
                    let new_n = s.containers@[i as int].networks@;
                    assert(new_n[new_n.len() - 1]@ == managed_network_name());
                }
                assert(attached.deep_view() =~= attached_dv.push(idv));
                assert(spec_pending(sub_i1) =~= spec_pending(sub_i).push(
                    old(s).containers@[i as int],
                )) by {
                    reveal(Seq::filter);
                }
                assert(old(s).containers@[i as int].id@ == idv);
                assert(spec_pending_ids(sub_i1) =~= attached_dv.push(idv));
                assert(attached.deep_view() == spec_pending_ids(sub_i1));
            }
        } else {
            proof {
                assert(on_network(old(s).containers@[i as int]));
                assert(spec_pending(sub_i1) =~= spec_pending(sub_i)) by {
                    reveal(Seq::filter);
                }
                assert(attached.deep_view() =~= spec_pending_ids(sub_i1));
            }
        }
    }
    proof {
        assert(old(s).containers@.subrange(0, n as int) =~= old(s).containers@);
    }
    SweepReport { attached }
}

/// The sweep's completeness count: of `N` pre-existing containers of which
/// `M` are already members, it attaches exactly `N − M` — one per container
/// off the network, none for the members.
pub proof fn lemma_sweep_completeness(cs: Seq<ContainerState>)
    ensures
        spec_pending_ids(cs).len() == spec_pending(cs).len(),
        spec_pending(cs).len() + cs.filter(|c: ContainerState| on_network(c)).len() == cs.len(),
    decreases cs.len(),
{
    reveal(Seq::filter);
    if cs.len() > 0 {
        lemma_sweep_completeness(cs.drop_last());
    }
}

} // verus!
