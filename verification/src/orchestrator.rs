//! Composition of the engine: the startup sequence — ensure the network,
//! then sweep the inventory — and the dispatch of one main-loop input,
//! which turns a stream item or a signal into the step the loop performs.

use vstd::prelude::*;
use crate::machine::{main_loop_step, spec_step, LoopAction, LoopActionView, LoopInput, LoopState};
use crate::model::{
    connect_container_to_network, connect_existing_containers, ensure_network,
    connect_ok_transition, lemma_connect_preserves, on_network, spec_ensure, spec_pending_ids,
    AttachError, AttachReport, EnsureReport, RuntimeState, SweepReport,
};

verus! {

/// The startup sequence: ensure the managed network exists, then sweep the
/// pre-existing containers onto it.  Afterwards the network exists and
/// every container in the inventory is a member.
pub fn startup(s: &mut RuntimeState) -> (r: (EnsureReport, SweepReport))
    requires
        old(s).wf(),
    ensures
        final(s).wf(),
        final(s).network_exists,
        r.0.outcome == spec_ensure(old(s).network_exists).1,
        r.0.create_calls as nat == spec_ensure(old(s).network_exists).2,
        forall|i: int|
            0 <= i < final(s).containers@.len() ==> on_network(
                #[trigger] final(s).containers@[i],
            ),
        r.1.attached.deep_view() == spec_pending_ids(old(s).containers@),
{
    let ensure = ensure_network(s);
    let sweep = connect_existing_containers(s);
    (ensure, sweep)
}

/// What dispatching one loop input did: the loop's next state, and the
/// result of the attach call if the input asked for one.
pub struct DispatchOutcome {
    pub state: LoopState,
    pub attach: Option<Result<AttachReport, AttachError>>,
}

/// Dispatches one input of the main loop against the backing state: decides
/// the step, performs the attach when the input is a container `start`
/// event, and reports the loop's next state.  Signals and stream closure
/// close the loop without touching the state; every other input leaves it
/// listening.
pub fn handle_loop_input(s: &mut RuntimeState, input: LoopInput) -> (r: DispatchOutcome)
    requires
        old(s).wf(),
    ensures
        final(s).wf(),
        r.state == spec_step(input).0,
        !(spec_step(input).1 is Attach) ==> r.attach is None
            && final(s).network_exists == old(s).network_exists
            && final(s).containers == old(s).containers,
        (spec_step(input).1 matches LoopActionView::Attach(id) ==> (r.attach matches Some(res)
            && {
            &&& (res matches Err(AttachError::NotFound) <==> !old(s).has_container(id))
            &&& (res matches Err(AttachError::AlreadyConnected) <==> old(s).member(id))
            &&& (res is Ok <==> old(s).has_container(id) && !old(s).member(id))
            &&& (res is Err ==> final(s).network_exists == old(s).network_exists
                && final(s).containers == old(s).containers)
            &&& (res matches Ok(rep) ==> connect_ok_transition(
                *old(s),
                *final(s),
                id,
                rep.endpoint.alias_views(),
            ))
        })),
{
    let (state, action) = main_loop_step(input);
    match action {
        LoopAction::Attach(id) => {
            let res = connect_container_to_network(s, &id);
            DispatchOutcome { state, attach: Some(res) }
        },
        _ => DispatchOutcome { state, attach: None },
    }
}

/// Whether this input ends the main loop: a signal or the stream's closure.
pub open spec fn spec_closes(input: LoopInput) -> bool {
    spec_step(input).0 is Closed
}

/// How many inputs the main loop consumes: everything up to and including
/// the first closing input, or the whole sequence when none closes.
pub open spec fn spec_processed(inputs: Seq<LoopInput>) -> int
    decreases inputs.len(),
{
    if inputs.len() == 0 {
        0
    } else if spec_closes(inputs[0]) {
        1
    } else {
        1 + spec_processed(inputs.drop_first())
    }
}

/// The inputs among `inputs` that ask for an attach call.
pub open spec fn spec_attach_inputs(inputs: Seq<LoopInput>) -> Seq<LoopInput> {
    inputs.filter(|input: LoopInput| spec_step(input).1 is Attach)
}

/// If the first `k` inputs do not close the loop and the `k`-th does — or
/// `k` is the whole sequence — then the loop consumes exactly the first
/// closing input and nothing after it.
proof fn lemma_processed_at(inputs: Seq<LoopInput>, k: int)
    requires
        0 <= k <= inputs.len(),
        forall|j: int| 0 <= j < k ==> !spec_closes(#[trigger] inputs[j]),
        k < inputs.len() ==> spec_closes(inputs[k]),
    ensures
        spec_processed(inputs) == (if k < inputs.len() {
            k + 1
        } else {
            k
        }),
    decreases k,
{
    if k > 0 {
        assert(!spec_closes(inputs[0]));
        assert forall|j: int| 0 <= j < k - 1 implies !spec_closes(
            #[trigger] inputs.drop_first()[j],
        ) by {
            assert(inputs.drop_first()[j] == inputs[j + 1]);
        }
        if k - 1 < inputs.len() - 1 {
            assert(inputs.drop_first()[k - 1] == inputs[k]);
        }
        lemma_processed_at(inputs.drop_first(), k - 1);
    }
}

/// What a whole run of the main loop reports: the state it stopped in, how
/// many inputs it consumed, and how many attach calls it issued.
pub struct RunReport {
    pub state: LoopState,
    pub processed: usize,
    pub attach_calls: usize,
}

/// The main loop: dispatches the inputs in arrival order until the first
/// one that closes the loop — a termination signal, an interrupt, or the
/// stream's closure — and reads nothing after it.  Every container keeps
/// its identifier and labels, and members of the managed network stay
/// members; the attach count is exactly the number of consumed inputs that
/// carry a container `start` event with an identifier.
pub fn run_loop(s: &mut RuntimeState, inputs: Vec<LoopInput>) -> (r: RunReport)
    requires
        old(s).wf(),
    ensures
        final(s).wf(),
        final(s).network_exists == old(s).network_exists,
        final(s).containers@.len() == old(s).containers@.len(),
        forall|j: int|
            0 <= j < old(s).containers@.len() ==> (#[trigger] final(s).containers@[j]).id == old(
                s,
            ).containers@[j].id && final(s).containers@[j].labels == old(s).containers@[j].labels,
        forall|j: int|
            0 <= j < old(s).containers@.len() && on_network(#[trigger] old(s).containers@[j])
                ==> on_network(final(s).containers@[j]),
        r.processed as int == spec_processed(inputs@),
        (r.state is Closed) <==> (exists|j: int|
            0 <= j < inputs@.len() && spec_closes(#[trigger] inputs@[j])),
        r.attach_calls as int == spec_attach_inputs(inputs@.take(r.processed as int)).len(),
{
    let ghost inputs0 = inputs@;
    let mut queue = inputs;
    let total = queue.len();
    proof {
        assert(inputs0.len() == total);
    }
    let mut processed: usize = 0;
    let mut attach_calls: usize = 0;
    let mut state = LoopState::Listening;
    while state == LoopState::Listening && !queue.is_empty()
        invariant
            s.wf(),
            s.network_exists == old(s).network_exists,
            s.containers@.len() == old(s).containers@.len(),
            forall|j: int|
                0 <= j < old(s).containers@.len() ==> (#[trigger] s.containers@[j]).id == old(
                    s,
                ).containers@[j].id && s.containers@[j].labels == old(s).containers@[j].labels,
            forall|j: int|
                0 <= j < old(s).containers@.len() && on_network(#[trigger] old(s).containers@[j])
                    ==> on_network(s.containers@[j]),
            inputs0.len() == total,
            processed + queue@.len() == inputs0.len(),
            queue@ == inputs0.skip(processed as int),
            attach_calls as int == spec_attach_inputs(inputs0.take(processed as int)).len(),
            attach_calls <= processed,
            state is Listening ==> forall|j: int|
                0 <= j < processed ==> !spec_closes(#[trigger] inputs0[j]),
            state is Closed ==> processed > 0 && spec_closes(inputs0[processed - 1]) && forall|
                j: int,
            | 0 <= j < processed - 1 ==> !spec_closes(#[trigger] inputs0[j]),
        decreases queue@.len(),
    {
        let input = queue.remove(0);
        let ghost inp = input;
        let ghost pre_s = *s;
        proof {
            assert(inp == inputs0[processed as int]);
            assert(queue@ =~= inputs0.skip(processed as int + 1));
        }
        let outcome = handle_loop_input(s, input);
        state = outcome.state;
        processed = processed + 1;
        if outcome.attach.is_some() {
            attach_calls = attach_calls + 1;
        }
        proof {
            let p = processed as int;
            assert(inputs0.take(p).drop_last() =~= inputs0.take(p - 1));
            assert(inputs0.take(p).last() == inp);
            assert(spec_attach_inputs(inputs0.take(p)) == (if spec_step(inp).1 is Attach {
                spec_attach_inputs(inputs0.take(p - 1)).push(inp)
            } else {
                spec_attach_inputs(inputs0.take(p - 1))
            })) by {
                reveal(Seq::filter);
            }
            if let LoopActionView::Attach(idv) = spec_step(inp).1 {
                match outcome.attach {
                    Some(Ok(rep)) => {
                        lemma_connect_preserves(pre_s, *s, idv, rep.endpoint.alias_views());
                    },
                    _ => {},
                }
            }
        }
    }
    proof {
        if state is Closed {
            lemma_processed_at(inputs0, processed as int - 1);
        } else {
            lemma_processed_at(inputs0, processed as int);
        }
    }
    RunReport { state, processed, attach_calls }
}

} // verus!
