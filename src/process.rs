//! Which of the processes that share the agent's name must go, so that one
//! agent at most keeps running.

use vstd::prelude::*;

verus! {

/// A process other than `me`.
pub open spec fn is_other(me: u32) -> spec_fn(u32) -> bool {
    |p: u32| p != me
}

/// The processes in `pids` other than `me`, in their order.
pub open spec fn others(pids: Seq<u32>, me: u32) -> Seq<u32> {
    pids.filter(is_other(me))
}

/// Some process in `pids` is not `me`.
pub open spec fn instance_running(pids: Seq<u32>, me: u32) -> bool {
    exists|i: int| 0 <= i < pids.len() && pids[i] != me
}

/// The processes to terminate, in order: every other one, then `me` last
/// where `include_self` is set.
pub open spec fn kill_order(pids: Seq<u32>, me: u32, include_self: bool) -> Seq<u32> {
    others(pids, me) + if include_self {
        seq![me]
    } else {
        Seq::empty()
    }
}

/// The processes of `pids` left once those of `killed` are terminated.
pub open spec fn survivors(pids: Seq<u32>, killed: Seq<u32>) -> Set<u32> {
    pids.to_set().difference(killed.to_set())
}

/// Whether another process than `this_pid` runs under the agent's name, given
/// the identifiers of all the processes that run under it.
pub fn is_instance_running(same_named: &Vec<u32>, this_pid: u32) -> (r: bool)
    ensures
        r == instance_running(same_named@, this_pid),
{
    let mut i: usize = 0;
    while i < same_named.len()
        invariant
            i <= same_named@.len(),
            forall|j: int| 0 <= j < i ==> same_named@[j] == this_pid,
        decreases same_named@.len() - i,
    {
        if same_named[i] != this_pid {
            return true;
        }
        i = i + 1;
    }
    false
}

/// The processes to terminate so that none other than `this_pid` runs under
/// the agent's name, and, where `include_self` is set, not that one either: the
/// others in the order given, then `this_pid` last.
pub fn termination_targets(same_named: &Vec<u32>, this_pid: u32, include_self: bool) -> (r: Vec<
    u32,
>)
    ensures
        r@ == kill_order(same_named@, this_pid, include_self),
{
    let ghost pred = is_other(this_pid);
    let mut targets: Vec<u32> = Vec::new();
    let mut i: usize = 0;
    while i < same_named.len()
        invariant
            i <= same_named@.len(),
            pred == is_other(this_pid),
            targets@ == same_named@.take(i as int).filter(pred),
        decreases same_named@.len() - i,
    {
        let p = same_named[i];
        proof {
            let next = same_named@.take(i + 1);
            assert(next.drop_last() =~= same_named@.take(i as int));
            assert(next.last() == p);
            reveal(Seq::filter);
        }
        if p != this_pid {
            targets.push(p);
        }
        i = i + 1;
    }
    assert(same_named@.take(same_named@.len() as int) =~= same_named@);
    if include_self {
        targets.push(this_pid);
    }
    proof {
        if !include_self {
            assert(targets@ =~= targets@ + Seq::<u32>::empty());
        }
    }
    targets
}

/// With identifiers that are unique and include the caller's own, another
/// instance runs exactly when two processes or more share the name.
pub proof fn lemma_single_instance(pids: Seq<u32>, me: u32)
    requires
        pids.no_duplicates(),
        pids.contains(me),
    ensures
        instance_running(pids, me) <==> pids.len() >= 2,
{
    if pids.len() >= 2 {
        if pids[0] == me {
            assert(pids[1] != me);
        }
    } else {
        assert(pids[0] == me);
    }
}

/// Terminating the targets without the caller leaves the caller alone among
/// the processes of the name; with the caller, it leaves none.
pub proof fn lemma_terminate_others(pids: Seq<u32>, me: u32, include_self: bool)
    requires
        pids.contains(me),
    ensures
        survivors(pids, kill_order(pids, me, include_self)) == if include_self {
            Set::<u32>::empty()
        } else {
            set![me]
        },
{
    broadcast use vstd::seq_lib::group_filter_ensures;

    let pred = is_other(me);
    let order = kill_order(pids, me, include_self);
    let left = survivors(pids, order);
    assert forall|p: u32| #[trigger] left.contains(p) <==> (!include_self && p == me) by {
        if pids.to_set().contains(p) && p != me {
            let i = choose|i: int| 0 <= i < pids.len() && pids[i] == p;
            assert(pred(pids[i]));
            assert(others(pids, me).contains(p));
            assert(order[others(pids, me).index_of(p)] == p);
        }
        if order.to_set().contains(p) && p == me {
            if order.len() > others(pids, me).len() {
                assert(include_self);
            } else {
                let i = choose|i: int| 0 <= i < order.len() && order[i] == p;
                assert(order[i] == others(pids, me)[i]);
                assert(pred(others(pids, me)[i]));
            }
        }
        if p == me && include_self {
            assert(order[order.len() - 1] == me);
        }
        if p == me {
            assert(pids.to_set().contains(me));
        }
    }
    if include_self {
        assert(left =~= Set::<u32>::empty());
    } else {
        assert(left =~= set![me]);
    }
}

} // verus!
