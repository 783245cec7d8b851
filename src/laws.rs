//! Laws that relate the operations of the actor model.

use crate::actor::{
    env_vars_of, names_unique, container_ports_of, exposed_count, exposed_ports_of, service_ports_of, total_exposed,
    total_ports, ActorSpec, Partner, Port, Service,
};
use crate::locator::{locator, opt_text};
use crate::status::{holds, records, status_text, upserted, ActorState, Condition};
use vstd::prelude::*;

verus! {

/// Without a reference or a path, the locator is the repository itself.
pub proof fn lemma_locator_bare(repository: Seq<char>)
    ensures
        locator(repository, None, None) == repository,
{
}

/// With a reference and a path, the locator holds the repository, then `#`
/// and the reference, then `:` and the path, each at a fixed place.
pub proof fn lemma_locator_parts(repository: Seq<char>, reference: Seq<char>, path: Seq<char>)
    ensures
        ({
            let l = locator(repository, Some(reference), Some(path));
            let a = repository.len() as int;
            let b = a + 1 + reference.len();
            &&& l.len() == b + 1 + path.len()
            &&& l.subrange(0, a) == repository
            &&& l[a] == '#'
            &&& l.subrange(a + 1, b) == reference
            &&& l[b] == ':'
            &&& l.subrange(b + 1, l.len() as int) == path
        }),
{
    let l = locator(repository, Some(reference), Some(path));
    let a = repository.len() as int;
    let b = a + 1 + reference.len();
    assert(l.subrange(0, a) =~= repository);
    assert(l.subrange(a + 1, b) =~= reference);
    assert(l.subrange(b + 1, l.len() as int) =~= path);
}

/// An actor and a partner with the same repository, reference and path have
/// the same locator.
pub proof fn lemma_locator_shared(spec: ActorSpec, partner: Partner)
    requires
        spec.repository@ == partner.repository@,
        spec.reference == partner.reference,
        spec.path == partner.path,
    ensures
        locator(spec.repository@, opt_text(spec.reference), opt_text(spec.path)) == locator(
            partner.repository@,
            opt_text(partner.reference),
            opt_text(partner.path),
        ),
{
}

/// One list of ports yields as many service ports as it has exposed ports.
pub proof fn lemma_exposed_len(ports: Seq<Port>)
    ensures
        exposed_ports_of(ports).len() == exposed_count(ports),
    decreases ports.len(),
{
    if ports.len() > 0 {
        lemma_exposed_len(ports.drop_last());
    }
}

/// The container ports are as many as all ports of all services, exposed or
/// not; the service ports are as many as the exposed ones.
pub proof fn lemma_port_counts(services: Seq<Service>)
    ensures
        container_ports_of(services).len() == total_ports(services),
        service_ports_of(services).len() == total_exposed(services),
    decreases services.len(),
{
    if services.len() > 0 {
        lemma_port_counts(services.drop_last());
        lemma_exposed_len(services.last().ports@);
    }
}

/// A ledger without conditions asserts no phase.
pub proof fn lemma_empty_asserts_nothing(state: ActorState)
    ensures
        !holds(Seq::<Condition>::empty(), state, true),
{
}

/// Recording a true condition of a phase makes that phase asserted.
pub proof fn lemma_record_asserts(conds: Seq<Condition>, c: Condition, state: ActorState)
    requires
        records(c, state, true),
    ensures
        holds(conds.push(c), state, true),
{
    assert(records(conds.push(c)[conds.len() as int], state, true));
}

/// Recording a false condition of a phase asserts nothing that was not
/// asserted before.
pub proof fn lemma_record_false_keeps(conds: Seq<Condition>, c: Condition, state: ActorState)
    requires
        records(c, state, false),
    ensures
        holds(conds.push(c), state, true) == holds(conds, state, true),
{
    assert(status_text(true)[0] == 'T');
    assert(status_text(false)[0] == 'F');
    assert(!records(c, state, true));
    if holds(conds.push(c), state, true) {
        let i = choose|i: int|
            0 <= i < conds.push(c).len() && records(#[trigger] conds.push(c)[i], state, true);
        assert(i < conds.len());
        assert(records(conds[i], state, true));
    }
    if holds(conds, state, true) {
        let i = choose|i: int| 0 <= i < conds.len() && records(#[trigger] conds[i], state, true);
        assert(records(conds.push(c)[i], state, true));
    }
}

/// Where `upserted` places `c`: at the first condition of the same type, or
/// after all of them.
proof fn lemma_upserted_at(conds: Seq<Condition>, c: Condition) -> (i: int)
    ensures
        0 <= i <= conds.len(),
        forall|k: int| 0 <= k < i ==> (#[trigger] conds[k]).type_@ != c.type_@,
        i < conds.len() ==> conds[i].type_@ == c.type_@ && upserted(conds, c) == conds.update(i, c),
        i == conds.len() ==> upserted(conds, c) == conds.push(c),
{
    if exists|i: int| 0 <= i < conds.len() && (#[trigger] conds[i]).type_@ == c.type_@ {
        let w = choose|i: int| 0 <= i < conds.len() && (#[trigger] conds[i]).type_@ == c.type_@;
        lemma_first_match(conds, c, w);
        choose|i: int|
            0 <= i < conds.len() && (#[trigger] conds[i]).type_@ == c.type_@ && forall|k: int|
                0 <= k < i ==> (#[trigger] conds[k]).type_@ != c.type_@
    } else {
        conds.len() as int
    }
}

/// Below a condition of the type of `c` lies a first one.
proof fn lemma_first_match(conds: Seq<Condition>, c: Condition, w: int)
    requires
        0 <= w < conds.len(),
        conds[w].type_@ == c.type_@,
    ensures
        exists|i: int|
            0 <= i < conds.len() && (#[trigger] conds[i]).type_@ == c.type_@ && forall|k: int|
                0 <= k < i ==> (#[trigger] conds[k]).type_@ != c.type_@,
    decreases w,
{
    if exists|k: int| 0 <= k < w && (#[trigger] conds[k]).type_@ == c.type_@ {
        let k = choose|k: int| 0 <= k < w && (#[trigger] conds[k]).type_@ == c.type_@;
        lemma_first_match(conds, c, k);
    } else {
        assert(0 <= w < conds.len() && conds[w].type_@ == c.type_@ && forall|k: int|
            0 <= k < w ==> (#[trigger] conds[k]).type_@ != c.type_@);
    }
}

/// Upserting a true condition of a phase makes that phase asserted.
pub proof fn lemma_upsert_asserts(conds: Seq<Condition>, c: Condition, state: ActorState)
    requires
        records(c, state, true),
    ensures
        holds(upserted(conds, c), state, true),
{
    let i = lemma_upserted_at(conds, c);
    assert(upserted(conds, c)[i] == c);
}

/// Upserting the same condition twice leaves the ledger as one upsert does.
pub proof fn lemma_upsert_idempotent(conds: Seq<Condition>, c: Condition)
    ensures
        upserted(upserted(conds, c), c) == upserted(conds, c),
{
    let once = upserted(conds, c);
    let i = lemma_upserted_at(conds, c);
    let j = lemma_upserted_at(once, c);
    assert(once[i] == c);
    if j < i {
        assert(once[j] == conds[j]);
    }
    if i < j {
        assert(once[i].type_@ != c.type_@);
    }
    assert(j == i);
    assert(once.update(i, c) =~= once);
}

/// Distinct names in, distinct names out: the environment projection keeps
/// a mapping a mapping.
pub proof fn lemma_env_names_unique(vars: Seq<(String, String)>)
    requires
        names_unique(vars),
    ensures
        forall|i: int, j: int|
            0 <= i < vars.len() && 0 <= j < vars.len() && i != j ==> (
            #[trigger] env_vars_of(vars)[i]).name@ != (#[trigger] env_vars_of(vars)[j]).name@,
{
    assert forall|i: int, j: int|
        0 <= i < vars.len() && 0 <= j < vars.len() && i != j implies (
        #[trigger] env_vars_of(vars)[i]).name@ != (#[trigger] env_vars_of(vars)[j]).name@ by {
        assert(vars[i].0@ != vars[j].0@);
    }
}

} // verus!
