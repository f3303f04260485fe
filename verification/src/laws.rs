//! Laws the transaction engine obeys, stated over the builder's
//! mathematical value and proved once for every state.

use vstd::prelude::*;

use crate::part::Part;
use crate::{
    lemma_total_size_push, with_last_popped, with_part_added, BuilderView,
};

verus! {

/// Staging any part and then undoing the most recent staging restores
/// the builder's value exactly: the running cost, the staged sequence
/// and the bound ship are all as they were.
pub proof fn lemma_add_then_pop_restores(b: BuilderView, p: Part)
    ensures
        with_last_popped(with_part_added(b, p)) == b,
{
    lemma_total_size_push(b.staged, p);
    assert(b.staged.push(p).drop_last() =~= b.staged);
    assert(with_last_popped(with_part_added(b, p)) =~= b);
}

/// The builder's value after staging each part of `ps`, in order.
pub open spec fn with_parts_added(b: BuilderView, ps: Seq<Part>) -> BuilderView
    decreases ps.len(),
{
    if ps.len() == 0 {
        b
    } else {
        with_part_added(with_parts_added(b, ps.drop_last()), ps.last())
    }
}

/// The builder's value after undoing the most recent staging `n` times.
pub open spec fn with_last_popped_n(b: BuilderView, n: nat) -> BuilderView
    decreases n,
{
    if n == 0 {
        b
    } else {
        with_last_popped_n(with_last_popped(b), (n - 1) as nat)
    }
}

/// Cost additivity round trip: staging any sequence of parts and then
/// undoing them in exact reverse order restores the builder's value
/// exactly — the running cost returns to what it was before the
/// sequence began, and the staged sequence is again the one before.
pub proof fn lemma_add_all_pop_all_restores(b: BuilderView, ps: Seq<Part>)
    ensures
        with_last_popped_n(with_parts_added(b, ps), ps.len()) == b,
    decreases ps.len(),
{
    if ps.len() > 0 {
        lemma_add_then_pop_restores(with_parts_added(b, ps.drop_last()), ps.last());
        lemma_add_all_pop_all_restores(b, ps.drop_last());
    }
}

/// Marginal-cost order sensitivity: staging two parts of different
/// sizes in the two possible orders yields different running costs,
/// because each marginal cost depends on the total size present at the
/// moment it is computed.
pub proof fn lemma_order_sensitive_costs(b: BuilderView, first: Part, second: Part)
    requires
        first.size != second.size,
    ensures
        with_part_added(with_part_added(b, first), second).costs != with_part_added(
            with_part_added(b, second),
            first,
        ).costs,
{
    lemma_total_size_push(b.staged, first);
    lemma_total_size_push(b.staged, second);
}

} // verus!
