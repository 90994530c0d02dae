//! Properties that hold across several calls on the registry.

use vstd::prelude::*;
use crate::session_id::{decimal, lemma_decimal_injective};
use crate::tabs::{Dispatch, Tabs};

verus! {

/// Ids are made from the counter in increasing order, and the ids made from
/// two different counter values differ: an id is never handed out twice,
/// even once its tab has been deleted.
pub proof fn law_ids_never_reused(a: nat, b: nat)
    requires
        a < b,
    ensures
        decimal(a) != decimal(b),
{
    lemma_decimal_injective(a, b);
}

/// The id the next new tab gets is not the id of any live tab.
pub proof fn law_next_id_is_fresh<D>(t: Tabs<D>)
    requires
        t.wf(),
    ensures
        !t.has_tab(decimal(t.next_id())),
{
    assert forall|k: usize| #[trigger] t.sessions().contains_key(k) implies decimal(t.next_id())
        != decimal(k as nat) by {
        lemma_decimal_injective(k as nat, t.next_id());
    }
}

/// Deleting an id that no live tab has leaves the registry as it was.
pub proof fn law_delete_absent_is_noop<D>(t: Tabs<D>, name: Seq<char>)
    requires
        !t.has_tab(name),
    ensures
        t.without(name) == t.sessions(),
{
    assert(t.without(name) =~= t.sessions());
}

/// Once `name` is deleted, no tab has it, so an edit sent to it is answered
/// with nothing; an edit leaves the registry unchanged, so the tab does not
/// come back.
pub proof fn law_deleted_tab_stays_gone<'a, D, P, C>(
    before: Tabs<D>,
    after: Tabs<D>,
    name: Seq<char>,
    cmd: C,
    peer: P,
    r: Dispatch<'a, D, P, C>,
)
    requires
        after.sessions() == before.without(name),
        after.edit_routed(name, cmd, peer, r),
    ensures
        !after.has_tab(name),
        r == Dispatch::<'a, D, P, C>::Reply(None),
{
}

} // verus!
