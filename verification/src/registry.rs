use vstd::prelude::*;

verus! {

/// How a strategy was registered with the registry builder.
#[derive(Debug, Clone, Copy, PartialEq, Eq, Structural)]
pub struct EntryFlags {
    pub enabled: bool,
    /// Registered as a voter of the weighted-majority consensus
    /// (execution-only strategies are not).
    pub wma_voter: bool,
}

/// Positions of the enabled entries, in registration order.
pub open spec fn spec_attached(entries: Seq<EntryFlags>) -> Seq<usize>
    decreases entries.len(),
{
    if entries.len() == 0 {
        Seq::empty()
    } else {
        let rest = spec_attached(entries.drop_last());
        if entries.last().enabled {
            rest.push((entries.len() - 1) as usize)
        } else {
            rest
        }
    }
}

/// Positions of the enabled voters, in registration order.
pub open spec fn spec_voters(entries: Seq<EntryFlags>) -> Seq<usize>
    decreases entries.len(),
{
    if entries.len() == 0 {
        Seq::empty()
    } else {
        let rest = spec_voters(entries.drop_last());
        if entries.last().enabled && entries.last().wma_voter {
            rest.push((entries.len() - 1) as usize)
        } else {
            rest
        }
    }
}

/// Which registered strategies the built manager holds (the enabled ones,
/// whose weights are returned in the same order) and which of them get a
/// consensus voting slot (the enabled voters).
pub fn plan_registry(entries: &[EntryFlags]) -> (r: (Vec<usize>, Vec<usize>))
    ensures
        r.0@ == spec_attached(entries@),
        r.1@ == spec_voters(entries@),
{
    let mut attached: Vec<usize> = Vec::new();
    let mut voters: Vec<usize> = Vec::new();
    let mut i: usize = 0;
    while i < entries.len()
        invariant
            i <= entries@.len(),
            attached@ == spec_attached(entries@.take(i as int)),
            voters@ == spec_voters(entries@.take(i as int)),
        decreases entries@.len() - i,
    {
        proof {
            assert(entries@.take(i as int + 1).drop_last() =~= entries@.take(i as int));
        }
        let e = entries[i];
        if e.enabled {
            attached.push(i);
            if e.wma_voter {
                voters.push(i);
            }
        }
        i = i + 1;
    }
    proof {
        assert(entries@.take(entries@.len() as int) =~= entries@);
    }
    (attached, voters)
}

/// Law: every consensus voter is also attached to the manager, and an
/// execution-only strategy never gets a voting slot.
pub proof fn lemma_voters_are_attached(entries: Seq<EntryFlags>)
    requires
        entries.len() <= usize::MAX,
    ensures
        forall|k: int| 0 <= k < spec_voters(entries).len() ==> spec_attached(entries).contains(#[trigger] spec_voters(entries)[k]),
        forall|k: int| #![trigger spec_voters(entries)[k]] 0 <= k < spec_voters(entries).len() ==> (spec_voters(entries)[k] < entries.len() && entries[spec_voters(entries)[k] as int].enabled && entries[spec_voters(entries)[k] as int].wma_voter),
    decreases entries.len(),
{
    if entries.len() > 0 {
        let init = entries.drop_last();
        lemma_voters_are_attached(init);
        let v = spec_voters(entries);
        let vi = spec_voters(init);
        let a = spec_attached(entries);
        let ai = spec_attached(init);
        assert forall|k: int| 0 <= k < v.len() implies a.contains(#[trigger] v[k]) by {
            if k < vi.len() {
                assert(v[k] == vi[k]);
                let j = choose|j: int| 0 <= j < ai.len() && ai[j] == vi[k];
                assert(a[j] == ai[j]);
            } else {
                assert(a[a.len() - 1] == v[k]);
            }
        }
        assert forall|k: int| #![trigger v[k]] 0 <= k < v.len() implies (v[k] < entries.len() && entries[v[k] as int].enabled && entries[v[k] as int].wma_voter) by {
            if k < vi.len() {
                assert(v[k] == vi[k]);
                assert(vi[k] < init.len() && init[vi[k] as int].wma_voter);
                assert(init[vi[k] as int] == entries[vi[k] as int]);
            } else {
                assert(v[k] == entries.len() - 1);
            }
        }
    }
}

} // verus!
