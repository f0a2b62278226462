use vstd::prelude::*;
use crate::todo_list::{effects_of, Effect, EffectModel, ViewModel};

verus! {

/// The snapshots among `effects`, in order: what a shell shows.
pub open spec fn rendered(effects: Seq<EffectModel>) -> Seq<(Seq<Seq<char>>, nat)>
    decreases effects.len(),
{
    if effects.len() == 0 {
        Seq::empty()
    } else {
        let rest = rendered(effects.drop_last());
        match effects.last() {
            EffectModel::Render(v) => rest.push(v),
            _ => rest,
        }
    }
}

/// A copy of `v`.
fn copy_view(v: &ViewModel) -> (r: ViewModel)
    ensures
        r@ == v@,
{
    let items = v.items.clone();
    proof {
        assert(items@ =~= v.items@);
    }
    ViewModel { items, count: v.count }
}

/// The snapshots that the shell must show for `effects`, in order; effects
/// that show nothing (a rejection, a pending request) are left out.
pub fn hande_effects(effects: Vec<Effect>) -> (r: Vec<ViewModel>)
    ensures
        r@.map_values(|v: ViewModel| v@) == rendered(effects_of(effects@)),
{
    let mut r: Vec<ViewModel> = Vec::new();
    let mut i: usize = 0;
    while i < effects.len()
        invariant
            0 <= i <= effects.len(),
            r@.map_values(|v: ViewModel| v@) == rendered(effects_of(effects@.take(i as int))),
        decreases effects.len() - i,
    {
        proof {
            assert(effects_of(effects@.take(i + 1)).drop_last() =~= effects_of(
                effects@.take(i as int),
            ));
        }
        match &effects[i] {
            Effect::Render(v) => {
                let c = copy_view(v);
                let ghost before = r@;
                r.push(c);
                proof {
                    assert(r@.map_values(|v: ViewModel| v@) =~= before.map_values(
                        |v: ViewModel| v@,
                    ).push(c@));
                }
            },
            _ => {},
        }
        i = i + 1;
    }
    proof {
        assert(effects@.take(effects.len() as int) =~= effects@);
    }
    r
}

} // verus!
