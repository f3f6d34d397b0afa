use vstd::prelude::*;

use crate::angle::Angle;
use crate::view::{ImageHandle, LayoutHandle};

verus! {

/// One annotated texture field: every part may be left out.
#[derive(Clone, Copy, Debug, PartialEq, Eq, Structural)]
pub struct Declaration {
    pub actor: Option<u64>,
    pub action: Option<u16>,
    pub angle: Option<Angle>,
    pub image: Option<ImageHandle>,
    pub layout: Option<LayoutHandle>,
}

/// A declaration whose actor, action and angle are settled.
#[derive(Clone, Copy, Debug, PartialEq, Eq, Structural)]
pub struct NormalizedEntry {
    pub actor: u64,
    pub action: u16,
    pub angle: Angle,
    pub image: Option<ImageHandle>,
    pub layout: Option<LayoutHandle>,
}

/// The actor in force at declaration `n`: the last one given in
/// `decls[0..=n]`, or 0 when none is.
pub open spec fn actor_through(decls: Seq<Declaration>, n: int) -> u64
    decreases n + 1,
{
    if n < 0 {
        0
    } else {
        match decls[n].actor {
            Some(a) => a,
            None => actor_through(decls, n - 1),
        }
    }
}

/// The action in force at declaration `n`: the last one given in
/// `decls[0..=n]`, or 0 when none is.
pub open spec fn action_through(decls: Seq<Declaration>, n: int) -> u16
    decreases n + 1,
{
    if n < 0 {
        0
    } else {
        match decls[n].action {
            Some(a) => a,
            None => action_through(decls, n - 1),
        }
    }
}

/// The angle a declaration stands for: the one it gives, else `Front`.
pub open spec fn angle_or_front(a: Option<Angle>) -> Angle {
    match a {
        Some(x) => x,
        None => Angle::Front,
    }
}

/// Declaration `n` with actor and action carried forward.
pub open spec fn normalized_at(decls: Seq<Declaration>, n: int) -> NormalizedEntry {
    NormalizedEntry {
        actor: actor_through(decls, n),
        action: action_through(decls, n),
        angle: angle_or_front(decls[n].angle),
        image: decls[n].image,
        layout: decls[n].layout,
    }
}

/// The declarations, in order, with actor and action carried forward.
pub open spec fn normalize_spec(decls: Seq<Declaration>) -> Seq<NormalizedEntry> {
    Seq::new(decls.len(), |i: int| normalized_at(decls, i))
}

/// Settles each declaration: a missing actor or action is the last one given
/// before it (0 at first), a missing angle is `Front`; handles pass unchanged.
pub fn normalize(decls: &Vec<Declaration>) -> (r: Vec<NormalizedEntry>)
    ensures
        r@ == normalize_spec(decls@),
{
    let mut r: Vec<NormalizedEntry> = Vec::new();
    let mut actor_id: u64 = 0;
    let mut action_id: u16 = 0;
    let n = decls.len();
    let mut i: usize = 0;
    while i < n
        invariant
            n == decls@.len(),
            i <= n,
            r@.len() == i,
            actor_id == actor_through(decls@, i - 1),
            action_id == action_through(decls@, i - 1),
            forall|j: int| 0 <= j < i ==> #[trigger] r@[j] == normalized_at(decls@, j),
        decreases n - i,
    {
        let d = decls[i];
        actor_id = match d.actor {
            Some(a) => a,
            None => actor_id,
        };
        action_id = match d.action {
            Some(a) => a,
            None => action_id,
        };
        let angle = match d.angle {
            Some(a) => a,
            None => Angle::Front,
        };
        r.push(NormalizedEntry { actor: actor_id, action: action_id, angle, image: d.image, layout: d.layout });
        i = i + 1;
    }
    assert(r@ =~= normalize_spec(decls@));
    r
}

/// A declaration that leaves out its actor takes the one of the nearest
/// earlier declaration that gives one, and the same holds of the action.
pub proof fn lemma_carry_forward(decls: Seq<Declaration>, i: int, j: int)
    requires
        0 <= j < i < decls.len(),
        forall|k: int| j < k <= i ==> (#[trigger] decls[k]).actor is None,
        decls[j].actor is Some,
    ensures
        normalize_spec(decls)[i].actor == decls[j].actor->Some_0,
    decreases i - j,
{
    assert(decls[i].actor is None);
    if i - 1 > j {
        lemma_carry_forward(decls, i - 1, j);
    }
    assert(actor_through(decls, i) == actor_through(decls, i - 1));
}

/// Same law for the action.
pub proof fn lemma_carry_forward_action(decls: Seq<Declaration>, i: int, j: int)
    requires
        0 <= j < i < decls.len(),
        forall|k: int| j < k <= i ==> (#[trigger] decls[k]).action is None,
        decls[j].action is Some,
    ensures
        normalize_spec(decls)[i].action == decls[j].action->Some_0,
    decreases i - j,
{
    assert(decls[i].action is None);
    if i - 1 > j {
        lemma_carry_forward_action(decls, i - 1, j);
    }
    assert(action_through(decls, i) == action_through(decls, i - 1));
}

/// Where no declaration up to `i` names an actor or an action, both are 0.
pub proof fn lemma_carry_forward_default(decls: Seq<Declaration>, i: int)
    requires
        0 <= i < decls.len(),
        forall|k: int| 0 <= k <= i ==> (#[trigger] decls[k]).actor is None,
        forall|k: int| 0 <= k <= i ==> (#[trigger] decls[k]).action is None,
    ensures
        normalize_spec(decls)[i].actor == 0,
        normalize_spec(decls)[i].action == 0,
    decreases i,
{
    assert(decls[i].actor is None && decls[i].action is None);
    if i > 0 {
        lemma_carry_forward_default(decls, i - 1);
    }
    assert(actor_through(decls, i) == actor_through(decls, i - 1));
    assert(action_through(decls, i) == action_through(decls, i - 1));
}

/// A declaration that leaves out its angle stands for `Front`; the angle of
/// an earlier declaration is not carried forward.
pub proof fn lemma_default_angle(decls: Seq<Declaration>, i: int)
    requires
        0 <= i < decls.len(),
        decls[i].angle is None,
    ensures
        normalize_spec(decls)[i].angle == Angle::Front,
{
}

} // verus!
