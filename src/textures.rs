use vstd::prelude::*;

use std::collections::HashMap;

use crate::angle::Angle;
use crate::declaration::{normalize, normalize_spec, Declaration, NormalizedEntry};
use crate::view::{apply_sprite, or_else, ViewSprite, ViewTextures};

verus! {

broadcast use vstd::std_specs::hash::group_hash_axioms;

/// Actor id, then action id, then angle, to the sprite of that view.
pub type TextureModel = Map<u64, Map<u16, Map<Angle, ViewSprite>>>;

/// Anything that yields a list of texture declarations, such as an asset bundle.
pub trait ActorsTexturesCollection {
    /// The declarations of the collection, in order.
    fn get_all(&self) -> Vec<Declaration>;
}

/// The actions of `actor`, empty when it is absent.
pub open spec fn actions_of(m: TextureModel, actor: u64) -> Map<u16, Map<Angle, ViewSprite>> {
    if m.contains_key(actor) { m[actor] } else { Map::empty() }
}

/// The angles of `(actor, action)`, empty when the pair is absent.
pub open spec fn views_of(m: TextureModel, actor: u64, action: u16) -> Map<Angle, ViewSprite> {
    let acts = actions_of(m, actor);
    if acts.contains_key(action) { acts[action] } else { Map::empty() }
}

/// The index after one entry: its actor and action are created when absent,
/// and the entry is applied to that action's angles.
pub open spec fn insert_entry_spec(m: TextureModel, e: NormalizedEntry) -> TextureModel {
    m.insert(
        e.actor,
        actions_of(m, e.actor).insert(
            e.action,
            apply_sprite(views_of(m, e.actor, e.action), e.angle, e.image, e.layout),
        ),
    )
}

/// The index after the entries, applied in order.
pub open spec fn load_spec(m: TextureModel, entries: Seq<NormalizedEntry>) -> TextureModel
    decreases entries.len(),
{
    if entries.len() == 0 {
        m
    } else {
        insert_entry_spec(load_spec(m, entries.drop_last()), entries.last())
    }
}

/// What a lookup of `(actor, action, angle)` finds.
pub open spec fn lookup_spec(m: TextureModel, actor: u64, action: u16, angle: Angle) -> Option<ViewSprite> {
    let v = views_of(m, actor, action);
    if v.contains_key(angle) { Some(v[angle]) } else { None }
}

/// The texture index: actor id, then action id, then angle, to a sprite.
pub struct ActorsTextures {
    actors: HashMap<u64, HashMap<u16, ViewTextures>>,
}

/// The model of one actor's actions.
pub open spec fn actions_view(m: Map<u16, ViewTextures>) -> Map<u16, Map<Angle, ViewSprite>> {
    Map::new(|c: u16| m.contains_key(c), |c: u16| m[c]@)
}

impl View for ActorsTextures {
    type V = TextureModel;

    closed spec fn view(&self) -> TextureModel {
        Map::new(|a: u64| self.actors@.contains_key(a), |a: u64| actions_view(self.actors@[a]@))
    }
}

impl Default for ActorsTextures {
    fn default() -> (r: ActorsTextures)
        ensures
            r@ == TextureModel::empty(),
    {
        ActorsTextures::new()
    }
}

impl ActorsTextures {
    /// An index with no actor.
    pub fn new() -> (r: ActorsTextures)
        ensures
            r@ == TextureModel::empty(),
    {
        let r = ActorsTextures { actors: HashMap::new() };
        assert(r@ =~= TextureModel::empty());
        r
    }

    /// The sprite of `(actor, action, angle)`, if that view was ever declared.
    pub fn get(&self, actor: u64, action: u16, angle: Angle) -> (r: Option<ViewSprite>)
        ensures
            r == lookup_spec(self@, actor, action, angle),
    {
        match self.actors.get(&actor) {
            None => None,
            Some(acts) => match acts.get(&action) {
                None => None,
                Some(views) => views.get(angle),
            },
        }
    }

    /// Applies one entry.
    pub fn insert_entry(&mut self, e: &NormalizedEntry)
        ensures
            final(self)@ == insert_entry_spec(old(self)@, *e),
    {
        let ghost m = self@;
        let mut acts = match self.actors.remove(&e.actor) {
            Some(a) => a,
            None => HashMap::new(),
        };
        assert(actions_view(acts@) =~= actions_of(m, e.actor));
        let mut views = match acts.remove(&e.action) {
            Some(v) => v,
            None => ViewTextures::new(),
        };
        assert(views@ == views_of(m, e.actor, e.action));
        views.apply(e.angle, e.image, e.layout);
        acts.insert(e.action, views);
        assert(actions_view(acts@) =~= actions_of(m, e.actor).insert(
            e.action,
            apply_sprite(views_of(m, e.actor, e.action), e.angle, e.image, e.layout),
        ));
        self.actors.insert(e.actor, acts);
        assert(self@ =~= insert_entry_spec(m, *e));
    }

    /// Applies the entries in order. What the index held before is kept
    /// wherever the entries do not override it.
    pub fn load(&mut self, entries: &Vec<NormalizedEntry>)
        ensures
            final(self)@ == load_spec(old(self)@, entries@),
    {
        let n = entries.len();
        let mut i: usize = 0;
        while i < n
            invariant
                n == entries@.len(),
                i <= n,
                self@ == load_spec(old(self)@, entries@.subrange(0, i as int)),
            decreases n - i,
        {
            self.insert_entry(&entries[i]);
            assert(entries@.subrange(0, i + 1).drop_last() =~= entries@.subrange(0, i as int));
            i = i + 1;
        }
        assert(entries@.subrange(0, n as int) =~= entries@);
    }

    /// Settles the declarations and applies them in order.
    pub fn load_declarations(&mut self, decls: &Vec<Declaration>)
        ensures
            final(self)@ == load_spec(old(self)@, normalize_spec(decls@)),
    {
        let entries = normalize(decls);
        self.load(&entries);
    }

    /// Loads every declaration that `loader` yields, as `load_declarations`
    /// does with that list.
    pub fn load_asset_loader<T: ActorsTexturesCollection>(&mut self, loader: &T)
        ensures
            exists|d: Seq<Declaration>| final(self)@ == load_spec(old(self)@, #[trigger] normalize_spec(d)),
    {
        let decls = loader.get_all();
        self.load_declarations(&decls);
    }
}

/// Inserting an `Any` entry with an image fills that image into every angle
/// of the same action that was already present without one; it creates no
/// other angle.
pub proof fn lemma_any_backfills_present(m: TextureModel, e: NormalizedEntry, g: Angle)
    requires
        e.angle == Angle::Any,
        e.image is Some,
        g != Angle::Any,
    ensures
        ({
            let before = views_of(m, e.actor, e.action);
            let after = views_of(insert_entry_spec(m, e), e.actor, e.action);
            &&& before.contains_key(g) && before[g].image is None ==> after.contains_key(g)
                && after[g].image == e.image
            &&& before.contains_key(g) ==> after.contains_key(g) && after[g].layout
                == or_else(before[g].layout, after[Angle::Any].layout)
            &&& !before.contains_key(g) ==> !after.contains_key(g)
        }),
{
    let m2 = insert_entry_spec(m, e);
    assert(actions_of(m2, e.actor).contains_key(e.action));
}

/// An angle whose image is `y` keeps `y` through any entry except one that
/// gives an image for that same angle; an `Any` entry, before or after, never
/// replaces it. An entry that gives an image sets it.
pub proof fn lemma_explicit_image_wins(m: TextureModel, e: NormalizedEntry, actor: u64, action: u16, g: Angle)
    ensures
        lookup_spec(m, actor, action, g) is Some && lookup_spec(m, actor, action, g)->Some_0.image is Some
            && !(e.actor == actor && e.action == action && e.angle == g && e.image is Some)
            ==> lookup_spec(insert_entry_spec(m, e), actor, action, g) is Some
            && lookup_spec(insert_entry_spec(m, e), actor, action, g)->Some_0.image
                == lookup_spec(m, actor, action, g)->Some_0.image,
        e.image is Some ==> lookup_spec(insert_entry_spec(m, e), e.actor, e.action, e.angle) is Some
            && lookup_spec(insert_entry_spec(m, e), e.actor, e.action, e.angle)->Some_0.image == e.image,
{
    let m2 = insert_entry_spec(m, e);
    assert(actions_of(m2, e.actor).contains_key(e.action));
    if e.actor == actor && e.action == action {
        assert(views_of(m2, actor, action) == apply_sprite(views_of(m, actor, action), e.angle, e.image, e.layout));
    } else {
        assert(views_of(m2, actor, action) == views_of(m, actor, action));
    }
}

/// Loading no declaration leaves the index as it was.
pub proof fn lemma_load_empty(m: TextureModel)
    ensures
        load_spec(m, normalize_spec(Seq::<Declaration>::empty())) == m,
{
    assert(normalize_spec(Seq::<Declaration>::empty()).len() == 0);
}

/// Loading `a` and then `b` gives the index that loading `a + b` gives.
pub proof fn lemma_load_concat(m: TextureModel, a: Seq<NormalizedEntry>, b: Seq<NormalizedEntry>)
    ensures
        load_spec(load_spec(m, a), b) == load_spec(m, a + b),
    decreases b.len(),
{
    if b.len() == 0 {
        assert(a + b =~= a);
    } else {
        lemma_load_concat(m, a, b.drop_last());
        assert((a + b).drop_last() =~= a + b.drop_last());
        assert((a + b).last() == b.last());
    }
}

/// Loading never removes a view: every `(actor, action, angle)` present
/// before is present after.
pub proof fn lemma_load_keeps_views(m: TextureModel, entries: Seq<NormalizedEntry>, actor: u64, action: u16, g: Angle)
    requires
        lookup_spec(m, actor, action, g) is Some,
    ensures
        lookup_spec(load_spec(m, entries), actor, action, g) is Some,
    decreases entries.len(),
{
    if entries.len() > 0 {
        lemma_load_keeps_views(m, entries.drop_last(), actor, action, g);
        let m1 = load_spec(m, entries.drop_last());
        let e = entries.last();
        let m2 = insert_entry_spec(m1, e);
        assert(actions_of(m2, e.actor).contains_key(e.action));
        if e.actor == actor && e.action == action {
            assert(views_of(m2, actor, action) == apply_sprite(views_of(m1, actor, action), e.angle, e.image, e.layout));
        } else {
            assert(views_of(m2, actor, action) == views_of(m1, actor, action));
        }
    }
}

} // verus!
