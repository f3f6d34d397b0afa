use vstd::prelude::*;

use crate::angle::{Angle, ANGLE_COUNT};

verus! {

/// An opaque texture handle, known to the library by its id.
#[derive(Clone, Copy, Debug, PartialEq, Eq, Structural, Hash)]
pub struct ImageHandle {
    pub id: u64,
}

/// An opaque atlas-layout handle, known to the library by its id.
#[derive(Clone, Copy, Debug, PartialEq, Eq, Structural, Hash)]
pub struct LayoutHandle {
    pub id: u64,
}

/// A texture and an atlas layout for one angle; either may be absent.
#[derive(Clone, Copy, Debug, PartialEq, Eq, Structural)]
pub struct ViewSprite {
    pub layout: Option<LayoutHandle>,
    pub image: Option<ImageHandle>,
}

impl Default for ViewSprite {
    fn default() -> (r: ViewSprite)
        ensures
            r == empty_sprite(),
    {
        ViewSprite { layout: None, image: None }
    }
}

/// A sprite with neither image nor layout.
pub open spec fn empty_sprite() -> ViewSprite {
    ViewSprite { layout: None, image: None }
}

/// `a` if it is present, else `b`.
pub open spec fn or_else<T>(a: Option<T>, b: Option<T>) -> Option<T> {
    match a {
        Some(x) => Some(x),
        None => b,
    }
}

/// `s` with each absent field taken from `d`.
pub open spec fn filled_from(s: ViewSprite, d: ViewSprite) -> ViewSprite {
    ViewSprite { layout: or_else(s.layout, d.layout), image: or_else(s.image, d.image) }
}

/// The sprite an angle holds after an insertion that supplies `image` and
/// `layout`: what is supplied wins, then what the slot already held, then the
/// action's `Any` sprite.
pub open spec fn merged_sprite(
    views: Map<Angle, ViewSprite>,
    angle: Angle,
    image: Option<ImageHandle>,
    layout: Option<LayoutHandle>,
) -> ViewSprite {
    let cur = if views.contains_key(angle) { views[angle] } else { empty_sprite() };
    let fallback = if views.contains_key(Angle::Any) { views[Angle::Any] } else { empty_sprite() };
    ViewSprite {
        layout: or_else(layout, or_else(cur.layout, fallback.layout)),
        image: or_else(image, or_else(cur.image, fallback.image)),
    }
}

/// The angles of one action after one insertion. An insertion at `Any` then
/// fills the absent fields of every angle already present from the new `Any`
/// sprite; angles not present stay absent.
pub open spec fn apply_sprite(
    views: Map<Angle, ViewSprite>,
    angle: Angle,
    image: Option<ImageHandle>,
    layout: Option<LayoutHandle>,
) -> Map<Angle, ViewSprite> {
    let s = merged_sprite(views, angle, image, layout);
    let inserted = views.insert(angle, s);
    if angle == Angle::Any {
        Map::new(|a: Angle| inserted.contains_key(a), |a: Angle| filled_from(inserted[a], s))
    } else {
        inserted
    }
}

/// The map built by inserting `items` in order; a later item replaces an
/// earlier one of the same angle.
pub open spec fn map_of_items(items: Seq<(Angle, ViewSprite)>) -> Map<Angle, ViewSprite>
    decreases items.len(),
{
    if items.len() == 0 {
        Map::empty()
    } else {
        map_of_items(items.drop_last()).insert(items.last().0, items.last().1)
    }
}

/// The sprites of one action, one slot per angle.
pub struct ViewTextures {
    slots: [Option<ViewSprite>; 9],
}

impl View for ViewTextures {
    type V = Map<Angle, ViewSprite>;

    closed spec fn view(&self) -> Map<Angle, ViewSprite> {
        Map::new(
            |a: Angle| self.slots@[a.slot()] is Some,
            |a: Angle| self.slots@[a.slot()]->Some_0,
        )
    }
}

impl Default for ViewTextures {
    fn default() -> (r: ViewTextures)
        ensures
            r@ == Map::<Angle, ViewSprite>::empty(),
    {
        ViewTextures::new()
    }
}

impl ViewTextures {
    /// A table with no angle.
    pub fn new() -> (r: ViewTextures)
        ensures
            r@ == Map::<Angle, ViewSprite>::empty(),
    {
        let r = ViewTextures { slots: [None; 9] };
        assert(r@ =~= Map::<Angle, ViewSprite>::empty());
        r
    }

    /// Builds the table from `items` in order; a later item for an angle
    /// replaces an earlier one.
    pub fn from(items: Vec<(Angle, ViewSprite)>) -> (r: ViewTextures)
        ensures
            r@ == map_of_items(items@),
    {
        let mut r = ViewTextures::new();
        let n = items.len();
        let mut i: usize = 0;
        while i < n
            invariant
                n == items@.len(),
                i <= n,
                r@ == map_of_items(items@.subrange(0, i as int)),
            decreases n - i,
        {
            let (a, s) = items[i];
            r.insert(a, s);
            assert(items@.subrange(0, i + 1).drop_last() =~= items@.subrange(0, i as int));
            i = i + 1;
        }
        assert(items@.subrange(0, n as int) =~= items@);
        r
    }

    /// The sprite of `angle`, if that angle is present.
    pub fn get(&self, angle: Angle) -> (r: Option<ViewSprite>)
        ensures
            r == (if self@.contains_key(angle) { Some(self@[angle]) } else { None }),
    {
        self.slots[angle.index()]
    }

    /// Sets the sprite of `angle`, replacing what it held.
    pub fn insert(&mut self, angle: Angle, sprite: ViewSprite)
        ensures
            final(self)@ == old(self)@.insert(angle, sprite),
    {
        let i = angle.index();
        self.slots[i] = Some(sprite);
        proof {
            lemma_slot_injective();
        }
        assert(self@ =~= old(self)@.insert(angle, sprite));
    }

    /// Inserts one declaration's image and layout at `angle`, with the
    /// fallback to the action's `Any` sprite and, at `Any`, the fill of the
    /// angles already present.
    pub fn apply(&mut self, angle: Angle, image: Option<ImageHandle>, layout: Option<LayoutHandle>)
        ensures
            final(self)@ == apply_sprite(old(self)@, angle, image, layout),
    {
        proof {
            lemma_slot_injective();
        }
        let fallback = match self.slots[Angle::Any.index()] {
            Some(f) => f,
            None => ViewSprite { layout: None, image: None },
        };
        let i = angle.index();
        let cur = match self.slots[i] {
            Some(c) => c,
            None => ViewSprite { layout: None, image: None },
        };
        let new_image = match image {
            Some(x) => Some(x),
            None => match cur.image {
                Some(x) => Some(x),
                None => fallback.image,
            },
        };
        let new_layout = match layout {
            Some(x) => Some(x),
            None => match cur.layout {
                Some(x) => Some(x),
                None => fallback.layout,
            },
        };
        let s = ViewSprite { layout: new_layout, image: new_image };
        assert(s == merged_sprite(old(self)@, angle, image, layout));
        self.slots[i] = Some(s);
        let ghost inserted = old(self)@.insert(angle, s);
        assert(self@ =~= inserted);
        if angle == Angle::Any {
            let mut k: usize = 0;
            while k < ANGLE_COUNT
                invariant
                    k <= ANGLE_COUNT,
                    forall|j: int| 0 <= j < k ==> #[trigger] self.slots@[j] == fill_slot(slot_in(inserted, j), s),
                    forall|j: int| k <= j < ANGLE_COUNT ==> #[trigger] self.slots@[j] == slot_in(inserted, j),
                decreases ANGLE_COUNT - k,
            {
                let cur_k = self.slots[k];
                match cur_k {
                    Some(c) => {
                        let filled = ViewSprite {
                            layout: match c.layout {
                                Some(x) => Some(x),
                                None => s.layout,
                            },
                            image: match c.image {
                                Some(x) => Some(x),
                                None => s.image,
                            },
                        };
                        self.slots[k] = Some(filled);
                    },
                    None => {},
                }
                k = k + 1;
            }
            assert(self@ =~= apply_sprite(old(self)@, angle, image, layout));
        }
    }
}

/// The slot `j` of a table whose view is `m`.
spec fn slot_in(m: Map<Angle, ViewSprite>, j: int) -> Option<ViewSprite> {
    if m.contains_key(angle_at(j)) { Some(m[angle_at(j)]) } else { None }
}

/// The slot `o` with its absent fields taken from `d`.
spec fn fill_slot(o: Option<ViewSprite>, d: ViewSprite) -> Option<ViewSprite> {
    match o {
        Some(c) => Some(filled_from(c, d)),
        None => None,
    }
}

/// The angle held in slot `j`.
spec fn angle_at(j: int) -> Angle {
    if j == 0 {
        Angle::Any
    } else if j == 1 {
        Angle::Front
    } else if j == 2 {
        Angle::Back
    } else if j == 3 {
        Angle::Left
    } else if j == 4 {
        Angle::Right
    } else if j == 5 {
        Angle::FrontLeft
    } else if j == 6 {
        Angle::FrontRight
    } else if j == 7 {
        Angle::BackLeft
    } else {
        Angle::BackRight
    }
}

/// Each angle has its own slot, and `angle_at` reads it back.
proof fn lemma_slot_injective()
    ensures
        forall|a: Angle| 0 <= #[trigger] a.slot() < ANGLE_COUNT && angle_at(a.slot()) == a,
        forall|j: int| 0 <= j < ANGLE_COUNT ==> #[trigger] angle_at(j).slot() == j,
{
}

} // verus!
