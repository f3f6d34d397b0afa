use bevy_2dviewangle::angle::Angle;
use bevy_2dviewangle::declaration::{normalize, Declaration, NormalizedEntry};
use bevy_2dviewangle::textures::{ActorsTextures, ActorsTexturesCollection};
use bevy_2dviewangle::view::{ImageHandle, LayoutHandle, ViewSprite, ViewTextures};

fn img(id: u64) -> Option<ImageHandle> {
    Some(ImageHandle { id })
}

fn lay(id: u64) -> Option<LayoutHandle> {
    Some(LayoutHandle { id })
}

fn decl(
    actor: Option<u64>,
    action: Option<u16>,
    angle: Option<Angle>,
    image: Option<ImageHandle>,
    layout: Option<LayoutHandle>,
) -> Declaration {
    Declaration { actor, action, angle, image, layout }
}

fn entry(actor: u64, action: u16, angle: Angle, image: Option<ImageHandle>, layout: Option<LayoutHandle>) -> NormalizedEntry {
    NormalizedEntry { actor, action, angle, image, layout }
}

fn sprite(image: Option<ImageHandle>, layout: Option<LayoutHandle>) -> Option<ViewSprite> {
    Some(ViewSprite { layout, image })
}

struct Bundle {
    decls: Vec<Declaration>,
}

impl ActorsTexturesCollection for Bundle {
    fn get_all(&self) -> Vec<Declaration> {
        self.decls.clone()
    }
}

#[test]
fn carry_forward_actor_and_action() {
    let decls = vec![
        decl(Some(3), Some(4), None, img(1), None),
        decl(None, None, Some(Angle::Back), img(2), None),
        decl(Some(9), None, None, img(3), None),
        decl(None, Some(1), None, img(4), None),
        decl(None, None, None, img(5), None),
    ];
    let r = normalize(&decls);
    assert_eq!(r.len(), 5);
    let got: Vec<(u64, u16)> = r.iter().map(|e| (e.actor, e.action)).collect();
    assert_eq!(got, vec![(3, 4), (3, 4), (9, 4), (9, 1), (9, 1)]);
    assert_eq!(r[3].image, img(4));
}

#[test]
fn missing_angle_is_front_and_not_carried() {
    let decls = vec![
        decl(Some(1), Some(1), Some(Angle::Left), img(1), None),
        decl(None, None, None, None, lay(2)),
    ];
    let r = normalize(&decls);
    assert_eq!(r[0].angle, Angle::Left);
    assert_eq!(r[1].angle, Angle::Front);
    assert_eq!(r[1].image, None);
    assert_eq!(r[1].layout, lay(2));
    assert_eq!(Angle::default(), Angle::Front);
}

#[test]
fn no_actor_or_action_defaults_to_zero() {
    let decls = vec![decl(None, None, Some(Angle::Back), img(1), None), decl(None, None, None, img(2), None)];
    let r = normalize(&decls);
    assert_eq!((r[0].actor, r[0].action), (0, 0));
    assert_eq!((r[1].actor, r[1].action), (0, 0));
    let mut t = ActorsTextures::new();
    t.load_declarations(&decls);
    assert_eq!(t.get(0, 0, Angle::Back), sprite(img(1), None));
    assert_eq!(t.get(0, 0, Angle::Front), sprite(img(2), None));
}

#[test]
fn empty_input_normalizes_to_empty() {
    assert!(normalize(&vec![]).is_empty());
}

#[test]
fn any_backfills_present_angles_only() {
    let mut t = ActorsTextures::new();
    t.load(&vec![
        entry(1, 1, Angle::Front, None, None),
        entry(1, 1, Angle::Back, None, None),
        entry(1, 1, Angle::Any, img(10), None),
    ]);
    assert_eq!(t.get(1, 1, Angle::Front), sprite(img(10), None));
    assert_eq!(t.get(1, 1, Angle::Back), sprite(img(10), None));
    assert_eq!(t.get(1, 1, Angle::Any), sprite(img(10), None));
    assert_eq!(t.get(1, 1, Angle::Left), None);
    assert_eq!(t.get(1, 1, Angle::Right), None);
}

#[test]
fn angle_inserted_after_any_takes_its_fallback() {
    let mut t = ActorsTextures::new();
    t.load(&vec![entry(1, 1, Angle::Any, img(10), lay(20)), entry(1, 1, Angle::Left, None, None)]);
    assert_eq!(t.get(1, 1, Angle::Left), sprite(img(10), lay(20)));
    t.load(&vec![entry(1, 1, Angle::Any, img(11), lay(21))]);
    assert_eq!(t.get(1, 1, Angle::Left), sprite(img(10), lay(20)));
    assert_eq!(t.get(1, 1, Angle::Any), sprite(img(11), lay(21)));
}

#[test]
fn explicit_image_before_any_is_kept() {
    let mut t = ActorsTextures::new();
    t.load(&vec![entry(1, 1, Angle::Front, img(5), None), entry(1, 1, Angle::Any, img(10), None)]);
    assert_eq!(t.get(1, 1, Angle::Front), sprite(img(5), None));
}

#[test]
fn explicit_image_after_any_is_kept() {
    let mut t = ActorsTextures::new();
    t.load(&vec![entry(1, 1, Angle::Any, img(10), None), entry(1, 1, Angle::Front, img(5), None)]);
    assert_eq!(t.get(1, 1, Angle::Front), sprite(img(5), None));
    t.load(&vec![entry(1, 1, Angle::Front, None, lay(7))]);
    assert_eq!(t.get(1, 1, Angle::Front), sprite(img(5), lay(7)));
}

#[test]
fn later_explicit_image_replaces_earlier() {
    let mut t = ActorsTextures::new();
    t.load(&vec![entry(2, 3, Angle::Back, img(1), lay(1)), entry(2, 3, Angle::Back, img(2), None)]);
    assert_eq!(t.get(2, 3, Angle::Back), sprite(img(2), lay(1)));
}

#[test]
fn loading_nothing_changes_nothing() {
    let mut t = ActorsTextures::new();
    t.load(&vec![entry(1, 2, Angle::Front, img(1), None)]);
    t.load(&vec![]);
    t.load_declarations(&vec![]);
    assert_eq!(t.get(1, 2, Angle::Front), sprite(img(1), None));
    assert_eq!(t.get(1, 2, Angle::Back), None);
    assert_eq!(t.get(1, 3, Angle::Front), None);
    assert_eq!(t.get(2, 2, Angle::Front), None);
}

#[test]
fn scenario_backfills_layout_from_any() {
    let decls = vec![
        decl(Some(7), Some(2), Some(Angle::Front), img(1), None),
        decl(None, None, Some(Angle::Back), img(2), None),
        decl(None, None, Some(Angle::Any), img(3), lay(4)),
    ];
    let mut t = ActorsTextures::new();
    t.load_declarations(&decls);
    assert_eq!(t.get(7, 2, Angle::Front), sprite(img(1), lay(4)));
    assert_eq!(t.get(7, 2, Angle::Back), sprite(img(2), lay(4)));
    assert_eq!(t.get(7, 2, Angle::Any), sprite(img(3), lay(4)));
    assert_eq!(t.get(7, 2, Angle::Left), None);
}

#[test]
fn loads_are_merged() {
    let mut t = ActorsTextures::new();
    t.load_declarations(&vec![decl(Some(1), Some(1), None, img(1), None)]);
    t.load_declarations(&vec![decl(Some(2), Some(5), Some(Angle::BackLeft), img(2), None)]);
    assert_eq!(t.get(1, 1, Angle::Front), sprite(img(1), None));
    assert_eq!(t.get(2, 5, Angle::BackLeft), sprite(img(2), None));
}

#[test]
fn load_asset_loader_reads_the_collection() {
    let bundle = Bundle {
        decls: vec![
            decl(Some(4), Some(1), Some(Angle::Front), img(1), None),
            decl(None, None, Some(Angle::Right), img(2), None),
            decl(None, None, Some(Angle::Any), None, lay(9)),
            decl(None, Some(2), Some(Angle::FrontRight), img(3), None),
        ],
    };
    let mut t = ActorsTextures::new();
    t.load_asset_loader(&bundle);
    assert_eq!(t.get(4, 1, Angle::Front), sprite(img(1), lay(9)));
    assert_eq!(t.get(4, 1, Angle::Right), sprite(img(2), lay(9)));
    assert_eq!(t.get(4, 1, Angle::Any), sprite(None, lay(9)));
    assert_eq!(t.get(4, 2, Angle::FrontRight), sprite(img(3), None));
}

#[test]
fn view_textures_from_items() {
    let a = ViewSprite { layout: None, image: img(1) };
    let b = ViewSprite { layout: lay(2), image: None };
    let v = ViewTextures::from(vec![(Angle::Left, a), (Angle::Right, b), (Angle::Left, b)]);
    assert_eq!(v.get(Angle::Left), Some(b));
    assert_eq!(v.get(Angle::Right), Some(b));
    assert_eq!(v.get(Angle::Front), None);
    assert_eq!(ViewTextures::new().get(Angle::Any), None);
}

#[test]
fn angle_slots_are_distinct() {
    let all = [
        Angle::Any,
        Angle::Front,
        Angle::Back,
        Angle::Left,
        Angle::Right,
        Angle::FrontLeft,
        Angle::FrontRight,
        Angle::BackLeft,
        Angle::BackRight,
    ];
    let idx: Vec<usize> = all.iter().map(|a| a.index()).collect();
    assert_eq!(idx, vec![0, 1, 2, 3, 4, 5, 6, 7, 8]);
}

#[test]
fn default_sprite_is_empty() {
    assert_eq!(ViewSprite::default(), ViewSprite { layout: None, image: None });
}

#[test]
fn default_tables_are_empty() {
    let t = ActorsTextures::default();
    assert_eq!(t.get(0, 0, Angle::Front), None);
    assert_eq!(ViewTextures::default().get(Angle::Front), None);
}
