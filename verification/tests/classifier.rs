use floating_window::align::{Align2, Vec2b};
use floating_window::config::{Anchor, Area, Resize};
use floating_window::geometry::Vec2;
use floating_window::interaction::PossibleInteractions;

fn all(p: PossibleInteractions) -> [bool; 4] {
    [p.resize_left, p.resize_right, p.resize_top, p.resize_bottom]
}

#[test]
fn free_window_can_be_dragged_by_every_edge() {
    let p = PossibleInteractions::new(&Area::initial(), &Resize::initial(), false);
    assert_eq!(all(p), [true, true, true, true]);
    assert!(p.resizable());
}

#[test]
fn disabled_window_has_no_draggable_edge() {
    let mut area = Area::initial();
    area.enabled = false;
    let p = PossibleInteractions::new(&area, &Resize::initial(), false);
    assert_eq!(all(p), [false, false, false, false]);
    assert!(!p.resizable());
}

#[test]
fn collapsed_window_has_no_draggable_edge() {
    let p = PossibleInteractions::new(&Area::initial(), &Resize::initial(), true);
    assert_eq!(all(p), [false, false, false, false]);
}

#[test]
fn disabled_or_collapsed_is_inert_for_every_configuration() {
    let pivots = [
        Align2::left_top(),
        Align2::left_center(),
        Align2::left_bottom(),
        Align2::center_center(),
        Align2::right_top(),
        Align2::right_center(),
        Align2::right_bottom(),
    ];
    for pivot in pivots {
        for bits in 0..16u8 {
            let mut area = Area::initial();
            area.pivot = pivot;
            area.movable = bits & 1 != 0;
            let mut resize = Resize::initial();
            resize.resizable = Vec2b::new(bits & 2 != 0, bits & 4 != 0);
            let collapsed = bits & 8 != 0;
            area.enabled = collapsed;
            let p = PossibleInteractions::new(&area, &resize, collapsed);
            assert_eq!(all(p), [false, false, false, false]);
        }
    }
}

#[test]
fn only_resizable_axes_offer_edges() {
    let mut resize = Resize::initial();
    resize.resizable = Vec2b::new(true, false);
    let p = PossibleInteractions::new(&Area::initial(), &resize, false);
    assert_eq!(all(p), [true, true, false, false]);
    resize.resizable = Vec2b::new(false, true);
    let p = PossibleInteractions::new(&Area::initial(), &resize, false);
    assert_eq!(all(p), [false, false, true, true]);
    resize.resizable = Vec2b::new(false, false);
    let p = PossibleInteractions::new(&Area::initial(), &resize, false);
    assert!(!p.resizable());
}

#[test]
fn pivot_holds_its_edges_of_an_immovable_window() {
    let mut area = Area::initial();
    area.movable = false;
    let p = PossibleInteractions::new(&area, &Resize::initial(), false);
    assert_eq!(all(p), [false, true, false, true]);

    area.pivot = Align2::right_bottom();
    let p = PossibleInteractions::new(&area, &Resize::initial(), false);
    assert_eq!(all(p), [true, false, true, false]);

    area.pivot = Align2::center_center();
    let p = PossibleInteractions::new(&area, &Resize::initial(), false);
    assert_eq!(all(p), [true, true, true, true]);
}

#[test]
fn anchor_replaces_the_pivot() {
    let mut area = Area::initial();
    area.movable = false;
    area.pivot = Align2::left_bottom();
    area.anchor = Some(Anchor { align: Align2::right_top(), offset: Vec2::new(0, 0) });
    let p = PossibleInteractions::new(&area, &Resize::initial(), false);
    assert_eq!(all(p), [true, false, false, true]);
}
