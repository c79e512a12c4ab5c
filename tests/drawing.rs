use pwwwd::surface::{DrawAction, SurfaceState};

#[test]
fn nothing_drawn_before_configure() {
    let mut s = SurfaceState::new();
    assert_eq!(s.begin_draw(false), DrawAction::NotConfigured);
    assert_eq!(s.begin_draw(true), DrawAction::NotConfigured);
    s.configure();
    assert_eq!(s.begin_draw(false), DrawAction::Wallpaper);
}

#[test]
fn drawing_consumes_damage() {
    let mut s = SurfaceState::new();
    s.configure();
    assert_eq!(s.begin_draw(false), DrawAction::Wallpaper);
    assert_eq!(s.begin_draw(false), DrawAction::NothingNew);
    s.damage();
    assert_eq!(s.begin_draw(true), DrawAction::Transition);
    assert_eq!(s.begin_draw(true), DrawAction::NothingNew);
}
