use pet_cli::{frame_layout, Area};

#[test]
fn frame_regions_for_80_by_24() {
    let r = frame_layout(Area { x: 0, y: 0, width: 80, height: 24 });
    assert_eq!(r.header, Area { x: 2, y: 2, width: 76, height: 3 });
    assert_eq!(r.content, Area { x: 2, y: 5, width: 76, height: 14 });
    assert_eq!(r.footer, Area { x: 2, y: 19, width: 76, height: 3 });
}

#[test]
fn frame_regions_stack_on_short_terminal() {
    let r = frame_layout(Area { x: 0, y: 0, width: 80, height: 10 });
    for a in [r.header, r.content, r.footer] {
        assert_eq!((a.x, a.width), (2, 76));
    }
    assert_eq!(r.header.y, 2);
    assert_eq!(r.content.y, r.header.y + r.header.height);
    assert_eq!(r.footer.y, r.content.y + r.content.height);
    assert_eq!(r.footer.y + r.footer.height, 8);
}

#[test]
fn frame_regions_near_right_edge() {
    let r = frame_layout(Area { x: 65000, y: 0, width: 535, height: 24 });
    assert_eq!(r.header, Area { x: 65002, y: 2, width: 531, height: 3 });
    assert_eq!(r.content, Area { x: 65002, y: 5, width: 531, height: 14 });
    assert_eq!(r.footer, Area { x: 65002, y: 19, width: 531, height: 3 });
}

#[test]
fn frame_too_small_for_margin() {
    let r = frame_layout(Area { x: 0, y: 0, width: 3, height: 3 });
    let empty = Area { x: 0, y: 0, width: 0, height: 0 };
    assert_eq!((r.header, r.content, r.footer), (empty, empty, empty));
}
