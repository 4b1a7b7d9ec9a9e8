use o2tk::Color;
use o2tk::DockBuilder;
use o2tk::DockSize;
use o2tk::DrawVertex;
use o2tk::Frac;
use o2tk::Orientation;
use o2tk::Ui;
use o2tk::WindowContainerBuilder;

fn frac(n: i128, d: i128) -> Frac {
    Frac::new(n, d).unwrap()
}

fn dock_vertices(orientation: Orientation, thickness: DockSize) -> Vec<DrawVertex> {
    let mut ui = Ui::init("org.example.docks");
    WindowContainerBuilder::new("wcontainer")
        .build(&mut ui)
        .unwrap();
    DockBuilder::new("dock", "wcontainer")
        .with_orientation(orientation)
        .with_thickness(thickness)
        .with_length(frac(75, 1))
        .build(&mut ui)
        .unwrap();
    let i = ui.find_widget(&String::from("dock")).unwrap();
    ui.widgets()[i].draw(&ui).unwrap()
}

fn assert_quad(v: &[DrawVertex], x0: Frac, y0: Frac, x1: Frac, y1: Frac, color: Color) {
    assert_eq!(v.len(), 6);
    assert!(v[0].position() == (x1, y1));
    assert!(v[1].position() == (x0, y1));
    assert!(v[2].position() == (x0, y0));
    assert!(v[3].position() == (x1, y1));
    assert!(v[4].position() == (x1, y0));
    assert!(v[5].position() == (x0, y0));
    for q in v {
        assert_eq!(q.color(), color);
    }
}

fn dock_color() -> Color {
    Color::from_rgba(0x16, 0x1B, 0x6D, 0xFF)
}

// The low device edge of a dock of thickness `t` tenths of a percent:
// 1 - 2 * t / 1000.
fn edge(t: i128) -> Frac {
    frac(1000 - 2 * t, 1000)
}

fn neg(f: Frac) -> Frac {
    frac(0, 1).sub(f).unwrap()
}

// Each dock is built with a length of 75% of the edge it sits on, so
// the centered long side spans device [-3/4, 3/4].

#[test]
fn test_dock_bottom_small() {
    let v = dock_vertices(Orientation::Bottom, DockSize::Small);
    assert_quad(&v, frac(-3, 4), edge(36), frac(3, 4), frac(1, 1), dock_color());
}

#[test]
fn test_dock_left_small() {
    let v = dock_vertices(Orientation::Left, DockSize::Small);
    assert_quad(&v, frac(-1, 1), frac(-3, 4), neg(edge(36)), frac(3, 4), dock_color());
}

#[test]
fn test_dock_top_small() {
    let v = dock_vertices(Orientation::Top, DockSize::Small);
    assert_quad(&v, frac(-3, 4), frac(-1, 1), frac(3, 4), neg(edge(36)), dock_color());
}

#[test]
fn test_dock_right_small() {
    let v = dock_vertices(Orientation::Right, DockSize::Small);
    assert_quad(&v, edge(36), frac(-3, 4), frac(1, 1), frac(3, 4), dock_color());
}

#[test]
fn test_dock_bottom_normal() {
    let v = dock_vertices(Orientation::Bottom, DockSize::Normal);
    assert_quad(&v, frac(-3, 4), edge(54), frac(3, 4), frac(1, 1), dock_color());
}

#[test]
fn test_dock_left_normal() {
    let v = dock_vertices(Orientation::Left, DockSize::Normal);
    assert_quad(&v, frac(-1, 1), frac(-3, 4), neg(edge(54)), frac(3, 4), dock_color());
}

#[test]
fn test_dock_top_normal() {
    let v = dock_vertices(Orientation::Top, DockSize::Normal);
    assert_quad(&v, frac(-3, 4), frac(-1, 1), frac(3, 4), neg(edge(54)), dock_color());
}

#[test]
fn test_dock_right_normal() {
    let v = dock_vertices(Orientation::Right, DockSize::Normal);
    assert_quad(&v, edge(54), frac(-3, 4), frac(1, 1), frac(3, 4), dock_color());
}

#[test]
fn test_dock_bottom_large() {
    let v = dock_vertices(Orientation::Bottom, DockSize::Large);
    assert_quad(&v, frac(-3, 4), edge(72), frac(3, 4), frac(1, 1), dock_color());
}

#[test]
fn test_dock_left_large() {
    let v = dock_vertices(Orientation::Left, DockSize::Large);
    assert_quad(&v, frac(-1, 1), frac(-3, 4), neg(edge(72)), frac(3, 4), dock_color());
}

#[test]
fn test_dock_top_large() {
    let v = dock_vertices(Orientation::Top, DockSize::Large);
    assert_quad(&v, frac(-3, 4), frac(-1, 1), frac(3, 4), neg(edge(72)), dock_color());
}

#[test]
fn test_dock_right_large() {
    let v = dock_vertices(Orientation::Right, DockSize::Large);
    assert_quad(&v, edge(72), frac(-3, 4), frac(1, 1), frac(3, 4), dock_color());
}

#[test]
fn test_dock_bottom_xlarge() {
    let v = dock_vertices(Orientation::Bottom, DockSize::XLarge);
    assert_quad(&v, frac(-3, 4), edge(90), frac(3, 4), frac(1, 1), dock_color());
}

#[test]
fn test_dock_left_xlarge() {
    let v = dock_vertices(Orientation::Left, DockSize::XLarge);
    assert_quad(&v, frac(-1, 1), frac(-3, 4), neg(edge(90)), frac(3, 4), dock_color());
}

#[test]
fn test_dock_top_xlarge() {
    let v = dock_vertices(Orientation::Top, DockSize::XLarge);
    assert_quad(&v, frac(-3, 4), frac(-1, 1), frac(3, 4), neg(edge(90)), dock_color());
}

#[test]
fn test_dock_right_xlarge() {
    let v = dock_vertices(Orientation::Right, DockSize::XLarge);
    assert_quad(&v, edge(90), frac(-3, 4), frac(1, 1), frac(3, 4), dock_color());
}
