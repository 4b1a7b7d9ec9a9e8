use o2tk::Color;
use o2tk::DockSize;
use o2tk::DrawVertex;
use o2tk::Frac;
use o2tk::Orientation;
use o2tk::ToolbarBuilder;
use o2tk::Ui;
use o2tk::WindowContainerBuilder;

fn frac(n: i128, d: i128) -> Frac {
    Frac::new(n, d).unwrap()
}

fn bar_vertices(orientation: Orientation, thickness: DockSize) -> Vec<DrawVertex> {
    let mut ui = Ui::init("org.example.bars");
    WindowContainerBuilder::new("wcontainer")
        .build(&mut ui)
        .unwrap();
    ToolbarBuilder::new("bar", "wcontainer")
        .with_orientation(orientation)
        .with_thickness(thickness)
        .build(&mut ui)
        .unwrap();
    let i = ui.find_widget(&String::from("bar")).unwrap();
    ui.widgets()[i].draw(&ui).unwrap()
}

fn assert_quad(v: &[DrawVertex], x0: Frac, y0: Frac, x1: Frac, y1: Frac, color: Color) {
    assert_eq!(v.len(), 6);
    assert!(v[0].position() == (x1, y1));
    assert!(v[1].position() == (x0, y1));
    assert!(v[2].position() == (x0, y0));
    assert!(v[3].position() == (x1, y1));
    assert!(v[4].position() == (x1, y0));
    assert!(v[5].position() == (x0, y0));
    for q in v {
        assert_eq!(q.color(), color);
    }
}

fn bar_color() -> Color {
    Color::from_rgba(0x16, 0x1B, 0x6D, 0xFF)
}

// The low device edge of a bar of thickness `t` tenths of a percent:
// 1 - 2 * t / 1000.
fn edge(t: i128) -> Frac {
    frac(1000 - 2 * t, 1000)
}

#[test]
fn test_bar_bottom_small() {
    let v = bar_vertices(Orientation::Bottom, DockSize::Small);
    assert_quad(&v, frac(-1, 1), edge(36), frac(1, 1), frac(1, 1), bar_color());
}

#[test]
fn test_bar_left_small() {
    let v = bar_vertices(Orientation::Left, DockSize::Small);
    let e = edge(36);
    assert_quad(&v, frac(-1, 1), frac(-1, 1), frac(0, 1).sub(e).unwrap(), frac(1, 1), bar_color());
}

#[test]
fn test_bar_top_small() {
    let v = bar_vertices(Orientation::Top, DockSize::Small);
    let e = edge(36);
    assert_quad(&v, frac(-1, 1), frac(-1, 1), frac(1, 1), frac(0, 1).sub(e).unwrap(), bar_color());
}

#[test]
fn test_bar_right_small() {
    let v = bar_vertices(Orientation::Right, DockSize::Small);
    assert_quad(&v, edge(36), frac(-1, 1), frac(1, 1), frac(1, 1), bar_color());
}

#[test]
fn test_bar_bottom_normal() {
    let v = bar_vertices(Orientation::Bottom, DockSize::Normal);
    assert_quad(&v, frac(-1, 1), edge(54), frac(1, 1), frac(1, 1), bar_color());
}

#[test]
fn test_bar_left_normal() {
    let v = bar_vertices(Orientation::Left, DockSize::Normal);
    let e = edge(54);
    assert_quad(&v, frac(-1, 1), frac(-1, 1), frac(0, 1).sub(e).unwrap(), frac(1, 1), bar_color());
}

#[test]
fn test_bar_top_normal() {
    let v = bar_vertices(Orientation::Top, DockSize::Normal);
    let e = edge(54);
    assert_quad(&v, frac(-1, 1), frac(-1, 1), frac(1, 1), frac(0, 1).sub(e).unwrap(), bar_color());
}

#[test]
fn test_bar_right_normal() {
    let v = bar_vertices(Orientation::Right, DockSize::Normal);
    assert_quad(&v, edge(54), frac(-1, 1), frac(1, 1), frac(1, 1), bar_color());
}

#[test]
fn test_bar_bottom_large() {
    let v = bar_vertices(Orientation::Bottom, DockSize::Large);
    assert_quad(&v, frac(-1, 1), edge(72), frac(1, 1), frac(1, 1), bar_color());
}

#[test]
fn test_bar_left_large() {
    let v = bar_vertices(Orientation::Left, DockSize::Large);
    let e = edge(72);
    assert_quad(&v, frac(-1, 1), frac(-1, 1), frac(0, 1).sub(e).unwrap(), frac(1, 1), bar_color());
}

#[test]
fn test_bar_top_large() {
    let v = bar_vertices(Orientation::Top, DockSize::Large);
    let e = edge(72);
    assert_quad(&v, frac(-1, 1), frac(-1, 1), frac(1, 1), frac(0, 1).sub(e).unwrap(), bar_color());
}

#[test]
fn test_bar_right_large() {
    let v = bar_vertices(Orientation::Right, DockSize::Large);
    assert_quad(&v, edge(72), frac(-1, 1), frac(1, 1), frac(1, 1), bar_color());
}

#[test]
fn test_bar_bottom_xlarge() {
    let v = bar_vertices(Orientation::Bottom, DockSize::XLarge);
    assert_quad(&v, frac(-1, 1), edge(90), frac(1, 1), frac(1, 1), bar_color());
}

#[test]
fn test_bar_left_xlarge() {
    let v = bar_vertices(Orientation::Left, DockSize::XLarge);
    let e = edge(90);
    assert_quad(&v, frac(-1, 1), frac(-1, 1), frac(0, 1).sub(e).unwrap(), frac(1, 1), bar_color());
}

#[test]
fn test_bar_top_xlarge() {
    let v = bar_vertices(Orientation::Top, DockSize::XLarge);
    let e = edge(90);
    assert_quad(&v, frac(-1, 1), frac(-1, 1), frac(1, 1), frac(0, 1).sub(e).unwrap(), bar_color());
}

#[test]
fn test_bar_right_xlarge() {
    let v = bar_vertices(Orientation::Right, DockSize::XLarge);
    assert_quad(&v, edge(90), frac(-1, 1), frac(1, 1), frac(1, 1), bar_color());
}
