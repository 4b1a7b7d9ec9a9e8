use o2tk::Color;
use o2tk::ContainerBuilder;
use o2tk::DrawVertex;
use o2tk::Frac;
use o2tk::Position;
use o2tk::Size;
use o2tk::Ui;
use o2tk::WindowContainerBuilder;

fn frac(n: i128, d: i128) -> Frac {
    Frac::new(n, d).unwrap()
}

fn container_vertices(position: Position) -> Vec<DrawVertex> {
    let mut ui = Ui::init("org.example.containers");
    WindowContainerBuilder::new("wcontainer")
        .build(&mut ui)
        .unwrap();
    ContainerBuilder::new("container", "wcontainer", position)
        .with_size(Size::Size(frac(100, 1), frac(100, 1)))
        .build(&mut ui)
        .unwrap();
    let i = ui.find_widget(&String::from("container")).unwrap();
    ui.widgets()[i].draw(&ui).unwrap()
}

fn half_container_vertices(position: Position) -> Vec<DrawVertex> {
    let mut ui = Ui::init("org.example.containers");
    WindowContainerBuilder::new("wcontainer")
        .build(&mut ui)
        .unwrap();
    ContainerBuilder::new("half", "wcontainer", position)
        .with_size(Size::Size(frac(50, 1), frac(50, 1)))
        .build(&mut ui)
        .unwrap();
    let i = ui.find_widget(&String::from("half")).unwrap();
    ui.widgets()[i].draw(&ui).unwrap()
}

fn assert_quad(v: &[DrawVertex], x0: Frac, y0: Frac, x1: Frac, y1: Frac, color: Color) {
    assert_eq!(v.len(), 6);
    assert!(v[0].position() == (x1, y1));
    assert!(v[1].position() == (x0, y1));
    assert!(v[2].position() == (x0, y0));
    assert!(v[3].position() == (x1, y1));
    assert!(v[4].position() == (x1, y0));
    assert!(v[5].position() == (x0, y0));
    for q in v {
        assert_eq!(q.color(), color);
    }
}

fn container_color() -> Color {
    Color::from_rgba(0x16, 0x1B, 0x1D, 0xFF)
}

// A full-sized container fills its parent's whole box whatever its
// position bucket, so each of the nine placements resolves to the full
// canvas.

#[test]
fn test_container_bottom_left() {
    let v = container_vertices(Position::BottomLeft);
    assert_quad(&v, frac(-1, 1), frac(-1, 1), frac(1, 1), frac(1, 1), container_color());
}

#[test]
fn test_container_bottom() {
    let v = container_vertices(Position::Bottom);
    assert_quad(&v, frac(-1, 1), frac(-1, 1), frac(1, 1), frac(1, 1), container_color());
}

#[test]
fn test_container_bottom_right() {
    let v = container_vertices(Position::BottomRight);
    assert_quad(&v, frac(-1, 1), frac(-1, 1), frac(1, 1), frac(1, 1), container_color());
}

#[test]
fn test_container_left() {
    let v = container_vertices(Position::Left);
    assert_quad(&v, frac(-1, 1), frac(-1, 1), frac(1, 1), frac(1, 1), container_color());
}

#[test]
fn test_container_center() {
    let v = container_vertices(Position::Center);
    assert_quad(&v, frac(-1, 1), frac(-1, 1), frac(1, 1), frac(1, 1), container_color());
}

#[test]
fn test_container_right() {
    let v = container_vertices(Position::Right);
    assert_quad(&v, frac(-1, 1), frac(-1, 1), frac(1, 1), frac(1, 1), container_color());
}

#[test]
fn test_container_top_left() {
    let v = container_vertices(Position::TopLeft);
    assert_quad(&v, frac(-1, 1), frac(-1, 1), frac(1, 1), frac(1, 1), container_color());
}

#[test]
fn test_container_top() {
    let v = container_vertices(Position::Top);
    assert_quad(&v, frac(-1, 1), frac(-1, 1), frac(1, 1), frac(1, 1), container_color());
}

#[test]
fn test_container_top_right() {
    let v = container_vertices(Position::TopRight);
    assert_quad(&v, frac(-1, 1), frac(-1, 1), frac(1, 1), frac(1, 1), container_color());
}

#[test]
fn test_container_half_size_buckets() {
    // A half-sized container covers one device unit along each axis: the
    // left column spans [-1,0], the middle [-1/2,1/2], the right [0,1],
    // and likewise for the rows.
    let cases = [
        (Position::BottomLeft, (-2, 0), (0, 2)),
        (Position::Bottom, (-1, 1), (0, 2)),
        (Position::BottomRight, (0, 2), (0, 2)),
        (Position::Left, (-2, 0), (-1, 1)),
        (Position::Center, (-1, 1), (-1, 1)),
        (Position::Right, (0, 2), (-1, 1)),
        (Position::TopLeft, (-2, 0), (-2, 0)),
        (Position::Top, (-1, 1), (-2, 0)),
        (Position::TopRight, (0, 2), (-2, 0)),
    ];
    for (pos, (x0, x1), (y0, y1)) in cases {
        let v = half_container_vertices(pos);
        assert_quad(
            &v,
            frac(x0, 2),
            frac(y0, 2),
            frac(x1, 2),
            frac(y1, 2),
            container_color(),
        );
    }
}
