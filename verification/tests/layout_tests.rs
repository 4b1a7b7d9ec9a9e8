use o2tk::Color;
use o2tk::ContainerBuilder;
use o2tk::Container;
use o2tk::AxisGroup;
use o2tk::DockBuilder;
use o2tk::DockSize;
use o2tk::DrawVertex;
use o2tk::Error;
use o2tk::Frac;
use o2tk::LabelBuilder;
use o2tk::Orientation;
use o2tk::Position;
use o2tk::Size;
use o2tk::Ui;
use o2tk::Widget;
use o2tk::WindowContainerBuilder;
use o2tk::build_vertices;
use o2tk::normalize_sizes;

fn frac(n: i128, d: i128) -> Frac {
    Frac::new(n, d).unwrap()
}

fn assert_quad(v: &[DrawVertex], x0: Frac, y0: Frac, x1: Frac, y1: Frac, color: Color) {
    assert_eq!(v.len(), 6);
    assert!(v[0].position() == (x1, y1));
    assert!(v[1].position() == (x0, y1));
    assert!(v[2].position() == (x0, y0));
    assert!(v[3].position() == (x1, y1));
    assert!(v[4].position() == (x1, y0));
    assert!(v[5].position() == (x0, y0));
    for q in v {
        assert_eq!(q.color(), color);
    }
}

fn widget_size(ui: &Ui, id: &str) -> Size {
    let i = ui.find_widget(&String::from(id)).unwrap();
    ui.widgets()[i].size()
}

#[test]
fn test_full_width_dock_bottom_small() {
    // A small dock pinned to the bottom edge, spanning the whole width:
    // its bottom edge sits at device y = 2 * (100 - 3.6) / 100 - 1.
    let mut ui = Ui::init("org.example.scenarios");
    WindowContainerBuilder::new("wcontainer")
        .build(&mut ui)
        .unwrap();
    DockBuilder::new("dock", "wcontainer")
        .with_orientation(Orientation::Bottom)
        .with_thickness(DockSize::Small)
        .with_length(frac(100, 1))
        .build(&mut ui)
        .unwrap();
    let i = ui.find_widget(&String::from("dock")).unwrap();
    let v = ui.widgets()[i].draw(&ui).unwrap();
    assert_quad(
        &v,
        frac(-1, 1),
        frac(928, 1000),
        frac(1, 1),
        frac(1, 1),
        Color::from_rgba(0x16, 0x1B, 0x6D, 0xFF),
    );
}

#[test]
fn test_three_full_centered_containers_share_equally() {
    // Three Full containers in the same bucket split the space three
    // ways: each ends up with exactly 100/3 percent along both axes.
    let mut ui = Ui::init("org.example.scenarios");
    WindowContainerBuilder::new("wcontainer")
        .build(&mut ui)
        .unwrap();
    for id in ["a", "b", "c"] {
        ContainerBuilder::new(id, "wcontainer", Position::Center)
            .build(&mut ui)
            .unwrap();
    }
    let resolved = normalize_sizes(&ui).unwrap();
    for id in ["a", "b", "c"] {
        match widget_size(&resolved, id) {
            Size::Size(w, h) => {
                assert!(w == frac(100, 3));
                assert!(h == frac(100, 3));
            }
            Size::Full => panic!("size was not normalized"),
        }
    }
}

#[test]
fn test_normalize_fills_remaining_percentage() {
    // One sibling claims 40% of the center row; the two Full ones share
    // the remaining 60% of the width, 100% of their columns' heights.
    let mut ui = Ui::init("org.example.scenarios");
    WindowContainerBuilder::new("wcontainer")
        .build(&mut ui)
        .unwrap();
    ContainerBuilder::new("fixed", "wcontainer", Position::Center)
        .with_size(Size::Size(frac(40, 1), frac(10, 1)))
        .build(&mut ui)
        .unwrap();
    ContainerBuilder::new("a", "wcontainer", Position::Center)
        .build(&mut ui)
        .unwrap();
    ContainerBuilder::new("b", "wcontainer", Position::Center)
        .build(&mut ui)
        .unwrap();
    let resolved = normalize_sizes(&ui).unwrap();
    match widget_size(&resolved, "a") {
        Size::Size(w, h) => {
            assert!(w == frac(30, 1));
            assert!(h == frac(45, 1));
        }
        Size::Full => panic!("size was not normalized"),
    }
    match widget_size(&resolved, "fixed") {
        Size::Size(w, h) => {
            assert!(w == frac(40, 1));
            assert!(h == frac(10, 1));
        }
        Size::Full => panic!("fixed size must stay untouched"),
    }
}

#[test]
fn test_normalize_overflow_fails_atomically() {
    // 60% + 50% in one row exceeds 100: normalization reports the group
    // and leaves the input tree untouched.
    let mut ui = Ui::init("org.example.scenarios");
    WindowContainerBuilder::new("wcontainer")
        .build(&mut ui)
        .unwrap();
    ContainerBuilder::new("a", "wcontainer", Position::Center)
        .with_size(Size::Size(frac(60, 1), frac(10, 1)))
        .build(&mut ui)
        .unwrap();
    ContainerBuilder::new("b", "wcontainer", Position::Center)
        .with_size(Size::Size(frac(50, 1), frac(10, 1)))
        .build(&mut ui)
        .unwrap();
    let r = normalize_sizes(&ui);
    assert_eq!(r.err(), Some(Error::LayoutOverflow(AxisGroup::CenterWidth)));
    match widget_size(&ui, "a") {
        Size::Size(w, _) => assert!(w == frac(60, 1)),
        Size::Full => panic!("input tree must stay untouched"),
    }
    match widget_size(&ui, "b") {
        Size::Size(w, _) => assert!(w == frac(50, 1)),
        Size::Full => panic!("input tree must stay untouched"),
    }
}

#[test]
fn test_overflow_in_top_row_names_group() {
    let mut ui = Ui::init("org.example.scenarios");
    WindowContainerBuilder::new("wcontainer")
        .build(&mut ui)
        .unwrap();
    ContainerBuilder::new("a", "wcontainer", Position::TopLeft)
        .with_size(Size::Size(frac(101, 1), frac(10, 1)))
        .build(&mut ui)
        .unwrap();
    let r = normalize_sizes(&ui);
    assert_eq!(r.err(), Some(Error::LayoutOverflow(AxisGroup::TopWidth)));
}

#[test]
fn test_overflow_in_left_column_names_group() {
    let mut ui = Ui::init("org.example.scenarios");
    WindowContainerBuilder::new("wcontainer")
        .build(&mut ui)
        .unwrap();
    ContainerBuilder::new("a", "wcontainer", Position::BottomLeft)
        .with_size(Size::Size(frac(10, 1), frac(200, 1)))
        .build(&mut ui)
        .unwrap();
    let r = normalize_sizes(&ui);
    assert_eq!(r.err(), Some(Error::LayoutOverflow(AxisGroup::LeftHeight)));
}

#[test]
fn test_label_centered_in_left_half() {
    // Two Full containers split the canvas into a left and a right
    // half; a half-sized label centers within the left half.
    let mut ui = Ui::init("org.example.scenarios");
    WindowContainerBuilder::new("wcontainer")
        .build(&mut ui)
        .unwrap();
    ContainerBuilder::new("child", "wcontainer", Position::Left)
        .build(&mut ui)
        .unwrap();
    ContainerBuilder::new("sec_child", "wcontainer", Position::Right)
        .build(&mut ui)
        .unwrap();
    LabelBuilder::new("label", "child", Position::Center, "Testing")
        .with_size(Size::Size(frac(50, 1), frac(50, 1)))
        .with_background_color("#123456FF")
        .with_text_color("#FFFFFFFF")
        .build(&mut ui)
        .unwrap();
    let resolved = normalize_sizes(&ui).unwrap();
    match widget_size(&resolved, "child") {
        Size::Size(w, h) => {
            assert!(w == frac(50, 1));
            assert!(h == frac(100, 1));
        }
        Size::Full => panic!("size was not normalized"),
    }
    let i = resolved.find_widget(&String::from("label")).unwrap();
    let v = resolved.widgets()[i].draw(&resolved).unwrap();
    assert_quad(
        &v,
        frac(-3, 4),
        frac(-1, 2),
        frac(-1, 4),
        frac(1, 2),
        Color::from_rgba(0x12, 0x34, 0x56, 0xFF),
    );
}

#[test]
fn test_invisible_widget_draws_nothing() {
    let mut ui = Ui::init("org.example.scenarios");
    WindowContainerBuilder::new("wcontainer")
        .build(&mut ui)
        .unwrap();
    ContainerBuilder::new("container", "wcontainer", Position::Center)
        .with_size(Size::Size(frac(50, 1), frac(50, 1)))
        .build(&mut ui)
        .unwrap();
    let i = ui.find_widget(&String::from("container")).unwrap();
    ui.widgets[i].conceal();
    let v = ui.widgets()[i].draw(&ui).unwrap();
    assert_eq!(v.len(), 0);
}

#[test]
fn test_invisible_ancestor_hides_descendants() {
    let mut ui = Ui::init("org.example.scenarios");
    WindowContainerBuilder::new("wcontainer")
        .build(&mut ui)
        .unwrap();
    ContainerBuilder::new("parent", "wcontainer", Position::Center)
        .with_size(Size::Size(frac(50, 1), frac(50, 1)))
        .build(&mut ui)
        .unwrap();
    ContainerBuilder::new("child", "parent", Position::Center)
        .with_size(Size::Size(frac(50, 1), frac(50, 1)))
        .build(&mut ui)
        .unwrap();
    let p = ui.find_widget(&String::from("parent")).unwrap();
    ui.widgets[p].conceal();
    let c = ui.find_widget(&String::from("child")).unwrap();
    let v = ui.widgets()[c].draw(&ui).unwrap();
    assert_eq!(v.len(), 0);
}

#[test]
fn test_dangling_parent_is_an_error() {
    let mut ui = Ui::init("org.example.scenarios");
    WindowContainerBuilder::new("wcontainer")
        .build(&mut ui)
        .unwrap();
    ContainerBuilder::new("orphan", "nobody", Position::Center)
        .with_size(Size::Size(frac(50, 1), frac(50, 1)))
        .build(&mut ui)
        .unwrap();
    let i = ui.find_widget(&String::from("orphan")).unwrap();
    assert_eq!(ui.widgets()[i].draw(&ui).err(), Some(Error::DanglingParent));
}

#[test]
fn test_unresolved_full_size_is_an_error() {
    let mut ui = Ui::init("org.example.scenarios");
    WindowContainerBuilder::new("wcontainer")
        .build(&mut ui)
        .unwrap();
    ContainerBuilder::new("container", "wcontainer", Position::Center)
        .build(&mut ui)
        .unwrap();
    let i = ui.find_widget(&String::from("container")).unwrap();
    assert_eq!(ui.widgets()[i].draw(&ui).err(), Some(Error::UnresolvedSize));
}

#[test]
fn test_parent_cycle_is_an_error() {
    let mut ui = Ui::init("org.example.scenarios");
    ui.add_widget(Widget::Container(Container {
        id: String::from("a"),
        parent_id: String::from("b"),
        size: Size::Size(frac(50, 1), frac(50, 1)),
        position: Position::Center,
        color: Color::from_rgba(0, 0, 0, 255),
        visible: true,
    }));
    ui.add_widget(Widget::Container(Container {
        id: String::from("b"),
        parent_id: String::from("a"),
        size: Size::Size(frac(50, 1), frac(50, 1)),
        position: Position::Center,
        color: Color::from_rgba(0, 0, 0, 255),
        visible: true,
    }));
    let i = ui.find_widget(&String::from("a")).unwrap();
    assert_eq!(ui.widgets()[i].draw(&ui).err(), Some(Error::CyclicHierarchy));
}

#[test]
fn test_build_vertices_collects_all_visible_widgets() {
    let mut ui = Ui::init("org.example.scenarios");
    WindowContainerBuilder::new("wcontainer")
        .build(&mut ui)
        .unwrap();
    ContainerBuilder::new("a", "wcontainer", Position::Left)
        .build(&mut ui)
        .unwrap();
    ContainerBuilder::new("b", "wcontainer", Position::Right)
        .build(&mut ui)
        .unwrap();
    let v = build_vertices(&ui).unwrap();
    // the window container and both containers draw a quad each
    assert_eq!(v.len(), 18);
}

#[test]
fn test_label_text_size_validation() {
    let mut ui = Ui::init("org.example.scenarios");
    WindowContainerBuilder::new("wcontainer")
        .build(&mut ui)
        .unwrap();
    let too_small = LabelBuilder::new("l1", "wcontainer", Position::Center, "x")
        .with_text_size(frac(0, 1))
        .build(&mut ui);
    assert_eq!(too_small.err(), Some(Error::TextSizeRange));
    let too_big = LabelBuilder::new("l2", "wcontainer", Position::Center, "x")
        .with_text_size(frac(101, 1))
        .build(&mut ui);
    assert_eq!(too_big.err(), Some(Error::TextSizeRange));
    let fine = LabelBuilder::new("l3", "wcontainer", Position::Center, "x")
        .with_text_size(frac(50, 1))
        .build(&mut ui);
    assert!(fine.is_ok());
}

#[test]
fn test_bad_builder_color_is_an_error() {
    let mut ui = Ui::init("org.example.scenarios");
    WindowContainerBuilder::new("wcontainer")
        .build(&mut ui)
        .unwrap();
    let r = ContainerBuilder::new("container", "wcontainer", Position::Center)
        .with_color("#nothex!")
        .build(&mut ui);
    assert_eq!(r.err(), Some(Error::ColorFormat));
    assert!(ui.find_widget(&String::from("container")).is_none());
}

#[test]
fn test_theme_default_colors() {
    let theme = o2tk::Theme::default();
    assert_eq!(theme.bar_color().unwrap().rgba(), (0x16, 0x1B, 0x6D, 0xFF));
    assert_eq!(theme.container_color().unwrap().rgba(), (0x16, 0x1B, 0x1D, 0xFF));
    assert_eq!(theme.dock_color().unwrap().rgba(), (0x16, 0x1B, 0x6D, 0xFF));
    assert_eq!(theme.label_text_color().unwrap().rgba(), (0xFF, 0xFF, 0xFF, 0xFF));
    assert_eq!(theme.label_background_color().unwrap().rgba(), (0x16, 0x1B, 0x1D, 0xFF));
    assert_eq!(theme.window_container_color().unwrap().rgba(), (0x16, 0x1B, 0x3D, 0xFF));
}

#[test]
fn test_frac_arithmetic_is_exact() {
    let third = frac(1, 3);
    let sixth = frac(1, 6);
    assert!(third.add(sixth).unwrap() == frac(1, 2));
    assert!(third.sub(sixth).unwrap() == sixth);
    assert!(third.mul(frac(3, 1)).unwrap() == frac(1, 1));
    assert!(frac(1, 1).div(frac(3, 1)).unwrap() == third);
    assert!(frac(1, 3).half().unwrap() == frac(1, 6));
    assert!(frac(2, 4) == frac(1, 2));
    assert!(frac(1, 3).le(frac(1, 2)));
    assert!(!frac(1, 2).le(frac(1, 3)));
    assert!(Frac::new(1, 0).is_none());
    assert!(Frac::new(1, -2).is_none());
}

#[test]
fn test_dock_size_percentages() {
    assert!(DockSize::Small.into_percent() == frac(18, 5));
    assert!(DockSize::Normal.into_percent() == frac(27, 5));
    assert!(DockSize::Large.into_percent() == frac(36, 5));
    assert!(DockSize::XLarge.into_percent() == frac(9, 1));
}

#[test]
fn test_duplicate_id_is_an_error() {
    let mut ui = Ui::init("org.example.scenarios");
    WindowContainerBuilder::new("wcontainer")
        .build(&mut ui)
        .unwrap();
    ContainerBuilder::new("a", "wcontainer", Position::Center)
        .build(&mut ui)
        .unwrap();
    let r = ContainerBuilder::new("a", "wcontainer", Position::Left).build(&mut ui);
    assert_eq!(r.err(), Some(Error::DuplicateId));
    assert_eq!(ui.widgets().len(), 2);
    assert!(ui.check_wf());
}

#[test]
fn test_check_wf_detects_bad_trees() {
    let mut ui = Ui::init("org.example.scenarios");
    WindowContainerBuilder::new("wcontainer")
        .build(&mut ui)
        .unwrap();
    ContainerBuilder::new("a", "wcontainer", Position::Center)
        .build(&mut ui)
        .unwrap();
    assert!(ui.check_wf());
    // a child id that resolves to no widget breaks well-formedness
    let mut broken = ui.clone();
    broken.heirarchy[0].1.push(String::from("ghost"));
    assert!(!broken.check_wf());
}
