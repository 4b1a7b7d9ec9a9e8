use o2tk::Color;
use o2tk::Error;

#[test]
fn test_rust_hex_to_rgba() {
    let c = Color::from_hex("#B7410EFF").unwrap();
    let (r, g, b, a) = c.rgba();
    let rgba = [r as f32, g as f32, b as f32, a as f32];
    assert_eq!(rgba, [183.0, 65.0, 14.0, 255.0]);
}

#[test]
fn test_rust_hex_to_rgba_scale() {
    let c = Color::from_hex("#B7410EFF").unwrap();
    let (r, g, b, a) = c.rgba();
    let rgba = [
        r as f32 / 255.0,
        g as f32 / 255.0,
        b as f32 / 255.0,
        a as f32 / 255.0,
    ];
    assert_eq!(
        rgba,
        [183.0 / 255.0, 65.0 / 255.0, 14.0 / 255.0, 255.0 / 255.0]
    );
}

#[test]
fn test_rust_hex_to_hex() {
    let c = Color::from_hex("#B7410EFF").unwrap();
    assert_eq!(c.into_hex(), String::from("#B7410EFF"));
}

#[test]
fn test_azure_hex_to_rgba() {
    let c = Color::from_hex("#007FFFFF").unwrap();
    let (r, g, b, a) = c.rgba();
    let rgba = [r as f32, g as f32, b as f32, a as f32];
    assert_eq!(rgba, [0.0, 127.0, 255.0, 255.0]);
}

#[test]
fn test_azure_hex_to_rgba_scale() {
    let c = Color::from_hex("#007FFFFF").unwrap();
    let (r, g, b, a) = c.rgba();
    let rgba = [
        r as f32 / 255.0,
        g as f32 / 255.0,
        b as f32 / 255.0,
        a as f32 / 255.0,
    ];
    assert_eq!(
        rgba,
        [0.0 / 255.0, 127.0 / 255.0, 255.0 / 255.0, 255.0 / 255.0]
    );
}

#[test]
fn test_azure_hex_to_hex() {
    let c = Color::from_hex("#007FFFFF").unwrap();
    assert_eq!(c.into_hex(), String::from("#007FFFFF"));
}

#[test]
fn test_chartreuse_hex_to_rgba() {
    let c = Color::from_hex("#7FFF00FF").unwrap();
    let (r, g, b, a) = c.rgba();
    let rgba = [r as f32, g as f32, b as f32, a as f32];
    assert_eq!(rgba, [127.0, 255.0, 0.0, 255.0]);
}

#[test]
fn test_chartreuse_hex_to_rgba_scale() {
    let c = Color::from_hex("#7FFF00FF").unwrap();
    let (r, g, b, a) = c.rgba();
    let rgba = [
        r as f32 / 255.0,
        g as f32 / 255.0,
        b as f32 / 255.0,
        a as f32 / 255.0,
    ];
    assert_eq!(
        rgba,
        [127.0 / 255.0, 255.0 / 255.0, 0.0 / 255.0, 255.0 / 255.0]
    );
}

#[test]
fn test_chartreuse_hex_to_hex() {
    let c = Color::from_hex("#7FFF00FF").unwrap();
    assert_eq!(c.into_hex(), String::from("#7FFF00FF"));
}

#[test]
fn test_short_hex_defaults_alpha() {
    let c = Color::from_hex("#B7410E").unwrap();
    assert_eq!(c.rgba(), (183, 65, 14, 255));
    assert_eq!(c.into_hex(), String::from("#B7410EFF"));
}

#[test]
fn test_lowercase_hex_accepted() {
    let c = Color::from_hex("#b7410eff").unwrap();
    assert_eq!(c.rgba(), (183, 65, 14, 255));
    assert_eq!(c.into_hex(), String::from("#B7410EFF"));
}

#[test]
fn test_hex_round_trip_all_corners() {
    let cases = [
        (0u8, 0u8, 0u8, 0u8),
        (255, 255, 255, 255),
        (1, 15, 16, 17),
        (22, 27, 109, 255),
        (200, 100, 50, 25),
    ];
    for (r, g, b, a) in cases {
        let c = Color::from_rgba(r, g, b, a);
        let back = Color::from_hex(c.into_hex().as_str()).unwrap();
        assert_eq!(back, c);
    }
}

#[test]
fn test_hex_missing_hash() {
    assert_eq!(Color::from_hex("B7410EFF!"), Err(Error::ColorFormat));
}

#[test]
fn test_hex_wrong_length() {
    assert_eq!(Color::from_hex("#B741"), Err(Error::ColorFormat));
    assert_eq!(Color::from_hex("#B7410EFF00"), Err(Error::ColorFormat));
    assert_eq!(Color::from_hex(""), Err(Error::ColorFormat));
}

#[test]
fn test_hex_bad_digit() {
    assert_eq!(Color::from_hex("#B7410G"), Err(Error::ColorFormat));
    assert_eq!(Color::from_hex("#B7410EFZ"), Err(Error::ColorFormat));
}
