use gpui_android::geometry::{Edges, Point, Scalar, Size};

fn scalar(value: f32) -> Scalar {
    Scalar { bits: value.to_bits() }
}

fn samples() -> Vec<f32> {
    let mut values = vec![
        0.0,
        -0.0,
        1.0,
        -1.0,
        f32::MIN_POSITIVE,
        -f32::MIN_POSITIVE,
        f32::MAX,
        f32::MIN,
        f32::INFINITY,
        f32::NEG_INFINITY,
        f32::NAN,
        -f32::NAN,
        f32::from_bits(1),
        f32::from_bits(0x8000_0001),
        f32::from_bits(0x007f_ffff),
        f32::from_bits(0x0080_0000),
        8.0,
        7.999_999_5,
        8.000_001,
    ];
    let mut bits: u32 = 12345;
    for _ in 0..60 {
        bits = bits.wrapping_mul(1_664_525).wrapping_add(1_013_904_223);
        values.push(f32::from_bits(bits));
    }
    values
}

#[test]
fn comparisons_agree_with_the_numbers() {
    for a in samples() {
        assert_eq!(scalar(a).is_nan(), a.is_nan());
        for b in samples() {
            assert_eq!(scalar(a).lt(scalar(b)), a < b, "{a} < {b}");
            assert_eq!(scalar(a).eq_value(scalar(b)), a == b, "{a} == {b}");
            assert_eq!(
                scalar(a).total_le(scalar(b)),
                a.total_cmp(&b).is_le(),
                "{a} and {b}"
            );
        }
    }
}

#[test]
fn the_larger_of_two_numbers_is_total() {
    assert_eq!(scalar(-3.0).total_max(scalar(0.0)), scalar(0.0));
    assert_eq!(scalar(3.0).total_max(scalar(0.0)), scalar(3.0));
    assert_eq!(scalar(-0.0).total_max(scalar(0.0)), scalar(0.0));
    assert_eq!(scalar(0.0).total_max(scalar(-0.0)), scalar(0.0));
}

#[test]
fn caps_agree_with_the_smaller_number() {
    for a in samples() {
        assert_eq!(scalar(a).cap(scalar(1.0)), scalar(a.min(1.0)), "{a}");
        assert_eq!(scalar(a).cap(scalar(0.05)), scalar(a.min(0.05)), "{a}");
    }
}

#[test]
fn points_are_nonzero_in_either_direction() {
    let point = |x: f32, y: f32| Point { x: scalar(x), y: scalar(y) };
    assert!(!point(0.0, 0.0).is_nonzero());
    assert!(!point(-0.0, 0.0).is_nonzero());
    assert!(point(0.5, 0.0).is_nonzero());
    assert!(point(0.0, -0.5).is_nonzero());
    assert!(point(f32::NAN, 0.0).is_nonzero());
    assert_eq!(Point::origin(), point(0.0, 0.0));
}

#[test]
fn sizes_and_edges_compare_by_value() {
    let size = |width: f32, height: f32| Size { width: scalar(width), height: scalar(height) };
    assert!(size(-0.0, 2.0).eq_value(size(0.0, 2.0)));
    assert!(!size(1.0, 2.0).eq_value(size(1.0, 3.0)));
    assert!(!size(4.0, 2.0).eq_value(size(1.0, 2.0)));
    let edges = |bottom: f32| Edges {
        top: scalar(1.0),
        right: scalar(-2.0),
        bottom: scalar(bottom),
        left: scalar(-0.0),
    };
    assert!(edges(4.0).eq_value(edges(4.0)));
    assert!(!edges(4.0).eq_value(edges(5.0)));
    assert_eq!(
        edges(4.0).positive_part(),
        Edges {
            top: scalar(1.0),
            right: scalar(0.0),
            bottom: scalar(4.0),
            left: scalar(0.0),
        }
    );
    assert!(Edges::zero().eq_value(edges(4.0).positive_part()) == false);
}
