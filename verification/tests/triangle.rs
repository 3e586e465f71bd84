use shapes::dimension::Dimension;
use shapes::triangle::Triangle;

#[test]
fn triangle_test_default_constructor() {
    let generic = Triangle::new();

    assert_eq!(generic.name(), "Triangle");
    assert_eq!(generic.side_a, Dimension::from_whole(1));
    assert_eq!(generic.side_b, Dimension::from_whole(1));
    assert_eq!(generic.side_c, Dimension::from_whole(1));
}

#[test]
fn test_with_sides() {
    let generic = Triangle::with_sides(
        Dimension::from_whole(3),
        Dimension::from_whole(4),
        Dimension::from_whole(5),
    );

    assert_eq!(generic.name(), "Triangle");
    assert_eq!(generic.side_a, Dimension::from_whole(3));
    assert_eq!(generic.side_b, Dimension::from_whole(4));
    assert_eq!(generic.side_c, Dimension::from_whole(5));
}
