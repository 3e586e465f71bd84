use shapes::circle::Circle;
use shapes::dimension::Dimension;

#[test]
fn circle_test_default_constructor() {
    let generic = Circle::new();

    assert_eq!(generic.name(), "Circle");
    assert_eq!(generic.radius, Dimension::from_whole(1));
}

#[test]
fn test_with_radius() {
    let fancy = Circle::with_radius(Dimension::from_whole(2));

    assert_eq!(fancy.name(), "Circle");
    assert_eq!(fancy.radius, Dimension::from_whole(2));
}

#[test]
fn test_diameter() {
    let generic = Circle::new();
    let fancy = Circle::with_radius(Dimension::from_whole(2));

    assert_eq!(generic.diameter(), Dimension::from_whole(2));
    assert_eq!(fancy.diameter(), Dimension::from_whole(4));
}
