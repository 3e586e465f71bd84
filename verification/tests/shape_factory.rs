use shapes::circle::Circle;
use shapes::dimension::Dimension;
use shapes::equilateral_triangle::EquilateralTriangle;
use shapes::factory;
use shapes::factory::Factory;
use shapes::factory::KnownShape;
use shapes::right_triangle::RightTriangle;
use shapes::square::Square;
use shapes::triangle::Triangle;

fn whole(n: i64) -> Dimension {
    Dimension::from_whole(n)
}

#[test]
fn test_is_known() {
    let factory = Factory::new();

    assert!(factory.is_known("Circle"));
    assert!(factory.is_known("Square"));
    assert!(factory.is_known("Triangle"));
    assert!(factory.is_known("Right Triangle"));
    assert!(factory.is_known("Equilateral Triangle"));
}

#[test]
fn shape_factory_test_is_known() {
    assert!(factory::is_known("Circle"));
    assert!(factory::is_known("Square"));
    assert!(factory::is_known("Triangle"));
    assert!(factory::is_known("Right Triangle"));
    assert!(factory::is_known("Equilateral Triangle"));
}

#[test]
fn is_known_rejects_other_names() {
    let factory = Factory::new();

    assert!(!factory.is_known("1337 Haxor"));
    assert!(!factory.is_known("circle"));
    assert!(!factory.is_known(" Circle"));
    assert!(!factory.is_known(""));
    assert!(!factory::is_known("Rhombus"));
}

#[test]
fn test_number_known() {
    let factory = Factory::new();

    assert_eq!(factory.number_known(), 5);
}

#[test]
fn shape_factory_test_number_known() {
    assert_eq!(factory::number_known(), 5);
}

#[test]
fn test_str() {
    let factory = Factory::new();
    let f_str = factory.list_known();

    assert!(f_str.contains("  Circle"));
    assert!(f_str.contains("  Square"));
    assert!(f_str.contains("  Triangle"));
    assert!(f_str.contains("  Right Triangle"));
    assert!(f_str.contains("  Equilateral Triangle"));
}

#[test]
fn shape_factory_test_str() {
    let f_str = factory::list_known();

    assert!(f_str.contains("  Circle"));
    assert!(f_str.contains("  Square"));
    assert!(f_str.contains("  Triangle"));
    assert!(f_str.contains("  Right Triangle"));
    assert!(f_str.contains("  Equilateral Triangle"));
}

#[test]
fn list_known_is_sorted_and_indented() {
    let expected = "  Circle\n  Equilateral Triangle\n  Right Triangle\n  Square\n  Triangle\n";
    assert_eq!(factory::list_known(), expected);
    assert_eq!(Factory::new().list_known(), expected);
}

#[test]
fn test_create() {
    for name in ["Triangle", "Right Triangle", "Equilateral Triangle", "Square", "Circle"] {
        let a_shape = factory::create(name).unwrap();
        assert_eq!(a_shape.name(), name);
    }

    assert!(factory::create("1337 Haxor").is_none());
}

#[test]
fn create_uses_unit_dimensions() {
    assert_eq!(
        factory::create("Circle").unwrap(),
        KnownShape::Circle(Circle::with_radius(whole(1)))
    );
    assert_eq!(
        factory::create("Triangle").unwrap(),
        KnownShape::Triangle(Triangle::with_sides(whole(1), whole(1), whole(1)))
    );
}

#[test]
fn test_create_with() {
    let a_shape = factory::create_with("Triangle", &[whole(3), whole(4), whole(5)]).unwrap();
    let ref_shape = Triangle::with_sides(whole(3), whole(4), whole(5));
    assert_eq!(a_shape, KnownShape::Triangle(ref_shape));

    let a_shape = factory::create_with("Right Triangle", &[whole(3), whole(4)]).unwrap();
    let ref_shape = RightTriangle::with_base_height(whole(3), whole(4));
    assert_eq!(a_shape, KnownShape::RightTriangle(ref_shape));

    let a_shape = factory::create_with("Equilateral Triangle", &[whole(5)]).unwrap();
    let ref_shape = EquilateralTriangle::with_side(whole(5));
    assert_eq!(a_shape, KnownShape::EquilateralTriangle(ref_shape));

    let a_shape = factory::create_with("Circle", &[whole(5)]).unwrap();
    let ref_shape = Circle::with_radius(whole(5));
    assert_eq!(a_shape, KnownShape::Circle(ref_shape));

    let a_shape = factory::create_with("Square", &[whole(5)]).unwrap();
    let ref_shape = Square::with_side(whole(5));
    assert_eq!(a_shape, KnownShape::Square(ref_shape));
}

#[test]
fn create_with_too_few_dimensions_is_absent() {
    assert!(factory::create_with("Triangle", &[whole(1), whole(2)]).is_none());
    assert!(factory::create_with("Right Triangle", &[whole(1)]).is_none());
    assert!(factory::create_with("Equilateral Triangle", &[]).is_none());
    assert!(factory::create_with("Square", &[]).is_none());
    assert!(factory::create_with("Circle", &[]).is_none());
}

#[test]
fn create_with_ignores_extra_dimensions() {
    let a_shape = factory::create_with("Square", &[whole(5), whole(7)]).unwrap();
    assert_eq!(a_shape, KnownShape::Square(Square::with_side(whole(5))));
}

#[test]
fn create_with_unknown_name_is_absent() {
    assert!(factory::create_with("1337 Haxor", &[whole(1)]).is_none());
}

#[test]
fn test_read_shapes() {
    // The read function should handle (i.e., ignore) leading whitespace
    let raw_str = r#"
        Triangle
        Right Triangle
        Equilateral Triangle
        Square
        Circle
        1337 Haxor"#;

    let some_shapes = factory::read_shapes(raw_str);

    assert_eq!(some_shapes.len(), 5);

    assert_eq!(some_shapes[0].name(), "Triangle");
    assert_eq!(some_shapes[1].name(), "Right Triangle");
    assert_eq!(some_shapes[2].name(), "Equilateral Triangle");
    assert_eq!(some_shapes[3].name(), "Square");
    assert_eq!(some_shapes[4].name(), "Circle");
}

#[test]
fn shape_factory_test_read_shapes() {
    let raw_str = r#"
        Triangle
        Right Triangle
        Equilateral Triangle
        Square
        Circle
        1337 Haxor"#;

    let some_shapes = factory::read_shapes(raw_str);

    assert_eq!(some_shapes.len(), 5);

    assert_eq!(some_shapes[0].name(), "Triangle");
    assert_eq!(some_shapes[1].name(), "Right Triangle");
    assert_eq!(some_shapes[2].name(), "Equilateral Triangle");
    assert_eq!(some_shapes[3].name(), "Square");
    assert_eq!(some_shapes[4].name(), "Circle");
}

#[test]
fn test_read_shapes_with() {
    // The read function should handle (i.e., ignore) leading whitespace
    let raw_str = r#"
        Triangle; 1 2 3
        Right Triangle; 3 4
        Equilateral Triangle; 5
        Square; 5
        Circle; 5
        1337 Haxor; invalid input"#;

    let some_shapes = factory::read_shapes_with(raw_str);
    println!("{:?}", some_shapes);
    assert_eq!(some_shapes.len(), 5);

    assert_eq!(some_shapes[0].name(), "Triangle");
    assert_eq!(some_shapes[1].name(), "Right Triangle");
    assert_eq!(some_shapes[2].name(), "Equilateral Triangle");
    assert_eq!(some_shapes[3].name(), "Square");
    assert_eq!(some_shapes[4].name(), "Circle");
}

#[test]
fn read_shapes_with_plain_lines() {
    let raw_str = "Triangle; 1 2 3\nRight Triangle; 3 4\nEquilateral Triangle; 5\nSquare; 5\nCircle; 5\n1337 Haxor; invalid input";

    let some_shapes = factory::read_shapes_with(raw_str);

    assert_eq!(some_shapes.len(), 5);
    assert_eq!(
        some_shapes[0],
        KnownShape::Triangle(Triangle::with_sides(whole(1), whole(2), whole(3)))
    );
    assert_eq!(
        some_shapes[1],
        KnownShape::RightTriangle(RightTriangle::with_base_height(whole(3), whole(4)))
    );
    assert_eq!(
        some_shapes[2],
        KnownShape::EquilateralTriangle(EquilateralTriangle::with_side(whole(5)))
    );
    assert_eq!(some_shapes[3], KnownShape::Square(Square::with_side(whole(5))));
    assert_eq!(some_shapes[4], KnownShape::Circle(Circle::with_radius(whole(5))));
}

#[test]
fn read_shapes_skips_blanks_and_trims() {
    let raw_str = "  Circle  \n\n   \nSquare";

    let some_shapes = factory::read_shapes(raw_str);

    assert_eq!(some_shapes.len(), 2);
    assert_eq!(some_shapes[0].name(), "Circle");
    assert_eq!(some_shapes[1].name(), "Square");
}

#[test]
fn read_shapes_with_substitutes_zero_for_bad_tokens() {
    let some_shapes = factory::read_shapes_with("Circle; bogus");

    assert_eq!(some_shapes.len(), 1);
    assert_eq!(some_shapes[0], KnownShape::Circle(Circle::with_radius(Dimension { raw: 0 })));
}

#[test]
fn read_shapes_with_skips_malformed_lines() {
    // no separator, two separators, and too few dimensions: all skipped
    let raw_str = "Triangle 1 2 3\nSquare; 1; 2\nTriangle; 1 2\nSquare;5";

    let some_shapes = factory::read_shapes_with(raw_str);

    assert_eq!(some_shapes.len(), 1);
    assert_eq!(some_shapes[0], KnownShape::Square(Square::with_side(whole(5))));
}

#[test]
fn read_shapes_with_fractional_dimensions() {
    let some_shapes = factory::read_shapes_with("Circle; 2.5");

    assert_eq!(some_shapes.len(), 1);
    assert_eq!(
        some_shapes[0],
        KnownShape::Circle(Circle::with_radius(Dimension { raw: 25000 }))
    );
}
