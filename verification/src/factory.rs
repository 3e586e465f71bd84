//! The shape factory: a fixed registry mapping canonical shape names to
//! constructors, with single and batch construction from text.
//!
//! The registry is a compile-time constant list of five (name, constructor)
//! pairs held in sorted name order; adding a shape is a code change, not a
//! runtime registration.

use vstd::prelude::*;
use vstd::string::*;
use crate::circle::Circle;
use crate::dimension::Dimension;
use crate::dimension::parse_dim_spec;
use crate::dimension::parse_dimension;
use crate::equilateral_triangle::EquilateralTriangle;
use crate::right_triangle::RightTriangle;
use crate::square::Square;
use crate::text::str_eq;
use crate::text::split_spec;
use crate::text::trim_spec;
use crate::text::split_str;
use crate::text::trim_str;
use crate::triangle::Triangle;

verus! {

/// One of the five supported shape variants, so that the factory can
/// return a single uniform type.
#[derive(Clone, Copy, PartialEq, Eq, Structural, Debug)]
pub enum KnownShape {
    Triangle(Triangle),
    RightTriangle(RightTriangle),
    EquilateralTriangle(EquilateralTriangle),
    Square(Square),
    Circle(Circle),
}

/// The canonical name of a shape variant.
pub open spec fn spec_name(s: KnownShape) -> Seq<char> {
    match s {
        KnownShape::Triangle(_) => "Triangle"@,
        KnownShape::RightTriangle(_) => "Right Triangle"@,
        KnownShape::EquilateralTriangle(_) => "Equilateral Triangle"@,
        KnownShape::Square(_) => "Square"@,
        KnownShape::Circle(_) => "Circle"@,
    }
}

impl KnownShape {
    /// The canonical name of the wrapped shape.
    pub fn name(&self) -> (r: &'static str)
        ensures
            r@ == spec_name(*self),
    {
        match self {
            KnownShape::Triangle(s) => s.name(),
            KnownShape::RightTriangle(s) => s.name(),
            KnownShape::EquilateralTriangle(s) => s.name(),
            KnownShape::Square(s) => s.name(),
            KnownShape::Circle(s) => s.name(),
        }
    }
}

/// Whether `s` is one of the five canonical shape names.
pub open spec fn is_known_name(s: Seq<char>) -> bool {
    ||| s == "Triangle"@
    ||| s == "Right Triangle"@
    ||| s == "Equilateral Triangle"@
    ||| s == "Square"@
    ||| s == "Circle"@
}

/// The shape with default dimensions that `create` returns for a name.
pub open spec fn spec_create(s: Seq<char>) -> Option<KnownShape> {
    if s == "Triangle"@ {
        Some(
            KnownShape::Triangle(
                Triangle {
                    side_a: Dimension { raw: 10000 },
                    side_b: Dimension { raw: 10000 },
                    side_c: Dimension { raw: 10000 },
                },
            ),
        )
    } else if s == "Right Triangle"@ {
        Some(
            KnownShape::RightTriangle(
                RightTriangle { base: Dimension { raw: 10000 }, height: Dimension { raw: 10000 } },
            ),
        )
    } else if s == "Equilateral Triangle"@ {
        Some(KnownShape::EquilateralTriangle(EquilateralTriangle { side: Dimension { raw: 10000 } }))
    } else if s == "Square"@ {
        Some(KnownShape::Square(Square { side: Dimension { raw: 10000 } }))
    } else if s == "Circle"@ {
        Some(KnownShape::Circle(Circle { radius: Dimension { raw: 10000 } }))
    } else {
        None
    }
}

/// The shape that `create_with` returns for a name and dimension list:
/// the named variant built from the leading dimensions, or nothing when
/// the name is unknown or too few dimensions are supplied.
pub open spec fn spec_create_with(s: Seq<char>, dims: Seq<Dimension>) -> Option<KnownShape> {
    if s == "Triangle"@ {
        if dims.len() >= 3 {
            Some(
                KnownShape::Triangle(
                    Triangle { side_a: dims[0], side_b: dims[1], side_c: dims[2] },
                ),
            )
        } else {
            None
        }
    } else if s == "Right Triangle"@ {
        if dims.len() >= 2 {
            Some(KnownShape::RightTriangle(RightTriangle { base: dims[0], height: dims[1] }))
        } else {
            None
        }
    } else if s == "Equilateral Triangle"@ {
        if dims.len() >= 1 {
            Some(KnownShape::EquilateralTriangle(EquilateralTriangle { side: dims[0] }))
        } else {
            None
        }
    } else if s == "Square"@ {
        if dims.len() >= 1 {
            Some(KnownShape::Square(Square { side: dims[0] }))
        } else {
            None
        }
    } else if s == "Circle"@ {
        if dims.len() >= 1 {
            Some(KnownShape::Circle(Circle { radius: dims[0] }))
        } else {
            None
        }
    } else {
        None
    }
}

/// Whether a given shape name is known to the factory.
pub fn is_known(name: &str) -> (r: bool)
    ensures
        r == is_known_name(name@),
{
    str_eq(name, "Triangle") || str_eq(name, "Right Triangle") || str_eq(
        name,
        "Equilateral Triangle",
    ) || str_eq(name, "Square") || str_eq(name, "Circle")
}

/// How many shape names the factory knows.
pub fn number_known() -> (r: usize)
    ensures
        r == 5,
{
    5
}

/// Create a shape with default dimensions, or nothing for an unknown name.
pub fn create(name: &str) -> (r: Option<KnownShape>)
    ensures
        r == spec_create(name@),
{
    if str_eq(name, "Triangle") {
        Some(KnownShape::Triangle(Triangle::new()))
    } else if str_eq(name, "Right Triangle") {
        Some(KnownShape::RightTriangle(RightTriangle::new()))
    } else if str_eq(name, "Equilateral Triangle") {
        Some(KnownShape::EquilateralTriangle(EquilateralTriangle::new()))
    } else if str_eq(name, "Square") {
        Some(KnownShape::Square(Square::new()))
    } else if str_eq(name, "Circle") {
        Some(KnownShape::Circle(Circle::new()))
    } else {
        None
    }
}

/// Create a shape with the given dimensions.  The dimension count is
/// variant-specific (triangle: three sides; right triangle: base and
/// height; the rest: one value); extra dimensions are ignored, and too
/// few are reported by an absent result.
pub fn create_with(name: &str, dims: &[Dimension]) -> (r: Option<KnownShape>)
    ensures
        r == spec_create_with(name@, dims@),
{
    if str_eq(name, "Triangle") {
        if dims.len() >= 3 {
            Some(KnownShape::Triangle(Triangle::with_sides(dims[0], dims[1], dims[2])))
        } else {
            None
        }
    } else if str_eq(name, "Right Triangle") {
        if dims.len() >= 2 {
            Some(KnownShape::RightTriangle(RightTriangle::with_base_height(dims[0], dims[1])))
        } else {
            None
        }
    } else if str_eq(name, "Equilateral Triangle") {
        if dims.len() >= 1 {
            Some(KnownShape::EquilateralTriangle(EquilateralTriangle::with_side(dims[0])))
        } else {
            None
        }
    } else if str_eq(name, "Square") {
        if dims.len() >= 1 {
            Some(KnownShape::Square(Square::with_side(dims[0])))
        } else {
            None
        }
    } else if str_eq(name, "Circle") {
        if dims.len() >= 1 {
            Some(KnownShape::Circle(Circle::with_radius(dims[0])))
        } else {
            None
        }
    } else {
        None
    }
}

/// The shapes that one line of `read_shapes` input yields: the line is
/// trimmed and used as a name; an unrecognized name yields nothing.
pub open spec fn line_shapes(l: Seq<char>) -> Seq<KnownShape> {
    match spec_create(trim_spec(l)) {
        Some(sh) => seq![sh],
        None => Seq::empty(),
    }
}

/// The shapes yielded by the lines read by `read_shapes`, in input order.
pub open spec fn shapes_of_lines(ls: Seq<Seq<char>>) -> Seq<KnownShape>
    decreases ls.len(),
{
    if ls.len() == 0 {
        Seq::empty()
    } else {
        line_shapes(ls[0]) + shapes_of_lines(ls.drop_first())
    }
}

proof fn lemma_shapes_of_lines_push(ls: Seq<Seq<char>>, l: Seq<char>)
    ensures
        shapes_of_lines(ls.push(l)) == shapes_of_lines(ls) + line_shapes(l),
    decreases ls.len(),
{
    if ls.len() == 0 {
        assert(ls =~= Seq::<Seq<char>>::empty());
        assert(ls.push(l).drop_first() =~= Seq::<Seq<char>>::empty());
        assert(ls.push(l)[0] == l);
        assert(shapes_of_lines(ls.push(l)) =~= shapes_of_lines(ls) + line_shapes(l));
    } else {
        assert(ls.push(l).drop_first() =~= ls.drop_first().push(l));
        lemma_shapes_of_lines_push(ls.drop_first(), l);
        assert(ls.push(l)[0] == ls[0]);
        assert(shapes_of_lines(ls.push(l)) == line_shapes(ls[0]) + shapes_of_lines(
            ls.drop_first().push(l),
        ));
        assert(shapes_of_lines(ls) == line_shapes(ls[0]) + shapes_of_lines(ls.drop_first()));
        assert(shapes_of_lines(ls.push(l)) =~= shapes_of_lines(ls) + line_shapes(l));
    }
}

/// What `read_shapes` yields on a whole input text.
pub open spec fn read_shapes_spec(s: Seq<char>) -> Seq<KnownShape> {
    shapes_of_lines(split_spec(s, '\n'))
}

/// Create shapes from names read line by line: each line is trimmed,
/// blank lines and unrecognized names are skipped, and the surviving
/// shapes keep input order.
pub fn read_shapes(input: &str) -> (r: Vec<KnownShape>)
    ensures
        r@ == read_shapes_spec(input@),
{
    let lines = split_str(input, '\n');
    let ghost lviews = split_spec(input@, '\n');
    let mut shapes: Vec<KnownShape> = Vec::new();
    let mut i: usize = 0;
    while i < lines.len()
        invariant
            lines@.map_values(|t: String| t@) == lviews,
            lviews == split_spec(input@, '\n'),
            0 <= i <= lines@.len(),
            shapes@ == shapes_of_lines(lviews.take(i as int)),
        decreases lines@.len() - i,
    {
        let t = trim_str(lines[i].as_str());
        proof {
            assert(lviews.take(i as int + 1) =~= lviews.take(i as int).push(lviews[i as int]));
            lemma_shapes_of_lines_push(lviews.take(i as int), lviews[i as int]);
        }
        match create(t.as_str()) {
            Some(sh) => {
                shapes.push(sh);
                proof {
                    assert(shapes@ =~= shapes_of_lines(lviews.take(i as int)) + line_shapes(
                        lviews[i as int],
                    ));
                }
            },
            None => {
                proof {
                    assert(shapes@ =~= shapes_of_lines(lviews.take(i as int)) + line_shapes(
                        lviews[i as int],
                    ));
                }
            },
        }
        i += 1;
    }
    proof {
        assert(lviews.take(lines@.len() as int) =~= lviews);
    }
    shapes
}

/// The dimension denoted by one token: tokens are trimmed again, and a
/// token that does not parse as a decimal numeral counts as zero.
pub open spec fn token_dim(t: Seq<char>) -> Dimension {
    match parse_dim_spec(trim_spec(t)) {
        Some(d) => d,
        None => Dimension { raw: 0 },
    }
}

/// The dimensions denoted by the space-separated tokens of a dimension
/// field; empty tokens are dropped.
pub open spec fn dims_of_tokens(ts: Seq<Seq<char>>) -> Seq<Dimension>
    decreases ts.len(),
{
    if ts.len() == 0 {
        Seq::empty()
    } else {
        (if ts[0].len() > 0 {
            seq![token_dim(ts[0])]
        } else {
            Seq::<Dimension>::empty()
        }) + dims_of_tokens(ts.drop_first())
    }
}

proof fn lemma_dims_of_tokens_push(ts: Seq<Seq<char>>, t: Seq<char>)
    ensures
        dims_of_tokens(ts.push(t)) == dims_of_tokens(ts) + (if t.len() > 0 {
            seq![token_dim(t)]
        } else {
            Seq::<Dimension>::empty()
        }),
    decreases ts.len(),
{
    if ts.len() == 0 {
        assert(ts =~= Seq::<Seq<char>>::empty());
        assert(ts.push(t).drop_first() =~= Seq::<Seq<char>>::empty());
        assert(ts.push(t)[0] == t);
        assert(dims_of_tokens(ts.push(t)) =~= dims_of_tokens(ts) + (if t.len() > 0 {
            seq![token_dim(t)]
        } else {
            Seq::<Dimension>::empty()
        }));
    } else {
        assert(ts.push(t).drop_first() =~= ts.drop_first().push(t));
        lemma_dims_of_tokens_push(ts.drop_first(), t);
        assert(ts.push(t)[0] == ts[0]);
        assert(dims_of_tokens(ts.push(t)) == (if ts[0].len() > 0 {
            seq![token_dim(ts[0])]
        } else {
            Seq::<Dimension>::empty()
        }) + dims_of_tokens(ts.drop_first().push(t)));
        assert(dims_of_tokens(ts) == (if ts[0].len() > 0 {
            seq![token_dim(ts[0])]
        } else {
            Seq::<Dimension>::empty()
        }) + dims_of_tokens(ts.drop_first()));
        assert(dims_of_tokens(ts.push(t)) =~= dims_of_tokens(ts) + (if t.len() > 0 {
            seq![token_dim(t)]
        } else {
            Seq::<Dimension>::empty()
        }));
    }
}

/// The shapes that one line of `read_shapes_with` input yields.  A line
/// has the form `name;dim1 dim2 ...`; empty lines and lines without
/// exactly one separator are skipped, as are unknown names and lines with
/// too few dimensions.
pub open spec fn line_shapes_with(l: Seq<char>) -> Seq<KnownShape> {
    if l.len() == 0 {
        Seq::empty()
    } else {
        let parts = split_spec(trim_spec(l), ';');
        if parts.len() != 2 {
            Seq::empty()
        } else {
            match spec_create_with(parts[0], dims_of_tokens(split_spec(parts[1], ' '))) {
                Some(sh) => seq![sh],
                None => Seq::empty(),
            }
        }
    }
}

/// The shapes yielded by the lines read by `read_shapes_with`.
pub open spec fn shapes_of_lines_with(ls: Seq<Seq<char>>) -> Seq<KnownShape>
    decreases ls.len(),
{
    if ls.len() == 0 {
        Seq::empty()
    } else {
        line_shapes_with(ls[0]) + shapes_of_lines_with(ls.drop_first())
    }
}

proof fn lemma_shapes_of_lines_with_push(ls: Seq<Seq<char>>, l: Seq<char>)
    ensures
        shapes_of_lines_with(ls.push(l)) == shapes_of_lines_with(ls) + line_shapes_with(l),
    decreases ls.len(),
{
    if ls.len() == 0 {
        assert(ls =~= Seq::<Seq<char>>::empty());
        assert(ls.push(l).drop_first() =~= Seq::<Seq<char>>::empty());
        assert(ls.push(l)[0] == l);
        assert(shapes_of_lines_with(ls.push(l)) =~= shapes_of_lines_with(ls)
            + line_shapes_with(l));
    } else {
        assert(ls.push(l).drop_first() =~= ls.drop_first().push(l));
        lemma_shapes_of_lines_with_push(ls.drop_first(), l);
        assert(ls.push(l)[0] == ls[0]);
        assert(shapes_of_lines_with(ls.push(l)) == line_shapes_with(ls[0])
            + shapes_of_lines_with(ls.drop_first().push(l)));
        assert(shapes_of_lines_with(ls) == line_shapes_with(ls[0]) + shapes_of_lines_with(
            ls.drop_first(),
        ));
        assert(shapes_of_lines_with(ls.push(l)) =~= shapes_of_lines_with(ls)
            + line_shapes_with(l));
    }
}

/// What `read_shapes_with` yields on a whole input text.
pub open spec fn read_shapes_with_spec(s: Seq<char>) -> Seq<KnownShape> {
    shapes_of_lines_with(split_spec(s, '\n'))
}

/// Parse the dimension tokens of one line: split on single spaces, drop
/// empty tokens, and read each remaining token as a decimal numeral,
/// counting unparsable tokens as zero.
fn parse_dims(field: &str) -> (r: Vec<Dimension>)
    ensures
        r@ == dims_of_tokens(split_spec(field@, ' ')),
{
    let tokens = split_str(field, ' ');
    let ghost tviews = split_spec(field@, ' ');
    let mut dims: Vec<Dimension> = Vec::new();
    let mut i: usize = 0;
    while i < tokens.len()
        invariant
            tokens@.map_values(|t: String| t@) == tviews,
            tviews == split_spec(field@, ' '),
            0 <= i <= tokens@.len(),
            dims@ == dims_of_tokens(tviews.take(i as int)),
        decreases tokens@.len() - i,
    {
        proof {
            assert(tviews.take(i as int + 1) =~= tviews.take(i as int).push(tviews[i as int]));
            lemma_dims_of_tokens_push(tviews.take(i as int), tviews[i as int]);
        }
        let tok = tokens[i].as_str();
        if !tok.is_empty() {
            let trimmed = trim_str(tok);
            match parse_dimension(trimmed.as_str()) {
                Some(d) => {
                    dims.push(d);
                },
                None => {
                    dims.push(Dimension::zero());
                },
            }
            proof {
                assert(dims@ =~= dims_of_tokens(tviews.take(i as int)) + seq![
                    token_dim(tviews[i as int]),
                ]);
            }
        } else {
            proof {
                assert(dims@ =~= dims_of_tokens(tviews.take(i as int)));
            }
        }
        i += 1;
    }
    proof {
        assert(tviews.take(tokens@.len() as int) =~= tviews);
    }
    dims
}

/// Create shapes from names and dimension data read line by line.
pub fn read_shapes_with(input: &str) -> (r: Vec<KnownShape>)
    ensures
        r@ == read_shapes_with_spec(input@),
{
    let lines = split_str(input, '\n');
    let ghost lviews = split_spec(input@, '\n');
    let mut shapes: Vec<KnownShape> = Vec::new();
    let mut i: usize = 0;
    while i < lines.len()
        invariant
            lines@.map_values(|t: String| t@) == lviews,
            lviews == split_spec(input@, '\n'),
            0 <= i <= lines@.len(),
            shapes@ == shapes_of_lines_with(lviews.take(i as int)),
        decreases lines@.len() - i,
    {
        proof {
            assert(lviews.take(i as int + 1) =~= lviews.take(i as int).push(lviews[i as int]));
            lemma_shapes_of_lines_with_push(lviews.take(i as int), lviews[i as int]);
        }
        let raw_line = lines[i].as_str();
        if !raw_line.is_empty() {
            let trimmed = trim_str(raw_line);
            let parts = split_str(trimmed.as_str(), ';');
            if parts.len() == 2 {
                let dims = parse_dims(parts[1].as_str());
                match create_with(parts[0].as_str(), dims.as_slice()) {
                    Some(sh) => {
                        shapes.push(sh);
                    },
                    None => {},
                }
            }
        }
        proof {
            assert(shapes@ =~= shapes_of_lines_with(lviews.take(i as int)) + line_shapes_with(
                lviews[i as int],
            ));
        }
        i += 1;
    }
    proof {
        assert(lviews.take(lines@.len() as int) =~= lviews);
    }
    shapes
}

/// The five canonical shape names, in sorted order.
pub open spec fn known_names() -> Seq<Seq<char>> {
    seq!["Circle"@, "Equilateral Triangle"@, "Right Triangle"@, "Square"@, "Triangle"@]
}

/// The listing of a sequence of names: each on a line of its own with a
/// two-space indent.
pub open spec fn listing_of(names: Seq<Seq<char>>) -> Seq<char>
    decreases names.len(),
{
    if names.len() == 0 {
        Seq::empty()
    } else {
        "  "@ + names[0] + "\n"@ + listing_of(names.drop_first())
    }
}

/// What `list_known` returns: the canonical names, sorted, listed.
pub open spec fn known_listing() -> Seq<char> {
    listing_of(known_names())
}

/// The registry contents: the canonical names, in sorted order.
fn known_name_vec() -> (r: Vec<String>)
    ensures
        r@.map_values(|s: String| s@) == known_names(),
{
    let mut v: Vec<String> = Vec::new();
    v.push(String::from_str("Circle"));
    v.push(String::from_str("Equilateral Triangle"));
    v.push(String::from_str("Right Triangle"));
    v.push(String::from_str("Square"));
    v.push(String::from_str("Triangle"));
    proof {
        assert(v@.map_values(|s: String| s@) =~= known_names());
    }
    v
}

/// List the known shapes: one canonical name per line, in sorted order,
/// each indented by two spaces.
pub fn list_known() -> (r: String)
    ensures
        r@ == known_listing(),
{
    let names = known_name_vec();
    let mut out = String::new();
    let mut i: usize = 0;
    proof {
        assert(known_names().skip(0) =~= known_names());
    }
    while i < names.len()
        invariant
            names@.map_values(|s: String| s@) == known_names(),
            0 <= i <= names@.len(),
            out@ + listing_of(known_names().skip(i as int)) == known_listing(),
        decreases names@.len() - i,
    {
        out.append("  ");
        out.append(names[i].as_str());
        out.append("\n");
        proof {
            assert(known_names().skip(i as int).drop_first() =~= known_names().skip(i as int + 1));
            assert(known_names().skip(i as int)[0] == names@[i as int]@);
            assert(listing_of(known_names().skip(i as int)) == "  "@ + names@[i as int]@ + "\n"@
                + listing_of(known_names().skip(i as int + 1)));
            assert(out@ + listing_of(known_names().skip(i as int + 1)) =~= known_listing());
        }
        i += 1;
    }
    proof {
        assert(known_names().skip(names@.len() as int) =~= Seq::<Seq<char>>::empty());
        assert(out@ + listing_of(known_names().skip(names@.len() as int)) =~= out@);
    }
    out
}

/// A factory over the fixed shape registry: it holds the five canonical
/// names, in sorted order, and is immutable after construction.
pub struct Factory {
    known_shapes: Vec<String>,
}

impl Factory {
    /// The names the factory holds.
    pub closed spec fn names(&self) -> Seq<Seq<char>> {
        self.known_shapes@.map_values(|s: String| s@)
    }

    #[verifier::type_invariant]
    spec fn wf(&self) -> bool {
        self.names() == known_names()
    }

    /// A factory holding the five canonical shape names.
    pub fn new() -> (r: Factory)
        ensures
            r.names() == known_names(),
    {
        Factory { known_shapes: known_name_vec() }
    }

    /// Whether a given shape name is in the registry.
    pub fn is_known(&self, name: &str) -> (r: bool)
        ensures
            r == is_known_name(name@),
    {
        proof {
            use_type_invariant(self);
            assert(self.names().len() == self.known_shapes@.len());
            assert(known_names().len() == 5);
        }
        let mut i: usize = 0;
        while i < self.known_shapes.len()
            invariant
                self.names() == known_names(),
                self.known_shapes@.len() == 5,
                0 <= i <= self.known_shapes@.len(),
                forall|j: int| 0 <= j < i ==> name@ != self.names()[j],
            decreases self.known_shapes@.len() - i,
        {
            if str_eq(name, self.known_shapes[i].as_str()) {
                proof {
                    assert(name@ == known_names()[i as int]);
                    if i == 0 {
                        assert(name@ == "Circle"@);
                    } else if i == 1 {
                        assert(name@ == "Equilateral Triangle"@);
                    } else if i == 2 {
                        assert(name@ == "Right Triangle"@);
                    } else if i == 3 {
                        assert(name@ == "Square"@);
                    } else {
                        assert(name@ == "Triangle"@);
                    }
                }
                return true;
            }
            i += 1;
        }
        proof {
            assert(name@ != self.names()[0]);
            assert(name@ != self.names()[1]);
            assert(name@ != self.names()[2]);
            assert(name@ != self.names()[3]);
            assert(name@ != self.names()[4]);
        }
        false
    }

    /// How many shape names the registry holds.
    pub fn number_known(&self) -> (r: usize)
        ensures
            r == 5,
    {
        proof {
            use_type_invariant(self);
            assert(self.names().len() == self.known_shapes@.len());
            assert(known_names().len() == 5);
        }
        self.known_shapes.len()
    }

    /// List the known shapes, one per line, sorted and indented.
    pub fn list_known(&self) -> (r: String)
        ensures
            r@ == known_listing(),
    {
        list_known()
    }
}

/// Law: a name constructs a shape exactly when it is known, and the
/// constructed shape reports the queried name.
pub proof fn lemma_create_reports_queried_name(s: Seq<char>)
    ensures
        is_known_name(s) <==> spec_create(s) is Some,
        spec_create(s) matches Some(sh) ==> spec_name(sh) == s,
{
}

/// Law: dimension-parameterized construction succeeds only for known
/// names, the built shape reports the queried name, and with at least
/// three dimensions supplied every known name constructs a shape.
pub proof fn lemma_create_with_reports_queried_name(s: Seq<char>, dims: Seq<Dimension>)
    ensures
        spec_create_with(s, dims) matches Some(sh) ==> is_known_name(s) && spec_name(sh) == s,
        dims.len() >= 3 ==> (spec_create_with(s, dims) is Some <==> is_known_name(s)),
{
}

impl core::convert::From<Triangle> for KnownShape {
    fn from(item: Triangle) -> (r: KnownShape) {
        KnownShape::Triangle(item)
    }
}

impl vstd::std_specs::convert::FromSpecImpl<Triangle> for KnownShape {
    open spec fn obeys_from_spec() -> bool {
        true
    }

    open spec fn from_spec(item: Triangle) -> KnownShape {
        KnownShape::Triangle(item)
    }
}

impl core::convert::From<RightTriangle> for KnownShape {
    fn from(item: RightTriangle) -> (r: KnownShape) {
        KnownShape::RightTriangle(item)
    }
}

impl vstd::std_specs::convert::FromSpecImpl<RightTriangle> for KnownShape {
    open spec fn obeys_from_spec() -> bool {
        true
    }

    open spec fn from_spec(item: RightTriangle) -> KnownShape {
        KnownShape::RightTriangle(item)
    }
}

impl core::convert::From<EquilateralTriangle> for KnownShape {
    fn from(item: EquilateralTriangle) -> (r: KnownShape) {
        KnownShape::EquilateralTriangle(item)
    }
}

impl vstd::std_specs::convert::FromSpecImpl<EquilateralTriangle> for KnownShape {
    open spec fn obeys_from_spec() -> bool {
        true
    }

    open spec fn from_spec(item: EquilateralTriangle) -> KnownShape {
        KnownShape::EquilateralTriangle(item)
    }
}

impl core::convert::From<Square> for KnownShape {
    fn from(item: Square) -> (r: KnownShape) {
        KnownShape::Square(item)
    }
}

impl vstd::std_specs::convert::FromSpecImpl<Square> for KnownShape {
    open spec fn obeys_from_spec() -> bool {
        true
    }

    open spec fn from_spec(item: Square) -> KnownShape {
        KnownShape::Square(item)
    }
}

impl core::convert::From<Circle> for KnownShape {
    fn from(item: Circle) -> (r: KnownShape) {
        KnownShape::Circle(item)
    }
}

impl vstd::std_specs::convert::FromSpecImpl<Circle> for KnownShape {
    open spec fn obeys_from_spec() -> bool {
        true
    }

    open spec fn from_spec(item: Circle) -> KnownShape {
        KnownShape::Circle(item)
    }
}

} // verus!
