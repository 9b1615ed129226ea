//! Points, and the readers of positions, numbers and texts in a tree.
use vstd::prelude::*;
use crate::decimal::Decimal;
use crate::sexpr::{SExpr, Tree, find_spec, get_atom_spec, get_number_spec};

verus! {

/// A point in the plane.
#[derive(Clone, Copy, Debug, PartialEq, Eq, Structural)]
pub struct Point2D {
    pub x: Decimal,
    pub y: Decimal,
}

impl Point2D {
    pub fn new(x: Decimal, y: Decimal) -> (r: Point2D)
        ensures
            r.x == x,
            r.y == y,
    {
        Point2D { x, y }
    }
}

pub open spec fn zero() -> Decimal {
    Decimal { mantissa: 0, scale: 0 }
}

pub open spec fn origin() -> Point2D {
    Point2D { x: zero(), y: zero() }
}

pub open spec fn num_or(o: Option<Decimal>, d: Decimal) -> Decimal {
    match o {
        Some(v) => v,
        None => d,
    }
}

pub open spec fn text_or(o: Option<Seq<char>>, d: Seq<char>) -> Seq<char> {
    match o {
        Some(t) => t,
        None => d,
    }
}

/// The point that `(tag x y ...)` gives; a missing coordinate is zero.
pub open spec fn xy_of(e: Tree) -> Point2D {
    Point2D { x: num_or(get_number_spec(e, 1), zero()), y: num_or(get_number_spec(e, 2), zero()) }
}

/// The position in the `(at x y angle)` child of `e`.
pub open spec fn at_point(e: Tree) -> Point2D {
    match find_spec(e, "at"@) {
        Some(a) => xy_of(a),
        None => origin(),
    }
}

/// The angle in the `(at x y angle)` child of `e`.
pub open spec fn at_angle(e: Tree) -> Decimal {
    match find_spec(e, "at"@) {
        Some(a) => num_or(get_number_spec(a, 3), zero()),
        None => zero(),
    }
}

/// The text of the `i`-th element of the first child tagged `tag`.
pub open spec fn child_atom(e: Tree, tag: Seq<char>, i: int) -> Option<Seq<char>> {
    match find_spec(e, tag) {
        Some(c) => get_atom_spec(c, i),
        None => None,
    }
}

/// The number at the `i`-th element of the first child tagged `tag`.
pub open spec fn child_number(e: Tree, tag: Seq<char>, i: int) -> Option<Decimal> {
    match find_spec(e, tag) {
        Some(c) => get_number_spec(c, i),
        None => None,
    }
}

pub fn number_or(o: Option<Decimal>, d: Decimal) -> (r: Decimal)
    ensures
        r == num_or(o, d),
{
    match o {
        Some(v) => v,
        None => d,
    }
}

/// An owned copy of `o`, or of `d` when it is absent.
pub fn owned_or(o: Option<&str>, d: &str) -> (r: String)
    ensures
        r@ == text_or(
            match o {
                Some(t) => Some(t@),
                None => None,
            },
            d@,
        ),
{
    match o {
        Some(t) => t.to_owned(),
        None => d.to_owned(),
    }
}

pub fn xy_point(e: &SExpr) -> (r: Point2D)
    ensures
        r == xy_of(e@),
{
    Point2D { x: number_or(e.get_number(1), Decimal::zero()), y: number_or(e.get_number(2), Decimal::zero()) }
}

pub fn at_point_of(e: &SExpr) -> (r: Point2D)
    ensures
        r == at_point(e@),
{
    match e.find("at") {
        Some(a) => xy_point(a),
        None => Point2D { x: Decimal::zero(), y: Decimal::zero() },
    }
}

pub fn at_angle_of(e: &SExpr) -> (r: Decimal)
    ensures
        r == at_angle(e@),
{
    match e.find("at") {
        Some(a) => number_or(a.get_number(3), Decimal::zero()),
        None => Decimal::zero(),
    }
}

pub fn child_atom_of<'a>(e: &'a SExpr, tag: &str, i: usize) -> (r: Option<&'a str>)
    ensures
        match r {
            Some(t) => child_atom(e@, tag@, i as int) == Some(t@),
            None => child_atom(e@, tag@, i as int) is None,
        },
{
    match e.find(tag) {
        Some(c) => c.get_atom(i),
        None => None,
    }
}

pub fn child_number_of(e: &SExpr, tag: &str, i: usize) -> (r: Option<Decimal>)
    ensures
        r == child_number(e@, tag@, i as int),
{
    match e.find(tag) {
        Some(c) => c.get_number(i),
        None => None,
    }
}

} // verus!
