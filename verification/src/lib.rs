//! A small library of two-dimensional shapes behind a name-driven factory.
//!
//! Five shape variants (circle, square, triangle, equilateral triangle,
//! right triangle) are built by a factory that maps canonical name strings
//! to constructors, either with default unit dimensions or with dimensions
//! supplied by the caller.  Batch constructors read line-oriented text.
//!
//! Dimensions are exact decimal values held in ten-thousandths of a unit,
//! so that construction and parsing are fully specified; floating-point
//! geometry (areas, perimeters, report rendering) is left to consumers.

pub mod circle;
pub mod dimension;
pub mod equilateral_triangle;
pub mod factory;
pub mod right_triangle;
pub mod square;
pub mod text;
pub mod triangle;
