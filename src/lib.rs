//! Point-in-region queries over GeoJSON documents.
//!
//! The geometry tree of a document is modelled by [`model::Geom`]: polygonal
//! leaves name a shape by its index in a table of shapes kept beside the
//! document, so that the recursive dispatch of each query is stated and
//! proved over plain values, while the geodesic arithmetic on a shape is done
//! by the geometry library.

pub mod laws;
pub mod model;
pub mod parse;
