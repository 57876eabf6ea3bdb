// The float-free core of a ray tracer: square matrices of any scalar type with
// their transpose, submatrices, products and inverse layout; hit selection and
// ordering of intersections; the parity rules of the patterns; the pixel canvas
// that a render fills one pixel at a time; and the RGBA image built from a
// canvas of bytes.

pub mod canvas;
pub mod intersections;
pub mod matrix;
pub mod patterns;
pub mod raster;
pub mod tuples;
