//! Interactive editing of cubic Bezier curves: the primitives that draw a
//! curve, and the drag record that moves its points under the pointer.
pub mod point;
pub mod shape;
pub mod builder;
pub mod drag;
pub mod handlers;
pub mod ids;
