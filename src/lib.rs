//! The decisions of a ray caster that renders spheres and planes under
//! directional lights: which primitive a ray meets first, whether a sphere
//! or a plane is hit at all, how a color channel saturates, and how a
//! landscape image is laid out pixel by pixel. Floating-point quantities
//! enter as their IEEE 754 bit patterns and are compared by value.
pub mod color;
pub mod float_order;
pub mod nearest;
pub mod render;
pub mod shapes;
