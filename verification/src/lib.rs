//! A minimal 2D circle primitive: position, radius, and pairwise collision
//! detection, with the collision predicate and the radius invariant proved.

pub mod circle;
