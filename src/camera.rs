use vstd::prelude::*;

verus! {

/// An eye point and the viewport rectangle it looks through: rays start at `origin` and pass
/// through `lower_left_corner + u * horizontal + v * vertical`. `V` is the vector type of the
/// geometry that uses the camera.
pub struct Camera<V> {
    pub origin: V,
    pub lower_left_corner: V,
    pub horizontal: V,
    pub vertical: V,
}

impl<V> Camera<V> {
    pub fn new(origin: V, lower_left_corner: V, horizontal: V, vertical: V) -> (c: Camera<V>)
        ensures
            c.origin == origin,
            c.lower_left_corner == lower_left_corner,
            c.horizontal == horizontal,
            c.vertical == vertical,
    {
        Camera { origin, lower_left_corner, horizontal, vertical }
    }
}

} // verus!
