use vstd::prelude::*;

verus! {

/// The corners of the axis-aligned rectangle spanned by `(x0, y0)` and
/// `(x1, y1)`, as a set of points.
pub open spec fn rect_corners<T>(x0: T, y0: T, x1: T, y1: T) -> Set<(T, T)> {
    set![(x0, y0), (x1, y0), (x0, y1), (x1, y1)]
}

/// The two triangles, three vertices each, with which a rectangle is filled:
/// `(x0, y0), (x1, y0), (x0, y1)` and then `(x1, y1), (x0, y1), (x1, y0)`.
/// The coordinates are carried through unchanged, whatever their type.
pub fn rect_triangles<T: Copy>(x0: T, y0: T, x1: T, y1: T) -> (v: [(T, T); 6])
    ensures
        v@ == seq![(x0, y0), (x1, y0), (x0, y1), (x1, y1), (x0, y1), (x1, y0)],
{
    [(x0, y0), (x1, y0), (x0, y1), (x1, y1), (x0, y1), (x1, y0)]
}

/// The two triangles use exactly the four corners of the rectangle, and
/// meet along the diagonal from `(x1, y0)` to `(x0, y1)`.
pub proof fn law_rect_triangles_cover_rect<T>(x0: T, y0: T, x1: T, y1: T)
    ensures
        ({
            let v = seq![(x0, y0), (x1, y0), (x0, y1), (x1, y1), (x0, y1), (x1, y0)];
            &&& v.to_set() == rect_corners(x0, y0, x1, y1)
            &&& v[1] == (x1, y0) && v[5] == (x1, y0)
            &&& v[2] == (x0, y1) && v[4] == (x0, y1)
        }),
{
    let v = seq![(x0, y0), (x1, y0), (x0, y1), (x1, y1), (x0, y1), (x1, y0)];
    assert forall|p: (T, T)| v.to_set().contains(p) <==> rect_corners(x0, y0, x1, y1).contains(p) by {
        if rect_corners(x0, y0, x1, y1).contains(p) {
            if p == (x0, y0) {
                assert(v[0] == p);
            } else if p == (x1, y0) {
                assert(v[1] == p);
            } else if p == (x0, y1) {
                assert(v[2] == p);
            } else {
                assert(v[3] == p);
            }
        }
    }
    assert(v.to_set() =~= rect_corners(x0, y0, x1, y1));
}

} // verus!
