use vstd::prelude::*;

verus! {

/// A rectangle in view coordinates, as CEF describes the view and its dirty regions.
#[derive(Clone, Copy, Debug, PartialEq, Eq, Structural)]
pub struct Rect {
    pub x: i32,
    pub y: i32,
    pub width: i32,
    pub height: i32,
}

/// The larger of two integers.
pub open spec fn max_i32(a: i32, b: i32) -> i32 {
    if a >= b {
        a
    } else {
        b
    }
}

/// The larger of two integers is one of them and no smaller than either.
pub proof fn law_max_i32_is_the_larger(a: i32, b: i32)
    ensures
        max_i32(a, b) >= a,
        max_i32(a, b) >= b,
        max_i32(a, b) == a || max_i32(a, b) == b,
{
}

/// The view rectangle reported to CEF from the size that the host reports (each side is
/// 1 where the host leaves it untouched): placed at the origin, and never narrower or lower
/// than one pixel.
pub fn view_rect(width: i32, height: i32) -> (r: Rect)
    ensures
        r.x == 0,
        r.y == 0,
        r.width == max_i32(width, 1),
        r.height == max_i32(height, 1),
        r.width == (if width >= 1 { width } else { 1i32 }),
        r.height == (if height >= 1 { height } else { 1i32 }),
        width >= 1 ==> r.width == width,
        height >= 1 ==> r.height == height,
{
    Rect {
        x: 0,
        y: 0,
        width: if width >= 1 {
            width
        } else {
            1
        },
        height: if height >= 1 {
            height
        } else {
            1
        },
    }
}

/// The four numbers that stand for a rectangle in the flat dirty-rectangle array.
pub open spec fn rect_fields(r: Rect) -> Seq<i32> {
    seq![r.x, r.y, r.width, r.height]
}

/// The flat array `[x0, y0, w0, h0, x1, y1, w1, h1, ...]` that the paint callback gets.
pub open spec fn flat_rects(rects: Seq<Rect>) -> Seq<i32>
    decreases rects.len(),
{
    if rects.len() == 0 {
        seq![]
    } else {
        flat_rects(rects.drop_last()) + rect_fields(rects.last())
    }
}

/// A rectangle stands in the flat array as its four fields, in the order x, y, width,
/// height.
pub proof fn law_rect_fields_order(r: Rect)
    ensures
        rect_fields(r).len() == 4,
        rect_fields(r)[0] == r.x,
        rect_fields(r)[1] == r.y,
        rect_fields(r)[2] == r.width,
        rect_fields(r)[3] == r.height,
{
}

/// The flat array has four entries per rectangle, in the rectangles' order.
pub proof fn lemma_flat_rects_layout(rects: Seq<Rect>)
    ensures
        flat_rects(rects).len() == 4 * rects.len(),
        forall|i: int|
            #![trigger rects[i]]
            0 <= i < rects.len() ==> {
                &&& flat_rects(rects)[4 * i] == rects[i].x
                &&& flat_rects(rects)[4 * i + 1] == rects[i].y
                &&& flat_rects(rects)[4 * i + 2] == rects[i].width
                &&& flat_rects(rects)[4 * i + 3] == rects[i].height
            },
    decreases rects.len(),
{
    if rects.len() > 0 {
        lemma_flat_rects_layout(rects.drop_last());
        assert forall|i: int| 0 <= i < rects.len() - 1 implies #[trigger] rects[i] == rects.drop_last()[i] by {}
    }
}

/// Packs the dirty rectangles into the flat array that the paint callback gets.
pub fn flatten_dirty_rects(rects: &[Rect]) -> (flat: Vec<i32>)
    ensures
        flat@ == flat_rects(rects@),
{
    let mut flat: Vec<i32> = Vec::new();
    let mut i: usize = 0;
    while i < rects.len()
        invariant
            i <= rects@.len(),
            flat@ == flat_rects(rects@.subrange(0, i as int)),
        decreases rects@.len() - i,
    {
        let r = rects[i];
        flat.push(r.x);
        flat.push(r.y);
        flat.push(r.width);
        flat.push(r.height);
        assert(rects@.subrange(0, i + 1).drop_last() =~= rects@.subrange(0, i as int));
        assert(flat@ =~= flat_rects(rects@.subrange(0, i + 1)));
        i = i + 1;
    }
    assert(rects@.subrange(0, rects@.len() as int) =~= rects@);
    flat
}

/// The rectangle count that the paint callback gets, as a C `int`.
pub fn dirty_count(rects: &[Rect]) -> (n: i32)
    ensures
        n == rects@.len() as i32,
{
    #[verifier::truncate]
    (rects.len() as i32)
}

} // verus!
