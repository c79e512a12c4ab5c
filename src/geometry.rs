//! Where the image quad lands on the surface. Extents are half-widths and
//! half-heights in normalised device coordinates, as exact fractions: 1 spans
//! the whole surface along that axis.

use crate::cli::ResizeOption;
use vstd::prelude::*;

verus! {

/// The quad's horizontal extent `x_num / x_den` and vertical extent `y_num / y_den`.
#[derive(Clone, Copy, Debug, PartialEq, Eq, Structural)]
pub struct QuadExtent {
    pub x_num: u64,
    pub x_den: u64,
    pub y_num: u64,
    pub y_den: u64,
}

/// The extents, as (x numerator, x denominator, y numerator, y denominator),
/// that a surface of `sx` by `sy` gives an image of `tx` by `ty`.
pub open spec fn extent_of(sx: int, sy: int, tx: int, ty: int, resize: ResizeOption) -> (
    int,
    int,
    int,
    int,
) {
    match resize {
        ResizeOption::No => (tx, sx, ty, sy),
        ResizeOption::Stretch => (1, 1, 1, 1),
        // The image's scale along x is below its scale along y: x spans the
        // surface and y overflows it.
        ResizeOption::Crop => if tx * sy < ty * sx {
            (1, 1, ty * sx, tx * sy)
        } else {
            (tx * sy, ty * sx, 1, 1)
        },
        ResizeOption::Fit => if tx * sy > ty * sx {
            (1, 1, ty * sx, tx * sy)
        } else {
            (tx * sy, ty * sx, 1, 1)
        },
    }
}

pub open spec fn extent_view(e: QuadExtent) -> (int, int, int, int) {
    (e.x_num as int, e.x_den as int, e.y_num as int, e.y_den as int)
}

/// The quad for an image of `texture_size` on a surface of `surface_size`;
/// `None` when a side is zero, which leaves no scale to keep.
pub fn quad_extent(surface_size: (u32, u32), texture_size: (u32, u32), resize: ResizeOption) -> (r:
    Option<QuadExtent>)
    ensures
        (surface_size.0 == 0 || surface_size.1 == 0 || texture_size.0 == 0 || texture_size.1
            == 0) ==> r is None,
        (surface_size.0 > 0 && surface_size.1 > 0 && texture_size.0 > 0 && texture_size.1 > 0)
            ==> (r matches Some(e) && extent_view(e) == extent_of(
            surface_size.0 as int,
            surface_size.1 as int,
            texture_size.0 as int,
            texture_size.1 as int,
            resize,
        )),
{
    let (sx, sy) = surface_size;
    let (tx, ty) = texture_size;
    if sx == 0 || sy == 0 || tx == 0 || ty == 0 {
        return None;
    }
    let (sx, sy, tx, ty) = (sx as u64, sy as u64, tx as u64, ty as u64);
    assert(tx * sy <= 0xffff_ffff * 0xffff_ffff) by (nonlinear_arith)
        requires
            tx <= 0xffff_ffff,
            sy <= 0xffff_ffff,
    ;
    assert(ty * sx <= 0xffff_ffff * 0xffff_ffff) by (nonlinear_arith)
        requires
            ty <= 0xffff_ffff,
            sx <= 0xffff_ffff,
    ;
    let scaled_x = tx * sy;
    let scaled_y = ty * sx;
    let e = match resize {
        ResizeOption::No => QuadExtent { x_num: tx, x_den: sx, y_num: ty, y_den: sy },
        ResizeOption::Stretch => QuadExtent { x_num: 1, x_den: 1, y_num: 1, y_den: 1 },
        ResizeOption::Crop => if scaled_x < scaled_y {
            QuadExtent { x_num: 1, x_den: 1, y_num: scaled_y, y_den: scaled_x }
        } else {
            QuadExtent { x_num: scaled_x, x_den: scaled_y, y_num: 1, y_den: 1 }
        },
        ResizeOption::Fit => if scaled_x > scaled_y {
            QuadExtent { x_num: 1, x_den: 1, y_num: scaled_y, y_den: scaled_x }
        } else {
            QuadExtent { x_num: scaled_x, x_den: scaled_y, y_num: 1, y_den: 1 }
        },
    };
    Some(e)
}

/// `Fit` keeps the whole image inside the surface and `Crop` covers the whole
/// surface, each touching the edges along one axis; both, like `No`, keep the
/// image's aspect ratio: the extents stand in the ratio of the image's scales.
pub proof fn lemma_resize_geometry(sx: int, sy: int, tx: int, ty: int)
    requires
        sx > 0,
        sy > 0,
        tx > 0,
        ty > 0,
    ensures
        ({
            let (xn, xd, yn, yd) = extent_of(sx, sy, tx, ty, ResizeOption::Fit);
            &&& xd > 0 && yd > 0
            &&& xn <= xd && yn <= yd
            &&& (xn == xd || yn == yd)
        }),
        ({
            let (xn, xd, yn, yd) = extent_of(sx, sy, tx, ty, ResizeOption::Crop);
            &&& xd > 0 && yd > 0
            &&& xn >= xd && yn >= yd
            &&& (xn == xd || yn == yd)
        }),
        forall|r: ResizeOption|
            r != ResizeOption::Stretch ==> {
                let (xn, xd, yn, yd) = #[trigger] extent_of(sx, sy, tx, ty, r);
                xn * yd * (ty * sx) == yn * xd * (tx * sy)
            },
{
    assert(tx * sy > 0 && ty * sx > 0) by (nonlinear_arith)
        requires
            sx > 0,
            sy > 0,
            tx > 0,
            ty > 0,
    ;
    let a = tx * sy;
    let b = ty * sx;
    assert forall|r: ResizeOption| r != ResizeOption::Stretch implies {
        let (xn, xd, yn, yd) = #[trigger] extent_of(sx, sy, tx, ty, r);
        xn * yd * (ty * sx) == yn * xd * (tx * sy)
    } by {
        match r {
            ResizeOption::No => {
                assert(tx * sy * (ty * sx) == ty * sx * (tx * sy)) by (nonlinear_arith);
            },
            _ => {
                assert(a * 1 * b == 1 * b * a) by (nonlinear_arith);
                assert(1 * a * b == b * 1 * a) by (nonlinear_arith);
            },
        }
    }
}

} // verus!
