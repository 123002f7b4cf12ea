//! The render driver: one shaded value per pixel, laid out row by row from
//! the top-left corner.
use vstd::prelude::*;

verus! {

/// Why a render could not start.
#[derive(Debug, Clone, Copy, PartialEq, Eq, Structural)]
pub enum RenderError {
    /// The image is not wider than it is tall; the camera model frames
    /// landscape images only.
    NotLandscape,
}

/// Whether the camera model accepts these image dimensions.
pub open spec fn is_landscape(width: u32, height: u32) -> bool {
    width > height
}

/// Row `y` holds, for each column `x`, a value that `shade` may return for `(x, y)`.
pub open spec fn is_shaded_row<C, F: Fn(u32, u32) -> C>(
    row: Seq<C>,
    width: u32,
    y: u32,
    shade: F,
) -> bool {
    &&& row.len() == width
    &&& forall|x: int| 0 <= x < width ==> shade.ensures((x as u32, y), #[trigger] row[x])
}

/// `rows` is a full image of `width` by `height` pixels shaded by `shade`.
pub open spec fn is_shaded_grid<C, F: Fn(u32, u32) -> C>(
    rows: Seq<Vec<C>>,
    width: u32,
    height: u32,
    shade: F,
) -> bool {
    &&& rows.len() == height
    &&& forall|y: int| 0 <= y < height ==> is_shaded_row(#[trigger] rows[y]@, width, y as u32, shade)
}

/// Renders a `width` by `height` image: `rows[y][x]` is `shade(x, y)`.
/// Fails before shading any pixel when the image is not landscape.
pub fn render_pixels<C, F: Fn(u32, u32) -> C>(width: u32, height: u32, shade: F) -> (r: Result<
    Vec<Vec<C>>,
    RenderError,
>)
    requires
        forall|x: u32, y: u32| x < width && y < height ==> #[trigger] shade.requires((x, y)),
    ensures
        r is Err <==> !is_landscape(width, height),
        r matches Err(e) ==> e == RenderError::NotLandscape,
        r matches Ok(rows) ==> is_shaded_grid(rows@, width, height, shade),
{
    if width <= height {
        return Err(RenderError::NotLandscape);
    }
    let mut rows: Vec<Vec<C>> = Vec::new();
    let mut y: u32 = 0;
    while y < height
        invariant
            y <= height,
            forall|x: u32, y: u32| x < width && y < height ==> #[trigger] shade.requires((x, y)),
            rows.len() == y,
            forall|k: int| 0 <= k < y ==> is_shaded_row(#[trigger] rows@[k]@, width, k as u32, shade),
        decreases height - y,
    {
        let mut row: Vec<C> = Vec::new();
        let mut x: u32 = 0;
        while x < width
            invariant
                x <= width,
                y < height,
                forall|x: u32, y: u32| x < width && y < height ==> #[trigger] shade.requires((x, y)),
                row.len() == x,
                forall|k: int| 0 <= k < x ==> shade.ensures((k as u32, y), #[trigger] row@[k]),
            decreases width - x,
        {
            let c = shade(x, y);
            row.push(c);
            x += 1;
        }
        rows.push(row);
        y += 1;
    }
    Ok(rows)
}

} // verus!
