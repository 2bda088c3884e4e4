//! The coordinate grid drawn over a screenshot: where its lines go, and the
//! label at each crossing.
use vstd::prelude::*;
use crate::text::{decimal, decimal_string};

verus! {

/// The label at one crossing of the grid, with its white background box.
#[derive(Clone, Debug)]
pub struct GridLabel {
    /// Where the crossing is.
    pub x: u32,
    pub y: u32,
    /// `X=p%,Y=q%`, the crossing in percent of the image's size.
    pub text: String,
    /// The top left corner of the background box, centred on the crossing.
    pub left: u32,
    pub top: u32,
    /// Where the text's top edge goes.
    pub text_top: u32,
}

/// Everything that is drawn over a screenshot.
#[derive(Clone, Debug)]
pub struct GridPlan {
    /// The x of each vertical line, left to right.
    pub vertical: Vec<u32>,
    /// The y of each horizontal line, top to bottom.
    pub horizontal: Vec<u32>,
    /// `labels[i][j]` stands where vertical line `i` crosses horizontal line `j`.
    pub labels: Vec<Vec<GridLabel>>,
    pub font_size: u32,
    pub label_width: u32,
    pub label_height: u32,
}

/// Why no grid can be drawn.
#[derive(PartialEq, Eq, Structural, Clone, Copy, Debug)]
pub enum GridError {
    /// The interval between lines is not positive.
    InvalidGridSpec,
}

/// `v` is every positive multiple of `interval` below `limit`, in order.
pub open spec fn gridlines_ok(v: Seq<u32>, limit: nat, interval: nat) -> bool {
    &&& forall|k: int| 0 <= k < v.len() ==> #[trigger] v[k] == (k + 1) * interval && v[k] < limit
    &&& (v.len() + 1) * interval >= limit
}

/// `100 * v / total`, rounded to the nearest integer, halves up.
pub open spec fn percent_of(v: nat, total: nat) -> nat {
    (200 * v + total) / (2 * total)
}

/// The text of the label at a crossing, from its percentages.
pub open spec fn label_text(px: nat, py: nat) -> Seq<char> {
    seq!['X', '='] + decimal(px) + seq!['%', ',', 'Y', '='] + decimal(py) + seq!['%']
}

/// The font size for an interval.
pub open spec fn font_size_of(interval: nat) -> nat {
    interval / 10
}

/// The background box is six and a half times the font size wide ...
pub open spec fn label_width_of(interval: nat) -> nat {
    font_size_of(interval) * 13 / 2
}

/// ... and one and a fifth times as high, both rounded down.
pub open spec fn label_height_of(interval: nat) -> nat {
    font_size_of(interval) * 12 / 10
}

/// `l` is the label of the crossing at `(x, y)` on a `w` by `h` image.
pub open spec fn label_ok(l: GridLabel, x: nat, y: nat, w: nat, h: nat, interval: nat) -> bool {
    let bw = label_width_of(interval);
    let bh = label_height_of(interval);
    &&& l.x == x
    &&& l.y == y
    &&& l.text@ == label_text(percent_of(x, w), percent_of(y, h))
    &&& l.left == x - bw / 2
    &&& l.top == y - bh / 2
    &&& l.text_top == l.top + bh / 8
}

/// `p` is the grid with lines `interval` apart on a `w` by `h` image.
pub open spec fn plan_ok(p: GridPlan, w: nat, h: nat, interval: nat) -> bool {
    &&& p.font_size == font_size_of(interval)
    &&& p.label_width == label_width_of(interval)
    &&& p.label_height == label_height_of(interval)
    &&& gridlines_ok(p.vertical@, w, interval)
    &&& gridlines_ok(p.horizontal@, h, interval)
    &&& p.labels@.len() == p.vertical@.len()
    &&& forall|i: int|
        0 <= i < p.labels@.len() ==> #[trigger] p.labels@[i]@.len() == p.horizontal@.len()
    &&& forall|i: int, j: int|
        0 <= i < p.vertical@.len() && 0 <= j < p.horizontal@.len() ==> label_ok(
            #[trigger] p.labels@[i]@[j],
            p.vertical@[i] as nat,
            p.horizontal@[j] as nat,
            w,
            h,
            interval,
        )
}

/// Every positive multiple of `interval` below `limit`.
pub fn gridlines(limit: u32, interval: u32) -> (r: Vec<u32>)
    requires
        interval > 0,
    ensures
        gridlines_ok(r@, limit as nat, interval as nat),
{
    let mut r: Vec<u32> = Vec::new();
    let mut x: u64 = interval as u64;
    assert(r@.len() == 0);
    assert(r@.len() * interval + interval == interval) by (nonlinear_arith)
        requires
            r@.len() == 0,
    ;
    while x < limit as u64
        invariant
            interval > 0,
            x == r@.len() * interval + interval,
            forall|k: int|
                0 <= k < r@.len() ==> #[trigger] r@[k] == (k + 1) * interval && r@[k] < limit,
        decreases limit as int + interval as int - x as int,
    {
        let ghost k = r@.len() as int;
        assert(k * interval + interval == (k + 1) * interval) by (nonlinear_arith);
        r.push(x as u32);
        x = x + interval as u64;
    }
    assert((r@.len() + 1) * interval == r@.len() * interval + interval) by (nonlinear_arith);
    r
}

/// `100 * v / total`, rounded to the nearest integer.
pub fn percent(v: u32, total: u32) -> (r: u64)
    requires
        total > 0,
    ensures
        r == percent_of(v as nat, total as nat),
{
    (200 * (v as u64) + total as u64) / (2 * (total as u64))
}

/// The label text `X=p%,Y=q%`.
pub fn format_label(px: u64, py: u64) -> (r: String)
    ensures
        r@ == label_text(px as nat, py as nat),
{
    proof {
        reveal_strlit("X=");
        reveal_strlit("%,Y=");
        reveal_strlit("%");
    }
    let mut r = String::from_str("X=");
    r.append(decimal_string(px).as_str());
    r.append("%,Y=");
    r.append(decimal_string(py).as_str());
    r.append("%");
    assert(r@ =~= label_text(px as nat, py as nat));
    r
}

/// The grid with lines `grid_interval` pixels apart over a `width` by
/// `height` image. An interval larger than the image gives an empty grid.
pub fn grid_plan(width: u32, height: u32, grid_interval: i32) -> (r: Result<GridPlan, GridError>)
    ensures
        grid_interval <= 0 <==> r is Err,
        r matches Ok(p) ==> plan_ok(p, width as nat, height as nat, grid_interval as nat),
{
    if grid_interval <= 0 {
        return Err(GridError::InvalidGridSpec);
    }
    let interval = grid_interval as u32;
    let font_size = interval / 10;
    let bw = font_size / 2 * 13 + font_size % 2 * 13 / 2;
    assert(bw == font_size * 13 / 2) by (nonlinear_arith)
        requires
            bw == font_size / 2 * 13 + font_size % 2 * 13 / 2,
    ;
    let bh = font_size / 10 * 12 + font_size % 10 * 12 / 10;
    assert(bh == font_size * 12 / 10) by (nonlinear_arith)
        requires
            bh == font_size / 10 * 12 + font_size % 10 * 12 / 10,
    ;
    assert(bw / 2 <= interval && bh / 2 <= interval) by (nonlinear_arith)
        requires
            font_size == interval / 10,
            bw == font_size * 13 / 2,
            bh == font_size * 12 / 10,
    ;
    let vertical = gridlines(width, interval);
    let horizontal = gridlines(height, interval);
    assert(vertical@.len() > 0 ==> vertical@[0] < width);
    let mut labels: Vec<Vec<GridLabel>> = Vec::new();
    let mut i: usize = 0;
    while i < vertical.len()
        invariant
            i <= vertical@.len(),
            width > 0 || vertical@.len() == 0,
            interval as int == grid_interval as int,
            interval > 0,
            bw == label_width_of(interval as nat),
            bh == label_height_of(interval as nat),
            bw / 2 <= interval,
            bh / 2 <= interval,
            gridlines_ok(vertical@, width as nat, interval as nat),
            gridlines_ok(horizontal@, height as nat, interval as nat),
            labels@.len() == i,
            forall|a: int| 0 <= a < i ==> #[trigger] labels@[a]@.len() == horizontal@.len(),
            forall|a: int, b: int|
                0 <= a < i && 0 <= b < horizontal@.len() ==> label_ok(
                    #[trigger] labels@[a]@[b],
                    vertical@[a] as nat,
                    horizontal@[b] as nat,
                    width as nat,
                    height as nat,
                    interval as nat,
                ),
        decreases vertical@.len() - i,
    {
        let x = vertical[i];
        assert(x == (i + 1) * interval && x < width);
        assert(x >= interval) by (nonlinear_arith)
            requires
                x == (i + 1) * interval,
                interval > 0,
                i >= 0,
        ;
        let px = percent(x, width);
        let mut row: Vec<GridLabel> = Vec::new();
        let mut j: usize = 0;
        while j < horizontal.len()
            invariant
                j <= horizontal@.len(),
                i < vertical@.len(),
                x == vertical@[i as int],
                x >= interval,
                width > 0,
                px == percent_of(x as nat, width as nat),
                interval > 0,
                bw == label_width_of(interval as nat),
                bh == label_height_of(interval as nat),
                bw / 2 <= interval,
                bh / 2 <= interval,
                gridlines_ok(horizontal@, height as nat, interval as nat),
                row@.len() == j,
                forall|b: int|
                    0 <= b < j ==> label_ok(
                        #[trigger] row@[b],
                        x as nat,
                        horizontal@[b] as nat,
                        width as nat,
                        height as nat,
                        interval as nat,
                    ),
            decreases horizontal@.len() - j,
        {
            let y = horizontal[j];
            assert(y == (j + 1) * interval && y < height);
            assert(y >= interval) by (nonlinear_arith)
                requires
                    y == (j + 1) * interval,
                    interval > 0,
                    j >= 0,
            ;
            let py = percent(y, height);
            let left = x - bw / 2;
            let top = y - bh / 2;
            let text_top = top + bh / 8;
            row.push(GridLabel { x, y, text: format_label(px, py), left, top, text_top });
            j = j + 1;
        }
        labels.push(row);
        i = i + 1;
    }
    Ok(
        GridPlan {
            vertical,
            horizontal,
            labels,
            font_size,
            label_width: bw,
            label_height: bh,
        },
    )
}

} // verus!
