use vstd::prelude::*;
use vstd::arithmetic::div_mod::{
    lemma_fundamental_div_mod, lemma_div_is_ordered, lemma_div_multiples_vanish,
    lemma_multiply_divide_lt, lemma_div_pos_is_pos,
};

verus! {

/// Distance, in pixels, from a tab's left edge to its close icon.
pub const CLOSE_ICON_PADDING: u32 = 10;

/// Width, in pixels, of the close icon; the hotspot is twice as wide.
pub const CLOSE_ICON_WIDTH: u32 = 10;

/// Size of the tab strip, in physical pixels.
#[derive(Clone, Copy, Debug, PartialEq, Eq, Structural)]
pub struct BarGeometry {
    /// Width of the window.
    pub window_width: u32,
    /// Height of the tab strip: the configured height times the pixel ratio.
    pub bar_height: u32,
}

/// The tab under `(x, y)`: the strip is shown only with two tabs or more,
/// covers every `y < bar_height` (above the window too, where a drag may
/// take the cursor), and splits `[0, window_width)` into
/// `tab_count` equal parts.
pub open spec fn hit_spec(x: int, y: int, tab_count: int, geo: BarGeometry) -> Option<int> {
    if tab_count <= 1 || x < 0 || y >= geo.bar_height || x >= geo.window_width {
        None
    } else {
        Some(x * tab_count / geo.window_width as int)
    }
}

/// Left edge of tab `i` when `tab_count` tabs share `window_width`.
pub open spec fn tab_left_spec(i: int, tab_count: int, window_width: int) -> int {
    i * window_width / tab_count
}

/// Whether a position, taken relative to its tab's left edge, lies on the
/// close hotspot.
pub open spec fn on_close_spec(local_x: int) -> bool {
    CLOSE_ICON_PADDING <= local_x < CLOSE_ICON_PADDING + 2 * CLOSE_ICON_WIDTH
}

/// Whether a drag that has gone `dy` pixels down detaches the tab: `dy`
/// exceeds one and a half strip heights.
pub open spec fn detached_spec(dy: int, bar_height: int) -> bool {
    2 * dy > 3 * bar_height
}

pub open spec fn clamp_spec(v: int, lo: int, hi: int) -> int {
    if v < lo {
        lo
    } else if v > hi {
        hi
    } else {
        v
    }
}

/// The slot where a tab dragged `dx` pixels from slot `tab_id` lands:
/// `tab_id + round(dx / tab_width)`, rounding halves up, within `[0, tab_count)`.
/// `floor((2 * tab_width * tab_id + 2 * dx + tab_width) / (2 * tab_width))`
/// is that sum written as one quotient.
pub open spec fn ghost_spec(tab_id: int, dx: int, tab_width: int, tab_count: int) -> int {
    clamp_spec((2 * tab_width * tab_id + 2 * dx + tab_width) / (2 * tab_width), 0, tab_count - 1)
}

/// The tab under `(x, y)`, in physical pixels.
pub fn hit_test(x: i32, y: i32, tab_count: usize, geo: BarGeometry) -> (r: Option<usize>)
    ensures
        match hit_spec(x as int, y as int, tab_count as int, geo) {
            Some(i) => r == Some(i as usize) && 0 <= i < tab_count,
            None => r.is_none(),
        },
{
    if tab_count <= 1 || x < 0 || y as i64 >= geo.bar_height as i64 || x as i64
        >= geo.window_width as i64 {
        return None;
    }
    let xu = x as u128;
    let n = tab_count as u128;
    let w = geo.window_width as u128;
    proof {
        assert(xu * n < w * n) by (nonlinear_arith)
            requires
                xu < w,
                n > 1,
        ;
        lemma_multiply_divide_lt(xu * n, w as int, n as int);
        assert(xu * n <= 0x1_0000_0000 * 0x1_0000_0000_0000_0000) by (nonlinear_arith)
            requires
                xu < 0x1_0000_0000,
                n <= 0x1_0000_0000_0000_0000,
        ;
    }
    let i = (xu * n) / w;
    Some(i as usize)
}

/// Whether a title of `len` cells of `cell_width` pixels fits a tab of
/// `tab_width` pixels beside `reserve` pixels kept free on either side.
pub open spec fn fits_spec(len: int, cell_width: int, reserve: int, tab_width: int) -> bool {
    len * cell_width + 2 * reserve <= tab_width
}

/// How many leading characters stay when a title does not fit: the most
/// that, followed by `"..."`, fit the tab; none when even the dots do not.
pub open spec fn kept_spec(len: int, cell_width: int, reserve: int, tab_width: int) -> int {
    if 3 * cell_width + 2 * reserve > tab_width {
        0
    } else if (tab_width - 2 * reserve) / cell_width - 3 < len {
        (tab_width - 2 * reserve) / cell_width - 3
    } else {
        len
    }
}

/// The title as drawn in a tab.
pub open spec fn ellipsis_spec(title: Seq<char>, cell_width: int, reserve: int, tab_width: int) -> Seq<char> {
    if fits_spec(title.len() as int, cell_width, reserve, tab_width) {
        title
    } else {
        title.subrange(0, kept_spec(title.len() as int, cell_width, reserve, tab_width)) + seq![
            '.',
            '.',
            '.',
        ]
    }
}

/// Left edge of a title of `title_len` cells centred in a tab: half the
/// tab's width in from its left edge, less half the text's width, never left
/// of the window.
pub fn centered_title_x(tab_x: i64, tab_width: u32, title_len: usize, cell_width: u32) -> (r: i128)
    ensures
        r == if tab_x + (tab_width as int) / 2 - (title_len as int) * (cell_width as int) / 2 < 0 {
            0
        } else {
            tab_x + (tab_width as int) / 2 - (title_len as int) * (cell_width as int) / 2
        },
{
    proof {
        assert((title_len as int) * (cell_width as int) <= 0xffff_ffff_ffff_ffff * 0xffff_ffff)
            by (nonlinear_arith)
            requires
                title_len <= 0xffff_ffff_ffff_ffff,
                cell_width <= 0xffff_ffff,
        ;
    }
    let text = title_len as i128 * cell_width as i128;
    let x = tab_x as i128 + tab_width as i128 / 2 - text / 2;
    if x < 0 {
        0
    } else {
        x
    }
}

/// Left edge of tab `i` of `tab_count`.
pub fn tab_left(i: usize, tab_count: usize, window_width: u32) -> (r: u32)
    requires
        i < tab_count,
    ensures
        r == tab_left_spec(i as int, tab_count as int, window_width as int),
        r <= window_width,
{
    let iu = i as u128;
    let n = tab_count as u128;
    let w = window_width as u128;
    proof {
        assert(iu * w <= n * w) by (nonlinear_arith)
            requires
                iu < n,
        ;
        assert(iu * w <= 0x1_0000_0000_0000_0000 * 0x1_0000_0000) by (nonlinear_arith)
            requires
                iu < 0x1_0000_0000_0000_0000,
                w < 0x1_0000_0000,
        ;
        lemma_div_is_ordered(iu * w, n * w, n as int);
        assert(n * w == w * n) by (nonlinear_arith);
        lemma_div_multiples_vanish(w as int, n as int);
    }
    ((iu * w) / n) as u32
}

/// Whether `x` lies on the close hotspot of tab `tab`.
pub fn is_on_close_button(x: i32, tab: usize, tab_count: usize, window_width: u32) -> (r: bool)
    requires
        tab < tab_count,
    ensures
        r == on_close_spec(x - tab_left_spec(tab as int, tab_count as int, window_width as int)),
{
    let left = tab_left(tab, tab_count, window_width);
    let local = x as i64 - left as i64;
    CLOSE_ICON_PADDING as i64 <= local && local < CLOSE_ICON_PADDING as i64 + 2
        * CLOSE_ICON_WIDTH as i64
}

/// Whether a drag `dy` pixels downwards detaches the tab from the strip.
pub fn is_detached(dy: i64, bar_height: u32) -> (r: bool)
    ensures
        r == detached_spec(dy as int, bar_height as int),
{
    2 * (dy as i128) > 3 * (bar_height as i128)
}

/// A drag detaches exactly when it goes down more than one and a half strip
/// heights: a distance `eps` above that height detaches, one `eps` below it
/// (or the height itself) does not. Distances are doubled to stay whole.
pub proof fn lemma_detach_threshold(bar_height: int, eps: int, dy: int)
    requires
        eps > 0,
    ensures
        2 * dy == 3 * bar_height + eps ==> detached_spec(dy, bar_height),
        2 * dy == 3 * bar_height - eps ==> !detached_spec(dy, bar_height),
        2 * dy == 3 * bar_height ==> !detached_spec(dy, bar_height),
{
}

/// The slot where a tab dragged `dx` pixels from slot `tab_id` lands.
pub fn ghost_index(tab_id: usize, dx: i64, tab_width: u32, tab_count: usize) -> (r: usize)
    requires
        tab_width > 0,
        tab_count > 0,
    ensures
        r == ghost_spec(tab_id as int, dx as int, tab_width as int, tab_count as int),
        r < tab_count,
{
    let tw = tab_width as i128;
    let d = 2 * tw;
    proof {
        assert(2 * tw * (tab_id as i128) <= 2 * 0x1_0000_0000 * 0x1_0000_0000_0000_0000)
            by (nonlinear_arith)
            requires
                0 < tw < 0x1_0000_0000,
                0 <= tab_id < 0x1_0000_0000_0000_0000,
        ;
    }
    let p = d * (tab_id as i128) + 2 * (dx as i128) + tw;
    let n = tab_count as i128;
    if p < 0 {
        proof {
            lemma_fundamental_div_mod(p as int, d as int);
            let q = p as int / d as int;
            if q >= 0 {
                assert(d * q >= 0) by (nonlinear_arith)
                    requires
                        d > 0,
                        q >= 0,
                ;
            }
        }
        0
    } else {
        let q = p / d;
        proof {
            lemma_div_pos_is_pos(p as int, d as int);
        }
        if q > n - 1 {
            (n - 1) as usize
        } else {
            q as usize
        }
    }
}

/// The title as drawn in a tab of `tab_width` pixels: unchanged when it
/// fits, otherwise cut and ended with `"..."`.
pub fn ellipsis_tab_title(title: &Vec<char>, cell_width: u32, reserve: u32, tab_width: u32) -> (r:
    Vec<char>)
    requires
        cell_width > 0,
    ensures
        r@ == ellipsis_spec(title@, cell_width as int, reserve as int, tab_width as int),
{
    let len = title.len();
    let cw = cell_width as u128;
    let room = 2 * (reserve as u128);
    let w = tab_width as u128;
    proof {
        assert((len as u128) * cw <= 0x1_0000_0000_0000_0000 * 0x1_0000_0000) by (nonlinear_arith)
            requires
                len < 0x1_0000_0000_0000_0000,
                cw < 0x1_0000_0000,
        ;
    }
    if (len as u128) * cw + room <= w {
        return title.clone();
    }
    let kept: usize = if 3 * cw + room > w {
        0
    } else {
        let cells = (w - room) / cw;
        proof {
            lemma_div_is_ordered(3 * cw, (w - room) as int, cw as int);
            lemma_div_multiples_vanish(3, cw as int);
            assert(3 * cw == cw * 3);
        }
        if cells - 3 < len as u128 {
            (cells - 3) as usize
        } else {
            len
        }
    };
    let mut r: Vec<char> = Vec::new();
    let mut i: usize = 0;
    while i < kept
        invariant
            kept <= len,
            len == title@.len(),
            0 <= i <= kept,
            r@ == title@.subrange(0, i as int),
        decreases kept - i,
    {
        r.push(title[i]);
        i = i + 1;
    }
    r.push('.');
    r.push('.');
    r.push('.');
    r
}

/// A title that fits is drawn as it is; what the ellipsis makes of a title
/// fits, so that applying it again changes nothing (when the dots
/// themselves fit the tab).
pub proof fn lemma_ellipsis_idempotent(title: Seq<char>, cell_width: int, reserve: int, tab_width: int)
    requires
        cell_width > 0,
        reserve >= 0,
    ensures
        fits_spec(title.len() as int, cell_width, reserve, tab_width) ==> ellipsis_spec(
            title,
            cell_width,
            reserve,
            tab_width,
        ) == title,
        3 * cell_width + 2 * reserve <= tab_width ==> {
            let once = ellipsis_spec(title, cell_width, reserve, tab_width);
            &&& fits_spec(once.len() as int, cell_width, reserve, tab_width)
            &&& ellipsis_spec(once, cell_width, reserve, tab_width) == once
        },
{
    let len = title.len() as int;
    if 3 * cell_width + 2 * reserve <= tab_width && !fits_spec(len, cell_width, reserve, tab_width) {
        let room = tab_width - 2 * reserve;
        let q = room / cell_width;
        let kept = kept_spec(len, cell_width, reserve, tab_width);
        lemma_fundamental_div_mod(room, cell_width);
        lemma_div_is_ordered(3 * cell_width, room, cell_width);
        lemma_div_multiples_vanish(3, cell_width);
        assert(3 * cell_width == cell_width * 3) by (nonlinear_arith);
        assert(0 <= kept <= len);
        assert(kept + 3 <= q);
        assert((kept + 3) * cell_width <= q * cell_width) by (nonlinear_arith)
            requires
                kept + 3 <= q,
                cell_width > 0,
        ;
        assert(q * cell_width <= room) by {
            assert(room == cell_width * q + room % cell_width);
            assert(room % cell_width >= 0);
            assert(cell_width * q == q * cell_width) by (nonlinear_arith);
        }
        let once = ellipsis_spec(title, cell_width, reserve, tab_width);
        assert(once.len() == kept + 3);
    }
}

/// The tab-bar hit test lands on one of the tabs wherever it hits the strip.
pub proof fn lemma_hit_in_range(x: int, y: int, tab_count: int, geo: BarGeometry)
    requires
        0 <= x < geo.window_width,
        y < geo.bar_height,
        tab_count > 1,
    ensures
        hit_spec(x, y, tab_count, geo) == Some(x * tab_count / geo.window_width as int),
        0 <= x * tab_count / geo.window_width as int <= tab_count - 1,
{
    let w = geo.window_width as int;
    assert(x * tab_count < w * tab_count) by (nonlinear_arith)
        requires
            0 <= x < w,
            tab_count > 1,
    ;
    assert(x * tab_count >= 0) by (nonlinear_arith)
        requires
            0 <= x,
            tab_count > 1,
    ;
    lemma_multiply_divide_lt(x * tab_count, w, tab_count);
    lemma_div_pos_is_pos(x * tab_count, w);
}

} // verus!
