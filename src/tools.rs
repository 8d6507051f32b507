//! Station icons as dot art: the positions of the lit pixels of a station's icon.
use vstd::prelude::*;
use vstd::arithmetic::div_mod::lemma_fundamental_div_mod_converse;

verus! {

/// The dot art of a station icon: the lit pixels, shifted so that the topmost and
/// leftmost lie on the axes, and the extent of the art.
#[derive(Debug)]
pub struct StationArt {
    pub icon: Vec<(u32, u32)>,
    pub size_x: u32,
    pub size_y: u32,
}

/// Pixel `k` of an RGB buffer is lit: it lies within the buffer and the mean of
/// its red, green and blue exceeds 128.
pub open spec fn is_lit(rgb: Seq<u8>, k: int) -> bool {
    &&& 0 <= k
    &&& 3 * k + 2 < rgb.len()
    &&& rgb[3 * k] + rgb[3 * k + 1] + rgb[3 * k + 2] > 384
}

/// The positions `(x, y)` of the lit pixels among the first `n` pixels of a
/// picture `width` pixels wide, in row-major order.
pub open spec fn lit_points(rgb: Seq<u8>, width: nat, n: nat) -> Seq<(u32, u32)>
    decreases n,
{
    if n == 0 || width == 0 {
        Seq::empty()
    } else {
        let prev = lit_points(rgb, width, (n - 1) as nat);
        let k = n - 1;
        if is_lit(rgb, k) {
            prev.push(((k % width as int) as u32, (k / width as int) as u32))
        } else {
            prev
        }
    }
}

/// The least value of `s`, or 0 if it is empty.
pub open spec fn min_of(s: Seq<u32>) -> u32
    decreases s.len(),
{
    if s.len() == 0 {
        0
    } else if s.len() == 1 {
        s[0]
    } else {
        let m = min_of(s.drop_last());
        if s.last() < m {
            s.last()
        } else {
            m
        }
    }
}

/// The greatest value of `s`, or 0 if it is empty.
pub open spec fn max_of(s: Seq<u32>) -> u32
    decreases s.len(),
{
    if s.len() == 0 {
        0
    } else {
        let m = max_of(s.drop_last());
        if s.last() > m {
            s.last()
        } else {
            m
        }
    }
}

/// The x of each point.
pub open spec fn xs(p: Seq<(u32, u32)>) -> Seq<u32> {
    p.map_values(|q: (u32, u32)| q.0)
}

/// The y of each point.
pub open spec fn ys(p: Seq<(u32, u32)>) -> Seq<u32> {
    p.map_values(|q: (u32, u32)| q.1)
}

/// The dot art of a `width` by `height` picture: its lit pixels shifted by the
/// least x and the least y, the greatest x, and the height of the lit rows.
pub open spec fn art_of(rgb: Seq<u8>, width: u32, height: u32) -> (Seq<(u32, u32)>, u32, u32) {
    let p = lit_points(rgb, width as nat, (width * height) as nat);
    let mx = min_of(xs(p));
    let my = min_of(ys(p));
    (
        p.map_values(|q: (u32, u32)| ((q.0 - mx) as u32, (q.1 - my) as u32)),
        max_of(xs(p)),
        (max_of(ys(p)) - my) as u32,
    )
}

/// Every value lies between the least and the greatest.
proof fn lemma_min_max_bounds(s: Seq<u32>, i: int)
    requires
        0 <= i < s.len(),
    ensures
        min_of(s) <= s[i] <= max_of(s),
    decreases s.len(),
{
    if s.len() > 1 && i < s.len() - 1 {
        lemma_min_max_bounds(s.drop_last(), i);
    } else if s.len() > 1 {
        assert(s.drop_last().len() > 0);
        lemma_min_max_bounds(s.drop_last(), 0);
    }
}

/// The coordinates of a sequence with one more point.
proof fn lemma_push_extremes(s: Seq<(u32, u32)>, q: (u32, u32))
    ensures
        xs(s.push(q)).drop_last() == xs(s),
        ys(s.push(q)).drop_last() == ys(s),
        xs(s.push(q)).last() == q.0,
        ys(s.push(q)).last() == q.1,
        xs(s.push(q)).len() == s.len() + 1,
        ys(s.push(q)).len() == s.len() + 1,
{
    assert(xs(s.push(q)).drop_last() =~= xs(s));
    assert(ys(s.push(q)).drop_last() =~= ys(s));
}

/// The dot art of a `width` by `height` picture whose pixels `rgb` holds as red,
/// green and blue bytes, row after row.
pub fn art_from_pixels(width: u32, height: u32, rgb: &Vec<u8>) -> (r: StationArt)
    ensures
        (r.icon@, r.size_x, r.size_y) == art_of(rgb@, width, height),
{
    let ghost w = width as nat;
    assert(width as int * height as int <= 0xffff_ffff_ffff_ffff) by (nonlinear_arith)
        requires
            width <= 0xffff_ffff,
            height <= 0xffff_ffff,
    ;
    let total: u64 = width as u64 * height as u64;
    let len: usize = rgb.len();
    let avail: u64 = (len / 3) as u64;
    let mut pts: Vec<(u32, u32)> = Vec::new();
    let mut min_x: u32 = 0;
    let mut max_x: u32 = 0;
    let mut min_y: u32 = 0;
    let mut max_y: u32 = 0;
    if width > 0 {
        let mut k: u64 = 0;
        let mut x: u32 = 0;
        let mut y: u32 = 0;
        while k < total
            invariant
                width > 0,
                w == width,
                total == width * height,
                len == rgb@.len(),
                avail == len / 3,
                k <= total,
                x < width,
                k == y * width + x,
                pts@ == lit_points(rgb@, w, k as nat),
                min_x == min_of(xs(pts@)),
                max_x == max_of(xs(pts@)),
                min_y == min_of(ys(pts@)),
                max_y == max_of(ys(pts@)),
            decreases total - k,
        {
            assert(y < height) by (nonlinear_arith)
                requires
                    k < total,
                    total == width * height,
                    k == y * width + x,
                    x < width,
            ;
            proof {
                lemma_fundamental_div_mod_converse(k as int, width as int, y as int, x as int);
            }
            let ghost before = pts@;
            if k < avail {
                assert(3 * k + 2 < len) by (nonlinear_arith)
                    requires
                        avail == len / 3,
                        k < avail,
                ;
                assert(k <= usize::MAX);
                let kk: usize = k as usize;
                assert(kk == k);
                let i: usize = kk * 3;
                let s: u16 = rgb[i] as u16 + rgb[i + 1] as u16 + rgb[i + 2] as u16;
                if s > 384 {
                    if pts.len() == 0 {
                        min_x = x;
                        max_x = x;
                        min_y = y;
                        max_y = y;
                    } else {
                        if x < min_x {
                            min_x = x;
                        }
                        if x > max_x {
                            max_x = x;
                        }
                        if y < min_y {
                            min_y = y;
                        }
                        if y > max_y {
                            max_y = y;
                        }
                    }
                    pts.push((x, y));
                    proof {
                        lemma_push_extremes(before, (x, y));
                        if before.len() == 0 {
                            assert(xs(pts@) =~= seq![x]);
                            assert(ys(pts@) =~= seq![y]);
                            assert(max_of(xs(pts@).drop_last()) == 0);
                            assert(max_of(ys(pts@).drop_last()) == 0);
                        }
                    }
                }
            }
            assert(pts@ == lit_points(rgb@, w, (k + 1) as nat));
            if x + 1 == width {
                assert((y + 1) * width + 0 == k + 1) by (nonlinear_arith)
                    requires
                        k == y * width + x,
                        x + 1 == width,
                ;
                x = 0;
                y = y + 1;
            } else {
                x = x + 1;
            }
            k = k + 1;
        }
    }
    let ghost p = pts@;
    assert(p == lit_points(rgb@, w, (width * height) as nat));
    let mut icon: Vec<(u32, u32)> = Vec::new();
    let mut j: usize = 0;
    while j < pts.len()
        invariant
            p == pts@,
            j <= p.len(),
            min_x == min_of(xs(p)),
            min_y == min_of(ys(p)),
            icon@ == p.take(j as int).map_values(
                |q: (u32, u32)| ((q.0 - min_x) as u32, (q.1 - min_y) as u32),
            ),
        decreases p.len() - j,
    {
        proof {
            lemma_min_max_bounds(xs(p), j as int);
            lemma_min_max_bounds(ys(p), j as int);
        }
        let (px, py) = pts[j];
        icon.push((px - min_x, py - min_y));
        assert(icon@ =~= p.take(j + 1).map_values(
            |q: (u32, u32)| ((q.0 - min_x) as u32, (q.1 - min_y) as u32),
        ));
        j += 1;
    }
    assert(p.take(j as int) =~= p);
    proof {
        if p.len() > 0 {
            lemma_min_max_bounds(ys(p), 0);
        }
    }
    StationArt { icon, size_x: max_x, size_y: max_y - min_y }
}

/// The picture, as `(width, height, bytes)`, that the image crate's aspect-keeping
/// Lanczos3 resize gives of an RGB picture within the given bounds.
pub uninterp spec fn resized(width: u32, height: u32, rgb: Seq<u8>, max_width: u32, max_height: u32) -> (
    u32,
    u32,
    Seq<u8>,
);

/// Relies on `image::RgbImage::from_raw`, which refuses a buffer shorter than three
/// bytes a pixel, and on `image::DynamicImage::resize` with the Lanczos3 filter,
/// whose result depends on the picture and the bounds alone.
#[verifier::external_body]
fn resize_rgb(width: u32, height: u32, rgb: Vec<u8>, max_width: u32, max_height: u32) -> (r: Option<
    (u32, u32, Vec<u8>),
>)
    requires
        width > 0,
        height > 0,
    ensures
        r is Some <==> 3 * width * height <= rgb@.len(),
        r matches Some((w, h, p)) ==> (w, h, p@) == resized(width, height, rgb@, max_width, max_height),
{
    let buffer = image::RgbImage::from_raw(width, height, rgb)?;
    let picture = image::DynamicImage::ImageRgb8(buffer).resize(
        max_width,
        max_height,
        image::imageops::FilterType::Lanczos3,
    );
    let rgb = picture.to_rgb8();
    Some((rgb.width(), rgb.height(), rgb.into_raw()))
}

/// The dot art of a station icon, once scaled to fit `size` pixels across at its
/// own height: nothing when the picture is empty or its buffer is short.
pub fn station_art(width: u32, height: u32, rgb: Vec<u8>, size: u32) -> (r: Option<StationArt>)
    ensures
        r is Some <==> width > 0 && height > 0 && 3 * width * height <= rgb@.len(),
        r matches Some(a) ==> ({
            let (w, h, p) = resized(width, height, rgb@, size, height);
            (a.icon@, a.size_x, a.size_y) == art_of(p, w, h)
        }),
{
    if width == 0 || height == 0 {
        return None;
    }
    match resize_rgb(width, height, rgb, size, height) {
        Some((w, h, p)) => Some(art_from_pixels(w, h, &p)),
        None => None,
    }
}

} // verus!
