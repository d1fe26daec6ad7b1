//! The client-area resolutions that the tool offers, grouped by aspect ratio.

use vstd::prelude::*;

use crate::geometry::Size;

verus! {

/// The 16:10 resolutions, largest first.
pub open spec fn spec_resolutions_16_10() -> Seq<Size> {
    seq![
        Size { cx: 3840, cy: 2400 },
        Size { cx: 2880, cy: 1800 },
        Size { cx: 2560, cy: 1600 },
        Size { cx: 1920, cy: 1200 },
        Size { cx: 1680, cy: 1050 },
        Size { cx: 1440, cy: 900 },
        Size { cx: 1280, cy: 800 },
        Size { cx: 960, cy: 600 },
        Size { cx: 800, cy: 500 },
        Size { cx: 640, cy: 400 },
        Size { cx: 480, cy: 300 },
    ]
}

/// The groups of resolutions, each with the name of its aspect ratio.
pub open spec fn spec_resolution_groups() -> Seq<(Seq<char>, Seq<Size>)> {
    seq![("16:10"@, spec_resolutions_16_10())]
}

/// `w` reinterpreted as an `i32` (Rust's `w as i32` on a `u32`).
pub open spec fn wrap_i32(w: int) -> int {
    if w <= i32::MAX {
        w
    } else {
        w - 0x1_0000_0000
    }
}

/// Whether some group lists a resolution whose width and height equal
/// `width` and `height` taken as `i32`.
pub open spec fn known_resolution(width: u32, height: u32) -> bool {
    let groups = spec_resolution_groups();
    exists|g: int, i: int|
        #![trigger groups[g].1[i]]
        0 <= g < groups.len() && 0 <= i < groups[g].1.len() && groups[g].1[i].cx == wrap_i32(
            width as int,
        ) && groups[g].1[i].cy == wrap_i32(height as int)
}

/// Returns the 16:10 resolutions, largest first.
pub fn resolutions_16_10() -> (v: Vec<Size>)
    ensures
        v@ == spec_resolutions_16_10(),
{
    vec![
        Size { cx: 3840, cy: 2400 },
        Size { cx: 2880, cy: 1800 },
        Size { cx: 2560, cy: 1600 },
        Size { cx: 1920, cy: 1200 },
        Size { cx: 1680, cy: 1050 },
        Size { cx: 1440, cy: 900 },
        Size { cx: 1280, cy: 800 },
        Size { cx: 960, cy: 600 },
        Size { cx: 800, cy: 500 },
        Size { cx: 640, cy: 400 },
        Size { cx: 480, cy: 300 },
    ]
}

/// Returns the groups of resolutions, each with the name of its aspect ratio.
pub fn resolution_groups() -> (groups: Vec<(&'static str, Vec<Size>)>)
    ensures
        groups.len() == spec_resolution_groups().len(),
        forall|g: int|
            0 <= g < groups.len() ==> (#[trigger] groups[g]).0@ == spec_resolution_groups()[g].0
                && groups[g].1@ == spec_resolution_groups()[g].1,
{
    let name: &'static str = "16:10";
    let mut groups: Vec<(&'static str, Vec<Size>)> = Vec::new();
    groups.push((name, resolutions_16_10()));
    groups
}

/// Whether `width` by `height` is one of the listed resolutions.
pub fn is_known_resolution(width: u32, height: u32) -> (known: bool)
    ensures
        known == known_resolution(width, height),
{
    let w: i32 = #[verifier::truncate] (width as i32);
    let h: i32 = #[verifier::truncate] (height as i32);
    assert(width <= 0x7fff_ffff ==> width as i32 == width) by (bit_vector);
    assert(width > 0x7fff_ffff ==> width as i32 == width - 0x1_0000_0000) by (bit_vector);
    assert(height <= 0x7fff_ffff ==> height as i32 == height) by (bit_vector);
    assert(height > 0x7fff_ffff ==> height as i32 == height - 0x1_0000_0000) by (bit_vector);
    let groups = resolution_groups();
    let ghost spec_groups = spec_resolution_groups();
    let mut g: usize = 0;
    while g < groups.len()
        invariant
            w == wrap_i32(width as int),
            h == wrap_i32(height as int),
            g <= groups.len(),
            groups.len() == spec_groups.len(),
            spec_groups == spec_resolution_groups(),
            forall|k: int|
                0 <= k < groups.len() ==> (#[trigger] groups[k]).1@ == spec_groups[k].1,
            forall|k: int, i: int|
                #![trigger spec_groups[k].1[i]]
                0 <= k < g && 0 <= i < spec_groups[k].1.len() ==> !(spec_groups[k].1[i].cx == w
                    && spec_groups[k].1[i].cy == h),
        decreases groups.len() - g,
    {
        let sizes = &groups[g].1;
        assert(sizes@ == spec_groups[g as int].1);
        let mut i: usize = 0;
        while i < sizes.len()
            invariant
                i <= sizes.len(),
                g < spec_groups.len(),
                w == wrap_i32(width as int),
                h == wrap_i32(height as int),
                spec_groups == spec_resolution_groups(),
                sizes@ == spec_groups[g as int].1,
                forall|j: int|
                    #![trigger spec_groups[g as int].1[j]]
                    0 <= j < i ==> !(spec_groups[g as int].1[j].cx == w
                        && spec_groups[g as int].1[j].cy == h),
            decreases sizes.len() - i,
        {
            let item = sizes[i];
            if item.cx == w && item.cy == h {
                assert(spec_groups[g as int].1[i as int] == item);
                assert(spec_resolution_groups()[g as int].1[i as int] == item);
                return true;
            }
            i = i + 1;
        }
        g = g + 1;
    }
    false
}

/// The listed sizes are exactly these eleven: `is_known_resolution` accepts
/// a width and a height if and only if they are one of them.
pub proof fn lemma_known_resolutions_are_the_table(width: u32, height: u32)
    ensures
        known_resolution(width, height) <==> (
        (width == 3840 && height == 2400)
        || (width == 2880 && height == 1800)
        || (width == 2560 && height == 1600)
        || (width == 1920 && height == 1200)
        || (width == 1680 && height == 1050)
        || (width == 1440 && height == 900)
        || (width == 1280 && height == 800)
        || (width == 960 && height == 600)
        || (width == 800 && height == 500)
        || (width == 640 && height == 400)
        || (width == 480 && height == 300)),
{
    let groups = spec_resolution_groups();
    let t = spec_resolutions_16_10();
    assert(groups[0].1 == t);
    assert(t.len() == 11);
    if known_resolution(width, height) {
        let (g, i) = choose|g: int, i: int|
            #![trigger groups[g].1[i]]
            0 <= g < groups.len() && 0 <= i < groups[g].1.len() && groups[g].1[i].cx == wrap_i32(
                width as int,
            ) && groups[g].1[i].cy == wrap_i32(height as int);
        assert(g == 0);
        assert(t[i].cx > 0 && t[i].cy > 0);
        assert(t[i].cx == width && t[i].cy == height);
        assert(0 <= i < 11);
        if i == 0 {
        } else if i == 1 {
        } else if i == 2 {
        } else if i == 3 {
        } else if i == 4 {
        } else if i == 5 {
        } else if i == 6 {
        } else if i == 7 {
        } else if i == 8 {
        } else if i == 9 {
        } else {
        }
    } else {
        assert(!(groups[0].1[0].cx == wrap_i32(width as int) && groups[0].1[0].cy == wrap_i32(height as int)));
        assert(!(groups[0].1[1].cx == wrap_i32(width as int) && groups[0].1[1].cy == wrap_i32(height as int)));
        assert(!(groups[0].1[2].cx == wrap_i32(width as int) && groups[0].1[2].cy == wrap_i32(height as int)));
        assert(!(groups[0].1[3].cx == wrap_i32(width as int) && groups[0].1[3].cy == wrap_i32(height as int)));
        assert(!(groups[0].1[4].cx == wrap_i32(width as int) && groups[0].1[4].cy == wrap_i32(height as int)));
        assert(!(groups[0].1[5].cx == wrap_i32(width as int) && groups[0].1[5].cy == wrap_i32(height as int)));
        assert(!(groups[0].1[6].cx == wrap_i32(width as int) && groups[0].1[6].cy == wrap_i32(height as int)));
        assert(!(groups[0].1[7].cx == wrap_i32(width as int) && groups[0].1[7].cy == wrap_i32(height as int)));
        assert(!(groups[0].1[8].cx == wrap_i32(width as int) && groups[0].1[8].cy == wrap_i32(height as int)));
        assert(!(groups[0].1[9].cx == wrap_i32(width as int) && groups[0].1[9].cy == wrap_i32(height as int)));
        assert(!(groups[0].1[10].cx == wrap_i32(width as int) && groups[0].1[10].cy == wrap_i32(height as int)));
    }
}

/// `wrap_i32` is `as i32` on a `u32`: the `i32` congruent to the value
/// modulo 2^32.
pub proof fn lemma_wrap_i32_is_cast(w: u32)
    ensures
        i32::MIN <= wrap_i32(w as int) <= i32::MAX,
        (wrap_i32(w as int) - w) % 0x1_0000_0000 == 0,
{
}

/// The resolutions are offered in one group, named `16:10`.
pub proof fn lemma_groups_named()
    ensures
        spec_resolution_groups().len() == 1,
        spec_resolution_groups()[0].0 =~= seq!['1', '6', ':', '1', '0'],
{
    reveal_strlit("16:10");
}

/// Every listed resolution has the aspect ratio 16:10, and the list runs
/// from the largest resolution to the smallest.
pub proof fn lemma_resolutions_16_10_ordered()
    ensures
        forall|i: int|
            0 <= i < spec_resolutions_16_10().len() ==> #[trigger] spec_resolutions_16_10()[i].cx
                * 10 == spec_resolutions_16_10()[i].cy * 16,
        forall|i: int, j: int|
            0 <= i < j < spec_resolutions_16_10().len() ==> #[trigger] spec_resolutions_16_10()[j].cx
                < #[trigger] spec_resolutions_16_10()[i].cx && spec_resolutions_16_10()[j].cy
                < spec_resolutions_16_10()[i].cy,
{
}

/// A size that `is_known_resolution` accepts is one of the listed sizes, so
/// its width and height stand in the ratio 16:10.
pub proof fn lemma_known_resolution_is_16_10(width: u32, height: u32)
    requires
        known_resolution(width, height),
    ensures
        width * 10 == height * 16,
        exists|i: int|
            0 <= i < spec_resolutions_16_10().len() && #[trigger] spec_resolutions_16_10()[i]
                == (Size { cx: width as i32, cy: height as i32 }),
{
    lemma_resolutions_16_10_ordered();
    let groups = spec_resolution_groups();
    let (g, i) = choose|g: int, i: int|
        #![trigger groups[g].1[i]]
        0 <= g < groups.len() && 0 <= i < groups[g].1.len() && groups[g].1[i].cx == wrap_i32(
            width as int,
        ) && groups[g].1[i].cy == wrap_i32(height as int);
    assert(g == 0);
    assert(spec_resolutions_16_10()[i].cx > 0);
    assert(spec_resolutions_16_10()[i] == (Size { cx: width as i32, cy: height as i32 }));
}

} // verus!
