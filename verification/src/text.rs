//! The texts that the window list shows: numbers in decimal, size keys and
//! captions, and the fallbacks for unknown values.

use vstd::prelude::*;

use crate::resolution::{is_known_resolution, known_resolution};

verus! {

/// The decimal digit for `d`, which lies in `0..10`.
pub open spec fn digit(d: int) -> char {
    if d == 0 {
        '0'
    } else if d == 1 {
        '1'
    } else if d == 2 {
        '2'
    } else if d == 3 {
        '3'
    } else if d == 4 {
        '4'
    } else if d == 5 {
        '5'
    } else if d == 6 {
        '6'
    } else if d == 7 {
        '7'
    } else if d == 8 {
        '8'
    } else {
        '9'
    }
}

pub open spec fn is_digit(c: char) -> bool {
    '0' <= c <= '9'
}

/// The decimal digits of `n`, most significant first, without leading zeros.
pub open spec fn decimal(n: nat) -> Seq<char>
    decreases n,
{
    if n < 10 {
        seq![digit(n as int)]
    } else {
        decimal(n / 10).push(digit((n % 10) as int))
    }
}

/// `v` in decimal, with a leading `-` when it is negative (as `Display`
/// writes an integer).
pub open spec fn int_text(v: int) -> Seq<char> {
    if v < 0 {
        seq!['-'] + decimal((-v) as nat)
    } else {
        decimal(v as nat)
    }
}

/// The key under which a size is selected in the list: `"{cx}x{cy}"`.
pub open spec fn size_key_text(cx: int, cy: int) -> Seq<char> {
    int_text(cx) + seq!['x'] + int_text(cy)
}

/// The caption of a resolution in the list: `"{cx}×{cy}"`.
pub open spec fn caption_text(cx: int, cy: int) -> Seq<char> {
    int_text(cx) + seq!['\u{00d7}'] + int_text(cy)
}

/// The text that shows a window's client size: its size key behind a check
/// mark when the size is one of the listed resolutions and behind a dot
/// otherwise, or a note that the size is unknown when it is zero by zero.
pub open spec fn size_selection_text(width: u32, height: u32) -> Seq<char> {
    if width == 0 && height == 0 {
        "<unknown size>"@
    } else {
        seq![if known_resolution(width, height) { '\u{2705}' } else { '\u{26ab}' }, ' ']
            + size_key_text(width as int, height as int)
    }
}

/// Appends the digit `d` to `s`.
fn push_digit(s: &mut String, d: u32)
    requires
        d < 10,
    ensures
        final(s)@ == old(s)@.push(digit(d as int)),
{
    if d == 0 {
        proof {
            reveal_strlit("0");
        }
        s.append("0");
    } else if d == 1 {
        proof {
            reveal_strlit("1");
        }
        s.append("1");
    } else if d == 2 {
        proof {
            reveal_strlit("2");
        }
        s.append("2");
    } else if d == 3 {
        proof {
            reveal_strlit("3");
        }
        s.append("3");
    } else if d == 4 {
        proof {
            reveal_strlit("4");
        }
        s.append("4");
    } else if d == 5 {
        proof {
            reveal_strlit("5");
        }
        s.append("5");
    } else if d == 6 {
        proof {
            reveal_strlit("6");
        }
        s.append("6");
    } else if d == 7 {
        proof {
            reveal_strlit("7");
        }
        s.append("7");
    } else if d == 8 {
        proof {
            reveal_strlit("8");
        }
        s.append("8");
    } else {
        proof {
            reveal_strlit("9");
        }
        s.append("9");
    }
}

/// Appends the decimal digits of `n` to `s`.
fn push_decimal(s: &mut String, n: u32)
    ensures
        final(s)@ == old(s)@ + decimal(n as nat),
    decreases n,
{
    if n >= 10 {
        push_decimal(s, n / 10);
    }
    push_digit(s, n % 10);
}

/// Appends `v` in decimal to `s`, with a leading `-` when it is negative.
fn push_int(s: &mut String, v: i32)
    ensures
        final(s)@ == old(s)@ + int_text(v as int),
{
    if v < 0 {
        proof {
            reveal_strlit("-");
        }
        s.append("-");
        let magnitude: u32 = (-(v as i64)) as u32;
        push_decimal(s, magnitude);
    } else {
        push_decimal(s, v as u32);
    }
}

/// Returns `n` in decimal.
pub fn decimal_text(n: u32) -> (text: String)
    ensures
        text@ == decimal(n as nat),
{
    let mut s = String::new();
    push_decimal(&mut s, n);
    s
}

/// Returns the key under which the resolution `cx` by `cy` is selected:
/// `"{cx}x{cy}"`.
pub fn size_key(cx: i32, cy: i32) -> (key: String)
    ensures
        key@ == size_key_text(cx as int, cy as int),
{
    let mut s = String::new();
    push_int(&mut s, cx);
    proof {
        reveal_strlit("x");
    }
    s.append("x");
    push_int(&mut s, cy);
    s
}

/// Returns the key of a client area of `width` by `height`:
/// `"{width}x{height}"`.
pub fn client_size_key(width: u32, height: u32) -> (key: String)
    ensures
        key@ == size_key_text(width as int, height as int),
{
    let mut s = String::new();
    push_decimal(&mut s, width);
    proof {
        reveal_strlit("x");
    }
    s.append("x");
    push_decimal(&mut s, height);
    s
}

/// Returns the caption of the resolution `cx` by `cy`: `"{cx}×{cy}"`.
pub fn resolution_caption(cx: i32, cy: i32) -> (caption: String)
    ensures
        caption@ == caption_text(cx as int, cy as int),
{
    let mut s = String::new();
    push_int(&mut s, cx);
    proof {
        reveal_strlit("\u{00d7}");
    }
    s.append("\u{00d7}");
    push_int(&mut s, cy);
    s
}

/// Returns the text that shows a client area of `width` by `height`: a check
/// mark for a listed resolution or a dot for another, a space, and the size
/// key; or `"<unknown size>"` for a size of zero by zero.
pub fn size_selection(width: u32, height: u32) -> (text: String)
    ensures
        text@ == size_selection_text(width, height),
{
    if width == 0 && height == 0 {
        proof {
            reveal_strlit("<unknown size>");
        }
        return String::from_str("<unknown size>");
    }
    let mut s = String::new();
    if is_known_resolution(width, height) {
        proof {
            reveal_strlit("\u{2705}");
        }
        s.append("\u{2705}");
    } else {
        proof {
            reveal_strlit("\u{26ab}");
        }
        s.append("\u{26ab}");
    }
    proof {
        reveal_strlit(" ");
    }
    s.append(" ");
    let key = client_size_key(width, height);
    s.append(key.as_str());
    proof {
        assert(s@ == seq![if known_resolution(width, height) { '\u{2705}' } else { '\u{26ab}' }, ' ']
            + size_key_text(width as int, height as int));
    }
    s
}

/// Returns the heading of a group of resolutions: `"-{name}-  "`.
pub fn group_heading(name: &str) -> (heading: String)
    ensures
        heading@ == seq!['-'] + name@ + seq!['-', ' ', ' '],
{
    let mut s = String::new();
    proof {
        reveal_strlit("-");
        reveal_strlit("-  ");
    }
    s.append("-");
    s.append(name);
    s.append("-  ");
    s
}

/// The label of a window that stands centered: a check mark and
/// `"centered"`.
pub fn centered_label() -> (label: &'static str)
    ensures
        label@ == seq!['\u{2705}'] + "centered"@,
{
    proof {
        reveal_strlit("\u{2705}centered");
        reveal_strlit("centered");
    }
    "\u{2705}centered"
}

/// The mark in front of a window's title.
pub fn window_mark() -> (mark: &'static str)
    ensures
        mark@ == seq!['\u{1f5d6}'],
{
    proof {
        reveal_strlit("\u{1f5d6}");
    }
    "\u{1f5d6}"
}

/// The name under which a group of windows is shown: `name`, or
/// `"<unknown>"` when there is none.
pub fn display_name_or_unknown<'a>(name: Option<&'a str>) -> (shown: &'a str)
    ensures
        shown@ == match name {
            Some(n) => n@,
            None => "<unknown>"@,
        },
{
    match name {
        Some(n) => n,
        None => "<unknown>",
    }
}

/// The path under which a group of windows is shown: `path`, or
/// `"<unknown path>"` when there is none.
pub fn display_path_or_unknown<'a>(path: Option<&'a str>) -> (shown: &'a str)
    ensures
        shown@ == match path {
            Some(p) => p@,
            None => "<unknown path>"@,
        },
{
    match path {
        Some(p) => p,
        None => "<unknown path>",
    }
}

proof fn lemma_digit(d: int)
    requires
        0 <= d < 10,
    ensures
        is_digit(digit(d)),
        forall|e: int| 0 <= e < 10 && #[trigger] digit(e) == digit(d) ==> e == d,
{
}

proof fn lemma_decimal_digits(n: nat)
    ensures
        decimal(n).len() >= 1,
        n >= 10 ==> decimal(n).len() >= 2,
        forall|i: int| 0 <= i < decimal(n).len() ==> is_digit(#[trigger] decimal(n)[i]),
    decreases n,
{
    lemma_digit((n % 10) as int);
    if n >= 10 {
        lemma_decimal_digits(n / 10);
        assert forall|i: int| 0 <= i < decimal(n).len() implies is_digit(
            #[trigger] decimal(n)[i],
        ) by {
            if i < decimal(n / 10).len() {
                assert(decimal(n)[i] == decimal(n / 10)[i]);
            }
        }
    }
}

/// The number that a string of decimal digits denotes, read most
/// significant digit first.
pub open spec fn digits_value(s: Seq<char>) -> int
    decreases s.len(),
{
    if s.len() == 0 {
        0
    } else {
        digits_value(s.drop_last()) * 10 + (s.last() as int - '0' as int)
    }
}

proof fn lemma_digit_value(d: int)
    requires
        0 <= d < 10,
    ensures
        digit(d) as int - '0' as int == d,
{
}

/// `decimal(n)` is the decimal notation of `n`: digits only, read back as
/// `n`, with no leading zero.
pub proof fn lemma_decimal_reads_back(n: nat)
    ensures
        decimal(n).len() >= 1,
        forall|i: int| 0 <= i < decimal(n).len() ==> is_digit(#[trigger] decimal(n)[i]),
        digits_value(decimal(n)) == n,
        decimal(n)[0] == '0' ==> n == 0,
    decreases n,
{
    lemma_decimal_digits(n);
    lemma_digit_value((n % 10) as int);
    if n >= 10 {
        lemma_decimal_reads_back(n / 10);
        assert(decimal(n).drop_last() =~= decimal(n / 10));
        assert(decimal(n)[0] == decimal(n / 10)[0]);
        assert(decimal(n).last() == digit((n % 10) as int));
        assert(digits_value(decimal(n)) == digits_value(decimal(n / 10)) * 10 + (n % 10));
        assert((n / 10) * 10 + n % 10 == n) by (nonlinear_arith);
    } else {
        assert(decimal(n).drop_last() =~= Seq::<char>::empty());
        lemma_digit_value(n as int);
        assert(digits_value(Seq::<char>::empty()) == 0);
        assert(decimal(n).last() == digit(n as int));
        assert(digits_value(decimal(n)) == digits_value(decimal(n).drop_last()) * 10 + (
        digit(n as int) as int - '0' as int));
    }
}

/// `int_text(v)` is the notation that `Display` gives an integer: the
/// decimal notation of `v` when it is not negative, and `-` followed by the
/// decimal notation of `-v` when it is.
pub proof fn lemma_int_text_reads_back(v: int)
    ensures
        v >= 0 ==> digits_value(int_text(v)) == v && (forall|i: int|
            0 <= i < int_text(v).len() ==> is_digit(#[trigger] int_text(v)[i])) && (int_text(v)[0]
            == '0' ==> v == 0),
        v < 0 ==> int_text(v)[0] == '-' && digits_value(int_text(v).drop_first()) == -v && (forall|
            i: int,
        | 0 < i < int_text(v).len() ==> is_digit(#[trigger] int_text(v)[i])) && int_text(v)[1]
            != '0',
{
    if v >= 0 {
        lemma_decimal_reads_back(v as nat);
    } else {
        lemma_decimal_reads_back((-v) as nat);
        assert(int_text(v).drop_first() =~= decimal((-v) as nat));
        assert forall|i: int| 0 < i < int_text(v).len() implies is_digit(#[trigger] int_text(v)[i]) by {
            assert(int_text(v)[i] == decimal((-v) as nat)[i - 1]);
        }
        assert(int_text(v)[1] == decimal((-v) as nat)[0]);
    }
}

proof fn lemma_int_text_has_no_letters(v: int)
    ensures
        forall|i: int|
            0 <= i < int_text(v).len() ==> #[trigger] int_text(v)[i] != 'x' && int_text(v)[i]
                != '\u{00d7}',
{
    lemma_int_text(v);
}

/// A size key is the text of the width, an `x`, and the text of the height:
/// the text before the `x` reads back as the width and the text after it as
/// the height.
pub proof fn lemma_size_key_parts(cx: int, cy: int)
    ensures
        ({
            let key = size_key_text(cx, cy);
            let k = int_text(cx).len() as int;
            &&& key[k] == 'x'
            &&& key.subrange(0, k) == int_text(cx)
            &&& key.subrange(k + 1, key.len() as int) == int_text(cy)
            &&& forall|i: int| 0 <= i < k ==> #[trigger] key[i] != 'x'
        }),
{
    let key = size_key_text(cx, cy);
    let k = int_text(cx).len() as int;
    lemma_int_text_has_no_letters(cx);
    assert(key.subrange(0, k) =~= int_text(cx));
    assert(key.subrange(k + 1, key.len() as int) =~= int_text(cy));
    assert forall|i: int| 0 <= i < k implies #[trigger] key[i] != 'x' by {
        assert(key[i] == int_text(cx)[i]);
    }
}

/// A resolution's caption is its size key with the `x` replaced by `×`:
/// the width's text, `×`, then the height's text.
pub proof fn lemma_caption_parts(cx: int, cy: int)
    ensures
        ({
            let caption = caption_text(cx, cy);
            let k = int_text(cx).len() as int;
            &&& caption[k] == '\u{00d7}'
            &&& caption.subrange(0, k) == int_text(cx)
            &&& caption.subrange(k + 1, caption.len() as int) == int_text(cy)
            &&& forall|i: int| 0 <= i < k ==> #[trigger] caption[i] != '\u{00d7}'
            &&& caption == size_key_text(cx, cy).update(k, '\u{00d7}')
        }),
{
    let caption = caption_text(cx, cy);
    let k = int_text(cx).len() as int;
    lemma_int_text_has_no_letters(cx);
    assert(caption.subrange(0, k) =~= int_text(cx));
    assert(caption.subrange(k + 1, caption.len() as int) =~= int_text(cy));
    assert forall|i: int| 0 <= i < k implies #[trigger] caption[i] != '\u{00d7}' by {
        assert(caption[i] == int_text(cx)[i]);
    }
    assert(caption =~= size_key_text(cx, cy).update(k, '\u{00d7}'));
}

/// The size picker's text: for a size of zero by zero, `<unknown size>`;
/// for any other size, a check mark exactly when `is_known_resolution`
/// accepts that width and height (a dot otherwise), a space, and the size
/// key of that width and height.
pub proof fn lemma_size_selection_marks(width: u32, height: u32)
    ensures
        width == 0 && height == 0 ==> size_selection_text(width, height) =~= seq![
            '<', 'u', 'n', 'k', 'n', 'o', 'w', 'n', ' ', 's', 'i', 'z', 'e', '>'
        ],
        !(width == 0 && height == 0) ==> {
            let text = size_selection_text(width, height);
            &&& (text[0] == '\u{2705}' <==> known_resolution(width, height))
            &&& (text[0] == '\u{26ab}' <==> !known_resolution(width, height))
            &&& text[1] == ' '
            &&& text.subrange(2, text.len() as int) == size_key_text(width as int, height as int)
        },
{
    reveal_strlit("<unknown size>");
    if !(width == 0 && height == 0) {
        let text = size_selection_text(width, height);
        assert(text.subrange(2, text.len() as int) =~= size_key_text(width as int, height as int));
    }
}

/// Distinct numbers have distinct decimal texts.
pub proof fn lemma_decimal_injective(n: nat, m: nat)
    requires
        decimal(n) == decimal(m),
    ensures
        n == m,
    decreases n,
{
    lemma_decimal_digits(n);
    lemma_decimal_digits(m);
    lemma_digit((n % 10) as int);
    lemma_digit((m % 10) as int);
    if n >= 10 && m >= 10 {
        let a = decimal(n);
        assert(a.last() == digit((n % 10) as int));
        assert(decimal(m).last() == digit((m % 10) as int));
        assert(a.drop_last() =~= decimal(n / 10));
        assert(decimal(m).drop_last() =~= decimal(m / 10));
        lemma_decimal_injective(n / 10, m / 10);
    } else if n < 10 && m < 10 {
        assert(decimal(n)[0] == digit(n as int));
        assert(decimal(m)[0] == digit(m as int));
    }
}

proof fn lemma_int_text(v: int)
    ensures
        int_text(v).len() >= 1,
        forall|i: int|
            0 <= i < int_text(v).len() ==> is_digit(#[trigger] int_text(v)[i]) || int_text(v)[i]
                == '-',
        v >= 0 ==> is_digit(int_text(v)[0]),
        v < 0 ==> int_text(v)[0] == '-',
{
    if v < 0 {
        lemma_decimal_digits((-v) as nat);
        assert forall|i: int| 0 <= i < int_text(v).len() implies is_digit(
            #[trigger] int_text(v)[i],
        ) || int_text(v)[i] == '-' by {
            if i > 0 {
                assert(int_text(v)[i] == decimal((-v) as nat)[i - 1]);
            }
        }
    } else {
        lemma_decimal_digits(v as nat);
    }
}

/// Distinct integers have distinct texts.
pub proof fn lemma_int_text_injective(v: int, w: int)
    requires
        int_text(v) == int_text(w),
    ensures
        v == w,
{
    lemma_int_text(v);
    lemma_int_text(w);
    if v < 0 && w < 0 {
        assert(int_text(v).drop_first() =~= decimal((-v) as nat));
        assert(int_text(w).drop_first() =~= decimal((-w) as nat));
        lemma_decimal_injective((-v) as nat, (-w) as nat);
    } else if v >= 0 && w >= 0 {
        lemma_decimal_injective(v as nat, w as nat);
    } else {
        assert(int_text(v)[0] != int_text(w)[0]);
    }
}

/// Two size keys are the same text exactly when they name the same size, so
/// the list selects a resolution exactly when it is the window's size.
pub proof fn lemma_size_key_injective(cx: int, cy: int, dx: int, dy: int)
    ensures
        size_key_text(cx, cy) == size_key_text(dx, dy) <==> cx == dx && cy == dy,
{
    if size_key_text(cx, cy) == size_key_text(dx, dy) {
        let a = int_text(cx);
        let c = int_text(dx);
        let k = size_key_text(cx, cy);
        lemma_int_text(cx);
        lemma_int_text(dx);
        assert(k[a.len() as int] == 'x');
        assert(size_key_text(dx, dy)[c.len() as int] == 'x');
        if a.len() < c.len() {
            assert(k[a.len() as int] == c[a.len() as int]);
            assert(false);
        } else if c.len() < a.len() {
            assert(k[c.len() as int] == a[c.len() as int]);
            assert(false);
        }
        assert(a =~= k.subrange(0, a.len() as int));
        assert(c =~= size_key_text(dx, dy).subrange(0, c.len() as int));
        lemma_int_text_injective(cx, dx);
        assert(int_text(cy) =~= k.subrange(a.len() as int + 1, k.len() as int));
        assert(int_text(dy) =~= size_key_text(dx, dy).subrange(c.len() as int + 1, k.len() as int));
        lemma_int_text_injective(cy, dy);
    }
}

} // verus!
