use vstd::prelude::*;

verus! {

/// The kerning of one glyph in the bitmap font: the space removed before
/// and after it, in pixels.
pub open spec fn spec_kerning(c: char) -> (int, int) {
    if c == 'i' {
        (-2, -2)
    } else if c == 'l' {
        (-2, -1)
    } else if c == 't' {
        (-2, -1)
    } else if c == 'f' {
        (0, -1)
    } else if c == 'a' {
        (-1, 0)
    } else if c == 'c' {
        (-1, -1)
    } else if c == 'o' {
        (-1, -1)
    } else if c == 'p' {
        (-1, 0)
    } else if c == ' ' {
        (-2, -2)
    } else if c == 'I' {
        (-1, -2)
    } else {
        (0, 0)
    }
}

fn kerning(c: char) -> (k: (isize, isize))
    ensures
        k.0 == spec_kerning(c).0,
        k.1 == spec_kerning(c).1,
{
    match c {
        'i' => (-2, -2),
        'l' => (-2, -1),
        't' => (-2, -1),
        'f' => (0, -1),
        'a' => (-1, 0),
        'c' => (-1, -1),
        'o' => (-1, -1),
        'p' => (-1, 0),
        ' ' => (-2, -2),
        'I' => (-1, -2),
        _ => (0, 0),
    }
}

/// The rendered width of the first `n` characters: eight pixels per glyph,
/// less its kerning.
pub open spec fn spec_text_length(s: Seq<char>, n: int) -> int
    decreases n,
{
    if n <= 0 {
        0
    } else {
        spec_text_length(s, n - 1) + spec_kerning(s[n - 1]).0 + spec_kerning(s[n - 1]).1 + 8
    }
}

/// The rendered width of a text in pixels: eight per glyph, adjusted by each
/// glyph's kerning. Each glyph contributes between four and eight pixels.
pub fn text_length(text: &str) -> (l: isize)
    requires
        text@.len() * 8 <= isize::MAX,
    ensures
        l == spec_text_length(text@, text@.len() as int),
        0 <= l <= text@.len() * 8,
{
    let n: usize = text.unicode_len();
    let mut l: isize = 0;
    let mut i: usize = 0;
    while i < n
        invariant
            0 <= i <= n,
            n == text@.len(),
            n * 8 <= isize::MAX,
            l == spec_text_length(text@, i as int),
            0 <= l <= i * 8,
        decreases n - i,
    {
        let c: char = text.get_char(i);
        let k: (isize, isize) = kerning(c);
        l = l + (k.0 + k.1) + 8;
        i = i + 1;
    }
    l
}

} // verus!
