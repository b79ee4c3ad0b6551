//! The frame source: the fixed, ordered list of input image paths the
//! producer cycles through, and the cycling itself. Decoding an image at a
//! path is the integrating application's black-box job; this module only
//! supplies the deterministic ordering and looping.
use vstd::prelude::*;
use vstd::string::StringExecFns;

verus! {

/// How many input images the fixed sequence holds.
pub const SEQUENCE_LEN: u32 = 4989;

/// The character for one decimal digit.
pub open spec fn digit_char(d: int) -> char {
    if d == 0 {
        '0'
    } else if d == 1 {
        '1'
    } else if d == 2 {
        '2'
    } else if d == 3 {
        '3'
    } else if d == 4 {
        '4'
    } else if d == 5 {
        '5'
    } else if d == 6 {
        '6'
    } else if d == 7 {
        '7'
    } else if d == 8 {
        '8'
    } else {
        '9'
    }
}

/// The decimal digits of `n` as characters, most significant first.
pub open spec fn dec_chars(n: int) -> Seq<char>
    decreases n,
{
    if n < 10 {
        seq![digit_char(n)]
    } else {
        dec_chars(n / 10).push(digit_char(n % 10))
    }
}

/// The path of input image `i`, one-based: `target/images/<i>.jpeg`.
pub open spec fn path_chars(i: int) -> Seq<char> {
    "target/images/"@ + dec_chars(i) + ".jpeg"@
}

/// One decimal digit as a string slice.
fn digit_str(d: u32) -> (s: &'static str)
    requires
        d < 10,
    ensures
        s@ == seq![digit_char(d as int)],
{
    proof {
        reveal_strlit("0");
        reveal_strlit("1");
        reveal_strlit("2");
        reveal_strlit("3");
        reveal_strlit("4");
        reveal_strlit("5");
        reveal_strlit("6");
        reveal_strlit("7");
        reveal_strlit("8");
        reveal_strlit("9");
    }
    if d == 0 {
        "0"
    } else if d == 1 {
        "1"
    } else if d == 2 {
        "2"
    } else if d == 3 {
        "3"
    } else if d == 4 {
        "4"
    } else if d == 5 {
        "5"
    } else if d == 6 {
        "6"
    } else if d == 7 {
        "7"
    } else if d == 8 {
        "8"
    } else {
        "9"
    }
}

/// Appends the decimal digits of `n`.
fn append_dec(s: &mut String, n: u32)
    ensures
        final(s)@ == old(s)@ + dec_chars(n as int),
    decreases n,
{
    if n < 10 {
        s.append(digit_str(n));
        proof {
            assert(old(s)@ + seq![digit_char(n as int)] =~= old(s)@ + dec_chars(n as int));
        }
    } else {
        append_dec(s, n / 10);
        s.append(digit_str(n % 10));
        proof {
            assert(old(s)@ + dec_chars(n as int / 10) + seq![digit_char(n as int % 10)] =~= old(
                s,
            )@ + dec_chars(n as int));
        }
    }
}

/// The path of input image `i`.
pub fn path_for(i: u32) -> (s: String)
    ensures
        s@ == path_chars(i as int),
{
    let mut s = String::from_str("target/images/");
    append_dec(&mut s, i);
    s.append(".jpeg");
    s
}

/// The fixed ordered list of input image paths, one-based as the inputs on
/// disk are: entry `i` is the path of image `i + 1`.
pub fn get_path() -> (paths: Vec<String>)
    ensures
        paths@.len() == SEQUENCE_LEN,
        forall|i: int| 0 <= i < paths@.len() ==> (#[trigger] paths@[i])@ == path_chars(i + 1),
{
    image_paths(SEQUENCE_LEN)
}

/// The first `count` input image paths, in order.
pub fn image_paths(count: u32) -> (paths: Vec<String>)
    ensures
        paths@.len() == count,
        forall|i: int| 0 <= i < count ==> (#[trigger] paths@[i])@ == path_chars(i + 1),
{
    let mut paths: Vec<String> = Vec::new();
    let mut i: u32 = 0;
    while i < count
        invariant
            i <= count,
            paths@.len() == i,
            forall|j: int| 0 <= j < i ==> (#[trigger] paths@[j])@ == path_chars(j + 1),
        decreases count - i,
    {
        paths.push(path_for(i + 1));
        i = i + 1;
    }
    paths
}

/// The next position in the repeating input sequence: advance by one, back
/// to the start after the last input.
pub fn next_frame_index(i: usize, len: usize) -> (next: usize)
    requires
        len > 0,
        i < len,
    ensures
        next == (i + 1) % (len as int),
        next < len,
        i + 1 < len ==> next == i + 1,
        i + 1 == len ==> next == 0,
{
    if i + 1 == len {
        proof {
            assert((len as int) % (len as int) == 0) by (nonlinear_arith)
                requires
                    len >= 1,
            ;
        }
        0
    } else {
        proof {
            let v = i as int + 1;
            assert(v % (len as int) == v) by (nonlinear_arith)
                requires
                    0 <= v && v < len as int,
            ;
        }
        i + 1
    }
}

} // verus!
