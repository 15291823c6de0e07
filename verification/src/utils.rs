//! Small utilities: parsing comma-separated whole numbers and converting a
//! color channel to an 8-bit value.
use vstd::prelude::*;
use crate::fx::SCALE;

verus! {

pub open spec fn is_digit_s(c: char) -> bool {
    48 <= c as u32 <= 57
}

pub open spec fn digit_val_s(c: char) -> int {
    c as u32 - 48
}

/// State-machine parse of a `", "`-separated list of decimal numbers, from
/// position `i` with the digits read so far in `acc`. `None` on any stray
/// character, an empty segment, or a value beyond `bound`.
pub open spec fn parse_num_list_s(s: Seq<char>, i: int, acc: int, have: bool, out: Seq<int>, bound: int) -> Option<Seq<int>>
    decreases s.len() - i + 1,
{
    if i < 0 || i > s.len() {
        None
    } else if i == s.len() {
        if have { Some(out.push(acc)) } else { None }
    } else if is_digit_s(s[i]) {
        let v = acc * 10 + digit_val_s(s[i]);
        if v > bound { None } else { parse_num_list_s(s, i + 1, v, true, out, bound) }
    } else if s[i] == ',' && have && i + 2 <= s.len() && s[i + 1] == ' ' {
        parse_num_list_s(s, i + 2, 0, false, out.push(acc), bound)
    } else {
        None
    }
}

/// The values of a comma-space separated list of decimal numbers, each at
/// most `bound`, or `None` where the text is not such a list.
pub open spec fn parse_values_s(s: Seq<char>, bound: int) -> Option<Seq<int>> {
    parse_num_list_s(s, 0, 0, false, Seq::empty(), bound)
}

/// Parse `", "`-separated decimal numbers as `u64` values.
pub fn parse_values_u64(input: &String) -> (r: Vec<u64>)
    requires
        parse_values_s(input@, u64::MAX as int) is Some,
    ensures
        parse_values_s(input@, u64::MAX as int) == Some(r@.map(|k: int, v: u64| v as int)),
{
    let s = input.as_str();
    let len = s.unicode_len();
    let ghost bound = u64::MAX as int;
    let mut out: Vec<u64> = Vec::new();
    proof {
        assert(out@.map(|k: int, v: u64| v as int) =~= Seq::<int>::empty());
    }
    let mut acc: u64 = 0;
    let mut have: bool = false;
    let mut i: usize = 0;
    while i < len
        invariant
            len == s@.len(),
            s@ == input@,
            i <= len,
            parse_values_s(s@, bound) is Some,
            bound == u64::MAX as int,
            parse_num_list_s(s@, i as int, acc as int, have, out@.map(|k: int, v: u64| v as int), bound)
                == parse_values_s(s@, bound),
        decreases len - i,
    {
        let c = s.get_char(i);
        let cu = c as u32;
        if 48 <= cu && cu <= 57 {
            let d: u32 = cu - 48;
            let wide: u128 = acc as u128 * 10 + d as u128;
            proof {
                if wide as int > bound {
                    assert(parse_num_list_s(s@, i as int, acc as int, have,
                        out@.map(|k: int, v: u64| v as int), bound) is None);
                    assert(false);
                }
            }
            acc = wide as u64;
            have = true;
            i = i + 1;
        } else if c == ',' {
            proof {
                if !(have && i + 2 <= len && s@[i as int + 1] == ' ') {
                    assert(parse_num_list_s(s@, i as int, acc as int, have,
                        out@.map(|k: int, v: u64| v as int), bound) is None);
                    assert(false);
                }
            }
            let ghost old_map = out@.map(|k: int, v: u64| v as int);
            out.push(acc);
            proof {
                assert(out@.map(|k: int, v: u64| v as int) =~= old_map.push(acc as int));
            }
            acc = 0;
            have = false;
            i = i + 2;
        } else {
            proof {
                assert(parse_num_list_s(s@, i as int, acc as int, have,
                    out@.map(|k: int, v: u64| v as int), bound) is None);
                assert(false);
            }
            i = i + 1;
        }
    }
    proof {
        if !have {
            assert(parse_num_list_s(s@, i as int, acc as int, have,
                out@.map(|k: int, v: u64| v as int), bound) is None);
            assert(false);
        }
    }
    let ghost old_map = out@.map(|k: int, v: u64| v as int);
    out.push(acc);
    proof {
        assert(out@.map(|k: int, v: u64| v as int) =~= old_map.push(acc as int));
    }
    out
}

/// Parse `", "`-separated decimal numbers as `usize` values.
pub fn parse_values_usize(input: &String) -> (r: Vec<usize>)
    requires
        parse_values_s(input@, usize::MAX as int) is Some,
    ensures
        parse_values_s(input@, usize::MAX as int) == Some(r@.map(|k: int, v: usize| v as int)),
{
    let s = input.as_str();
    let len = s.unicode_len();
    let ghost bound = usize::MAX as int;
    let mut out: Vec<usize> = Vec::new();
    proof {
        assert(out@.map(|k: int, v: usize| v as int) =~= Seq::<int>::empty());
    }
    let mut acc: usize = 0;
    let mut have: bool = false;
    let mut i: usize = 0;
    while i < len
        invariant
            len == s@.len(),
            s@ == input@,
            i <= len,
            parse_values_s(s@, bound) is Some,
            bound == usize::MAX as int,
            parse_num_list_s(s@, i as int, acc as int, have, out@.map(|k: int, v: usize| v as int), bound)
                == parse_values_s(s@, bound),
        decreases len - i,
    {
        let c = s.get_char(i);
        let cu = c as u32;
        if 48 <= cu && cu <= 57 {
            let d: u32 = cu - 48;
            let wide: u128 = acc as u128 * 10 + d as u128;
            proof {
                if wide as int > bound {
                    assert(parse_num_list_s(s@, i as int, acc as int, have,
                        out@.map(|k: int, v: usize| v as int), bound) is None);
                    assert(false);
                }
            }
            acc = wide as usize;
            have = true;
            i = i + 1;
        } else if c == ',' {
            proof {
                if !(have && i + 2 <= len && s@[i as int + 1] == ' ') {
                    assert(parse_num_list_s(s@, i as int, acc as int, have,
                        out@.map(|k: int, v: usize| v as int), bound) is None);
                    assert(false);
                }
            }
            let ghost old_map = out@.map(|k: int, v: usize| v as int);
            out.push(acc);
            proof {
                assert(out@.map(|k: int, v: usize| v as int) =~= old_map.push(acc as int));
            }
            acc = 0;
            have = false;
            i = i + 2;
        } else {
            proof {
                assert(parse_num_list_s(s@, i as int, acc as int, have,
                    out@.map(|k: int, v: usize| v as int), bound) is None);
                assert(false);
            }
            i = i + 1;
        }
    }
    proof {
        if !have {
            assert(parse_num_list_s(s@, i as int, acc as int, have,
                out@.map(|k: int, v: usize| v as int), bound) is None);
            assert(false);
        }
    }
    let ghost old_map = out@.map(|k: int, v: usize| v as int);
    out.push(acc);
    proof {
        assert(out@.map(|k: int, v: usize| v as int) =~= old_map.push(acc as int));
    }
    out
}

/// A color channel clamped to `[0, 1]` and rounded to the nearest of 256
/// levels.
pub open spec fn color_to_256_s(input: int) -> int {
    let f = if input > SCALE { SCALE as int } else if input < 0 { 0 } else { input };
    (f * 255 + 500_000) / 1_000_000
}

pub fn color_to_256(input: i64) -> (r: u8)
    ensures
        r as int == color_to_256_s(input as int),
{
    let f: i64 = if input > SCALE { SCALE } else if input < 0 { 0 } else { input };
    let v: u64 = ((f as u64) * 255 + 500_000) / 1_000_000;
    proof {
        assert(v <= 255);
    }
    v as u8
}

} // verus!
