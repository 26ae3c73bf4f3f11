//! Small verified string utilities: decimal rendering of integers,
//! joining path segments, and character replacement.
use vstd::prelude::*;

verus! {

/// The character for one decimal digit.
pub open spec fn digit_char(d: nat) -> char {
    if d == 0 {
        '0'
    } else if d == 1 {
        '1'
    } else if d == 2 {
        '2'
    } else if d == 3 {
        '3'
    } else if d == 4 {
        '4'
    } else if d == 5 {
        '5'
    } else if d == 6 {
        '6'
    } else if d == 7 {
        '7'
    } else if d == 8 {
        '8'
    } else {
        '9'
    }
}

/// The decimal digits of `n`, most significant first, no leading zeros
/// (a single `'0'` for zero).
pub open spec fn dec_string(n: nat) -> Seq<char>
    decreases n,
{
    if n < 10 {
        seq![digit_char(n)]
    } else {
        dec_string(n / 10).push(digit_char(n % 10))
    }
}

/// One decimal digit as a string.
pub fn digit_str(d: u32) -> (r: &'static str)
    requires
        d < 10,
    ensures
        r@ == seq![digit_char(d as nat)],
{
    proof {
        reveal_strlit("0");
        reveal_strlit("1");
        reveal_strlit("2");
        reveal_strlit("3");
        reveal_strlit("4");
        reveal_strlit("5");
        reveal_strlit("6");
        reveal_strlit("7");
        reveal_strlit("8");
        reveal_strlit("9");
    }
    let r = match d {
        0 => "0",
        1 => "1",
        2 => "2",
        3 => "3",
        4 => "4",
        5 => "5",
        6 => "6",
        7 => "7",
        8 => "8",
        _ => "9",
    };
    proof {
        assert(r@ =~= seq![digit_char(d as nat)]);
    }
    r
}

/// `n` in decimal.
pub fn u32_dec_string(n: u32) -> (r: String)
    ensures
        r@ == dec_string(n as nat),
    decreases n,
{
    if n < 10 {
        String::from_str(digit_str(n))
    } else {
        let mut r = u32_dec_string(n / 10);
        r.append(digit_str(n % 10));
        proof {
            assert(r@ =~= dec_string(n as nat));
        }
        r
    }
}

/// The segments joined with the separator character: empty for no
/// segments, else the segments in order with one separator between
/// each neighbouring pair.
pub open spec fn join_with(segs: Seq<Seq<char>>, sep: char) -> Seq<char>
    decreases segs.len(),
{
    if segs.len() == 0 {
        Seq::empty()
    } else if segs.len() == 1 {
        segs[0]
    } else {
        join_with(segs.drop_last(), sep) + seq![sep] + segs.last()
    }
}

/// Joins `segs[start..]` with `/` between neighbouring segments.
pub fn join_segments(segs: &Vec<String>, start: usize) -> (r: String)
    requires
        start <= segs@.len(),
    ensures
        r@ == join_with(segs.deep_view().skip(start as int), '/'),
{
    let ghost all = segs.deep_view();
    let mut r = String::new();
    if start == segs.len() {
        proof {
            assert(all.skip(start as int) =~= Seq::<Seq<char>>::empty());
        }
        return r;
    }
    r.append(segs[start].as_str());
    assert(r@ =~= join_with(all.subrange(start as int, start + 1), '/'));
    let mut i: usize = start + 1;
    while i < segs.len()
        invariant
            start < i <= segs@.len(),
            all == segs.deep_view(),
            r@ == join_with(all.subrange(start as int, i as int), '/'),
        decreases segs@.len() - i,
    {
        r.append("/");
        r.append(segs[i].as_str());
        proof {
            reveal_strlit("/");
            let sub = all.subrange(start as int, i + 1);
            assert(sub.drop_last() =~= all.subrange(start as int, i as int));
            assert(sub.last() == all[i as int]);
            assert(r@ =~= join_with(sub, '/'));
        }
        i = i + 1;
    }
    proof {
        assert(all.subrange(start as int, segs@.len() as int) =~= all.skip(start as int));
    }
    r
}

/// `s` with every occurrence of `from` replaced by `to`.
pub open spec fn replace_char(s: Seq<char>, from: char, to: char) -> Seq<char> {
    s.map_values(|c: char| if c == from { to } else { c })
}

/// `s` with every `/` replaced by `_`.
pub fn slashes_to_underscores(s: &str) -> (r: String)
    ensures
        r@ == replace_char(s@, '/', '_'),
{
    let n = s.unicode_len();
    let mut r = String::new();
    let mut i: usize = 0;
    assert(r@ =~= replace_char(s@.subrange(0, 0), '/', '_'));
    while i < n
        invariant
            i <= n == s@.len(),
            r@ == replace_char(s@.subrange(0, i as int), '/', '_'),
        decreases n - i,
    {
        let c = s.get_char(i);
        if c == '/' {
            r.append("_");
            proof {
                reveal_strlit("_");
            }
        } else {
            let piece = s.substring_char(i, i + 1);
            r.append(piece);
        }
        proof {
            let pre = s@.subrange(0, i + 1);
            assert(replace_char(pre, '/', '_') =~= replace_char(
                s@.subrange(0, i as int),
                '/',
                '_',
            ).push(if s@[i as int] == '/' { '_' } else { s@[i as int] }));
            assert(r@ =~= replace_char(pre, '/', '_'));
        }
        i = i + 1;
    }
    proof {
        assert(s@.subrange(0, s@.len() as int) =~= s@);
    }
    r
}

} // verus!
