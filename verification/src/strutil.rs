//! Small verified string utilities: decimal rendering of integers, path
//! sanitization for the lock-file name, and splitting on a separator char.

use vstd::prelude::*;

verus! {

/// Relies on `str`'s `PartialEq`: two string slices are equal exactly when
/// they hold the same characters.
pub assume_specification[ <str as PartialEq<str>>::eq ](a: &str, b: &str) -> (r: bool)
    ensures
        r == (a@ == b@),
;

/// The decimal digit character for a value below ten.
pub open spec fn digit_char(d: nat) -> char {
    if d == 0 {
        '0'
    } else if d == 1 {
        '1'
    } else if d == 2 {
        '2'
    } else if d == 3 {
        '3'
    } else if d == 4 {
        '4'
    } else if d == 5 {
        '5'
    } else if d == 6 {
        '6'
    } else if d == 7 {
        '7'
    } else if d == 8 {
        '8'
    } else {
        '9'
    }
}

/// The usual decimal rendering of a natural number, without leading zeros
/// (except for zero itself).
pub open spec fn dec_str(n: nat) -> Seq<char>
    decreases n,
{
    if n < 10 {
        seq![digit_char(n)]
    } else {
        dec_str(n / 10) + seq![digit_char(n % 10)]
    }
}

fn digit_to_str(d: u16) -> (r: &'static str)
    requires
        d < 10,
    ensures
        r@ == seq![digit_char(d as nat)],
{
    proof {
        reveal_strlit("0");
        reveal_strlit("1");
        reveal_strlit("2");
        reveal_strlit("3");
        reveal_strlit("4");
        reveal_strlit("5");
        reveal_strlit("6");
        reveal_strlit("7");
        reveal_strlit("8");
        reveal_strlit("9");
    }
    let r = match d {
        0 => "0",
        1 => "1",
        2 => "2",
        3 => "3",
        4 => "4",
        5 => "5",
        6 => "6",
        7 => "7",
        8 => "8",
        _ => "9",
    };
    proof {
        assert(r@ =~= seq![digit_char(d as nat)]);
    }
    r
}

/// Renders a `u16` in decimal, as `Display` would.
pub fn u16_to_string(n: u16) -> (r: String)
    ensures
        r@ == dec_str(n as nat),
    decreases n,
{
    if n < 10 {
        let s = digit_to_str(n);
        let r = s.to_owned();
        r
    } else {
        let high = u16_to_string(n / 10);
        let low = digit_to_str(n % 10);
        let r = high.concat(low);
        proof {
            assert(r@ =~= dec_str(n as nat));
        }
        r
    }
}

/// `s` cut at every occurrence of `sep`, keeping empty pieces; the empty
/// string yields one empty piece, as `str::split` does.
pub open spec fn spec_split(s: Seq<char>, sep: char) -> Seq<Seq<char>>
    decreases s.len(),
{
    if s.len() == 0 {
        seq![Seq::<char>::empty()]
    } else if s[0] == sep {
        seq![Seq::<char>::empty()] + spec_split(s.drop_first(), sep)
    } else {
        let rest = spec_split(s.drop_first(), sep);
        seq![seq![s[0]] + rest[0]] + rest.drop_first()
    }
}

proof fn lemma_split_len(s: Seq<char>, sep: char)
    ensures
        spec_split(s, sep).len() >= 1,
    decreases s.len(),
{
    if s.len() != 0 {
        lemma_split_len(s.drop_first(), sep);
    }
}

/// Extending the input by one character extends the split's last piece, or
/// starts a new empty piece when the character is the separator.
proof fn lemma_split_push(s: Seq<char>, sep: char, c: char)
    ensures
        spec_split(s, sep).len() >= 1,
        c == sep ==> spec_split(s.push(c), sep) == spec_split(s, sep).push(Seq::<char>::empty()),
        c != sep ==> spec_split(s.push(c), sep) == spec_split(s, sep).drop_last().push(
            spec_split(s, sep).last().push(c),
        ),
    decreases s.len(),
{
    reveal_with_fuel(spec_split, 4);
    lemma_split_len(s, sep);
    if s.len() == 0 {
        assert(s.push(c).drop_first() =~= Seq::<char>::empty());
        assert(s.push(c)[0] == c);
        if c == sep {
            assert(spec_split(s.push(c), sep) =~= spec_split(s, sep).push(Seq::<char>::empty()));
        } else {
            assert(spec_split(s.push(c), sep) =~= spec_split(s, sep).drop_last().push(
                spec_split(s, sep).last().push(c),
            ));
        }
    } else {
        lemma_split_push(s.drop_first(), sep, c);
        lemma_split_len(s.drop_first(), sep);
        assert(s.push(c).drop_first() =~= s.drop_first().push(c));
        assert(s.push(c)[0] == s[0]);
        if s[0] == sep {
            if c == sep {
                assert(spec_split(s.push(c), sep) =~= spec_split(s, sep).push(
                    Seq::<char>::empty(),
                ));
            } else {
                assert(spec_split(s.push(c), sep) =~= spec_split(s, sep).drop_last().push(
                    spec_split(s, sep).last().push(c),
                ));
            }
        } else {
            let rest = spec_split(s.drop_first(), sep);
            let restp = spec_split(s.drop_first().push(c), sep);
            if c == sep {
                if rest.len() == 1 {
                    assert(restp =~= rest.push(Seq::<char>::empty()));
                    assert(spec_split(s.push(c), sep) =~= spec_split(s, sep).push(
                        Seq::<char>::empty(),
                    ));
                } else {
                    assert(restp[0] == rest[0]);
                    assert(spec_split(s.push(c), sep) =~= spec_split(s, sep).push(
                        Seq::<char>::empty(),
                    ));
                }
            } else {
                if rest.len() == 1 {
                    assert(restp[0] == rest[0].push(c));
                    assert(spec_split(s.push(c), sep) =~= spec_split(s, sep).drop_last().push(
                        spec_split(s, sep).last().push(c),
                    ));
                } else {
                    assert(restp[0] == rest[0]);
                    assert(spec_split(s.push(c), sep) =~= spec_split(s, sep).drop_last().push(
                        spec_split(s, sep).last().push(c),
                    ));
                }
            }
        }
    }
}

/// Splits `s` at every occurrence of `sep`, keeping empty pieces.
pub fn split_char(s: &str, sep: char) -> (r: Vec<String>)
    ensures
        r.deep_view() == spec_split(s@, sep),
{
    let mut done: Vec<String> = Vec::new();
    let mut cur = String::new();
    let len = s.unicode_len();
    let mut i: usize = 0;
    while i < len
        invariant
            i <= len,
            len == s@.len(),
            spec_split(s@.take(i as int), sep).len() >= 1,
            done.deep_view() =~= spec_split(s@.take(i as int), sep).drop_last(),
            cur@ == spec_split(s@.take(i as int), sep).last(),
        decreases len - i,
    {
        let c = s.get_char(i);
        proof {
            lemma_split_push(s@.take(i as int), sep, c);
            assert(s@.take(i as int).push(c) =~= s@.take(i + 1 as int));
        }
        if c == sep {
            let ghost od = done.deep_view();
            let ghost cv = cur@;
            done.push(cur);
            cur = String::new();
            proof {
                let prev = spec_split(s@.take(i as int), sep);
                let post = spec_split(s@.take(i + 1 as int), sep);
                assert(done.deep_view() =~= od.push(cv));
                assert(od.push(cv) =~= prev.drop_last().push(prev.last()));
                assert(prev.drop_last().push(prev.last()) =~= prev);
                assert(post.drop_last() =~= prev);
            }
        } else {
            let piece = s.substring_char(i, i + 1);
            proof {
                assert(piece@ =~= seq![c]);
                assert(cur@.push(c) =~= cur@ + seq![c]);
            }
            cur.append(piece);
            proof {
                let prev = spec_split(s@.take(i as int), sep);
                let post = spec_split(s@.take(i + 1 as int), sep);
                assert(s@.take(i as int).push(c) == s@.take(i + 1 as int));
                assert(post == prev.drop_last().push(prev.last().push(c)));
                assert(post.drop_last() =~= prev.drop_last());
                assert(done.deep_view() =~= post.drop_last());
            }
        }
        i = i + 1;
    }
    let ghost od = done.deep_view();
    let ghost cv = cur@;
    done.push(cur);
    proof {
        lemma_split_len(s@, sep);
        assert(s@.take(len as int) =~= s@);
        let full = spec_split(s@, sep);
        assert(done.deep_view() =~= od.push(cv));
        assert(od.push(cv) =~= full.drop_last().push(full.last()));
        assert(full.drop_last().push(full.last()) =~= full);
        assert(done.deep_view() =~= spec_split(s@, sep));
    }
    done
}

/// Characters the lock-file name keeps as they are: ASCII letters, digits,
/// `.`, `_` and `-`. Everything else is replaced by `_`.
pub open spec fn is_lock_safe_char(c: char) -> bool {
    ('A' as int <= c as int && c as int <= 'Z' as int) || ('a' as int <= c as int && c as int
        <= 'z' as int) || ('0' as int <= c as int && c as int <= '9' as int) || c == '.' || c == '_'
        || c == '-'
}

/// `s` with every character outside `[A-Za-z0-9._-]` replaced by `_`.
pub open spec fn sanitized(s: Seq<char>) -> Seq<char> {
    Seq::new(
        s.len(),
        |i: int|
            if is_lock_safe_char(s[i]) {
                s[i]
            } else {
                '_'
            },
    )
}

/// Replaces every character outside `[A-Za-z0-9._-]` by `_`, as the on-target
/// activator does when naming the lock file.
pub fn sanitize(s: &str) -> (r: String)
    ensures
        r@ == sanitized(s@),
{
    let mut out = String::new();
    let len = s.unicode_len();
    let mut i: usize = 0;
    while i < len
        invariant
            i <= len,
            len == s@.len(),
            out@ =~= sanitized(s@.take(i as int)),
        decreases len - i,
    {
        let c = s.get_char(i);
        let u = c as u32;
        let safe = (65 <= u && u <= 90) || (97 <= u && u <= 122) || (48 <= u && u <= 57) || u == 46
            || u == 95 || u == 45;
        proof {
            assert(safe == is_lock_safe_char(c));
        }
        if safe {
            let piece = s.substring_char(i, i + 1);
            out.append(piece);
        } else {
            proof {
                reveal_strlit("_");
            }
            out.append("_");
        }
        proof {
            assert(out@ =~= sanitized(s@.take(i + 1 as int)));
        }
        i = i + 1;
    }
    proof {
        assert(s@.take(len as int) =~= s@);
    }
    out
}

} // verus!
