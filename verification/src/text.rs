//! Character-level string helpers shared by the session and the parsers.

use vstd::prelude::*;
use vstd::string::*;

verus! {

/// Relies on `String::push`: appends exactly the given character to the end
/// of the string.
#[verifier::external_body]
pub fn push_char(s: &mut String, c: char)
    ensures
        final(s)@ == old(s)@.push(c),
{
    s.push(c);
}

/// Relies on `String::pop`: removes and returns the last character, or
/// returns `None` and leaves the string unchanged when it is empty.
#[verifier::external_body]
pub fn pop_char(s: &mut String) -> (r: Option<char>)
    ensures
        old(s)@.len() == 0 ==> final(s)@ == old(s)@ && r is None,
        old(s)@.len() > 0 ==> final(s)@ == old(s)@.drop_last() && r == Some(old(s)@.last()),
{
    s.pop()
}

/// The character of one decimal digit.
pub open spec fn digit_char(d: int) -> char {
    if d == 0 {
        '0'
    } else if d == 1 {
        '1'
    } else if d == 2 {
        '2'
    } else if d == 3 {
        '3'
    } else if d == 4 {
        '4'
    } else if d == 5 {
        '5'
    } else if d == 6 {
        '6'
    } else if d == 7 {
        '7'
    } else if d == 8 {
        '8'
    } else {
        '9'
    }
}

/// The decimal representation of `n`, most significant digit first, without
/// leading zeros (`0` is written as one digit).
pub open spec fn decimal_rep(n: nat) -> Seq<char>
    decreases n,
{
    if n < 10 {
        seq![digit_char(n as int)]
    } else {
        decimal_rep(n / 10).push(digit_char((n % 10) as int))
    }
}

fn digit_to_char(d: usize) -> (c: char)
    requires
        d < 10,
    ensures
        c == digit_char(d as int),
{
    match d {
        0 => '0',
        1 => '1',
        2 => '2',
        3 => '3',
        4 => '4',
        5 => '5',
        6 => '6',
        7 => '7',
        8 => '8',
        _ => '9',
    }
}

/// Writes `n` in decimal.
pub fn usize_to_string(n: usize) -> (r: String)
    ensures
        r@ == decimal_rep(n as nat),
    decreases n,
{
    let d = digit_to_char(n % 10);
    if n < 10 {
        let mut s = String::new();
        push_char(&mut s, d);
        proof {
            assert(Seq::<char>::empty().push(d) =~= seq![d]);
        }
        s
    } else {
        let mut s = usize_to_string(n / 10);
        push_char(&mut s, d);
        s
    }
}

/// The views of a sequence of strings.
pub open spec fn views_of(parts: Seq<String>) -> Seq<Seq<char>> {
    parts.map_values(|p: String| p@)
}

/// Index of the first occurrence of `sep` in `s`, or `s.len()` when there
/// is none.
pub open spec fn first_sep(s: Seq<char>, sep: char) -> int
    decreases s.len(),
{
    if s.len() == 0 {
        0
    } else if s[0] == sep {
        0
    } else {
        1 + first_sep(s.drop_first(), sep)
    }
}

/// The first occurrence is the one position whose prefix is free of `sep`.
pub proof fn lemma_first_sep_at(s: Seq<char>, sep: char, k: int)
    requires
        0 <= k <= s.len(),
        forall|j: int| 0 <= j < k ==> s[j] != sep,
        k < s.len() ==> s[k] == sep,
    ensures
        first_sep(s, sep) == k,
    decreases s.len(),
{
    if s.len() > 0 && s[0] != sep {
        lemma_first_sep_at(s.drop_first(), sep, k - 1);
    }
}

/// `s` split at every occurrence of `sep`: one more part than separators,
/// each part free of `sep`, in order.
pub open spec fn split_parts(s: Seq<char>, sep: char) -> Seq<Seq<char>>
    decreases s.len(),
{
    let k = first_sep(s, sep);
    if 0 <= k < s.len() {
        seq![s.take(k)] + split_parts(s.skip(k + 1), sep)
    } else {
        seq![s]
    }
}

/// Splits `s` at every occurrence of `sep`.
pub fn split_fields(s: &str, sep: char) -> (parts: Vec<String>)
    ensures
        views_of(parts@) == split_parts(s@, sep),
{
    let n = s.unicode_len();
    let mut parts: Vec<String> = Vec::new();
    let mut cur = String::new();
    let ghost mut seg_start: int = 0;
    let mut i: usize = 0;
    proof {
        assert(s@.skip(0) =~= s@);
        assert(cur@ =~= s@.subrange(0, 0));
        assert(views_of(parts@) + split_parts(s@, sep) =~= split_parts(s@, sep));
    }
    while i < n
        invariant
            n == s@.len(),
            i <= n,
            0 <= seg_start <= i,
            cur@ == s@.subrange(seg_start, i as int),
            forall|j: int| seg_start <= j < i ==> s@[j] != sep,
            split_parts(s@, sep) == views_of(parts@) + split_parts(s@.skip(seg_start), sep),
        decreases n - i,
    {
        let c = s.get_char(i);
        if c == sep {
            proof {
                let t = s@.skip(seg_start);
                lemma_first_sep_at(t, sep, i - seg_start);
                assert(t.take(i - seg_start) =~= cur@);
                assert(t.skip(i - seg_start + 1) =~= s@.skip(i + 1));
                assert(views_of(parts@.push(cur)) =~= views_of(parts@).push(cur@));
                assert(views_of(parts@) + split_parts(t, sep) =~= views_of(parts@.push(cur))
                    + split_parts(s@.skip(i + 1), sep));
            }
            parts.push(cur);
            cur = String::new();
            proof {
                seg_start = i + 1;
                assert(cur@ =~= s@.subrange(seg_start, i + 1));
            }
        } else {
            push_char(&mut cur, c);
            proof {
                assert(cur@ =~= s@.subrange(seg_start, i + 1));
            }
        }
        i += 1;
    }
    proof {
        let t = s@.skip(seg_start);
        lemma_first_sep_at(t, sep, n - seg_start);
        assert(t =~= cur@);
        assert(views_of(parts@) + split_parts(t, sep) =~= views_of(parts@.push(cur)));
    }
    parts.push(cur);
    parts
}

/// The parts joined back with `sep` between them.
pub open spec fn joined(parts: Seq<Seq<char>>, sep: char) -> Seq<char>
    decreases parts.len(),
{
    if parts.len() == 0 {
        Seq::empty()
    } else if parts.len() == 1 {
        parts[0]
    } else {
        parts[0] + seq![sep] + joined(parts.drop_first(), sep)
    }
}

pub proof fn lemma_joined_push(parts: Seq<Seq<char>>, sep: char, x: Seq<char>)
    ensures
        joined(parts.push(x), sep) == (if parts.len() == 0 {
            x
        } else {
            joined(parts, sep) + seq![sep] + x
        }),
    decreases parts.len(),
{
    if parts.len() == 0 {
        assert(parts.push(x)[0] =~= x);
        assert(joined(parts.push(x), sep) == x);
    } else {
        lemma_joined_push(parts.drop_first(), sep, x);
        assert(parts.push(x).drop_first() =~= parts.drop_first().push(x));
        if parts.len() == 1 {
            assert(joined(parts, sep) + seq![sep] + x =~= parts[0] + seq![sep] + x);
            assert(joined(parts.push(x), sep) =~= parts[0] + seq![sep] + x);
        } else {
            assert(joined(parts.push(x), sep) =~= joined(parts, sep) + seq![sep] + x);
        }
    }
}

/// Joins `parts[from..]` with `sep` between the parts.
pub fn join_fields(parts: &Vec<String>, from: usize, sep: char) -> (r: String)
    requires
        from < parts@.len(),
    ensures
        r@ == joined(views_of(parts@).skip(from as int), sep),
{
    let ghost vs = views_of(parts@);
    let count = parts.len();
    let mut r = parts[from].clone();
    let mut i: usize = from + 1;
    proof {
        assert(vs.subrange(from as int, from + 1) =~= seq![vs[from as int]]);
    }
    while i < count
        invariant
            count == parts@.len(),
            from < i <= parts@.len(),
            vs == views_of(parts@),
            r@ == joined(vs.subrange(from as int, i as int), sep),
        decreases parts@.len() - i,
    {
        proof {
            lemma_joined_push(vs.subrange(from as int, i as int), sep, vs[i as int]);
            assert(vs.subrange(from as int, i + 1) =~= vs.subrange(from as int, i as int).push(
                vs[i as int],
            ));
        }
        push_char(&mut r, sep);
        r.append(parts[i].as_str());
        i += 1;
    }
    proof {
        assert(vs.subrange(from as int, parts@.len() as int) =~= vs.skip(from as int));
    }
    r
}

/// `c` is a decimal digit.
pub open spec fn is_digit(c: char) -> bool {
    '0' as int <= c as int <= '9' as int
}

/// The maximal digit prefix of `s`.
pub open spec fn prefix_digits(s: Seq<char>) -> Seq<char>
    decreases s.len(),
{
    if s.len() > 0 && is_digit(s[0]) {
        seq![s[0]] + prefix_digits(s.drop_first())
    } else {
        Seq::empty()
    }
}

/// The number a sequence of digits denotes.
pub open spec fn dec_val(ds: Seq<char>) -> int
    decreases ds.len(),
{
    if ds.len() == 0 {
        0
    } else {
        dec_val(ds.drop_last()) * 10 + (ds.last() as int - '0' as int)
    }
}

pub proof fn lemma_prefix_digits(s: Seq<char>)
    ensures
        prefix_digits(s).len() <= s.len(),
        forall|j: int| 0 <= j < prefix_digits(s).len() ==> is_digit(#[trigger] prefix_digits(s)[j])
            && prefix_digits(s)[j] == s[j],
    decreases s.len(),
{
    if s.len() > 0 && is_digit(s[0]) {
        lemma_prefix_digits(s.drop_first());
    }
}

pub proof fn lemma_dec_val_nonneg(ds: Seq<char>)
    requires
        forall|j: int| 0 <= j < ds.len() ==> is_digit(#[trigger] ds[j]),
    ensures
        dec_val(ds) >= 0,
    decreases ds.len(),
{
    if ds.len() > 0 {
        assert(forall|j: int| 0 <= j < ds.drop_last().len() ==> is_digit(
            #[trigger] ds.drop_last()[j],
        ));
        lemma_dec_val_nonneg(ds.drop_last());
    }
}

/// A digit sequence denotes at least what any of its prefixes denotes.
pub proof fn lemma_dec_val_take_le(ds: Seq<char>, m: int)
    requires
        forall|j: int| 0 <= j < ds.len() ==> is_digit(#[trigger] ds[j]),
        0 <= m <= ds.len(),
    ensures
        dec_val(ds.take(m)) <= dec_val(ds),
    decreases ds.len() - m,
{
    if m < ds.len() {
        assert(ds.take(m + 1).drop_last() =~= ds.take(m));
        assert(forall|j: int| 0 <= j < ds.take(m).len() ==> is_digit(#[trigger] ds.take(m)[j]));
        lemma_dec_val_nonneg(ds.take(m));
        assert(dec_val(ds.take(m + 1)) == dec_val(ds.take(m)) * 10 + (ds[m] as int - '0' as int));
        lemma_dec_val_take_le(ds, m + 1);
    } else {
        assert(ds.take(m) =~= ds);
    }
}

fn digit_at(s: &str, i: usize) -> (r: bool)
    requires
        i < s@.len(),
    ensures
        r == is_digit(s@[i as int]),
{
    let c = s.get_char(i);
    let u = c as u32;
    ('0' as u32) <= u && u <= ('9' as u32)
}

/// Reads the maximal digit prefix of `s` as a number: `None` when `s` does
/// not start with a digit or the denoted number does not fit in `u32`.
pub fn parse_decimal(s: &str) -> (r: Option<u32>)
    ensures
        match r {
            Some(v) => prefix_digits(s@).len() > 0 && dec_val(prefix_digits(s@)) == v,
            None => prefix_digits(s@).len() == 0 || dec_val(prefix_digits(s@)) > u32::MAX,
        },
{
    let n = s.unicode_len();
    let mut i: usize = 0;
    let mut acc: u32 = 0;
    proof {
        assert(s@.skip(0) =~= s@);
        assert(s@.take(0) =~= Seq::<char>::empty());
        assert(s@.take(0) + prefix_digits(s@) =~= prefix_digits(s@));
    }
    while i < n && digit_at(s, i)
        invariant
            n == s@.len(),
            0 <= i <= n,
            forall|j: int| 0 <= j < i ==> is_digit(#[trigger] s@[j]),
            prefix_digits(s@) == s@.take(i as int) + prefix_digits(s@.skip(i as int)),
            acc == dec_val(s@.take(i as int)),
        decreases n - i,
    {
        let c = s.get_char(i);
        let d: u32 = (c as u32) - ('0' as u32);
        let wide: u64 = (acc as u64) * 10 + (d as u64);
        proof {
            assert(s@.take(i + 1).drop_last() =~= s@.take(i as int));
            assert(dec_val(s@.take(i + 1)) == acc * 10 + (s@[i as int] as int - '0' as int));
        }
        if wide > (u32::MAX as u64) {
            proof {
                let ds = prefix_digits(s@);
                lemma_prefix_digits(s@);
                assert(is_digit(s@[i as int]));
                assert(prefix_digits(s@.skip(i as int)).len() > 0);
                assert(ds.len() > i);
                assert(ds.take(i + 1) =~= s@.take(i + 1));
                lemma_dec_val_take_le(ds, i + 1);
            }
            return None;
        }
        acc = wide as u32;
        proof {
            let t = s@.skip(i as int);
            assert(t.drop_first() =~= s@.skip(i + 1));
            assert(prefix_digits(t) == seq![t[0]] + prefix_digits(t.drop_first()));
            assert(s@.take(i as int) + prefix_digits(s@.skip(i as int)) =~= s@.take(i + 1)
                + prefix_digits(s@.skip(i + 1)));
        }
        i += 1;
    }
    proof {
        if i < n {
            assert(!is_digit(s@[i as int]));
        }
        assert(prefix_digits(s@.skip(i as int)) =~= Seq::<char>::empty());
        assert(prefix_digits(s@) =~= s@.take(i as int));
    }
    if i == 0 {
        None
    } else {
        Some(acc)
    }
}

} // verus!
