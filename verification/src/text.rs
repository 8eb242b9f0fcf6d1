//! Text as sequences of characters: decimal numerals, white space, trimming
//! and splitting.

use vstd::prelude::*;

verus! {

/// The character that writes the digit `d`, for `0 <= d <= 9`.
pub open spec fn digit_char(d: int) -> char {
    if d == 0 {
        '0'
    } else if d == 1 {
        '1'
    } else if d == 2 {
        '2'
    } else if d == 3 {
        '3'
    } else if d == 4 {
        '4'
    } else if d == 5 {
        '5'
    } else if d == 6 {
        '6'
    } else if d == 7 {
        '7'
    } else if d == 8 {
        '8'
    } else {
        '9'
    }
}

/// The decimal numeral of a natural number, without leading zeros.
pub open spec fn decimal_nat(n: nat) -> Seq<char>
    decreases n,
{
    if n < 10 {
        seq![digit_char(n as int)]
    } else {
        decimal_nat(n / 10).push(digit_char((n % 10) as int))
    }
}

/// The decimal numeral of an integer: a minus sign before the numeral of
/// its magnitude where it is negative.
pub open spec fn decimal(n: int) -> Seq<char> {
    if n < 0 {
        seq!['-'] + decimal_nat((-n) as nat)
    } else {
        decimal_nat(n as nat)
    }
}

/// The one-character text of a digit.
fn digit_str(d: u64) -> (s: &'static str)
    requires
        d < 10,
    ensures
        s@ == seq![digit_char(d as int)],
{
    let s = if d == 0 {
        proof {
            reveal_strlit("0");
        }
        "0"
    } else if d == 1 {
        proof {
            reveal_strlit("1");
        }
        "1"
    } else if d == 2 {
        proof {
            reveal_strlit("2");
        }
        "2"
    } else if d == 3 {
        proof {
            reveal_strlit("3");
        }
        "3"
    } else if d == 4 {
        proof {
            reveal_strlit("4");
        }
        "4"
    } else if d == 5 {
        proof {
            reveal_strlit("5");
        }
        "5"
    } else if d == 6 {
        proof {
            reveal_strlit("6");
        }
        "6"
    } else if d == 7 {
        proof {
            reveal_strlit("7");
        }
        "7"
    } else if d == 8 {
        proof {
            reveal_strlit("8");
        }
        "8"
    } else {
        proof {
            reveal_strlit("9");
        }
        "9"
    };
    assert(s@ =~= seq![digit_char(d as int)]);
    s
}

/// Appends the decimal numeral of `n` to `out`.
pub fn push_decimal(out: &mut String, n: u64)
    ensures
        final(out)@ == old(out)@ + decimal_nat(n as nat),
    decreases n,
{
    if n >= 10 {
        push_decimal(out, n / 10);
    }
    out.append(digit_str(n % 10));
    assert(final(out)@ =~= old(out)@ + decimal_nat(n as nat));
}

/// Appends the decimal numeral of the integer `n` to `out`.
pub fn push_signed_decimal(out: &mut String, n: i64)
    ensures
        final(out)@ == old(out)@ + decimal(n as int),
{
    if n < 0 {
        out.append("-");
        proof {
            reveal_strlit("-");
            assert("-"@ =~= seq!['-']);
        }
        let magnitude: u64 = (-(n as i128)) as u64;
        push_decimal(out, magnitude);
        assert(final(out)@ =~= old(out)@ + decimal(n as int));
    } else {
        push_decimal(out, n as u64);
    }
}

/// The characters of a text, in order.
pub fn chars_of(s: &str) -> (v: Vec<char>)
    ensures
        v@ == s@,
{
    let mut v: Vec<char> = Vec::new();
    for c in it: s.chars()
        invariant
            it.seq() == s@,
            v@ == it.seq().take(it.index()),
    {
        v.push(c);
        assert(v@ =~= it.seq().take(it.index() + 1));
    }
    assert(v@ =~= s@);
    v
}

/// Whether `c` is white space: one of U+0009 to U+000D, U+0020, U+0085,
/// U+00A0, U+1680, U+2000 to U+200A, U+2028, U+2029, U+202F, U+205F and
/// U+3000.
pub open spec fn is_whitespace(c: char) -> bool {
    let u = c as u32;
    ||| 0x09 <= u <= 0x0D
    ||| u == 0x20
    ||| u == 0x85
    ||| u == 0xA0
    ||| u == 0x1680
    ||| 0x2000 <= u <= 0x200A
    ||| u == 0x2028
    ||| u == 0x2029
    ||| u == 0x202F
    ||| u == 0x205F
    ||| u == 0x3000
}

/// Whether `c` is white space.
pub fn char_is_whitespace(c: char) -> (b: bool)
    ensures
        b == is_whitespace(c),
{
    let u: u32 = c as u32;
    (0x09 <= u && u <= 0x0D) || u == 0x20 || u == 0x85 || u == 0xA0 || u == 0x1680 || (0x2000 <= u
        && u <= 0x200A) || u == 0x2028 || u == 0x2029 || u == 0x202F || u == 0x205F || u == 0x3000
}

/// `s` without the white space at its start.
pub open spec fn trim_start(s: Seq<char>) -> Seq<char>
    decreases s.len(),
{
    if s.len() > 0 && is_whitespace(s[0]) {
        trim_start(s.drop_first())
    } else {
        s
    }
}

/// `s` without the white space at its end.
pub open spec fn trim_end(s: Seq<char>) -> Seq<char>
    decreases s.len(),
{
    if s.len() > 0 && is_whitespace(s.last()) {
        trim_end(s.drop_last())
    } else {
        s
    }
}

/// `s` without the white space at its start and at its end.
pub open spec fn trim(s: Seq<char>) -> Seq<char> {
    trim_end(trim_start(s))
}

/// Whether `s` holds nothing but white space.
pub open spec fn is_blank(s: Seq<char>) -> bool {
    forall|i: int| 0 <= i < s.len() ==> is_whitespace(#[trigger] s[i])
}

/// The pieces into which the separator `sep` cuts `s`, in order. The empty
/// text is one empty piece; a separator closes the piece before it and opens
/// a new one; any other character extends the last piece.
pub open spec fn split(s: Seq<char>, sep: char) -> Seq<Seq<char>>
    decreases s.len(),
{
    if s.len() == 0 {
        seq![Seq::<char>::empty()]
    } else if s.last() == sep {
        split(s.drop_last(), sep).push(Seq::<char>::empty())
    } else {
        let before = split(s.drop_last(), sep);
        before.drop_last().push(before.last().push(s.last()))
    }
}

/// A text is cut into at least one piece.
pub proof fn lemma_split_nonempty(s: Seq<char>, sep: char)
    ensures
        split(s, sep).len() >= 1,
    decreases s.len(),
{
    if s.len() > 0 {
        lemma_split_nonempty(s.drop_last(), sep);
    }
}

/// What is left of a text after trimming is empty exactly when the text is
/// blank.
pub proof fn lemma_trim_empty_iff_blank(s: Seq<char>)
    ensures
        trim(s).len() == 0 <==> is_blank(s),
{
    lemma_trim_start_shape(s);
    let t = trim_start(s);
    lemma_trim_end_shape(t);
    let k = (s.len() - t.len()) as int;
    if is_blank(s) {
        if t.len() > 0 {
            assert(is_whitespace(s[k]));
            assert(t[0] == s[k]);
        }
    } else {
        let i = choose|i: int| 0 <= i < s.len() && !is_whitespace(#[trigger] s[i]);
        if i < k {
            assert(s.subrange(0, k)[i] == s[i]);
        }
        assert(t[i - k] == s[i]);
        let m = trim_end(t).len() as int;
        if m == 0 {
            assert(t.subrange(m, t.len() as int)[i - k] == t[i - k]);
        }
    }
}

/// `trim_start` drops a blank prefix and stops at the first character that
/// is no white space.
pub proof fn lemma_trim_start_shape(s: Seq<char>)
    ensures
        trim_start(s).len() <= s.len(),
        trim_start(s) == s.subrange(s.len() - trim_start(s).len(), s.len() as int),
        is_blank(s.subrange(0, s.len() - trim_start(s).len())),
        trim_start(s).len() > 0 ==> !is_whitespace(trim_start(s)[0]),
    decreases s.len(),
{
    if s.len() > 0 && is_whitespace(s[0]) {
        let r = s.drop_first();
        lemma_trim_start_shape(r);
        let t = trim_start(s);
        let k = s.len() - t.len();
        assert(t =~= s.subrange(k, s.len() as int));
        assert forall|i: int| 0 <= i < k implies is_whitespace(
            #[trigger] s.subrange(0, k as int)[i],
        ) by {
            if i > 0 {
                assert(s.subrange(0, k as int)[i] == r.subrange(0, k - 1)[i - 1]);
            }
        }
    } else {
        assert(s =~= s.subrange(0, s.len() as int));
    }
}

/// `trim_end` drops a blank suffix and stops at the last character that is
/// no white space.
pub proof fn lemma_trim_end_shape(s: Seq<char>)
    ensures
        trim_end(s).len() <= s.len(),
        trim_end(s) == s.subrange(0, trim_end(s).len() as int),
        is_blank(s.subrange(trim_end(s).len() as int, s.len() as int)),
        trim_end(s).len() > 0 ==> !is_whitespace(trim_end(s).last()),
    decreases s.len(),
{
    if s.len() > 0 && is_whitespace(s.last()) {
        let r = s.drop_last();
        lemma_trim_end_shape(r);
        let t = trim_end(s);
        let k = t.len() as int;
        assert(t =~= s.subrange(0, k));
        assert forall|i: int| 0 <= i < s.len() - k implies is_whitespace(
            #[trigger] s.subrange(k, s.len() as int)[i],
        ) by {
            if i < s.len() - k - 1 {
                assert(s.subrange(k, s.len() as int)[i] == r.subrange(k, r.len() as int)[i]);
            }
        }
    } else {
        assert(s =~= s.subrange(0, s.len() as int));
    }
}

/// The bounds of what trimming leaves of `v[from..to]`.
pub fn trim_bounds(v: &Vec<char>, from: usize, to: usize) -> (r: (usize, usize))
    requires
        from <= to <= v.len(),
    ensures
        from <= r.0 <= r.1 <= to,
        v@.subrange(r.0 as int, r.1 as int) == trim(v@.subrange(from as int, to as int)),
{
    let mut a: usize = from;
    while a < to && char_is_whitespace(v[a])
        invariant
            from <= a <= to <= v.len(),
            trim_start(v@.subrange(from as int, to as int)) == trim_start(
                v@.subrange(a as int, to as int),
            ),
        decreases to - a,
    {
        assert(v@.subrange(a as int, to as int).drop_first() =~= v@.subrange(a + 1, to as int));
        a = a + 1;
    }
    let mut b: usize = to;
    while b > a && char_is_whitespace(v[b - 1])
        invariant
            a <= b <= to <= v.len(),
            trim_end(v@.subrange(a as int, to as int)) == trim_end(v@.subrange(a as int, b as int)),
        decreases b - a,
    {
        assert(v@.subrange(a as int, b as int).drop_last() =~= v@.subrange(a as int, b - 1));
        b = b - 1;
    }
    (a, b)
}

/// The bounds of the pieces into which `sep` cuts `v`.
pub fn split_bounds(v: &Vec<char>, sep: char) -> (r: Vec<(usize, usize)>)
    ensures
        r@.len() == split(v@, sep).len(),
        forall|k: int|
            0 <= k < r@.len() ==> {
                &&& (#[trigger] r@[k]).0 <= r@[k].1 <= v@.len()
                &&& v@.subrange(r@[k].0 as int, r@[k].1 as int) == split(v@, sep)[k]
            },
{
    let mut done: Vec<(usize, usize)> = Vec::new();
    let mut start: usize = 0;
    let mut i: usize = 0;
    assert(v@.subrange(0, 0) =~= Seq::<char>::empty());
    while i < v.len()
        invariant
            start <= i <= v.len(),
            split(v@.subrange(0, i as int), sep).len() == done@.len() + 1,
            split(v@.subrange(0, i as int), sep).last() == v@.subrange(start as int, i as int),
            forall|k: int|
                0 <= k < done@.len() ==> {
                    &&& (#[trigger] done@[k]).0 <= done@[k].1 <= v@.len()
                    &&& v@.subrange(done@[k].0 as int, done@[k].1 as int) == split(
                        v@.subrange(0, i as int),
                        sep,
                    )[k]
                },
        decreases v.len() - i,
    {
        let ghost before = v@.subrange(0, i as int);
        let ghost now = v@.subrange(0, i + 1);
        assert(now.drop_last() =~= before);
        assert(now.last() == v@[i as int]);
        if v[i] == sep {
            done.push((start, i));
            start = i + 1;
            assert(v@.subrange(start as int, start as int) =~= Seq::<char>::empty());
        } else {
            assert(v@.subrange(start as int, i as int).push(v@[i as int]) =~= v@.subrange(
                start as int,
                i + 1,
            ));
        }
        i = i + 1;
    }
    assert(v@.subrange(0, i as int) =~= v@);
    done.push((start, i));
    done
}

/// The pieces into which `sep` cuts `s`, each one trimmed.
pub open spec fn split_trimmed(s: Seq<char>, sep: char) -> Seq<Seq<char>> {
    Seq::new(split(s, sep).len(), |k: int| trim(split(s, sep)[k]))
}

/// Cuts `s` at every `sep` and trims each piece.
pub fn split_and_trim(s: &str, sep: char) -> (parts: Vec<String>)
    ensures
        parts@.len() == split_trimmed(s@, sep).len(),
        forall|k: int| 0 <= k < parts@.len() ==> (#[trigger] parts@[k])@ == split_trimmed(s@, sep)[k],
{
    let v = chars_of(s);
    let bounds = split_bounds(&v, sep);
    let mut parts: Vec<String> = Vec::new();
    let mut k: usize = 0;
    while k < bounds.len()
        invariant
            v@ == s@,
            k <= bounds@.len(),
            bounds@.len() == split(v@, sep).len(),
            forall|j: int|
                0 <= j < bounds@.len() ==> {
                    &&& (#[trigger] bounds@[j]).0 <= bounds@[j].1 <= v@.len()
                    &&& v@.subrange(bounds@[j].0 as int, bounds@[j].1 as int) == split(v@, sep)[j]
                },
            parts@.len() == k,
            forall|j: int| 0 <= j < k ==> (#[trigger] parts@[j])@ == trim(split(s@, sep)[j]),
        decreases bounds.len() - k,
    {
        let (from, to) = bounds[k];
        let (a, b) = trim_bounds(&v, from, to);
        let piece = s.substring_char(a, b);
        parts.push(String::from_str(piece));
        k = k + 1;
    }
    parts
}

/// Whether `s` holds nothing but white space.
pub fn str_is_blank(s: &str) -> (b: bool)
    ensures
        b == is_blank(s@),
{
    let mut blank = true;
    for c in it: s.chars()
        invariant
            it.seq() == s@,
            blank == is_blank(it.seq().take(it.index())),
    {
        let ghost seen = it.seq().take(it.index());
        let ghost next = it.seq().take(it.index() + 1);
        assert(next.drop_last() =~= seen);
        assert(next.last() == c);
        if !char_is_whitespace(c) {
            blank = false;
        }
        assert(blank == is_blank(next)) by {
            if is_blank(seen) && is_whitespace(c) {
                assert forall|i: int| 0 <= i < next.len() implies is_whitespace(
                    #[trigger] next[i],
                ) by {
                    if i < seen.len() {
                        assert(next[i] == seen[i]);
                    }
                }
            } else if !is_blank(seen) {
                let i = choose|i: int| 0 <= i < seen.len() && !is_whitespace(#[trigger] seen[i]);
                assert(next[i] == seen[i]);
            } else {
                assert(next[next.len() - 1] == c);
            }
        }
    }
    assert(s@.take(s@.len() as int) =~= s@);
    blank
}

/// The texts `parts`, in order, with `sep` between each two that follow one
/// another.
pub open spec fn join(parts: Seq<Seq<char>>, sep: Seq<char>) -> Seq<char>
    decreases parts.len(),
{
    if parts.len() == 0 {
        Seq::<char>::empty()
    } else if parts.len() == 1 {
        parts[0]
    } else {
        join(parts.drop_last(), sep) + sep + parts.last()
    }
}

/// The texts of `parts`.
pub open spec fn str_texts(parts: Seq<&str>) -> Seq<Seq<char>> {
    Seq::new(parts.len(), |k: int| parts[k]@)
}

/// Joins `parts` with `sep` between them.
pub fn join_strs(parts: &Vec<&str>, sep: &str) -> (s: String)
    ensures
        s@ == join(str_texts(parts@), sep@),
{
    let mut s = String::new();
    let mut i: usize = 0;
    while i < parts.len()
        invariant
            i <= parts@.len(),
            s@ == join(str_texts(parts@).take(i as int), sep@),
        decreases parts.len() - i,
    {
        let ghost before = str_texts(parts@).take(i as int);
        let ghost now = str_texts(parts@).take(i + 1);
        assert(now.drop_last() =~= before);
        assert(now.last() == parts@[i as int]@);
        if i > 0 {
            s.append(sep);
        }
        s.append(parts[i]);
        assert(s@ =~= join(now, sep@));
        i = i + 1;
    }
    assert(str_texts(parts@).take(i as int) =~= str_texts(parts@));
    s
}

/// The characters at the start of `s` up to its first white space.
pub open spec fn word_prefix(s: Seq<char>) -> Seq<char>
    decreases s.len(),
{
    if s.len() > 0 && !is_whitespace(s[0]) {
        seq![s[0]] + word_prefix(s.drop_first())
    } else {
        Seq::<char>::empty()
    }
}

/// The first word of `s`: what stands between the white space at its start
/// and the next white space. It is empty exactly where `s` is blank.
pub open spec fn first_word(s: Seq<char>) -> Seq<char> {
    word_prefix(trim_start(s))
}

/// The first word of `s`.
pub fn first_word_of(s: &str) -> (word: String)
    ensures
        word@ == first_word(s@),
{
    let v = chars_of(s);
    let n = v.len();
    let mut a: usize = 0;
    assert(v@.subrange(0, n as int) =~= v@);
    while a < n && char_is_whitespace(v[a])
        invariant
            a <= n == v.len(),
            trim_start(v@) == trim_start(v@.subrange(a as int, n as int)),
        decreases n - a,
    {
        assert(v@.subrange(a as int, n as int).drop_first() =~= v@.subrange(a + 1, n as int));
        a = a + 1;
    }
    let mut b: usize = a;
    assert(v@.subrange(a as int, a as int) + word_prefix(v@.subrange(a as int, n as int))
        =~= word_prefix(v@.subrange(a as int, n as int)));
    while b < n && !char_is_whitespace(v[b])
        invariant
            a <= b <= n == v.len(),
            word_prefix(v@.subrange(a as int, n as int)) == v@.subrange(a as int, b as int)
                + word_prefix(v@.subrange(b as int, n as int)),
        decreases n - b,
    {
        assert(v@.subrange(b as int, n as int).drop_first() =~= v@.subrange(b + 1, n as int));
        assert(v@.subrange(a as int, b as int) + (seq![v@[b as int]] + word_prefix(
            v@.subrange(b + 1, n as int),
        )) =~= v@.subrange(a as int, b + 1) + word_prefix(v@.subrange(b + 1, n as int)));
        b = b + 1;
    }
    assert(v@.subrange(a as int, b as int) + Seq::<char>::empty() =~= v@.subrange(
        a as int,
        b as int,
    ));
    String::from_str(s.substring_char(a, b))
}

/// The first word of a text is empty exactly where the text is blank.
pub proof fn lemma_first_word_empty_iff_blank(s: Seq<char>)
    ensures
        first_word(s).len() == 0 <==> is_blank(s),
{
    lemma_trim_start_shape(s);
    let t = trim_start(s);
    let k = (s.len() - t.len()) as int;
    if is_blank(s) {
        if t.len() > 0 {
            assert(t[0] == s[k]);
        }
    } else {
        let i = choose|i: int| 0 <= i < s.len() && !is_whitespace(#[trigger] s[i]);
        if i < k {
            assert(s.subrange(0, k)[i] == s[i]);
        }
        assert(t.len() > 0);
    }
}

/// Whether two texts hold the same characters.
pub fn same_text(a: &str, b: &str) -> (same: bool)
    ensures
        same == (a@ == b@),
{
    let x = String::from_str(a);
    let y = String::from_str(b);
    x == y
}

} // verus!
