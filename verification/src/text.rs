//! Text primitives: whitespace, trimming, splitting and joining, stated over
//! sequences of characters and implemented on strings.

use vstd::prelude::*;

verus! {

/// Whether `c` is one of the code points with the Unicode `White_Space` property.
pub open spec fn is_white_space(c: char) -> bool {
    let n = c as u32;
    ||| 0x09 <= n <= 0x0D
    ||| n == 0x20
    ||| n == 0x85
    ||| n == 0xA0
    ||| n == 0x1680
    ||| 0x2000 <= n <= 0x200A
    ||| n == 0x2028
    ||| n == 0x2029
    ||| n == 0x202F
    ||| n == 0x205F
    ||| n == 0x3000
}

/// `s` without its leading whitespace.
pub open spec fn trim_start(s: Seq<char>) -> Seq<char>
    decreases s.len(),
{
    if s.len() > 0 && is_white_space(s[0]) {
        trim_start(s.drop_first())
    } else {
        s
    }
}

/// `s` without its trailing whitespace.
pub open spec fn trim_end(s: Seq<char>) -> Seq<char>
    decreases s.len(),
{
    if s.len() > 0 && is_white_space(s.last()) {
        trim_end(s.drop_last())
    } else {
        s
    }
}

/// `s` without leading and trailing whitespace.
pub open spec fn trimmed(s: Seq<char>) -> Seq<char> {
    trim_end(trim_start(s))
}

/// `s` without any trailing occurrences of `c`.
pub open spec fn strip_trailing(s: Seq<char>, c: char) -> Seq<char>
    decreases s.len(),
{
    if s.len() > 0 && s.last() == c {
        strip_trailing(s.drop_last(), c)
    } else {
        s
    }
}

/// The pieces of `s` between occurrences of `sep`. There is always one more
/// piece than there are separators, so the empty text has one empty piece.
pub open spec fn split(s: Seq<char>, sep: char) -> Seq<Seq<char>>
    decreases s.len(),
{
    if s.len() == 0 {
        seq![Seq::<char>::empty()]
    } else {
        let init = split(s.drop_last(), sep);
        if s.last() == sep {
            init.push(Seq::<char>::empty())
        } else {
            init.update(init.len() - 1, init.last().push(s.last()))
        }
    }
}

/// The concatenation of `parts` with `sep` between neighbours.
pub open spec fn join(parts: Seq<Seq<char>>, sep: Seq<char>) -> Seq<char>
    decreases parts.len(),
{
    if parts.len() == 0 {
        Seq::<char>::empty()
    } else if parts.len() == 1 {
        parts[0]
    } else {
        join(parts.drop_last(), sep) + sep + parts.last()
    }
}

/// `s` with every occurrence of the character `from` replaced by the text `to`.
pub open spec fn replaced(s: Seq<char>, from: char, to: Seq<char>) -> Seq<char> {
    join(split(s, from), to)
}

/// The texts held by a sequence of strings.
pub open spec fn texts(v: Seq<String>) -> Seq<Seq<char>> {
    v.map_values(|s: String| s@)
}

/// Every text stripped of surrounding whitespace.
pub open spec fn all_trimmed(parts: Seq<Seq<char>>) -> Seq<Seq<char>> {
    parts.map_values(|p: Seq<char>| trimmed(p))
}

/// Executable test for the `White_Space` property.
pub fn white_space(c: char) -> (res: bool)
    ensures
        res == is_white_space(c),
{
    let n: u32 = c as u32;
    (0x09 <= n && n <= 0x0D) || n == 0x20 || n == 0x85 || n == 0xA0 || n == 0x1680 || (0x2000 <= n
        && n <= 0x200A) || n == 0x2028 || n == 0x2029 || n == 0x202F || n == 0x205F || n == 0x3000
}

/// The characters of `s`, in order.
pub fn to_chars(s: &str) -> (res: Vec<char>)
    ensures
        res@ == s@,
{
    let mut out: Vec<char> = Vec::new();
    for c in it: s.chars()
        invariant
            it.seq() == s@,
            out@ == it.seq().take(it.index()),
    {
        out.push(c);
    }
    out
}

/// Whether two strings hold the same characters.
pub fn same_text(a: &str, b: &str) -> (res: bool)
    ensures
        res == (a@ == b@),
{
    a.to_owned() == b.to_owned()
}

/// The part of `s` that remains when surrounding whitespace is removed.
pub fn trim<'a>(s: &'a str) -> (res: &'a str)
    ensures
        res@ == trimmed(s@),
{
    let chars = to_chars(s);
    let n = chars.len();
    let mut a: usize = 0;
    assert(s@.skip(0) =~= s@);
    while a < n && white_space(chars[a])
        invariant
            a <= n,
            n == s@.len(),
            chars@ == s@,
            trim_start(s@) == trim_start(s@.skip(a as int)),
        decreases n - a,
    {
        assert(s@.skip(a as int).drop_first() =~= s@.skip(a + 1));
        a += 1;
    }
    assert(trim_start(s@) == s@.skip(a as int));
    let mut b: usize = n;
    while b > a && white_space(chars[b - 1])
        invariant
            a <= b <= n,
            n == s@.len(),
            chars@ == s@,
            trimmed(s@) == trim_end(s@.subrange(a as int, b as int)),
        decreases b,
    {
        assert(s@.subrange(a as int, b as int).drop_last() =~= s@.subrange(a as int, b - 1));
        b -= 1;
    }
    s.substring_char(a, b)
}

/// The part of `s` that remains when every trailing `c` is removed.
pub fn trim_end_matches<'a>(s: &'a str, c: char) -> (res: &'a str)
    ensures
        res@ == strip_trailing(s@, c),
{
    let chars = to_chars(s);
    let mut b: usize = chars.len();
    assert(s@.take(b as int) =~= s@);
    while b > 0 && chars[b - 1] == c
        invariant
            b <= s@.len(),
            chars@ == s@,
            strip_trailing(s@, c) == strip_trailing(s@.take(b as int), c),
        decreases b,
    {
        assert(s@.take(b as int).drop_last() =~= s@.take(b - 1));
        b -= 1;
    }
    s.substring_char(0, b)
}

/// Cuts `s` at every occurrence of `sep`.
pub fn split_at_char(s: &str, sep: char) -> (res: Vec<String>)
    ensures
        texts(res@) == split(s@, sep),
{
    let chars = to_chars(s);
    let n = chars.len();
    let mut pieces: Vec<String> = Vec::new();
    let mut start: usize = 0;
    let mut i: usize = 0;
    assert(s@.take(0) =~= Seq::<char>::empty());
    assert(texts(pieces@).push(s@.subrange(0, 0)) =~= seq![Seq::<char>::empty()]);
    while i < n
        invariant
            start <= i <= n,
            n == s@.len(),
            chars@ == s@,
            split(s@.take(i as int), sep) == texts(pieces@).push(
                s@.subrange(start as int, i as int),
            ),
        decreases n - i,
    {
        let ghost before = texts(pieces@);
        let ghost current = s@.subrange(start as int, i as int);
        assert(s@.take(i + 1).drop_last() =~= s@.take(i as int));
        if chars[i] == sep {
            let piece = s.substring_char(start, i).to_owned();
            pieces.push(piece);
            start = i + 1;
            assert(texts(pieces@) =~= before.push(current));
            assert(s@.subrange(start as int, i + 1) =~= Seq::<char>::empty());
        } else {
            assert(s@.subrange(start as int, i + 1) =~= current.push(s@[i as int]));
            assert(before.push(current).update(before.len() as int, current.push(s@[i as int]))
                =~= before.push(current.push(s@[i as int])));
        }
        i += 1;
    }
    let ghost before = texts(pieces@);
    let piece = s.substring_char(start, n).to_owned();
    pieces.push(piece);
    assert(s@.take(n as int) =~= s@);
    assert(texts(pieces@) =~= before.push(s@.subrange(start as int, n as int)));
    pieces
}

/// Concatenates `parts`, putting `sep` between neighbours.
pub fn join_with(parts: &Vec<String>, sep: &str) -> (res: String)
    ensures
        res@ == join(texts(parts@), sep@),
{
    let mut out = String::new();
    let n = parts.len();
    let mut i: usize = 0;
    assert(texts(parts@).take(0) =~= Seq::<Seq<char>>::empty());
    while i < n
        invariant
            i <= n,
            n == parts@.len(),
            out@ == join(texts(parts@).take(i as int), sep@),
        decreases n - i,
    {
        let ghost done = texts(parts@).take(i as int);
        let ghost next = texts(parts@).take(i + 1);
        assert(next.drop_last() =~= done);
        assert(next.last() == parts@[i as int]@);
        if i > 0 {
            out.append(sep);
        }
        out.append(parts[i].as_str());
        assert(out@ =~= join(next, sep@));
        i += 1;
    }
    assert(texts(parts@).take(n as int) =~= texts(parts@));
    out
}

/// Replaces every occurrence of the character `from` in `s` by `to`.
pub fn replace_char(s: &str, from: char, to: &str) -> (res: String)
    ensures
        res@ == replaced(s@, from, to@),
{
    let pieces = split_at_char(s, from);
    join_with(&pieces, to)
}

/// Strips surrounding whitespace from every element of `parts`.
pub fn trim_all(parts: &Vec<String>) -> (res: Vec<String>)
    ensures
        texts(res@) == all_trimmed(texts(parts@)),
{
    let mut out: Vec<String> = Vec::new();
    let n = parts.len();
    let mut i: usize = 0;
    while i < n
        invariant
            i <= n,
            n == parts@.len(),
            texts(out@) == all_trimmed(texts(parts@)).take(i as int),
        decreases n - i,
    {
        let ghost before = texts(out@);
        let piece = trim(parts[i].as_str()).to_owned();
        out.push(piece);
        assert(texts(out@) =~= before.push(trimmed(parts@[i as int]@)));
        assert(texts(out@) =~= all_trimmed(texts(parts@)).take(i + 1));
        i += 1;
    }
    assert(all_trimmed(texts(parts@)).take(n as int) =~= all_trimmed(texts(parts@)));
    out
}

} // verus!
