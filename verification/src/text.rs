//! Text as sequences of characters: splitting, trimming, searching and printing.

use vstd::prelude::*;

verus! {

/// The characters with the Unicode `White_Space` property.
pub open spec fn white_space(c: char) -> bool {
    ||| '\u{9}' <= c <= '\u{d}'
    ||| c == ' '
    ||| c == '\u{85}'
    ||| c == '\u{a0}'
    ||| c == '\u{1680}'
    ||| '\u{2000}' <= c <= '\u{200a}'
    ||| c == '\u{2028}'
    ||| c == '\u{2029}'
    ||| c == '\u{202f}'
    ||| c == '\u{205f}'
    ||| c == '\u{3000}'
}

/// The pieces of `s` between the occurrences of `sep`, empty ones among them.
pub open spec fn split<T>(s: Seq<T>, sep: T) -> Seq<Seq<T>>
    decreases s.len(),
{
    if s.len() == 0 {
        seq![Seq::<T>::empty()]
    } else {
        let before = split(s.drop_last(), sep);
        if s.last() == sep {
            before.push(Seq::<T>::empty())
        } else {
            before.drop_last().push(before.last().push(s.last()))
        }
    }
}

/// The pieces strung together, with `sep` between each two.
pub open spec fn join<T>(pieces: Seq<Seq<T>>, sep: Seq<T>) -> Seq<T>
    decreases pieces.len(),
{
    if pieces.len() == 0 {
        Seq::empty()
    } else if pieces.len() == 1 {
        pieces[0]
    } else {
        join(pieces.drop_last(), sep) + sep + pieces.last()
    }
}

/// The maximal runs of characters that are not white space.
pub open spec fn words(s: Seq<char>) -> Seq<Seq<char>>
    decreases s.len(),
{
    if s.len() == 0 {
        Seq::empty()
    } else {
        let before = words(s.drop_last());
        if white_space(s.last()) {
            before
        } else if s.len() == 1 || white_space(s[s.len() - 2]) {
            before.push(seq![s.last()])
        } else {
            before.drop_last().push(before.last().push(s.last()))
        }
    }
}

pub open spec fn trim_start(s: Seq<char>) -> Seq<char>
    decreases s.len(),
{
    if s.len() > 0 && white_space(s[0]) {
        trim_start(s.drop_first())
    } else {
        s
    }
}

pub open spec fn trim_end(s: Seq<char>) -> Seq<char>
    decreases s.len(),
{
    if s.len() > 0 && white_space(s.last()) {
        trim_end(s.drop_last())
    } else {
        s
    }
}

/// `s` without the white space at its two ends.
pub open spec fn trim(s: Seq<char>) -> Seq<char> {
    trim_end(trim_start(s))
}

/// Whether `pattern` stands in `s` at position `i`.
pub open spec fn occurs_at(s: Seq<char>, pattern: Seq<char>, i: int) -> bool {
    0 <= i <= s.len() - pattern.len() && s.subrange(i, i + pattern.len()) == pattern
}

/// The first position at or behind `from` at which `pattern` stands in `s`.
pub open spec fn position(s: Seq<char>, pattern: Seq<char>, from: int) -> Option<int>
    decreases s.len() + 1 - from,
{
    if from < 0 || from > s.len() - pattern.len() {
        None
    } else if occurs_at(s, pattern, from) {
        Some(from)
    } else {
        position(s, pattern, from + 1)
    }
}

/// Whether `pattern` stands anywhere in `s`.
pub open spec fn within(s: Seq<char>, pattern: Seq<char>) -> bool {
    position(s, pattern, 0) is Some
}

/// What stands between the first and the second occurrence of `pattern`, or,
/// where it occurs but once, behind the first. Nothing where it does not occur.
pub open spec fn second_piece(s: Seq<char>, pattern: Seq<char>) -> Option<Seq<char>> {
    match position(s, pattern, 0) {
        None => None,
        Some(first) => {
            let rest = s.skip(first + pattern.len());
            match position(rest, pattern, 0) {
                None => Some(rest),
                Some(second) => Some(rest.take(second)),
            }
        },
    }
}

/// The character of a decimal digit.
pub open spec fn digit(d: nat) -> char {
    (('0' as u32) + d) as char
}

/// The decimal notation of `n`, without leading zeros.
pub open spec fn decimal(n: nat) -> Seq<char>
    decreases n,
{
    if n < 10 {
        seq![digit(n)]
    } else {
        decimal(n / 10).push(digit(n % 10))
    }
}

/// The decimal notation of `n`, with a minus sign where it is negative.
pub open spec fn signed_decimal(n: int) -> Seq<char> {
    if n < 0 {
        seq!['-'] + decimal((-n) as nat)
    } else {
        decimal(n as nat)
    }
}

/// The texts that a list of strings holds.
pub open spec fn texts(list: Seq<String>) -> Seq<Seq<char>> {
    list.map_values(|s: String| s@)
}

/// What a text, if there is one, says.
pub open spec fn text_view(s: Option<String>) -> Option<Seq<char>> {
    match s {
        Some(s) => Some(s@),
        None => None,
    }
}

pub proof fn lemma_split_some<T>(s: Seq<T>, sep: T)
    ensures
        split(s, sep).len() > 0,
    decreases s.len(),
{
    if s.len() > 0 {
        lemma_split_some(s.drop_last(), sep);
    }
}

pub fn is_white_space(c: char) -> (r: bool)
    ensures
        r == white_space(c),
{
    ('\u{9}' <= c && c <= '\u{d}') || c == ' ' || c == '\u{85}' || c == '\u{a0}' || c
        == '\u{1680}' || ('\u{2000}' <= c && c <= '\u{200a}') || c == '\u{2028}' || c == '\u{2029}'
        || c == '\u{202f}' || c == '\u{205f}' || c == '\u{3000}'
}

/// The characters of `s`.
pub fn chars_of(s: &str) -> (r: Vec<char>)
    ensures
        r@ == s@,
{
    let mut r: Vec<char> = Vec::new();
    for c in it: s.chars()
        invariant
            r@ == it.seq().take(it.index()),
            it.seq() == s@,
    {
        r.push(c);
    }
    r
}

/// `String::push` puts the character behind the text.
pub assume_specification[ String::push ](s: &mut String, c: char)
    ensures
        final(s)@ == old(s)@.push(c),
;

/// The pieces of `s` between the occurrences of `sep`.
pub fn split_text(s: &str, sep: char) -> (r: Vec<String>)
    ensures
        texts(r@) == split(s@, sep),
{
    let chars = chars_of(s);
    let mut done: Vec<String> = Vec::new();
    let mut current = String::new();
    let mut i: usize = 0;
    assert(split(chars@.take(0), sep) =~= texts(done@).push(current@));
    while i < chars.len()
        invariant
            i <= chars.len(),
            split(chars@.take(i as int), sep) == texts(done@).push(current@),
        decreases chars.len() - i,
    {
        let c = chars[i];
        let ghost known = texts(done@).push(current@);
        assert(chars@.take(i + 1).drop_last() =~= chars@.take(i as int));
        assert(known.drop_last() =~= texts(done@));
        if c == sep {
            done.push(current);
            current = String::new();
            assert(texts(done@) =~= known);
        } else {
            current.push(c);
        }
        i += 1;
    }
    assert(chars@.take(i as int) =~= s@);
    let ghost known = texts(done@).push(current@);
    done.push(current);
    assert(texts(done@) =~= known);
    done
}

/// The maximal runs of characters of `s` that are not white space.
pub fn words_of(s: &str) -> (r: Vec<String>)
    ensures
        texts(r@) == words(s@),
{
    let chars = chars_of(s);
    let mut done: Vec<String> = Vec::new();
    let mut current = String::new();
    let mut inside = false;
    let mut i: usize = 0;
    assert(texts(done@) =~= words(chars@.take(0)));
    while i < chars.len()
        invariant
            i <= chars.len(),
            inside == (i > 0 && !white_space(chars@[i - 1])),
            !inside ==> current@ == Seq::<char>::empty(),
            words(chars@.take(i as int)) == if inside {
                texts(done@).push(current@)
            } else {
                texts(done@)
            },
        decreases chars.len() - i,
    {
        let c = chars[i];
        let ghost known = texts(done@).push(current@);
        assert(chars@.take(i + 1).drop_last() =~= chars@.take(i as int));
        assert(known.drop_last() =~= texts(done@));
        if is_white_space(c) {
            if inside {
                done.push(current);
                current = String::new();
                assert(texts(done@) =~= known);
            }
            inside = false;
        } else {
            assert(seq![c] =~= Seq::<char>::empty().push(c));
            current.push(c);
            inside = true;
        }
        i += 1;
    }
    assert(chars@.take(i as int) =~= s@);
    if inside {
        let ghost known = texts(done@).push(current@);
        done.push(current);
        assert(texts(done@) =~= known);
    }
    done
}

/// `s` without the white space at its two ends.
pub fn trim_text(s: &str) -> (r: String)
    ensures
        r@ == trim(s@),
{
    let chars = chars_of(s);
    let mut from: usize = 0;
    assert(chars@.skip(0) =~= chars@);
    while from < chars.len() && is_white_space(chars[from])
        invariant
            from <= chars.len(),
            trim_start(chars@) == trim_start(chars@.skip(from as int)),
        decreases chars.len() - from,
    {
        assert(chars@.skip(from as int).drop_first() =~= chars@.skip(from + 1));
        from += 1;
    }
    let ghost rest = chars@.skip(from as int);
    assert(trim_start(chars@) == rest);
    let mut to: usize = chars.len();
    assert(chars@.subrange(from as int, to as int) =~= rest);
    while from < to && is_white_space(chars[to - 1])
        invariant
            from <= to <= chars.len(),
            trim_end(rest) == trim_end(chars@.subrange(from as int, to as int)),
        decreases to,
    {
        assert(chars@.subrange(from as int, to as int).drop_last() =~= chars@.subrange(
            from as int,
            to - 1,
        ));
        to -= 1;
    }
    s.substring_char(from, to).to_owned()
}

/// The first position at which `pattern` stands in `s`.
fn find(s: &Vec<char>, pattern: &Vec<char>) -> (r: Option<usize>)
    ensures
        match r {
            Some(i) => position(s@, pattern@, 0) == Some(i as int) && i <= s@.len() - pattern@.len(),
            None => position(s@, pattern@, 0) is None,
        },
{
    let mut i: usize = 0;
    while i <= s.len() && pattern.len() <= s.len() - i
        invariant
            i <= s.len() + 1,
            position(s@, pattern@, 0) == position(s@, pattern@, i as int),
        decreases s.len() + 1 - i,
    {
        let mut k: usize = 0;
        while k < pattern.len() && s[i + k] == pattern[k]
            invariant
                k <= pattern.len() <= s.len() - i,
                forall|m: int| 0 <= m < k ==> s@[i + m] == pattern@[m],
            decreases pattern.len() - k,
        {
            k += 1;
        }
        let ghost here = s@.subrange(i as int, i + pattern@.len());
        if k == pattern.len() {
            assert(here =~= pattern@);
            return Some(i);
        }
        assert(here[k as int] != pattern@[k as int]);
        i += 1;
    }
    None
}

/// Whether `pattern` stands anywhere in `s`.
pub fn contains(s: &str, pattern: &str) -> (r: bool)
    ensures
        r == within(s@, pattern@),
{
    find(&chars_of(s), &chars_of(pattern)).is_some()
}

/// What stands between the first and the second occurrence of `pattern`, or
/// behind the first where there is no second.
pub fn piece_after(s: &str, pattern: &str) -> (r: Option<String>)
    ensures
        match r {
            Some(piece) => second_piece(s@, pattern@) == Some(piece@),
            None => second_piece(s@, pattern@) is None,
        },
{
    let chars = chars_of(s);
    let mark = chars_of(pattern);
    let first = match find(&chars, &mark) {
        Some(first) => first,
        None => return None,
    };
    let end: usize = chars.len();
    let rest = s.substring_char(first + mark.len(), end);
    assert(rest@ =~= s@.skip(first + pattern@.len()));
    let tail = chars_of(rest);
    match find(&tail, &mark) {
        Some(second) => {
            let piece = rest.substring_char(0, second).to_owned();
            assert(piece@ =~= rest@.take(second as int));
            Some(piece)
        },
        None => Some(rest.to_owned()),
    }
}

/// The pieces from position `from` on, with `sep` between each two.
pub fn join_text(pieces: &Vec<String>, from: usize, sep: &str) -> (r: String)
    requires
        from <= pieces.len(),
    ensures
        r@ == join(texts(pieces@).skip(from as int), sep@),
{
    let ghost all = texts(pieces@).skip(from as int);
    let mut r = String::new();
    let mut i: usize = from;
    assert(all.take(0) =~= Seq::empty());
    while i < pieces.len()
        invariant
            from <= i <= pieces.len(),
            all == texts(pieces@).skip(from as int),
            r@ == join(all.take(i - from), sep@),
        decreases pieces.len() - i,
    {
        let ghost n = i - from;
        assert(all.take(n + 1).drop_last() =~= all.take(n));
        assert(all.take(n + 1).last() == pieces@[i as int]@);
        if i > from {
            r.append(sep);
        }
        r.append(pieces[i].as_str());
        assert(n == 0 ==> r@ =~= pieces@[i as int]@);
        i += 1;
    }
    assert(all.take(all.len() as int) =~= all);
    r
}

/// The decimal notation of `n`.
pub fn decimal_text(n: u64) -> (r: String)
    ensures
        r@ == decimal(n as nat),
    decreases n,
{
    let last = match n % 10 {
        0 => '0',
        1 => '1',
        2 => '2',
        3 => '3',
        4 => '4',
        5 => '5',
        6 => '6',
        7 => '7',
        8 => '8',
        _ => '9',
    };
    assert(last == digit((n % 10) as nat));
    let mut r = if n < 10 {
        String::new()
    } else {
        decimal_text(n / 10)
    };
    r.push(last);
    assert(n < 10 ==> r@ =~= seq![last]);
    r
}

/// The decimal notation of `n`, with its sign where it is negative.
pub fn signed_decimal_text(n: i32) -> (r: String)
    ensures
        r@ == signed_decimal(n as int),
{
    if n < 0 {
        let mut r = String::new();
        r.push('-');
        let magnitude: i64 = -(n as i64);
        r.append(decimal_text(magnitude as u64).as_str());
        assert(r@ =~= seq!['-'] + decimal(magnitude as nat));
        r
    } else {
        decimal_text(n as u64)
    }
}

/// Whether two texts are the same.
pub fn same_text(a: &str, b: &str) -> (r: bool)
    ensures
        r == (a@ == b@),
{
    let left = chars_of(a);
    let right = chars_of(b);
    if left.len() != right.len() {
        return false;
    }
    let mut i: usize = 0;
    while i < left.len()
        invariant
            i <= left.len() == right.len(),
            left@ == a@,
            right@ == b@,
            left@.take(i as int) == right@.take(i as int),
        decreases left.len() - i,
    {
        if left[i] != right[i] {
            assert(a@[i as int] != b@[i as int]);
            return false;
        }
        assert(left@.take(i + 1) =~= left@.take(i as int).push(left@[i as int]));
        assert(right@.take(i + 1) =~= right@.take(i as int).push(right@[i as int]));
        i += 1;
    }
    assert(a@.take(i as int) =~= a@);
    assert(b@.take(i as int) =~= b@);
    true
}

} // verus!
