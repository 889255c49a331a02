//! What holds of text: splitting, joining, trimming, searching and printing.

use crate::laws;
use crate::text;
use vstd::prelude::*;

verus! {

/// Pieces strung together: nothing gives nothing, one piece gives itself, and
/// two lists of pieces give what each of them gives, with the separator between.
pub proof fn law_join<T>(a: Seq<Seq<T>>, b: Seq<Seq<T>>, piece: Seq<T>, sep: Seq<T>)
    ensures
        text::join(Seq::<Seq<T>>::empty(), sep) == Seq::<T>::empty(),
        text::join(seq![piece], sep) == piece,
        a.len() > 0 && b.len() > 0 ==> text::join(a + b, sep) == text::join(a, sep) + sep
            + text::join(b, sep),
    decreases b.len(),
{
    if a.len() > 0 && b.len() == 1 {
        assert((a + b).drop_last() =~= a);
    } else if a.len() > 0 && b.len() > 1 {
        law_join(a, b.drop_last(), piece, sep);
        assert((a + b).drop_last() =~= a + b.drop_last());
        assert(text::join(a + b, sep) =~= text::join(a, sep) + sep + text::join(b, sep));
    }
}

/// White space parts the words in front of it from those behind it, and nothing
/// else does: what holds none is a word.
pub proof fn law_words_at_white_space(a: Seq<char>, c: char, b: Seq<char>)
    requires
        text::white_space(c),
    ensures
        text::words(a.push(c) + b) == text::words(a) + text::words(b),
        text::words(Seq::empty()) == Seq::<Seq<char>>::empty(),
    decreases b.len(),
{
    let whole = a.push(c) + b;
    if b.len() == 0 {
        assert(whole =~= a.push(c));
        assert(whole.drop_last() =~= a);
        assert(text::words(a) + text::words(b) =~= text::words(a));
    } else {
        let front = b.drop_last();
        law_words_at_white_space(a, c, front);
        assert(whole.drop_last() =~= a.push(c) + front);
        assert(whole.last() == b.last());
        if b.len() > 1 {
            assert(whole[whole.len() - 2] == b[b.len() - 2]);
            laws::law_words(front);
            assert(front.last() == b[b.len() - 2]);
        } else {
            assert(whole[whole.len() - 2] == c);
        }
        assert(text::words(whole) =~= text::words(a) + text::words(b));
    }
}

/// A text that is a word has itself for its only word.
pub proof fn law_word_alone(w: Seq<char>)
    requires
        laws::is_word(w),
    ensures
        text::words(w) == seq![w],
    decreases w.len(),
{
    assert(!text::white_space(w[w.len() - 1]));
    if w.len() > 1 {
        assert(!text::white_space(w[w.len() - 2]));
        law_word_alone(w.drop_last());
        assert(w.drop_last().push(w.last()) =~= w);
        assert(text::words(w) =~= seq![w]);
    } else {
        assert(w.drop_last() =~= Seq::empty());
        assert(text::words(w.drop_last()) =~= Seq::empty());
        assert(w =~= seq![w.last()]);
        assert(text::words(w) =~= seq![w]);
    }
}

/// White space in front of a text and behind it makes no difference to its words.
pub proof fn law_words_ignore_padding(front: Seq<char>, s: Seq<char>, back: Seq<char>)
    requires
        forall|i: int| 0 <= i < front.len() ==> text::white_space(#[trigger] front[i]),
        forall|i: int| 0 <= i < back.len() ==> text::white_space(#[trigger] back[i]),
    ensures
        text::words(front + s + back) == text::words(s),
    decreases front.len() + back.len(),
{
    let whole = front + s + back;
    if back.len() > 0 {
        assert(whole.drop_last() =~= front + s + back.drop_last());
        law_words_ignore_padding(front, s, back.drop_last());
        assert(whole.last() == back[back.len() - 1]);
    } else if front.len() > 0 {
        let c = front[0];
        law_words_at_white_space(Seq::empty(), c, front.drop_first() + s + back);
        assert(whole =~= Seq::<char>::empty().push(c) + (front.drop_first() + s + back));
        law_words_ignore_padding(front.drop_first(), s, back);
        assert(text::words(whole) =~= text::words(s));
    } else {
        assert(whole =~= s);
    }
}

/// The visible characters of ASCII are no white space, and the blanks and line
/// ends are.
pub proof fn law_white_space_of_ascii(c: char)
    requires
        c <= '\u{7f}',
    ensures
        text::white_space(c) <==> c == ' ' || c == '\t' || c == '\n' || c == '\r' || c == '\u{b}'
            || c == '\u{c}',
{
}

/// A text whose ends are no white space is left as it is by trimming, and so is
/// the empty one.
pub proof fn law_trim_keeps(s: Seq<char>)
    requires
        s.len() > 0 ==> !text::white_space(s[0]) && !text::white_space(s.last()),
    ensures
        text::trim(s) == s,
{
}

/// A pattern occurs at just the positions at which the text can be cut into what
/// stands in front of it, itself, and what stands behind it.
pub proof fn law_occurs_at(s: Seq<char>, pattern: Seq<char>, i: int)
    ensures
        text::occurs_at(s, pattern, i) <==> 0 <= i && i + pattern.len() <= s.len() && s == s.take(i)
            + pattern + s.skip(i + pattern.len()),
{
    if 0 <= i && i + pattern.len() <= s.len() {
        let cut = s.take(i) + pattern + s.skip(i + pattern.len());
        if text::occurs_at(s, pattern, i) {
            assert forall|k: int| 0 <= k < s.len() implies s[k] == cut[k] by {
                if i <= k < i + pattern.len() {
                    assert(s.subrange(i, i + pattern.len())[k - i] == pattern[k - i]);
                }
            }
            assert(s =~= cut);
        }
        if s == cut {
            assert forall|k: int| 0 <= k < pattern.len() implies s.subrange(
                i,
                i + pattern.len(),
            )[k] == pattern[k] by {
                assert(s[i + k] == cut[i + k]);
            }
            assert(s.subrange(i, i + pattern.len()) =~= pattern);
        }
    }
}

/// A pattern stands in a text just where the text is the pattern with something
/// in front of it and something behind it.
pub proof fn law_within(s: Seq<char>, pattern: Seq<char>)
    ensures
        text::within(s, pattern) <==> exists|a: Seq<char>, b: Seq<char>| s == #[trigger] (a + pattern
            + b),
{
    laws::law_position_is_first(s, pattern, 0);
    if text::within(s, pattern) {
        let i = text::position(s, pattern, 0)->0;
        law_occurs_at(s, pattern, i);
        assert(s == s.take(i) + pattern + s.skip(i + pattern.len()));
    }
    if exists|a: Seq<char>, b: Seq<char>| s == #[trigger] (a + pattern + b) {
        let (a, b) = choose|a: Seq<char>, b: Seq<char>| s == #[trigger] (a + pattern + b);
        let i = a.len() as int;
        assert(s.subrange(i, i + pattern.len()) =~= pattern);
        assert(text::occurs_at(s, pattern, i));
    }
}

proof fn lemma_first_position(a: Seq<char>, mark: Seq<char>, rest: Seq<char>)
    requires
        mark.len() > 0,
        !text::within((a + mark).drop_last(), mark),
    ensures
        text::position(a + mark + rest, mark, 0) == Some(a.len() as int),
{
    let s = a + mark + rest;
    let head = (a + mark).drop_last();
    let at = a.len() as int;
    laws::law_position_is_first(s, mark, 0);
    laws::law_position_is_first(head, mark, 0);
    assert(s.subrange(at, at + mark.len()) =~= mark);
    assert(text::occurs_at(s, mark, at));
    match text::position(s, mark, 0) {
        Some(i) => {
            if i < at {
                assert(head.subrange(i, i + mark.len()) =~= s.subrange(i, i + mark.len()));
                assert(text::occurs_at(head, mark, i));
            } else if i > at {
                assert(!text::occurs_at(s, mark, at));
            }
        },
        None => {
            assert(!text::occurs_at(s, mark, at));
        },
    }
}

/// The second piece of a text is what stands between the first two marks, or all
/// that stands behind the only one. There is none just where there is no mark.
pub proof fn law_second_piece(a: Seq<char>, mark: Seq<char>, b: Seq<char>, c: Seq<char>)
    requires
        mark.len() > 0,
    ensures
        text::second_piece(a, mark) is None <==> !text::within(a, mark),
        !text::within((a + mark).drop_last(), mark) && !text::within(b, mark)
            ==> text::second_piece(a + mark + b, mark) == Some(b),
        !text::within((a + mark).drop_last(), mark) && !text::within((b + mark).drop_last(), mark)
            ==> text::second_piece(a + mark + (b + mark + c), mark) == Some(b),
{
    if !text::within((a + mark).drop_last(), mark) {
        lemma_first_position(a, mark, b);
        assert((a + mark + b).skip((a.len() + mark.len()) as int) =~= b);
        let rest = b + mark + c;
        lemma_first_position(a, mark, rest);
        assert((a + mark + rest).skip((a.len() + mark.len()) as int) =~= rest);
        if !text::within((b + mark).drop_last(), mark) {
            lemma_first_position(b, mark, c);
            assert(rest.take(b.len() as int) =~= b);
        }
    }
}

/// The number that decimal digits stand for.
pub open spec fn value(digits: Seq<char>) -> int
    decreases digits.len(),
{
    if digits.len() == 0 {
        0
    } else {
        value(digits.drop_last()) * 10 + (digits.last() as int - '0' as int)
    }
}

/// The decimal notation of a number consists of digits, stands for the number,
/// and has no zero in front unless it is the number zero.
pub proof fn law_decimal(n: nat)
    ensures
        value(text::decimal(n)) == n,
        forall|i: int| 0 <= i < text::decimal(n).len() ==> '0' <= #[trigger] text::decimal(n)[i]
            <= '9',
        text::decimal(n).len() > 0,
        n > 0 ==> text::decimal(n)[0] != '0',
        n == 0 ==> text::decimal(n) == seq!['0'],
    decreases n,
{
    let s = text::decimal(n);
    if n < 10 {
        assert(s.drop_last() =~= Seq::empty());
        assert(value(s.drop_last()) == 0);
    } else {
        law_decimal(n / 10);
        assert(s.drop_last() =~= text::decimal(n / 10));
    }
}

/// A negative number is written as a minus sign and what it lacks to zero, any
/// other as it is without a sign.
pub proof fn law_signed_decimal(n: int)
    ensures
        n < 0 ==> text::signed_decimal(n)[0] == '-' && value(text::signed_decimal(n).drop_first())
            == -n && text::signed_decimal(n).drop_first() == text::decimal((-n) as nat),
        n >= 0 ==> text::signed_decimal(n) == text::decimal(n as nat),
{
    if n < 0 {
        law_decimal((-n) as nat);
        assert(text::signed_decimal(n).drop_first() =~= text::decimal((-n) as nat));
    }
}

/// The texts of a list of strings are theirs, one by one.
pub proof fn law_texts(list: Seq<String>, s: Option<String>)
    ensures
        text::texts(list).len() == list.len(),
        forall|i: int| 0 <= i < list.len() ==> #[trigger] text::texts(list)[i] == list[i]@,
        s is None <==> text::text_view(s) is None,
        s is Some ==> text::text_view(s)->0 == s->0@,
{
}

} // verus!
