//! What words, padding and numbers in a line are, by how they relate to the line.

use crate::text::{
    decimal, digits_value, hex, is_blank, is_space, is_word, parsed, trim, trim_end, trim_start,
    word_len, word_len_bounds, words,
};
use vstd::prelude::*;

verus! {

proof fn word_len_before_space(word: Seq<char>, rest: Seq<char>)
    requires
        is_word(word),
        rest.len() > 0 ==> is_space(rest[0]),
    ensures
        word_len(word + rest) == word.len(),
{
    let s = word + rest;
    word_len_bounds(s);
    let n = word_len(s) as int;
    if n < word.len() {
        assert(s[n] == word[n]);
    }
    if n > word.len() {
        assert(s[word.len() as int] == rest[0]);
    }
}

/// Text without white space is one word, and white space alone is none.
pub proof fn a_word_is_one_word(s: Seq<char>)
    ensures
        is_word(s) ==> words(s) == seq![s],
        is_blank(s) ==> words(s).len() == 0,
    decreases s.len(),
{
    let nothing = Seq::<char>::empty();
    if is_word(s) {
        assert(s + nothing =~= s);
        word_len_before_space(s, nothing);
        assert(s.take(s.len() as int) =~= s);
        assert(s.skip(s.len() as int) =~= nothing);
        assert(words(nothing) =~= Seq::<Seq<char>>::empty());
        assert(!is_space(s[0]));
        assert(words(s) =~= seq![s]);
    }
    if is_blank(s) && s.len() > 0 {
        assert(is_space(s[0]));
        let t = s.drop_first();
        assert forall|i: int| 0 <= i < t.len() implies is_space(#[trigger] t[i]) by {
            assert(t[i] == s[i + 1]);
        }
        a_word_is_one_word(t);
    }
}

/// White space parts words: those of what comes before it, then those of what comes
/// after it.
pub proof fn white_space_parts_words(before: Seq<char>, blank: Seq<char>, after: Seq<char>)
    requires
        is_blank(blank),
        blank.len() > 0,
    ensures
        words(before + blank + after) == words(before) + words(after),
    decreases before.len(), blank.len(),
{
    let s = before + blank + after;
    if before.len() == 0 {
        assert(s =~= blank + after);
        assert(s[0] == blank[0]);
        assert(is_space(blank[0]));
        let rest = blank.drop_first();
        assert(s.drop_first() =~= rest + after);
        assert(words(before) =~= Seq::<Seq<char>>::empty());
        if rest.len() == 0 {
            assert(s.drop_first() =~= after);
        } else {
            assert forall|i: int| 0 <= i < rest.len() implies is_space(#[trigger] rest[i]) by {
                assert(rest[i] == blank[i + 1]);
            }
            white_space_parts_words(before, rest, after);
            assert(before + rest + after =~= rest + after);
        }
        assert(words(before) + words(after) =~= words(after));
    } else if is_space(before[0]) {
        let t = before.drop_first();
        assert(s[0] == before[0]);
        assert(s.drop_first() =~= t + blank + after);
        white_space_parts_words(t, blank, after);
    } else {
        assert(s[0] == before[0]);
        word_len_bounds(before);
        let n = word_len(before) as int;
        let word = before.take(n);
        let t = before.skip(n);
        assert forall|i: int| 0 <= i < word.len() implies !is_space(#[trigger] word[i]) by {
            assert(word[i] == before[i]);
        }
        let rest = t + blank + after;
        assert(s =~= word + rest);
        if t.len() > 0 {
            assert(rest[0] == before[n]);
        } else {
            assert(rest[0] == blank[0]);
        }
        word_len_before_space(word, rest);
        assert(s.take(n) =~= word);
        assert(s.skip(n) =~= rest);
        white_space_parts_words(t, blank, after);
        assert(words(s) == seq![word] + words(rest));
        assert(words(before) == seq![word] + words(t));
        assert(seq![word] + (words(t) + words(after)) =~= (seq![word] + words(t)) + words(after));
    }
}

proof fn trim_start_parts(s: Seq<char>) -> (cut: int)
    ensures
        0 <= cut <= s.len(),
        is_blank(s.take(cut)),
        trim_start(s) == s.skip(cut),
        trim_start(s).len() > 0 ==> !is_space(trim_start(s)[0]),
    decreases s.len(),
{
    if s.len() > 0 && is_space(s[0]) {
        let t = s.drop_first();
        let cut = trim_start_parts(t);
        assert(s.skip(cut + 1) =~= t.skip(cut));
        assert forall|i: int| 0 <= i < cut + 1 implies is_space(#[trigger] s.take(cut + 1)[i]) by {
            if i > 0 {
                assert(is_space(t.take(cut)[i - 1]));
            }
        }
        cut + 1
    } else {
        assert(s.skip(0) =~= s);
        0
    }
}

proof fn trim_end_parts(s: Seq<char>) -> (kept: int)
    ensures
        0 <= kept <= s.len(),
        is_blank(s.skip(kept)),
        trim_end(s) == s.take(kept),
        trim_end(s).len() > 0 ==> !is_space(trim_end(s).last()),
    decreases s.len(),
{
    if s.len() > 0 && is_space(s.last()) {
        let t = s.drop_last();
        let kept = trim_end_parts(t);
        assert(s.take(kept) =~= t.take(kept));
        assert forall|i: int| 0 <= i < s.len() - kept implies is_space(
            #[trigger] s.skip(kept)[i],
        ) by {
            if i < t.len() - kept {
                assert(is_space(t.skip(kept)[i]));
            }
        }
        kept
    } else {
        assert(s.take(s.len() as int) =~= s);
        s.len() as int
    }
}

/// Trimming takes white space off either side and nothing else, and leaves none there.
pub proof fn trimming_takes_white_space_off(s: Seq<char>)
    ensures
        exists|before: Seq<char>, after: Seq<char>|
            is_blank(before) && is_blank(after) && s == #[trigger] (before + trim(s) + after),
        trim(s).len() > 0 ==> !is_space(trim(s)[0]) && !is_space(trim(s).last()),
{
    let cut = trim_start_parts(s);
    let t = trim_start(s);
    let kept = trim_end_parts(t);
    let before = s.take(cut);
    let after = t.skip(kept);
    assert(s =~= before + trim(s) + after);
    if trim(s).len() > 0 {
        assert(trim(s)[0] == t[0]);
    }
}

/// A number below ten is its digit; any other is the number of its tens, followed by
/// the digit of its ones.
pub proof fn decimal_is_written_digit_by_digit(tens: nat, ones: nat)
    requires
        ones < 10,
    ensures
        tens == 0 ==> decimal(10 * tens + ones).len() == 1,
        tens > 0 ==> decimal(10 * tens + ones).len() == decimal(tens).len() + 1,
        tens > 0 ==> decimal(10 * tens + ones).drop_last() == decimal(tens),
        decimal(10 * tens + ones).last() == "0123456789"@[ones as int],
{
    reveal_strlit("0123456789");
    if tens > 0 {
        assert(decimal(10 * tens + ones).drop_last() =~= decimal(tens));
    }
}

/// One digit more at the end makes a number ten times as large and adds the digit.
pub proof fn digits_are_read_in_base_ten(digits: Seq<char>, ones: nat)
    requires
        ones < 10,
    ensures
        digits_value(Seq::empty()) == 0,
        digits_value(digits.push("0123456789"@[ones as int])) == 10 * digits_value(digits) + ones,
{
    reveal_strlit("0123456789");
    assert(digits.push("0123456789"@[ones as int]).drop_last() =~= digits);
}

/// A run of digits.
pub open spec fn is_number(s: Seq<char>) -> bool {
    s.len() > 0 && forall|i: int| 0 <= i < s.len() ==> '0' <= #[trigger] s[i] <= '9'
}

/// A number is read from digits, and from digits after one plus sign; one above the
/// limit is refused, and so is everything that is no run of digits.
pub proof fn only_numbers_are_read(s: Seq<char>, limit: nat)
    ensures
        is_number(s) && digits_value(s) <= limit ==> {
            &&& parsed(s, limit) == Some(digits_value(s))
            &&& parsed(seq!['+'] + s, limit) == Some(digits_value(s))
        },
        is_number(s) && digits_value(s) > limit ==> {
            &&& parsed(s, limit) is None
            &&& parsed(seq!['+'] + s, limit) is None
        },
        !is_number(s) ==> parsed(seq!['+'] + s, limit) is None,
        !is_number(s) && (s.len() == 0 || s[0] != '+') ==> parsed(s, limit) is None,
{
    let plus = seq!['+'] + s;
    assert(plus.drop_first() =~= s);
    assert(plus[0] == '+');
    if s.len() > 0 && s[0] == '+' {
        assert(!('0' <= s[0] <= '9'));
    }
}

/// Hexadecimal numbers have the width asked for, in capitals, least digit last.
pub proof fn hex_is_written_digit_by_digit(n: nat, width: nat, low: nat)
    requires
        low < 16,
    ensures
        hex(n, 0).len() == 0,
        hex(16 * n + low, width + 1).drop_last() == hex(n, width),
        hex(16 * n + low, width + 1).last() == "0123456789ABCDEF"@[low as int],
        hex(n, width).len() == width,
    decreases width,
{
    reveal_strlit("0123456789ABCDEF");
    assert((16 * n + low) / 16 == n);
    assert((16 * n + low) % 16 == low);
    assert(hex(16 * n + low, width + 1).drop_last() =~= hex(n, width));
    if width > 0 {
        hex_is_written_digit_by_digit(n / 16, (width - 1) as nat, 0);
    }
}

} // verus!
