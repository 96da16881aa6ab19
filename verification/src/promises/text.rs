//! What the operations on text promise.

use vstd::prelude::*;

use crate::text::{
    ahead_text, begins_with, behind_text, chars_of, collapse_text, decimal, decimal_text,
    equal_text, find_first, find_last, find_text, first_index, lemma_first_index, lemma_last_index,
    lemma_text_bounds, lemma_trim_between, lines, lines_of, lower, lower_char, lower_chars,
    occurrence, remove_char, same_text, text_of, texts, trim, trim_chars, trim_end, trim_text,
    white_space, without, word_len, words,
};

verus! {

/// Whether an optional string is the given text.
pub open spec fn gives(r: Option<String>, text: Seq<char>) -> bool {
    r is Some && r->0@ == text
}

/// Whether `t` is what is left of `s` once the white space at both ends is gone.
pub open spec fn trims_to(s: Seq<char>, t: Seq<char>) -> bool {
    exists|i: int, j: int|
        {
            &&& 0 <= i <= j <= s.len()
            &&& t == #[trigger] s.subrange(i, j)
            &&& forall|k: int| 0 <= k < i ==> white_space(#[trigger] s[k])
            &&& forall|k: int| j <= k < s.len() ==> white_space(#[trigger] s[k])
            &&& t.len() > 0 ==> !white_space(t[0]) && !white_space(t.last())
        }
}

/// Whether `s` holds nothing but white space.
pub open spec fn blank(s: Seq<char>) -> bool {
    forall|k: int| 0 <= k < s.len() ==> white_space(#[trigger] s[k])
}

/// Whether `t` is `s` with small letters for its ASCII capitals.
pub open spec fn lowers_to(s: Seq<char>, t: Seq<char>) -> bool {
    &&& t.len() == s.len()
    &&& forall|i: int| 0 <= i < s.len() ==> #[trigger] t[i] == lower_char(s[i])
}

/// Whether `pattern` stands in `s` at the position `k`.
pub open spec fn occurs(s: Seq<char>, pattern: Seq<char>, k: int) -> bool {
    0 <= k && k + pattern.len() <= s.len() && s.subrange(k, k + pattern.len()) == pattern
}

/// Whether `pattern` stands in `s` at the position `k`, and nowhere before it.
pub open spec fn occurs_first(s: Seq<char>, pattern: Seq<char>, k: int) -> bool {
    occurs(s, pattern, k) && forall|i: int| 0 <= i < k ==> !#[trigger] occurs(s, pattern, i)
}

/// The number that digits spell.
pub open spec fn number(digits: Seq<char>) -> int
    decreases digits.len(),
{
    if digits.len() == 0 {
        0
    } else {
        10 * number(digits.drop_last()) + (digits.last() as int - 48)
    }
}

/// Whether a text is made of decimal digits.
pub open spec fn all_digits(s: Seq<char>) -> bool {
    s.len() > 0 && forall|i: int| 0 <= i < s.len() ==> '0' <= #[trigger] s[i] && s[i] <= '9'
}

proof fn lemma_blank_end(s: Seq<char>)
    requires
        trim_end(s).len() == 0,
    ensures
        blank(s),
    decreases s.len(),
{
    if s.len() > 0 {
        lemma_blank_end(s.drop_last());
        assert forall|k: int| 0 <= k < s.len() implies white_space(#[trigger] s[k]) by {
            if k < s.len() - 1 {
                assert(s.drop_last()[k] == s[k]);
            }
        }
    }
}

/// Of a text of which trimming leaves nothing, all is white space.
pub proof fn lemma_blank(s: Seq<char>)
    ensures
        trim(s).len() == 0 <==> blank(s),
    decreases s.len(),
{
    if trim(s).len() == 0 {
        if s.len() > 0 && white_space(s[0]) {
            lemma_blank(s.drop_first());
            assert forall|k: int| 0 <= k < s.len() implies white_space(#[trigger] s[k]) by {
                if k > 0 {
                    assert(s.drop_first()[k - 1] == s[k]);
                }
            }
        } else {
            lemma_blank_end(s);
        }
    } else {
        let (i, _) = lemma_text_bounds(s);
        assert(!white_space(s[i]));
    }
}

/// What trimming leaves of a text is determined.
pub proof fn lemma_trims_to(s: Seq<char>, t: Seq<char>)
    ensures
        trims_to(s, t) <==> t == trim(s),
{
    lemma_blank(s);
    if trims_to(s, t) {
        let (i, j) = choose|i: int, j: int|
            {
                &&& 0 <= i <= j <= s.len()
                &&& t == #[trigger] s.subrange(i, j)
                &&& forall|k: int| 0 <= k < i ==> white_space(#[trigger] s[k])
                &&& forall|k: int| j <= k < s.len() ==> white_space(#[trigger] s[k])
                &&& t.len() > 0 ==> !white_space(t[0]) && !white_space(t.last())
            };
        if i < j {
            assert(t[0] == s[i] && t.last() == s[j - 1]);
            lemma_trim_between(s, i, j);
        } else {
            assert(t =~= trim(s));
        }
    }
    if t == trim(s) {
        if t.len() > 0 {
            let (i, j) = lemma_text_bounds(s);
            lemma_trim_between(s, i, j);
            assert(t == s.subrange(i, j));
        } else {
            assert(t =~= s.subrange(0, 0));
        }
    }
}

/// Small letters for capitals are determined.
pub proof fn lemma_lowers_to(s: Seq<char>, t: Seq<char>)
    ensures
        lowers_to(s, t) <==> t == lower(s),
{
    if lowers_to(s, t) {
        assert(t =~= lower(s));
    }
}

/// Texts and vectors of characters hold the same characters.
pub proof fn text_is_kept(s: &str, chars: &[char], v: Vec<char>, t: String)
    requires
        call_ensures(chars_of, (s,), v),
        call_ensures(text_of, (chars,), t),
    ensures
        v@ == s@,
        t@ == chars@,
{
}

/// Texts are compared character by character.
pub proof fn texts_are_compared(a: &str, b: &str, chars: &[char], r: bool, q: bool)
    requires
        call_ensures(equal_text, (a, b), r),
        call_ensures(same_text, (chars, b), q),
    ensures
        r <==> a@ =~= b@,
        q <==> chars@ =~= b@,
{
}

/// What trimming leaves begins and ends with the first and the last character that is no white
/// space.
pub proof fn trimming_takes_the_white_space_at_both_ends(
    s: &str,
    r: String,
    chars: &[char],
    q: &[char],
)
    requires
        call_ensures(trim_text, (s,), r),
        call_ensures(trim_chars, (chars,), q),
    ensures
        trims_to(s@, r@),
        trims_to(chars@, q@),
{
    lemma_trims_to(s@, r@);
    lemma_trims_to(chars@, q@);
}

/// Each character is lowered for itself.
pub proof fn lowering_keeps_the_positions(chars: &[char], r: Vec<char>)
    requires
        call_ensures(lower_chars, (chars,), r),
    ensures
        lowers_to(chars@, r@),
{
}

/// A character is found where it first, or last, stands.
pub proof fn characters_are_found(chars: &[char], c: char, first: usize, last: Option<usize>)
    requires
        call_ensures(find_first, (chars, c), first),
        call_ensures(find_last, (chars, c), last),
    ensures
        first <= chars@.len(),
        first < chars@.len() ==> chars@[first as int] == c,
        forall|i: int| 0 <= i < first ==> chars@[i] != c,
        last is None ==> !chars@.contains(c),
        last is Some ==> last->0 < chars@.len() && chars@[last->0 as int] == c,
        last is Some ==> forall|i: int| last->0 < i < chars@.len() ==> chars@[i] != c,
{
    lemma_first_index(chars@, c);
    lemma_last_index(chars@, c);
}

/// A pattern is found where it first stands.
pub proof fn lemma_occurrence(s: Seq<char>, pattern: Seq<char>)
    ensures
        match occurrence(s, pattern) {
            Some(k) => occurs_first(s, pattern, k),
            None => forall|i: int| !#[trigger] occurs(s, pattern, i),
        },
    decreases s.len(),
{
    if pattern.is_prefix_of(s) {
        assert(occurs(s, pattern, 0));
    } else {
        assert(!occurs(s, pattern, 0));
        if s.len() > 0 {
            let t = s.drop_first();
            lemma_occurrence(t, pattern);
            assert forall|i: int| i > 0 implies #[trigger] occurs(s, pattern, i) == occurs(
                t,
                pattern,
                i - 1,
            ) by {
                if i + pattern.len() <= s.len() {
                    assert(s.subrange(i, i + pattern.len()) =~= t.subrange(
                        i - 1,
                        i - 1 + pattern.len(),
                    ));
                }
            }
            if let Some(k) = occurrence(t, pattern) {
                assert(occurs(s, pattern, k + 1));
                assert forall|i: int| 0 <= i < k + 1 implies !#[trigger] occurs(s, pattern, i) by {
                    if i > 0 {
                        assert(!occurs(t, pattern, i - 1));
                    }
                }
            } else {
                assert forall|i: int| !#[trigger] occurs(s, pattern, i) by {
                    if i > 0 {
                        assert(!occurs(t, pattern, i - 1));
                    }
                }
            }
        }
    }
}

/// A pattern is found where it first stands, and only where it stands.
pub proof fn patterns_are_found(
    chars: &[char],
    pattern: &str,
    found: Option<usize>,
    head: Option<&[char]>,
    tail: Option<&[char]>,
    begins: bool,
)
    requires
        call_ensures(find_text, (chars, pattern), found),
        call_ensures(ahead_text, (chars, pattern), head),
        call_ensures(behind_text, (chars, pattern), tail),
        call_ensures(begins_with, (chars, pattern), begins),
    ensures
        begins <==> occurs(chars@, pattern@, 0),
        found is Some ==> occurs_first(chars@, pattern@, found->0 as int),
        found is None ==> forall|i: int| !#[trigger] occurs(chars@, pattern@, i),
        head is Some <==> found is Some,
        tail is Some <==> found is Some,
        found is Some ==> head->0@.len() == found->0 && chars@ == head->0@ + pattern@ + tail->0@,
{
    lemma_occurrence(chars@, pattern@);
    if begins {
        assert(occurs(chars@, pattern@, 0));
    }
    if let Some(k) = found {
        let n = k + pattern@.len();
        assert(chars@ =~= chars@.take(k as int) + chars@.subrange(k as int, n) + chars@.skip(n));
    }
}

/// The first place of a pattern is determined.
pub proof fn lemma_occurs_first(s: Seq<char>, pattern: Seq<char>, k: int)
    requires
        occurs_first(s, pattern, k),
    ensures
        occurrence(s, pattern) == Some(k),
{
    lemma_occurrence(s, pattern);
    assert(occurs(s, pattern, k));
    let i = occurrence(s, pattern)->0;
    if i < k {
        assert(!occurs(s, pattern, i));
    }
}

/// A pattern that stands nowhere is not found.
pub proof fn lemma_occurs_nowhere(s: Seq<char>, pattern: Seq<char>)
    requires
        forall|i: int| !#[trigger] occurs(s, pattern, i),
    ensures
        occurrence(s, pattern) is None,
{
    lemma_occurrence(s, pattern);
    if let Some(k) = occurrence(s, pattern) {
        assert(occurs(s, pattern, k));
    }
}

/// To take a character out of a text is to take it out of both its halves, and it goes from a
/// text of one character where that is the one.
pub proof fn characters_are_taken_out_one_by_one(
    c: char,
    a: &str,
    b: &str,
    both: &str,
    ra: String,
    rb: String,
    r: String,
)
    requires
        call_ensures(remove_char, (a, c), ra),
        call_ensures(remove_char, (b, c), rb),
        call_ensures(remove_char, (both, c), r),
        both@ == a@ + b@,
    ensures
        r@ == ra@ + rb@,
        a@.len() == 0 ==> ra@.len() == 0,
        a@.len() == 1 ==> ra@ == if a@[0] == c {
            Seq::<char>::empty()
        } else {
            a@
        },
{
    lemma_without_add(a@, b@, c);
    reveal(Seq::filter);
    if a@.len() == 1 {
        assert(a@.drop_last() =~= Seq::<char>::empty());
        assert(without(a@.drop_last(), c) =~= Seq::<char>::empty());
        assert(a@ =~= seq![a@[0]]);
    }
}

/// To take a character out of a text is to take it out of both its halves.
pub proof fn lemma_without_add(a: Seq<char>, b: Seq<char>, c: char)
    ensures
        without(a + b, c) == without(a, c) + without(b, c),
    decreases b.len(),
{
    reveal(Seq::filter);
    if b.len() == 0 {
        assert(a + b =~= a);
        assert(without(b, c) =~= Seq::<char>::empty());
        assert(without(a, c) + without(b, c) =~= without(a, c));
    } else {
        lemma_without_add(a, b.drop_last(), c);
        assert((a + b).drop_last() =~= a + b.drop_last());
        assert(without(a + b, c) =~= without(a, c) + without(b, c));
    }
}

/// A line ends at the first line feed, without one carriage return before it; the other lines
/// are those of the rest.
pub proof fn lines_end_at_line_feeds(
    line: Seq<char>,
    rest: &str,
    all: &str,
    tail: Vec<Vec<char>>,
    r: Vec<Vec<char>>,
)
    requires
        call_ensures(lines_of, (rest,), tail),
        call_ensures(lines_of, (all,), r),
        !line.contains('\n'),
        all@ == line + seq!['\n'] + rest@,
    ensures
        r@.len() == tail@.len() + 1,
        r@[0]@ == if line.len() > 0 && line.last() == '\r' {
            line.drop_last()
        } else {
            line
        },
        forall|i: int| 0 <= i < tail@.len() ==> #[trigger] r@[i + 1]@ == tail@[i]@,
{
    lemma_line_end(line, seq!['\n'] + rest@);
    assert(line + (seq!['\n'] + rest@) =~= all@);
    let k = line.len() as int;
    assert(all@.take(k) =~= line);
    assert(all@.skip(k + 1) =~= rest@);
    assert(texts(r@).len() == r@.len() && texts(tail@).len() == tail@.len());
    assert(texts(r@)[0] == r@[0]@);
    assert forall|i: int| 0 <= i < tail@.len() implies #[trigger] r@[i + 1]@ == tail@[i]@ by {
        assert(texts(r@)[i + 1] == lines(rest@)[i]);
        assert(texts(tail@)[i] == tail@[i]@);
    }
}

proof fn lemma_line_end(line: Seq<char>, rest: Seq<char>)
    requires
        !line.contains('\n'),
        rest.len() == 0 || rest[0] == '\n',
    ensures
        first_index(line + rest, '\n') == line.len(),
{
    let s = line + rest;
    assert forall|i: int| 0 <= i < line.len() implies s[i] != '\n' by {
        assert(line.contains(line[i]));
    }
    crate::text::lemma_first_index_unique(s, '\n', line.len() as int);
}

/// A text without line feeds is one line, and no line where it is empty.
pub proof fn a_text_without_line_feeds_is_a_line(all: &str, r: Vec<Vec<char>>)
    requires
        call_ensures(lines_of, (all,), r),
        !all@.contains('\n'),
    ensures
        all@.len() == 0 ==> r@.len() == 0,
        all@.len() > 0 ==> r@.len() == 1 && r@[0]@ == all@,
{
    lemma_line_end(all@, Seq::empty());
    assert(all@ + Seq::<char>::empty() =~= all@);
    assert(texts(r@).len() == r@.len());
    if all@.len() > 0 {
        assert(texts(r@)[0] == r@[0]@);
    }
}

/// White space before a text does not count; behind a word it counts for one space where more
/// than white space follows, and else for nothing.
pub proof fn white_space_is_collapsed(
    word: Seq<char>,
    space: char,
    rest: &str,
    shifted: &str,
    all: &str,
    tail: String,
    s: String,
    r: String,
)
    requires
        call_ensures(collapse_text, (rest,), tail),
        call_ensures(collapse_text, (shifted,), s),
        call_ensures(collapse_text, (all,), r),
        white_space(space),
        word.len() > 0,
        forall|i: int| 0 <= i < word.len() ==> !white_space(#[trigger] word[i]),
        shifted@ == seq![space] + rest@,
        all@ == word + seq![space] + rest@,
    ensures
        s@ == tail@,
        r@ == if blank(rest@) {
            word
        } else {
            word + seq![' '] + tail@
        },
{
    assert(shifted@.drop_first() =~= rest@);
    lemma_word_at_start(word, shifted@);
    assert(word + shifted@ =~= all@);
    lemma_no_words(rest@);
    let list = words(rest@);
    assert(words(all@) =~= seq![word] + list);
    if list.len() > 0 {
        assert((seq![word] + list).drop_first() =~= list);
    }
}

/// A word is not changed, and of nothing comes nothing.
pub proof fn words_are_kept(word: &str, r: String)
    requires
        call_ensures(collapse_text, (word,), r),
        forall|i: int| 0 <= i < word@.len() ==> !white_space(#[trigger] word@[i]),
    ensures
        r@ == word@,
{
    if word@.len() > 0 {
        lemma_word_at_start(word@, Seq::empty());
        assert(word@ + Seq::<char>::empty() =~= word@);
        assert(words(Seq::<char>::empty()) =~= Seq::<Seq<char>>::empty());
        assert(words(word@) =~= seq![word@]);
    } else {
        assert(r@ =~= word@);
    }
}

proof fn lemma_word_at_start(word: Seq<char>, rest: Seq<char>)
    requires
        word.len() > 0,
        forall|i: int| 0 <= i < word.len() ==> !white_space(#[trigger] word[i]),
        rest.len() == 0 || white_space(rest[0]),
    ensures
        words(word + rest) == seq![word] + words(rest),
{
    let s = word + rest;
    lemma_word_len_of(word, rest);
    assert(s[0] == word[0]);
    assert(s.take(word.len() as int) =~= word);
    assert(s.skip(word.len() as int) =~= rest);
}

proof fn lemma_word_len_of(word: Seq<char>, rest: Seq<char>)
    requires
        forall|i: int| 0 <= i < word.len() ==> !white_space(#[trigger] word[i]),
        rest.len() == 0 || white_space(rest[0]),
    ensures
        word_len(word + rest) == word.len(),
    decreases word.len(),
{
    let s = word + rest;
    if word.len() > 0 {
        let w = word.drop_first();
        assert forall|i: int| 0 <= i < w.len() implies !white_space(#[trigger] w[i]) by {
            assert(w[i] == word[i + 1]);
        }
        lemma_word_len_of(w, rest);
        assert(s.drop_first() =~= w + rest);
        assert(s[0] == word[0]);
    } else {
        assert(s =~= rest);
    }
}

proof fn lemma_no_words(s: Seq<char>)
    ensures
        words(s).len() == 0 <==> blank(s),
    decreases s.len(),
{
    if s.len() > 0 {
        if white_space(s[0]) {
            lemma_no_words(s.drop_first());
            if blank(s.drop_first()) {
                assert forall|k: int| 0 <= k < s.len() implies white_space(#[trigger] s[k]) by {
                    if k > 0 {
                        assert(s.drop_first()[k - 1] == s[k]);
                    }
                }
            } else {
                let k = choose|k: int|
                    0 <= k < s.drop_first().len() && !white_space(#[trigger] s.drop_first()[k]);
                assert(!white_space(s[k + 1]));
            }
        } else {
            lemma_word_bounds(s);
            assert(!blank(s)) by {
                assert(!white_space(s[0]));
            }
        }
    }
}

proof fn lemma_word_bounds(s: Seq<char>)
    ensures
        0 <= word_len(s) <= s.len(),
        s.len() > 0 && !white_space(s[0]) ==> word_len(s) > 0,
    decreases s.len(),
{
    if s.len() > 0 && !white_space(s[0]) {
        lemma_word_bounds(s.drop_first());
    }
}

/// There is one way to spell a number in digits without a zero before them.
pub proof fn lemma_digits_unique(digits: Seq<char>, n: nat)
    requires
        all_digits(digits),
        digits.len() > 1 ==> digits[0] != '0',
        number(digits) == n,
    ensures
        digits == decimal(n),
    decreases digits.len(),
{
    let d = digits.last() as int - 48;
    assert(digits[digits.len() - 1] == digits.last());
    assert(0 <= d < 10);
    let init = digits.drop_last();
    if init.len() == 0 {
        assert(number(init) == 0);
        assert((0x30 + n % 10) as char == digits.last());
        assert(digits =~= seq![digits.last()]);
    } else {
        assert(all_digits(init)) by {
            assert forall|i: int| 0 <= i < init.len() implies '0' <= #[trigger] init[i] && init[i]
                <= '9' by {
                assert(init[i] == digits[i]);
            }
        }
        assert(init[0] == digits[0]);
        lemma_number_positive(init);
        lemma_digits_unique(init, n / 10);
        assert((0x30 + n % 10) as char == digits.last());
        assert(digits =~= init.push(digits.last()));
    }
}

proof fn lemma_number_positive(digits: Seq<char>)
    requires
        all_digits(digits),
    ensures
        number(digits) >= 0,
        digits[0] != '0' ==> number(digits) > 0,
    decreases digits.len(),
{
    let init = digits.drop_last();
    assert(digits[digits.len() - 1] == digits.last());
    if init.len() > 0 {
        assert(all_digits(init)) by {
            assert forall|i: int| 0 <= i < init.len() implies '0' <= #[trigger] init[i] && init[i]
                <= '9' by {
                assert(init[i] == digits[i]);
            }
        }
        assert(init[0] == digits[0]);
        lemma_number_positive(init);
    } else {
        assert(number(init) == 0);
    }
}

/// The digits of a number spell that number, without a zero before them.
pub proof fn digits_spell_the_number(n: u64, r: String)
    requires
        call_ensures(decimal_text, (n,), r),
    ensures
        all_digits(r@),
        number(r@) == n,
        r@.len() > 1 ==> r@[0] != '0',
{
    lemma_decimal(n as nat);
}

/// The digits of a number spell that number, without a zero before them.
pub proof fn lemma_decimal(n: nat)
    ensures
        all_digits(decimal(n)),
        number(decimal(n)) == n,
        decimal(n).len() > 1 ==> decimal(n)[0] != '0',
        n > 0 ==> decimal(n)[0] != '0',
    decreases n,
{
    let digit = (0x30 + n % 10) as char;
    assert(digit as int == 0x30 + n % 10);
    assert(decimal(n).last() == digit);
    if n < 10 {
        assert(decimal(n).drop_last() =~= Seq::<char>::empty());
        assert(number(decimal(n).drop_last()) == 0);
    } else {
        lemma_decimal(n / 10);
        assert(decimal(n).drop_last() =~= decimal(n / 10));
        assert(decimal(n)[0] == decimal(n / 10)[0]);
    }
}

} // verus!
