//! Text as sequences of characters: trimming, searching, splitting and joining.

use vstd::prelude::*;
use vstd::slice::{slice_subrange, slice_to_vec};

verus! {

/// `String::push` of std: appends the given character to the end of the string.
pub assume_specification[ String::push ](s: &mut String, c: char)
    ensures
        final(s)@ == old(s)@.push(c),
;

/// Whether `c` has the Unicode property White_Space.
pub open spec fn white_space(c: char) -> bool {
    let u = c as u32;
    ||| 0x9 <= u <= 0xd
    ||| u == 0x20
    ||| u == 0x85
    ||| u == 0xa0
    ||| u == 0x1680
    ||| 0x2000 <= u <= 0x200a
    ||| u == 0x2028
    ||| u == 0x2029
    ||| u == 0x202f
    ||| u == 0x205f
    ||| u == 0x3000
}

/// `s` without its leading white space.
pub open spec fn trim_start(s: Seq<char>) -> Seq<char>
    decreases s.len(),
{
    if s.len() > 0 && white_space(s[0]) {
        trim_start(s.drop_first())
    } else {
        s
    }
}

/// `s` without its trailing white space.
pub open spec fn trim_end(s: Seq<char>) -> Seq<char>
    decreases s.len(),
{
    if s.len() > 0 && white_space(s.last()) {
        trim_end(s.drop_last())
    } else {
        s
    }
}

/// `s` without its leading and trailing white space.
pub open spec fn trim(s: Seq<char>) -> Seq<char> {
    trim_end(trim_start(s))
}

/// `c` with an ASCII capital turned into its small letter.
pub open spec fn lower_char(c: char) -> char {
    if 'A' <= c && c <= 'Z' {
        (c as u32 + 32) as char
    } else {
        c
    }
}

/// `s` with its ASCII capitals turned into small letters.
pub open spec fn lower(s: Seq<char>) -> Seq<char> {
    s.map_values(|c: char| lower_char(c))
}

/// The position of the first `c` in `s`, or the length of `s` where there is none.
pub open spec fn first_index(s: Seq<char>, c: char) -> int
    decreases s.len(),
{
    if s.len() == 0 || s[0] == c {
        0
    } else {
        1 + first_index(s.drop_first(), c)
    }
}

/// The position of the last `c` in `s`, or -1 where there is none.
pub open spec fn last_index(s: Seq<char>, c: char) -> int
    decreases s.len(),
{
    if s.len() == 0 {
        -1
    } else if s.last() == c {
        s.len() - 1
    } else {
        last_index(s.drop_last(), c)
    }
}

/// What stands before the first `c` in `s`: all of `s` where there is none.
pub open spec fn before_first(s: Seq<char>, c: char) -> Seq<char> {
    s.take(first_index(s, c))
}

/// What stands behind the first `c` in `s`.
pub open spec fn after_first(s: Seq<char>, c: char) -> Seq<char>
    recommends
        s.contains(c),
{
    s.skip(first_index(s, c) + 1)
}

/// The position at which `pattern` first occurs in `s`.
pub open spec fn occurrence(s: Seq<char>, pattern: Seq<char>) -> Option<int>
    decreases s.len(),
{
    if pattern.is_prefix_of(s) {
        Some(0)
    } else if s.len() == 0 {
        None
    } else {
        match occurrence(s.drop_first(), pattern) {
            Some(k) => Some(k + 1),
            None => None,
        }
    }
}

/// What stands behind the first occurrence of `pattern` in `s`.
pub open spec fn behind(s: Seq<char>, pattern: Seq<char>) -> Option<Seq<char>> {
    match occurrence(s, pattern) {
        Some(k) => Some(s.skip(k + pattern.len())),
        None => None,
    }
}

/// What stands ahead of the first occurrence of `pattern` in `s`.
pub open spec fn ahead(s: Seq<char>, pattern: Seq<char>) -> Option<Seq<char>> {
    match occurrence(s, pattern) {
        Some(k) => Some(s.take(k)),
        None => None,
    }
}

/// The test for characters other than `c`.
pub open spec fn other_than(c: char) -> spec_fn(char) -> bool {
    |x: char| x != c
}

/// `s` without every `c`.
pub open spec fn without(s: Seq<char>, c: char) -> Seq<char> {
    s.filter(other_than(c))
}

/// `line` without one carriage return at its end.
pub open spec fn chomp(line: Seq<char>) -> Seq<char> {
    if line.len() > 0 && line.last() == '\r' {
        line.drop_last()
    } else {
        line
    }
}

/// The lines of `s`: each ends in a line feed, or in a carriage return and a line feed, or at
/// the end of `s`.
pub open spec fn lines(s: Seq<char>) -> Seq<Seq<char>>
    decreases s.len(),
{
    let k = first_index(s, '\n');
    if s.len() == 0 {
        seq![]
    } else if k < 0 || k >= s.len() {
        seq![s]
    } else {
        seq![chomp(s.take(k))] + lines(s.skip(k + 1))
    }
}

/// The number of characters before the first white space of `s`.
pub open spec fn word_len(s: Seq<char>) -> int
    decreases s.len(),
{
    if s.len() == 0 || white_space(s[0]) {
        0
    } else {
        1 + word_len(s.drop_first())
    }
}

/// The maximal runs of `s` that hold no white space.
pub open spec fn words(s: Seq<char>) -> Seq<Seq<char>>
    decreases s.len(),
{
    if s.len() == 0 {
        seq![]
    } else if white_space(s[0]) {
        words(s.drop_first())
    } else {
        let k = word_len(s);
        if 0 < k <= s.len() {
            seq![s.take(k)] + words(s.skip(k))
        } else {
            seq![]
        }
    }
}

/// The given words, with one space between each two.
pub open spec fn spaced(list: Seq<Seq<char>>) -> Seq<char>
    decreases list.len(),
{
    if list.len() == 0 {
        seq![]
    } else if list.len() == 1 {
        list[0]
    } else {
        list[0] + seq![' '] + spaced(list.drop_first())
    }
}

/// `s` with each run of white space turned into one space, and none at either end.
pub open spec fn collapse(s: Seq<char>) -> Seq<char> {
    spaced(words(s))
}

pub proof fn lemma_first_index(s: Seq<char>, c: char)
    ensures
        0 <= first_index(s, c) <= s.len(),
        forall|i: int| 0 <= i < first_index(s, c) ==> s[i] != c,
        first_index(s, c) < s.len() ==> s[first_index(s, c)] == c,
    decreases s.len(),
{
    if s.len() > 0 && s[0] != c {
        let t = s.drop_first();
        lemma_first_index(t, c);
        assert forall|i: int| 0 <= i < first_index(s, c) implies s[i] != c by {
            if i > 0 {
                assert(t[i - 1] == s[i]);
            }
        }
    }
}

/// The clauses of `lemma_first_index` hold of one position only.
pub proof fn lemma_first_index_unique(s: Seq<char>, c: char, k: int)
    requires
        0 <= k <= s.len(),
        forall|i: int| 0 <= i < k ==> s[i] != c,
        k < s.len() ==> s[k] == c,
    ensures
        first_index(s, c) == k,
{
    lemma_first_index(s, c);
    let f = first_index(s, c);
    if f < k {
        assert(s[f] != c);
    } else if k < f {
        assert(s[k] != c);
    }
}

pub proof fn lemma_last_index(s: Seq<char>, c: char)
    ensures
        -1 <= last_index(s, c) < s.len(),
        forall|i: int| last_index(s, c) < i < s.len() ==> s[i] != c,
        last_index(s, c) >= 0 ==> s[last_index(s, c)] == c,
    decreases s.len(),
{
    if s.len() > 0 && s.last() != c {
        let t = s.drop_last();
        lemma_last_index(t, c);
        assert forall|i: int| last_index(s, c) < i < s.len() implies s[i] != c by {
            if i < s.len() - 1 {
                assert(t[i] == s[i]);
            }
        }
    }
}

/// The clauses of `lemma_last_index` hold of one position only.
pub proof fn lemma_last_index_unique(s: Seq<char>, c: char, k: int)
    requires
        -1 <= k < s.len(),
        forall|i: int| k < i < s.len() ==> s[i] != c,
        k >= 0 ==> s[k] == c,
    ensures
        last_index(s, c) == k,
{
    lemma_last_index(s, c);
    let f = last_index(s, c);
    if f < k {
        assert(s[k] != c);
    } else if k < f {
        assert(s[f] != c);
    }
}

/// Whether `s` is not empty and holds no white space.
pub open spec fn is_word(s: Seq<char>) -> bool {
    s.len() > 0 && forall|i: int| 0 <= i < s.len() ==> !white_space(#[trigger] s[i])
}

proof fn lemma_word_len(s: Seq<char>)
    ensures
        0 <= word_len(s) <= s.len(),
        forall|i: int| 0 <= i < word_len(s) ==> !white_space(#[trigger] s[i]),
        word_len(s) < s.len() ==> white_space(s[word_len(s)]),
    decreases s.len(),
{
    if s.len() > 0 && !white_space(s[0]) {
        let t = s.drop_first();
        lemma_word_len(t);
        assert forall|i: int| 0 <= i < word_len(s) implies !white_space(#[trigger] s[i]) by {
            if i > 0 {
                assert(t[i - 1] == s[i]);
            }
        }
    }
}

/// The words of a text are words.
pub proof fn lemma_words(s: Seq<char>)
    ensures
        forall|i: int| 0 <= i < words(s).len() ==> is_word(#[trigger] words(s)[i]),
    decreases s.len(),
{
    if s.len() > 0 {
        if white_space(s[0]) {
            lemma_words(s.drop_first());
            assert(words(s) == words(s.drop_first()));
        } else {
            lemma_word_len(s);
            assert(word_len(s) > 0) by {
                lemma_word_len(s.drop_first());
            }
            let k = word_len(s);
            let head = s.take(k);
            let tail = words(s.skip(k));
            lemma_words(s.skip(k));
            assert(is_word(head)) by {
                assert forall|i: int| 0 <= i < head.len() implies !white_space(
                    #[trigger] head[i],
                ) by {
                    assert(head[i] == s[i]);
                }
            }
            assert forall|i: int| 0 <= i < words(s).len() implies is_word(
                #[trigger] words(s)[i],
            ) by {
                if i > 0 {
                    assert(words(s)[i] == tail[i - 1]);
                }
            }
        }
    }
}

/// A word at the start of a text is its first word, where it ends or white space follows.
proof fn lemma_leading_word(word: Seq<char>, rest: Seq<char>)
    requires
        is_word(word),
        rest.len() == 0 || white_space(rest[0]),
    ensures
        words(word + rest) == seq![word] + words(rest),
{
    let s = word + rest;
    lemma_word_len(s);
    let k = word_len(s);
    if k < word.len() {
        assert(s[k] == word[k]);
    } else if k > word.len() {
        assert(s[word.len() as int] == rest[0]);
    }
    assert(s[0] == word[0]);
    assert(s.take(k) =~= word);
    assert(s.skip(k) =~= rest);
}

/// Words with single spaces between them are the words of the text that they make.
pub proof fn lemma_spaced_words(list: Seq<Seq<char>>)
    requires
        forall|i: int| 0 <= i < list.len() ==> is_word(#[trigger] list[i]),
    ensures
        words(spaced(list)) == list,
    decreases list.len(),
{
    if list.len() == 0 {
        assert(words(spaced(list)) =~= list);
    } else if list.len() == 1 {
        let empty = Seq::<char>::empty();
        lemma_leading_word(list[0], empty);
        assert(list[0] + empty =~= list[0]);
        assert(words(empty) =~= Seq::<Seq<char>>::empty());
        assert(words(spaced(list)) =~= list);
    } else {
        let tail = list.drop_first();
        assert forall|i: int| 0 <= i < tail.len() implies is_word(#[trigger] tail[i]) by {
            assert(tail[i] == list[i + 1]);
        }
        lemma_spaced_words(tail);
        let rest = seq![' '] + spaced(tail);
        lemma_leading_word(list[0], rest);
        assert(spaced(list) =~= list[0] + rest);
        assert(rest.drop_first() =~= spaced(tail));
        assert(words(rest) == words(spaced(tail)));
        assert(words(spaced(list)) =~= list);
    }
}

/// To collapse the white space of a text that was collapsed changes nothing.
pub proof fn collapse_is_idempotent(s: Seq<char>)
    ensures
        collapse(collapse(s)) == collapse(s),
{
    lemma_words(s);
    lemma_spaced_words(words(s));
}

/// A trimmed text has no white space at either end.
pub proof fn lemma_trim(s: Seq<char>)
    ensures
        trim(s).len() > 0 ==> !white_space(trim(s)[0]) && !white_space(trim(s).last()),
{
    lemma_trim_start(s);
    lemma_trim_end(trim_start(s));
}

proof fn lemma_trim_start(s: Seq<char>)
    ensures
        trim_start(s).len() > 0 ==> !white_space(trim_start(s)[0]),
    decreases s.len(),
{
    if s.len() > 0 && white_space(s[0]) {
        lemma_trim_start(s.drop_first());
    }
}

proof fn lemma_trim_end(s: Seq<char>)
    ensures
        trim_end(s).len() > 0 ==> !white_space(trim_end(s).last()) && trim_end(s)[0] == s[0],
    decreases s.len(),
{
    if s.len() > 0 && white_space(s.last()) {
        lemma_trim_end(s.drop_last());
    }
}

/// To trim a trimmed text changes nothing.
pub proof fn trim_is_idempotent(s: Seq<char>)
    ensures
        trim(trim(s)) == trim(s),
{
    lemma_trim(s);
}

/// A text between white space: what each of the three ways to trim leaves of it.
pub proof fn lemma_trim_between(s: Seq<char>, i: int, j: int)
    requires
        0 <= i < j <= s.len(),
        forall|k: int| 0 <= k < i ==> white_space(#[trigger] s[k]),
        forall|k: int| j <= k < s.len() ==> white_space(#[trigger] s[k]),
        !white_space(s[i]),
        !white_space(s[j - 1]),
    ensures
        trim_start(s) == s.skip(i),
        trim_end(s) == s.take(j),
        trim(s) == s.subrange(i, j),
{
    lemma_trim_start_at(s, i);
    lemma_trim_end_at(s, j);
    lemma_trim_end_at(s.skip(i), j - i);
    assert(s.skip(i).take(j - i) =~= s.subrange(i, j));
}

proof fn lemma_trim_start_at(s: Seq<char>, i: int)
    requires
        0 <= i < s.len(),
        forall|k: int| 0 <= k < i ==> white_space(#[trigger] s[k]),
        !white_space(s[i]),
    ensures
        trim_start(s) == s.skip(i),
    decreases s.len(),
{
    if i > 0 {
        let t = s.drop_first();
        assert forall|k: int| 0 <= k < i - 1 implies white_space(#[trigger] t[k]) by {
            assert(t[k] == s[k + 1]);
        }
        lemma_trim_start_at(t, i - 1);
        assert(t.skip(i - 1) =~= s.skip(i));
        assert(white_space(s[0]));
    } else {
        assert(s.skip(0) =~= s);
    }
}

proof fn lemma_trim_end_at(s: Seq<char>, j: int)
    requires
        0 < j <= s.len(),
        forall|k: int| j <= k < s.len() ==> white_space(#[trigger] s[k]),
        !white_space(s[j - 1]),
    ensures
        trim_end(s) == s.take(j),
    decreases s.len(),
{
    if j < s.len() {
        let t = s.drop_last();
        assert forall|k: int| j <= k < t.len() implies white_space(#[trigger] t[k]) by {
            assert(t[k] == s[k]);
        }
        lemma_trim_end_at(t, j);
        assert(t.take(j) =~= s.take(j));
        assert(white_space(s[s.len() - 1]));
    } else {
        assert(s.take(j) =~= s);
    }
}

/// Where the text of `s` begins and ends.
pub proof fn lemma_text_bounds(s: Seq<char>) -> (bounds: (int, int))
    requires
        trim(s).len() > 0,
    ensures
        0 <= bounds.0 < bounds.1 <= s.len(),
        forall|k: int| 0 <= k < bounds.0 ==> white_space(#[trigger] s[k]),
        forall|k: int| bounds.1 <= k < s.len() ==> white_space(#[trigger] s[k]),
        !white_space(s[bounds.0]),
        !white_space(s[bounds.1 - 1]),
    decreases s.len(),
{
    if s.len() > 0 && white_space(s[0]) {
        let t = s.drop_first();
        let (i, j) = lemma_text_bounds(t);
        assert forall|k: int| 0 <= k < i + 1 implies white_space(#[trigger] s[k]) by {
            if k > 0 {
                assert(s[k] == t[k - 1]);
            }
        }
        assert forall|k: int| j + 1 <= k < s.len() implies white_space(#[trigger] s[k]) by {
            assert(s[k] == t[k - 1]);
        }
        (i + 1, j + 1)
    } else {
        let j = lemma_end_bound(s);
        (0, j)
    }
}

proof fn lemma_end_bound(s: Seq<char>) -> (j: int)
    requires
        trim_end(s).len() > 0,
    ensures
        0 < j <= s.len(),
        forall|k: int| j <= k < s.len() ==> white_space(#[trigger] s[k]),
        !white_space(s[j - 1]),
    decreases s.len(),
{
    if s.len() > 0 && white_space(s.last()) {
        let t = s.drop_last();
        let j = lemma_end_bound(t);
        assert forall|k: int| j <= k < s.len() implies white_space(#[trigger] s[k]) by {
            if k < t.len() {
                assert(s[k] == t[k]);
            }
        }
        j
    } else {
        s.len() as int
    }
}

/// The decimal digits of `n`.
pub open spec fn decimal(n: nat) -> Seq<char>
    decreases n,
{
    let digit = (0x30 + n % 10) as char;
    if n < 10 {
        seq![digit]
    } else {
        decimal(n / 10).push(digit)
    }
}

/// The decimal digits of `n`.
pub fn decimal_text(n: u64) -> (r: String)
    ensures
        r@ == decimal(n as nat),
    decreases n,
{
    let digit = (0x30u8 + (n % 10) as u8) as char;
    let mut r: String = if n < 10 {
        String::new()
    } else {
        decimal_text(n / 10)
    };
    r.push(digit);
    assert(r@ =~= decimal(n as nat));
    r
}

/// Whether `c` is white space.
pub fn is_white_space(c: char) -> (r: bool)
    ensures
        r == white_space(c),
{
    let u: u32 = c as u32;
    (0x9 <= u && u <= 0xd) || u == 0x20 || u == 0x85 || u == 0xa0 || u == 0x1680 || (0x2000 <= u
        && u <= 0x200a) || u == 0x2028 || u == 0x2029 || u == 0x202f || u == 0x205f || u == 0x3000
}

/// The characters of `s`.
pub fn chars_of(s: &str) -> (v: Vec<char>)
    ensures
        v@ == s@,
{
    let mut v: Vec<char> = Vec::new();
    for c in it: s.chars()
        invariant
            v@ == it.seq().take(it.index()),
    {
        v.push(c);
    }
    v
}

/// The given characters as a string.
pub fn text_of(chars: &[char]) -> (s: String)
    ensures
        s@ == chars@,
{
    let mut s: String = String::new();
    let n: usize = chars.len();
    for i in 0..n
        invariant
            n == chars@.len(),
            s@ == chars@.take(i as int),
    {
        s.push(chars[i]);
    }
    s
}

/// Whether the given characters are those of `text`.
pub fn same_text(chars: &[char], text: &str) -> (r: bool)
    ensures
        r == (chars@ == text@),
{
    let other = chars_of(text);
    if chars.len() != other.len() {
        return false;
    }
    let n: usize = chars.len();
    for i in 0..n
        invariant
            n == chars@.len(),
            n == other@.len(),
            other@ == text@,
            forall|j: int| 0 <= j < i ==> chars@[j] == other@[j],
    {
        if chars[i] != other[i] {
            return false;
        }
    }
    assert(chars@ =~= other@);
    true
}

/// Whether the two texts are the same.
pub fn equal_text(a: &str, b: &str) -> (r: bool)
    ensures
        r == (a@ == b@),
{
    let chars = chars_of(a);
    same_text(chars.as_slice(), b)
}

/// The given characters without leading and trailing white space.
pub fn trim_chars(chars: &[char]) -> (r: &[char])
    ensures
        r@ == trim(chars@),
{
    let n: usize = chars.len();
    let mut i: usize = 0;
    assert(chars@.skip(0) =~= chars@);
    while i < n && is_white_space(chars[i])
        invariant
            n == chars@.len(),
            0 <= i <= n,
            trim_start(chars@) == trim_start(chars@.skip(i as int)),
        decreases n - i,
    {
        assert(chars@.skip(i as int).drop_first() =~= chars@.skip(i + 1));
        i = i + 1;
    }
    let ghost s = chars@.skip(i as int);
    assert(trim_start(chars@) == s);
    let mut j: usize = n;
    assert(chars@.subrange(i as int, n as int) =~= s);
    while i < j && is_white_space(chars[j - 1])
        invariant
            n == chars@.len(),
            0 <= i <= j <= n,
            trim_end(s) == trim_end(chars@.subrange(i as int, j as int)),
        decreases j,
    {
        assert(chars@.subrange(i as int, j as int).drop_last() =~= chars@.subrange(
            i as int,
            j - 1,
        ));
        assert(chars@.subrange(i as int, j as int).last() == chars@[j - 1]);
        j = j - 1;
    }
    proof {
        if i < j {
            assert(chars@.subrange(i as int, j as int).last() == chars@[j - 1]);
        }
    }
    slice_subrange(chars, i, j)
}

/// `s` without leading and trailing white space.
pub fn trim_text(s: &str) -> (r: String)
    ensures
        r@ == trim(s@),
{
    let chars = chars_of(s);
    text_of(trim_chars(chars.as_slice()))
}

/// The given characters with ASCII capitals turned into small letters.
pub fn lower_chars(chars: &[char]) -> (v: Vec<char>)
    ensures
        v@ == lower(chars@),
{
    let mut v: Vec<char> = Vec::new();
    let n: usize = chars.len();
    for i in 0..n
        invariant
            n == chars@.len(),
            v@ == lower(chars@.take(i as int)),
    {
        let c = chars[i];
        let l = if 'A' <= c && c <= 'Z' {
            ((c as u8) + 32u8) as char
        } else {
            c
        };
        assert(l == lower_char(c));
        v.push(l);
        assert(chars@.take(i + 1) =~= chars@.take(i as int).push(c));
        assert(lower(chars@.take(i + 1)) =~= lower(chars@.take(i as int)).push(l));
    }
    assert(chars@.take(n as int) =~= chars@);
    v
}

/// The position of the first `c`, or the number of characters where there is none.
pub fn find_first(chars: &[char], c: char) -> (r: usize)
    ensures
        r == first_index(chars@, c),
        r <= chars@.len(),
{
    let n: usize = chars.len();
    let mut i: usize = 0;
    while i < n && chars[i] != c
        invariant
            n == chars@.len(),
            i <= n,
            forall|j: int| 0 <= j < i ==> chars@[j] != c,
        decreases n - i,
    {
        i = i + 1;
    }
    proof {
        lemma_first_index_unique(chars@, c, i as int);
    }
    i
}

/// The position of the last `c`.
pub fn find_last(chars: &[char], c: char) -> (r: Option<usize>)
    ensures
        match r {
            Some(k) => k == last_index(chars@, c) && k < chars@.len(),
            None => last_index(chars@, c) == -1,
        },
{
    let n: usize = chars.len();
    let mut i: usize = n;
    while i > 0
        invariant
            n == chars@.len(),
            i <= n,
            forall|j: int| i <= j < n ==> chars@[j] != c,
        decreases i,
    {
        if chars[i - 1] == c {
            proof {
                lemma_last_index_unique(chars@, c, i - 1);
            }
            return Some(i - 1);
        }
        i = i - 1;
    }
    proof {
        lemma_last_index_unique(chars@, c, -1);
    }
    None
}

/// Whether the given characters begin with `prefix`.
pub fn begins_with(chars: &[char], prefix: &str) -> (r: bool)
    ensures
        r == prefix@.is_prefix_of(chars@),
{
    let p = chars_of(prefix);
    if p.len() > chars.len() {
        return false;
    }
    let head = slice_subrange(chars, 0, p.len());
    same_text(head, prefix)
}

/// The position at which `pattern` first occurs.
pub fn find_text(chars: &[char], pattern: &str) -> (r: Option<usize>)
    ensures
        match r {
            Some(k) => occurrence(chars@, pattern@) == Some(k as int) && k + pattern@.len()
                <= chars@.len(),
            None => occurrence(chars@, pattern@) is None,
        },
{
    let n: usize = chars.len();
    let mut i: usize = 0;
    assert(chars@.skip(0) =~= chars@);
    while i < n
        invariant
            n == chars@.len(),
            i <= n,
            match occurrence(chars@.skip(i as int), pattern@) {
                Some(k) => occurrence(chars@, pattern@) == Some(k + i),
                None => occurrence(chars@, pattern@) is None,
            },
        decreases n - i,
    {
        let rest = slice_subrange(chars, i, n);
        assert(rest@ =~= chars@.skip(i as int));
        if begins_with(rest, pattern) {
            return Some(i);
        }
        assert(chars@.skip(i as int).drop_first() =~= chars@.skip(i + 1));
        i = i + 1;
    }
    let rest = slice_subrange(chars, n, n);
    assert(rest@ =~= chars@.skip(n as int));
    if begins_with(rest, pattern) {
        return Some(n);
    }
    None
}

/// What stands behind the first occurrence of `pattern`.
pub fn behind_text<'a>(chars: &'a [char], pattern: &str) -> (r: Option<&'a [char]>)
    ensures
        match r {
            Some(rest) => behind(chars@, pattern@) == Some(rest@),
            None => behind(chars@, pattern@) is None,
        },
{
    let n: usize = chars.len();
    let k = find_text(chars, pattern)?;
    let m: usize = chars_of(pattern).len();
    let rest = slice_subrange(chars, k + m, n);
    assert(rest@ =~= chars@.skip(k + pattern@.len()));
    Some(rest)
}

/// What stands ahead of the first occurrence of `pattern`.
pub fn ahead_text<'a>(chars: &'a [char], pattern: &str) -> (r: Option<&'a [char]>)
    ensures
        match r {
            Some(head) => ahead(chars@, pattern@) == Some(head@),
            None => ahead(chars@, pattern@) is None,
        },
{
    let k = find_text(chars, pattern)?;
    let head = slice_subrange(chars, 0, k);
    assert(head@ =~= chars@.take(k as int));
    Some(head)
}

/// `s` without every `c`.
pub fn remove_char(s: &str, c: char) -> (r: String)
    ensures
        r@ == without(s@, c),
{
    let chars = chars_of(s);
    let mut r: String = String::new();
    let n: usize = chars.len();
    proof {
        reveal(Seq::filter);
    }
    for i in 0..n
        invariant
            n == chars@.len(),
            r@ == without(chars@.take(i as int), c),
    {
        proof {
            reveal(Seq::filter);
            assert(chars@.take(i + 1).drop_last() =~= chars@.take(i as int));
        }
        if chars[i] != c {
            r.push(chars[i]);
        }
    }
    assert(chars@.take(n as int) =~= chars@);
    r
}

/// The texts that the given vectors of characters hold.
pub open spec fn texts(list: Seq<Vec<char>>) -> Seq<Seq<char>> {
    list.map_values(|t: Vec<char>| t@)
}

/// The lines of `s`.
pub fn lines_of(s: &str) -> (v: Vec<Vec<char>>)
    ensures
        texts(v@) == lines(s@),
{
    let chars = chars_of(s);
    let n: usize = chars.len();
    let mut v: Vec<Vec<char>> = Vec::new();
    let mut start: usize = 0;
    assert(chars@.skip(0) =~= chars@);
    assert(texts(v@) + lines(chars@) =~= lines(chars@));
    while start < n
        invariant
            n == chars@.len(),
            start <= n,
            texts(v@) + lines(chars@.skip(start as int)) == lines(chars@),
        decreases n - start,
    {
        let ghost before = v@;
        let rest = slice_subrange(chars.as_slice(), start, n);
        assert(rest@ =~= chars@.skip(start as int));
        let k = find_first(rest, '\n');
        if k == rest.len() {
            let line = slice_to_vec(rest);
            v.push(line);
            start = n;
            proof {
                assert(chars@.skip(n as int) =~= Seq::<char>::empty());
                assert(texts(v@) =~= texts(before).push(rest@));
                assert(lines(rest@) =~= seq![rest@]);
                assert(texts(v@) + lines(chars@.skip(n as int)) =~= texts(before) + lines(rest@));
            }
        } else {
            let end: usize = if k > 0 && rest[k - 1] == '\r' {
                k - 1
            } else {
                k
            };
            let line = slice_to_vec(slice_subrange(rest, 0, end));
            v.push(line);
            start = start + k + 1;
            proof {
                let head = rest@.take(k as int);
                assert(line@ =~= chomp(head)) by {
                    if k > 0 {
                        assert(head.last() == rest@[k - 1]);
                    }
                }
                assert(rest@.skip(k + 1) =~= chars@.skip(start as int));
                assert(texts(v@) =~= texts(before).push(line@));
                assert(texts(v@) + lines(chars@.skip(start as int)) =~= texts(before) + (seq![
                    line@,
                ] + lines(chars@.skip(start as int))));
            }
        }
    }
    v
}

/// The words of `s`, with one space between each two.
pub fn collapse_text(s: &str) -> (r: String)
    ensures
        r@ == collapse(s@),
{
    let chars = chars_of(s);
    let n: usize = chars.len();
    let mut r: String = String::new();
    let mut i: usize = 0;
    let mut any: bool = false;
    assert(chars@.skip(0) =~= chars@);
    while i < n
        invariant
            n == chars@.len(),
            i <= n,
            !any ==> r@.len() == 0,
            collapse(chars@) == joined(any, r@, words(chars@.skip(i as int))),
        decreases n - i,
    {
        let ghost rest = chars@.skip(i as int);
        if is_white_space(chars[i]) {
            assert(rest.drop_first() =~= chars@.skip(i + 1));
            i = i + 1;
        } else {
            let ghost before = r@;
            let ghost was = any;
            let ghost start = i;
            if any {
                r.push(' ');
            }
            let ghost led = r@;
            assert(chars@.subrange(start as int, i as int) =~= Seq::<char>::empty());
            while i < n && !is_white_space(chars[i])
                invariant
                    n == chars@.len(),
                    start <= i <= n,
                    r@ == led + chars@.subrange(start as int, i as int),
                    word_len(chars@.skip(start as int)) == (i - start) + word_len(
                        chars@.skip(i as int),
                    ),
                decreases n - i,
            {
                assert(chars@.skip(i as int).drop_first() =~= chars@.skip(i + 1));
                assert(chars@.subrange(start as int, i + 1) =~= chars@.subrange(
                    start as int,
                    i as int,
                ).push(chars@[i as int]));
                r.push(chars[i]);
                i = i + 1;
            }
            any = true;
            proof {
                let k = (i - start) as int;
                assert(word_len(rest) == k);
                assert(k > 0);
                let word = rest.take(k);
                assert(word =~= chars@.subrange(start as int, i as int));
                assert(rest.skip(k) =~= chars@.skip(i as int));
                let tail = words(chars@.skip(i as int));
                assert(words(rest) == seq![word] + tail);
                assert(words(rest).drop_first() =~= tail);
                assert(words(rest)[0] == word);
                if tail.len() == 0 {
                    assert(spaced(words(rest)) == word);
                } else {
                    assert(spaced(words(rest)) == word + seq![' '] + spaced(tail));
                }
                assert(joined(was, before, words(rest)) =~= joined(any, r@, tail));
            }
        }
    }
    assert(words(chars@.skip(i as int)) =~= Seq::<Seq<char>>::empty());
    r
}

/// `head`, a list of words already spaced, followed by the words `tail`.
spec fn joined(any: bool, head: Seq<char>, tail: Seq<Seq<char>>) -> Seq<char> {
    if !any {
        spaced(tail)
    } else if tail.len() == 0 {
        head
    } else {
        head + seq![' '] + spaced(tail)
    }
}

} // verus!
