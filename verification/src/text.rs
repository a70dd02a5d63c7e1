//! Text: words, joining, numbers and quoting.
//!
//! Text is modelled by its sequence of characters (`Seq<char>`), a list of texts by a sequence of
//! those.

use vstd::prelude::*;

verus! {

/// Appending a character to a string puts it behind the characters that are there
/// (`String::push`).
pub assume_specification[ String::push ](s: &mut String, c: char)
    ensures
        final(s)@ == old(s)@.push(c),
;

/// `String::pop` takes the last character off and returns it; an empty string stays empty and
/// gives `None`.
pub assume_specification[ String::pop ](s: &mut String) -> (last: Option<char>)
    ensures
        old(s)@.len() == 0 ==> last is None && final(s)@ == old(s)@,
        old(s)@.len() > 0 ==> last == Some(old(s)@.last()) && final(s)@ == old(s)@.drop_last(),
;

/// What the `Debug` format of a string shows: the text between double quotes, with the
/// characters that a terminal could not show as they are written as escapes.
pub uninterp spec fn debug_str(text: Seq<char>) -> Seq<char>;

/// A printable ASCII character that no string literal escapes.
pub open spec fn plain_char(c: char) -> bool {
    ' ' <= c <= '~' && c != '"' && c != '\\'
}

/// The text has plain characters only.
pub open spec fn plain(text: Seq<char>) -> bool {
    forall|i: int| 0 <= i < text.len() ==> plain_char(#[trigger] text[i])
}

/// Formats with `{:?}`, the `Debug` of `str`. The result is a function of the text alone; plain
/// text is only put between double quotes.
#[verifier::external_body]
fn quoted(text: &str) -> (shown: String)
    ensures
        shown@ == debug_str(text@),
        plain(text@) ==> shown@ == seq!['"'] + text@ + seq!['"'],
{
    format!("{:?}", text)
}

/// The text in `Debug` form; plain text is only put between double quotes.
pub fn debug_text(text: &str) -> (shown: String)
    ensures
        shown@ == debug_str(text@),
        plain(text@) ==> shown@ == seq!['"'] + text@ + seq!['"'],
{
    quoted(text)
}

/// The texts that a list of strings holds.
pub open spec fn texts(strings: Seq<String>) -> Seq<Seq<char>> {
    strings.map_values(|s: String| s@)
}

/// Whether the two texts are the same.
pub fn same_text(a: &str, b: &str) -> (same: bool)
    ensures
        same == (a@ == b@),
{
    a.to_string() == b.to_string()
}

/// The characters of a text.
fn characters(text: &str) -> (chars: Vec<char>)
    ensures
        chars@ == text@,
{
    let mut chars: Vec<char> = Vec::new();
    for c in it: text.chars()
        invariant
            chars@ == it.seq().take(it.index() as int),
    {
        chars.push(c);
    }
    assert(chars@ == text@);
    chars
}

/// The text behind the prefix, `None` where the text does not start with it.
pub fn strip_prefix(text: &str, prefix: &str) -> (rest: Option<String>)
    ensures
        rest is Some <==> prefix@.is_prefix_of(text@),
        rest matches Some(r) ==> r@ == text@.skip(prefix@.len() as int),
{
    let chars: Vec<char> = characters(text);
    let front: Vec<char> = characters(prefix);
    if chars.len() < front.len() {
        return None;
    }
    let mut i: usize = 0;
    while i < front.len()
        invariant
            chars@ == text@,
            front@ == prefix@,
            i <= front.len() <= chars.len(),
            forall|j: int| 0 <= j < i ==> #[trigger] front@[j] == chars@[j],
        decreases front.len() - i,
    {
        if chars[i] != front[i] {
            assert(prefix@[i as int] != text@[i as int]);
            return None;
        }
        i = i + 1;
    }
    let mut rest: String = String::new();
    while i < chars.len()
        invariant
            chars@ == text@,
            front.len() <= i <= chars.len(),
            rest@ == text@.subrange(front.len() as int, i as int),
        decreases chars.len() - i,
    {
        rest.push(chars[i]);
        i = i + 1;
        assert(rest@ == text@.subrange(front.len() as int, i as int));
    }
    Some(rest)
}

/// Two texts, one behind the other.
pub fn concat2(a: &str, b: &str) -> (text: String)
    ensures
        text@ == a@ + b@,
{
    let mut text: String = a.to_string();
    text.append(b);
    text
}

/// Three texts, one behind the other.
pub fn concat3(a: &str, b: &str, c: &str) -> (text: String)
    ensures
        text@ == a@ + b@ + c@,
{
    let mut text: String = concat2(a, b);
    text.append(c);
    text
}

/// Four texts, one behind the other.
pub fn concat4(a: &str, b: &str, c: &str, d: &str) -> (text: String)
    ensures
        text@ == a@ + b@ + c@ + d@,
{
    let mut text: String = concat3(a, b, c);
    text.append(d);
    text
}

/// The characters with the Unicode property `White_Space`.
pub open spec fn white_space(c: char) -> bool {
    ||| '\u{9}' <= c <= '\u{d}'
    ||| c == ' '
    ||| c == '\u{85}'
    ||| c == '\u{a0}'
    ||| c == '\u{1680}'
    ||| '\u{2000}' <= c <= '\u{200a}'
    ||| c == '\u{2028}'
    ||| c == '\u{2029}'
    ||| c == '\u{202f}'
    ||| c == '\u{205f}'
    ||| c == '\u{3000}'
}

/// Whether the character is white space.
pub fn is_white_space(c: char) -> (white: bool)
    ensures
        white == white_space(c),
{
    ('\u{9}' <= c && c <= '\u{d}') || c == ' ' || c == '\u{85}' || c == '\u{a0}' || c == '\u{1680}'
        || ('\u{2000}' <= c && c <= '\u{200a}') || c == '\u{2028}' || c == '\u{2029}' || c
        == '\u{202f}' || c == '\u{205f}' || c == '\u{3000}'
}

/// How many characters stand before the first white space.
pub open spec fn word_len(text: Seq<char>) -> nat
    decreases text.len(),
{
    if text.len() == 0 || white_space(text[0]) {
        0
    } else {
        1 + word_len(text.skip(1))
    }
}

/// The words of a text: the longest runs of characters without white space, in order.
pub open spec fn words(text: Seq<char>) -> Seq<Seq<char>>
    decreases text.len(),
{
    if text.len() == 0 {
        Seq::empty()
    } else if white_space(text[0]) {
        words(text.skip(1))
    } else {
        proof {
            lemma_word_len(text);
        }
        seq![text.take(word_len(text) as int)] + words(text.skip(word_len(text) as int))
    }
}

pub proof fn lemma_word_len(text: Seq<char>)
    ensures
        word_len(text) <= text.len(),
        forall|i: int| 0 <= i < word_len(text) ==> !white_space(#[trigger] text[i]),
        word_len(text) < text.len() ==> white_space(text[word_len(text) as int]),
    decreases text.len(),
{
    if text.len() > 0 && !white_space(text[0]) {
        lemma_word_len(text.skip(1));
        assert forall|i: int| 0 <= i < word_len(text) implies !white_space(#[trigger] text[i]) by {
            if i > 0 {
                assert(text[i] == text.skip(1)[i - 1]);
            }
        }
    }
}

/// The words of a line, in order.
pub fn split_words(line: &str) -> (found: Vec<String>)
    ensures
        texts(found@) == words(line@),
{
    let chars: Vec<char> = characters(line);
    let ghost text = line@;
    let mut found: Vec<String> = Vec::new();
    let mut i: usize = 0;
    assert(text.skip(0) == text);
    assert(texts(found@) + words(text) == words(text));
    while i < chars.len()
        invariant
            chars@ == text,
            i <= chars.len(),
            texts(found@) + words(text.skip(i as int)) == words(text),
        decreases chars.len() - i,
    {
        let ghost rest = text.skip(i as int);
        assert(rest[0] == text[i as int]);
        if is_white_space(chars[i]) {
            assert(rest.skip(1) == text.skip(i + 1));
            i = i + 1;
        } else {
            let mut word: String = String::new();
            let start: usize = i;
            assert(rest.take(0) == word@);
            while i < chars.len() && !is_white_space(chars[i])
                invariant
                    chars@ == text,
                    start <= i <= chars.len(),
                    rest == text.skip(start as int),
                    word@ == rest.take(i - start),
                    word_len(rest) == (i - start) + word_len(text.skip(i as int)),
                decreases chars.len() - i,
            {
                assert(text.skip(i as int)[0] == text[i as int]);
                assert(text.skip(i as int).skip(1) == text.skip(i + 1));
                word.push(chars[i]);
                i = i + 1;
                assert(word@ == rest.take(i - start));
            }
            assert(word_len(text.skip(i as int)) == 0) by {
                if i < chars.len() {
                    assert(text.skip(i as int)[0] == text[i as int]);
                }
            }
            let ghost before = found@;
            found.push(word);
            proof {
                lemma_word_len(rest);
                assert(rest.skip(i - start) == text.skip(i as int));
                assert(texts(found@) == texts(before).push(rest.take(i - start)));
                assert(texts(found@) + words(text.skip(i as int)) == texts(before) + (seq![
                    rest.take(i - start),
                ] + words(text.skip(i as int))));
            }
        }
    }
    assert(text.skip(i as int) == Seq::<char>::empty());
    assert(texts(found@) + words(text.skip(i as int)) == texts(found@));
    found
}

/// The texts one behind the other, with a separator between neighbours.
pub open spec fn join(parts: Seq<Seq<char>>, separator: Seq<char>) -> Seq<char>
    decreases parts.len(),
{
    if parts.len() == 0 {
        Seq::empty()
    } else if parts.len() == 1 {
        parts[0]
    } else {
        parts[0] + separator + join(parts.skip(1), separator)
    }
}

proof fn lemma_join_push(parts: Seq<Seq<char>>, last: Seq<char>, separator: Seq<char>)
    ensures
        parts.len() == 0 ==> join(parts.push(last), separator) == last,
        parts.len() > 0 ==> join(parts.push(last), separator) == join(parts, separator) + separator
            + last,
    decreases parts.len(),
{
    let all = parts.push(last);
    if parts.len() == 1 {
        assert(all.skip(1) == seq![last]);
        assert(join(all.skip(1), separator) == last);
    } else if parts.len() > 1 {
        lemma_join_push(parts.skip(1), last, separator);
        assert(all.skip(1) == parts.skip(1).push(last));
        assert(join(all, separator) == join(parts, separator) + separator + last);
    }
}

/// Joins the strings from the given index on.
pub fn join_from(parts: &Vec<String>, from: usize, separator: &str) -> (joined: String)
    requires
        from <= parts.len(),
    ensures
        joined@ == join(texts(parts@).skip(from as int), separator@),
{
    let mut joined: String = String::new();
    let mut i: usize = from;
    let ghost all = texts(parts@).skip(from as int);
    assert(all.take(0) == Seq::<Seq<char>>::empty());
    while i < parts.len()
        invariant
            from <= i <= parts.len(),
            all == texts(parts@).skip(from as int),
            joined@ == join(all.take(i - from), separator@),
        decreases parts.len() - i,
    {
        proof {
            lemma_join_push(all.take(i - from), parts@[i as int]@, separator@);
            assert(all.take(i - from).push(parts@[i as int]@) == all.take(i + 1 - from));
        }
        if i > from {
            joined.append(separator);
            joined.append(parts[i].as_str());
        } else {
            joined = parts[i].clone();
        }
        i = i + 1;
    }
    assert(all.take(i - from) == all);
    joined
}

/// A word: some characters, none of them white space.
pub open spec fn is_word(text: Seq<char>) -> bool {
    text.len() > 0 && forall|i: int| 0 <= i < text.len() ==> !white_space(#[trigger] text[i])
}

/// What a text is split into are words.
pub proof fn law_words_are_words(text: Seq<char>)
    ensures
        forall|i: int| 0 <= i < words(text).len() ==> is_word(#[trigger] words(text)[i]),
    decreases text.len(),
{
    if text.len() > 0 {
        if white_space(text[0]) {
            law_words_are_words(text.skip(1));
            assert(words(text) == words(text.skip(1)));
        } else {
            lemma_word_len(text);
            let n = word_len(text) as int;
            law_words_are_words(text.skip(n));
            assert forall|i: int| 0 <= i < words(text).len() implies is_word(
                #[trigger] words(text)[i],
            ) by {
                if i == 0 {
                    assert(words(text)[0] == text.take(n));
                } else {
                    assert(words(text)[i] == words(text.skip(n))[i - 1]);
                }
            }
        }
    }
}

proof fn lemma_first_word(word: Seq<char>, rest: Seq<char>)
    requires
        is_word(word),
        rest.len() > 0 ==> white_space(rest[0]),
    ensures
        words(word + rest) == seq![word] + words(rest),
{
    let text = word + rest;
    lemma_word_len(text);
    let n = word_len(text) as int;
    assert(text[0] == word[0]);
    if n < word.len() {
        assert(text[n] == word[n]);
    }
    if n > word.len() {
        assert(text[word.len() as int] == rest[0]);
    }
    assert(text.take(n) == word);
    assert(text.skip(n) == rest);
}

/// Words that were joined by single spaces are found again when the text is split.
pub proof fn law_joined_words_are_found_again(parts: Seq<Seq<char>>)
    requires
        forall|i: int| 0 <= i < parts.len() ==> is_word(#[trigger] parts[i]),
    ensures
        words(join(parts, " "@)) == parts,
    decreases parts.len(),
{
    reveal_strlit(" ");
    if parts.len() == 1 {
        lemma_first_word(parts[0], Seq::empty());
        assert(parts[0] + Seq::<char>::empty() == parts[0]);
        assert(parts == seq![parts[0]]);
        assert(words(parts[0]) == seq![parts[0]] + Seq::<Seq<char>>::empty());
    } else if parts.len() > 1 {
        let tail = parts.skip(1);
        assert forall|i: int| 0 <= i < tail.len() implies is_word(#[trigger] tail[i]) by {
            assert(tail[i] == parts[i + 1]);
        }
        law_joined_words_are_found_again(tail);
        let rest = " "@ + join(tail, " "@);
        assert(parts[0] + " "@ + join(tail, " "@) == parts[0] + rest);
        assert(rest[0] == ' ');
        assert(rest.skip(1) == join(tail, " "@));
        lemma_first_word(parts[0], rest);
        assert(words(rest) == tail);
        assert(parts == seq![parts[0]] + tail);
    }
}

/// The digit of a number below ten.
pub open spec fn digit(d: nat) -> char {
    ('0' as u32 + d) as char
}

/// The decimal digits of a number, without leading zeros.
pub open spec fn decimal(n: nat) -> Seq<char>
    decreases n,
{
    if n < 10 {
        seq![digit(n)]
    } else {
        decimal(n / 10).push(digit(n % 10))
    }
}

fn digit_char(d: u64) -> (c: char)
    requires
        d < 10,
    ensures
        c == digit(d as nat),
{
    match d {
        0 => '0',
        1 => '1',
        2 => '2',
        3 => '3',
        4 => '4',
        5 => '5',
        6 => '6',
        7 => '7',
        8 => '8',
        _ => '9',
    }
}

/// The number in decimal.
pub fn decimal_text(n: u64) -> (shown: String)
    ensures
        shown@ == decimal(n as nat),
    decreases n,
{
    if n < 10 {
        let mut shown: String = String::new();
        shown.push(digit_char(n));
        assert(shown@ == seq![digit(n as nat)]);
        shown
    } else {
        let mut shown: String = decimal_text(n / 10);
        shown.push(digit_char(n % 10));
        shown
    }
}

/// A word is split off whole: it is the only word of itself, and a text without characters has
/// none.
pub proof fn law_word_stays_whole(word: Seq<char>)
    requires
        is_word(word),
    ensures
        words(word) == seq![word],
        words(Seq::empty()) == Seq::<Seq<char>>::empty(),
{
    lemma_first_word(word, Seq::empty());
    assert(word + Seq::<char>::empty() == word);
    assert(words(word) == seq![word] + Seq::<Seq<char>>::empty());
}

/// White space separates: the words of a text are the words before any white space in it, and then
/// the words behind.
pub proof fn law_white_space_separates_words(before: Seq<char>, c: char, behind: Seq<char>)
    requires
        white_space(c),
    ensures
        words(before + seq![c] + behind) == words(before) + words(behind),
    decreases before.len(),
{
    let text = before + seq![c] + behind;
    if before.len() == 0 {
        assert(text[0] == c);
        assert(text.skip(1) == behind);
        assert(words(before) + words(behind) == words(behind));
    } else if white_space(before[0]) {
        assert(text[0] == before[0]);
        assert(text.skip(1) == before.skip(1) + seq![c] + behind);
        law_white_space_separates_words(before.skip(1), c, behind);
    } else {
        let n = word_len(before) as int;
        let m = word_len(text) as int;
        lemma_word_len(before);
        lemma_word_len(text);
        assert(text[0] == before[0]);
        if m < n {
            assert(text[m] == before[m]);
        }
        if n < m {
            if n < before.len() {
                assert(text[n] == before[n]);
            } else {
                assert(text[n] == c);
            }
        }
        assert(text.take(n) == before.take(n));
        assert(text.skip(n) == before.skip(n) + seq![c] + behind);
        law_white_space_separates_words(before.skip(n), c, behind);
        assert(words(text) == words(before) + words(behind));
    }
}

/// One text is joined to itself. Two lists that are joined one behind the other stand with one
/// separator between them.
pub proof fn law_joining_puts_one_separator_between(
    front: Seq<Seq<char>>,
    back: Seq<Seq<char>>,
    separator: Seq<char>,
)
    ensures
        join(Seq::empty(), separator) == Seq::<char>::empty(),
        front.len() == 1 ==> join(front, separator) == front[0],
        front.len() > 0 && back.len() > 0 ==> join(front + back, separator) == join(
            front,
            separator,
        ) + separator + join(back, separator),
    decreases front.len(),
{
    if front.len() > 0 && back.len() > 0 {
        let all = front + back;
        if front.len() == 1 {
            assert(all.skip(1) == back);
        } else {
            assert(all.skip(1) == front.skip(1) + back);
            law_joining_puts_one_separator_between(front.skip(1), back, separator);
            assert(join(all, separator) == join(front, separator) + separator + join(
                back,
                separator,
            ));
        }
    }
}

/// The number that decimal digits write down.
pub open spec fn number(digits: Seq<char>) -> int
    decreases digits.len(),
{
    if digits.len() == 0 {
        0
    } else {
        10 * number(digits.drop_last()) + (digits.last() as u32 - '0' as u32)
    }
}

/// A number in decimal reads back as that number; it has digits only, and no zero in front unless
/// it is zero.
pub proof fn law_decimal_reads_back(n: nat)
    ensures
        number(decimal(n)) == n,
        decimal(n).len() > 0,
        forall|i: int| 0 <= i < decimal(n).len() ==> '0' <= #[trigger] decimal(n)[i] <= '9',
        n > 0 ==> decimal(n)[0] != '0',
    decreases n,
{
    let d = n % 10;
    assert(digit(d) as u32 == 48 + d) by {
        assert(d == 0 || d == 1 || d == 2 || d == 3 || d == 4 || d == 5 || d == 6 || d == 7 || d
            == 8 || d == 9);
    }
    if n < 10 {
        assert(decimal(n).drop_last() == Seq::<char>::empty());
        assert(number(Seq::empty()) == 0);
        assert(number(decimal(n)) == n);
    } else {
        law_decimal_reads_back(n / 10);
        assert(decimal(n).drop_last() == decimal(n / 10));
        assert(number(decimal(n)) == 10 * (n / 10) + d);
        assert(decimal(n)[0] == decimal(n / 10)[0]);
        assert forall|i: int| 0 <= i < decimal(n).len() implies '0' <= #[trigger] decimal(n)[i]
            <= '9' by {
            if i < decimal(n / 10).len() {
                assert(decimal(n)[i] == decimal(n / 10)[i]);
            }
        }
    }
}

} // verus!
