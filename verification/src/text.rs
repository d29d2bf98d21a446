//! Text helpers: whitespace, decimal rendering, line counting and joining.

use vstd::prelude::*;

verus! {

broadcast use vstd::string::group_string_axioms;

/// `String::push` of the standard library: the character is appended at the
/// end, and nothing else of the string changes.
pub assume_specification[ String::push ](s: &mut String, c: char)
    ensures
        final(s)@ == old(s)@.push(c),
;

/// Whether `c` carries the Unicode `White_Space` property.
pub open spec fn is_whitespace(c: char) -> bool {
    ||| '\u{9}' <= c <= '\u{d}'
    ||| c == ' '
    ||| c == '\u{85}'
    ||| c == '\u{a0}'
    ||| c == '\u{1680}'
    ||| '\u{2000}' <= c <= '\u{200a}'
    ||| c == '\u{2028}'
    ||| c == '\u{2029}'
    ||| c == '\u{202f}'
    ||| c == '\u{205f}'
    ||| c == '\u{3000}'
}

/// Whether some character of `s` is whitespace.
pub open spec fn has_whitespace(s: Seq<char>) -> bool {
    exists|i: int| 0 <= i < s.len() && is_whitespace(#[trigger] s[i])
}

/// Whether `c` is whitespace.
pub fn char_is_whitespace(c: char) -> (r: bool)
    ensures
        r == is_whitespace(c),
{
    ('\u{9}' <= c && c <= '\u{d}') || c == ' ' || c == '\u{85}' || c == '\u{a0}' || c
        == '\u{1680}' || ('\u{2000}' <= c && c <= '\u{200a}') || c == '\u{2028}' || c
        == '\u{2029}' || c == '\u{202f}' || c == '\u{205f}' || c == '\u{3000}'
}

/// Whether `s` holds whitespace.
pub fn contains_whitespace(s: &str) -> (r: bool)
    ensures
        r == has_whitespace(s@),
{
    let mut found = false;
    let chars = s.chars();
    for c in it: chars
        invariant
            it.seq() == s@,
            found == exists|i: int| 0 <= i < it.index() && is_whitespace(#[trigger] s@[i]),
    {
        if char_is_whitespace(c) {
            found = true;
        }
    }
    found
}

/// The character of the decimal digit `d`.
pub open spec fn digit(d: int) -> char {
    if d == 0 {
        '0'
    } else if d == 1 {
        '1'
    } else if d == 2 {
        '2'
    } else if d == 3 {
        '3'
    } else if d == 4 {
        '4'
    } else if d == 5 {
        '5'
    } else if d == 6 {
        '6'
    } else if d == 7 {
        '7'
    } else if d == 8 {
        '8'
    } else {
        '9'
    }
}

/// The decimal digits of `n`, most significant first, without leading zeros.
pub open spec fn decimal(n: nat) -> Seq<char>
    decreases n,
{
    if n < 10 {
        seq![digit(n as int)]
    } else {
        decimal(n / 10).push(digit((n % 10) as int))
    }
}

/// The decimal rendering of a signed number: a minus sign before the digits
/// of a negative one.
pub open spec fn signed_decimal(i: int) -> Seq<char> {
    if i < 0 {
        seq!['-'] + decimal((-i) as nat)
    } else {
        decimal(i as nat)
    }
}

/// The decimal digits of `n`, padded on the left with zeros to `width`
/// characters. A number with more digits than `width` is not shortened.
pub open spec fn zero_padded(n: nat, width: nat) -> Seq<char> {
    let digits = decimal(n);
    if digits.len() >= width {
        digits
    } else {
        Seq::new((width - digits.len()) as nat, |i: int| '0') + digits
    }
}

/// The character of the digit `d`.
fn digit_char(d: u64) -> (c: char)
    requires
        d < 10,
    ensures
        c == digit(d as int),
{
    if d == 0 {
        '0'
    } else if d == 1 {
        '1'
    } else if d == 2 {
        '2'
    } else if d == 3 {
        '3'
    } else if d == 4 {
        '4'
    } else if d == 5 {
        '5'
    } else if d == 6 {
        '6'
    } else if d == 7 {
        '7'
    } else if d == 8 {
        '8'
    } else {
        '9'
    }
}

/// Appends the decimal digits of `n` to `out`.
pub fn push_decimal(out: &mut String, n: u64)
    ensures
        final(out)@ == old(out)@ + decimal(n as nat),
    decreases n,
{
    if n >= 10 {
        push_decimal(out, n / 10);
    }
    out.push(digit_char(n % 10));
}

/// Appends the decimal rendering of the signed number `i` to `out`.
pub fn push_signed(out: &mut String, i: i64)
    ensures
        final(out)@ == old(out)@ + signed_decimal(i as int),
{
    if i < 0 {
        out.push('-');
        let magnitude: u64 = if i == i64::MIN {
            9223372036854775808u64
        } else {
            (-i) as u64
        };
        push_decimal(out, magnitude);
    } else {
        push_decimal(out, i as u64);
    }
}

/// Ten to the power `e`.
pub open spec fn pow10(e: nat) -> nat
    decreases e,
{
    if e == 0 {
        1
    } else {
        10 * pow10((e - 1) as nat)
    }
}

/// A number below `10^e`, for `e >= 1`, has at most `e` digits.
pub proof fn lemma_decimal_bound(n: nat, e: nat)
    requires
        e >= 1,
        n < pow10(e),
    ensures
        1 <= decimal(n).len() <= e,
    decreases e,
{
    if n >= 10 {
        if e >= 2 {
            lemma_decimal_bound(n / 10, (e - 1) as nat);
        } else {
            assert(pow10(1) == 10) by {
                reveal_with_fuel(pow10, 2);
            }
        }
    }
}

/// The number of decimal digits of `n`.
fn decimal_width(n: u64) -> (w: usize)
    ensures
        w == decimal(n as nat).len(),
        1 <= w <= 20,
    decreases n,
{
    proof {
        assert(pow10(20) == 100000000000000000000) by {
            reveal_with_fuel(pow10, 21);
        }
        lemma_decimal_bound(n as nat, 20);
    }
    if n >= 10 {
        let w = decimal_width(n / 10);
        w + 1
    } else {
        1
    }
}

/// Appends the digits of `n` to `out`, padded with zeros to `width`.
pub fn push_zero_padded(out: &mut String, n: u64, width: usize)
    ensures
        final(out)@ == old(out)@ + zero_padded(n as nat, width as nat),
{
    let digits = decimal_width(n);
    let mut i: usize = digits;
    while i < width
        invariant
            digits == decimal(n as nat).len(),
            digits <= i,
            digits < width ==> i <= width,
            digits >= width ==> i == digits,
            out@ == old(out)@ + Seq::new((i - digits) as nat, |k: int| '0'),
        decreases width - i,
    {
        out.push('0');
        i = i + 1;
    }
    let ghost padded = out@;
    push_decimal(out, n);
    assert(out@ =~= old(out)@ + zero_padded(n as nat, width as nat)) by {
        assert(padded =~= old(out)@ + Seq::new((i - digits) as nat, |k: int| '0'));
    }
}

/// The number of line feeds in `s`.
pub open spec fn newlines(s: Seq<char>) -> nat
    decreases s.len(),
{
    if s.len() == 0 {
        0
    } else {
        newlines(s.drop_last()) + if s.last() == '\n' {
            1nat
        } else {
            0nat
        }
    }
}

/// The number of lines of `s`: one for each line feed, and one more for
/// what follows the last line feed, unless nothing does.
pub open spec fn line_count(s: Seq<char>) -> nat {
    newlines(s) + if s.len() > 0 && s.last() != '\n' {
        1nat
    } else {
        0nat
    }
}

/// Counts the lines of `s`.
pub fn count_lines(s: &str) -> (n: usize)
    ensures
        n == line_count(s@),
{
    let total = s.unicode_len();
    let mut feeds: usize = 0;
    let mut open_line = false;
    let chars = s.chars();
    for c in it: chars
        invariant
            it.seq() == s@,
            total == s@.len(),
            feeds == newlines(s@.take(it.index())),
            feeds <= it.index(),
            open_line == (it.index() > 0 && s@[it.index() - 1] != '\n'),
    {
        proof {
            let i = it.index();
            assert(s@.take(i + 1).drop_last() =~= s@.take(i));
        }
        if c == '\n' {
            feeds = feeds + 1;
            open_line = false;
        } else {
            open_line = true;
        }
    }
    assert(s@.take(s@.len() as int) =~= s@);
    if open_line {
        assert(feeds < total) by {
            lemma_newlines_bound(s@.drop_last());
        }
        feeds + 1
    } else {
        feeds
    }
}

/// A text has at most as many line feeds as characters.
pub proof fn lemma_newlines_bound(s: Seq<char>)
    ensures
        newlines(s) <= s.len(),
    decreases s.len(),
{
    if s.len() > 0 {
        lemma_newlines_bound(s.drop_last());
    }
}

/// The view of an optional string.
pub open spec fn opt_view(o: Option<String>) -> Option<Seq<char>> {
    match o {
        Some(s) => Some(s@),
        None => None,
    }
}

/// The views of an optional list of strings.
pub open spec fn opt_views(o: Option<Vec<String>>) -> Option<Seq<Seq<char>>> {
    match o {
        Some(v) => Some(views(v@)),
        None => None,
    }
}

/// The views of a sequence of strings.
pub open spec fn views(v: Seq<String>) -> Seq<Seq<char>> {
    Seq::new(v.len(), |i: int| v[i]@)
}

/// Copies a list of strings.
pub fn copy_strings(list: &Vec<String>) -> (r: Vec<String>)
    ensures
        views(r@) == views(list@),
{
    let mut out: Vec<String> = Vec::new();
    let mut i: usize = 0;
    while i < list.len()
        invariant
            i <= list.len(),
            out@.len() == i,
            forall|k: int| 0 <= k < i ==> (#[trigger] out@[k])@ == list@[k]@,
        decreases list.len() - i,
    {
        out.push(list[i].clone());
        i = i + 1;
    }
    assert(views(out@) =~= views(list@));
    out
}

/// The texts of `words` with `sep` between each two neighbours.
pub open spec fn join(words: Seq<Seq<char>>, sep: Seq<char>) -> Seq<char>
    decreases words.len(),
{
    if words.len() == 0 {
        Seq::empty()
    } else if words.len() == 1 {
        words[0]
    } else {
        join(words.drop_last(), sep) + sep + words.last()
    }
}

/// Joins `words` with `sep` between each two neighbours.
pub fn join_words(words: &Vec<String>, sep: &str) -> (r: String)
    ensures
        r@ == join(views(words@), sep@),
{
    let mut out = String::new();
    let mut i: usize = 0;
    while i < words.len()
        invariant
            i <= words.len(),
            out@ == join(views(words@).take(i as int), sep@),
        decreases words.len() - i,
    {
        proof {
            let next = views(words@).take(i + 1);
            assert(next.drop_last() =~= views(words@).take(i as int));
            assert(next.last() == words@[i as int]@);
        }
        if i > 0 {
            out.append(sep);
        }
        out.append(words[i].as_str());
        i = i + 1;
    }
    assert(views(words@).take(words.len() as int) =~= views(words@));
    out
}

/// The value of the decimal digit `c`; zero for any other character.
pub open spec fn digit_value(c: char) -> nat {
    if c == '1' {
        1
    } else if c == '2' {
        2
    } else if c == '3' {
        3
    } else if c == '4' {
        4
    } else if c == '5' {
        5
    } else if c == '6' {
        6
    } else if c == '7' {
        7
    } else if c == '8' {
        8
    } else if c == '9' {
        9
    } else {
        0
    }
}

/// Whether `c` is a decimal digit.
pub open spec fn is_digit(c: char) -> bool {
    '0' <= c <= '9'
}

/// Whether `s` is made of decimal digits alone.
pub open spec fn all_digits(s: Seq<char>) -> bool {
    forall|i: int| 0 <= i < s.len() ==> is_digit(#[trigger] s[i])
}

/// The number that the digits of `s` spell; zero for the empty text.
pub open spec fn decimal_value(s: Seq<char>) -> nat
    decreases s.len(),
{
    if s.len() == 0 {
        0
    } else {
        10 * decimal_value(s.drop_last()) + digit_value(s.last())
    }
}

/// A digit is spelled by a digit character, which spells it back, and a
/// larger digit by a later character.
pub proof fn lemma_digit(d: int)
    requires
        0 <= d < 10,
    ensures
        is_digit(digit(d)),
        digit_value(digit(d)) == d,
        !is_whitespace(digit(d)),
        digit(d) != '\n',
        forall|e: int| d < e < 10 ==> digit(d) < #[trigger] digit(e),
{
}

/// The digits of a number are digits, and spell the number.
pub proof fn lemma_decimal_value(n: nat)
    ensures
        all_digits(decimal(n)),
        decimal_value(decimal(n)) == n,
        decimal(n).len() >= 1,
    decreases n,
{
    let text = decimal(n);
    if n < 10 {
        lemma_digit(n as int);
        assert(text.drop_last() =~= Seq::<char>::empty());
        assert(text.last() == digit(n as int));
        assert(decimal_value(text.drop_last()) == 0);
        assert(decimal_value(text) == 10 * decimal_value(text.drop_last()) + digit_value(
            text.last(),
        ));
    } else {
        lemma_decimal_value(n / 10);
        lemma_digit((n % 10) as int);
        assert(text.drop_last() =~= decimal(n / 10));
        assert(text.last() == digit((n % 10) as int));
        assert(decimal_value(text) == 10 * decimal_value(text.drop_last()) + digit_value(
            text.last(),
        ));
    }
}

/// Different numbers have different digits.
pub proof fn lemma_decimal_injective(a: nat, b: nat)
    requires
        decimal(a) == decimal(b),
    ensures
        a == b,
{
    lemma_decimal_value(a);
    lemma_decimal_value(b);
}

/// A number of at least `10^e` has more than `e` digits.
pub proof fn lemma_decimal_long(n: nat, e: nat)
    requires
        n >= pow10(e),
    ensures
        decimal(n).len() > e,
    decreases e,
{
    lemma_decimal_value(n);
    if e > 0 {
        assert(pow10(e) == 10 * pow10((e - 1) as nat));
        if n < 10 {
            lemma_pow10_positive((e - 1) as nat);
        } else {
            lemma_decimal_long(n / 10, (e - 1) as nat);
        }
    }
}

/// A power of ten is at least one.
pub proof fn lemma_pow10_positive(e: nat)
    ensures
        pow10(e) >= 1,
    decreases e,
{
    if e > 0 {
        lemma_pow10_positive((e - 1) as nat);
    }
}

/// The last `width` digits of `n`, with leading zeros.
pub open spec fn fixed_width(n: nat, width: nat) -> Seq<char>
    decreases width,
{
    if width == 0 {
        Seq::empty()
    } else {
        fixed_width(n / 10, (width - 1) as nat).push(digit((n % 10) as int))
    }
}

/// `width` zeros.
pub open spec fn zeros(width: nat) -> Seq<char> {
    Seq::new(width, |i: int| '0')
}

/// The fixed-width digits of zero are zeros.
pub proof fn lemma_fixed_width_zero(width: nat)
    ensures
        fixed_width(0, width) == zeros(width),
    decreases width,
{
    if width > 0 {
        lemma_fixed_width_zero((width - 1) as nat);
        assert(zeros((width - 1) as nat).push('0') =~= zeros(width));
    } else {
        assert(zeros(0) =~= Seq::<char>::empty());
    }
}

/// Fixed-width digits are `width` characters long.
pub proof fn lemma_fixed_width_len(n: nat, width: nat)
    ensures
        fixed_width(n, width).len() == width,
    decreases width,
{
    if width > 0 {
        lemma_fixed_width_len(n / 10, (width - 1) as nat);
    }
}

/// Padding a number below `10^width` with zeros gives its fixed-width
/// digits.
pub proof fn lemma_zero_padded_fixed(n: nat, width: nat)
    requires
        width >= 1,
        n < pow10(width),
    ensures
        zero_padded(n, width) == fixed_width(n, width),
        zero_padded(n, width).len() == width,
    decreases width,
{
    lemma_fixed_width_len(n, width);
    lemma_decimal_bound(n, width);
    if n < 10 {
        lemma_fixed_width_zero((width - 1) as nat);
        assert(n / 10 == 0);
        assert(zero_padded(n, width) =~= zeros((width - 1) as nat).push(digit(n as int)));
    } else {
        assert(pow10(width) == 10 * pow10((width - 1) as nat));
        if width == 1 {
            assert(pow10(0) == 1);
        }
        lemma_zero_padded_fixed(n / 10, (width - 1) as nat);
        lemma_decimal_bound(n / 10, (width - 1) as nat);
        assert(zero_padded(n, width) =~= zero_padded(n / 10, (width - 1) as nat).push(
            digit((n % 10) as int),
        ));
    }
}

/// Whether `a` comes before `b` in the order of texts: they agree up to a
/// place where `a` ends and `b` goes on, or where `a` has the smaller
/// character.
pub open spec fn text_less(a: Seq<char>, b: Seq<char>) -> bool {
    exists|k: int| #[trigger] differs_at(a, b, k)
}

/// Whether `k` is the first place at which `a` and `b` differ, with `a` the
/// smaller there.
pub open spec fn differs_at(a: Seq<char>, b: Seq<char>, k: int) -> bool {
    &&& 0 <= k <= a.len()
    &&& k < b.len()
    &&& a.take(k) == b.take(k)
    &&& k < a.len() ==> a[k] < b[k]
}

/// No text comes before itself.
pub proof fn lemma_text_less_irreflexive(a: Seq<char>)
    ensures
        !text_less(a, a),
{
    if text_less(a, a) {
        let k = choose|k: int| #[trigger] differs_at(a, a, k);
        assert(differs_at(a, a, k));
    }
}

/// Among numbers below `10^width`, the fixed-width digits of the smaller
/// come first.
pub proof fn lemma_fixed_width_order(a: nat, b: nat, width: nat)
    requires
        a < b < pow10(width),
    ensures
        text_less(fixed_width(a, width), fixed_width(b, width)),
    decreases width,
{
    if width == 0 {
        assert(pow10(0) == 1);
    } else {
        let fa = fixed_width(a, width);
        let fb = fixed_width(b, width);
        let pa = fixed_width(a / 10, (width - 1) as nat);
        let pb = fixed_width(b / 10, (width - 1) as nat);
        lemma_fixed_width_len(a / 10, (width - 1) as nat);
        lemma_fixed_width_len(b / 10, (width - 1) as nat);
        assert(pow10(width) == 10 * pow10((width - 1) as nat));
        if a / 10 < b / 10 {
            lemma_fixed_width_order(a / 10, b / 10, (width - 1) as nat);
            let k = choose|k: int| #[trigger] differs_at(pa, pb, k);
            assert(differs_at(pa, pb, k));
            assert(fa.take(k) =~= pa.take(k));
            assert(fb.take(k) =~= pb.take(k));
            assert(differs_at(fa, fb, k));
        } else {
            assert(a / 10 == b / 10);
            assert(a % 10 < b % 10);
            lemma_digit((a % 10) as int);
            let k = (width - 1) as int;
            assert(fa.take(k) =~= pa);
            assert(fb.take(k) =~= pb);
            assert(fa[k] == digit((a % 10) as int));
            assert(fb[k] == digit((b % 10) as int));
            assert(differs_at(fa, fb, k));
        }
    }
}

/// Whether `w` can stand as a word: it is not empty and holds no
/// whitespace.
pub open spec fn is_word(w: Seq<char>) -> bool {
    w.len() > 0 && !has_whitespace(w)
}

/// The words of `s`: its longest runs of characters that are not
/// whitespace, in order.
pub open spec fn words(s: Seq<char>) -> Seq<Seq<char>>
    decreases s.len(),
{
    if s.len() == 0 {
        Seq::empty()
    } else {
        let before = words(s.drop_last());
        if is_whitespace(s.last()) {
            before
        } else if s.len() >= 2 && !is_whitespace(s[s.len() - 2]) {
            before.drop_last().push(before.last().push(s.last()))
        } else {
            before.push(seq![s.last()])
        }
    }
}

/// A word written after a text that is empty or ends in whitespace is one
/// more word of the whole.
pub proof fn lemma_words_after_space(s: Seq<char>, w: Seq<char>)
    requires
        s.len() == 0 || is_whitespace(s.last()),
        is_word(w),
    ensures
        words(s + w) == words(s).push(w),
    decreases w.len(),
{
    let whole = s + w;
    let c = w.last();
    assert(!is_whitespace(w[w.len() - 1]));
    assert(whole.last() == c);
    if w.len() == 1 {
        assert(whole.drop_last() =~= s);
        assert(w =~= seq![c]);
        if s.len() > 0 {
            assert(whole[whole.len() - 2] == s.last());
        }
    } else {
        let shorter = w.drop_last();
        assert forall|i: int| 0 <= i < shorter.len() implies !is_whitespace(
            #[trigger] shorter[i],
        ) by {
            assert(shorter[i] == w[i]);
        }
        lemma_words_after_space(s, shorter);
        assert(whole.drop_last() =~= s + shorter);
        assert(whole[whole.len() - 2] == w[w.len() - 2]);
        assert(!is_whitespace(w[w.len() - 2]));
        assert(words(s).push(shorter).drop_last() =~= words(s));
        assert(shorter.push(c) =~= w);
    }
}

/// Names that are words, written in one line with single spaces between
/// them, are the words of that line, with or without a line feed at its
/// end.
pub proof fn lemma_words_of_join(names: Seq<Seq<char>>)
    requires
        forall|i: int| 0 <= i < names.len() ==> is_word(#[trigger] names[i]),
    ensures
        words(join(names, " "@)) == names,
        words(join(names, " "@) + "\n"@) == names,
    decreases names.len(),
{
    reveal_strlit(" ");
    reveal_strlit("\n");
    let line = join(names, " "@);
    assert(" "@ =~= seq![' ']);
    assert("\n"@ =~= seq!['\n']);
    if names.len() == 0 {
        assert(names =~= Seq::empty());
    } else if names.len() == 1 {
        lemma_words_after_space(Seq::empty(), names[0]);
        assert(Seq::<char>::empty() + names[0] =~= names[0]);
        assert(Seq::<Seq<char>>::empty().push(names[0]) =~= names);
    } else {
        let init = names.drop_last();
        lemma_words_of_join(init);
        let spaced = join(init, " "@) + " "@;
        assert(spaced.drop_last() =~= join(init, " "@));
        assert(spaced.last() == ' ');
        assert(words(spaced) == init);
        lemma_words_after_space(spaced, names.last());
        assert(init.push(names.last()) =~= names);
    }
    let ended = line + "\n"@;
    assert(ended.drop_last() =~= line);
    assert(ended.last() == '\n');
}

} // verus!
