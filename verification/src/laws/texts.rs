//! Laws on texts: trimming, splitting, and numbers.

use crate::server::segment_id::law_number_reads_back;
use crate::text::{
    both_lists, contains, copy_list, copy_opt, decimal, digit_char, fields, has_part, is_digit,
    is_text, is_white, lemma_fields_nonempty, lines, number_text, opt_str, opt_text, parse_number,
    part_at, prefix_stripped, read_digits, read_number, same, split, split_lines, split_words,
    strings, strip_prefix, texts, trim, trim_end, trim_start, trimmed, white, words, NumberError,
};
use vstd::prelude::*;

verus! {

/// There is nothing but white space in a text.
pub open spec fn blank(s: Seq<char>) -> bool {
    forall|i: int| 0 <= i < s.len() ==> is_white(#[trigger] s[i])
}

/// There is no white space in a text.
pub open spec fn solid(s: Seq<char>) -> bool {
    forall|i: int| 0 <= i < s.len() ==> !is_white(#[trigger] s[i])
}

/// White space is what Unicode says it is.
pub proof fn law_white_space(c: char)
    ensures
        is_white(c) <==> {
            let n = c as int;
            ||| 9 <= n <= 13
            ||| n == 32
            ||| n == 133
            ||| n == 160
            ||| n == 5760
            ||| 8192 <= n <= 8202
            ||| n == 8232
            ||| n == 8233
            ||| n == 8239
            ||| n == 8287
            ||| n == 12288
        },
{
}

/// `s` is `inner` between `front` and `back`, which are blank, and `inner` has no
/// white space at either end.
pub open spec fn trims(
    s: Seq<char>,
    front: Seq<char>,
    inner: Seq<char>,
    back: Seq<char>,
) -> bool {
    &&& s == front + inner + back
    &&& blank(front)
    &&& blank(back)
    &&& inner.len() > 0 ==> !is_white(inner[0]) && !is_white(inner.last())
}

proof fn lemma_trim_start(s: Seq<char>) -> (front: Seq<char>)
    ensures
        s == front + trim_start(s),
        blank(front),
        trim_start(s).len() > 0 ==> !is_white(trim_start(s)[0]),
    decreases s.len(),
{
    if s.len() > 0 && is_white(s[0]) {
        let rest = lemma_trim_start(s.drop_first());
        let front = seq![s[0]] + rest;
        assert(s =~= seq![s[0]] + s.drop_first());
        assert(front + trim_start(s) =~= seq![s[0]] + (rest + trim_start(s.drop_first())));
        assert forall|i: int| 0 <= i < front.len() implies is_white(#[trigger] front[i]) by {
            if i > 0 {
                assert(front[i] == rest[i - 1]);
            }
        }
        front
    } else {
        assert(s =~= Seq::<char>::empty() + s);
        Seq::empty()
    }
}

proof fn lemma_trim_end(s: Seq<char>) -> (back: Seq<char>)
    ensures
        s == trim_end(s) + back,
        blank(back),
        trim_end(s).len() > 0 ==> !is_white(trim_end(s).last()),
    decreases s.len(),
{
    if s.len() > 0 && is_white(s.last()) {
        let rest = lemma_trim_end(s.drop_last());
        let back = rest.push(s.last());
        assert(s =~= s.drop_last().push(s.last()));
        assert(trim_end(s) + back =~= (trim_end(s.drop_last()) + rest).push(s.last()));
        assert forall|i: int| 0 <= i < back.len() implies is_white(#[trigger] back[i]) by {
            if i < rest.len() {
                assert(back[i] == rest[i]);
            }
        }
        back
    } else {
        assert(s =~= s + Seq::<char>::empty());
        Seq::empty()
    }
}

/// Trimming takes white space off both ends, all of it, and nothing else.
pub proof fn law_trimming_takes_white_space_off(s: Seq<char>)
    ensures
        exists|front: Seq<char>, back: Seq<char>| #[trigger] trims(s, front, trimmed(s), back),
{
    let front = lemma_trim_start(s);
    let back = lemma_trim_end(trim_start(s));
    assert(s =~= front + trimmed(s) + back);
    if trimmed(s).len() > 0 {
        assert(trimmed(s)[0] == trim_start(s)[0]);
    }
    assert(trims(s, front, trimmed(s), back));
}

proof fn lemma_trim_start_of(front: Seq<char>, s: Seq<char>)
    requires
        blank(front),
        s.len() > 0 ==> !is_white(s[0]),
    ensures
        trim_start(front + s) == s,
    decreases front.len(),
{
    if front.len() > 0 {
        assert((front + s).drop_first() =~= front.drop_first() + s);
        assert(is_white(front[0]));
        lemma_trim_start_of(front.drop_first(), s);
    } else {
        assert(front + s =~= s);
    }
}

proof fn lemma_trim_end_of(s: Seq<char>, back: Seq<char>)
    requires
        blank(back),
        s.len() > 0 ==> !is_white(s.last()),
    ensures
        trim_end(s + back) == s,
    decreases back.len(),
{
    if back.len() > 0 {
        assert((s + back).drop_last() =~= s + back.drop_last());
        assert(is_white(back.last()));
        lemma_trim_end_of(s, back.drop_last());
    } else {
        assert(s + back =~= s);
    }
}

/// However much white space surrounds a text, trimming gives the text.
pub proof fn law_trimming_finds_the_text(front: Seq<char>, inner: Seq<char>, back: Seq<char>)
    requires
        blank(front),
        blank(back),
        inner.len() > 0 ==> !is_white(inner[0]) && !is_white(inner.last()),
    ensures
        trimmed(front + inner + back) == inner,
{
    if inner.len() > 0 {
        assert(front + inner + back =~= front + (inner + back));
        lemma_trim_start_of(front, inner + back);
        lemma_trim_end_of(inner, back);
    } else {
        let all = front + inner + back;
        assert forall|i: int| 0 <= i < all.len() implies is_white(#[trigger] all[i]) by {
            if i < front.len() {
                assert(all[i] == front[i]);
            } else {
                assert(all[i] == back[i - front.len()]);
            }
        }
        let none = Seq::<char>::empty();
        assert(all =~= all + none);
        lemma_trim_start_of(all, none);
        assert(inner =~= none);
        assert(trim_end(none) =~= none);
    }
}

/// Parts with a separator between each two of them.
pub open spec fn joined_by(parts: Seq<Seq<char>>, sep: char) -> Seq<char>
    decreases parts.len(),
{
    if parts.len() == 0 {
        Seq::empty()
    } else if parts.len() == 1 {
        parts[0]
    } else {
        joined_by(parts.drop_last(), sep).push(sep) + parts.last()
    }
}

/// The fields of a text are what stands between the separators: put together
/// again with separators they give the text, and no field has a separator in it.
pub proof fn law_fields_are_between_separators(s: Seq<char>, sep: char)
    ensures
        fields(s, sep).len() > 0,
        joined_by(fields(s, sep), sep) == s,
        forall|i: int|
            0 <= i < fields(s, sep).len() ==> !(#[trigger] fields(s, sep)[i]).contains(sep),
    decreases s.len(),
{
    lemma_fields_nonempty(s, sep);
    let all = fields(s, sep);
    if s.len() == 0 {
        assert(joined_by(all, sep) =~= s);
    } else {
        let c = s.last();
        law_fields_are_between_separators(s.drop_last(), sep);
        let before = fields(s.drop_last(), sep);
        if c == sep {
            assert(all.drop_last() =~= before);
            assert(joined_by(all, sep) =~= s);
            assert forall|i: int| 0 <= i < all.len() implies !(#[trigger] all[i]).contains(sep) by {
                if i < before.len() {
                    assert(all[i] == before[i]);
                }
            }
        } else {
            assert(all.drop_last() =~= before.drop_last());
            assert(all.last() == before.last().push(c));
            assert(joined_by(all, sep) =~= joined_by(before, sep).push(c));
            assert(s.drop_last().push(c) =~= s);
            assert forall|i: int| 0 <= i < all.len() implies !(#[trigger] all[i]).contains(sep) by {
                if i < all.len() - 1 {
                    assert(all[i] == before[i]);
                } else {
                    assert(!before.last().contains(sep)) by {
                        assert(before.last() == before[before.len() - 1]);
                    }
                    assert forall|k: int| 0 <= k < all[i].len() implies all[i][k] != sep by {
                        if k < all[i].len() - 1 {
                            assert(before.last()[k] == all[i][k]);
                        }
                    }
                }
            }
        }
    }
}

/// A text without the separator is its only field, and the fields of two texts
/// with a separator between them are those of the one and then those of the other.
pub proof fn law_fields_of_two_texts(a: Seq<char>, b: Seq<char>, sep: char)
    ensures
        !a.contains(sep) ==> fields(a, sep) == seq![a],
        fields(a.push(sep) + b, sep) == fields(a, sep) + fields(b, sep),
    decreases a.len() + b.len(),
{
    lemma_fields_nonempty(a, sep);
    lemma_fields_nonempty(b, sep);
    if a.len() > 0 && !a.contains(sep) {
        let front = a.drop_last();
        assert forall|i: int| 0 <= i < front.len() implies front[i] != sep by {
            assert(a[i] == front[i]);
        }
        assert(a.contains(a.last()));
        law_fields_of_two_texts(front, Seq::empty(), sep);
        assert(seq![front].drop_last() =~= Seq::empty());
        assert(front.push(a.last()) =~= a);
        assert(fields(a, sep) =~= seq![a]);
    } else if a.len() == 0 {
        assert(a =~= Seq::empty());
    }
    let both = a.push(sep) + b;
    if b.len() == 0 {
        assert(both =~= a.push(sep));
        assert(both.drop_last() =~= a);
        assert(fields(both, sep) =~= fields(a, sep) + fields(b, sep));
    } else {
        let front = b.drop_last();
        law_fields_of_two_texts(a, front, sep);
        assert(both.drop_last() =~= a.push(sep) + front);
        let before = fields(a, sep) + fields(front, sep);
        lemma_fields_nonempty(front, sep);
        if b.last() == sep {
            assert(fields(both, sep) =~= fields(a, sep) + fields(b, sep));
        } else {
            assert(before.drop_last() =~= fields(a, sep) + fields(front, sep).drop_last());
            assert(before.last() == fields(front, sep).last());
            assert(fields(both, sep) =~= fields(a, sep) + fields(b, sep));
        }
    }
}

proof fn lemma_words_end(s: Seq<char>)
    ensures
        s.len() > 0 && !is_white(s.last()) ==> words(s).len() > 0,
{
}

/// White space parts words: a text of white space has none, one without is a word,
/// and the words of two texts with white space between them are those of the one
/// and then those of the other.
pub proof fn law_white_space_parts_words(a: Seq<char>, b: Seq<char>)
    ensures
        blank(a) ==> words(a).len() == 0,
        solid(a) && a.len() > 0 ==> words(a) == seq![a],
        a.len() == 0 || b.len() == 0 || is_white(a.last()) || is_white(b[0]) ==> words(a + b)
            == words(a) + words(b),
    decreases a.len() + b.len(),
{
    if a.len() > 0 {
        let front = a.drop_last();
        law_white_space_parts_words(front, Seq::empty());
        if blank(a) {
            assert(is_white(a[a.len() - 1]));
            assert forall|i: int| 0 <= i < front.len() implies is_white(#[trigger] front[i]) by {
                assert(a[i] == front[i]);
            }
        }
        if solid(a) {
            assert(!is_white(a[a.len() - 1]));
            assert forall|i: int| 0 <= i < front.len() implies !is_white(#[trigger] front[i]) by {
                assert(a[i] == front[i]);
            }
            if a.len() > 1 {
                assert(!is_white(a[a.len() - 2]));
                assert(seq![front].drop_last() =~= Seq::empty());
                assert(front.push(a.last()) =~= a);
                assert(words(a) =~= seq![a]);
            } else {
                assert(seq![a.last()] =~= a);
                assert(front =~= Seq::empty());
                assert(words(a) =~= seq![a]);
            }
        }
    }
    if b.len() == 0 {
        assert(a + b =~= a);
        assert(words(b) =~= Seq::empty());
        assert(words(a) + words(b) =~= words(a));
    } else if a.len() == 0 {
        assert(a + b =~= b);
        assert(words(a) =~= Seq::empty());
        assert(words(a) + words(b) =~= words(b));
    } else if is_white(a.last()) || is_white(b[0]) {
        let front = b.drop_last();
        law_white_space_parts_words(a, front);
        let both = a + b;
        assert(both.drop_last() =~= a + front);
        assert(both.last() == b.last());
        if front.len() == 0 {
            assert(words(front) =~= Seq::empty());
            assert(both[both.len() - 2] == a.last());
            assert(words(both) =~= words(a) + words(b));
        } else {
            assert(both[both.len() - 2] == front.last());
            assert(b[b.len() - 2] == front.last());
            lemma_words_end(front);
            if !is_white(b.last()) && !is_white(front.last()) {
                let before = words(a) + words(front);
                assert(before.drop_last() =~= words(a) + words(front).drop_last());
                assert(before.last() == words(front).last());
            }
            assert(words(both) =~= words(a) + words(b));
        }
    }
}

/// A line ends at a line feed, before which a carriage return does not count, or
/// with the text.
pub proof fn law_lines_end_at_line_feeds(line: Seq<char>, rest: Seq<char>)
    requires
        !line.contains('\n'),
    ensures
        line.len() == 0 ==> lines(line).len() == 0,
        line.len() > 0 ==> lines(line) == seq![line],
        line.len() == 0 || line.last() != '\r' ==> lines(line.push('\n') + rest) == seq![line]
            + lines(rest),
        lines(line.push('\r').push('\n') + rest) == seq![line] + lines(rest),
{
    law_fields_of_two_texts(line, rest, '\n');
    law_fields_of_two_texts(line.push('\r'), rest, '\n');
    lemma_fields_nonempty(rest, '\n');
    let cr = line.push('\r');
    assert(!cr.contains('\n')) by {
        assert forall|i: int| 0 <= i < cr.len() implies cr[i] != '\n' by {
            if i < line.len() {
                assert(line[i] == cr[i]);
            }
        }
    }
    assert(cr.drop_last() =~= line);
    let more = fields(rest, '\n');
    assert((seq![line] + more).drop_last() =~= seq![line] + more.drop_last());
    assert((seq![cr] + more).drop_last() =~= seq![cr] + more.drop_last());
    if line.len() == 0 || line.last() != '\r' {
        assert(lines(line.push('\n') + rest) =~= seq![line] + lines(rest));
    }
    assert(lines(cr.push('\n') + rest) =~= seq![line] + lines(rest));
    assert(seq![line].drop_last() =~= Seq::empty());
    assert(lines(line) =~= if line.len() == 0 {
        Seq::empty()
    } else {
        seq![line]
    });
}

/// A text occurs in another exactly if that is made of something, the text, and
/// something.
pub proof fn law_part_is_between(a: Seq<char>, part: Seq<char>, b: Seq<char>, whole: Seq<char>)
    ensures
        has_part(a + part + b, part),
        has_part(whole, part) ==> exists|i: int|
            0 <= i <= whole.len() && #[trigger] whole.take(i) + part == whole.take(
                i + part.len(),
            ) && i + part.len() <= whole.len(),
{
    let all = a + part + b;
    assert(all.subrange(a.len() as int, (a.len() + part.len()) as int) =~= part);
    assert(part_at(all, part, a.len() as int));
    if has_part(whole, part) {
        let i = choose|i: int| part_at(whole, part, i);
        assert(whole.take(i) + part =~= whole.take(i + part.len()));
    }
}

/// A prefix is taken off if it is there, and nothing else is.
pub proof fn law_prefix_is_taken_off(s: Seq<char>, prefix: Seq<char>)
    ensures
        prefix_stripped(prefix + s, prefix) == s,
        !prefix.is_prefix_of(s) ==> prefix_stripped(s, prefix) == s,
{
    assert((prefix + s).subrange(0, prefix.len() as int) =~= prefix);
    assert((prefix + s).skip(prefix.len() as int) =~= s);
    if part_at(s, prefix, 0) {
        assert(prefix.is_prefix_of(s));
    }
}

/// A number is written with the digits from zero to nine, the last digit being its
/// rest by ten and those before it the number of tens.
pub proof fn law_numbers_are_decimal(tens: nat, ones: nat)
    requires
        ones < 10,
    ensures
        decimal(ones).len() == 1,
        decimal(ones)[0] as int == 48 + ones,
        tens > 0 ==> decimal(10 * tens + ones) == decimal(tens) + decimal(ones),
{
    if tens > 0 {
        assert((10 * tens + ones) / 10 == tens);
        assert((10 * tens + ones) % 10 == ones);
        assert(decimal(10 * tens + ones) =~= decimal(tens) + decimal(ones));
    }
}

/// The digits are those from zero to nine.
pub proof fn law_digits(c: char)
    ensures
        is_digit(c) <==> 48 <= c as int <= 57,
{
}

/// A number is written with digits only, and without a zero in front.
pub proof fn law_numbers_are_digits(n: nat)
    ensures
        decimal(n).len() > 0,
        forall|i: int| 0 <= i < decimal(n).len() ==> 48 <= (#[trigger] decimal(n)[i]) as int <= 57,
        n > 0 ==> decimal(n)[0] as int != 48,
    decreases n,
{
    if n >= 10 {
        law_numbers_are_digits(n / 10);
        let front = decimal(n / 10);
        let d = digit_char(n % 10);
        assert(decimal(n) == front.push(d));
        assert forall|i: int| 0 <= i < decimal(n).len() implies 48 <= (
        #[trigger] decimal(n)[i]) as int <= 57 by {
            if i < front.len() {
                assert(decimal(n)[i] == front[i]);
            }
        }
        assert(decimal(n)[0] == front[0]);
    }
}

/// Different numbers are written differently.
pub proof fn law_numbers_differ(m: nat, n: nat)
    ensures
        decimal(m) == decimal(n) ==> m == n,
    decreases m,
{
    if decimal(m) == decimal(n) {
        law_numbers_are_digits(m / 10);
        law_numbers_are_digits(n / 10);
        if m < 10 || n < 10 {
            assert(decimal(m).len() == 1 || decimal(n).len() == 1);
            assert(decimal(m)[0] == decimal(n)[0]);
        } else {
            assert(decimal(m).drop_last() =~= decimal(m / 10));
            assert(decimal(n).drop_last() =~= decimal(n / 10));
            law_numbers_differ(m / 10, n / 10);
            assert(decimal(m).last() == decimal(n).last());
            assert(digit_char(m % 10) == digit_char(n % 10));
        }
    }
}

proof fn lemma_read_too_large(n: nat)
    requires
        n > u64::MAX,
    ensures
        read_digits(decimal(n), 0) == Err::<nat, NumberError>(NumberError::TooLarge),
    decreases n,
{
    law_numbers_are_digits(n / 10);
    let front = decimal(n / 10);
    let c = digit_char(n % 10);
    if n / 10 > u64::MAX {
        lemma_read_too_large(n / 10);
    } else {
        law_number_reads_back(n / 10);
        assert(front[0] != '+');
    }
    lemma_read_longer(front, c, 0);
}

proof fn lemma_read_longer(s: Seq<char>, c: char, acc: nat)
    requires
        is_digit(c),
    ensures
        read_digits(s, acc) matches Err(e) ==> read_digits(s.push(c), acc) == Err::<
            nat,
            NumberError,
        >(e),
        read_digits(s, acc) matches Ok(m) ==> read_digits(s.push(c), acc) == if m * 10 + (c as int
            - 48) > u64::MAX {
            Err::<nat, NumberError>(NumberError::TooLarge)
        } else {
            Ok::<nat, NumberError>((m * 10 + (c as int - 48)) as nat)
        },
    decreases s.len(),
{
    let t = s.push(c);
    if s.len() == 0 {
        assert(t.drop_first() =~= Seq::empty());
        if acc * 10 + (c as int - 48) <= u64::MAX {
            let v = (acc * 10 + (c as int - 48)) as nat;
            assert(read_digits(t.drop_first(), v) == Ok::<nat, NumberError>(v));
        }
    } else {
        assert(t.drop_first() =~= s.drop_first().push(c));
        if is_digit(s[0]) && acc * 10 + (s[0] as int - 48) <= u64::MAX {
            lemma_read_longer(s.drop_first(), c, (acc * 10 + (s[0] as int - 48)) as nat);
        }
    }
}

proof fn lemma_read_only_digits(s: Seq<char>, acc: nat)
    ensures
        read_digits(s, acc) is Ok ==> forall|i: int|
            0 <= i < s.len() ==> is_digit(#[trigger] s[i]),
    decreases s.len(),
{
    if s.len() > 0 && read_digits(s, acc) is Ok {
        lemma_read_only_digits(s.drop_first(), (acc * 10 + (s[0] as int - 48)) as nat);
        assert forall|i: int| 0 <= i < s.len() implies is_digit(#[trigger] s[i]) by {
            if i > 0 {
                assert(s.drop_first()[i - 1] == s[i]);
            }
        }
    }
}

proof fn lemma_read_stops(s: Seq<char>, t: Seq<char>, acc: nat)
    requires
        read_digits(s, acc) is Ok,
        t.len() > 0,
        !is_digit(t[0]),
    ensures
        read_digits(s + t, acc) == Err::<nat, NumberError>(NumberError::InvalidDigit),
    decreases s.len(),
{
    if s.len() == 0 {
        assert(s + t =~= t);
    } else {
        assert((s + t).drop_first() =~= s.drop_first() + t);
        lemma_read_stops(s.drop_first(), t, (acc * 10 + (s[0] as int - 48)) as nat);
    }
}

/// A number with anything but digits behind it is no number because of that.
pub proof fn law_rest_of_a_number_is_refused(n: nat, t: Seq<char>)
    requires
        n <= u64::MAX,
        t.len() > 0,
        !is_digit(t[0]),
    ensures
        read_number(decimal(n) + t) == Err::<nat, NumberError>(NumberError::InvalidDigit),
        t.len() == 1 || t[0] != '+' ==> read_number(t) == Err::<nat, NumberError>(
            NumberError::InvalidDigit,
        ),
{
    law_numbers_are_digits(n);
    law_numbers_are_read(n, t);
    assert(decimal(n)[0] != '+');
    lemma_read_stops(decimal(n), t, 0);
    assert((decimal(n) + t)[0] == decimal(n)[0]);
}

/// What is read as a number is one: each number up to the greatest of 64 bits reads
/// as itself, with zeros or a plus sign in front too; a greater one is too large;
/// nothing is empty; and a text with anything but digits, behind a sign, is none.
pub proof fn law_numbers_are_read(n: nat, s: Seq<char>)
    ensures
        n <= u64::MAX ==> read_number(decimal(n)) == Ok::<nat, NumberError>(n),
        n <= u64::MAX ==> read_number(seq!['+'] + decimal(n)) == Ok::<nat, NumberError>(n),
        n > u64::MAX ==> read_number(decimal(n)) == Err::<nat, NumberError>(
            NumberError::TooLarge,
        ),
        s.len() == 0 ==> read_number(s) == Err::<nat, NumberError>(NumberError::Empty),
        s.len() > 0 && is_digit(s[0]) ==> read_number(seq!['0'] + s) == read_number(s),
        s.len() > 0 && is_digit(s[0]) ==> read_number(seq!['+'] + s) == read_number(s),
        read_number(s) is Ok ==> {
            let t = if s.len() > 1 && s[0] == '+' {
                s.drop_first()
            } else {
                s
            };
            t.len() > 0 && forall|i: int| 0 <= i < t.len() ==> is_digit(#[trigger] t[i])
        },
{
    law_numbers_are_digits(n);
    let signed = seq!['+'] + decimal(n);
    assert(signed.drop_first() =~= decimal(n));
    assert(decimal(n)[0] != '+');
    if n <= u64::MAX {
        law_number_reads_back(n);
    } else {
        lemma_read_too_large(n);
    }
    if s.len() > 0 {
        assert((seq!['0'] + s).drop_first() =~= s);
        assert((seq!['+'] + s).drop_first() =~= s);
    }
    lemma_read_only_digits(s, 0);
    if s.len() > 0 {
        lemma_read_only_digits(s.drop_first(), 0);
    }
}

/// A list of texts has the text of every string, at its place, and no other; so has a text
/// that may be missing.
pub proof fn law_lists_hold_every_text(v: Seq<String>, i: int, s: String, t: &str)
    ensures
        texts(v).len() == v.len(),
        0 <= i < v.len() ==> texts(v)[i] == v[i]@,
        opt_text(Some(s)) == Some(s@),
        opt_text(None) is None,
        opt_str(Some(t)) == Some(t@),
        opt_str(None) is None,
{
}

/// A copy of a list has its texts, and two lists one behind the other have those of both.
pub proof fn law_lists_are_copied(
    v: Vec<String>,
    copy: Vec<String>,
    first: Vec<String>,
    second: Vec<String>,
    both: Vec<String>,
    literal: Vec<&str>,
    owned: Vec<String>,
    i: int,
)
    requires
        call_ensures(copy_list, (&v,), copy),
        call_ensures(both_lists, (first, second), both),
        call_ensures(strings, (literal,), owned),
    ensures
        copy@.len() == v@.len(),
        0 <= i < v@.len() ==> copy@[i]@ == v@[i]@,
        both@.len() == first@.len() + second@.len(),
        0 <= i < first@.len() ==> both@[i]@ == first@[i]@,
        first@.len() <= i < both@.len() ==> both@[i]@ == second@[i - first@.len()]@,
        owned@.len() == literal@.len(),
        0 <= i < literal@.len() ==> owned@[i]@ == literal@[i]@,
{
    assert(texts(copy@).len() == copy@.len() && texts(v@).len() == v@.len());
    assert(texts(both@).len() == both@.len());
    assert(texts(first@).len() == first@.len() && texts(second@).len() == second@.len());
    let all = literal@.map_values(|s: &str| s@);
    assert(all.len() == literal@.len() && texts(owned@).len() == owned@.len());
    if 0 <= i < first@.len() {
        assert(texts(both@)[i] == both@[i]@);
    }
    if first@.len() <= i < both@.len() {
        assert(texts(both@)[i] == both@[i]@);
        assert(texts(second@)[i - first@.len()] == second@[i - first@.len()]@);
    }
    if 0 <= i < literal@.len() {
        assert(all[i] == literal@[i]@);
        assert(texts(owned@)[i] == owned@[i]@);
    }
}

/// Texts are compared by their characters.
pub proof fn law_texts_are_compared(
    a: &str,
    b: &str,
    alike: bool,
    inside: bool,
    s: Option<String>,
    copy: Option<String>,
    there: bool,
)
    requires
        call_ensures(same, (a, b), alike),
        call_ensures(contains, (a, b), inside),
        call_ensures(copy_opt, (&s,), copy),
        call_ensures(is_text, (&s, a), there),
    ensures
        alike <==> a@ == b@,
        alike ==> inside,
        b@.len() > a@.len() ==> !inside,
        copy is Some <==> s is Some,
        s matches Some(t) ==> copy->0@ == t@,
        there <==> (s matches Some(t) && t@ == a@),
{
    if alike {
        assert(part_at(a@, b@, 0)) by {
            assert(a@.subrange(0, a@.len() as int) =~= a@);
        }
    }
}

/// A text is cut where its characters say: the words, the lines, the fields, what stands
/// between white space, and what stands behind a prefix.
pub proof fn law_texts_are_cut(
    s: &str,
    sep: char,
    prefix: &str,
    inner: String,
    parts: Vec<String>,
    of_words: Vec<String>,
    of_lines: Vec<String>,
    rest: String,
)
    requires
        call_ensures(trim, (s,), inner),
        call_ensures(split, (s, sep), parts),
        call_ensures(split_words, (s,), of_words),
        call_ensures(split_lines, (s,), of_lines),
        call_ensures(strip_prefix, (s, prefix), rest),
    ensures
        exists|front: Seq<char>, back: Seq<char>| #[trigger] trims(s@, front, inner@, back),
        joined_by(texts(parts@), sep) == s@,
        parts@.len() > 0,
        texts(of_words@) == words(s@),
        texts(of_lines@) == lines(s@),
        s@ == rest@ || s@ == prefix@ + rest@,
{
    law_trimming_takes_white_space_off(s@);
    law_fields_are_between_separators(s@, sep);
    assert(texts(parts@).len() == parts@.len());
    law_prefix_is_taken_off(s@, prefix@);
    if prefix@.is_prefix_of(s@) {
        let t = s@.skip(prefix@.len() as int);
        assert(s@ =~= prefix@ + t);
        law_prefix_is_taken_off(t, prefix@);
    }
}

/// A number that is written is read again.
pub proof fn law_written_numbers_are_read_again(
    n: u64,
    written: String,
    t: &str,
    r: Result<u64, NumberError>,
    c: char,
    is_space: bool,
)
    requires
        call_ensures(number_text, (n,), written),
        t@ == written@,
        call_ensures(parse_number, (t,), r),
        call_ensures(white, (c,), is_space),
    ensures
        written@ == decimal(n as nat),
        r matches Ok(m) && m == n,
        is_space <==> is_white(c),
{
    law_numbers_are_read(n as nat, t@);
}

} // verus!
