//! Text operations on sequences of characters: white space, fields, words,
//! lines, decimal numbers.

use vstd::prelude::*;

verus! {

/// `String::push` appends one character.
pub assume_specification[ String::push ](s: &mut String, c: char)
    ensures
        final(s)@ == old(s)@.push(c),
;

/// The characters of Unicode's White_Space property.
pub open spec fn is_white(c: char) -> bool {
    ||| '\u{9}' <= c <= '\u{d}'
    ||| c == ' '
    ||| c == '\u{85}'
    ||| c == '\u{a0}'
    ||| c == '\u{1680}'
    ||| '\u{2000}' <= c <= '\u{200a}'
    ||| c == '\u{2028}'
    ||| c == '\u{2029}'
    ||| c == '\u{202f}'
    ||| c == '\u{205f}'
    ||| c == '\u{3000}'
}

/// Whether `c` is white space.
pub fn white(c: char) -> (r: bool)
    ensures
        r == is_white(c),
{
    ('\u{9}' <= c && c <= '\u{d}') || c == ' ' || c == '\u{85}' || c == '\u{a0}' || c == '\u{1680}'
        || ('\u{2000}' <= c && c <= '\u{200a}') || c == '\u{2028}' || c == '\u{2029}' || c
        == '\u{202f}' || c == '\u{205f}' || c == '\u{3000}'
}

/// The characters of `s`, in order.
pub fn chars_of(s: &str) -> (r: Vec<char>)
    ensures
        r@ == s@,
{
    let mut out: Vec<char> = Vec::new();
    for c in it: s.chars()
        invariant
            out@ == it.seq().take(it.index() as int),
            it.seq() == s@,
    {
        out.push(c);
    }
    out
}

/// The text made of the characters `from..to` of `cs`.
pub fn text_of(cs: &Vec<char>, from: usize, to: usize) -> (r: String)
    requires
        from <= to <= cs.len(),
    ensures
        r@ == cs@.subrange(from as int, to as int),
{
    let mut out = String::new();
    let mut i: usize = from;
    while i < to
        invariant
            from <= i <= to <= cs.len(),
            out@ == cs@.subrange(from as int, i as int),
        decreases to - i,
    {
        out.push(cs[i]);
        i += 1;
    }
    out
}

/// Whether two texts hold the same characters.
pub fn same(a: &str, b: &str) -> (r: bool)
    ensures
        r == (a@ == b@),
{
    a.to_owned() == b.to_owned()
}

/// `part` occurs in `whole` at position `i`.
pub open spec fn part_at(whole: Seq<char>, part: Seq<char>, i: int) -> bool {
    0 <= i && i + part.len() <= whole.len() && whole.subrange(i, i + part.len()) == part
}

/// `part` occurs somewhere in `whole`.
pub open spec fn has_part(whole: Seq<char>, part: Seq<char>) -> bool {
    exists|i: int| part_at(whole, part, i)
}

fn part_is_at(whole: &Vec<char>, part: &Vec<char>, at: usize) -> (r: bool)
    requires
        at + part.len() <= whole.len(),
    ensures
        r == part_at(whole@, part@, at as int),
{
    let mut i: usize = 0;
    while i < part.len()
        invariant
            i <= part.len(),
            at + part.len() <= whole.len(),
            forall|k: int| 0 <= k < i ==> whole@[at + k] == part@[k],
        decreases part.len() - i,
    {
        if whole[at + i] != part[i] {
            assert(whole@.subrange(at as int, at + part.len())[i as int] != part@[i as int]);
            return false;
        }
        i += 1;
    }
    assert(whole@.subrange(at as int, at + part.len()) =~= part@);
    true
}

/// Whether `part` occurs in `whole`.
pub fn contains(whole: &str, part: &str) -> (r: bool)
    ensures
        r == has_part(whole@, part@),
{
    let w = chars_of(whole);
    let p = chars_of(part);
    if p.len() > w.len() {
        return false;
    }
    let mut i: usize = 0;
    while w.len() - i >= p.len()
        invariant
            w@ == whole@,
            p@ == part@,
            i <= w.len(),
            forall|k: int| 0 <= k < i ==> !part_at(whole@, part@, k),
        decreases w.len() - i,
    {
        if part_is_at(&w, &p, i) {
            return true;
        }
        assert(p.len() > 0) by {
            if p.len() == 0 {
                assert(whole@.subrange(i as int, i as int) =~= part@);
            }
        }
        i += 1;
    }
    false
}

/// `s` without its leading white space.
pub open spec fn trim_start(s: Seq<char>) -> Seq<char>
    decreases s.len(),
{
    if s.len() > 0 && is_white(s[0]) {
        trim_start(s.drop_first())
    } else {
        s
    }
}

/// `s` without its trailing white space.
pub open spec fn trim_end(s: Seq<char>) -> Seq<char>
    decreases s.len(),
{
    if s.len() > 0 && is_white(s.last()) {
        trim_end(s.drop_last())
    } else {
        s
    }
}

/// `s` without white space at either end.
pub open spec fn trimmed(s: Seq<char>) -> Seq<char> {
    trim_end(trim_start(s))
}

/// `s` without white space at either end.
pub fn trim(s: &str) -> (r: String)
    ensures
        r@ == trimmed(s@),
{
    let cs = chars_of(s);
    let mut from: usize = 0;
    assert(cs@.skip(0) =~= s@);
    while from < cs.len() && white(cs[from])
        invariant
            cs@ == s@,
            from <= cs.len(),
            trim_start(s@) == trim_start(s@.skip(from as int)),
        decreases cs.len() - from,
    {
        assert(s@.skip(from as int).drop_first() =~= s@.skip(from + 1));
        from += 1;
    }
    assert(trim_start(s@) == s@.skip(from as int));
    let mut to: usize = cs.len();
    assert(s@.subrange(from as int, to as int) =~= s@.skip(from as int));
    while from < to && white(cs[to - 1])
        invariant
            cs@ == s@,
            from <= to <= cs.len(),
            trimmed(s@) == trim_end(s@.subrange(from as int, to as int)),
        decreases to,
    {
        assert(s@.subrange(from as int, to as int).drop_last() =~= s@.subrange(
            from as int,
            to - 1,
        ));
        to -= 1;
    }
    text_of(&cs, from, to)
}

/// The fields of `s` between the separators: reading a separator opens a new
/// field, any other character goes to the end of the last one.
pub open spec fn fields(s: Seq<char>, sep: char) -> Seq<Seq<char>>
    decreases s.len(),
{
    if s.len() == 0 {
        seq![Seq::empty()]
    } else {
        let before = fields(s.drop_last(), sep);
        if s.last() == sep {
            before.push(Seq::empty())
        } else {
            before.drop_last().push(before.last().push(s.last()))
        }
    }
}

/// The texts that a list of strings holds.
pub open spec fn texts(v: Seq<String>) -> Seq<Seq<char>> {
    v.map_values(|s: String| s@)
}

/// A text has at least one field.
pub proof fn lemma_fields_nonempty(s: Seq<char>, sep: char)
    ensures
        fields(s, sep).len() > 0,
    decreases s.len(),
{
    if s.len() > 0 {
        lemma_fields_nonempty(s.drop_last(), sep);
    }
}

/// The fields of `s` between the separators `sep`.
pub fn split(s: &str, sep: char) -> (r: Vec<String>)
    ensures
        texts(r@) == fields(s@, sep),
{
    let cs = chars_of(s);
    let mut done: Vec<String> = Vec::new();
    let mut open = String::new();
    let mut i: usize = 0;
    assert(s@.take(0) =~= Seq::empty());
    assert(texts(done@).push(open@) =~= fields(s@.take(0), sep));
    while i < cs.len()
        invariant
            cs@ == s@,
            i <= cs.len(),
            texts(done@).push(open@) == fields(s@.take(i as int), sep),
        decreases cs.len() - i,
    {
        let ghost before = texts(done@).push(open@);
        let ghost next = s@.take(i + 1);
        assert(next.drop_last() =~= s@.take(i as int));
        if cs[i] == sep {
            done.push(open);
            open = String::new();
            assert(texts(done@).push(open@) =~= before.push(Seq::empty()));
        } else {
            open.push(cs[i]);
            assert(texts(done@).push(open@) =~= before.drop_last().push(before.last().push(next.last())));
        }
        i += 1;
    }
    assert(s@.take(s@.len() as int) =~= s@);
    let ghost before = texts(done@).push(open@);
    done.push(open);
    assert(texts(done@) =~= before);
    done
}

/// The words of `s`: the longest runs of characters that are not white space.
pub open spec fn words(s: Seq<char>) -> Seq<Seq<char>>
    decreases s.len(),
{
    if s.len() == 0 {
        Seq::empty()
    } else {
        let before = words(s.drop_last());
        if is_white(s.last()) {
            before
        } else if s.len() == 1 || is_white(s[s.len() - 2]) {
            before.push(seq![s.last()])
        } else {
            before.drop_last().push(before.last().push(s.last()))
        }
    }
}

/// The words of `s`.
pub fn split_words(s: &str) -> (r: Vec<String>)
    ensures
        texts(r@) == words(s@),
{
    let cs = chars_of(s);
    let mut done: Vec<String> = Vec::new();
    let mut open = String::new();
    let mut i: usize = 0;
    assert(s@.take(0) =~= Seq::empty());
    assert(texts(done@) =~= words(s@.take(0)));
    while i < cs.len()
        invariant
            cs@ == s@,
            i <= cs.len(),
            open@.len() > 0 <==> (i > 0 && !is_white(s@[i - 1])),
            words(s@.take(i as int)) == (if open@.len() > 0 {
                texts(done@).push(open@)
            } else {
                texts(done@)
            }),
        decreases cs.len() - i,
    {
        let ghost before = words(s@.take(i as int));
        let ghost next = s@.take(i + 1);
        assert(next.drop_last() =~= s@.take(i as int));
        if white(cs[i]) {
            if !open.as_str().is_empty() {
                done.push(open);
                open = String::new();
                assert(texts(done@) =~= before);
            }
        } else {
            let ghost was = open@;
            open.push(cs[i]);
            proof {
                if was.len() > 0 {
                    assert(texts(done@).push(open@) =~= before.drop_last().push(
                        before.last().push(next.last()),
                    ));
                } else {
                    assert(open@ =~= seq![next.last()]);
                }
            }
        }
        i += 1;
    }
    assert(s@.take(s@.len() as int) =~= s@);
    let ghost before = words(s@);
    if !open.as_str().is_empty() {
        done.push(open);
    }
    assert(texts(done@) =~= before);
    done
}

/// A line's text without the carriage return that may stand before the line feed.
pub open spec fn without_cr(s: Seq<char>) -> Seq<char> {
    if s.len() > 0 && s.last() == '\r' {
        s.drop_last()
    } else {
        s
    }
}

/// The lines of `s`, each ended by a line feed or by a carriage return and a
/// line feed; the last one may go without.
pub open spec fn lines(s: Seq<char>) -> Seq<Seq<char>> {
    let parts = fields(s, '\n');
    let ended = parts.drop_last().map_values(|l: Seq<char>| without_cr(l));
    if parts.last().len() == 0 {
        ended
    } else {
        ended.push(parts.last())
    }
}

fn drop_cr(s: String) -> (r: String)
    ensures
        r@ == without_cr(s@),
{
    let cs = chars_of(s.as_str());
    if cs.len() > 0 && cs[cs.len() - 1] == '\r' {
        let r = text_of(&cs, 0, cs.len() - 1);
        assert(r@ =~= s@.drop_last());
        r
    } else {
        s
    }
}

/// The lines of `s`.
pub fn split_lines(s: &str) -> (r: Vec<String>)
    ensures
        texts(r@) == lines(s@),
{
    let mut parts = split(s, '\n');
    proof {
        lemma_fields_nonempty(s@, '\n');
    }
    let ghost all = texts(parts@);
    assert(parts.len() > 0);
    let last = match parts.pop() {
        Some(l) => l,
        None => String::new(),
    };
    assert(last@ == all.last());
    let mut out: Vec<String> = Vec::new();
    let ghost ended = all.drop_last().map_values(|l: Seq<char>| without_cr(l));
    let mut i: usize = 0;
    while i < parts.len()
        invariant
            texts(parts@) == all.drop_last(),
            ended == all.drop_last().map_values(|l: Seq<char>| without_cr(l)),
            i <= parts.len(),
            texts(out@) == ended.take(i as int),
        decreases parts.len() - i,
    {
        assert(parts@[i as int]@ == texts(parts@)[i as int]);
        out.push(drop_cr(parts[i].clone()));
        assert(ended[i as int] == without_cr(all.drop_last()[i as int]));
        assert(texts(out@) =~= ended.take(i as int).push(ended[i as int]));
        assert(texts(out@) =~= ended.take(i + 1));
        i += 1;
    }
    assert(ended.take(ended.len() as int) =~= ended);
    if !last.as_str().is_empty() {
        out.push(last);
        assert(texts(out@) =~= ended.push(all.last()));
    }
    out
}

/// `s` without `prefix` at its front, if it stands there.
pub open spec fn prefix_stripped(s: Seq<char>, prefix: Seq<char>) -> Seq<char> {
    if part_at(s, prefix, 0) {
        s.skip(prefix.len() as int)
    } else {
        s
    }
}

/// `s` without `prefix` at its front, if it stands there.
pub fn strip_prefix(s: &str, prefix: &str) -> (r: String)
    ensures
        r@ == prefix_stripped(s@, prefix@),
{
    let cs = chars_of(s);
    let ps = chars_of(prefix);
    if ps.len() <= cs.len() && part_is_at(&cs, &ps, 0) {
        let r = text_of(&cs, ps.len(), cs.len());
        assert(r@ =~= s@.skip(prefix@.len() as int));
        r
    } else {
        s.to_owned()
    }
}

/// The value of a decimal digit.
pub open spec fn digit_value(c: char) -> int {
    c as int - '0' as int
}

/// `c` is a decimal digit.
pub open spec fn is_digit(c: char) -> bool {
    '0' <= c <= '9'
}

/// The digit that stands for `d`.
pub open spec fn digit_char(d: nat) -> char {
    (d + '0' as int) as char
}

/// The decimal digits of `n`, without leading zeros.
pub open spec fn decimal(n: nat) -> Seq<char>
    decreases n,
{
    if n < 10 {
        seq![digit_char(n)]
    } else {
        decimal(n / 10).push(digit_char(n % 10))
    }
}

/// Why a text is no number.
#[derive(Clone, Copy, Debug, PartialEq, Eq, Structural)]
pub enum NumberError {
    /// There is nothing in it.
    Empty,
    /// A character in it is no digit.
    InvalidDigit,
    /// It does not fit.
    TooLarge,
}

/// Reads `s` digit by digit, `acc` being the value of the digits before it.
pub open spec fn read_digits(s: Seq<char>, acc: nat) -> Result<nat, NumberError>
    decreases s.len(),
{
    if s.len() == 0 {
        Ok(acc)
    } else if !is_digit(s[0]) {
        Err(NumberError::InvalidDigit)
    } else if acc * 10 + digit_value(s[0]) > u64::MAX {
        Err(NumberError::TooLarge)
    } else {
        read_digits(s.drop_first(), (acc * 10 + digit_value(s[0])) as nat)
    }
}

/// The 64-bit number that `s` spells: digits, with an optional plus sign before them.
pub open spec fn read_number(s: Seq<char>) -> Result<nat, NumberError> {
    if s.len() == 0 {
        Err(NumberError::Empty)
    } else if s.len() > 1 && s[0] == '+' {
        read_digits(s.drop_first(), 0)
    } else {
        read_digits(s, 0)
    }
}

/// The number that `s` spells.
pub fn parse_number(s: &str) -> (r: Result<u64, NumberError>)
    ensures
        match r {
            Ok(n) => read_number(s@) == Ok::<nat, NumberError>(n as nat),
            Err(e) => read_number(s@) == Err::<nat, NumberError>(e),
        },
{
    let cs = chars_of(s);
    if cs.len() == 0 {
        return Err(NumberError::Empty);
    }
    let mut i: usize = if cs.len() > 1 && cs[0] == '+' { 1 } else { 0 };
    let mut acc: u64 = 0;
    assert(s@.skip(0) =~= s@);
    assert(s@.skip(1) =~= s@.drop_first());
    while i < cs.len()
        invariant
            cs@ == s@,
            i <= cs.len(),
            read_number(s@) == read_digits(s@.skip(i as int), acc as nat),
        decreases cs.len() - i,
    {
        let c = cs[i];
        assert(s@.skip(i as int)[0] == c);
        assert(s@.skip(i as int).drop_first() =~= s@.skip(i + 1));
        if !('0' <= c && c <= '9') {
            return Err(NumberError::InvalidDigit);
        }
        let d: u64 = (c as u32 - '0' as u32) as u64;
        if acc > u64::MAX / 10 || acc * 10 > u64::MAX - d {
            return Err(NumberError::TooLarge);
        }
        acc = acc * 10 + d;
        i += 1;
    }
    Ok(acc)
}

/// The decimal digits of `n`.
pub fn number_text(n: u64) -> (r: String)
    ensures
        r@ == decimal(n as nat),
    decreases n,
{
    let mut out = if n < 10 {
        String::new()
    } else {
        number_text(n / 10)
    };
    let d: u8 = (n % 10) as u8;
    out.push((48u8 + d) as char);
    assert(out@ =~= decimal(n as nat));
    out
}

/// A list of owned copies of the given texts.
pub fn strings(v: Vec<&str>) -> (r: Vec<String>)
    ensures
        texts(r@) == v@.map_values(|s: &str| s@),
{
    let mut out: Vec<String> = Vec::new();
    let ghost want = v@.map_values(|s: &str| s@);
    let mut i: usize = 0;
    while i < v.len()
        invariant
            want == v@.map_values(|s: &str| s@),
            i <= v.len(),
            texts(out@) == want.take(i as int),
        decreases v.len() - i,
    {
        out.push(v[i].to_owned());
        assert(texts(out@) =~= want.take(i as int).push(want[i as int]));
        assert(texts(out@) =~= want.take(i + 1));
        i += 1;
    }
    assert(want.take(want.len() as int) =~= want);
    out
}

/// A copy of a list of strings.
pub fn copy_list(v: &Vec<String>) -> (r: Vec<String>)
    ensures
        texts(r@) == texts(v@),
        r@ == v@,
{
    let r = v.clone();
    assert(r@ =~= v@);
    r
}

/// Two lists, one after the other.
pub fn both_lists(first: Vec<String>, second: Vec<String>) -> (r: Vec<String>)
    ensures
        texts(r@) == texts(first@) + texts(second@),
{
    let mut r = first;
    let mut rest = second;
    r.append(&mut rest);
    assert(texts(r@) =~= texts(first@) + texts(second@));
    r
}

/// The text of a string that may be missing.
pub open spec fn opt_text(s: Option<String>) -> Option<Seq<char>> {
    match s {
        Some(t) => Some(t@),
        None => None,
    }
}

/// The text of a borrowed string that may be missing.
pub open spec fn opt_str(s: Option<&str>) -> Option<Seq<char>> {
    match s {
        Some(t) => Some(t@),
        None => None,
    }
}

/// A copy of a string that may be missing.
pub fn copy_opt(s: &Option<String>) -> (r: Option<String>)
    ensures
        opt_text(r) == opt_text(*s),
        r == *s,
{
    match s {
        Some(t) => Some(t.clone()),
        None => None,
    }
}

/// Whether a string is there and spells `t`.
pub fn is_text(s: &Option<String>, t: &str) -> (r: bool)
    ensures
        r == (opt_text(*s) == Some(t@)),
{
    match s {
        Some(u) => same(u.as_str(), t),
        None => false,
    }
}

} // verus!
