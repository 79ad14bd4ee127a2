//! The names of segments, which tell the frame that a segment starts at.

use crate::outside::is_uuid;
use crate::text::{
    decimal, digit_char, digit_value, fields, is_digit, lemma_fields_nonempty, number_text,
    parse_number, read_digits, read_number, split, texts, NumberError,
};
use vstd::prelude::*;
use vstd::string::*;

verus! {

/// The name of the segment that starts at frame `start`.
pub open spec fn segment_name(start: nat, unique: Seq<char>) -> Seq<char> {
    "segment_"@ + decimal(start) + "_"@ + unique
}

/// The frame by which a segment is ordered: the number between the first two
/// underscores of its name, or zero if there is none.
pub open spec fn frame_of(segment_id: Seq<char>) -> nat {
    let parts = fields(segment_id, '_');
    if parts.len() > 1 {
        match read_number(parts[1]) {
            Ok(n) => n,
            Err(_) => 0,
        }
    } else {
        0
    }
}

/// The name of the segment that starts at frame `start`.
pub fn name_segment(start: u64, unique: &str) -> (r: String)
    ensures
        r@ == segment_name(start as nat, unique@),
{
    "segment_".to_owned().concat(number_text(start).as_str()).concat("_").concat(unique)
}

/// The frame by which the segment is ordered.
pub fn frame_number(segment_id: &str) -> (r: u64)
    ensures
        r == frame_of(segment_id@),
{
    let parts = split(segment_id, '_');
    if parts.len() > 1 {
        assert(parts@[1]@ == texts(parts@)[1]);
        match parse_number(parts[1].as_str()) {
            Ok(n) => n,
            Err(_) => 0,
        }
    } else {
        0
    }
}

/// Text without the separator goes to the last field.
pub proof fn lemma_fields_append(s: Seq<char>, t: Seq<char>, sep: char)
    requires
        !t.contains(sep),
    ensures
        fields(s + t, sep) == fields(s, sep).drop_last().push(fields(s, sep).last() + t),
    decreases t.len(),
{
    lemma_fields_nonempty(s, sep);
    if t.len() == 0 {
        assert(s + t =~= s);
        assert(fields(s, sep).last() + t =~= fields(s, sep).last());
        assert(fields(s, sep).drop_last().push(fields(s, sep).last()) =~= fields(s, sep));
    } else {
        let u = t.drop_last();
        assert forall|i: int| 0 <= i < u.len() implies u[i] != sep by {
            assert(t[i] == u[i]);
        }
        lemma_fields_append(s, u, sep);
        assert((s + t).drop_last() =~= s + u);
        assert((s + t).last() == t.last());
        assert(t.contains(t.last()));
        let before = fields(s + u, sep);
        assert(before.drop_last() =~= fields(s, sep).drop_last());
        assert((fields(s, sep).last() + u).push(t.last()) =~= fields(s, sep).last() + t);
    }
}

/// A separator opens a new field.
pub proof fn lemma_fields_separator(s: Seq<char>, sep: char)
    ensures
        fields(s.push(sep), sep) == fields(s, sep).push(Seq::empty()),
{
    assert(s.push(sep).drop_last() =~= s);
}

proof fn lemma_decimal_digits(n: nat)
    ensures
        decimal(n).len() > 0,
        forall|i: int| 0 <= i < decimal(n).len() ==> is_digit(#[trigger] decimal(n)[i]),
    decreases n,
{
    if n >= 10 {
        lemma_decimal_digits(n / 10);
        let d = digit_char(n % 10);
        assert(is_digit(d));
        let all = decimal(n);
        let front = decimal(n / 10);
        assert(all == front.push(d));
        assert forall|i: int| 0 <= i < all.len() implies is_digit(#[trigger] all[i]) by {
            if i < front.len() {
                assert(all[i] == front[i]);
            }
        }
    }
}

proof fn lemma_read_push(s: Seq<char>, c: char, acc: nat)
    ensures
        read_digits(s.push(c), acc) == match read_digits(s, acc) {
            Ok(m) => if !is_digit(c) {
                Err(NumberError::InvalidDigit)
            } else if m * 10 + digit_value(c) > u64::MAX {
                Err(NumberError::TooLarge)
            } else {
                Ok((m * 10 + digit_value(c)) as nat)
            },
            Err(e) => Err(e),
        },
    decreases s.len(),
{
    let t = s.push(c);
    if s.len() == 0 {
        assert(t.drop_first() =~= Seq::empty());
        if is_digit(c) && acc * 10 + digit_value(c) <= u64::MAX {
            assert(read_digits(t.drop_first(), (acc * 10 + digit_value(c)) as nat) == Ok::<
                nat,
                NumberError,
            >((acc * 10 + digit_value(c)) as nat));
        }
    } else {
        assert(t.drop_first() =~= s.drop_first().push(c));
        if is_digit(s[0]) && acc * 10 + digit_value(s[0]) <= u64::MAX {
            lemma_read_push(s.drop_first(), c, (acc * 10 + digit_value(s[0])) as nat);
        }
    }
}

proof fn lemma_read_decimal(n: nat)
    requires
        n <= u64::MAX,
    ensures
        read_digits(decimal(n), 0) == Ok::<nat, NumberError>(n),
    decreases n,
{
    if n < 10 {
        let s = decimal(n);
        assert(s.drop_first() =~= Seq::empty());
        assert(read_digits(s.drop_first(), n) == Ok::<nat, NumberError>(n));
    } else {
        lemma_read_decimal(n / 10);
        lemma_read_push(decimal(n / 10), digit_char(n % 10), 0);
    }
}

/// A number that is written out in decimal reads back as itself.
pub proof fn law_number_reads_back(n: nat)
    requires
        n <= u64::MAX,
    ensures
        read_number(decimal(n)) == Ok::<nat, NumberError>(n),
{
    lemma_decimal_digits(n);
    lemma_read_decimal(n);
}

/// The name of a segment tells the frame that it starts at.
pub proof fn law_name_tells_frame(start: nat, unique: Seq<char>)
    requires
        start <= u64::MAX,
        is_uuid(unique),
    ensures
        frame_of(segment_name(start, unique)) == start,
{
    reveal_strlit("segment_");
    reveal_strlit("_");
    let word = seq!['s', 'e', 'g', 'm', 'e', 'n', 't'];
    let empty = Seq::<char>::empty();
    let number = decimal(start);
    lemma_decimal_digits(start);
    assert(!number.contains('_'));
    assert forall|i: int| 0 <= i < unique.len() implies unique[i] != '_' by {}
    assert(fields(empty, '_') == seq![empty]);
    lemma_fields_append(empty, word, '_');
    lemma_fields_separator(word, '_');
    assert("segment_"@ =~= word.push('_'));
    assert(empty + word =~= word);
    let a = word.push('_');
    lemma_fields_append(a, number, '_');
    assert(fields(word, '_') =~= seq![word]);
    assert(fields(a, '_') =~= seq![word, empty]);
    let b = a + number;
    assert(fields(b, '_') =~= seq![word, number]);
    lemma_fields_separator(b, '_');
    let c = b.push('_');
    assert(fields(c, '_') =~= seq![word, number, empty]);
    lemma_fields_append(c, unique, '_');
    assert(segment_name(start, unique) =~= c + unique);
    assert(fields(c + unique, '_')[1] == number);
    law_number_reads_back(start);
}

} // verus!
