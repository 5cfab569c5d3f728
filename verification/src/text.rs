//! The text of the system-call channel: an application writes one line per
//! system call, its arguments as decimal numbers separated by commas, and
//! reads back the return code as a decimal number.

use vstd::prelude::*;

verus! {

/// The byte `,` that separates the fields of a line.
pub const COMMA: u8 = 44;

/// The byte `+` that may stand before the digits of a field.
pub const PLUS: u8 = 43;

/// The byte `-` that stands before the digits of a negative number.
pub const MINUS: u8 = 45;

/// The byte `0`; the digits follow it in order.
pub const ZERO: u8 = 48;

pub open spec fn is_digit(b: u8) -> bool {
    ZERO <= b <= ZERO + 9
}

pub open spec fn all_digits(s: Seq<u8>) -> bool {
    forall|i: int| 0 <= i < s.len() ==> is_digit(#[trigger] s[i])
}

/// The number that a sequence of decimal digits denotes.
pub open spec fn digits_value(s: Seq<u8>) -> nat
    decreases s.len(),
{
    if s.len() == 0 {
        0
    } else {
        digits_value(s.drop_last()) * 10 + (s.last() - ZERO) as nat
    }
}

/// The digits of a field: a `+` in front of at least one more byte is dropped.
pub open spec fn unsigned_digits(s: Seq<u8>) -> Seq<u8> {
    if s.len() > 1 && s[0] == PLUS {
        s.drop_first()
    } else {
        s
    }
}

/// What a field holds as a `usize`: `None` for a field that is empty, holds
/// anything but digits after an optional `+`, or denotes a number that does
/// not fit.
pub open spec fn field_value(s: Seq<u8>) -> Option<usize> {
    let d = unsigned_digits(s);
    if d.len() > 0 && all_digits(d) && digits_value(d) <= usize::MAX {
        Some(digits_value(d) as usize)
    } else {
        None
    }
}

/// Splitting a line at its commas, as read from the left: the fields that
/// a comma has closed, and the field still open.
pub open spec fn split_state(s: Seq<u8>) -> (Seq<Seq<u8>>, Seq<u8>)
    decreases s.len(),
{
    if s.len() == 0 {
        (Seq::empty(), Seq::empty())
    } else {
        let prev = split_state(s.drop_last());
        if s.last() == COMMA {
            (prev.0.push(prev.1), Seq::empty())
        } else {
            (prev.0, prev.1.push(s.last()))
        }
    }
}

/// The fields of a line: the pieces between its commas, empty ones
/// included; a line without a comma is one field.
pub open spec fn fields(s: Seq<u8>) -> Seq<Seq<u8>> {
    let st = split_state(s);
    st.0.push(st.1)
}

/// The values of the fields that hold a `usize`, in order; the other
/// fields are skipped.
pub open spec fn parsed_fields(fs: Seq<Seq<u8>>) -> Seq<usize>
    decreases fs.len(),
{
    if fs.len() == 0 {
        Seq::empty()
    } else {
        let rest = parsed_fields(fs.drop_last());
        match field_value(fs.last()) {
            Some(v) => rest.push(v),
            None => rest,
        }
    }
}

/// The arguments that a line carries.
pub open spec fn line_args(s: Seq<u8>) -> Seq<usize> {
    parsed_fields(fields(s))
}

/// The decimal digits of a number, without leading zeros.
pub open spec fn decimal(n: nat) -> Seq<u8>
    decreases n,
{
    if n < 10 {
        seq![(ZERO + n) as u8]
    } else {
        decimal(n / 10).push((ZERO + n % 10) as u8)
    }
}

/// The decimal text of an integer: a `-` before the digits of a negative one.
pub open spec fn signed_decimal(n: int) -> Seq<u8> {
    if n < 0 {
        seq![MINUS] + decimal((-n) as nat)
    } else {
        decimal(n as nat)
    }
}

proof fn lemma_digits_value_prefix(s: Seq<u8>, k: int)
    requires
        all_digits(s),
        0 <= k <= s.len(),
    ensures
        digits_value(s.subrange(0, k)) <= digits_value(s),
    decreases s.len(),
{
    if k < s.len() {
        assert(s.drop_last().subrange(0, k) == s.subrange(0, k));
        lemma_digits_value_prefix(s.drop_last(), k);
    } else {
        assert(s.subrange(0, k) == s);
    }
}

proof fn lemma_decimal_digits(n: nat)
    ensures
        decimal(n).len() > 0,
        all_digits(decimal(n)),
        digits_value(decimal(n)) == n,
    decreases n,
{
    if n >= 10 {
        lemma_decimal_digits(n / 10);
        let d = decimal(n / 10);
        let s = d.push((ZERO + n % 10) as u8);
        assert(s.drop_last() == d);
        assert(s.last() == (ZERO + n % 10) as u8);
        assert((s.last() - ZERO) as nat == n % 10);
        assert(n == (n / 10) * 10 + n % 10);
        assert forall|i: int| 0 <= i < s.len() implies is_digit(#[trigger] s[i]) by {
            if i < d.len() {
                assert(s[i] == d[i]);
            }
        }
    } else {
        let s = decimal(n);
        assert(s.drop_last() =~= Seq::<u8>::empty());
        assert(digits_value(Seq::<u8>::empty()) == 0);
    }
}

/// The line that carries `args`: their decimal texts joined by commas.
pub open spec fn joined_decimal(args: Seq<usize>) -> Seq<u8>
    decreases args.len(),
{
    if args.len() == 0 {
        Seq::empty()
    } else if args.len() == 1 {
        decimal(args[0] as nat)
    } else {
        joined_decimal(args.drop_last()) + seq![COMMA] + decimal(args.last() as nat)
    }
}

proof fn lemma_split_no_comma(p: Seq<u8>, t: Seq<u8>)
    requires
        forall|i: int| 0 <= i < t.len() ==> t[i] != COMMA,
    ensures
        split_state(p + t) == (split_state(p).0, split_state(p).1 + t),
    decreases t.len(),
{
    if t.len() == 0 {
        assert(p + t =~= p);
        assert(split_state(p).1 + t =~= split_state(p).1);
    } else {
        lemma_split_no_comma(p, t.drop_last());
        assert((p + t).drop_last() =~= p + t.drop_last());
        assert((p + t).last() == t.last());
        assert((split_state(p).1 + t.drop_last()).push(t.last()) =~= split_state(p).1 + t);
    }
}

proof fn lemma_decimal_has_no_comma(n: nat)
    ensures
        forall|i: int| 0 <= i < decimal(n).len() ==> decimal(n)[i] != COMMA,
{
    lemma_decimal_digits(n);
    assert forall|i: int| 0 <= i < decimal(n).len() implies decimal(n)[i] != COMMA by {
        assert(is_digit(decimal(n)[i]));
    }
}

/// A number written in decimal reads back as itself.
pub proof fn lemma_field_round_trip(n: usize)
    ensures
        field_value(decimal(n as nat)) == Some(n),
{
    lemma_decimal_digits(n as nat);
    let d = decimal(n as nat);
    assert(is_digit(d[0]));
    assert(unsigned_digits(d) == d);
}

/// A line written from a list of arguments, each in decimal and separated
/// by commas, reads back as that list.
pub proof fn lemma_args_round_trip(args: Seq<usize>)
    ensures
        line_args(joined_decimal(args)) == args,
    decreases args.len(),
{
    if args.len() == 0 {
        let e = Seq::<u8>::empty();
        assert(fields(e) =~= seq![e]);
        assert(seq![e].drop_last() =~= Seq::<Seq<u8>>::empty());
        assert(seq![e].last() == e);
        assert(field_value(e) is None);
        assert(parsed_fields(Seq::<Seq<u8>>::empty()) == Seq::<usize>::empty());
        assert(parsed_fields(seq![e]) =~= Seq::<usize>::empty());
    } else if args.len() == 1 {
        let d = decimal(args[0] as nat);
        lemma_decimal_has_no_comma(args[0] as nat);
        lemma_split_no_comma(Seq::empty(), d);
        assert(Seq::<u8>::empty() + d =~= d);
        assert(fields(d) =~= seq![d]);
        assert(seq![d].drop_last() =~= Seq::<Seq<u8>>::empty());
        lemma_field_round_trip(args[0]);
        assert(seq![d].last() == d);
        assert(parsed_fields(Seq::<Seq<u8>>::empty()) == Seq::<usize>::empty());
        assert(Seq::<usize>::empty().push(args[0]) =~= seq![args[0]]);
        assert(parsed_fields(seq![d]) =~= seq![args[0]]);
        assert(seq![args[0]] =~= args);
    } else {
        let front = joined_decimal(args.drop_last());
        let p = front + seq![COMMA];
        let d = decimal(args.last() as nat);
        lemma_args_round_trip(args.drop_last());
        lemma_decimal_has_no_comma(args.last() as nat);
        lemma_split_no_comma(p, d);
        assert(p.drop_last() =~= front);
        assert(split_state(p) == (fields(front), Seq::<u8>::empty()));
        assert(Seq::<u8>::empty() + d =~= d);
        assert(joined_decimal(args) == p + d);
        assert(fields(joined_decimal(args)) == fields(front).push(d));
        assert(fields(front).push(d).drop_last() =~= fields(front));
        lemma_field_round_trip(args.last());
        assert(args.drop_last().push(args.last()) =~= args);
    }
}

/// A field holds no comma.
pub open spec fn comma_free(f: Seq<u8>) -> bool {
    forall|i: int| 0 <= i < f.len() ==> f[i] != COMMA
}

/// Fields joined by commas into a line.
pub open spec fn joined_fields(fs: Seq<Seq<u8>>) -> Seq<u8>
    decreases fs.len(),
{
    if fs.len() == 0 {
        Seq::empty()
    } else if fs.len() == 1 {
        fs[0]
    } else {
        joined_fields(fs.drop_last()) + seq![COMMA] + fs.last()
    }
}

/// The fields that hold a `usize`, in order.
pub open spec fn kept_fields(fs: Seq<Seq<u8>>) -> Seq<Seq<u8>>
    decreases fs.len(),
{
    if fs.len() == 0 {
        Seq::empty()
    } else {
        let rest = kept_fields(fs.drop_last());
        if field_value(fs.last()) is Some {
            rest.push(fs.last())
        } else {
            rest
        }
    }
}

/// A line rebuilt from the fields of `s` that hold a `usize`, as they
/// stand in `s`, joined by commas.
pub open spec fn kept_line(s: Seq<u8>) -> Seq<u8> {
    joined_fields(kept_fields(fields(s)))
}

proof fn lemma_split_state_comma_free(s: Seq<u8>)
    ensures
        forall|j: int|
            0 <= j < split_state(s).0.len() ==> comma_free(#[trigger] split_state(s).0[j]),
        comma_free(split_state(s).1),
    decreases s.len(),
{
    if s.len() > 0 {
        lemma_split_state_comma_free(s.drop_last());
        let prev = split_state(s.drop_last());
        if s.last() == COMMA {
            assert forall|j: int| 0 <= j < prev.0.push(prev.1).len() implies comma_free(
                #[trigger] prev.0.push(prev.1)[j],
            ) by {
                if j < prev.0.len() {
                    assert(prev.0.push(prev.1)[j] == prev.0[j]);
                }
            }
        } else {
            let c = prev.1.push(s.last());
            assert forall|i: int| 0 <= i < c.len() implies c[i] != COMMA by {
                if i < prev.1.len() {
                    assert(c[i] == prev.1[i]);
                }
            }
        }
    }
}

proof fn lemma_fields_comma_free(s: Seq<u8>)
    ensures
        forall|j: int| 0 <= j < fields(s).len() ==> comma_free(#[trigger] fields(s)[j]),
{
    lemma_split_state_comma_free(s);
    let st = split_state(s);
    assert forall|j: int| 0 <= j < fields(s).len() implies comma_free(#[trigger] fields(s)[j]) by {
        if j < st.0.len() {
            assert(fields(s)[j] == st.0[j]);
        }
    }
}

proof fn lemma_kept_fields(fs: Seq<Seq<u8>>)
    requires
        forall|j: int| 0 <= j < fs.len() ==> comma_free(#[trigger] fs[j]),
    ensures
        forall|j: int|
            0 <= j < kept_fields(fs).len() ==> comma_free(#[trigger] kept_fields(fs)[j]),
        parsed_fields(kept_fields(fs)) == parsed_fields(fs),
        kept_fields(fs).len() == 0 ==> parsed_fields(fs).len() == 0,
    decreases fs.len(),
{
    if fs.len() > 0 {
        let front = fs.drop_last();
        assert forall|j: int| 0 <= j < front.len() implies comma_free(#[trigger] front[j]) by {
            assert(front[j] == fs[j]);
        }
        lemma_kept_fields(front);
        let rest = kept_fields(front);
        if field_value(fs.last()) is Some {
            let k = rest.push(fs.last());
            assert(k.drop_last() == rest);
            assert forall|j: int| 0 <= j < k.len() implies comma_free(#[trigger] k[j]) by {
                if j < rest.len() {
                    assert(k[j] == rest[j]);
                } else {
                    assert(k[j] == fs[fs.len() - 1]);
                }
            }
        }
    }
}

proof fn lemma_fields_of_joined(fs: Seq<Seq<u8>>)
    requires
        fs.len() >= 1,
        forall|j: int| 0 <= j < fs.len() ==> comma_free(#[trigger] fs[j]),
    ensures
        fields(joined_fields(fs)) == fs,
    decreases fs.len(),
{
    if fs.len() == 1 {
        let f = fs[0];
        assert(comma_free(fs[0]));
        lemma_split_no_comma(Seq::empty(), f);
        assert(Seq::<u8>::empty() + f =~= f);
        assert(split_state(Seq::<u8>::empty()) == (Seq::<Seq<u8>>::empty(), Seq::<u8>::empty()));
        assert(fields(f) =~= seq![f]);
        assert(seq![f] =~= fs);
    } else {
        let front = fs.drop_last();
        assert forall|j: int| 0 <= j < front.len() implies comma_free(#[trigger] front[j]) by {
            assert(front[j] == fs[j]);
        }
        lemma_fields_of_joined(front);
        let jf = joined_fields(front);
        let p = jf + seq![COMMA];
        let last = fs.last();
        assert(comma_free(fs[fs.len() - 1]));
        lemma_split_no_comma(p, last);
        assert(p.drop_last() =~= jf);
        assert(split_state(p) == (fields(jf), Seq::<u8>::empty()));
        assert(Seq::<u8>::empty() + last =~= last);
        assert(joined_fields(fs) == p + last);
        assert(fields(joined_fields(fs)) == front.push(last));
        assert(front.push(last) =~= fs);
    }
}

/// The fields of a line that hold no `usize` play no part: the line rebuilt
/// from the fields that do, as they stand and joined by commas, carries the
/// same arguments.
pub proof fn lemma_unparsable_fields_ignored(s: Seq<u8>)
    ensures
        line_args(kept_line(s)) == line_args(s),
{
    lemma_fields_comma_free(s);
    lemma_kept_fields(fields(s));
    let k = kept_fields(fields(s));
    if k.len() == 0 {
        let e = Seq::<u8>::empty();
        assert(kept_line(s) == e);
        assert(fields(e) =~= seq![e]);
        assert(seq![e].drop_last() =~= Seq::<Seq<u8>>::empty());
        assert(seq![e].last() == e);
        assert(field_value(e) is None);
        assert(parsed_fields(Seq::<Seq<u8>>::empty()) == Seq::<usize>::empty());
        assert(line_args(e) =~= Seq::<usize>::empty());
    } else {
        lemma_fields_of_joined(k);
    }
}

/// The value of the field `s[start..end]`.
pub fn field_value_at(s: &[u8], start: usize, end: usize) -> (r: Option<usize>)
    requires
        start <= end <= s.len(),
    ensures
        r == field_value(s@.subrange(start as int, end as int)),
{
    let ghost f = s@.subrange(start as int, end as int);
    let mut first = start;
    if end - start > 1 && s[start] == PLUS {
        first = start + 1;
    }
    let ghost d = s@.subrange(first as int, end as int);
    assert(d == unsigned_digits(f));
    if first == end {
        return None;
    }
    let mut value: usize = 0;
    let mut i = first;
    while i < end
        invariant
            start <= first <= i <= end <= s.len(),
            d == s@.subrange(first as int, end as int),
            d == unsigned_digits(f),
            f == s@.subrange(start as int, end as int),
            all_digits(s@.subrange(first as int, i as int)),
            value == digits_value(s@.subrange(first as int, i as int)),
        decreases end - i,
    {
        let b = s[i];
        let ghost next = s@.subrange(first as int, i + 1);
        assert(next.drop_last() == s@.subrange(first as int, i as int));
        assert(d[i - first] == b);
        if b < ZERO || b > ZERO + 9 {
            assert(!all_digits(d));
            return None;
        }
        let digit = (b - ZERO) as usize;
        assert(digits_value(next) == value * 10 + digit);
        assert(all_digits(next)) by {
            assert forall|j: int| 0 <= j < next.len() implies is_digit(#[trigger] next[j]) by {
                if j < next.len() - 1 {
                    assert(next[j] == s@.subrange(first as int, i as int)[j]);
                }
            }
        }
        if value > (usize::MAX - digit) / 10 {
            assert(digits_value(next) > usize::MAX) by (nonlinear_arith)
                requires
                    value > (usize::MAX - digit) / 10,
                    digits_value(next) == value * 10 + digit,
                    digit <= 9,
            ;
            proof {
                if all_digits(d) {
                    assert(d.subrange(0, i + 1 - first) == next);
                    lemma_digits_value_prefix(d, i + 1 - first);
                }
            }
            return None;
        }
        assert(value * 10 + digit <= usize::MAX) by (nonlinear_arith)
            requires
                value <= (usize::MAX - digit) / 10,
                digit <= 9,
        ;
        value = value * 10 + digit;
        i = i + 1;
    }
    assert(s@.subrange(first as int, i as int) == d);
    Some(value)
}

/// The arguments of a line: it is split at its commas, and the value of
/// each field that holds a `usize` is kept, in order.
pub fn parse_args(line: &[u8]) -> (args: Vec<usize>)
    ensures
        args@ == line_args(line@),
{
    let mut args: Vec<usize> = Vec::new();
    let mut start: usize = 0;
    let mut i: usize = 0;
    assert(line@.subrange(0, 0) =~= Seq::<u8>::empty());
    while i < line.len()
        invariant
            start <= i <= line.len(),
            args@ == parsed_fields(split_state(line@.subrange(0, i as int)).0),
            split_state(line@.subrange(0, i as int)).1 == line@.subrange(start as int, i as int),
        decreases line.len() - i,
    {
        let ghost before = line@.subrange(0, i as int);
        let ghost after = line@.subrange(0, i + 1);
        assert(after.drop_last() == before);
        if line[i] == COMMA {
            let v = field_value_at(line, start, i);
            let ghost done = split_state(before).0;
            let ghost cur = split_state(before).1;
            assert(done.push(cur).drop_last() == done);
            match v {
                Some(x) => args.push(x),
                None => {},
            }
            start = i + 1;
            assert(line@.subrange(start as int, i + 1) =~= Seq::<u8>::empty());
        } else {
            assert(line@.subrange(start as int, i + 1) == line@.subrange(
                start as int,
                i as int,
            ).push(line[i as int]));
        }
        i = i + 1;
    }
    assert(line@.subrange(0, line.len() as int) == line@);
    let v = field_value_at(line, start, line.len());
    let ghost st = split_state(line@);
    assert(st.0.push(st.1).drop_last() == st.0);
    match v {
        Some(x) => args.push(x),
        None => {},
    }
    args
}

/// The decimal digits of `n`, without leading zeros.
pub fn format_unsigned(n: usize) -> (text: Vec<u8>)
    ensures
        text@ == decimal(n as nat),
{
    let mut out: Vec<u8> = Vec::new();
    let mut m = n;
    assert(decimal(n as nat) == decimal(m as nat) + out@);
    loop
        invariant_except_break
            m <= n,
            decimal(n as nat) == decimal(m as nat) + out@,
        ensures
            decimal(n as nat) == out@,
        decreases m,
    {
        let d: u8 = (m % 10) as u8 + ZERO;
        if m < 10 {
            assert(decimal(m as nat) == seq![d]);
            let ghost prev = out@;
            out.insert(0, d);
            assert(out@ =~= seq![d] + prev);
            break;
        }
        let ghost prev = out@;
        out.insert(0, d);
        assert(out@ =~= seq![d] + prev);
        assert(decimal(m as nat) == decimal((m / 10) as nat).push(d));
        assert(decimal((m / 10) as nat).push(d) + prev =~= decimal((m / 10) as nat) + out@);
        m = m / 10;
    }
    out
}

/// The decimal text of `n`: a `-` before the digits of a negative number.
pub fn format_signed(n: isize) -> (text: Vec<u8>)
    ensures
        text@ == signed_decimal(n as int),
{
    if n < 0 {
        let magnitude: usize = (-(n + 1)) as usize + 1;
        let digits = format_unsigned(magnitude);
        let mut text: Vec<u8> = Vec::new();
        text.push(MINUS);
        let mut i: usize = 0;
        while i < digits.len()
            invariant
                i <= digits.len(),
                text@ == seq![MINUS] + digits@.subrange(0, i as int),
            decreases digits.len() - i,
        {
            text.push(digits[i]);
            assert(digits@.subrange(0, i + 1) == digits@.subrange(0, i as int).push(digits[i as int]));
            i = i + 1;
        }
        assert(digits@.subrange(0, i as int) == digits@);
        text
    } else {
        format_unsigned(n as usize)
    }
}

} // verus!
