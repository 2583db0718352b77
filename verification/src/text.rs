//! The decimal text of unsigned integers and the words for truth values.

use vstd::prelude::*;
use vstd::string::*;
use vstd::utf8::is_ascii_chars;

verus! {

/// The character that writes the digit `d`.
pub open spec fn digit_char(d: int) -> char {
    (48 + d) as char
}

/// Whether `c` is one of the ten digits.
pub open spec fn is_digit(c: char) -> bool {
    '0' <= c <= '9'
}

/// The number that a digit stands for; zero for any other character.
pub open spec fn digit_value(c: char) -> nat {
    if is_digit(c) {
        (c as int - 48) as nat
    } else {
        0
    }
}

/// The decimal text of `n`: no sign, and no leading zero but for zero itself.
pub open spec fn decimal(n: nat) -> Seq<char>
    decreases n,
{
    if n < 10 {
        seq![digit_char(n as int)]
    } else {
        decimal(n / 10).push(digit_char((n % 10) as int))
    }
}

/// The number that a run of digits writes, the last digit counting least.
pub open spec fn digits_value(s: Seq<char>) -> nat
    decreases s.len(),
{
    if s.len() == 0 {
        0
    } else {
        digits_value(s.drop_last()) * 10 + digit_value(s.last())
    }
}

/// Whether `s` is a decimal text: digits only, at least one, and no leading
/// zero but in the text of zero.
pub open spec fn canonical(s: Seq<char>) -> bool {
    &&& s.len() > 0
    &&& forall|i: int| 0 <= i < s.len() ==> is_digit(#[trigger] s[i])
    &&& s.len() > 1 ==> s[0] != '0'
}

/// The word that writes a truth value.
pub open spec fn bool_word(b: bool) -> Seq<char> {
    if b {
        "true"@
    } else {
        "false"@
    }
}

/// The parts written one after the other, with `sep` between each two.
pub open spec fn joined(parts: Seq<Seq<char>>, sep: Seq<char>) -> Seq<char>
    decreases parts.len(),
{
    if parts.len() == 0 {
        Seq::empty()
    } else if parts.len() == 1 {
        parts[0]
    } else {
        joined(parts.drop_last(), sep) + sep + parts.last()
    }
}

/// The pieces into which the character `sep` cuts `s`: one more than `sep`
/// occurs in `s`, and none of them holds `sep`.
pub open spec fn split(s: Seq<char>, sep: char) -> Seq<Seq<char>>
    decreases s.len(),
{
    if s.len() == 0 {
        seq![Seq::empty()]
    } else {
        let before = split(s.drop_last(), sep);
        if s.last() == sep {
            before.push(Seq::empty())
        } else {
            before.update(before.len() - 1, before.last().push(s.last()))
        }
    }
}

/// Whether `sep` occurs nowhere in `s`.
pub open spec fn free_of(s: Seq<char>, sep: char) -> bool {
    forall|i: int| 0 <= i < s.len() ==> #[trigger] s[i] != sep
}

/// Cutting yields at least one piece.
pub proof fn lemma_split_nonempty(s: Seq<char>, sep: char)
    ensures
        split(s, sep).len() >= 1,
    decreases s.len(),
{
    if s.len() > 0 {
        lemma_split_nonempty(s.drop_last(), sep);
    }
}

/// A tail without `sep` lengthens the last piece and adds none.
pub proof fn lemma_split_append(s: Seq<char>, tail: Seq<char>, sep: char)
    requires
        free_of(tail, sep),
    ensures
        split(s, sep).len() >= 1,
        split(s + tail, sep) == split(s, sep).update(
            split(s, sep).len() - 1,
            split(s, sep).last() + tail,
        ),
    decreases tail.len(),
{
    lemma_split_nonempty(s, sep);
    let pieces = split(s, sep);
    if tail.len() == 0 {
        assert(s + tail =~= s);
        assert(pieces.last() + tail =~= pieces.last());
        assert(pieces.update(pieces.len() - 1, pieces.last()) =~= pieces);
    } else {
        let shorter = tail.drop_last();
        assert(free_of(shorter, sep)) by {
            assert forall|i: int| 0 <= i < shorter.len() implies #[trigger] shorter[i] != sep by {
                assert(shorter[i] == tail[i]);
            }
        }
        lemma_split_append(s, shorter, sep);
        assert((s + tail).drop_last() =~= s + shorter);
        assert((s + tail).last() == tail.last());
        assert(tail[tail.len() - 1] != sep);
        assert(pieces.last() + shorter.push(tail.last()) =~= (pieces.last() + shorter).push(
            tail.last(),
        ));
        assert(shorter.push(tail.last()) =~= tail);
        assert(split(s + tail, sep) =~= pieces.update(pieces.len() - 1, pieces.last() + tail));
    }
}

/// Cutting at `sep` what was joined with `sep` gives the parts back, where
/// there is at least one part and none holds `sep`.
pub proof fn lemma_split_joined(parts: Seq<Seq<char>>, sep: char)
    requires
        parts.len() >= 1,
        forall|i: int| 0 <= i < parts.len() ==> free_of(#[trigger] parts[i], sep),
    ensures
        split(joined(parts, seq![sep]), sep) == parts,
    decreases parts.len(),
{
    let none = Seq::<char>::empty();
    if parts.len() == 1 {
        lemma_split_append(none, parts[0], sep);
        assert(none + parts[0] =~= parts[0]);
        assert(split(none, sep) =~= seq![none]);
        assert(split(parts[0], sep) =~= parts);
    } else {
        let init = parts.drop_last();
        assert forall|i: int| 0 <= i < init.len() implies free_of(#[trigger] init[i], sep) by {
            assert(init[i] == parts[i]);
        }
        lemma_split_joined(init, sep);
        let head = joined(init, seq![sep]);
        let cut = head + seq![sep];
        assert(cut.drop_last() =~= head);
        assert(cut.last() == sep);
        assert(split(cut, sep) =~= init.push(none));
        lemma_split_append(cut, parts.last(), sep);
        assert(none + parts.last() =~= parts.last());
        assert(split(cut + parts.last(), sep) =~= parts);
    }
}

/// What was joined with `sep` from parts without `sep`, none of them empty,
/// neither starts nor ends with `sep`.
pub proof fn lemma_joined_ends(parts: Seq<Seq<char>>, sep: char)
    requires
        parts.len() >= 1,
        forall|i: int| 0 <= i < parts.len() ==> free_of(#[trigger] parts[i], sep),
        forall|i: int| 0 <= i < parts.len() ==> (#[trigger] parts[i]).len() > 0,
    ensures
        joined(parts, seq![sep]).len() > 0,
        joined(parts, seq![sep])[0] != sep,
        joined(parts, seq![sep]).last() != sep,
    decreases parts.len(),
{
    if parts.len() == 1 {
        assert(parts[0][0] != sep);
        assert(parts[0][parts[0].len() - 1] != sep);
    } else {
        let init = parts.drop_last();
        assert forall|i: int| 0 <= i < init.len() implies free_of(#[trigger] init[i], sep) && init[i].len() > 0 by {
            assert(init[i] == parts[i]);
        }
        lemma_joined_ends(init, sep);
        let last = parts.last();
        assert(last[last.len() - 1] != sep);
    }
}

/// The decimal text of a number is a decimal text, and writes that number.
pub proof fn lemma_decimal_canonical(n: nat)
    ensures
        canonical(decimal(n)),
        digits_value(decimal(n)) == n,
        n >= 1 ==> decimal(n)[0] != '0',
    decreases n,
{
    if n < 10 {
        let s = decimal(n);
        assert(s.drop_last() =~= Seq::<char>::empty());
        assert(digits_value(s.drop_last()) == 0);
    } else {
        lemma_decimal_canonical(n / 10);
        let init = decimal(n / 10);
        let s = decimal(n);
        assert(s.drop_last() =~= init);
        assert(s[0] == init[0]);
    }
}

/// The value of a run of digits that does not start with zero is positive.
proof fn lemma_value_positive(s: Seq<char>)
    requires
        s.len() > 0,
        is_digit(s[0]),
        s[0] != '0',
    ensures
        digits_value(s) >= 1,
    decreases s.len(),
{
    if s.len() == 1 {
        assert(s.drop_last() =~= Seq::<char>::empty());
        assert(digits_value(s.drop_last()) == 0);
    } else {
        lemma_value_positive(s.drop_last());
    }
}

/// A decimal text is the decimal text of the number that it writes.
pub proof fn lemma_canonical_decimal(s: Seq<char>)
    requires
        canonical(s),
    ensures
        decimal(digits_value(s)) == s,
    decreases s.len(),
{
    let init = s.drop_last();
    let d = digit_value(s.last());
    assert(is_digit(s.last()));
    if s.len() == 1 {
        assert(init =~= Seq::<char>::empty());
        assert(digits_value(init) == 0);
        assert(decimal(d) =~= s);
    } else {
        assert(forall|i: int| 0 <= i < init.len() ==> init[i] == s[i]);
        assert(is_digit(s[0]));
        lemma_canonical_decimal(init);
        lemma_value_positive(init);
        let v = digits_value(init);
        let n = v * 10 + d;
        assert(n / 10 == v && n % 10 == d);
        assert(decimal(n) =~= s);
    }
}

/// Two numbers with the same decimal text are the same number.
pub proof fn lemma_decimal_injective(a: nat, b: nat)
    requires
        decimal(a) == decimal(b),
    ensures
        a == b,
{
    lemma_decimal_canonical(a);
    lemma_decimal_canonical(b);
}

/// The value of a text is at least the value of each of its beginnings.
proof fn lemma_prefix_value(s: Seq<char>, k: int)
    requires
        0 <= k <= s.len(),
    ensures
        digits_value(s.take(k)) <= digits_value(s),
    decreases s.len() - k,
{
    if k == s.len() {
        assert(s.take(k) =~= s);
    } else {
        lemma_prefix_value(s.drop_last(), k);
        assert(s.drop_last().take(k) =~= s.take(k));
    }
}

/// The text of one digit.
fn digit_text(d: u64) -> (res: &'static str)
    requires
        d < 10,
    ensures
        res@ == seq![digit_char(d as int)],
{
    proof {
        reveal_strlit("0");
        reveal_strlit("1");
        reveal_strlit("2");
        reveal_strlit("3");
        reveal_strlit("4");
        reveal_strlit("5");
        reveal_strlit("6");
        reveal_strlit("7");
        reveal_strlit("8");
        reveal_strlit("9");
    }
    let res = if d == 0 {
        "0"
    } else if d == 1 {
        "1"
    } else if d == 2 {
        "2"
    } else if d == 3 {
        "3"
    } else if d == 4 {
        "4"
    } else if d == 5 {
        "5"
    } else if d == 6 {
        "6"
    } else if d == 7 {
        "7"
    } else if d == 8 {
        "8"
    } else {
        "9"
    };
    assert(res@ =~= seq![digit_char(d as int)]);
    res
}

/// Writes `n` in decimal.
pub fn decimal_text(n: u64) -> (res: String)
    ensures
        res@ == decimal(n as nat),
    decreases n,
{
    if n < 10 {
        String::from_str(digit_text(n))
    } else {
        let mut res = decimal_text(n / 10);
        res.append(digit_text(n % 10));
        assert(res@ =~= decimal(n as nat));
        res
    }
}

/// Writes the parts one after the other, with `sep` between each two.
pub fn join(parts: &Vec<String>, sep: &str) -> (res: String)
    ensures
        res@ == joined(parts@.map_values(|p: String| p@), sep@),
{
    let ghost texts = parts@.map_values(|p: String| p@);
    let mut res = String::new();
    let mut i: usize = 0;
    assert(texts.take(0) =~= Seq::<Seq<char>>::empty());
    while i < parts.len()
        invariant
            i <= parts@.len(),
            texts == parts@.map_values(|p: String| p@),
            res@ == joined(texts.take(i as int), sep@),
        decreases parts@.len() - i,
    {
        proof {
            let next = texts.take(i + 1);
            assert(next.drop_last() =~= texts.take(i as int));
            assert(next.last() == parts@[i as int]@);
            if i == 0 {
                assert(res@ + parts@[i as int]@ =~= next[0]);
            }
        }
        if i > 0 {
            res.append(sep);
        }
        res.append(parts[i].as_str());
        i += 1;
    }
    assert(texts.take(i as int) =~= texts);
    res
}

/// Writes a truth value as `true` or `false`.
pub fn bool_text(b: bool) -> (res: String)
    ensures
        res@ == bool_word(b),
{
    if b {
        String::from_str("true")
    } else {
        String::from_str("false")
    }
}

/// Reads a decimal text. The result is the number whose decimal text `s` is,
/// if there is one that fits the type.
pub fn parse_decimal(s: &str) -> (res: Option<u64>)
    ensures
        match res {
            Some(n) => s@ == decimal(n as nat),
            None => forall|n: nat| n <= u64::MAX ==> decimal(n) != s@,
        },
{
    if !s.is_ascii() {
        assert forall|n: nat| n <= u64::MAX implies decimal(n) != s@ by {
            lemma_decimal_canonical(n);
        }
        return None;
    }
    let len = s.unicode_len();
    if len == 0 || (len > 1 && s.get_ascii(0) == 48) {
        assert forall|n: nat| n <= u64::MAX implies decimal(n) != s@ by {
            lemma_decimal_canonical(n);
        }
        return None;
    }
    let mut acc: u64 = 0;
    let mut i: usize = 0;
    while i < len
        invariant
            len == s@.len(),
            is_ascii_chars(s@),
            i <= len,
            forall|j: int| 0 <= j < i ==> is_digit(#[trigger] s@[j]),
            acc == digits_value(s@.take(i as int)),
        decreases len - i,
    {
        let b = s.get_ascii(i);
        if b < 48 || b > 57 {
            assert(!is_digit(s@[i as int]));
            assert forall|n: nat| n <= u64::MAX implies decimal(n) != s@ by {
                lemma_decimal_canonical(n);
            }
            return None;
        }
        let d: u64 = (b - 48) as u64;
        proof {
            let next = s@.take(i + 1);
            assert(next.drop_last() =~= s@.take(i as int));
            assert(next.last() == s@[i as int]);
            assert(digit_value(s@[i as int]) == d);
            assert(digits_value(next) == acc * 10 + d);
        }
        if acc > (u64::MAX - d) / 10 {
            assert forall|n: nat| n <= u64::MAX implies decimal(n) != s@ by {
                lemma_decimal_canonical(n);
                lemma_prefix_value(s@, i + 1);
            }
            return None;
        }
        acc = acc * 10 + d;
        i += 1;
    }
    proof {
        assert(s@.take(len as int) =~= s@);
        lemma_canonical_decimal(s@);
    }
    Some(acc)
}

} // verus!
