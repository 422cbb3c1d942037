//! Sequence numbers and node identifiers, and their textual rendering.

use vstd::prelude::*;

verus! {

/// The sequence number of a decision (consensus instance) in the ordered log.
#[derive(Clone, Copy, Debug, PartialEq, Eq, Hash, PartialOrd, Ord)]
pub struct SeqNo(pub u32);

/// The character that stands for the decimal digit `d`.
pub open spec fn digit_char(d: nat) -> char {
    if d == 0 { '0' }
    else if d == 1 { '1' }
    else if d == 2 { '2' }
    else if d == 3 { '3' }
    else if d == 4 { '4' }
    else if d == 5 { '5' }
    else if d == 6 { '6' }
    else if d == 7 { '7' }
    else if d == 8 { '8' }
    else { '9' }
}

/// The decimal representation of `n`, most significant digit first and
/// without leading zeros.
pub open spec fn decimal(n: nat) -> Seq<char>
    decreases n,
{
    if n < 10 {
        seq![digit_char(n)]
    } else {
        decimal(n / 10).push(digit_char(n % 10))
    }
}

/// Whether `c` is one of the decimal digits `0` to `9`.
pub open spec fn is_digit(c: char) -> bool {
    c == '0' || c == '1' || c == '2' || c == '3' || c == '4' || c == '5' || c == '6' || c == '7'
        || c == '8' || c == '9'
}

/// The value of the decimal digit `c`.
pub open spec fn digit_value(c: char) -> nat {
    if c == '1' { 1 }
    else if c == '2' { 2 }
    else if c == '3' { 3 }
    else if c == '4' { 4 }
    else if c == '5' { 5 }
    else if c == '6' { 6 }
    else if c == '7' { 7 }
    else if c == '8' { 8 }
    else if c == '9' { 9 }
    else { 0 }
}

/// The number that the digits `s` denote, read from the most significant
/// digit on: each digit `d` turns the value read so far, `acc`, into `10 * acc + d`.
pub open spec fn numeral_value(s: Seq<char>) -> nat
    decreases s.len(),
{
    if s.len() == 0 {
        0
    } else {
        10 * numeral_value(s.drop_last()) + digit_value(s.last())
    }
}

/// Whether `s` is a canonical decimal numeral: one or more digits, with no
/// leading zero unless the numeral is `0` itself.
pub open spec fn is_numeral(s: Seq<char>) -> bool {
    &&& s.len() > 0
    &&& forall|i: int| 0 <= i < s.len() ==> is_digit(#[trigger] s[i])
    &&& s[0] == '0' ==> s.len() == 1
}

/// The decimal representation of `n` is a canonical numeral that reads back as `n`.
pub proof fn lemma_decimal_reads_back(n: nat)
    ensures
        is_numeral(decimal(n)),
        numeral_value(decimal(n)) == n,
    decreases n,
{
    assert(numeral_value(Seq::<char>::empty()) == 0);
    if n < 10 {
        assert(decimal(n).drop_last() =~= Seq::<char>::empty());
        assert(digit_value(digit_char(n)) == n);
    } else {
        lemma_decimal_reads_back(n / 10);
        let s = decimal(n);
        assert(s.drop_last() =~= decimal(n / 10));
        assert(s[0] == decimal(n / 10)[0]);
        if decimal(n / 10)[0] == '0' {
            assert(decimal(n / 10) =~= seq!['0']);
            assert(seq!['0'].drop_last() =~= Seq::<char>::empty());
            assert(numeral_value(seq!['0']) == 0);
        }
        assert(digit_value(digit_char(n % 10)) == n % 10);
        assert(n == 10 * (n / 10) + n % 10);
        assert forall|i: int| 0 <= i < s.len() implies is_digit(#[trigger] s[i]) by {
            if i < s.len() - 1 {
                assert(s[i] == decimal(n / 10)[i]);
            }
        }
    }
}

/// Different numbers have different decimal representations.
pub proof fn lemma_decimal_injective(a: nat, b: nat)
    ensures
        decimal(a) == decimal(b) ==> a == b,
{
    lemma_decimal_reads_back(a);
    lemma_decimal_reads_back(b);
}

/// The text of a single decimal digit.
fn digit_str(d: u32) -> (s: &'static str)
    requires
        d < 10,
    ensures
        s@ == seq![digit_char(d as nat)],
{
    if d == 0 {
        proof { reveal_strlit("0"); }
        "0"
    } else if d == 1 {
        proof { reveal_strlit("1"); }
        "1"
    } else if d == 2 {
        proof { reveal_strlit("2"); }
        "2"
    } else if d == 3 {
        proof { reveal_strlit("3"); }
        "3"
    } else if d == 4 {
        proof { reveal_strlit("4"); }
        "4"
    } else if d == 5 {
        proof { reveal_strlit("5"); }
        "5"
    } else if d == 6 {
        proof { reveal_strlit("6"); }
        "6"
    } else if d == 7 {
        proof { reveal_strlit("7"); }
        "7"
    } else if d == 8 {
        proof { reveal_strlit("8"); }
        "8"
    } else {
        proof { reveal_strlit("9"); }
        "9"
    }
}

/// Appends the decimal representation of `n` to `out`.
pub fn push_decimal(out: &mut String, n: u32)
    ensures
        final(out)@ == old(out)@ + decimal(n as nat),
        final(out)@.len() > old(out)@.len(),
        final(out)@.subrange(0, old(out)@.len() as int) == old(out)@,
        is_numeral(final(out)@.subrange(old(out)@.len() as int, final(out)@.len() as int)),
        numeral_value(final(out)@.subrange(old(out)@.len() as int, final(out)@.len() as int))
            == n,
    decreases n,
{
    if n < 10 {
        out.append(digit_str(n));
    } else {
        push_decimal(out, n / 10);
        out.append(digit_str(n % 10));
        proof {
            assert(decimal(n as nat) == decimal((n / 10) as nat).push(digit_char((n % 10) as nat)));
        }
    }
    proof {
        lemma_decimal_reads_back(n as nat);
        assert(out@.subrange(old(out)@.len() as int, out@.len() as int) =~= decimal(n as nat));
        assert(out@.subrange(0, old(out)@.len() as int) =~= old(out)@);
    }
}

impl SeqNo {
    /// The numeric value of this sequence number.
    pub open spec fn value(self) -> nat {
        self.0 as nat
    }

    /// The debug text of a sequence number, `SeqNo(n)` with `n` in decimal.
    pub open spec fn debug_text(self) -> Seq<char> {
        seq!['S', 'e', 'q', 'N', 'o', '('] + decimal(self.value()) + seq![')']
    }

    /// Appends the debug text of this sequence number to `out`.
    pub fn push_debug(&self, out: &mut String)
        ensures
            final(out)@ == old(out)@ + self.debug_text(),
    {
        proof { reveal_strlit("SeqNo("); reveal_strlit(")"); }
        out.append("SeqNo(");
        push_decimal(out, self.0);
        out.append(")");
    }

    /// The debug text of this sequence number, as its `Debug` output writes it.
    pub fn to_debug_string(&self) -> (s: String)
        ensures
            s@ == self.debug_text(),
            s@.len() >= 8,
            s@.take(6) == seq!['S', 'e', 'q', 'N', 'o', '('],
            s@.last() == ')',
            is_numeral(s@.subrange(6, s@.len() - 1)),
            numeral_value(s@.subrange(6, s@.len() - 1)) == self.value(),
    {
        let mut out = String::new();
        self.push_debug(&mut out);
        proof {
            lemma_seq_no_debug_text_reads_back(*self);
        }
        out
    }
}

/// The debug text of a sequence number is `SeqNo(`, then the canonical decimal
/// numeral of its value, then `)`.
pub proof fn lemma_seq_no_debug_text_reads_back(seq: SeqNo)
    ensures
        seq.debug_text().len() >= 8,
        seq.debug_text().take(6) == seq!['S', 'e', 'q', 'N', 'o', '('],
        seq.debug_text().last() == ')',
        is_numeral(seq.debug_text().subrange(6, seq.debug_text().len() - 1)),
        numeral_value(seq.debug_text().subrange(6, seq.debug_text().len() - 1)) == seq.value(),
{
    lemma_decimal_reads_back(seq.value());
    let t = seq.debug_text();
    assert(t.take(6) =~= seq!['S', 'e', 'q', 'N', 'o', '(']);
    assert(t.subrange(6, t.len() - 1) =~= decimal(seq.value()));
}

/// The debug text of a sequence number holds a closing parenthesis only at its end.
pub proof fn lemma_seq_no_debug_text_closes_at_end(seq: SeqNo)
    ensures
        forall|i: int| 0 <= i < seq.debug_text().len() - 1 ==> #[trigger] seq.debug_text()[i] != ')',
{
    lemma_decimal_reads_back(seq.value());
    let t = seq.debug_text();
    let d = decimal(seq.value());
    assert forall|i: int| 0 <= i < t.len() - 1 implies #[trigger] t[i] != ')' by {
        if i >= 6 {
            assert(t[i] == d[i - 6]);
            assert(is_digit(d[i - 6]));
        }
    }
}

/// Different sequence numbers have different debug texts.
pub proof fn lemma_seq_no_debug_text_injective(a: SeqNo, b: SeqNo)
    ensures
        a.debug_text() == b.debug_text() ==> a == b,
{
    lemma_seq_no_debug_text_reads_back(a);
    lemma_seq_no_debug_text_reads_back(b);
}

/// A value that has a place in the ordered log: the sequence number of the
/// decision it belongs to.
pub trait Orderable {
    /// The sequence number of this value.
    fn sequence_number(&self) -> SeqNo;
}

/// The identifier of a node (replica or client) of the system.
#[derive(Clone, Copy, Debug, PartialEq, Eq, Hash, PartialOrd, Ord)]
pub struct NodeId(pub u32);

} // verus!
