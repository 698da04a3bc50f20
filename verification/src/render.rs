//! Rendering a number as text, in the form `a + bi + cε + diε`.
use vstd::prelude::*;
use crate::model::Quad;
use crate::number::BiCompNum;

verus! {

/// The character of the decimal digit `d < 10`.
pub open spec fn digit_char(d: nat) -> char {
    (48 + d) as char
}

/// The decimal digits of `n`, most significant first, without leading zeros
/// (`0` is written `"0"`).
pub open spec fn decimal_nat(n: nat) -> Seq<char>
    decreases n,
{
    if n < 10 {
        seq![digit_char(n)]
    } else {
        decimal_nat(n / 10).push(digit_char(n % 10))
    }
}

/// The decimal form of an integer: a `-` in front of a negative one.
pub open spec fn decimal(n: int) -> Seq<char> {
    if n < 0 {
        seq!['-'] + decimal_nat((-n) as nat)
    } else {
        decimal_nat(n as nat)
    }
}

/// The text `a + bi + cε + diε` of the quadruple `(a, b, c, d)`.
pub open spec fn render_quad(q: Quad) -> Seq<char> {
    decimal(q.0) + seq![' ', '+', ' '] + decimal(q.1) + seq!['i', ' ', '+', ' ']
        + decimal(q.2) + seq!['ε', ' ', '+', ' '] + decimal(q.3) + seq!['i', 'ε']
}

/// `c` is one of the characters `0` to `9`.
pub open spec fn is_digit(c: char) -> bool {
    '0' <= c && c <= '9'
}

/// The value of the decimal digit character `c`.
pub open spec fn digit_value(c: char) -> int {
    c as int - '0' as int
}

/// The number that the digit characters `s` read as, most significant first.
pub open spec fn numeral_value(s: Seq<char>) -> int
    decreases s.len(),
{
    if s.len() == 0 {
        0
    } else {
        10 * numeral_value(s.drop_last()) + digit_value(s.last())
    }
}

/// `s` is a numeral in canonical form: one or more digits, the first of which
/// is `0` only when it is the only one.
pub open spec fn is_numeral(s: Seq<char>) -> bool {
    &&& s.len() >= 1
    &&& forall|k: int| 0 <= k < s.len() ==> is_digit(#[trigger] s[k])
    &&& (s[0] == '0' ==> s.len() == 1)
}

/// `s` is a canonical signed numeral: a numeral, or `-` followed by a numeral
/// other than `0`.
pub open spec fn is_signed_numeral(s: Seq<char>) -> bool {
    ||| is_numeral(s)
    ||| (s.len() >= 2 && s[0] == '-' && is_numeral(s.drop_first())
        && s.drop_first() != seq!['0'])
}

/// The integer that the signed numeral `s` reads as.
pub open spec fn signed_value(s: Seq<char>) -> int {
    if s.len() > 0 && s[0] == '-' {
        -numeral_value(s.drop_first())
    } else {
        numeral_value(s)
    }
}

/// `text` reads back as `q`: it is four canonical signed numerals joined as
/// `a + bi + cε + diε`, whose values are the four components of `q`.
pub open spec fn reads_back(text: Seq<char>, q: Quad) -> bool {
    exists|s0: Seq<char>, s1: Seq<char>, s2: Seq<char>, s3: Seq<char>|
        #![trigger is_signed_numeral(s0), is_signed_numeral(s1), is_signed_numeral(s2), is_signed_numeral(s3)]
        {
            &&& text == s0 + seq![' ', '+', ' '] + s1 + seq!['i', ' ', '+', ' '] + s2
                + seq!['ε', ' ', '+', ' '] + s3 + seq!['i', 'ε']
            &&& is_signed_numeral(s0) && signed_value(s0) == q.0
            &&& is_signed_numeral(s1) && signed_value(s1) == q.1
            &&& is_signed_numeral(s2) && signed_value(s2) == q.2
            &&& is_signed_numeral(s3) && signed_value(s3) == q.3
        }
}

/// The digits of `n` are a canonical numeral whose value is `n`; in particular
/// the numeral of `n ≥ 10` is that of `n / 10` followed by the digit `n % 10`.
pub proof fn lemma_decimal_nat_reads_back(n: nat)
    ensures
        is_numeral(decimal_nat(n)),
        numeral_value(decimal_nat(n)) == n,
        decimal_nat(n)[0] == '0' <==> n == 0,
        n >= 10 ==> decimal_nat(n) == decimal_nat(n / 10).push(digit_char(n % 10)),
    decreases n,
{
    if n < 10 {
        let s = decimal_nat(n);
        assert(s.drop_last() =~= Seq::<char>::empty());
        assert(numeral_value(s.drop_last()) == 0);
    } else {
        lemma_decimal_nat_reads_back(n / 10);
        let p = decimal_nat(n / 10);
        let s = decimal_nat(n);
        assert(s == p.push(digit_char(n % 10)));
        assert(s.drop_last() =~= p);
        assert(s[0] == p[0]);
        assert forall|k: int| 0 <= k < s.len() implies is_digit(#[trigger] s[k]) by {
            if k < p.len() {
                assert(s[k] == p[k]);
            }
        }
        assert(p[0] != '0');
    }
}

/// The decimal form of `n` is a canonical signed numeral whose value is `n`;
/// it starts with `-` exactly when `n` is negative.
pub proof fn lemma_decimal_reads_back(n: int)
    ensures
        is_signed_numeral(decimal(n)),
        signed_value(decimal(n)) == n,
        decimal(n)[0] == '-' <==> n < 0,
{
    if n < 0 {
        let m = (-n) as nat;
        lemma_decimal_nat_reads_back(m);
        let s = decimal(n);
        assert(s.drop_first() =~= decimal_nat(m));
        assert(decimal_nat(m) != seq!['0']) by {
            if decimal_nat(m) == seq!['0'] {
                assert(decimal_nat(m)[0] == '0');
            }
        }
    } else {
        lemma_decimal_nat_reads_back(n as nat);
        assert(decimal_nat(n as nat)[0] != '-');
    }
}

/// The text of a number reads back as that number: splitting it at the
/// separators gives four canonical signed numerals whose values are its
/// components, in order.
pub proof fn lemma_render_reads_back(q: Quad)
    ensures
        reads_back(render_quad(q), q),
{
    lemma_decimal_reads_back(q.0);
    lemma_decimal_reads_back(q.1);
    lemma_decimal_reads_back(q.2);
    lemma_decimal_reads_back(q.3);
    let (s0, s1, s2, s3) = (decimal(q.0), decimal(q.1), decimal(q.2), decimal(q.3));
    assert(is_signed_numeral(s0) && is_signed_numeral(s1) && is_signed_numeral(s2)
        && is_signed_numeral(s3));
}

/// Calls `std::string::String::push`, which appends the character `c` to the
/// end of `s`; the contract claims exactly that, and nothing is proved of it.
#[verifier::external_body]
fn push_char(s: &mut String, c: char)
    ensures
        final(s)@ == old(s)@.push(c),
{
    s.push(c);
}

/// Appends the decimal digits of `n`.
fn push_decimal_u64(s: &mut String, n: u64)
    ensures
        final(s)@ == old(s)@ + decimal_nat(n as nat),
    decreases n,
{
    if n >= 10 {
        push_decimal_u64(s, n / 10);
    }
    let d = (n % 10) as u8;
    let c = (48u8 + d) as char;
    push_char(s, c);
    proof {
        assert(decimal_nat(n as nat) =~= if n < 10 {
            seq![digit_char(n as nat)]
        } else {
            decimal_nat((n / 10) as nat).push(digit_char((n % 10) as nat))
        });
    }
}

/// Appends the decimal form of `n`.
fn push_decimal_i64(s: &mut String, n: i64)
    ensures
        final(s)@ == old(s)@ + decimal(n as int),
{
    if n < 0 {
        push_char(s, '-');
        let m = (0 - (n as i128)) as u64;
        push_decimal_u64(s, m);
    } else {
        push_decimal_u64(s, n as u64);
    }
}

impl BiCompNum {
    /// The text `a + bi + cε + diε` of this number, each component in decimal.
    pub fn to_string(&self) -> (r: String)
        ensures
            r@ == render_quad(self@),
            reads_back(r@, self@),
    {
        let mut s = String::new();
        push_decimal_i64(&mut s, self.0);
        push_char(&mut s, ' ');
        push_char(&mut s, '+');
        push_char(&mut s, ' ');
        push_decimal_i64(&mut s, self.1);
        push_char(&mut s, 'i');
        push_char(&mut s, ' ');
        push_char(&mut s, '+');
        push_char(&mut s, ' ');
        push_decimal_i64(&mut s, self.2);
        push_char(&mut s, 'ε');
        push_char(&mut s, ' ');
        push_char(&mut s, '+');
        push_char(&mut s, ' ');
        push_decimal_i64(&mut s, self.3);
        push_char(&mut s, 'i');
        push_char(&mut s, 'ε');
        proof {
            assert(s@ =~= render_quad(self@));
            lemma_render_reads_back(self@);
        }
        s
    }
}

} // verus!
