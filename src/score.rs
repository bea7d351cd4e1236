//! Score keeping: the running score of a game and the best score seen so far.
use vstd::prelude::*;

verus! {

/// ASCII code of `0`.
pub const DIGIT_ZERO: u8 = 48;

/// ASCII code of `+`.
pub const PLUS_SIGN: u8 = 43;

pub open spec fn is_digit(b: u8) -> bool {
    DIGIT_ZERO <= b <= DIGIT_ZERO + 9
}

pub open spec fn all_digits(s: Seq<u8>) -> bool {
    forall|i: int| 0 <= i < s.len() ==> #[trigger] is_digit(s[i])
}

/// The value of a sequence of decimal digits, most significant first.
pub open spec fn digits_value(s: Seq<u8>) -> nat
    decreases s.len(),
{
    if s.len() == 0 {
        0
    } else {
        digits_value(s.drop_last()) * 10 + (s.last() - DIGIT_ZERO) as nat
    }
}

/// The digits of a decimal text, past one optional leading `+`.
pub open spec fn unsigned_part(s: Seq<u8>) -> Seq<u8> {
    if s.len() > 0 && s[0] == PLUS_SIGN {
        s.drop_first()
    } else {
        s
    }
}

/// A decimal text read as a `u64`: an optional `+`, then one or more digits
/// whose value fits; anything else (spaces, a sign `-`, a newline) is no number.
pub open spec fn decimal_u64(s: Seq<u8>) -> Option<u64> {
    let d = unsigned_part(s);
    if d.len() > 0 && all_digits(d) && digits_value(d) <= u64::MAX {
        Some(digits_value(d) as u64)
    } else {
        None
    }
}

proof fn lemma_digits_value_grows(s: Seq<u8>, j: int, k: int)
    requires
        0 <= j <= k <= s.len(),
        all_digits(s),
    ensures
        digits_value(s.subrange(0, j)) <= digits_value(s.subrange(0, k)),
    decreases k - j,
{
    if j < k {
        lemma_digits_value_grows(s, j, k - 1);
        assert(s.subrange(0, k).drop_last() =~= s.subrange(0, k - 1));
        assert(is_digit(s[k - 1]));
    }
}

/// Reads a decimal number as `str::parse::<u64>` does.
pub fn parse_decimal_u64(text: &[u8]) -> (r: Option<u64>)
    ensures
        r == decimal_u64(text@),
{
    let start: usize = if text.len() > 0 && text[0] == PLUS_SIGN {
        1
    } else {
        0
    };
    let ghost d = unsigned_part(text@);
    assert(d =~= text@.subrange(start as int, text@.len() as int));
    if start == text.len() {
        return None;
    }
    let mut value: u64 = 0;
    let mut i: usize = start;
    while i < text.len()
        invariant
            start <= i <= text.len(),
            start < text.len(),
            d == unsigned_part(text@),
            d =~= text@.subrange(start as int, text@.len() as int),
            all_digits(d.subrange(0, i - start)),
            value as nat == digits_value(d.subrange(0, i - start)),
        decreases text.len() - i,
    {
        let b = text[i];
        assert(d[i - start] == b);
        if b < DIGIT_ZERO || b > DIGIT_ZERO + 9 {
            assert(!is_digit(d[i - start]));
            return None;
        }
        let digit: u64 = (b - DIGIT_ZERO) as u64;
        let ghost next = d.subrange(0, i - start + 1);
        assert(next.drop_last() =~= d.subrange(0, i - start));
        assert(all_digits(next));
        assert(next.last() == b);
        assert(digits_value(next) == value * 10 + digit);
        if value > (u64::MAX - digit) / 10 {
            proof {
                assert(digits_value(next) > u64::MAX) by (nonlinear_arith)
                    requires
                        digits_value(next) == value * 10 + digit,
                        value > (u64::MAX - digit) / 10,
                        digit <= 9,
                ;
                if all_digits(d) {
                    lemma_digits_value_grows(d, i - start + 1, d.len() as int);
                    assert(d.subrange(0, d.len() as int) =~= d);
                }
            }
            return None;
        }
        assert(value * 10 + digit <= u64::MAX) by (nonlinear_arith)
            requires
                value <= (u64::MAX - digit) / 10,
                digit <= 9,
        ;
        value = value * 10 + digit;
        i = i + 1;
    }
    assert(d.subrange(0, d.len() as int) =~= d);
    Some(value)
}

/// The decimal text of `n`, most significant digit first, without leading
/// zeros.
pub open spec fn decimal_text(n: nat) -> Seq<u8>
    decreases n,
{
    if n < 10 {
        seq![(DIGIT_ZERO + n) as u8]
    } else {
        decimal_text(n / 10).push((DIGIT_ZERO + n % 10) as u8)
    }
}

proof fn lemma_decimal_text_digits(n: nat)
    ensures
        decimal_text(n).len() > 0,
        all_digits(decimal_text(n)),
        digits_value(decimal_text(n)) == n,
    decreases n,
{
    if n >= 10 {
        lemma_decimal_text_digits(n / 10);
        let t = decimal_text(n);
        assert(t.drop_last() =~= decimal_text(n / 10));
        assert forall|i: int| 0 <= i < t.len() implies #[trigger] is_digit(t[i]) by {
            if i < t.len() - 1 {
                assert(t[i] == decimal_text(n / 10)[i]);
            }
        }
        assert(t.last() == DIGIT_ZERO + n % 10);
        assert((n / 10) * 10 + n % 10 == n) by (nonlinear_arith);
        assert(digits_value(t) == digits_value(t.drop_last()) * 10 + (t.last() - DIGIT_ZERO) as nat);
        assert(digits_value(t) == (n / 10) * 10 + n % 10);
    } else {
        let t = decimal_text(n);
        assert(t.drop_last() =~= Seq::<u8>::empty());
        assert(t.last() == DIGIT_ZERO + n);
        assert(digits_value(t) == digits_value(t.drop_last()) * 10 + (t.last() - DIGIT_ZERO) as nat);
        assert(digits_value(Seq::<u8>::empty()) == 0);
    }
}

/// What `decimal_text` writes, `decimal_u64` reads back.
pub proof fn lemma_decimal_round_trip(n: u64)
    ensures
        decimal_u64(decimal_text(n as nat)) == Some(n),
{
    lemma_decimal_text_digits(n as nat);
    let t = decimal_text(n as nat);
    assert(is_digit(t[0]));
    assert(unsigned_part(t) == t);
}

/// Appends the decimal text of `n` to `out`.
fn push_decimal(n: u64, out: &mut Vec<u8>)
    ensures
        final(out)@ == old(out)@ + decimal_text(n as nat),
    decreases n,
{
    if n >= 10 {
        push_decimal(n / 10, out);
    }
    out.push(DIGIT_ZERO + (n % 10) as u8);
    proof {
        if n >= 10 {
            assert(final(out)@ =~= old(out)@ + decimal_text(n as nat));
        } else {
            assert(final(out)@ =~= old(out)@ + decimal_text(n as nat));
        }
    }
}

/// The running score of one game, and the best score reached so far.
#[derive(Debug)]
pub struct HighScore {
    score: u64,
    high_score: u64,
}

impl HighScore {
    pub closed spec fn current(&self) -> u64 {
        self.score
    }

    pub closed spec fn best(&self) -> u64 {
        self.high_score
    }

    /// Starts a game at score zero. The best score is what `saved` (the text
    /// kept from an earlier run, if there is one) reads as a decimal number, or
    /// zero where it holds none.
    pub fn load(saved: Option<&[u8]>) -> (r: HighScore)
        ensures
            r.current() == 0,
            r.best() == match saved {
                Some(text) => match decimal_u64(text@) {
                    Some(n) => n,
                    None => 0u64,
                },
                None => 0u64,
            },
    {
        let high_score = match saved {
            Some(text) => match parse_decimal_u64(text) {
                Some(n) => n,
                None => 0,
            },
            None => 0,
        };
        HighScore { score: 0, high_score }
    }

    /// The text to keep for the next run: the best score in decimal, which
    /// `load` reads back.
    pub fn save(&self) -> (r: Vec<u8>)
        ensures
            r@ == decimal_text(self.best() as nat),
            decimal_u64(r@) == Some(self.best()),
    {
        let mut text: Vec<u8> = Vec::new();
        push_decimal(self.high_score, &mut text);
        proof {
            assert(text@ =~= decimal_text(self.high_score as nat));
            lemma_decimal_round_trip(self.high_score);
        }
        text
    }

    pub fn current_score(&self) -> (r: u64)
        ensures
            r == self.current(),
    {
        self.score
    }

    pub fn high_score(&self) -> (r: u64)
        ensures
            r == self.best(),
    {
        self.high_score
    }

    pub fn set_high_score(&mut self, high_score: u64)
        ensures
            final(self).best() == high_score,
            final(self).current() == old(self).current(),
    {
        self.high_score = high_score;
    }

    /// Adds points to the running score; the best score follows it upwards.
    pub fn add(&mut self, addition: u64)
        requires
            old(self).current() + addition <= u64::MAX,
        ensures
            final(self).current() == old(self).current() + addition,
            final(self).best() == if old(self).current() + addition > old(self).best() {
                (old(self).current() + addition) as u64
            } else {
                old(self).best()
            },
    {
        self.score = self.score + addition;
        if self.score > self.high_score {
            self.high_score = self.score;
        }
    }
}

} // verus!
