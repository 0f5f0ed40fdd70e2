//! Adaptive Morse decoder.
//!
//! The decoder consumes signed durations in whole milliseconds: a positive
//! value is a tone (key down), a negative value is silence. It classifies
//! tones as dits or dahs against an adaptive dit-length estimate, assembles
//! the marks of one character, and resolves the pattern at character
//! boundaries through a fixed Morse table.
//!
//! The dit-length estimate is a linearly weighted average over the last 30
//! accepted samples, newest weighted highest. To keep the arithmetic exact,
//! samples are stored in thirds of a millisecond: a tone of `d` ms taken as a
//! dit contributes `3 * d`, a tone taken as a dah contributes `d` (a third of
//! its length), and an inter-character gap of `g` ms contributes `g`. The
//! estimate itself is the exact rational `sum / (3 * weight)` milliseconds,
//! and every threshold comparison is done by cross-multiplication, so no
//! precision is lost anywhere.

use vstd::prelude::*;
use vstd::string::*;
use crate::arith::lemma_div_common_factor;

verus! {

broadcast use vstd::string::group_string_axioms;

/// Mathematical state of the decoder: the in-progress pattern of marks, the
/// dit-length history in thirds of a millisecond (oldest first), and the
/// pending decoded output.
#[verifier::ext_equal]
pub struct DecoderView {
    pub pattern: Seq<char>,
    pub dits: Seq<u64>,
    pub out: Seq<char>,
}

/// Sum of the weights 1 + 2 + ... + n.
pub open spec fn weight_total(n: int) -> int
    decreases n,
{
    if n <= 0 {
        0
    } else {
        weight_total(n - 1) + n
    }
}

/// Linearly weighted sum of the samples: the i-th oldest sample has weight
/// i + 1, so the newest sample weighs the most.
pub open spec fn weighted_sum(s: Seq<u64>) -> int
    decreases s.len(),
{
    if s.len() == 0 {
        0
    } else {
        weighted_sum(s.drop_last()) + s.len() * (s.last() as int)
    }
}

/// Whether `x` ms lies below twice the current dit estimate: the dit/dah
/// threshold and equally the character-boundary threshold. With no history
/// the estimate defaults to 60 ms.
pub open spec fn lt_twice_dit(dits: Seq<u64>, x: int) -> bool {
    if dits.len() == 0 {
        x < 120
    } else {
        3 * x * weight_total(dits.len() as int) < 2 * weighted_sum(dits)
    }
}

/// Whether `x` ms lies below five times the current dit estimate: the
/// word-boundary threshold.
pub open spec fn lt_five_dit(dits: Seq<u64>, x: int) -> bool {
    if dits.len() == 0 {
        x < 300
    } else {
        3 * x * weight_total(dits.len() as int) < 5 * weighted_sum(dits)
    }
}

/// A new dit-length sample (in thirds of a millisecond) enters the history
/// only inside the 10..500 ms sanity window; the oldest sample is evicted
/// once the history holds more than 30.
pub open spec fn push_dit_sample(dits: Seq<u64>, s: int) -> Seq<u64> {
    if 30 <= s <= 1500 {
        let grown = dits.push(s as u64);
        if grown.len() > 30 {
            grown.subrange(1, grown.len() as int)
        } else {
            grown
        }
    } else {
        dits
    }
}

/// Whether every character of a pattern is a Morse mark.
pub open spec fn is_mark_seq(p: Seq<char>) -> bool {
    forall|i: int| 0 <= i < p.len() ==> p[i] == '.' || p[i] == '-'
}

/// Integer encoding of a mark pattern: start from 1 and shift in one bit per
/// mark (1 for a dah), saturating at 256 once the pattern is too long to
/// name any table entry.
pub open spec fn pattern_code_spec(p: Seq<char>) -> int
    decreases p.len(),
{
    if p.len() == 0 {
        1
    } else {
        let c = pattern_code_spec(p.drop_last());
        if c >= 256 {
            256
        } else if p.last() == '-' {
            2 * c + 1
        } else {
            2 * c
        }
    }
}

/// The fixed Morse table, keyed by the integer pattern code.
pub open spec fn morse_char_of_code(c: int) -> Option<char> {
    if c == 2 {
        Some('E')  // .
    } else if c == 3 {
        Some('T')  // -
    } else if c == 4 {
        Some('I')  // ..
    } else if c == 5 {
        Some('A')  // .-
    } else if c == 6 {
        Some('N')  // -.
    } else if c == 7 {
        Some('M')  // --
    } else if c == 8 {
        Some('S')  // ...
    } else if c == 9 {
        Some('U')  // ..-
    } else if c == 10 {
        Some('R')  // .-.
    } else if c == 11 {
        Some('W')  // .--
    } else if c == 12 {
        Some('D')  // -..
    } else if c == 13 {
        Some('K')  // -.-
    } else if c == 14 {
        Some('G')  // --.
    } else if c == 15 {
        Some('O')  // ---
    } else if c == 16 {
        Some('H')  // ....
    } else if c == 17 {
        Some('V')  // ...-
    } else if c == 18 {
        Some('F')  // ..-.
    } else if c == 20 {
        Some('L')  // .-..
    } else if c == 22 {
        Some('P')  // .--.
    } else if c == 23 {
        Some('J')  // .---
    } else if c == 24 {
        Some('B')  // -...
    } else if c == 25 {
        Some('X')  // -..-
    } else if c == 26 {
        Some('C')  // -.-.
    } else if c == 27 {
        Some('Y')  // -.--
    } else if c == 28 {
        Some('Z')  // --..
    } else if c == 29 {
        Some('Q')  // --.-
    } else if c == 32 {
        Some('5')  // .....
    } else if c == 33 {
        Some('4')  // ....-
    } else if c == 35 {
        Some('3')  // ...--
    } else if c == 39 {
        Some('2')  // ..---
    } else if c == 40 {
        Some('&')  // .-...
    } else if c == 42 {
        Some('+')  // .-.-.
    } else if c == 47 {
        Some('1')  // .----
    } else if c == 48 {
        Some('6')  // -....
    } else if c == 49 {
        Some('=')  // -...-
    } else if c == 50 {
        Some('/')  // -..-.
    } else if c == 54 {
        Some('(')  // -.--.
    } else if c == 56 {
        Some('7')  // --...
    } else if c == 60 {
        Some('8')  // ---..
    } else if c == 62 {
        Some('9')  // ----.
    } else if c == 63 {
        Some('0')  // -----
    } else if c == 76 {
        Some('?')  // ..--..
    } else if c == 77 {
        Some('_')  // ..--.-
    } else if c == 82 {
        Some('"')  // .-..-.
    } else if c == 85 {
        Some('.')  // .-.-.-
    } else if c == 90 {
        Some('@')  // .--.-.
    } else if c == 94 {
        Some('\'')  // .----.
    } else if c == 97 {
        Some('-')  // -....-
    } else if c == 106 {
        Some(';')  // -.-.-.
    } else if c == 107 {
        Some('!')  // -.-.--
    } else if c == 109 {
        Some(')')  // -.--.-
    } else if c == 115 {
        Some(',')  // --..--
    } else if c == 120 {
        Some(':')  // ---...
    } else if c == 137 {
        Some('$')  // ...-..-
    } else {
        None
    }
}

/// The character a pattern resolves to, if any. Only patterns made of marks
/// resolve; anything else is unknown.
pub open spec fn morse_lookup_spec(p: Seq<char>) -> Option<char> {
    if is_mark_seq(p) {
        morse_char_of_code(pattern_code_spec(p))
    } else {
        None
    }
}

/// One tone of `d` ms: classify against twice the dit estimate, append the
/// mark, and feed the implied dit length back into the history.
pub open spec fn tone_step(v: DecoderView, d: int) -> DecoderView {
    if lt_twice_dit(v.dits, d) {
        DecoderView {
            pattern: v.pattern.push('.'),
            dits: push_dit_sample(v.dits, 3 * d),
            out: v.out,
        }
    } else {
        DecoderView {
            pattern: v.pattern.push('-'),
            dits: push_dit_sample(v.dits, d),
            out: v.out,
        }
    }
}

/// One gap of `g` ms. Below the character threshold it is an intra-character
/// gap and changes nothing. At or above it, the pattern resolves (and is
/// discarded if unknown); at or above the word threshold a single space
/// follows, and only gaps below the word threshold count as speed evidence.
pub open spec fn gap_step(v: DecoderView, g: int) -> DecoderView {
    if !lt_twice_dit(v.dits, g) {
        let decoded = if v.pattern.len() > 0 && morse_lookup_spec(v.pattern) is Some {
            v.out.push(morse_lookup_spec(v.pattern)->Some_0)
        } else {
            v.out
        };
        let spaced = if !lt_five_dit(v.dits, g) && decoded.len() > 0 && decoded.last() != ' ' {
            decoded.push(' ')
        } else {
            decoded
        };
        let fed = if lt_five_dit(v.dits, g) {
            push_dit_sample(v.dits, g)
        } else {
            v.dits
        };
        DecoderView { pattern: Seq::empty(), dits: fed, out: spaced }
    } else {
        v
    }
}

/// Hand the pending output over if there is any, clearing it.
pub open spec fn drain_spec(v: DecoderView) -> (DecoderView, Option<Seq<char>>) {
    if v.out.len() > 0 {
        ((DecoderView { pattern: v.pattern, dits: v.dits, out: Seq::empty() }), Some(v.out))
    } else {
        (v, None)
    }
}

/// Full effect of feeding one signed timing: durations below the 2 ms noise
/// threshold are discarded outright (nothing is returned even if output is
/// pending); otherwise the tone or gap step runs and pending output drains.
pub open spec fn add_timing_spec(v: DecoderView, t: int) -> (DecoderView, Option<Seq<char>>) {
    if -2 < t < 2 {
        (v, None)
    } else if t > 0 {
        drain_spec(tone_step(v, t))
    } else {
        drain_spec(gap_step(v, -t))
    }
}

/// Full effect of a forced flush: the pattern resolves as if a character
/// boundary had occurred, and pending output drains.
pub open spec fn flush_step(v: DecoderView) -> DecoderView {
    let decoded = if v.pattern.len() > 0 && morse_lookup_spec(v.pattern) is Some {
        v.out.push(morse_lookup_spec(v.pattern)->Some_0)
    } else {
        v.out
    };
    DecoderView { pattern: Seq::empty(), dits: v.dits, out: decoded }
}

pub open spec fn flush_spec(v: DecoderView) -> (DecoderView, Option<Seq<char>>) {
    drain_spec(flush_step(v))
}

/// Speed estimate in thousandths of a WPM: 1200 ms per WPM over the exact
/// rational dit estimate, 20 WPM when there is no history yet.
pub open spec fn estimate_wpm_milli(dits: Seq<u64>) -> int {
    if dits.len() == 0 {
        20_000
    } else {
        3_600_000 * weight_total(dits.len() as int) / weighted_sum(dits)
    }
}

/// Dit-length estimate in whole milliseconds, rounded down; 60 ms default.
pub open spec fn dit_length_ms_spec(dits: Seq<u64>) -> int {
    if dits.len() == 0 {
        60
    } else {
        weighted_sum(dits) / (3 * weight_total(dits.len() as int))
    }
}

/// The weight total is the triangular number n * (n + 1) / 2.
pub proof fn lemma_weight_total_eq(n: int)
    requires
        n >= 0,
    ensures
        2 * weight_total(n) == n * (n + 1),
        weight_total(n) >= n,
    decreases n,
{
    if n > 0 {
        lemma_weight_total_eq(n - 1);
        assert((n - 1) * n + 2 * n == n * (n + 1)) by (nonlinear_arith);
    }
}

/// Every weight total over at most 30 samples lies within 0..=465.
pub proof fn lemma_weight_total_bounds(n: int)
    requires
        0 <= n <= 30,
    ensures
        weight_total(n) <= 465,
        weight_total(n) >= 0,
        n >= 1 ==> weight_total(n) >= 1,
{
    lemma_weight_total_eq(n);
    assert(n * (n + 1) <= 930) by (nonlinear_arith)
        requires
            0 <= n <= 30,
    ;
}

/// With every sample inside the stored sanity window, the weighted sum is
/// squeezed between 30 and 1500 times the weight total.
pub proof fn lemma_weighted_sum_bounds(s: Seq<u64>)
    requires
        forall|i: int| 0 <= i < s.len() ==> 30 <= #[trigger] s[i] <= 1500,
    ensures
        30 * weight_total(s.len() as int) <= weighted_sum(s) <= 1500 * weight_total(
            s.len() as int,
        ),
    decreases s.len(),
{
    if s.len() > 0 {
        assert(forall|i: int|
            0 <= i < s.drop_last().len() ==> 30 <= #[trigger] s.drop_last()[i] <= 1500);
        lemma_weighted_sum_bounds(s.drop_last());
        let n = s.len() as int;
        assert(30 * n <= n * (s.last() as int) <= 1500 * n) by (nonlinear_arith)
            requires
                30 <= s.last() <= 1500,
                n >= 1,
        ;
        assert(30 * n + 30 * weight_total(n - 1) == 30 * weight_total(n)) by (nonlinear_arith)
            requires
                weight_total(n) == weight_total(n - 1) + n,
        ;
        assert(1500 * n + 1500 * weight_total(n - 1) == 1500 * weight_total(n))
            by (nonlinear_arith)
            requires
                weight_total(n) == weight_total(n - 1) + n,
        ;
    }
}

/// A uniform history pins the estimate exactly: if every sample equals `s`,
/// the weighted average is `s` thirds of a millisecond, so the speed
/// estimate is exactly `3_600_000 / s` thousandths of a WPM. Sixty
/// millisecond dits (`s == 180`) give exactly 20 WPM.
pub proof fn lemma_estimate_uniform(dits: Seq<u64>, s: u64)
    requires
        dits.len() >= 1,
        30 <= s <= 1500,
        forall|i: int| 0 <= i < dits.len() ==> #[trigger] dits[i] == s,
    ensures
        weighted_sum(dits) == (s as int) * weight_total(dits.len() as int),
        estimate_wpm_milli(dits) == 3_600_000int / (s as int),
    decreases dits.len(),
{
    let n = dits.len() as int;
    let w = weight_total(n);
    if dits.len() == 1 {
        assert(weighted_sum(dits.drop_last()) == 0);
        assert(weight_total(0) == 0);
        assert(weight_total(1) == 1);
        assert(weighted_sum(dits) == 1 * (s as int));
    } else {
        assert(forall|i: int|
            0 <= i < dits.drop_last().len() ==> #[trigger] dits.drop_last()[i] == s);
        lemma_estimate_uniform(dits.drop_last(), s);
        assert(weighted_sum(dits) == (s as int) * weight_total(n - 1) + n * (s as int));
        assert((s as int) * weight_total(n - 1) + n * (s as int) == (s as int) * w)
            by (nonlinear_arith)
            requires
                w == weight_total(n - 1) + n,
        ;
    }
    lemma_weight_total_bounds(if n <= 30 { n } else { 30 });
    assert(w >= 1) by {
        lemma_weight_total_monotonic(1, n);
    }
    assert(3_600_000 * w / ((s as int) * w) == 3_600_000int / (s as int)) by {
        lemma_div_common_factor(3_600_000, s as int, w);
    }
}

/// The weight total never shrinks as the history grows.
pub proof fn lemma_weight_total_monotonic(m: int, n: int)
    requires
        0 <= m <= n,
    ensures
        weight_total(m) <= weight_total(n),
        m >= 1 ==> weight_total(n) >= 1,
    decreases n - m,
{
    lemma_weight_total_eq(n);
    if m < n {
        lemma_weight_total_monotonic(m, n - 1);
    }
}

/// Adaptive CW decoder: weighted averaging of recent dit lengths tracks the
/// sender's speed while characters are assembled and resolved.
pub struct CwDecoder {
    /// Pattern of the character being keyed, as marks.
    current_pattern: String,
    /// Integer code of `current_pattern`, kept in lockstep.
    pattern_code: u32,
    /// Recent dit-length samples in thirds of a millisecond, oldest first.
    dit_buffer: Vec<u64>,
    /// Weighted sum over `dit_buffer`.
    dit_sum: u64,
    /// Total weight over `dit_buffer`.
    dit_weight: u64,
    /// Decoded characters not yet handed to the caller.
    output_buffer: String,
    /// Whether `output_buffer` currently ends in a space.
    out_ends_space: bool,
}

impl View for CwDecoder {
    type V = DecoderView;

    closed spec fn view(&self) -> DecoderView {
        DecoderView {
            pattern: self.current_pattern@,
            dits: self.dit_buffer@,
            out: self.output_buffer@,
        }
    }
}

impl CwDecoder {
    /// Internal consistency: the cached code, sums and space flag agree with
    /// the strings and the sample buffer, and the buffer is bounded.
    pub closed spec fn wf(&self) -> bool {
        &&& is_mark_seq(self.current_pattern@)
        &&& self.pattern_code == pattern_code_spec(self.current_pattern@)
        &&& self.dit_buffer@.len() <= 30
        &&& (forall|i: int|
            0 <= i < self.dit_buffer@.len() ==> 30 <= #[trigger] self.dit_buffer@[i] <= 1500)
        &&& self.dit_sum == weighted_sum(self.dit_buffer@)
        &&& self.dit_weight == weight_total(self.dit_buffer@.len() as int)
        &&& self.out_ends_space == (self.output_buffer@.len() > 0 && self.output_buffer@.last()
            == ' ')
    }

    pub fn new() -> (r: Self)
        ensures
            r.wf(),
            r@.pattern.len() == 0,
            r@.dits.len() == 0,
            r@.out.len() == 0,
    {
        CwDecoder {
            current_pattern: String::new(),
            pattern_code: 1,
            dit_buffer: Vec::new(),
            dit_sum: 0,
            dit_weight: 0,
            output_buffer: String::new(),
            out_ends_space: false,
        }
    }
}


/// The Morse table as executable code: the symbol for a pattern code, as a
/// one-character string slice. `None` for a code naming no table entry.
#[verifier::rlimit(50)]
fn code_symbol(code: u32) -> (r: Option<&'static str>)
    ensures
        r is Some <==> morse_char_of_code(code as int) is Some,
        r is Some ==> (r->Some_0)@ == seq![morse_char_of_code(code as int)->Some_0],
        r is Some ==> morse_char_of_code(code as int)->Some_0 != ' ',
{
    proof {
        reveal_strlit("E");
        reveal_strlit("T");
        reveal_strlit("I");
        reveal_strlit("A");
        reveal_strlit("N");
        reveal_strlit("M");
        reveal_strlit("S");
        reveal_strlit("U");
        reveal_strlit("R");
        reveal_strlit("W");
        reveal_strlit("D");
        reveal_strlit("K");
        reveal_strlit("G");
        reveal_strlit("O");
        reveal_strlit("H");
        reveal_strlit("V");
        reveal_strlit("F");
        reveal_strlit("L");
        reveal_strlit("P");
        reveal_strlit("J");
        reveal_strlit("B");
        reveal_strlit("X");
        reveal_strlit("C");
        reveal_strlit("Y");
        reveal_strlit("Z");
        reveal_strlit("Q");
        reveal_strlit("5");
        reveal_strlit("4");
        reveal_strlit("3");
        reveal_strlit("2");
        reveal_strlit("&");
        reveal_strlit("+");
        reveal_strlit("1");
        reveal_strlit("6");
        reveal_strlit("=");
        reveal_strlit("/");
        reveal_strlit("(");
        reveal_strlit("7");
        reveal_strlit("8");
        reveal_strlit("9");
        reveal_strlit("0");
        reveal_strlit("?");
        reveal_strlit("_");
        reveal_strlit("\"");
        reveal_strlit(".");
        reveal_strlit("@");
        reveal_strlit("'");
        reveal_strlit("-");
        reveal_strlit(";");
        reveal_strlit("!");
        reveal_strlit(")");
        reveal_strlit(",");
        reveal_strlit(":");
        reveal_strlit("$");
    }
    match code {
        2 => Some("E"),
        3 => Some("T"),
        4 => Some("I"),
        5 => Some("A"),
        6 => Some("N"),
        7 => Some("M"),
        8 => Some("S"),
        9 => Some("U"),
        10 => Some("R"),
        11 => Some("W"),
        12 => Some("D"),
        13 => Some("K"),
        14 => Some("G"),
        15 => Some("O"),
        16 => Some("H"),
        17 => Some("V"),
        18 => Some("F"),
        20 => Some("L"),
        22 => Some("P"),
        23 => Some("J"),
        24 => Some("B"),
        25 => Some("X"),
        26 => Some("C"),
        27 => Some("Y"),
        28 => Some("Z"),
        29 => Some("Q"),
        32 => Some("5"),
        33 => Some("4"),
        35 => Some("3"),
        39 => Some("2"),
        40 => Some("&"),
        42 => Some("+"),
        47 => Some("1"),
        48 => Some("6"),
        49 => Some("="),
        50 => Some("/"),
        54 => Some("("),
        56 => Some("7"),
        60 => Some("8"),
        62 => Some("9"),
        63 => Some("0"),
        76 => Some("?"),
        77 => Some("_"),
        82 => Some("\""),
        85 => Some("."),
        90 => Some("@"),
        94 => Some("'"),
        97 => Some("-"),
        106 => Some(";"),
        107 => Some("!"),
        109 => Some(")"),
        115 => Some(","),
        120 => Some(":"),
        137 => Some("$"),
        _ => None,
    }
}

impl CwDecoder {
    /// Look up a pattern of marks (`'.'` and `'-'`) in the Morse table.
    pub fn lookup_pattern(&self, pattern: &str) -> (r: Option<char>)
        ensures
            r == morse_lookup_spec(pattern@),
    {
        let n = pattern.unicode_len();
        let mut i: usize = 0;
        let mut code: u32 = 1;
        let mut all_marks: bool = true;
        while i < n
            invariant
                n == pattern@.len(),
                0 <= i <= n,
                all_marks ==> is_mark_seq(pattern@.take(i as int)),
                all_marks ==> code == pattern_code_spec(pattern@.take(i as int)),
                !all_marks ==> !is_mark_seq(pattern@),
                code <= 511,
            decreases n - i,
        {
            let c = pattern.get_char(i);
            proof {
                assert(pattern@.take(i as int + 1).drop_last() =~= pattern@.take(i as int));
                assert(pattern@.take(i as int + 1).last() == pattern@[i as int]);
            }
            if c == '.' {
                code = if code >= 256 {
                    256
                } else {
                    2 * code
                };
            } else if c == '-' {
                code = if code >= 256 {
                    256
                } else {
                    2 * code + 1
                };
            } else {
                all_marks = false;
                proof {
                    assert(pattern@[i as int] != '.' && pattern@[i as int] != '-');
                }
            }
            i = i + 1;
        }
        if !all_marks {
            return None;
        }
        proof {
            assert(pattern@.take(n as int) =~= pattern@);
        }
        match code_symbol(code) {
            Some(sym) => Some(sym.get_char(0)),
            None => None,
        }
    }

    /// Feed one dit-length sample, in thirds of a millisecond, into the
    /// adaptive history, and refresh the cached weighted sum and weight.
    fn add_dit_sample(&mut self, s: u64)
        requires
            old(self).wf(),
        ensures
            final(self).wf(),
            final(self)@.dits == push_dit_sample(old(self)@.dits, s as int),
            final(self)@.pattern == old(self)@.pattern,
            final(self)@.out == old(self)@.out,
    {
        if s < 30 || s > 1500 {
            return ;
        }
        self.dit_buffer.push(s);
        if self.dit_buffer.len() > 30 {
            let _evicted = self.dit_buffer.remove(0);
        }
        proof {
            assert(self.dit_buffer@ =~= push_dit_sample(old(self)@.dits, s as int));
        }
        let n = self.dit_buffer.len();
        let mut sum: u64 = 0;
        let mut w: u64 = 0;
        let mut i: usize = 0;
        while i < n
            invariant
                n == self.dit_buffer@.len() <= 30,
                0 <= i <= n,
                forall|j: int|
                    0 <= j < n ==> 30 <= #[trigger] self.dit_buffer@[j] <= 1500,
                sum == weighted_sum(self.dit_buffer@.take(i as int)),
                w == weight_total(i as int),
                sum <= 1500 * w,
                w <= 465,
            decreases n - i,
        {
            let elem = self.dit_buffer[i];
            proof {
                lemma_weight_total_bounds(i as int + 1);
                assert(self.dit_buffer@.take(i as int + 1).drop_last() =~= self.dit_buffer@.take(
                    i as int,
                ));
                assert(self.dit_buffer@.take(i as int + 1).last() == self.dit_buffer@[i as int]);
                assert((i as int + 1) * (elem as int) <= 1500 * (i as int + 1)) by (nonlinear_arith)
                    requires
                        elem <= 1500,
                        0 <= i,
                ;
            }
            sum = sum + ((i as u64) + 1) * elem;
            w = w + (i as u64) + 1;
            i = i + 1;
        }
        proof {
            assert(self.dit_buffer@.take(n as int) =~= self.dit_buffer@);
        }
        self.dit_sum = sum;
        self.dit_weight = w;
    }

    /// Whether `x` ms is below twice the dit estimate (the dit/dah and
    /// character-boundary threshold), by exact cross-multiplication.
    fn below_twice_dit(&self, x: u64) -> (b: bool)
        requires
            self.wf(),
        ensures
            b == lt_twice_dit(self@.dits, x as int),
    {
        proof {
            lemma_weight_total_eq(self.dit_buffer@.len() as int);
            lemma_weight_total_bounds(self.dit_buffer@.len() as int);
            lemma_weighted_sum_bounds(self.dit_buffer@);
        }
        if self.dit_weight == 0 {
            x < 120
        } else if x > 100_000 {
            proof {
                let xi = x as int;
                let wi = self.dit_weight as int;
                let si = self.dit_sum as int;
                assert(3 * xi * wi >= 2 * si) by (nonlinear_arith)
                    requires
                        xi >= 100_001,
                        si <= 1500 * wi,
                        wi >= 1,
                ;
            }
            false
        } else {
            proof {
                let xi = x as int;
                let wi = self.dit_weight as int;
                assert(3 * xi * wi <= 139_500_000_000int) by (nonlinear_arith)
                    requires
                        0 <= xi <= 100_000,
                        0 <= wi <= 465,
                ;
            }
            3 * x * self.dit_weight < 2 * self.dit_sum
        }
    }

    /// Whether `x` ms is below five times the dit estimate (the
    /// word-boundary threshold).
    fn below_five_dit(&self, x: u64) -> (b: bool)
        requires
            self.wf(),
        ensures
            b == lt_five_dit(self@.dits, x as int),
    {
        proof {
            lemma_weight_total_eq(self.dit_buffer@.len() as int);
            lemma_weight_total_bounds(self.dit_buffer@.len() as int);
            lemma_weighted_sum_bounds(self.dit_buffer@);
        }
        if self.dit_weight == 0 {
            x < 300
        } else if x > 100_000 {
            proof {
                let xi = x as int;
                let wi = self.dit_weight as int;
                let si = self.dit_sum as int;
                assert(3 * xi * wi >= 5 * si) by (nonlinear_arith)
                    requires
                        xi >= 100_001,
                        si <= 1500 * wi,
                        wi >= 1,
                ;
            }
            false
        } else {
            proof {
                let xi = x as int;
                let wi = self.dit_weight as int;
                assert(3 * xi * wi <= 139_500_000_000int) by (nonlinear_arith)
                    requires
                        0 <= xi <= 100_000,
                        0 <= wi <= 465,
                ;
            }
            3 * x * self.dit_weight < 5 * self.dit_sum
        }
    }
}


impl CwDecoder {
    /// One tone (key down) of `d` ms: classify as dit or dah, extend the
    /// pattern, and feed the implied dit length into the history.
    fn process_tone(&mut self, d: u64)
        requires
            old(self).wf(),
        ensures
            final(self).wf(),
            final(self)@ == tone_step(old(self)@, d as int),
    {
        let is_dit = self.below_twice_dit(d);
        if is_dit {
            self.current_pattern.append(".");
            let prior_code = self.pattern_code;
            self.pattern_code = if prior_code >= 256 {
                256
            } else {
                2 * prior_code
            };
            proof {
                reveal_strlit(".");
                assert(self.current_pattern@ =~= old(self)@.pattern.push('.'));
                assert(self.current_pattern@.drop_last() =~= old(self)@.pattern);
            }
            if d >= 10 && d <= 500 {
                self.add_dit_sample(3 * d);
            } else {
                proof {
                    assert(push_dit_sample(old(self)@.dits, 3 * (d as int)) == old(self)@.dits);
                }
            }
        } else {
            self.current_pattern.append("-");
            let prior_code = self.pattern_code;
            self.pattern_code = if prior_code >= 256 {
                256
            } else {
                2 * prior_code + 1
            };
            proof {
                reveal_strlit("-");
                assert(self.current_pattern@ =~= old(self)@.pattern.push('-'));
                assert(self.current_pattern@.drop_last() =~= old(self)@.pattern);
            }
            self.add_dit_sample(d);
        }
        proof {
            assert(self@ =~= tone_step(old(self)@, d as int));
        }
    }

    /// Resolve the in-progress pattern against the Morse table, appending
    /// the decoded character to the pending output, and clear the pattern.
    fn resolve_pattern(&mut self)
        requires
            old(self).wf(),
        ensures
            final(self).wf(),
            final(self)@.pattern.len() == 0,
            final(self)@.dits == old(self)@.dits,
            final(self)@.out == (if old(self)@.pattern.len() > 0 && morse_lookup_spec(
                old(self)@.pattern,
            ) is Some {
                old(self)@.out.push(morse_lookup_spec(old(self)@.pattern)->Some_0)
            } else {
                old(self)@.out
            }),
    {
        if !self.current_pattern.as_str().is_empty() {
            match code_symbol(self.pattern_code) {
                Some(sym) => {
                    self.output_buffer.append(sym);
                    self.out_ends_space = false;
                    proof {
                        assert(self.output_buffer@ =~= old(self)@.out.push(
                            morse_lookup_spec(old(self)@.pattern)->Some_0,
                        ));
                    }
                },
                None => {},
            }
        }
        self.current_pattern = String::new();
        self.pattern_code = 1;
        proof {
            assert(self.current_pattern@ =~= Seq::<char>::empty());
        }
    }

    /// One gap (silence) of `g` ms: below the character threshold nothing
    /// happens; otherwise the pattern resolves, a word boundary appends one
    /// space, and gaps below the word threshold feed the history.
    fn process_gap(&mut self, g: u64)
        requires
            old(self).wf(),
        ensures
            final(self).wf(),
            final(self)@ == gap_step(old(self)@, g as int),
    {
        let boundary = !self.below_twice_dit(g);
        if !boundary {
            return ;
        }
        let below_word = self.below_five_dit(g);
        self.resolve_pattern();
        if !below_word {
            if !self.output_buffer.as_str().is_empty() && !self.out_ends_space {
                self.output_buffer.append(" ");
                self.out_ends_space = true;
                proof {
                    reveal_strlit(" ");
                    assert(self.output_buffer@.last() == ' ');
                }
            }
        } else {
            self.add_dit_sample(g);
        }
        proof {
            assert(self@ =~= gap_step(old(self)@, g as int));
        }
    }

    /// Hand over and clear the pending output, if any.
    fn drain(&mut self) -> (r: Option<String>)
        requires
            old(self).wf(),
        ensures
            final(self).wf(),
            final(self)@ == drain_spec(old(self)@).0,
            (match r {
                Some(s) => drain_spec(old(self)@).1 is Some && s@ == drain_spec(
                    old(self)@,
                ).1->Some_0,
                None => drain_spec(old(self)@).1 is None,
            }),
    {
        if !self.output_buffer.as_str().is_empty() {
            let out = self.output_buffer.clone();
            self.output_buffer = String::new();
            self.out_ends_space = false;
            proof {
                assert(self@ =~= drain_spec(old(self)@).0);
            }
            Some(out)
        } else {
            None
        }
    }

    /// Feed one signed timing in whole milliseconds: positive is a tone
    /// (key down), negative is silence. Durations below the 2 ms noise
    /// threshold are discarded as contact bounce. Returns the accumulated
    /// decoded output whenever any is pending afterwards.
    pub fn add_timing(&mut self, timing_ms: i64) -> (r: Option<String>)
        requires
            old(self).wf(),
        ensures
            final(self).wf(),
            final(self)@ == add_timing_spec(old(self)@, timing_ms as int).0,
            (match r {
                Some(s) => add_timing_spec(old(self)@, timing_ms as int).1 is Some && s@
                    == add_timing_spec(old(self)@, timing_ms as int).1->Some_0,
                None => add_timing_spec(old(self)@, timing_ms as int).1 is None,
            }),
    {
        let mag: u64 = if timing_ms >= 0 {
            timing_ms as u64
        } else if timing_ms == i64::MIN {
            9_223_372_036_854_775_808u64
        } else {
            (-timing_ms) as u64
        };
        if mag < 2 {
            return None;
        }
        if timing_ms > 0 {
            self.process_tone(mag);
        } else {
            self.process_gap(mag);
        }
        self.drain()
    }

    /// Force the in-progress pattern to resolve, as if a character boundary
    /// had just occurred, and return any resulting output. Used after a
    /// silence window with no further timings.
    pub fn flush(&mut self) -> (r: Option<String>)
        requires
            old(self).wf(),
        ensures
            final(self).wf(),
            final(self)@ == flush_spec(old(self)@).0,
            (match r {
                Some(s) => flush_spec(old(self)@).1 is Some && s@ == flush_spec(
                    old(self)@,
                ).1->Some_0,
                None => flush_spec(old(self)@).1 is None,
            }),
    {
        self.resolve_pattern();
        self.drain()
    }

    /// Speed estimate in thousandths of a WPM (PARIS standard), exact floor
    /// of `1200 ms / dit estimate`; 20 WPM with an empty history.
    pub fn estimate_wpm(&self) -> (r: u32)
        requires
            self.wf(),
        ensures
            r == estimate_wpm_milli(self@.dits),
    {
        proof {
            lemma_weight_total_eq(self.dit_buffer@.len() as int);
            lemma_weight_total_bounds(self.dit_buffer@.len() as int);
            lemma_weighted_sum_bounds(self.dit_buffer@);
        }
        if self.dit_weight == 0 {
            20_000
        } else {
            let v = (3_600_000u64 * self.dit_weight) / self.dit_sum;
            proof {
                let wi = self.dit_weight as int;
                let si = self.dit_sum as int;
                assert(3_600_000 * wi <= 120_000 * si) by (nonlinear_arith)
                    requires
                        30 * wi <= si,
                ;
                vstd::arithmetic::div_mod::lemma_div_is_ordered(
                    3_600_000 * wi,
                    120_000 * si,
                    si,
                );
                lemma_div_common_factor(120_000, 1, si);
                assert(v <= 120_000);
            }
            v as u32
        }
    }

    /// Current dit-length estimate in whole milliseconds, rounded down.
    pub fn dit_length_ms(&self) -> (r: u64)
        requires
            self.wf(),
        ensures
            r == dit_length_ms_spec(self@.dits),
    {
        proof {
            lemma_weight_total_eq(self.dit_buffer@.len() as int);
            lemma_weight_total_bounds(self.dit_buffer@.len() as int);
        }
        if self.dit_weight == 0 {
            60
        } else {
            self.dit_sum / (3 * self.dit_weight)
        }
    }

    /// Drop the in-progress pattern and any pending output. The dit-length
    /// history is kept deliberately, for speed continuity.
    pub fn reset(&mut self)
        requires
            old(self).wf(),
        ensures
            final(self).wf(),
            final(self)@.pattern.len() == 0,
            final(self)@.out.len() == 0,
            final(self)@.dits == old(self)@.dits,
    {
        self.current_pattern = String::new();
        self.pattern_code = 1;
        self.output_buffer = String::new();
        self.out_ends_space = false;
        proof {
            assert(self.current_pattern@ =~= Seq::<char>::empty());
        }
    }

    /// The pattern being assembled, as marks.
    pub fn current_pattern(&self) -> (r: &str)
        ensures
            r@ == self@.pattern,
    {
        self.current_pattern.as_str()
    }
}

impl Default for CwDecoder {
    fn default() -> (d: Self)
        ensures
            d.wf(),
            d@.pattern.len() == 0,
            d@.dits.len() == 0,
            d@.out.len() == 0,
    {
        CwDecoder::new()
    }
}

} // verus!

