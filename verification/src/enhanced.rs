//! Enhanced status codes (`class.subject.detail`) and how a reply line carries
//! one.
//!
//! A code is written as three decimal numbers separated by dots, none of them
//! with a leading zero: the class is `2`, `4` or `5`, subject and detail have
//! one to three digits. A line carries a code when it opens with the code's
//! text and the code is followed by a space or by the end of the line.

use vstd::prelude::*;

verus! {

/// The byte `.`.
pub const DOT: u8 = 46;

/// The byte ` `.
pub const SPACE: u8 = 32;

/// The byte `0`.
pub const ZERO: u8 = 48;

/// The byte `9`.
pub const NINE: u8 = 57;

/// An enhanced status code.
#[derive(Clone, Copy, Debug, PartialEq, Eq, Structural)]
pub struct EnhancedCode {
    pub class: u8,
    pub subject: u16,
    pub detail: u16,
}

/// `2.1.5`, "destination address valid": the recipient is a concrete mailbox.
pub open spec fn mailbox_valid() -> EnhancedCode {
    EnhancedCode { class: 2, subject: 1, detail: 5 }
}

/// `5.1.1`, "bad destination mailbox address": the mailbox does not exist.
pub open spec fn mailbox_unknown() -> EnhancedCode {
    EnhancedCode { class: 5, subject: 1, detail: 1 }
}

/// Whether `b` is an ASCII digit.
pub open spec fn is_digit(b: u8) -> bool {
    ZERO <= b <= NINE
}

/// The decimal text of `n`, for `n` up to 999, without leading zeros.
pub open spec fn decimal(n: int) -> Seq<u8>
    recommends
        0 <= n <= 999,
{
    if n < 10 {
        seq![(ZERO + n) as u8]
    } else if n < 100 {
        seq![(ZERO + n / 10) as u8, (ZERO + n % 10) as u8]
    } else {
        seq![(ZERO + n / 100) as u8, (ZERO + (n / 10) % 10) as u8, (ZERO + n % 10) as u8]
    }
}

/// Whether the decimal text of `n` stands in `text` at `start` and no digit
/// follows it.
pub open spec fn number_at(text: Seq<u8>, start: int, n: int) -> bool {
    let end = start + decimal(n).len();
    &&& 0 <= n <= 999
    &&& 0 <= start
    &&& end <= text.len()
    &&& text.subrange(start, end) == decimal(n)
    &&& (end == text.len() || !is_digit(text[end]))
}

impl EnhancedCode {
    /// The codes that the grammar admits.
    pub open spec fn wf(self) -> bool {
        &&& (self.class == 2 || self.class == 4 || self.class == 5)
        &&& self.subject <= 999
        &&& self.detail <= 999
    }

    /// The code as it is written on the wire.
    pub open spec fn text(self) -> Seq<u8> {
        seq![(ZERO + self.class) as u8, DOT] + decimal(self.subject as int) + seq![DOT] + decimal(
            self.detail as int,
        )
    }
}

/// Whether `line` opens with `code`: the code's text comes first, and then a
/// space or the end of the line.
pub open spec fn opens_with(line: Seq<u8>, code: EnhancedCode) -> bool {
    let t = code.text();
    &&& code.wf()
    &&& t.len() <= line.len()
    &&& line.subrange(0, t.len() as int) == t
    &&& (line.len() == t.len() || line[t.len() as int] == SPACE)
}

/// The enhanced status code that `line` opens with, if it opens with one.
pub open spec fn enhanced_code_of(line: Seq<u8>) -> Option<EnhancedCode> {
    if exists|c: EnhancedCode| opens_with(line, c) {
        Some(choose|c: EnhancedCode| opens_with(line, c))
    } else {
        None
    }
}

/// The shape of a decimal text: its length follows the size of the number, all
/// its bytes are digits, only a text of one digit starts with `0`, and the
/// digits give the number back.
pub proof fn lemma_decimal_shape(n: int)
    requires
        0 <= n <= 999,
    ensures
        decimal(n).len() == (if n < 10 {
            1int
        } else if n < 100 {
            2int
        } else {
            3int
        }),
        forall|j: int| 0 <= j < decimal(n).len() ==> is_digit(#[trigger] decimal(n)[j]),
        decimal(n).len() > 1 ==> decimal(n)[0] != ZERO,
        n < 10 ==> n == decimal(n)[0] - ZERO,
        10 <= n < 100 ==> n == 10 * (decimal(n)[0] - ZERO) + (decimal(n)[1] - ZERO),
        100 <= n ==> n == 100 * (decimal(n)[0] - ZERO) + 10 * (decimal(n)[1] - ZERO) + (decimal(
            n,
        )[2] - ZERO),
{
}

/// What `number_at` says byte by byte.
proof fn lemma_number_bytes(text: Seq<u8>, start: int, n: int)
    requires
        number_at(text, start, n),
    ensures
        forall|j: int|
            0 <= j < decimal(n).len() ==> #[trigger] text[start + j] == decimal(n)[j] && is_digit(
                text[start + j],
            ),
        start + decimal(n).len() == text.len() || !is_digit(text[start + decimal(n).len()]),
{
    lemma_decimal_shape(n);
    let end = start + decimal(n).len();
    assert forall|j: int| 0 <= j < decimal(n).len() implies #[trigger] text[start + j] == decimal(
        n,
    )[j] && is_digit(text[start + j]) by {
        assert(text.subrange(start, end)[j] == text[start + j]);
        assert(is_digit(decimal(n)[j]));
    }
}

/// At most one number stands at a given place.
pub proof fn lemma_number_unique(text: Seq<u8>, start: int, n: int, m: int)
    requires
        number_at(text, start, n),
        number_at(text, start, m),
    ensures
        n == m,
{
    lemma_decimal_shape(n);
    lemma_decimal_shape(m);
    lemma_number_bytes(text, start, n);
    lemma_number_bytes(text, start, m);
    let a = decimal(n);
    let b = decimal(m);
    if a.len() < b.len() {
        assert(text[start + a.len()] == b[a.len() as int]);
        assert(false);
    }
    if b.len() < a.len() {
        assert(text[start + b.len()] == a[b.len() as int]);
        assert(false);
    }
    assert(text[start + 0] == a[0] && text[start + 0] == b[0]);
    if a.len() >= 2 {
        assert(text[start + 1] == a[1] && text[start + 1] == b[1]);
    }
    if a.len() >= 3 {
        assert(text[start + 2] == a[2] && text[start + 2] == b[2]);
    }
}

/// Reads the number of one to three digits that stands at `start`, and where it
/// ends. There is none if no digit stands there, if more than three digits
/// follow one another, or if several digits start with `0`.
fn read_number(text: &[u8], start: usize) -> (r: Option<(u16, usize)>)
    requires
        start <= text.len(),
    ensures
        match r {
            Some((n, end)) => number_at(text@, start as int, n as int) && end == start + decimal(
                n as int,
            ).len(),
            None => forall|n: int| !number_at(text@, start as int, n),
        },
{
    let len = text.len();
    if start >= len || text[start] < ZERO || text[start] > NINE {
        proof {
            assert forall|n: int| !number_at(text@, start as int, n) by {
                if number_at(text@, start as int, n) {
                    lemma_decimal_shape(n);
                    lemma_number_bytes(text@, start as int, n);
                    assert(text@[start + 0] == decimal(n)[0]);
                }
            }
        }
        return None;
    }
    let d0: u16 = (text[start] - ZERO) as u16;
    if start + 1 >= len || text[start + 1] < ZERO || text[start + 1] > NINE {
        proof {
            lemma_decimal_shape(d0 as int);
            assert(text@.subrange(start as int, start + 1) =~= decimal(d0 as int));
        }
        return Some((d0, start + 1));
    }
    let d1: u16 = (text[start + 1] - ZERO) as u16;
    if d0 == 0 || (start + 2 < len && text[start + 2] >= ZERO && text[start + 2] <= NINE && start
        + 3 < len && text[start + 3] >= ZERO && text[start + 3] <= NINE) {
        proof {
            assert forall|n: int| !number_at(text@, start as int, n) by {
                if number_at(text@, start as int, n) {
                    lemma_decimal_shape(n);
                    lemma_number_bytes(text@, start as int, n);
                    assert(text@[start + 0] == decimal(n)[0]);
                    if decimal(n).len() >= 2 {
                        assert(text@[start + 1] == decimal(n)[1]);
                    }
                    if decimal(n).len() >= 3 {
                        assert(text@[start + 2] == decimal(n)[2]);
                    }
                }
            }
        }
        return None;
    }
    if start + 2 >= len || text[start + 2] < ZERO || text[start + 2] > NINE {
        let n: u16 = d0 * 10 + d1;
        proof {
            lemma_decimal_shape(n as int);
            assert(text@.subrange(start as int, start + 2) =~= decimal(n as int));
        }
        return Some((n, start + 2));
    }
    let d2: u16 = (text[start + 2] - ZERO) as u16;
    let n: u16 = d0 * 100 + d1 * 10 + d2;
    proof {
        lemma_decimal_shape(n as int);
        assert(text@.subrange(start as int, start + 3) =~= decimal(n as int));
    }
    Some((n, start + 3))
}

/// What `opens_with` says place by place: the class digit, a dot, the subject,
/// a dot, the detail, and then a space or the end of the line.
proof fn lemma_opens_with_parts(line: Seq<u8>, c: EnhancedCode)
    requires
        c.wf(),
    ensures
        opens_with(line, c) <==> ({
            let a = decimal(c.subject as int).len() as int;
            let b = decimal(c.detail as int).len() as int;
            &&& line.len() >= 3 + a + b
            &&& line[0] == ZERO + c.class
            &&& line[1] == DOT
            &&& number_at(line, 2, c.subject as int)
            &&& line[2 + a] == DOT
            &&& number_at(line, 3 + a, c.detail as int)
            &&& (line.len() == 3 + a + b || line[3 + a + b] == SPACE)
        }),
{
    let ds = decimal(c.subject as int);
    let dd = decimal(c.detail as int);
    let a = ds.len() as int;
    let b = dd.len() as int;
    let t = c.text();
    lemma_decimal_shape(c.subject as int);
    lemma_decimal_shape(c.detail as int);
    assert(t.len() == 3 + a + b);
    assert(t[0] == ZERO + c.class);
    assert(t[1] == DOT);
    assert(t[2 + a] == DOT);
    assert forall|j: int| 0 <= j < a implies t[2 + j] == ds[j] by {}
    assert forall|j: int| 0 <= j < b implies t[3 + a + j] == dd[j] by {}
    if opens_with(line, c) {
        let head = line.subrange(0, t.len() as int);
        assert(head[0] == line[0]);
        assert(head[1] == line[1]);
        assert(head[2 + a] == line[2 + a]);
        assert forall|j: int| 0 <= j < a implies line[2 + j] == ds[j] by {
            assert(head[2 + j] == line[2 + j]);
        }
        assert forall|j: int| 0 <= j < b implies line[3 + a + j] == dd[j] by {
            assert(head[3 + a + j] == line[3 + a + j]);
        }
        assert(line.subrange(2, 2 + a) =~= ds);
        assert(line.subrange(3 + a, 3 + a + b) =~= dd);
    }
    if line.len() >= 3 + a + b && line[0] == ZERO + c.class && line[1] == DOT && number_at(
        line,
        2,
        c.subject as int,
    ) && line[2 + a] == DOT && number_at(line, 3 + a, c.detail as int) && (line.len() == 3 + a + b
        || line[3 + a + b] == SPACE) {
        lemma_number_bytes(line, 2, c.subject as int);
        lemma_number_bytes(line, 3 + a, c.detail as int);
        assert forall|i: int| 0 <= i < t.len() implies line.subrange(0, t.len() as int)[i]
            == t[i] by {
            if 2 <= i < 2 + a {
                assert(line[2 + (i - 2)] == ds[i - 2]);
                assert(t[2 + (i - 2)] == ds[i - 2]);
            } else if 3 + a <= i {
                assert(line[3 + a + (i - 3 - a)] == dd[i - 3 - a]);
                assert(t[3 + a + (i - 3 - a)] == dd[i - 3 - a]);
            }
        }
        assert(line.subrange(0, t.len() as int) =~= t);
    }
}

/// A line opens with at most one code.
pub proof fn lemma_code_unique(line: Seq<u8>, c1: EnhancedCode, c2: EnhancedCode)
    requires
        opens_with(line, c1),
        opens_with(line, c2),
    ensures
        c1 == c2,
{
    lemma_opens_with_parts(line, c1);
    lemma_opens_with_parts(line, c2);
    lemma_number_unique(line, 2, c1.subject as int, c2.subject as int);
    let a = decimal(c1.subject as int).len() as int;
    lemma_number_unique(line, 3 + a, c1.detail as int, c2.detail as int);
}

/// The code that a line opens with is the line's enhanced status code, and
/// nothing else is.
pub proof fn lemma_enhanced_code_of(line: Seq<u8>, c: EnhancedCode)
    ensures
        opens_with(line, c) <==> enhanced_code_of(line) == Some(c),
{
    if opens_with(line, c) {
        let chosen = choose|c: EnhancedCode| opens_with(line, c);
        lemma_code_unique(line, c, chosen);
    }
}

/// Reads the enhanced status code at the start of a reply line.
pub fn parse_enhanced_code(line: &[u8]) -> (r: Option<EnhancedCode>)
    ensures
        r == enhanced_code_of(line@),
{
    let len = line.len();
    if len < 2 || !(line[0] == ZERO + 2 || line[0] == ZERO + 4 || line[0] == ZERO + 5) || line[1]
        != DOT {
        proof {
            assert forall|c: EnhancedCode| !opens_with(line@, c) by {
                if opens_with(line@, c) {
                    lemma_opens_with_parts(line@, c);
                }
            }
        }
        return None;
    }
    let class: u8 = line[0] - ZERO;
    let (subject, dot) = match read_number(line, 2) {
        Some(found) => found,
        None => {
            proof {
                assert forall|c: EnhancedCode| !opens_with(line@, c) by {
                    if opens_with(line@, c) {
                        lemma_opens_with_parts(line@, c);
                    }
                }
            }
            return None;
        },
    };
    if dot >= len || line[dot] != DOT {
        proof {
            assert forall|c: EnhancedCode| !opens_with(line@, c) by {
                if opens_with(line@, c) {
                    lemma_opens_with_parts(line@, c);
                    lemma_number_unique(line@, 2, c.subject as int, subject as int);
                }
            }
        }
        return None;
    }
    let (detail, end) = match read_number(line, dot + 1) {
        Some(found) => found,
        None => {
            proof {
                assert forall|c: EnhancedCode| !opens_with(line@, c) by {
                    if opens_with(line@, c) {
                        lemma_opens_with_parts(line@, c);
                        lemma_number_unique(line@, 2, c.subject as int, subject as int);
                    }
                }
            }
            return None;
        },
    };
    if end < len && line[end] != SPACE {
        proof {
            assert forall|c: EnhancedCode| !opens_with(line@, c) by {
                if opens_with(line@, c) {
                    lemma_opens_with_parts(line@, c);
                    lemma_number_unique(line@, 2, c.subject as int, subject as int);
                    lemma_number_unique(line@, dot + 1, c.detail as int, detail as int);
                }
            }
        }
        return None;
    }
    let code = EnhancedCode { class, subject, detail };
    proof {
        lemma_opens_with_parts(line@, code);
        lemma_enhanced_code_of(line@, code);
    }
    Some(code)
}

impl EnhancedCode {
    /// Whether this is `2.1.5`.
    pub fn is_mailbox_valid(&self) -> (b: bool)
        ensures
            b == (*self == mailbox_valid()),
    {
        self.class == 2 && self.subject == 1 && self.detail == 5
    }

    /// Whether this is `5.1.1`.
    pub fn is_mailbox_unknown(&self) -> (b: bool)
        ensures
            b == (*self == mailbox_unknown()),
    {
        self.class == 5 && self.subject == 1 && self.detail == 1
    }
}

} // verus!
