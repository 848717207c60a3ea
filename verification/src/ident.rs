//! Record identifiers and their validation.
//!
//! An identifier is twelve bytes, written as twenty-four hexadecimal
//! digits. Anything else is refused before it can reach storage.

use vstd::prelude::*;

use crate::error::{AppError, Failure};

verus! {

/// `String::push` appends one character.
pub assume_specification[ String::push ](s: &mut String, c: char)
    ensures
        final(s)@ == old(s)@.push(c),
;

/// The key of a record or of an owner: its first four bytes in `hi`, its
/// last eight in `lo`.
#[derive(Clone, Copy, Debug, PartialEq, Eq, Hash, Structural)]
pub struct ObjectId {
    pub hi: u32,
    pub lo: u64,
}

/// The value of one hexadecimal digit, in either case.
pub open spec fn digit_of(c: char) -> Option<nat> {
    if '0' <= c <= '9' {
        Some((c as nat - '0' as nat) as nat)
    } else if 'a' <= c <= 'f' {
        Some((c as nat - 'a' as nat + 10) as nat)
    } else if 'A' <= c <= 'F' {
        Some((c as nat - 'A' as nat + 10) as nat)
    } else {
        None
    }
}

/// Every character of `s` is a hexadecimal digit.
pub open spec fn is_hex(s: Seq<char>) -> bool {
    forall|i: int| 0 <= i < s.len() ==> (#[trigger] digit_of(s[i])) is Some
}

/// The number that the digits of `s` write, most significant first.
pub open spec fn hex_value(s: Seq<char>) -> nat
    decreases s.len(),
{
    if s.len() == 0 {
        0
    } else {
        16 * hex_value(s.drop_last()) + digit_of(s.last()).unwrap()
    }
}

/// The lower-case digit for a value below sixteen.
pub open spec fn digit_char(d: nat) -> char {
    if d < 10 {
        ('0' as nat + d) as char
    } else {
        ('a' as nat + d - 10) as char
    }
}

/// `v` written with exactly `n` lower-case hexadecimal digits.
pub open spec fn hex_digits(v: nat, n: nat) -> Seq<char>
    decreases n,
{
    if n == 0 {
        Seq::empty()
    } else {
        hex_digits(v / 16, (n - 1) as nat).push(digit_char(v % 16))
    }
}

/// Sixteen to the power `n`.
pub open spec fn pow16(n: nat) -> nat
    decreases n,
{
    if n == 0 {
        1
    } else {
        16 * pow16((n - 1) as nat)
    }
}

/// The text is the encoding of an identifier: twenty-four hexadecimal digits.
pub open spec fn well_formed(s: Seq<char>) -> bool {
    s.len() == 24 && is_hex(s)
}

/// The identifier that a well-formed text stands for.
pub open spec fn parsed(s: Seq<char>) -> ObjectId {
    ObjectId { hi: hex_value(s.subrange(0, 8)) as u32, lo: hex_value(s.subrange(8, 24)) as u64 }
}

impl ObjectId {
    /// The identifier in text: twenty-four lower-case hexadecimal digits.
    pub open spec fn hex(self) -> Seq<char> {
        hex_digits(self.hi as nat, 8) + hex_digits(self.lo as nat, 16)
    }
}

pub proof fn lemma_pow16_grows(a: nat, b: nat)
    requires
        a <= b,
    ensures
        pow16(a) <= pow16(b),
        pow16(a) >= 1,
    decreases b,
{
    if a < b {
        lemma_pow16_grows(a, (b - 1) as nat);
    } else if a > 0 {
        lemma_pow16_grows((a - 1) as nat, (a - 1) as nat);
    }
}

pub proof fn lemma_pow16_values()
    ensures
        pow16(8) == 0x1_0000_0000,
        pow16(16) == 0x1_0000_0000_0000_0000,
{
    reveal_with_fuel(pow16, 17);
}

/// Digits of a given count write a number below sixteen to that count.
pub proof fn lemma_hex_value_bound(s: Seq<char>)
    requires
        is_hex(s),
    ensures
        hex_value(s) < pow16(s.len()),
    decreases s.len(),
{
    if s.len() > 0 {
        let init = s.drop_last();
        assert forall|i: int| 0 <= i < init.len() implies (#[trigger] digit_of(init[i])) is Some by {
            assert(init[i] == s[i]);
        }
        lemma_hex_value_bound(init);
        assert(digit_of(s[s.len() - 1]) is Some);
    }
}

pub proof fn lemma_hex_digits_shape(v: nat, n: nat)
    ensures
        hex_digits(v, n).len() == n,
        is_hex(hex_digits(v, n)),
    decreases n,
{
    if n > 0 {
        lemma_hex_digits_shape(v / 16, (n - 1) as nat);
        let init = hex_digits(v / 16, (n - 1) as nat);
        let s = hex_digits(v, n);
        assert(digit_of(digit_char(v % 16)) is Some);
        assert forall|i: int| 0 <= i < s.len() implies (#[trigger] digit_of(s[i])) is Some by {
            if i < init.len() {
                assert(s[i] == init[i]);
            }
        }
    }
}

/// Reading back what was written gives the number again.
pub proof fn lemma_hex_value_of_digits(v: nat, n: nat)
    requires
        v < pow16(n),
    ensures
        hex_value(hex_digits(v, n)) == v,
    decreases n,
{
    if n > 0 {
        let init = hex_digits(v / 16, (n - 1) as nat);
        let s = hex_digits(v, n);
        lemma_hex_digits_shape(v / 16, (n - 1) as nat);
        lemma_hex_value_of_digits(v / 16, (n - 1) as nat);
        assert(s.drop_last() =~= init);
        assert(digit_of(digit_char(v % 16)) == Some(v % 16));
    }
}

/// An identifier written as text and parsed again is the same identifier.
pub proof fn lemma_hex_round_trip(id: ObjectId)
    ensures
        well_formed(id.hex()),
        parsed(id.hex()) == id,
{
    let a = hex_digits(id.hi as nat, 8);
    let b = hex_digits(id.lo as nat, 16);
    lemma_hex_digits_shape(id.hi as nat, 8);
    lemma_hex_digits_shape(id.lo as nat, 16);
    lemma_pow16_values();
    lemma_hex_value_of_digits(id.hi as nat, 8);
    lemma_hex_value_of_digits(id.lo as nat, 16);
    let s = id.hex();
    assert(s.subrange(0, 8) =~= a);
    assert(s.subrange(8, 24) =~= b);
    assert forall|i: int| 0 <= i < s.len() implies (#[trigger] digit_of(s[i])) is Some by {
        if i < 8 {
            assert(s[i] == a[i]);
        } else {
            assert(s[i] == b[i - 8]);
        }
    }
}

fn digit_value(c: char) -> (d: Option<u8>)
    ensures
        match d {
            Some(x) => digit_of(c) == Some(x as nat) && x < 16,
            None => digit_of(c) is None,
        },
{
    if '0' <= c && c <= '9' {
        Some((c as u32 - '0' as u32) as u8)
    } else if 'a' <= c && c <= 'f' {
        Some((c as u32 - 'a' as u32 + 10) as u8)
    } else if 'A' <= c && c <= 'F' {
        Some((c as u32 - 'A' as u32 + 10) as u8)
    } else {
        None
    }
}

fn digit_to_char(d: u8) -> (c: char)
    requires
        d < 16,
    ensures
        c == digit_char(d as nat),
{
    if d < 10 {
        (48u8 + d) as char
    } else {
        (97u8 + (d - 10)) as char
    }
}

/// Reads the digits of `s` from `from` up to `to`; `None` at the first
/// character that is no digit.
fn read_hex(s: &str, from: usize, to: usize) -> (r: Option<u64>)
    requires
        from <= to <= s@.len(),
        to - from <= 16,
    ensures
        match r {
            Some(v) => is_hex(s@.subrange(from as int, to as int)) && v == hex_value(
                s@.subrange(from as int, to as int),
            ),
            None => !is_hex(s@.subrange(from as int, to as int)),
        },
{
    let mut acc: u64 = 0;
    let mut i: usize = from;
    proof {
        lemma_pow16_values();
    }
    while i < to
        invariant
            from <= i <= to <= s@.len(),
            to - from <= 16,
            is_hex(s@.subrange(from as int, i as int)),
            acc == hex_value(s@.subrange(from as int, i as int)),
            acc < pow16((i - from) as nat),
            pow16(16) == 0x1_0000_0000_0000_0000,
        decreases to - i,
    {
        let c = s.get_char(i);
        let ghost before = s@.subrange(from as int, i as int);
        let ghost after = s@.subrange(from as int, i + 1);
        proof {
            assert(after.drop_last() =~= before);
            assert(after.last() == c);
        }
        match digit_value(c) {
            None => {
                proof {
                    let whole = s@.subrange(from as int, to as int);
                    assert(whole[i - from] == c);
                }
                return None;
            },
            Some(d) => {
                proof {
                    lemma_pow16_grows((i - from + 1) as nat, 16);
                    assert forall|k: int| 0 <= k < after.len() implies (#[trigger] digit_of(
                        after[k],
                    )) is Some by {
                        if k < before.len() {
                            assert(after[k] == before[k]);
                        }
                    }
                }
                acc = acc * 16 + d as u64;
            },
        }
        i += 1;
    }
    Some(acc)
}

fn push_hex(out: &mut String, v: u64, n: u32)
    ensures
        final(out)@ == old(out)@ + hex_digits(v as nat, n as nat),
    decreases n,
{
    if n > 0 {
        push_hex(out, v / 16, n - 1);
        out.push(digit_to_char((v % 16) as u8));
        assert(out@ =~= old(out)@ + hex_digits(v as nat, n as nat));
    } else {
        assert(out@ =~= old(out)@ + hex_digits(v as nat, n as nat));
    }
}

impl ObjectId {
    /// Reads an identifier from its text. Succeeds exactly on twenty-four
    /// hexadecimal digits, of either case.
    pub fn parse_str(raw: &str) -> (r: Option<ObjectId>)
        ensures
            r == if well_formed(raw@) {
                Some(parsed(raw@))
            } else {
                None::<ObjectId>
            },
    {
        if raw.unicode_len() != 24 {
            return None;
        }
        let ghost a = raw@.subrange(0, 8);
        let ghost b = raw@.subrange(8, 24);
        let hi = match read_hex(raw, 0, 8) {
            Some(v) => v,
            None => {
                proof {
                    if is_hex(raw@) {
                        assert forall|i: int| 0 <= i < a.len() implies (#[trigger] digit_of(
                            a[i],
                        )) is Some by {
                            assert(a[i] == raw@[i]);
                        }
                    }
                }
                return None;
            },
        };
        let lo = match read_hex(raw, 8, 24) {
            Some(v) => v,
            None => {
                proof {
                    if is_hex(raw@) {
                        assert forall|i: int| 0 <= i < b.len() implies (#[trigger] digit_of(
                            b[i],
                        )) is Some by {
                            assert(b[i] == raw@[i + 8]);
                        }
                    }
                }
                return None;
            },
        };
        proof {
            lemma_hex_value_bound(a);
            lemma_hex_value_bound(b);
            lemma_pow16_values();
            assert forall|i: int| 0 <= i < raw@.len() implies (#[trigger] digit_of(
                raw@[i],
            )) is Some by {
                if i < 8 {
                    assert(raw@[i] == a[i]);
                } else {
                    assert(raw@[i] == b[i - 8]);
                }
            }
        }
        Some(ObjectId { hi: hi as u32, lo })
    }

    /// Writes the identifier as twenty-four lower-case hexadecimal digits.
    pub fn to_hex(&self) -> (text: String)
        ensures
            text@ == self.hex(),
    {
        let mut out = String::new();
        push_hex(&mut out, self.hi as u64, 8);
        push_hex(&mut out, self.lo, 16);
        out
    }
}

/// Validates an identifier that came from outside. A text that is not
/// well formed is refused with `complaint`, and nothing else is done.
pub fn parse_id(raw: &str, complaint: &str) -> (r: Result<ObjectId, AppError>)
    ensures
        well_formed(raw@) ==> r == Ok::<ObjectId, AppError>(parsed(raw@)),
        !well_formed(raw@) ==> r is Err && r->Err_0@ == Failure::BadRequest(complaint@),
{
    match ObjectId::parse_str(raw) {
        Some(id) => Ok(id),
        None => Err(AppError::bad_request(complaint)),
    }
}

/// The identifier that an optional text stands for: none where no text
/// was given. `None` where a text was given that is not well formed.
pub open spec fn parsed_if_given(raw: Option<String>) -> Option<Option<ObjectId>> {
    match raw {
        None => Some(None),
        Some(text) => if well_formed(text@) {
            Some(Some(parsed(text@)))
        } else {
            None
        },
    }
}

/// Validates an identifier that a request may or may not name.
pub fn parse_id_if_given(raw: &Option<String>, complaint: &str) -> (r: Result<Option<ObjectId>, AppError>)
    ensures
        match parsed_if_given(*raw) {
            Some(id) => r == Ok::<Option<ObjectId>, AppError>(id),
            None => r is Err && r->Err_0@ == Failure::BadRequest(complaint@),
        },
{
    match raw {
        None => Ok(None),
        Some(text) => match parse_id(text.as_str(), complaint) {
            Ok(id) => Ok(Some(id)),
            Err(e) => Err(e),
        },
    }
}

} // verus!
