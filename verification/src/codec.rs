//! The packet wire codec.
//!
//! A [`PacketMsg`] travels as text: one tag character naming the variant,
//! then the variant's single field, which runs to the end of the payload.
//!
//! - `m` + value, for `Message { value }`;
//! - `r` + job id, for `RequestLifeAnswer { job_id }`;
//! - `a` + decimal digits, for `ReceiveLifeAnswer { life_answer }`.
//!
//! Since each variant has exactly one field and the field extends to the end,
//! no escaping is needed and decoding is exact: [`lemma_packet_round_trip`]
//! proves that decoding an encoded packet gives the packet back.

use vstd::prelude::*;

use crate::error::ContractError;
use crate::msg::{PacketMsg, PacketMsgView};

verus! {

/// The digit character of a value below ten.
pub open spec fn spec_digit_char(d: nat) -> char {
    if d == 0 {
        '0'
    } else if d == 1 {
        '1'
    } else if d == 2 {
        '2'
    } else if d == 3 {
        '3'
    } else if d == 4 {
        '4'
    } else if d == 5 {
        '5'
    } else if d == 6 {
        '6'
    } else if d == 7 {
        '7'
    } else if d == 8 {
        '8'
    } else {
        '9'
    }
}

/// Whether `c` is a decimal digit character.
pub open spec fn spec_is_digit(c: char) -> bool {
    48 <= c as int <= 57
}

/// The numeric value of a digit character (zero on non-digits).
pub open spec fn spec_digit_val(c: char) -> nat {
    if spec_is_digit(c) {
        (c as int - 48) as nat
    } else {
        0
    }
}

/// Whether every character of `s` is a decimal digit.
pub open spec fn spec_all_digits(s: Seq<char>) -> bool {
    forall|i: int| 0 <= i < s.len() ==> spec_is_digit(#[trigger] s[i])
}

/// The number a digit string denotes, most significant digit first.
pub open spec fn spec_dec_val(s: Seq<char>) -> nat
    decreases s.len(),
{
    if s.len() == 0 {
        0
    } else {
        spec_dec_val(s.drop_last()) * 10 + spec_digit_val(s.last())
    }
}

/// The canonical decimal digit string of `n`: no leading zero except for
/// zero itself.
pub open spec fn spec_dec_digits(n: nat) -> Seq<char>
    decreases n,
{
    if n < 10 {
        seq![spec_digit_char(n)]
    } else {
        spec_dec_digits(n / 10).push(spec_digit_char(n % 10))
    }
}

/// The decimal digit string of `n` is made of digits, is never empty, and
/// denotes `n`.
pub proof fn lemma_dec_digits_val(n: nat)
    ensures
        spec_dec_digits(n).len() >= 1,
        spec_all_digits(spec_dec_digits(n)),
        spec_dec_val(spec_dec_digits(n)) == n,
    decreases n,
{
    if n < 10 {
        let s = spec_dec_digits(n);
        assert(s.len() == 1);
        assert(s.drop_last() =~= Seq::<char>::empty());
        assert(s.last() == spec_digit_char(n));
        assert(spec_digit_val(spec_digit_char(n)) == n);
        assert(spec_dec_val(Seq::<char>::empty()) == 0);
        assert(spec_dec_val(s) == spec_dec_val(s.drop_last()) * 10 + spec_digit_val(s.last()));
    } else {
        lemma_dec_digits_val(n / 10);
        let prefix = spec_dec_digits(n / 10);
        let s = spec_dec_digits(n);
        assert(s.drop_last() =~= prefix);
        assert(s.last() == spec_digit_char(n % 10));
        assert(spec_digit_val(spec_digit_char(n % 10)) == n % 10);
        assert(n / 10 * 10 + n % 10 == n) by (nonlinear_arith);
        assert(spec_dec_val(s) == spec_dec_val(prefix) * 10 + spec_digit_val(s.last()));
    }
}

/// Extending a digit string can only grow the number it denotes: the value
/// of a prefix never exceeds the value of the whole.
pub proof fn lemma_dec_val_prefix_le(s: Seq<char>, j: int)
    requires
        0 <= j <= s.len(),
    ensures
        spec_dec_val(s.subrange(0, j)) <= spec_dec_val(s),
    decreases s.len() - j,
{
    if j == s.len() {
        assert(s.subrange(0, j) =~= s);
    } else {
        let shorter = s.subrange(0, j);
        let longer = s.subrange(0, j + 1);
        assert(longer.drop_last() =~= shorter);
        assert(spec_dec_val(longer) == spec_dec_val(shorter) * 10 + spec_digit_val(longer.last()));
        assert(spec_dec_val(shorter) <= spec_dec_val(shorter) * 10) by (nonlinear_arith);
        lemma_dec_val_prefix_le(s, j + 1);
    }
}

/// The single-character string of a digit value.
fn digit_string(d: u64) -> (s: String)
    requires
        d < 10,
    ensures
        s@ =~= seq![spec_digit_char(d as nat)],
{
    proof {
        reveal_strlit("0");
        reveal_strlit("1");
        reveal_strlit("2");
        reveal_strlit("3");
        reveal_strlit("4");
        reveal_strlit("5");
        reveal_strlit("6");
        reveal_strlit("7");
        reveal_strlit("8");
        reveal_strlit("9");
    }
    if d == 0 {
        String::from_str("0")
    } else if d == 1 {
        String::from_str("1")
    } else if d == 2 {
        String::from_str("2")
    } else if d == 3 {
        String::from_str("3")
    } else if d == 4 {
        String::from_str("4")
    } else if d == 5 {
        String::from_str("5")
    } else if d == 6 {
        String::from_str("6")
    } else if d == 7 {
        String::from_str("7")
    } else if d == 8 {
        String::from_str("8")
    } else {
        String::from_str("9")
    }
}

/// Formats `n` as its canonical decimal digit string.
pub fn format_u64(n: u64) -> (s: String)
    ensures
        s@ == spec_dec_digits(n as nat),
    decreases n,
{
    if n < 10 {
        digit_string(n)
    } else {
        let mut s = format_u64(n / 10);
        let last = digit_string(n % 10);
        s.append(last.as_str());
        proof {
            assert(s@ =~= spec_dec_digits((n / 10) as nat).push(spec_digit_char((n % 10) as nat)));
        }
        s
    }
}

/// Parses a decimal digit string. Returns the denoted number exactly when
/// the string is non-empty, all digits, and the number fits in a `u64`.
pub fn parse_u64(s: &str) -> (r: Option<u64>)
    ensures
        r is Some <==> (s@.len() > 0 && spec_all_digits(s@) && spec_dec_val(s@) <= u64::MAX),
        r matches Some(v) ==> v == spec_dec_val(s@),
{
    let n = s.unicode_len();
    if n == 0 {
        return None;
    }
    let mut i: usize = 0;
    let mut acc: u64 = 0;
    while i < n
        invariant
            0 <= i <= n,
            n == s@.len(),
            spec_all_digits(s@.subrange(0, i as int)),
            acc == spec_dec_val(s@.subrange(0, i as int)),
        decreases n - i,
    {
        let c = s.get_char(i);
        let cv = c as u32;
        proof {
            assert(s@.subrange(0, i as int + 1).drop_last() =~= s@.subrange(0, i as int));
            assert(s@.subrange(0, i as int + 1).last() == s@[i as int]);
        }
        if cv < 48 || cv > 57 {
            proof {
                assert(!spec_is_digit(s@[i as int]));
            }
            return None;
        }
        let d = (cv - 48) as u64;
        let scaled = match acc.checked_mul(10) {
            Some(x) => x,
            None => {
                proof {
                    lemma_dec_val_prefix_le(s@, i as int + 1);
                }
                return None;
            },
        };
        let next = match scaled.checked_add(d) {
            Some(x) => x,
            None => {
                proof {
                    lemma_dec_val_prefix_le(s@, i as int + 1);
                }
                return None;
            },
        };
        acc = next;
        i = i + 1;
    }
    proof {
        assert(s@.subrange(0, n as int) =~= s@);
    }
    Some(acc)
}

/// The encoding of a packet: the variant's tag character, then its field.
pub open spec fn spec_encode_packet(p: PacketMsgView) -> Seq<char> {
    match p {
        PacketMsgView::Message { value } => seq!['m'] + value,
        PacketMsgView::RequestLifeAnswer { job_id } => seq!['r'] + job_id,
        PacketMsgView::ReceiveLifeAnswer { life_answer } => seq!['a'] + spec_dec_digits(
            life_answer as nat,
        ),
    }
}

/// The packet a payload decodes to, if it is well formed.
pub open spec fn spec_decode_packet(s: Seq<char>) -> Option<PacketMsgView> {
    if s.len() == 0 {
        None
    } else {
        let rest = s.subrange(1, s.len() as int);
        if s[0] == 'm' {
            Some(PacketMsgView::Message { value: rest })
        } else if s[0] == 'r' {
            Some(PacketMsgView::RequestLifeAnswer { job_id: rest })
        } else if s[0] == 'a' {
            if rest.len() > 0 && spec_all_digits(rest) && spec_dec_val(rest) <= u64::MAX {
                Some(
                    PacketMsgView::ReceiveLifeAnswer {
                        life_answer: spec_dec_val(rest) as u64,
                    },
                )
            } else {
                None
            }
        } else {
            None
        }
    }
}

/// Decoding inverts encoding: every packet comes back from its own encoding.
pub proof fn lemma_packet_round_trip(p: PacketMsgView)
    ensures
        spec_decode_packet(spec_encode_packet(p)) == Some(p),
{
    reveal_strlit("m");
    reveal_strlit("r");
    reveal_strlit("a");
    let enc = spec_encode_packet(p);
    match p {
        PacketMsgView::Message { value } => {
            assert(enc.subrange(1, enc.len() as int) =~= value);
        },
        PacketMsgView::RequestLifeAnswer { job_id } => {
            assert(enc.subrange(1, enc.len() as int) =~= job_id);
        },
        PacketMsgView::ReceiveLifeAnswer { life_answer } => {
            let digits = spec_dec_digits(life_answer as nat);
            lemma_dec_digits_val(life_answer as nat);
            assert(enc.subrange(1, enc.len() as int) =~= digits);
        },
    }
}

/// Encodes a packet for the wire.
pub fn encode_packet(p: &PacketMsg) -> (s: String)
    ensures
        s@ == spec_encode_packet(p@),
{
    proof {
        reveal_strlit("m");
        reveal_strlit("r");
        reveal_strlit("a");
    }
    match p {
        PacketMsg::Message { value } => {
            let mut s = String::from_str("m");
            s.append(value.as_str());
            proof {
                assert(s@ =~= seq!['m'] + value@);
            }
            s
        },
        PacketMsg::RequestLifeAnswer { job_id } => {
            let mut s = String::from_str("r");
            s.append(job_id.as_str());
            proof {
                assert(s@ =~= seq!['r'] + job_id@);
            }
            s
        },
        PacketMsg::ReceiveLifeAnswer { life_answer } => {
            let mut s = String::from_str("a");
            let digits = format_u64(*life_answer);
            s.append(digits.as_str());
            proof {
                assert(s@ =~= seq!['a'] + spec_dec_digits(*life_answer as nat));
            }
            s
        },
    }
}

/// Decodes a payload from the wire; a malformed payload is a
/// [`ContractError::DecodeFailure`].
pub fn decode_packet(s: &str) -> (r: Result<PacketMsg, ContractError>)
    ensures
        r is Ok <==> spec_decode_packet(s@) is Some,
        r matches Ok(p) ==> spec_decode_packet(s@) == Some(p@),
        r matches Err(e) ==> e == ContractError::DecodeFailure,
{
    let n = s.unicode_len();
    if n == 0 {
        return Err(ContractError::DecodeFailure);
    }
    let tag = s.get_char(0);
    let rest = s.substring_char(1, n);
    proof {
        assert(rest@ =~= s@.subrange(1, s@.len() as int));
    }
    if tag == 'm' {
        Ok(PacketMsg::Message { value: String::from_str(rest) })
    } else if tag == 'r' {
        Ok(PacketMsg::RequestLifeAnswer { job_id: String::from_str(rest) })
    } else if tag == 'a' {
        match parse_u64(rest) {
            Some(v) => Ok(PacketMsg::ReceiveLifeAnswer { life_answer: v }),
            None => Err(ContractError::DecodeFailure),
        }
    } else {
        Err(ContractError::DecodeFailure)
    }
}

} // verus!
