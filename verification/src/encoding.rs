//! The canonical prefixed personal-message encoding.
//!
//! A contract-based signature is judged by the authority over
//! `"\x19Ethereum Signed Message:\n" + decimal-length + message`, where the
//! length is the byte length of the message written in ASCII decimal.

use vstd::prelude::*;

verus! {

/// ASCII decimal representation of `n`, most significant digit first, with no
/// leading zeros (`0` itself is the single digit `"0"`).
pub open spec fn dec_digits(n: nat) -> Seq<u8>
    decreases n,
{
    if n < 10 {
        seq![(48 + n) as u8]
    } else {
        dec_digits(n / 10).push((48 + n % 10) as u8)
    }
}

/// The 26 prefix bytes `"\x19Ethereum Signed Message:\n"`.
pub open spec fn personal_message_prefix() -> Seq<u8> {
    seq![
        0x19u8, 69u8, 116u8, 104u8, 101u8, 114u8, 101u8, 117u8, 109u8, 32u8, 83u8, 105u8, 103u8,
        110u8, 101u8, 100u8, 32u8, 77u8, 101u8, 115u8, 115u8, 97u8, 103u8, 101u8, 58u8, 10u8,
    ]
}

/// The prefixed personal-message encoding of `msg`.
pub open spec fn personal_message(msg: Seq<u8>) -> Seq<u8> {
    personal_message_prefix() + dec_digits(msg.len()) + msg
}

/// Writes `n` in ASCII decimal, most significant digit first.
pub fn dec_digits_bytes(n: usize) -> (digits: Vec<u8>)
    ensures
        digits@ == dec_digits(n as nat),
    decreases n,
{
    if n < 10 {
        let mut digits: Vec<u8> = Vec::new();
        digits.push(48 + n as u8);
        proof {
            assert(digits@ =~= dec_digits(n as nat));
        }
        digits
    } else {
        let mut digits = dec_digits_bytes(n / 10);
        digits.push(48 + (n % 10) as u8);
        proof {
            assert(digits@ =~= dec_digits(n as nat));
        }
        digits
    }
}

/// Wraps `msg` in the canonical prefixed personal-message encoding.
pub fn wrap_personal_message(msg: &Vec<u8>) -> (wrapped: Vec<u8>)
    ensures
        wrapped@ == personal_message(msg@),
{
    let mut wrapped: Vec<u8> = Vec::new();
    wrapped.push(0x19);
    wrapped.push(69);
    wrapped.push(116);
    wrapped.push(104);
    wrapped.push(101);
    wrapped.push(114);
    wrapped.push(101);
    wrapped.push(117);
    wrapped.push(109);
    wrapped.push(32);
    wrapped.push(83);
    wrapped.push(105);
    wrapped.push(103);
    wrapped.push(110);
    wrapped.push(101);
    wrapped.push(100);
    wrapped.push(32);
    wrapped.push(77);
    wrapped.push(101);
    wrapped.push(115);
    wrapped.push(115);
    wrapped.push(97);
    wrapped.push(103);
    wrapped.push(101);
    wrapped.push(58);
    wrapped.push(10);
    proof {
        assert(wrapped@ =~= personal_message_prefix());
    }
    let mut digits = dec_digits_bytes(msg.len());
    wrapped.append(&mut digits);
    let ghost header = wrapped@;
    let mut i: usize = 0;
    while i < msg.len()
        invariant
            i <= msg@.len(),
            header == personal_message_prefix() + dec_digits(msg@.len()),
            wrapped@ == header + msg@.subrange(0, i as int),
        decreases msg@.len() - i,
    {
        wrapped.push(msg[i]);
        proof {
            assert(msg@.subrange(0, i + 1) =~= msg@.subrange(0, i as int).push(msg@[i as int]));
            assert(wrapped@ =~= header + msg@.subrange(0, i + 1));
        }
        i = i + 1;
    }
    proof {
        assert(msg@.subrange(0, msg@.len() as int) =~= msg@);
        assert(wrapped@ =~= personal_message(msg@));
    }
    wrapped
}

} // verus!
