//! The computational side of the mini-UART diagnostics channel.
//!
//! The driver itself is a handful of register pokes and two busy-polled
//! status bits; what can be verified of it is here: the initialisation
//! words, the status-bit tests the polling loops decide on, and the
//! line-ending expansion every outgoing text undergoes (each line feed is
//! sent as carriage return plus line feed).

use vstd::prelude::*;

verus! {

/// Baud-rate divisor programmed into the low 16 bits of the baud register
/// for 115200 baud.
pub const BAUD_RATE_DIVISOR: u32 = 270;

/// First bit of the divisor field within the baud register.
pub const BAUD_FIELD_START: u32 = 0;

/// One past the last bit of the divisor field within the baud register.
pub const BAUD_FIELD_END: u32 = 16;

/// Line-control word selecting 8-bit data.
pub const LCR_DATA_8BIT: u32 = 0b11;

/// Control word enabling the transmitter and the receiver.
pub const CNTL_ENABLE_TX_RX: u32 = 0b11;

/// Iterations of the no-op delay after programming the peripheral, giving
/// it time to take effect.
pub const SETTLE_DELAY: usize = 150;

/// Transmit-ready bit of the status register: the FIFO can accept a byte.
/// Polled before each byte is queued.
pub fn transmit_ready(status: u32) -> (r: bool)
    ensures
        r == (status & 0b10 != 0),
{
    status & 0b10 != 0
}

/// Transmit-idle bit of the status register: the FIFO has drained.  Polled
/// after a batch, by `flush`.
pub fn transmit_idle(status: u32) -> (r: bool)
    ensures
        r == (status & 0b1000 != 0),
{
    status & 0b1000 != 0
}

/// The byte sequence actually sent for `s`: every line feed becomes
/// carriage return plus line feed, every other byte passes through.
pub open spec fn crlf_of(s: Seq<u8>) -> Seq<u8>
    decreases s.len(),
{
    if s.len() == 0 {
        Seq::empty()
    } else {
        (if s[0] == 10 {
            seq![13u8, 10u8]
        } else {
            seq![s[0]]
        }) + crlf_of(s.skip(1))
    }
}

proof fn lemma_crlf_push(t: Seq<u8>, x: u8)
    ensures
        crlf_of(t.push(x)) == crlf_of(t) + (if x == 10 {
            seq![13u8, 10u8]
        } else {
            seq![x]
        }),
    decreases t.len(),
{
    let piece = if x == 10 {
        seq![13u8, 10u8]
    } else {
        seq![x]
    };
    if t.len() == 0 {
        assert(t.push(x)[0] == x);
        assert(t.push(x).skip(1) =~= Seq::<u8>::empty());
        assert(crlf_of(t.push(x)) == piece + crlf_of(Seq::<u8>::empty()));
        assert(piece + Seq::<u8>::empty() =~= piece);
        assert(crlf_of(t) + piece =~= piece);
    } else {
        let head = if t[0] == 10 {
            seq![13u8, 10u8]
        } else {
            seq![t[0]]
        };
        lemma_crlf_push(t.skip(1), x);
        assert(t.push(x).skip(1) =~= t.skip(1).push(x));
        assert(crlf_of(t.push(x)) == head + (crlf_of(t.skip(1)) + piece));
        assert(head + (crlf_of(t.skip(1)) + piece) =~= (head + crlf_of(t.skip(1))) + piece);
    }
}

/// Expand line endings: the bytes of `s` with each line feed replaced by
/// carriage return plus line feed, in order.
pub fn expand_newlines(s: &[u8]) -> (out: Vec<u8>)
    ensures
        out@ == crlf_of(s@),
{
    let mut out: Vec<u8> = Vec::new();
    let n = s.len();
    let mut i: usize = 0;
    while i < n
        invariant
            i <= n,
            n == s@.len(),
            out@ == crlf_of(s@.take(i as int)),
        decreases n - i,
    {
        let b = s[i];
        if b == 10 {
            out.push(13);
            out.push(10);
        } else {
            out.push(b);
        }
        proof {
            lemma_crlf_push(s@.take(i as int), s@[i as int]);
            assert(s@.take(i as int).push(s@[i as int]) =~= s@.take(i as int + 1));
        }
        i = i + 1;
    }
    proof {
        assert(s@.take(n as int) =~= s@);
    }
    out
}

} // verus!
