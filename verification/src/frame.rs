//! Frame keys: the routing key attached to each outbound video frame.
//!
//! A key is the frame index, written in decimal and zero-padded to at least
//! six digits, followed by the image extension — the shape the broker-side
//! storage expects for payload lookup.

use vstd::prelude::*;

verus! {

/// The character for one decimal digit.
pub open spec fn digit_char(d: nat) -> char {
    if d == 0 {
        '0'
    } else if d == 1 {
        '1'
    } else if d == 2 {
        '2'
    } else if d == 3 {
        '3'
    } else if d == 4 {
        '4'
    } else if d == 5 {
        '5'
    } else if d == 6 {
        '6'
    } else if d == 7 {
        '7'
    } else if d == 8 {
        '8'
    } else {
        '9'
    }
}

/// The decimal digits of `n`, most significant first, no leading zeros.
pub open spec fn decimal_seq(n: nat) -> Seq<char>
    decreases n,
{
    if n < 10 {
        seq![digit_char(n)]
    } else {
        decimal_seq(n / 10).push(digit_char(n % 10))
    }
}

/// How many zeros pad `n` to a width of six digits.
pub open spec fn pad_len(n: nat) -> nat {
    if n < 10 {
        5
    } else if n < 100 {
        4
    } else if n < 1000 {
        3
    } else if n < 10000 {
        2
    } else if n < 100000 {
        1
    } else {
        0
    }
}

/// `k` zero characters.
pub open spec fn zeros(k: nat) -> Seq<char> {
    Seq::new(k, |i: int| '0')
}

/// The full key for frame number `n`.
pub open spec fn frame_key_spec(n: nat) -> Seq<char> {
    zeros(pad_len(n)) + decimal_seq(n) + ".jpg"@
}

/// Appends the character for one decimal digit.
fn append_digit(s: &mut String, d: u64)
    requires
        d < 10,
    ensures
        final(s)@ == old(s)@.push(digit_char(d as nat)),
{
    proof {
        reveal_strlit("0");
        reveal_strlit("1");
        reveal_strlit("2");
        reveal_strlit("3");
        reveal_strlit("4");
        reveal_strlit("5");
        reveal_strlit("6");
        reveal_strlit("7");
        reveal_strlit("8");
        reveal_strlit("9");
    }
    if d == 0 {
        s.append("0");
    } else if d == 1 {
        s.append("1");
    } else if d == 2 {
        s.append("2");
    } else if d == 3 {
        s.append("3");
    } else if d == 4 {
        s.append("4");
    } else if d == 5 {
        s.append("5");
    } else if d == 6 {
        s.append("6");
    } else if d == 7 {
        s.append("7");
    } else if d == 8 {
        s.append("8");
    } else {
        s.append("9");
    }
    assert(s@ =~= old(s)@.push(digit_char(d as nat)));
}

/// Appends the decimal digits of `n`.
fn append_decimal(s: &mut String, n: u64)
    ensures
        final(s)@ == old(s)@ + decimal_seq(n as nat),
    decreases n,
{
    if n < 10 {
        append_digit(s, n);
        assert(old(s)@.push(digit_char(n as nat)) =~= old(s)@ + decimal_seq(n as nat));
    } else {
        append_decimal(s, n / 10);
        append_digit(s, n % 10);
        assert((old(s)@ + decimal_seq((n / 10) as nat)).push(digit_char((n % 10) as nat)) =~= old(
            s,
        )@ + decimal_seq(n as nat));
    }
}

/// The key for frame number `index`: the index zero-padded to six decimal
/// digits (more when the index outgrows them), plus the image extension.
pub fn frame_key(index: u64) -> (k: String)
    ensures
        k@ == frame_key_spec(index as nat),
{
    let mut s = String::new();
    let pad: u64 = if index < 10 {
        5
    } else if index < 100 {
        4
    } else if index < 1000 {
        3
    } else if index < 10000 {
        2
    } else if index < 100000 {
        1
    } else {
        0
    };
    assert(pad == pad_len(index as nat));
    let mut i: u64 = 0;
    while i < pad
        invariant
            i <= pad,
            pad <= 5,
            s@ == zeros(i as nat),
        decreases pad - i,
    {
        append_digit(&mut s, 0);
        assert(s@ =~= zeros((i + 1) as nat));
        i = i + 1;
    }
    append_decimal(&mut s, index);
    proof {
        reveal_strlit(".jpg");
    }
    s.append(".jpg");
    assert(s@ =~= frame_key_spec(index as nat));
    s
}

/// The running frame index of a sink element: each outbound buffer takes the
/// next key.
pub struct FrameCounter {
    pub next: u64,
}

impl FrameCounter {
    /// A counter starting at frame zero.
    pub fn new() -> (c: FrameCounter)
        ensures
            c.next == 0,
    {
        FrameCounter { next: 0 }
    }

    /// Hands out the key for the current frame and advances.
    pub fn take_key(&mut self) -> (k: String)
        requires
            old(self).next < u64::MAX,
        ensures
            final(self).next == old(self).next + 1,
            k@ == frame_key_spec(old(self).next as nat),
    {
        let k = frame_key(self.next);
        self.next = self.next + 1;
        k
    }
}

} // verus!
