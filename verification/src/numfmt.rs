//! Verified rendering of numbers into the exact strings the error messages
//! and listing lines carry: lowercase hexadecimal (optionally zero-padded
//! with an `0x` prefix), plain decimal, and the bracketed decimal form a
//! four-byte magic field is reported in.
use vstd::prelude::*;
use vstd::string::StringExecFns;

verus! {

/// The character for one digit value (hexadecimal; the first ten double as
/// the decimal digits).
pub open spec fn spec_digit(d: int) -> char {
    if d == 0 {
        '0'
    } else if d == 1 {
        '1'
    } else if d == 2 {
        '2'
    } else if d == 3 {
        '3'
    } else if d == 4 {
        '4'
    } else if d == 5 {
        '5'
    } else if d == 6 {
        '6'
    } else if d == 7 {
        '7'
    } else if d == 8 {
        '8'
    } else if d == 9 {
        '9'
    } else if d == 10 {
        'a'
    } else if d == 11 {
        'b'
    } else if d == 12 {
        'c'
    } else if d == 13 {
        'd'
    } else if d == 14 {
        'e'
    } else {
        'f'
    }
}

/// Minimal hexadecimal rendering of `n`, most significant digit first.
pub open spec fn spec_hex_digits(n: nat) -> Seq<char>
    decreases n,
{
    if n < 16 {
        seq![spec_digit(n as int)]
    } else {
        spec_hex_digits(n / 16) + seq![spec_digit((n % 16) as int)]
    }
}

/// Minimal decimal rendering of `n`, most significant digit first.
pub open spec fn spec_dec_digits(n: nat) -> Seq<char>
    decreases n,
{
    if n < 10 {
        seq![spec_digit(n as int)]
    } else {
        spec_dec_digits(n / 10) + seq![spec_digit((n % 10) as int)]
    }
}

/// `s` left-padded with `'0'` up to `width` characters.
pub open spec fn spec_zero_pad(s: Seq<char>, width: nat) -> Seq<char> {
    if s.len() >= width {
        s
    } else {
        Seq::new((width - s.len()) as nat, |i: int| '0') + s
    }
}

/// The rendering of `n` under the format `{:04x}`.
pub open spec fn spec_hex04(n: nat) -> Seq<char> {
    spec_zero_pad(spec_hex_digits(n), 4)
}

/// The rendering of `n` under the format `{:#06x}`.
pub open spec fn spec_hex_0x04(n: nat) -> Seq<char> {
    seq!['0', 'x'] + spec_hex04(n)
}

/// The rendering of a four-byte array under the debug format `{:?}`.
pub open spec fn spec_debug_bytes4(s: Seq<u8>) -> Seq<char> {
    seq!['['] + spec_dec_digits(s[0] as nat) + seq![',', ' '] + spec_dec_digits(s[1] as nat)
        + seq![',', ' '] + spec_dec_digits(s[2] as nat) + seq![',', ' '] + spec_dec_digits(
        s[3] as nat,
    ) + seq![']']
}

fn digit_str(d: u32) -> (s: &'static str)
    requires
        d < 16,
    ensures
        s@ == seq![spec_digit(d as int)],
{
    if d == 0 {
        proof {
            reveal_strlit("0");
            assert("0"@ =~= seq![spec_digit(0)]);
        }
        "0"
    } else if d == 1 {
        proof {
            reveal_strlit("1");
            assert("1"@ =~= seq![spec_digit(1)]);
        }
        "1"
    } else if d == 2 {
        proof {
            reveal_strlit("2");
            assert("2"@ =~= seq![spec_digit(2)]);
        }
        "2"
    } else if d == 3 {
        proof {
            reveal_strlit("3");
            assert("3"@ =~= seq![spec_digit(3)]);
        }
        "3"
    } else if d == 4 {
        proof {
            reveal_strlit("4");
            assert("4"@ =~= seq![spec_digit(4)]);
        }
        "4"
    } else if d == 5 {
        proof {
            reveal_strlit("5");
            assert("5"@ =~= seq![spec_digit(5)]);
        }
        "5"
    } else if d == 6 {
        proof {
            reveal_strlit("6");
            assert("6"@ =~= seq![spec_digit(6)]);
        }
        "6"
    } else if d == 7 {
        proof {
            reveal_strlit("7");
            assert("7"@ =~= seq![spec_digit(7)]);
        }
        "7"
    } else if d == 8 {
        proof {
            reveal_strlit("8");
            assert("8"@ =~= seq![spec_digit(8)]);
        }
        "8"
    } else if d == 9 {
        proof {
            reveal_strlit("9");
            assert("9"@ =~= seq![spec_digit(9)]);
        }
        "9"
    } else if d == 10 {
        proof {
            reveal_strlit("a");
            assert("a"@ =~= seq![spec_digit(10)]);
        }
        "a"
    } else if d == 11 {
        proof {
            reveal_strlit("b");
            assert("b"@ =~= seq![spec_digit(11)]);
        }
        "b"
    } else if d == 12 {
        proof {
            reveal_strlit("c");
            assert("c"@ =~= seq![spec_digit(12)]);
        }
        "c"
    } else if d == 13 {
        proof {
            reveal_strlit("d");
            assert("d"@ =~= seq![spec_digit(13)]);
        }
        "d"
    } else if d == 14 {
        proof {
            reveal_strlit("e");
            assert("e"@ =~= seq![spec_digit(14)]);
        }
        "e"
    } else {
        proof {
            reveal_strlit("f");
            assert("f"@ =~= seq![spec_digit(15)]);
        }
        "f"
    }
}

/// Minimal lowercase hexadecimal rendering of `n`.
pub fn hex_digits_string(n: u32) -> (s: String)
    ensures
        s@ == spec_hex_digits(n as nat),
    decreases n,
{
    if n < 16 {
        digit_str(n).to_owned()
    } else {
        let mut s = hex_digits_string(n / 16);
        s.append(digit_str(n % 16));
        s
    }
}

/// Minimal decimal rendering of `n`.
pub fn dec_digits_string(n: u64) -> (s: String)
    ensures
        s@ == spec_dec_digits(n as nat),
    decreases n,
{
    if n < 10 {
        digit_str(n as u32).to_owned()
    } else {
        let mut s = dec_digits_string(n / 10);
        s.append(digit_str((n % 10) as u32));
        s
    }
}

proof fn lemma_hex_digits_len(n: nat)
    ensures
        n < 16 ==> spec_hex_digits(n).len() == 1,
        16 <= n < 256 ==> spec_hex_digits(n).len() == 2,
        256 <= n < 4096 ==> spec_hex_digits(n).len() == 3,
        4096 <= n ==> spec_hex_digits(n).len() >= 4,
    decreases n,
{
    if n >= 16 {
        lemma_hex_digits_len(n / 16);
    }
}

/// The rendering of `n` under the format `{:#06x}`: an `0x` prefix and at
/// least four lowercase hexadecimal digits, zero-padded.
pub fn hex_0x04_string(n: u32) -> (s: String)
    ensures
        s@ == spec_hex_0x04(n as nat),
{
    proof {
        lemma_hex_digits_len(n as nat);
        reveal_strlit("0x");
        reveal_strlit("000");
        reveal_strlit("00");
        reveal_strlit("0");
    }
    let mut s = "0x".to_owned();
    if n < 16 {
        s.append("000");
    } else if n < 256 {
        s.append("00");
    } else if n < 4096 {
        s.append("0");
    }
    let digits = hex_digits_string(n);
    s.append(digits.as_str());
    proof {
        assert(s@ =~= spec_hex_0x04(n as nat));
    }
    s
}

/// The rendering of `n` under the format `{:04x}`: at least four lowercase
/// hexadecimal digits, zero-padded.
pub fn hex04_string(n: u32) -> (s: String)
    ensures
        s@ == spec_hex04(n as nat),
{
    proof {
        lemma_hex_digits_len(n as nat);
        reveal_strlit("");
        reveal_strlit("000");
        reveal_strlit("00");
        reveal_strlit("0");
    }
    let mut s = "".to_owned();
    if n < 16 {
        s.append("000");
    } else if n < 256 {
        s.append("00");
    } else if n < 4096 {
        s.append("0");
    }
    let digits = hex_digits_string(n);
    s.append(digits.as_str());
    proof {
        assert(s@ =~= spec_hex04(n as nat));
    }
    s
}

/// The rendering of a four-byte array under the debug format `{:?}`,
/// for example `[86, 70, 70, 32]`.
pub fn debug_bytes4_string(b0: u8, b1: u8, b2: u8, b3: u8) -> (s: String)
    ensures
        s@ == spec_debug_bytes4(seq![b0, b1, b2, b3]),
{
    proof {
        reveal_strlit("[");
        reveal_strlit(", ");
        reveal_strlit("]");
    }
    let mut s = "[".to_owned();
    let d0 = dec_digits_string(b0 as u64);
    s.append(d0.as_str());
    s.append(", ");
    let d1 = dec_digits_string(b1 as u64);
    s.append(d1.as_str());
    s.append(", ");
    let d2 = dec_digits_string(b2 as u64);
    s.append(d2.as_str());
    s.append(", ");
    let d3 = dec_digits_string(b3 as u64);
    s.append(d3.as_str());
    s.append("]");
    proof {
        assert(s@ =~= spec_debug_bytes4(seq![b0, b1, b2, b3]));
    }
    s
}

} // verus!
