use vstd::prelude::*;

verus! {

/// Characters accepted as hexadecimal digits (either case).
pub open spec fn is_hex_digit(c: char) -> bool {
    ('0' <= c && c <= '9') || ('a' <= c && c <= 'f') || ('A' <= c && c <= 'F')
}

/// Value of a hexadecimal digit.
pub open spec fn hex_value(c: char) -> u8 {
    if '0' <= c && c <= '9' {
        (c as u32 - '0' as u32) as u8
    } else if 'a' <= c && c <= 'f' {
        (c as u32 - 'a' as u32 + 10) as u8
    } else {
        (c as u32 - 'A' as u32 + 10) as u8
    }
}

/// Lower-case hexadecimal digit of a value below 16.
pub open spec fn hex_char(n: u8) -> char {
    if n < 10 {
        ((n + 0x30) as u32) as char
    } else {
        ((n + 0x57) as u32) as char
    }
}

/// A full or abbreviated object id in hexadecimal: one to forty digits.
pub open spec fn is_id_text(s: Seq<char>) -> bool {
    1 <= s.len() <= 40 && forall|i: int| 0 <= i < s.len() ==> is_hex_digit(#[trigger] s[i])
}

/// The digit at position `k` of an abbreviated id, the missing ones being zero.
pub open spec fn digit_at(s: Seq<char>, k: int) -> u8 {
    if k < s.len() {
        hex_value(s[k])
    } else {
        0
    }
}

/// The 20 bytes that an abbreviated id stands for, padded with zero digits.
pub open spec fn id_bytes_of_text(s: Seq<char>) -> Seq<u8> {
    Seq::new(20, |i: int| (digit_at(s, 2 * i) * 16 + digit_at(s, 2 * i + 1)) as u8)
}

/// Lower-case hexadecimal form of `b`, two digits per byte.
pub open spec fn hex_of(b: Seq<u8>) -> Seq<char> {
    Seq::new(2 * b.len(), |k: int| if k % 2 == 0 { hex_char(b[k / 2] / 16) } else { hex_char(b[k / 2] % 16) })
}

/// The one-character text of a lower-case hexadecimal digit.
fn hex_digit_text(n: u8) -> (r: &'static str)
    requires
        n < 16,
    ensures
        r@ == seq![hex_char(n)],
{
    let r = match n {
        0 => "0",
        1 => "1",
        2 => "2",
        3 => "3",
        4 => "4",
        5 => "5",
        6 => "6",
        7 => "7",
        8 => "8",
        9 => "9",
        10 => "a",
        11 => "b",
        12 => "c",
        13 => "d",
        14 => "e",
        _ => "f",
    };
    proof {
        reveal_strlit("0");
        reveal_strlit("1");
        reveal_strlit("2");
        reveal_strlit("3");
        reveal_strlit("4");
        reveal_strlit("5");
        reveal_strlit("6");
        reveal_strlit("7");
        reveal_strlit("8");
        reveal_strlit("9");
        reveal_strlit("a");
        reveal_strlit("b");
        reveal_strlit("c");
        reveal_strlit("d");
        reveal_strlit("e");
        reveal_strlit("f");
    }
    assert(r@ =~= seq![hex_char(n)]);
    r
}

/// Writes the first `n` hexadecimal digits of `b`.
pub fn hex_prefix(b: &[u8; 20], n: usize) -> (r: String)
    requires
        n <= 40,
    ensures
        r@ == hex_of(b@).take(n as int),
{
    let mut s = String::new();
    let mut k: usize = 0;
    while k < n
        invariant
            n <= 40,
            k <= n,
            b@.len() == 20,
            s@ =~= hex_of(b@).take(k as int),
        decreases n - k,
    {
        let byte = b[k / 2];
        let digit = if k % 2 == 0 { byte / 16 } else { byte % 16 };
        let t = hex_digit_text(digit);
        s.append(t);
        assert(s@ =~= hex_of(b@).take(k + 1));
        k = k + 1;
    }
    s
}

} // verus!
