//! The policy that maps C type names to Rust type names.

use vstd::prelude::*;

verus! {

/// The Rust type name for a C type name, and whether the C type is a pointer.
///
/// Four names are known; any other name stands for itself and is no pointer.
pub open spec fn rtype_of(ctype: Seq<char>) -> (Seq<char>, bool) {
    if ctype == "int"@ {
        ("i32"@, false)
    } else if ctype == "char"@ {
        ("i8"@, false)
    } else if ctype == "void"@ {
        ("()"@, false)
    } else if ctype == "int *"@ {
        ("i32"@, true)
    } else {
        (ctype, false)
    }
}

/// Whether two string slices hold the same text.
pub fn same_text(a: &str, b: &str) -> (r: bool)
    ensures
        r == (a@ == b@),
{
    let x = a.to_owned();
    let y = b.to_owned();
    x == y
}

/// return: (rust_type, is_pointer)
pub fn ctype_to_rtype(ctype: &str) -> (r: (String, bool))
    ensures
        r.0@ == rtype_of(ctype@).0,
        r.1 == rtype_of(ctype@).1,
{
    if same_text(ctype, "int") {
        ("i32".to_owned(), false)
    } else if same_text(ctype, "char") {
        ("i8".to_owned(), false)
    } else if same_text(ctype, "void") {
        ("()".to_owned(), false)
    } else if same_text(ctype, "int *") {
        ("i32".to_owned(), true)
    } else {
        (ctype.to_owned(), false)
    }
}

/// The value of the hexadecimal digit `c`, if it is one.
pub open spec fn hex_value(c: char) -> Option<nat> {
    if '0' <= c && c <= '9' {
        Some((c as nat - '0' as nat) as nat)
    } else if 'a' <= c && c <= 'f' {
        Some((c as nat - 'a' as nat + 10) as nat)
    } else if 'A' <= c && c <= 'F' {
        Some((c as nat - 'A' as nat + 10) as nat)
    } else {
        None
    }
}

/// Whether `digits` are hexadecimal digits, at least one.
pub open spec fn is_hex(digits: Seq<char>) -> bool {
    digits.len() > 0 && forall|i: int| 0 <= i < digits.len() ==> hex_value(#[trigger] digits[i])
        is Some
}

/// The number that the hexadecimal digits `digits` write, the first digit
/// counting most.
pub open spec fn hex_number(digits: Seq<char>) -> nat
    decreases digits.len(),
{
    if digits.len() == 0 {
        0
    } else {
        16 * hex_number(digits.drop_last()) + hex_value(digits.last()).unwrap()
    }
}

/// The number of an identity that the compiler writes as `text`: `0x` and
/// hexadecimal digits that write a number of 64 bits. Any other text is no
/// identity.
pub open spec fn identity_number(text: Seq<char>) -> Option<u64> {
    if text.len() >= 2 && text[0] == '0' && text[1] == 'x' && is_hex(text.skip(2)) && hex_number(
        text.skip(2),
    ) <= u64::MAX {
        Some(hex_number(text.skip(2)) as u64)
    } else {
        None
    }
}

/// The number that the first digits of `digits` write is at most the number
/// that all of them write.
proof fn hex_number_grows(digits: Seq<char>, n: int)
    requires
        0 <= n <= digits.len(),
    ensures
        hex_number(digits.take(n)) <= hex_number(digits),
    decreases digits.len() - n,
{
    if n < digits.len() {
        assert(digits.take(n + 1).drop_last() =~= digits.take(n));
        hex_number_grows(digits, n + 1);
    } else {
        assert(digits.take(n) =~= digits);
    }
}

/// The value of the hexadecimal digit `c`, if it is one.
fn hex_digit(c: char) -> (r: Option<u64>)
    ensures
        match r {
            Some(v) => hex_value(c) == Some(v as nat) && v < 16,
            None => hex_value(c) is None,
        },
{
    if '0' <= c && c <= '9' {
        Some((c as u64) - ('0' as u64))
    } else if 'a' <= c && c <= 'f' {
        Some((c as u64) - ('a' as u64) + 10)
    } else if 'A' <= c && c <= 'F' {
        Some((c as u64) - ('A' as u64) + 10)
    } else {
        None
    }
}

/// Reads an identity as the compiler writes it, such as `0x55d1c8a0`.
pub fn identity_of(text: &str) -> (r: Option<u64>)
    ensures
        r == identity_number(text@),
{
    let len = text.unicode_len();
    if len < 3 || text.get_char(0) != '0' || text.get_char(1) != 'x' {
        assert(!is_hex(text@.skip(2)) || text@.len() < 2 || text@[0] != '0' || text@[1] != 'x');
        return None;
    }
    let ghost digits = text@.skip(2);
    let mut value: u64 = 0;
    let mut i: usize = 2;
    assert(digits.take(0) =~= Seq::<char>::empty());
    while i < len
        invariant
            2 <= i <= len,
            len == text@.len(),
            digits == text@.skip(2),
            value == hex_number(digits.take(i - 2)),
            forall|j: int| 0 <= j < i - 2 ==> hex_value(#[trigger] digits[j]) is Some,
        decreases len - i,
    {
        let c = text.get_char(i);
        assert(digits[i - 2] == c);
        assert(digits.take(i - 1).drop_last() =~= digits.take(i - 2));
        assert(digits.take(i - 1).last() == c);
        match hex_digit(c) {
            None => {
                return None;
            },
            Some(digit) => {
                if value > (u64::MAX - digit) / 16 {
                    proof {
                        hex_number_grows(digits, i - 1);
                    }
                    return None;
                }
                value = value * 16 + digit;
            },
        }
        i = i + 1;
    }
    assert(digits.take(i - 2) =~= digits);
    Some(value)
}

} // verus!
