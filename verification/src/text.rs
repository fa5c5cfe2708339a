//! Text helpers used to build diagnostic messages.

use vstd::prelude::*;

verus! {

/// The ASCII character of a decimal digit.
pub open spec fn digit_char(digit: nat) -> char {
    (digit + 48) as char
}

/// The base-ten rendering of `value`, without sign or leading zeros.
pub open spec fn decimal(value: nat) -> Seq<char>
    decreases value,
{
    if value < 10 {
        seq![digit_char(value)]
    } else {
        decimal(value / 10).push(digit_char(value % 10))
    }
}

/// The one-character text of a decimal digit.
fn digit_text(digit: usize) -> (text: &'static str)
    requires
        digit < 10,
    ensures
        text@ == seq![digit_char(digit as nat)],
{
    match digit {
        0 => {
            proof {
                reveal_strlit("0");
            }
            "0"
        },
        1 => {
            proof {
                reveal_strlit("1");
            }
            "1"
        },
        2 => {
            proof {
                reveal_strlit("2");
            }
            "2"
        },
        3 => {
            proof {
                reveal_strlit("3");
            }
            "3"
        },
        4 => {
            proof {
                reveal_strlit("4");
            }
            "4"
        },
        5 => {
            proof {
                reveal_strlit("5");
            }
            "5"
        },
        6 => {
            proof {
                reveal_strlit("6");
            }
            "6"
        },
        7 => {
            proof {
                reveal_strlit("7");
            }
            "7"
        },
        8 => {
            proof {
                reveal_strlit("8");
            }
            "8"
        },
        _ => {
            proof {
                reveal_strlit("9");
            }
            "9"
        },
    }
}

/// Renders `value` in base ten.
pub fn decimal_string(value: usize) -> (text: String)
    ensures
        text@ == decimal(value as nat),
    decreases value,
{
    if value < 10 {
        String::from_str(digit_text(value))
    } else {
        let mut text = decimal_string(value / 10);
        text.append(digit_text(value % 10));
        text
    }
}

/// Whether the UTF-8 encoding of `text` holds the ASCII unit separator.
pub open spec fn has_unit_separator(text: &str) -> bool {
    vstd::utf8::encode_utf8(text@).contains(0x1fu8)
}

/// Returns whether two strings hold the same characters, comparing their
/// UTF-8 encodings byte by byte.
pub fn same_text(left: &str, right: &str) -> (same: bool)
    ensures
        same == (left@ == right@),
{
    let a = left.as_bytes();
    let b = right.as_bytes();
    proof {
        vstd::utf8::encode_utf8_decode_utf8(left@);
        vstd::utf8::encode_utf8_decode_utf8(right@);
    }
    if a.len() != b.len() {
        proof {
            if left@ == right@ {
                assert(a@ == b@);
            }
        }
        return false;
    }
    let mut index: usize = 0;
    while index < a.len()
        invariant
            index <= a@.len(),
            a@.len() == b@.len(),
            a@ == vstd::utf8::encode_utf8(left@),
            b@ == vstd::utf8::encode_utf8(right@),
            vstd::utf8::decode_utf8(a@) == left@,
            vstd::utf8::decode_utf8(b@) == right@,
            forall|k: int| 0 <= k < index ==> a@[k] == b@[k],
        decreases a@.len() - index,
    {
        if a[index] != b[index] {
            proof {
                if left@ == right@ {
                    assert(a@ == b@);
                    assert(a@[index as int] == b@[index as int]);
                }
            }
            return false;
        }
        index = index + 1;
    }
    proof {
        assert(a@ =~= b@);
    }
    true
}

/// Returns whether the UTF-8 encoding of `text` holds the ASCII unit separator.
pub fn contains_unit_separator(text: &str) -> (found: bool)
    ensures
        found == has_unit_separator(text),
{
    let bytes = text.as_bytes();
    let mut index: usize = 0;
    while index < bytes.len()
        invariant
            index <= bytes@.len(),
            bytes@ == vstd::utf8::encode_utf8(text@),
            forall|k: int| 0 <= k < index ==> bytes@[k] != 0x1fu8,
        decreases bytes@.len() - index,
    {
        if bytes[index] == 0x1f {
            proof {
                assert(bytes@[index as int] == 0x1fu8);
            }
            return true;
        }
        index = index + 1;
    }
    false
}

/// The number that a sequence of decimal digit characters spells.
pub open spec fn chars_value(digits: Seq<char>) -> int
    decreases digits.len(),
{
    if digits.len() == 0 {
        0
    } else {
        chars_value(digits.drop_last()) * 10 + (digits.last() as int - 48)
    }
}

/// The base-ten rendering of a number spells that number back in decimal
/// digit characters, with no leading zero unless the number is zero.
pub proof fn lemma_decimal_spells(value: nat)
    ensures
        chars_value(decimal(value)) == value,
        decimal(value).len() >= 1,
        forall|index: int| 0 <= index < decimal(value).len() ==> '0' <= #[trigger] decimal(value)[index] <= '9',
        value > 0 ==> decimal(value)[0] != '0',
    decreases value,
{
    let digits = decimal(value);
    if value >= 10 {
        lemma_decimal_spells(value / 10);
        let prefix = decimal(value / 10);
        assert(digits.drop_last() =~= prefix);
        assert(digits[0] == prefix[0]);
        assert(value == (value / 10) * 10 + value % 10);
        assert(digits.last() as int - 48 == value % 10);
        assert(chars_value(digits) == chars_value(prefix) * 10 + (digits.last() as int - 48));
    } else {
        assert(digits.drop_last() =~= Seq::<char>::empty());
        assert(chars_value(digits) == chars_value(digits.drop_last()) * 10 + (digits.last() as int - 48));
    }
}

} // verus!
