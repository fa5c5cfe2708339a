//! Byte-string building for generated source text.

use vstd::prelude::*;

verus! {

/// The UTF-8 bytes of a text fragment.
pub open spec fn utf8(text: &str) -> Seq<u8> {
    vstd::utf8::encode_utf8(text@)
}

/// The ASCII digits of `value` in base ten.
pub open spec fn decimal_bytes(value: nat) -> Seq<u8>
    decreases value,
{
    if value < 10 {
        seq![(value + 48) as u8]
    } else {
        decimal_bytes(value / 10).push(((value % 10) + 48) as u8)
    }
}

/// Appends `piece` to `out`.
pub fn append(out: &mut Vec<u8>, piece: &[u8])
    ensures
        final(out)@ == old(out)@ + piece@,
{
    let ghost start = out@;
    let mut index: usize = 0;
    while index < piece.len()
        invariant
            index <= piece@.len(),
            out@ == start + piece@.take(index as int),
        decreases piece@.len() - index,
    {
        out.push(piece[index]);
        proof {
            assert(out@ =~= start + piece@.take(index + 1));
        }
        index = index + 1;
    }
    proof {
        assert(piece@.take(piece@.len() as int) =~= piece@);
    }
}

/// Appends the UTF-8 bytes of `piece` to `out`.
pub fn append_text(out: &mut Vec<u8>, piece: &str)
    ensures
        final(out)@ == old(out)@ + utf8(piece),
{
    append(out, piece.as_bytes());
}

/// Appends the base-ten digits of `value` to `out`.
pub fn append_decimal(out: &mut Vec<u8>, value: usize)
    ensures
        final(out)@ == old(out)@ + decimal_bytes(value as nat),
    decreases value,
{
    let ghost start = out@;
    if value >= 10 {
        append_decimal(out, value / 10);
    }
    out.push(((value % 10) + 48) as u8);
    proof {
        if value >= 10 {
            assert(out@ =~= start + decimal_bytes(value as nat));
        } else {
            assert(out@ =~= start + decimal_bytes(value as nat));
        }
    }
}

/// Appends the base-ten digits of a 128-bit `value` to `out`.
pub fn append_wide_decimal(out: &mut Vec<u8>, value: u128)
    ensures
        final(out)@ == old(out)@ + decimal_bytes(value as nat),
    decreases value,
{
    let ghost start = out@;
    if value >= 10 {
        append_wide_decimal(out, value / 10);
    }
    out.push(((value % 10) + 48) as u8);
    proof {
        assert(out@ =~= start + decimal_bytes(value as nat));
    }
}

/// Whether `byte` is an ASCII letter, digit or underscore.
pub open spec fn is_word_byte(byte: u8) -> bool {
    (97 <= byte && byte <= 122) || (65 <= byte && byte <= 90) || (48 <= byte && byte <= 57) || byte == 95
}

/// Keywords are spelled with letters and underscores only.
pub proof fn lemma_keyword_bytes(word: Seq<u8>)
    requires
        super::words::is_keyword(word),
    ensures
        forall|index: int| 0 <= index < word.len() ==> is_word_byte(#[trigger] word[index]),
{
}

/// The characters of ASCII bytes.
pub open spec fn ascii_chars(bytes: Seq<u8>) -> Seq<char> {
    bytes.map_values(|byte: u8| byte as char)
}

/// The one-character text of a letter, digit or underscore.
fn word_byte_text(byte: u8) -> (text: &'static str)
    requires
        is_word_byte(byte),
    ensures
        text@ == seq![byte as char],
{
    match byte {
        97 => {
            proof {
                reveal_strlit("a");
            }
            "a"
        },
        98 => {
            proof {
                reveal_strlit("b");
            }
            "b"
        },
        99 => {
            proof {
                reveal_strlit("c");
            }
            "c"
        },
        100 => {
            proof {
                reveal_strlit("d");
            }
            "d"
        },
        101 => {
            proof {
                reveal_strlit("e");
            }
            "e"
        },
        102 => {
            proof {
                reveal_strlit("f");
            }
            "f"
        },
        103 => {
            proof {
                reveal_strlit("g");
            }
            "g"
        },
        104 => {
            proof {
                reveal_strlit("h");
            }
            "h"
        },
        105 => {
            proof {
                reveal_strlit("i");
            }
            "i"
        },
        106 => {
            proof {
                reveal_strlit("j");
            }
            "j"
        },
        107 => {
            proof {
                reveal_strlit("k");
            }
            "k"
        },
        108 => {
            proof {
                reveal_strlit("l");
            }
            "l"
        },
        109 => {
            proof {
                reveal_strlit("m");
            }
            "m"
        },
        110 => {
            proof {
                reveal_strlit("n");
            }
            "n"
        },
        111 => {
            proof {
                reveal_strlit("o");
            }
            "o"
        },
        112 => {
            proof {
                reveal_strlit("p");
            }
            "p"
        },
        113 => {
            proof {
                reveal_strlit("q");
            }
            "q"
        },
        114 => {
            proof {
                reveal_strlit("r");
            }
            "r"
        },
        115 => {
            proof {
                reveal_strlit("s");
            }
            "s"
        },
        116 => {
            proof {
                reveal_strlit("t");
            }
            "t"
        },
        117 => {
            proof {
                reveal_strlit("u");
            }
            "u"
        },
        118 => {
            proof {
                reveal_strlit("v");
            }
            "v"
        },
        119 => {
            proof {
                reveal_strlit("w");
            }
            "w"
        },
        120 => {
            proof {
                reveal_strlit("x");
            }
            "x"
        },
        121 => {
            proof {
                reveal_strlit("y");
            }
            "y"
        },
        122 => {
            proof {
                reveal_strlit("z");
            }
            "z"
        },
        65 => {
            proof {
                reveal_strlit("A");
            }
            "A"
        },
        66 => {
            proof {
                reveal_strlit("B");
            }
            "B"
        },
        67 => {
            proof {
                reveal_strlit("C");
            }
            "C"
        },
        68 => {
            proof {
                reveal_strlit("D");
            }
            "D"
        },
        69 => {
            proof {
                reveal_strlit("E");
            }
            "E"
        },
        70 => {
            proof {
                reveal_strlit("F");
            }
            "F"
        },
        71 => {
            proof {
                reveal_strlit("G");
            }
            "G"
        },
        72 => {
            proof {
                reveal_strlit("H");
            }
            "H"
        },
        73 => {
            proof {
                reveal_strlit("I");
            }
            "I"
        },
        74 => {
            proof {
                reveal_strlit("J");
            }
            "J"
        },
        75 => {
            proof {
                reveal_strlit("K");
            }
            "K"
        },
        76 => {
            proof {
                reveal_strlit("L");
            }
            "L"
        },
        77 => {
            proof {
                reveal_strlit("M");
            }
            "M"
        },
        78 => {
            proof {
                reveal_strlit("N");
            }
            "N"
        },
        79 => {
            proof {
                reveal_strlit("O");
            }
            "O"
        },
        80 => {
            proof {
                reveal_strlit("P");
            }
            "P"
        },
        81 => {
            proof {
                reveal_strlit("Q");
            }
            "Q"
        },
        82 => {
            proof {
                reveal_strlit("R");
            }
            "R"
        },
        83 => {
            proof {
                reveal_strlit("S");
            }
            "S"
        },
        84 => {
            proof {
                reveal_strlit("T");
            }
            "T"
        },
        85 => {
            proof {
                reveal_strlit("U");
            }
            "U"
        },
        86 => {
            proof {
                reveal_strlit("V");
            }
            "V"
        },
        87 => {
            proof {
                reveal_strlit("W");
            }
            "W"
        },
        88 => {
            proof {
                reveal_strlit("X");
            }
            "X"
        },
        89 => {
            proof {
                reveal_strlit("Y");
            }
            "Y"
        },
        90 => {
            proof {
                reveal_strlit("Z");
            }
            "Z"
        },
        48 => {
            proof {
                reveal_strlit("0");
            }
            "0"
        },
        49 => {
            proof {
                reveal_strlit("1");
            }
            "1"
        },
        50 => {
            proof {
                reveal_strlit("2");
            }
            "2"
        },
        51 => {
            proof {
                reveal_strlit("3");
            }
            "3"
        },
        52 => {
            proof {
                reveal_strlit("4");
            }
            "4"
        },
        53 => {
            proof {
                reveal_strlit("5");
            }
            "5"
        },
        54 => {
            proof {
                reveal_strlit("6");
            }
            "6"
        },
        55 => {
            proof {
                reveal_strlit("7");
            }
            "7"
        },
        56 => {
            proof {
                reveal_strlit("8");
            }
            "8"
        },
        57 => {
            proof {
                reveal_strlit("9");
            }
            "9"
        },
        _ => {
            proof {
                reveal_strlit("_");
            }
            "_"
        },
    }
}

/// Appends the characters of a word made of letters, digits and
/// underscores to `out`.
pub fn append_word(out: &mut String, word: &[u8])
    requires
        forall|index: int| 0 <= index < word@.len() ==> is_word_byte(#[trigger] word@[index]),
    ensures
        final(out)@ == old(out)@ + ascii_chars(word@),
{
    let ghost start = out@;
    let mut index: usize = 0;
    while index < word.len()
        invariant
            index <= word@.len(),
            forall|k: int| 0 <= k < word@.len() ==> is_word_byte(#[trigger] word@[k]),
            out@ == start + ascii_chars(word@.take(index as int)),
        decreases word@.len() - index,
    {
        out.append(word_byte_text(word[index]));
        proof {
            assert(ascii_chars(word@.take(index + 1)) =~= ascii_chars(word@.take(index as int)).push(
                word@[index as int] as char,
            ));
            assert(out@ =~= start + ascii_chars(word@.take(index + 1)));
        }
        index = index + 1;
    }
    proof {
        assert(word@.take(word@.len() as int) =~= word@);
    }
}

/// The number that a sequence of ASCII decimal digits spells.
pub open spec fn digits_value(digits: Seq<u8>) -> int
    decreases digits.len(),
{
    if digits.len() == 0 {
        0
    } else {
        digits_value(digits.drop_last()) * 10 + (digits.last() - 48)
    }
}

/// The base-ten digits of a number spell that number back, are all ASCII
/// digits, and start with a non-zero digit unless the number is zero.
pub proof fn lemma_decimal_bytes_spell(value: nat)
    ensures
        digits_value(decimal_bytes(value)) == value,
        decimal_bytes(value).len() >= 1,
        forall|index: int| 0 <= index < decimal_bytes(value).len() ==> 48 <= #[trigger] decimal_bytes(value)[index] <= 57,
        value > 0 ==> decimal_bytes(value)[0] != 48,
    decreases value,
{
    if value >= 10 {
        lemma_decimal_bytes_spell(value / 10);
        let prefix = decimal_bytes(value / 10);
        assert(decimal_bytes(value).drop_last() =~= prefix);
        assert(decimal_bytes(value)[0] == prefix[0]);
        assert(value == (value / 10) * 10 + value % 10);
        assert(decimal_bytes(value).last() - 48 == value % 10);
        assert(digits_value(decimal_bytes(value)) == digits_value(prefix) * 10 + (decimal_bytes(value).last()
            - 48));
    } else {
        let digits = decimal_bytes(value);
        assert(digits.drop_last() =~= Seq::<u8>::empty());
        assert(digits_value(digits) == digits_value(digits.drop_last()) * 10 + (digits.last() - 48));
        assert(digits_value(Seq::<u8>::empty()) == 0);
    }
}

} // verus!
