//! The textual form of the intermediate representation, as far as the
//! compiler writes it itself.

use crate::ir::{AddressSpace, IrType};
use vstd::prelude::*;

verus! {

/// The character of a decimal digit.
pub open spec fn digit_char(digit: nat) -> char {
    if digit == 0 {
        '0'
    } else if digit == 1 {
        '1'
    } else if digit == 2 {
        '2'
    } else if digit == 3 {
        '3'
    } else if digit == 4 {
        '4'
    } else if digit == 5 {
        '5'
    } else if digit == 6 {
        '6'
    } else if digit == 7 {
        '7'
    } else if digit == 8 {
        '8'
    } else {
        '9'
    }
}

/// A number in decimal digits, without leading zeros.
pub open spec fn decimal_text(n: nat) -> Seq<char>
    decreases n,
{
    if n < 10 {
        seq![digit_char(n)]
    } else {
        decimal_text(n / 10).push(digit_char(n % 10))
    }
}

/// The spelling of a type: `void`, `i` and the width, `float`, `double`,
/// and for a pointer the spelling of what it points to, the address space
/// unless it is the generic one, and `*`.
pub open spec fn type_text(ir: IrType) -> Seq<char>
    decreases ir,
{
    match ir {
        IrType::Void => "void"@,
        IrType::Int(width) => "i"@ + decimal_text(width as nat),
        IrType::Float => "float"@,
        IrType::Double => "double"@,
        IrType::Pointer(inner, space) => match space {
            AddressSpace::Generic => type_text(*inner) + "*"@,
            _ => type_text(*inner) + " addrspace("@ + decimal_text(space.spec_code() as nat)
                + ")*"@,
        },
    }
}

/// A name in which every `.` is replaced by `_`.
pub open spec fn legal_name(name: Seq<char>) -> Seq<char> {
    Seq::new(
        name.len(),
        |i: int|
            if name[i] == '.' {
                '_'
            } else {
                name[i]
            },
    )
}

/// The text of one decimal digit.
fn digit_text(digit: u32) -> (text: &'static str)
    requires
        digit < 10,
    ensures
        text@ == seq![digit_char(digit as nat)],
{
    proof {
        reveal_strlit("0");
        reveal_strlit("1");
        reveal_strlit("2");
        reveal_strlit("3");
        reveal_strlit("4");
        reveal_strlit("5");
        reveal_strlit("6");
        reveal_strlit("7");
        reveal_strlit("8");
        reveal_strlit("9");
    }
    let text = if digit == 0 {
        "0"
    } else if digit == 1 {
        "1"
    } else if digit == 2 {
        "2"
    } else if digit == 3 {
        "3"
    } else if digit == 4 {
        "4"
    } else if digit == 5 {
        "5"
    } else if digit == 6 {
        "6"
    } else if digit == 7 {
        "7"
    } else if digit == 8 {
        "8"
    } else {
        "9"
    };
    assert(text@ =~= seq![digit_char(digit as nat)]);
    text
}

/// Writes `n` in decimal digits.
pub fn decimal(n: u32) -> (text: String)
    ensures
        text@ == decimal_text(n as nat),
    decreases n,
{
    if n < 10 {
        String::from_str(digit_text(n))
    } else {
        let mut text = decimal(n / 10);
        text.append(digit_text(n % 10));
        assert(text@ =~= decimal_text(n as nat));
        text
    }
}

/// Spells a type.
pub fn print_type(ir: &IrType) -> (text: String)
    ensures
        text@ == type_text(*ir),
    decreases ir,
{
    match ir {
        IrType::Void => String::from_str("void"),
        IrType::Int(width) => {
            let mut text = String::from_str("i");
            text.append(decimal(*width).as_str());
            text
        },
        IrType::Float => String::from_str("float"),
        IrType::Double => String::from_str("double"),
        IrType::Pointer(inner, space) => {
            let mut text = print_type(&**inner);
            match space {
                AddressSpace::Generic => {
                    text.append("*");
                },
                _ => {
                    text.append(" addrspace(");
                    text.append(decimal(space.code()).as_str());
                    text.append(")*");
                },
            }
            text
        },
    }
}

/// Replaces every `.` of a name, which the target does not accept in an
/// identifier, by `_`.
pub fn rename_illegal(name: &String) -> (renamed: String)
    ensures
        renamed@ == legal_name(name@),
{
    let text = name.as_str();
    let len = text.unicode_len();
    let mut renamed = String::new();
    let mut at: usize = 0;
    proof {
        reveal_strlit("_");
    }
    while at < len
        invariant
            at <= len,
            len == text@.len(),
            text@ == name@,
            "_"@ == seq!['_'],
            renamed@ == legal_name(name@).take(at as int),
        decreases len - at,
    {
        if text.get_char(at) == '.' {
            renamed.append("_");
        } else {
            renamed.append(text.substring_char(at, at + 1));
        }
        assert(renamed@ =~= legal_name(name@).take(at as int + 1));
        at += 1;
    }
    assert(renamed@ =~= legal_name(name@));
    renamed
}

} // verus!
