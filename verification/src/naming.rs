//! Names of quick saves and automatic saves.
//!
//! A generated name is a tag followed by six groups of symbols, one group
//! for each of year, month, day, hour, minute and second. It depends on
//! nothing but the moment it is made from.
use vstd::prelude::*;
use vstd::string::*;
use crate::text::{has_prefix, starts_with};

verus! {

/// A moment of local time, as six numbers.
#[derive(Debug, Clone, Copy, PartialEq, Eq, Structural)]
pub struct Moment {
    pub year: i32,
    pub month: u32,
    pub day: u32,
    pub hour: u32,
    pub minute: u32,
    pub second: u32,
}

/// The tag in front of the name of an automatic save.
pub open spec fn auto_tag() -> Seq<char> {
    seq!['a', 's', '_']
}

/// The tag in front of the name of a quick save made by hand.
pub open spec fn quick_tag() -> Seq<char> {
    seq!['q', 's', '_']
}

/// The symbol for a digit below 62: `a` to `z`, then `A` to `Z`, then `0` to `9`.
pub open spec fn symbol(digit: int) -> char {
    if digit < 26 {
        (97 + digit) as char
    } else if digit < 52 {
        (65 + digit - 26) as char
    } else {
        (48 + digit - 52) as char
    }
}

/// The group of symbols for one number. Only the number's last two decimal
/// digits count: nothing for 0, one symbol up to 61, `a` for 62, and above
/// that the symbol of the number less 62, twice.
pub open spec fn encode(value: int) -> Seq<char> {
    let r = value % 100;
    if r == 0 {
        Seq::empty()
    } else if r < 62 {
        seq![symbol(r)]
    } else if r == 62 {
        seq![symbol(0)]
    } else {
        seq![symbol(r - 62), symbol(r - 62)]
    }
}

/// The number that stands for a year: its last two digits, and for a year
/// before 0 the 32-bit pattern of the negative remainder.
pub open spec fn year_number(year: int) -> int {
    if year >= 0 {
        year % 100
    } else if (-year) % 100 == 0 {
        0
    } else {
        0x1_0000_0000 - (-year) % 100
    }
}

/// The name generated for `moment`.
pub open spec fn quick_name(moment: Moment, is_auto_save: bool) -> Seq<char> {
    (if is_auto_save {
        auto_tag()
    } else {
        quick_tag()
    }) + encode(year_number(moment.year as int)) + encode(moment.month as int) + encode(
        moment.day as int,
    ) + encode(moment.hour as int) + encode(moment.minute as int) + encode(moment.second as int)
}

/// Whether a name carries the tag of automatic saves.
pub open spec fn is_auto_name(name: Seq<char>) -> bool {
    starts_with(name, auto_tag())
}

/// The symbol for `digit`.
pub fn symbol_of(digit: u8) -> (c: char)
    requires
        digit < 62,
    ensures
        c == symbol(digit as int),
{
    if digit < 26 {
        (digit + 97u8) as char
    } else if digit < 52 {
        (digit - 26u8 + 65u8) as char
    } else {
        (digit - 52u8 + 48u8) as char
    }
}

/// Appends to `hashed` the group of symbols for `src`.
pub fn hash(src: u32, hashed: &mut String)
    ensures
        final(hashed)@ == old(hashed)@ + encode(src as int),
{
    let mut rest: u32 = src % 100;
    let ghost start = hashed@;
    let ghost first = rest;
    let mut round: u8 = 0;
    while rest > 0
        invariant_except_break
            round <= 1,
            first == src % 100,
            round == 0 ==> rest == first && hashed@ == start,
            round == 1 ==> first >= 62 && rest == first - 62 && hashed@ == start.push(
                symbol(first - 62),
            ),
        ensures
            hashed@ == start + encode(src as int),
        decreases 2 - round,
    {
        let digit: u8 = (rest % 62) as u8;
        hashed.push(symbol_of(digit));
        if rest < 62 {
            assert(hashed@ =~= start + encode(src as int));
            break;
        }
        rest -= 62;
        round += 1;
    }
    assert(hashed@ =~= start + encode(src as int));
}

/// The number that stands for `year` in a generated name.
pub fn year_component(year: i32) -> (n: u32)
    ensures
        n == year_number(year as int),
{
    if year >= 0 {
        (year % 100) as u32
    } else {
        let back: i64 = -(year as i64);
        let r: i64 = back % 100;
        if r == 0 {
            0
        } else {
            (0x1_0000_0000i64 - r) as u32
        }
    }
}

/// The name of a quick save made at `moment`: the tag `as_` for an automatic
/// save and `qs_` otherwise, then the groups for year, month, day, hour,
/// minute and second.
pub fn quick_save_name(moment: &Moment, is_auto_save: bool) -> (name: String)
    ensures
        name@ == quick_name(*moment, is_auto_save),
{
    proof {
        reveal_strlit("as_");
        reveal_strlit("qs_");
    }
    let mut name = String::from_str(
        if is_auto_save {
            "as_"
        } else {
            "qs_"
        },
    );
    assert(name@ =~= if is_auto_save {
        auto_tag()
    } else {
        quick_tag()
    });
    hash(year_component(moment.year), &mut name);
    hash(moment.month, &mut name);
    hash(moment.day, &mut name);
    hash(moment.hour, &mut name);
    hash(moment.minute, &mut name);
    hash(moment.second, &mut name);
    name
}

/// Whether `name` carries the tag of automatic saves.
pub fn is_auto_save_name(name: &str) -> (auto: bool)
    ensures
        auto == is_auto_name(name@),
{
    proof {
        reveal_strlit("as_");
    }
    assert("as_"@ =~= auto_tag());
    has_prefix(name, "as_")
}

} // verus!
