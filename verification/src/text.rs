//! Writing numbers as decimal text.

use vstd::prelude::*;
use vstd::string::StringExecFns;

verus! {

/// The character for one decimal digit.
pub open spec fn digit_char(digit: int) -> char {
    if digit == 0 {
        '0'
    } else if digit == 1 {
        '1'
    } else if digit == 2 {
        '2'
    } else if digit == 3 {
        '3'
    } else if digit == 4 {
        '4'
    } else if digit == 5 {
        '5'
    } else if digit == 6 {
        '6'
    } else if digit == 7 {
        '7'
    } else if digit == 8 {
        '8'
    } else {
        '9'
    }
}

/// The text of one decimal digit.
pub fn digit_str(digit: u64) -> (text: &'static str)
    requires
        digit < 10,
    ensures
        text@ == seq![digit_char(digit as int)],
{
    proof {
        reveal_strlit("0");
        reveal_strlit("1");
        reveal_strlit("2");
        reveal_strlit("3");
        reveal_strlit("4");
        reveal_strlit("5");
        reveal_strlit("6");
        reveal_strlit("7");
        reveal_strlit("8");
        reveal_strlit("9");
    }
    let text = if digit == 0 {
        "0"
    } else if digit == 1 {
        "1"
    } else if digit == 2 {
        "2"
    } else if digit == 3 {
        "3"
    } else if digit == 4 {
        "4"
    } else if digit == 5 {
        "5"
    } else if digit == 6 {
        "6"
    } else if digit == 7 {
        "7"
    } else if digit == 8 {
        "8"
    } else {
        "9"
    };
    assert(text@ =~= seq![digit_char(digit as int)]);
    text
}

/// A number in decimal, without leading zeros.
pub open spec fn decimal(n: nat) -> Seq<char>
    decreases n,
{
    if n < 10 {
        seq![digit_char(n as int)]
    } else {
        decimal(n / 10).push(digit_char((n % 10) as int))
    }
}

/// The last `width` decimal digits of a number, with zeros in front where it
/// has fewer.
pub open spec fn padded(n: nat, width: nat) -> Seq<char>
    decreases width,
{
    if width == 0 {
        Seq::<char>::empty()
    } else {
        padded(n / 10, (width - 1) as nat).push(digit_char((n % 10) as int))
    }
}

/// Appends `n` in decimal.
pub fn push_decimal(out: &mut String, n: u64)
    ensures
        final(out)@ == old(out)@ + decimal(n as nat),
    decreases n,
{
    if n >= 10 {
        push_decimal(out, n / 10);
    }
    out.append(digit_str(n % 10));
    assert(out@ =~= old(out)@ + decimal(n as nat));
}

/// Appends the last `width` decimal digits of `n`.
pub fn push_padded(out: &mut String, n: u64, width: u32)
    ensures
        final(out)@ == old(out)@ + padded(n as nat, width as nat),
    decreases width,
{
    if width > 0 {
        push_padded(out, n / 10, width - 1);
        out.append(digit_str(n % 10));
    }
    assert(out@ =~= old(out)@ + padded(n as nat, width as nat));
}

/// How many digits stand behind the decimal point.
#[derive(Clone, Copy, Debug, PartialEq, Eq, Structural)]
pub enum Places {
    One,
    Two,
    Three,
}

impl Places {
    /// The number of digits.
    pub open spec fn digits(self) -> nat {
        match self {
            Places::One => 1,
            Places::Two => 2,
            Places::Three => 3,
        }
    }

    /// Ten to the number of digits.
    pub open spec fn steps(self) -> nat {
        match self {
            Places::One => 10,
            Places::Two => 100,
            Places::Three => 1000,
        }
    }

    /// How many millionths make one step of the last digit.
    pub open spec fn unit(self) -> nat {
        match self {
            Places::One => 100_000,
            Places::Two => 10_000,
            Places::Three => 1_000,
        }
    }
}

/// A count of millionths in steps of the last digit shown, rounded to the
/// nearest step, a half upwards.
pub open spec fn rounded(millionths: nat, places: Places) -> nat {
    millionths / places.unit() + (if millionths % places.unit() >= places.unit() / 2 {
        1nat
    } else {
        0nat
    })
}

/// A count of millionths as a decimal number with a fixed number of digits
/// behind the point, rounded to the nearest, a half away from zero; with a
/// minus sign in front where `negative` holds.
pub open spec fn fixed(negative: bool, millionths: nat, places: Places) -> Seq<char> {
    let steps = rounded(millionths, places);
    (if negative {
        seq!['-']
    } else {
        Seq::<char>::empty()
    }) + decimal(steps / places.steps()) + seq!['.'] + padded(
        steps % places.steps(),
        places.digits(),
    )
}

/// Appends a count of millionths as a decimal number.
pub fn push_fixed(out: &mut String, negative: bool, millionths: u64, places: Places)
    ensures
        final(out)@ == old(out)@ + fixed(negative, millionths as nat, places),
{
    proof {
        reveal_strlit("-");
        reveal_strlit(".");
    }
    let (unit, steps_per_whole, width): (u64, u64, u32) = match places {
        Places::One => (100_000, 10, 1),
        Places::Two => (10_000, 100, 2),
        Places::Three => (1_000, 1000, 3),
    };
    let carry: u64 = if millionths % unit >= unit / 2 {
        1
    } else {
        0
    };
    let steps: u64 = millionths / unit + carry;
    if negative {
        out.append("-");
    }
    push_decimal(out, steps / steps_per_whole);
    out.append(".");
    push_padded(out, steps % steps_per_whole, width);
    assert(out@ =~= old(out)@ + fixed(negative, millionths as nat, places));
}

/// Appends a signed count of millionths as a decimal number.
pub fn push_fixed_signed(out: &mut String, millionths: i32, places: Places)
    ensures
        final(out)@ == old(out)@ + fixed(
            millionths < 0,
            (if millionths < 0 {
                -millionths
            } else {
                millionths as int
            }) as nat,
            places,
        ),
{
    if millionths < 0 {
        let magnitude: u64 = (-(millionths as i64)) as u64;
        push_fixed(out, true, magnitude, places);
    } else {
        push_fixed(out, false, millionths as u64, places);
    }
}

} // verus!
