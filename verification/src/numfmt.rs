//! Integer-to-text formatting in the four display bases a trace
//! configuration can ask for: binary, octal, decimal and uppercase
//! hexadecimal.
use vstd::prelude::*;
use vstd::string::StrSliceExecFns;
use vstd::string::StringExecFns;

verus! {

/// The rendering hint carried by a numeric trace field: which base its
/// value is displayed in.
#[derive(Clone, Copy, Debug, PartialEq, Eq, Structural)]
pub enum DisplayBase {
    Binary,
    Octal,
    Decimal,
    Hexadecimal,
}

impl DisplayBase {
    /// The radix that digits are produced in for this base.
    pub open spec fn spec_radix(self) -> nat {
        match self {
            DisplayBase::Binary => 2,
            DisplayBase::Octal => 8,
            DisplayBase::Decimal => 10,
            DisplayBase::Hexadecimal => 16,
        }
    }

    /// The literal prefix that marks this base in rendered text; decimal
    /// values carry no prefix.
    pub open spec fn spec_prefix(self) -> Seq<char> {
        match self {
            DisplayBase::Binary => "0b"@,
            DisplayBase::Octal => "0o"@,
            DisplayBase::Decimal => ""@,
            DisplayBase::Hexadecimal => "0x"@,
        }
    }

    pub(crate) fn radix(self) -> (r: u64)
        ensures
            r as nat == self.spec_radix(),
    {
        match self {
            DisplayBase::Binary => 2,
            DisplayBase::Octal => 8,
            DisplayBase::Decimal => 10,
            DisplayBase::Hexadecimal => 16,
        }
    }
}

/// The character for one digit value below sixteen; hexadecimal digits are
/// uppercase.
pub open spec fn spec_digit(d: nat) -> char {
    if d == 0 {
        '0'
    } else if d == 1 {
        '1'
    } else if d == 2 {
        '2'
    } else if d == 3 {
        '3'
    } else if d == 4 {
        '4'
    } else if d == 5 {
        '5'
    } else if d == 6 {
        '6'
    } else if d == 7 {
        '7'
    } else if d == 8 {
        '8'
    } else if d == 9 {
        '9'
    } else if d == 10 {
        'A'
    } else if d == 11 {
        'B'
    } else if d == 12 {
        'C'
    } else if d == 13 {
        'D'
    } else if d == 14 {
        'E'
    } else {
        'F'
    }
}

/// The digit string of `v` in base `radix`, most significant digit first,
/// with no sign and no base prefix; zero renders as a single `'0'`.
pub open spec fn spec_digits(v: nat, radix: nat) -> Seq<char>
    recommends
        2 <= radix,
    decreases v,
    when 2 <= radix
{
    if v < radix {
        seq![spec_digit(v)]
    } else {
        proof {
            assert(v / radix < v) by (nonlinear_arith)
                requires
                    2 <= radix,
                    radix <= v,
            ;
        }
        spec_digits(v / radix, radix).push(spec_digit(v % radix))
    }
}

fn digit_str(d: u64) -> (s: &'static str)
    requires
        d < 16,
    ensures
        s@ == seq![spec_digit(d as nat)],
{
    proof {
        reveal_strlit("0");
        reveal_strlit("1");
        reveal_strlit("2");
        reveal_strlit("3");
        reveal_strlit("4");
        reveal_strlit("5");
        reveal_strlit("6");
        reveal_strlit("7");
        reveal_strlit("8");
        reveal_strlit("9");
        reveal_strlit("A");
        reveal_strlit("B");
        reveal_strlit("C");
        reveal_strlit("D");
        reveal_strlit("E");
        reveal_strlit("F");
    }
    let s = if d == 0 {
        "0"
    } else if d == 1 {
        "1"
    } else if d == 2 {
        "2"
    } else if d == 3 {
        "3"
    } else if d == 4 {
        "4"
    } else if d == 5 {
        "5"
    } else if d == 6 {
        "6"
    } else if d == 7 {
        "7"
    } else if d == 8 {
        "8"
    } else if d == 9 {
        "9"
    } else if d == 10 {
        "A"
    } else if d == 11 {
        "B"
    } else if d == 12 {
        "C"
    } else if d == 13 {
        "D"
    } else if d == 14 {
        "E"
    } else {
        "F"
    };
    proof {
        assert(s@ =~= seq![spec_digit(d as nat)]);
    }
    s
}

/// Renders the digits of `v` in base `radix`, matching `spec_digits`.
pub fn digits_to_string(v: u64, radix: u64) -> (s: String)
    requires
        radix == 2 || radix == 8 || radix == 10 || radix == 16,
    ensures
        s@ == spec_digits(v as nat, radix as nat),
    decreases v,
{
    if v < radix {
        digit_str(v).to_owned()
    } else {
        proof {
            assert(v / radix < v) by (nonlinear_arith)
                requires
                    2 <= radix,
                    radix <= v,
            ;
        }
        let rest = digits_to_string(v / radix, radix);
        rest.concat(digit_str(v % radix))
    }
}

/// The timestamp field text: the decimal digits of `v`, left-padded with
/// zeros to at least 16 characters; values of 17 or more digits render in
/// full.
pub open spec fn spec_pad16(v: u64) -> Seq<char> {
    let d = spec_digits(v as nat, 10);
    if d.len() >= 16 {
        d
    } else {
        Seq::new((16 - d.len()) as nat, |i: int| '0') + d
    }
}

/// Renders a timestamp zero-padded to 16 decimal digits.
pub fn pad16(v: u64) -> (s: String)
    ensures
        s@ == spec_pad16(v),
{
    let d = digits_to_string(v, 10);
    let n = d.as_str().unicode_len();
    if n >= 16 {
        d
    } else {
        let mut s = String::new();
        let mut k: usize = 0;
        while k < 16 - n
            invariant
                n == spec_digits(v as nat, 10).len(),
                n < 16,
                k <= 16 - n,
                s@ == Seq::new(k as nat, |i: int| '0'),
            decreases 16 - n - k,
        {
            s.append("0");
            proof {
                reveal_strlit("0");
                assert(s@ =~= Seq::new((k + 1) as nat, |i: int| '0'));
            }
            k += 1;
        }
        s.append(d.as_str());
        s
    }
}

} // verus!
