//! The general properties the renderer guarantees, stated and proved over
//! the same spec functions its contracts use.
use crate::fields::{FieldValue, PrimitiveFieldValue};
use crate::numfmt::{spec_digit, spec_digits, spec_pad16, DisplayBase};
use crate::render::{
    array_parts, group_parts, present_groups, spec_fmt_fv, spec_fmt_pfv, spec_fmt_unsigned,
    spec_fmt_signed, spec_group, spec_join,
};
use vstd::prelude::*;

verus! {

/// Whether `c` is one of the digit characters of base `radix`.
pub open spec fn is_base_digit(c: char, radix: nat) -> bool {
    exists|d: nat| d < radix && c == spec_digit(d)
}

/// Every character of a digit string is a digit of its base.
pub proof fn lemma_digits_are_base_digits(v: nat, radix: nat)
    requires
        2 <= radix,
    ensures
        forall|i: int|
            0 <= i < spec_digits(v, radix).len() ==> is_base_digit(
                #[trigger] spec_digits(v, radix)[i],
                radix,
            ),
    decreases v,
{
    if v < radix {
        assert(spec_digits(v, radix)[0] == spec_digit(v));
        assert(is_base_digit(spec_digit(v), radix)) by {
            assert(v < radix && spec_digit(v) == spec_digit(v));
        }
    } else {
        lemma_digits_are_base_digits(v / radix, radix);
        let d = (v % radix) as nat;
        assert(d < radix);
        assert(is_base_digit(spec_digit(d), radix)) by {
            assert(d < radix && spec_digit(d) == spec_digit(d));
        }
        assert forall|i: int| 0 <= i < spec_digits(v, radix).len() implies is_base_digit(
            spec_digits(v, radix)[i],
            radix,
        ) by {
            if i < spec_digits(v / radix, radix).len() {
                assert(spec_digits(v, radix)[i] == spec_digits(v / radix, radix)[i]);
            } else {
                assert(spec_digits(v, radix)[i] == spec_digit(d));
            }
        }
    }
}

/// Law: rendering an integer is a function of its value and display base
/// alone: decimal adds no prefix, binary carries `0b`, octal `0o` and
/// hexadecimal `0x`, hexadecimal digits are uppercase, and a signed value
/// renders its sign and magnitude in decimal but its 64-bit bit pattern in
/// the prefixed bases.
pub proof fn lemma_display_base_rendering(v: u64, w: i64)
    ensures
        spec_fmt_unsigned(v, DisplayBase::Decimal) == spec_digits(v as nat, 10),
        spec_fmt_unsigned(v, DisplayBase::Binary) == "0b"@ + spec_digits(v as nat, 2),
        spec_fmt_unsigned(v, DisplayBase::Octal) == "0o"@ + spec_digits(v as nat, 8),
        spec_fmt_unsigned(v, DisplayBase::Hexadecimal) == "0x"@ + spec_digits(v as nat, 16),
        forall|i: int|
            0 <= i < spec_digits(v as nat, 16).len() ==> is_upper_hex_digit(
                #[trigger] spec_digits(v as nat, 16)[i],
            ),
        w >= 0 ==> spec_fmt_signed(w, DisplayBase::Decimal) == spec_digits(w as nat, 10),
        w < 0 ==> spec_fmt_signed(w, DisplayBase::Decimal) == "-"@ + spec_digits(
            (-(w as int)) as nat,
            10,
        ),
        spec_fmt_signed(w, DisplayBase::Binary) == "0b"@ + spec_digits((w as u64) as nat, 2),
        spec_fmt_signed(w, DisplayBase::Octal) == "0o"@ + spec_digits((w as u64) as nat, 8),
        spec_fmt_signed(w, DisplayBase::Hexadecimal) == "0x"@ + spec_digits((w as u64) as nat, 16),
{
    reveal_strlit("");
    assert(""@ + spec_digits(v as nat, 10) =~= spec_digits(v as nat, 10));
    lemma_digits_are_base_digits(v as nat, 16);
    assert forall|i: int| 0 <= i < spec_digits(v as nat, 16).len() implies is_upper_hex_digit(
        spec_digits(v as nat, 16)[i],
    ) by {
        assert(is_base_digit(spec_digits(v as nat, 16)[i], 16));
        let d = choose|d: nat| d < 16 && spec_digits(v as nat, 16)[i] == spec_digit(d);
        assert(is_upper_hex_digit(spec_digit(d)));
    }
}

/// Whether `c` is a decimal digit or an uppercase hexadecimal digit letter.
pub open spec fn is_upper_hex_digit(c: char) -> bool {
    ('0' as u32 <= c as u32 && c as u32 <= '9' as u32) || ('A' as u32 <= c as u32 && c as u32
        <= 'F' as u32)
}

/// Ten to the `k`-th power.
pub open spec fn pow10(k: nat) -> nat
    decreases k,
{
    if k == 0 {
        1
    } else {
        10 * pow10((k - 1) as nat)
    }
}

/// A value below `10^k` has at most `k` decimal digits.
pub proof fn lemma_digits_len_pow10(v: nat, k: nat)
    requires
        1 <= k,
        v < pow10(k),
    ensures
        spec_digits(v, 10).len() <= k,
    decreases k,
{
    if v < 10 {
    } else {
        assert(pow10(k) == 10 * pow10((k - 1) as nat));
        assert(v / 10 < pow10((k - 1) as nat)) by {
            vstd::arithmetic::div_mod::lemma_multiply_divide_lt(
                v as int,
                10,
                pow10((k - 1) as nat) as int,
            );
        }
        lemma_digits_len_pow10(v / 10, (k - 1) as nat);
    }
}

/// Law: for every timestamp below `10^16` the rendered timestamp field is
/// exactly 16 characters, all of them decimal digits. (A timestamp of 17 or
/// more decimal digits renders in full instead and is the one exception.)
pub proof fn lemma_timestamp_width(v: u64)
    requires
        v < 10000000000000000,
    ensures
        spec_pad16(v).len() == 16,
        forall|i: int| 0 <= i < 16 ==> is_base_digit(#[trigger] spec_pad16(v)[i], 10),
{
    reveal_with_fuel(pow10, 17);
    assert(pow10(16) == 10000000000000000);
    lemma_digits_len_pow10(v as nat, 16);
    lemma_digits_are_base_digits(v as nat, 10);
    let d = spec_digits(v as nat, 10);
    if d.len() >= 16 {
    } else {
        assert forall|i: int| 0 <= i < 16 implies is_base_digit(spec_pad16(v)[i], 10) by {
            if i < 16 - d.len() {
                assert(spec_pad16(v)[i] == '0');
                assert('0' == spec_digit(0));
                assert(0 < 10nat && '0' == spec_digit(0));
            } else {
                assert(spec_pad16(v)[i] == d[i - (16 - d.len())]);
            }
        }
    }
}

/// The summed length of a sequence of texts.
pub open spec fn total_len(parts: Seq<Seq<char>>) -> nat
    decreases parts.len(),
{
    if parts.len() == 0 {
        0
    } else {
        parts[0].len() + total_len(parts.drop_first())
    }
}

/// Joining `n >= 1` parts inserts the separator exactly `n - 1` times.
pub proof fn lemma_join_len(parts: Seq<Seq<char>>, sep: Seq<char>)
    requires
        parts.len() >= 1,
    ensures
        spec_join(parts, sep).len() == total_len(parts) + (parts.len() as int - 1) * (
        sep.len() as int),
    decreases parts.len(),
{
    if parts.len() == 1 {
        assert(total_len(parts.drop_first()) == 0);
    } else {
        lemma_join_len(parts.drop_first(), sep);
        let n = parts.len() as int;
        let s = sep.len() as int;
        assert((n - 2) * s + s == (n - 1) * s) by (nonlinear_arith);
    }
}

/// Law: a field group with zero entries contributes no text at all; a group
/// with `n >= 1` entries is its entry texts joined by `", "` — so exactly
/// `n - 1` separators, two characters each — wrapped in `"{ "` and `" }"`.
pub proof fn lemma_group_shape(entries: Seq<(String, FieldValue)>)
    ensures
        entries.len() == 0 ==> spec_group(entries) == Seq::<char>::empty(),
        entries.len() >= 1 ==> spec_group(entries) == "{ "@ + spec_join(
            group_parts(entries),
            ", "@,
        ) + " }"@,
        entries.len() >= 1 ==> spec_join(group_parts(entries), ", "@).len() == total_len(
            group_parts(entries),
        ) + (entries.len() as int - 1) * 2,
{
    if entries.len() >= 1 {
        reveal_strlit(", ");
        lemma_join_len(group_parts(entries), ", "@);
    }
}

/// Law: a group with zero entries leaves no trace on the composed line:
/// only the nonempty groups are joined into the line's content, and with
/// all four groups empty the content is empty.
pub proof fn lemma_empty_groups_leave_no_trace(
    pc: Seq<(String, FieldValue)>,
    cc: Seq<(String, FieldValue)>,
    sc: Seq<(String, FieldValue)>,
    pl: Seq<(String, FieldValue)>,
)
    ensures
        present_groups(pc, cc, sc, pl).len() == (if pc.len() == 0 {
            0int
        } else {
            1int
        }) + (if cc.len() == 0 {
            0int
        } else {
            1int
        }) + (if sc.len() == 0 {
            0int
        } else {
            1int
        }) + (if pl.len() == 0 {
            0int
        } else {
            1int
        }),
        pc.len() == 0 && cc.len() == 0 && sc.len() == 0 && pl.len() == 0 ==> spec_join(
            present_groups(pc, cc, sc, pl),
            ", "@,
        ) == Seq::<char>::empty(),
{
}

/// Law: an array renders as its elements in index order, joined by `", "`
/// inside `"[ "`/`" ]"`, each element labelled with its zero-based index.
pub proof fn lemma_array_rendering(fv: FieldValue)
    requires
        fv is Array,
    ensures
        spec_fmt_fv(fv) == "[ "@ + spec_join(array_parts(fv->Array_0@), ", "@) + " ]"@,
        array_parts(fv->Array_0@).len() == fv->Array_0@.len(),
        forall|i: int|
            0 <= i < fv->Array_0@.len() ==> #[trigger] array_parts(fv->Array_0@)[i] == "["@
                + spec_digits(i as nat, 10) + "] = "@ + spec_fmt_pfv(fv->Array_0@[i]),
{
}

/// Law: rendering is pure — any two renderings of the same field value are
/// character-for-character identical, since each is pinned to the one spec
/// text of that value.
pub proof fn lemma_formatting_is_pure(a: Seq<char>, b: Seq<char>, fv: FieldValue)
    requires
        a == spec_fmt_fv(fv),
        b == spec_fmt_fv(fv),
    ensures
        a == b,
{
}

/// Law: an enumeration renders its label segment exactly when a label is
/// present, and the container value, in its display base, appears either
/// way.
pub proof fn lemma_enumeration_label(v: u64, b: DisplayBase, label: Option<String>)
    ensures
        label matches Some(l) ==> spec_fmt_pfv(PrimitiveFieldValue::Enumeration(v, b, label))
            == "( \""@ + l@ + "\" : container = "@ + spec_fmt_unsigned(v, b) + " )"@,
        label is None ==> spec_fmt_pfv(PrimitiveFieldValue::Enumeration(v, b, label))
            == "( container = "@ + spec_fmt_unsigned(v, b) + " )"@,
{
}

} // verus!
