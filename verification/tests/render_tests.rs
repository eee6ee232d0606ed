use ctf_print::{
    fmt_fv, fmt_pfv, fmt_signed, fmt_unsigned, pad16, render_event, render_group, DisplayBase,
    Event, FieldValue, PacketContext, PacketHeader, PrimitiveFieldValue,
};

fn entry(name: &str, v: FieldValue) -> (String, FieldValue) {
    (name.to_owned(), v)
}

fn uint(v: u64, base: DisplayBase) -> FieldValue {
    FieldValue::Primitive(PrimitiveFieldValue::UnsignedInteger(v, base))
}

#[test]
fn unsigned_bases_have_fixed_prefixes() {
    assert_eq!(fmt_unsigned(255, DisplayBase::Decimal), "255");
    assert_eq!(fmt_unsigned(255, DisplayBase::Hexadecimal), "0xFF");
    assert_eq!(fmt_unsigned(8, DisplayBase::Octal), "0o10");
    assert_eq!(fmt_unsigned(5, DisplayBase::Binary), "0b101");
    assert_eq!(fmt_unsigned(0, DisplayBase::Decimal), "0");
    assert_eq!(fmt_unsigned(0, DisplayBase::Hexadecimal), "0x0");
    assert_eq!(fmt_unsigned(u64::MAX, DisplayBase::Decimal), "18446744073709551615");
    assert_eq!(fmt_unsigned(u64::MAX, DisplayBase::Hexadecimal), "0xFFFFFFFFFFFFFFFF");
}

#[test]
fn hexadecimal_digits_are_uppercase() {
    assert_eq!(fmt_unsigned(0xABCDEF, DisplayBase::Hexadecimal), "0xABCDEF");
    assert_eq!(fmt_unsigned(0xdeadbeef, DisplayBase::Hexadecimal), "0xDEADBEEF");
}

#[test]
fn signed_decimal_keeps_sign_prefixed_bases_use_bit_pattern() {
    assert_eq!(fmt_signed(42, DisplayBase::Decimal), "42");
    assert_eq!(fmt_signed(-5, DisplayBase::Decimal), "-5");
    assert_eq!(fmt_signed(i64::MIN, DisplayBase::Decimal), "-9223372036854775808");
    assert_eq!(fmt_signed(i64::MAX, DisplayBase::Decimal), "9223372036854775807");
    assert_eq!(fmt_signed(-1, DisplayBase::Hexadecimal), "0xFFFFFFFFFFFFFFFF");
    assert_eq!(fmt_signed(-1, DisplayBase::Octal), "0o1777777777777777777777");
    assert_eq!(fmt_signed(5, DisplayBase::Binary), "0b101");
    assert_eq!(fmt_signed(-2, DisplayBase::Hexadecimal), "0xFFFFFFFFFFFFFFFE");
}

#[test]
fn timestamp_pads_to_sixteen_digits() {
    assert_eq!(pad16(0), "0000000000000000");
    assert_eq!(pad16(1), "0000000000000001");
    assert_eq!(pad16(9999999999999999), "9999999999999999");
    // A timestamp of more than 16 decimal digits renders in full.
    assert_eq!(pad16(u64::MAX), "18446744073709551615");
}

#[test]
fn empty_group_renders_empty() {
    assert_eq!(render_group(&vec![]), "");
}

#[test]
fn group_has_one_separator_less_than_entries() {
    let one = vec![entry("a", uint(1, DisplayBase::Decimal))];
    assert_eq!(render_group(&one), "{ a = 1 }");
    let two = vec![
        entry("a", uint(1, DisplayBase::Decimal)),
        entry("b", uint(2, DisplayBase::Decimal)),
    ];
    assert_eq!(render_group(&two), "{ a = 1, b = 2 }");
    let three = vec![
        entry("a", uint(1, DisplayBase::Decimal)),
        entry("b", uint(2, DisplayBase::Decimal)),
        entry("c", uint(3, DisplayBase::Decimal)),
    ];
    let rendered = render_group(&three);
    assert_eq!(rendered, "{ a = 1, b = 2, c = 3 }");
    assert_eq!(rendered.matches(", ").count(), 2);
}

#[test]
fn formatting_is_pure() {
    let v = FieldValue::Array(vec![
        PrimitiveFieldValue::UnsignedInteger(255, DisplayBase::Hexadecimal),
        PrimitiveFieldValue::Text("hi".to_owned()),
        PrimitiveFieldValue::Enumeration(1, DisplayBase::Binary, Some("ON".to_owned())),
    ]);
    assert_eq!(fmt_fv(&v), fmt_fv(&v));
}

#[test]
fn array_keeps_index_order() {
    let v = FieldValue::Array(vec![
        PrimitiveFieldValue::UnsignedInteger(10, DisplayBase::Decimal),
        PrimitiveFieldValue::UnsignedInteger(255, DisplayBase::Hexadecimal),
        PrimitiveFieldValue::SignedInteger(-1, DisplayBase::Decimal),
    ]);
    assert_eq!(fmt_fv(&v), "[ [0] = 10, [1] = 0xFF, [2] = -1 ]");
}

#[test]
fn empty_array_renders_fixed_brackets() {
    assert_eq!(fmt_fv(&FieldValue::Array(vec![])), "[  ]");
}

#[test]
fn strings_are_quoted_and_floats_pass_through() {
    assert_eq!(fmt_pfv(&PrimitiveFieldValue::Text("hello".to_owned())), "\"hello\"");
    assert_eq!(fmt_pfv(&PrimitiveFieldValue::Float32("1.5".to_owned())), "1.5");
    assert_eq!(fmt_pfv(&PrimitiveFieldValue::Float64("-2.25".to_owned())), "-2.25");
}

#[test]
fn enumeration_label_shown_iff_present() {
    let with_label = PrimitiveFieldValue::Enumeration(
        3,
        DisplayBase::Decimal,
        Some("RUNNING".to_owned()),
    );
    assert_eq!(fmt_pfv(&with_label), "( \"RUNNING\" : container = 3 )");
    let without_label = PrimitiveFieldValue::Enumeration(3, DisplayBase::Decimal, None);
    assert_eq!(fmt_pfv(&without_label), "( container = 3 )");
    let hex_label = PrimitiveFieldValue::Enumeration(
        255,
        DisplayBase::Hexadecimal,
        Some("ALL".to_owned()),
    );
    assert_eq!(fmt_pfv(&hex_label), "( \"ALL\" : container = 0xFF )");
}

#[test]
fn event_line_with_payload_only() {
    let ev = Event {
        timestamp: 1,
        name: "evt_a".to_owned(),
        common_context: vec![],
        specific_context: vec![],
        payload: vec![entry("x", uint(255, DisplayBase::Hexadecimal))],
    };
    let hdr = PacketHeader { stream_name: "s0".to_owned() };
    let ctx = PacketContext { extra_members: vec![] };
    assert_eq!(render_event(&ev, &hdr, &ctx), "[0000000000000001] evt_a @ s0: { x = 0xFF }");
}

#[test]
fn event_line_with_all_groups_empty() {
    let ev = Event {
        timestamp: 0,
        name: "tick".to_owned(),
        common_context: vec![],
        specific_context: vec![],
        payload: vec![],
    };
    let hdr = PacketHeader { stream_name: "s1".to_owned() };
    let ctx = PacketContext { extra_members: vec![] };
    assert_eq!(render_event(&ev, &hdr, &ctx), "[0000000000000000] tick @ s1: ");
}

#[test]
fn event_line_joins_nonempty_groups_in_order() {
    let ev = Event {
        timestamp: 7,
        name: "evt".to_owned(),
        common_context: vec![entry("c", uint(1, DisplayBase::Decimal))],
        specific_context: vec![],
        payload: vec![entry("p", uint(2, DisplayBase::Decimal))],
    };
    let hdr = PacketHeader { stream_name: "s".to_owned() };
    let ctx = PacketContext { extra_members: vec![entry("e", uint(3, DisplayBase::Decimal))] };
    assert_eq!(
        render_event(&ev, &hdr, &ctx),
        "[0000000000000007] evt @ s: { e = 3 }, { c = 1 }, { p = 2 }"
    );
}
