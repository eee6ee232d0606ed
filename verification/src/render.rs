//! The field-value formatter and the event-line composer: a total, pure
//! mapping from decoded values to the exact text the tool prints, one line
//! per event.
use crate::fields::{Event, FieldValue, Packet, PacketContext, PacketHeader, PrimitiveFieldValue};
use crate::numfmt::{digits_to_string, pad16, spec_digits, spec_pad16, DisplayBase};
use vstd::prelude::*;
use vstd::string::StringExecFns;

verus! {

/// The text of an unsigned integer in a display base: the base's prefix,
/// then the digits in the base's radix.
pub open spec fn spec_fmt_unsigned(v: u64, base: DisplayBase) -> Seq<char> {
    base.spec_prefix() + spec_digits(v as nat, base.spec_radix())
}

/// The text of a signed integer: decimal values render sign first, then the
/// magnitude's digits; the prefixed bases render the value's 64-bit
/// two's-complement bit pattern after the prefix.
pub open spec fn spec_fmt_signed(v: i64, base: DisplayBase) -> Seq<char> {
    match base {
        DisplayBase::Decimal => if v >= 0 {
            spec_digits(v as nat, 10)
        } else {
            "-"@ + spec_digits((-(v as int)) as nat, 10)
        },
        _ => base.spec_prefix() + spec_digits((v as u64) as nat, base.spec_radix()),
    }
}

fn prefix_str(base: DisplayBase) -> (s: &'static str)
    ensures
        s@ == base.spec_prefix(),
{
    match base {
        DisplayBase::Binary => "0b",
        DisplayBase::Octal => "0o",
        DisplayBase::Decimal => "",
        DisplayBase::Hexadecimal => "0x",
    }
}

/// Renders an unsigned integer in the given display base.
pub fn fmt_unsigned(v: u64, base: DisplayBase) -> (s: String)
    ensures
        s@ == spec_fmt_unsigned(v, base),
{
    let mut s = prefix_str(base).to_owned();
    s.append(digits_to_string(v, base.radix()).as_str());
    s
}

/// Renders a signed integer in the given display base.
pub fn fmt_signed(v: i64, base: DisplayBase) -> (s: String)
    ensures
        s@ == spec_fmt_signed(v, base),
{
    match base {
        DisplayBase::Decimal => {
            if v >= 0 {
                digits_to_string(v as u64, 10)
            } else {
                let mag: u64 = if v == i64::MIN {
                    9223372036854775808
                } else {
                    (-v) as u64
                };
                let mut s = "-".to_owned();
                s.append(digits_to_string(mag, 10).as_str());
                s
            }
        },
        _ => {
            let mut s = prefix_str(base).to_owned();
            s.append(digits_to_string(v as u64, base.radix()).as_str());
            s
        },
    }
}

/// The text of one scalar field value.
pub open spec fn spec_fmt_pfv(p: PrimitiveFieldValue) -> Seq<char> {
    match p {
        PrimitiveFieldValue::UnsignedInteger(v, b) => spec_fmt_unsigned(v, b),
        PrimitiveFieldValue::SignedInteger(v, b) => spec_fmt_signed(v, b),
        PrimitiveFieldValue::Text(t) => "\""@ + t@ + "\""@,
        PrimitiveFieldValue::Float32(t) => t@,
        PrimitiveFieldValue::Float64(t) => t@,
        PrimitiveFieldValue::Enumeration(v, b, label) => match label {
            Some(l) => "( \""@ + l@ + "\" : container = "@ + spec_fmt_unsigned(v, b) + " )"@,
            None => "( container = "@ + spec_fmt_unsigned(v, b) + " )"@,
        },
    }
}

/// Renders one scalar field value.
pub fn fmt_pfv(p: &PrimitiveFieldValue) -> (s: String)
    ensures
        s@ == spec_fmt_pfv(*p),
{
    match p {
        PrimitiveFieldValue::UnsignedInteger(v, b) => fmt_unsigned(*v, *b),
        PrimitiveFieldValue::SignedInteger(v, b) => fmt_signed(*v, *b),
        PrimitiveFieldValue::Text(t) => {
            let mut s = "\"".to_owned();
            s.append(t.as_str());
            s.append("\"");
            s
        },
        PrimitiveFieldValue::Float32(t) => t.clone(),
        PrimitiveFieldValue::Float64(t) => t.clone(),
        PrimitiveFieldValue::Enumeration(v, b, label) => {
            let container = fmt_unsigned(*v, *b);
            match label {
                Some(l) => {
                    let mut s = "( \"".to_owned();
                    s.append(l.as_str());
                    s.append("\" : container = ");
                    s.append(container.as_str());
                    s.append(" )");
                    s
                },
                None => {
                    let mut s = "( container = ".to_owned();
                    s.append(container.as_str());
                    s.append(" )");
                    s
                },
            }
        },
    }
}

/// The joined text of `parts` with `sep` between consecutive parts; zero
/// parts join to the empty text.
pub open spec fn spec_join(parts: Seq<Seq<char>>, sep: Seq<char>) -> Seq<char>
    decreases parts.len(),
{
    if parts.len() == 0 {
        Seq::empty()
    } else if parts.len() == 1 {
        parts[0]
    } else {
        parts[0] + sep + spec_join(parts.drop_first(), sep)
    }
}

/// The views of a sequence of strings.
pub open spec fn seq_views(parts: Seq<String>) -> Seq<Seq<char>> {
    parts.map_values(|s: String| s@)
}

/// Joining one more part appends one separator exactly when parts were
/// already present, and never otherwise.
pub proof fn lemma_join_push(parts: Seq<Seq<char>>, sep: Seq<char>, last: Seq<char>)
    ensures
        spec_join(parts.push(last), sep) == if parts.len() == 0 {
            last
        } else {
            spec_join(parts, sep) + sep + last
        },
    decreases parts.len(),
{
    if parts.len() == 0 {
        assert(parts.push(last)[0] == last);
        assert(parts.push(last).len() == 1);
        assert(spec_join(parts.push(last), sep) == last);
    } else if parts.len() == 1 {
        assert(parts.push(last).drop_first() =~= seq![last]);
        assert(parts.push(last)[0] == parts[0]);
        assert(spec_join(seq![last], sep) == last);
        assert(spec_join(parts.push(last), sep) == spec_join(parts, sep) + sep + last);
    } else {
        lemma_join_push(parts.drop_first(), sep, last);
        assert(parts.push(last).drop_first() =~= parts.drop_first().push(last));
        assert(parts.push(last)[0] == parts[0]);
        assert(parts[0] + sep + (spec_join(parts.drop_first(), sep) + sep + last) =~= (parts[0]
            + sep + spec_join(parts.drop_first(), sep)) + sep + last);
        assert(spec_join(parts.push(last), sep) == spec_join(parts, sep) + sep + last);
    }
}

/// Joins rendered parts with a separator.
pub fn join_strings(parts: &Vec<String>, sep: &str) -> (r: String)
    ensures
        r@ == spec_join(seq_views(parts@), sep@),
{
    let mut r = String::new();
    let mut i: usize = 0;
    while i < parts.len()
        invariant
            i <= parts@.len(),
            r@ == spec_join(seq_views(parts@).take(i as int), sep@),
        decreases parts@.len() - i,
    {
        if i > 0 {
            r.append(sep);
        }
        r.append(parts[i].as_str());
        proof {
            let views = seq_views(parts@);
            lemma_join_push(views.take(i as int), sep@, views[i as int]);
            assert(views.take(i as int).push(views[i as int]) =~= views.take(i as int + 1));
            assert(r@ =~= spec_join(views.take(i as int + 1), sep@));
        }
        i += 1;
    }
    proof {
        assert(seq_views(parts@).take(parts@.len() as int) =~= seq_views(parts@));
    }
    r
}

/// The element texts of an array value: each element labelled with its
/// zero-based index.
pub open spec fn array_parts(items: Seq<PrimitiveFieldValue>) -> Seq<Seq<char>> {
    Seq::new(
        items.len(),
        |i: int| "["@ + spec_digits(i as nat, 10) + "] = "@ + spec_fmt_pfv(items[i]),
    )
}

/// The text of a field value: a scalar's own text, or the bracket-wrapped,
/// comma-joined element texts of an array.
pub open spec fn spec_fmt_fv(fv: FieldValue) -> Seq<char> {
    match fv {
        FieldValue::Primitive(p) => spec_fmt_pfv(p),
        FieldValue::Array(items) => "[ "@ + spec_join(array_parts(items@), ", "@) + " ]"@,
    }
}

/// Renders one field value.
pub fn fmt_fv(fv: &FieldValue) -> (s: String)
    ensures
        s@ == spec_fmt_fv(*fv),
{
    match fv {
        FieldValue::Primitive(p) => fmt_pfv(p),
        FieldValue::Array(items) => {
            let mut parts: Vec<String> = Vec::new();
            let mut i: usize = 0;
            while i < items.len()
                invariant
                    i <= items@.len(),
                    parts@.len() == i,
                    forall|j: int|
                        0 <= j < i ==> #[trigger] parts@[j]@ == array_parts(items@)[j],
                decreases items@.len() - i,
            {
                let dts = digits_to_string(i as u64, 10);
                let fp = fmt_pfv(&items[i]);
                let mut e = "[".to_owned();
                e.append(dts.as_str());
                e.append("] = ");
                e.append(fp.as_str());
                proof {
                    assert((i as u64) as nat == i as nat);
                    assert(dts@ == spec_digits(i as nat, 10));
                    assert(fp@ == spec_fmt_pfv(items@[i as int]));
                    assert(array_parts(items@)[i as int] == "["@ + spec_digits(i as nat, 10)
                        + "] = "@ + spec_fmt_pfv(items@[i as int]));
                    assert(e@ == array_parts(items@)[i as int]);
                }
                parts.push(e);
                i += 1;
            }
            proof {
                assert(seq_views(parts@) =~= array_parts(items@));
            }
            let mut s = "[ ".to_owned();
            s.append(join_strings(&parts, ", ").as_str());
            s.append(" ]");
            s
        },
    }
}

/// The text of one `name = value` pair.
pub open spec fn spec_entry(name: Seq<char>, v: FieldValue) -> Seq<char> {
    name + " = "@ + spec_fmt_fv(v)
}

/// The pair texts of a field group, in declaration order.
pub open spec fn group_parts(entries: Seq<(String, FieldValue)>) -> Seq<Seq<char>> {
    entries.map_values(|e: (String, FieldValue)| spec_entry(e.0@, e.1))
}

/// The text a field group contributes to its line: nothing when the group
/// is empty, otherwise its pairs joined by `", "` and wrapped in braces.
pub open spec fn spec_group(entries: Seq<(String, FieldValue)>) -> Seq<char> {
    if entries.len() == 0 {
        Seq::empty()
    } else {
        "{ "@ + spec_join(group_parts(entries), ", "@) + " }"@
    }
}

/// Renders one named field group.
pub fn render_group(entries: &Vec<(String, FieldValue)>) -> (s: String)
    ensures
        s@ == spec_group(entries@),
{
    if entries.len() == 0 {
        String::new()
    } else {
        let mut parts: Vec<String> = Vec::new();
        let mut i: usize = 0;
        while i < entries.len()
            invariant
                i <= entries@.len(),
                parts@.len() == i,
                forall|j: int| 0 <= j < i ==> #[trigger] parts@[j]@ == group_parts(entries@)[j],
            decreases entries@.len() - i,
        {
            let fv = fmt_fv(&entries[i].1);
            let mut e = entries[i].0.clone();
            e.append(" = ");
            e.append(fv.as_str());
            proof {
                assert(fv@ == spec_fmt_fv(entries@[i as int].1));
                assert(group_parts(entries@)[i as int] == spec_entry(
                    entries@[i as int].0@,
                    entries@[i as int].1,
                ));
                assert(e@ == group_parts(entries@)[i as int]);
            }
            parts.push(e);
            i += 1;
        }
        proof {
            assert(seq_views(parts@) =~= group_parts(entries@));
        }
        let mut s = "{ ".to_owned();
        s.append(join_strings(&parts, ", ").as_str());
        s.append(" }");
        s
    }
}

/// The group texts present on a line: each nonempty group's text, in the
/// fixed order packet-context extras, common context, specific context,
/// payload; empty groups leave no trace.
pub open spec fn present_groups(
    pc: Seq<(String, FieldValue)>,
    cc: Seq<(String, FieldValue)>,
    sc: Seq<(String, FieldValue)>,
    pl: Seq<(String, FieldValue)>,
) -> Seq<Seq<char>> {
    (if pc.len() == 0 {
        Seq::<Seq<char>>::empty()
    } else {
        seq![spec_group(pc)]
    }) + (if cc.len() == 0 {
        Seq::<Seq<char>>::empty()
    } else {
        seq![spec_group(cc)]
    }) + (if sc.len() == 0 {
        Seq::<Seq<char>>::empty()
    } else {
        seq![spec_group(sc)]
    }) + (if pl.len() == 0 {
        Seq::<Seq<char>>::empty()
    } else {
        seq![spec_group(pl)]
    })
}

/// The full text of one event line, without the line terminator: the
/// 16-digit zero-padded timestamp in brackets, the event name, the stream
/// name, then the nonempty groups joined by `", "` after a single space.
pub open spec fn spec_line(ev: Event, hdr: PacketHeader, ctx: PacketContext) -> Seq<char> {
    "["@ + spec_pad16(ev.timestamp) + "] "@ + ev.name@ + " @ "@ + hdr.stream_name@ + ": "@
        + spec_join(
        present_groups(ctx.extra_members@, ev.common_context@, ev.specific_context@, ev.payload@),
        ", "@,
    )
}

/// Composes the one output line for an event.
pub fn render_event(ev: &Event, hdr: &PacketHeader, ctx: &PacketContext) -> (line: String)
    ensures
        line@ == spec_line(*ev, *hdr, *ctx),
{
    let mut parts: Vec<String> = Vec::new();
    if ctx.extra_members.len() > 0 {
        parts.push(render_group(&ctx.extra_members));
    }
    if ev.common_context.len() > 0 {
        parts.push(render_group(&ev.common_context));
    }
    if ev.specific_context.len() > 0 {
        parts.push(render_group(&ev.specific_context));
    }
    if ev.payload.len() > 0 {
        parts.push(render_group(&ev.payload));
    }
    proof {
        assert(seq_views(parts@) =~= present_groups(
            ctx.extra_members@,
            ev.common_context@,
            ev.specific_context@,
            ev.payload@,
        ));
    }
    let content = join_strings(&parts, ", ");
    let mut line = "[".to_owned();
    line.append(pad16(ev.timestamp).as_str());
    line.append("] ");
    line.append(ev.name.as_str());
    line.append(" @ ");
    line.append(hdr.stream_name.as_str());
    line.append(": ");
    line.append(content.as_str());
    line
}

/// Renders every event of a packet, in decode order, one line per event.
pub fn render_packet_lines(pkt: &Packet) -> (lines: Vec<String>)
    ensures
        lines@.len() == pkt.events@.len(),
        forall|i: int|
            0 <= i < lines@.len() ==> lines@[i]@ == spec_line(
                pkt.events@[i],
                pkt.header,
                pkt.context,
            ),
{
    let mut lines: Vec<String> = Vec::new();
    let mut i: usize = 0;
    while i < pkt.events.len()
        invariant
            i <= pkt.events@.len(),
            lines@.len() == i,
            forall|j: int|
                0 <= j < i ==> lines@[j]@ == spec_line(pkt.events@[j], pkt.header, pkt.context),
        decreases pkt.events@.len() - i,
    {
        lines.push(render_event(&pkt.events[i], &pkt.header, &pkt.context));
        i += 1;
    }
    lines
}

} // verus!
