use vstd::prelude::*;

use crate::blocks::{BlockOutput, SegmentView, segment_views};
use crate::text::{decimal, push_decimal};

verus! {

/// The lowercase hexadecimal digit of a value below sixteen.
pub open spec fn hex_digit(d: nat) -> char {
    if d < 10 {
        (d + 48) as char
    } else {
        (d + 87) as char
    }
}

/// How one character is written inside a JSON string.
pub open spec fn json_char(c: char) -> Seq<char> {
    if c == '"' {
        seq!['\\', '"']
    } else if c == '\\' {
        seq!['\\', '\\']
    } else if (c as u32) < 0x20 {
        seq!['\\', 'u', '0', '0', hex_digit((c as u32 / 16) as nat), hex_digit((c as u32 % 16) as nat)]
    } else {
        seq![c]
    }
}

/// The characters of `s` as written inside a JSON string.
pub open spec fn json_chars(s: Seq<char>) -> Seq<char>
    decreases s.len(),
{
    if s.len() == 0 {
        seq![]
    } else {
        json_char(s[0]) + json_chars(s.drop_first())
    }
}

/// `s` as a JSON string, quotes included.
pub open spec fn json_string(s: Seq<char>) -> Seq<char> {
    seq!['"'] + json_chars(s) + seq!['"']
}

pub open spec fn bool_text(b: bool) -> Seq<char> {
    if b {
        "true"@
    } else {
        "false"@
    }
}

/// A segment as a JSON object, fields in declaration order.
pub open spec fn segment_json(v: SegmentView) -> Seq<char> {
    "{\"name\":"@ + json_string(v.name) + ",\"full_text\":"@ + json_string(v.full_text)
        + ",\"color\":"@ + json_string(v.color) + ",\"separator\":"@ + bool_text(v.separator)
        + ",\"separator_block_width\":"@ + decimal(v.separator_block_width as nat) + "}"@
}

/// Segments as JSON objects separated by commas.
pub open spec fn segments_json(vs: Seq<SegmentView>) -> Seq<char>
    decreases vs.len(),
{
    if vs.len() == 0 {
        seq![]
    } else if vs.len() == 1 {
        segment_json(vs[0])
    } else {
        segments_json(vs.drop_last()) + ","@ + segment_json(vs.last())
    }
}

/// One output line: the frame as a JSON array followed by a comma, as the
/// endless array of the bar protocol wants it.
pub open spec fn frame_line(vs: Seq<SegmentView>) -> Seq<char> {
    "["@ + segments_json(vs) + "],"@
}

/// Appends `c` as written inside a JSON string.
fn push_json_char(out: &mut String, c: char)
    ensures
        final(out)@ == old(out)@ + json_char(c),
{
    if c == '"' {
        out.push('\\');
        out.push('"');
    } else if c == '\\' {
        out.push('\\');
        out.push('\\');
    } else if (c as u32) < 0x20 {
        let v = c as u32;
        out.push('\\');
        out.push('u');
        out.push('0');
        out.push('0');
        let hi = (v / 16) as u8;
        let lo = (v % 16) as u8;
        let h = if hi < 10 { (hi + 48) as char } else { (hi + 87) as char };
        let l = if lo < 10 { (lo + 48) as char } else { (lo + 87) as char };
        assert(h == hex_digit((c as u32 / 16) as nat));
        assert(l == hex_digit((c as u32 % 16) as nat));
        out.push(h);
        out.push(l);
    } else {
        out.push(c);
    }
    assert(out@ =~= old(out)@ + json_char(c));
}

/// Appends `s` as a JSON string, quotes included.
pub fn push_json_string(out: &mut String, s: &str)
    ensures
        final(out)@ == old(out)@ + json_string(s@),
{
    let ghost start = out@;
    out.push('"');
    let n = s.unicode_len();
    let mut i: usize = 0;
    assert(s@.skip(0) =~= s@);
    while i < n
        invariant
            n == s@.len(),
            i <= n,
            out@ + json_chars(s@.skip(i as int)) == start + seq!['"'] + json_chars(s@),
        decreases n - i,
    {
        let ghost before = out@;
        let c = s.get_char(i);
        push_json_char(out, c);
        assert(s@.skip(i as int).drop_first() =~= s@.skip(i + 1));
        assert(json_chars(s@.skip(i as int)) == json_char(c) + json_chars(s@.skip(i + 1)));
        assert(before + json_chars(s@.skip(i as int)) =~= out@ + json_chars(s@.skip(i + 1)));
        i = i + 1;
    }
    assert(json_chars(s@.skip(n as int)) =~= seq![]);
    assert(out@ =~= start + seq!['"'] + json_chars(s@));
    out.push('"');
    assert(out@ =~= start + json_string(s@));
}

/// Appends a segment as a JSON object.
pub fn push_segment(out: &mut String, b: &BlockOutput)
    ensures
        final(out)@ == old(out)@ + segment_json(b@),
{
    let ghost start = out@;
    out.append("{\"name\":");
    push_json_string(out, b.name.as_str());
    out.append(",\"full_text\":");
    push_json_string(out, b.full_text.as_str());
    out.append(",\"color\":");
    push_json_string(out, b.color.as_str());
    out.append(",\"separator\":");
    if b.separator {
        out.append("true");
    } else {
        out.append("false");
    }
    out.append(",\"separator_block_width\":");
    push_decimal(out, b.separator_block_width as u64);
    out.append("}");
    assert(out@ =~= start + segment_json(b@));
}

/// The segments as JSON objects separated by commas.
pub fn encode_segments(segs: &Vec<BlockOutput>) -> (r: String)
    ensures
        r@ == segments_json(segment_views(segs@)),
{
    let mut out = String::new();
    let mut i: usize = 0;
    while i < segs.len()
        invariant
            i <= segs@.len(),
            out@ == segments_json(segment_views(segs@.take(i as int))),
        decreases segs@.len() - i,
    {
        if i > 0 {
            out.append(",");
        }
        push_segment(&mut out, &segs[i]);
        let ghost prev = segment_views(segs@.take(i as int));
        i = i + 1;
        assert(segment_views(segs@.take(i as int)).drop_last() =~= prev);
        assert(out@ =~= segments_json(segment_views(segs@.take(i as int))));
    }
    assert(segs@.take(i as int) =~= segs@);
    out
}

/// The output line of one frame.
pub fn encode_frame(segs: &Vec<BlockOutput>) -> (r: String)
    ensures
        r@ == frame_line(segment_views(segs@)),
{
    let mut out = String::from_str("[");
    let body = encode_segments(segs);
    out.append(body.as_str());
    out.append("],");
    assert(out@ =~= frame_line(segment_views(segs@)));
    out
}

/// The first line of the output: protocol version 1, click events on.
pub fn header() -> (r: &'static str)
    ensures
        r@ == "{ \"version\": 1, \"click_events\": true  }"@,
{
    "{ \"version\": 1, \"click_events\": true  }"
}

/// The line that opens the endless array of frames.
pub fn stream_open() -> (r: &'static str)
    ensures
        r@ == "["@,
{
    "["
}

/// `s` without the commas it starts with.
pub open spec fn drop_commas(s: Seq<char>) -> Seq<char>
    decreases s.len(),
{
    if s.len() > 0 && s[0] == ',' {
        drop_commas(s.drop_first())
    } else {
        s
    }
}

/// An input line made ready for decoding: the commas that separate events
/// in the bar's endless array are dropped from its front.
pub fn strip_event_line(line: &str) -> (r: &str)
    ensures
        r@ == drop_commas(line@),
{
    let n = line.unicode_len();
    let mut k: usize = 0;
    assert(line@.skip(0) =~= line@);
    while k < n && line.get_char(k) == ','
        invariant
            n == line@.len(),
            k <= n,
            drop_commas(line@.skip(k as int)) == drop_commas(line@),
        decreases n - k,
    {
        assert(line@.skip(k as int).drop_first() =~= line@.skip(k + 1));
        k = k + 1;
    }
    assert(line@.skip(k as int) =~= line@.subrange(k as int, n as int));
    line.substring_char(k, n)
}

} // verus!
verus! {

/// The value of a lowercase hexadecimal digit.
pub open spec fn hex_value(c: char) -> nat {
    if '0' <= c <= '9' {
        (c as nat - 48) as nat
    } else {
        (c as nat - 87) as nat
    }
}

/// Reads a JSON string body as `json_chars` writes it, up to the closing
/// quote: the text and what follows the quote; `None` if it is not there.
pub open spec fn read_json_chars(t: Seq<char>) -> Option<(Seq<char>, Seq<char>)>
    decreases t.len(),
{
    if t.len() == 0 {
        None
    } else if t[0] == '"' {
        Some((seq![], t.drop_first()))
    } else {
        let (c, k) = if t[0] != '\\' {
            (t[0], 1int)
        } else if t.len() >= 2 && (t[1] == '"' || t[1] == '\\') {
            (t[1], 2int)
        } else {
            (((hex_value(t[4]) * 16 + hex_value(t[5])) as u32) as char, 6int)
        };
        if k > t.len() {
            None
        } else {
            match read_json_chars(t.skip(k)) {
                Some((s, rest)) => Some((seq![c] + s, rest)),
                None => None,
            }
        }
    }
}

/// A JSON string body reads back as the text it was written from.
pub proof fn lemma_json_chars_round_trip(s: Seq<char>, rest: Seq<char>)
    ensures
        read_json_chars(json_chars(s) + seq!['"'] + rest) == Some((s, rest)),
    decreases s.len(),
{
    let t = json_chars(s) + seq!['"'] + rest;
    if s.len() == 0 {
        assert(t =~= seq!['"'] + rest);
        assert(t.drop_first() =~= rest);
    } else {
        let c = s[0];
        let tail = json_chars(s.drop_first()) + seq!['"'] + rest;
        lemma_json_chars_round_trip(s.drop_first(), rest);
        assert(t =~= json_char(c) + tail);
        let k = json_char(c).len() as int;
        assert(t.skip(k) =~= tail);
        if (c as u32) < 0x20 && c != '"' && c != '\\' {
            let v = c as u32;
            assert(t[4] == hex_digit((v / 16) as nat));
            assert(t[5] == hex_digit((v % 16) as nat));
            assert(hex_value(t[4]) == v / 16);
            assert(hex_value(t[5]) == v % 16);
            assert(((v / 16) * 16 + v % 16) as u32 == v);
            vstd::utf8::char_u32_cast(c, v);
            assert((v as char) == c);
            assert(t[0] == '\\' && t[1] == 'u');
        }
        assert(s =~= seq![c] + s.drop_first());
    }
}

} // verus!
verus! {

/// What follows `key` in `t`, if `t` starts with it.
pub open spec fn read_lit(key: Seq<char>, t: Seq<char>) -> Option<Seq<char>> {
    if key.is_prefix_of(t) {
        Some(t.skip(key.len() as int))
    } else {
        None
    }
}

/// Reads `key` and then a JSON string: its text and what follows it.
pub open spec fn read_keyed_string(key: Seq<char>, t: Seq<char>) -> Option<(Seq<char>, Seq<char>)> {
    match read_lit(key + seq!['"'], t) {
        Some(r) => read_json_chars(r),
        None => None,
    }
}

/// Reads `true` or `false`.
pub open spec fn read_bool(t: Seq<char>) -> Option<(bool, Seq<char>)> {
    match read_lit("true"@, t) {
        Some(r) => Some((true, r)),
        None => match read_lit("false"@, t) {
            Some(r) => Some((false, r)),
            None => None,
        },
    }
}

pub open spec fn is_digit(c: char) -> bool {
    '0' <= c <= '9'
}

/// How many decimal digits `t` starts with.
pub open spec fn digit_run(t: Seq<char>) -> nat
    decreases t.len(),
{
    if t.len() > 0 && is_digit(t[0]) {
        1 + digit_run(t.drop_first())
    } else {
        0
    }
}

/// The number that a run of decimal digits stands for.
pub open spec fn digits_value(ds: Seq<char>) -> nat
    decreases ds.len(),
{
    if ds.len() == 0 {
        0
    } else {
        digits_value(ds.drop_last()) * 10 + (ds.last() as nat - 48) as nat
    }
}

/// Reads a number of at least one digit.
pub open spec fn read_number(t: Seq<char>) -> Option<(nat, Seq<char>)> {
    let k = digit_run(t);
    if k == 0 {
        None
    } else {
        Some((digits_value(t.take(k as int)), t.skip(k as int)))
    }
}

/// Reads one segment object as `segment_json` writes it: the segment and
/// what follows the object.
#[verifier::opaque]
pub open spec fn read_segment(t: Seq<char>) -> Option<(SegmentView, Seq<char>)> {
    match read_keyed_string("{\"name\":"@, t) {
        None => None,
        Some((name, r1)) => match read_keyed_string(",\"full_text\":"@, r1) {
            None => None,
            Some((full_text, r2)) => match read_keyed_string(",\"color\":"@, r2) {
                None => None,
                Some((color, r3)) => match read_lit(",\"separator\":"@, r3) {
                    None => None,
                    Some(r4) => match read_bool(r4) {
                        None => None,
                        Some((separator, r5)) => match read_lit(
                            ",\"separator_block_width\":"@,
                            r5,
                        ) {
                            None => None,
                            Some(r6) => match read_number(r6) {
                                None => None,
                                Some((w, r7)) => match read_lit("}"@, r7) {
                                    None => None,
                                    Some(r8) => if w <= u32::MAX {
                                        Some(
                                            (
                                                SegmentView {
                                                    name,
                                                    full_text,
                                                    color,
                                                    separator,
                                                    separator_block_width: w as u32,
                                                },
                                                r8,
                                            ),
                                        )
                                    } else {
                                        None
                                    },
                                },
                            },
                        },
                    },
                },
            },
        },
    }
}

/// Reads segment objects separated by commas, at most `fuel` of them.
pub open spec fn read_segments(t: Seq<char>, fuel: nat) -> Option<(Seq<SegmentView>, Seq<char>)>
    decreases fuel,
{
    if fuel == 0 {
        None
    } else {
        match read_segment(t) {
            None => None,
            Some((v, r)) => if r.len() > 1 && r[0] == ',' && r[1] == '{' {
                match read_segments(r.drop_first(), (fuel - 1) as nat) {
                    Some((vs, r2)) => Some((seq![v] + vs, r2)),
                    None => None,
                }
            } else {
                Some((seq![v], r))
            },
        }
    }
}

/// Reads an output line back into the segments of its frame.
pub open spec fn decode_frame(line: Seq<char>) -> Option<Seq<SegmentView>> {
    if line.len() == 0 || line[0] != '[' {
        None
    } else if line.drop_first() == "],"@ {
        Some(seq![])
    } else {
        match read_segments(line.drop_first(), line.len()) {
            Some((vs, r)) => if r == "],"@ {
                Some(vs)
            } else {
                None
            },
            None => None,
        }
    }
}

proof fn lemma_read_lit(key: Seq<char>, rest: Seq<char>)
    ensures
        read_lit(key, key + rest) == Some(rest),
{
    assert((key + rest).subrange(0, key.len() as int) =~= key);
    assert((key + rest).skip(key.len() as int) =~= rest);
}

proof fn lemma_read_keyed_string(key: Seq<char>, s: Seq<char>, rest: Seq<char>)
    ensures
        read_keyed_string(key, key + json_string(s) + rest) == Some((s, rest)),
{
    let t = key + json_string(s) + rest;
    assert(t =~= (key + seq!['"']) + (json_chars(s) + seq!['"'] + rest));
    lemma_read_lit(key + seq!['"'], json_chars(s) + seq!['"'] + rest);
    lemma_json_chars_round_trip(s, rest);
}

proof fn lemma_decimal_digits(n: nat)
    ensures
        decimal(n).len() > 0,
        forall|i: int| 0 <= i < decimal(n).len() ==> is_digit(#[trigger] decimal(n)[i]),
        digits_value(decimal(n)) == n,
    decreases n,
{
    if n >= 10 {
        lemma_decimal_digits(n / 10);
        assert(decimal(n).drop_last() =~= decimal(n / 10));
        assert(decimal(n).last() == crate::text::digit_char(n % 10));
        assert(crate::text::digit_char(n % 10) as nat == n % 10 + 48);
        assert(digits_value(decimal(n)) == digits_value(decimal(n / 10)) * 10 + n % 10);
    } else {
        assert(decimal(n).drop_last() =~= Seq::<char>::empty());
        assert(decimal(n).last() == crate::text::digit_char(n));
        assert(crate::text::digit_char(n) as nat == n + 48);
        assert(digits_value(decimal(n)) == digits_value(Seq::<char>::empty()) * 10 + n);
    }
}

proof fn lemma_digit_run(ds: Seq<char>, rest: Seq<char>)
    requires
        forall|i: int| 0 <= i < ds.len() ==> is_digit(#[trigger] ds[i]),
        rest.len() == 0 || !is_digit(rest[0]),
    ensures
        digit_run(ds + rest) == ds.len(),
    decreases ds.len(),
{
    if ds.len() > 0 {
        lemma_digit_run(ds.drop_first(), rest);
        assert((ds + rest).drop_first() =~= ds.drop_first() + rest);
    } else {
        assert(ds + rest =~= rest);
    }
}

proof fn lemma_segment_json_shape(v: SegmentView, rest: Seq<char>)
    ensures
        segment_json(v) + rest == "{\"name\":"@ + json_string(v.name) + (",\"full_text\":"@
            + json_string(v.full_text) + (",\"color\":"@ + json_string(v.color) + (
        ",\"separator\":"@ + (bool_text(v.separator) + (",\"separator_block_width\":"@ + (decimal(
            v.separator_block_width as nat,
        ) + ("}"@ + rest))))))),
{
    assert(segment_json(v) + rest =~= "{\"name\":"@ + json_string(v.name) + (",\"full_text\":"@
        + json_string(v.full_text) + (",\"color\":"@ + json_string(v.color) + (",\"separator\":"@
        + (bool_text(v.separator) + (",\"separator_block_width\":"@ + (decimal(
        v.separator_block_width as nat,
    ) + ("}"@ + rest))))))));
}

proof fn lemma_read_bool(b: bool, rest: Seq<char>)
    ensures
        read_bool(bool_text(b) + rest) == Some((b, rest)),
{
    reveal_strlit("true");
    reveal_strlit("false");
    lemma_read_lit(bool_text(b), rest);
    if !b {
        let t = bool_text(b) + rest;
        assert(!"true"@.is_prefix_of(t)) by {
            assert(t[0] == 'f');
            assert(t.subrange(0, 4)[0] == 'f');
        }
    }
}

proof fn lemma_read_number(n: nat, rest: Seq<char>)
    requires
        rest.len() > 0,
        !is_digit(rest[0]),
    ensures
        read_number(decimal(n) + rest) == Some((n, rest)),
{
    let num = decimal(n);
    lemma_decimal_digits(n);
    lemma_digit_run(num, rest);
    assert((num + rest).take(num.len() as int) =~= num);
    assert((num + rest).skip(num.len() as int) =~= rest);
}

/// A segment object reads back as the segment it was written from.
pub proof fn lemma_segment_round_trip(v: SegmentView, rest: Seq<char>)
    ensures
        read_segment(segment_json(v) + rest) == Some((v, rest)),
{
    let k1 = "{\"name\":"@;
    let k2 = ",\"full_text\":"@;
    let k3 = ",\"color\":"@;
    let k4 = ",\"separator\":"@;
    let k5 = ",\"separator_block_width\":"@;
    let close = "}"@;
    reveal_strlit("}");
    let r7 = close + rest;
    let r6 = decimal(v.separator_block_width as nat) + r7;
    let r5 = k5 + r6;
    let r4 = bool_text(v.separator) + r5;
    let r3 = k4 + r4;
    let r2 = k3 + json_string(v.color) + r3;
    let r1 = k2 + json_string(v.full_text) + r2;
    lemma_segment_json_shape(v, rest);
    reveal(read_segment);
    lemma_read_keyed_string(k1, v.name, r1);
    lemma_read_keyed_string(k2, v.full_text, r2);
    lemma_read_keyed_string(k3, v.color, r3);
    lemma_read_lit(k4, r4);
    lemma_read_bool(v.separator, r5);
    lemma_read_lit(k5, r6);
    lemma_read_number(v.separator_block_width as nat, r7);
    lemma_read_lit(close, rest);
}

proof fn lemma_segments_json_front(vs: Seq<SegmentView>)
    requires
        vs.len() > 1,
    ensures
        segments_json(vs) == segment_json(vs[0]) + ","@ + segments_json(vs.drop_first()),
    decreases vs.len(),
{
    if vs.len() == 2 {
        assert(vs.drop_last() =~= seq![vs[0]]);
        assert(vs.drop_first() =~= seq![vs[1]]);
        assert(segments_json(vs.drop_last()) == segment_json(vs[0]));
        assert(segments_json(vs.drop_first()) == segment_json(vs[1]));
    } else {
        lemma_segments_json_front(vs.drop_last());
        assert(vs.drop_last().drop_first() =~= vs.drop_first().drop_last());
        assert(vs.drop_last()[0] == vs[0]);
        assert(vs.drop_first().last() == vs.last());
        let a = segment_json(vs[0]);
        let b = segments_json(vs.drop_first().drop_last());
        let c = segment_json(vs.last());
        assert(segments_json(vs.drop_first()) == b + ","@ + c);
        assert(segments_json(vs) == a + ","@ + b + ","@ + c);
        assert(a + ","@ + b + ","@ + c =~= a + ","@ + (b + ","@ + c));
    }
}

proof fn lemma_segments_json_start(vs: Seq<SegmentView>)
    requires
        vs.len() > 0,
    ensures
        segments_json(vs).len() >= vs.len(),
        segments_json(vs)[0] == '{',
    decreases vs.len(),
{
    reveal_strlit("{\"name\":");
    reveal_strlit("}");
    reveal_strlit(",");
    if vs.len() > 1 {
        lemma_segments_json_start(vs.drop_last());
    }
}

proof fn lemma_read_segments(vs: Seq<SegmentView>, rest: Seq<char>, fuel: nat)
    requires
        vs.len() > 0,
        fuel >= vs.len(),
        rest.len() > 0,
        rest[0] != ',',
    ensures
        read_segments(segments_json(vs) + rest, fuel) == Some((vs, rest)),
    decreases vs.len(),
{
    if vs.len() == 1 {
        lemma_segment_round_trip(vs[0], rest);
        assert(vs =~= seq![vs[0]]);
    } else {
        lemma_segments_json_front(vs);
        let tail = vs.drop_first();
        let r = ","@ + segments_json(tail) + rest;
        assert(segments_json(vs) + rest =~= segment_json(vs[0]) + r);
        lemma_segment_round_trip(vs[0], r);
        assert(read_segment(segments_json(vs) + rest) == Some((vs[0], r)));
        reveal_strlit(",");
        lemma_segments_json_start(tail);
        assert(r[0] == ',');
        assert(r[1] == segments_json(tail)[0]);
        assert(r.drop_first() =~= segments_json(tail) + rest);
        lemma_read_segments(tail, rest, (fuel - 1) as nat);
        assert(read_segments(r.drop_first(), (fuel - 1) as nat) == Some((tail, rest)));
        assert(vs =~= seq![vs[0]] + tail);
    }
}

/// Decoding an output line gives back exactly the segments of its frame.
pub proof fn lemma_frame_round_trip(vs: Seq<SegmentView>)
    ensures
        decode_frame(frame_line(vs)) == Some(vs),
{
    let line = frame_line(vs);
    reveal_strlit("[");
    reveal_strlit("],");
    if vs.len() == 0 {
        assert(line.drop_first() =~= "],"@);
    } else {
        lemma_segments_json_start(vs);
        assert(line.drop_first() =~= segments_json(vs) + "],"@);
        assert(line.drop_first()[0] == '{');
        assert(line.drop_first() != "],"@);
        assert(line.len() >= vs.len());
        lemma_read_segments(vs, "],"@, line.len());
    }
}

} // verus!
