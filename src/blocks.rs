use vstd::prelude::*;

use crate::colors::{color_hex, Color};

pub mod clock_block;
pub mod date_block;
pub mod load_block;
pub mod media_block;
pub mod network_block;
pub mod separator;
pub mod volume_block;

pub use clock_block::ClockBlock;
pub use date_block::DateBlock;
pub use load_block::LoadBlock;
pub use media_block::MediaBlock;
pub use network_block::NetworkBlock;
pub use separator::Separator;
pub use volume_block::VolumeBlock;

verus! {

/// One rendered segment, as the bar draws it.
#[derive(Debug)]
pub struct BlockOutput {
    pub name: String,
    pub full_text: String,
    pub color: String,
    pub separator: bool,
    pub separator_block_width: u32,
}

/// A segment as values.
pub struct SegmentView {
    pub name: Seq<char>,
    pub full_text: Seq<char>,
    pub color: Seq<char>,
    pub separator: bool,
    pub separator_block_width: u32,
}

impl View for BlockOutput {
    type V = SegmentView;

    open spec fn view(&self) -> SegmentView {
        SegmentView {
            name: self.name@,
            full_text: self.full_text@,
            color: self.color@,
            separator: self.separator,
            separator_block_width: self.separator_block_width,
        }
    }
}

impl Clone for BlockOutput {
    fn clone(&self) -> (r: BlockOutput)
        ensures
            r@ == self@,
    {
        BlockOutput {
            name: self.name.clone(),
            full_text: self.full_text.clone(),
            color: self.color.clone(),
            separator: self.separator,
            separator_block_width: self.separator_block_width,
        }
    }
}

/// The views of a sequence of segments.
pub open spec fn segment_views(v: Seq<BlockOutput>) -> Seq<SegmentView> {
    v.map_values(|b: BlockOutput| b@)
}

/// Appends a copy of each segment of `part` to `out`.
pub fn append_segments(out: &mut Vec<BlockOutput>, part: &Vec<BlockOutput>)
    ensures
        segment_views(final(out)@) == segment_views(old(out)@) + segment_views(part@),
{
    let ghost start = out@;
    let mut k: usize = 0;
    while k < part.len()
        invariant
            k <= part@.len(),
            out@.len() == start.len() + k,
            forall|j: int| 0 <= j < start.len() ==> out@[j]@ == start[j]@,
            forall|j: int| 0 <= j < k ==> out@[start.len() + j]@ == part@[j]@,
        decreases part@.len() - k,
    {
        out.push(part[k].clone());
        k = k + 1;
    }
    assert(segment_views(out@) =~= segment_views(start) + segment_views(part@));
}

/// What one character becomes in escaped text.
pub open spec fn escape_char(c: char) -> Seq<char> {
    if c == '"' {
        "&quot;"@
    } else {
        seq![c]
    }
}

/// `s` with every `"` written as `&quot;`.
pub open spec fn escape_spec(s: Seq<char>) -> Seq<char>
    decreases s.len(),
{
    if s.len() == 0 {
        seq![]
    } else {
        escape_spec(s.drop_last()) + escape_char(s.last())
    }
}

/// Escapes text for a segment field: every `"` becomes `&quot;`.
pub fn escape(s: &str) -> (r: String)
    ensures
        r@ == escape_spec(s@),
{
    let mut res = String::new();
    let n = s.unicode_len();
    let mut i: usize = 0;
    while i < n
        invariant
            n == s@.len(),
            i <= n,
            res@ == escape_spec(s@.take(i as int)),
        decreases n - i,
    {
        let c = s.get_char(i);
        if c == '"' {
            res.append("&quot;");
        } else {
            res.push(c);
        }
        assert(s@.take(i + 1).drop_last() =~= s@.take(i as int));
        i = i + 1;
        assert(res@ =~= escape_spec(s@.take(i as int)));
    }
    assert(s@.take(n as int) =~= s@);
    res
}

/// The segment that `make_block` builds.
pub open spec fn segment_of(name: Seq<char>, text: Seq<char>, color: Color) -> SegmentView {
    SegmentView {
        name: escape_spec(name),
        full_text: escape_spec(text),
        color: escape_spec(color_hex(color)),
        separator: false,
        separator_block_width: 0,
    }
}

/// Builds one segment with escaped fields and no separator of the bar's own.
pub fn make_block(name: &str, text: &str, color: Color) -> (r: BlockOutput)
    ensures
        r@ == segment_of(name@, text@, color),
{
    BlockOutput {
        name: escape(name),
        full_text: escape(text),
        color: escape(color.value()),
        separator: false,
        separator_block_width: 0,
    }
}

/// The one segment of a block that draws its name, its text and its color.
pub fn single_segment(name: &str, text: &str, color: Color) -> (r: Vec<BlockOutput>)
    ensures
        segment_views(r@) == seq![segment_of(name@, text@, color)],
{
    let v = vec![make_block(name, text, color)];
    assert(segment_views(v@) =~= seq![segment_of(name@, text@, color)]);
    v
}

/// What every block offers the bar: a stable name and its current segments.
pub trait BlockInterface {
    /// The block's name; segment names of the block start with it.
    spec fn name_spec(&self) -> Seq<char>;

    /// The segments that the block's current state renders as.
    spec fn segments_spec(&self) -> Seq<SegmentView>;

    fn name(&self) -> (r: &str)
        ensures
            r@ == self.name_spec(),
    ;

    fn get_blocks(&self) -> (r: Vec<BlockOutput>)
        ensures
            segment_views(r@) == self.segments_spec(),
    ;
}

} // verus!

verus! {

/// `t` with every `&quot;` read back as `"`.
pub open spec fn unescape_spec(t: Seq<char>) -> Seq<char>
    decreases t.len(),
{
    if t.len() == 0 {
        seq![]
    } else if "&quot;"@.is_prefix_of(t) && t.len() >= 6 {
        seq!['"'] + unescape_spec(t.skip(6))
    } else {
        seq![t[0]] + unescape_spec(t.drop_first())
    }
}

/// Whether `&quot;` appears in `s` as it is.
pub open spec fn holds_entity(s: Seq<char>) -> bool {
    exists|i: int| 0 <= i <= s.len() && #[trigger] "&quot;"@.is_prefix_of(s.skip(i))
}

proof fn lemma_escape_front(s: Seq<char>)
    requires
        s.len() > 0,
    ensures
        escape_spec(s) == escape_char(s[0]) + escape_spec(s.drop_first()),
    decreases s.len(),
{
    if s.len() == 1 {
        assert(s.drop_last() =~= Seq::<char>::empty());
        assert(s.drop_first() =~= Seq::<char>::empty());
        assert(escape_spec(s.drop_last()) == Seq::<char>::empty());
        assert(escape_spec(s.drop_first()) == Seq::<char>::empty());
        assert(s.last() == s[0]);
        assert(escape_spec(s) =~= escape_char(s[0]));
    } else {
        lemma_escape_front(s.drop_last());
        assert(s.drop_last().drop_first() =~= s.drop_first().drop_last());
        assert(s.drop_first().last() == s.last());
        assert(escape_spec(s) =~= escape_char(s[0]) + escape_spec(s.drop_first()));
    }
}

/// Escaped text agrees with the text up to its first `"`, and shows `&` there.
proof fn lemma_escape_prefix(s: Seq<char>, j: int)
    requires
        0 <= j <= s.len(),
        forall|i: int| 0 <= i < j ==> s[i] != '"',
    ensures
        escape_spec(s).len() >= j,
        escape_spec(s).take(j) == s.take(j),
        j < s.len() && s[j] == '"' ==> escape_spec(s).len() > j && escape_spec(s)[j] == '&',
        j == s.len() ==> escape_spec(s) == s,
    decreases j,
{
    reveal_strlit("&quot;");
    if s.len() == 0 {
        assert(escape_spec(s).take(j) =~= s.take(j));
    } else {
        lemma_escape_front(s);
        if j == 0 {
            assert(escape_spec(s).take(0) =~= s.take(0));
        } else {
            assert(s[0] != '"');
            assert(escape_char(s[0]) =~= seq![s[0]]);
            lemma_escape_prefix(s.drop_first(), j - 1);
            let e = escape_spec(s);
            let er = escape_spec(s.drop_first());
            assert(e == seq![s[0]] + er);
            assert forall|i: int| 0 <= i < j implies e[i] == s[i] by {
                if i > 0 {
                    assert(e[i] == er[i - 1]);
                    assert(er.take(j - 1)[i - 1] == s.drop_first().take(j - 1)[i - 1]);
                }
            }
            assert(e.take(j) =~= s.take(j));
            if j == s.len() {
                assert(escape_spec(s) =~= s);
            }
        }
    }
}

/// If escaped text after a `&` reads `quot;`, so did the text.
proof fn lemma_step_after_amp(rest: Seq<char>, k: int)
    requires
        0 <= k < 5,
        rest.len() >= k,
        "&quot;"@.is_prefix_of(seq!['&'] + escape_spec(rest)),
        forall|i: int| 0 <= i < k ==> rest[i] != '"',
        forall|i: int| 0 <= i < k ==> rest[i] == "&quot;"@[i + 1],
    ensures
        rest.len() > k,
        rest[k] != '"',
        rest[k] == "&quot;"@[k + 1],
        forall|i: int| 0 <= i <= k ==> rest[i] != '"',
        forall|i: int| 0 <= i <= k ==> rest[i] == "&quot;"@[i + 1],
{
    reveal_strlit("&quot;");
    let e = escape_spec(rest);
    let t = seq!['&'] + e;
    assert(t.subrange(0, 6) =~= "&quot;"@);
    lemma_escape_prefix(rest, k);
    if rest.len() == k {
        assert(t.len() == k + 1);
    }
    assert(t[k + 1] == e[k]);
    assert(t[k + 1] == t.subrange(0, 6)[k + 1]);
    if rest[k] == '"' {
        assert(e[k] == '&');
    }
    lemma_escape_prefix(rest, k + 1);
    assert(e.take(k + 1)[k] == rest.take(k + 1)[k]);
}

/// Text without `"` is left as it is by escaping.
pub proof fn lemma_escape_plain(s: Seq<char>)
    requires
        forall|i: int| 0 <= i < s.len() ==> s[i] != '"',
    ensures
        escape_spec(s) == s,
{
    lemma_escape_prefix(s, s.len() as int);
}

/// Escaped text holds no `"`.
pub proof fn lemma_escape_has_no_quote(s: Seq<char>)
    ensures
        forall|i: int| 0 <= i < escape_spec(s).len() ==> escape_spec(s)[i] != '"',
    decreases s.len(),
{
    reveal_strlit("&quot;");
    if s.len() > 0 {
        lemma_escape_has_no_quote(s.drop_last());
        let a = escape_spec(s.drop_last());
        let b = escape_char(s.last());
        assert(escape_spec(s) == a + b);
        assert forall|i: int| 0 <= i < escape_spec(s).len() implies escape_spec(s)[i] != '"' by {
            if i >= a.len() {
                assert(escape_spec(s)[i] == b[i - a.len()]);
            }
        }
    }
}

/// Escaping can be undone: text in which `&quot;` does not already appear
/// reads back from its escaped form.
pub proof fn lemma_escape_round_trip(s: Seq<char>)
    requires
        !holds_entity(s),
    ensures
        unescape_spec(escape_spec(s)) == s,
    decreases s.len(),
{
    reveal_strlit("&quot;");
    let q = "&quot;"@;
    if s.len() == 0 {
        assert(escape_spec(s) =~= Seq::<char>::empty());
    } else {
        let rest = s.drop_first();
        assert(!holds_entity(rest)) by {
            if holds_entity(rest) {
                let i = choose|i: int| 0 <= i <= rest.len() && #[trigger] q.is_prefix_of(rest.skip(i));
                assert(s.skip(i + 1) =~= rest.skip(i));
                assert(q.is_prefix_of(s.skip(i + 1)));
            }
        }
        lemma_escape_round_trip(rest);
        lemma_escape_front(s);
        let e = escape_spec(s);
        let er = escape_spec(rest);
        if s[0] == '"' {
            assert(e == q + er);
            assert(q.is_prefix_of(e)) by {
                assert(e.subrange(0, 6) =~= q);
            }
            assert(e.skip(6) =~= er);
            assert(s =~= seq!['"'] + rest);
        } else {
            assert(e == seq![s[0]] + er);
            assert(e.drop_first() =~= er);
            assert(!q.is_prefix_of(e)) by {
                if q.is_prefix_of(e) {
                    assert(e.subrange(0, 6) =~= q);
                    assert(e[0] == e.subrange(0, 6)[0]);
                    assert(s[0] == '&');
                    assert(s.skip(0) =~= s);
                    assert(!q.is_prefix_of(s.skip(0)));
                    lemma_step_after_amp(rest, 0);
                    lemma_step_after_amp(rest, 1);
                    lemma_step_after_amp(rest, 2);
                    lemma_step_after_amp(rest, 3);
                    lemma_step_after_amp(rest, 4);
                    assert(s.subrange(0, 6) =~= q);
                }
            }
            assert(s =~= seq![s[0]] + rest);
        }
    }
}

} // verus!
