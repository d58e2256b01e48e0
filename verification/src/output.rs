//! Text layout of items for a terminal: aligned field lines, truncation to a width of
//! grapheme clusters, wrapping, and lists of rendered items.
use vstd::prelude::*;

use textwrap::Options;
use unicode_segmentation::UnicodeSegmentation;

use crate::text::{concat, join, owned, seq_join};

verus! {

/// Extended grapheme clusters of a text, as the `unicode-segmentation` crate splits it.
pub uninterp spec fn grapheme_clusters(s: Seq<char>) -> Seq<Seq<char>>;

/// Lines of a text wrapped to a width, later lines indented, as the `textwrap` crate
/// wraps it.
pub uninterp spec fn wrapped_lines(text: Seq<char>, width: nat, indent: Seq<char>) -> Seq<Seq<char>>;

/// `UnicodeSegmentation::graphemes` with extended clusters, each cluster copied out.
/// Claimed: the clusters are the name `grapheme_clusters` of the text.
#[verifier::external_body]
fn graphemes(s: &str) -> (r: Vec<String>)
    ensures
        r@.map_values(|x: String| x@) == grapheme_clusters(s@),
{
    let mut r = Vec::new();
    for g in UnicodeSegmentation::graphemes(s, true) {
        r.push(g.to_string());
    }
    r
}

/// `textwrap::wrap` with `Options::new(width).subsequent_indent(indent)`, each line copied
/// out. Claimed: the lines are the name `wrapped_lines` of the three arguments.
#[verifier::external_body]
pub(crate) fn wrap(text: &str, width: usize, indent: &str) -> (r: Vec<String>)
    ensures
        r@.map_values(|x: String| x@) == wrapped_lines(text@, width as nat, indent@),
{
    let options = Options::new(width).subsequent_indent(indent);
    let mut r = Vec::new();
    for line in textwrap::wrap(text, &options) {
        r.push(line.to_string());
    }
    r
}

/// Layout parameters: the width to wrap, separate and truncate at, and whether details
/// are shown.
#[derive(Debug, Clone, Copy)]
pub struct Layout {
    pub width: usize,
    pub verbose: bool,
}

/// `n` copies of a character.
pub open spec fn repeat(c: char, n: nat) -> Seq<char> {
    Seq::new(n, |i: int| c)
}

/// `n` copies of a character.
pub fn repeat_char(c: char, n: usize) -> (r: String)
    ensures
        r@ == repeat(c, n as nat),
{
    let mut r = String::new();
    let mut i: usize = 0;
    while i < n
        invariant
            i <= n,
            r@ == repeat(c, i as nat),
        decreases n - i,
    {
        crate::text::push_char(&mut r, c);
        assert(r@ =~= repeat(c, (i + 1) as nat));
        i = i + 1;
    }
    r
}

/// A text padded with spaces on the right to `n` characters, as `{:<n}` formats it.
pub open spec fn pad(s: Seq<char>, n: nat) -> Seq<char> {
    if s.len() >= n {
        s
    } else {
        s + repeat(' ', (n - s.len()) as nat)
    }
}

/// A text padded with spaces on the right to `n` characters.
pub fn pad_right(s: &str, n: usize) -> (r: String)
    ensures
        r@ == pad(s@, n as nat),
{
    let len = crate::text::chars_of(s).len();
    if len >= n {
        owned(s)
    } else {
        let spaces = repeat_char(' ', n - len);
        concat(s, spaces.as_str())
    }
}

/// Number of bytes of a text's UTF-8 encoding.
pub open spec fn byte_len(s: Seq<char>) -> nat {
    vstd::utf8::encode_utf8(s).len()
}

/// The first `n` elements of `s`, or all of them when there are fewer.
pub open spec fn take_first<A>(s: Seq<A>, n: nat) -> Seq<A> {
    if n >= s.len() {
        s
    } else {
        s.subrange(0, n as int)
    }
}

/// A text cut down, when it is longer in bytes than `width`, to its first `width`
/// grapheme clusters.
pub open spec fn spec_truncate(data: Seq<char>, width: nat) -> Seq<char> {
    if byte_len(data) > width {
        seq_join(take_first(grapheme_clusters(data), width), Seq::empty())
    } else {
        data
    }
}

/// Truncate a string to the requested width of graphemes.
pub fn truncate(data: &str, width: usize) -> (r: String)
    ensures
        r@ == spec_truncate(data@, width as nat),
{
    if crate::text::utf8_len(data) > width as u128 {
        let gs = graphemes(data);
        let ghost all = gs@.map_values(|x: String| x@);
        let n: usize = if width >= gs.len() { gs.len() } else { width };
        let mut kept: Vec<String> = Vec::new();
        let mut i: usize = 0;
        while i < n
            invariant
                i <= n <= gs@.len(),
                all == gs@.map_values(|x: String| x@),
                kept@.map_values(|x: String| x@) == all.subrange(0, i as int),
            decreases n - i,
        {
            let ghost before = kept@;
            kept.push(gs[i].clone());
            assert(kept@.map_values(|x: String| x@) =~= before.map_values(|x: String| x@).push(gs@[i as int]@));
            assert(all.subrange(0, i + 1) =~= all.subrange(0, i as int).push(all[i as int]));
            i = i + 1;
        }
        assert(take_first(all, width as nat) =~= all.subrange(0, n as int));
        proof {
            reveal_strlit("");
        }
        assert(""@ =~= Seq::<char>::empty());
        let r = join(&kept, "");
        assert(r@ == seq_join(take_first(all, width as nat), Seq::empty()));
        r
    } else {
        owned(data)
    }
}

/// A field line: the name padded to twelve characters, a colon and the value.
pub open spec fn field_line(name: Seq<char>, value: Seq<char>) -> Seq<char> {
    pad(name, 12) + " : "@ + value
}

/// A field line: the name padded to twelve characters, a colon and the value.
pub fn field_text(name: &str, value: &str) -> (r: String)
    ensures
        r@ == field_line(name@, value@),
{
    let p = pad_right(name, 12);
    let a = concat(p.as_str(), " : ");
    concat(a.as_str(), value)
}

/// A text followed by a newline.
pub open spec fn line(s: Seq<char>) -> Seq<char> {
    s.push('\n')
}

/// Output of an optional field: its line truncated, when it has a value.
pub open spec fn spec_output_field(name: Seq<char>, value: Option<Seq<char>>, out: Layout) -> Seq<char> {
    match value {
        Some(v) => line(spec_truncate(field_line(name, v), out.width as nat)),
        None => Seq::empty(),
    }
}

/// Output of an optional field: its line truncated, when it has a value.
pub fn output_field(name: &str, value: Option<&str>, out: Layout) -> (r: String)
    ensures
        r@ == spec_output_field(name@, match value {
            Some(v) => Some(v@),
            None => None,
        }, out),
{
    match value {
        Some(v) => {
            let l = field_text(name, v);
            let mut t = truncate(l.as_str(), out.width);
            crate::text::push_char(&mut t, '\n');
            t
        },
        None => String::new(),
    }
}

/// Indentation of wrapped field values after their first line.
pub open spec fn indent() -> Seq<char> {
    repeat(' ', 15)
}

/// A value wrapped to the width left after the field name, continuation lines indented.
pub open spec fn wrapped_value(value: Seq<char>, width: nat) -> Seq<char> {
    seq_join(wrapped_lines(value, (width - 15) as nat, indent()), "\n"@)
}

/// A value wrapped to the width left after the field name, continuation lines indented.
pub(crate) fn wrap_value(value: &str, width: usize) -> (r: String)
    requires
        width >= 15,
    ensures
        r@ == wrapped_value(value@, width as nat),
{
    let ind = repeat_char(' ', 15);
    let lines = wrap(value, width - 15, ind.as_str());
    join(&lines, "\n")
}

/// Output of an optional field whose value is wrapped.
pub open spec fn spec_output_field_wrapped(name: Seq<char>, value: Option<Seq<char>>, width: nat) -> Seq<char> {
    match value {
        Some(v) => line(field_line(name, wrapped_value(v, width))),
        None => Seq::empty(),
    }
}

/// Output of an optional field whose value is wrapped.
pub fn output_field_wrapped(name: &str, value: Option<&str>, width: usize) -> (r: String)
    requires
        width >= 15,
    ensures
        r@ == spec_output_field_wrapped(name@, match value {
            Some(v) => Some(v@),
            None => None,
        }, width as nat),
{
    match value {
        Some(v) => {
            let w = wrap_value(v, width);
            let mut t = field_text(name, w.as_str());
            crate::text::push_char(&mut t, '\n');
            t
        },
        None => String::new(),
    }
}

/// Output of a list field in truncated list format: one value on the field line, more
/// values on lines of their own, nothing for no value.
pub open spec fn spec_truncated_list(name: Seq<char>, values: Seq<Seq<char>>, out: Layout) -> Seq<char> {
    if values.len() == 1 {
        line(spec_truncate(field_line(name, values[0]), out.width as nat))
    } else if values.len() > 1 {
        line(pad(name, 12) + " :"@) + list_lines(values, out)
    } else {
        Seq::empty()
    }
}

/// Lines of a list, each value indented and truncated.
pub open spec fn list_lines(values: Seq<Seq<char>>, out: Layout) -> Seq<char>
    decreases values.len(),
{
    if values.len() == 0 {
        Seq::empty()
    } else {
        list_lines(values.drop_last(), out) + line(
            spec_truncate("  "@ + values.last(), out.width as nat),
        )
    }
}

/// Output an iterable field in truncated list format.
pub fn truncated_list(name: &str, values: &Vec<String>, out: Layout) -> (r: String)
    ensures
        r@ == spec_truncated_list(name@, values@.map_values(|x: String| x@), out),
{
    let ghost vs = values@.map_values(|x: String| x@);
    if values.len() == 1 {
        let l = field_text(name, values[0].as_str());
        let mut t = truncate(l.as_str(), out.width);
        crate::text::push_char(&mut t, '\n');
        t
    } else if values.len() > 1 {
        let p = pad_right(name, 12);
        let mut t = concat(p.as_str(), " :");
        crate::text::push_char(&mut t, '\n');
        let ghost head = t@;
        let mut i: usize = 0;
        while i < values.len()
            invariant
                i <= values@.len(),
                vs == values@.map_values(|x: String| x@),
                t@ == head + list_lines(vs.subrange(0, i as int), out),
            decreases values.len() - i,
        {
            let item = concat("  ", values[i].as_str());
            let mut l = truncate(item.as_str(), out.width);
            crate::text::push_char(&mut l, '\n');
            let ghost before = t@;
            t.append(l.as_str());
            assert(vs.subrange(0, i + 1).drop_last() =~= vs.subrange(0, i as int));
            assert(t@ =~= head + list_lines(vs.subrange(0, i + 1), out));
            i = i + 1;
        }
        assert(vs.subrange(0, vs.len() as int) =~= vs);
        t
    } else {
        String::new()
    }
}

/// Output of a list field in wrapped comma-separated format; nothing when the list
/// renders empty.
pub open spec fn spec_wrapped_csv(name: Seq<char>, values: Seq<Seq<char>>, width: nat) -> Seq<char> {
    let rendered = seq_join(values, ", "@);
    if rendered.len() == 0 {
        Seq::empty()
    } else if byte_len(rendered) + 15 <= width {
        line(field_line(name, rendered))
    } else {
        line(field_line(name, wrapped_value(rendered, width)))
    }
}

/// Output an iterable field in wrapped CSV format.
pub fn wrapped_csv(name: &str, values: &Vec<String>, width: usize) -> (r: String)
    requires
        seq_join(values@.map_values(|x: String| x@), ", "@).len() > 0 ==> width >= 15,
    ensures
        r@ == spec_wrapped_csv(name@, values@.map_values(|x: String| x@), width as nat),
{
    let rendered = join(values, ", ");
    if rendered.as_str().is_empty() {
        String::new()
    } else if crate::text::utf8_len(rendered.as_str()) + 15 <= width as u128 {
        let mut t = field_text(name, rendered.as_str());
        crate::text::push_char(&mut t, '\n');
        t
    } else {
        let w = wrap_value(rendered.as_str(), width);
        let mut t = field_text(name, w.as_str());
        crate::text::push_char(&mut t, '\n');
        t
    }
}

/// Items that render as text for a terminal.
pub trait Render {
    /// Whether the item can be rendered.
    spec fn renderable(&self) -> bool;

    /// Text of the item laid out for a terminal.
    spec fn spec_render(&self, out: Layout) -> Seq<char>;

    /// Text of the item laid out for a terminal.
    fn render(&self, out: Layout) -> (s: String)
        requires
            self.renderable(),
            out.width >= 15,
        ensures
            s@ == self.spec_render(out),
    ;
}

/// Width items are laid out at: the terminal's columns when output goes to a terminal of
/// fifty to ninety columns, ninety otherwise.
pub open spec fn spec_render_width(is_terminal: bool, columns: nat) -> nat {
    if is_terminal && 50 <= columns <= 90 {
        columns
    } else {
        90
    }
}

/// Width items are laid out at.
pub fn render_width(is_terminal: bool, columns: usize) -> (r: usize)
    ensures
        r == spec_render_width(is_terminal, columns as nat),
{
    if is_terminal && columns <= 90 && columns >= 50 {
        columns
    } else {
        90
    }
}

/// Rendered items, each after a separator line of `=` as wide as the layout.
pub open spec fn items_text<T: Render>(items: Seq<T>, out: Layout) -> Seq<char>
    decreases items.len(),
{
    if items.len() == 0 {
        Seq::empty()
    } else {
        items_text(items.drop_last(), out) + line(repeat('=', out.width as nat)) + items.last().spec_render(out)
    }
}

/// Rendered items, each after a separator line of `=` as wide as the layout.
pub fn render_items<T: Render>(items: &Vec<T>, out: Layout) -> (r: String)
    requires
        out.width >= 15,
        forall|i: int| 0 <= i < items@.len() ==> (#[trigger] items@[i]).renderable(),
    ensures
        r@ == items_text(items@, out),
{
    let sep = repeat_char('=', out.width);
    let mut t = String::new();
    let mut i: usize = 0;
    while i < items.len()
        invariant
            i <= items@.len(),
            out.width >= 15,
            forall|i: int| 0 <= i < items@.len() ==> (#[trigger] items@[i]).renderable(),
            sep@ == repeat('=', out.width as nat),
            t@ == items_text(items@.subrange(0, i as int), out),
        decreases items.len() - i,
    {
        t.append(sep.as_str());
        crate::text::push_char(&mut t, '\n');
        let s = items[i].render(out);
        t.append(s.as_str());
        assert(items@.subrange(0, i + 1).drop_last() =~= items@.subrange(0, i as int));
        i = i + 1;
    }
    assert(items@.subrange(0, items@.len() as int) =~= items@);
    t
}

/// Output of one search result: its line, truncated to the terminal's columns, on a line
/// of its own; nothing for an empty line.
pub open spec fn spec_search_output(text: Seq<char>, columns: nat) -> Seq<char> {
    if text.len() == 0 {
        Seq::empty()
    } else {
        line(spec_truncate(text, columns as nat))
    }
}

/// Output of one search result.
pub fn search_output(text: &str, columns: usize) -> (r: String)
    ensures
        r@ == spec_search_output(text@, columns as nat),
{
    if text.is_empty() {
        String::new()
    } else {
        let mut t = truncate(text, columns);
        crate::text::push_char(&mut t, '\n');
        t
    }
}

/// Closing line of search output: how many results were found, shown when details are
/// wanted and there were any.
pub open spec fn spec_found_output(count: nat, verbose: bool) -> Seq<char> {
    if count > 0 && verbose {
        line(" * "@ + crate::text::nat_digits(count) + " found"@)
    } else {
        Seq::empty()
    }
}

/// Closing line of search output.
pub fn found_output(count: u64, verbose: bool) -> (r: String)
    ensures
        r@ == spec_found_output(count as nat, verbose),
{
    if count > 0 && verbose {
        let a = concat(" * ", crate::text::u64_to_string(count).as_str());
        let mut t = concat(a.as_str(), " found");
        crate::text::push_char(&mut t, '\n');
        t
    } else {
        String::new()
    }
}

} // verus!
