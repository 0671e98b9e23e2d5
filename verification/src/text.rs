//! Text: comparing string slices, quoting strings, and laying out lists and
//! records the way the standard library's `Debug` formatting lays them out.
//!
//! The layout functions take their entries already rendered, so that what they
//! promise is stated over plain character sequences.

use vstd::prelude::*;
use vstd::string::StringSliceAdditionalSpecFns;
use vstd::utf8::encode_utf8_decode_utf8;

verus! {

/// What the standard library's `Debug` formatting of a string slice writes for
/// the text `s`: the text between double quotes, with the characters that
/// cannot stand there as they are replaced by escape sequences.
pub uninterp spec fn debug_quoted(s: Seq<char>) -> Seq<char>;

/// The characters of every string of `items`.
pub open spec fn texts(items: Seq<String>) -> Seq<Seq<char>> {
    items.map_values(|s: String| s@)
}

/// Each item of `items` between double quotes, in the same order.
pub open spec fn quoted_each(items: Seq<Seq<char>>) -> Seq<Seq<char>> {
    items.map_values(|s: Seq<char>| debug_quoted(s))
}

/// The items in order, with `sep` between each two neighbours.
pub open spec fn joined(items: Seq<Seq<char>>, sep: Seq<char>) -> Seq<char>
    decreases items.len(),
{
    if items.len() == 0 {
        Seq::empty()
    } else if items.len() == 1 {
        items[0]
    } else {
        joined(items.drop_last(), sep) + sep + items.last()
    }
}

/// One line of a multi-line listing: the padding, the entry, a comma.
pub open spec fn entry_line(pad: Seq<char>, entry: Seq<char>) -> Seq<char> {
    pad + entry + ",\n"@
}

/// One line for every entry, in order.
pub open spec fn entry_lines(pad: Seq<char>, entries: Seq<Seq<char>>) -> Seq<char>
    decreases entries.len(),
{
    if entries.len() == 0 {
        Seq::empty()
    } else {
        entry_lines(pad, entries.drop_last()) + entry_line(pad, entries.last())
    }
}

/// A list on one line: `[a, b, c]`.
pub open spec fn inline_list(items: Seq<Seq<char>>) -> Seq<char> {
    "["@ + joined(items, ", "@) + "]"@
}

/// A list as it stands in a field of a record that is laid out over several
/// lines: one item per line, eight spaces in, and the closing bracket four
/// spaces in. An empty list stays `[]`.
pub open spec fn block_list(items: Seq<Seq<char>>) -> Seq<char> {
    if items.len() == 0 {
        "[]"@
    } else {
        "[\n"@ + entry_lines("        "@, items) + "    ]"@
    }
}

/// A field of a record: its label, a colon, its value.
pub open spec fn labelled(label: Seq<char>, value: Seq<char>) -> Seq<char> {
    label + ": "@ + value
}

/// A record laid out over several lines: the name and an opening brace, one
/// field per line, four spaces in, and the closing brace.
pub open spec fn record_block(name: Seq<char>, fields: Seq<Seq<char>>) -> Seq<char> {
    name + " {\n"@ + entry_lines("    "@, fields) + "}"@
}

/// Tells whether two string slices hold the same characters.
pub fn same_text(a: &str, b: &str) -> (same: bool)
    ensures
        same == (a@ == b@),
{
    let left = a.as_bytes();
    let right = b.as_bytes();
    proof {
        // Equal encodings decode to equal texts.
        encode_utf8_decode_utf8(a@);
        encode_utf8_decode_utf8(b@);
    }
    if left.len() != right.len() {
        return false;
    }
    let mut i: usize = 0;
    while i < left.len()
        invariant
            i <= left.len(),
            left.len() == right.len(),
            left@ == a.spec_bytes(),
            right@ == b.spec_bytes(),
            forall|k: int| 0 <= k < i ==> left@[k] == right@[k],
        decreases left.len() - i,
    {
        if left[i] != right[i] {
            return false;
        }
        i += 1;
    }
    assert(left@ =~= right@);
    true
}

/// Wraps `<str as core::fmt::Debug>::fmt`, reached through `format!` with the
/// `{:?}` directive. The contract claims only that the text written is
/// determined by the characters of `s`; which characters are escaped, and how,
/// is the standard library's business and is not stated here.
#[verifier::external_body]
pub(crate) fn quote(s: &str) -> (quoted: String)
    ensures
        quoted@ == debug_quoted(s@),
{
    format!("{:?}", s)
}

/// Quotes every string of `items`.
pub fn quote_all(items: &Vec<String>) -> (quoted: Vec<String>)
    ensures
        texts(quoted@) == quoted_each(texts(items@)),
{
    let mut quoted: Vec<String> = Vec::new();
    let mut i: usize = 0;
    while i < items.len()
        invariant
            i <= items.len(),
            quoted.len() == i,
            forall|k: int| 0 <= k < i ==> quoted@[k]@ == debug_quoted(items@[k]@),
        decreases items.len() - i,
    {
        quoted.push(quote(items[i].as_str()));
        i += 1;
    }
    assert(texts(quoted@) =~= quoted_each(texts(items@)));
    quoted
}

/// Taking one more item adds one separator and that item, after the first.
proof fn lemma_joined_step(items: Seq<Seq<char>>, sep: Seq<char>, i: int)
    requires
        0 <= i < items.len(),
    ensures
        joined(items.take(i + 1), sep) == if i == 0 {
            items[i]
        } else {
            joined(items.take(i), sep) + sep + items[i]
        },
{
    let upto = items.take(i + 1);
    assert(upto.last() == items[i]);
    assert(upto.drop_last() =~= items.take(i));
    if i == 0 {
        assert(upto[0] == items[i]);
    }
}

/// Taking one more entry adds that entry's line.
proof fn lemma_entry_lines_step(pad: Seq<char>, entries: Seq<Seq<char>>, i: int)
    requires
        0 <= i < entries.len(),
    ensures
        entry_lines(pad, entries.take(i + 1)) == entry_lines(pad, entries.take(i)) + entry_line(
            pad,
            entries[i],
        ),
{
    let upto = entries.take(i + 1);
    assert(upto.last() == entries[i]);
    assert(upto.drop_last() =~= entries.take(i));
}

/// Writes the items on one line between square brackets, separated by a comma
/// and a space.
pub fn render_inline_list(items: &Vec<String>) -> (out: String)
    ensures
        out@ == inline_list(texts(items@)),
{
    let mut out = String::from_str("[");
    let mut i: usize = 0;
    assert(joined(texts(items@).take(0), ", "@) =~= Seq::<char>::empty());
    assert(out@ =~= "["@ + joined(texts(items@).take(0), ", "@));
    while i < items.len()
        invariant
            i <= items.len(),
            out@ == "["@ + joined(texts(items@).take(i as int), ", "@),
        decreases items.len() - i,
    {
        proof {
            lemma_joined_step(texts(items@), ", "@, i as int);
        }
        if i > 0 {
            out.append(", ");
        }
        out.append(items[i].as_str());
        assert(out@ =~= "["@ + joined(texts(items@).take(i + 1), ", "@));
        i += 1;
    }
    assert(texts(items@).take(items.len() as int) =~= texts(items@));
    out.append("]");
    out
}

/// Writes one line per entry: the padding, the entry, a comma.
pub fn render_lines(pad: &str, entries: &Vec<String>) -> (out: String)
    ensures
        out@ == entry_lines(pad@, texts(entries@)),
{
    let mut out = String::new();
    let mut i: usize = 0;
    assert(entry_lines(pad@, texts(entries@).take(0)) =~= Seq::<char>::empty());
    while i < entries.len()
        invariant
            i <= entries.len(),
            out@ == entry_lines(pad@, texts(entries@).take(i as int)),
        decreases entries.len() - i,
    {
        proof {
            lemma_entry_lines_step(pad@, texts(entries@), i as int);
        }
        out.append(pad);
        out.append(entries[i].as_str());
        out.append(",\n");
        assert(out@ =~= entry_lines(pad@, texts(entries@).take(i + 1)));
        i += 1;
    }
    assert(texts(entries@).take(entries.len() as int) =~= texts(entries@));
    out
}

/// Writes the items as a list nested in a record: one per line, or `[]` when
/// there are none.
pub fn render_block_list(items: &Vec<String>) -> (out: String)
    ensures
        out@ == block_list(texts(items@)),
{
    if items.len() == 0 {
        String::from_str("[]")
    } else {
        let mut out = String::from_str("[\n");
        let lines = render_lines("        ", items);
        out.append(lines.as_str());
        out.append("    ]");
        out
    }
}

/// Writes a label, a colon and a space, and the value.
pub fn render_labelled(label: &str, value: &str) -> (out: String)
    ensures
        out@ == labelled(label@, value@),
{
    let mut out = String::from_str(label);
    out.append(": ");
    out.append(value);
    out
}

/// Writes a record: its name, and between braces one field per line.
pub fn render_record(name: &str, fields: &Vec<String>) -> (out: String)
    ensures
        out@ == record_block(name@, texts(fields@)),
{
    let mut out = String::from_str(name);
    out.append(" {\n");
    let lines = render_lines("    ", fields);
    out.append(lines.as_str());
    out.append("}");
    out
}

} // verus!
