//! The reporter's output format: plain text for one monitor, one JSON array
//! line for all monitors.

use vstd::prelude::*;
use crate::model::{MonitorCustom, MonitorCustomView, record_views};

verus! {

/// The JSON string literal for `s`: the text that `serde_json` displays for
/// a string value holding `s`, quotes and escapes included.
pub uninterp spec fn json_string_text(s: Seq<char>) -> Seq<char>;

/// Encodes `s` as a JSON string literal.
///
/// Trusted: calls `Display` (`to_string`) of `serde_json::Value` on the
/// string value made from `s`. The contract claims only that the text
/// depends on the characters of `s` alone, and names it.
#[verifier::external_body]
fn encode_json_string(s: &str) -> (text: String)
    ensures
        text@ == json_string_text(s@),
{
    serde_json::Value::from(s).to_string()
}

/// One JSON object with the keys `name`, `title`, `initial_title`, in that
/// order, around three already encoded values.
pub open spec fn framed_record(
    name: Seq<char>,
    title: Seq<char>,
    initial_title: Seq<char>,
) -> Seq<char> {
    "{\"name\":"@ + name + ",\"title\":"@ + title + ",\"initial_title\":"@ + initial_title
        + "}"@
}

/// The parts of `parts`, separated by commas.
pub open spec fn joined(parts: Seq<Seq<char>>) -> Seq<char>
    decreases parts.len(),
{
    if parts.len() == 0 {
        Seq::empty()
    } else if parts.len() == 1 {
        parts[0]
    } else {
        joined(parts.drop_last()) + ","@ + parts.last()
    }
}

/// One JSON array around already encoded elements.
pub open spec fn framed_array(parts: Seq<Seq<char>>) -> Seq<char> {
    "["@ + joined(parts) + "]"@
}

/// The contents of a list of strings.
pub open spec fn string_views(v: Seq<String>) -> Seq<Seq<char>> {
    Seq::new(v.len(), |i: int| v[i]@)
}

/// The JSON object of one report entry.
pub open spec fn record_text(r: MonitorCustomView) -> Seq<char> {
    framed_record(
        json_string_text(r.name),
        json_string_text(r.title),
        json_string_text(r.initial_title),
    )
}

/// The JSON objects of a list of report entries, in order.
pub open spec fn record_texts(rs: Seq<MonitorCustomView>) -> Seq<Seq<char>> {
    Seq::new(rs.len(), |i: int| record_text(rs[i]))
}

/// The line emitted for one monitor: the raw title and a newline.
pub open spec fn title_line(title: Seq<char>) -> Seq<char> {
    title + "\n"@
}

/// The line emitted for all monitors: the JSON array of the entries and a
/// newline.
pub open spec fn records_line(rs: Seq<MonitorCustomView>) -> Seq<char> {
    framed_array(record_texts(rs)) + "\n"@
}

/// Writes one JSON object around three encoded values.
pub fn frame_record(name: &str, title: &str, initial_title: &str) -> (text: String)
    ensures
        text@ == framed_record(name@, title@, initial_title@),
{
    let mut text = String::from_str("{\"name\":");
    text.append(name);
    text.append(",\"title\":");
    text.append(title);
    text.append(",\"initial_title\":");
    text.append(initial_title);
    text.append("}");
    text
}

/// Writes one JSON array around encoded elements.
pub fn frame_array(parts: &Vec<String>) -> (text: String)
    ensures
        text@ == framed_array(string_views(parts@)),
{
    let ghost all = string_views(parts@);
    let mut text = String::from_str("[");
    let mut i: usize = 0;
    assert(text@ =~= "["@ + joined(all.take(0)));
    while i < parts.len()
        invariant
            i <= parts.len(),
            all == string_views(parts@),
            text@ == "["@ + joined(all.take(i as int)),
        decreases parts.len() - i,
    {
        proof {
            assert(all.take(i + 1).drop_last() =~= all.take(i as int));
            assert(all.take(i + 1).last() == parts[i as int]@);
        }
        if i > 0 {
            text.append(",");
            text.append(parts[i].as_str());
            assert(text@ =~= "["@ + joined(all.take(i + 1)));
        } else {
            text.append(parts[i].as_str());
            assert(all.take(1)[0] == parts[0]@);
            assert(text@ =~= "["@ + joined(all.take(i + 1)));
        }
        i += 1;
    }
    assert(all.take(i as int) =~= all);
    text.append("]");
    text
}

/// Encodes one report entry as a JSON object.
pub fn encode_record(record: &MonitorCustom) -> (text: String)
    ensures
        text@ == record_text(record@),
{
    let name = encode_json_string(record.name.as_str());
    let title = encode_json_string(record.title.as_str());
    let initial_title = encode_json_string(record.initial_title.as_str());
    frame_record(name.as_str(), title.as_str(), initial_title.as_str())
}

/// The line emitted for one monitor.
pub fn format_title(title: &str) -> (line: String)
    ensures
        line@ == title_line(title@),
{
    let mut line = String::from_str(title);
    line.append("\n");
    line
}

/// The line emitted for all monitors.
pub fn format_records(records: &Vec<MonitorCustom>) -> (line: String)
    ensures
        line@ == records_line(record_views(records@)),
{
    let ghost rs = record_views(records@);
    let mut parts: Vec<String> = Vec::new();
    let mut i: usize = 0;
    assert(string_views(parts@) =~= record_texts(rs.take(0)));
    while i < records.len()
        invariant
            i <= records.len(),
            rs == record_views(records@),
            string_views(parts@) == record_texts(rs.take(i as int)),
        decreases records.len() - i,
    {
        let ghost before = string_views(parts@);
        let part = encode_record(&records[i]);
        parts.push(part);
        proof {
            assert(string_views(parts@) =~= before.push(part@));
            assert(rs.take(i + 1) =~= rs.take(i as int).push(records[i as int]@));
            assert(record_texts(rs.take(i + 1)) =~= before.push(part@));
        }
        i += 1;
    }
    assert(rs.take(i as int) =~= rs);
    let mut line = frame_array(&parts);
    line.append("\n");
    line
}

} // verus!
