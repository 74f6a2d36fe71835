use vstd::prelude::*;

use crate::decimal::{decimal, decimal_string};

verus! {

/// The value of the first pair named `name`, if any pair has that name.
pub open spec fn lookup(headers: Seq<(Seq<char>, Seq<char>)>, name: Seq<char>) -> Option<Seq<char>>
    decreases headers.len(),
{
    if headers.len() == 0 {
        None
    } else if headers[0].0 == name {
        Some(headers[0].1)
    } else {
        lookup(headers.drop_first(), name)
    }
}

/// One log line for a header pair: `#<id> <marker> <name>: <value>`.
pub open spec fn header_line(id: u32, marker: Seq<char>, name: Seq<char>, value: Seq<char>) -> Seq<char> {
    "#"@ + decimal(id as nat) + " "@ + marker + " "@ + name + ": "@ + value
}

/// The log lines for a header list: one per pair, in the list's order.
pub open spec fn header_lines(id: u32, marker: Seq<char>, headers: Seq<(Seq<char>, Seq<char>)>) -> Seq<Seq<char>> {
    headers.map_values(|p: (Seq<char>, Seq<char>)| header_line(id, marker, p.0, p.1))
}

/// Finds the value of the first header called `name`.
pub fn find_header(headers: &Vec<(String, String)>, name: &String) -> (r: Option<String>)
    ensures
        r.deep_view() == lookup(headers.deep_view(), name@),
{
    let ghost all = headers.deep_view();
    let mut i: usize = 0;
    assert(all.subrange(0, all.len() as int) =~= all);
    while i < headers.len()
        invariant
            i <= headers.len(),
            all == headers.deep_view(),
            lookup(all, name@) == lookup(all.subrange(i as int, all.len() as int), name@),
        decreases headers.len() - i,
    {
        let ghost rest = all.subrange(i as int, all.len() as int);
        assert(rest[0] == all[i as int]);
        if headers[i].0 == *name {
            return Some(headers[i].1.clone());
        }
        assert(rest.drop_first() =~= all.subrange(i + 1, all.len() as int));
        i += 1;
    }
    None
}

/// Renders the log line of one header pair.
pub fn format_header_line(id: u32, marker: &str, name: &String, value: &String) -> (r: String)
    ensures
        r@ == header_line(id, marker@, name@, value@),
{
    let mut s = "#".to_owned();
    let digits = decimal_string(id);
    s.append(digits.as_str());
    s.append(" ");
    s.append(marker);
    s.append(" ");
    s.append(name.as_str());
    s.append(": ");
    s.append(value.as_str());
    s
}

/// Renders the log lines of a header list, one per pair, in order.
pub fn format_header_lines(id: u32, marker: &str, headers: &Vec<(String, String)>) -> (r: Vec<String>)
    ensures
        r.deep_view() == header_lines(id, marker@, headers.deep_view()),
{
    let mut out: Vec<String> = Vec::new();
    let mut i: usize = 0;
    while i < headers.len()
        invariant
            i <= headers.len(),
            out@.len() == i,
            forall|j: int|
                0 <= j < i ==> #[trigger] out@[j]@ == header_line(
                    id,
                    marker@,
                    headers@[j].0@,
                    headers@[j].1@,
                ),
        decreases headers.len() - i,
    {
        let line = format_header_line(id, marker, &headers[i].0, &headers[i].1);
        out.push(line);
        i += 1;
    }
    assert(out.deep_view() =~= header_lines(id, marker@, headers.deep_view()));
    out
}

} // verus!
