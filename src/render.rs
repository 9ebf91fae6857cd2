//! The lines printed for each outcome.

use vstd::prelude::*;
use crate::client::{Outcome, OutcomeModel};

verus! {

/// Printed when a create or delete succeeded.
pub const SUCCESS_TOKEN: &'static str = "OK!";

/// Printed when a request failed.
pub const FAILURE_TOKEN: &'static str = ":(";

/// Printed when a list response is not a JSON object.
pub const INVALID_FORMAT_MESSAGE: &'static str = "Invalid JSON format. Expected JSON object.";

/// Stands between a short name and its destination in a listed entry.
pub const ENTRY_SEPARATOR: &'static str = " -> ";

/// The line of one listed mapping.
pub open spec fn entry_line_spec(short: Seq<char>, destination: Seq<char>) -> Seq<char> {
    short + " -> "@ + destination
}

/// The lines printed for an outcome, in order.
pub open spec fn rendered(o: OutcomeModel) -> Seq<Seq<char>> {
    match o {
        OutcomeModel::Success => seq!["OK!"@],
        OutcomeModel::Failure => seq![":("@],
        OutcomeModel::InvalidFormat => seq!["Invalid JSON format. Expected JSON object."@],
        OutcomeModel::Listed(es) => es.map_values(
            |e: (Seq<char>, Seq<char>)| entry_line_spec(e.0, e.1),
        ),
    }
}

/// Writes `<short> -> <destination>`.
pub fn entry_line(short: &str, destination: &str) -> (r: String)
    ensures
        r@ == entry_line_spec(short@, destination@),
{
    let mut line = String::from_str(short);
    line.append(ENTRY_SEPARATOR);
    line.append(destination);
    line
}

/// The lines to print for `outcome`: one token for a create or delete, one
/// line per mapping for a list, the format message for a bad list body.
pub fn render(outcome: &Outcome) -> (r: Vec<String>)
    ensures
        r.deep_view() == rendered(outcome@),
{
    match outcome {
        Outcome::Success => {
            let r = vec![String::from_str(SUCCESS_TOKEN)];
            assert(r.deep_view() =~= rendered(outcome@));
            r
        },
        Outcome::Failure => {
            let r = vec![String::from_str(FAILURE_TOKEN)];
            assert(r.deep_view() =~= rendered(outcome@));
            r
        },
        Outcome::InvalidFormat => {
            let r = vec![String::from_str(INVALID_FORMAT_MESSAGE)];
            assert(r.deep_view() =~= rendered(outcome@));
            r
        },
        Outcome::Listed(entries) => {
            let ghost es = entries.deep_view();
            let mut lines: Vec<String> = Vec::new();
            let mut i: usize = 0;
            while i < entries.len()
                invariant
                    i <= entries.len(),
                    es == entries.deep_view(),
                    rendered(outcome@) == rendered(OutcomeModel::Listed(es)),
                    lines.deep_view() =~= rendered(OutcomeModel::Listed(es)).take(i as int),
                decreases entries.len() - i,
            {
                let entry = &entries[i];
                assert(es[i as int] == entry.deep_view());
                let ghost before = lines.deep_view();
                lines.push(entry_line(entry.0.as_str(), entry.1.as_str()));
                assert(lines.deep_view() =~= before.push(entry_line_spec(es[i as int].0, es[i as int].1)));
                i = i + 1;
            }
            assert(rendered(OutcomeModel::Listed(es)).take(entries.len() as int) =~= rendered(
                OutcomeModel::Listed(es),
            ));
            lines
        },
    }
}

} // verus!
