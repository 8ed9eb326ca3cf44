//! The frame reader's decision for each input line: a line that parsed is
//! forwarded to the dispatcher, one that did not is logged and dropped.
use crate::protocol::Message;
use vstd::prelude::*;

verus! {

/// What the reader does with one line.
pub enum LineAction {
    /// Hand the message to the dispatcher.
    Forward(Message),
    /// Drop the line; the text says why, for the log.
    Skip(String),
}

/// What the reader forwards from lines with these parse outcomes, in order.
pub open spec fn forwarded(outcomes: Seq<Result<Message, String>>) -> Seq<Message>
    decreases outcomes.len(),
{
    if outcomes.len() == 0 {
        Seq::empty()
    } else {
        let rest = forwarded(outcomes.drop_last());
        match outcomes.last() {
            Ok(m) => rest.push(m),
            Err(_) => rest,
        }
    }
}

/// Decides what becomes of a line given the outcome of parsing it: the
/// message goes on when it parsed, else nothing does.
pub fn frame_line(parsed: Result<Message, String>) -> (r: LineAction)
    ensures
        match parsed {
            Ok(m) => r == LineAction::Forward(m),
            Err(e) => r == LineAction::Skip(e),
        },
{
    match parsed {
        Ok(m) => LineAction::Forward(m),
        Err(e) => LineAction::Skip(e),
    }
}

/// A malformed line, wherever it stands, changes nothing of what the
/// reader forwards: the same messages go on, in the same order.
pub proof fn malformed_line_is_isolated(
    outcomes: Seq<Result<Message, String>>,
    i: int,
    error: String,
)
    requires
        0 <= i <= outcomes.len(),
    ensures
        forwarded(outcomes.insert(i, Err(error))) == forwarded(outcomes),
    decreases outcomes.len(),
{
    let with = outcomes.insert(i, Err(error));
    if i == outcomes.len() {
        assert(with.drop_last() =~= outcomes);
    } else {
        malformed_line_is_isolated(outcomes.drop_last(), i, error);
        assert(with.drop_last() =~= outcomes.drop_last().insert(i, Err(error)));
        assert(with.last() == outcomes.last());
    }
}

/// Every line that parsed is forwarded: as many messages go on as lines
/// parsed, none dropped.
pub proof fn parsed_lines_all_forwarded(outcomes: Seq<Result<Message, String>>)
    requires
        forall|k: int| 0 <= k < outcomes.len() ==> outcomes[k] is Ok,
    ensures
        forwarded(outcomes).len() == outcomes.len(),
        forall|k: int|
            0 <= k < outcomes.len() ==> outcomes[k] == Ok::<Message, String>(
                #[trigger] forwarded(outcomes)[k],
            ),
    decreases outcomes.len(),
{
    if outcomes.len() > 0 {
        let init = outcomes.drop_last();
        assert forall|k: int| 0 <= k < init.len() implies init[k] is Ok by {
            assert(init[k] == outcomes[k]);
        }
        parsed_lines_all_forwarded(init);
        assert forall|k: int| 0 <= k < outcomes.len() implies outcomes[k] == Ok::<
            Message,
            String,
        >(#[trigger] forwarded(outcomes)[k]) by {
            if k < init.len() {
                assert(init[k] == outcomes[k]);
                assert(init[k] == Ok::<Message, String>(forwarded(init)[k]));
            }
        }
    }
}

} // verus!
