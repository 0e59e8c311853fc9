//! Render outcomes, and the report made of their messages.

use vstd::prelude::*;
use vstd::string::*;

verus! {

/// How one render went.
#[derive(Debug, PartialEq, Eq)]
pub enum RenderOutcome {
    /// The file was written; the template may have a message for the user.
    Generated { message: Option<String> },
    /// Nothing was written, on the template's own terms.
    Skipped,
    /// The engine could not render the template.
    Failed { detail: String },
}

/// A [`RenderOutcome`] as mathematical values.
pub enum Outcome {
    Generated { message: Option<Seq<char>> },
    Skipped,
    Failed { detail: Seq<char> },
}

impl View for RenderOutcome {
    type V = Outcome;

    open spec fn view(&self) -> Outcome {
        match self {
            RenderOutcome::Generated { message: Some(m) } => Outcome::Generated { message: Some(m@) },
            RenderOutcome::Generated { message: None } => Outcome::Generated { message: None },
            RenderOutcome::Skipped => Outcome::Skipped,
            RenderOutcome::Failed { detail } => Outcome::Failed { detail: detail@ },
        }
    }
}

/// The outcomes of a vector, each by its view.
pub open spec fn outcome_views(outcomes: Seq<RenderOutcome>) -> Seq<Outcome> {
    Seq::new(outcomes.len(), |i: int| outcomes[i]@)
}

impl Outcome {
    /// The message that the outcome has for the user, if any. Only a
    /// successful render has one.
    pub open spec fn message(self) -> Option<Seq<char>> {
        match self {
            Outcome::Generated { message } => message,
            _ => None,
        }
    }

    /// Whether the render failed.
    pub open spec fn failed(self) -> bool {
        self is Failed
    }
}

/// The messages that the outcomes carry, in the outcomes' order.
pub open spec fn messages_of(outcomes: Seq<Outcome>) -> Seq<Seq<char>>
    decreases outcomes.len(),
{
    if outcomes.len() == 0 {
        Seq::empty()
    } else {
        let before = messages_of(outcomes.drop_last());
        match outcomes.last().message() {
            Some(m) => before.push(m),
            None => before,
        }
    }
}

/// One line of the report.
pub open spec fn bullet(message: Seq<char>) -> Seq<char> {
    "* "@ + message + "\n"@
}

/// One line for each message, in order.
pub open spec fn bullets(messages: Seq<Seq<char>>) -> Seq<char>
    decreases messages.len(),
{
    if messages.len() == 0 {
        Seq::empty()
    } else {
        bullets(messages.drop_last()) + bullet(messages.last())
    }
}

/// The report of a sequence of outcomes: a line for each message, nothing else.
pub open spec fn report_text(outcomes: Seq<Outcome>) -> Seq<char> {
    bullets(messages_of(outcomes))
}

/// The report between its rules, as it is shown.
pub open spec fn report_block_text(messages: Seq<char>) -> Seq<char> {
    "\n---\n"@ + messages + "---\n"@
}

/// The messages of a concatenation are the messages of its parts.
pub proof fn lemma_messages_concat(a: Seq<Outcome>, b: Seq<Outcome>)
    ensures
        messages_of(a + b) == messages_of(a) + messages_of(b),
    decreases b.len(),
{
    if b.len() == 0 {
        assert(a + b =~= a);
        assert(messages_of(a) + messages_of(b) =~= messages_of(a));
    } else {
        assert((a + b).drop_last() =~= a + b.drop_last());
        assert((a + b).last() == b.last());
        lemma_messages_concat(a, b.drop_last());
        let before = messages_of(a) + messages_of(b.drop_last());
        match b.last().message() {
            Some(m) => {
                assert(before.push(m) =~= messages_of(a) + messages_of(b.drop_last()).push(m));
            },
            None => {},
        }
    }
}

/// The lines of a concatenation are the lines of its parts.
pub proof fn lemma_bullets_concat(a: Seq<Seq<char>>, b: Seq<Seq<char>>)
    ensures
        bullets(a + b) == bullets(a) + bullets(b),
    decreases b.len(),
{
    if b.len() == 0 {
        assert(a + b =~= a);
        assert(bullets(a) + bullets(b) =~= bullets(a));
    } else {
        assert((a + b).drop_last() =~= a + b.drop_last());
        assert((a + b).last() == b.last());
        lemma_bullets_concat(a, b.drop_last());
        assert((bullets(a) + bullets(b.drop_last())) + bullet(b.last()) =~= bullets(a) + (bullets(
            b.drop_last(),
        ) + bullet(b.last())));
    }
}

/// The report of one outcome is its message's line, or nothing where it has
/// no message: a render without a message, a skipped one and a failed one add
/// no character.
pub proof fn lemma_report_single(outcome: Outcome)
    ensures
        report_text(seq![outcome]) == match outcome.message() {
            Some(m) => bullet(m),
            None => Seq::<char>::empty(),
        },
{
    let one = seq![outcome];
    assert(one.drop_last() =~= Seq::<Outcome>::empty());
    assert(one.last() == outcome);
    assert(messages_of(one.drop_last()) =~= Seq::<Seq<char>>::empty());
    match outcome.message() {
        Some(m) => {
            let ms = messages_of(one);
            assert(ms =~= seq![m]);
            assert(ms.drop_last() =~= Seq::<Seq<char>>::empty());
            assert(bullets(ms.drop_last()) =~= Seq::<char>::empty());
            assert(bullets(ms) =~= bullet(m));
        },
        None => {},
    }
}

/// The report of a concatenation is the concatenation of the reports: nothing
/// is reordered, merged or dropped.
pub proof fn lemma_report_concat(a: Seq<Outcome>, b: Seq<Outcome>)
    ensures
        report_text(a + b) == report_text(a) + report_text(b),
{
    lemma_messages_concat(a, b);
    lemma_bullets_concat(messages_of(a), messages_of(b));
}

/// Where every outcome is a successful render with a message, the messages
/// carried are those messages.
pub proof fn lemma_messages_all(messages: Seq<Seq<char>>)
    ensures
        messages_of(
            Seq::new(messages.len(), |i: int| Outcome::Generated { message: Some(messages[i]) }),
        ) == messages,
    decreases messages.len(),
{
    let outcomes = Seq::new(
        messages.len(),
        |i: int| Outcome::Generated { message: Some(messages[i]) },
    );
    if messages.len() == 0 {
        assert(messages_of(outcomes) =~= messages);
    } else {
        let shorter = messages.drop_last();
        lemma_messages_all(shorter);
        assert(outcomes.drop_last() =~= Seq::new(
            shorter.len(),
            |i: int| Outcome::Generated { message: Some(shorter[i]) },
        ));
        assert(messages_of(outcomes) =~= messages);
    }
}

/// Where every outcome is a successful render with a message, the report is
/// the line of each message, in order.
pub proof fn lemma_report_of_messages(messages: Seq<Seq<char>>)
    ensures
        report_text(
            Seq::new(messages.len(), |i: int| Outcome::Generated { message: Some(messages[i]) }),
        ) == bullets(messages),
{
    lemma_messages_all(messages);
}

/// The report of `results`: for each render that succeeded with a message,
/// the line `"* "`, the message and a line feed, in the order of the renders.
pub fn collect_messages(results: &Vec<RenderOutcome>) -> (messages: String)
    ensures
        messages@ == report_text(outcome_views(results@)),
{
    let ghost all = outcome_views(results@);
    let mut messages = String::new();
    let mut i: usize = 0;
    assert(all.take(0) =~= Seq::<Outcome>::empty());
    while i < results.len()
        invariant
            i <= results.len(),
            all == outcome_views(results@),
            messages@ == report_text(all.take(i as int)),
        decreases results.len() - i,
    {
        let ghost before = messages@;
        proof {
            let earlier = messages_of(all.take(i as int));
            assert(all.take(i + 1).drop_last() =~= all.take(i as int));
            assert(all.take(i + 1).last() == results@[i as int]@);
            match results@[i as int]@.message() {
                Some(m) => {
                    assert(messages_of(all.take(i + 1)) == earlier.push(m));
                    assert(earlier.push(m).drop_last() =~= earlier);
                    assert(report_text(all.take(i + 1)) == before + bullet(m));
                },
                None => {
                    assert(messages_of(all.take(i + 1)) == earlier);
                },
            }
        }
        match &results[i] {
            RenderOutcome::Generated { message: Some(message) } => {
                messages.append("* ");
                messages.append(message.as_str());
                messages.append("\n");
                assert(messages@ =~= before + bullet(message@));
            },
            _ => {},
        }
        i += 1;
    }
    assert(all.take(i as int) =~= all);
    messages
}

/// The report as it is shown: a rule, the report, a rule.
pub fn report_block(messages: &str) -> (block: String)
    ensures
        block@ == report_block_text(messages@),
{
    let mut block = String::from_str("\n---\n");
    block.append(messages);
    block.append("---\n");
    block
}

} // verus!
