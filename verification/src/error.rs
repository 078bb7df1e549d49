//! What can be wrong with a batch, and how it is told.
use vstd::prelude::*;

verus! {

/// Why a batch of ingested node ids does not describe a possible id space.
#[derive(Debug, Clone, PartialEq, Eq, Structural)]
pub enum IdSpaceError {
    /// A delete named an id at or above the entry boundary that this batch never
    /// created, so it was never allocated here at all.
    NeverIngested(u64),
    /// Ids are missing between the entry boundary and the highest one ingested.
    /// `ingested` many ids should have reached `entry_bound + ingested - 1`.
    Hole { entry_bound: u64, highest: u64, ingested: u64 },
    /// The graph's own boundary is not where the ingested ids put it: it
    /// counted something twice, or not at all.
    Miscounted { graph_bound: u64, expected: u64 },
    /// A batch named `u64::MAX`, which has no boundary above it.
    IdOutOfRange(u64),
}

/// The digit for `d`, which is below ten.
pub open spec fn digit(d: nat) -> char {
    (48 + d) as char
}

/// `n` in decimal, without leading zeros.
pub open spec fn decimal(n: nat) -> Seq<char>
    decreases n,
{
    if n < 10 {
        seq![digit(n)]
    } else {
        decimal(n / 10).push(digit(n % 10))
    }
}

fn append_digit(text: &mut String, d: u64)
    requires
        d < 10,
    ensures
        final(text)@ == old(text)@.push(digit(d as nat)),
{
    proof {
        reveal_strlit("0");
        reveal_strlit("1");
        reveal_strlit("2");
        reveal_strlit("3");
        reveal_strlit("4");
        reveal_strlit("5");
        reveal_strlit("6");
        reveal_strlit("7");
        reveal_strlit("8");
        reveal_strlit("9");
    }
    let glyph = match d {
        0 => "0",
        1 => "1",
        2 => "2",
        3 => "3",
        4 => "4",
        5 => "5",
        6 => "6",
        7 => "7",
        8 => "8",
        _ => "9",
    };
    assert(glyph@ =~= seq![digit(d as nat)]);
    text.append(glyph);
    assert(text@ =~= old(text)@.push(digit(d as nat)));
}

/// Appends `n` in decimal.
fn append_decimal(text: &mut String, n: u64)
    ensures
        final(text)@ == old(text)@ + decimal(n as nat),
    decreases n,
{
    if n >= 10 {
        append_decimal(text, n / 10);
    }
    append_digit(text, n % 10);
    assert(text@ =~= old(text)@ + decimal(n as nat));
}

impl IdSpaceError {
    /// The error in words.
    pub open spec fn message(self) -> Seq<char> {
        match self {
            IdSpaceError::NeverIngested(id) => "node "@ + decimal(id as nat)
                + " was never allocated here"@,
            IdSpaceError::Hole { entry_bound, highest, ingested } => "node ids "@ + decimal(
                entry_bound as nat,
            ) + "..="@ + decimal(highest as nat) + " were allocated but only "@ + decimal(
                ingested as nat,
            ) + " of them created"@,
            IdSpaceError::Miscounted { graph_bound, expected } =>
                "the graph's node id boundary is "@ + decimal(graph_bound as nat)
                + ", but the ids ingested put it at "@ + decimal(expected as nat),
            IdSpaceError::IdOutOfRange(id) => "node id "@ + decimal(id as nat)
                + " is past the end of the id space"@,
        }
    }

    /// Tells the error in words, with its ids and counts in decimal.
    #[must_use]
    pub fn to_string(&self) -> (text: String)
        ensures
            text@ == self.message(),
            match *self {
                IdSpaceError::NeverIngested(id) => text@ == "node "@ + decimal(id as nat)
                    + " was never allocated here"@,
                IdSpaceError::Hole { entry_bound, highest, ingested } => text@ == "node ids "@
                    + decimal(entry_bound as nat) + "..="@ + decimal(highest as nat)
                    + " were allocated but only "@ + decimal(ingested as nat)
                    + " of them created"@,
                IdSpaceError::Miscounted { graph_bound, expected } => text@
                    == "the graph's node id boundary is "@ + decimal(graph_bound as nat)
                    + ", but the ids ingested put it at "@ + decimal(expected as nat),
                IdSpaceError::IdOutOfRange(id) => text@ == "node id "@ + decimal(id as nat)
                    + " is past the end of the id space"@,
            },
    {
        let mut text = String::new();
        match self {
            IdSpaceError::NeverIngested(id) => {
                text.append("node ");
                append_decimal(&mut text, *id);
                text.append(" was never allocated here");
            },
            IdSpaceError::Hole { entry_bound, highest, ingested } => {
                text.append("node ids ");
                append_decimal(&mut text, *entry_bound);
                text.append("..=");
                append_decimal(&mut text, *highest);
                text.append(" were allocated but only ");
                append_decimal(&mut text, *ingested);
                text.append(" of them created");
            },
            IdSpaceError::Miscounted { graph_bound, expected } => {
                text.append("the graph's node id boundary is ");
                append_decimal(&mut text, *graph_bound);
                text.append(", but the ids ingested put it at ");
                append_decimal(&mut text, *expected);
            },
            IdSpaceError::IdOutOfRange(id) => {
                text.append("node id ");
                append_decimal(&mut text, *id);
                text.append(" is past the end of the id space");
            },
        }
        assert(text@ =~= self.message());
        text
    }
}

} // verus!
