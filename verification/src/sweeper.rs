//! The periodic sweep of retained series. A retained series outlives the
//! time for which its data is fresh; so, timeframe by timeframe, the
//! publisher clears the retained series of a fixed set of symbols and then
//! rests for the refresh interval of that timeframe.

use vstd::prelude::*;
use crate::publisher::{
    publications_view, publish_empty_retained_message, spec_clearing_publication, Publication,
    PublicationView,
};
use crate::timeframe::{refresh_interval_secs, spec_refresh_interval_secs};
use crate::topics::{historical_topic, spec_historical_topic};

verus! {

/// Seconds that pass between the start of the publisher and the first sweep.
pub const SWEEP_WARMUP_SECS: u64 = 300;

/// Number of timeframes that are swept.
pub const SWEEP_TIMEFRAME_COUNT: usize = 6;

/// Number of symbols that are swept.
pub const SWEEP_SYMBOL_COUNT: usize = 10;

/// The timeframes that are swept, in the order of the sweep.
pub open spec fn spec_sweep_timeframes() -> Seq<Seq<char>> {
    seq!["1h"@, "24h"@, "7d"@, "30d"@, "90d"@, "365d"@]
}

/// The symbols whose series are swept.
pub open spec fn spec_sweep_symbols() -> Seq<Seq<char>> {
    seq!["BTC"@, "ETH"@, "ADA"@, "SOL"@, "DOT"@, "MATIC"@, "LINK"@, "XRP"@, "LTC"@, "BCH"@]
}

/// Seconds of rest after the sweep of each timeframe, in the order of the
/// sweep.
pub open spec fn spec_sweep_rests() -> Seq<u64> {
    seq![300, 3600, 7200, 21600, 86400, 86400]
}

/// The `position`-th timeframe of the sweep.
pub fn sweep_timeframe(position: usize) -> (timeframe: &'static str)
    requires
        position < SWEEP_TIMEFRAME_COUNT,
    ensures
        timeframe@ == spec_sweep_timeframes()[position as int],
{
    if position == 0 {
        "1h"
    } else if position == 1 {
        "24h"
    } else if position == 2 {
        "7d"
    } else if position == 3 {
        "30d"
    } else if position == 4 {
        "90d"
    } else {
        "365d"
    }
}

/// The `index`-th symbol of the sweep.
pub fn sweep_symbol(index: usize) -> (symbol: &'static str)
    requires
        index < SWEEP_SYMBOL_COUNT,
    ensures
        symbol@ == spec_sweep_symbols()[index as int],
{
    if index == 0 {
        "BTC"
    } else if index == 1 {
        "ETH"
    } else if index == 2 {
        "ADA"
    } else if index == 3 {
        "SOL"
    } else if index == 4 {
        "DOT"
    } else if index == 5 {
        "MATIC"
    } else if index == 6 {
        "LINK"
    } else if index == 7 {
        "XRP"
    } else if index == 8 {
        "LTC"
    } else {
        "BCH"
    }
}

/// The rest after the sweep of each timeframe is the refresh interval of
/// that timeframe.
pub proof fn lemma_sweep_rests(position: int)
    requires
        0 <= position < SWEEP_TIMEFRAME_COUNT,
    ensures
        spec_refresh_interval_secs(spec_sweep_timeframes()[position]) == spec_sweep_rests()[position],
{
    reveal_strlit("1h");
    reveal_strlit("24h");
    reveal_strlit("7d");
    reveal_strlit("30d");
    reveal_strlit("90d");
    reveal_strlit("365d");
    let t = spec_sweep_timeframes()[position];
    if position == 0 {
        assert(t == "1h"@);
    } else if position == 1 {
        assert(t == "24h"@);
        assert(t.len() == 3);
    } else if position == 2 {
        assert(t == "7d"@);
        assert(t[0] == '7');
    } else if position == 3 {
        assert(t == "30d"@);
        assert(t[0] == '3' && t[1] == '0');
    } else if position == 4 {
        assert(t == "90d"@);
        assert(t[0] == '9');
    } else {
        assert(t == "365d"@);
        assert(t.len() == 4);
    }
}

/// The publications that clear the retained series of every swept symbol
/// over `timeframe`, in the order of the symbols.
pub open spec fn spec_sweep_publications(timeframe: Seq<char>) -> Seq<PublicationView> {
    Seq::new(
        SWEEP_SYMBOL_COUNT as nat,
        |i: int| spec_clearing_publication(spec_historical_topic(spec_sweep_symbols()[i], timeframe)),
    )
}

/// The publications that clear the retained series of every swept symbol
/// over `timeframe`.
pub fn sweep_publications(timeframe: &str) -> (publications: Vec<Publication>)
    ensures
        publications_view(publications@) == spec_sweep_publications(timeframe@),
{
    let mut publications: Vec<Publication> = Vec::new();
    let mut i: usize = 0;
    while i < SWEEP_SYMBOL_COUNT
        invariant
            i <= SWEEP_SYMBOL_COUNT,
            publications@.len() == i,
            forall|j: int|
                0 <= j < i ==> (#[trigger] publications@[j])@ == spec_clearing_publication(
                    spec_historical_topic(spec_sweep_symbols()[j], timeframe@),
                ),
        decreases SWEEP_SYMBOL_COUNT - i,
    {
        let topic = historical_topic(sweep_symbol(i), timeframe);
        publications.push(publish_empty_retained_message(topic.as_str()));
        i = i + 1;
    }
    assert(publications_view(publications@) =~= spec_sweep_publications(timeframe@));
    publications
}

/// One step of the sweep: what to publish, and how long to rest then.
#[derive(Debug)]
pub struct SweepStep {
    pub clear: Vec<Publication>,
    pub sleep_secs: u64,
}

/// Where the sweep stands in its cycle.
#[derive(Debug)]
pub struct Sweeper {
    /// Position of the timeframe that is swept next.
    pub position: usize,
}

impl Sweeper {
    /// The sweep stands at one of its timeframes.
    pub open spec fn well_formed(&self) -> bool {
        self.position < SWEEP_TIMEFRAME_COUNT
    }

    /// Whether the sweep stands at one of its timeframes.
    pub fn is_well_formed(&self) -> (ok: bool)
        ensures
            ok == self.well_formed(),
    {
        self.position < SWEEP_TIMEFRAME_COUNT
    }

    /// A sweep that begins with the first timeframe.
    pub fn new() -> (sweeper: Self)
        ensures
            sweeper.well_formed(),
            sweeper.position == 0,
    {
        Sweeper { position: 0 }
    }

    /// Sweeps the next timeframe: clears the retained series of every swept
    /// symbol over it, rests for its refresh interval, and moves on to the
    /// timeframe after it, or back to the first after the last.
    pub fn next_step(&mut self) -> (step: SweepStep)
        requires
            old(self).well_formed(),
        ensures
            final(self).well_formed(),
            final(self).position == (old(self).position + 1) % (SWEEP_TIMEFRAME_COUNT as int),
            publications_view(step.clear@) == spec_sweep_publications(
                spec_sweep_timeframes()[old(self).position as int],
            ),
            step.sleep_secs == spec_sweep_rests()[old(self).position as int],
    {
        let timeframe = sweep_timeframe(self.position);
        proof {
            lemma_sweep_rests(self.position as int);
        }
        let step = SweepStep {
            clear: sweep_publications(timeframe),
            sleep_secs: refresh_interval_secs(timeframe),
        };
        self.position = if self.position + 1 < SWEEP_TIMEFRAME_COUNT {
            self.position + 1
        } else {
            0
        };
        step
    }
}

/// The position of the sweep after `steps` steps from `position`.
pub open spec fn spec_position_after(position: int, steps: nat) -> int
    decreases steps,
{
    if steps == 0 {
        position
    } else {
        (spec_position_after(position, (steps - 1) as nat) + 1) % (SWEEP_TIMEFRAME_COUNT as int)
    }
}

/// Each step moves the sweep on by one timeframe, around the cycle.
pub proof fn lemma_position_after(position: int, steps: nat)
    requires
        0 <= position < SWEEP_TIMEFRAME_COUNT,
    ensures
        spec_position_after(position, steps) == (position + steps) % 6,
    decreases steps,
{
    if steps > 0 {
        lemma_position_after(position, (steps - 1) as nat);
    }
}

/// The sweep cycles: after as many steps as there are timeframes it stands
/// where it stood.
pub proof fn lemma_sweep_cycles(position: int)
    requires
        0 <= position < SWEEP_TIMEFRAME_COUNT,
    ensures
        spec_position_after(position, SWEEP_TIMEFRAME_COUNT as nat) == position,
{
    lemma_position_after(position, SWEEP_TIMEFRAME_COUNT as nat);
}

/// Within one cycle the sweep comes to every timeframe: from `position` it
/// stands at `target` after the number of steps that lie between them.
pub proof fn lemma_sweep_reaches(position: int, target: int)
    requires
        0 <= position < SWEEP_TIMEFRAME_COUNT,
        0 <= target < SWEEP_TIMEFRAME_COUNT,
    ensures
        spec_position_after(position, ((target - position + 6) % 6) as nat) == target,
{
    lemma_position_after(position, ((target - position + 6) % 6) as nat);
}

} // verus!
