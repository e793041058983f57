use vstd::prelude::*;

verus! {

/// The configuration shared by all sprinklers of a deployment; each sprinkler
/// gets its own id and hostname.
#[derive(Clone)]
pub struct SprinklerOptions {
    /// Seconds between two heartbeats.
    pub heart_beat: u64,
    /// Seconds to wait before retrying a failed connection.
    pub retry_delay: u64,
    /// Where the master threads listen.
    pub master_addr: String,
    pub _id: usize,
    pub _hostname: String,
}

impl Default for SprinklerOptions {
    fn default() -> (res: Self)
        ensures
            res.heart_beat == 3,
            res.retry_delay == 20,
            res.master_addr@ == "localhost"@,
            res._id == 0,
            res._hostname@ == "localhost"@,
    {
        SprinklerOptions {
            heart_beat: 3,
            retry_delay: 20,
            master_addr: String::from_str("localhost"),
            _id: 0,
            _hostname: String::from_str("localhost"),
        }
    }
}

/// Hands out sprinkler options with systemwide ids, in the order in which the
/// sprinklers are built.
pub struct SprinklerBuilder {
    params: SprinklerOptions,
    counter: usize,
}

impl SprinklerBuilder {
    /// The options that every sprinkler built here shares.
    pub closed spec fn options(self) -> SprinklerOptions {
        self.params
    }

    /// The id that the next sprinkler built here gets.
    pub closed spec fn next_id(self) -> usize {
        self.counter
    }

    pub fn new(params: SprinklerOptions) -> (res: Self)
        ensures
            res.options() == params,
            res.next_id() == 0,
    {
        SprinklerBuilder { params, counter: 0 }
    }

    /// The id that the next sprinkler built here gets.
    pub fn counter(&self) -> (res: usize)
        ensures
            res == self.next_id(),
    {
        self.counter
    }

    /// The options of the next sprinkler, deployed on `hostname`: the shared
    /// options with the next id, which is then used up.
    pub fn next_options(&mut self, hostname: String) -> (res: SprinklerOptions)
        requires
            old(self).next_id() < usize::MAX,
        ensures
            builds(*old(self), *final(self), res),
            res._hostname == hostname,
    {
        let next = self.counter;
        self.counter += 1;
        SprinklerOptions {
            heart_beat: self.params.heart_beat,
            retry_delay: self.params.retry_delay,
            master_addr: self.params.master_addr.clone(),
            _id: next,
            _hostname: hostname,
        }
    }
}

/// One build step: `after` is `before` with its id used up, and `built` holds
/// the shared options of `before` with that id.
pub open spec fn builds(before: SprinklerBuilder, after: SprinklerBuilder, built: SprinklerOptions) -> bool {
    &&& after.options() == before.options()
    &&& after.next_id() == before.next_id() + 1
    &&& built.heart_beat == before.options().heart_beat
    &&& built.retry_delay == before.options().retry_delay
    &&& built.master_addr == before.options().master_addr
    &&& built._id == before.next_id()
}

/// Sprinklers built one after another from a fresh builder get the ids
/// 0, 1, ..., n - 1: one systemwide id each, no two alike. `states[i]` is the
/// builder before the `i`-th build and `built[i]` what that build handed out.
pub proof fn lemma_builds_distinct_ids(states: Seq<SprinklerBuilder>, built: Seq<SprinklerOptions>)
    requires
        states.len() == built.len() + 1,
        states[0].next_id() == 0,
        forall|i: int| 0 <= i < built.len() ==> builds(#[trigger] states[i], states[i + 1], built[i]),
    ensures
        forall|i: int| 0 <= i < built.len() ==> #[trigger] built[i]._id == i,
        forall|i: int, j: int| 0 <= i < j < built.len() ==> #[trigger] built[i]._id != #[trigger] built[j]._id,
{
    assert forall|i: int| 0 <= i < states.len() implies #[trigger] states[i].next_id() == i by {
        lemma_builder_counts(states, built, i);
    }
    assert forall|i: int| 0 <= i < built.len() implies #[trigger] built[i]._id == i by {
        assert(builds(states[i], states[i + 1], built[i]));
        assert(states[i].next_id() == i);
    }
}

/// After `k` builds from a fresh builder, the next id is `k`.
proof fn lemma_builder_counts(states: Seq<SprinklerBuilder>, built: Seq<SprinklerOptions>, k: int)
    requires
        states.len() == built.len() + 1,
        states[0].next_id() == 0,
        forall|i: int| 0 <= i < built.len() ==> builds(#[trigger] states[i], states[i + 1], built[i]),
        0 <= k < states.len(),
    ensures
        states[k].next_id() == k,
    decreases k,
{
    if k > 0 {
        lemma_builder_counts(states, built, k - 1);
        assert(builds(states[k - 1], states[k], built[k - 1]));
    }
}

/// How long an agent waits, in seconds, before its next round beyond the
/// heartbeat: `retry_delay` after it could not connect to the master or not
/// send its message, nothing otherwise.
pub fn agent_retry_pause(connected: bool, sent: bool, options: &SprinklerOptions) -> (res: Option<u64>)
    ensures
        res == (if connected && sent { None } else { Some(options.retry_delay) }),
{
    if connected && sent {
        None
    } else {
        Some(options.retry_delay)
    }
}

/// The positions of the sprinklers whose agents run on `local`, in order.
pub fn select_agents(hostnames: &Vec<String>, local: &String) -> (res: Vec<usize>)
    ensures
        forall|k: int| 0 <= k < res.len() ==> #[trigger] res[k] < hostnames.len() && hostnames[res[k] as int]@ == local@,
        forall|k1: int, k2: int| 0 <= k1 < k2 < res.len() ==> #[trigger] res[k1] < #[trigger] res[k2],
        forall|i: int| 0 <= i < hostnames.len() && #[trigger] hostnames[i]@ == local@ ==> res@.contains(i as usize),
{
    let mut res: Vec<usize> = Vec::new();
    let mut i: usize = 0;
    while i < hostnames.len()
        invariant
            i <= hostnames.len(),
            forall|k: int| 0 <= k < res.len() ==> #[trigger] res[k] < i && hostnames[res[k] as int]@ == local@,
            forall|k1: int, k2: int| 0 <= k1 < k2 < res.len() ==> #[trigger] res[k1] < #[trigger] res[k2],
            forall|j: int| 0 <= j < i && #[trigger] hostnames[j]@ == local@ ==> res@.contains(j as usize),
        decreases hostnames.len() - i,
    {
        if hostnames[i] == *local {
            let ghost prev = res@;
            res.push(i);
            assert(res@[prev.len() as int] == i);
            assert forall|j: int| 0 <= j < i && #[trigger] hostnames[j]@ == local@ implies res@.contains(j as usize) by {
                let k = choose|k: int| 0 <= k < prev.len() && prev[k] == j as usize;
                assert(res@[k] == j as usize);
            }
        }
        i += 1;
    }
    res
}

} // verus!
