//! The message channels between workers.
//!
//! Any two workers share one channel; the smaller thread ID gets its first port, the larger its
//! second. The main thread posts to workers directly and has no port.

use vstd::prelude::*;

verus! {

/// One of the two ports of a channel.
#[derive(Debug, Clone, Copy, PartialEq, Eq, Structural)]
pub enum PortEnd {
    Port1,
    Port2,
}

/// A port, by the number of its channel in order of creation.
#[derive(Debug, Clone, Copy, PartialEq, Eq, Structural)]
pub struct PortRef {
    pub channel: usize,
    pub end: PortEnd,
}

/// How many channels are created before the first one of thread `i` to a larger thread.
pub open spec fn first_channel(i: int, thread_count: int) -> int
    decreases i,
{
    if i <= 1 {
        0
    } else {
        first_channel(i - 1, thread_count) + (thread_count - i)
    }
}

/// The number of the channel between worker `i` and the larger worker `j`.
pub open spec fn channel_between(i: int, j: int, thread_count: int) -> int {
    first_channel(i, thread_count) + (j - i - 1)
}

/// The port that thread `i` reaches thread `j` by, of `thread_count` threads.
pub open spec fn port_of(i: int, j: int, thread_count: int) -> Option<PortRef> {
    if i == 0 || j == 0 || i == j {
        None
    } else if i < j {
        Some(
            PortRef {
                channel: channel_between(i, j, thread_count) as usize,
                end: PortEnd::Port1,
            },
        )
    } else {
        Some(
            PortRef {
                channel: channel_between(j, i, thread_count) as usize,
                end: PortEnd::Port2,
            },
        )
    }
}

/// `channels` lists the two workers of every channel between `thread_count` threads, the smaller
/// first, by the number of the channel.
pub open spec fn lists_channels(channels: Seq<(usize, usize)>, thread_count: int) -> bool {
    &&& channels.len() == first_channel(thread_count, thread_count)
    &&& forall|i: int, j: int|
        #![trigger channel_between(i, j, thread_count)]
        1 <= i < j < thread_count ==> {
            &&& 0 <= channel_between(i, j, thread_count) < channels.len()
            &&& channels[channel_between(i, j, thread_count)] == (i as usize, j as usize)
        }
}

/// The ports that thread `i` has to all threads, by thread ID.
pub open spec fn ports_of(i: int, thread_count: int) -> Seq<Option<PortRef>> {
    Seq::new(thread_count as nat, |j: int| port_of(i, j, thread_count))
}

/// The ports that are there, in order.
pub open spec fn present(ports: Seq<Option<PortRef>>) -> Seq<PortRef>
    decreases ports.len(),
{
    if ports.len() == 0 {
        Seq::empty()
    } else {
        match ports.last() {
            Some(port) => present(ports.drop_last()).push(port),
            None => present(ports.drop_last()),
        }
    }
}

/// The channels to create, in order, and the ports that each thread gets of them.
pub struct PortPlan {
    /// The two workers of each channel, the smaller first.
    pub channels: Vec<(usize, usize)>,
    /// `ports[i][j]` is the port that thread `i` reaches thread `j` by.
    pub ports: Vec<Vec<Option<PortRef>>>,
}

impl PortPlan {
    /// The plan for `thread_count` threads.
    pub open spec fn plans(&self, thread_count: int) -> bool {
        &&& lists_channels(self.channels@, thread_count)
        &&& self.ports@.len() == thread_count
        &&& forall|i: int|
            0 <= i < thread_count ==> (#[trigger] self.ports@[i])@ == ports_of(i, thread_count)
    }
}

fn no_ports(thread_count: usize) -> (ports: Vec<Vec<Option<PortRef>>>)
    ensures
        ports@.len() == thread_count,
        forall|i: int| 0 <= i < thread_count ==> (#[trigger] ports@[i])@.len() == thread_count,
        forall|i: int, j: int|
            0 <= i < thread_count && 0 <= j < thread_count ==> #[trigger] ports@[i]@[j] is None,
{
    let mut ports: Vec<Vec<Option<PortRef>>> = Vec::with_capacity(thread_count);
    let mut i: usize = 0;
    while i < thread_count
        invariant
            i <= thread_count,
            ports@.len() == i,
            forall|k: int| 0 <= k < i ==> (#[trigger] ports@[k])@.len() == thread_count,
            forall|k: int, j: int|
                0 <= k < i && 0 <= j < thread_count ==> #[trigger] ports@[k]@[j] is None,
        decreases thread_count - i,
    {
        let mut row: Vec<Option<PortRef>> = Vec::with_capacity(thread_count);
        let mut j: usize = 0;
        while j < thread_count
            invariant
                j <= thread_count,
                row@.len() == j,
                forall|k: int| 0 <= k < j ==> #[trigger] row@[k] is None,
            decreases thread_count - j,
        {
            row.push(None);
            j = j + 1;
        }
        ports.push(row);
        i = i + 1;
    }
    ports
}

/// Whether the channel between `a` and `b` was created when worker `i` has got as far as `j`.
spec fn created(a: int, b: int, i: int, j: int) -> bool {
    let low = if a < b {
        a
    } else {
        b
    };
    let high = if a < b {
        b
    } else {
        a
    };
    a != b && 1 <= low && (low < i || (low == i && high < j))
}

/// Plans the channels between the workers of `thread_count` threads.
pub fn plan_ports(thread_count: usize) -> (plan: PortPlan)
    requires
        thread_count >= 1,
    ensures
        plan.plans(thread_count as int),
{
    let ghost n = thread_count as int;
    let mut channels: Vec<(usize, usize)> = Vec::new();
    let mut ports: Vec<Vec<Option<PortRef>>> = no_ports(thread_count);
    let mut i: usize = 1;
    while i < thread_count
        invariant
            n == thread_count,
            1 <= i <= thread_count,
            channels@.len() == first_channel(i as int, n),
            forall|a: int, b: int|
                #![trigger channel_between(a, b, n)]
                1 <= a < b < n && created(a, b, i as int, 0) ==> 0 <= channel_between(a, b, n)
                    < channels@.len() && channels@[channel_between(a, b, n)] == (
                    a as usize,
                    b as usize,
                ),
            ports@.len() == n,
            forall|a: int| 0 <= a < n ==> (#[trigger] ports@[a])@.len() == n,
            forall|a: int, b: int|
                0 <= a < n && 0 <= b < n ==> #[trigger] ports@[a]@[b] == (if created(
                    a,
                    b,
                    i as int,
                    0,
                ) {
                    port_of(a, b, n)
                } else {
                    None
                }),
        decreases thread_count - i,
    {
        let mut j: usize = i + 1;
        while j < thread_count
            invariant
                n == thread_count,
                1 <= i < j <= thread_count,
                channels@.len() == channel_between(i as int, j as int, n),
                forall|a: int, b: int|
                    #![trigger channel_between(a, b, n)]
                    1 <= a < b < n && created(a, b, i as int, j as int) ==> 0
                        <= channel_between(a, b, n) < channels@.len()
                        && channels@[channel_between(a, b, n)] == (a as usize, b as usize),
                ports@.len() == n,
                forall|a: int| 0 <= a < n ==> (#[trigger] ports@[a])@.len() == n,
                forall|a: int, b: int|
                    0 <= a < n && 0 <= b < n ==> #[trigger] ports@[a]@[b] == (if created(
                        a,
                        b,
                        i as int,
                        j as int,
                    ) {
                        port_of(a, b, n)
                    } else {
                        None
                    }),
            decreases thread_count - j,
        {
            let channel: usize = channels.len();
            channels.push((i, j));
            ports[i][j] = Some(PortRef { channel, end: PortEnd::Port1 });
            ports[j][i] = Some(PortRef { channel, end: PortEnd::Port2 });
            j = j + 1;
        }
        i = i + 1;
    }
    assert forall|a: int| 0 <= a < n implies (#[trigger] ports@[a])@ == ports_of(a, n) by {
        assert(ports@[a]@ =~= ports_of(a, n));
    }
    PortPlan { channels, ports }
}

/// No thread has a port to the main thread or to itself, and the main thread has none at all.
pub proof fn law_no_port_to_main_or_self(i: int, thread_count: int)
    ensures
        port_of(i, 0, thread_count) is None,
        port_of(0, i, thread_count) is None,
        port_of(i, i, thread_count) is None,
{
}

/// Any two workers hold the two ports of one channel, and the smaller has the first port.
pub proof fn law_ports_pair_up(i: int, j: int, thread_count: int)
    requires
        1 <= i < j < thread_count,
    ensures
        port_of(i, j, thread_count) is Some,
        port_of(j, i, thread_count) is Some,
        port_of(i, j, thread_count)->0.channel == port_of(j, i, thread_count)->0.channel,
        port_of(i, j, thread_count)->0.end == PortEnd::Port1,
        port_of(j, i, thread_count)->0.end == PortEnd::Port2,
{
}

/// The ports to transfer to a worker are those that it has.
pub proof fn law_transfer_is_what_is_there(ports: Seq<Option<PortRef>>, port: PortRef)
    ensures
        present(ports).contains(port) <==> ports.contains(Some(port)),
    decreases ports.len(),
{
    if ports.len() != 0 {
        let earlier = ports.drop_last();
        law_transfer_is_what_is_there(earlier, port);
        let taken = present(earlier);
        if ports.last() is Some {
            let last = ports.last()->0;
            assert(present(ports)[taken.len() as int] == last);
            if taken.contains(port) {
                let i = choose|i: int| 0 <= i < taken.len() && taken[i] == port;
                assert(present(ports)[i] == port);
            }
        }
        if earlier.contains(Some(port)) {
            let i = choose|i: int| 0 <= i < earlier.len() && earlier[i] == Some(port);
            assert(ports[i] == Some(port));
        }
        if ports.contains(Some(port)) && ports.last() != Some(port) {
            let i = choose|i: int| 0 <= i < ports.len() && ports[i] == Some(port);
            assert(earlier[i] == Some(port));
        }
        if ports.last() == Some(port) {
            assert(ports[ports.len() - 1] == Some(port));
        }
    }
}

/// There is one channel for every two workers.
pub proof fn law_channel_count(thread_count: int)
    requires
        thread_count >= 1,
    ensures
        2 * first_channel(thread_count, thread_count) == (thread_count - 1) * (thread_count - 2),
{
    lemma_first_channel(thread_count, thread_count);
    assert((thread_count - 1) * (2 * thread_count - thread_count - 2) == (thread_count - 1) * (
    thread_count - 2));
}

proof fn lemma_first_channel(i: int, thread_count: int)
    requires
        1 <= i <= thread_count,
    ensures
        2 * first_channel(i, thread_count) == (i - 1) * (2 * thread_count - i - 2),
        first_channel(i, thread_count) >= 0,
    decreases i,
{
    if i > 1 {
        lemma_first_channel(i - 1, thread_count);
        assert((i - 2) * (2 * thread_count - (i - 1) - 2) + 2 * (thread_count - i) == (i - 1) * (2
            * thread_count - i - 2)) by (nonlinear_arith);
    }
}

proof fn lemma_first_channel_grows(i: int, k: int, thread_count: int)
    requires
        1 <= i <= k <= thread_count,
    ensures
        first_channel(i, thread_count) <= first_channel(k, thread_count),
    decreases k - i,
{
    if i < k {
        lemma_first_channel_grows(i, k - 1, thread_count);
    }
}

/// No two pairs of workers share a channel.
pub proof fn law_channels_are_distinct(i: int, j: int, k: int, l: int, thread_count: int)
    requires
        1 <= i < j < thread_count,
        1 <= k < l < thread_count,
        channel_between(i, j, thread_count) == channel_between(k, l, thread_count),
    ensures
        i == k,
        j == l,
{
    if i < k {
        lemma_first_channel_grows(i + 1, k, thread_count);
    } else if k < i {
        lemma_first_channel_grows(k + 1, i, thread_count);
    }
}

/// Every port is held by one worker, for one other worker.
pub proof fn law_ports_are_given_once(i: int, j: int, k: int, l: int, thread_count: int)
    requires
        0 <= i < thread_count,
        0 <= j < thread_count,
        0 <= k < thread_count,
        0 <= l < thread_count,
        first_channel(thread_count, thread_count) <= usize::MAX,
        port_of(i, j, thread_count) is Some,
        port_of(i, j, thread_count) == port_of(k, l, thread_count),
    ensures
        i == k,
        j == l,
{
    let (a, b) = if i < j {
        (i, j)
    } else {
        (j, i)
    };
    let (c, d) = if k < l {
        (k, l)
    } else {
        (l, k)
    };
    lemma_first_channel(a, thread_count);
    lemma_first_channel(c, thread_count);
    lemma_first_channel_grows(a + 1, thread_count, thread_count);
    lemma_first_channel_grows(c + 1, thread_count, thread_count);
    law_channels_are_distinct(a, b, c, d, thread_count);
}

proof fn lemma_channel_has_workers(c: int, k: int, thread_count: int)
    requires
        1 <= k <= thread_count,
        0 <= c < first_channel(k, thread_count),
    ensures
        exists|i: int, j: int|
            1 <= i < j < thread_count && #[trigger] channel_between(i, j, thread_count) == c,
    decreases k,
{
    if k > 1 {
        let before = first_channel(k - 1, thread_count);
        if c < before {
            lemma_channel_has_workers(c, k - 1, thread_count);
        } else {
            let i = k - 1;
            let j = k + (c - before);
            assert(channel_between(i, j, thread_count) == c);
        }
    }
}

/// The ports of a thread are one for each thread, in order.
pub proof fn law_ports_by_thread(i: int, j: int, thread_count: int)
    requires
        0 <= j < thread_count,
    ensures
        ports_of(i, thread_count).len() == thread_count,
        ports_of(i, thread_count)[j] == port_of(i, j, thread_count),
{
}

/// The ports that are there are taken in their order, each once.
pub proof fn law_present_ports_in_order(ports: Seq<Option<PortRef>>, port: PortRef)
    ensures
        present(Seq::empty()) == Seq::<PortRef>::empty(),
        present(ports.push(Some(port))) == present(ports).push(port),
        present(ports.push(None)) == present(ports),
{
    assert(ports.push(Some(port)).drop_last() =~= ports);
    assert(ports.push(None).drop_last() =~= ports);
}

/// What every plan gives any two workers: the two ends of one channel, which the plan lists as
/// theirs. The main thread has no port, and no thread has one to the main thread or to itself.
pub proof fn law_what_a_port_plan_gives(plan: PortPlan, thread_count: int, i: int, j: int)
    requires
        plan.plans(thread_count),
        1 <= i < j < thread_count,
    ensures
        plan.ports@.len() == thread_count,
        plan.ports@[i]@.len() == thread_count,
        plan.ports@[0]@.len() == thread_count,
        plan.ports@[i]@[0] is None,
        plan.ports@[0]@[i] is None,
        plan.ports@[i]@[i] is None,
        plan.ports@[j]@[j] is None,
        plan.ports@[0]@[0] is None,
        plan.ports@[i]@[j] is Some,
        plan.ports@[j]@[i] is Some,
        plan.ports@[i]@[j]->0.channel == plan.ports@[j]@[i]->0.channel,
        plan.ports@[i]@[j]->0.end == PortEnd::Port1,
        plan.ports@[j]@[i]->0.end == PortEnd::Port2,
        0 <= plan.ports@[i]@[j]->0.channel < plan.channels@.len(),
        plan.channels@[plan.ports@[i]@[j]->0.channel as int].0 == i,
        plan.channels@[plan.ports@[i]@[j]->0.channel as int].1 == j,
        2 * plan.channels@.len() == (thread_count - 1) * (thread_count - 2),
{
    assert(plan.ports.len() == plan.ports@.len());
    assert(plan.channels.len() == plan.channels@.len());
    let channel = channel_between(i, j, thread_count);
    assert(0 <= channel < plan.channels@.len());
    assert(plan.ports@[i]@ == ports_of(i, thread_count));
    assert(plan.ports@[j]@ == ports_of(j, thread_count));
    assert(plan.ports@[0]@ == ports_of(0, thread_count));
    law_channel_count(thread_count);
}

/// Every channel of a plan is between two different workers, the smaller listed first.
pub proof fn law_channels_are_between_workers(plan: PortPlan, thread_count: int, c: int)
    requires
        plan.plans(thread_count),
        thread_count >= 1,
        0 <= c < plan.channels@.len(),
    ensures
        1 <= plan.channels@[c].0 < plan.channels@[c].1 < thread_count,
{
    assert(plan.ports.len() == plan.ports@.len());
    lemma_channel_has_workers(c, thread_count, thread_count);
    let (i, j) = choose|i: int, j: int|
        1 <= i < j < thread_count && #[trigger] channel_between(i, j, thread_count) == c;
    assert(plan.channels@[channel_between(i, j, thread_count)] == (i as usize, j as usize));
}

} // verus!
