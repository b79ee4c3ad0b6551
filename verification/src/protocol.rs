//! The synchronizer: a ghost model of the two-thread ping-pong handoff. The
//! producer encodes into `temp`, blocks for the consumer's "request" token,
//! publishes (`temp` to `back`), and emits a "ready" token; the consumer
//! blocks for "ready", displays `front`, swaps `front` and `back`, and emits
//! the next "request". The model captures every interleaving of the two
//! threads' atomic steps and proves the handoff's ordering and boundedness
//! guarantees over all of them.
use vstd::prelude::*;
use crate::ring::{RingOp, Roles};

verus! {

/// Where the producer thread is in its per-frame cycle.
pub enum ProducerPhase {
    /// About to encode the next frame into the `temp` slot.
    Encode,
    /// Encoded; blocked until a "request" token arrives.
    AwaitRequest,
    /// Token consumed; about to publish `temp` to `back`.
    Publish,
    /// Published; about to emit a "ready" token.
    SignalReady,
}

/// Where the consumer thread is in its per-frame cycle.
pub enum ConsumerPhase {
    /// Before the loop: about to emit the one initial "request" token.
    Init,
    /// Blocked until a "ready" token arrives.
    AwaitReady,
    /// Token consumed; about to display the `front` slot.
    Display,
    /// Displayed; about to swap `front` and `back`.
    Swap,
    /// Swapped; about to emit the next "request" token.
    SignalRequest,
}

/// One atomic step of either thread.
pub enum Step {
    ProdEncode,
    ProdTakeRequest,
    ProdPublish,
    ProdSignalReady,
    ConsInit,
    ConsTakeReady,
    ConsDisplay,
    ConsSwap,
    ConsSignalRequest,
}

/// The whole system's state: the ring's roles, the frame-sequence stamp
/// stored in each slot, the outstanding tokens on the two signal channels,
/// each thread's phase, how many frames have been encoded and published, and
/// the stamps the consumer has observed, in display order.
pub struct Proto {
    pub roles: Roles,
    pub stamps: Seq<int>,
    pub request: int,
    pub ready: int,
    pub prod: ProducerPhase,
    pub cons: ConsumerPhase,
    pub encoded: int,
    pub published: int,
    pub displayed: Seq<int>,
}

/// The startup state: freshly allocated ring, stamp 0 in every slot, no
/// tokens, both threads at the top of their cycles, nothing encoded,
/// published, or displayed.
pub open spec fn init(s: Proto) -> bool {
    &&& s.roles == (Roles { front: 0, back: 1, temp: 2 })
    &&& s.stamps == seq![0int, 0int, 0int]
    &&& s.request == 0
    &&& s.ready == 0
    &&& s.prod == ProducerPhase::Encode
    &&& s.cons == ConsumerPhase::Init
    &&& s.encoded == 0
    &&& s.published == 0
    &&& s.displayed == Seq::<int>::empty()
}

/// Whether a step can fire: each thread takes its cycle in order, and the
/// two token-consuming steps block until a token is outstanding.
pub open spec fn enabled(s: Proto, step: Step) -> bool {
    match step {
        Step::ProdEncode => s.prod == ProducerPhase::Encode,
        Step::ProdTakeRequest => s.prod == ProducerPhase::AwaitRequest && s.request >= 1,
        Step::ProdPublish => s.prod == ProducerPhase::Publish,
        Step::ProdSignalReady => s.prod == ProducerPhase::SignalReady,
        Step::ConsInit => s.cons == ConsumerPhase::Init,
        Step::ConsTakeReady => s.cons == ConsumerPhase::AwaitReady && s.ready >= 1,
        Step::ConsDisplay => s.cons == ConsumerPhase::Display,
        Step::ConsSwap => s.cons == ConsumerPhase::Swap,
        Step::ConsSignalRequest => s.cons == ConsumerPhase::SignalRequest,
    }
}

/// The effect of one step.
pub open spec fn apply(s: Proto, step: Step) -> Proto {
    match step {
        Step::ProdEncode => Proto {
            prod: ProducerPhase::AwaitRequest,
            encoded: s.encoded + 1,
            stamps: s.stamps.update(s.roles.temp, s.encoded + 1),
            ..s
        },
        Step::ProdTakeRequest => Proto { prod: ProducerPhase::Publish, request: s.request - 1, ..s },
        Step::ProdPublish => Proto {
            prod: ProducerPhase::SignalReady,
            roles: s.roles.apply(RingOp::Publish),
            published: s.published + 1,
            ..s
        },
        Step::ProdSignalReady => Proto { prod: ProducerPhase::Encode, ready: s.ready + 1, ..s },
        Step::ConsInit => Proto { cons: ConsumerPhase::AwaitReady, request: s.request + 1, ..s },
        Step::ConsTakeReady => Proto { cons: ConsumerPhase::Display, ready: s.ready - 1, ..s },
        Step::ConsDisplay => Proto {
            cons: ConsumerPhase::Swap,
            displayed: s.displayed.push(s.stamps[s.roles.front]),
            ..s
        },
        Step::ConsSwap => Proto {
            cons: ConsumerPhase::SignalRequest,
            roles: s.roles.apply(RingOp::Swap),
            ..s
        },
        Step::ConsSignalRequest => Proto {
            cons: ConsumerPhase::AwaitReady,
            request: s.request + 1,
            ..s
        },
    }
}

/// How many frames the consumer has displayed.
pub open spec fn displays(s: Proto) -> int {
    s.displayed.len() as int
}

/// The producer is between publishes: encoding or waiting for a request.
pub open spec fn prod_idle(s: Proto) -> bool {
    s.prod == ProducerPhase::Encode || s.prod == ProducerPhase::AwaitRequest
}

/// Facts that hold in every phase: the roles are a permutation of the three
/// slots; tokens never pile up (at most one outstanding, over both channels
/// together); at most one frame is encoded past the last publish, and the
/// producer's cycle position pins the difference; the slot the producer is
/// about to publish carries the newest stamp; and the consumer has observed
/// exactly the stamps 0, 1, 2, ... in order.
pub open spec fn inv_base(s: Proto) -> bool {
    &&& s.roles.is_permutation()
    &&& s.stamps.len() == 3
    &&& 0 <= s.request <= 1
    &&& 0 <= s.ready <= 1
    &&& s.request + s.ready <= 1
    &&& 0 <= s.published
    &&& s.published <= s.encoded <= s.published + 1
    &&& (s.prod == ProducerPhase::Encode ==> s.encoded == s.published)
    &&& (s.prod == ProducerPhase::AwaitRequest || s.prod == ProducerPhase::Publish ==> {
        &&& s.encoded == s.published + 1
        &&& s.stamps[s.roles.temp] == s.encoded
    })
    &&& (s.prod == ProducerPhase::SignalReady ==> s.encoded == s.published)
    &&& (forall|i: int| 0 <= i < s.displayed.len() ==> s.displayed[i] == i)
}

/// Startup: the consumer has not yet emitted the initial request; nothing
/// can have been published or displayed, and the initial blank frame (stamp
/// 0) is still at `front`.
pub open spec fn case_startup(s: Proto) -> bool {
    &&& s.cons == ConsumerPhase::Init
    &&& s.request == 0
    &&& s.ready == 0
    &&& prod_idle(s)
    &&& s.published == 0
    &&& displays(s) == 0
    &&& s.stamps[s.roles.front] == 0
}

/// A "request" token is in flight: the consumer is blocked on "ready", the
/// producer has not yet consumed the token.
pub open spec fn case_request(s: Proto) -> bool {
    &&& s.request == 1
    &&& s.ready == 0
    &&& s.cons == ConsumerPhase::AwaitReady
    &&& prod_idle(s)
    &&& s.published == displays(s)
    &&& s.stamps[s.roles.front] == displays(s)
}

/// The producer holds the turn: it consumed the request and is publishing
/// and signalling while the consumer stays blocked on "ready".
pub open spec fn case_producer(s: Proto) -> bool {
    &&& s.request == 0
    &&& s.ready == 0
    &&& s.cons == ConsumerPhase::AwaitReady
    &&& s.stamps[s.roles.front] == displays(s)
    &&& (s.prod == ProducerPhase::Publish ==> s.published == displays(s))
    &&& (s.prod == ProducerPhase::SignalReady ==> {
        &&& s.published == displays(s) + 1
        &&& s.stamps[s.roles.back] == displays(s) + 1
    })
    &&& (s.prod == ProducerPhase::Publish || s.prod == ProducerPhase::SignalReady)
}

/// A "ready" token is in flight: the newly published frame sits at `back`
/// with the next stamp, the consumer has not yet consumed the token.
pub open spec fn case_ready(s: Proto) -> bool {
    &&& s.ready == 1
    &&& s.request == 0
    &&& s.cons == ConsumerPhase::AwaitReady
    &&& prod_idle(s)
    &&& s.published == displays(s) + 1
    &&& s.stamps[s.roles.front] == displays(s)
    &&& s.stamps[s.roles.back] == displays(s) + 1
}

/// The consumer holds the turn: displaying, swapping, and signalling while
/// the producer is encoding or blocked on the next request.
pub open spec fn case_consumer(s: Proto) -> bool {
    &&& s.request == 0
    &&& s.ready == 0
    &&& prod_idle(s)
    &&& (s.cons == ConsumerPhase::Display ==> {
        &&& s.published == displays(s) + 1
        &&& s.stamps[s.roles.front] == displays(s)
        &&& s.stamps[s.roles.back] == displays(s) + 1
    })
    &&& (s.cons == ConsumerPhase::Swap ==> {
        &&& s.published == displays(s)
        &&& s.stamps[s.roles.back] == displays(s)
    })
    &&& (s.cons == ConsumerPhase::SignalRequest ==> {
        &&& s.published == displays(s)
        &&& s.stamps[s.roles.front] == displays(s)
    })
    &&& (s.cons == ConsumerPhase::Display || s.cons == ConsumerPhase::Swap || s.cons
        == ConsumerPhase::SignalRequest)
}

/// The protocol invariant: the base facts, and exactly one party — startup,
/// a token in flight on either channel, or one of the two threads — holds
/// the turn.
pub open spec fn inv(s: Proto) -> bool {
    &&& inv_base(s)
    &&& (case_startup(s) || case_request(s) || case_producer(s) || case_ready(s)
        || case_consumer(s))
}

/// The startup state satisfies the invariant.
pub proof fn lemma_init_inv(s: Proto)
    requires
        init(s),
    ensures
        inv(s),
{
}

/// Every enabled step preserves the invariant, whichever thread takes it and
/// however the threads' steps interleave.
pub proof fn lemma_step_inv(s: Proto, step: Step)
    requires
        inv(s),
        enabled(s, step),
    ensures
        inv(apply(s, step)),
{
}

/// A run: the state after a sequence of steps, oldest first.
pub open spec fn run(s: Proto, steps: Seq<Step>) -> Proto
    decreases steps.len(),
{
    if steps.len() == 0 {
        s
    } else {
        run(apply(s, steps[0]), steps.drop_first())
    }
}

/// Whether every step of the sequence is enabled when its turn comes.
pub open spec fn valid_run(s: Proto, steps: Seq<Step>) -> bool
    decreases steps.len(),
{
    if steps.len() == 0 {
        true
    } else {
        enabled(s, steps[0]) && valid_run(apply(s, steps[0]), steps.drop_first())
    }
}

/// The invariant holds after any valid run from a state that satisfies it.
pub proof fn lemma_run_inv(s: Proto, steps: Seq<Step>)
    requires
        inv(s),
        valid_run(s, steps),
    ensures
        inv(run(s, steps)),
    decreases steps.len(),
{
    if steps.len() > 0 {
        lemma_step_inv(s, steps[0]);
        lemma_run_inv(apply(s, steps[0]), steps.drop_first());
    }
}

/// Happens-before ordering: after any valid run from startup, the stamps the
/// consumer observed are exactly 0, 1, 2, ... in order, and every observed
/// stamp is strictly below the publish count at the moment it was observed —
/// the consumer never sees frame N's slot before frame N's publish
/// completed. (Frame 0 is the initial blank frame, in place from startup.)
pub proof fn lemma_happens_before(s0: Proto, steps: Seq<Step>)
    requires
        init(s0),
        valid_run(s0, steps),
    ensures
        forall|i: int|
            0 <= i < run(s0, steps).displayed.len() ==> #[trigger] run(s0, steps).displayed[i]
                == i,
        forall|i: int|
            0 <= i < run(s0, steps).displayed.len() ==> #[trigger] run(s0, steps).displayed[i]
                <= run(s0, steps).published,
{
    lemma_init_inv(s0);
    lemma_run_inv(s0, steps);
    let s = run(s0, steps);
    assert forall|i: int| 0 <= i < s.displayed.len() implies #[trigger] s.displayed[i]
        <= s.published by {
        assert(s.displayed[i] == i);
        assert(s.published >= displays(s) - 1);
    }
}

/// Bounded in-flight frames: after any valid run from startup, at most one
/// published frame awaits display, at most one frame is encoded past the
/// last publish, at most one token is outstanding over both channels, and
/// frame storage stays exactly the three fixed slots — memory is constant
/// however long the run.
pub proof fn lemma_bounded_in_flight(s0: Proto, steps: Seq<Step>)
    requires
        init(s0),
        valid_run(s0, steps),
    ensures
        run(s0, steps).published <= run(s0, steps).displayed.len() + 1,
        run(s0, steps).encoded <= run(s0, steps).published + 1,
        0 <= run(s0, steps).request <= 1,
        0 <= run(s0, steps).ready <= 1,
        run(s0, steps).request + run(s0, steps).ready <= 1,
        run(s0, steps).stamps.len() == 3,
        run(s0, steps).roles.is_permutation(),
{
    lemma_init_inv(s0);
    lemma_run_inv(s0, steps);
}

/// The schedule that produces and displays the first frame: the consumer
/// emits its one initial request, the producer encodes, consumes the
/// request, publishes, and signals ready, and the consumer consumes the
/// signal and displays.
pub open spec fn startup_schedule() -> Seq<Step> {
    seq![
        Step::ConsInit,
        Step::ProdEncode,
        Step::ProdTakeRequest,
        Step::ProdPublish,
        Step::ProdSignalReady,
        Step::ConsTakeReady,
        Step::ConsDisplay,
    ]
}

/// Startup liveness: because the consumer emits exactly one request token
/// before its loop, the system deadlocks nowhere on the way to its first
/// displayed frame — the startup schedule is valid from the initial state
/// and ends with one frame displayed and one published.
pub proof fn lemma_startup_liveness(s0: Proto)
    requires
        init(s0),
    ensures
        valid_run(s0, startup_schedule()),
        run(s0, startup_schedule()).displayed.len() == 1,
        run(s0, startup_schedule()).published == 1,
{
    reveal_with_fuel(valid_run, 9);
    reveal_with_fuel(run, 9);
    let sched = startup_schedule();
    let s1 = apply(s0, Step::ConsInit);
    let s2 = apply(s1, Step::ProdEncode);
    let s3 = apply(s2, Step::ProdTakeRequest);
    let s4 = apply(s3, Step::ProdPublish);
    let s5 = apply(s4, Step::ProdSignalReady);
    let s6 = apply(s5, Step::ConsTakeReady);
    let s7 = apply(s6, Step::ConsDisplay);
    assert(sched.drop_first() =~= seq![
        Step::ProdEncode,
        Step::ProdTakeRequest,
        Step::ProdPublish,
        Step::ProdSignalReady,
        Step::ConsTakeReady,
        Step::ConsDisplay,
    ]);
    assert(sched.drop_first().drop_first() =~= seq![
        Step::ProdTakeRequest,
        Step::ProdPublish,
        Step::ProdSignalReady,
        Step::ConsTakeReady,
        Step::ConsDisplay,
    ]);
    assert(sched.drop_first().drop_first().drop_first() =~= seq![
        Step::ProdPublish,
        Step::ProdSignalReady,
        Step::ConsTakeReady,
        Step::ConsDisplay,
    ]);
    assert(sched.drop_first().drop_first().drop_first().drop_first() =~= seq![
        Step::ProdSignalReady,
        Step::ConsTakeReady,
        Step::ConsDisplay,
    ]);
    assert(sched.drop_first().drop_first().drop_first().drop_first().drop_first() =~= seq![
        Step::ConsTakeReady,
        Step::ConsDisplay,
    ]);
    assert(sched.drop_first().drop_first().drop_first().drop_first().drop_first().drop_first()
        =~= seq![Step::ConsDisplay]);
    assert(sched.drop_first().drop_first().drop_first().drop_first().drop_first().drop_first().drop_first()
        =~= Seq::<Step>::empty());
    assert(s7.displayed =~= seq![0int]);
}

} // verus!
