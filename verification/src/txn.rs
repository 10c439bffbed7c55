//! The transaction coordinator: it turns the codec's pure framing into a
//! reliable-enough request/response exchange over an unreliable transport.
//! It allocates transaction ids unique among in-flight transactions, matches
//! inbound datagrams to outstanding requests, silently drops strays, and
//! drives the protocol-mandated retransmission schedule: attempt `n` waits
//! 15 x 2^n seconds, and after attempt 8 the transaction fails.

use vstd::prelude::*;

use crate::errors::TrackerError;
use crate::rng::random_u32;
use crate::wire::{
    connect_response_of_bytes, response_of_bytes, u32_of_bytes_at, ConnectResponse, Response,
    ACTION_ANNOUNCE, ACTION_CONNECT, ACTION_ERROR,
};
use vstd::slice::slice_to_vec;

verus! {

/// The attempt index after which the next expiry is final: attempts run
/// n = 0 ..= 8, nine transmissions in all.
pub const MAX_ATTEMPT: u32 = 8;

/// An upper bound on every wait of the schedule, 15 x 2^8 seconds; timestamps
/// this close to the end of `u64` time are rejected so that deadlines cannot
/// overflow.
pub const MAX_WAIT_SECS: u64 = 3840;

/// 2^n.
pub open spec fn pow2(n: nat) -> nat
    decreases n,
{
    if n == 0 {
        1
    } else {
        2 * pow2((n - 1) as nat)
    }
}

/// The seconds the schedule waits after transmission `n` before the next
/// retransmission: 15 x 2^n.
pub open spec fn backoff_wait(n: nat) -> nat {
    15 * pow2(n)
}

/// The cumulative seconds waited before transmission `n` is sent:
/// the sum of the waits of transmissions 0 .. n-1.
pub open spec fn cumulative_wait(n: nat) -> nat
    decreases n,
{
    if n == 0 {
        0
    } else {
        cumulative_wait((n - 1) as nat) + backoff_wait((n - 1) as nat)
    }
}

/// The backoff schedule in closed form: retransmission `n` is sent at
/// cumulative time 15 x (2^0 + ... + 2^(n-1)) = 15 x (2^n - 1) seconds, so
/// the whole schedule, attempts 0 ..= 8, spans 15 x (2^9 - 1) = 7665 seconds.
pub proof fn lemma_backoff_schedule(n: nat)
    ensures
        pow2(n) >= 1,
        cumulative_wait(n) == 15 * (pow2(n) - 1),
    decreases n,
{
    if n > 0 {
        lemma_backoff_schedule((n - 1) as nat);
    }
}

/// Returns 15 x 2^n for the attempt indices the schedule admits.
pub fn backoff_wait_secs(n: u32) -> (r: u64)
    requires
        n <= MAX_ATTEMPT,
    ensures
        r == backoff_wait(n as nat),
        r <= MAX_WAIT_SECS,
{
    proof {
        reveal_with_fuel(pow2, 10);
    }
    let p: u64 = if n == 0 {
        1
    } else if n == 1 {
        2
    } else if n == 2 {
        4
    } else if n == 3 {
        8
    } else if n == 4 {
        16
    } else if n == 5 {
        32
    } else if n == 6 {
        64
    } else if n == 7 {
        128
    } else {
        256
    };
    15 * p
}

/// One in-flight request: its correlator, its action, the exact bytes that
/// were sent (retransmissions repeat them unchanged), when it was first
/// sent, the index of the current attempt, and the deadline of that attempt.
#[derive(Debug, Clone, PartialEq, Eq)]
pub struct Transaction {
    pub transaction_id: u32,
    pub action: u32,
    pub request_bytes: Vec<u8>,
    pub sent_at: u64,
    pub attempt: u32,
    pub deadline: u64,
}

/// Whether some transaction of `s` carries the id `tid`.
pub open spec fn seq_has_id(s: Seq<Transaction>, tid: u32) -> bool {
    exists|i: int| 0 <= i < s.len() && (#[trigger] s[i]).transaction_id == tid
}

/// The index of the transaction of `s` carrying `tid`.
pub open spec fn seq_index_of(s: Seq<Transaction>, tid: u32) -> int {
    choose|i: int| 0 <= i < s.len() && (#[trigger] s[i]).transaction_id == tid
}

/// The transaction of `s` carrying `tid`.
pub open spec fn seq_txn_with(s: Seq<Transaction>, tid: u32) -> Transaction {
    s[seq_index_of(s, tid)]
}

/// No two transactions of `s` share an id.
pub open spec fn seq_ids_unique(s: Seq<Transaction>) -> bool {
    forall|i: int, j: int|
        0 <= i < j < s.len() ==> (#[trigger] s[i]).transaction_id != (
        #[trigger] s[j]).transaction_id
}

/// Every transaction of `s` is a Connect or an Announce exchange.
pub open spec fn seq_actions_known(s: Seq<Transaction>) -> bool {
    forall|i: int|
        0 <= i < s.len() ==> ((#[trigger] s[i]).action == ACTION_CONNECT || s[i].action
            == ACTION_ANNOUNCE)
}

/// With unique ids, an index holding `tid` is the index of `tid`.
proof fn lemma_index_pinned(s: Seq<Transaction>, i: int)
    requires
        seq_ids_unique(s),
        0 <= i < s.len(),
    ensures
        seq_has_id(s, s[i].transaction_id),
        seq_index_of(s, s[i].transaction_id) == i,
        seq_txn_with(s, s[i].transaction_id) == s[i],
{
    let tid = s[i].transaction_id;
    assert(seq_has_id(s, tid));
    let j = seq_index_of(s, tid);
    assert(0 <= j < s.len() && s[j].transaction_id == tid);
    if i < j {
        assert(s[i].transaction_id != s[j].transaction_id);
    } else if j < i {
        assert(s[j].transaction_id != s[i].transaction_id);
    }
}

/// What pushing a transaction with a fresh id does to the id predicates.
proof fn lemma_push_id_facts(s: Seq<Transaction>, t: Transaction)
    requires
        seq_ids_unique(s),
        !seq_has_id(s, t.transaction_id),
    ensures
        seq_ids_unique(s.push(t)),
        seq_has_id(s.push(t), t.transaction_id),
        seq_txn_with(s.push(t), t.transaction_id) == t,
        forall|x: u32|
            x != t.transaction_id ==> (seq_has_id(s.push(t), x) <==> seq_has_id(s, x)),
        forall|x: u32|
            x != t.transaction_id && seq_has_id(s, x) ==> seq_txn_with(s.push(t), x)
                == seq_txn_with(s, x),
        seq_actions_known(s) && (t.action == ACTION_CONNECT || t.action == ACTION_ANNOUNCE)
            ==> seq_actions_known(s.push(t)),
{
    let p = s.push(t);
    assert(p[s.len() as int] == t);
    assert forall|i: int, j: int| 0 <= i < j < p.len() implies (#[trigger] p[i]).transaction_id
        != (#[trigger] p[j]).transaction_id by {
        if j < s.len() {
            assert(p[i] == s[i] && p[j] == s[j]);
        } else {
            assert(p[j] == t);
            assert(p[i] == s[i]);
            if s[i].transaction_id == t.transaction_id {
                assert(seq_has_id(s, t.transaction_id));
            }
        }
    }
    lemma_index_pinned(p, s.len() as int);
    assert forall|x: u32| x != t.transaction_id implies (seq_has_id(p, x) <==> seq_has_id(
        s, x)) by {
        if seq_has_id(p, x) {
            let i = seq_index_of(p, x);
            assert(0 <= i < p.len() && p[i].transaction_id == x);
            assert(i < s.len());
            assert(s[i].transaction_id == x);
        }
        if seq_has_id(s, x) {
            let i = seq_index_of(s, x);
            assert(0 <= i < s.len() && s[i].transaction_id == x);
            assert(p[i].transaction_id == x);
        }
    }
    assert forall|x: u32| x != t.transaction_id && seq_has_id(s, x) implies seq_txn_with(p, x)
        == seq_txn_with(s, x) by {
        let i = seq_index_of(s, x);
        assert(0 <= i < s.len() && s[i].transaction_id == x);
        assert(p[i] == s[i]);
        lemma_index_pinned(p, i);
        lemma_index_pinned(s, i);
    }
    if seq_actions_known(s) && (t.action == ACTION_CONNECT || t.action == ACTION_ANNOUNCE) {
        assert forall|i: int| 0 <= i < p.len() implies ((#[trigger] p[i]).action
            == ACTION_CONNECT || p[i].action == ACTION_ANNOUNCE) by {
            if i < s.len() {
                assert(p[i] == s[i]);
            } else {
                assert(p[i] == t);
            }
        }
    }
}

/// What removing the transaction at an index does to the id predicates.
proof fn lemma_remove_id_facts(s: Seq<Transaction>, k: int)
    requires
        seq_ids_unique(s),
        0 <= k < s.len(),
    ensures
        seq_ids_unique(s.remove(k)),
        !seq_has_id(s.remove(k), s[k].transaction_id),
        forall|x: u32|
            x != s[k].transaction_id ==> (seq_has_id(s.remove(k), x) <==> seq_has_id(s, x)),
        forall|x: u32|
            x != s[k].transaction_id && seq_has_id(s, x) ==> seq_txn_with(s.remove(k), x)
                == seq_txn_with(s, x),
        seq_actions_known(s) ==> seq_actions_known(s.remove(k)),
{
    let q = s.remove(k);
    assert(q.len() == s.len() - 1);
    assert forall|i: int| 0 <= i < q.len() implies q[i] == (if i < k {
        s[i]
    } else {
        s[i + 1]
    }) by {}
    assert forall|i: int, j: int| 0 <= i < j < q.len() implies (#[trigger] q[i]).transaction_id
        != (#[trigger] q[j]).transaction_id by {
        let si = if i < k { i } else { i + 1 };
        let sj = if j < k { j } else { j + 1 };
        assert(q[i] == s[si] && q[j] == s[sj]);
        assert(si < sj);
    }
    if seq_has_id(q, s[k].transaction_id) {
        let i = seq_index_of(q, s[k].transaction_id);
        assert(0 <= i < q.len() && q[i].transaction_id == s[k].transaction_id);
        let si = if i < k { i } else { i + 1 };
        assert(q[i] == s[si]);
        assert(si != k);
        assert(s[si].transaction_id == s[k].transaction_id);
        if si < k {
            assert(s[si].transaction_id != s[k].transaction_id);
        } else {
            assert(s[k].transaction_id != s[si].transaction_id);
        }
    }
    assert forall|x: u32| x != s[k].transaction_id implies (seq_has_id(q, x) <==> seq_has_id(
        s, x)) by {
        if seq_has_id(q, x) {
            let i = seq_index_of(q, x);
            assert(0 <= i < q.len() && q[i].transaction_id == x);
            let si = if i < k { i } else { i + 1 };
            assert(q[i] == s[si]);
            assert(s[si].transaction_id == x);
        }
        if seq_has_id(s, x) {
            let i = seq_index_of(s, x);
            assert(0 <= i < s.len() && s[i].transaction_id == x);
            assert(i != k);
            let qi = if i < k { i } else { i - 1 };
            assert(q[qi] == s[i]);
            assert(q[qi].transaction_id == x);
        }
    }
    assert forall|x: u32| x != s[k].transaction_id && seq_has_id(s, x) implies seq_txn_with(
        q, x) == seq_txn_with(s, x) by {
        let i = seq_index_of(s, x);
        assert(0 <= i < s.len() && s[i].transaction_id == x);
        lemma_index_pinned(s, i);
        assert(i != k);
        let qi = if i < k { i } else { i - 1 };
        assert(q[qi] == s[i]);
        lemma_index_pinned(q, qi);
    }
    if seq_actions_known(s) {
        assert forall|i: int| 0 <= i < q.len() implies ((#[trigger] q[i]).action
            == ACTION_CONNECT || q[i].action == ACTION_ANNOUNCE) by {
            let si = if i < k { i } else { i + 1 };
            assert(q[i] == s[si]);
            assert(s[si].action == ACTION_CONNECT || s[si].action == ACTION_ANNOUNCE);
        }
    }
}

/// In a table holding exactly one transaction, any two ids present in it
/// are that transaction's id.
pub proof fn lemma_single_id(s: Seq<Transaction>, a: u32, b: u32)
    requires
        s.len() == 1,
        seq_has_id(s, a),
        seq_has_id(s, b),
    ensures
        a == b,
        seq_txn_with(s, a) == s[0],
        seq_index_of(s, a) == 0,
{
    let i = seq_index_of(s, a);
    assert(0 <= i < s.len() && s[i].transaction_id == a);
    let j = seq_index_of(s, b);
    assert(0 <= j < s.len() && s[j].transaction_id == b);
}

/// A sequence with unique ids that contains every id below `n` holds at
/// least `n` transactions.
proof fn lemma_id_count(s: Seq<Transaction>, n: nat)
    requires
        seq_ids_unique(s),
        n <= 0x1_0000_0000,
        forall|x: u32| x < n ==> seq_has_id(s, x),
    ensures
        s.len() >= n,
    decreases n,
{
    if n > 0 {
        let last = (n - 1) as u32;
        assert(seq_has_id(s, last));
        let k = seq_index_of(s, last);
        assert(0 <= k < s.len() && s[k].transaction_id == last);
        let q = s.remove(k);
        lemma_remove_id_facts(s, k);
        assert forall|x: u32| x < ((n - 1) as nat) implies seq_has_id(q, x) by {
            assert(x != last);
            assert(seq_has_id(s, x));
        }
        lemma_id_count(q, (n - 1) as nat);
    }
}

/// What a matched inbound datagram did to its transaction.
#[derive(Debug, Clone, PartialEq, Eq)]
pub enum DispatchOutcome {
    /// Too short for a header, an unknown transaction id, or an action
    /// matching neither the transaction's nor Error: silently dropped, no
    /// transaction affected. Strays are expected on a shared socket.
    Dropped,
    /// A Connect exchange completed with a well-formed response.
    ConnectDone { transaction_id: u32, response: ConnectResponse },
    /// An Announce exchange completed with a well-formed response.
    AnnounceDone { transaction_id: u32, response: Response },
    /// The tracker rejected the request; the bytes are its message.
    Rejected { transaction_id: u32, message: Vec<u8> },
    /// The correlated response does not fit its action's layout; the framing
    /// error is fatal to this transaction and surfaced at once.
    Malformed { transaction_id: u32, error: TrackerError },
}

/// What a deadline expiry did to its transaction.
#[derive(Debug, Clone, PartialEq, Eq)]
pub enum TimerOutcome {
    /// No transaction carries the id; nothing to do.
    Missing,
    /// The identical request bytes are to be sent again, with the deadline
    /// of the next attempt.
    Retransmit { bytes: Vec<u8>, deadline: u64 },
    /// The schedule is exhausted; the transaction failed and is gone.
    Expired { action: u32 },
}

/// The transaction coordinator: the table of in-flight transactions.
#[derive(Debug, Clone, PartialEq, Eq)]
pub struct Coordinator {
    pub in_flight: Vec<Transaction>,
}

impl Coordinator {
    /// Whether some in-flight transaction carries the id `tid`.
    pub open spec fn has_id(self, tid: u32) -> bool {
        seq_has_id(self.in_flight@, tid)
    }

    /// The in-flight transaction carrying `tid`.
    pub open spec fn txn_with(self, tid: u32) -> Transaction {
        seq_txn_with(self.in_flight@, tid)
    }

    /// Well-formedness: ids are unique among in-flight transactions, and
    /// every transaction is a Connect or an Announce exchange.
    pub open spec fn wf(self) -> bool {
        seq_ids_unique(self.in_flight@) && seq_actions_known(self.in_flight@)
    }

    /// A coordinator with no transaction in flight.
    pub fn new() -> (r: Coordinator)
        ensures
            r.wf(),
            r.in_flight@.len() == 0,
    {
        Coordinator { in_flight: Vec::new() }
    }

    /// The index of the in-flight transaction carrying `tid`, if any.
    fn find_index(&self, tid: u32) -> (r: Option<usize>)
        requires
            seq_ids_unique(self.in_flight@),
        ensures
            match r {
                Some(i) => {
                    &&& i < self.in_flight@.len()
                    &&& self.in_flight@[i as int].transaction_id == tid
                    &&& self.has_id(tid)
                    &&& seq_index_of(self.in_flight@, tid) == i
                    &&& self.txn_with(tid) == self.in_flight@[i as int]
                },
                None => !self.has_id(tid),
            },
    {
        let n = self.in_flight.len();
        let mut i: usize = 0;
        while i < n
            invariant
                i <= n,
                n == self.in_flight@.len(),
                seq_ids_unique(self.in_flight@),
                forall|j: int| 0 <= j < i ==> (#[trigger] self.in_flight@[j]).transaction_id != tid,
            decreases n - i,
        {
            if self.in_flight[i].transaction_id == tid {
                proof {
                    lemma_index_pinned(self.in_flight@, i as int);
                }
                return Some(i);
            }
            i = i + 1;
        }
        proof {
            if seq_has_id(self.in_flight@, tid) {
                let j = seq_index_of(self.in_flight@, tid);
                assert(0 <= j < self.in_flight@.len() && self.in_flight@[j].transaction_id == tid);
            }
        }
        None
    }

    /// Whether a transaction with id `tid` is currently in flight.
    pub fn contains(&self, tid: u32) -> (r: bool)
        requires
            self.wf(),
        ensures
            r == self.has_id(tid),
    {
        match self.find_index(tid) {
            Some(_) => true,
            None => false,
        }
    }

    /// Draws a transaction id unique among those currently in flight; a
    /// collision is handled by re-drawing, not by failing. After a bounded
    /// number of colliding draws the smallest unused id is taken instead,
    /// so that an id is always found.
    pub fn fresh_transaction_id(&self) -> (r: u32)
        requires
            self.wf(),
            self.in_flight@.len() < 0x1_0000_0000,
        ensures
            !self.has_id(r),
    {
        let mut tries: u32 = 0;
        while tries < 16
            invariant
                self.wf(),
            decreases 16 - tries,
        {
            let candidate = random_u32();
            if !self.contains(candidate) {
                return candidate;
            }
            tries = tries + 1;
        }
        let n: u64 = self.in_flight.len() as u64;
        let mut c: u64 = 0;
        while c <= n
            invariant
                self.wf(),
                c <= n + 1,
                n == self.in_flight@.len(),
                n < 0x1_0000_0000,
                forall|x: u32| x < c ==> seq_has_id(self.in_flight@, x),
            decreases n + 1 - c,
        {
            let candidate: u32 = c as u32;
            proof {
                assert(c < 0x1_0000_0000 ==> c as u32 == c) by (bit_vector);
            }
            if !self.contains(candidate) {
                return candidate;
            }
            c = c + 1;
            proof {
                assert forall|x: u32| x < c implies seq_has_id(self.in_flight@, x) by {
                    if x < c - 1 {
                    } else {
                        assert(x == candidate);
                    }
                }
            }
        }
        proof {
            lemma_id_count(self.in_flight@, (n + 1) as nat);
        }
        vstd::pervasive::unreached()
    }

    /// Removes and returns the transaction at index `i`.
    fn remove_at(&mut self, i: usize) -> (t: Transaction)
        requires
            old(self).wf(),
            i < old(self).in_flight@.len(),
        ensures
            final(self).wf(),
            t == old(self).in_flight@[i as int],
            final(self).in_flight@ == old(self).in_flight@.remove(i as int),
            final(self).in_flight@.len() == old(self).in_flight@.len() - 1,
            !final(self).has_id(t.transaction_id),
            forall|x: u32|
                x != t.transaction_id ==> (final(self).has_id(x) <==> old(self).has_id(x)),
            forall|x: u32|
                x != t.transaction_id && old(self).has_id(x) ==> final(self).txn_with(x) == old(
                    self).txn_with(x),
    {
        let t = self.in_flight.remove(i);
        proof {
            lemma_remove_id_facts(old(self).in_flight@, i as int);
        }
        t
    }

    /// Registers a dispatched request: its first attempt has index 0 and a
    /// deadline 15 seconds after `now`.
    pub fn register(&mut self, transaction_id: u32, action: u32, request_bytes: Vec<u8>, now: u64)
        requires
            old(self).wf(),
            !old(self).has_id(transaction_id),
            action == ACTION_CONNECT || action == ACTION_ANNOUNCE,
            now <= u64::MAX - MAX_WAIT_SECS,
        ensures
            final(self).wf(),
            final(self).in_flight@.len() == old(self).in_flight@.len() + 1,
            final(self).has_id(transaction_id),
            final(self).txn_with(transaction_id) == (Transaction {
                transaction_id,
                action,
                request_bytes,
                sent_at: now,
                attempt: 0,
                deadline: (now + 15) as u64,
            }),
            forall|x: u32|
                x != transaction_id ==> (final(self).has_id(x) <==> old(self).has_id(x)),
            forall|x: u32|
                x != transaction_id && old(self).has_id(x) ==> final(self).txn_with(x) == old(
                    self).txn_with(x),
    {
        let t = Transaction {
            transaction_id,
            action,
            request_bytes,
            sent_at: now,
            attempt: 0,
            deadline: now + 15,
        };
        proof {
            lemma_push_id_facts(self.in_flight@, t);
        }
        self.in_flight.push(t);
    }

    /// Cancels the in-flight transaction with id `tid`, if any: it is
    /// removed from the table, no further retransmission of it occurs, and
    /// its owner is to be released with a `Cancelled` result.
    pub fn cancel(&mut self, tid: u32) -> (r: bool)
        requires
            old(self).wf(),
        ensures
            final(self).wf(),
            r == old(self).has_id(tid),
            !final(self).has_id(tid),
            forall|x: u32| x != tid ==> (final(self).has_id(x) <==> old(self).has_id(x)),
            forall|x: u32|
                x != tid && old(self).has_id(x) ==> final(self).txn_with(x) == old(self).txn_with(
                    x),
            r ==> final(self).in_flight@.len() == old(self).in_flight@.len() - 1,
            !r ==> final(self).in_flight@ == old(self).in_flight@,
    {
        match self.find_index(tid) {
            Some(i) => {
                self.remove_at(i);
                true
            },
            None => false,
        }
    }

    /// Answers a deadline expiry at time `now` for the transaction with id
    /// `tid`: retransmission of the identical request bytes while attempts
    /// remain, with the deadline of attempt n set 15 x 2^n seconds ahead;
    /// after attempt 8, failure.
    pub fn on_timer(&mut self, tid: u32, now: u64) -> (r: TimerOutcome)
        requires
            old(self).wf(),
            now <= u64::MAX - MAX_WAIT_SECS,
        ensures
            final(self).wf(),
            match r {
                TimerOutcome::Missing => {
                    &&& !old(self).has_id(tid)
                    &&& final(self).in_flight@ == old(self).in_flight@
                },
                TimerOutcome::Retransmit { bytes, deadline } => {
                    &&& old(self).has_id(tid)
                    &&& old(self).txn_with(tid).attempt < MAX_ATTEMPT
                    &&& bytes@ == old(self).txn_with(tid).request_bytes@
                    &&& deadline == now + backoff_wait((old(self).txn_with(tid).attempt + 1) as nat)
                    &&& final(self).has_id(tid)
                    &&& final(self).txn_with(tid) == (Transaction {
                        transaction_id: tid,
                        action: old(self).txn_with(tid).action,
                        request_bytes: old(self).txn_with(tid).request_bytes,
                        sent_at: old(self).txn_with(tid).sent_at,
                        attempt: (old(self).txn_with(tid).attempt + 1) as u32,
                        deadline,
                    })
                    &&& final(self).in_flight@.len() == old(self).in_flight@.len()
                    &&& forall|x: u32| x != tid ==> (final(self).has_id(x) <==> old(self).has_id(x))
                    &&& forall|x: u32|
                        x != tid && old(self).has_id(x) ==> final(self).txn_with(x) == old(
                            self).txn_with(x)
                },
                TimerOutcome::Expired { action } => {
                    &&& old(self).has_id(tid)
                    &&& old(self).txn_with(tid).attempt >= MAX_ATTEMPT
                    &&& action == old(self).txn_with(tid).action
                    &&& !final(self).has_id(tid)
                    &&& final(self).in_flight@.len() == old(self).in_flight@.len() - 1
                    &&& forall|x: u32| x != tid ==> (final(self).has_id(x) <==> old(self).has_id(x))
                    &&& forall|x: u32|
                        x != tid && old(self).has_id(x) ==> final(self).txn_with(x) == old(
                            self).txn_with(x)
                },
            },
    {
        let i = match self.find_index(tid) {
            Some(i) => i,
            None => {
                return TimerOutcome::Missing;
            },
        };
        let t = self.remove_at(i);
        if t.attempt >= MAX_ATTEMPT {
            TimerOutcome::Expired { action: t.action }
        } else {
            let next_attempt = t.attempt + 1;
            let wait = backoff_wait_secs(next_attempt);
            let deadline = now + wait;
            let bytes = slice_to_vec(t.request_bytes.as_slice());
            let t2 = Transaction {
                transaction_id: t.transaction_id,
                action: t.action,
                request_bytes: t.request_bytes,
                sent_at: t.sent_at,
                attempt: next_attempt,
                deadline,
            };
            proof {
                lemma_push_id_facts(self.in_flight@, t2);
            }
            self.in_flight.push(t2);
            TimerOutcome::Retransmit { bytes, deadline }
        }
    }

    /// Dispatches an inbound datagram at time `now`: reads the action and
    /// transaction id from the 8-byte header, looks up the matching
    /// in-flight transaction, and decodes the body by the transaction's
    /// action. A datagram too short for a header, one whose transaction id
    /// is not in flight, or one whose action matches neither the
    /// transaction's action nor Error is dropped and affects nothing.
    pub fn on_datagram(&mut self, buf: &[u8]) -> (r: DispatchOutcome)
        requires
            old(self).wf(),
        ensures
            final(self).wf(),
            match r {
                DispatchOutcome::Dropped => {
                    &&& final(self).in_flight@ == old(self).in_flight@
                    &&& (buf@.len() >= 8 && old(self).has_id(u32_of_bytes_at(buf@, 4)) ==> {
                        let act = u32_of_bytes_at(buf@, 0);
                        &&& act != ACTION_ERROR
                        &&& act != old(self).txn_with(u32_of_bytes_at(buf@, 4)).action
                    })
                },
                DispatchOutcome::ConnectDone { transaction_id, response } => {
                    &&& buf@.len() == 16
                    &&& transaction_id == u32_of_bytes_at(buf@, 4)
                    &&& old(self).has_id(transaction_id)
                    &&& old(self).txn_with(transaction_id).action == ACTION_CONNECT
                    &&& u32_of_bytes_at(buf@, 0) == ACTION_CONNECT
                    &&& response == connect_response_of_bytes(buf@)
                    &&& !final(self).has_id(transaction_id)
                    &&& final(self).in_flight@.len() == old(self).in_flight@.len() - 1
                    &&& forall|x: u32|
                        x != transaction_id ==> (final(self).has_id(x) <==> old(self).has_id(x))
                    &&& forall|x: u32|
                        x != transaction_id && old(self).has_id(x) ==> final(self).txn_with(x)
                            == old(self).txn_with(x)
                },
                DispatchOutcome::AnnounceDone { transaction_id, response } => {
                    &&& buf@.len() >= 20
                    &&& transaction_id == u32_of_bytes_at(buf@, 4)
                    &&& old(self).has_id(transaction_id)
                    &&& old(self).txn_with(transaction_id).action == ACTION_ANNOUNCE
                    &&& u32_of_bytes_at(buf@, 0) == ACTION_ANNOUNCE
                    &&& response == response_of_bytes(buf@)
                    &&& !final(self).has_id(transaction_id)
                    &&& final(self).in_flight@.len() == old(self).in_flight@.len() - 1
                    &&& forall|x: u32|
                        x != transaction_id ==> (final(self).has_id(x) <==> old(self).has_id(x))
                    &&& forall|x: u32|
                        x != transaction_id && old(self).has_id(x) ==> final(self).txn_with(x)
                            == old(self).txn_with(x)
                },
                DispatchOutcome::Rejected { transaction_id, message } => {
                    &&& buf@.len() >= 8
                    &&& transaction_id == u32_of_bytes_at(buf@, 4)
                    &&& old(self).has_id(transaction_id)
                    &&& u32_of_bytes_at(buf@, 0) == ACTION_ERROR
                    &&& message@ == buf@.skip(8)
                    &&& !final(self).has_id(transaction_id)
                    &&& final(self).in_flight@.len() == old(self).in_flight@.len() - 1
                    &&& forall|x: u32|
                        x != transaction_id ==> (final(self).has_id(x) <==> old(self).has_id(x))
                    &&& forall|x: u32|
                        x != transaction_id && old(self).has_id(x) ==> final(self).txn_with(x)
                            == old(self).txn_with(x)
                },
                DispatchOutcome::Malformed { transaction_id, error } => {
                    &&& buf@.len() >= 8
                    &&& transaction_id == u32_of_bytes_at(buf@, 4)
                    &&& old(self).has_id(transaction_id)
                    &&& u32_of_bytes_at(buf@, 0) == old(self).txn_with(transaction_id).action
                    &&& u32_of_bytes_at(buf@, 0) != ACTION_ERROR
                    &&& error == TrackerError::LengthMismatch
                    &&& (old(self).txn_with(transaction_id).action == ACTION_CONNECT ==> buf@.len()
                        != 16)
                    &&& (old(self).txn_with(transaction_id).action == ACTION_ANNOUNCE
                        ==> buf@.len() < 20)
                    &&& !final(self).has_id(transaction_id)
                    &&& final(self).in_flight@.len() == old(self).in_flight@.len() - 1
                    &&& forall|x: u32|
                        x != transaction_id ==> (final(self).has_id(x) <==> old(self).has_id(x))
                    &&& forall|x: u32|
                        x != transaction_id && old(self).has_id(x) ==> final(self).txn_with(x)
                            == old(self).txn_with(x)
                },
            },
    {
        if buf.len() < 8 {
            return DispatchOutcome::Dropped;
        }
        let action = crate::bytes::read_u32(buf, 0);
        let transaction_id = crate::bytes::read_u32(buf, 4);
        let i = match self.find_index(transaction_id) {
            Some(i) => i,
            None => {
                return DispatchOutcome::Dropped;
            },
        };
        let expected = self.in_flight[i].action;
        if action == ACTION_ERROR {
            self.remove_at(i);
            let tail = vstd::slice::slice_subrange(buf, 8, buf.len());
            let message = slice_to_vec(tail);
            proof {
                assert(message@ =~= buf@.skip(8));
            }
            DispatchOutcome::Rejected { transaction_id, message }
        } else if action != expected {
            DispatchOutcome::Dropped
        } else if expected == ACTION_CONNECT {
            self.remove_at(i);
            match ConnectResponse::deserialize(buf) {
                Ok((response, _rest)) => DispatchOutcome::ConnectDone { transaction_id, response },
                Err(error) => DispatchOutcome::Malformed { transaction_id, error },
            }
        } else {
            self.remove_at(i);
            match Response::deserialize(buf) {
                Ok((response, _rest)) => DispatchOutcome::AnnounceDone { transaction_id, response },
                Err(error) => DispatchOutcome::Malformed { transaction_id, error },
            }
        }
    }
}

} // verus!
