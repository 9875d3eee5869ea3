//! The pending-response table of a connection: which of the requests that
//! went out still wait for their response, and who waits for each.

use crate::error::opt_json_view;
use crate::json::Json;
use crate::jsonrpc::{Message, MessageView, RequestId, RequestIdView};
use vstd::prelude::*;

verus! {

/// One request that waits for its response, with the one who waits.
#[derive(Debug)]
pub struct Pending<T> {
    pub id: i64,
    pub waiter: T,
}

/// The requests that a connection has sent and not yet seen answered.
#[derive(Debug)]
pub struct PendingResponses<T> {
    /// The identifier that the next request gets.
    pub next_id: i64,
    /// The requests that wait, in the order in which they went out.
    pub waiting: Vec<Pending<T>>,
}

/// Why a request cannot be sent.
#[derive(Clone, Copy, Debug, PartialEq, Eq, Structural)]
pub enum SendError {
    /// The connection has used up its identifiers.
    IdentifiersExhausted,
}

/// The identifiers of requests that wait.
pub open spec fn ids_of<T>(waiting: Seq<Pending<T>>) -> Seq<i64> {
    Seq::new(waiting.len(), |i: int| waiting[i].id)
}

/// The place of the first request at or after `start` that has the
/// identifier `id`, or the number of requests.
pub open spec fn find_id_from(ids: Seq<i64>, id: i64, start: int) -> int
    decreases ids.len() - start,
{
    if start < 0 || start >= ids.len() {
        ids.len() as int
    } else if ids[start] == id {
        start
    } else {
        find_id_from(ids, id, start + 1)
    }
}

/// The search finds the first request with the identifier.
pub proof fn find_id_is_first(ids: Seq<i64>, id: i64, start: int)
    requires
        0 <= start <= ids.len(),
    ensures
        start <= find_id_from(ids, id, start) <= ids.len(),
        find_id_from(ids, id, start) < ids.len() ==> ids[find_id_from(ids, id, start)] == id,
        forall|k: int| start <= k < find_id_from(ids, id, start) ==> ids[k] != id,
    decreases ids.len() - start,
{
    if start < ids.len() && ids[start] != id {
        find_id_is_first(ids, id, start + 1);
    }
}

/// Where the identifier stands at `i` and nowhere between `start` and `i`,
/// the search ends at `i`.
pub proof fn find_id_hits(ids: Seq<i64>, id: i64, start: int, i: int)
    requires
        0 <= start <= i < ids.len(),
        ids[i] == id,
        forall|k: int| start <= k < i ==> ids[k] != id,
    ensures
        find_id_from(ids, id, start) == i,
    decreases i - start,
{
    if start < i {
        find_id_hits(ids, id, start + 1, i);
    }
}

/// Where the identifier stands nowhere from `start` on, the search finds
/// nothing.
pub proof fn find_id_misses(ids: Seq<i64>, id: i64, start: int)
    requires
        0 <= start <= ids.len(),
        forall|k: int| start <= k < ids.len() ==> ids[k] != id,
    ensures
        find_id_from(ids, id, start) == ids.len(),
    decreases ids.len() - start,
{
    if start < ids.len() {
        find_id_misses(ids, id, start + 1);
    }
}

impl<T> PendingResponses<T> {
    /// The identifiers of the requests that wait.
    pub open spec fn ids(&self) -> Seq<i64> {
        ids_of(self.waiting@)
    }

    /// Every identifier that waits was given out by this table, and none
    /// waits twice.
    pub open spec fn wf(&self) -> bool {
        &&& 0 <= self.next_id
        &&& forall|i: int| 0 <= i < self.ids().len() ==> 0 <= #[trigger] self.ids()[i] < self.next_id
        &&& forall|i: int, j: int| 0 <= i < j < self.ids().len() ==> self.ids()[i] != self.ids()[j]
    }

    /// The one who waits for the response to `id`, if anyone does.
    pub open spec fn waiter_of(&self, id: RequestIdView) -> Option<T> {
        match id {
            RequestIdView::Number(n) => if i64::MIN <= n <= i64::MAX && find_id_from(
                self.ids(),
                n as i64,
                0,
            ) < self.waiting@.len() {
                Some(self.waiting@[find_id_from(self.ids(), n as i64, 0)].waiter)
            } else {
                None
            },
            RequestIdView::Text(_) => None,
        }
    }

    /// Whether a response to `id` is waited for.
    pub open spec fn is_pending(&self, id: RequestIdView) -> bool {
        self.waiter_of(id) is Some
    }

    /// Whether no response is waited for.
    pub open spec fn idle(&self) -> bool {
        self.waiting@.len() == 0
    }

    /// The table of a connection that has sent nothing.
    pub fn new() -> (r: PendingResponses<T>)
        ensures
            r.wf(),
            r.idle(),
            r.next_id == 0,
    {
        PendingResponses { next_id: 0, waiting: Vec::new() }
    }

    /// How many responses are waited for.
    pub fn len(&self) -> (r: usize)
        ensures
            r == self.waiting@.len(),
    {
        self.waiting.len()
    }

    /// The request for `method` and `params` under the next identifier, for
    /// whose response `waiter` waits from now on. The identifier is one
    /// that this connection has never used. A connection that has used up
    /// its identifiers sends nothing and changes nothing.
    pub fn send_request(&mut self, method: String, params: Option<Json>, waiter: T) -> (r: Result<
        Message,
        SendError,
    >)
        requires
            old(self).wf(),
        ensures
            final(self).wf(),
            match r {
                Ok(m) => {
                    &&& old(self).next_id < i64::MAX
                    &&& m@ == (MessageView::Request {
                        id: RequestIdView::Number(old(self).next_id as int),
                        method: method@,
                        params: opt_json_view(params),
                    })
                    &&& !old(self).is_pending(RequestIdView::Number(old(self).next_id as int))
                    &&& final(self).next_id == old(self).next_id + 1
                    &&& final(self).waiting@ == old(self).waiting@.push(
                        Pending { id: old(self).next_id, waiter },
                    )
                    &&& final(self).waiter_of(RequestIdView::Number(old(self).next_id as int))
                        == Some(waiter)
                    &&& forall|other: RequestIdView|
                        other != RequestIdView::Number(old(self).next_id as int) ==> final(self).waiter_of(other) == old(self).waiter_of(other)
                },
                Err(e) => {
                    &&& old(self).next_id == i64::MAX
                    &&& final(self).next_id == old(self).next_id
                    &&& final(self).waiting@ == old(self).waiting@
                },
            },
    {
        if self.next_id == i64::MAX {
            return Err(SendError::IdentifiersExhausted);
        }
        let id = self.next_id;
        let ghost before = self.ids();
        self.next_id = id + 1;
        self.waiting.push(Pending { id, waiter });
        proof {
            let after = self.ids();
            assert(after =~= before.push(id));
            assert forall|k: int| 0 <= k < before.len() implies before[k] != id by {
                assert(before[k] < id);
            }
            find_id_misses(before, id, 0);
            find_id_hits(after, id, 0, before.len() as int);
            assert forall|other: RequestIdView|
                other != RequestIdView::Number(id as int) implies self.waiter_of(other) == old(self).waiter_of(other) by {
                if let RequestIdView::Number(m) = other {
                    if i64::MIN <= m <= i64::MAX {
                        let m64 = m as i64;
                        find_id_is_first(before, m64, 0);
                        let j = find_id_from(before, m64, 0);
                        if j < before.len() {
                            assert forall|k: int| 0 <= k < j implies after[k] != m64 by {
                                assert(after[k] == before[k]);
                            }
                            assert(after[j] == before[j]);
                            find_id_hits(after, m64, 0, j);
                            assert(self.waiting@[j] == old(self).waiting@[j]);
                        } else {
                            assert forall|k: int| 0 <= k < after.len() implies after[k] != m64 by {
                                if k < before.len() {
                                    assert(after[k] == before[k]);
                                }
                            }
                            find_id_misses(after, m64, 0);
                        }
                    }
                }
            }
        }
        Ok(Message::Request { id: RequestId::Number(id), method, params })
    }

    /// Takes in the response to `id`. Where a request waits for it, the
    /// request waits no longer and the one who waited is handed out; a
    /// response that no request waits for changes nothing.
    pub fn receive_response(&mut self, id: &RequestId) -> (r: Option<T>)
        requires
            old(self).wf(),
        ensures
            final(self).wf(),
            r == old(self).waiter_of(id@),
            !final(self).is_pending(id@),
            final(self).next_id == old(self).next_id,
            forall|other: RequestIdView|
                other != id@ ==> final(self).waiter_of(other) == old(self).waiter_of(other),
            r is None ==> final(self).waiting@ == old(self).waiting@,
            r is Some ==> final(self).waiting@.len() == old(self).waiting@.len() - 1,
    {
        let n = match id {
            RequestId::Number(n) => *n,
            RequestId::Text(_) => {
                return None;
            },
        };
        let ghost before = self.ids();
        let mut i: usize = 0;
        while i < self.waiting.len()
            invariant
                i <= self.waiting@.len(),
                self.waiting@ == old(self).waiting@,
                self.next_id == old(self).next_id,
                before == self.ids(),
                old(self).wf(),
                id@ == RequestIdView::Number(n as int),
                find_id_from(before, n, 0) == find_id_from(before, n, i as int),
            decreases self.waiting.len() - i,
        {
            if self.waiting[i].id == n {
                let taken = self.waiting.remove(i);
                proof {
                    let after = self.ids();
                    assert(after =~= before.remove(i as int));
                    assert forall|k: int| 0 <= k < after.len() implies after[k] != n by {
                        if k < i {
                            find_id_is_first(before, n, 0);
                            assert(after[k] == before[k]);
                        } else {
                            assert(after[k] == before[k + 1]);
                            assert(before[i as int] != before[k + 1]);
                        }
                    }
                    find_id_misses(after, n, 0);
                    assert forall|a: int, b: int| 0 <= a < b < after.len() implies after[a]
                        != after[b] by {
                        let a0 = if a < i {
                            a
                        } else {
                            a + 1
                        };
                        let b0 = if b < i {
                            b
                        } else {
                            b + 1
                        };
                        assert(after[a] == before[a0]);
                        assert(after[b] == before[b0]);
                        assert(before[a0] != before[b0]);
                    }
                    assert forall|k: int| 0 <= k < after.len() implies 0 <= #[trigger] after[k]
                        < self.next_id by {
                        let k0 = if k < i {
                            k
                        } else {
                            k + 1
                        };
                        assert(after[k] == before[k0]);
                    }
                    assert forall|other: RequestIdView| other != id@ implies self.waiter_of(other)
                        == old(self).waiter_of(other) by {
                        if let RequestIdView::Number(m) = other {
                            if i64::MIN <= m <= i64::MAX {
                                let m64 = m as i64;
                                find_id_is_first(before, m64, 0);
                                let j = find_id_from(before, m64, 0);
                                if j < before.len() {
                                    let j2 = if j < i {
                                        j
                                    } else {
                                        j - 1
                                    };
                                    assert(after[j2] == m64);
                                    assert forall|k: int| 0 <= k < j2 implies after[k] != m64 by {
                                        if k < i {
                                            assert(after[k] == before[k]);
                                        } else {
                                            assert(after[k] == before[k + 1]);
                                        }
                                    }
                                    find_id_hits(after, m64, 0, j2);
                                    assert(self.waiting@[j2] == old(self).waiting@[j]);
                                } else {
                                    assert forall|k: int| 0 <= k < after.len() implies after[k]
                                        != m64 by {
                                        if k < i {
                                            assert(after[k] == before[k]);
                                        } else {
                                            assert(after[k] == before[k + 1]);
                                        }
                                    }
                                    find_id_misses(after, m64, 0);
                                }
                            }
                        }
                    }
                }
                return Some(taken.waiter);
            }
            i += 1;
        }
        None
    }

    /// Closes the connection: hands out every request that still waits, in
    /// the order in which they went out, each to be failed with the
    /// connection-closed error, and leaves none waiting.
    pub fn close(&mut self) -> (r: Vec<Pending<T>>)
        requires
            old(self).wf(),
        ensures
            final(self).wf(),
            final(self).idle(),
            final(self).next_id == old(self).next_id,
            r@ == old(self).waiting@,
    {
        let mut failed: Vec<Pending<T>> = Vec::new();
        std::mem::swap(&mut failed, &mut self.waiting);
        failed
    }
}

/// After the connection is closed no request waits: an idle table waits
/// for no response.
pub proof fn closed_table_is_idle<T>(table: PendingResponses<T>)
    requires
        table.idle(),
    ensures
        forall|id: RequestIdView| !table.is_pending(id),
{
}

} // verus!
