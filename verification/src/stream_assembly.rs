//! Assembly of a file that NapCat's streaming API sends in chunks: the
//! decisions of the receiving loop, from one event to the next.
use vstd::prelude::*;

use crate::codec::{base64_standard_decode, decode_error_text};
use crate::text::{has_prefix, int_text, int_to_text, owned, push_str, str_eq};
use crate::types::StreamChunkData;
use std::collections::HashMap;

verus! {

broadcast use vstd::std_specs::hash::group_hash_axioms;

/// The data of the chunks with indices `0..n`, in index order; a missing
/// chunk adds nothing.
pub open spec fn assembled(m: Map<i32, Seq<u8>>, n: nat) -> Seq<u8>
    decreases n,
{
    if n == 0 {
        Seq::empty()
    } else {
        assembled(m, (n - 1) as nat) + if m.contains_key((n - 1) as i32) {
            m[(n - 1) as i32]
        } else {
            Seq::empty()
        }
    }
}

/// The number of indices `0..total` combines (none for a negative total).
pub open spec fn index_span(total: i32) -> nat {
    if total < 0 {
        0
    } else {
        total as nat
    }
}

/// One event of the receiving loop.
#[derive(Debug)]
pub enum StreamEvent {
    /// A chunk arrived.
    Chunk(StreamChunkData),
    /// The chunk channel closed.
    ChunksClosed,
    /// The stream reported its end: success, or an error.
    Done(Result<(), String>),
    /// The end-of-stream channel closed without a report.
    DoneClosed,
    /// No event within the wait limit.
    TimedOut,
}

/// What the receiving loop does after an event.
#[derive(Debug)]
pub enum StreamStep {
    /// Wait for the next event.
    Continue,
    /// Stop with this error.
    Failed(String),
}

/// What a chunk does to a download: a chunk of another stream than the
/// first fails with "Stream ID mismatch: expected <first>, got <this>" and
/// changes nothing; else the first chunk fixes the stream and the total; a
/// chunk that is not valid Base64 then fails with "Failed to decode chunk
/// <index>: ..."; a valid one is held under its index (see
/// `StreamAssembly::accept_decoded`) and the download goes on. Whether the
/// stream has ended is left as it was.
pub open spec fn chunk_step(pre: StreamAssembly, post: StreamAssembly, chunk: StreamChunkData, r: StreamStep) -> bool {
    &&& post.ended() == pre.ended()
    &&& match pre.stream() {
        Some(sid) if sid != chunk.stream_id@ => {
            &&& r matches StreamStep::Failed(m) && m@ == "Stream ID mismatch: expected "@ + sid
                + ", got "@ + chunk.stream_id@
            &&& post.chunks_held() == pre.chunks_held()
            &&& post.total() == pre.total()
            &&& post.stream() == pre.stream()
        },
        _ => {
            &&& post.stream() == Some(
                match pre.stream() {
                    Some(sid) => sid,
                    None => chunk.stream_id@,
                },
            )
            &&& post.total() == Some(
                match pre.total() {
                    Some(t) => t,
                    None => chunk.total_chunks,
                },
            )
            &&& match base64_standard_decode(chunk.chunk_data@) {
                Some(bytes) => r is Continue && post.chunks_held() == pre.chunks_held().insert(
                    chunk.chunk_index,
                    bytes,
                ),
                None => r matches StreamStep::Failed(m) && has_prefix(
                    m@,
                    "Failed to decode chunk "@ + int_text(chunk.chunk_index as int) + ": "@,
                ) && post.chunks_held() == pre.chunks_held(),
            }
        },
    }
}

/// The state of one streamed download.
pub struct StreamAssembly {
    chunks: HashMap<i32, Vec<u8>>,
    total_chunks: Option<i32>,
    stream_id: Option<String>,
    done_ok: bool,
}

impl StreamAssembly {
    /// The chunks held, by index.
    pub closed spec fn chunks_held(&self) -> Map<i32, Seq<u8>> {
        self.chunks@.map_values(|v: Vec<u8>| v@)
    }

    /// The number of chunks announced by the first chunk.
    pub closed spec fn total(&self) -> Option<i32> {
        self.total_chunks
    }

    /// The stream the first chunk came from.
    pub closed spec fn stream(&self) -> Option<Seq<char>> {
        match self.stream_id {
            Some(s) => Some(s@),
            None => None,
        }
    }

    /// The stream has reported a successful end.
    pub closed spec fn ended(&self) -> bool {
        self.done_ok
    }

    /// As many chunks are held as the first chunk announced.
    pub open spec fn holds_all(&self) -> bool {
        match self.total() {
            Some(t) => self.chunks_held().dom().len() == t as usize,
            None => false,
        }
    }

    /// The state before any event.
    pub fn new() -> (r: StreamAssembly)
        ensures
            r.chunks_held() == Map::<i32, Seq<u8>>::empty(),
            r.total() is None,
            r.stream() is None,
            !r.ended(),
    {
        StreamAssembly { chunks: HashMap::new(), total_chunks: None, stream_id: None, done_ok: false }
    }

    /// The file, once complete: when the total is known and as many chunks
    /// are held, the data of chunks `0..total` in index order; else nothing.
    #[verifier::loop_isolation(false)]
    pub fn completed(&self) -> (r: Option<Vec<u8>>)
        ensures
            match self.total() {
                Some(t) => if self.chunks_held().dom().len() == t as usize {
                    r matches Some(v) && v@ == assembled(self.chunks_held(), index_span(t))
                } else {
                    r is None
                },
                None => r is None,
            },
    {
        let ghost held = self.chunks_held();
        assert(held.dom() =~= self.chunks@.dom());
        let t = match self.total_chunks {
            Some(t) => t,
            None => return None,
        };
        if self.chunks.len() != t as usize {
            return None;
        }
        let mut combined: Vec<u8> = Vec::new();
        let mut i: i32 = 0;
        while i < t
            invariant
                0 <= i,
                t >= 0 ==> i <= t,
                t < 0 ==> i == 0,
                held == self.chunks_held(),
                combined@ == assembled(held, i as nat),
            decreases t - i,
        {
            let ghost before = combined@;
            match self.chunks.get(&i) {
                Some(d) => {
                    assert(held.contains_key(i) && held[i] == d@);
                    let mut q: usize = 0;
                    while q < d.len()
                        invariant
                            q <= d@.len(),
                            combined@ == before + d@.take(q as int),
                        decreases d@.len() - q,
                    {
                        combined.push(d[q]);
                        q += 1;
                        assert(before + d@.take(q as int) =~= (before + d@.take(q - 1)).push(
                            d@[q - 1],
                        ));
                    }
                    assert(d@.take(q as int) =~= d@);
                },
                None => {
                    assert(!held.contains_key(i));
                    assert(combined@ =~= before + Seq::<u8>::empty());
                },
            }
            i += 1;
            assert((i - 1) as i32 == (i - 1));
        }
        Some(combined)
    }

    /// The state after a chunk whose bytes were decoded: the chunk is held
    /// under its index, replacing one held there.
    pub fn accept_decoded(&mut self, index: i32, data: Vec<u8>)
        ensures
            final(self).chunks_held() == old(self).chunks_held().insert(index, data@),
            final(self).total() == old(self).total(),
            final(self).stream() == old(self).stream(),
            final(self).ended() == old(self).ended(),
    {
        let ghost before = self.chunks_held();
        self.chunks.insert(index, data);
        assert(self.chunks_held() =~= before.insert(index, data@));
    }

    /// The state and step after a chunk arrives (see `chunk_step`).
    pub fn on_chunk(&mut self, chunk: &StreamChunkData) -> (r: StreamStep)
        ensures
            chunk_step(*old(self), *final(self), *chunk, r),
    {
        match &self.stream_id {
            Some(sid) => {
                if !str_eq(sid.as_str(), chunk.stream_id.as_str()) {
                    let mut m = owned("Stream ID mismatch: expected ");
                    push_str(&mut m, sid.as_str());
                    push_str(&mut m, ", got ");
                    push_str(&mut m, chunk.stream_id.as_str());
                    return StreamStep::Failed(m);
                }
            },
            None => {
                self.stream_id = Some(chunk.stream_id.clone());
            },
        }
        if self.total_chunks.is_none() {
            self.total_chunks = Some(chunk.total_chunks);
        }
        match chunk.decode_data() {
            Ok(bytes) => {
                self.accept_decoded(chunk.chunk_index, bytes);
                StreamStep::Continue
            },
            Err(e) => {
                let mut m = owned("Failed to decode chunk ");
                let n = int_to_text(chunk.chunk_index as i128);
                push_str(&mut m, n.as_str());
                push_str(&mut m, ": ");
                let ghost p = m@;
                let detail = decode_error_text(&e);
                push_str(&mut m, detail.as_str());
                assert(m@.take(p.len() as int) =~= p);
                StreamStep::Failed(m)
            },
        }
    }

    /// The state and step after an event (see `chunk_step` for a chunk): the
    /// chunk channel closing is fine once the stream reported success and all
    /// announced chunks are held, and fails with "Stream channel closed before
    /// completion" otherwise. That includes a close after a reported success
    /// while chunks are still missing: no further chunk can arrive then, so
    /// the download fails here rather than waiting again on an end report
    /// that was already received. A successful end is noted, a failed one
    /// fails with its error; the end channel closing fails with "Stream done
    /// channel closed unexpectedly"; a timeout fails with "Stream download
    /// timeout".
    pub fn on_event(&mut self, event: StreamEvent) -> (r: StreamStep)
        ensures
            match event {
                StreamEvent::Chunk(c) => chunk_step(*old(self), *final(self), c, r),
                StreamEvent::ChunksClosed => *final(self) == *old(self) && if old(self).ended()
                    && old(self).holds_all() {
                    r is Continue
                } else {
                    r matches StreamStep::Failed(m) && m@
                        == "Stream channel closed before completion"@
                },
                StreamEvent::Done(Ok(())) => r is Continue && final(self).ended()
                    && final(self).chunks_held() == old(self).chunks_held() && final(self).total()
                    == old(self).total() && final(self).stream() == old(self).stream(),
                StreamEvent::Done(Err(e)) => r matches StreamStep::Failed(m) && m == e,
                StreamEvent::DoneClosed => r matches StreamStep::Failed(m) && m@
                    == "Stream done channel closed unexpectedly"@,
                StreamEvent::TimedOut => r matches StreamStep::Failed(m) && m@
                    == "Stream download timeout"@,
            },
    {
        match event {
            StreamEvent::Chunk(c) => self.on_chunk(&c),
            StreamEvent::ChunksClosed => {
                assert(self.chunks_held().dom() =~= self.chunks@.dom());
                let all = match self.total_chunks {
                    Some(t) => self.chunks.len() == t as usize,
                    None => false,
                };
                if self.done_ok && all {
                    StreamStep::Continue
                } else {
                    StreamStep::Failed(owned("Stream channel closed before completion"))
                }
            },
            StreamEvent::Done(Ok(())) => {
                self.done_ok = true;
                StreamStep::Continue
            },
            StreamEvent::Done(Err(e)) => StreamStep::Failed(e),
            StreamEvent::DoneClosed => StreamStep::Failed(
                owned("Stream done channel closed unexpectedly"),
            ),
            StreamEvent::TimedOut => StreamStep::Failed(owned("Stream download timeout")),
        }
    }
}

/// The chunks held after chunks arrive in the given order, starting from
/// none (each arrival as `StreamAssembly::accept_decoded` records it).
pub open spec fn arrivals_map(arr: Seq<(i32, Seq<u8>)>) -> Map<i32, Seq<u8>>
    decreases arr.len(),
{
    if arr.len() == 0 {
        Map::empty()
    } else {
        arrivals_map(arr.drop_last()).insert(arr.last().0, arr.last().1)
    }
}

/// No index arrives twice.
pub open spec fn distinct_arrivals(arr: Seq<(i32, Seq<u8>)>) -> bool {
    forall|a: int, b: int| 0 <= a < b < arr.len() ==> #[trigger] arr[a].0 != #[trigger] arr[b].0
}

/// A chunk with index `i` arrived.
pub open spec fn arrived(arr: Seq<(i32, Seq<u8>)>, i: i32) -> bool {
    exists|j: int| 0 <= j < arr.len() && #[trigger] arr[j].0 == i
}

/// The data of the chunk that arrived with index `i`.
pub open spec fn arrival_data(arr: Seq<(i32, Seq<u8>)>, i: i32) -> Seq<u8> {
    arr[choose|j: int| 0 <= j < arr.len() && arr[j].0 == i].1
}

/// The data of chunks `0..n` in index order.
pub open spec fn in_index_order(arr: Seq<(i32, Seq<u8>)>, n: nat) -> Seq<u8>
    decreases n,
{
    if n == 0 {
        Seq::empty()
    } else {
        in_index_order(arr, (n - 1) as nat) + arrival_data(arr, (n - 1) as i32)
    }
}

proof fn lemma_arrivals_map(arr: Seq<(i32, Seq<u8>)>)
    requires
        distinct_arrivals(arr),
    ensures
        arrivals_map(arr).dom().finite(),
        arrivals_map(arr).dom().len() == arr.len(),
        forall|k: i32| arrivals_map(arr).contains_key(k) <==> exists|j: int| 0 <= j < arr.len() && #[trigger] arr[j].0 == k,
        forall|j: int| 0 <= j < arr.len() ==> arrivals_map(arr)[#[trigger] arr[j].0] == arr[j].1,
    decreases arr.len(),
{
    if arr.len() > 0 {
        let p = arr.drop_last();
        assert(distinct_arrivals(p));
        lemma_arrivals_map(p);
        let k = arr.last().0;
        assert(!arrivals_map(p).contains_key(k)) by {
            if arrivals_map(p).contains_key(k) {
                let j = choose|j: int| 0 <= j < p.len() && #[trigger] p[j].0 == k;
                assert(arr[j].0 == arr[arr.len() - 1].0);
            }
        }
        assert forall|k2: i32| arrivals_map(arr).contains_key(k2) implies exists|j: int|
            0 <= j < arr.len() && #[trigger] arr[j].0 == k2 by {
            if k2 != k {
                let j = choose|j: int| 0 <= j < p.len() && #[trigger] p[j].0 == k2;
                assert(arr[j].0 == k2);
            } else {
                assert(arr[arr.len() - 1].0 == k2);
            }
        }
        assert forall|k2: i32| (exists|j: int| 0 <= j < arr.len() && #[trigger] arr[j].0 == k2)
            implies arrivals_map(arr).contains_key(k2) by {
            let j = choose|j: int| 0 <= j < arr.len() && #[trigger] arr[j].0 == k2;
            if j < arr.len() - 1 {
                assert(p[j].0 == k2);
            }
        }
        assert forall|j: int| 0 <= j < arr.len() implies arrivals_map(arr)[#[trigger] arr[j].0] == arr[j].1 by {
            if j < arr.len() - 1 {
                assert(p[j] == arr[j]);
                assert(arr[j].0 != k);
            }
        }
    }
}

/// A streamed file does not depend on the order its chunks arrive in: the
/// same chunks (no index twice) arriving in two orders are held alike, so
/// every assembly of them gives the same data.
pub proof fn law_arrival_order_irrelevant(arr1: Seq<(i32, Seq<u8>)>, arr2: Seq<(i32, Seq<u8>)>)
    requires
        distinct_arrivals(arr1),
        distinct_arrivals(arr2),
        arr1.to_multiset() == arr2.to_multiset(),
    ensures
        arrivals_map(arr1) == arrivals_map(arr2),
        forall|n: nat| assembled(arrivals_map(arr1), n) == assembled(arrivals_map(arr2), n),
{
    lemma_arrivals_map(arr1);
    lemma_arrivals_map(arr2);
    arr1.to_multiset_ensures();
    arr2.to_multiset_ensures();
    let m1 = arrivals_map(arr1);
    let m2 = arrivals_map(arr2);
    assert forall|k: i32| m1.contains_key(k) implies m2.contains_key(k) && m2[k] == m1[k] by {
        let j = choose|j: int| 0 <= j < arr1.len() && #[trigger] arr1[j].0 == k;
        assert(arr1.contains(arr1[j]));
        assert(arr2.to_multiset().count(arr1[j]) > 0);
        let j2 = choose|j2: int| 0 <= j2 < arr2.len() && arr2[j2] == arr1[j];
        assert(arr2[j2].0 == k);
    }
    assert forall|k: i32| m2.contains_key(k) implies m1.contains_key(k) by {
        let j = choose|j: int| 0 <= j < arr2.len() && #[trigger] arr2[j].0 == k;
        assert(arr2.contains(arr2[j]));
        assert(arr1.to_multiset().count(arr2[j]) > 0);
        let j1 = choose|j1: int| 0 <= j1 < arr1.len() && arr1[j1] == arr2[j];
        assert(arr1[j1].0 == k);
    }
    assert(m1 =~= m2);
}

/// When chunks `0..t` each arrive once, in any order, the file is complete
/// (as many chunks are held as were announced) and is their data in index
/// order.
pub proof fn law_assembled_in_index_order(arr: Seq<(i32, Seq<u8>)>, t: i32)
    requires
        distinct_arrivals(arr),
        arr.len() == t,
        forall|i: i32| 0 <= i < t ==> #[trigger] arrived(arr, i),
    ensures
        arrivals_map(arr).dom().len() == t as usize,
        assembled(arrivals_map(arr), index_span(t)) == in_index_order(arr, index_span(t)),
{
    lemma_arrivals_map(arr);
    let m = arrivals_map(arr);
    assert forall|n: nat| n <= t implies #[trigger] assembled(m, n) == in_index_order(arr, n) by {
        lemma_index_order_prefix(arr, t, n);
    }
}

proof fn lemma_index_order_prefix(arr: Seq<(i32, Seq<u8>)>, t: i32, n: nat)
    requires
        distinct_arrivals(arr),
        n <= t,
        forall|i: i32| 0 <= i < t ==> #[trigger] arrived(arr, i),
    ensures
        assembled(arrivals_map(arr), n) == in_index_order(arr, n),
    decreases n,
{
    if n > 0 {
        lemma_index_order_prefix(arr, t, (n - 1) as nat);
        lemma_arrivals_map(arr);
        let i = (n - 1) as i32;
        assert(arrived(arr, i));
        let j = choose|j: int| 0 <= j < arr.len() && arr[j].0 == i;
        assert(arrivals_map(arr)[arr[j].0] == arr[j].1);
    }
}

} // verus!
