//! What the server side of each call sends back: one reply for a unary call,
//! an ordered stream closed by an explicit end for a streaming one.
use vstd::prelude::*;

use crate::envelope::SendmeResponse;
use crate::error::{description_of, RpcError};
use crate::messages::{ContentHash, ListResponse, ProvideResponse, VersionResponse, WatchResponse};

verus! {

/// One element of a server stream: an item, or the signal that no item
/// follows.
#[derive(Debug, Clone, PartialEq, Eq)]
pub enum StreamItem<T> {
    Item(T),
    End,
}

/// The stream a call sends for `items`: each item in order, then the end.
pub open spec fn spec_stream<T>(items: Seq<T>) -> Seq<StreamItem<T>> {
    items.map_values(|x: T| StreamItem::Item(x)).push(StreamItem::End)
}

/// No two entries share a path.
pub open spec fn paths_unique(entries: Seq<ListResponse>) -> bool {
    forall|i: int, j: int|
        0 <= i < j < entries.len() ==> #[trigger] entries[i].path != #[trigger] entries[j].path
}

/// No two items of the stream share a path.
pub open spec fn stream_paths_unique(s: Seq<StreamItem<ListResponse>>) -> bool {
    forall|i: int, j: int|
        0 <= i < j < s.len() && s[i] is Item && s[j] is Item ==> (#[trigger] s[i])->Item_0.path
            != (#[trigger] s[j])->Item_0.path
}

fn stream_of<T>(items: Vec<T>) -> (r: Vec<StreamItem<T>>)
    ensures
        r@ == spec_stream(items@),
{
    let ghost orig = items@;
    let mut items = items;
    let mut reversed: Vec<T> = Vec::new();
    while items.len() > 0
        invariant
            items@ == orig.take(items@.len() as int),
            items@.len() <= orig.len(),
            reversed@.len() == orig.len() - items@.len(),
            forall|j: int|
                0 <= j < reversed@.len() ==> #[trigger] reversed@[j] == orig[orig.len() - 1 - j],
        decreases items@.len(),
    {
        let x = items.pop().unwrap();
        reversed.push(x);
    }
    let mut out: Vec<StreamItem<T>> = Vec::new();
    while reversed.len() > 0
        invariant
            out@.len() + reversed@.len() == orig.len(),
            forall|j: int|
                0 <= j < reversed@.len() ==> #[trigger] reversed@[j] == orig[orig.len() - 1 - j],
            forall|j: int|
                0 <= j < out@.len() ==> #[trigger] out@[j] == StreamItem::Item(orig[j]),
        decreases reversed@.len(),
    {
        let x = reversed.pop().unwrap();
        out.push(StreamItem::Item(x));
    }
    out.push(StreamItem::End);
    assert(out@ =~= spec_stream(orig));
    out
}

/// The stream a `List` call sends for the items currently shared.
pub fn list_stream(shared: Vec<ListResponse>) -> (r: Vec<StreamItem<ListResponse>>)
    ensures
        r@ == spec_stream(shared@),
{
    stream_of(shared)
}

/// A stream for `n` items holds exactly `n` items, each the one given at its
/// place, and then one end signal, after which nothing follows; where the
/// shared paths are distinct, so are the paths of the streamed items.
pub proof fn lemma_list_paths_unique(shared: Seq<ListResponse>)
    ensures
        spec_stream(shared).len() == shared.len() + 1,
        forall|i: int|
            0 <= i < shared.len() ==> #[trigger] spec_stream(shared)[i] == StreamItem::Item(
                shared[i],
            ),
        spec_stream(shared).last() == StreamItem::<ListResponse>::End,
        forall|i: int|
            0 <= i < spec_stream(shared).len() && #[trigger] spec_stream(shared)[i] is End ==> i
                == shared.len(),
        paths_unique(shared) ==> stream_paths_unique(spec_stream(shared)),
{
    let s = spec_stream(shared);
    assert forall|i: int| 0 <= i < shared.len() implies #[trigger] s[i] == StreamItem::Item(
        shared[i],
    ) by {}
    if paths_unique(shared) {
        assert forall|i: int, j: int|
            0 <= i < j < s.len() && s[i] is Item && s[j] is Item implies (#[trigger] s[i])->Item_0.path
            != (#[trigger] s[j])->Item_0.path by {
            assert(s[i] == StreamItem::Item(shared[i]));
            assert(s[j] == StreamItem::Item(shared[j]));
        }
    }
}

/// The version a watcher holds after seeing `seen`, having started at `start`.
pub open spec fn version_after(start: Seq<char>, seen: Seq<Seq<char>>) -> Seq<char> {
    if seen.len() == 0 {
        start
    } else {
        seen.last()
    }
}

/// The versions a watcher that started at `start` reports while it sees
/// `seen`: one for each observation that differs from the one before it.
pub open spec fn version_changes(start: Seq<char>, seen: Seq<Seq<char>>) -> Seq<Seq<char>>
    decreases seen.len(),
{
    if seen.len() == 0 {
        Seq::empty()
    } else {
        let before = seen.drop_last();
        let earlier = version_changes(start, before);
        if seen.last() == version_after(start, before) {
            earlier
        } else {
            earlier.push(seen.last())
        }
    }
}

/// A watcher reports nothing while every observation equals the version it
/// started at, and at most one item per observation in any case; a new
/// version seen after a run reports exactly that version, once, after the
/// items of the run.
pub proof fn lemma_watch_reports_changes_only(
    start: Seq<char>,
    seen: Seq<Seq<char>>,
    next: Seq<char>,
)
    ensures
        (forall|i: int| 0 <= i < seen.len() ==> #[trigger] seen[i] == start) ==> version_changes(
            start,
            seen,
        ).len() == 0,
        version_changes(start, seen).len() <= seen.len(),
        next != version_after(start, seen) ==> version_changes(start, seen.push(next))
            == version_changes(start, seen).push(next),
        next == version_after(start, seen) ==> version_changes(start, seen.push(next))
            == version_changes(start, seen),
    decreases seen.len(),
{
    assert(seen.push(next).drop_last() =~= seen);
    if seen.len() > 0 {
        lemma_watch_reports_changes_only(start, seen.drop_last(), seen.last());
        if forall|i: int| 0 <= i < seen.len() ==> #[trigger] seen[i] == start {
            assert forall|i: int| 0 <= i < seen.drop_last().len() implies #[trigger] seen.drop_last()[i]
                == start by {
                assert(seen[i] == start);
            }
            lemma_watch_reports_changes_only(start, seen.drop_last(), start);
        }
    }
}

/// The server side of a `Watch` call: it reports the service's version each
/// time it changes, and stays silent otherwise.
pub struct VersionWatch {
    last: String,
}

impl VersionWatch {
    pub closed spec fn spec_last(self) -> Seq<char> {
        self.last@
    }

    /// A watcher for a service whose version is now `current`.
    pub fn new(current: String) -> (w: VersionWatch)
        ensures
            w.spec_last() == current@,
    {
        VersionWatch { last: current }
    }

    /// The version this watcher last saw.
    pub fn last_seen(&self) -> (r: &String)
        ensures
            r@ == self.spec_last(),
    {
        &self.last
    }

    /// Takes in the service's version as observed now; gives the item to send,
    /// if the version changed.
    pub fn observe(&mut self, current: String) -> (r: Option<WatchResponse>)
        ensures
            final(self).spec_last() == current@,
            current@ == old(self).spec_last() ==> r is None,
            current@ != old(self).spec_last() ==> (r matches Some(item) && item.version@
                == current@),
    {
        if current == self.last {
            None
        } else {
            let item = WatchResponse { version: current.clone() };
            self.last = current;
            Some(item)
        }
    }

    /// Takes in a run of observed versions; gives the items to send, in order.
    pub fn observe_all(&mut self, seen: Vec<String>) -> (r: Vec<WatchResponse>)
        ensures
            r@.map_values(|w: WatchResponse| w.version@) == version_changes(
                old(self).spec_last(),
                seen@.map_values(|s: String| s@),
            ),
            final(self).spec_last() == version_after(
                old(self).spec_last(),
                seen@.map_values(|s: String| s@),
            ),
    {
        let ghost start = self.spec_last();
        let ghost views = seen@.map_values(|s: String| s@);
        let mut out: Vec<WatchResponse> = Vec::new();
        let mut i: usize = 0;
        while i < seen.len()
            invariant
                i <= seen@.len(),
                views == seen@.map_values(|s: String| s@),
                out@.map_values(|w: WatchResponse| w.version@) == version_changes(
                    start,
                    views.take(i as int),
                ),
                self.spec_last() == version_after(start, views.take(i as int)),
            decreases seen@.len() - i,
        {
            let ghost before = out@;
            let item = self.observe(seen[i].clone());
            let ghost prefix = views.take(i as int + 1);
            assert(prefix.drop_last() =~= views.take(i as int));
            assert(prefix.last() == seen@[i as int]@);
            match item {
                Some(w) => {
                    out.push(w);
                    assert(out@.map_values(|w: WatchResponse| w.version@) =~= before.map_values(
                        |w: WatchResponse| w.version@,
                    ).push(seen@[i as int]@));
                },
                None => {},
            }
            i = i + 1;
        }
        assert(views.take(seen@.len() as int) =~= views);
        out
    }
}

/// The single reply to a `Version` call on a service configured with
/// `configured`.
pub fn version_reply(configured: &String) -> (r: SendmeResponse)
    ensures
        r matches SendmeResponse::Version(v) && v.version@ == configured@,
{
    SendmeResponse::Version(VersionResponse { version: configured.clone() })
}

/// The single reply to a `Provide` call, given what sharing the path gave:
/// the content's hash, or the failure, captured for transport.
pub fn provide_reply(outcome: Result<ContentHash, anyhow::Error>) -> (r: SendmeResponse)
    ensures
        outcome matches Ok(hash) ==> r == (SendmeResponse::Provide(
            Ok(ProvideResponse { hash }),
        )),
        outcome is Err ==> (r matches SendmeResponse::Provide(p) && p matches Err(err)
            && err.spec_message() == description_of(err.captured())),
        outcome is Ok <==> (r matches SendmeResponse::Provide(p) && p is Ok),
        r is Provide,
{
    match outcome {
        Ok(hash) => SendmeResponse::Provide(Ok(ProvideResponse { hash })),
        Err(e) => SendmeResponse::Provide(Err(RpcError::from(e))),
    }
}

} // verus!
