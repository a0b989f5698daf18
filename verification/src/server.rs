use crate::dedup::seen_contains;
use crate::dedup::seen_frames;
use crate::dedup::seen_insert;
use crate::dedup::seen_new;
use crate::error::result_view;
use crate::error::ErrorView;
use crate::error::RStreamerError;
use crate::multipart::chunk_views;
use crate::multipart::closing_boundary;
use crate::multipart::content_type;
use crate::multipart::encode_closing_boundary;
use crate::multipart::encode_content_type;
use crate::multipart::encode_part;
use crate::multipart::part_chunks;
use crate::multipart::STATUS_OK;
use crate::outcome::Outcome;
use crate::outcome::OutcomeView;
use rustc_hash::FxHashSet;
use vstd::prelude::*;

verus! {

/// The path of the one endpoint that the server offers.
pub const STREAM_PATH: &'static str = "/";

/// The interfaces a listener is bound to: all of them.
pub const ALL_INTERFACES: [u8; 4] = [0, 0, 0, 0];

/// Where a server stands between its creation and its end.
#[derive(Clone, Copy, Debug, PartialEq, Eq, Structural)]
pub enum ServerPhase {
    /// Created, never started.
    Idle,
    /// The host has been asked to bind the listener.
    Binding,
    /// The listener is bound and the host accepts connections on it.
    Serving,
    /// Stopped, or failed to bind, or done serving.
    Stopped,
}

/// What a server asks of its host.
#[derive(Clone, Copy, Debug, PartialEq, Eq)]
pub enum ServerAction {
    /// Bind a listener to this address and port, then report the outcome.
    Bind { address: [u8; 4], port: u16 },
    /// Accept connections on the listener; report when serving has ended.
    Serve,
    /// Tear down the listener and every open connection at once.
    Abort,
    /// Nothing to do.
    Nothing,
}

impl View for ServerAction {
    type V = ServerAction;

    open spec fn view(&self) -> ServerAction {
        *self
    }
}

/// A server as contracts see it.
pub struct ServerState {
    pub port: u16,
    pub phase: ServerPhase,
}

impl ServerState {
    /// A server is active while its host binds or serves for it.
    pub open spec fn active(self) -> bool {
        self.phase == ServerPhase::Binding || self.phase == ServerPhase::Serving
    }

    /// Starting: a server that is not active asks for its listener to be
    /// bound on every interface; an active one is left alone.
    pub open spec fn start(self) -> (ServerState, ServerAction) {
        if self.active() {
            (self, ServerAction::Nothing)
        } else {
            (
                ServerState { phase: ServerPhase::Binding, ..self },
                ServerAction::Bind { address: ALL_INTERFACES, port: self.port },
            )
        }
    }

    /// Handling the outcome of the action asked for last.
    ///
    /// A failed bind is an error and ends the server. A successful bind is
    /// followed by serving. When serving ends, however it ends, the server
    /// is stopped. A server that has asked for nothing ignores the outcome.
    pub open spec fn step(self, outcome: OutcomeView) -> (
        ServerState,
        Result<ServerAction, ErrorView>,
    ) {
        match self.phase {
            ServerPhase::Binding => match outcome {
                OutcomeView::Failed(reason) => (
                    ServerState { phase: ServerPhase::Stopped, ..self },
                    Err(ErrorView::ServerError(reason)),
                ),
                _ => (ServerState { phase: ServerPhase::Serving, ..self }, Ok(ServerAction::Serve)),
            },
            ServerPhase::Serving => (
                ServerState { phase: ServerPhase::Stopped, ..self },
                Ok(ServerAction::Nothing),
            ),
            _ => (self, Ok(ServerAction::Nothing)),
        }
    }

    /// Stopping: an active server is torn down at once; any other is left
    /// alone.
    pub open spec fn stop(self) -> (ServerState, ServerAction) {
        if self.active() {
            (ServerState { phase: ServerPhase::Stopped, ..self }, ServerAction::Abort)
        } else {
            (self, ServerAction::Nothing)
        }
    }
}

/// The HTTP side of the pipeline: one listener that serves the live stream
/// to every client that connects.
pub struct StreamingServer {
    port: u16,
    phase: ServerPhase,
}

impl View for StreamingServer {
    type V = ServerState;

    closed spec fn view(&self) -> ServerState {
        ServerState { port: self.port, phase: self.phase }
    }
}

impl StreamingServer {
    /// A server for `port` that has not been started. This never fails.
    pub fn new(port: u16) -> (server: Result<StreamingServer, RStreamerError>)
        ensures
            result_view(server) == Ok::<ServerState, ErrorView>(
                ServerState { port, phase: ServerPhase::Idle },
            ),
    {
        Ok(StreamingServer { port, phase: ServerPhase::Idle })
    }

    /// Starts the server and returns what the host has to do. This never
    /// fails.
    pub fn start(&mut self) -> (action: Result<ServerAction, RStreamerError>)
        ensures
            (final(self)@, result_view(action)) == (
                old(self)@.start().0,
                Ok::<ServerAction, ErrorView>(old(self)@.start().1),
            ),
    {
        match self.phase {
            ServerPhase::Binding | ServerPhase::Serving => Ok(ServerAction::Nothing),
            _ => {
                self.phase = ServerPhase::Binding;
                Ok(ServerAction::Bind { address: ALL_INTERFACES, port: self.port })
            },
        }
    }

    /// Takes the outcome of the action asked for last and returns the next.
    pub fn step(&mut self, outcome: Outcome) -> (action: Result<ServerAction, RStreamerError>)
        ensures
            (final(self)@, result_view(action)) == old(self)@.step(outcome@),
    {
        match self.phase {
            ServerPhase::Binding => match outcome {
                Outcome::Failed(reason) => {
                    self.phase = ServerPhase::Stopped;
                    Err(RStreamerError::ServerError(reason))
                },
                _ => {
                    self.phase = ServerPhase::Serving;
                    Ok(ServerAction::Serve)
                },
            },
            ServerPhase::Serving => {
                self.phase = ServerPhase::Stopped;
                Ok(ServerAction::Nothing)
            },
            _ => Ok(ServerAction::Nothing),
        }
    }

    /// Whether the host binds or serves for this server.
    pub fn is_active(&self) -> (active: bool)
        ensures
            active == self@.active(),
    {
        match self.phase {
            ServerPhase::Binding | ServerPhase::Serving => true,
            _ => false,
        }
    }

    /// Stops the server and returns what the host has to do. Open
    /// connections are not drained. This never fails, and stopping a server
    /// that is not active changes nothing.
    pub fn stop(&mut self) -> (action: Result<ServerAction, RStreamerError>)
        ensures
            (final(self)@, result_view(action)) == (
                old(self)@.stop().0,
                Ok::<ServerAction, ErrorView>(old(self)@.stop().1),
            ),
    {
        match self.phase {
            ServerPhase::Binding | ServerPhase::Serving => {
                self.phase = ServerPhase::Stopped;
                Ok(ServerAction::Abort)
            },
            _ => Ok(ServerAction::Nothing),
        }
    }
}

/// What a connection receives from its subscription, one item at a time.
#[derive(Debug)]
pub enum FeedItem {
    /// The bytes of one published frame.
    Frame(Vec<u8>),
    /// The connection fell behind and missed this many frames.
    Lagged(u64),
}

/// A feed item as contracts see it.
pub enum FeedItemView {
    Frame(Seq<u8>),
    Lagged(u64),
}

impl View for FeedItem {
    type V = FeedItemView;

    open spec fn view(&self) -> FeedItemView {
        match *self {
            FeedItem::Frame(bytes) => FeedItemView::Frame(bytes@),
            FeedItem::Lagged(missed) => FeedItemView::Lagged(missed),
        }
    }
}

impl FeedItem {
    /// Whether the connection has to go on with a new subscription after
    /// this item. After a gap it has to: it resumes with the frames that are
    /// published from then on, not with the oldest ones that are still kept.
    pub fn renews_subscription(&self) -> (renew: bool)
        ensures
            renew == (self@ is Lagged),
    {
        match self {
            FeedItem::Frame(_) => false,
            FeedItem::Lagged(_) => true,
        }
    }
}

/// The items of a feed by their views.
pub open spec fn feed_views(feed: Seq<FeedItem>) -> Seq<FeedItemView> {
    Seq::new(feed.len(), |i: int| feed[i]@)
}

/// The chunks that a connection which has emitted `seen` writes for `item`:
/// one part for a frame it has not emitted before, nothing for a repeated
/// frame and nothing for a gap.
pub open spec fn item_chunks(seen: Set<Seq<u8>>, item: FeedItemView) -> Seq<Seq<u8>> {
    match item {
        FeedItemView::Frame(bytes) => if seen.contains(bytes) {
            Seq::empty()
        } else {
            part_chunks(bytes)
        },
        FeedItemView::Lagged(_) => Seq::empty(),
    }
}

/// The frames emitted so far once a connection that had emitted `seen` has
/// handled `item`.
pub open spec fn seen_after(seen: Set<Seq<u8>>, item: FeedItemView) -> Set<Seq<u8>> {
    match item {
        FeedItemView::Frame(bytes) => seen.insert(bytes),
        FeedItemView::Lagged(_) => seen,
    }
}

/// The frames emitted so far once a connection that had emitted `seen` has
/// handled every item of `feed` in turn.
pub open spec fn seen_after_all(seen: Set<Seq<u8>>, feed: Seq<FeedItemView>) -> Set<Seq<u8>>
    decreases feed.len(),
{
    if feed.len() == 0 {
        seen
    } else {
        seen_after(seen_after_all(seen, feed.drop_last()), feed.last())
    }
}

/// The frames for which a connection that had emitted `seen` writes a part
/// while it handles `feed`, in the order of the parts.
pub open spec fn emitted_frames(seen: Set<Seq<u8>>, feed: Seq<FeedItemView>) -> Seq<Seq<u8>>
    decreases feed.len(),
{
    if feed.len() == 0 {
        Seq::empty()
    } else {
        let earlier = emitted_frames(seen, feed.drop_last());
        match feed.last() {
            FeedItemView::Frame(bytes) => if seen_after_all(seen, feed.drop_last()).contains(
                bytes,
            ) {
                earlier
            } else {
                earlier.push(bytes)
            },
            FeedItemView::Lagged(_) => earlier,
        }
    }
}

/// The chunks of the parts that carry `frames`, one part after the other.
pub open spec fn parts_of(frames: Seq<Seq<u8>>) -> Seq<Seq<u8>>
    decreases frames.len(),
{
    if frames.len() == 0 {
        Seq::empty()
    } else {
        parts_of(frames.drop_last()) + part_chunks(frames.last())
    }
}

/// The chunks of the body that a fresh connection writes for a feed that
/// ends after `feed`: a part for the first occurrence of every distinct
/// frame, then the closing boundary.
pub open spec fn response_body(feed: Seq<FeedItemView>) -> Seq<Seq<u8>> {
    parts_of(emitted_frames(Set::empty(), feed)).push(closing_boundary())
}

/// The byte contents of the frames that occur in `feed`.
pub open spec fn feed_frames(feed: Seq<FeedItemView>) -> Set<Seq<u8>> {
    Set::new(
        |bytes: Seq<u8>| exists|i: int| 0 <= i < feed.len() && feed[i] == FeedItemView::Frame(bytes),
    )
}

/// The frames of a feed are those of the feed without its last item, and
/// the last item if it is a frame.
proof fn lemma_feed_frames_grow(feed: Seq<FeedItemView>)
    requires
        feed.len() > 0,
    ensures
        forall|bytes: Seq<u8>|
            feed_frames(feed).contains(bytes) <==> (feed_frames(feed.drop_last()).contains(bytes)
                || feed.last() == FeedItemView::Frame(bytes)),
{
    let earlier = feed.drop_last();
    assert forall|bytes: Seq<u8>|
        feed_frames(feed).contains(bytes) <==> (feed_frames(earlier).contains(bytes) || feed.last()
            == FeedItemView::Frame(bytes)) by {
        if feed_frames(earlier).contains(bytes) {
            let i = choose|i: int|
                0 <= i < earlier.len() && earlier[i] == FeedItemView::Frame(bytes);
            assert(feed[i] == FeedItemView::Frame(bytes));
        }
        if feed.last() == FeedItemView::Frame(bytes) {
            assert(feed[feed.len() - 1] == FeedItemView::Frame(bytes));
        }
        if feed_frames(feed).contains(bytes) {
            let i = choose|i: int| 0 <= i < feed.len() && feed[i] == FeedItemView::Frame(bytes);
            if i < earlier.len() {
                assert(earlier[i] == FeedItemView::Frame(bytes));
            }
        }
    }
}

/// After a feed a connection remembers what it remembered before and the
/// contents of every frame of the feed, dropped frames included.
pub proof fn lemma_seen_after_all(seen: Set<Seq<u8>>, feed: Seq<FeedItemView>)
    ensures
        seen_after_all(seen, feed) == seen.union(feed_frames(feed)),
    decreases feed.len(),
{
    if feed.len() == 0 {
        assert(seen_after_all(seen, feed) =~= seen.union(feed_frames(feed)));
    } else {
        let earlier = feed.drop_last();
        lemma_seen_after_all(seen, earlier);
        lemma_feed_frames_grow(feed);
        assert(seen_after_all(seen, feed) =~= seen.union(feed_frames(feed)));
    }
}

/// Duplicate suppression is exact. Whatever a connection has emitted before
/// and whatever its feed delivers, no byte content is emitted twice, and a
/// content is emitted if and only if the feed delivers it and the connection
/// had not emitted it before the feed began.
pub proof fn lemma_each_content_emitted_once(seen: Set<Seq<u8>>, feed: Seq<FeedItemView>)
    ensures
        emitted_frames(seen, feed).no_duplicates(),
        forall|bytes: Seq<u8>|
            emitted_frames(seen, feed).contains(bytes) <==> (#[trigger] feed_frames(feed).contains(
                bytes,
            ) && !seen.contains(bytes)),
    decreases feed.len(),
{
    let emitted = emitted_frames(seen, feed);
    if feed.len() == 0 {
        assert forall|bytes: Seq<u8>| !feed_frames(feed).contains(bytes) by {}
    } else {
        let earlier = feed.drop_last();
        let shown = emitted_frames(seen, earlier);
        lemma_each_content_emitted_once(seen, earlier);
        lemma_seen_after_all(seen, earlier);
        lemma_feed_frames_grow(feed);
        let known = seen_after_all(seen, earlier);
        assert(known == seen.union(feed_frames(earlier)));
        if feed.last() is Frame && !known.contains(feed.last()->Frame_0) {
            let last = feed.last()->Frame_0;
            assert(emitted == shown.push(last));
            assert(!shown.contains(last));
            assert forall|bytes: Seq<u8>|
                emitted.contains(bytes) <==> (shown.contains(bytes) || bytes == last) by {
                if shown.contains(bytes) {
                    let i = choose|i: int| 0 <= i < shown.len() && shown[i] == bytes;
                    assert(emitted[i] == bytes);
                }
                if bytes == last {
                    assert(emitted[shown.len() as int] == bytes);
                }
            }
            assert forall|bytes: Seq<u8>|
                emitted.contains(bytes) <==> (feed_frames(feed).contains(bytes) && !seen.contains(
                    bytes,
                )) by {
                let in_feed = feed_frames(feed).contains(bytes);
                let in_earlier = feed_frames(earlier).contains(bytes);
                assert(in_feed <==> (in_earlier || feed.last() == FeedItemView::Frame(bytes)));
                assert(shown.contains(bytes) <==> (in_earlier && !seen.contains(bytes)));
                assert(emitted.contains(bytes) <==> (shown.contains(bytes) || bytes == last));
                assert(feed.last() == FeedItemView::Frame(bytes) <==> bytes == last);
                assert(known.contains(bytes) <==> (seen.contains(bytes) || in_earlier));
            }
        } else {
            assert(emitted == shown);
            assert forall|bytes: Seq<u8>|
                emitted.contains(bytes) <==> (feed_frames(feed).contains(bytes) && !seen.contains(
                    bytes,
                )) by {
                let in_feed = feed_frames(feed).contains(bytes);
                let in_earlier = feed_frames(earlier).contains(bytes);
                assert(in_feed <==> (in_earlier || feed.last() == FeedItemView::Frame(bytes)));
                assert(shown.contains(bytes) <==> (in_earlier && !seen.contains(bytes)));
                assert(known.contains(bytes) <==> (seen.contains(bytes) || in_earlier));
                if feed.last() == FeedItemView::Frame(bytes) {
                    assert(known.contains(bytes));
                }
            }
        }
    }
}

/// What has been written stays written, in its place. The parts for the
/// first `count` items of a feed are the first parts for the whole feed, so
/// parts appear in the order in which their frames first arrive.
pub proof fn lemma_parts_follow_arrival(seen: Set<Seq<u8>>, feed: Seq<FeedItemView>, count: int)
    requires
        0 <= count <= feed.len(),
    ensures
        emitted_frames(seen, feed.take(count)).len() <= emitted_frames(seen, feed).len(),
        emitted_frames(seen, feed.take(count)) == emitted_frames(seen, feed).take(
            emitted_frames(seen, feed.take(count)).len() as int,
        ),
    decreases feed.len(),
{
    if count == feed.len() {
        assert(feed.take(count) =~= feed);
        assert(emitted_frames(seen, feed) =~= emitted_frames(seen, feed).take(
            emitted_frames(seen, feed).len() as int,
        ));
    } else {
        let earlier = feed.drop_last();
        lemma_parts_follow_arrival(seen, earlier, count);
        assert(earlier.take(count) =~= feed.take(count));
        let shown = emitted_frames(seen, earlier);
        let kept = emitted_frames(seen, feed.take(count)).len() as int;
        assert(emitted_frames(seen, feed).take(kept) =~= shown.take(kept));
    }
}

/// The frames of a feed without the gaps between them.
pub open spec fn without_gaps(feed: Seq<FeedItemView>) -> Seq<FeedItemView> {
    feed.filter(|item: FeedItemView| item is Frame)
}

/// A connection that falls behind is not stalled and not ended. A gap in its
/// feed leaves no trace: the connection goes on with the frames that do
/// arrive, and emits and remembers what it would have without the gap.
pub proof fn lemma_gaps_leave_no_trace(seen: Set<Seq<u8>>, feed: Seq<FeedItemView>)
    ensures
        seen_after_all(seen, feed) == seen_after_all(seen, without_gaps(feed)),
        emitted_frames(seen, feed) == emitted_frames(seen, without_gaps(feed)),
    decreases feed.len(),
{
    reveal(Seq::filter);
    if feed.len() > 0 {
        let earlier = feed.drop_last();
        lemma_gaps_leave_no_trace(seen, earlier);
        if feed.last() is Frame {
            let kept = without_gaps(earlier).push(feed.last());
            assert(without_gaps(feed) == kept);
            assert(kept.drop_last() =~= without_gaps(earlier));
        }
    }
}

/// The state of one client connection: the byte contents of the frames it has
/// already emitted. It belongs to that connection alone.
pub struct ConnectionState {
    seen: FxHashSet<Vec<u8>>,
}

impl View for ConnectionState {
    type V = Set<Seq<u8>>;

    closed spec fn view(&self) -> Set<Seq<u8>> {
        seen_frames(self.seen)
    }
}

impl ConnectionState {
    /// The state of a connection that has just been accepted.
    pub fn new() -> (state: ConnectionState)
        ensures
            state@ == Set::<Seq<u8>>::empty(),
    {
        ConnectionState { seen: seen_new() }
    }

    /// Handles the next item of the feed and returns the chunks to write.
    ///
    /// A frame whose bytes were not emitted before is remembered and wrapped
    /// into one part. A repeated frame and a gap change nothing and write
    /// nothing.
    pub fn on_item(&mut self, item: FeedItem) -> (chunks: Vec<Vec<u8>>)
        ensures
            chunk_views(chunks@) == item_chunks(old(self)@, item@),
            final(self)@ == seen_after(old(self)@, item@),
    {
        match item {
            FeedItem::Frame(frame) => {
                if seen_contains(&self.seen, &frame) {
                    assert(self@.insert(frame@) =~= self@);
                    let chunks: Vec<Vec<u8>> = Vec::new();
                    assert(chunk_views(chunks@) =~= Seq::<Seq<u8>>::empty());
                    chunks
                } else {
                    let copy = frame.clone();
                    seen_insert(&mut self.seen, copy);
                    encode_part(frame)
                }
            },
            FeedItem::Lagged(_) => {
                let chunks: Vec<Vec<u8>> = Vec::new();
                assert(chunk_views(chunks@) =~= Seq::<Seq<u8>>::empty());
                chunks
            },
        }
    }

    /// Ends the connection's body: returns the closing boundary.
    pub fn finish(self) -> (line: Vec<u8>)
        ensures
            line@ == closing_boundary(),
    {
        encode_closing_boundary()
    }
}

/// A complete streaming response.
pub struct StreamResponse {
    /// The status code.
    pub status: u16,
    /// The value of the `Content-Type` header.
    pub content_type: String,
    /// The body, chunk by chunk.
    pub body: Vec<Vec<u8>>,
}

/// Serves one connection whose feed delivers `feed` and then closes.
pub fn stream_handler(feed: Vec<FeedItem>) -> (response: StreamResponse)
    ensures
        response.status == STATUS_OK,
        response.content_type@ == content_type(),
        chunk_views(response.body@) == response_body(feed_views(feed@)),
{
    let ghost items = feed_views(feed@);
    let mut state = ConnectionState::new();
    let mut body: Vec<Vec<u8>> = Vec::new();
    assert(chunk_views(body@) =~= Seq::<Seq<u8>>::empty());
    for item in it: feed
        invariant
            it.seq().len() == items.len(),
            forall|i: int| 0 <= i < items.len() ==> (#[trigger] it.seq()[i])@ == items[i],
            state@ == seen_after_all(Set::empty(), items.take(it.index() as int)),
            chunk_views(body@) == parts_of(
                emitted_frames(Set::empty(), items.take(it.index() as int)),
            ),
    {
        let ghost before = items.take(it.index() as int);
        let ghost after = items.take(it.index() + 1);
        assert(after.drop_last() =~= before);
        assert(after.last() == item@);
        let ghost old_body = body@;
        let mut chunks = state.on_item(item);
        let ghost new_chunks = chunks@;
        body.append(&mut chunks);
        assert(chunk_views(body@) =~= chunk_views(old_body) + chunk_views(new_chunks));
        proof {
            let shown = emitted_frames(Set::empty(), before);
            if let FeedItemView::Frame(bytes) = after.last() {
                assert(shown.push(bytes).drop_last() =~= shown);
            }
            assert(chunk_views(old_body) + Seq::<Seq<u8>>::empty() =~= chunk_views(old_body));
        }
    }
    assert(items.take(items.len() as int) =~= items);
    let ghost parts = body@;
    body.push(state.finish());
    assert(chunk_views(body@) =~= chunk_views(parts).push(closing_boundary()));
    StreamResponse { status: STATUS_OK, content_type: encode_content_type(), body }
}

} // verus!
