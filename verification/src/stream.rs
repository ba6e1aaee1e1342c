//! Credentials, subscription ledger and replay stream for the WebSocket feed.
//!
//! A ledger ([`StreamState`]) carries the endpoint, the connection credentials
//! and one ordered token bucket per mode. It is a pure value: `subscribe_token`
//! returns the updated ledger, and the resilient connection replays the whole
//! ledger after every (re)connection.
//!
//! A replay stream ([`SubscriptionStream`]) is a finite enumeration over one
//! ledger snapshot: it yields one encoded mode-set frame per non-empty bucket,
//! in the fixed bucket order Full, Quote, LTP, and then signals completion.

use vstd::prelude::*;

use crate::mode::Mode;
use crate::request::TickerRequest;
use crate::request::spec_mode_frame;

verus! {

/// Default WebSocket API base url.
pub const KITECONNECT_WSS_API_BASE: &'static str = "wss://ws.kite.trade";

/// The credentials required to authenticate with the WebSocket API: an API key
/// and an access token. Both are opaque secret strings; nothing is assumed of
/// them beyond usability as URL query values, and they are exposed only where
/// the connection URI is built. The type deliberately has no `Debug`: a
/// rendering of it would print the secrets in cleartext.
pub struct KiteStreamCredentials {
    api_key: String,
    access_token: String,
}

impl KiteStreamCredentials {
    /// The API key.
    pub closed spec fn spec_api_key(self) -> Seq<char> {
        self.api_key@
    }

    /// The access token.
    pub closed spec fn spec_access_token(self) -> Seq<char> {
        self.access_token@
    }

    /// Builds credentials from the two secret strings.
    pub fn from_parts(api_key: &str, access_token: &str) -> (c: KiteStreamCredentials)
        ensures
            c.spec_api_key() == api_key@,
            c.spec_access_token() == access_token@,
    {
        KiteStreamCredentials { api_key: api_key.to_owned(), access_token: access_token.to_owned() }
    }

    /// Renders the credentials as the query-parameter fragment
    /// `api_key=...&access_token=...` of the connection URI.
    pub fn to_query_params(&self) -> (q: String)
        ensures
            q@ == "api_key="@ + self.spec_api_key() + "&access_token="@
                + self.spec_access_token(),
    {
        let mut q = String::from_str("api_key=");
        q.append(self.api_key.as_str());
        q.append("&access_token=");
        q.append(self.access_token.as_str());
        q
    }
}

impl Clone for KiteStreamCredentials {
    fn clone(&self) -> (c: Self)
        ensures
            c.spec_api_key() == self.spec_api_key(),
            c.spec_access_token() == self.spec_access_token(),
    {
        KiteStreamCredentials {
            api_key: self.api_key.clone(),
            access_token: self.access_token.clone(),
        }
    }
}

/// The subscribed instruments of one connection: one ordered token bucket per
/// mode. Duplicates are permitted; the ledger does not deduplicate. Tokens
/// keep their insertion order inside a bucket.
#[derive(Debug)]
pub struct Subscription {
    /// Tokens subscribed in full mode.
    pub full: Vec<u32>,
    /// Tokens subscribed in quote mode.
    pub quote: Vec<u32>,
    /// Tokens subscribed in LTP mode.
    pub ltp: Vec<u32>,
}

impl Subscription {
    /// The token bucket of one mode.
    pub open spec fn bucket(self, m: Mode) -> Seq<u32> {
        match m {
            Mode::Full => self.full@,
            Mode::Quote => self.quote@,
            Mode::LTP => self.ltp@,
        }
    }

    /// True when every bucket is empty.
    pub open spec fn spec_is_empty(self) -> bool {
        self.bucket(Mode::Full).len() == 0 && self.bucket(Mode::Quote).len() == 0 && self.bucket(
            Mode::LTP,
        ).len() == 0
    }

    /// A subscription with three empty buckets.
    pub fn new() -> (s: Subscription)
        ensures
            forall|m: Mode| s.bucket(m) == Seq::<u32>::empty(),
    {
        let s = Subscription { full: Vec::new(), quote: Vec::new(), ltp: Vec::new() };
        assert forall|m: Mode| s.bucket(m) == Seq::<u32>::empty() by {
            assert(s.bucket(m) =~= Seq::<u32>::empty());
        }
        s
    }

    /// Appends one token to the bucket of the given mode; the other buckets
    /// are untouched.
    pub fn push_token(&mut self, mode: Mode, token: u32)
        ensures
            final(self).bucket(mode) == old(self).bucket(mode).push(token),
            forall|m: Mode| m != mode ==> final(self).bucket(m) == old(self).bucket(m),
    {
        match mode {
            Mode::Full => self.full.push(token),
            Mode::Quote => self.quote.push(token),
            Mode::LTP => self.ltp.push(token),
        }
    }

    /// The bucket of the given mode, as a fresh vector.
    pub fn bucket_tokens(&self, mode: Mode) -> (ts: Vec<u32>)
        ensures
            ts@ == self.bucket(mode),
    {
        let src: &Vec<u32> = match mode {
            Mode::Full => &self.full,
            Mode::Quote => &self.quote,
            Mode::LTP => &self.ltp,
        };
        let mut ts: Vec<u32> = Vec::new();
        let n = src.len();
        let mut i: usize = 0;
        while i < n
            invariant
                i <= n,
                n == src@.len(),
                ts@ == src@.take(i as int),
            decreases n - i,
        {
            ts.push(src[i]);
            assert(ts@ =~= src@.take(i as int + 1));
            i += 1;
        }
        assert(src@.take(n as int) =~= src@);
        ts
    }
}

impl Clone for Subscription {
    fn clone(&self) -> (s: Self)
        ensures
            forall|m: Mode| s.bucket(m) == self.bucket(m),
    {
        let s = Subscription {
            full: self.bucket_tokens(Mode::Full),
            quote: self.bucket_tokens(Mode::Quote),
            ltp: self.bucket_tokens(Mode::LTP),
        };
        assert forall|m: Mode| s.bucket(m) == self.bucket(m) by {
            match m {
                Mode::Full => {},
                Mode::Quote => {},
                Mode::LTP => {},
            }
        }
        s
    }
}

/// The state of one WebSocket stream: endpoint, credentials and the
/// subscription ledger. A pure value; every mutation returns the updated
/// state, and the resilient connection holds it read-only for replay. The
/// type deliberately has no `Debug`: it carries the credentials.
pub struct StreamState {
    api_base: String,
    credentials: KiteStreamCredentials,
    subscription: Subscription,
}

impl StreamState {
    /// The base URL of the WebSocket endpoint.
    pub closed spec fn spec_api_base(self) -> Seq<char> {
        self.api_base@
    }

    /// The credentials the connection authenticates with.
    pub closed spec fn spec_credentials(self) -> KiteStreamCredentials {
        self.credentials
    }

    /// The subscription ledger.
    pub closed spec fn spec_subscription(self) -> Subscription {
        self.subscription
    }

    /// The connection URI of this state: the endpoint followed by the
    /// credentials as query parameters.
    pub open spec fn spec_uri(self) -> Seq<char> {
        self.spec_api_base() + "?"@ + "api_key="@ + self.spec_credentials().spec_api_key()
            + "&access_token="@ + self.spec_credentials().spec_access_token()
    }

    /// Builds a stream state with empty subscriptions from the endpoint base
    /// URL, the API key and the access token.
    pub fn from_parts(api_base: &str, api_key: &str, access_token: &str) -> (s: StreamState)
        ensures
            s.spec_api_base() == api_base@,
            s.spec_credentials().spec_api_key() == api_key@,
            s.spec_credentials().spec_access_token() == access_token@,
            s.spec_subscription().spec_is_empty(),
    {
        StreamState {
            api_base: api_base.to_owned(),
            credentials: KiteStreamCredentials::from_parts(api_key, access_token),
            subscription: Subscription::new(),
        }
    }

    /// Builds a stream state with empty subscriptions from credentials, using
    /// the well-known default endpoint.
    pub fn from_credentials(credentials: KiteStreamCredentials) -> (s: StreamState)
        ensures
            s.spec_api_base() == KITECONNECT_WSS_API_BASE@,
            s.spec_credentials().spec_api_key() == credentials.spec_api_key(),
            s.spec_credentials().spec_access_token() == credentials.spec_access_token(),
            s.spec_subscription().spec_is_empty(),
    {
        StreamState {
            api_base: KITECONNECT_WSS_API_BASE.to_owned(),
            credentials,
            subscription: Subscription::new(),
        }
    }

    /// Subscribes an instrument token in the given mode: the token is appended
    /// to that mode's bucket and the updated state is returned. No
    /// deduplication takes place, and no removal operation exists at this
    /// layer.
    pub fn subscribe_token(self, mode: Mode, token: u32) -> (s: StreamState)
        ensures
            s.spec_api_base() == self.spec_api_base(),
            s.spec_credentials() == self.spec_credentials(),
            s.spec_subscription().bucket(mode) == self.spec_subscription().bucket(mode).push(
                token,
            ),
            forall|m: Mode|
                m != mode ==> s.spec_subscription().bucket(m) == self.spec_subscription().bucket(
                    m,
                ),
    {
        let mut s = self;
        s.subscription.push_token(mode, token);
        s
    }

    /// The subscription ledger, borrowed.
    pub fn subscription_ref(&self) -> (sub: &Subscription)
        ensures
            *sub == self.spec_subscription(),
    {
        &self.subscription
    }

    /// Renders the connection URI `endpoint?api_key=...&access_token=...`.
    /// This embeds the access token as a plain query parameter, as the
    /// upstream API's connection scheme requires.
    pub fn to_uri(&self) -> (uri: String)
        ensures
            uri@ == self.spec_uri(),
    {
        let mut uri = String::new();
        uri.append(self.api_base.as_str());
        uri.append("?");
        let q = self.credentials.to_query_params();
        uri.append(q.as_str());
        assert(uri@ =~= self.spec_uri());
        uri
    }

    /// Captures this state's ledger as a fresh replay stream.
    pub fn to_subcription_stream(self) -> (st: SubscriptionStream)
        ensures
            st.wf(),
            st.fresh_for(self.spec_subscription()),
    {
        SubscriptionStream::with_subscription(&self.subscription)
    }
}

impl Clone for StreamState {
    fn clone(&self) -> (s: Self)
        ensures
            s.spec_api_base() == self.spec_api_base(),
            s.spec_credentials().spec_api_key() == self.spec_credentials().spec_api_key(),
            s.spec_credentials().spec_access_token()
                == self.spec_credentials().spec_access_token(),
            forall|m: Mode|
                s.spec_subscription().bucket(m) == self.spec_subscription().bucket(m),
    {
        StreamState {
            api_base: self.api_base.clone(),
            credentials: self.credentials.clone(),
            subscription: self.subscription.clone(),
        }
    }
}

/// The modes whose buckets are non-empty, in the fixed bucket order.
pub open spec fn spec_active_modes(sub: Subscription) -> Seq<Mode> {
    let full: Seq<Mode> = if sub.bucket(Mode::Full).len() > 0 {
        seq![Mode::Full]
    } else {
        Seq::empty()
    };
    let quote: Seq<Mode> = if sub.bucket(Mode::Quote).len() > 0 {
        seq![Mode::Quote]
    } else {
        Seq::empty()
    };
    let ltp: Seq<Mode> = if sub.bucket(Mode::LTP).len() > 0 {
        seq![Mode::LTP]
    } else {
        Seq::empty()
    };
    full + quote + ltp
}

/// The frames still to be yielded over the buckets of `sub`, walking the key
/// list from position `i`: one mode-set frame per key whose bucket is
/// non-empty.
pub open spec fn spec_frames_from(sub: Subscription, keys: Seq<Mode>, i: int) -> Seq<Seq<char>>
    decreases keys.len() - i,
{
    if i < 0 || i >= keys.len() {
        Seq::empty()
    } else {
        let m = keys[i];
        let rest = spec_frames_from(sub, keys, i + 1);
        if sub.bucket(m).len() > 0 {
            seq![spec_mode_frame(m, sub.bucket(m))] + rest
        } else {
            rest
        }
    }
}

/// One outcome of polling the replay stream.
#[derive(Debug)]
pub enum StreamPoll {
    /// The stream yielded one encoded control frame.
    Yielded(String),
    /// The current bucket was empty; it was skipped without yielding, and the
    /// stream asks to be polled again at once.
    Pending,
    /// The stream is exhausted.
    Complete,
}

/// A finite replay enumeration over one ledger snapshot: the captured bucket
/// data, the mode keys captured at construction, and a cursor into the keys.
///
/// Invariants: the cursor never decreases; the stream is exhausted exactly
/// when the cursor reaches the key-list length; each key yields at most one
/// frame, and keys with empty buckets are skipped rather than emitted as
/// empty messages.
#[derive(Debug)]
pub struct SubscriptionStream {
    /// The captured mode-to-tokens data.
    pub data: Subscription,
    /// The mode keys captured at construction time.
    pub keys: Vec<Mode>,
    /// The cursor: the position of the next key to process.
    pub current_key_idx: usize,
}

impl SubscriptionStream {
    /// The stream's keys are within the captured data: well-formedness that
    /// construction establishes and polling preserves.
    pub open spec fn wf(self) -> bool {
        self.current_key_idx <= self.keys@.len()
    }

    /// A freshly constructed stream for a ledger: every non-empty bucket is
    /// still to come, in the fixed bucket order, and the cursor is at the
    /// start.
    pub open spec fn fresh_for(self, sub: Subscription) -> bool {
        &&& forall|m: Mode| self.data.bucket(m) == sub.bucket(m)
        &&& self.keys@ == spec_active_modes(sub)
        &&& self.current_key_idx == 0
    }

    /// The frames this stream will still yield, from its cursor onward.
    pub open spec fn remaining_frames(self) -> Seq<Seq<char>> {
        spec_frames_from(self.data, self.keys@, self.current_key_idx as int)
    }

    /// Captures a ledger as a fresh stream: the bucket data is copied, and the
    /// key list holds the modes with non-empty buckets in the fixed bucket
    /// order.
    pub fn with_subscription(subcription: &Subscription) -> (st: SubscriptionStream)
        ensures
            st.wf(),
            st.fresh_for(*subcription),
    {
        let mut keys: Vec<Mode> = Vec::new();
        if subcription.full.len() > 0 {
            keys.push(Mode::Full);
        }
        if subcription.quote.len() > 0 {
            keys.push(Mode::Quote);
        }
        if subcription.ltp.len() > 0 {
            keys.push(Mode::LTP);
        }
        assert(keys@ =~= spec_active_modes(*subcription));
        SubscriptionStream { data: subcription.clone(), keys, current_key_idx: 0 }
    }

    /// Polls the stream once.
    ///
    /// If the cursor has reached the end of the key list, the stream signals
    /// completion and does not change. Otherwise the cursor advances by one:
    /// a non-empty bucket yields its encoded mode-set frame; an empty bucket
    /// yields nothing and signals a pending skip to be polled again at once.
    pub fn poll_next(&mut self) -> (p: StreamPoll)
        requires
            old(self).wf(),
        ensures
            final(self).wf(),
            final(self).data == old(self).data,
            final(self).keys == old(self).keys,
            old(self).current_key_idx <= final(self).current_key_idx,
            if old(self).current_key_idx >= old(self).keys@.len() {
                p matches StreamPoll::Complete && final(self).current_key_idx == old(
                    self,
                ).current_key_idx
            } else {
                {
                    let m = old(self).keys@[old(self).current_key_idx as int];
                    &&& final(self).current_key_idx == old(self).current_key_idx + 1
                    &&& if old(self).data.bucket(m).len() > 0 {
                        p matches StreamPoll::Yielded(f) && f@ == spec_mode_frame(
                            m,
                            old(self).data.bucket(m),
                        )
                    } else {
                        p matches StreamPoll::Pending
                    }
                }
            },
    {
        if self.current_key_idx >= self.keys.len() {
            return StreamPoll::Complete;
        }
        let current_key = self.keys[self.current_key_idx];
        let tokens = self.data.bucket_tokens(current_key);
        self.current_key_idx = self.current_key_idx + 1;
        if tokens.len() > 0 {
            let ghost ts = tokens@;
            let ticker_request = TickerRequest::subscribe_with_mode(tokens, current_key);
            let frame = ticker_request.to_json();
            proof {
                crate::request::lemma_mode_frame_agrees(ticker_request, current_key, ts);
            }
            StreamPoll::Yielded(frame)
        } else {
            StreamPoll::Pending
        }
    }

    /// Drains the stream: polls until completion and returns every yielded
    /// frame, in order.
    pub fn collect_frames(&mut self) -> (frames: Vec<String>)
        requires
            old(self).wf(),
        ensures
            final(self).wf(),
            frames.deep_view() == old(self).remaining_frames(),
            final(self).current_key_idx == final(self).keys@.len(),
    {
        let mut frames: Vec<String> = Vec::new();
        loop
            invariant
                self.wf(),
                frames.deep_view() + self.remaining_frames() == old(self).remaining_frames(),
                self.data == old(self).data,
                self.keys == old(self).keys,
            decreases self.keys@.len() - self.current_key_idx,
        {
            let p = self.poll_next();
            match p {
                StreamPoll::Yielded(f) => {
                    frames.push(f);
                    proof {
                        assert(frames.deep_view() + self.remaining_frames() =~= old(
                            self,
                        ).remaining_frames());
                    }
                },
                StreamPoll::Pending => {
                    proof {
                        assert(frames.deep_view() + self.remaining_frames() =~= old(
                            self,
                        ).remaining_frames());
                    }
                },
                StreamPoll::Complete => {
                    proof {
                        assert(self.remaining_frames() =~= Seq::<Seq<char>>::empty());
                        assert(frames.deep_view() =~= old(self).remaining_frames());
                    }
                    return frames;
                },
            }
        }
    }
}



/// The number of non-empty mode buckets in a ledger.
pub open spec fn spec_nonempty_buckets(sub: Subscription) -> int {
    (if sub.bucket(Mode::Full).len() > 0 { 1int } else { 0int }) + (if sub.bucket(
        Mode::Quote,
    ).len() > 0 { 1int } else { 0int }) + (if sub.bucket(Mode::LTP).len() > 0 { 1int } else { 0int })
}

/// The full replay of a ledger: the frames a fresh replay stream yields, one
/// mode-set frame per non-empty bucket, in the fixed bucket order.
pub open spec fn spec_replay(sub: Subscription) -> Seq<Seq<char>> {
    spec_frames_from(sub, spec_active_modes(sub), 0)
}

/// `spec_frames_from` depends on the buckets alone: two ledgers with equal
/// buckets have equal frames.
proof fn lemma_frames_from_buckets(sub1: Subscription, sub2: Subscription, keys: Seq<Mode>, i: int)
    requires
        forall|m: Mode| sub1.bucket(m) == sub2.bucket(m),
    ensures
        spec_frames_from(sub1, keys, i) == spec_frames_from(sub2, keys, i),
    decreases keys.len() - i,
{
    if 0 <= i < keys.len() {
        lemma_frames_from_buckets(sub1, sub2, keys, i + 1);
    }
}

/// Over keys whose buckets are all non-empty, the walk yields exactly one
/// frame per key, the mode-set frame of that key's bucket.
proof fn lemma_frames_from_dense(sub: Subscription, keys: Seq<Mode>, i: int)
    requires
        0 <= i <= keys.len(),
        forall|j: int| i <= j < keys.len() ==> sub.bucket(#[trigger] keys[j]).len() > 0,
    ensures
        spec_frames_from(sub, keys, i).len() == keys.len() - i,
        forall|j: int|
            i <= j < keys.len() ==> spec_frames_from(sub, keys, i)[j - i] == spec_mode_frame(
                keys[j],
                sub.bucket(#[trigger] keys[j]),
            ),
    decreases keys.len() - i,
{
    if i < keys.len() {
        lemma_frames_from_dense(sub, keys, i + 1);
    }
}

/// Every key a fresh stream captures has a non-empty bucket, and there are
/// exactly as many keys as non-empty buckets.
proof fn lemma_active_modes(sub: Subscription)
    ensures
        spec_active_modes(sub).len() == spec_nonempty_buckets(sub),
        forall|j: int|
            0 <= j < spec_active_modes(sub).len() ==> sub.bucket(
                #[trigger] spec_active_modes(sub)[j],
            ).len() > 0,
{
}

/// Law: a replay stream freshly built from a ledger yields exactly one frame
/// per non-empty mode bucket — no more, no fewer — and the frame at each
/// position is the mode-set message of exactly that bucket's token list, in
/// the order the ledger keeps the tokens.
pub proof fn lemma_replay_matches_ledger(st: SubscriptionStream, sub: Subscription)
    requires
        st.fresh_for(sub),
    ensures
        st.remaining_frames() == spec_replay(sub),
        st.remaining_frames().len() == spec_nonempty_buckets(sub),
        forall|j: int|
            0 <= j < spec_active_modes(sub).len() ==> st.remaining_frames()[j] == spec_mode_frame(
                #[trigger] spec_active_modes(sub)[j],
                sub.bucket(spec_active_modes(sub)[j]),
            ),
{
    lemma_frames_from_buckets(st.data, sub, spec_active_modes(sub), 0);
    lemma_active_modes(sub);
    lemma_frames_from_dense(sub, spec_active_modes(sub), 0);
}

/// Law: for a ledger with zero subscriptions, a fresh replay stream captures
/// no keys — its very first poll signals completion — and it yields no
/// frames at all.
pub proof fn lemma_empty_ledger_replays_nothing(st: SubscriptionStream, sub: Subscription)
    requires
        st.fresh_for(sub),
        sub.spec_is_empty(),
    ensures
        st.keys@.len() == 0,
        st.current_key_idx == 0,
        st.remaining_frames() == Seq::<Seq<char>>::empty(),
{
    assert(spec_active_modes(sub) =~= Seq::<Mode>::empty());
}

} // verus!
