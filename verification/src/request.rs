//! Outbound control messages for the WebSocket market-data feed.
//!
//! A control message carries an action tag (`subscribe`, `unsubscribe` or
//! `mode`) and a payload: a token list for subscribe/unsubscribe, or a pair of
//! a mode tag and a token list for mode changes. The message is sent as a text
//! frame holding a JSON object `{"a": <action>, "v": <payload>}`; the encoder
//! here is proved to produce exactly that frame, with the tokens in the order
//! given.

use vstd::prelude::*;

use crate::digits::append_dec_u64;
use crate::digits::push_char;
use crate::digits::spec_dec_digits;
use crate::mode::Mode;
use crate::mode::spec_wire_tag;

verus! {

/// The action a control message performs.
#[derive(Debug, Clone, Copy, PartialEq, Eq, Structural)]
pub enum RequestActions {
    /// Subscribe to instrument tokens.
    Subscribe,
    /// Unsubscribe from instrument tokens.
    Unsubscribe,
    /// Set the mode for streaming data.
    Mode,
}

/// The payload of a control message.
#[derive(Debug)]
pub enum RequestData {
    /// A list of instrument tokens.
    InstrumentTokens(Vec<u32>),
    /// A mode and a list of instrument tokens.
    InstrumentTokensWithMode(Mode, Vec<u32>),
}

/// A control message: an action together with its payload.
#[derive(Debug)]
pub struct TickerRequest {
    /// The action to be performed; serialized under the key `"a"`.
    pub a: RequestActions,
    /// The data associated with the action; serialized under the key `"v"`.
    pub v: RequestData,
}

/// The lowercase wire tag of each action.
pub open spec fn spec_action_tag(a: RequestActions) -> Seq<char> {
    match a {
        RequestActions::Subscribe => "subscribe"@,
        RequestActions::Unsubscribe => "unsubscribe"@,
        RequestActions::Mode => "mode"@,
    }
}

/// The comma-separated decimal notations of the tokens, in order.
pub open spec fn spec_token_list(ts: Seq<u32>) -> Seq<char>
    decreases ts.len(),
{
    if ts.len() == 0 {
        Seq::empty()
    } else if ts.len() == 1 {
        spec_dec_digits(ts[0] as nat)
    } else {
        spec_token_list(ts.drop_last()) + seq![','] + spec_dec_digits(ts.last() as nat)
    }
}

/// The JSON array holding the tokens, in order.
pub open spec fn spec_token_array(ts: Seq<u32>) -> Seq<char> {
    seq!['['] + spec_token_list(ts) + seq![']']
}

/// The JSON encoding of a payload: a token array, or a two-element array of a
/// quoted mode tag and a token array.
pub open spec fn spec_payload(v: RequestData) -> Seq<char> {
    match v {
        RequestData::InstrumentTokens(ts) => spec_token_array(ts@),
        RequestData::InstrumentTokensWithMode(m, ts) => seq!['[', '"'] + spec_wire_tag(m) + seq![
            '"',
            ',',
        ] + spec_token_array(ts@) + seq![']'],
    }
}

/// The complete JSON text frame of a control message.
pub open spec fn spec_frame(r: TickerRequest) -> Seq<char> {
    "{\"a\":\""@ + spec_action_tag(r.a) + "\",\"v\":"@ + spec_payload(r.v) + seq!['}']
}

/// The frame of a mode-set message for one mode and its token list; this is
/// what the replay stream emits for each non-empty ledger bucket.
pub open spec fn spec_mode_frame(m: Mode, ts: Seq<u32>) -> Seq<char> {
    "{\"a\":\""@ + "mode"@ + "\",\"v\":"@ + (seq!['[', '"'] + spec_wire_tag(m) + seq!['"', ',']
        + spec_token_array(ts) + seq![']']) + seq!['}']
}

/// Writes the JSON token array at the end of `out`.
fn append_token_array(out: &mut String, ts: &Vec<u32>)
    ensures
        final(out)@ == old(out)@ + spec_token_array(ts@),
{
    let ghost base: Seq<char> = out@;
    push_char(out, '[');
    let n = ts.len();
    let mut i: usize = 0;
    while i < n
        invariant
            i <= n,
            n == ts@.len(),
            out@ == base + seq!['['] + spec_token_list(ts@.take(i as int)),
        decreases n - i,
    {
        if i > 0 {
            push_char(out, ',');
        }
        append_dec_u64(out, ts[i] as u64);
        proof {
            let pre = ts@.take(i as int + 1);
            assert(pre.drop_last() =~= ts@.take(i as int));
            assert(pre.last() == ts@[i as int]);
            assert(out@ =~= base + seq!['['] + spec_token_list(pre));
        }
        i += 1;
    }
    proof {
        assert(ts@.take(n as int) =~= ts@);
    }
    push_char(out, ']');
    assert(out@ =~= base + spec_token_array(ts@));
}

/// The lowercase wire tag used for this action in control messages.
fn action_tag(a: RequestActions) -> (t: &'static str)
    ensures
        t@ == spec_action_tag(a),
{
    match a {
        RequestActions::Subscribe => "subscribe",
        RequestActions::Unsubscribe => "unsubscribe",
        RequestActions::Mode => "mode",
    }
}

impl TickerRequest {
    /// Builds a control message from an action and its payload.
    fn new(action: RequestActions, value: RequestData) -> (r: TickerRequest)
        ensures
            r.a == action,
            r.v == value,
    {
        TickerRequest { a: action, v: value }
    }

    /// Builds a message subscribing to the given instrument tokens.
    pub fn subscribe(instrument_tokens: Vec<u32>) -> (r: TickerRequest)
        ensures
            r.a == RequestActions::Subscribe,
            r.v == RequestData::InstrumentTokens(instrument_tokens),
    {
        TickerRequest::new(
            RequestActions::Subscribe,
            RequestData::InstrumentTokens(instrument_tokens),
        )
    }

    /// Builds a message setting the mode for the given instrument tokens.
    pub fn subscribe_with_mode(instrument_tokens: Vec<u32>, mode: Mode) -> (r: TickerRequest)
        ensures
            r.a == RequestActions::Mode,
            r.v == RequestData::InstrumentTokensWithMode(mode, instrument_tokens),
    {
        TickerRequest::new(
            RequestActions::Mode,
            RequestData::InstrumentTokensWithMode(mode, instrument_tokens),
        )
    }

    /// Builds a message unsubscribing from the given instrument tokens.
    pub fn unsubscribe(instrument_tokens: Vec<u32>) -> (r: TickerRequest)
        ensures
            r.a == RequestActions::Unsubscribe,
            r.v == RequestData::InstrumentTokens(instrument_tokens),
    {
        TickerRequest::new(
            RequestActions::Unsubscribe,
            RequestData::InstrumentTokens(instrument_tokens),
        )
    }

    /// Encodes the message as its JSON text frame. Encoding is total and
    /// deterministic: every well-formed message has exactly one frame.
    pub fn to_json(&self) -> (s: String)
        ensures
            s@ == spec_frame(*self),
    {
        let mut out = String::from_str("{\"a\":\"");
        out.append(action_tag(self.a));
        out.append("\",\"v\":");
        match &self.v {
            RequestData::InstrumentTokens(ts) => {
                append_token_array(&mut out, ts);
            },
            RequestData::InstrumentTokensWithMode(m, ts) => {
                push_char(&mut out, '[');
                push_char(&mut out, '"');
                out.append(m.wire_tag());
                push_char(&mut out, '"');
                push_char(&mut out, ',');
                append_token_array(&mut out, ts);
                push_char(&mut out, ']');
            },
        }
        push_char(&mut out, '}');
        assert(out@ =~= spec_frame(*self));
        out
    }
}

/// A mode-set message encodes to the mode frame of its mode and token list.
pub proof fn lemma_mode_frame_agrees(r: TickerRequest, m: Mode, ts: Seq<u32>)
    requires
        r.a == RequestActions::Mode,
        r.v matches RequestData::InstrumentTokensWithMode(rm, rts) && rm == m && rts@ == ts,
    ensures
        spec_frame(r) == spec_mode_frame(m, ts),
{
    assert(spec_frame(r) =~= spec_mode_frame(m, ts));
}

} // verus!
