//! The event pipeline: for every raw event the hook reports, classify it and
//! attempt delivery of the normalized event to the sink, in arrival order,
//! swallowing delivery failures.
//!
//! The hook delivers raw events one at a time, so a session is a sequence of
//! raw events; `delivered_views` gives the sequence of domain events the
//! pipeline attempts to deliver for it. `session_attempts` refines that model
//! with the outcome of each delivery and the pipeline's continue-or-abort
//! decision after it; `lemma_delivery_isolation` shows that the outcomes
//! never change what is attempted next.

use vstd::prelude::*;
use crate::events::{classify, classify_view, is_recognized, DeviceEvent, DeviceEventView, RawEvent,
    RawEventView};

verus! {

/// The delivery policy: delivery is fire-and-forget, so the pipeline
/// continues whatever the outcome of the delivery just attempted.
pub open spec fn continues_after(delivered: bool) -> bool {
    true
}

/// The pipeline's decision after one delivery attempt whose outcome was
/// `delivered`: whether to keep the hook loop running. The loop driver asks
/// this after every attempt; the answer is always to continue.
pub fn continue_after_delivery(delivered: bool) -> (c: bool)
    ensures
        c == continues_after(delivered),
{
    let _ = delivered;
    true
}

/// The sequence of domain events the pipeline attempts to deliver for a
/// session whose raw events arrive as `raw`: each recognized raw event
/// contributes its classification, in arrival order; unrecognized ones
/// contribute nothing.
pub open spec fn delivered_views(raw: Seq<RawEventView>) -> Seq<DeviceEventView>
    decreases raw.len(),
{
    if raw.len() == 0 {
        Seq::empty()
    } else {
        match classify_view(raw[0]) {
            Some(d) => seq![d] + delivered_views(raw.skip(1)),
            None => delivered_views(raw.skip(1)),
        }
    }
}

/// The same session, with the outcome of each delivery attempt made
/// explicit: `outcomes[i]` is whether the `i`-th attempted delivery
/// succeeded, and after each attempt the pipeline consults
/// `continues_after` before going on. An outcome past the end of
/// `outcomes` counts as a success.
pub open spec fn session_attempts(raw: Seq<RawEventView>, outcomes: Seq<bool>) -> Seq<
    DeviceEventView,
>
    decreases raw.len(),
{
    if raw.len() == 0 {
        Seq::empty()
    } else {
        match classify_view(raw[0]) {
            Some(d) => {
                let delivered = if outcomes.len() > 0 {
                    outcomes[0]
                } else {
                    true
                };
                if continues_after(delivered) {
                    seq![d] + session_attempts(raw.skip(1), outcomes.skip(1))
                } else {
                    seq![d]
                }
            },
            None => session_attempts(raw.skip(1), outcomes),
        }
    }
}

/// Delivery outcomes never influence what the pipeline attempts: a session
/// attempts exactly the deliveries of the outcome-free model, whatever each
/// delivery returned.
pub proof fn lemma_attempts_ignore_outcomes(raw: Seq<RawEventView>, outcomes: Seq<bool>)
    ensures
        session_attempts(raw, outcomes) == delivered_views(raw),
    decreases raw.len(),
{
    if raw.len() > 0 {
        match classify_view(raw[0]) {
            Some(d) => {
                lemma_attempts_ignore_outcomes(raw.skip(1), outcomes.skip(1));
            },
            None => {
                lemma_attempts_ignore_outcomes(raw.skip(1), outcomes);
            },
        }
    }
}

/// Delivery isolation: if one delivery fails, the next recognized raw event
/// still has its own domain event produced and its delivery attempted — two
/// sessions over the same raw events attempt the same deliveries however
/// their delivery outcomes differ.
pub proof fn lemma_delivery_isolation(
    raw: Seq<RawEventView>,
    outcomes1: Seq<bool>,
    outcomes2: Seq<bool>,
)
    ensures
        session_attempts(raw, outcomes1) == session_attempts(raw, outcomes2),
{
    lemma_attempts_ignore_outcomes(raw, outcomes1);
    lemma_attempts_ignore_outcomes(raw, outcomes2);
}

/// Order preservation: when every raw event of a session is recognized, the
/// pipeline attempts one delivery per raw event, and the `i`-th delivery is
/// the classification of the `i`-th raw event.
pub proof fn lemma_order_preserved(raw: Seq<RawEventView>)
    requires
        forall|i: int| 0 <= i < raw.len() ==> is_recognized(raw[i]),
    ensures
        delivered_views(raw).len() == raw.len(),
        forall|i: int|
            0 <= i < raw.len() ==> delivered_views(raw)[i] == classify_view(raw[i])->Some_0,
    decreases raw.len(),
{
    if raw.len() > 0 {
        assert(is_recognized(raw[0]));
        lemma_order_preserved(raw.skip(1));
        let d = classify_view(raw[0])->Some_0;
        assert(delivered_views(raw) == seq![d] + delivered_views(raw.skip(1)));
        assert forall|i: int| 0 <= i < raw.len() implies delivered_views(raw)[i] == classify_view(
            raw[i],
        )->Some_0 by {
            if i > 0 {
                assert(delivered_views(raw)[i] == delivered_views(raw.skip(1))[i - 1]);
                assert(raw.skip(1)[i - 1] == raw[i]);
            }
        }
    }
}

/// Extending a session by one raw event appends that event's attempted
/// delivery, if any, to the session's attempts.
proof fn lemma_delivered_views_push(raw: Seq<RawEventView>, e: RawEventView)
    ensures
        delivered_views(raw.push(e)) == delivered_views(raw) + (match classify_view(e) {
            Some(d) => seq![d],
            None => Seq::<DeviceEventView>::empty(),
        }),
    decreases raw.len(),
{
    let tail = match classify_view(e) {
        Some(d) => seq![d],
        None => Seq::<DeviceEventView>::empty(),
    };
    if raw.len() == 0 {
        assert(raw.push(e) =~= seq![e]);
        assert(seq![e].skip(1) =~= Seq::<RawEventView>::empty());
        assert(delivered_views(Seq::<RawEventView>::empty()) =~= Seq::<DeviceEventView>::empty());
        assert(delivered_views(seq![e]) =~= tail);
        assert(delivered_views(raw) + tail =~= tail);
    } else {
        lemma_delivered_views_push(raw.skip(1), e);
        assert(raw.push(e).skip(1) =~= raw.skip(1).push(e));
        match classify_view(raw[0]) {
            Some(d) => {
                assert(delivered_views(raw.push(e)) == seq![d] + delivered_views(
                    raw.skip(1).push(e),
                ));
                assert(seq![d] + (delivered_views(raw.skip(1)) + tail) =~= (seq![d]
                    + delivered_views(raw.skip(1))) + tail);
            },
            None => {},
        }
    }
}

/// Runs the classification over a whole session of raw events: the result is
/// exactly the sequence of domain events whose delivery the pipeline
/// attempts, in arrival order.
pub fn process_session(raw: &Vec<RawEvent>) -> (out: Vec<DeviceEvent>)
    ensures
        out@.map_values(|d: DeviceEvent| d@) == delivered_views(
            raw@.map_values(|e: RawEvent| e@),
        ),
{
    let mut out: Vec<DeviceEvent> = Vec::new();
    let ghost all = raw@.map_values(|e: RawEvent| e@);
    let mut i: usize = 0;
    while i < raw.len()
        invariant
            i <= raw.len(),
            all == raw@.map_values(|e: RawEvent| e@),
            out@.map_values(|d: DeviceEvent| d@) == delivered_views(all.take(i as int)),
        decreases raw.len() - i,
    {
        let ghost prefix = all.take(i as int);
        let r = classify(&raw[i]);
        proof {
            lemma_delivered_views_push(prefix, all[i as int]);
            assert(all.take(i + 1) =~= prefix.push(all[i as int]));
        }
        match r {
            Some(d) => {
                out.push(d);
                proof {
                    assert(out@.map_values(|d: DeviceEvent| d@) =~= delivered_views(
                        prefix,
                    ).push(classify_view(all[i as int])->Some_0));
                    assert(delivered_views(prefix) + seq![classify_view(all[i as int])->Some_0]
                        =~= delivered_views(prefix).push(classify_view(all[i as int])->Some_0));
                }
            },
            None => {},
        }
        i = i + 1;
    }
    proof {
        assert(all.take(raw.len() as int) =~= all);
    }
    out
}

} // verus!
