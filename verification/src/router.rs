//! Topic router: derives logical entity identity and labels from a message's
//! topic string.
//!
//! The identity is the last `/`-delimited segment of the topic. When that
//! segment is empty (an empty topic, or a topic ending in `/`), the router
//! falls back to the sentinel `"unknown"` rather than failing: routing is a
//! total function over all string inputs, so no message is ever dropped for
//! an unparseable identity. The labels are a fixed list associated with the
//! subscribed pattern.

use vstd::prelude::*;

verus! {

/// Identity and label metadata derived from a message topic, consumed by the
/// payload mapper when it builds a graph-change record.
pub struct RoutingMetadata {
    /// Logical identity of the entity the message describes; never empty.
    pub entity_id: String,
    /// Labels attached to the entity, in order; duplicates are permitted.
    pub labels: Vec<String>,
}

/// Mathematical model of [`RoutingMetadata`].
pub struct RoutingView {
    pub entity_id: Seq<char>,
    pub labels: Seq<Seq<char>>,
}

impl View for RoutingMetadata {
    type V = RoutingView;

    open spec fn view(&self) -> RoutingView {
        RoutingView { entity_id: self.entity_id@, labels: self.labels.deep_view() }
    }
}

/// Index of the first character of the last `/`-delimited segment of `t`:
/// the position just past the last `/`, or `0` when `t` has no `/`.
pub open spec fn seg_start(t: Seq<char>) -> int
    decreases t.len(),
{
    if t.len() == 0 {
        0
    } else if t.last() == '/' {
        t.len() as int
    } else {
        seg_start(t.drop_last())
    }
}

/// The last `/`-delimited segment of `t` (empty when `t` ends in `/` or is
/// empty).
pub open spec fn last_segment(t: Seq<char>) -> Seq<char> {
    t.subrange(seg_start(t), t.len() as int)
}

/// The entity identity derived from a topic: its last segment, or the
/// sentinel `"unknown"` when that segment is empty.
pub open spec fn entity_id_spec(t: Seq<char>) -> Seq<char> {
    if last_segment(t).len() == 0 {
        "unknown"@
    } else {
        last_segment(t)
    }
}

/// The fixed label list attached to every routed entity.
pub open spec fn labels_spec() -> Seq<Seq<char>> {
    seq!["Sensor"@, "IoTDevice"@]
}

/// Full model of what routing a topic yields.
pub open spec fn routing_spec(t: Seq<char>) -> RoutingView {
    RoutingView { entity_id: entity_id_spec(t), labels: labels_spec() }
}

/// The segment start never lies beyond the end of the topic.
proof fn lemma_seg_start_le_len(t: Seq<char>)
    ensures
        0 <= seg_start(t) <= t.len(),
    decreases t.len(),
{
    if t.len() == 0 {
    } else if t.last() == '/' {
    } else {
        lemma_seg_start_le_len(t.drop_last());
    }
}

/// Routing determinism: the routing model is a pure function of the topic, so
/// any two routing results for the same topic are equal. Together with
/// [`route`]'s postcondition this shows that two invocations of the router on
/// identical input yield identical metadata.
pub proof fn lemma_route_deterministic(topic: Seq<char>, a: RoutingView, b: RoutingView)
    requires
        a == routing_spec(topic),
        b == routing_spec(topic),
    ensures
        a == b,
{
}

/// Derive routing metadata from `topic`. The subscribed `pattern` selects the
/// label set; the base design has a single pattern family, so every topic
/// receives the same fixed labels.
#[allow(unused_variables)]
pub fn route(topic: &str, pattern: &str) -> (r: RoutingMetadata)
    ensures
        r@ == routing_spec(topic@),
        r.entity_id@.len() > 0,
{
    let n: usize = topic.unicode_len();
    let mut start: usize = 0;
    let mut i: usize = 0;
    while i < n
        invariant
            0 <= i <= n,
            n == topic@.len(),
            start == seg_start(topic@.take(i as int)),
            0 <= start <= i,
        decreases n - i,
    {
        proof {
            assert(topic@.take(i + 1).drop_last() =~= topic@.take(i as int));
            assert(topic@.take(i + 1).last() == topic@[i as int]);
        }
        let c = topic.get_char(i);
        if c == '/' {
            start = i + 1;
        }
        proof {
            if c == '/' {
                assert(seg_start(topic@.take(i + 1)) == i + 1);
            } else {
                assert(seg_start(topic@.take(i + 1)) == seg_start(topic@.take(i as int)));
            }
        }
        i = i + 1;
    }
    proof {
        assert(topic@.take(n as int) =~= topic@);
        lemma_seg_start_le_len(topic@);
    }
    let entity_id = if start == n {
        proof {
            reveal_strlit("unknown");
        }
        "unknown".to_owned()
    } else {
        topic.substring_char(start, n).to_owned()
    };
    let mut labels: Vec<String> = Vec::new();
    labels.push("Sensor".to_owned());
    labels.push("IoTDevice".to_owned());
    proof {
        assert(labels.deep_view() =~= labels_spec());
    }
    RoutingMetadata { entity_id, labels }
}

} // verus!
