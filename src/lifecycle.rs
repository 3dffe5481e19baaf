//! What check-ins and sweeps do to a node over its life.
use crate::models::{CheckinData, Nodes, SensorData, SensorTrigger};
use crate::notice::NoticeView;
use crate::store::{
    CheckinReport, OFFLINE_AFTER_SECONDS, Store, checked_in, checkin_post, has_recipients,
    is_first_node, is_stale, key_position, node_matches, node_position, online_notice,
    online_notices, swept, trigger_after, trigger_notices,
};
use vstd::prelude::*;

verus! {

/// The first node that matches is the one that a lookup finds.
pub proof fn lemma_node_position(nodes: Seq<Nodes>, api_key_id: u64, external: Seq<char>, p: int)
    requires
        is_first_node(nodes, api_key_id, external, p),
    ensures
        node_position(nodes, api_key_id, external) == Some(p),
{
    assert(0 <= p < nodes.len() && node_matches(nodes[p], api_key_id, external));
    let k = choose|k: int| is_first_node(nodes, api_key_id, external, k);
    assert(is_first_node(nodes, api_key_id, external, k));
    if k < p {
        assert(!node_matches(nodes[k], api_key_id, external));
    } else if p < k {
        assert(!node_matches(nodes[p], api_key_id, external));
    }
}

/// A node without recipients has no trigger notice sent, and a check-in of
/// it leaves every trigger's flag as it was.
pub proof fn lemma_no_recipients_keeps_triggers(
    ts: Seq<SensorTrigger>,
    n: Nodes,
    now: i64,
    readings: Option<Vec<SensorData>>,
)
    requires
        !has_recipients(n),
    ensures
        trigger_notices(ts, n, now, readings, true) == Seq::<NoticeView>::empty(),
        ts.map_values(|t: SensorTrigger| trigger_after(t, n, readings)) == ts,
    decreases ts.len(),
{
    if ts.len() > 0 {
        lemma_no_recipients_keeps_triggers(ts.drop_last(), n, now, readings);
    }
    assert(ts.map_values(|t: SensorTrigger| trigger_after(t, n, readings)) =~= ts);
}

/// Once a node has recipients, the check-in that held notices back for want
/// of them sends as many.
pub proof fn lemma_recipients_release_notices(
    ts: Seq<SensorTrigger>,
    n: Nodes,
    recipients: String,
    now: i64,
    readings: Option<Vec<SensorData>>,
)
    requires
        !has_recipients(n),
        recipients@.len() > 0,
    ensures
        trigger_notices(
            ts,
            Nodes { notification_email_list: recipients, ..n },
            now,
            readings,
            true,
        ).len() == trigger_notices(ts, n, now, readings, false).len(),
    decreases ts.len(),
{
    if ts.len() > 0 {
        lemma_recipients_release_notices(ts.drop_last(), n, recipients, now, readings);
    }
}

/// A check-in with a key that the store does not hold creates and changes
/// nothing and notifies nobody.
pub proof fn lemma_unknown_key_is_ignored(
    s: Store,
    req: CheckinData,
    now: i64,
    s2: Store,
    r: CheckinReport,
)
    requires
        key_position(s.api_keys@, req.api_key@) is None,
        checkin_post(s, req, now, s2, r),
    ensures
        s2.api_keys@ == s.api_keys@,
        s2.nodes@ == s.nodes@,
        s2.triggers@ == s.triggers@,
        r.api_key_id is None,
        r.notices@.len() == 0,
{
}

/// The life of a node. Its first check-in creates it without a notice; a
/// second one within the offline threshold keeps it online, and no sweep in
/// that time reports it. Once it has recipients and stays silent past the
/// threshold, a sweep reports it offline, once; its next check-in reports it
/// online, once, and clears the offline flag.
pub proof fn lemma_node_lifecycle(
    s0: Store,
    req: CheckinData,
    t0: i64,
    s1: Store,
    r1: CheckinReport,
    t1: i64,
    s2: Store,
    r2: CheckinReport,
    t_early: i64,
    recipients: String,
    s3: Store,
    t3: i64,
    s4: Store,
    t4: i64,
    s5: Store,
    r5: CheckinReport,
)
    requires
        s0.wf(),
        key_position(s0.api_keys@, req.api_key@) is Some,
        node_position(
            s0.nodes@,
            s0.api_keys@[key_position(s0.api_keys@, req.api_key@).unwrap()].id,
            req.node_id@,
        ) is None,
        checkin_post(s0, req, t0, s1, r1),
        checkin_post(s1, req, t1, s2, r2),
        t_early <= t1 + OFFLINE_AFTER_SECONDS,
        // recipients are configured for the node, nothing else changes
        recipients@.len() > 0,
        s3.api_keys@ == s2.api_keys@,
        s3.triggers@ == s2.triggers@,
        s3.nodes@ == s2.nodes@.update(
            s0.nodes@.len() as int,
            Nodes { notification_email_list: recipients, ..s2.nodes@[s0.nodes@.len() as int] },
        ),
        t3 > t1 + OFFLINE_AFTER_SECONDS,
        s4.api_keys@ == s3.api_keys@,
        s4.triggers@ == s3.triggers@,
        s4.nodes@ == s3.nodes@.map_values(|n: Nodes| swept(n, t3)),
        checkin_post(s4, req, t4, s5, r5),
    ensures
        ({
            let p = s0.nodes@.len() as int;
            &&& r1.node_created && r1.notices@.len() == 0
            &&& !r2.node_created && !s2.nodes@[p].offline_notification_sent
            &&& !is_stale(s2.nodes@[p], t_early)
            &&& is_stale(s3.nodes@[p], t3) && s4.nodes@[p].offline_notification_sent
            &&& !is_stale(s4.nodes@[p], t3)
            &&& online_notices(s4.nodes@[p], t4, true) == seq![online_notice(s4.nodes@[p], t4)]
            &&& s5.nodes@[p] == checked_in(s4.nodes@[p], t4)
            &&& !s5.nodes@[p].offline_notification_sent
        }),
{
    let p = s0.nodes@.len() as int;
    let k = key_position(s0.api_keys@, req.api_key@).unwrap();
    let kid = s0.api_keys@[k].id;
    let ext = req.node_id@;
    // no node of s0 matches
    assert forall|j: int| 0 <= j < p implies !node_matches(s0.nodes@[j], kid, ext) by {
        if node_matches(s0.nodes@[j], kid, ext) {
            assert(exists|i: int| 0 <= i < s0.nodes@.len() && node_matches(s0.nodes@[i], kid, ext));
        }
    }
    // first check-in: the node is created, without recipients
    let n1 = s1.nodes@.last();
    lemma_no_recipients_keeps_triggers(s0.triggers@, n1, t0, req.sensor_data);
    assert(s1.nodes@[p] == n1);
    assert forall|j: int| 0 <= j < p implies s1.nodes@[j] == s0.nodes@[j] by {
        assert(s1.nodes@.drop_last()[j] == s0.nodes@[j]);
    }
    // second check-in finds it
    assert(is_first_node(s1.nodes@, kid, ext, p));
    lemma_node_position(s1.nodes@, kid, ext, p);
    let n2 = s2.nodes@[p];
    assert(n2 == checked_in(n1, t1));
    // recipients are set
    let n3 = s3.nodes@[p];
    assert(n3.last_checkin_timestamp == t1);
    // the sweep
    assert(s4.nodes@[p] == swept(n3, t3));
    let n4 = s4.nodes@[p];
    // the next check-in finds it again
    assert forall|j: int| 0 <= j < p implies !node_matches(s4.nodes@[j], kid, ext) by {
        assert(s4.nodes@[j] == swept(s3.nodes@[j], t3));
        assert(s3.nodes@[j] == s2.nodes@[j]);
        assert(s2.nodes@[j] == s1.nodes@[j]);
    }
    assert(is_first_node(s4.nodes@, kid, ext, p));
    lemma_node_position(s4.nodes@, kid, ext, p);
    assert(key_position(s4.api_keys@, req.api_key@) == Some(k));
}

} // verus!
