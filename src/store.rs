//! The rows of keys, nodes and triggers, and the check-in and offline sweep
//! that read and update them.
use crate::alerting::{
    Transition, debounce, evaluate_trigger, evaluation_of, flag_after, trigger_transition,
};
use crate::models::{ApiKey, CheckinData, Nodes, SensorData, SensorTrigger};
use crate::notice::{Notice, NoticeKind, NoticeView, notices_view};
use vstd::prelude::*;

verus! {

/// A node that stays silent for longer than this many seconds is offline.
pub const OFFLINE_AFTER_SECONDS: i64 = 300;

/// All rows, each table in an arena: a node's id is its position.
pub struct Store {
    pub api_keys: Vec<ApiKey>,
    pub nodes: Vec<Nodes>,
    pub triggers: Vec<SensorTrigger>,
}

/// `i` is the first position of a key row that holds `key`.
pub open spec fn is_first_key(keys: Seq<ApiKey>, key: Seq<char>, i: int) -> bool {
    0 <= i < keys.len() && keys[i].api_key@ == key && forall|j: int|
        0 <= j < i ==> keys[j].api_key@ != key
}

/// The position of the key row that authenticates `key`, if there is one.
pub open spec fn key_position(keys: Seq<ApiKey>, key: Seq<char>) -> Option<int> {
    if exists|i: int| 0 <= i < keys.len() && keys[i].api_key@ == key {
        Some(choose|i: int| is_first_key(keys, key, i))
    } else {
        None
    }
}

/// The node `n` is the one that key `api_key_id` calls `external`.
pub open spec fn node_matches(n: Nodes, api_key_id: u64, external: Seq<char>) -> bool {
    n.fk_api_key_id == api_key_id && n.node_id_external@ == external
}

pub open spec fn is_first_node(nodes: Seq<Nodes>, api_key_id: u64, external: Seq<char>, i: int) -> bool {
    0 <= i < nodes.len() && node_matches(nodes[i], api_key_id, external) && forall|j: int|
        0 <= j < i ==> !node_matches(nodes[j], api_key_id, external)
}

/// The position of the node that key `api_key_id` calls `external`, if any.
pub open spec fn node_position(nodes: Seq<Nodes>, api_key_id: u64, external: Seq<char>) -> Option<
    int,
> {
    if exists|i: int| 0 <= i < nodes.len() && node_matches(nodes[i], api_key_id, external) {
        Some(choose|i: int| is_first_node(nodes, api_key_id, external, i))
    } else {
        None
    }
}

/// Someone is to be told of the node's changes.
pub open spec fn has_recipients(n: Nodes) -> bool {
    n.notification_email_list@.len() > 0
}

/// The trigger watches a sensor of the node `node_id` and is switched on.
pub open spec fn trigger_applies(t: SensorTrigger, node_id: u64) -> bool {
    t.node_id == node_id && t.monitoring_enabled
}

/// The transition that a check-in of node `node_id` brings to trigger `t`.
pub open spec fn trigger_step(t: SensorTrigger, node_id: u64, readings: Option<Vec<SensorData>>) -> Transition {
    if trigger_applies(t, node_id) {
        trigger_transition(t, readings)
    } else {
        Transition::Stay
    }
}

/// The trigger with its flag as a check-in of node `n` leaves it.
pub open spec fn trigger_after(t: SensorTrigger, n: Nodes, readings: Option<Vec<SensorData>>) -> SensorTrigger {
    SensorTrigger {
        trigger_notification_sent: flag_after(
            t.trigger_notification_sent,
            trigger_step(t, n.id, readings),
            has_recipients(n),
        ),
        ..t
    }
}

/// The notice for trigger `t` of node `n` on a due transition.
pub open spec fn trigger_notice(
    t: SensorTrigger,
    n: Nodes,
    now: i64,
    readings: Option<Vec<SensorData>>,
) -> NoticeView {
    let e = evaluation_of(t, readings).unwrap();
    NoticeView {
        kind: if trigger_step(t, n.id, readings) == Transition::Fail {
            NoticeKind::ValidationFailed
        } else {
            NoticeKind::ValidationOk
        },
        node: n.node_id_external@,
        recipients: n.notification_email_list@,
        checkin: now as int,
        last_checkin: now as int,
        sensor_id: t.sensor_id@,
        sensor_name: e.2,
        message: e.1,
    }
}

/// The notices that a check-in of node `n` makes for the triggers `ts`, in
/// their order: those that go out (`sent`) or those held back for want of
/// recipients (`!sent`).
pub open spec fn trigger_notices(
    ts: Seq<SensorTrigger>,
    n: Nodes,
    now: i64,
    readings: Option<Vec<SensorData>>,
    sent: bool,
) -> Seq<NoticeView>
    decreases ts.len(),
{
    if ts.len() == 0 {
        Seq::empty()
    } else {
        let prev = trigger_notices(ts.drop_last(), n, now, readings, sent);
        let t = ts.last();
        if trigger_step(t, n.id, readings) != Transition::Stay && has_recipients(n) == sent {
            prev.push(trigger_notice(t, n, now, readings))
        } else {
            prev
        }
    }
}

fn set_trigger_flag(triggers: &mut Vec<SensorTrigger>, j: usize, flag: bool)
    requires
        j < old(triggers)@.len(),
    ensures
        final(triggers)@ == old(triggers)@.update(
            j as int,
            SensorTrigger { trigger_notification_sent: flag, ..old(triggers)@[j as int] },
        ),
{
    let mut t = triggers.remove(j);
    t.trigger_notification_sent = flag;
    triggers.insert(j, t);
    assert(final(triggers)@ =~= old(triggers)@.update(
        j as int,
        SensorTrigger { trigger_notification_sent: flag, ..old(triggers)@[j as int] },
    ));
}

/// What a check-in did besides updating the store.
pub struct CheckinReport {
    /// The id of the key that authenticated the check-in; `None` when the key
    /// is unknown and nothing was touched.
    pub api_key_id: Option<u64>,
    /// The check-in created the node.
    pub node_created: bool,
    /// The notices to deliver, in order.
    pub notices: Vec<Notice>,
    /// The notices that were due but had no recipient; their flags were kept.
    pub suppressed: Vec<Notice>,
}

/// `n` is the row that a first check-in creates.
pub open spec fn new_node(n: Nodes, id: int, api_key_id: u64, external: Seq<char>, now: i64) -> bool {
    n.id == id && n.fk_api_key_id == api_key_id && n.node_id_external@ == external
        && n.monitoring_enabled && n.last_checkin_timestamp == now
        && n.notification_email_list@.len() == 0 && !n.offline_notification_sent
}

/// The node as a check-in at `now` leaves it.
pub open spec fn checked_in(n: Nodes, now: i64) -> Nodes {
    Nodes { last_checkin_timestamp: now, offline_notification_sent: false, ..n }
}

/// A check-in of the node ends an offline period that was reported.
pub open spec fn online_due(n: Nodes) -> bool {
    n.monitoring_enabled && n.offline_notification_sent
}

pub open spec fn online_notice(n: Nodes, now: i64) -> NoticeView {
    NoticeView {
        kind: NoticeKind::NodeOnline,
        node: n.node_id_external@,
        recipients: n.notification_email_list@,
        checkin: now as int,
        last_checkin: n.last_checkin_timestamp as int,
        sensor_id: Seq::empty(),
        sensor_name: Seq::empty(),
        message: Seq::empty(),
    }
}

/// The online notice of a check-in of `n`, among those sent or those held back.
pub open spec fn online_notices(n: Nodes, now: i64, sent: bool) -> Seq<NoticeView> {
    if online_due(n) && has_recipients(n) == sent {
        seq![online_notice(n, now)]
    } else {
        Seq::empty()
    }
}

/// What a check-in with the request `req` at `now` does to the store `s`,
/// which becomes `s2`, and what it reports in `r`.
pub open spec fn checkin_post(s: Store, req: CheckinData, now: i64, s2: Store, r: CheckinReport) -> bool {
    &&& s2.api_keys@ == s.api_keys@
    &&& match key_position(s.api_keys@, req.api_key@) {
        None => {
            &&& r.api_key_id is None
            &&& !r.node_created
            &&& s2.nodes@ == s.nodes@
            &&& s2.triggers@ == s.triggers@
            &&& r.notices@.len() == 0
            &&& r.suppressed@.len() == 0
        },
        Some(k) => {
            let key_id = s.api_keys@[k].id;
            &&& r.api_key_id == Some(key_id)
            &&& match node_position(s.nodes@, key_id, req.node_id@) {
                None => {
                    let n = s2.nodes@.last();
                    &&& r.node_created
                    &&& s2.nodes@.len() == s.nodes@.len() + 1
                    &&& s2.nodes@.drop_last() == s.nodes@
                    &&& new_node(n, s.nodes@.len() as int, key_id, req.node_id@, now)
                    &&& s2.triggers@ == s.triggers@.map_values(
                        |t: SensorTrigger| trigger_after(t, n, req.sensor_data),
                    )
                    &&& notices_view(r.notices@) == trigger_notices(
                        s.triggers@,
                        n,
                        now,
                        req.sensor_data,
                        true,
                    )
                    &&& notices_view(r.suppressed@) == trigger_notices(
                        s.triggers@,
                        n,
                        now,
                        req.sensor_data,
                        false,
                    )
                },
                Some(i) => {
                    let n = s.nodes@[i];
                    &&& !r.node_created
                    &&& s2.nodes@ == s.nodes@.update(i, checked_in(n, now))
                    &&& s2.triggers@ == s.triggers@.map_values(
                        |t: SensorTrigger| trigger_after(t, n, req.sensor_data),
                    )
                    &&& notices_view(r.notices@) == online_notices(n, now, true) + trigger_notices(
                        s.triggers@,
                        n,
                        now,
                        req.sensor_data,
                        true,
                    )
                    &&& notices_view(r.suppressed@) == online_notices(n, now, false)
                        + trigger_notices(s.triggers@, n, now, req.sensor_data, false)
                },
            }
        },
    }
}

/// The node has been silent too long and its silence is not reported yet.
pub open spec fn is_stale(n: Nodes, now: i64) -> bool {
    &&& n.monitoring_enabled
    &&& has_recipients(n)
    &&& !n.offline_notification_sent
    &&& n.last_checkin_timestamp < now - OFFLINE_AFTER_SECONDS
}

/// The node as an offline sweep at `now` leaves it.
pub open spec fn swept(n: Nodes, now: i64) -> Nodes {
    if is_stale(n, now) {
        Nodes { offline_notification_sent: true, ..n }
    } else {
        n
    }
}

pub open spec fn offline_notice(n: Nodes, now: i64) -> NoticeView {
    NoticeView {
        kind: NoticeKind::NodeOffline,
        node: n.node_id_external@,
        recipients: n.notification_email_list@,
        checkin: now as int,
        last_checkin: n.last_checkin_timestamp as int,
        sensor_id: Seq::empty(),
        sensor_name: Seq::empty(),
        message: Seq::empty(),
    }
}

/// The offline notices of a sweep at `now` over `ns`, in their order.
pub open spec fn offline_notices(ns: Seq<Nodes>, now: i64) -> Seq<NoticeView>
    decreases ns.len(),
{
    if ns.len() == 0 {
        Seq::empty()
    } else {
        let prev = offline_notices(ns.drop_last(), now);
        if is_stale(ns.last(), now) {
            prev.push(offline_notice(ns.last(), now))
        } else {
            prev
        }
    }
}

fn empty_string() -> (r: String)
    ensures
        r@ == Seq::<char>::empty(),
{
    String::new()
}

fn copy_string(s: &String) -> (r: String)
    ensures
        r@ == s@,
{
    s.clone()
}

impl Store {
    /// Every node's id is its position.
    pub open spec fn wf(&self) -> bool {
        forall|i: int| 0 <= i < self.nodes@.len() ==> self.nodes@[i].id == i
    }

    /// A store without rows.
    pub fn new() -> (r: Store)
        ensures
            r.wf(),
            r.api_keys@.len() == 0,
            r.nodes@.len() == 0,
            r.triggers@.len() == 0,
    {
        Store { api_keys: Vec::new(), nodes: Vec::new(), triggers: Vec::new() }
    }

    /// Finds the row of an API key.
    pub fn find_api_key(&self, key: &String) -> (r: Option<usize>)
        ensures
            match r {
                Some(i) => i < self.api_keys@.len() && key_position(self.api_keys@, key@) == Some(
                    i as int,
                ),
                None => key_position(self.api_keys@, key@) is None,
            },
    {
        let mut i: usize = 0;
        while i < self.api_keys.len()
            invariant
                i <= self.api_keys@.len(),
                forall|j: int| 0 <= j < i ==> self.api_keys@[j].api_key@ != key@,
            decreases self.api_keys@.len() - i,
        {
            if self.api_keys[i].api_key == *key {
                proof {
                    let k = choose|k: int| is_first_key(self.api_keys@, key@, k);
                    assert(is_first_key(self.api_keys@, key@, i as int));
                    if k < i {
                    } else if k > i {
                        assert(self.api_keys@[i as int].api_key@ != key@);
                    }
                }
                return Some(i);
            }
            i = i + 1;
        }
        None
    }

    /// Finds the node that the key `api_key_id` calls `external`.
    pub fn find_node(&self, api_key_id: u64, external: &String) -> (r: Option<usize>)
        ensures
            match r {
                Some(i) => i < self.nodes@.len() && node_position(self.nodes@, api_key_id, external@)
                    == Some(i as int),
                None => node_position(self.nodes@, api_key_id, external@) is None,
            },
    {
        let mut i: usize = 0;
        while i < self.nodes.len()
            invariant
                i <= self.nodes@.len(),
                forall|j: int|
                    0 <= j < i ==> !node_matches(self.nodes@[j], api_key_id, external@),
            decreases self.nodes@.len() - i,
        {
            if self.nodes[i].fk_api_key_id == api_key_id && self.nodes[i].node_id_external
                == *external {
                proof {
                    let k = choose|k: int| is_first_node(self.nodes@, api_key_id, external@, k);
                    assert(is_first_node(self.nodes@, api_key_id, external@, i as int));
                    if k < i {
                    } else if k > i {
                        assert(!node_matches(self.nodes@[i as int], api_key_id, external@));
                    }
                }
                return Some(i);
            }
            i = i + 1;
        }
        None
    }

    /// Evaluates the switched-on triggers of node `node` against the
    /// check-in's readings, updates their flags and collects the notices:
    /// `(sent, held back for want of recipients)`.
    pub fn sensor_trigger_check(
        &mut self,
        node: &Nodes,
        sensor_data: &Option<Vec<SensorData>>,
        now: i64,
    ) -> (r: (Vec<Notice>, Vec<Notice>))
        ensures
            final(self).api_keys@ == old(self).api_keys@,
            final(self).nodes@ == old(self).nodes@,
            final(self).triggers@ == old(self).triggers@.map_values(
                |t: SensorTrigger| trigger_after(t, *node, *sensor_data),
            ),
            notices_view(r.0@) == trigger_notices(old(self).triggers@, *node, now, *sensor_data, true),
            notices_view(r.1@) == trigger_notices(
                old(self).triggers@,
                *node,
                now,
                *sensor_data,
                false,
            ),
    {
        let ghost ts = self.triggers@;
        let recipients = !node.notification_email_list.as_str().is_empty();
        let mut sent: Vec<Notice> = Vec::new();
        let mut held: Vec<Notice> = Vec::new();
        let mut j: usize = 0;
        while j < self.triggers.len()
            invariant
                j <= self.triggers@.len(),
                self.triggers@.len() == ts.len(),
                self.api_keys@ == old(self).api_keys@,
                self.nodes@ == old(self).nodes@,
                ts == old(self).triggers@,
                recipients == has_recipients(*node),
                forall|k: int|
                    0 <= k < j ==> self.triggers@[k] == trigger_after(ts[k], *node, *sensor_data),
                forall|k: int| j <= k < ts.len() ==> self.triggers@[k] == ts[k],
                notices_view(sent@) == trigger_notices(ts.take(j as int), *node, now, *sensor_data, true),
                notices_view(held@) == trigger_notices(ts.take(j as int), *node, now, *sensor_data, false),
            decreases ts.len() - j,
        {
            let ghost pre = ts.take(j as int);
            assert(ts.take(j + 1).drop_last() =~= pre);
            let t = &self.triggers[j];
            if t.node_id == node.id && t.monitoring_enabled {
                match evaluate_trigger(t, sensor_data) {
                    None => {},
                    Some(e) => {
                        let step = debounce(t.trigger_notification_sent, e.0);
                        if step != Transition::Stay {
                            let notice = Notice {
                                kind: if step == Transition::Fail {
                                    NoticeKind::ValidationFailed
                                } else {
                                    NoticeKind::ValidationOk
                                },
                                node_id_external: copy_string(&node.node_id_external),
                                notification_email_list: copy_string(&node.notification_email_list),
                                checkin_timestamp: now,
                                last_checkin_timestamp: now,
                                sensor_id: copy_string(&t.sensor_id),
                                sensor_name: e.2,
                                validation_message: e.1,
                            };
                            if recipients {
                                sent.push(notice);
                                set_trigger_flag(&mut self.triggers, j, step == Transition::Fail);
                            } else {
                                held.push(notice);
                            }
                        }
                    },
                }
            }
            proof {
                assert(notices_view(sent@) =~= trigger_notices(ts.take(j + 1), *node, now, *sensor_data, true));
                assert(notices_view(held@) =~= trigger_notices(ts.take(j + 1), *node, now, *sensor_data, false));
            }
            j = j + 1;
        }
        proof {
            assert(ts.take(ts.len() as int) =~= ts);
            assert(self.triggers@ =~= ts.map_values(|t: SensorTrigger| trigger_after(t, *node, *sensor_data)));
        }
        (sent, held)
    }

    /// Processes a check-in at `now`: authenticates the key, creates the node
    /// on first sight or records the check-in, reports a node that is back
    /// online, and evaluates the node's triggers.
    pub fn checkin_node(&mut self, checkin_data: &CheckinData, now: i64) -> (r: CheckinReport)
        requires
            old(self).wf(),
        ensures
            final(self).wf(),
            checkin_post(*old(self), *checkin_data, now, *final(self), r),
    {
        let k = match self.find_api_key(&checkin_data.api_key) {
            None => {
                return CheckinReport {
                    api_key_id: None,
                    node_created: false,
                    notices: Vec::new(),
                    suppressed: Vec::new(),
                };
            },
            Some(k) => k,
        };
        let key_id = self.api_keys[k].id;
        match self.find_node(key_id, &checkin_data.node_id) {
            None => {
                let node = Nodes {
                    id: self.nodes.len() as u64,
                    node_id_external: copy_string(&checkin_data.node_id),
                    fk_api_key_id: key_id,
                    monitoring_enabled: true,
                    last_checkin_timestamp: now,
                    notification_email_list: empty_string(),
                    offline_notification_sent: false,
                };
                let (notices, suppressed) = self.sensor_trigger_check(
                    &node,
                    &checkin_data.sensor_data,
                    now,
                );
                let ghost nodes0 = self.nodes@;
                self.nodes.push(node);
                assert(self.nodes@.drop_last() =~= nodes0);
                CheckinReport { api_key_id: Some(key_id), node_created: true, notices, suppressed }
            },
            Some(i) => {
                let ghost nodes0 = self.nodes@;
                let mut node = self.nodes.remove(i);
                let mut notices: Vec<Notice> = Vec::new();
                let mut suppressed: Vec<Notice> = Vec::new();
                if node.monitoring_enabled && node.offline_notification_sent {
                    let notice = Notice {
                        kind: NoticeKind::NodeOnline,
                        node_id_external: copy_string(&node.node_id_external),
                        notification_email_list: copy_string(&node.notification_email_list),
                        checkin_timestamp: now,
                        last_checkin_timestamp: node.last_checkin_timestamp,
                        sensor_id: empty_string(),
                        sensor_name: empty_string(),
                        validation_message: empty_string(),
                    };
                    if node.notification_email_list.as_str().is_empty() {
                        suppressed.push(notice);
                    } else {
                        notices.push(notice);
                    }
                }
                assert(notices_view(notices@) =~= online_notices(node, now, true));
                assert(notices_view(suppressed@) =~= online_notices(node, now, false));
                let (mut sent, mut held) = self.sensor_trigger_check(
                    &node,
                    &checkin_data.sensor_data,
                    now,
                );
                let ghost v0 = notices@;
                let ghost v1 = suppressed@;
                let ghost w0 = sent@;
                let ghost w1 = held@;
                notices.append(&mut sent);
                suppressed.append(&mut held);
                assert(notices_view(notices@) =~= notices_view(v0) + notices_view(w0));
                assert(notices_view(suppressed@) =~= notices_view(v1) + notices_view(w1));
                node.last_checkin_timestamp = now;
                node.offline_notification_sent = false;
                self.nodes.insert(i, node);
                assert(self.nodes@ =~= nodes0.update(i as int, checked_in(nodes0[i as int], now)));
                CheckinReport { api_key_id: Some(key_id), node_created: false, notices, suppressed }
            },
        }
    }

    /// The offline sweep at `now`: reports each monitored node with
    /// recipients that has been silent for longer than the offline threshold
    /// and whose silence is not reported yet, and marks it as reported.
    pub fn alert_sender(&mut self, now: i64) -> (r: Vec<Notice>)
        requires
            old(self).wf(),
        ensures
            final(self).wf(),
            final(self).api_keys@ == old(self).api_keys@,
            final(self).triggers@ == old(self).triggers@,
            final(self).nodes@ == old(self).nodes@.map_values(|n: Nodes| swept(n, now)),
            notices_view(r@) == offline_notices(old(self).nodes@, now),
    {
        let ghost ns = self.nodes@;
        let mut out: Vec<Notice> = Vec::new();
        let mut i: usize = 0;
        while i < self.nodes.len()
            invariant
                i <= self.nodes@.len(),
                self.nodes@.len() == ns.len(),
                self.api_keys@ == old(self).api_keys@,
                self.triggers@ == old(self).triggers@,
                ns == old(self).nodes@,
                forall|k: int| 0 <= k < i ==> self.nodes@[k] == swept(ns[k], now),
                forall|k: int| i <= k < ns.len() ==> self.nodes@[k] == ns[k],
                notices_view(out@) == offline_notices(ns.take(i as int), now),
            decreases ns.len() - i,
        {
            assert(ns.take(i + 1).drop_last() =~= ns.take(i as int));
            assert(ns.take(i + 1).last() == ns[i as int]);
            let n = &self.nodes[i];
            let stale = n.monitoring_enabled && !n.notification_email_list.as_str().is_empty()
                && !n.offline_notification_sent && (n.last_checkin_timestamp as i128) < (now as i128)
                - (OFFLINE_AFTER_SECONDS as i128);
            assert(stale == is_stale(ns[i as int], now));
            if stale {
                out.push(
                    Notice {
                        kind: NoticeKind::NodeOffline,
                        node_id_external: copy_string(&n.node_id_external),
                        notification_email_list: copy_string(&n.notification_email_list),
                        checkin_timestamp: now,
                        last_checkin_timestamp: n.last_checkin_timestamp,
                        sensor_id: empty_string(),
                        sensor_name: empty_string(),
                        validation_message: empty_string(),
                    },
                );
                let mut m = self.nodes.remove(i);
                m.offline_notification_sent = true;
                self.nodes.insert(i, m);
            }
            assert(notices_view(out@) =~= offline_notices(ns.take(i + 1), now));
            i = i + 1;
        }
        proof {
            assert(ns.take(ns.len() as int) =~= ns);
            assert(self.nodes@ =~= ns.map_values(|n: Nodes| swept(n, now)));
        }
        out
    }
}

} // verus!
