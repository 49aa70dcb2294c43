//! Pairing of key-down and key-up events.
//!
//! A key whose key-down was consumed gets its key-up consumed too; a key whose
//! key-down went through while the engine was inactive gets its key-up through too.
//! When the context changes, the key-ups that are still owed are handed out so
//! that the OS keyboard state can be put right.

use vstd::prelude::*;

use crate::types::{KeyEventType, RawKeyEvent, VkCode};

verus! {

/// A key that was consumed and whose key-up is still to come.
#[derive(Debug, Clone, Copy)]
struct ActiveKey {
    vk_code: VkCode,
    /// The event to build the key-up from.
    event: RawKeyEvent,
}

/// What to do with a key-up so that it matches its key-down.
#[derive(Debug, Clone, Copy, PartialEq, Eq, Structural)]
pub enum KeyUpDisposition {
    /// The key-down was consumed.
    Consume,
    /// The key-down went through while the engine was inactive.
    PassThrough,
    /// The key-down is not tracked.
    Unknown,
}

/// Keys that are down, as the engine treated their last key-down.
#[verifier::ext_equal]
pub ghost struct LifecycleView {
    /// Key-down events that were consumed, in the order in which they came.
    pub active: Seq<RawKeyEvent>,
    /// Codes of the keys that went through while the engine was inactive.
    pub passed: Seq<VkCode>,
}

/// Holds of the events of every key but `vk`.
pub open spec fn other_key(vk: VkCode) -> spec_fn(RawKeyEvent) -> bool {
    |e: RawKeyEvent| e.vk_code != vk
}

/// Holds of every code but `vk`.
pub open spec fn other_code(vk: VkCode) -> spec_fn(VkCode) -> bool {
    |v: VkCode| v != vk
}

impl LifecycleView {
    pub open spec fn is_active(self, vk: VkCode) -> bool {
        exists|i: int| 0 <= i < self.active.len() && self.active[i].vk_code == vk
    }

    pub open spec fn is_passed(self, vk: VkCode) -> bool {
        self.passed.contains(vk)
    }

    /// No key is listed twice, and none is in both lists.
    pub open spec fn wf(self) -> bool {
        &&& forall|i: int, j: int|
            0 <= i < j < self.active.len() ==> self.active[i].vk_code != self.active[j].vk_code
        &&& self.passed.no_duplicates()
        &&& forall|i: int|
            0 <= i < self.active.len() ==> !self.passed.contains(
                (#[trigger] self.active[i]).vk_code,
            )
    }

    pub open spec fn without_active(self, vk: VkCode) -> Seq<RawKeyEvent> {
        self.active.filter(other_key(vk))
    }

    pub open spec fn without_passed(self, vk: VkCode) -> Seq<VkCode> {
        self.passed.filter(other_code(vk))
    }

    pub open spec fn key_down_consumed(self, event: RawKeyEvent) -> LifecycleView {
        LifecycleView {
            active: if self.is_active(event.vk_code) {
                self.active
            } else {
                self.active.push(event)
            },
            passed: self.without_passed(event.vk_code),
        }
    }

    pub open spec fn key_down_passed(self, vk: VkCode) -> LifecycleView {
        LifecycleView {
            active: self.without_active(vk),
            passed: if self.is_passed(vk) {
                self.passed
            } else {
                self.passed.push(vk)
            },
        }
    }

    pub open spec fn key_up_disposition(self, vk: VkCode) -> KeyUpDisposition {
        if self.is_active(vk) {
            KeyUpDisposition::Consume
        } else if self.is_passed(vk) {
            KeyUpDisposition::PassThrough
        } else {
            KeyUpDisposition::Unknown
        }
    }

    pub open spec fn key_up(self, vk: VkCode) -> LifecycleView {
        if self.is_active(vk) {
            LifecycleView { active: self.without_active(vk), ..self }
        } else {
            LifecycleView { passed: self.without_passed(vk), ..self }
        }
    }

    /// Key-ups owed for the consumed keys, in the order of their key-downs.
    pub open spec fn owed_key_ups(self) -> Seq<RawKeyEvent> {
        self.active.map_values(
            |e: RawKeyEvent| RawKeyEvent { event_type: KeyEventType::KeyUp, ..e },
        )
    }

    pub open spec fn flushed(self) -> LifecycleView {
        LifecycleView { active: Seq::empty(), ..self }
    }
}

/// Tracks which keys are down and how their last key-down was treated.
#[derive(Debug)]
pub struct KeyLifecycle {
    /// Consumed keys that wait for their key-up.
    active_keys: Vec<ActiveKey>,
    /// Keys whose key-down went through while the engine was inactive.
    ///
    /// Their key-up may arrive after the engine became active. The state machine never
    /// saw the key-down, so it must not interpret the key-up.
    passed_while_inactive: Vec<VkCode>,
}

impl View for KeyLifecycle {
    type V = LifecycleView;

    closed spec fn view(&self) -> LifecycleView {
        LifecycleView {
            active: self.active_keys@.map_values(|k: ActiveKey| k.event),
            passed: self.passed_while_inactive@,
        }
    }
}

impl Default for KeyLifecycle {
    fn default() -> (r: Self)
        ensures
            r.wf(),
            r@ == LifecycleView::nothing(),
    {
        Self::new()
    }
}

impl KeyLifecycle {
    pub closed spec fn wf(&self) -> bool {
        &&& self@.wf()
        &&& forall|i: int|
            0 <= i < self.active_keys@.len() ==> (#[trigger] self.active_keys@[i]).vk_code
                == self.active_keys@[i].event.vk_code
    }

    /// What well-formedness says of the tracked keys.
    pub proof fn lemma_wf(&self)
        requires
            self.wf(),
        ensures
            self@.wf(),
    {
    }

    #[must_use]
    pub fn new() -> (r: Self)
        ensures
            r.wf(),
            r@ == LifecycleView::nothing(),
    {
        KeyLifecycle { active_keys: Vec::new(), passed_while_inactive: Vec::new() }
    }

    /// Position of the consumed key `vk`, if it is tracked.
    fn active_position(&self, vk: VkCode) -> (r: Option<usize>)
        requires
            self.wf(),
        ensures
            match r {
                Some(i) => i < self@.active.len() && self@.active[i as int].vk_code == vk,
                None => !self@.is_active(vk),
            },
            r is Some == self@.is_active(vk),
    {
        let mut i: usize = 0;
        while i < self.active_keys.len()
            invariant
                self.wf(),
                i <= self.active_keys@.len(),
                forall|j: int| 0 <= j < i ==> (#[trigger] self@.active[j]).vk_code != vk,
            decreases self.active_keys@.len() - i,
        {
            if self.active_keys[i].vk_code == vk {
                assert(self@.active[i as int].vk_code == vk);
                return Some(i);
            }
            i += 1;
        }
        None
    }

    /// Position of the passed key `vk`, if it is tracked.
    fn passed_position(&self, vk: VkCode) -> (r: Option<usize>)
        ensures
            match r {
                Some(i) => i < self@.passed.len() && self@.passed[i as int] == vk,
                None => !self@.is_passed(vk),
            },
            r is Some == self@.is_passed(vk),
    {
        let mut i: usize = 0;
        while i < self.passed_while_inactive.len()
            invariant
                i <= self.passed_while_inactive@.len(),
                forall|j: int| 0 <= j < i ==> self.passed_while_inactive@[j] != vk,
            decreases self.passed_while_inactive@.len() - i,
        {
            if self.passed_while_inactive[i] == vk {
                assert(self@.passed[i as int] == vk);
                return Some(i);
            }
            i += 1;
        }
        None
    }

    /// Drops the consumed key `vk`; tells whether it was tracked.
    fn remove_active(&mut self, vk: VkCode) -> (found: bool)
        requires
            old(self).wf(),
        ensures
            final(self).wf(),
            found == old(self)@.is_active(vk),
            final(self)@.active == old(self)@.without_active(vk),
            final(self)@.passed == old(self)@.passed,
    {
        match self.active_position(vk) {
            Some(i) => {
                let ghost before = self@;
                self.active_keys.remove(i);
                proof {
                    lemma_filter_removes_one(
                        before.active,
                        other_key(vk),
                        i as int,
                    );
                    assert(self@.active =~= before.active.remove(i as int));
                }
                true
            },
            None => {
                proof {
                    lemma_filter_keeps_all(self@.active, other_key(vk));
                }
                false
            },
        }
    }

    /// Drops the passed key `vk`; tells whether it was tracked.
    fn remove_passed(&mut self, vk: VkCode) -> (found: bool)
        requires
            old(self).wf(),
        ensures
            final(self).wf(),
            found == old(self)@.is_passed(vk),
            final(self)@.active == old(self)@.active,
            final(self)@.passed == old(self)@.without_passed(vk),
    {
        match self.passed_position(vk) {
            Some(i) => {
                let ghost before = self@;
                self.passed_while_inactive.remove(i);
                proof {
                    lemma_filter_removes_one(before.passed, other_code(vk), i as int);
                    assert(self@.passed =~= before.passed.remove(i as int));
                }
                true
            },
            None => {
                proof {
                    lemma_filter_keeps_all(self@.passed, other_code(vk));
                }
                false
            },
        }
    }

    /// Records that the key-down `event` was consumed, so that its key-up is too.
    ///
    /// A record that the key went through is dropped: the last key-down decides.
    pub fn on_key_down_consumed(&mut self, event: &RawKeyEvent)
        requires
            old(self).wf(),
        ensures
            final(self).wf(),
            final(self)@ == old(self)@.key_down_consumed(*event),
    {
        let vk = event.vk_code;
        self.remove_passed(vk);
        if self.active_position(vk).is_none() {
            let ghost before = self@;
            self.active_keys.push(ActiveKey { vk_code: vk, event: *event });
            assert(self@.active =~= before.active.push(*event));
        }
    }

    /// Records that the key-down of `vk_code` went through while the engine was
    /// inactive, so that its key-up does too.
    pub fn on_key_down_passed_while_inactive(&mut self, vk_code: VkCode)
        requires
            old(self).wf(),
        ensures
            final(self).wf(),
            final(self)@ == old(self)@.key_down_passed(vk_code),
    {
        self.remove_active(vk_code);
        if self.passed_position(vk_code).is_none() {
            self.passed_while_inactive.push(vk_code);
        }
    }

    /// The last key-down of `vk_code` went through while the engine was inactive.
    #[must_use]
    pub fn is_passed_while_inactive(&self, vk_code: VkCode) -> (r: bool)
        ensures
            r == self@.is_passed(vk_code),
    {
        self.passed_position(vk_code).is_some()
    }

    /// Treatment owed to the key-up of `vk_code`; the key is no longer tracked.
    pub fn on_key_up(&mut self, vk_code: VkCode) -> (r: KeyUpDisposition)
        requires
            old(self).wf(),
        ensures
            final(self).wf(),
            r == old(self)@.key_up_disposition(vk_code),
            final(self)@ == old(self)@.key_up(vk_code),
    {
        if self.remove_active(vk_code) {
            return KeyUpDisposition::Consume;
        }
        proof {
            lemma_filter_keeps_all(old(self)@.active, other_key(vk_code));
        }
        if self.remove_passed(vk_code) {
            return KeyUpDisposition::PassThrough;
        }
        KeyUpDisposition::Unknown
    }

    /// Hands out the key-ups that are owed for the consumed keys and forgets those keys.
    pub fn flush_pending_key_ups(&mut self) -> (ups: Vec<RawKeyEvent>)
        requires
            old(self).wf(),
        ensures
            final(self).wf(),
            ups@ == old(self)@.owed_key_ups(),
            final(self)@ == old(self)@.flushed(),
    {
        let mut ups: Vec<RawKeyEvent> = Vec::new();
        let mut i: usize = 0;
        while i < self.active_keys.len()
            invariant
                *self == *old(self),
                i <= self.active_keys@.len(),
                ups@.len() == i,
                forall|j: int| 0 <= j < i ==> ups@[j] == self@.owed_key_ups()[j],
            decreases self.active_keys@.len() - i,
        {
            let mut evt = self.active_keys[i].event;
            evt.event_type = KeyEventType::KeyUp;
            ups.push(evt);
            i += 1;
        }
        self.active_keys = Vec::new();
        assert(ups@ =~= old(self)@.owed_key_ups());
        ups
    }

    /// Number of consumed keys that wait for their key-up.
    #[must_use]
    pub fn active_count(&self) -> (n: usize)
        ensures
            n == self@.active.len(),
    {
        self.active_keys.len()
    }
}

/// Filtering by a predicate that every element meets changes nothing.
proof fn lemma_filter_keeps_all<A>(s: Seq<A>, keep: spec_fn(A) -> bool)
    requires
        forall|i: int| 0 <= i < s.len() ==> keep(#[trigger] s[i]),
    ensures
        s.filter(keep) == s,
    decreases s.len(),
{
    reveal(Seq::filter);
    if s.len() > 0 {
        lemma_filter_keeps_all(s.drop_last(), keep);
        assert(s =~= s.drop_last().push(s.last()));
    }
}

/// Filtering by a predicate that exactly the element at `i` fails takes that element out.
proof fn lemma_filter_removes_one<A>(s: Seq<A>, keep: spec_fn(A) -> bool, i: int)
    requires
        0 <= i < s.len(),
        forall|j: int| 0 <= j < s.len() ==> (keep(#[trigger] s[j]) <==> j != i),
    ensures
        s.filter(keep) == s.remove(i),
    decreases s.len(),
{
    reveal(Seq::filter);
    if i == s.len() - 1 {
        lemma_filter_keeps_all(s.drop_last(), keep);
        assert(s.remove(i) =~= s.drop_last());
    } else {
        lemma_filter_removes_one(s.drop_last(), keep, i);
        assert(s.remove(i) =~= s.drop_last().remove(i).push(s.last()));
    }
}

/// Which keys are still active or passed once the key `vk` is filtered out.
proof fn lemma_without(v: LifecycleView, vk: VkCode, other: VkCode)
    ensures
        (LifecycleView { active: v.without_active(vk), ..v }).is_active(other) == (other != vk
            && v.is_active(other)),
        v.without_passed(vk).contains(other) == (other != vk && v.passed.contains(other)),
{
    broadcast use {Seq::lemma_filter_pred, Seq::lemma_filter_contains, Seq::lemma_filter_contains_rev};

    let w = LifecycleView { active: v.without_active(vk), ..v };
    if w.is_active(other) {
        let i = choose|i: int| 0 <= i < w.active.len() && w.active[i].vk_code == other;
        assert(other_key(vk)(w.active[i]));
        assert(v.active.filter(other_key(vk)).contains(w.active[i]));
        let j = choose|j: int| 0 <= j < v.active.len() && v.active[j] == w.active[i];
        assert(v.active[j].vk_code == other);
    }
    if other != vk && v.is_active(other) {
        let i = choose|i: int| 0 <= i < v.active.len() && v.active[i].vk_code == other;
        assert(other_key(vk)(v.active[i]));
        assert(w.active.contains(v.active[i]));
        let j = choose|j: int| 0 <= j < w.active.len() && w.active[j] == v.active[i];
        assert(w.active[j].vk_code == other);
    }
    if v.without_passed(vk).contains(other) {
        let i = choose|i: int|
            0 <= i < v.without_passed(vk).len() && v.without_passed(vk)[i] == other;
        assert(other_code(vk)(v.without_passed(vk)[i]));
    }
    if other != vk && v.passed.contains(other) {
        let i = choose|i: int| 0 <= i < v.passed.len() && v.passed[i] == other;
        assert(other_code(vk)(v.passed[i]));
    }
}

/// A key-up gets the treatment of the last key-down of its key, once, and the events of
/// one key leave every other key alone.
pub proof fn law_key_up_follows_last_key_down(v: LifecycleView, event: RawKeyEvent, other: VkCode)
    ensures
        ({
            let vk = event.vk_code;
            let consumed = v.key_down_consumed(event);
            let passed = v.key_down_passed(vk);
            &&& consumed.key_up_disposition(vk) == KeyUpDisposition::Consume
            &&& consumed.key_up(vk).key_up_disposition(vk) == KeyUpDisposition::Unknown
            &&& passed.key_up_disposition(vk) == KeyUpDisposition::PassThrough
            &&& passed.key_up(vk).key_up_disposition(vk) == KeyUpDisposition::Unknown
            &&& other != vk ==> {
                &&& consumed.key_up_disposition(other) == v.key_up_disposition(other)
                &&& passed.key_up_disposition(other) == v.key_up_disposition(other)
                &&& v.key_up(vk).key_up_disposition(other) == v.key_up_disposition(other)
            }
        }),
{
    let vk = event.vk_code;
    let consumed = v.key_down_consumed(event);
    let passed = v.key_down_passed(vk);
    lemma_without(v, vk, vk);
    lemma_without(v, vk, other);
    if !v.is_active(vk) {
        assert(consumed.active[v.active.len() as int] == event);
        if v.is_active(other) {
            let i = choose|i: int| 0 <= i < v.active.len() && v.active[i].vk_code == other;
            assert(consumed.active[i] == v.active[i]);
        }
    }
    assert(consumed.is_active(vk));
    lemma_without(consumed, vk, vk);
    if !v.is_passed(vk) {
        assert(passed.passed[v.passed.len() as int] == vk);
        if v.is_passed(other) {
            let i = choose|i: int| 0 <= i < v.passed.len() && v.passed[i] == other;
            assert(passed.passed[i] == other);
        }
    }
    assert(passed.is_passed(vk));
    assert(!passed.is_active(vk)) by {
        if passed.is_active(vk) {
            let i = choose|i: int| 0 <= i < passed.active.len() && passed.active[i].vk_code == vk;
            assert((LifecycleView { active: v.without_active(vk), ..v }).active[i].vk_code == vk);
        }
    }
    lemma_without(passed, vk, vk);
    if other != vk {
        assert(passed.is_active(other) == v.is_active(other)) by {
            let w = LifecycleView { active: v.without_active(vk), ..v };
            assert(passed.active == w.active);
            if passed.is_active(other) {
                let i = choose|i: int|
                    0 <= i < passed.active.len() && passed.active[i].vk_code == other;
                assert(w.active[i].vk_code == other);
            }
            if w.is_active(other) {
                let i = choose|i: int| 0 <= i < w.active.len() && w.active[i].vk_code == other;
                assert(passed.active[i].vk_code == other);
            }
        }
    }
}

/// Flushing settles the consumed keys: no later key-up is consumed on their account, and
/// the keys that went through keep their treatment.
pub proof fn law_flush_forgets_only_consumed_keys(v: LifecycleView, vk: VkCode)
    ensures
        v.flushed().key_up_disposition(vk) == (if v.is_passed(vk) {
            KeyUpDisposition::PassThrough
        } else {
            KeyUpDisposition::Unknown
        }),
        v.flushed().owed_key_ups() == Seq::<RawKeyEvent>::empty(),
        v.owed_key_ups().len() == v.active.len(),
{
    assert(v.flushed().owed_key_ups() =~= Seq::<RawKeyEvent>::empty());
}

// ---- Runs of calls ----

/// One call that changes what is tracked.
pub ghost enum LifecycleOp {
    /// A key-down was consumed.
    Consumed(RawKeyEvent),
    /// A key-down went through while the engine was inactive.
    Passed(VkCode),
    Up(VkCode),
    /// The context changed.
    Flush,
}

impl LifecycleView {
    pub open spec fn nothing() -> LifecycleView {
        LifecycleView { active: Seq::empty(), passed: Seq::empty() }
    }

    pub open spec fn after_op(self, op: LifecycleOp) -> LifecycleView {
        match op {
            LifecycleOp::Consumed(event) => self.key_down_consumed(event),
            LifecycleOp::Passed(vk) => self.key_down_passed(vk),
            LifecycleOp::Up(vk) => self.key_up(vk),
            LifecycleOp::Flush => self.flushed(),
        }
    }

    /// What is tracked after the calls, one after the other, from nothing.
    pub open spec fn after_ops(ops: Seq<LifecycleOp>) -> LifecycleView
        decreases ops.len(),
    {
        if ops.len() == 0 {
            Self::nothing()
        } else {
            Self::after_ops(ops.drop_last()).after_op(ops.last())
        }
    }
}

/// The last of the calls that concern the key is a consumed key-down.
pub open spec fn last_consumed(ops: Seq<LifecycleOp>, vk: VkCode) -> bool
    decreases ops.len(),
{
    if ops.len() == 0 {
        false
    } else {
        match ops.last() {
            LifecycleOp::Consumed(event) if event.vk_code == vk => true,
            LifecycleOp::Passed(k) if k == vk => false,
            LifecycleOp::Up(k) if k == vk => false,
            LifecycleOp::Flush => false,
            _ => last_consumed(ops.drop_last(), vk),
        }
    }
}

proof fn lemma_without_active_is_wf(v: LifecycleView, vk: VkCode)
    requires
        v.wf(),
    ensures
        (LifecycleView { active: v.without_active(vk), ..v }).wf(),
{
    if v.is_active(vk) {
        let i = choose|i: int| 0 <= i < v.active.len() && v.active[i].vk_code == vk;
        assert forall|j: int| 0 <= j < v.active.len() implies (other_key(vk)(
            #[trigger] v.active[j],
        ) <==> j != i) by {}
        lemma_filter_removes_one(v.active, other_key(vk), i);
    } else {
        lemma_filter_keeps_all(v.active, other_key(vk));
    }
}

proof fn lemma_without_passed_is_wf(v: LifecycleView, vk: VkCode)
    requires
        v.wf(),
    ensures
        (LifecycleView { passed: v.without_passed(vk), ..v }).wf(),
{
    if v.is_passed(vk) {
        let i = choose|i: int| 0 <= i < v.passed.len() && v.passed[i] == vk;
        assert forall|j: int| 0 <= j < v.passed.len() implies (other_code(vk)(
            #[trigger] v.passed[j],
        ) <==> j != i) by {}
        lemma_filter_removes_one(v.passed, other_code(vk), i);
    } else {
        lemma_filter_keeps_all(v.passed, other_code(vk));
    }
}

proof fn lemma_op_keeps_wf(v: LifecycleView, op: LifecycleOp)
    requires
        v.wf(),
    ensures
        v.after_op(op).wf(),
{
    match op {
        LifecycleOp::Consumed(event) => {
            lemma_without_passed_is_wf(v, event.vk_code);
            lemma_without(v, event.vk_code, event.vk_code);
        },
        LifecycleOp::Passed(vk) => {
            lemma_without_active_is_wf(v, vk);
            lemma_without(v, vk, vk);
            let w = LifecycleView { active: v.without_active(vk), ..v };
            assert forall|i: int| 0 <= i < w.active.len() implies (
            #[trigger] w.active[i]).vk_code != vk by {
                if w.active[i].vk_code == vk {
                    assert(w.is_active(vk));
                }
            }
        },
        LifecycleOp::Up(vk) => {
            lemma_without_active_is_wf(v, vk);
            lemma_without_passed_is_wf(v, vk);
        },
        LifecycleOp::Flush => {},
    }
}

proof fn lemma_op_tracks_the_last_call(v: LifecycleView, op: LifecycleOp, vk: VkCode)
    ensures
        v.after_op(op).is_active(vk) == (match op {
            LifecycleOp::Consumed(event) if event.vk_code == vk => true,
            LifecycleOp::Passed(k) if k == vk => false,
            LifecycleOp::Up(k) if k == vk => false,
            LifecycleOp::Flush => false,
            _ => v.is_active(vk),
        }),
{
    match op {
        LifecycleOp::Consumed(event) => {
            law_key_up_follows_last_key_down(v, event, vk);
            assert(v.key_down_consumed(event).key_up_disposition(vk) is Consume
                == v.key_down_consumed(event).is_active(vk));
            assert(v.key_up_disposition(vk) is Consume == v.is_active(vk));
        },
        LifecycleOp::Passed(k) => {
            lemma_without(v, k, vk);
            let w = LifecycleView { active: v.without_active(k), ..v };
            assert(v.key_down_passed(k).active == w.active);
            assert(v.key_down_passed(k).is_active(vk) == w.is_active(vk)) by {
                lemma_activity_is_of_the_list(v.key_down_passed(k), w, vk);
            }
        },
        LifecycleOp::Up(k) => {
            lemma_without(v, k, vk);
            let w = LifecycleView { active: v.without_active(k), ..v };
            if v.is_active(k) {
                assert(v.key_up(k) == w);
            } else {
                lemma_activity_is_of_the_list(v.key_up(k), v, vk);
            }
        },
        LifecycleOp::Flush => {},
    }
}

proof fn lemma_activity_is_of_the_list(v: LifecycleView, w: LifecycleView, vk: VkCode)
    requires
        v.active == w.active,
    ensures
        v.is_active(vk) == w.is_active(vk),
{
    if v.is_active(vk) {
        let i = choose|i: int| 0 <= i < v.active.len() && v.active[i].vk_code == vk;
        assert(w.active[i].vk_code == vk);
    }
    if w.is_active(vk) {
        let i = choose|i: int| 0 <= i < w.active.len() && w.active[i].vk_code == vk;
        assert(v.active[i].vk_code == vk);
    }
}

/// After any calls the keys that are tracked as consumed are those whose last call was a consumed
/// key-down, and no key is counted twice. Before any call there are none.
pub proof fn law_active_keys_are_those_consumed_last(ops: Seq<LifecycleOp>)
    ensures
        LifecycleView::after_ops(ops).wf(),
        forall|vk: VkCode|
            LifecycleView::after_ops(ops).is_active(vk) == #[trigger] last_consumed(ops, vk),
        Set::new(|vk: VkCode| last_consumed(ops, vk)).finite(),
        Set::new(|vk: VkCode| last_consumed(ops, vk)).len() == LifecycleView::after_ops(
            ops,
        ).active.len(),
        ops.len() == 0 ==> LifecycleView::after_ops(ops).active.len() == 0,
{
    lemma_run_is_tracked(ops);
    let v = LifecycleView::after_ops(ops);
    let codes = v.active.map_values(|e: RawKeyEvent| e.vk_code);
    assert(codes.no_duplicates());
    codes.unique_seq_to_set();
    let wanted = Set::new(|vk: VkCode| last_consumed(ops, vk));
    assert forall|vk: VkCode| codes.to_set().contains(vk) == wanted.contains(vk) by {
        if v.is_active(vk) {
            let i = choose|i: int| 0 <= i < v.active.len() && v.active[i].vk_code == vk;
            assert(codes[i] == vk);
        }
        if codes.contains(vk) {
            let i = choose|i: int| 0 <= i < codes.len() && codes[i] == vk;
            assert(v.active[i].vk_code == vk);
        }
        assert(v.is_active(vk) == last_consumed(ops, vk));
    }
    assert(codes.to_set() =~= wanted);
}

proof fn lemma_run_is_tracked(ops: Seq<LifecycleOp>)
    ensures
        LifecycleView::after_ops(ops).wf(),
        forall|vk: VkCode|
            LifecycleView::after_ops(ops).is_active(vk) == #[trigger] last_consumed(ops, vk),
    decreases ops.len(),
{
    if ops.len() > 0 {
        lemma_run_is_tracked(ops.drop_last());
        let before = LifecycleView::after_ops(ops.drop_last());
        lemma_op_keeps_wf(before, ops.last());
        assert forall|vk: VkCode|
            LifecycleView::after_ops(ops).is_active(vk) == #[trigger] last_consumed(ops, vk) by {
            lemma_op_tracks_the_last_call(before, ops.last(), vk);
            assert(before.is_active(vk) == last_consumed(ops.drop_last(), vk));
        }
    }
}

} // verus!
