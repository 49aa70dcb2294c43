//! What window events tell of the IME.

use vstd::prelude::*;
use vstd::string::*;

use crate::text;

verus! {

pub const EVENT_OBJECT_SHOW: u32 = 0x8002;

pub const EVENT_OBJECT_HIDE: u32 = 0x8003;

pub const EVENT_OBJECT_NAMECHANGE: u32 = 0x800C;

pub const EVENT_OBJECT_IME_SHOW: u32 = 0x8027;

pub const EVENT_OBJECT_IME_HIDE: u32 = 0x8028;

pub const EVENT_OBJECT_IME_CHANGE: u32 = 0x8029;

/// Object identifier of the window itself.
pub const OBJID_WINDOW: i32 = 0;

/// Window class of the candidate list of Google Japanese Input.
pub const GJI_CANDIDATE_CLASS: &'static str = "GoogleJapaneseInputCandidateWindow";

/// What the class of a terminal window contains.
pub const TERMINAL_CLASS_PART: &'static str = "CASCADIA";

/// What was observed so far. The counters wrap around.
#[derive(Debug, Clone, Copy, PartialEq, Eq, Structural)]
pub struct TsfObservations {
    /// Title changes of terminal windows.
    pub focus_namechange: u64,
    /// The candidate list is on the screen.
    pub gji_candidate_visible: bool,
    /// It was on the screen at some time.
    pub candidate_was_seen: bool,
    /// A composition has begun, which nobody has taken note of yet.
    pub pending_start_composition: bool,
    /// A composition has ended, which nobody has taken note of yet.
    pub pending_end_composition: bool,
    /// Appearances of the candidate list.
    pub gji_candidate_show: u64,
    pub ime_composition_active: bool,
    pub ime_show_seq: u64,
    pub ime_change_seq: u64,
}

pub open spec fn next_count(n: u64) -> u64 {
    if n == u64::MAX {
        0
    } else {
        (n + 1) as u64
    }
}

fn count(n: u64) -> (r: u64)
    ensures
        r == next_count(n),
{
    if n == u64::MAX {
        0
    } else {
        n + 1
    }
}

impl TsfObservations {
    pub open spec fn none() -> TsfObservations {
        TsfObservations {
            focus_namechange: 0,
            gji_candidate_visible: false,
            candidate_was_seen: false,
            pending_start_composition: false,
            pending_end_composition: false,
            gji_candidate_show: 0,
            ime_composition_active: false,
            ime_show_seq: 0,
            ime_change_seq: 0,
        }
    }

    /// What is observed after an event of an object of a window of the given class.
    pub open spec fn after(self, event: u32, id_object: i32, class: Seq<char>) -> TsfObservations {
        if id_object != OBJID_WINDOW {
            self
        } else if event == EVENT_OBJECT_NAMECHANGE {
            if text::contains_seq(class, TERMINAL_CLASS_PART@) {
                TsfObservations { focus_namechange: next_count(self.focus_namechange), ..self }
            } else {
                self
            }
        } else if event == EVENT_OBJECT_SHOW {
            if class == GJI_CANDIDATE_CLASS@ {
                TsfObservations {
                    gji_candidate_visible: true,
                    candidate_was_seen: true,
                    pending_start_composition: true,
                    gji_candidate_show: next_count(self.gji_candidate_show),
                    ..self
                }
            } else {
                self
            }
        } else if event == EVENT_OBJECT_HIDE {
            if class == GJI_CANDIDATE_CLASS@ {
                TsfObservations {
                    gji_candidate_visible: false,
                    pending_end_composition: true,
                    ..self
                }
            } else {
                self
            }
        } else if event == EVENT_OBJECT_IME_SHOW {
            TsfObservations {
                ime_composition_active: true,
                ime_show_seq: next_count(self.ime_show_seq),
                ..self
            }
        } else if event == EVENT_OBJECT_IME_HIDE {
            TsfObservations { ime_composition_active: false, ..self }
        } else if event == EVENT_OBJECT_IME_CHANGE {
            TsfObservations { ime_change_seq: next_count(self.ime_change_seq), ..self }
        } else {
            self
        }
    }

    #[must_use]
    pub fn new() -> (r: Self)
        ensures
            r == TsfObservations::none(),
    {
        TsfObservations {
            focus_namechange: 0,
            gji_candidate_visible: false,
            candidate_was_seen: false,
            pending_start_composition: false,
            pending_end_composition: false,
            gji_candidate_show: 0,
            ime_composition_active: false,
            ime_show_seq: 0,
            ime_change_seq: 0,
        }
    }

    /// Takes note of an event.
    pub fn observation_event_proc(&mut self, event: u32, id_object: i32, class: &str)
        ensures
            *final(self) == old(self).after(event, id_object, class@),
    {
        if id_object != OBJID_WINDOW {
            return;
        }
        if event == EVENT_OBJECT_NAMECHANGE {
            if text::contains(class, TERMINAL_CLASS_PART) {
                self.focus_namechange = count(self.focus_namechange);
            }
        } else if event == EVENT_OBJECT_SHOW {
            if text::same(class, GJI_CANDIDATE_CLASS) {
                self.gji_candidate_visible = true;
                self.candidate_was_seen = true;
                self.pending_start_composition = true;
                self.gji_candidate_show = count(self.gji_candidate_show);
            }
        } else if event == EVENT_OBJECT_HIDE {
            if text::same(class, GJI_CANDIDATE_CLASS) {
                self.gji_candidate_visible = false;
                self.pending_end_composition = true;
            }
        } else if event == EVENT_OBJECT_IME_SHOW {
            self.ime_composition_active = true;
            self.ime_show_seq = count(self.ime_show_seq);
        } else if event == EVENT_OBJECT_IME_HIDE {
            self.ime_composition_active = false;
        } else if event == EVENT_OBJECT_IME_CHANGE {
            self.ime_change_seq = count(self.ime_change_seq);
        }
    }
}

/// First and last event of each range that is to be hooked.
pub open spec fn hooked_ranges() -> Seq<(u32, u32)> {
    seq![
        (EVENT_OBJECT_NAMECHANGE, EVENT_OBJECT_NAMECHANGE),
        (EVENT_OBJECT_SHOW, EVENT_OBJECT_HIDE),
        (EVENT_OBJECT_IME_SHOW, EVENT_OBJECT_IME_CHANGE),
    ]
}

/// First and last event of each range that is to be hooked.
#[must_use]
pub fn observation_ranges() -> (r: Vec<(u32, u32)>)
    ensures
        r@ == hooked_ranges(),
{
    vec![
        (EVENT_OBJECT_NAMECHANGE, EVENT_OBJECT_NAMECHANGE),
        (EVENT_OBJECT_SHOW, EVENT_OBJECT_HIDE),
        (EVENT_OBJECT_IME_SHOW, EVENT_OBJECT_IME_CHANGE),
    ]
}

/// How long ago the last write was, in words; 0 is the time of no write. A clock that went back
/// counts as no time.
pub open spec fn ago(now_ms: u64, last_write_ms: u64) -> Seq<char> {
    if last_write_ms == 0 {
        "never"@
    } else {
        text::decimal(
            if now_ms > last_write_ms {
                (now_ms - last_write_ms) as nat
            } else {
                0
            },
        ) + "ms ago"@
    }
}

#[must_use]
pub fn write_ago(now_ms: u64, last_write_ms: u64) -> (r: String)
    ensures
        r@ == ago(now_ms, last_write_ms),
{
    if last_write_ms == 0 {
        return "never".to_owned();
    }
    let elapsed = if now_ms > last_write_ms {
        now_ms - last_write_ms
    } else {
        0
    };
    let mut s = String::new();
    text::push_decimal(&mut s, elapsed);
    s.append("ms ago");
    assert(s@ =~= ago(now_ms, last_write_ms));
    s
}

// ---- Laws ----

/// Whatever event changes what is observed lies in one of the hooked ranges.
pub proof fn law_hooks_cover_what_is_observed(
    obs: TsfObservations,
    event: u32,
    id_object: i32,
    class: Seq<char>,
)
    requires
        obs.after(event, id_object, class) != obs,
    ensures
        exists|i: int|
            0 <= i < hooked_ranges().len() && (#[trigger] hooked_ranges()[i]).0 <= event
                <= hooked_ranges()[i].1,
{
    let ranges = hooked_ranges();
    if event == EVENT_OBJECT_NAMECHANGE {
        assert(ranges[0].0 <= event <= ranges[0].1);
    } else if event <= EVENT_OBJECT_HIDE {
        assert(ranges[1].0 <= event <= ranges[1].1);
    } else {
        assert(ranges[2].0 <= event <= ranges[2].1);
    }
}

/// Events of parts of a window, and events of other kinds, change nothing.
pub proof fn law_other_events_are_ignored(
    obs: TsfObservations,
    event: u32,
    id_object: i32,
    class: Seq<char>,
)
    requires
        id_object != OBJID_WINDOW || !(event == EVENT_OBJECT_SHOW || event == EVENT_OBJECT_HIDE
            || event == EVENT_OBJECT_NAMECHANGE || EVENT_OBJECT_IME_SHOW <= event
            <= EVENT_OBJECT_IME_CHANGE),
    ensures
        obs.after(event, id_object, class) == obs,
{
}

/// That the candidate list was on the screen is never forgotten, and a pending note stays until
/// somebody takes it.
pub proof fn law_sightings_are_kept(
    obs: TsfObservations,
    event: u32,
    id_object: i32,
    class: Seq<char>,
)
    ensures
        obs.candidate_was_seen ==> obs.after(event, id_object, class).candidate_was_seen,
        obs.pending_start_composition ==> obs.after(
            event,
            id_object,
            class,
        ).pending_start_composition,
        obs.pending_end_composition ==> obs.after(event, id_object, class).pending_end_composition,
{
}

/// A candidate list that is on the screen was seen.
pub proof fn law_visible_list_was_seen(
    obs: TsfObservations,
    event: u32,
    id_object: i32,
    class: Seq<char>,
)
    requires
        obs.gji_candidate_visible ==> obs.candidate_was_seen,
    ensures
        obs.after(event, id_object, class).gji_candidate_visible ==> obs.after(
            event,
            id_object,
            class,
        ).candidate_was_seen,
{
}

} // verus!
