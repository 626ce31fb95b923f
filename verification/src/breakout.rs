//! The polled input snapshot: previous/current key and mouse button state,
//! the active modifier keys, and a queue of scheduled timer wakeups kept
//! sorted by soonest trigger time.

use vstd::prelude::*;

verus! {

use crate::events::FlowCommand;
use crate::events::InputEvent;
use crate::events::Modifiers;
use crate::events::persist_resize;

/// Nanoseconds in one millisecond.
pub const NANOS_PER_MILLI: u64 = 1_000_000;

/// A scheduled timer wakeup.
#[derive(Copy, Clone, PartialEq, Eq, Structural, Hash, Debug)]
pub struct Wakeup {
    /// The time at which this wakeup is scheduled to happen, in nanoseconds
    /// of wall-clock time since the Unix epoch. If the time is in the past,
    /// the wakeup happens instantly.
    pub when: u64,

    /// A numeric identifier that can be used to determine which wakeup a
    /// callback is being run for.
    pub id: u32,
}

/// Relies on std::time::SystemTime::now: reads the wall clock once and
/// converts it to whole nanoseconds since the Unix epoch (0 if the clock
/// reads earlier than the epoch, u64::MAX if it does not fit). The result
/// depends on when the call happens, so nothing is promised of it.
#[verifier::external_body]
fn now_nanos() -> u64 {
    match std::time::SystemTime::now().duration_since(std::time::UNIX_EPOCH) {
        Ok(d) => u64::try_from(d.as_nanos()).unwrap_or(u64::MAX),
        Err(_) => 0,
    }
}

/// The sum of two times in nanoseconds, saturating at the end of the
/// representable range.
pub open spec fn nanos_after(now: u64, duration: u64) -> u64 {
    if now + duration <= u64::MAX {
        (now + duration) as u64
    } else {
        u64::MAX
    }
}

impl Wakeup {
    /// The time `duration` nanoseconds after `now`, saturating at the end of
    /// the representable range.
    pub fn after_from(now: u64, duration: u64) -> (r: u64)
        ensures
            r == nanos_after(now, duration),
    {
        if duration <= u64::MAX - now {
            now + duration
        } else {
            u64::MAX
        }
    }

    /// Returns the current time plus `duration` nanoseconds. The exact result
    /// depends on the clock, but it is never sooner than `duration`
    /// nanoseconds after the epoch.
    pub fn after(duration: u64) -> (r: u64)
        ensures
            r >= duration,
    {
        Self::after_from(now_nanos(), duration)
    }

    /// The same as [`Wakeup::after`], but takes a number of milliseconds.
    pub fn after_millis(millis: u64) -> (r: u64)
        ensures
            millis * NANOS_PER_MILLI <= u64::MAX ==> r >= millis * NANOS_PER_MILLI,
            millis * NANOS_PER_MILLI > u64::MAX ==> r == u64::MAX,
    {
        let nanos = if millis <= u64::MAX / NANOS_PER_MILLI {
            millis * NANOS_PER_MILLI
        } else {
            u64::MAX
        };
        Self::after(nanos)
    }

    /// Modifies this wakeup to trigger after `duration` nanoseconds have
    /// passed from now, calculated via [`Wakeup::after`].
    pub fn trigger_after(&mut self, duration: u64)
        ensures
            final(self).id == old(self).id,
            final(self).when >= duration,
    {
        self.when = Self::after(duration);
    }
}

/// Holds when the queue is ordered by soonest wakeup first.
pub open spec fn wakeups_sorted(s: Seq<Wakeup>) -> bool {
    forall|i: int, j: int| 0 <= i < j < s.len() ==> s[i].when <= s[j].when
}

/// The index at which a wakeup due at `when` is queued, scanning from `i`:
/// just before the first later wakeup, or at the end.
pub open spec fn insert_pos_from(s: Seq<Wakeup>, when: u64, i: int) -> int
    decreases s.len() - i,
{
    if i < 0 || i >= s.len() {
        s.len() as int
    } else if s[i].when > when {
        i
    } else {
        insert_pos_from(s, when, i + 1)
    }
}

/// The index at which a wakeup due at `when` is queued: just before the
/// first strictly later wakeup, so ties keep scheduling order.
pub open spec fn insert_pos(s: Seq<Wakeup>, when: u64) -> int {
    insert_pos_from(s, when, 0)
}

/// The index of the first wakeup with identifier `id`, scanning from `i`;
/// -1 if there is none.
pub open spec fn id_pos_from(s: Seq<Wakeup>, id: u32, i: int) -> int
    decreases s.len() - i,
{
    if i < 0 || i >= s.len() {
        -1
    } else if s[i].id == id {
        i
    } else {
        id_pos_from(s, id, i + 1)
    }
}

/// The index of the first wakeup with identifier `id`, or -1 if none is
/// queued.
pub open spec fn id_pos(s: Seq<Wakeup>, id: u32) -> int {
    id_pos_from(s, id, 0)
}

proof fn lemma_insert_pos_from(s: Seq<Wakeup>, when: u64, i: int)
    requires
        0 <= i <= s.len(),
    ensures
        i <= insert_pos_from(s, when, i) <= s.len(),
        forall|j: int| i <= j < insert_pos_from(s, when, i) ==> s[j].when <= when,
        insert_pos_from(s, when, i) < s.len() ==> s[insert_pos_from(s, when, i)].when > when,
    decreases s.len() - i,
{
    if i < s.len() && !(s[i].when > when) {
        lemma_insert_pos_from(s, when, i + 1);
    }
}

proof fn lemma_id_pos_from(s: Seq<Wakeup>, id: u32, i: int)
    requires
        0 <= i <= s.len(),
    ensures
        id_pos_from(s, id, i) == -1 || i <= id_pos_from(s, id, i) < s.len(),
        id_pos_from(s, id, i) >= 0 ==> s[id_pos_from(s, id, i)].id == id,
        forall|j: int|
            i <= j < s.len() && s[j].id == id ==> id_pos_from(s, id, i) >= 0 && id_pos_from(
                s,
                id,
                i,
            ) <= j,
    decreases s.len() - i,
{
    if i < s.len() && s[i].id != id {
        lemma_id_pos_from(s, id, i + 1);
    }
}

proof fn lemma_insert_keeps_sorted(s: Seq<Wakeup>, w: Wakeup)
    requires
        wakeups_sorted(s),
    ensures
        wakeups_sorted(s.insert(insert_pos(s, w.when), w)),
{
    lemma_insert_pos_from(s, w.when, 0);
    let p = insert_pos(s, w.when);
    s.insert_ensures(p, w);
    let t = s.insert(p, w);
    assert forall|i: int, j: int| 0 <= i < j < t.len() implies t[i].when <= t[j].when by {
        if i < p && j < p {
            assert(t[i] == s[i] && t[j] == s[j]);
        } else if i < p && j == p {
            assert(t[i] == s[i] && t[j] == w);
        } else if i < p && j > p {
            assert(t[i] == s[i] && t[j] == s[j - 1]);
        } else if i == p && j > p {
            assert(t[i] == w && t[j] == s[j - 1]);
        } else {
            assert(t[i] == s[i - 1] && t[j] == s[j - 1]);
        }
    }
}

proof fn lemma_remove_keeps_sorted(s: Seq<Wakeup>, p: int)
    requires
        wakeups_sorted(s),
        0 <= p < s.len(),
    ensures
        wakeups_sorted(s.remove(p)),
{
    s.remove_ensures(p);
    let t = s.remove(p);
    assert forall|i: int, j: int| 0 <= i < j < t.len() implies t[i].when <= t[j].when by {
        if i < p && j < p {
            assert(t[i] == s[i] && t[j] == s[j]);
        } else if i < p && j >= p {
            assert(t[i] == s[i] && t[j] == s[j + 1]);
        } else {
            assert(t[i] == s[i + 1] && t[j] == s[j + 1]);
        }
    }
}

/// The previous and current "down" state of one key or mouse button.
#[derive(Copy, Clone, PartialEq, Eq, Structural, Debug)]
pub struct ButtonState {
    /// Whether the key or button was down on the previous frame.
    pub was_down: bool,

    /// Whether the key or button is down on the current frame.
    pub is_down: bool,
}

impl ButtonState {
    /// The state of a key or button that has never been pressed.
    pub open spec fn up_spec() -> ButtonState {
        ButtonState { was_down: false, is_down: false }
    }

    /// The state one frame later, with no events in between.
    pub open spec fn advanced(self) -> ButtonState {
        ButtonState { was_down: self.is_down, is_down: self.is_down }
    }
}

/// One key or mouse button together with its state. Keys and buttons are
/// identified by a numeric code chosen by the caller.
#[derive(Copy, Clone, PartialEq, Eq, Structural, Debug)]
pub struct StateEntry {
    /// The numeric code of the key or mouse button.
    pub code: u64,

    /// Its previous and current state.
    pub state: ButtonState,
}

/// Holds when no key or button code occurs twice.
pub open spec fn codes_unique(s: Seq<StateEntry>) -> bool {
    forall|i: int, j: int| 0 <= i < j < s.len() ==> s[i].code != s[j].code
}

/// The state recorded for `code`, scanning from `i`: entries not present
/// read as never pressed.
pub open spec fn lookup_from(s: Seq<StateEntry>, code: u64, i: int) -> ButtonState
    decreases s.len() - i,
{
    if i < 0 || i >= s.len() {
        ButtonState::up_spec()
    } else if s[i].code == code {
        s[i].state
    } else {
        lookup_from(s, code, i + 1)
    }
}

/// The state recorded for `code`: entries not present read as never pressed.
pub open spec fn lookup_state(s: Seq<StateEntry>, code: u64) -> ButtonState {
    lookup_from(s, code, 0)
}

/// Holds when some entry records `code`.
pub open spec fn has_code(s: Seq<StateEntry>, code: u64) -> bool {
    exists|i: int| 0 <= i < s.len() && s[i].code == code
}

proof fn lemma_lookup_found(s: Seq<StateEntry>, code: u64, lo: int, i: int)
    requires
        0 <= lo <= i < s.len(),
        s[i].code == code,
        forall|j: int| lo <= j < i ==> s[j].code != code,
    ensures
        lookup_from(s, code, lo) == s[i].state,
    decreases i - lo,
{
    if lo < i {
        lemma_lookup_found(s, code, lo + 1, i);
    }
}

proof fn lemma_lookup_absent(s: Seq<StateEntry>, code: u64, lo: int)
    requires
        0 <= lo <= s.len(),
        forall|j: int| lo <= j < s.len() ==> s[j].code != code,
    ensures
        lookup_from(s, code, lo) == ButtonState::up_spec(),
    decreases s.len() - lo,
{
    if lo < s.len() {
        lemma_lookup_absent(s, code, lo + 1);
    }
}

/// Looks up the recorded state of `code`; a code never seen reads as never
/// pressed.
fn get_state(entries: &Vec<StateEntry>, code: u64) -> (r: ButtonState)
    ensures
        r == lookup_state(entries@, code),
{
    let mut i: usize = 0;
    loop
        invariant
            0 <= i <= entries@.len(),
            lookup_state(entries@, code) == lookup_from(entries@, code, i as int),
        ensures
            i <= entries@.len(),
            i < entries@.len() ==> lookup_state(entries@, code) == entries@[i as int].state,
            i == entries@.len() ==> lookup_state(entries@, code) == ButtonState::up_spec(),
        decreases entries@.len() - i,
    {
        if i == entries.len() {
            break ;
        }
        if entries[i].code == code {
            break ;
        }
        i += 1;
    }
    if i < entries.len() {
        entries[i].state
    } else {
        ButtonState { was_down: false, is_down: false }
    }
}

/// Records the current "down" state of `code`, keeping the previous state;
/// a code never seen starts from the never-pressed state, as an entry map
/// would insert it.
fn set_current(entries: &mut Vec<StateEntry>, code: u64, down: bool)
    requires
        codes_unique(old(entries)@),
    ensures
        codes_unique(final(entries)@),
        lookup_state(final(entries)@, code) == (ButtonState {
            was_down: lookup_state(old(entries)@, code).was_down,
            is_down: down,
        }),
        forall|c: u64|
            c != code ==> lookup_state(final(entries)@, c) == lookup_state(old(entries)@, c),
    {
    let ghost s0 = entries@;
    let mut i: usize = 0;
    loop
        invariant
            entries@ == s0,
            0 <= i <= s0.len(),
            forall|j: int| 0 <= j < i ==> s0[j].code != code,
        ensures
            entries@ == s0,
            i <= s0.len(),
            i < s0.len() ==> s0[i as int].code == code,
            forall|j: int| 0 <= j < i ==> s0[j].code != code,
        decreases s0.len() - i,
    {
        if i == entries.len() {
            break ;
        }
        if entries[i].code == code {
            break ;
        }
        i += 1;
    }
    if i < entries.len() {
        let prev = entries[i].state.was_down;
        entries[i] = StateEntry { code, state: ButtonState { was_down: prev, is_down: down } };
        proof {
            let s1 = entries@;
            assert(s1 == s0.update(i as int, s1[i as int]));
            lemma_lookup_found(s0, code, 0, i as int);
            lemma_lookup_found(s1, code, 0, i as int);
            assert forall|c: u64| c != code implies lookup_state(s1, c) == lookup_state(
                s0,
                c,
            ) by {
                if has_code(s0, c) {
                    let j = choose|j: int| 0 <= j < s0.len() && s0[j].code == c;
                    assert(forall|k: int| 0 <= k < s0.len() && k != j ==> s0[k].code != c);
                    lemma_lookup_found(s0, c, 0, j);
                    lemma_lookup_found(s1, c, 0, j);
                } else {
                    assert(forall|k: int| 0 <= k < s1.len() ==> s1[k].code != c);
                    lemma_lookup_absent(s0, c, 0);
                    lemma_lookup_absent(s1, c, 0);
                }
            }
        }
    } else {
        entries.push(StateEntry { code, state: ButtonState { was_down: false, is_down: down } });
        proof {
            let s1 = entries@;
            lemma_lookup_absent(s0, code, 0);
            lemma_lookup_found(s1, code, 0, s0.len() as int);
            assert forall|c: u64| c != code implies lookup_state(s1, c) == lookup_state(
                s0,
                c,
            ) by {
                if has_code(s0, c) {
                    let j = choose|j: int| 0 <= j < s0.len() && s0[j].code == c;
                    assert(forall|k: int| 0 <= k < s0.len() && k != j ==> s0[k].code != c);
                    lemma_lookup_found(s0, c, 0, j);
                    lemma_lookup_found(s1, c, 0, j);
                } else {
                    assert(forall|k: int| 0 <= k < s1.len() ==> s1[k].code != c);
                    lemma_lookup_absent(s0, c, 0);
                    lemma_lookup_absent(s1, c, 0);
                }
            }
        }
    }
}

/// Copies the current "down" state of every entry into its previous state,
/// opening a new frame.
fn advance_entries(entries: &mut Vec<StateEntry>)
    requires
        codes_unique(old(entries)@),
    ensures
        codes_unique(final(entries)@),
        final(entries)@.len() == old(entries)@.len(),
        forall|i: int|
            0 <= i < old(entries)@.len() ==> final(entries)@[i] == (StateEntry {
                code: old(entries)@[i].code,
                state: old(entries)@[i].state.advanced(),
            }),
        forall|c: u64|
            lookup_state(final(entries)@, c) == lookup_state(old(entries)@, c).advanced(),
{
    let ghost s0 = entries@;
    let mut i: usize = 0;
    while i < entries.len()
        invariant
            i <= entries@.len(),
            entries@.len() == s0.len(),
            forall|j: int|
                0 <= j < i ==> entries@[j] == (StateEntry {
                    code: s0[j].code,
                    state: s0[j].state.advanced(),
                }),
            forall|j: int| i <= j < s0.len() ==> entries@[j] == s0[j],
        decreases entries@.len() - i,
    {
        let cur = entries[i].state.is_down;
        let code = entries[i].code;
        entries[i] = StateEntry { code, state: ButtonState { was_down: cur, is_down: cur } };
        i += 1;
    }
    proof {
        let s1 = entries@;
        assert(codes_unique(s1));
        assert forall|c: u64|
            lookup_state(s1, c) == lookup_state(s0, c).advanced() by {
            if has_code(s0, c) {
                let j = choose|j: int| 0 <= j < s0.len() && s0[j].code == c;
                assert(forall|k: int| 0 <= k < s0.len() && k != j ==> s0[k].code != c);
                lemma_lookup_found(s0, c, 0, j);
                lemma_lookup_found(s1, c, 0, j);
            } else {
                assert(forall|k: int| 0 <= k < s1.len() ==> s1[k].code != c);
                lemma_lookup_absent(s0, c, 0);
                lemma_lookup_absent(s1, c, 0);
            }
        }
    }
}

/// The identifier following `id`, wrapping around at the end of the range.
pub open spec fn next_id(id: u32) -> u32 {
    if id == u32::MAX {
        0u32
    } else {
        (id + 1) as u32
    }
}

/// A per-frame snapshot of keyboard and mouse state (previous and current)
/// plus a queue of scheduled timer wakeups, used to let callers poll input
/// synchronously instead of handling an event stream directly.
#[derive(Debug)]
pub struct BasicInput {
    /// Stores whether a mouse button was down and is down, in that order,
    /// keyed by the numeric code of the button.
    ///
    /// If a button has not been pressed yet it has no entry and reads as
    /// never pressed.
    pub mouse: Vec<StateEntry>,

    /// Stores the previous and current "key down" states, in that order,
    /// keyed by the numeric code of the key.
    ///
    /// If a key has not been pressed yet it has no entry and reads as never
    /// pressed.
    pub keys: Vec<StateEntry>,

    /// The modifier keys that are currently being pressed.
    pub modifiers: Modifiers,

    /// Set to `true` when the window is resized outside of the caller's
    /// callback. A callback that does not update the buffer should still
    /// draw it when this is `true`.
    pub resized: bool,

    /// If this is set to `true` by the caller's callback, the callback is
    /// not called as fast as possible, but rather only when the input
    /// changes.
    pub wait: bool,

    /// All the wakeups that are scheduled to happen, kept sorted by soonest
    /// wakeup first.
    pub wakeups: Vec<Wakeup>,

    /// Indicates to the caller's callback which wakeup it should be
    /// handling, if it is being called for one.
    pub wakeup: Option<Wakeup>,

    /// The identifier the next scheduled wakeup will get. Maintained by
    /// [`BasicInput::schedule_wakeup`]; there is no reason to set it.
    pub next_wakeup_id: u32,
}

/// Holds when two snapshots record the same input state.
pub open spec fn same_snapshot(a: BasicInput, b: BasicInput) -> bool {
    &&& a.mouse@ == b.mouse@
    &&& a.keys@ == b.keys@
    &&& a.modifiers == b.modifiers
    &&& a.resized == b.resized
    &&& a.wait == b.wait
    &&& a.wakeups@ == b.wakeups@
    &&& a.wakeup == b.wakeup
    &&& a.next_wakeup_id == b.next_wakeup_id
}

/// Holds when every field of `post` other than the wakeup queue and its id
/// counter is that of `pre`.
pub open spec fn only_wakeups_changed(pre: BasicInput, post: BasicInput) -> bool {
    &&& post.mouse == pre.mouse
    &&& post.keys == pre.keys
    &&& post.modifiers == pre.modifiers
    &&& post.resized == pre.resized
    &&& post.wait == pre.wait
    &&& post.wakeup == pre.wakeup
}

/// Holds when every field of `post` other than the key map is that of `pre`.
pub open spec fn only_keys_changed(pre: BasicInput, post: BasicInput) -> bool {
    &&& post.mouse == pre.mouse
    &&& post.modifiers == pre.modifiers
    &&& post.resized == pre.resized
    &&& post.wait == pre.wait
    &&& post.wakeups == pre.wakeups
    &&& post.wakeup == pre.wakeup
    &&& post.next_wakeup_id == pre.next_wakeup_id
}

/// Holds when every field of `post` other than the mouse button map is that
/// of `pre`.
pub open spec fn only_mouse_changed(pre: BasicInput, post: BasicInput) -> bool {
    &&& post.keys == pre.keys
    &&& post.modifiers == pre.modifiers
    &&& post.resized == pre.resized
    &&& post.wait == pre.wait
    &&& post.wakeups == pre.wakeups
    &&& post.wakeup == pre.wakeup
    &&& post.next_wakeup_id == pre.next_wakeup_id
}

/// Holds when both button maps and the wakeup queue are unchanged.
pub open spec fn buttons_and_wakeups_unchanged(pre: BasicInput, post: BasicInput) -> bool {
    &&& post.mouse == pre.mouse
    &&& post.keys == pre.keys
    &&& post.wait == pre.wait
    &&& post.wakeups == pre.wakeups
    &&& post.wakeup == pre.wakeup
    &&& post.next_wakeup_id == pre.next_wakeup_id
}

impl BasicInput {
    /// Both button maps are free of duplicate codes and the wakeup queue is
    /// sorted by soonest wakeup first.
    pub open spec fn wf(&self) -> bool {
        &&& codes_unique(self.mouse@)
        &&& codes_unique(self.keys@)
        &&& wakeups_sorted(self.wakeups@)
    }

    /// The recorded state of the mouse button with code `button`.
    pub open spec fn spec_mouse_state(&self, button: u64) -> ButtonState {
        lookup_state(self.mouse@, button)
    }

    /// The recorded state of the key with code `key`.
    pub open spec fn spec_key_state(&self, key: u64) -> ButtonState {
        lookup_state(self.keys@, key)
    }

    /// Returns the snapshot before any event: no key or button seen, no
    /// modifier pressed, no wakeup scheduled.
    pub fn new() -> (r: BasicInput)
        ensures
            r.wf(),
            r.mouse@ == Seq::<StateEntry>::empty(),
            r.keys@ == Seq::<StateEntry>::empty(),
            r.modifiers == Modifiers::none_spec(),
            !r.resized,
            !r.wait,
            r.wakeups@ == Seq::<Wakeup>::empty(),
            r.wakeup is None,
            r.next_wakeup_id == 0,
    {
        BasicInput {
            mouse: Vec::new(),
            keys: Vec::new(),
            modifiers: Modifiers::none(),
            resized: false,
            wait: false,
            wakeups: Vec::new(),
            wakeup: None,
            next_wakeup_id: 0,
        }
    }

    /// If the mouse button was pressed this last frame.
    pub fn mouse_pressed(&self, button: u64) -> (r: bool)
        ensures
            r == (!self.spec_mouse_state(button).was_down && self.spec_mouse_state(
                button,
            ).is_down),
    {
        let s = get_state(&self.mouse, button);
        !s.was_down && s.is_down
    }

    /// If the mouse button is currently down.
    pub fn mouse_is_down(&self, button: u64) -> (r: bool)
        ensures
            r == self.spec_mouse_state(button).is_down,
    {
        get_state(&self.mouse, button).is_down
    }

    /// If the mouse button was released this last frame.
    pub fn mouse_released(&self, button: u64) -> (r: bool)
        ensures
            r == (self.spec_mouse_state(button).was_down && !self.spec_mouse_state(
                button,
            ).is_down),
    {
        let s = get_state(&self.mouse, button);
        s.was_down && !s.is_down
    }

    /// If the key was pressed this last frame.
    pub fn key_pressed(&self, key: u64) -> (r: bool)
        ensures
            r == (!self.spec_key_state(key).was_down && self.spec_key_state(key).is_down),
    {
        let s = get_state(&self.keys, key);
        !s.was_down && s.is_down
    }

    /// If the key is currently down.
    pub fn key_is_down(&self, key: u64) -> (r: bool)
        ensures
            r == self.spec_key_state(key).is_down,
    {
        get_state(&self.keys, key).is_down
    }

    /// If the key was released this last frame.
    pub fn key_released(&self, key: u64) -> (r: bool)
        ensures
            r == (self.spec_key_state(key).was_down && !self.spec_key_state(key).is_down),
    {
        let s = get_state(&self.keys, key);
        s.was_down && !s.is_down
    }

    /// Given a time in the future (or in the past, in which case it triggers
    /// immediately), schedules a wakeup then. Returns the identifier of the
    /// wakeup; identifiers count up and wrap around at the end of the range.
    pub fn schedule_wakeup(&mut self, when: u64) -> (id: u32)
        requires
            old(self).wf(),
        ensures
            final(self).wf(),
            id == old(self).next_wakeup_id,
            final(self).next_wakeup_id == next_id(old(self).next_wakeup_id),
            final(self).wakeups@ == old(self).wakeups@.insert(
                insert_pos(old(self).wakeups@, when),
                (Wakeup { when, id }),
            ),
            only_wakeups_changed(*old(self), *final(self)),
    {
        let id = self.next_wakeup_id;
        if self.next_wakeup_id == u32::MAX {
            self.next_wakeup_id = 0;
        } else {
            self.next_wakeup_id = self.next_wakeup_id + 1;
        }
        self.reschedule_wakeup(Wakeup { when, id });
        id
    }

    /// Queues a wakeup, keeping the queue sorted: it goes just before the
    /// first strictly later wakeup, so wakeups due at the same time keep
    /// their scheduling order. It is valid to re-queue a wakeup that has
    /// already triggered, identifier and all.
    pub fn reschedule_wakeup(&mut self, wakeup: Wakeup)
        requires
            old(self).wf(),
        ensures
            final(self).wf(),
            final(self).wakeups@ == old(self).wakeups@.insert(
                insert_pos(old(self).wakeups@, wakeup.when),
                wakeup,
            ),
            final(self).next_wakeup_id == old(self).next_wakeup_id,
            only_wakeups_changed(*old(self), *final(self)),
    {
        let at = find_insert_pos(&self.wakeups, wakeup.when);
        proof {
            lemma_insert_pos_from(self.wakeups@, wakeup.when, 0);
            lemma_insert_keeps_sorted(self.wakeups@, wakeup);
        }
        self.wakeups.insert(at, wakeup);
    }

    /// Cancels the scheduled wakeup with identifier `id`. Returns the wakeup
    /// if one is queued under that identifier, otherwise returns `None` and
    /// changes nothing.
    pub fn cancel_wakeup(&mut self, id: u32) -> (r: Option<Wakeup>)
        requires
            old(self).wf(),
        ensures
            final(self).wf(),
            final(self).next_wakeup_id == old(self).next_wakeup_id,
            only_wakeups_changed(*old(self), *final(self)),
            id_pos(old(self).wakeups@, id) >= 0 ==> r == Some(
                old(self).wakeups@[id_pos(old(self).wakeups@, id)],
            ) && final(self).wakeups@ == old(self).wakeups@.remove(
                id_pos(old(self).wakeups@, id),
            ),
            id_pos(old(self).wakeups@, id) == -1 ==> r is None && final(self).wakeups@ == old(
                self,
            ).wakeups@,
    {
        proof {
            lemma_id_pos_from(self.wakeups@, id, 0);
        }
        match find_id_index(&self.wakeups, id) {
            Some(at) => {
                proof {
                    lemma_remove_keeps_sorted(self.wakeups@, at as int);
                }
                Some(self.wakeups.remove(at))
            },
            None => None,
        }
    }

    /// Finds the scheduled wakeup with identifier `id` and moves it to
    /// trigger at `when`, re-queueing it so the queue stays sorted. Returns
    /// `true` if a wakeup was found, `false` otherwise.
    pub fn adjust_wakeup(&mut self, id: u32, when: u64) -> (r: bool)
        requires
            old(self).wf(),
        ensures
            final(self).wf(),
            final(self).next_wakeup_id == old(self).next_wakeup_id,
            only_wakeups_changed(*old(self), *final(self)),
            r == (id_pos(old(self).wakeups@, id) >= 0),
            id_pos(old(self).wakeups@, id) == -1 ==> final(self).wakeups@ == old(self).wakeups@,
            id_pos(old(self).wakeups@, id) >= 0 ==> final(self).wakeups@ == ({
                let mid = old(self).wakeups@.remove(id_pos(old(self).wakeups@, id));
                mid.insert(insert_pos(mid, when), (Wakeup { when, id }))
            }),
    {
        proof {
            lemma_id_pos_from(self.wakeups@, id, 0);
        }
        match self.cancel_wakeup(id) {
            Some(wakeup) => {
                self.reschedule_wakeup(Wakeup { when, id: wakeup.id });
                true
            },
            None => false,
        }
    }

    /// Opens a new frame: the current "down" state of every key and mouse
    /// button becomes its previous state.
    pub fn begin_frame(&mut self)
        requires
            old(self).wf(),
        ensures
            final(self).wf(),
            final(self).keys@.len() == old(self).keys@.len(),
            final(self).mouse@.len() == old(self).mouse@.len(),
            forall|i: int|
                0 <= i < old(self).keys@.len() ==> final(self).keys@[i] == (StateEntry {
                    code: old(self).keys@[i].code,
                    state: old(self).keys@[i].state.advanced(),
                }),
            forall|i: int|
                0 <= i < old(self).mouse@.len() ==> final(self).mouse@[i] == (StateEntry {
                    code: old(self).mouse@[i].code,
                    state: old(self).mouse@[i].state.advanced(),
                }),
            forall|c: u64| final(self).spec_key_state(c) == old(self).spec_key_state(c).advanced(),
            forall|c: u64|
                final(self).spec_mouse_state(c) == old(self).spec_mouse_state(c).advanced(),
            final(self).modifiers == old(self).modifiers,
            final(self).resized == old(self).resized,
            final(self).wait == old(self).wait,
            final(self).wakeups == old(self).wakeups,
            final(self).wakeup == old(self).wakeup,
            final(self).next_wakeup_id == old(self).next_wakeup_id,
    {
        advance_entries(&mut self.keys);
        advance_entries(&mut self.mouse);
    }

    /// Folds one event into the snapshot: key and mouse button events update
    /// the current "down" state, a modifiers event replaces the modifier
    /// set, and a resize sets the resized flag. Returns the new viewport
    /// size when the event is a resize, so the caller can apply it; every
    /// other event returns `None`. A close request leaves the snapshot
    /// unchanged; whether to exit on one is the event loop's decision, see
    /// [`close_requested`][crate::events::close_requested].
    pub fn apply_event(&mut self, event: &InputEvent) -> (resize: Option<(u32, u32)>)
        requires
            old(self).wf(),
        ensures
            final(self).wf(),
            resize == persist_resize(*event),
            match *event {
                InputEvent::Key { code, pressed } => {
                    &&& only_keys_changed(*old(self), *final(self))
                    &&& final(self).spec_key_state(code) == (ButtonState {
                        was_down: old(self).spec_key_state(code).was_down,
                        is_down: pressed,
                    })
                    &&& forall|c: u64|
                        c != code ==> final(self).spec_key_state(c) == old(self).spec_key_state(c)
                },
                InputEvent::MouseButton { button, pressed } => {
                    &&& only_mouse_changed(*old(self), *final(self))
                    &&& final(self).spec_mouse_state(button) == (ButtonState {
                        was_down: old(self).spec_mouse_state(button).was_down,
                        is_down: pressed,
                    })
                    &&& forall|c: u64|
                        c != button ==> final(self).spec_mouse_state(c) == old(
                            self,
                        ).spec_mouse_state(c)
                },
                InputEvent::ModifiersChanged { modifiers } => {
                    &&& buttons_and_wakeups_unchanged(*old(self), *final(self))
                    &&& final(self).modifiers == modifiers
                    &&& final(self).resized == old(self).resized
                },
                InputEvent::Resized { .. } => {
                    &&& buttons_and_wakeups_unchanged(*old(self), *final(self))
                    &&& final(self).modifiers == old(self).modifiers
                    &&& final(self).resized == true
                },
                _ => *final(self) == *old(self),
            },
    {
        let mut resize: Option<(u32, u32)> = None;
        match *event {
            InputEvent::CloseRequested => {},
            InputEvent::Key { code, pressed } => {
                set_current(&mut self.keys, code, pressed);
            },
            InputEvent::MouseButton { button, pressed } => {
                set_current(&mut self.mouse, button, pressed);
            },
            InputEvent::ModifiersChanged { modifiers } => {
                self.modifiers = modifiers;
            },
            InputEvent::Resized { width, height } => {
                resize = Some((width, height));
                self.resized = true;
            },
            InputEvent::Other => {},
        }
        resize
    }

    /// Whether the caller's callback is to be called this frame: always when
    /// `wait` is off, and otherwise only on the first frame or when the
    /// snapshot differs from the previous one.
    pub fn should_notify(&self, previous: &Option<BasicInput>) -> (r: bool)
        ensures
            r == (!self.wait || match *previous {
                Option::None => true,
                Option::Some(p) => !same_snapshot(p, *self),
            }),
    {
        if !self.wait {
            return true;
        }
        match previous {
            None => true,
            Some(p) => !(*p == *self),
        }
    }

    /// What the event loop does after the callback ran (or was skipped):
    /// exit when the callback was called and asked to stop, otherwise wait
    /// for input changes when `wait` is set, and poll when it is not. A
    /// close request also ends the loop; that is decided separately, by
    /// [`close_requested`][crate::events::close_requested].
    ///
    /// `notified` says whether the callback was called this frame;
    /// `handler_continue` is what it returned, and is ignored when it was
    /// not called.
    pub fn resolve_flow(&self, notified: bool, handler_continue: bool) -> (r: FlowCommand)
        ensures
            notified && !handler_continue ==> r == FlowCommand::Exit,
            !(notified && !handler_continue) && self.wait ==> r == FlowCommand::Wait,
            !(notified && !handler_continue) && !self.wait ==> r == FlowCommand::Poll,
    {
        if notified && !handler_continue {
            FlowCommand::Exit
        } else if self.wait {
            FlowCommand::Wait
        } else {
            FlowCommand::Poll
        }
    }
}

impl Default for BasicInput {
    /// The snapshot before any event, as [`BasicInput::new`] returns it.
    fn default() -> (r: BasicInput)
        ensures
            r.wf(),
            r.mouse@ == Seq::<StateEntry>::empty(),
            r.keys@ == Seq::<StateEntry>::empty(),
            r.modifiers == Modifiers::none_spec(),
            !r.resized,
            !r.wait,
            r.wakeups@ == Seq::<Wakeup>::empty(),
            r.wakeup is None,
            r.next_wakeup_id == 0,
    {
        BasicInput::new()
    }
}

impl Clone for BasicInput {
    /// An identical snapshot: it records the same input state as `self`.
    fn clone(&self) -> (r: Self)
        ensures
            same_snapshot(*self, r),
    {
        let r = BasicInput {
            mouse: self.mouse.clone(),
            keys: self.keys.clone(),
            modifiers: self.modifiers,
            resized: self.resized,
            wait: self.wait,
            wakeups: self.wakeups.clone(),
            wakeup: self.wakeup,
            next_wakeup_id: self.next_wakeup_id,
        };
        proof {
            assert(r.mouse@ =~= self.mouse@);
            assert(r.keys@ =~= self.keys@);
            assert(r.wakeups@ =~= self.wakeups@);
        }
        r
    }
}

impl PartialEq for BasicInput {
    /// Two snapshots are equal when they record the same input state, field
    /// for field.
    fn eq(&self, other: &Self) -> (r: bool) {
        let wakeup_eq = match (self.wakeup, other.wakeup) {
            (Option::None, Option::None) => true,
            (Option::Some(x), Option::Some(y)) => x == y,
            _ => false,
        };
        entries_eq(&self.mouse, &other.mouse) && entries_eq(&self.keys, &other.keys)
            && self.modifiers == other.modifiers && self.resized == other.resized && self.wait
            == other.wait && wakeups_eq(&self.wakeups, &other.wakeups) && wakeup_eq
            && self.next_wakeup_id == other.next_wakeup_id
    }
}

impl vstd::std_specs::cmp::PartialEqSpecImpl for BasicInput {
    open spec fn obeys_eq_spec() -> bool {
        true
    }

    open spec fn eq_spec(&self, other: &Self) -> bool {
        same_snapshot(*self, *other)
    }
}

/// Finds where a wakeup due at `when` goes in the sorted queue: just before
/// the first strictly later wakeup, or at the end.
fn find_insert_pos(wakeups: &Vec<Wakeup>, when: u64) -> (at: usize)
    ensures
        at == insert_pos(wakeups@, when),
{
    let mut at: usize = 0;
    loop
        invariant
            at <= wakeups@.len(),
            insert_pos(wakeups@, when) == insert_pos_from(wakeups@, when, at as int),
        ensures
            at == insert_pos(wakeups@, when),
        decreases wakeups@.len() - at,
    {
        if at == wakeups.len() {
            break ;
        }
        if wakeups[at].when > when {
            break ;
        }
        at += 1;
    }
    at
}

/// Finds the index of the first wakeup with identifier `id`, if any is
/// queued.
fn find_id_index(wakeups: &Vec<Wakeup>, id: u32) -> (r: Option<usize>)
    ensures
        r matches Some(at) ==> at == id_pos(wakeups@, id),
        r is None ==> id_pos(wakeups@, id) == -1,
{
    let mut at: usize = 0;
    loop
        invariant
            at <= wakeups@.len(),
            id_pos(wakeups@, id) == id_pos_from(wakeups@, id, at as int),
        ensures
            at <= wakeups@.len(),
            at < wakeups@.len() ==> at == id_pos(wakeups@, id),
            at == wakeups@.len() ==> id_pos(wakeups@, id) == -1,
        decreases wakeups@.len() - at,
    {
        if at == wakeups.len() {
            break ;
        }
        if wakeups[at].id == id {
            break ;
        }
        at += 1;
    }
    if at < wakeups.len() {
        Some(at)
    } else {
        None
    }
}

/// Compares two button maps entry for entry.
fn entries_eq(a: &Vec<StateEntry>, b: &Vec<StateEntry>) -> (r: bool)
    ensures
        r == (a@ == b@),
{
    if a.len() != b.len() {
        return false;
    }
    let mut i: usize = 0;
    while i < a.len()
        invariant
            a@.len() == b@.len(),
            i <= a@.len(),
            forall|j: int| 0 <= j < i ==> a@[j] == b@[j],
        decreases a@.len() - i,
    {
        if a[i] != b[i] {
            return false;
        }
        i += 1;
    }
    proof {
        assert(a@ =~= b@);
    }
    true
}

/// Compares two wakeup queues entry for entry.
fn wakeups_eq(a: &Vec<Wakeup>, b: &Vec<Wakeup>) -> (r: bool)
    ensures
        r == (a@ == b@),
{
    if a.len() != b.len() {
        return false;
    }
    let mut i: usize = 0;
    while i < a.len()
        invariant
            a@.len() == b@.len(),
            i <= a@.len(),
            forall|j: int| 0 <= j < i ==> a@[j] == b@[j],
        decreases a@.len() - i,
    {
        if a[i] != b[i] {
            return false;
        }
        i += 1;
    }
    proof {
        assert(a@ =~= b@);
    }
    true
}

} // verus!
