//! Widget line-up and the switching logic that decides which widget is on
//! screen.
//!
//! The controller only tracks identifiers and the displayed position; the
//! caller owns the widget objects in the same order and performs the action
//! that each method returns (show the widget at the returned position).

use vstd::prelude::*;
use crate::directory::{map_of, WidgetDirectory, lemma_map_of_single};
use crate::text::owned;

verus! {

/// Identifier of the Home Assistant sensor widget.
pub const HOMEASSISTANT_WIDGET_ID: i32 = 0;
/// Identifier of the Snapcast now-playing widget.
pub const NOW_PLAYING_WIDGET_ID: i32 = 1;
/// Identifier of the always-present clock widget.
pub const CLOCK_WIDGET_ID: i32 = 2;
/// Identifier of the daily verse widget.
pub const DAILY_VERSE_WIDGET_ID: i32 = 3;
/// Identifier of the quotes widget.
pub const QUOTES_WIDGET_ID: i32 = 4;
/// Identifier of the weather widget.
pub const WEATHER_WIDGET_ID: i32 = 5;

/// Common interface of the dashboard widgets.
pub trait Widget {
    /// Identifier of the widget (its `current-widget` value in the UI).
    fn id(&self) -> i32;

    /// Whether the widget currently wants to be shown by the auto-cycle.
    /// Inactive widgets are still reachable by manual switching.  Unless a
    /// widget says otherwise, it is always active.
    fn is_active(&self) -> (active: bool)
        default_ensures
            active,
    {
        true
    }
}

/// Which optional widget sections are configured, and whether the Home
/// Assistant token is available.
pub struct WidgetSelection {
    pub homeassistant: bool,
    pub homeassistant_token: bool,
    pub snapcast: bool,
    pub daily_verse: bool,
    pub quotes: bool,
    pub weather: bool,
}

/// `[id]` when `present`, empty otherwise.
pub open spec fn optional_id(present: bool, id: i32) -> Seq<i32> {
    if present {
        seq![id]
    } else {
        Seq::<i32>::empty()
    }
}

/// The enabled widgets, in display order: Home Assistant, now playing,
/// clock, daily verse, quotes, weather.  Home Assistant and weather need
/// the token as well as their section; the clock is always there.
pub open spec fn lineup(sel: WidgetSelection) -> Seq<i32> {
    optional_id(sel.homeassistant && sel.homeassistant_token, HOMEASSISTANT_WIDGET_ID)
        + optional_id(sel.snapcast, NOW_PLAYING_WIDGET_ID)
        + seq![CLOCK_WIDGET_ID]
        + optional_id(sel.daily_verse, DAILY_VERSE_WIDGET_ID)
        + optional_id(sel.quotes, QUOTES_WIDGET_ID)
        + optional_id(sel.weather && sel.homeassistant_token, WEATHER_WIDGET_ID)
}

/// Position reached from `cur` after `k` steps forward, wrapping around.
pub open spec fn ring(cur: int, k: int, len: int) -> int {
    (cur + k) % len
}

/// Whether position `p` may be shown: any widget when switching manually,
/// only active ones otherwise.
pub open spec fn eligible(active: Seq<bool>, active_only: bool, p: int) -> bool {
    !active_only || active[p]
}

/// `p` is the first eligible position after `cur`, looking at most one full
/// turn ahead (the last candidate being `cur` itself).
pub open spec fn is_next_stop(len: int, cur: int, active: Seq<bool>, active_only: bool, p: int) -> bool {
    exists|k: int|
        1 <= k <= len && p == #[trigger] ring(cur, k, len) && eligible(active, active_only, p)
            && forall|j: int| 1 <= j < k ==> !eligible(active, active_only, #[trigger] ring(cur, j, len))
}

/// No position within one full turn after `cur` is eligible.
pub open spec fn no_stop(len: int, cur: int, active: Seq<bool>, active_only: bool) -> bool {
    forall|k: int| 1 <= k <= len ==> !eligible(active, active_only, #[trigger] ring(cur, k, len))
}

/// Stepping `k` places in a ring without the remainder operator.
pub proof fn lemma_ring(cur: int, k: int, len: int)
    requires
        0 <= cur < len,
        0 <= k <= len,
    ensures
        ring(cur, k, len) == if cur + k < len { cur + k } else { cur + k - len },
{
    if cur + k < len {
        vstd::arithmetic::div_mod::lemma_small_mod((cur + k) as nat, len as nat);
    } else {
        vstd::arithmetic::div_mod::lemma_mod_sub_multiples_vanish(cur + k, len);
        vstd::arithmetic::div_mod::lemma_small_mod((cur + k - len) as nat, len as nat);
    }
}

/// The name under which a widget is addressed by the remote control.
pub open spec fn widget_name_of(id: i32) -> Seq<char> {
    if id == HOMEASSISTANT_WIDGET_ID {
        "homeassistant"@
    } else if id == NOW_PLAYING_WIDGET_ID {
        "snapcast"@
    } else if id == CLOCK_WIDGET_ID {
        "clock"@
    } else if id == DAILY_VERSE_WIDGET_ID {
        "dailyverse"@
    } else if id == QUOTES_WIDGET_ID {
        "quotes"@
    } else if id == WEATHER_WIDGET_ID {
        "weather"@
    } else {
        ""@
    }
}

/// The remote-control name of the widget with identifier `id`.
pub fn widget_name(id: i32) -> (name: &'static str)
    ensures
        name@ == widget_name_of(id),
{
    if id == HOMEASSISTANT_WIDGET_ID {
        "homeassistant"
    } else if id == NOW_PLAYING_WIDGET_ID {
        "snapcast"
    } else if id == CLOCK_WIDGET_ID {
        "clock"
    } else if id == DAILY_VERSE_WIDGET_ID {
        "dailyverse"
    } else if id == QUOTES_WIDGET_ID {
        "quotes"
    } else if id == WEATHER_WIDGET_ID {
        "weather"
    } else {
        ""
    }
}

/// Directory entries for a list of widget identifiers.
pub open spec fn name_entries(ids: Seq<i32>) -> Seq<(Seq<char>, i32)> {
    ids.map_values(|id: i32| (widget_name_of(id), id))
}

/// Different widgets have different names.
pub proof fn lemma_widget_names_distinct(a: i32, b: i32)
    requires
        0 <= a <= 5,
        0 <= b <= 5,
        a != b,
    ensures
        widget_name_of(a) != widget_name_of(b),
{
    reveal_strlit("homeassistant");
    reveal_strlit("snapcast");
    reveal_strlit("clock");
    reveal_strlit("dailyverse");
    reveal_strlit("quotes");
    reveal_strlit("weather");
    assert(widget_name_of(a).len() != widget_name_of(b).len());
}

/// Owns the widget order and the position currently displayed.
pub struct WidgetController {
    ids: Vec<i32>,
    current: usize,
}

impl WidgetController {
    /// At least one widget, and the displayed position is one of them.
    #[verifier::type_invariant]
    spec fn inv(self) -> bool {
        self.ids@.len() > 0 && self.current < self.ids@.len()
    }

    /// Identifiers of the enabled widgets, in order.
    pub closed spec fn ids(self) -> Seq<i32> {
        self.ids@
    }

    /// Position of the displayed widget.
    pub closed spec fn pos(self) -> int {
        self.current as int
    }

    /// At least one widget, and the displayed position is one of them:
    /// every controller satisfies this.
    pub open spec fn wf(self) -> bool {
        self.ids().len() > 0 && 0 <= self.pos() < self.ids().len()
    }

    /// Set the initial widget: the first one.  Returns the identifier to
    /// display; the caller then initialises every widget.
    pub fn init_all(&mut self) -> (id: i32)
        ensures
            final(self).wf(),
            final(self).ids() == old(self).ids(),
            final(self).pos() == 0,
            id == old(self).ids()[0],
    {
        proof {
            use_type_invariant(&*self);
        }
        self.current = 0;
        self.ids[0]
    }

    /// Number of enabled widgets.
    pub fn len(&self) -> (n: usize)
        ensures
            n == self.ids().len(),
            self.wf(),
    {
        proof {
            use_type_invariant(self);
        }
        self.ids.len()
    }

    /// Identifier of the widget at position `pos`.
    pub fn id_at(&self, pos: usize) -> (id: i32)
        requires
            pos < self.ids().len(),
        ensures
            id == self.ids()[pos as int],
    {
        self.ids[pos]
    }

    /// Identifier of the displayed widget.
    pub fn current_id(&self) -> (id: i32)
        ensures
            self.wf(),
            id == self.ids()[self.pos()],
    {
        proof {
            use_type_invariant(self);
        }
        self.ids[self.current]
    }

    /// Position of the displayed widget.
    pub fn current_position(&self) -> (p: usize)
        ensures
            p == self.pos(),
    {
        self.current
    }

    /// The remote-control names of the enabled widgets, mapped to their
    /// identifiers.
    pub fn widget_name_map(&self) -> (d: WidgetDirectory)
        ensures
            d@ == map_of(name_entries(self.ids())),
    {
        let mut d = WidgetDirectory::new();
        let mut i: usize = 0;
        while i < self.ids.len()
            invariant
                i <= self.ids@.len(),
                d@ == map_of(name_entries(self.ids@.take(i as int))),
            decreases self.ids@.len() - i,
        {
            let id = self.ids[i];
            d.insert(owned(widget_name(id)), id);
            proof {
                let t = name_entries(self.ids@.take(i + 1));
                assert(t.drop_last() =~= name_entries(self.ids@.take(i as int)));
                assert(t.last() == (widget_name_of(id), id));
            }
            i = i + 1;
        }
        assert(self.ids@.take(self.ids@.len() as int) =~= self.ids@);
        d
    }

    /// Make position `pos` the displayed one and return its identifier.
    fn show(&mut self, pos: usize) -> (id: i32)
        requires
            pos < old(self).ids().len(),
        ensures
            final(self).wf(),
            final(self).ids() == old(self).ids(),
            final(self).pos() == pos,
            id == old(self).ids()[pos as int],
    {
        proof {
            use_type_invariant(&*self);
        }
        self.current = pos;
        self.ids[pos]
    }

    /// Switch directly to the widget with identifier `id`, if it is enabled.
    /// Returns the position now displayed, or `None` (nothing changes) when
    /// no enabled widget has that identifier.
    pub fn switch_to(&mut self, id: i32) -> (r: Option<usize>)
        ensures
            final(self).wf(),
            final(self).ids() == old(self).ids(),
            match r {
                Some(p) => {
                    &&& p < old(self).ids().len()
                    &&& old(self).ids()[p as int] == id
                    &&& forall|q: int| 0 <= q < p ==> old(self).ids()[q] != id
                    &&& final(self).pos() == p
                },
                None => {
                    &&& !old(self).ids().contains(id)
                    &&& final(self).pos() == old(self).pos()
                },
            },
    {
        proof {
            use_type_invariant(&*self);
        }
        let len = self.ids.len();
        let mut i: usize = 0;
        while i < len
            invariant
                len == self.ids@.len(),
                self.wf(),
                self.ids() == old(self).ids(),
                self.pos() == old(self).pos(),
                i <= len,
                forall|q: int| 0 <= q < i ==> self.ids@[q] != id,
            decreases len - i,
        {
            if self.ids[i] == id {
                self.show(i);
                return Some(i);
            }
            i = i + 1;
        }
        None
    }

    /// Advance to the next widget, wrapping around.  With `active_only`
    /// only widgets marked active in `active` (one flag per position) are
    /// candidates; otherwise every enabled widget is.  Returns the position
    /// now displayed, or `None` (nothing changes) when no candidate exists.
    pub fn advance(&mut self, active: &Vec<bool>, active_only: bool) -> (r: Option<usize>)
        requires
            active@.len() == old(self).ids().len(),
        ensures
            final(self).wf(),
            final(self).ids() == old(self).ids(),
            match r {
                Some(p) => {
                    &&& final(self).pos() == p
                    &&& is_next_stop(
                        old(self).ids().len() as int,
                        old(self).pos(),
                        active@,
                        active_only,
                        p as int,
                    )
                },
                None => {
                    &&& final(self).pos() == old(self).pos()
                    &&& no_stop(old(self).ids().len() as int, old(self).pos(), active@, active_only)
                },
            },
            !active_only ==> r == Some(
                ring(old(self).pos(), 1, old(self).ids().len() as int) as usize,
            ),
    {
        proof {
            use_type_invariant(&*self);
        }
        let len = self.ids.len();
        let cur = self.current;
        let mut k: usize = 0;
        while k < len
            invariant
                len == self.ids@.len(),
                len == active@.len(),
                cur == self.current,
                self.wf(),
                self.ids() == old(self).ids(),
                self.pos() == old(self).pos(),
                k <= len,
                !active_only ==> k == 0,
                forall|j: int|
                    1 <= j <= k ==> !eligible(active@, active_only, #[trigger] ring(cur as int, j, len as int)),
            decreases len - k,
        {
            let step = k + 1;
            let pos = if step < len - cur {
                cur + step
            } else {
                step - (len - cur)
            };
            proof {
                lemma_ring(cur as int, step as int, len as int);
            }
            if !active_only || active[pos] {
                self.show(pos);
                assert(is_next_stop(len as int, cur as int, active@, active_only, pos as int));
                return Some(pos);
            }
            k = step;
        }
        None
    }

    /// If the displayed widget is not active, advance to the next active
    /// one.  Returns the position now displayed when it changed.
    pub fn deactivate_current(&mut self, active: &Vec<bool>) -> (r: Option<usize>)
        requires
            active@.len() == old(self).ids().len(),
        ensures
            final(self).wf(),
            final(self).ids() == old(self).ids(),
            active@[old(self).pos()] ==> r is None && final(self).pos() == old(self).pos(),
            !active@[old(self).pos()] ==> match r {
                Some(p) => {
                    &&& final(self).pos() == p
                    &&& is_next_stop(old(self).ids().len() as int, old(self).pos(), active@, true, p as int)
                },
                None => {
                    &&& final(self).pos() == old(self).pos()
                    &&& no_stop(old(self).ids().len() as int, old(self).pos(), active@, true)
                },
            },
    {
        proof {
            use_type_invariant(&*self);
        }
        if !active[self.current] {
            self.advance(active, true)
        } else {
            None
        }
    }
}

/// Two positions that both satisfy `is_next_stop` are the same: the
/// contract of `advance` determines the widget it switches to.
pub proof fn lemma_next_stop_unique(
    len: int,
    cur: int,
    active: Seq<bool>,
    active_only: bool,
    p: int,
    q: int,
)
    requires
        0 <= cur < len,
        is_next_stop(len, cur, active, active_only, p),
        is_next_stop(len, cur, active, active_only, q),
    ensures
        p == q,
{
    let kp = choose|k: int|
        1 <= k <= len && p == #[trigger] ring(cur, k, len) && eligible(active, active_only, p)
            && forall|j: int| 1 <= j < k ==> !eligible(active, active_only, #[trigger] ring(cur, j, len));
    let kq = choose|k: int|
        1 <= k <= len && q == #[trigger] ring(cur, k, len) && eligible(active, active_only, q)
            && forall|j: int| 1 <= j < k ==> !eligible(active, active_only, #[trigger] ring(cur, j, len));
    if kp < kq {
        assert(!eligible(active, active_only, ring(cur, kp, len)));
    } else if kq < kp {
        assert(!eligible(active, active_only, ring(cur, kq, len)));
    }
}

/// Pressing TAB `n + 1` times lands one place after pressing it `n` times:
/// the position after `n` manual switches is `ring(cur, n, len)`.
pub proof fn lemma_manual_switch_steps(cur: int, n: int, len: int)
    requires
        0 <= cur < len,
        0 <= n,
    ensures
        0 <= ring(cur, n, len) < len,
        ring(ring(cur, n, len), 1, len) == ring(cur, n + 1, len),
{
    vstd::arithmetic::div_mod::lemma_mod_bound(cur + n, len);
    vstd::arithmetic::div_mod::lemma_add_mod_noop(cur + n, 1, len);
    if len == 1 {
        vstd::arithmetic::div_mod::lemma_mod_bound(ring(cur, n, len) + 1, 1);
        vstd::arithmetic::div_mod::lemma_mod_bound(cur + n + 1, 1);
    } else {
        vstd::arithmetic::div_mod::lemma_small_mod(1, len as nat);
    }
}

/// Manual switching visits every enabled widget: whatever the start and
/// the target, the target is reached within one full turn.
pub proof fn lemma_manual_cycle_reaches_every_widget(cur: int, target: int, len: int)
    requires
        0 <= cur < len,
        0 <= target < len,
    ensures
        exists|n: int| 1 <= n <= len && #[trigger] ring(cur, n, len) == target,
{
    let n = if cur < target { target - cur } else { target - cur + len };
    lemma_ring(cur, n, len);
    assert(ring(cur, n, len) == target);
}

/// A full turn of manual switching comes back to the starting widget.
pub proof fn lemma_full_turn_returns(cur: int, len: int)
    requires
        0 <= cur < len,
    ensures
        ring(cur, len, len) == cur,
{
    lemma_ring(cur, len, len);
}

/// Position `p` is reached by some press within one full turn from `cur`.
pub open spec fn reached_in_one_turn(cur: int, len: int, p: int) -> bool {
    exists|n: int| 1 <= n <= len && #[trigger] ring(cur, n, len) == p
}

/// One full turn of manual switching (`len` presses of TAB from position
/// `cur`) visits every enabled widget exactly once and ends where it
/// started: the positions after presses `1..=len` are pairwise different,
/// each position is among them, and the last one is `cur`.
pub proof fn lemma_manual_full_turn_visits_each_once(cur: int, len: int)
    requires
        0 <= cur < len,
    ensures
        forall|n1: int, n2: int|
            1 <= n1 <= len && 1 <= n2 <= len && n1 != n2 ==> #[trigger] ring(cur, n1, len)
                != #[trigger] ring(cur, n2, len),
        forall|p: int| 0 <= p < len ==> #[trigger] reached_in_one_turn(cur, len, p),
        ring(cur, len, len) == cur,
{
    assert forall|n1: int, n2: int|
        1 <= n1 <= len && 1 <= n2 <= len && n1 != n2 implies #[trigger] ring(cur, n1, len)
        != #[trigger] ring(cur, n2, len) by {
        lemma_ring(cur, n1, len);
        lemma_ring(cur, n2, len);
    }
    assert forall|p: int| 0 <= p < len implies #[trigger] reached_in_one_turn(cur, len, p) by {
        lemma_manual_cycle_reaches_every_widget(cur, p, len);
    }
    lemma_full_turn_returns(cur, len);
}

/// The auto-cycle stays on the displayed widget when it is the only active
/// one.
pub proof fn lemma_auto_cycle_keeps_sole_active(len: int, cur: int, active: Seq<bool>)
    requires
        0 <= cur < len,
        active.len() == len,
        active[cur],
        forall|p: int| 0 <= p < len && p != cur ==> !active[p],
    ensures
        is_next_stop(len, cur, active, true, cur),
{
    assert forall|j: int| 1 <= j < len implies !eligible(active, true, #[trigger] ring(cur, j, len)) by {
        lemma_ring(cur, j, len);
    }
    lemma_ring(cur, len, len);
    assert(ring(cur, len, len) == cur);
}

/// The clock is always enabled, so the line-up is never empty.
pub proof fn lemma_lineup_has_clock(sel: WidgetSelection)
    ensures
        lineup(sel).len() > 0,
        lineup(sel).contains(CLOCK_WIDGET_ID),
{
    let s = lineup(sel);
    let i = (optional_id(sel.homeassistant && sel.homeassistant_token, HOMEASSISTANT_WIDGET_ID).len()
        + optional_id(sel.snapcast, NOW_PLAYING_WIDGET_ID).len()) as int;
    assert(s[i] == CLOCK_WIDGET_ID);
}

/// The line-up lists each widget at most once, in increasing identifier
/// order.
pub proof fn lemma_lineup_ascending(sel: WidgetSelection)
    ensures
        forall|i: int, j: int| 0 <= i < j < lineup(sel).len() ==> lineup(sel)[i] < lineup(sel)[j],
{
    let s = lineup(sel);
    assert forall|i: int, j: int| 0 <= i < j < s.len() implies s[i] < s[j] by {
        assert(forall|k: int| 0 <= k < s.len() ==> 0 <= #[trigger] s[k] <= 5);
    }
}

/// An optional widget is enabled exactly when its section is configured
/// (and, for Home Assistant and weather, when the token is available).
pub proof fn lemma_lineup_membership(sel: WidgetSelection)
    ensures
        lineup(sel).contains(HOMEASSISTANT_WIDGET_ID) <==> sel.homeassistant && sel.homeassistant_token,
        lineup(sel).contains(NOW_PLAYING_WIDGET_ID) <==> sel.snapcast,
        lineup(sel).contains(DAILY_VERSE_WIDGET_ID) <==> sel.daily_verse,
        lineup(sel).contains(QUOTES_WIDGET_ID) <==> sel.quotes,
        lineup(sel).contains(WEATHER_WIDGET_ID) <==> sel.weather && sel.homeassistant_token,
{
    let s = lineup(sel);
    lemma_lineup_has_clock(sel);
    lemma_lineup_ascending(sel);
    let a = optional_id(sel.homeassistant && sel.homeassistant_token, HOMEASSISTANT_WIDGET_ID);
    let b = optional_id(sel.snapcast, NOW_PLAYING_WIDGET_ID);
    let d = optional_id(sel.daily_verse, DAILY_VERSE_WIDGET_ID);
    let e = optional_id(sel.quotes, QUOTES_WIDGET_ID);
    let f = optional_id(sel.weather && sel.homeassistant_token, WEATHER_WIDGET_ID);
    let ab = (a.len() + b.len()) as int;
    if sel.homeassistant && sel.homeassistant_token {
        assert(s[0] == HOMEASSISTANT_WIDGET_ID);
    }
    if sel.snapcast {
        assert(s[a.len() as int] == NOW_PLAYING_WIDGET_ID);
    }
    if sel.daily_verse {
        assert(s[ab + 1] == DAILY_VERSE_WIDGET_ID);
    }
    if sel.quotes {
        assert(s[ab + 1 + d.len() as int] == QUOTES_WIDGET_ID);
    }
    if sel.weather && sel.homeassistant_token {
        assert(s[ab + 1 + d.len() + e.len() as int] == WEATHER_WIDGET_ID);
    }
}

/// In the name map of a configured dashboard, every enabled widget's name
/// leads to that widget.
pub proof fn lemma_name_map_finds_enabled(sel: WidgetSelection, i: int)
    requires
        0 <= i < lineup(sel).len(),
    ensures
        map_of(name_entries(lineup(sel))).dom().contains(widget_name_of(lineup(sel)[i])),
        map_of(name_entries(lineup(sel)))[widget_name_of(lineup(sel)[i])] == lineup(sel)[i],
{
    let s = lineup(sel);
    let e = name_entries(s);
    lemma_lineup_ascending(sel);
    assert(forall|k: int| 0 <= k < s.len() ==> 0 <= #[trigger] s[k] <= 5);
    assert forall|j: int| 0 <= j < e.len() && j != i implies (#[trigger] e[j]).0 != e[i].0 by {
        lemma_widget_names_distinct(s[j], s[i]);
    }
    lemma_map_of_single(e, i);
}

/// Build the controller for the enabled widgets, starting on the first one.
pub fn create_widgets(sel: &WidgetSelection) -> (c: WidgetController)
    ensures
        c.wf(),
        c.ids() == lineup(*sel),
        c.pos() == 0,
{
    let mut ids: Vec<i32> = Vec::new();
    if sel.homeassistant && sel.homeassistant_token {
        ids.push(HOMEASSISTANT_WIDGET_ID);
    }
    if sel.snapcast {
        ids.push(NOW_PLAYING_WIDGET_ID);
    }
    ids.push(CLOCK_WIDGET_ID);
    if sel.daily_verse {
        ids.push(DAILY_VERSE_WIDGET_ID);
    }
    if sel.quotes {
        ids.push(QUOTES_WIDGET_ID);
    }
    if sel.weather && sel.homeassistant_token {
        ids.push(WEATHER_WIDGET_ID);
    }
    assert(ids@ =~= lineup(*sel));
    WidgetController { ids, current: 0 }
}

} // verus!
