//! The game-event browsing tool: a filterable list over the session's
//! extracted game events, each carrying its originating frame and message
//! for cross-linking, with a key/value detail view of the active event.

use crate::events::{Event, Filters};
use crate::navigator::{
    all_enabled, display_of, first_active, last_active, lemma_display_prefix_props, next_active,
    prev_active, FilteredListNavigator,
};
use vstd::prelude::*;

verus! {

/// The wire type of one game-event key.
#[derive(Clone, Copy, Debug, PartialEq, Eq, Structural)]
pub enum GameEventKeyKind {
    KeyBool,
    KeyByte,
    KeyShort,
    KeyLong,
    KeyFloat,
    KeyString,
}

/// One key of a game event, its value already rendered as text.
pub struct GameEventKey {
    pub kind: GameEventKeyKind,
    pub name: String,
    pub value: String,
}

impl GameEventKey {
    /// An equal copy.
    pub fn duplicate(&self) -> (r: Self)
        ensures
            r == *self,
    {
        GameEventKey { kind: self.kind, name: self.name.clone(), value: self.value.clone() }
    }
}

/// An elementwise copy of a key list.
#[verifier::loop_isolation(false)]
pub fn clone_keys(v: &Vec<GameEventKey>) -> (r: Vec<GameEventKey>)
    ensures
        r@ == v@,
{
    let mut r: Vec<GameEventKey> = Vec::new();
    let n = v.len();
    let mut i: usize = 0;
    while i < n
        invariant
            0 <= i <= n,
            r@ =~= v@.subrange(0, i as int),
        decreases n - i,
    {
        r.push(v[i].duplicate());
        proof {
            assert(r@ =~= v@.subrange(0, i + 1));
        }
        i += 1;
    }
    proof {
        assert(v@.subrange(0, n as int) =~= v@);
    }
    r
}

/// One game event as the viewer holds it, with back-references to the
/// frame and network message it came from.
pub struct GameEventRecord {
    pub event_id: u64,
    pub event_name: String,
    pub event_tick: i64,
    pub frame_index: usize,
    pub message_index: usize,
    pub keys: Vec<GameEventKey>,
}

/// The key/value detail view of one game event.
pub struct GameEventKeysViewModel {
    pub keys: Vec<GameEventKey>,
}

impl GameEventKeysViewModel {
    pub fn new(keys: Vec<GameEventKey>) -> (vm: Self)
        ensures
            vm.keys@ == keys@,
    {
        GameEventKeysViewModel { keys }
    }
}

/// What the navigator items of the event list must be: every event is
/// displayable under its event-type identifier.
pub open spec fn nav_matches_events(
    items: Seq<Option<u64>>,
    records: Seq<GameEventRecord>,
) -> bool {
    &&& items.len() == records.len()
    &&& forall|i: int|
        #![trigger items[i]]
        0 <= i < records.len() ==> items[i] == Option::Some(records[i].event_id)
}

/// The game-events tool: the filterable event list plus the detail view of
/// the active event.
pub struct GameEventsToolViewModel {
    pub records: Vec<GameEventRecord>,
    pub nav: FilteredListNavigator,
    pub vm_active_keys: Option<GameEventKeysViewModel>,
}

impl GameEventsToolViewModel {
    /// The navigator mirrors the events; the detail view exists exactly
    /// when an event is selected and shows that event's keys.
    pub open spec fn wf(self) -> bool {
        &&& self.nav.wf()
        &&& nav_matches_events(self.nav.items@, self.records@)
        &&& self.vm_active_keys is Some <==> self.nav.active is Some
        &&& self.nav.active is Some ==> self.vm_active_keys->0.keys@ == self.records@[self.nav.active->0 as int].keys@
    }

    /// Build the tool over the session's game events: every event
    /// displayable under its type, all types enabled, nothing selected.
    #[verifier::loop_isolation(false)]
    pub fn new(game_events_vec: Vec<GameEventRecord>) -> (vm: Self)
        ensures
            vm.wf(),
            vm.records@ == game_events_vec@,
            vm.nav.active is None,
            vm.nav.display@.len() == game_events_vec@.len(),
            vm.nav.filters@ == crate::navigator::entries_of(
                vm.nav.items@,
                game_events_vec@.map_values(|r: GameEventRecord| r.event_name),
            ),
            forall|j: int|
                0 <= j < vm.nav.filters@.len() ==> #[trigger] vm.nav.filters@[j].enabled,
            !vm.nav.scroll_pending,
    {
        let n = game_events_vec.len();
        let mut items: Vec<Option<u64>> = Vec::new();
        let mut labels: Vec<String> = Vec::new();
        let mut i: usize = 0;
        while i < n
            invariant
                0 <= i <= n,
                items@.len() == i,
                labels@.len() == i,
                forall|k: int|
                    #![trigger items@[k]]
                    0 <= k < i ==> items@[k] == Option::Some(game_events_vec@[k].event_id),
                forall|k: int|
                    #![trigger labels@[k]]
                    0 <= k < i ==> labels@[k] == game_events_vec@[k].event_name,
            decreases n - i,
        {
            items.push(Option::Some(game_events_vec[i].event_id));
            labels.push(game_events_vec[i].event_name.clone());
            i += 1;
        }
        let ghost items0 = items@;
        let ghost labels0 = labels@;
        let nav = FilteredListNavigator::build(items, labels);
        proof {
            assert(labels0 =~= game_events_vec@.map_values(|r: GameEventRecord| r.event_name));
            crate::navigator::lemma_entries_prefix_props(
                nav.items@,
                labels0,
                nav.items@.len() as int,
            );
            assert forall|k: int|
                0 <= k < nav.items@.len() implies crate::navigator::shown(
                nav.items@,
                nav.filters@,
                k,
            ) by {
                assert(nav.items@[k] == Option::Some(game_events_vec@[k].event_id));
                assert(crate::navigator::has_entry(nav.filters@, nav.items@[k]->0));
                let j = choose|j: int|
                    0 <= j < nav.filters@.len() && nav.filters@[j].disc == game_events_vec@[k].event_id;
                assert(nav.filters@[j].enabled);
            }
            crate::navigator::lemma_display_all_shown(
                nav.items@,
                nav.filters@,
                nav.items@.len() as int,
            );
        }
        GameEventsToolViewModel { records: game_events_vec, nav, vm_active_keys: Option::None }
    }

    /// Rebuild the detail view for the active event.
    fn refresh_detail(&mut self)
        requires
            old(self).nav.wf(),
            nav_matches_events(old(self).nav.items@, old(self).records@),
        ensures
            final(self).nav == old(self).nav,
            final(self).records@ == old(self).records@,
            final(self).wf(),
    {
        match self.nav.active_index() {
            Option::Some(a) => {
                proof {
                    lemma_display_prefix_props(
                        self.nav.items@,
                        self.nav.filters@,
                        self.nav.items@.len() as int,
                    );
                    assert(self.nav.display@.contains(a));
                    let k = choose|k: int|
                        0 <= k < self.nav.display@.len() && self.nav.display@[k] == a;
                    assert(self.nav.display@[k] < self.nav.items@.len());
                }
                let keys = clone_keys(&self.records[a].keys);
                self.vm_active_keys = Option::Some(GameEventKeysViewModel::new(keys));
            },
            Option::None => {
                self.vm_active_keys = Option::None;
            },
        }
    }

    /// Select the event at an absolute index; fails, changing nothing,
    /// when the index is out of bounds.  An event the current filter hides
    /// is reached by first resetting the filter.
    pub fn set_active_index(&mut self, index: usize) -> (ok: bool)
        requires
            old(self).wf(),
        ensures
            final(self).wf(),
            final(self).records@ == old(self).records@,
            ok == (index < old(self).records@.len()),
            ok ==> final(self).nav.active == Option::Some(index) && final(self).nav.scroll_pending,
            ok && crate::navigator::shown(old(self).nav.items@, old(self).nav.filters@, index as int)
                ==> final(self).nav.filters == old(self).nav.filters && final(self).nav.display
                == old(self).nav.display,
            ok && !crate::navigator::shown(
                old(self).nav.items@,
                old(self).nav.filters@,
                index as int,
            ) ==> final(self).nav.filters@ == all_enabled(old(self).nav.filters@),
            !ok ==> *final(self) == *old(self),
    {
        let ok = self.nav.select(index);
        if ok {
            self.refresh_detail();
        }
        ok
    }

    /// Select the first displayed event.
    pub fn first_message(&mut self) -> (selected: bool)
        requires
            old(self).wf(),
        ensures
            final(self).wf(),
            final(self).records@ == old(self).records@,
            final(self).nav.display == old(self).nav.display,
            final(self).nav.filters == old(self).nav.filters,
            final(self).nav.active == first_active(old(self).nav.display@),
            selected == (old(self).nav.display@.len() > 0),
            final(self).nav.scroll_pending == (old(self).nav.scroll_pending || selected),
    {
        let selected = self.nav.first();
        self.refresh_detail();
        selected
    }

    /// Select the last displayed event.
    pub fn last_message(&mut self) -> (selected: bool)
        requires
            old(self).wf(),
        ensures
            final(self).wf(),
            final(self).records@ == old(self).records@,
            final(self).nav.display == old(self).nav.display,
            final(self).nav.filters == old(self).nav.filters,
            final(self).nav.active == last_active(old(self).nav.display@),
            selected == (old(self).nav.display@.len() > 0),
            final(self).nav.scroll_pending == (old(self).nav.scroll_pending || selected),
    {
        let selected = self.nav.last();
        self.refresh_detail();
        selected
    }

    /// Move the selection to the next displayed event (the first, when
    /// nothing is selected); saturates at the end.
    pub fn next_message(&mut self) -> (moved: bool)
        requires
            old(self).wf(),
        ensures
            final(self).wf(),
            final(self).records@ == old(self).records@,
            final(self).nav.display == old(self).nav.display,
            final(self).nav.filters == old(self).nav.filters,
            final(self).nav.active == next_active(old(self).nav.display@, old(self).nav.active),
            moved == (final(self).nav.active != old(self).nav.active),
            final(self).nav.scroll_pending == (old(self).nav.scroll_pending || moved),
    {
        let moved = self.nav.next();
        if moved {
            self.refresh_detail();
        }
        moved
    }

    /// Move the selection to the previous displayed event (the first, when
    /// nothing is selected); saturates at the start.
    pub fn prev_message(&mut self) -> (moved: bool)
        requires
            old(self).wf(),
        ensures
            final(self).wf(),
            final(self).records@ == old(self).records@,
            final(self).nav.display == old(self).nav.display,
            final(self).nav.filters == old(self).nav.filters,
            final(self).nav.active == prev_active(old(self).nav.display@, old(self).nav.active),
            moved == (final(self).nav.active != old(self).nav.active),
            final(self).nav.scroll_pending == (old(self).nav.scroll_pending || moved),
    {
        let moved = self.nav.prev();
        if moved {
            self.refresh_detail();
        }
        moved
    }

    /// Apply one keyboard motion to the selection.
    pub fn move_selection(&mut self, motion: crate::events::NavMotion)
        requires
            old(self).wf(),
        ensures
            final(self).wf(),
            final(self).records@ == old(self).records@,
            final(self).nav.display == old(self).nav.display,
            final(self).nav.filters == old(self).nav.filters,
            final(self).nav.active == crate::navigator::motion_result(
                motion,
                old(self).nav.display@,
                old(self).nav.active,
            ),
    {
        match motion {
            crate::events::NavMotion::MoveFirst => {
                let _ = self.first_message();
            },
            crate::events::NavMotion::MoveLast => {
                let _ = self.last_message();
            },
            crate::events::NavMotion::MoveNext => {
                let _ = self.next_message();
            },
            crate::events::NavMotion::MovePrev => {
                let _ = self.prev_message();
            },
        }
    }

    /// Reset the event-type filter so every event is displayed again.
    pub fn clear_filter(&mut self)
        requires
            old(self).wf(),
        ensures
            final(self).wf(),
            final(self).records@ == old(self).records@,
            final(self).nav.filters@ == all_enabled(old(self).nav.filters@),
            final(self).nav.display@ == display_of(
                old(self).nav.items@,
                all_enabled(old(self).nav.filters@),
            ),
            final(self).nav.active == old(self).nav.active,
    {
        self.nav.clear_filters();
    }

    /// Consume a select-game-event or clear-this-filter event; decline the
    /// rest.
    pub fn handle_event(&mut self, event: &Event) -> (consumed: bool)
        requires
            old(self).wf(),
        ensures
            final(self).wf(),
            final(self).records@ == old(self).records@,
            !consumed ==> *final(self) == *old(self),
            match *event {
                Event::SelectGameEvent(index) => consumed == (index < old(self).records@.len())
                    && (consumed ==> final(self).nav.active == Option::Some(index)),
                Event::ClearFilter(f) => consumed == (f is GameEvents) && (consumed
                    ==> final(self).nav.filters@ == all_enabled(old(self).nav.filters@)
                    && final(self).nav.active == old(self).nav.active),
                _ => !consumed && *final(self) == *old(self),
            },
    {
        match event {
            Event::SelectGameEvent(index) => self.set_active_index(*index),
            Event::ClearFilter(f) => {
                match f {
                    Filters::GameEvents => {
                        self.clear_filter();
                        true
                    },
                    _ => false,
                }
            },
            _ => false,
        }
    }
}

} // verus!
