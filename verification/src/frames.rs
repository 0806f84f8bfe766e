//! The frame-browsing tools: the navigable frame list with its
//! command-kind filter, the per-frame cross-link tables that map a packet's
//! network messages to their global user-message and game-event indices,
//! and the tool that keeps the detail panes (packet data, data tables) in
//! step with the active frame.

use crate::data_tables::{DataTablesInfo, DataTablesViewModel};
use crate::events::{Event, FramesToolId};
use crate::messages::{MessageBody, MessageRecord};
use crate::navigator::{
    all_enabled, entries_of, first_active, last_active, next_active, prev_active, shown,
    FilteredListNavigator,
};
use crate::packet::{pd_matches, PacketDataViewModel, PacketInfo};
use vstd::prelude::*;

verus! {

/// What one frame carries besides its tick.
pub enum FramePayload {
    Packet(PacketInfo),
    DataTables(DataTablesInfo),
    Empty,
}

/// One frame of the session timeline.
pub struct FrameInfo {
    pub tick: i64,
    pub player_slot: i64,
    pub command_id: u8,
    pub command_label: String,
    pub payload: FramePayload,
}

/// The network messages of a frame (empty for frames without a packet
/// payload).
pub open spec fn frame_msgs(f: FrameInfo) -> Seq<MessageRecord> {
    match f.payload {
        FramePayload::Packet(pd) => pd.network_messages@,
        _ => Seq::empty(),
    }
}

/// A parsed message that carries a user message.
pub open spec fn is_user_msg(r: MessageRecord) -> bool {
    r.parsed && r.body is UserMessage
}

/// A parsed message that carries a game event.
pub open spec fn is_game_event_msg(r: MessageRecord) -> bool {
    r.parsed && r.body is GameEvent
}

/// How many of the first `m` messages carry a user message.
pub open spec fn um_count_msgs(msgs: Seq<MessageRecord>, m: int) -> int
    decreases m,
{
    if m <= 0 {
        0
    } else {
        um_count_msgs(msgs, m - 1) + (if is_user_msg(msgs[m - 1]) {
            1int
        } else {
            0int
        })
    }
}

/// How many of the first `m` messages carry a game event.
pub open spec fn ge_count_msgs(msgs: Seq<MessageRecord>, m: int) -> int
    decreases m,
{
    if m <= 0 {
        0
    } else {
        ge_count_msgs(msgs, m - 1) + (if is_game_event_msg(msgs[m - 1]) {
            1int
        } else {
            0int
        })
    }
}

/// How many user messages the first `k` frames carry in all.
pub open spec fn um_count_frames(frames: Seq<FrameInfo>, k: int) -> int
    decreases k,
{
    if k <= 0 {
        0
    } else {
        um_count_frames(frames, k - 1) + um_count_msgs(
            frame_msgs(frames[k - 1]),
            frame_msgs(frames[k - 1]).len() as int,
        )
    }
}

/// How many game events the first `k` frames carry in all.
pub open spec fn ge_count_frames(frames: Seq<FrameInfo>, k: int) -> int
    decreases k,
{
    if k <= 0 {
        0
    } else {
        ge_count_frames(frames, k - 1) + ge_count_msgs(
            frame_msgs(frames[k - 1]),
            frame_msgs(frames[k - 1]).len() as int,
        )
    }
}

/// The cross-link pairs of one frame: for every user-message-carrying
/// message at position `p` among the first `m`, the pair of `p` and the
/// global user-message index (`base` plus those that came earlier in this
/// frame).
pub open spec fn um_pairs(msgs: Seq<MessageRecord>, m: int, base: int) -> Seq<(usize, usize)>
    decreases m,
{
    if m <= 0 {
        Seq::empty()
    } else {
        let prev = um_pairs(msgs, m - 1, base);
        if is_user_msg(msgs[m - 1]) {
            prev.push(((m - 1) as usize, (base + um_count_msgs(msgs, m - 1)) as usize))
        } else {
            prev
        }
    }
}

/// The game-event cross-link pairs of one frame.
pub open spec fn ge_pairs(msgs: Seq<MessageRecord>, m: int, base: int) -> Seq<(usize, usize)>
    decreases m,
{
    if m <= 0 {
        Seq::empty()
    } else {
        let prev = ge_pairs(msgs, m - 1, base);
        if is_game_event_msg(msgs[m - 1]) {
            prev.push(((m - 1) as usize, (base + ge_count_msgs(msgs, m - 1)) as usize))
        } else {
            prev
        }
    }
}

/// The pairs held by an optional table (`None` stands for no pairs).
pub open spec fn opt_pairs(v: Option<Vec<(usize, usize)>>) -> Seq<(usize, usize)> {
    match v {
        Option::Some(vec) => vec@,
        Option::None => Seq::empty(),
    }
}

/// The per-frame cross-link tables, present only when a frame carries the
/// corresponding message kind.
pub struct FrameData {
    pub user_message_index: Option<Vec<(usize, usize)>>,
    pub game_event_index: Option<Vec<(usize, usize)>>,
}

/// The value of the first pair with the given key at or after position
/// `i`.
pub open spec fn pair_value_from(pairs: Seq<(usize, usize)>, key: usize, i: int) -> Option<usize>
    decreases pairs.len() - i,
{
    if i < 0 || i >= pairs.len() {
        Option::None
    } else if pairs[i].0 == key {
        Option::Some(pairs[i].1)
    } else {
        pair_value_from(pairs, key, i + 1)
    }
}

impl FrameData {
    /// A frame without cross-links.
    pub fn none() -> (r: Self)
        ensures
            r.user_message_index is None,
            r.game_event_index is None,
    {
        FrameData { user_message_index: Option::None, game_event_index: Option::None }
    }

    /// The global user-message index of the message at `nmsg_index` in
    /// this frame, when that message carries a user message.
    #[verifier::loop_isolation(false)]
    pub fn user_message_slot(&self, nmsg_index: usize) -> (r: Option<usize>)
        ensures
            r == (match self.user_message_index {
                Option::Some(v) => pair_value_from(v@, nmsg_index, 0),
                Option::None => Option::<usize>::None,
            }),
    {
        match &self.user_message_index {
            Option::Some(v) => lookup_pair(v, nmsg_index),
            Option::None => Option::None,
        }
    }

    /// The global game-event index of the message at `nmsg_index` in this
    /// frame, when that message carries a game event.
    #[verifier::loop_isolation(false)]
    pub fn game_event_slot(&self, nmsg_index: usize) -> (r: Option<usize>)
        ensures
            r == (match self.game_event_index {
                Option::Some(v) => pair_value_from(v@, nmsg_index, 0),
                Option::None => Option::<usize>::None,
            }),
    {
        match &self.game_event_index {
            Option::Some(v) => lookup_pair(v, nmsg_index),
            Option::None => Option::None,
        }
    }
}

/// The value of the first pair with the given key.
#[verifier::loop_isolation(false)]
fn lookup_pair(pairs: &Vec<(usize, usize)>, key: usize) -> (r: Option<usize>)
    ensures
        r == pair_value_from(pairs@, key, 0),
{
    let n = pairs.len();
    let mut i: usize = 0;
    while i < n
        invariant
            0 <= i <= n,
            pair_value_from(pairs@, key, 0) == pair_value_from(pairs@, key, i as int),
        decreases n - i,
    {
        if pairs[i].0 == key {
            return Option::Some(pairs[i].1);
        }
        i += 1;
    }
    Option::None
}

/// The cross-link tables are exactly the pairs of each frame, based at the
/// number of user messages and game events of the preceding frames.
pub open spec fn frame_data_ok(frames: Seq<FrameInfo>, fd: Seq<FrameData>) -> bool {
    &&& fd.len() == frames.len()
    &&& forall|k: int|
        #![trigger fd[k]]
        0 <= k < frames.len() ==> {
            let msgs = frame_msgs(frames[k]);
            &&& opt_pairs(fd[k].user_message_index) == um_pairs(
                msgs,
                msgs.len() as int,
                um_count_frames(frames, k),
            )
            &&& (fd[k].user_message_index is Some <==> um_pairs(
                msgs,
                msgs.len() as int,
                um_count_frames(frames, k),
            ).len() > 0)
            &&& opt_pairs(fd[k].game_event_index) == ge_pairs(
                msgs,
                msgs.len() as int,
                ge_count_frames(frames, k),
            )
            &&& (fd[k].game_event_index is Some <==> ge_pairs(
                msgs,
                msgs.len() as int,
                ge_count_frames(frames, k),
            ).len() > 0)
        }
}

/// Counting user messages over messages grows by at most one per step.
proof fn lemma_um_count_msgs_bounds(msgs: Seq<MessageRecord>, m: int)
    requires
        0 <= m,
    ensures
        0 <= um_count_msgs(msgs, m) <= m,
        0 <= ge_count_msgs(msgs, m) <= m,
    decreases m,
{
    if m > 0 {
        lemma_um_count_msgs_bounds(msgs, m - 1);
    }
}

/// The pair counts over frames never decrease as more frames are taken.
proof fn lemma_count_frames_mono(frames: Seq<FrameInfo>, k1: int, k2: int)
    requires
        0 <= k1 <= k2,
    ensures
        um_count_frames(frames, k1) <= um_count_frames(frames, k2),
        ge_count_frames(frames, k1) <= ge_count_frames(frames, k2),
    decreases k2 - k1,
{
    if k1 < k2 {
        lemma_count_frames_mono(frames, k1, k2 - 1);
        lemma_um_count_msgs_bounds(
            frame_msgs(frames[k2 - 1]),
            frame_msgs(frames[k2 - 1]).len() as int,
        );
    }
}

/// A partial count within frame `k` stays below the total over all frames.
proof fn lemma_partial_count_bound(frames: Seq<FrameInfo>, k: int, m: int)
    requires
        0 <= k < frames.len(),
        0 <= m <= frame_msgs(frames[k]).len(),
    ensures
        um_count_frames(frames, k) + um_count_msgs(frame_msgs(frames[k]), m) <= um_count_frames(
            frames,
            frames.len() as int,
        ),
        ge_count_frames(frames, k) + ge_count_msgs(frame_msgs(frames[k]), m) <= ge_count_frames(
            frames,
            frames.len() as int,
        ),
{
    let msgs = frame_msgs(frames[k]);
    lemma_um_count_msgs_partial_mono(msgs, m, msgs.len() as int);
    lemma_count_frames_mono(frames, k + 1, frames.len() as int);
}

/// Counting over a longer message prefix never yields less.
proof fn lemma_um_count_msgs_partial_mono(msgs: Seq<MessageRecord>, m1: int, m2: int)
    requires
        0 <= m1 <= m2,
    ensures
        um_count_msgs(msgs, m1) <= um_count_msgs(msgs, m2),
        ge_count_msgs(msgs, m1) <= ge_count_msgs(msgs, m2),
    decreases m2 - m1,
{
    if m1 < m2 {
        lemma_um_count_msgs_partial_mono(msgs, m1, m2 - 1);
    }
}

/// Build the per-frame cross-link tables.
#[verifier::loop_isolation(false)]
fn build_frame_data(frames: &Vec<FrameInfo>) -> (fd: Vec<FrameData>)
    requires
        um_count_frames(frames@, frames@.len() as int) <= usize::MAX,
        ge_count_frames(frames@, frames@.len() as int) <= usize::MAX,
    ensures
        frame_data_ok(frames@, fd@),
{
    let mut fd: Vec<FrameData> = Vec::new();
    let mut user_message_it: usize = 0;
    let mut game_event_it: usize = 0;
    let n = frames.len();
    let mut k: usize = 0;
    while k < n
        invariant
            0 <= k <= n,
            fd@.len() == k,
            user_message_it == um_count_frames(frames@, k as int),
            game_event_it == ge_count_frames(frames@, k as int),
            forall|j: int|
                #![trigger fd@[j]]
                0 <= j < k ==> {
                    let msgs = frame_msgs(frames@[j]);
                    &&& opt_pairs(fd@[j].user_message_index) == um_pairs(
                        msgs,
                        msgs.len() as int,
                        um_count_frames(frames@, j),
                    )
                    &&& (fd@[j].user_message_index is Some <==> um_pairs(
                        msgs,
                        msgs.len() as int,
                        um_count_frames(frames@, j),
                    ).len() > 0)
                    &&& opt_pairs(fd@[j].game_event_index) == ge_pairs(
                        msgs,
                        msgs.len() as int,
                        ge_count_frames(frames@, j),
                    )
                    &&& (fd@[j].game_event_index is Some <==> ge_pairs(
                        msgs,
                        msgs.len() as int,
                        ge_count_frames(frames@, j),
                    ).len() > 0)
                },
        decreases n - k,
    {
        let ghost um_base = user_message_it as int;
        let ghost ge_base = game_event_it as int;
        let mut um_vec: Vec<(usize, usize)> = Vec::new();
        let mut ge_vec: Vec<(usize, usize)> = Vec::new();
        match &frames[k].payload {
            FramePayload::Packet(pd) => {
                let m_total = pd.network_messages.len();
                let mut m: usize = 0;
                while m < m_total
                    invariant
                        0 <= m <= m_total,
                        m_total == frame_msgs(frames@[k as int]).len(),
                        pd.network_messages@ == frame_msgs(frames@[k as int]),
                        um_base == um_count_frames(frames@, k as int),
                        ge_base == ge_count_frames(frames@, k as int),
                        user_message_it == um_base + um_count_msgs(
                            frame_msgs(frames@[k as int]),
                            m as int,
                        ),
                        game_event_it == ge_base + ge_count_msgs(
                            frame_msgs(frames@[k as int]),
                            m as int,
                        ),
                        um_vec@ == um_pairs(frame_msgs(frames@[k as int]), m as int, um_base),
                        ge_vec@ == ge_pairs(frame_msgs(frames@[k as int]), m as int, ge_base),
                    decreases m_total - m,
                {
                    proof {
                        lemma_partial_count_bound(frames@, k as int, m + 1);
                        lemma_um_count_msgs_bounds(frame_msgs(frames@[k as int]), m as int);
                    }
                    let rec = &pd.network_messages[m];
                    if rec.parsed {
                        match rec.body {
                            MessageBody::UserMessage(_) => {
                                um_vec.push((m, user_message_it));
                                user_message_it += 1;
                            },
                            MessageBody::GameEvent(_) => {
                                ge_vec.push((m, game_event_it));
                                game_event_it += 1;
                            },
                            MessageBody::Plain => {},
                        }
                    }
                    m += 1;
                }
            },
            _ => {
                proof {
                    assert(frame_msgs(frames@[k as int]) =~= Seq::<MessageRecord>::empty());
                }
            },
        }
        let mut fdata = FrameData::none();
        if um_vec.len() > 0 {
            fdata.user_message_index = Option::Some(um_vec);
        }
        if ge_vec.len() > 0 {
            fdata.game_event_index = Option::Some(ge_vec);
        }
        fd.push(fdata);
        k += 1;
    }
    fd
}

/// Whether the session's total user-message and game-event counts fit the
/// machine's index type; unverified callers test this before building a
/// frames tool.
#[verifier::loop_isolation(false)]
pub fn cross_link_counts_fit(frames: &Vec<FrameInfo>) -> (r: bool)
    ensures
        r == (um_count_frames(frames@, frames@.len() as int) <= usize::MAX && ge_count_frames(
            frames@,
            frames@.len() as int,
        ) <= usize::MAX),
{
    let mut um_count: usize = 0;
    let mut ge_count: usize = 0;
    let n = frames.len();
    let mut k: usize = 0;
    while k < n
        invariant
            0 <= k <= n,
            um_count == um_count_frames(frames@, k as int),
            ge_count == ge_count_frames(frames@, k as int),
        decreases n - k,
    {
        match &frames[k].payload {
            FramePayload::Packet(pd) => {
                let m_total = pd.network_messages.len();
                let mut m: usize = 0;
                while m < m_total
                    invariant
                        0 <= m <= m_total,
                        m_total == frame_msgs(frames@[k as int]).len(),
                        pd.network_messages@ == frame_msgs(frames@[k as int]),
                        um_count == um_count_frames(frames@, k as int) + um_count_msgs(
                            frame_msgs(frames@[k as int]),
                            m as int,
                        ),
                        ge_count == ge_count_frames(frames@, k as int) + ge_count_msgs(
                            frame_msgs(frames@[k as int]),
                            m as int,
                        ),
                    decreases m_total - m,
                {
                    let rec = &pd.network_messages[m];
                    if rec.parsed {
                        match rec.body {
                            MessageBody::UserMessage(_) => {
                                if um_count == usize::MAX {
                                    proof {
                                        lemma_partial_count_bound(frames@, k as int, m + 1);
                                    }
                                    return false;
                                }
                                um_count += 1;
                            },
                            MessageBody::GameEvent(_) => {
                                if ge_count == usize::MAX {
                                    proof {
                                        lemma_partial_count_bound(frames@, k as int, m + 1);
                                    }
                                    return false;
                                }
                                ge_count += 1;
                            },
                            MessageBody::Plain => {},
                        }
                    }
                    m += 1;
                }
            },
            _ => {
                proof {
                    assert(frame_msgs(frames@[k as int]) =~= Seq::<MessageRecord>::empty());
                }
            },
        }
        k += 1;
    }
    true
}

/// What the navigator items of the frame list must be: every frame is
/// displayable under its command kind.
pub open spec fn nav_matches_frames(items: Seq<Option<u64>>, frames: Seq<FrameInfo>) -> bool {
    &&& items.len() == frames.len()
    &&& forall|i: int|
        #![trigger items[i]]
        0 <= i < frames.len() ==> items[i] == Option::Some(frames[i].command_id as u64)
}

/// The navigable frame list, filterable by command kind.
pub struct FramesListViewModel {
    pub demo_frames: Vec<FrameInfo>,
    pub nav: FilteredListNavigator,
}

impl FramesListViewModel {
    pub open spec fn wf(self) -> bool {
        &&& self.nav.wf()
        &&& nav_matches_frames(self.nav.items@, self.demo_frames@)
    }

    /// Build the list over the session's frames: every frame displayable
    /// under its command kind, all kinds enabled, nothing selected.
    #[verifier::loop_isolation(false)]
    pub fn new(demo_frames: Vec<FrameInfo>) -> (vm: Self)
        ensures
            vm.wf(),
            vm.demo_frames@ == demo_frames@,
            vm.nav.active is None,
            vm.nav.display@.len() == demo_frames@.len(),
            vm.nav.filters@ == entries_of(
                vm.nav.items@,
                demo_frames@.map_values(|f: FrameInfo| f.command_label),
            ),
            forall|j: int|
                0 <= j < vm.nav.filters@.len() ==> #[trigger] vm.nav.filters@[j].enabled,
            !vm.nav.scroll_pending,
    {
        let n = demo_frames.len();
        let mut items: Vec<Option<u64>> = Vec::new();
        let mut labels: Vec<String> = Vec::new();
        let mut i: usize = 0;
        while i < n
            invariant
                0 <= i <= n,
                items@.len() == i,
                labels@.len() == i,
                forall|k: int|
                    #![trigger items@[k]]
                    0 <= k < i ==> items@[k] == Option::Some(demo_frames@[k].command_id as u64),
                forall|k: int|
                    #![trigger labels@[k]]
                    0 <= k < i ==> labels@[k] == demo_frames@[k].command_label,
            decreases n - i,
        {
            items.push(Option::Some(demo_frames[i].command_id as u64));
            labels.push(demo_frames[i].command_label.clone());
            i += 1;
        }
        let ghost labels0 = labels@;
        let nav = FilteredListNavigator::build(items, labels);
        proof {
            assert(labels0 =~= demo_frames@.map_values(|f: FrameInfo| f.command_label));
            crate::navigator::lemma_entries_prefix_props(
                nav.items@,
                labels0,
                nav.items@.len() as int,
            );
            assert forall|k: int|
                0 <= k < nav.items@.len() implies shown(nav.items@, nav.filters@, k) by {
                assert(nav.items@[k] == Option::Some(demo_frames@[k].command_id as u64));
                assert(crate::navigator::has_entry(nav.filters@, nav.items@[k]->0));
                let j = choose|j: int|
                    0 <= j < nav.filters@.len() && nav.filters@[j].disc == nav.items@[k]->0;
                assert(nav.filters@[j].enabled);
            }
            crate::navigator::lemma_display_all_shown(
                nav.items@,
                nav.filters@,
                nav.items@.len() as int,
            );
        }
        FramesListViewModel { demo_frames, nav }
    }

    /// Select the frame at an absolute index; fails, changing nothing,
    /// when it is out of bounds.  A frame the current filter hides is
    /// reached by first resetting the filter.
    pub fn select(&mut self, index: usize) -> (ok: bool)
        requires
            old(self).wf(),
        ensures
            final(self).wf(),
            final(self).demo_frames@ == old(self).demo_frames@,
            ok == (index < old(self).demo_frames@.len()),
            !ok ==> *final(self) == *old(self),
            ok ==> final(self).nav.active == Option::Some(index) && final(self).nav.scroll_pending,
            final(self).nav.items == old(self).nav.items,
            final(self).demo_frames == old(self).demo_frames,
            ok && shown(old(self).nav.items@, old(self).nav.filters@, index as int) ==> final(self).nav.filters == old(self).nav.filters && final(self).nav.display
                == old(self).nav.display,
            ok && !shown(old(self).nav.items@, old(self).nav.filters@, index as int) ==> final(self).nav.filters@ == all_enabled(old(self).nav.filters@),
    {
        self.nav.select(index)
    }

    /// Move the selection to the next displayed frame (the first, when
    /// nothing is selected); saturates at the end.
    pub fn next_frame(&mut self)
        requires
            old(self).wf(),
        ensures
            final(self).wf(),
            final(self).demo_frames == old(self).demo_frames,
            final(self).nav.items == old(self).nav.items,
            final(self).nav.display == old(self).nav.display,
            final(self).nav.filters == old(self).nav.filters,
            final(self).nav.active == next_active(old(self).nav.display@, old(self).nav.active),
            final(self).nav.scroll_pending == (old(self).nav.scroll_pending || final(self).nav.active != old(self).nav.active),
    {
        let _ = self.nav.next();
    }

    /// Move the selection to the previous displayed frame (the first, when
    /// nothing is selected); saturates at the start.
    pub fn prev_frame(&mut self)
        requires
            old(self).wf(),
        ensures
            final(self).wf(),
            final(self).demo_frames == old(self).demo_frames,
            final(self).nav.items == old(self).nav.items,
            final(self).nav.display == old(self).nav.display,
            final(self).nav.filters == old(self).nav.filters,
            final(self).nav.active == prev_active(old(self).nav.display@, old(self).nav.active),
            final(self).nav.scroll_pending == (old(self).nav.scroll_pending || final(self).nav.active != old(self).nav.active),
    {
        let _ = self.nav.prev();
    }

    /// Select the first displayed frame; with an empty display list
    /// nothing happens.
    pub fn first_frame(&mut self)
        requires
            old(self).wf(),
        ensures
            final(self).wf(),
            final(self).demo_frames == old(self).demo_frames,
            final(self).nav.items == old(self).nav.items,
            final(self).nav.display == old(self).nav.display,
            final(self).nav.filters == old(self).nav.filters,
            final(self).nav.active == first_active(old(self).nav.display@),
            final(self).nav.scroll_pending == (old(self).nav.scroll_pending || old(self).nav.display@.len() > 0),
    {
        let _ = self.nav.first();
    }

    /// Select the last displayed frame; with an empty display list nothing
    /// happens.
    pub fn last_frame(&mut self)
        requires
            old(self).wf(),
        ensures
            final(self).wf(),
            final(self).demo_frames == old(self).demo_frames,
            final(self).nav.items == old(self).nav.items,
            final(self).nav.display == old(self).nav.display,
            final(self).nav.filters == old(self).nav.filters,
            final(self).nav.active == last_active(old(self).nav.display@),
            final(self).nav.scroll_pending == (old(self).nav.scroll_pending || old(self).nav.display@.len() > 0),
    {
        let _ = self.nav.last();
    }

    /// Toggle one command-kind filter entry; the display list follows.
    pub fn set_command_enabled(&mut self, command_id: u64, enabled: bool) -> (found: bool)
        requires
            old(self).wf(),
        ensures
            final(self).wf(),
            final(self).demo_frames@ == old(self).demo_frames@,
            found == crate::navigator::has_entry(old(self).nav.filters@, command_id),
            found ==> final(self).nav.filters@ == crate::navigator::set_flag(
                old(self).nav.filters@,
                command_id,
                enabled,
            ),
            !found ==> *final(self) == *old(self),
    {
        self.nav.set_enabled(command_id, enabled)
    }

    /// Re-enable every command-kind filter; the selection is unchanged.
    pub fn clear_filters(&mut self)
        requires
            old(self).wf(),
        ensures
            final(self).wf(),
            final(self).demo_frames@ == old(self).demo_frames@,
            final(self).nav.filters@ == all_enabled(old(self).nav.filters@),
            final(self).nav.active == old(self).nav.active,
    {
        self.nav.clear_filters();
    }
}

/// The detail panes mirror the active frame: a packet pane exactly for a
/// packet frame, a data-tables pane exactly for a data-tables frame.
pub open spec fn detail_matches(t: FramesToolViewModel) -> bool {
    match t.vm_frames_list.nav.active {
        Option::None => t.vm_packet_data is None && t.vm_data_tables is None,
        Option::Some(a) => {
            let f = t.vm_frames_list.demo_frames@[a as int];
            &&& (t.vm_packet_data is Some <==> f.payload is Packet)
            &&& (t.vm_data_tables is Some <==> f.payload is DataTables)
            &&& (f.payload is Packet ==> pd_matches(t.vm_packet_data->0, f.payload->Packet_0))
            &&& (f.payload is DataTables ==> t.vm_data_tables->0.wf()
                && t.vm_data_tables->0.send_table_count
                == f.payload->DataTables_0.send_tables@.len())
        },
    }
}

/// One of the two frame-browsing tools: the frame list plus the detail
/// panes of the active frame and the per-frame cross-link tables.
/// The hide-empty-values choice a rebuilt packet pane inherits: the open
/// pane's detail choice when one shows, else the remembered one.
pub open spec fn carried_hide_choice(t: FramesToolViewModel) -> bool {
    match t.vm_packet_data {
        Option::Some(pd) => match pd.vm_message_list.vm_protobuf_message {
            Option::Some(d) => d.hide_none_values,
            Option::None => t.last_hide_none_values,
        },
        Option::None => t.last_hide_none_values,
    }
}

/// The message selection a rebuilt packet pane tries to restore: the open
/// pane's selection when one exists, else the remembered one.
pub open spec fn carried_message_index(t: FramesToolViewModel) -> Option<usize> {
    match t.vm_packet_data {
        Option::Some(pd) => match pd.vm_message_list.nav.active {
            Option::Some(l) => Option::Some(l),
            Option::None => t.last_message_index,
        },
        Option::None => t.last_message_index,
    }
}

/// The selection the restored index yields in a packet payload: kept when
/// it names a decodable message of that packet, else dropped.
pub open spec fn carried_selection(carried: Option<usize>, pk: PacketInfo) -> Option<usize> {
    match carried {
        Option::Some(l) => if l < pk.network_messages@.len()
            && pk.network_messages@[l as int].parsed {
            Option::Some(l)
        } else {
            Option::<usize>::None
        },
        Option::None => Option::<usize>::None,
    }
}

pub struct FramesToolViewModel {
    pub name: FramesToolId,
    pub vm_frames_list: FramesListViewModel,
    pub vm_packet_data: Option<PacketDataViewModel>,
    pub vm_data_tables: Option<DataTablesViewModel>,
    pub frame_data: Vec<FrameData>,
    pub last_message_index: Option<usize>,
    pub last_hide_none_values: bool,
}

impl FramesToolViewModel {
    pub open spec fn wf(self) -> bool {
        &&& self.vm_frames_list.wf()
        &&& frame_data_ok(self.vm_frames_list.demo_frames@, self.frame_data@)
        &&& detail_matches(self)
    }

    /// Build the tool over the session's frames, with the cross-link
    /// tables computed; nothing selected, no detail pane.
    pub fn new(name: FramesToolId, demo_frames: Vec<FrameInfo>) -> (vm: Self)
        requires
            um_count_frames(demo_frames@, demo_frames@.len() as int) <= usize::MAX,
            ge_count_frames(demo_frames@, demo_frames@.len() as int) <= usize::MAX,
        ensures
            vm.wf(),
            vm.name == name,
            vm.vm_frames_list.demo_frames@ == demo_frames@,
            vm.vm_frames_list.nav.active is None,
            vm.vm_frames_list.nav.display@.len() == demo_frames@.len(),
            vm.vm_frames_list.nav.filters@ == entries_of(
                vm.vm_frames_list.nav.items@,
                demo_frames@.map_values(|f: FrameInfo| f.command_label),
            ),
            forall|j: int|
                0 <= j < vm.vm_frames_list.nav.filters@.len()
                    ==> #[trigger] vm.vm_frames_list.nav.filters@[j].enabled,
            !vm.vm_frames_list.nav.scroll_pending,
            vm.vm_packet_data is None,
            vm.vm_data_tables is None,
            vm.last_message_index is None,
            !vm.last_hide_none_values,
    {
        let frame_data = build_frame_data(&demo_frames);
        let vm_frames_list = FramesListViewModel::new(demo_frames);
        FramesToolViewModel {
            name,
            vm_frames_list,
            vm_packet_data: Option::None,
            vm_data_tables: Option::None,
            frame_data,
            last_message_index: Option::None,
            last_hide_none_values: false,
        }
    }

    /// Select the frame at an absolute index and rebuild the detail panes
    /// for it, carrying the previous packet pane's message selection and
    /// hide-empty-values choice over to the new pane.
    ///
    /// Fails, changing nothing, when the index is out of bounds.  A frame
    /// the current filter hides is reached by first resetting the filter.
    pub fn select_frame(&mut self, index: usize) -> (ok: bool)
        requires
            old(self).wf(),
        ensures
            final(self).wf(),
            final(self).name == old(self).name,
            final(self).vm_frames_list.demo_frames@ == old(self).vm_frames_list.demo_frames@,
            final(self).frame_data@ == old(self).frame_data@,
            ok == (index < old(self).vm_frames_list.demo_frames@.len()),
            !ok ==> *final(self) == *old(self),
            ok ==> final(self).vm_frames_list.nav.active == Option::Some(index),
            ok ==> final(self).last_hide_none_values == carried_hide_choice(*old(self)),
            ok ==> final(self).last_message_index == carried_message_index(*old(self)),
            ok ==> final(self).vm_frames_list.nav.scroll_pending,
            ok ==> old(self).vm_frames_list.demo_frames@[index as int].payload is Packet ==> ({
                let pk = old(self).vm_frames_list.demo_frames@[index as int].payload->Packet_0;
                let restored = carried_selection(carried_message_index(*old(self)), pk);
                &&& final(self).vm_packet_data is Some
                &&& final(self).vm_packet_data->0.vm_message_list.nav.active == restored
                &&& (restored is Some
                    ==> final(self).vm_packet_data->0.vm_message_list.vm_protobuf_message is Some
                    && final(self).vm_packet_data->0.vm_message_list.vm_protobuf_message->0.hide_none_values
                    == carried_hide_choice(*old(self)))
            }),
            ok && shown(
                old(self).vm_frames_list.nav.items@,
                old(self).vm_frames_list.nav.filters@,
                index as int,
            ) ==> final(self).vm_frames_list.nav.filters == old(self).vm_frames_list.nav.filters,
            ok && !shown(
                old(self).vm_frames_list.nav.items@,
                old(self).vm_frames_list.nav.filters@,
                index as int,
            ) ==> final(self).vm_frames_list.nav.filters@ == all_enabled(
                old(self).vm_frames_list.nav.filters@,
            ),
    {
        if index >= self.vm_frames_list.demo_frames.len() {
            return false;
        }
        self.apply_select(index);
        true
    }

    /// The selection-and-rebuild step shared by `select_frame` and the
    /// keyboard motions; callers guarantee the index is in bounds.
    fn apply_select(&mut self, index: usize)
        requires
            old(self).vm_frames_list.wf(),
            frame_data_ok(old(self).vm_frames_list.demo_frames@, old(self).frame_data@),
            index < old(self).vm_frames_list.demo_frames@.len(),
        ensures
            final(self).wf(),
            final(self).name == old(self).name,
            final(self).vm_frames_list.demo_frames@ == old(self).vm_frames_list.demo_frames@,
            final(self).frame_data@ == old(self).frame_data@,
            final(self).vm_frames_list.nav.active == Option::Some(index),
            final(self).last_hide_none_values == carried_hide_choice(*old(self)),
            final(self).last_message_index == carried_message_index(*old(self)),
            final(self).vm_frames_list.nav.scroll_pending,
            old(self).vm_frames_list.demo_frames@[index as int].payload is Packet ==> ({
                let pk = old(self).vm_frames_list.demo_frames@[index as int].payload->Packet_0;
                let restored = carried_selection(carried_message_index(*old(self)), pk);
                &&& final(self).vm_packet_data is Some
                &&& final(self).vm_packet_data->0.vm_message_list.nav.active == restored
                &&& (restored is Some
                    ==> final(self).vm_packet_data->0.vm_message_list.vm_protobuf_message is Some
                    && final(self).vm_packet_data->0.vm_message_list.vm_protobuf_message->0.hide_none_values
                    == carried_hide_choice(*old(self)))
            }),
            shown(
                old(self).vm_frames_list.nav.items@,
                old(self).vm_frames_list.nav.filters@,
                index as int,
            ) ==> final(self).vm_frames_list.nav.filters == old(self).vm_frames_list.nav.filters
                && final(self).vm_frames_list.nav.display == old(self).vm_frames_list.nav.display,
            !shown(
                old(self).vm_frames_list.nav.items@,
                old(self).vm_frames_list.nav.filters@,
                index as int,
            ) ==> final(self).vm_frames_list.nav.filters@ == all_enabled(
                old(self).vm_frames_list.nav.filters@,
            ),
    {
        // carry over the packet pane's hide-empty-values choice and
        // message selection before the pane is replaced
        match &self.vm_packet_data {
            Option::Some(pd_vm) => {
                match &pd_vm.vm_message_list.vm_protobuf_message {
                    Option::Some(pbm_vm) => {
                        self.last_hide_none_values = pbm_vm.hide_none_values_get();
                    },
                    Option::None => {},
                }
                match pd_vm.vm_message_list.get_active_message() {
                    Option::Some(last_index) => {
                        self.last_message_index = Option::Some(last_index);
                    },
                    Option::None => {},
                }
            },
            Option::None => {},
        }
        let ok = self.vm_frames_list.select(index);
        assert(ok);
        match &self.vm_frames_list.demo_frames[index].payload {
            FramePayload::Packet(pd) => {
                let mut packet_data = PacketDataViewModel::new(pd);
                match self.last_message_index {
                    Option::Some(last_index) => {
                        let selected = packet_data.vm_message_list.set_active_message(last_index);
                        if selected {
                            packet_data.vm_message_list.set_detail_hide(
                                self.last_hide_none_values,
                            );
                        }
                    },
                    Option::None => {},
                }
                self.vm_packet_data = Option::Some(packet_data);
            },
            _ => {
                self.vm_packet_data = Option::None;
            },
        }
        match &self.vm_frames_list.demo_frames[index].payload {
            FramePayload::DataTables(dtd) => {
                self.vm_data_tables = Option::Some(DataTablesViewModel::new(dtd.send_tables.len()));
            },
            _ => {
                self.vm_data_tables = Option::None;
            },
        }
    }

    /// Move to the next displayed frame and rebuild the detail panes.
    pub fn next_frame(&mut self)
        requires
            old(self).wf(),
        ensures
            final(self).wf(),
            final(self).name == old(self).name,
            final(self).vm_frames_list.demo_frames@ == old(self).vm_frames_list.demo_frames@,
            final(self).frame_data@ == old(self).frame_data@,
            final(self).vm_frames_list.nav.active == next_active(
                old(self).vm_frames_list.nav.display@,
                old(self).vm_frames_list.nav.active,
            ),
            final(self).vm_frames_list.nav.display == old(self).vm_frames_list.nav.display,
            final(self).vm_frames_list.nav.filters == old(self).vm_frames_list.nav.filters,
            final(self).vm_frames_list.nav.scroll_pending == (old(
                self,
            ).vm_frames_list.nav.scroll_pending || final(self).vm_frames_list.nav.active is Some),
    {
        self.vm_frames_list.next_frame();
        self.reselect_active();
    }

    /// Move to the previous displayed frame and rebuild the detail panes.
    pub fn prev_frame(&mut self)
        requires
            old(self).wf(),
        ensures
            final(self).wf(),
            final(self).name == old(self).name,
            final(self).vm_frames_list.demo_frames@ == old(self).vm_frames_list.demo_frames@,
            final(self).frame_data@ == old(self).frame_data@,
            final(self).vm_frames_list.nav.active == prev_active(
                old(self).vm_frames_list.nav.display@,
                old(self).vm_frames_list.nav.active,
            ),
            final(self).vm_frames_list.nav.display == old(self).vm_frames_list.nav.display,
            final(self).vm_frames_list.nav.filters == old(self).vm_frames_list.nav.filters,
            final(self).vm_frames_list.nav.scroll_pending == (old(
                self,
            ).vm_frames_list.nav.scroll_pending || final(self).vm_frames_list.nav.active is Some),
    {
        self.vm_frames_list.prev_frame();
        self.reselect_active();
    }

    /// Jump to the first displayed frame and rebuild the detail panes.
    pub fn first_frame(&mut self)
        requires
            old(self).wf(),
        ensures
            final(self).wf(),
            final(self).name == old(self).name,
            final(self).vm_frames_list.demo_frames@ == old(self).vm_frames_list.demo_frames@,
            final(self).frame_data@ == old(self).frame_data@,
            final(self).vm_frames_list.nav.active == first_active(
                old(self).vm_frames_list.nav.display@,
            ),
            final(self).vm_frames_list.nav.display == old(self).vm_frames_list.nav.display,
            final(self).vm_frames_list.nav.filters == old(self).vm_frames_list.nav.filters,
            final(self).vm_frames_list.nav.scroll_pending == (old(
                self,
            ).vm_frames_list.nav.scroll_pending || final(self).vm_frames_list.nav.active is Some),
    {
        self.vm_frames_list.first_frame();
        self.reselect_active();
    }

    /// Jump to the last displayed frame and rebuild the detail panes.
    pub fn last_frame(&mut self)
        requires
            old(self).wf(),
        ensures
            final(self).wf(),
            final(self).name == old(self).name,
            final(self).vm_frames_list.demo_frames@ == old(self).vm_frames_list.demo_frames@,
            final(self).frame_data@ == old(self).frame_data@,
            final(self).vm_frames_list.nav.active == last_active(
                old(self).vm_frames_list.nav.display@,
            ),
            final(self).vm_frames_list.nav.display == old(self).vm_frames_list.nav.display,
            final(self).vm_frames_list.nav.filters == old(self).vm_frames_list.nav.filters,
            final(self).vm_frames_list.nav.scroll_pending == (old(
                self,
            ).vm_frames_list.nav.scroll_pending || final(self).vm_frames_list.nav.active is Some),
    {
        self.vm_frames_list.last_frame();
        self.reselect_active();
    }

    /// Apply one keyboard motion to the frame selection; the detail panes
    /// follow.
    pub fn move_selection(&mut self, motion: crate::events::NavMotion)
        requires
            old(self).wf(),
        ensures
            final(self).wf(),
            final(self).name == old(self).name,
            final(self).vm_frames_list.demo_frames@ == old(self).vm_frames_list.demo_frames@,
            final(self).frame_data@ == old(self).frame_data@,
            final(self).vm_frames_list.nav.display == old(self).vm_frames_list.nav.display,
            final(self).vm_frames_list.nav.filters == old(self).vm_frames_list.nav.filters,
            final(self).vm_frames_list.nav.active == crate::navigator::motion_result(
                motion,
                old(self).vm_frames_list.nav.display@,
                old(self).vm_frames_list.nav.active,
            ),
            final(self).vm_frames_list.nav.scroll_pending == (old(
                self,
            ).vm_frames_list.nav.scroll_pending || final(self).vm_frames_list.nav.active is Some),
    {
        match motion {
            crate::events::NavMotion::MoveFirst => {
                self.first_frame();
            },
            crate::events::NavMotion::MoveLast => {
                self.last_frame();
            },
            crate::events::NavMotion::MoveNext => {
                self.next_frame();
            },
            crate::events::NavMotion::MovePrev => {
                self.prev_frame();
            },
        }
    }

    /// After a list motion, re-select the active frame so the detail
    /// panes follow it; with no selection the panes are already in step.
    fn reselect_active(&mut self)
        requires
            old(self).vm_frames_list.wf(),
            frame_data_ok(old(self).vm_frames_list.demo_frames@, old(self).frame_data@),
            old(self).vm_frames_list.nav.active is None ==> detail_matches(*old(self)),
        ensures
            final(self).wf(),
            final(self).name == old(self).name,
            final(self).vm_frames_list.demo_frames@ == old(self).vm_frames_list.demo_frames@,
            final(self).frame_data@ == old(self).frame_data@,
            final(self).vm_frames_list.nav.active == old(self).vm_frames_list.nav.active,
            final(self).vm_frames_list.nav.display == old(self).vm_frames_list.nav.display,
            final(self).vm_frames_list.nav.filters == old(self).vm_frames_list.nav.filters,
            final(self).vm_frames_list.nav.scroll_pending == (old(
                self,
            ).vm_frames_list.nav.scroll_pending || old(self).vm_frames_list.nav.active is Some),
    {
        match self.vm_frames_list.nav.active_index() {
            Option::Some(a) => {
                proof {
                    crate::navigator::lemma_display_membership(
                        self.vm_frames_list.nav.items@,
                        self.vm_frames_list.nav.filters@,
                        self.vm_frames_list.nav.items@.len() as int,
                    );
                    assert(self.vm_frames_list.nav.display@.contains(a));
                    assert(shown(
                        self.vm_frames_list.nav.items@,
                        self.vm_frames_list.nav.filters@,
                        a as int,
                    ));
                }
                self.apply_select(a);
            },
            Option::None => {},
        }
    }

    /// Consume a select-frame event addressed to this tool; forward
    /// anything else to the packet pane's message list.
    pub fn handle_event(&mut self, event: &Event) -> (consumed: bool)
        requires
            old(self).wf(),
        ensures
            final(self).wf(),
            final(self).name == old(self).name,
            final(self).vm_frames_list.demo_frames@ == old(self).vm_frames_list.demo_frames@,
            final(self).frame_data@ == old(self).frame_data@,
            !consumed ==> *final(self) == *old(self),
            match *event {
                Event::SelectFrame(tool_name, index) => (tool_name == old(self).name ==> consumed
                    == (index < old(self).vm_frames_list.demo_frames@.len()) && (consumed
                    ==> final(self).vm_frames_list.nav.active == Option::Some(index))) && (
                tool_name != old(self).name ==> !consumed),
                Event::SelectMessage(id, index) => consumed == (old(self).vm_packet_data is Some
                    && id == old(self).vm_packet_data->0.vm_message_list.name && index
                    < old(self).vm_packet_data->0.vm_message_list.records@.len()
                    && old(self).vm_packet_data->0.vm_message_list.records@[index as int].parsed)
                    && (consumed ==> final(self).vm_packet_data is Some
                    && final(self).vm_packet_data->0.vm_message_list.nav.active == Option::Some(
                    index,
                )),
                _ => !consumed,
            },
    {
        match event {
            Event::SelectFrame(tool_name, index) => {
                if *tool_name == self.name {
                    return self.select_frame(*index);
                }
            },
            _ => {},
        }
        match &mut self.vm_packet_data {
            Option::Some(pd_vm) => pd_vm.handle_event(event),
            Option::None => false,
        }
    }
}

} // verus!
