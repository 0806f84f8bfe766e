//! The user-message browsing tool: the session's extracted user messages
//! in one filterable list, each keeping the frame and message it came from
//! for cross-linking, with a tick column for the time display.

use crate::events::{Event, Filters, ListName};
use crate::messages::{rec_like, MessageRecord, ProtobufMessageListViewModel};
use vstd::prelude::*;

verus! {

/// One extracted user message with its back-references.
pub struct UserMessageRecord {
    pub frame_index: usize,
    pub message_index: usize,
    pub tick: i64,
    pub record: MessageRecord,
}

/// The user-messages tool: the message list plus the per-row
/// back-references that the cross-link buttons need.
pub struct UserMessagesToolViewModel {
    pub vm_messages: ProtobufMessageListViewModel,
    pub frame_indices: Vec<usize>,
    pub message_indices: Vec<usize>,
}

impl UserMessagesToolViewModel {
    pub open spec fn wf(self) -> bool {
        &&& self.vm_messages.wf()
        &&& self.vm_messages.name == ListName::UserMessages
        &&& self.frame_indices@.len() == self.vm_messages.records@.len()
        &&& self.message_indices@.len() == self.vm_messages.records@.len()
    }

    /// Build the tool: one list entry per user message, a tick per row,
    /// the filter control offered, nothing selected.
    #[verifier::loop_isolation(false)]
    pub fn new(user_messages: Vec<UserMessageRecord>) -> (vm: Self)
        ensures
            vm.wf(),
            vm.vm_messages.records@.len() == user_messages@.len(),
            forall|i: int|
                0 <= i < user_messages@.len() ==> rec_like(
                    #[trigger] vm.vm_messages.records@[i],
                    user_messages@[i].record,
                ),
            forall|i: int|
                0 <= i < user_messages@.len() ==> #[trigger] vm.frame_indices@[i]
                    == user_messages@[i].frame_index,
            forall|i: int|
                0 <= i < user_messages@.len() ==> #[trigger] vm.message_indices@[i]
                    == user_messages@[i].message_index,
            vm.vm_messages.nav.active is None,
            vm.vm_messages.filterable,
    {
        let n = user_messages.len();
        let mut messages: Vec<MessageRecord> = Vec::new();
        let mut frame_indices: Vec<usize> = Vec::new();
        let mut message_indices: Vec<usize> = Vec::new();
        let mut ticks: Vec<i64> = Vec::new();
        let mut i: usize = 0;
        while i < n
            invariant
                0 <= i <= n,
                messages@.len() == i,
                frame_indices@.len() == i,
                message_indices@.len() == i,
                ticks@.len() == i,
                forall|k: int|
                    0 <= k < i ==> rec_like(#[trigger] messages@[k], user_messages@[k].record),
                forall|k: int|
                    0 <= k < i ==> #[trigger] frame_indices@[k] == user_messages@[k].frame_index,
                forall|k: int|
                    0 <= k < i ==> #[trigger] message_indices@[k]
                        == user_messages@[k].message_index,
            decreases n - i,
        {
            let um = &user_messages[i];
            frame_indices.push(um.frame_index);
            message_indices.push(um.message_index);
            messages.push(um.record.duplicate());
            ticks.push(um.tick);
            i += 1;
        }
        let mut vm_messages = ProtobufMessageListViewModel::new(ListName::UserMessages, messages);
        vm_messages.set_tick_column(ticks);
        vm_messages.set_filterable(true);
        UserMessagesToolViewModel { vm_messages, frame_indices, message_indices }
    }

    /// Consume a select-message event addressed to this list or a request
    /// to clear its filter; decline the rest.
    pub fn handle_event(&mut self, event: &Event) -> (consumed: bool)
        requires
            old(self).wf(),
        ensures
            final(self).wf(),
            final(self).vm_messages.records@ == old(self).vm_messages.records@,
            final(self).frame_indices@ == old(self).frame_indices@,
            final(self).message_indices@ == old(self).message_indices@,
            !consumed ==> *final(self) == *old(self),
            match *event {
                Event::ClearFilter(f) => consumed == (f is UserMessages) && (consumed
                    ==> final(self).vm_messages.nav.filters@ == crate::navigator::all_enabled(
                    old(self).vm_messages.nav.filters@,
                ) && final(self).vm_messages.nav.active == old(self).vm_messages.nav.active),
                Event::SelectMessage(id, index) => consumed == (id == ListName::UserMessages
                    && index < old(self).vm_messages.records@.len()
                    && old(self).vm_messages.records@[index as int].parsed) && (consumed
                    ==> final(self).vm_messages.nav.active == Option::Some(index)),
                _ => !consumed,
            },
    {
        match event {
            Event::ClearFilter(f) => {
                match f {
                    Filters::UserMessages => {
                        self.vm_messages.clear_filter();
                        true
                    },
                    _ => false,
                }
            },
            _ => self.vm_messages.handle_event(event),
        }
    }
}

} // verus!
