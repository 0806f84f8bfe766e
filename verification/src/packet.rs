//! A frame's packet payload: its command-info header and the list of
//! network messages it carries, browsed through the generic message-list
//! view model, plus the naming of user-message and game-event rows from
//! the session's lookup tables.

use crate::events::{Event, ListName};
use crate::messages::{
    clone_records, rec_like, MessageBody, MessageRecord, ProtobufMessageListViewModel,
};
use vstd::prelude::*;

verus! {

/// The command-info header of a packet frame; the view vectors arrive
/// already rendered as text.
pub struct PacketHeaderInfo {
    pub flags: i64,
    pub data_length: i32,
    pub in_seq: i32,
    pub out_seq: i32,
    pub view_origin: String,
    pub view_angles: String,
    pub local_view_angles: String,
    pub inter_view_origin: String,
    pub inter_view_angles: String,
    pub inter_local_view_angles: String,
}

impl PacketHeaderInfo {
    /// An equal copy.
    pub fn duplicate(&self) -> (r: Self)
        ensures
            r == *self,
    {
        PacketHeaderInfo {
            flags: self.flags,
            data_length: self.data_length,
            in_seq: self.in_seq,
            out_seq: self.out_seq,
            view_origin: self.view_origin.clone(),
            view_angles: self.view_angles.clone(),
            local_view_angles: self.local_view_angles.clone(),
            inter_view_origin: self.inter_view_origin.clone(),
            inter_view_angles: self.inter_view_angles.clone(),
            inter_local_view_angles: self.inter_local_view_angles.clone(),
        }
    }
}

/// A packet payload: header plus network messages.
pub struct PacketInfo {
    pub header: PacketHeaderInfo,
    pub network_messages: Vec<MessageRecord>,
}

/// One entry of the session's game-event schema: an event-type identifier
/// and its name.
pub struct EventDescriptor {
    pub event_id: u64,
    pub name: String,
}

/// One entry of the user-message naming table.
pub struct UserMessageName {
    pub id: u64,
    pub name: String,
}

/// The name of the first descriptor with the given identifier at or after
/// position `i`.
pub open spec fn descriptor_name_from(
    descs: Seq<EventDescriptor>,
    id: u64,
    i: int,
) -> Option<Seq<char>>
    decreases descs.len() - i,
{
    if i < 0 || i >= descs.len() {
        Option::None
    } else if descs[i].event_id == id {
        Option::Some(descs[i].name@)
    } else {
        descriptor_name_from(descs, id, i + 1)
    }
}

/// The name of the first user-message entry with the given identifier at
/// or after position `i`.
pub open spec fn um_name_from(ums: Seq<UserMessageName>, id: u64, i: int) -> Option<Seq<char>>
    decreases ums.len() - i,
{
    if i < 0 || i >= ums.len() {
        Option::None
    } else if ums[i].id == id {
        Option::Some(ums[i].name@)
    } else {
        um_name_from(ums, id, i + 1)
    }
}

/// The display label of one message row: user messages and game events are
/// named from the session's tables when the identifier is known there;
/// everything else keeps its message-type name.
pub open spec fn message_label(
    r: MessageRecord,
    descs: Seq<EventDescriptor>,
    ums: Seq<UserMessageName>,
) -> Seq<char> {
    match r.body {
        MessageBody::UserMessage(t) => match t {
            Option::Some(t) => match um_name_from(ums, t, 0) {
                Option::Some(nm) => "UserMessage("@ + nm + ")"@,
                Option::None => r.name@,
            },
            Option::None => r.name@,
        },
        MessageBody::GameEvent(id) => match id {
            Option::Some(id) => match descriptor_name_from(descs, id, 0) {
                Option::Some(nm) => "GameEvent("@ + nm + ")"@,
                Option::None => r.name@,
            },
            Option::None => r.name@,
        },
        MessageBody::Plain => r.name@,
    }
}

/// Look up an event name in the descriptor table.
#[verifier::loop_isolation(false)]
fn lookup_descriptor(descs: &Vec<EventDescriptor>, id: u64) -> (r: Option<String>)
    ensures
        match r {
            Option::Some(nm) => descriptor_name_from(descs@, id, 0) == Option::Some(nm@),
            Option::None => descriptor_name_from(descs@, id, 0) is None,
        },
{
    let n = descs.len();
    let mut i: usize = 0;
    while i < n
        invariant
            0 <= i <= n,
            descriptor_name_from(descs@, id, 0) == descriptor_name_from(descs@, id, i as int),
        decreases n - i,
    {
        if descs[i].event_id == id {
            return Option::Some(descs[i].name.clone());
        }
        i += 1;
    }
    Option::None
}

/// Look up a user-message name.
#[verifier::loop_isolation(false)]
fn lookup_um_name(ums: &Vec<UserMessageName>, id: u64) -> (r: Option<String>)
    ensures
        match r {
            Option::Some(nm) => um_name_from(ums@, id, 0) == Option::Some(nm@),
            Option::None => um_name_from(ums@, id, 0) is None,
        },
{
    let n = ums.len();
    let mut i: usize = 0;
    while i < n
        invariant
            0 <= i <= n,
            um_name_from(ums@, id, 0) == um_name_from(ums@, id, i as int),
        decreases n - i,
    {
        if ums[i].id == id {
            return Option::Some(ums[i].name.clone());
        }
        i += 1;
    }
    Option::None
}

/// The display label of one message row.
pub fn resolve_message_label(
    record: &MessageRecord,
    descriptors: &Vec<EventDescriptor>,
    um_names: &Vec<UserMessageName>,
) -> (r: String)
    ensures
        r@ == message_label(*record, descriptors@, um_names@),
{
    match record.body {
        MessageBody::UserMessage(t) => match t {
            Option::Some(t) => match lookup_um_name(um_names, t) {
                Option::Some(nm) => {
                    let mut s = String::new();
                    s.append("UserMessage(");
                    s.append(nm.as_str());
                    s.append(")");
                    proof {
                        assert(s@ =~= message_label(*record, descriptors@, um_names@));
                    }
                    s
                },
                Option::None => record.name.clone(),
            },
            Option::None => record.name.clone(),
        },
        MessageBody::GameEvent(id) => match id {
            Option::Some(id) => match lookup_descriptor(descriptors, id) {
                Option::Some(nm) => {
                    let mut s = String::new();
                    s.append("GameEvent(");
                    s.append(nm.as_str());
                    s.append(")");
                    proof {
                        assert(s@ =~= message_label(*record, descriptors@, um_names@));
                    }
                    s
                },
                Option::None => record.name.clone(),
            },
            Option::None => record.name.clone(),
        },
        MessageBody::Plain => record.name.clone(),
    }
}

/// What a packet view model must mirror of its frame's payload.
pub open spec fn pd_matches(vm: PacketDataViewModel, pk: PacketInfo) -> bool {
    &&& vm.header == pk.header
    &&& vm.vm_message_list.wf()
    &&& vm.vm_message_list.name == ListName::PacketDataMessages
    &&& vm.vm_message_list.records@.len() == pk.network_messages@.len()
    &&& forall|i: int|
        0 <= i < pk.network_messages@.len() ==> rec_like(
            #[trigger] vm.vm_message_list.records@[i],
            pk.network_messages@[i],
        )
}

/// The view over one packet frame: its header and the navigable list of
/// its network messages.
pub struct PacketDataViewModel {
    pub header: PacketHeaderInfo,
    pub vm_message_list: ProtobufMessageListViewModel,
}

impl PacketDataViewModel {
    /// A fresh view over a packet payload; nothing selected.
    pub fn new(packet_data: &PacketInfo) -> (vm: Self)
        ensures
            pd_matches(vm, *packet_data),
            vm.vm_message_list.nav.active is None,
    {
        let records = clone_records(&packet_data.network_messages);
        let vm_message_list = ProtobufMessageListViewModel::new(
            ListName::PacketDataMessages,
            records,
        );
        PacketDataViewModel { header: packet_data.header.duplicate(), vm_message_list }
    }

    /// Forward an event to the message list.
    pub fn handle_event(&mut self, event: &Event) -> (consumed: bool)
        requires
            old(self).vm_message_list.wf(),
        ensures
            final(self).vm_message_list.wf(),
            final(self).header == old(self).header,
            final(self).vm_message_list.records@ == old(self).vm_message_list.records@,
            final(self).vm_message_list.name == old(self).vm_message_list.name,
            !consumed ==> *final(self) == *old(self),
            match *event {
                Event::SelectMessage(id, index) => consumed == (id
                    == old(self).vm_message_list.name && index
                    < old(self).vm_message_list.records@.len()
                    && old(self).vm_message_list.records@[index as int].parsed) && (consumed
                    ==> final(self).vm_message_list.nav.active == Option::Some(index)),
                _ => !consumed,
            },
    {
        self.vm_message_list.handle_event(event)
    }
}

} // verus!
