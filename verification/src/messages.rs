//! Decoded network messages as the viewer holds them: one record per
//! message with its discriminator, decode diagnostics and flattened field
//! list, plus the two view-model layers over them — the single-message
//! detail view (with its "hide empty values" rule) and the filterable,
//! keyboard-navigable message list.

use crate::events::{Event, ListName};
use crate::navigator::{
    all_enabled, display_of, entries_of, first_active, last_active, lemma_display_prefix_props,
    lemma_entries_prefix_props, next_active, prev_active, FilteredListNavigator,
};
use crate::seq_util::{lemma_filter_empty, lemma_filter_push};
use vstd::prelude::*;

verus! {

/// One leaf value of a decoded message field, after the decoder's nested
/// and repeated values have been spread into a flat list.
pub enum FieldValue {
    /// The field was absent from the wire data.
    Missing,
    VarInt(u64),
    Fixed32(u32),
    Text(String),
    /// A raw byte payload, kept as its length.
    Data(usize),
}

/// A named leaf value of a decoded message.
pub struct FieldEntry {
    pub name: String,
    pub value: FieldValue,
}

/// What kind of payload a network message carries, with the identifier the
/// cross-links need.
#[derive(Clone, Copy, Debug, PartialEq, Eq, Structural)]
pub enum MessageBody {
    UserMessage(Option<u64>),
    GameEvent(Option<u64>),
    Plain,
}

/// One network message as the viewer holds it.
pub struct MessageRecord {
    /// Whether the decoder produced a message at all.
    pub parsed: bool,
    /// The message-type discriminator; meaningful only when `parsed`.
    pub disc: u64,
    /// The message-type name.
    pub name: String,
    pub body: MessageBody,
    pub has_warnings: bool,
    pub has_error: bool,
    pub fields: Vec<FieldEntry>,
}

impl FieldValue {
    /// An equal copy.
    pub fn duplicate(&self) -> (r: Self)
        ensures
            r == *self,
    {
        match self {
            FieldValue::Missing => FieldValue::Missing,
            FieldValue::VarInt(v) => FieldValue::VarInt(*v),
            FieldValue::Fixed32(v) => FieldValue::Fixed32(*v),
            FieldValue::Text(s) => FieldValue::Text(s.clone()),
            FieldValue::Data(n) => FieldValue::Data(*n),
        }
    }
}

impl FieldEntry {
    /// An equal copy.
    pub fn duplicate(&self) -> (r: Self)
        ensures
            r == *self,
    {
        FieldEntry { name: self.name.clone(), value: self.value.duplicate() }
    }
}

/// An elementwise copy of a field list.
#[verifier::loop_isolation(false)]
pub fn clone_fields(v: &Vec<FieldEntry>) -> (r: Vec<FieldEntry>)
    ensures
        r@ == v@,
{
    let mut r: Vec<FieldEntry> = Vec::new();
    let n = v.len();
    let mut i: usize = 0;
    while i < n
        invariant
            0 <= i <= n,
            r@ =~= v@.subrange(0, i as int),
        decreases n - i,
    {
        r.push(v[i].duplicate());
        proof {
            assert(r@ =~= v@.subrange(0, i + 1));
        }
        i += 1;
    }
    proof {
        assert(v@.subrange(0, n as int) =~= v@);
    }
    r
}

/// Record equality up to the view of the field list.
pub open spec fn rec_like(a: MessageRecord, b: MessageRecord) -> bool {
    &&& a.parsed == b.parsed
    &&& a.disc == b.disc
    &&& a.name == b.name
    &&& a.body == b.body
    &&& a.has_warnings == b.has_warnings
    &&& a.has_error == b.has_error
    &&& a.fields@ == b.fields@
}

impl MessageRecord {
    /// A copy equal in every part.
    pub fn duplicate(&self) -> (r: Self)
        ensures
            rec_like(r, *self),
    {
        MessageRecord {
            parsed: self.parsed,
            disc: self.disc,
            name: self.name.clone(),
            body: self.body,
            has_warnings: self.has_warnings,
            has_error: self.has_error,
            fields: clone_fields(&self.fields),
        }
    }
}

/// An elementwise copy of a record list.
#[verifier::loop_isolation(false)]
pub fn clone_records(v: &Vec<MessageRecord>) -> (r: Vec<MessageRecord>)
    ensures
        r@.len() == v@.len(),
        forall|i: int| 0 <= i < v@.len() ==> rec_like(#[trigger] r@[i], v@[i]),
    decreases v@.len(),
{
    let mut r: Vec<MessageRecord> = Vec::new();
    let n = v.len();
    let mut i: usize = 0;
    while i < n
        invariant
            0 <= i <= n,
            r@.len() == i,
            forall|k: int| 0 <= k < i ==> rec_like(#[trigger] r@[k], v@[k]),
        decreases n - i,
    {
        r.push(v[i].duplicate());
        i += 1;
    }
    r
}

/// The entries of `fields` that the detail view shows: all of them, or,
/// when empty values are hidden, those whose value is present.
pub open spec fn visible_fields(fields: Seq<FieldEntry>, hide_missing: bool) -> Seq<FieldEntry> {
    if hide_missing {
        fields.filter(|f: FieldEntry| !(f.value is Missing))
    } else {
        fields
    }
}

/// The detail view over one decoded message: its flat field list and the
/// user's choice whether absent fields are listed.
pub struct ProtobufMessageViewModel {
    pub fields: Vec<FieldEntry>,
    pub field_data: Vec<FieldEntry>,
    pub hide_none_values: bool,
}

impl ProtobufMessageViewModel {
    /// The displayed entries are exactly the visible ones.
    pub open spec fn wf(self) -> bool {
        self.field_data@ == visible_fields(self.fields@, self.hide_none_values)
    }

    /// A detail view that initially shows every field.
    pub fn new(fields: Vec<FieldEntry>) -> (vm: Self)
        ensures
            vm.wf(),
            vm.fields@ == fields@,
            !vm.hide_none_values,
    {
        let ghost fields0 = fields@;
        let mut vm = ProtobufMessageViewModel {
            field_data: Vec::new(),
            fields,
            hide_none_values: false,
        };
        vm.update_field_data();
        vm
    }

    /// Recompute the displayed entries from the flag.
    #[verifier::loop_isolation(false)]
    fn update_field_data(&mut self)
        ensures
            final(self).fields@ == old(self).fields@,
            final(self).hide_none_values == old(self).hide_none_values,
            final(self).wf(),
    {
        let mut data: Vec<FieldEntry> = Vec::new();
        let n = self.fields.len();
        let mut i: usize = 0;
        proof {
            lemma_filter_empty::<FieldEntry>(|f: FieldEntry| !(f.value is Missing));
            assert(self.fields@.subrange(0, 0) =~= Seq::<FieldEntry>::empty());
        }
        while i < n
            invariant
                0 <= i <= n,
                data@ == visible_fields(self.fields@.subrange(0, i as int), self.hide_none_values),
            decreases n - i,
        {
            let keep = match self.fields[i].value {
                FieldValue::Missing => !self.hide_none_values,
                _ => true,
            };
            if keep {
                data.push(self.fields[i].duplicate());
            }
            proof {
                let pred = |f: FieldEntry| !(f.value is Missing);
                lemma_filter_push(self.fields@.subrange(0, i as int), self.fields@[i as int], pred);
                assert(self.fields@.subrange(0, i + 1) =~= self.fields@.subrange(0, i as int).push(
                    self.fields@[i as int],
                ));
            }
            i += 1;
        }
        proof {
            assert(self.fields@.subrange(0, n as int) =~= self.fields@);
        }
        self.field_data = data;
    }

    /// Choose whether absent fields are listed, and recompute the display.
    pub fn hide_none_values_set(&mut self, value: bool)
        ensures
            final(self).fields@ == old(self).fields@,
            final(self).hide_none_values == value,
            final(self).wf(),
    {
        self.hide_none_values = value;
        self.update_field_data();
    }

    /// Whether absent fields are currently hidden.
    pub fn hide_none_values_get(&self) -> (r: bool)
        ensures
            r == self.hide_none_values,
    {
        self.hide_none_values
    }
}

/// The absolute indices, in order, of the first `n` records that carry a
/// decode warning or error.
pub open spec fn issues_prefix(records: Seq<MessageRecord>, n: int) -> Seq<usize>
    decreases n,
{
    if n <= 0 {
        Seq::empty()
    } else {
        let prev = issues_prefix(records, n - 1);
        if records[n - 1].has_warnings || records[n - 1].has_error {
            prev.push((n - 1) as usize)
        } else {
            prev
        }
    }
}

/// The records a bulk diagnostic scan must report: exactly those carrying
/// a decode warning or error, in order.
#[verifier::loop_isolation(false)]
pub fn issue_indices(records: &Vec<MessageRecord>) -> (r: Vec<usize>)
    ensures
        r@ == issues_prefix(records@, records@.len() as int),
{
    let mut r: Vec<usize> = Vec::new();
    let n = records.len();
    let mut i: usize = 0;
    while i < n
        invariant
            0 <= i <= n,
            r@ == issues_prefix(records@, i as int),
        decreases n - i,
    {
        if records[i].has_warnings || records[i].has_error {
            r.push(i);
        }
        i += 1;
    }
    r
}

/// The hide-empty-values choice a rebuilt detail view inherits: the
/// current detail view's choice, or the default when none is open.
pub open spec fn carried_hide(detail: Option<ProtobufMessageViewModel>) -> bool {
    match detail {
        Option::Some(d) => d.hide_none_values,
        Option::None => false,
    }
}

/// What the navigator items of a message list must be: one entry per
/// record, carrying the record's discriminator when it parsed and `None`
/// when it did not.
pub open spec fn nav_matches_records(
    items: Seq<Option<u64>>,
    records: Seq<MessageRecord>,
) -> bool {
    &&& items.len() == records.len()
    &&& forall|i: int|
        0 <= i < records.len() ==> #[trigger] items[i] == (if records[i].parsed {
            Option::Some(records[i].disc)
        } else {
            Option::<u64>::None
        })
}

/// The filterable, keyboard-navigable list over a collection of decoded
/// messages, with the detail view of the active message.
pub struct ProtobufMessageListViewModel {
    pub name: ListName,
    pub records: Vec<MessageRecord>,
    pub nav: FilteredListNavigator,
    pub vm_protobuf_message: Option<ProtobufMessageViewModel>,
    pub message_ticks: Option<Vec<i64>>,
    pub filterable: bool,
}

impl ProtobufMessageListViewModel {
    /// The navigator mirrors the records; the detail view exists exactly
    /// when a message is selected and shows that message's fields.
    pub open spec fn wf(self) -> bool {
        &&& self.nav.wf()
        &&& nav_matches_records(self.nav.items@, self.records@)
        &&& self.vm_protobuf_message is Some <==> self.nav.active is Some
        &&& self.nav.active is Some ==> {
            &&& self.vm_protobuf_message->0.wf()
            &&& self.vm_protobuf_message->0.fields@ == self.records@[self.nav.active->0 as int].fields@
        }
    }

    /// Build the list: every parsed record becomes displayable under its
    /// message-type discriminator; records the decoder rejected stay
    /// undisplayable.  Nothing is selected at first.
    #[verifier::loop_isolation(false)]
    pub fn new(name: ListName, records: Vec<MessageRecord>) -> (vm: Self)
        ensures
            vm.wf(),
            vm.name == name,
            vm.records@ == records@,
            vm.nav.active is None,
            vm.nav.filters@ == entries_of(vm.nav.items@, records@.map_values(|r: MessageRecord| r.name)),
            nav_matches_records(vm.nav.items@, records@),
            forall|j: int|
                0 <= j < vm.nav.filters@.len() ==> #[trigger] vm.nav.filters@[j].enabled,
            vm.message_ticks is None,
            !vm.filterable,
    {
        let n = records.len();
        let mut items: Vec<Option<u64>> = Vec::new();
        let mut labels: Vec<String> = Vec::new();
        let mut i: usize = 0;
        while i < n
            invariant
                0 <= i <= n,
                items@.len() == i,
                labels@.len() == i,
                forall|k: int|
                    #![trigger items@[k]]
                    0 <= k < i ==> items@[k] == (if records@[k].parsed {
                        Option::Some(records@[k].disc)
                    } else {
                        Option::<u64>::None
                    }),
                forall|k: int| 0 <= k < i ==> #[trigger] labels@[k] == records@[k].name,
            decreases n - i,
        {
            if records[i].parsed {
                items.push(Option::Some(records[i].disc));
            } else {
                items.push(Option::None);
            }
            labels.push(records[i].name.clone());
            i += 1;
        }
        let ghost items0 = items@;
        let ghost labels0 = labels@;
        let nav = FilteredListNavigator::build(items, labels);
        proof {
            assert(labels0 =~= records@.map_values(|r: MessageRecord| r.name));
            lemma_entries_prefix_props(
                nav.items@,
                records@.map_values(|r: MessageRecord| r.name),
                nav.items@.len() as int,
            );
            assert forall|k: int|
                0 <= k < records@.len() implies #[trigger] nav.items@[k] == (if records@[k].parsed {
                Option::Some(records@[k].disc)
            } else {
                Option::<u64>::None
            }) by {
                assert(nav.items@[k] == items0[k]);
            }
        }
        ProtobufMessageListViewModel {
            name,
            records,
            nav,
            vm_protobuf_message: Option::None,
            message_ticks: Option::None,
            filterable: false,
        }
    }

    /// Attach a tick column: one tick per record.
    pub fn set_tick_column(&mut self, ticks: Vec<i64>)
        requires
            old(self).wf(),
        ensures
            final(self).wf(),
            *final(self) == (ProtobufMessageListViewModel {
                message_ticks: Option::Some(ticks),
                ..*old(self)
            }),
    {
        self.message_ticks = Option::Some(ticks);
    }

    /// Allow the filter control to be offered.
    pub fn set_filterable(&mut self, filterable: bool)
        requires
            old(self).wf(),
        ensures
            final(self).wf(),
            *final(self) == (ProtobufMessageListViewModel { filterable, ..*old(self) }),
    {
        self.filterable = filterable;
    }

    /// The absolute index of the selected message.
    pub fn get_active_message(&self) -> (r: Option<usize>)
        ensures
            r == self.nav.active,
    {
        self.nav.active
    }

    /// Rebuild the detail view for the newly selected record, keeping the
    /// previous view's hide-empty-values choice.
    fn refresh_detail(&mut self)
        requires
            old(self).nav.wf(),
            nav_matches_records(old(self).nav.items@, old(self).records@),
        ensures
            final(self).nav == old(self).nav,
            final(self).records@ == old(self).records@,
            final(self).name == old(self).name,
            final(self).message_ticks == old(self).message_ticks,
            final(self).filterable == old(self).filterable,
            final(self).wf(),
            final(self).nav.active is Some ==> final(self).vm_protobuf_message is Some
                && final(self).vm_protobuf_message->0.hide_none_values == carried_hide(
                old(self).vm_protobuf_message,
            ),
    {
        let hide = match &self.vm_protobuf_message {
            Option::Some(vm) => vm.hide_none_values_get(),
            Option::None => false,
        };
        match self.nav.active_index() {
            Option::Some(a) => {
                proof {
                    lemma_display_prefix_props(
                        self.nav.items@,
                        self.nav.filters@,
                        self.nav.items@.len() as int,
                    );
                    assert(self.nav.display@.contains(a));
                    let k = choose|k: int|
                        0 <= k < self.nav.display@.len() && self.nav.display@[k] == a;
                    assert(self.nav.display@[k] < self.nav.items@.len());
                }
                let fields = clone_fields(&self.records[a].fields);
                let mut vm = ProtobufMessageViewModel::new(fields);
                vm.hide_none_values_set(hide);
                self.vm_protobuf_message = Option::Some(vm);
            },
            Option::None => {
                self.vm_protobuf_message = Option::None;
            },
        }
    }

    /// Select the message at an absolute index.
    ///
    /// Fails, changing nothing, when the index is out of bounds or names a
    /// record the decoder rejected; when the current filter hides the
    /// record, the filter is first reset.  The detail view follows the
    /// selection.
    pub fn set_active_message(&mut self, index: usize) -> (ok: bool)
        requires
            old(self).wf(),
        ensures
            final(self).wf(),
            final(self).records@ == old(self).records@,
            final(self).name == old(self).name,
            ok == (index < old(self).records@.len() && old(self).records@[index as int].parsed),
            ok ==> final(self).nav.active == Option::Some(index) && final(self).nav.scroll_pending,
            ok ==> final(self).vm_protobuf_message is Some
                && final(self).vm_protobuf_message->0.hide_none_values == carried_hide(
                old(self).vm_protobuf_message,
            ),
            ok && crate::navigator::shown(
                old(self).nav.items@,
                old(self).nav.filters@,
                index as int,
            ) ==> final(self).nav.filters == old(self).nav.filters && final(self).nav.display
                == old(self).nav.display,
            ok && !crate::navigator::shown(
                old(self).nav.items@,
                old(self).nav.filters@,
                index as int,
            ) ==> final(self).nav.filters@ == crate::navigator::all_enabled(old(self).nav.filters@)
                && final(self).nav.display@ == crate::navigator::display_of(
                old(self).nav.items@,
                crate::navigator::all_enabled(old(self).nav.filters@),
            ),
            !ok ==> *final(self) == *old(self),
    {
        let ok = self.nav.select(index);
        if ok {
            self.refresh_detail();
        }
        ok
    }

    /// Move the selection to the next displayed message (the first, when
    /// nothing is selected); saturates at the end.
    pub fn next_message(&mut self) -> (moved: bool)
        requires
            old(self).wf(),
        ensures
            final(self).wf(),
            final(self).records@ == old(self).records@,
            final(self).name == old(self).name,
            final(self).nav.display == old(self).nav.display,
            final(self).nav.filters == old(self).nav.filters,
            final(self).nav.active == next_active(old(self).nav.display@, old(self).nav.active),
            moved == (final(self).nav.active != old(self).nav.active),
            final(self).nav.scroll_pending == (old(self).nav.scroll_pending || moved),
    {
        let moved = self.nav.next();
        if moved {
            self.refresh_detail();
        }
        moved
    }

    /// Move the selection to the previous displayed message (the first,
    /// when nothing is selected); saturates at the start.
    pub fn prev_message(&mut self) -> (moved: bool)
        requires
            old(self).wf(),
        ensures
            final(self).wf(),
            final(self).records@ == old(self).records@,
            final(self).name == old(self).name,
            final(self).nav.display == old(self).nav.display,
            final(self).nav.filters == old(self).nav.filters,
            final(self).nav.active == prev_active(old(self).nav.display@, old(self).nav.active),
            moved == (final(self).nav.active != old(self).nav.active),
            final(self).nav.scroll_pending == (old(self).nav.scroll_pending || moved),
    {
        let moved = self.nav.prev();
        if moved {
            self.refresh_detail();
        }
        moved
    }

    /// Select the first displayed message; with an empty display list
    /// nothing happens.
    pub fn first_message(&mut self) -> (selected: bool)
        requires
            old(self).wf(),
        ensures
            final(self).wf(),
            final(self).records@ == old(self).records@,
            final(self).name == old(self).name,
            final(self).nav.display == old(self).nav.display,
            final(self).nav.filters == old(self).nav.filters,
            final(self).nav.active == first_active(old(self).nav.display@),
            selected == (old(self).nav.display@.len() > 0),
            final(self).nav.scroll_pending == (old(self).nav.scroll_pending || selected),
    {
        let selected = self.nav.first();
        self.refresh_detail();
        selected
    }

    /// Select the last displayed message; with an empty display list
    /// nothing happens.
    pub fn last_message(&mut self) -> (selected: bool)
        requires
            old(self).wf(),
        ensures
            final(self).wf(),
            final(self).records@ == old(self).records@,
            final(self).name == old(self).name,
            final(self).nav.display == old(self).nav.display,
            final(self).nav.filters == old(self).nav.filters,
            final(self).nav.active == last_active(old(self).nav.display@),
            selected == (old(self).nav.display@.len() > 0),
            final(self).nav.scroll_pending == (old(self).nav.scroll_pending || selected),
    {
        let selected = self.nav.last();
        self.refresh_detail();
        selected
    }

    /// Apply one keyboard motion to the selection.
    pub fn move_selection(&mut self, motion: crate::events::NavMotion)
        requires
            old(self).wf(),
        ensures
            final(self).wf(),
            final(self).records@ == old(self).records@,
            final(self).name == old(self).name,
            final(self).nav.display == old(self).nav.display,
            final(self).nav.filters == old(self).nav.filters,
            final(self).nav.active == crate::navigator::motion_result(
                motion,
                old(self).nav.display@,
                old(self).nav.active,
            ),
    {
        match motion {
            crate::events::NavMotion::MoveFirst => {
                let _ = self.first_message();
            },
            crate::events::NavMotion::MoveLast => {
                let _ = self.last_message();
            },
            crate::events::NavMotion::MoveNext => {
                let _ = self.next_message();
            },
            crate::events::NavMotion::MovePrev => {
                let _ = self.prev_message();
            },
        }
    }

    /// Choose whether the detail view hides absent fields; without an
    /// active message nothing happens.
    pub fn set_detail_hide(&mut self, value: bool)
        requires
            old(self).wf(),
        ensures
            final(self).wf(),
            final(self).records@ == old(self).records@,
            final(self).name == old(self).name,
            final(self).nav == old(self).nav,
            final(self).message_ticks == old(self).message_ticks,
            final(self).filterable == old(self).filterable,
            (final(self).vm_protobuf_message is Some) == (old(self).vm_protobuf_message is Some),
            final(self).vm_protobuf_message is Some
                ==> final(self).vm_protobuf_message->0.hide_none_values == value,
    {
        match &mut self.vm_protobuf_message {
            Option::Some(vm) => {
                vm.hide_none_values_set(value);
            },
            Option::None => {},
        }
    }

    /// Reset the message-type filter to show every parsed message.
    pub fn clear_filter(&mut self)
        requires
            old(self).wf(),
        ensures
            final(self).wf(),
            final(self).records@ == old(self).records@,
            final(self).name == old(self).name,
            final(self).nav.filters@ == all_enabled(old(self).nav.filters@),
            final(self).nav.display@ == display_of(
                old(self).nav.items@,
                all_enabled(old(self).nav.filters@),
            ),
            final(self).nav.active == old(self).nav.active,
    {
        self.nav.clear_filters();
    }

    /// Consume a select-message event addressed to this list; other events
    /// are declined.
    pub fn handle_event(&mut self, event: &Event) -> (consumed: bool)
        requires
            old(self).wf(),
        ensures
            final(self).wf(),
            final(self).records@ == old(self).records@,
            final(self).name == old(self).name,
            !consumed ==> *final(self) == *old(self),
            match *event {
                Event::SelectMessage(id, index) => consumed == (id == old(self).name && index
                    < old(self).records@.len() && old(self).records@[index as int].parsed) && (id
                    == old(self).name && consumed ==> final(self).nav.active == Option::Some(index))
                    && (id != old(self).name ==> *final(self) == *old(self)),
                _ => consumed == false && *final(self) == *old(self),
            },
    {
        match event {
            Event::SelectMessage(id, index) => {
                if *id == self.name {
                    self.set_active_message(*index)
                } else {
                    false
                }
            },
            _ => false,
        }
    }
}

} // verus!
