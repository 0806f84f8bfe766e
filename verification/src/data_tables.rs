//! The schema/data-table browsing tool: class descriptions and send-table
//! definitions embedded in certain frames, with a keyboard-navigable cursor
//! over the send-table list.

use vstd::prelude::*;

verus! {

/// One class description of a data-table snapshot.
pub struct ClassDescInfo {
    pub class_id: i64,
    pub table_name: String,
    pub network_name: String,
}

/// One property of a send table.
pub struct SendPropInfo {
    pub var_name: Option<String>,
    pub type_label: Option<String>,
    pub dt_name: Option<String>,
    pub flags: Option<u64>,
    pub high_value: Option<u64>,
    pub low_value: Option<u64>,
    pub num_bits: Option<i64>,
    pub num_elements: Option<i64>,
    pub priority: Option<i64>,
}

/// One send table of a data-table snapshot.
pub struct SendTableInfo {
    pub is_end: Option<bool>,
    pub needs_decoder: Option<bool>,
    pub net_table_name: Option<String>,
    pub props: Vec<SendPropInfo>,
}

/// A data-table snapshot: the structural description embedded in a frame.
pub struct DataTablesInfo {
    pub send_tables: Vec<SendTableInfo>,
    pub class_descriptions: Vec<ClassDescInfo>,
}

/// Which of the two table views is active.
#[derive(Clone, Copy, Debug, PartialEq, Eq, Structural)]
pub enum TablesMode {
    ClassDescriptions,
    SendTables,
}

/// The send-table cursor after one keyboard motion.
pub open spec fn table_motion_result(
    motion: crate::events::NavMotion,
    count: usize,
    active: Option<usize>,
) -> Option<usize> {
    match motion {
        crate::events::NavMotion::MoveFirst => if count > 0 {
            Option::Some(0usize)
        } else {
            active
        },
        crate::events::NavMotion::MoveLast => if count > 0 {
            Option::Some((count - 1) as usize)
        } else {
            active
        },
        crate::events::NavMotion::MoveNext => match active {
            Option::None => if count > 0 {
                Option::Some(0usize)
            } else {
                Option::None
            },
            Option::Some(k) => if k + 1 < count {
                Option::Some((k + 1) as usize)
            } else {
                Option::Some(k)
            },
        },
        crate::events::NavMotion::MovePrev => match active {
            Option::None => if count > 0 {
                Option::Some(0usize)
            } else {
                Option::None
            },
            Option::Some(k) => if count > 0 {
                if k > 0 {
                    Option::Some((k - 1) as usize)
                } else {
                    Option::Some(0usize)
                }
            } else {
                Option::Some(k)
            },
        },
    }
}

/// Cursor state over a frame's data-table snapshot.  The snapshot itself
/// stays with its frame; this view model carries only what navigation
/// needs.
pub struct DataTablesViewModel {
    pub send_table_count: usize,
    pub active_send_table_index: Option<usize>,
    pub b_send_table_scroll_next: bool,
    pub active_mode: TablesMode,
}

impl DataTablesViewModel {
    /// The selection, when present, lies inside the send-table list.
    pub open spec fn wf(self) -> bool {
        self.active_send_table_index is Some ==> self.active_send_table_index->0
            < self.send_table_count
    }

    /// A cursor over a snapshot with `send_table_count` send tables,
    /// opening on the class-description view with nothing selected.
    pub fn new(send_table_count: usize) -> (vm: Self)
        ensures
            vm.wf(),
            vm.send_table_count == send_table_count,
            vm.active_send_table_index is None,
            vm.b_send_table_scroll_next,
            vm.active_mode == TablesMode::ClassDescriptions,
    {
        DataTablesViewModel {
            send_table_count,
            active_send_table_index: Option::None,
            b_send_table_scroll_next: true,
            active_mode: TablesMode::ClassDescriptions,
        }
    }

    /// Select one send table; fails, changing nothing, when the index is
    /// out of range.
    fn set_active_send_table(&mut self, index: usize) -> (ok: bool)
        requires
            old(self).wf(),
        ensures
            final(self).wf(),
            final(self).send_table_count == old(self).send_table_count,
            final(self).active_mode == old(self).active_mode,
            ok == (index < old(self).send_table_count),
            !ok ==> *final(self) == *old(self),
            ok ==> final(self).active_send_table_index == Option::Some(index)
                && final(self).b_send_table_scroll_next,
    {
        if index >= self.send_table_count {
            return false;
        }
        self.b_send_table_scroll_next = true;
        self.active_send_table_index = Option::Some(index);
        true
    }

    /// Apply one keyboard motion to the send-table cursor.
    pub fn move_selection(&mut self, motion: crate::events::NavMotion)
        requires
            old(self).wf(),
        ensures
            final(self).wf(),
            final(self).send_table_count == old(self).send_table_count,
            final(self).active_mode == old(self).active_mode,
            final(self).active_send_table_index == table_motion_result(
                motion,
                old(self).send_table_count,
                old(self).active_send_table_index,
            ),
    {
        match motion {
            crate::events::NavMotion::MoveFirst => {
                let _ = self.send_table_first();
            },
            crate::events::NavMotion::MoveLast => {
                let _ = self.send_table_last();
            },
            crate::events::NavMotion::MoveNext => {
                let _ = self.send_table_next();
            },
            crate::events::NavMotion::MovePrev => {
                let _ = self.send_table_prev();
            },
        }
    }

    /// Move the cursor to the next send table (the first, when nothing is
    /// selected); at the end of the list nothing changes.
    pub fn send_table_next(&mut self) -> (ok: bool)
        requires
            old(self).wf(),
        ensures
            final(self).wf(),
            final(self).send_table_count == old(self).send_table_count,
            final(self).active_mode == old(self).active_mode,
            ok == (match old(self).active_send_table_index {
                Option::Some(k) => k + 1 < old(self).send_table_count,
                Option::None => old(self).send_table_count > 0,
            }),
            ok ==> final(self).active_send_table_index == Option::Some(
                match old(self).active_send_table_index {
                    Option::Some(k) => (k + 1) as usize,
                    Option::None => 0usize,
                },
            ),
            !ok ==> *final(self) == *old(self),
    {
        let index = match self.active_send_table_index {
            Option::Some(k) => k + 1,
            Option::None => 0,
        };
        self.set_active_send_table(index)
    }

    /// Move the cursor to the previous send table (the first, when nothing
    /// is selected); at the start of the list the first table is selected
    /// again.
    pub fn send_table_prev(&mut self) -> (ok: bool)
        requires
            old(self).wf(),
        ensures
            final(self).wf(),
            final(self).send_table_count == old(self).send_table_count,
            final(self).active_mode == old(self).active_mode,
            ok == (old(self).send_table_count > 0),
            ok ==> final(self).active_send_table_index == Option::Some(
                match old(self).active_send_table_index {
                    Option::Some(k) => if k > 0 {
                        (k - 1) as usize
                    } else {
                        0usize
                    },
                    Option::None => 0usize,
                },
            ),
            !ok ==> *final(self) == *old(self),
    {
        let index = match self.active_send_table_index {
            Option::Some(k) => if k > 0 {
                k - 1
            } else {
                0
            },
            Option::None => 0,
        };
        self.set_active_send_table(index)
    }

    /// Move the cursor to the first send table.
    pub fn send_table_first(&mut self) -> (ok: bool)
        requires
            old(self).wf(),
        ensures
            final(self).wf(),
            final(self).send_table_count == old(self).send_table_count,
            final(self).active_mode == old(self).active_mode,
            ok == (old(self).send_table_count > 0),
            ok ==> final(self).active_send_table_index == Option::Some(0usize),
            !ok ==> *final(self) == *old(self),
    {
        self.set_active_send_table(0)
    }

    /// Move the cursor to the last send table.
    pub fn send_table_last(&mut self) -> (ok: bool)
        requires
            old(self).wf(),
        ensures
            final(self).wf(),
            final(self).send_table_count == old(self).send_table_count,
            final(self).active_mode == old(self).active_mode,
            ok == (old(self).send_table_count > 0),
            ok ==> final(self).active_send_table_index == Option::Some(
                (old(self).send_table_count - 1) as usize,
            ),
            !ok ==> *final(self) == *old(self),
    {
        let mut index = self.send_table_count;
        if index != 0 {
            index -= 1;
        }
        self.set_active_send_table(index)
    }
}

} // verus!
