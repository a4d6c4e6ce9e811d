//! The table of remap rules: reading its rows as bindings, and the changes
//! that store bindings in it.

use vstd::prelude::*;
use crate::objects::{key_of_stored_code, keybind_of_vkeys, Keybind, KeybindView};
use crate::seqs::{lemma_filter_empty, lemma_filter_step};
use crate::settings::{LogitechSettings, SettingsView};

verus! {

/// One row of the table: its number, the code that is sent, the code that
/// is pressed, and the executable that the rule belongs to.
#[derive(Debug, PartialEq)]
pub struct KeymapperRow {
    pub idx: i32,
    pub ptr: u64,
    pub obj: u64,
    pub exe: String,
}

/// One change to the table.
#[derive(Debug, PartialEq)]
pub enum KeymapperChange {
    /// Drop every row of the executable `exe`.
    Clear { exe: String },
    /// Add a row with these values, under a number that the table gives.
    Insert { ptr: u64, obj: u64, exe: String },
    /// Drop the row with the number `idx` of the executable `exe`.
    Remove { idx: i32, exe: String },
}

/// What a change says, with its text as a sequence.
pub enum KeymapperChangeView {
    Clear { exe: Seq<char> },
    Insert { ptr: u64, obj: u64, exe: Seq<char> },
    Remove { idx: i32, exe: Seq<char> },
}

impl View for KeymapperChange {
    type V = KeymapperChangeView;

    open spec fn view(&self) -> KeymapperChangeView {
        match self {
            KeymapperChange::Clear { exe } => KeymapperChangeView::Clear { exe: exe@ },
            KeymapperChange::Insert { ptr, obj, exe } => KeymapperChangeView::Insert {
                ptr: *ptr,
                obj: *obj,
                exe: exe@,
            },
            KeymapperChange::Remove { idx, exe } => KeymapperChangeView::Remove {
                idx: *idx,
                exe: exe@,
            },
        }
    }
}

/// The test "belongs to the executable `executable`".
pub open spec fn is_row_of(executable: Seq<char>) -> spec_fn(KeymapperRow) -> bool {
    |row: KeymapperRow| row.exe@ == executable
}

/// The test "is not the row with the number `idx` of the executable `exe`".
pub open spec fn is_other_row(idx: i32, exe: Seq<char>) -> spec_fn(KeymapperRow) -> bool {
    |row: KeymapperRow| !(row.idx == idx && row.exe@ == exe)
}

/// The binding that a row stands for.
pub open spec fn keybind_of_row(row: KeymapperRow) -> KeybindView {
    keybind_of_vkeys(row.idx, row.ptr, row.obj, row.exe@)
}

/// The row that stores a binding: each side by the code of the key that its
/// raw code stands for, so that a code outside the key table is stored as
/// the code of `Escape`.
pub open spec fn insert_of(keybind: Keybind) -> KeymapperChangeView {
    KeymapperChangeView::Insert {
        ptr: key_of_stored_code(keybind.vkey_pointer).code() as u64,
        obj: key_of_stored_code(keybind.vkey_object).code() as u64,
        exe: keybind.executable@,
    }
}

/// The changes that put `keybinds` in the place of the rules of
/// `executable`: first its rows are dropped, then one row is added for each
/// binding with both sides set, in their order.
pub open spec fn changes_for(executable: Seq<char>, keybinds: Seq<Keybind>) -> Seq<
    KeymapperChangeView,
> {
    seq![KeymapperChangeView::Clear { exe: executable }] + keybinds.filter(
        |bind: Keybind| bind.is_set(),
    ).map_values(|bind: Keybind| insert_of(bind))
}

/// What the changes say, one view for each.
pub open spec fn change_views(changes: Seq<KeymapperChange>) -> Seq<KeymapperChangeView> {
    changes.map_values(|change: KeymapperChange| change@)
}

impl LogitechSettings {
    /// The change that stores `keybind`.
    pub fn add_keybind(&self, keybind: &Keybind) -> (change: KeymapperChange)
        ensures
            change@ == insert_of(*keybind),
    {
        KeymapperChange::Insert {
            ptr: u64::from(&keybind.input_pointer()),
            obj: u64::from(&keybind.input_object()),
            exe: keybind.executable.clone(),
        }
    }

    /// The changes that put `keybinds` in the place of the rules of `executable`.
    pub fn set_keybinds(&self, executable: String, keybinds: Vec<Keybind>) -> (changes: Vec<
        KeymapperChange,
    >)
        ensures
            change_views(changes@) == changes_for(executable@, keybinds@),
    {
        let mut changes: Vec<KeymapperChange> = Vec::new();
        changes.push(KeymapperChange::Clear { exe: executable });
        let ghost pred = |bind: Keybind| bind.is_set();
        let ghost head = seq![KeymapperChangeView::Clear { exe: executable@ }];
        proof {
            lemma_filter_empty(keybinds@.take(0), pred);
            assert(change_views(changes@) =~= head + keybinds@.take(0).filter(pred).map_values(
                |bind: Keybind| insert_of(bind),
            ));
        }
        let mut i: usize = 0;
        while i < keybinds.len()
            invariant
                i <= keybinds.len(),
                pred == (|bind: Keybind| bind.is_set()),
                head == seq![KeymapperChangeView::Clear { exe: executable@ }],
                change_views(changes@) == head + keybinds@.take(i as int).filter(pred).map_values(
                    |bind: Keybind| insert_of(bind),
                ),
            decreases keybinds.len() - i,
        {
            proof {
                lemma_filter_step(keybinds@, pred, i as int);
            }
            let key = &keybinds[i];
            if key.vkey_pointer != 0 && key.vkey_object != 0 {
                let change = self.add_keybind(key);
                let ghost before = changes@;
                let ghost kept = keybinds@.take(i as int).filter(pred);
                changes.push(change);
                proof {
                    assert(change_views(before.push(change)) =~= change_views(before).push(
                        change@,
                    ));
                    assert(kept.push(*key).map_values(|bind: Keybind| insert_of(bind))
                        =~= kept.map_values(|bind: Keybind| insert_of(bind)).push(
                        insert_of(*key),
                    ));
                    assert(change_views(changes@) =~= head + kept.push(*key).map_values(
                        |bind: Keybind| insert_of(bind),
                    ));
                }
            }
            i += 1;
        }
        proof {
            assert(keybinds@.take(keybinds.len() as int) == keybinds@);
        }
        changes
    }

    /// The bindings of `executable`: one for each of its rows, in the order
    /// of the table, each side labelled with the key of its code.
    pub fn get_keybinds(&self, executable: &String) -> (keybinds: Vec<Keybind>)
        ensures
            crate::objects::keybind_views(keybinds@) == self@.keymapper.filter(
                is_row_of(executable@),
            ).map_values(|row: KeymapperRow| keybind_of_row(row)),
    {
        let rows = self.get_keymapper();
        let mut keybinds: Vec<Keybind> = Vec::new();
        let ghost pred = is_row_of(executable@);
        proof {
            lemma_filter_empty(rows@.take(0), pred);
            assert(crate::objects::keybind_views(keybinds@) =~= rows@.take(0).filter(
                pred,
            ).map_values(|row: KeymapperRow| keybind_of_row(row)));
        }
        let mut i: usize = 0;
        while i < rows.len()
            invariant
                i <= rows.len(),
                rows@ == self@.keymapper,
                pred == is_row_of(executable@),
                crate::objects::keybind_views(keybinds@) == rows@.take(i as int).filter(
                    pred,
                ).map_values(|row: KeymapperRow| keybind_of_row(row)),
            decreases rows.len() - i,
        {
            proof {
                lemma_filter_step(rows@, pred, i as int);
            }
            let row = &rows[i];
            if row.exe == *executable {
                let bind = Keybind::from_vkeys(row.idx, row.ptr, row.obj, row.exe.clone());
                let ghost before = keybinds@;
                let ghost kept = rows@.take(i as int).filter(pred);
                keybinds.push(bind);
                proof {
                    assert(crate::objects::keybind_views(before.push(bind))
                        =~= crate::objects::keybind_views(before).push(bind@));
                    assert(kept.push(*row).map_values(|row: KeymapperRow| keybind_of_row(row))
                        =~= kept.map_values(|row: KeymapperRow| keybind_of_row(row)).push(
                        keybind_of_row(*row),
                    ));
                }
            }
            i += 1;
        }
        proof {
            assert(rows@.take(rows.len() as int) == rows@);
        }
        keybinds
    }

    /// Drops the row of `keybind` from the rows in memory, and returns the
    /// change that drops it from the table.
    pub fn remove_keybind(&mut self, keybind: &Keybind) -> (change: KeymapperChange)
        ensures
            change@ == (KeymapperChangeView::Remove {
                idx: keybind.index,
                exe: keybind.executable@,
            }),
            final(self)@ == (SettingsView {
                keymapper: old(self)@.keymapper.filter(
                    is_other_row(keybind.index, keybind.executable@),
                ),
                ..old(self)@
            }),
    {
        let rows = self.take_keymapper();
        let ghost all = rows@;
        let ghost pred = is_other_row(keybind.index, keybind.executable@);
        let mut kept: Vec<KeymapperRow> = Vec::new();
        proof {
            lemma_filter_empty(all.take(0), pred);
        }
        for row in iter: rows
            invariant
                iter.seq() == all,
                pred == is_other_row(keybind.index, keybind.executable@),
                kept@ == all.take(iter.index() as int).filter(pred),
        {
            proof {
                lemma_filter_step(all, pred, iter.index() as int);
            }
            if !(row.idx == keybind.index && row.exe == keybind.executable) {
                kept.push(row);
            }
        }
        proof {
            assert(all.take(all.len() as int) == all);
        }
        self.put_keymapper(kept);
        KeymapperChange::Remove { idx: keybind.index, exe: keybind.executable.clone() }
    }
}

} // verus!
