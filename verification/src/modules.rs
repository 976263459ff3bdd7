use vstd::prelude::*;
use crate::classification::{Classification, Inclusion, included, spec_included};

verus! {

/// The capability modules this application knows how to attach to the host
/// builder during bootstrap.
#[derive(Clone, Copy, PartialEq, Eq, Structural, Debug)]
pub enum ModuleId {
    /// Camera-based barcode scanning; only meaningful on mobile targets.
    BarcodeScanner,
    /// The bridge that exposes operating-system information.
    OsInfo,
    /// The log collector, wanted only while developing.
    LogCollector,
}

/// One row of the declarative module table: a module together with the
/// predicate under which it is included.
#[derive(Clone, Copy, PartialEq, Eq, Structural, Debug)]
pub struct ModuleEntry {
    pub id: ModuleId,
    pub inclusion: Inclusion,
}

/// The statically declared, ordered module table: the barcode scanner on
/// mobile targets, then the OS bridge unconditionally, then the log
/// collector in debug builds. Registration order is exactly this order.
pub open spec fn declared_table() -> Seq<ModuleEntry> {
    seq![
        ModuleEntry { id: ModuleId::BarcodeScanner, inclusion: Inclusion::IfMobile },
        ModuleEntry { id: ModuleId::OsInfo, inclusion: Inclusion::Always },
        ModuleEntry { id: ModuleId::LogCollector, inclusion: Inclusion::IfDebug },
    ]
}

/// The ids of the entries of `entries` whose inclusion predicate holds under
/// `c`, in the order in which they stand in `entries`.
pub open spec fn included_ids(entries: Seq<ModuleEntry>, c: Classification) -> Seq<ModuleId>
    decreases entries.len(),
{
    if entries.len() == 0 {
        Seq::empty()
    } else {
        let prefix = included_ids(entries.drop_last(), c);
        if spec_included(entries.last().inclusion, c) {
            prefix.push(entries.last().id)
        } else {
            prefix
        }
    }
}

/// The modules bootstrap will attempt under `c`, in registration order.
pub open spec fn spec_plan(c: Classification) -> Seq<ModuleId> {
    included_ids(declared_table(), c)
}

/// The declared module table as a value.
pub fn module_table() -> (t: Vec<ModuleEntry>)
    ensures
        t@ == declared_table(),
{
    let mut t: Vec<ModuleEntry> = Vec::new();
    t.push(ModuleEntry { id: ModuleId::BarcodeScanner, inclusion: Inclusion::IfMobile });
    t.push(ModuleEntry { id: ModuleId::OsInfo, inclusion: Inclusion::Always });
    t.push(ModuleEntry { id: ModuleId::LogCollector, inclusion: Inclusion::IfDebug });
    proof {
        assert(t@ =~= declared_table());
    }
    t
}

/// The ordered list of modules to attempt under `c`: the declared table,
/// restricted to the entries whose inclusion predicate holds.
pub fn plan(c: Classification) -> (p: Vec<ModuleId>)
    ensures
        p@ == spec_plan(c),
{
    let table = module_table();
    let mut p: Vec<ModuleId> = Vec::new();
    let mut i: usize = 0;
    while i < table.len()
        invariant
            i <= table.len(),
            table@ == declared_table(),
            p@ == included_ids(table@.take(i as int), c),
        decreases table.len() - i,
    {
        proof {
            assert(table@.take(i + 1).drop_last() =~= table@.take(i as int));
            assert(table@.take(i + 1).last() == table@[i as int]);
        }
        if included(table[i].inclusion, c) {
            p.push(table[i].id);
        }
        i = i + 1;
    }
    proof {
        assert(table@.take(table@.len() as int) =~= table@);
    }
    p
}

} // verus!
