//! Registration of the module: every operation bound to its export name.
use vstd::prelude::*;
use crate::request::Op;

verus! {

/// One export: the name scripts import, and the operation behind it.
#[derive(Clone, Debug, PartialEq, Eq)]
pub struct Export {
    pub name: String,
    pub op: Op,
}

impl View for Export {
    type V = (Seq<char>, Op);

    open spec fn view(&self) -> (Seq<char>, Op) {
        (self.name@, self.op)
    }
}

/// A native module: its import name and its exports, whose names the module
/// system also learns ahead of loading.
#[derive(Clone, Debug, PartialEq, Eq)]
pub struct ModuleDef {
    pub name: String,
    pub exports: Vec<Export>,
}

pub ghost struct ModuleView {
    pub name: Seq<char>,
    pub exports: Seq<(Seq<char>, Op)>,
}

impl View for ModuleDef {
    type V = ModuleView;

    open spec fn view(&self) -> ModuleView {
        ModuleView { name: self.name@, exports: self.exports@.map_values(|e: Export| e@) }
    }
}

/// The native modules an engine knows, in order of registration.
#[derive(Clone, Debug, PartialEq, Eq)]
pub struct ModuleRegistry {
    pub modules: Vec<ModuleDef>,
}

impl View for ModuleRegistry {
    type V = Seq<ModuleView>;

    open spec fn view(&self) -> Seq<ModuleView> {
        self.modules@.map_values(|m: ModuleDef| m@)
    }
}

impl ModuleRegistry {
    pub fn new() -> (r: ModuleRegistry)
        ensures
            r@ == Seq::<ModuleView>::empty(),
    {
        let r = ModuleRegistry { modules: Vec::new() };
        assert(r@ =~= Seq::<ModuleView>::empty());
        r
    }
}

/// The operations in the order they are exported.
pub open spec fn fs_ops() -> Seq<Op> {
    seq![
        Op::StatSync, Op::LstatSync, Op::FstatSync, Op::MkdirSync, Op::RmdirSync, Op::RmSync,
        Op::RenameSync, Op::TruncateSync, Op::FtruncateSync, Op::RealpathSync, Op::CopyFileSync,
        Op::LinkSync, Op::SymlinkSync, Op::UtimeSync, Op::FutimeSync, Op::FcloseSync,
        Op::FsyncSync, Op::FdatasyncSync, Op::FreadSync, Op::Fread, Op::OpenSync,
    ]
}

pub open spec fn export_name_of(op: Op) -> Seq<char> {
    match op {
        Op::StatSync => "statSync"@,
        Op::LstatSync => "lstatSync"@,
        Op::FstatSync => "fstatSync"@,
        Op::MkdirSync => "mkdirSync"@,
        Op::RmdirSync => "rmdirSync"@,
        Op::RmSync => "rmSync"@,
        Op::RenameSync => "renameSync"@,
        Op::TruncateSync => "truncateSync"@,
        Op::FtruncateSync => "ftruncateSync"@,
        Op::RealpathSync => "realpathSync"@,
        Op::CopyFileSync => "copyFileSync"@,
        Op::LinkSync => "linkSync"@,
        Op::SymlinkSync => "symlinkSync"@,
        Op::UtimeSync => "utimeSync"@,
        Op::FutimeSync => "futimeSync"@,
        Op::FcloseSync => "fcloseSync"@,
        Op::FsyncSync => "fsyncSync"@,
        Op::FdatasyncSync => "fdatasyncSync"@,
        Op::FreadSync => "freadSync"@,
        Op::Fread => "fread"@,
        Op::OpenSync => "openSync"@,
    }
}

/// The module this crate registers.
pub open spec fn fs_module() -> ModuleView {
    ModuleView {
        name: "_node:fs"@,
        exports: fs_ops().map_values(|op: Op| (export_name_of(op), op)),
    }
}

pub fn export_name(op: Op) -> (r: String)
    ensures
        r@ == export_name_of(op),
{
    match op {
        Op::StatSync => "statSync".to_owned(),
        Op::LstatSync => "lstatSync".to_owned(),
        Op::FstatSync => "fstatSync".to_owned(),
        Op::MkdirSync => "mkdirSync".to_owned(),
        Op::RmdirSync => "rmdirSync".to_owned(),
        Op::RmSync => "rmSync".to_owned(),
        Op::RenameSync => "renameSync".to_owned(),
        Op::TruncateSync => "truncateSync".to_owned(),
        Op::FtruncateSync => "ftruncateSync".to_owned(),
        Op::RealpathSync => "realpathSync".to_owned(),
        Op::CopyFileSync => "copyFileSync".to_owned(),
        Op::LinkSync => "linkSync".to_owned(),
        Op::SymlinkSync => "symlinkSync".to_owned(),
        Op::UtimeSync => "utimeSync".to_owned(),
        Op::FutimeSync => "futimeSync".to_owned(),
        Op::FcloseSync => "fcloseSync".to_owned(),
        Op::FsyncSync => "fsyncSync".to_owned(),
        Op::FdatasyncSync => "fdatasyncSync".to_owned(),
        Op::FreadSync => "freadSync".to_owned(),
        Op::Fread => "fread".to_owned(),
        Op::OpenSync => "openSync".to_owned(),
    }
}

/// The operations in export order.
pub fn fs_op_list() -> (r: Vec<Op>)
    ensures
        r@ == fs_ops(),
{
    let mut r: Vec<Op> = Vec::new();
    r.push(Op::StatSync);
    r.push(Op::LstatSync);
    r.push(Op::FstatSync);
    r.push(Op::MkdirSync);
    r.push(Op::RmdirSync);
    r.push(Op::RmSync);
    r.push(Op::RenameSync);
    r.push(Op::TruncateSync);
    r.push(Op::FtruncateSync);
    r.push(Op::RealpathSync);
    r.push(Op::CopyFileSync);
    r.push(Op::LinkSync);
    r.push(Op::SymlinkSync);
    r.push(Op::UtimeSync);
    r.push(Op::FutimeSync);
    r.push(Op::FcloseSync);
    r.push(Op::FsyncSync);
    r.push(Op::FdatasyncSync);
    r.push(Op::FreadSync);
    r.push(Op::Fread);
    r.push(Op::OpenSync);
    assert(r@ =~= fs_ops());
    r
}

/// Registers the filesystem module: every operation, bound to its name.
pub fn init_module(registry: &mut ModuleRegistry)
    ensures
        final(registry)@ == old(registry)@.push(fs_module()),
{
    let ops = fs_op_list();
    let mut exports: Vec<Export> = Vec::new();
    let mut i: usize = 0;
    while i < ops.len()
        invariant
            ops@ == fs_ops(),
            i <= ops@.len(),
            exports@.len() == i,
            forall|j: int| 0 <= j < i ==> #[trigger] exports@[j]@ == (export_name_of(ops@[j]), ops@[j]),
        decreases ops@.len() - i,
    {
        let op = ops[i];
        exports.push(Export { name: export_name(op), op });
        i = i + 1;
    }
    let m = ModuleDef { name: "_node:fs".to_owned(), exports };
    assert(m@.exports =~= fs_module().exports);
    registry.modules.push(m);
    assert(registry@ =~= old(registry)@.push(fs_module()));
}

/// Each operation is exported exactly once.
pub proof fn lemma_every_op_exported(op: Op)
    ensures
        exists|i: int| 0 <= i < fs_module().exports.len() && fs_module().exports[i] == (export_name_of(op), op),
        forall|i: int, j: int|
            0 <= i < j < fs_module().exports.len() ==> fs_module().exports[i].1 != fs_module().exports[j].1,
{
    let ex = fs_module().exports;
    assert(ex.len() == 21);
    let i: int = match op {
        Op::StatSync => 0,
        Op::LstatSync => 1,
        Op::FstatSync => 2,
        Op::MkdirSync => 3,
        Op::RmdirSync => 4,
        Op::RmSync => 5,
        Op::RenameSync => 6,
        Op::TruncateSync => 7,
        Op::FtruncateSync => 8,
        Op::RealpathSync => 9,
        Op::CopyFileSync => 10,
        Op::LinkSync => 11,
        Op::SymlinkSync => 12,
        Op::UtimeSync => 13,
        Op::FutimeSync => 14,
        Op::FcloseSync => 15,
        Op::FsyncSync => 16,
        Op::FdatasyncSync => 17,
        Op::FreadSync => 18,
        Op::Fread => 19,
        Op::OpenSync => 20,
    };
    assert(ex[i] == (export_name_of(op), op));
    assert forall|i: int, j: int| 0 <= i < j < ex.len() implies ex[i].1 != ex[j].1 by {
        assert(ex[i].1 == fs_ops()[i]);
        assert(ex[j].1 == fs_ops()[j]);
    }
}

} // verus!
