//! The durable primitives as plans of single system calls: each mutation is
//! followed by the fsyncs that make it survive a crash, and a failed create or
//! copy is followed by the removal of what it may have left half written.
use vstd::prelude::*;

use crate::error::IoFault;
use crate::fsop::{clone_bytes, clone_fault, FsOp, OpV};
use crate::path::{get_parent_as_string, parent_of};

verus! {

/// One system call.
pub enum SysOp {
    /// Open `path` for writing (creating or truncating it, with permission bits
    /// `mode` if given), write `content` and fsync the file.
    Write { path: String, mode: Option<u32>, content: Vec<u8> },
    /// Copy the file `from` to `to`.
    Copy { from: String, to: String },
    /// Rename `from` to `to`.
    Rename { from: String, to: String },
    /// Remove the file `path`.
    Unlink { path: String },
    /// Open `path`, a file or a directory, and fsync it.
    Sync { path: String },
}

/// The view of a `SysOp`.
pub ghost enum SysOpV {
    Write { path: Seq<char>, mode: Option<u32>, content: Seq<u8> },
    Copy { from: Seq<char>, to: Seq<char> },
    Rename { from: Seq<char>, to: Seq<char> },
    Unlink { path: Seq<char> },
    Sync { path: Seq<char> },
}

impl View for SysOp {
    type V = SysOpV;

    open spec fn view(&self) -> SysOpV {
        match self {
            SysOp::Write { path, mode, content } => SysOpV::Write {
                path: path@,
                mode: *mode,
                content: content@,
            },
            SysOp::Copy { from, to } => SysOpV::Copy { from: from@, to: to@ },
            SysOp::Rename { from, to } => SysOpV::Rename { from: from@, to: to@ },
            SysOp::Unlink { path } => SysOpV::Unlink { path: path@ },
            SysOp::Sync { path } => SysOpV::Sync { path: path@ },
        }
    }
}

/// The views of a sequence of system calls.
pub open spec fn ops_view(v: Seq<SysOp>) -> Seq<SysOpV> {
    v.map_values(|o: SysOp| o@)
}

/// What a plan asks for next: a system call, or its outcome.
pub enum Step {
    Call(SysOp),
    Finish(Result<(), IoFault>),
}

/// The view of a `Step`.
pub ghost enum StepV {
    Call(SysOpV),
    /// The outcome: success, or the operating-system code of the failure.
    Finish(Result<(), Option<i32>>),
}

impl View for Step {
    type V = StepV;

    open spec fn view(&self) -> StepV {
        match self {
            Step::Call(op) => StepV::Call(op@),
            Step::Finish(Ok(())) => StepV::Finish(Ok(())),
            Step::Finish(Err(f)) => StepV::Finish(Err(f.code)),
        }
    }
}

/// A durable primitive in progress: the calls of its plan in order, until one
/// fails; then the calls of its cleanup, whose outcomes are ignored.
pub struct Durable {
    pub plan: Vec<SysOp>,
    pub cleanup: Vec<SysOp>,
    /// The position in the plan, or in the cleanup once a call has failed.
    pub pos: usize,
    /// The failure of the plan, once a call has failed.
    pub fault: Option<IoFault>,
}

/// The view of a `Durable`.
pub ghost struct DurableV {
    pub plan: Seq<SysOpV>,
    pub cleanup: Seq<SysOpV>,
    pub pos: int,
    pub fault: Option<Option<i32>>,
}

impl View for Durable {
    type V = DurableV;

    open spec fn view(&self) -> DurableV {
        DurableV {
            plan: ops_view(self.plan@),
            cleanup: ops_view(self.cleanup@),
            pos: self.pos as int,
            fault: match self.fault {
                Some(f) => Some(f.code),
                None => None,
            },
        }
    }
}

/// What the primitive in state `d` asks for.
pub open spec fn durable_pending(d: DurableV) -> StepV {
    match d.fault {
        None => if 0 <= d.pos < d.plan.len() {
            StepV::Call(d.plan[d.pos])
        } else {
            StepV::Finish(Ok(()))
        },
        Some(code) => if 0 <= d.pos < d.cleanup.len() {
            StepV::Call(d.cleanup[d.pos])
        } else {
            StepV::Finish(Err(code))
        },
    }
}

/// The state after the primitive in state `d` learns the outcome of its call:
/// `None` for success, `Some(code)` for a failure.
pub open spec fn durable_advance(d: DurableV, outcome: Option<Option<i32>>) -> DurableV {
    match d.fault {
        None => if 0 <= d.pos < d.plan.len() {
            match outcome {
                None => DurableV { pos: d.pos + 1, ..d },
                Some(code) => DurableV { pos: 0, fault: Some(code), ..d },
            }
        } else {
            d
        },
        Some(_) => if 0 <= d.pos < d.cleanup.len() {
            DurableV { pos: d.pos + 1, ..d }
        } else {
            d
        },
    }
}

/// The outcome of a system call: `None` for success, the failure's code otherwise.
pub open spec fn fault_view(r: Result<(), IoFault>) -> Option<Option<i32>> {
    match r {
        Ok(()) => None,
        Err(f) => Some(f.code),
    }
}

/// A primitive with plan `plan` and cleanup `cleanup`, before its first call.
pub open spec fn durable_start(plan: Seq<SysOpV>, cleanup: Seq<SysOpV>) -> DurableV {
    DurableV { plan, cleanup, pos: 0, fault: None }
}

/// The plan of `safe_create`.
pub open spec fn create_plan(path: Seq<char>, mode: Option<u32>, content: Seq<u8>) -> DurableV {
    match parent_of(path) {
        Some(dir) => durable_start(
            seq![SysOpV::Write { path, mode, content }, SysOpV::Sync { path: dir }],
            seq![SysOpV::Unlink { path }, SysOpV::Sync { path: dir }],
        ),
        None => durable_failed(None),
    }
}

/// The plan of `safe_copy`.
pub open spec fn copy_plan(from: Seq<char>, to: Seq<char>) -> DurableV {
    match parent_of(to) {
        Some(dir) => durable_start(
            seq![SysOpV::Copy { from, to }, SysOpV::Sync { path: to }, SysOpV::Sync { path: dir }],
            seq![SysOpV::Unlink { path: to }, SysOpV::Sync { path: dir }],
        ),
        None => durable_failed(None),
    }
}

/// The plan of `safe_rename`.
pub open spec fn rename_plan(from: Seq<char>, to: Seq<char>) -> DurableV {
    match parent_of(to) {
        Some(dir) => durable_start(
            seq![SysOpV::Rename { from, to }, SysOpV::Sync { path: to }, SysOpV::Sync { path: dir }],
            Seq::empty(),
        ),
        None => durable_failed(None),
    }
}

/// The plan of `safe_remove`.
pub open spec fn remove_plan(path: Seq<char>) -> DurableV {
    match parent_of(path) {
        Some(dir) => durable_start(
            seq![SysOpV::Unlink { path }, SysOpV::Sync { path: dir }],
            Seq::empty(),
        ),
        None => durable_failed(None),
    }
}

/// The plan of the durable primitive that performs a mutating request.
pub open spec fn plan_of(op: OpV) -> Option<DurableV> {
    match op {
        OpV::Create { path, mode, content } => Some(create_plan(path, mode, content)),
        OpV::Copy { from, to } => Some(copy_plan(from, to)),
        OpV::Rename { from, to } => Some(rename_plan(from, to)),
        OpV::Remove { path } => Some(remove_plan(path)),
        _ => None,
    }
}

/// The fault of a path without a parent directory to fsync.
fn no_parent() -> (r: IoFault)
    ensures
        r.code is None,
{
    IoFault { code: None, message: "Cannot evaluate the parent directory".to_owned() }
}

/// A primitive that fails at once with `fault`.
pub open spec fn durable_failed(code: Option<i32>) -> DurableV {
    DurableV { plan: Seq::empty(), cleanup: Seq::empty(), pos: 0, fault: Some(code) }
}

fn clone_op(op: &SysOp) -> (r: SysOp)
    ensures
        r@ == op@,
{
    match op {
        SysOp::Write { path, mode, content } => SysOp::Write {
            path: path.clone(),
            mode: *mode,
            content: clone_bytes(content),
        },
        SysOp::Copy { from, to } => SysOp::Copy { from: from.clone(), to: to.clone() },
        SysOp::Rename { from, to } => SysOp::Rename { from: from.clone(), to: to.clone() },
        SysOp::Unlink { path } => SysOp::Unlink { path: path.clone() },
        SysOp::Sync { path } => SysOp::Sync { path: path.clone() },
    }
}

impl Durable {
    fn start(plan: Vec<SysOp>, cleanup: Vec<SysOp>) -> (r: Durable)
        ensures
            r@ == durable_start(ops_view(plan@), ops_view(cleanup@)),
    {
        Durable { plan, cleanup, pos: 0, fault: None }
    }

    fn failed(fault: IoFault) -> (r: Durable)
        ensures
            r@ == durable_failed(fault.code),
    {
        let r = Durable { plan: Vec::new(), cleanup: Vec::new(), pos: 0, fault: Some(fault) };
        assert(ops_view(r.plan@) =~= Seq::<SysOpV>::empty());
        r
    }

    /// What the primitive asks for: the next system call, or its outcome.
    pub fn next(&self) -> (s: Step)
        ensures
            s@ == durable_pending(self@),
    {
        match &self.fault {
            None => if self.pos < self.plan.len() {
                Step::Call(clone_op(&self.plan[self.pos]))
            } else {
                Step::Finish(Ok(()))
            },
            Some(f) => if self.pos < self.cleanup.len() {
                Step::Call(clone_op(&self.cleanup[self.pos]))
            } else {
                Step::Finish(Err(clone_fault(f)))
            },
        }
    }

    /// Takes the outcome of the system call that `next` asked for.
    pub fn resume(&mut self, outcome: Result<(), IoFault>)
        ensures
            final(self)@ == durable_advance(old(self)@, fault_view(outcome)),
    {
        if self.fault.is_none() {
            if self.pos < self.plan.len() {
                match outcome {
                    Ok(()) => {
                        self.pos = self.pos + 1;
                    },
                    Err(f) => {
                        self.pos = 0;
                        self.fault = Some(f);
                    },
                }
            }
        } else if self.pos < self.cleanup.len() {
            self.pos = self.pos + 1;
        }
    }
}

/// Creates or truncates `path`, writes `content` and fsyncs the file and its
/// parent directory; where a call fails, removes the file and fsyncs the
/// directory again before reporting the failure.
pub fn safe_create(path: &str, mode: Option<u32>, content: Vec<u8>) -> (r: Durable)
    ensures
        r@ == create_plan(path@, mode, content@),
{
    match get_parent_as_string(path) {
        Ok(dir) => {
            let plan = vec![
                SysOp::Write { path: path.to_owned(), mode, content },
                SysOp::Sync { path: dir.clone() },
            ];
            let cleanup = vec![SysOp::Unlink { path: path.to_owned() }, SysOp::Sync { path: dir }];
            let r = Durable::start(plan, cleanup);
            assert(r@.plan =~= seq![
                SysOpV::Write { path: path@, mode, content: content@ },
                SysOpV::Sync { path: parent_of(path@)->Some_0 },
            ]);
            assert(r@.cleanup =~= seq![
                SysOpV::Unlink { path: path@ },
                SysOpV::Sync { path: parent_of(path@)->Some_0 },
            ]);
            r
        },
        Err(_) => Durable::failed(no_parent()),
    }
}

/// Copies `from` to `to` and fsyncs the copy and its parent directory; where a
/// call fails, removes the copy and fsyncs the directory again before
/// reporting the failure.
pub fn safe_copy(from: &str, to: &str) -> (r: Durable)
    ensures
        r@ == copy_plan(from@, to@),
{
    match get_parent_as_string(to) {
        Ok(dir) => {
            let plan = vec![
                SysOp::Copy { from: from.to_owned(), to: to.to_owned() },
                SysOp::Sync { path: to.to_owned() },
                SysOp::Sync { path: dir.clone() },
            ];
            let cleanup = vec![SysOp::Unlink { path: to.to_owned() }, SysOp::Sync { path: dir }];
            let r = Durable::start(plan, cleanup);
            assert(r@.plan =~= seq![
                SysOpV::Copy { from: from@, to: to@ },
                SysOpV::Sync { path: to@ },
                SysOpV::Sync { path: parent_of(to@)->Some_0 },
            ]);
            assert(r@.cleanup =~= seq![
                SysOpV::Unlink { path: to@ },
                SysOpV::Sync { path: parent_of(to@)->Some_0 },
            ]);
            r
        },
        Err(_) => Durable::failed(no_parent()),
    }
}

/// Renames `from` to `to`, then fsyncs the renamed file and its parent directory.
pub fn safe_rename(from: &str, to: &str) -> (r: Durable)
    ensures
        r@ == rename_plan(from@, to@),
{
    match get_parent_as_string(to) {
        Ok(dir) => {
            let plan = vec![
                SysOp::Rename { from: from.to_owned(), to: to.to_owned() },
                SysOp::Sync { path: to.to_owned() },
                SysOp::Sync { path: dir },
            ];
            let r = Durable::start(plan, Vec::new());
            assert(r@.plan =~= seq![
                SysOpV::Rename { from: from@, to: to@ },
                SysOpV::Sync { path: to@ },
                SysOpV::Sync { path: parent_of(to@)->Some_0 },
            ]);
            assert(r@.cleanup =~= Seq::<SysOpV>::empty());
            r
        },
        Err(_) => Durable::failed(no_parent()),
    }
}

/// Removes `path`, then fsyncs its parent directory.
pub fn safe_remove(path: &str) -> (r: Durable)
    ensures
        r@ == remove_plan(path@),
{
    match get_parent_as_string(path) {
        Ok(dir) => {
            let plan = vec![SysOp::Unlink { path: path.to_owned() }, SysOp::Sync { path: dir }];
            let r = Durable::start(plan, Vec::new());
            assert(r@.plan =~= seq![
                SysOpV::Unlink { path: path@ },
                SysOpV::Sync { path: parent_of(path@)->Some_0 },
            ]);
            assert(r@.cleanup =~= Seq::<SysOpV>::empty());
            r
        },
        Err(_) => Durable::failed(no_parent()),
    }
}

/// The durable primitive that performs a mutating request; `None` for a read
/// or a listing, which need no plan.
pub fn durable_for(op: FsOp) -> (r: Option<Durable>)
    ensures
        match r {
            Some(d) => plan_of(op@) == Some(d@),
            None => plan_of(op@) is None,
        },
{
    match op {
        FsOp::CreateFile { path, mode, content } => Some(safe_create(path.as_str(), mode, content)),
        FsOp::CopyFile { from, to } => Some(safe_copy(from.as_str(), to.as_str())),
        FsOp::RenameFile { from, to } => Some(safe_rename(from.as_str(), to.as_str())),
        FsOp::RemoveFile { path } => Some(safe_remove(path.as_str())),
        FsOp::ReadFile { .. } => None,
        FsOp::ListDir { .. } => None,
    }
}

} // verus!
