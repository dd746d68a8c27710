//! The rules of the file operations `open`, `close` and `seek`: which
//! permissions an open needs, how an opened file enters the resource table,
//! and how a seek request is checked and resolved to a file before any I/O.
use vstd::prelude::*;

use crate::dispatch::{OpCode, OpRegistry, Reply};
use crate::error::{OpError, PermissionKind};
use crate::resource_table::{Resource, ResourceTable};

verus! {

/// The capability record of an open request: independent flags, each false
/// unless the request sets it. They map one to one onto the operating
/// system's open flags.
#[derive(Clone, Copy, Debug, PartialEq, Eq, Structural)]
pub struct OpenOptions {
    pub read: bool,
    pub write: bool,
    pub create: bool,
    pub truncate: bool,
    pub append: bool,
    pub create_new: bool,
}

impl Default for OpenOptions {
    /// No flag set.
    fn default() -> (o: OpenOptions)
        ensures
            !o.read && !o.write && !o.create && !o.truncate && !o.append && !o.create_new,
    {
        OpenOptions {
            read: false,
            write: false,
            create: false,
            truncate: false,
            append: false,
            create_new: false,
        }
    }
}

impl OpenOptions {
    /// The policy must allow reading before the file is opened.
    pub open spec fn needs_read(self) -> bool {
        self.read
    }

    /// The policy must allow writing before the file is opened.
    pub open spec fn needs_write(self) -> bool {
        self.write || self.append
    }

    /// Whether the permission policy must be asked for read access.
    pub fn read_check(&self) -> (b: bool)
        ensures
            b == self.needs_read(),
    {
        self.read
    }

    /// Whether the permission policy must be asked for write access.
    pub fn write_check(&self) -> (b: bool)
        ensures
            b == self.needs_write(),
    {
        self.write || self.append
    }
}

/// Decides an open request from the permission policy's answers, before any
/// operating-system call. `read_granted` and `write_granted` are the policy's
/// answers for the resolved path; an answer that the request does not need is
/// ignored. Read is checked first, then write.
pub fn open_permitted(cap: &OpenOptions, read_granted: bool, write_granted: bool) -> (res: Result<
    (),
    OpError,
>)
    ensures
        res is Ok <==> (cap.needs_read() ==> read_granted) && (cap.needs_write()
            ==> write_granted),
        cap.needs_read() && !read_granted ==> res == Err::<(), OpError>(
            OpError::PermissionDenied(PermissionKind::Read),
        ),
        (cap.needs_read() ==> read_granted) && cap.needs_write() && !write_granted ==> res
            == Err::<(), OpError>(OpError::PermissionDenied(PermissionKind::Write)),
{
    if cap.read_check() && !read_granted {
        return Err(OpError::PermissionDenied(PermissionKind::Read));
    }
    if cap.write_check() && !write_granted {
        return Err(OpError::PermissionDenied(PermissionKind::Write));
    }
    Ok(())
}

/// Completes an open once the operating system has answered: an opened file
/// enters the table and its fresh handle is the reply; a refusal becomes
/// `IoFailure` and the table is left as it was.
pub fn finish_open<F>(table: &mut ResourceTable<Resource<F>>, opened: Result<F, String>) -> (res:
    Result<Reply, OpError>)
    requires
        old(table).wf(),
        old(table)@.next_rid < u32::MAX as nat,
    ensures
        final(table).wf(),
        opened matches Ok(f) ==> res == Ok::<Reply, OpError>(Reply::Rid(old(table)@.next_rid as u32))
            && final(table)@ == old(table)@.added(Resource::FsFile(f)),
        opened matches Err(msg) ==> res == Err::<Reply, OpError>(OpError::IoFailure(msg))
            && final(table)@ == old(table)@,
{
    match opened {
        Ok(f) => {
            let rid = table.add(Resource::FsFile(f));
            Ok(Reply::Rid(rid))
        },
        Err(msg) => Err(OpError::IoFailure(msg)),
    }
}

/// Closes the resource under `rid` and replies with an empty value;
/// `BadResource` when the handle is unknown or already closed.
pub fn op_close<R>(table: &mut ResourceTable<R>, rid: i32) -> (res: Result<Reply, OpError>)
    requires
        old(table).wf(),
    ensures
        final(table).wf(),
        final(table)@ == old(table)@.closed(rid as u32),
        old(table)@.entries.contains_key(rid as u32) ==> res == Ok::<Reply, OpError>(Reply::Empty),
        !old(table)@.entries.contains_key(rid as u32) ==> res == Err::<Reply, OpError>(
            OpError::BadResource,
        ),
{
    match table.close(rid as u32) {
        Ok(()) => Ok(Reply::Empty),
        Err(e) => Err(e),
    }
}

/// Where a seek is measured from, with its offset.
#[derive(Clone, Copy, Debug, PartialEq, Eq, Structural)]
pub enum SeekOrigin {
    /// An unsigned offset from the start of the file.
    Start(u64),
    /// A signed offset from the current position.
    Current(i64),
    /// A signed offset from the end of the file.
    End(i64),
}

/// The origin that `whence` selects (0 start, 1 current, 2 end), if any.
pub open spec fn spec_seek_origin(offset: i32, whence: i32) -> Option<SeekOrigin> {
    let w = whence as u32;
    if w == 0 {
        Some(SeekOrigin::Start(offset as u64))
    } else if w == 1 {
        Some(SeekOrigin::Current(offset as i64))
    } else if w == 2 {
        Some(SeekOrigin::End(offset as i64))
    } else {
        None
    }
}

/// Translates a seek request's `whence` and `offset`; `InvalidSeekMode`, with
/// the rejected value, for a `whence` outside {0, 1, 2}.
pub fn seek_origin(offset: i32, whence: i32) -> (res: Result<SeekOrigin, OpError>)
    ensures
        spec_seek_origin(offset, whence) matches Some(o) ==> res == Ok::<SeekOrigin, OpError>(o),
        spec_seek_origin(offset, whence) is None ==> res == Err::<SeekOrigin, OpError>(
            OpError::InvalidSeekMode(whence as u32),
        ),
{
    let w = whence as u32;
    if w == 0 {
        Ok(SeekOrigin::Start(offset as u64))
    } else if w == 1 {
        Ok(SeekOrigin::Current(offset as i64))
    } else if w == 2 {
        Ok(SeekOrigin::End(offset as i64))
    } else {
        Err(OpError::InvalidSeekMode(w))
    }
}

/// The file stored under `rid`; `BadResource` when the handle is unknown,
/// closed, or names a resource that is not a file.
pub fn lookup_file<F>(table: &ResourceTable<Resource<F>>, rid: u32) -> (res: Result<&F, OpError>)
    ensures
        res is Ok <==> table@.entries.contains_key(rid),
        res matches Ok(f) ==> table@.entries[rid] == Resource::FsFile(*f),
        res matches Err(e) ==> e == OpError::BadResource,
{
    match table.get(rid) {
        Ok(Resource::FsFile(f)) => Ok(f),
        Err(e) => Err(e),
    }
}

/// Checks a seek request and resolves it, before any I/O, to the file to move
/// and the origin to move it by. `whence` is checked first, so an invalid one
/// fails with `InvalidSeekMode` whatever the handle; then the handle must name
/// an open file. The table is only read.
pub fn seek_target<'a, F>(table: &'a ResourceTable<Resource<F>>, rid: i32, offset: i32, whence: i32) -> (res: Result<
    (&'a F, SeekOrigin),
    OpError,
>)
    ensures
        spec_seek_origin(offset, whence) is None ==> res == Err::<(&'a F, SeekOrigin), OpError>(
            OpError::InvalidSeekMode(whence as u32),
        ),
        spec_seek_origin(offset, whence) is Some && !table@.entries.contains_key(rid as u32) ==> res
            == Err::<(&'a F, SeekOrigin), OpError>(OpError::BadResource),
        res matches Ok((f, o)) ==> spec_seek_origin(offset, whence) == Some(o)
            && table@.entries.contains_key(rid as u32) && table@.entries[rid as u32]
            == Resource::FsFile(*f),
        spec_seek_origin(offset, whence) is Some && table@.entries.contains_key(rid as u32)
            ==> res is Ok,
{
    let origin = match seek_origin(offset, whence) {
        Ok(o) => o,
        Err(e) => return Err(e),
    };
    match lookup_file(table, rid as u32) {
        Ok(f) => Ok((f, origin)),
        Err(e) => Err(e),
    }
}

/// Registers the file operations `open`, `close` and `seek`.
pub fn init(registry: &mut OpRegistry)
    requires
        old(registry).wf(),
    ensures
        final(registry).wf(),
        final(registry).handler_for("open"@) == Some(OpCode::Open),
        final(registry).handler_for("close"@) == Some(OpCode::Close),
        final(registry).handler_for("seek"@) == Some(OpCode::Seek),
        forall|other: Seq<char>|
            other != "open"@ && other != "close"@ && other != "seek"@
                ==> #[trigger] final(registry).handler_for(other) == old(registry).handler_for(
                other,
            ),
{
    proof {
        reveal_strlit("open");
        reveal_strlit("close");
        reveal_strlit("seek");
        assert("open"@.len() != "close"@.len());
        assert("seek"@.len() != "close"@.len());
        assert("open"@[0] != "seek"@[0]);
    }
    registry.register("open", OpCode::Open);
    registry.register("close", OpCode::Close);
    assert(registry.handler_for("open"@) == Some(OpCode::Open));
    registry.register("seek", OpCode::Seek);
    assert(registry.handler_for("open"@) == Some(OpCode::Open));
    assert(registry.handler_for("close"@) == Some(OpCode::Close));
}

} // verus!
