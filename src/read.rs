//! The asynchronous read: the steps taken before the read is handed to the
//! event loop, and the completion token that the loop's callback settles.
use vstd::prelude::*;
use crate::error::{err_to_js_object, os_error_value, ErrorValue, ErrorView, OsError};
use crate::reply::{finish_seek, is_errno_failure};
use crate::value::{Reply, ReplyView};

verus! {

/// What the event loop reports for a read request.
#[derive(Clone, Debug, PartialEq, Eq)]
pub enum PollResult {
    /// The bytes that were read.
    Read(Vec<u8>),
    Error(OsError),
    /// Any other report, which a read request should not receive.
    Other,
}

/// The mathematical value of a [`PollResult`].
pub ghost enum PollView {
    Read(Seq<u8>),
    Error(OsError),
    Other,
}

impl View for PollResult {
    type V = PollView;

    open spec fn view(&self) -> PollView {
        match self {
            PollResult::Read(d) => PollView::Read(d@),
            PollResult::Error(e) => PollView::Error(*e),
            PollResult::Other => PollView::Other,
        }
    }
}

/// The state of a deferred completion.
#[derive(Clone, Debug, PartialEq, Eq)]
pub enum Settlement {
    Pending,
    /// Resolved with an array buffer over these bytes.
    Resolved(Vec<u8>),
    /// Rejected with this error object.
    Rejected(ErrorValue),
}

/// The mathematical value of a [`Settlement`].
pub ghost enum SettlementView {
    Pending,
    Resolved(Seq<u8>),
    Rejected(ErrorView),
}

impl View for Settlement {
    type V = SettlementView;

    open spec fn view(&self) -> SettlementView {
        match self {
            Settlement::Pending => SettlementView::Pending,
            Settlement::Resolved(d) => SettlementView::Resolved(d@),
            Settlement::Rejected(e) => SettlementView::Rejected(e@),
        }
    }
}

/// The error object for a report that a read should not receive.
pub open spec fn unexpected_report() -> ErrorView {
    ErrorView::Internal { message: "unexpected completion of a read"@ }
}

/// The state after the event loop reports `ev`: a pending token settles
/// once, and a settled one stays as it is.
pub open spec fn settle_spec(s: SettlementView, ev: PollView) -> SettlementView {
    match s {
        SettlementView::Pending => match ev {
            PollView::Read(d) => SettlementView::Resolved(d),
            PollView::Error(e) => SettlementView::Rejected(os_error_value(e)),
            PollView::Other => SettlementView::Rejected(unexpected_report()),
        },
        _ => s,
    }
}

/// A deferred completion of one read: settled once, by resolve or reject.
pub struct ReadToken {
    state: Settlement,
}

impl View for ReadToken {
    type V = SettlementView;

    closed spec fn view(&self) -> SettlementView {
        self.state@
    }
}

impl ReadToken {
    pub fn new() -> (r: ReadToken)
        ensures
            r@ == SettlementView::Pending,
    {
        ReadToken { state: Settlement::Pending }
    }

    pub fn state(&self) -> (r: &Settlement)
        ensures
            r@ == self@,
    {
        &self.state
    }

    pub fn is_settled(&self) -> (r: bool)
        ensures
            r <==> !(self@ is Pending),
    {
        match self.state {
            Settlement::Pending => false,
            _ => true,
        }
    }

    /// Applies the event loop's report. Data resolves the token, an error
    /// rejects it with the marshalled error, and any other report rejects it
    /// as internal, so no token is left pending. A settled token ignores
    /// further reports.
    pub fn settle(&mut self, res: PollResult)
        ensures
            final(self)@ == settle_spec(old(self)@, res@),
    {
        if self.is_settled() {
            return;
        }
        self.state = match res {
            PollResult::Read(data) => Settlement::Resolved(data),
            PollResult::Error(e) => Settlement::Rejected(err_to_js_object(&e)),
            PollResult::Other => Settlement::Rejected(
                ErrorValue::Internal { message: "unexpected completion of a read".to_owned() },
            ),
        };
    }
}

/// The next thing to do for an asynchronous read.
#[allow(inconsistent_fields)]
#[derive(Clone, Debug, PartialEq, Eq)]
pub enum ReadStep {
    /// End the call with this reply.
    Done(Reply),
    /// Move the offset of `fd` by `offset`, blocking, then call
    /// [`fread_after_seek`].
    Seek { fd: u32, offset: i64 },
    /// Hand the read of `len` bytes of `fd` to the event loop with a fresh
    /// [`ReadToken`], and reply with its promise.
    Register { fd: i32, len: u64 },
}

/// The first step of an asynchronous read. Without an event loop nothing is
/// done and the call yields undefined; a non-zero move of the offset comes
/// before the read is registered.
pub fn fread_begin(fd: i32, host_fd: u32, seek: Option<i64>, len: u64, has_event_loop: bool) -> (r:
    ReadStep)
    ensures
        !has_event_loop ==> r == ReadStep::Done(Reply::UnDefined),
        has_event_loop && seek is Some ==> r == (ReadStep::Seek { fd: host_fd, offset: seek.unwrap() }),
        has_event_loop && seek is None ==> r == (ReadStep::Register { fd, len }),
{
    if !has_event_loop {
        ReadStep::Done(Reply::UnDefined)
    } else {
        match seek {
            Some(offset) => ReadStep::Seek { fd: host_fd, offset },
            None => ReadStep::Register { fd, len },
        }
    }
}

/// The step after the offset move: a failure is raised at once and the read
/// never reaches the event loop.
pub fn fread_after_seek(res: Result<u64, wasi::Errno>, fd: i32, len: u64) -> (r: ReadStep)
    ensures
        res is Ok ==> r == (ReadStep::Register { fd, len }),
        res is Err ==> (r matches ReadStep::Done(q) && is_errno_failure(q@)),
{
    match finish_seek(res) {
        None => ReadStep::Register { fd, len },
        Some(q) => ReadStep::Done(q),
    }
}

/// The reply of a blocking read that succeeded into `buf`.
pub open spec fn sync_read_reply(buf: Seq<u8>) -> ReplyView {
    ReplyView::Buffer(buf)
}

/// An asynchronous read starts pending, so the call returns before any
/// resolution; when the loop delivers bytes, the token resolves with the
/// very bytes that a blocking read of them returns, and it settles only once.
pub proof fn lemma_async_read_matches_sync(data: Seq<u8>, later: PollView)
    ensures
        ({
            let s = settle_spec(SettlementView::Pending, PollView::Read(data));
            &&& s is Resolved
            &&& sync_read_reply(data) == ReplyView::Buffer(s->Resolved_0)
            &&& settle_spec(s, later) == s
        }),
{
}

} // verus!
