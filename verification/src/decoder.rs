use crate::engine::{is_recognized, read_outcome, recognized, Format, Reply, Request, STATUS_DONE, STATUS_OK};
use crate::error::{Error, Failure};
use vstd::prelude::*;
use vstd::string::*;

verus! {

/// Where a session stands in its life. Each stage but `Ready` and `Released`
/// waits for the answer to one engine call.
#[derive(Debug, Clone, Copy, PartialEq, Eq, Structural)]
pub enum Stage {
    /// Waiting for the engine's process-wide initialisation.
    Bootstrapping,
    /// Waiting for a handle.
    Allocating,
    /// Waiting for the decode flags to be applied.
    Configuring,
    /// Waiting for the source to be opened.
    Opening,
    /// Waiting for the output format.
    Negotiating,
    /// Constructed: the format is known and the session can be read.
    Ready,
    /// Being disposed of: waiting for the input to be closed.
    Closing,
    /// Being disposed of: waiting for the handle to be freed.
    Deleting,
    /// Over: the session holds no handle.
    Released,
}

/// Whether a source identifier can be handed to the engine, which takes it as
/// a C string: it holds no NUL character.
pub open spec fn passable(source: Seq<char>) -> bool {
    !source.contains('\0')
}

/// The mathematical value of a [`Decoder`].
pub struct Session {
    pub stage: Stage,
    /// The handle the engine handed out, zero while the session holds none.
    pub handle: usize,
    pub params: Option<i64>,
    pub source: Seq<char>,
    /// The negotiated format, from the moment the session is ready.
    pub format: Option<Format>,
    /// Why construction failed, if it did.
    pub failure: Option<Failure>,
    /// Whether the engine reported a failure to close during disposal.
    pub close_failed: bool,
}

impl Session {
    /// The session as `new` makes it: nothing asked of the engine yet.
    pub open spec fn initial(source: Seq<char>, params: Option<i64>) -> Session {
        Session {
            stage: Stage::Bootstrapping,
            handle: 0,
            params,
            source,
            format: None,
            failure: None,
            close_failed: false,
        }
    }

    /// Whether the session owns a handle that the engine has not got back.
    pub open spec fn holds_handle(self) -> bool {
        match self.stage {
            Stage::Bootstrapping | Stage::Allocating | Stage::Released => false,
            _ => true,
        }
    }

    /// The number of engine handles that this session has outstanding.
    pub open spec fn outstanding(self) -> int {
        if self.holds_handle() {
            1
        } else {
            0
        }
    }

    /// Whether the session waits for no engine call.
    pub open spec fn at_rest(self) -> bool {
        self.stage == Stage::Ready || self.stage == Stage::Released
    }

    /// What holds of every session that `new` and the transitions produce.
    pub open spec fn wf(self) -> bool {
        &&& self.holds_handle() <==> self.handle != 0
        &&& self.stage == Stage::Ready ==> self.format is Some
        &&& self.format is Some ==> self.failure is None && (self.stage == Stage::Ready
            || self.stage == Stage::Closing || self.stage == Stage::Deleting || self.stage
            == Stage::Released)
        &&& self.stage == Stage::Configuring ==> self.params is Some && recognized(self.params->0)
        &&& self.stage == Stage::Opening || self.stage == Stage::Negotiating ==> passable(
            self.source,
        )
        &&& match self.stage {
            Stage::Bootstrapping | Stage::Allocating | Stage::Configuring | Stage::Opening
            | Stage::Negotiating => self.failure is None,
            _ => true,
        }
        &&& self.close_failed ==> self.stage == Stage::Deleting || self.stage == Stage::Released
    }

    /// The engine call that the session waits for, if any.
    pub open spec fn request(self) -> Option<Request> {
        match self.stage {
            Stage::Bootstrapping => Some(Request::Initialize),
            Stage::Allocating => Some(Request::Allocate),
            Stage::Configuring => match self.params {
                Some(flags) => Some(Request::Configure { handle: self.handle, flags }),
                None => None,
            },
            Stage::Opening => Some(Request::Open { handle: self.handle }),
            Stage::Negotiating => Some(Request::QueryFormat { handle: self.handle }),
            Stage::Closing => Some(Request::Close { handle: self.handle }),
            Stage::Deleting => Some(Request::Delete { handle: self.handle }),
            Stage::Ready | Stage::Released => None,
        }
    }

    /// The session gives up with `failure`. It goes on to close the input if
    /// one is open, to free the handle if it holds one, and is over at once
    /// if it holds none.
    pub open spec fn failing(self, failure: Failure) -> Session {
        Session {
            stage: match self.stage {
                Stage::Bootstrapping | Stage::Allocating | Stage::Released => Stage::Released,
                Stage::Negotiating | Stage::Ready | Stage::Closing => Stage::Closing,
                Stage::Configuring | Stage::Opening | Stage::Deleting => Stage::Deleting,
            },
            failure: Some(failure),
            format: None,
            ..self
        }
    }

    /// The step from a configured handle to opening: the source is opened if
    /// it can be handed to the engine, else the session fails with
    /// `OpenFailed` without an engine call.
    pub open spec fn opening(self) -> Session {
        if passable(self.source) {
            Session { stage: Stage::Opening, ..self }
        } else {
            Session { stage: Stage::Opening, ..self }.failing(
                Failure::OpenFailed { source: self.source },
            )
        }
    }

    /// The step that follows a successful allocation of `handle`: flags are
    /// applied if there are any and all of them are recognized, rejected
    /// without an engine call if one is not; with no flags the source is
    /// opened next.
    pub open spec fn allocated(self, handle: usize) -> Session {
        let held = Session { stage: Stage::Configuring, handle, ..self };
        match self.params {
            Some(flags) => if recognized(flags) {
                held
            } else {
                held.failing(Failure::ParameterRejected)
            },
            None => held.opening(),
        }
    }

    /// The session after the engine's answer `reply` to its pending request.
    /// An answer to a call that the session does not wait for changes nothing.
    pub open spec fn after(self, reply: Reply) -> Session {
        match (self.stage, reply) {
            (Stage::Bootstrapping, Reply::Initialized { status }) => if status == STATUS_OK {
                Session { stage: Stage::Allocating, ..self }
            } else {
                self.failing(Failure::InitializationFailed)
            },
            (Stage::Allocating, Reply::Allocated { status, handle }) => if status == STATUS_OK
                && handle != 0 {
                self.allocated(handle)
            } else {
                self.failing(Failure::AllocationFailed)
            },
            (Stage::Configuring, Reply::Configured { status }) => if status == STATUS_OK {
                self.opening()
            } else {
                self.failing(Failure::ParameterRejected)
            },
            (Stage::Opening, Reply::Opened { status }) => if status == STATUS_OK {
                Session { stage: Stage::Negotiating, ..self }
            } else {
                self.failing(Failure::OpenFailed { source: self.source })
            },
            (
                Stage::Negotiating,
                Reply::FormatQueried { status, rate, channels, encoding },
            ) => if status == STATUS_OK {
                Session {
                    stage: Stage::Ready,
                    format: Some(Format { rate, channels, encoding }),
                    ..self
                }
            } else {
                self.failing(Failure::FormatNegotiationFailed)
            },
            (Stage::Closing, Reply::Closed { status }) => Session {
                stage: Stage::Deleting,
                close_failed: status != STATUS_OK,
                ..self
            },
            (Stage::Deleting, Reply::Deleted) => Session {
                stage: Stage::Released,
                handle: 0,
                ..self
            },
            _ => self,
        }
    }

    /// The session after its owner let go of it. A ready session starts its
    /// disposal by closing the input; one abandoned during construction frees
    /// what it holds; one that is over or already on its way stays as it is.
    pub open spec fn disposed(self) -> Session {
        match self.stage {
            Stage::Bootstrapping | Stage::Allocating => Session {
                stage: Stage::Released,
                ..self
            },
            Stage::Configuring | Stage::Opening => Session { stage: Stage::Deleting, ..self },
            Stage::Negotiating | Stage::Ready => Session { stage: Stage::Closing, ..self },
            Stage::Closing | Stage::Deleting | Stage::Released => self,
        }
    }

    /// Whether the answer `reply` hands this session a new engine handle.
    pub open spec fn acquires(self, reply: Reply) -> bool {
        self.stage == Stage::Allocating && match reply {
            Reply::Allocated { status, handle } => status == STATUS_OK && handle != 0,
            _ => false,
        }
    }

    /// Whether the answer `reply` confirms that the engine freed this
    /// session's handle.
    pub open spec fn frees(self, reply: Reply) -> bool {
        self.stage == Stage::Deleting && reply == Reply::Deleted
    }
}

/// Tells whether a source identifier holds no NUL character.
pub fn is_passable(source: &str) -> (yes: bool)
    ensures
        yes == passable(source@),
{
    let n: usize = source.unicode_len();
    let mut i: usize = 0;
    while i < n
        invariant
            n == source@.len(),
            i <= n,
            forall|k: int| 0 <= k < i ==> source@[k] != '\0',
        decreases n - i,
    {
        if source.get_char(i) == '\0' {
            return false;
        }
        i += 1;
    }
    true
}

/// One decoding session: one source, at most one engine handle.
///
/// The session does not call the engine. Its driver asks it which call is
/// due ([`Decoder::request`]), makes that call, and reports the answer
/// ([`Decoder::advance`]), until the session is ready or over.
#[derive(Debug)]
pub struct Decoder {
    stage: Stage,
    handle: usize,
    params: Option<i64>,
    source: String,
    format: Option<Format>,
    failure: Option<Error>,
    close_failed: bool,
}

impl View for Decoder {
    type V = Session;

    closed spec fn view(&self) -> Session {
        Session {
            stage: self.stage,
            handle: self.handle,
            params: self.params,
            source: self.source@,
            format: self.format,
            failure: match self.failure {
                Some(e) => Some(e@),
                None => None,
            },
            close_failed: self.close_failed,
        }
    }
}

impl Decoder {
    /// A session for the source `filename`, with the decode flags `params`
    /// if there are any. Nothing has been asked of the engine yet.
    pub fn new(filename: &str, params: Option<i64>) -> (decoder: Decoder)
        ensures
            decoder@ == Session::initial(filename@, params),
            decoder@.wf(),
    {
        Decoder {
            stage: Stage::Bootstrapping,
            handle: 0,
            params,
            source: filename.to_owned(),
            format: None,
            failure: None,
            close_failed: false,
        }
    }

    /// Where the session stands.
    pub fn stage(&self) -> (stage: Stage)
        ensures
            stage == self@.stage,
    {
        self.stage
    }

    /// Whether the session is constructed and can be read.
    pub fn is_ready(&self) -> (yes: bool)
        ensures
            yes == (self@.stage == Stage::Ready),
    {
        match self.stage {
            Stage::Ready => true,
            _ => false,
        }
    }

    /// The source identifier that the session was made for.
    pub fn source(&self) -> (name: &str)
        ensures
            name@ == self@.source,
    {
        self.source.as_str()
    }

    /// The handle that the session holds, zero if it holds none.
    pub fn handle(&self) -> (handle: usize)
        ensures
            handle == self@.handle,
    {
        self.handle
    }

    /// The negotiated output format: present from the moment the session is
    /// ready, and the same from then on.
    pub fn format(&self) -> (format: Option<Format>)
        ensures
            format == self@.format,
    {
        self.format
    }

    /// Why construction failed, if it did.
    pub fn failure(&self) -> (failure: Option<Error>)
        ensures
            failure is Some <==> self@.failure is Some,
            failure is Some ==> failure->0@ == self@.failure->0,
    {
        match &self.failure {
            Some(e) => Some(e.clone()),
            None => None,
        }
    }

    /// The failure to close the input during disposal, if the engine
    /// reported one. It is only ever reported here: the handle was freed all
    /// the same.
    pub fn close_failure(&self) -> (failure: Option<Error>)
        ensures
            failure is Some <==> self@.close_failed,
            failure is Some ==> failure->0@ == Failure::CloseFailed,
    {
        if self.close_failed {
            Some(Error::CloseFailed)
        } else {
            None
        }
    }

    /// The engine call that is due now, or `None` when the session is ready
    /// or over.
    pub fn request(&self) -> (due: Option<Request>)
        ensures
            due == self@.request(),
    {
        match self.stage {
            Stage::Bootstrapping => Some(Request::Initialize),
            Stage::Allocating => Some(Request::Allocate),
            Stage::Configuring => match self.params {
                Some(flags) => Some(Request::Configure { handle: self.handle, flags }),
                None => None,
            },
            Stage::Opening => Some(Request::Open { handle: self.handle }),
            Stage::Negotiating => Some(Request::QueryFormat { handle: self.handle }),
            Stage::Closing => Some(Request::Close { handle: self.handle }),
            Stage::Deleting => Some(Request::Delete { handle: self.handle }),
            Stage::Ready | Stage::Released => None,
        }
    }

    fn fail(&mut self, error: Error)
        ensures
            final(self)@ == old(self)@.failing(error@),
    {
        self.stage = match self.stage {
            Stage::Bootstrapping | Stage::Allocating | Stage::Released => Stage::Released,
            Stage::Negotiating | Stage::Ready | Stage::Closing => Stage::Closing,
            Stage::Configuring | Stage::Opening | Stage::Deleting => Stage::Deleting,
        };
        self.failure = Some(error);
        self.format = None;
    }

    fn open_next(&mut self)
        ensures
            final(self)@ == old(self)@.opening(),
    {
        self.stage = Stage::Opening;
        if !is_passable(self.source.as_str()) {
            let source = self.source.clone();
            self.fail(Error::OpenFailed { source });
        }
    }

    fn hold(&mut self, handle: usize)
        ensures
            final(self)@ == old(self)@.allocated(handle),
    {
        self.stage = Stage::Configuring;
        self.handle = handle;
        match self.params {
            Some(flags) => {
                if !is_recognized(flags) {
                    self.fail(Error::ParameterRejected);
                }
            },
            None => {
                self.open_next();
            },
        }
    }

    /// Takes the engine's answer to the pending request and moves on.
    pub fn advance(&mut self, reply: Reply)
        ensures
            final(self)@ == old(self)@.after(reply),
            old(self)@.wf() ==> final(self)@.wf(),
            final(self)@.outstanding() == old(self)@.outstanding() + (if old(self)@.acquires(
                reply,
            ) {
                1int
            } else {
                0int
            }) - (if old(self)@.frees(reply) {
                1int
            } else {
                0int
            }),
    {
        match (self.stage, reply) {
            (Stage::Bootstrapping, Reply::Initialized { status }) => {
                if status == STATUS_OK {
                    self.stage = Stage::Allocating;
                } else {
                    self.fail(Error::InitializationFailed);
                }
            },
            (Stage::Allocating, Reply::Allocated { status, handle }) => {
                if status == STATUS_OK && handle != 0 {
                    self.hold(handle);
                } else {
                    self.fail(Error::AllocationFailed);
                }
            },
            (Stage::Configuring, Reply::Configured { status }) => {
                if status == STATUS_OK {
                    self.open_next();
                } else {
                    self.fail(Error::ParameterRejected);
                }
            },
            (Stage::Opening, Reply::Opened { status }) => {
                if status == STATUS_OK {
                    self.stage = Stage::Negotiating;
                } else {
                    let source = self.source.clone();
                    self.fail(Error::OpenFailed { source });
                }
            },
            (Stage::Negotiating, Reply::FormatQueried { status, rate, channels, encoding }) => {
                if status == STATUS_OK {
                    self.stage = Stage::Ready;
                    self.format = Some(Format { rate, channels, encoding });
                } else {
                    self.fail(Error::FormatNegotiationFailed);
                }
            },
            (Stage::Closing, Reply::Closed { status }) => {
                self.stage = Stage::Deleting;
                self.close_failed = status != STATUS_OK;
            },
            (Stage::Deleting, Reply::Deleted) => {
                self.stage = Stage::Released;
                self.handle = 0;
            },
            _ => {},
        }
    }

    /// Takes a whole sequence of engine answers, one after the other.
    pub fn advance_all(&mut self, replies: &[Reply])
        ensures
            final(self)@ == crate::laws::run(old(self)@, replies@),
            old(self)@.wf() ==> final(self)@.wf(),
    {
        let ghost start = self@;
        let mut i: usize = 0;
        while i < replies.len()
            invariant
                i <= replies.len(),
                self@ == crate::laws::run(start, replies@.take(i as int)),
                start.wf() ==> self@.wf(),
            decreases replies.len() - i,
        {
            proof {
                let upto = replies@.take(i + 1);
                assert(upto.drop_last() == replies@.take(i as int));
                assert(upto.last() == replies@[i as int]);
            }
            self.advance(replies[i]);
            i += 1;
        }
        proof {
            assert(replies@.take(i as int) == replies@);
        }
    }

    /// Maps the status with which the engine ended a read on this session:
    /// success is `Ok`, the end of the stream is `EOF`, every other status is
    /// `BadInput`. The session itself does not change: the position in the
    /// stream is the engine's.
    pub fn read(&self, status: i32) -> (result: Result<(), Error>)
        requires
            self@.stage == Stage::Ready,
        ensures
            result is Ok <==> status == STATUS_OK,
            result is Err && result->Err_0@ == Failure::EOF <==> status == STATUS_DONE,
            result is Err && result->Err_0@ == Failure::BadInput <==> status != STATUS_OK
                && status != STATUS_DONE,
            match result {
                Ok(()) => read_outcome(status) == Ok::<(), Failure>(()),
                Err(e) => read_outcome(status) == Err::<(), Failure>(e@),
            },
    {
        if status == STATUS_OK {
            Ok(())
        } else if status == STATUS_DONE {
            Err(Error::EOF)
        } else {
            Err(Error::BadInput)
        }
    }

    /// Lets go of the session: disposal starts, or goes on, or was done.
    pub fn dispose(&mut self)
        ensures
            final(self)@ == old(self)@.disposed(),
            old(self)@.wf() ==> final(self)@.wf(),
            final(self)@.outstanding() == old(self)@.outstanding(),
    {
        match self.stage {
            Stage::Bootstrapping | Stage::Allocating => {
                self.stage = Stage::Released;
            },
            Stage::Configuring | Stage::Opening => {
                self.stage = Stage::Deleting;
            },
            Stage::Negotiating | Stage::Ready => {
                self.stage = Stage::Closing;
            },
            Stage::Closing | Stage::Deleting | Stage::Released => {},
        }
    }
}

} // verus!
