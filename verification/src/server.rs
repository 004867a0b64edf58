//! The supervisor's side: what it does with each event of its message loop.
//!
//! The loop itself, the channel and the files belong to the caller. The
//! handler here is told what happened and answers with what is to be done:
//! which file to create for a dump, which callback to invoke with which
//! bytes, which file to remove, and whether the loop goes on.

use crate::session::{hyphenated_text, is_version_4, SessionId};
use std::path::PathBuf;
use vstd::prelude::*;
use vstd::string::StringExecFns;

verus! {

/// Trusted: `std::path::PathBuf`, an owned file-system path. It is carried
/// through and never looked into.
#[verifier::external_type_specification]
#[verifier::external_body]
pub struct ExPathBuf(PathBuf);

/// The exit code of the supervisor's process once its loop has ended.
pub const EXIT_CODE: i32 = 0;

/// What the message loop does after an event was handled.
#[derive(Clone, Copy, Debug, PartialEq, Eq, Structural)]
pub enum LoopAction {
    /// Stop processing messages and disconnect every client.
    Exit,
    /// Go on as before.
    Continue,
}

/// A dump that was written in full.
pub struct DumpArtifact {
    /// The file that backs the dump.
    pub path: PathBuf,
    /// The dump's bytes, where the writer kept them in memory.
    pub contents: Option<Vec<u8>>,
}

/// A dump that could not be written.
pub struct DumpFailure {
    /// The file that was created to back the dump.
    pub path: PathBuf,
}

/// Where the file that backs the next dump is created.
pub struct DumpFile<'a> {
    /// The directory to create first if it is missing; `None` stands for
    /// the directory `Crashes` under the system's temporary directory.
    pub directory: Option<&'a PathBuf>,
    /// The name of the file within that directory.
    pub file_name: String,
}

/// A call of the dump callback that is due.
pub struct DumpDelivery<'a, Minidump> {
    pub callback: &'a Minidump,
    /// The dump's bytes, the first argument of the call. The second is the
    /// path of the backing file.
    pub bytes: Vec<u8>,
}

/// How the handling of a dump ends. Its parts are carried out in the order
/// of the fields.
pub struct DumpCompletion<'a, Minidump> {
    /// The callback to invoke, if any.
    pub delivery: Option<DumpDelivery<'a, Minidump>>,
    /// The backing file, to be removed once the callback has returned;
    /// a failure to remove it is ignored.
    pub remove: PathBuf,
    /// What the loop does after that.
    pub action: LoopAction,
}

/// The next step in the handling of a dump.
pub enum DumpStep<'a, Minidump> {
    /// The dump's bytes are only in the backing file: flush it, read it
    /// whole, and hand what was read to [`Handler::on_minidump_read`].
    ReadBack { path: PathBuf },
    /// Nothing more is needed to finish.
    Complete(DumpCompletion<'a, Minidump>),
}

/// A call of the message callback that is due.
pub struct MessageDelivery<'a, Message> {
    pub callback: &'a Message,
    pub kind: u32,
    pub payload: Vec<u8>,
}

/// The supervisor's answers to the events of its loop. `Minidump` is the
/// callback that receives a dump's bytes and the path of its backing file,
/// `Message` the one that receives a message's tag and payload.
pub struct Handler<Minidump, Message> {
    /// Where dumps are written; `None` stands for the directory `Crashes`
    /// under the system's temporary directory.
    pub crashes_dir: Option<PathBuf>,
    pub on_minidump: Option<Minidump>,
    pub on_message: Option<Message>,
}

/// The name of the file that backs the dump with identifier `id`.
pub open spec fn dump_file_name(id: SessionId) -> Seq<char> {
    hyphenated_text(id) + ".dmp"@
}

impl<Minidump, Message> Handler<Minidump, Message> {
    /// The directory in which dumps are written, if one was set.
    pub open spec fn directory(&self) -> Option<&PathBuf> {
        match self.crashes_dir {
            Some(directory) => Some(&directory),
            None => None,
        }
    }

    /// How the handling of a dump ends once it is settled whether its bytes
    /// could be had: they go to the dump callback if there are both bytes
    /// and a callback; the backing file is removed and the loop ends in
    /// every case.
    pub open spec fn completion(&self, path: PathBuf, bytes: Option<Vec<u8>>) -> DumpCompletion<
        '_,
        Minidump,
    > {
        DumpCompletion {
            delivery: match (self.on_minidump, bytes) {
                (Some(callback), Some(bytes)) => Some(DumpDelivery { callback: &callback, bytes }),
                _ => None,
            },
            remove: path,
            action: LoopAction::Exit,
        }
    }

    /// The step that follows the writing of a dump. A dump that the writer
    /// kept in memory is complete; one that is only on file has to be read
    /// back first; one that failed has nothing to deliver.
    pub open spec fn after_dump(&self, result: Result<DumpArtifact, DumpFailure>) -> DumpStep<
        '_,
        Minidump,
    > {
        match result {
            Ok(artifact) => match artifact.contents {
                Some(bytes) => DumpStep::Complete(self.completion(artifact.path, Some(bytes))),
                None => DumpStep::ReadBack { path: artifact.path },
            },
            Err(failure) => DumpStep::Complete(self.completion(failure.path, None)),
        }
    }

    /// How the handling of a dump ends, where `read_back` is what reading
    /// the backing file yields should it come to that.
    pub open spec fn dump_outcome(
        &self,
        result: Result<DumpArtifact, DumpFailure>,
        read_back: Option<Vec<u8>>,
    ) -> DumpCompletion<'_, Minidump> {
        match self.after_dump(result) {
            DumpStep::Complete(completion) => completion,
            DumpStep::ReadBack { path } => self.completion(path, read_back),
        }
    }

    /// The call of the message callback that a message is owed, if a
    /// callback is registered: tag and payload exactly as received.
    pub open spec fn message_delivery(&self, kind: u32, buffer: Vec<u8>) -> Option<
        MessageDelivery<'_, Message>,
    > {
        match self.on_message {
            Some(callback) => Some(MessageDelivery { callback: &callback, kind, payload: buffer }),
            None => None,
        }
    }

    pub fn new(
        crashes_dir: Option<PathBuf>,
        on_minidump: Option<Minidump>,
        on_message: Option<Message>,
    ) -> (handler: Self)
        ensures
            handler == (Handler { crashes_dir, on_minidump, on_message }),
    {
        Handler { crashes_dir, on_minidump, on_message }
    }

    /// Called when a crash was received and a file to back its dump is
    /// needed: names a fresh file in the crashes directory.
    pub fn create_minidump_file(&self) -> (file: DumpFile<'_>)
        ensures
            file.directory == self.directory(),
            exists|id: SessionId| is_version_4(id.0) && file.file_name@ == dump_file_name(id),
    {
        let id = SessionId::random();
        self.minidump_file(id)
    }

    /// The file that backs the dump to which the identifier `id` was given.
    pub fn minidump_file(&self, id: SessionId) -> (file: DumpFile<'_>)
        ensures
            file.directory == self.directory(),
            file.file_name@ == dump_file_name(id),
    {
        let mut file_name = id.hyphenated();
        file_name.append(".dmp");
        DumpFile { directory: self.crashes_dir.as_ref(), file_name }
    }

    /// Called when the writing of a dump has ended, well or not.
    pub fn on_minidump_created(&self, result: Result<DumpArtifact, DumpFailure>) -> (step: DumpStep<
        '_,
        Minidump,
    >)
        ensures
            step == self.after_dump(result),
    {
        match result {
            Ok(artifact) => match artifact.contents {
                Some(bytes) => DumpStep::Complete(self.on_minidump_read(artifact.path, Some(bytes))),
                None => DumpStep::ReadBack { path: artifact.path },
            },
            Err(failure) => DumpStep::Complete(self.on_minidump_read(failure.path, None)),
        }
    }

    /// Called with the bytes of the dump backed by `path`, or with `None`
    /// where they could not be had.
    pub fn on_minidump_read(&self, path: PathBuf, bytes: Option<Vec<u8>>) -> (completion:
        DumpCompletion<'_, Minidump>)
        ensures
            completion == self.completion(path, bytes),
    {
        let delivery = match (&self.on_minidump, bytes) {
            (Some(callback), Some(bytes)) => Some(DumpDelivery { callback, bytes }),
            _ => None,
        };
        DumpCompletion { delivery, remove: path, action: LoopAction::Exit }
    }

    /// Called when the client has sent a message of its own.
    pub fn on_message(&self, kind: u32, buffer: Vec<u8>) -> (delivery: Option<
        MessageDelivery<'_, Message>,
    >)
        ensures
            delivery == self.message_delivery(kind, buffer),
    {
        match &self.on_message {
            Some(callback) => Some(MessageDelivery { callback, kind, payload: buffer }),
            None => None,
        }
    }

    /// Called when a client has left, with the number of clients that
    /// remain: a supervisor serves one client, so its loop ends.
    pub fn on_client_disconnected(&self, num_clients: usize) -> (action: LoopAction)
        ensures
            action == LoopAction::Exit,
    {
        LoopAction::Exit
    }
}

/// The file that backs the dump of which `result` tells.
pub open spec fn backing_file(result: Result<DumpArtifact, DumpFailure>) -> PathBuf {
    match result {
        Ok(artifact) => artifact.path,
        Err(failure) => failure.path,
    }
}

/// Every dump, written or not, ends the loop and has its backing file
/// removed. The callback is invoked at most once, and only for a dump that
/// was written: with the bytes kept in memory where there are any, whatever
/// the file holds, and else with what was read back from the file.
pub proof fn lemma_dump_handling<Minidump, Message>(
    handler: Handler<Minidump, Message>,
    result: Result<DumpArtifact, DumpFailure>,
    read_back: Option<Vec<u8>>,
)
    ensures
        handler.dump_outcome(result, read_back).action == LoopAction::Exit,
        handler.dump_outcome(result, read_back).remove == backing_file(result),
        handler.dump_outcome(result, read_back).delivery == (match (handler.on_minidump, result) {
            (Some(callback), Ok(artifact)) => match (artifact.contents, read_back) {
                (Some(bytes), _) => Some(DumpDelivery { callback: &callback, bytes }),
                (None, Some(bytes)) => Some(DumpDelivery { callback: &callback, bytes }),
                (None, None) => None,
            },
            _ => None,
        }),
{
}

/// What the supervisor's process runs.
pub struct Supervisor<Minidump, Message> {
    /// The channel to listen on.
    pub socket_name: String,
    /// The answers to the loop's events.
    pub handler: Handler<Minidump, Message>,
    /// Milliseconds without a message after which a client counts as gone.
    pub stale_timeout: Option<u64>,
}

/// The mathematical value of a [`Supervisor`].
pub struct SupervisorView<Minidump, Message> {
    pub socket_name: Seq<char>,
    pub handler: Handler<Minidump, Message>,
    pub stale_timeout: Option<u64>,
}

impl<Minidump, Message> View for Supervisor<Minidump, Message> {
    type V = SupervisorView<Minidump, Message>;

    open spec fn view(&self) -> SupervisorView<Minidump, Message> {
        SupervisorView {
            socket_name: self.socket_name@,
            handler: self.handler,
            stale_timeout: self.stale_timeout,
        }
    }
}

/// Prepares the supervisor: it listens on `socket_name`, answers its events
/// with a handler made of the other arguments, and drops a client that has
/// been silent for `stale_timeout` milliseconds.
pub fn start<Minidump, Message>(
    socket_name: &str,
    crashes_dir: Option<PathBuf>,
    stale_timeout: u64,
    on_minidump: Option<Minidump>,
    on_message: Option<Message>,
) -> (supervisor: Supervisor<Minidump, Message>)
    ensures
        supervisor@ == (SupervisorView {
            socket_name: socket_name@,
            handler: Handler { crashes_dir, on_minidump, on_message },
            stale_timeout: Some(stale_timeout),
        }),
{
    Supervisor {
        socket_name: socket_name.to_owned(),
        handler: Handler::new(crashes_dir, on_minidump, on_message),
        stale_timeout: Some(stale_timeout),
    }
}

/// The code with which the supervisor's process exits once its loop has
/// ended: always [`EXIT_CODE`], whether the loop ended well or in an error.
pub fn exit_code(loop_succeeded: bool) -> (code: i32)
    ensures
        code == EXIT_CODE,
{
    EXIT_CODE
}

} // verus!
