//! The conversation with the machine that the jails live on.
//!
//! The library never touches the machine. An operation asks the `Host` for
//! what it needs, one request at a time. Where the answer has been recorded,
//! the operation goes on with it; where it has not, the request is left
//! pending and the operation stops with `Failure::Suspended`. The caller then
//! carries the pending request out, records the answer with `Host::answer`,
//! and runs the operation again: it takes the same path up to that request
//! and goes on from there.

use crate::cmd::{Cmd, CmdView, Output, OutputView};
use crate::errors::{outcome, Failure, FailureView};
use crate::text::views;
use std::fmt::Write;
use vstd::prelude::*;

verus! {

/// How many characters a random snapshot suffix has.
pub const SUFFIX_LEN: usize = 8;

/// What an operation has learned of the host, or set out to change on it. A
/// finding is put on record when the host has answered; a change, when it is
/// asked for.
pub ghost enum Event {
    /// Whether the dataset, or the snapshot `dataset@name`, exists.
    Exists(Seq<char>, bool),
    /// The dataset was created.
    Created(Seq<char>),
    /// The dataset was destroyed.
    Destroyed(Seq<char>),
    /// The dataset was destroyed with all that hangs on it.
    DestroyedAll(Seq<char>),
    /// A property of the dataset was set.
    PropertySet(Seq<char>, Seq<char>, Seq<char>),
    /// A property of the dataset was read.
    Property(Seq<char>, Seq<char>, Seq<char>),
    /// A snapshot of the dataset was taken under this name.
    Snapshot(Seq<char>, Seq<char>),
    /// The snapshot of this name was destroyed.
    SnapshotDestroyed(Seq<char>, Seq<char>),
    /// The snapshot of the first dataset was cloned to a new dataset.
    Cloned(Seq<char>, Seq<char>, Seq<char>),
    /// The snapshots of the dataset, oldest first.
    Snapshots(Seq<char>, Seq<Seq<char>>),
    /// The newest snapshot of the dataset whose name holds the text.
    LastSnapshot(Seq<char>, Seq<char>, Option<Seq<char>>),
    /// Whether the jail runs.
    Running(Seq<char>, bool),
    /// Whether the jail is among those started at boot.
    Enabled(Seq<char>, bool),
    /// The jail was started.
    Started(Seq<char>),
    /// The jail was stopped.
    Stopped(Seq<char>),
    /// The jail was added to those started at boot.
    Enable(Seq<char>),
    /// The jail was taken from those started at boot.
    Disable(Seq<char>),
    /// Whether a regular file is at the path.
    IsFile(Seq<char>, bool),
    /// Whether a directory is at the path.
    IsDir(Seq<char>, bool),
    /// What the file holds.
    Read(Seq<char>, Seq<char>),
    /// The file was written.
    Written(Seq<char>, Seq<char>),
    /// The file was removed.
    Removed(Seq<char>),
    /// Something else was changed on the host or in a jail.
    Changed(RequestView),
}

/// What a note is about.
#[derive(Debug, Clone, Copy, PartialEq, Eq)]
pub enum What {
    /// A jail is being brought to its declared state.
    Applying,
    /// The jail does not exist; nothing is done.
    Missing,
    /// A file is removed; the detail is its path.
    RemovingConfig,
    /// The mount table is removed; the detail is its path.
    RemovingFstab,
    /// The snapshots of the jail's dataset are destroyed.
    DestroyingSnapshots,
    /// The jail's dataset is destroyed.
    DestroyingDataset,
    /// A file is written anew; the details are its path, what it held and
    /// what it will hold.
    Updating,
    /// A file is written for the first time; the detail is its path.
    Creating,
    /// The jail is started.
    Starting,
    /// The jail is stopped.
    Stopping,
    /// The jail is added to those started at boot.
    Enabling,
    /// The jail is taken from those started at boot.
    Disabling,
    /// The provisioners are run.
    Provisioning,
    /// A snapshot is taken; the detail is its label.
    Snapshotting,
    /// A release is installed; the detail is the source's name.
    Installing,
    /// An archive is fetched and unpacked; the details are the archive and
    /// the directory.
    Fetching,
    /// A dataset is cloned; the details are the dataset, the snapshot and
    /// the new dataset.
    Cloning,
    /// A command provisioner runs; the detail is its name.
    RunningExec,
    /// A command is run in the jail; the detail is the command.
    RunningCommand,
    /// A file provisioner runs; the detail is its name.
    RunningFile,
    /// A file is copied; the details are where from and where to.
    Copying,
    /// A file's mode is set; the detail is the mode.
    SettingMode,
    /// A file's owner is set; the detail is user and group.
    SettingOwner,
    /// A Puppet provisioner runs.
    RunningPuppet,
    /// A package is installed; the detail is its name.
    InstallingPackage,
    /// The provisioner that does nothing runs.
    RunningTest,
    /// The host is prepared for jails.
    Initializing,
    /// Jails are switched on for the boot of the host.
    EnablingJails,
}

/// Something to tell the user.
#[derive(Debug, PartialEq, Eq)]
pub struct Note {
    pub what: What,
    /// The jail that the note is about.
    pub jail: String,
    pub details: Vec<String>,
    /// Whether this is a dry run: the note then tells what would be done.
    pub noop: bool,
}

/// What a `Note` holds.
pub struct NoteView {
    pub what: What,
    pub jail: Seq<char>,
    pub details: Seq<Seq<char>>,
    pub noop: bool,
}

impl View for Note {
    type V = NoteView;

    open spec fn view(&self) -> NoteView {
        NoteView {
            what: self.what,
            jail: self.jail@,
            details: views(self.details@),
            noop: self.noop,
        }
    }
}

/// What an operation asks of the host.
#[derive(Debug, PartialEq, Eq)]
pub enum Request {
    /// Run the command to its end; answer with its `Output`.
    Run(Cmd),
    /// Run the command and pass its output on to the user line by line;
    /// answer with its exit code.
    Stream(Cmd),
    /// Is there a regular file at this path?
    IsFile(String),
    /// Is there a directory at this path?
    IsDir(String),
    /// Read the file as text.
    ReadFile(String),
    /// Write the text to the file at the path, in place of what it held.
    WriteFile(String, String),
    /// Remove the file.
    RemoveFile(String),
    /// Copy the file at the first path to the second.
    CopyFile(String, String),
    /// Set the permission bits of what is at the path.
    SetMode(String, u32),
    /// Make the directory and those above it, as far as they are missing.
    CreateDirAll(String),
    /// Fetch the archive at the address and unpack it into the directory.
    Fetch(String, String),
    /// Tell the user.
    Note(Note),
    /// The local time, as text.
    Now,
    /// A random text of letters and digits, of the given length.
    Random(usize),
    /// Ask the user whether the jails of these names may be destroyed;
    /// answer with the line that the user types.
    Confirm(Vec<String>),
}

/// What a `Request` holds.
pub enum RequestView {
    Run(CmdView),
    Stream(CmdView),
    IsFile(Seq<char>),
    IsDir(Seq<char>),
    ReadFile(Seq<char>),
    WriteFile(Seq<char>, Seq<char>),
    RemoveFile(Seq<char>),
    CopyFile(Seq<char>, Seq<char>),
    SetMode(Seq<char>, u32),
    CreateDirAll(Seq<char>),
    Fetch(Seq<char>, Seq<char>),
    Note(NoteView),
    Now,
    Random(usize),
    Confirm(Seq<Seq<char>>),
}

impl View for Request {
    type V = RequestView;

    open spec fn view(&self) -> RequestView {
        match self {
            Request::Run(c) => RequestView::Run(c@),
            Request::Stream(c) => RequestView::Stream(c@),
            Request::IsFile(p) => RequestView::IsFile(p@),
            Request::IsDir(p) => RequestView::IsDir(p@),
            Request::ReadFile(p) => RequestView::ReadFile(p@),
            Request::WriteFile(p, t) => RequestView::WriteFile(p@, t@),
            Request::RemoveFile(p) => RequestView::RemoveFile(p@),
            Request::CopyFile(a, b) => RequestView::CopyFile(a@, b@),
            Request::SetMode(p, m) => RequestView::SetMode(p@, *m),
            Request::CreateDirAll(p) => RequestView::CreateDirAll(p@),
            Request::Fetch(u, d) => RequestView::Fetch(u@, d@),
            Request::Note(n) => RequestView::Note(n@),
            Request::Now => RequestView::Now,
            Request::Random(n) => RequestView::Random(*n),
            Request::Confirm(names) => RequestView::Confirm(views(names@)),
        }
    }
}

/// The host's answer to a request.
#[derive(Debug, PartialEq, Eq)]
pub enum Reply {
    /// The command ran to its end.
    Output(Output),
    /// The command whose output was passed on has ended.
    Exit(Option<i32>),
    /// Yes or no.
    Flag(bool),
    /// The text asked for.
    Text(String),
    /// It is done.
    Done,
    /// It could not be done; the text says why.
    Failed(String),
}

/// What a `Reply` holds.
pub enum ReplyView {
    Output(OutputView),
    Exit(Option<i32>),
    Flag(bool),
    Text(Seq<char>),
    Done,
    Failed(Seq<char>),
}

impl View for Reply {
    type V = ReplyView;

    open spec fn view(&self) -> ReplyView {
        match self {
            Reply::Output(o) => ReplyView::Output(o@),
            Reply::Exit(c) => ReplyView::Exit(*c),
            Reply::Flag(b) => ReplyView::Flag(*b),
            Reply::Text(t) => ReplyView::Text(t@),
            Reply::Done => ReplyView::Done,
            Reply::Failed(m) => ReplyView::Failed(m@),
        }
    }
}

impl Reply {
    /// A copy of the answer.
    pub fn copy(&self) -> (r: Reply)
        ensures
            r@ == self@,
    {
        match self {
            Reply::Output(o) => Reply::Output(o.copy()),
            Reply::Exit(c) => Reply::Exit(*c),
            Reply::Flag(b) => Reply::Flag(*b),
            Reply::Text(t) => Reply::Text(t.clone()),
            Reply::Done => Reply::Done,
            Reply::Failed(m) => Reply::Failed(m.clone()),
        }
    }
}

/// The texts of a list of answers.
pub open spec fn reply_views(v: Seq<Reply>) -> Seq<ReplyView> {
    Seq::new(v.len(), |i: int| v[i]@)
}

/// The conversation so far, and where in it the running operation stands.
pub struct Host {
    replies: Vec<Reply>,
    next: usize,
    pending: Option<Request>,
    asked: Ghost<Seq<RequestView>>,
    events: Ghost<Seq<Event>>,
}

/// What a `Host` holds.
pub struct HostView {
    /// The answers recorded so far, in the order of the requests.
    pub replies: Seq<ReplyView>,
    /// How many of them the running operation has taken.
    pub next: nat,
    /// The request that waits for its answer.
    pub pending: Option<RequestView>,
    /// The requests that the running operation has made, the pending one
    /// included.
    pub asked: Seq<RequestView>,
    /// What the running operation has learned and done, told by what it
    /// means rather than by the request that was made for it.
    pub events: Seq<Event>,
}

impl View for Host {
    type V = HostView;

    closed spec fn view(&self) -> HostView {
        HostView {
            replies: reply_views(self.replies@),
            next: self.next as nat,
            pending: match self.pending {
                Some(r) => Some(r@),
                None => None,
            },
            asked: self.asked@,
            events: self.events@,
        }
    }
}

impl HostView {
    /// A conversation in which nothing has been said.
    pub open spec fn fresh() -> HostView {
        HostView {
            replies: Seq::empty(),
            next: 0,
            pending: None,
            asked: Seq::empty(),
            events: Seq::empty(),
        }
    }

    /// The conversation, with the operation back at its start.
    pub open spec fn rewound(self) -> HostView {
        HostView {
            replies: self.replies,
            next: 0,
            pending: None,
            asked: Seq::empty(),
            events: Seq::empty(),
        }
    }

    /// Whether the operation has stopped at a request without an answer.
    pub open spec fn suspended(self) -> bool {
        self.pending is Some
    }

    /// The conversation, with one more event on record.
    pub open spec fn with(self, event: Event) -> HostView {
        HostView { events: self.events.push(event), ..self }
    }

    /// One request. Once the operation is suspended nothing more is asked.
    /// Else the request is made: it is answered from the record where an
    /// answer is left there, and left pending where none is.
    pub open spec fn ask(self, request: RequestView) -> (HostView, Result<ReplyView, FailureView>) {
        if self.suspended() {
            (self, Err(FailureView::Suspended))
        } else if self.next < self.replies.len() {
            (
                HostView { next: self.next + 1, asked: self.asked.push(request), ..self },
                Ok(self.replies[self.next as int]),
            )
        } else {
            (
                HostView { pending: Some(request), asked: self.asked.push(request), ..self },
                Err(FailureView::Suspended),
            )
        }
    }

    /// A request to run a command to its end.
    pub open spec fn run(self, c: CmdView) -> (HostView, Result<OutputView, FailureView>) {
        let (h, r) = self.ask(RequestView::Run(c));
        match r {
            Ok(ReplyView::Output(o)) => (h, Ok(o)),
            Ok(ReplyView::Failed(m)) => (h, Err(FailureView::Io(m))),
            Ok(_) => (h, Err(FailureView::Reply)),
            Err(e) => (h, Err(e)),
        }
    }

    /// A command that changes the host and whose output is passed on.
    pub open spec fn stream_change(self, c: CmdView) -> (HostView, Result<(), FailureView>) {
        crate::cmd::stream_spec(self.with(Event::Changed(RequestView::Stream(c))), c)
    }

    /// A request to run a command and pass its output on.
    pub open spec fn stream(self, c: CmdView) -> (HostView, Result<Option<i32>, FailureView>) {
        let (h, r) = self.ask(RequestView::Stream(c));
        match r {
            Ok(ReplyView::Exit(code)) => (h, Ok(code)),
            Ok(ReplyView::Failed(m)) => (h, Err(FailureView::Io(m))),
            Ok(_) => (h, Err(FailureView::Reply)),
            Err(e) => (h, Err(e)),
        }
    }

    /// A request that is answered with yes or no.
    pub open spec fn flag(self, request: RequestView) -> (HostView, Result<bool, FailureView>) {
        let (h, r) = self.ask(request);
        match r {
            Ok(ReplyView::Flag(b)) => (h, Ok(b)),
            Ok(ReplyView::Failed(m)) => (h, Err(FailureView::Io(m))),
            Ok(_) => (h, Err(FailureView::Reply)),
            Err(e) => (h, Err(e)),
        }
    }

    /// A request that is answered with a text.
    pub open spec fn text(self, request: RequestView) -> (HostView, Result<Seq<char>, FailureView>) {
        let (h, r) = self.ask(request);
        match r {
            Ok(ReplyView::Text(t)) => (h, Ok(t)),
            Ok(ReplyView::Failed(m)) => (h, Err(FailureView::Io(m))),
            Ok(_) => (h, Err(FailureView::Reply)),
            Err(e) => (h, Err(e)),
        }
    }

    /// A request that is answered when it is done.
    pub open spec fn done(self, request: RequestView) -> (HostView, Result<(), FailureView>) {
        let (h, r) = self.ask(request);
        match r {
            Ok(ReplyView::Done) => (h, Ok(())),
            Ok(ReplyView::Failed(m)) => (h, Err(FailureView::Io(m))),
            Ok(_) => (h, Err(FailureView::Reply)),
            Err(e) => (h, Err(e)),
        }
    }

    /// Asking whether a regular file is at the path.
    pub open spec fn is_file(self, path: Seq<char>) -> (HostView, Result<bool, FailureView>) {
        let (h, r) = self.flag(RequestView::IsFile(path));
        match r {
            Ok(b) => (h.with(Event::IsFile(path, b)), Ok(b)),
            Err(e) => (h, Err(e)),
        }
    }

    /// Asking whether a directory is at the path.
    pub open spec fn is_dir(self, path: Seq<char>) -> (HostView, Result<bool, FailureView>) {
        let (h, r) = self.flag(RequestView::IsDir(path));
        match r {
            Ok(b) => (h.with(Event::IsDir(path, b)), Ok(b)),
            Err(e) => (h, Err(e)),
        }
    }

    /// Reading a file.
    pub open spec fn read_file(self, path: Seq<char>) -> (HostView, Result<Seq<char>, FailureView>) {
        let (h, r) = self.text(RequestView::ReadFile(path));
        match r {
            Ok(t) => (h.with(Event::Read(path, t)), Ok(t)),
            Err(e) => (h, Err(e)),
        }
    }

    /// Writing a file.
    pub open spec fn write_file(self, path: Seq<char>, text: Seq<char>) -> (
        HostView,
        Result<(), FailureView>,
    ) {
        self.with(Event::Written(path, text)).done(RequestView::WriteFile(path, text))
    }

    /// Removing a file.
    pub open spec fn remove_file(self, path: Seq<char>) -> (HostView, Result<(), FailureView>) {
        self.with(Event::Removed(path)).done(RequestView::RemoveFile(path))
    }

    /// Another change to the host.
    pub open spec fn change(self, request: RequestView) -> (HostView, Result<(), FailureView>) {
        self.with(Event::Changed(request)).done(request)
    }

    /// A note to the user.
    pub open spec fn note(
        self,
        what: What,
        jail: Seq<char>,
        details: Seq<Seq<char>>,
        noop: bool,
    ) -> (HostView, Result<(), FailureView>) {
        self.done(RequestView::Note(NoteView { what, jail, details, noop }))
    }
}

/// Whether a character is an ASCII letter or digit.
pub open spec fn is_alphanumeric(c: char) -> bool {
    ('a' <= c && c <= 'z') || ('A' <= c && c <= 'Z') || ('0' <= c && c <= '9')
}

/// What stands at a place of a time that is laid out as year, month and day
/// with a hyphen between them, a `T`, hours, minutes and seconds with a colon
/// between them, a point, and milliseconds.
pub open spec fn fits_stamp(i: int, c: char) -> bool {
    if i == 4 || i == 7 {
        c == '-'
    } else if i == 10 {
        c == 'T'
    } else if i == 13 || i == 16 {
        c == ':'
    } else if i == 19 {
        c == '.'
    } else {
        '0' <= c && c <= '9'
    }
}

/// Whether a text is a time that is so laid out, as in
/// `2020-02-29T23:59:59.999`.
pub open spec fn is_stamp(t: Seq<char>) -> bool {
    t.len() == 23 && forall|i: int| 0 <= i < 23 ==> fits_stamp(i, #[trigger] t[i])
}

/// What can answer a request without the host: the time and random text.
pub open spec fn answers_locally(request: RequestView, reply: ReplyView) -> bool {
    match request {
        RequestView::Now => (reply matches ReplyView::Text(t) && is_stamp(t)) || reply is Failed,
        RequestView::Random(n) => reply matches ReplyView::Text(t) && t.len() == n && forall|
            i: int,
        | 0 <= i < t.len() ==> is_alphanumeric(#[trigger] t[i]),
        _ => false,
    }
}

/// The local time in the given `strftime` format. `chrono::Local::now` reads
/// the clock and `format` lays the time out; the text is written through
/// `Display`, which fails where the format is not one. Nothing is claimed of
/// the text. `Local::now` panics where the clock stands before 1970.
#[verifier::external_body]
fn local_time(format: &str) -> (r: Option<String>) {
    let mut text = String::new();
    match write!(text, "{}", chrono::Local::now().format(format)) {
        Ok(()) => Some(text),
        Err(_) => None,
    }
}

/// `n` random characters. `rand::thread_rng` with the distribution
/// `rand::distributions::Alphanumeric` draws each of them from the letters
/// `a` to `z` and `A` to `Z` and the digits. `thread_rng` panics where the
/// system gives it nothing to start from.
#[verifier::external_body]
fn random_text(n: usize) -> (r: String)
    ensures
        r@.len() == n,
        forall|i: int| 0 <= i < r@.len() ==> is_alphanumeric(#[trigger] r@[i]),
{
    rand::Rng::sample_iter(rand::thread_rng(), &rand::distributions::Alphanumeric).take(n).collect()
}

/// Whether a text is a time laid out to the millisecond.
pub fn stamped(t: &str) -> (b: bool)
    ensures
        b == is_stamp(t@),
{
    let x = crate::text::chars_of(t);
    if x.len() != 23 {
        return false;
    }
    let mut i: usize = 0;
    while i < 23
        invariant
            i <= 23,
            x.len() == 23,
            x@ == t@,
            forall|k: int| 0 <= k < i ==> fits_stamp(k, #[trigger] x@[k]),
        decreases 23 - i,
    {
        let c = x[i];
        let fits = if i == 4 || i == 7 {
            c == '-'
        } else if i == 10 {
            c == 'T'
        } else if i == 13 || i == 16 {
            c == ':'
        } else if i == 19 {
            c == '.'
        } else {
            '0' <= c && c <= '9'
        };
        if !fits {
            assert(!fits_stamp(i as int, x@[i as int]));
            return false;
        }
        i = i + 1;
    }
    true
}

impl Host {
    /// A conversation in which nothing has been said yet.
    pub fn new() -> (h: Host)
        ensures
            h@ == HostView::fresh(),
    {
        let h = Host {
            replies: Vec::new(),
            next: 0,
            pending: None,
            asked: Ghost(Seq::empty()),
            events: Ghost(Seq::empty()),
        };
        assert(reply_views(h.replies@) == Seq::<ReplyView>::empty());
        h
    }

    /// Puts the operation back at its start: the recorded answers stay.
    pub fn rewind(&mut self)
        ensures
            final(self)@ == old(self)@.rewound(),
    {
        self.next = 0;
        self.pending = None;
        self.asked = Ghost(Seq::empty());
        self.events = Ghost(Seq::empty());
    }

    /// Puts an event on record.
    pub(crate) fn record(&mut self, event: Ghost<Event>)
        ensures
            final(self)@ == old(self)@.with(event@),
    {
        self.events = Ghost(self.events@.push(event@));
    }

    /// The request that waits for its answer, if the operation is suspended.
    pub fn pending(&self) -> (r: &Option<Request>)
        ensures
            r is Some == self@.pending is Some,
            r matches Some(q) ==> self@.pending == Some(q@),
    {
        &self.pending
    }

    /// How many answers are recorded.
    pub fn answered(&self) -> (n: usize)
        ensures
            n == self@.replies.len(),
    {
        self.replies.len()
    }

    /// Records the answer to the pending request and puts the operation back
    /// at its start. Without a pending request nothing changes.
    pub fn answer(&mut self, reply: Reply)
        ensures
            old(self)@.pending is Some ==> final(self)@ == (HostView {
                replies: old(self)@.replies.push(reply@),
                ..old(self)@.rewound()
            }),
            old(self)@.pending is None ==> final(self)@ == old(self)@,
    {
        if self.pending.is_some() {
            assert(reply_views(self.replies@.push(reply)) == reply_views(self.replies@).push(
                reply@,
            ));
            self.replies.push(reply);
            self.rewind();
        }
    }

    /// Answers the pending request where it asks for the time or for random
    /// text, which need no host, and says whether it did. The time is the
    /// local time, laid out to the millisecond; random text is made of
    /// letters and digits.
    pub fn answer_locally(&mut self) -> (done: bool)
        ensures
            done == (old(self)@.pending is Some && (old(self)@.pending->0 is Now || old(
                self,
            )@.pending->0 is Random)),
            !done ==> final(self)@ == old(self)@,
            done ==> final(self)@.rewound() == final(self)@ && final(self)@.replies.len() == old(
                self,
            )@.replies.len() + 1 && final(self)@.replies.drop_last() == old(self)@.replies
                && answers_locally(old(self)@.pending->0, final(self)@.replies.last()),
    {
        let reply = match &self.pending {
            Some(Request::Now) => {
                match local_time("%Y-%m-%dT%H:%M:%S%.3f") {
                    Some(t) => if stamped(t.as_str()) {
                        Reply::Text(t)
                    } else {
                        Reply::Failed(t)
                    },
                    None => Reply::Failed(String::from_str("the time cannot be laid out")),
                }
            },
            Some(Request::Random(n)) => Reply::Text(random_text(*n)),
            _ => {
                return false;
            },
        };
        let ghost before = self@;
        self.answer(reply);
        assert(self@.replies.drop_last() == before.replies);
        true
    }

    /// Makes a request. See `HostView::ask`.
    pub fn ask(&mut self, request: Request) -> (r: Result<Reply, Failure>)
        ensures
            final(self)@ == old(self)@.ask(request@).0,
            r matches Ok(reply) ==> old(self)@.ask(request@).1 == Ok::<ReplyView, FailureView>(
                reply@,
            ),
            r matches Err(e) ==> old(self)@.ask(request@).1 == Err::<ReplyView, FailureView>(e@),
    {
        if self.pending.is_some() {
            return Err(Failure::Suspended);
        }
        self.asked = Ghost(self.asked@.push(request@));
        if self.next < self.replies.len() {
            let reply = self.replies[self.next].copy();
            self.next = self.next + 1;
            Ok(reply)
        } else {
            self.pending = Some(request);
            Err(Failure::Suspended)
        }
    }

    /// Asks the host to run a command to its end.
    pub fn run(&mut self, c: Cmd) -> (r: Result<Output, Failure>)
        ensures
            final(self)@ == old(self)@.run(c@).0,
            r matches Ok(o) ==> old(self)@.run(c@).1 == Ok::<OutputView, FailureView>(o@),
            r matches Err(e) ==> old(self)@.run(c@).1 == Err::<OutputView, FailureView>(e@),
    {
        match self.ask(Request::Run(c))? {
            Reply::Output(o) => Ok(o),
            Reply::Failed(m) => Err(Failure::Io(m)),
            _ => Err(Failure::Reply),
        }
    }

    /// Asks the host to run a command and pass its output on.
    pub fn stream(&mut self, c: Cmd) -> (r: Result<Option<i32>, Failure>)
        ensures
            final(self)@ == old(self)@.stream(c@).0,
            r matches Ok(code) ==> old(self)@.stream(c@).1 == Ok::<Option<i32>, FailureView>(code),
            r matches Err(e) ==> old(self)@.stream(c@).1 == Err::<Option<i32>, FailureView>(e@),
    {
        match self.ask(Request::Stream(c))? {
            Reply::Exit(code) => Ok(code),
            Reply::Failed(m) => Err(Failure::Io(m)),
            _ => Err(Failure::Reply),
        }
    }

    /// Makes a request that is answered with yes or no.
    pub fn flag(&mut self, request: Request) -> (r: Result<bool, Failure>)
        ensures
            (final(self)@, outcome(r)) == old(self)@.flag(request@),
    {
        match self.ask(request)? {
            Reply::Flag(b) => Ok(b),
            Reply::Failed(m) => Err(Failure::Io(m)),
            _ => Err(Failure::Reply),
        }
    }

    /// Makes a request that is answered with a text.
    pub fn text(&mut self, request: Request) -> (r: Result<String, Failure>)
        ensures
            (final(self)@, outcome(r)) == old(self)@.text(request@),
    {
        match self.ask(request)? {
            Reply::Text(t) => Ok(t),
            Reply::Failed(m) => Err(Failure::Io(m)),
            _ => Err(Failure::Reply),
        }
    }

    /// Makes a request that is answered when it is done.
    pub fn done(&mut self, request: Request) -> (r: Result<(), Failure>)
        ensures
            (final(self)@, outcome(r)) == old(self)@.done(request@),
    {
        match self.ask(request)? {
            Reply::Done => Ok(()),
            Reply::Failed(m) => Err(Failure::Io(m)),
            _ => Err(Failure::Reply),
        }
    }

    /// Asks whether a regular file is at the path.
    pub fn is_file(&mut self, path: &str) -> (r: Result<bool, Failure>)
        ensures
            (final(self)@, outcome(r)) == old(self)@.is_file(path@),
    {
        let b = self.flag(Request::IsFile(String::from_str(path)))?;
        self.record(Ghost(Event::IsFile(path@, b)));
        Ok(b)
    }

    /// Asks whether a directory is at the path.
    pub fn is_dir(&mut self, path: &str) -> (r: Result<bool, Failure>)
        ensures
            (final(self)@, outcome(r)) == old(self)@.is_dir(path@),
    {
        let b = self.flag(Request::IsDir(String::from_str(path)))?;
        self.record(Ghost(Event::IsDir(path@, b)));
        Ok(b)
    }

    /// Reads a file as text.
    pub fn read_file(&mut self, path: &str) -> (r: Result<String, Failure>)
        ensures
            (final(self)@, outcome(r)) == old(self)@.read_file(path@),
    {
        let t = self.text(Request::ReadFile(String::from_str(path)))?;
        self.record(Ghost(Event::Read(path@, t@)));
        Ok(t)
    }

    /// Writes the text to the file, in place of what it held.
    pub fn write_file(&mut self, path: &str, text: &str) -> (r: Result<(), Failure>)
        ensures
            (final(self)@, outcome(r)) == old(self)@.write_file(path@, text@),
    {
        self.record(Ghost(Event::Written(path@, text@)));
        self.done(Request::WriteFile(String::from_str(path), String::from_str(text)))
    }

    /// Removes the file.
    pub fn remove_file(&mut self, path: &str) -> (r: Result<(), Failure>)
        ensures
            (final(self)@, outcome(r)) == old(self)@.remove_file(path@),
    {
        self.record(Ghost(Event::Removed(path@)));
        self.done(Request::RemoveFile(String::from_str(path)))
    }

    /// Makes another change to the host's files.
    pub fn change(&mut self, request: Request) -> (r: Result<(), Failure>)
        ensures
            (final(self)@, outcome(r)) == old(self)@.change(request@),
    {
        self.record(Ghost(Event::Changed(request@)));
        self.done(request)
    }

    /// Tells the user something that needs no detail.
    pub fn note0(&mut self, what: What, jail: &str, noop: bool) -> (r: Result<(), Failure>)
        ensures
            (final(self)@, outcome(r)) == old(self)@.note(what, jail@, Seq::empty(), noop),
    {
        let details: Vec<String> = Vec::new();
        assert(views(details@) == Seq::<Seq<char>>::empty());
        self.note(what, jail, details, noop)
    }

    /// Tells the user something with one detail.
    pub fn note1(&mut self, what: What, jail: &str, a: &str, noop: bool) -> (r: Result<
        (),
        Failure,
    >)
        ensures
            (final(self)@, outcome(r)) == old(self)@.note(what, jail@, seq![a@], noop),
    {
        let mut details: Vec<String> = Vec::new();
        details.push(String::from_str(a));
        assert(views(details@) == seq![a@]);
        self.note(what, jail, details, noop)
    }

    /// Tells the user something with two details.
    pub fn note2(&mut self, what: What, jail: &str, a: &str, b: &str, noop: bool) -> (r: Result<
        (),
        Failure,
    >)
        ensures
            (final(self)@, outcome(r)) == old(self)@.note(what, jail@, seq![a@, b@], noop),
    {
        let mut details: Vec<String> = Vec::new();
        details.push(String::from_str(a));
        details.push(String::from_str(b));
        assert(views(details@) == seq![a@, b@]);
        self.note(what, jail, details, noop)
    }

    /// Tells the user something with three details.
    pub fn note3(
        &mut self,
        what: What,
        jail: &str,
        a: &str,
        b: &str,
        c: &str,
        noop: bool,
    ) -> (r: Result<(), Failure>)
        ensures
            (final(self)@, outcome(r)) == old(self)@.note(what, jail@, seq![a@, b@, c@], noop),
    {
        let mut details: Vec<String> = Vec::new();
        details.push(String::from_str(a));
        details.push(String::from_str(b));
        details.push(String::from_str(c));
        assert(views(details@) == seq![a@, b@, c@]);
        self.note(what, jail, details, noop)
    }

    /// Runs a command that changes the host and passes its output on.
    pub fn stream_change(&mut self, c: &Cmd) -> (r: Result<(), Failure>)
        ensures
            (final(self)@, outcome(r)) == old(self)@.stream_change(c@),
    {
        self.record(Ghost(Event::Changed(RequestView::Stream(c@))));
        c.stream(self)
    }

    /// Tells the user something.
    pub fn note(&mut self, what: What, jail: &str, details: Vec<String>, noop: bool) -> (r: Result<
        (),
        Failure,
    >)
        ensures
            (final(self)@, outcome(r)) == old(self)@.note(what, jail@, views(details@), noop),
    {
        self.done(Request::Note(Note { what, jail: String::from_str(jail), details, noop }))
    }
}

} // verus!
