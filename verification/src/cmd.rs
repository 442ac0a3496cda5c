//! Commands: what to run on the host, and how its outcome is judged.

use crate::errors::{outcome, Failure, FailureView, RunError, RunErrorView};
use crate::host::{Host, HostView};
use crate::text::{join, views};
use vstd::prelude::*;

verus! {

/// The texts of a list of pairs.
pub open spec fn pair_views(v: Seq<(String, String)>) -> Seq<(Seq<char>, Seq<char>)> {
    Seq::new(v.len(), |i: int| (v[i].0@, v[i].1@))
}

/// A program with its arguments, and the environment and directory that it
/// is to be started in.
#[derive(Debug, PartialEq, Eq)]
pub struct Cmd {
    program: String,
    args: Vec<String>,
    envs: Vec<(String, String)>,
    dir: Option<String>,
}

/// What a `Cmd` holds.
pub struct CmdView {
    pub program: Seq<char>,
    pub args: Seq<Seq<char>>,
    pub envs: Seq<(Seq<char>, Seq<char>)>,
    pub dir: Option<Seq<char>>,
}

impl View for Cmd {
    type V = CmdView;

    closed spec fn view(&self) -> CmdView {
        CmdView {
            program: self.program@,
            args: views(self.args@),
            envs: pair_views(self.envs@),
            dir: match self.dir {
                Some(d) => Some(d@),
                None => None,
            },
        }
    }
}

/// The command that runs `program` with these arguments and nothing else set.
pub open spec fn command(program: Seq<char>, args: Seq<Seq<char>>) -> CmdView {
    CmdView { program, args, envs: Seq::empty(), dir: None }
}

/// A word between double quotes.
pub open spec fn quoted(word: Seq<char>) -> Seq<char> {
    seq!['"'] + word + seq!['"']
}

impl CmdView {
    /// The program and its arguments, each between double quotes, with a
    /// space between each two.
    pub open spec fn line(self) -> Seq<char> {
        join(Seq::new(self.args.len() + 1, |i: int| quoted(self.word(i))), seq![' '])
    }

    /// The program is word 0, the arguments follow.
    pub open spec fn word(self, i: int) -> Seq<char> {
        if i == 0 {
            self.program
        } else {
            self.args[i - 1]
        }
    }

    /// The program and its arguments, as they are, with a space between each
    /// two.
    pub open spec fn plain_line(self) -> Seq<char> {
        join(Seq::new(self.args.len() + 1, |i: int| self.word(i)), seq![' '])
    }

    /// What is reported where the command, run to its end, has failed.
    pub open spec fn failure(self, code: Option<i32>, stderr: Seq<char>) -> RunErrorView {
        RunErrorView { code, message: failed_prefix() + self.line() + stderr_infix() + stderr }
    }

    /// What is reported where the command, its output passed on line by
    /// line, has failed.
    pub open spec fn stream_failure(self, code: Option<i32>) -> RunErrorView {
        RunErrorView { code, message: stream_failed_prefix() + self.line() }
    }

    /// The result of a command that has run to its end: its standard output
    /// where it exited with code 0, else the failure.
    pub open spec fn judged(self, output: OutputView) -> Result<Seq<char>, RunErrorView> {
        if output.code == Some(0i32) {
            Ok(output.stdout)
        } else {
            Err(self.failure(output.code, output.stderr))
        }
    }
}

pub open spec fn failed_prefix() -> Seq<char> {
    "Failed command: '"@
}

pub open spec fn stderr_infix() -> Seq<char> {
    "', stderr: "@
}

pub open spec fn stream_failed_prefix() -> Seq<char> {
    "Failed command: "@
}

/// How a command ended and what it wrote.
#[derive(Debug, PartialEq, Eq)]
pub struct Output {
    /// The exit code; none where a signal ended the command.
    pub code: Option<i32>,
    pub stdout: String,
    pub stderr: String,
}

/// What an `Output` holds.
pub struct OutputView {
    pub code: Option<i32>,
    pub stdout: Seq<char>,
    pub stderr: Seq<char>,
}

impl View for Output {
    type V = OutputView;

    open spec fn view(&self) -> OutputView {
        OutputView { code: self.code, stdout: self.stdout@, stderr: self.stderr@ }
    }
}

impl Output {
    /// A copy of the output.
    pub fn copy(&self) -> (r: Output)
        ensures
            r@ == self@,
    {
        Output { code: self.code, stdout: self.stdout.clone(), stderr: self.stderr.clone() }
    }
}

/// A copy of a list of strings.
pub fn copy_texts(v: &Vec<String>) -> (r: Vec<String>)
    ensures
        views(r@) == views(v@),
{
    let mut r: Vec<String> = Vec::new();
    let mut i: usize = 0;
    while i < v.len()
        invariant
            i <= v.len(),
            views(r@) == views(v@).take(i as int),
        decreases v.len() - i,
    {
        let s = v[i].clone();
        assert(views(r@.push(s)) == views(r@).push(s@));
        r.push(s);
        i = i + 1;
    }
    r
}

impl Cmd {
    /// The command that runs `program` without arguments.
    pub fn new(program: &str) -> (c: Cmd)
        ensures
            c@ == command(program@, Seq::empty()),
    {
        let c = Cmd {
            program: String::from_str(program),
            args: Vec::new(),
            envs: Vec::new(),
            dir: None,
        };
        assert(views(c.args@) == Seq::<Seq<char>>::empty());
        assert(pair_views(c.envs@) == Seq::<(Seq<char>, Seq<char>)>::empty());
        c
    }

    /// The command with one more argument.
    pub fn arg(self, arg: &str) -> (c: Cmd)
        ensures
            c@ == (CmdView { args: self@.args.push(arg@), ..self@ }),
    {
        let mut c = self;
        let a = String::from_str(arg);
        assert(views(c.args@.push(a)) == views(c.args@).push(a@));
        c.args.push(a);
        c
    }

    /// The command with more arguments, in their order.
    pub fn args(self, args: &Vec<String>) -> (c: Cmd)
        ensures
            c@ == (CmdView { args: self@.args + views(args@), ..self@ }),
    {
        let mut c = self;
        let mut i: usize = 0;
        while i < args.len()
            invariant
                i <= args.len(),
                c@ == (CmdView { args: self@.args + views(args@).take(i as int), ..self@ }),
            decreases args.len() - i,
        {
            let a = args[i].clone();
            assert(views(c.args@.push(a)) == views(c.args@).push(a@));
            assert((self@.args + views(args@).take(i as int)).push(a@) == self@.args + views(
                args@,
            ).take(i + 1));
            c.args.push(a);
            i = i + 1;
        }
        assert(views(args@).take(args.len() as int) == views(args@));
        c
    }

    /// The command with more variables in its environment.
    pub fn envs(self, vars: &Vec<(String, String)>) -> (c: Cmd)
        ensures
            c@ == (CmdView { envs: self@.envs + pair_views(vars@), ..self@ }),
    {
        let mut c = self;
        let mut i: usize = 0;
        while i < vars.len()
            invariant
                i <= vars.len(),
                c@ == (CmdView { envs: self@.envs + pair_views(vars@).take(i as int), ..self@ }),
            decreases vars.len() - i,
        {
            let k = vars[i].0.clone();
            let v = vars[i].1.clone();
            assert(pair_views(c.envs@.push((k, v))) == pair_views(c.envs@).push((k@, v@)));
            assert((self@.envs + pair_views(vars@).take(i as int)).push((k@, v@)) == self@.envs
                + pair_views(vars@).take(i + 1));
            c.envs.push((k, v));
            i = i + 1;
        }
        assert(pair_views(vars@).take(vars.len() as int) == pair_views(vars@));
        c
    }

    /// The command, to be started in `dir`.
    pub fn current_dir(self, dir: &str) -> (c: Cmd)
        ensures
            c@ == (CmdView { dir: Some(dir@), ..self@ }),
    {
        let mut c = self;
        c.dir = Some(String::from_str(dir));
        c
    }

    /// The program's name.
    pub fn program(&self) -> (s: &String)
        ensures
            s@ == self@.program,
    {
        &self.program
    }

    /// The arguments.
    pub fn arguments(&self) -> (v: &Vec<String>)
        ensures
            views(v@) == self@.args,
    {
        &self.args
    }

    /// The variables to set in the environment.
    pub fn variables(&self) -> (v: &Vec<(String, String)>)
        ensures
            pair_views(v@) == self@.envs,
    {
        &self.envs
    }

    /// The directory to start the command in, if one is set.
    pub fn directory(&self) -> (d: &Option<String>)
        ensures
            d is Some == self@.dir is Some,
            d matches Some(s) ==> self@.dir == Some(s@),
    {
        &self.dir
    }

    /// A copy of the command.
    pub fn copy(&self) -> (c: Cmd)
        ensures
            c@ == self@,
    {
        let mut envs: Vec<(String, String)> = Vec::new();
        let mut i: usize = 0;
        while i < self.envs.len()
            invariant
                i <= self.envs.len(),
                pair_views(envs@) == pair_views(self.envs@).take(i as int),
            decreases self.envs.len() - i,
        {
            let k = self.envs[i].0.clone();
            let v = self.envs[i].1.clone();
            assert(pair_views(envs@.push((k, v))) == pair_views(envs@).push((k@, v@)));
            envs.push((k, v));
            i = i + 1;
        }
        assert(pair_views(self.envs@).take(self.envs.len() as int) == pair_views(self.envs@));
        assert(views(self.args@).take(self.args.len() as int) == views(self.args@));
        Cmd {
            program: self.program.clone(),
            args: copy_texts(&self.args),
            envs,
            dir: match &self.dir {
                Some(d) => Some(d.clone()),
                None => None,
            },
        }
    }

    /// The program and its arguments in one line, each between double quotes.
    pub fn line(&self) -> (s: String)
        ensures
            s@ == self@.line(),
    {
        let mut s = String::new();
        s.push('"');
        s.append(self.program.as_str());
        s.push('"');
        let ghost words = Seq::new((self.args.len() + 1) as nat, |i: int| quoted(self@.word(i)));
        assert(s@ == quoted(self.program@));
        assert(words.take(1) == seq![quoted(self.program@)]);
        assert(s@ == join(words.take(1), seq![' '])) by {
            assert(words.take(1).len() == 1);
            assert(words.take(1)[0] == quoted(self.program@));
        }
        let mut i: usize = 0;
        while i < self.args.len()
            invariant
                i <= self.args.len(),
                words == Seq::new((self.args.len() + 1) as nat, |i: int| quoted(self@.word(i))),
                s@ == join(words.take(i + 1), seq![' ']),
            decreases self.args.len() - i,
        {
            proof {
                let now = words.take(i + 2);
                assert(now.drop_last() == words.take(i + 1));
                assert(now.last() == quoted(self.args@[i as int]@));
            }
            let ghost before = s@;
            s.push(' ');
            s.push('"');
            s.append(self.args[i].as_str());
            s.push('"');
            assert(s@ == before + seq![' '] + quoted(self.args@[i as int]@));
            i = i + 1;
        }
        assert(words.take(self.args.len() + 1) == words);
        s
    }

    /// Judges a command that has run to its end: its standard output where
    /// it exited with code 0, else the failure with the command's line and
    /// what it wrote to standard error.
    pub fn check_exit_status(&self, output: &Output) -> (r: Result<String, RunError>)
        ensures
            r matches Ok(s) ==> self@.judged(output@) == Ok::<Seq<char>, RunErrorView>(s@),
            r matches Err(e) ==> self@.judged(output@) == Err::<Seq<char>, RunErrorView>(e@),
    {
        let ok = match output.code {
            Some(code) => code == 0,
            None => false,
        };
        if ok {
            Ok(output.stdout.clone())
        } else {
            let mut message = String::from_str("Failed command: '");
            message.append(self.line().as_str());
            message.append("', stderr: ");
            message.append(output.stderr.as_str());
            Err(RunError { code: output.code, message })
        }
    }

    /// Runs the command on the host and waits for its end. Fails where it
    /// cannot be started or ends with another status than success.
    pub fn exec(&self, host: &mut Host) -> (r: Result<(), Failure>)
        ensures
            (final(host)@, outcome(r)) == exec_spec(old(host)@, self@),
    {
        let output = host.run(self.copy())?;
        match self.check_exit_status(&output) {
            Ok(_) => Ok(()),
            Err(e) => Err(Failure::Run(e)),
        }
    }

    /// Runs the command on the host and hands back what it wrote to standard
    /// output. Fails as `exec` does.
    pub fn capture(&self, host: &mut Host) -> (r: Result<String, Failure>)
        ensures
            (final(host)@, outcome(r)) == capture_spec(old(host)@, self@),
    {
        let output = host.run(self.copy())?;
        match self.check_exit_status(&output) {
            Ok(s) => Ok(s),
            Err(e) => Err(Failure::Run(e)),
        }
    }

    /// Runs the command on the host, which passes its output on line by line
    /// as it comes. Fails where the command cannot be started or ends with
    /// another status than success.
    pub fn stream(&self, host: &mut Host) -> (r: Result<(), Failure>)
        ensures
            (final(host)@, outcome(r)) == stream_spec(old(host)@, self@),
    {
        let code = host.stream(self.copy())?;
        let ok = match code {
            Some(c) => c == 0,
            None => false,
        };
        if ok {
            Ok(())
        } else {
            let mut message = String::from_str("Failed command: ");
            message.append(self.line().as_str());
            Err(Failure::Run(RunError { code, message }))
        }
    }
}

/// Running a command to its end: the host is asked to run it, and the
/// command's standard output is the result where it exited with code 0.
pub open spec fn capture_spec(h: HostView, c: CmdView) -> (HostView, Result<Seq<char>, FailureView>) {
    let (h1, r) = h.run(c);
    match r {
        Err(e) => (h1, Err(e)),
        Ok(output) => match c.judged(output) {
            Ok(s) => (h1, Ok(s)),
            Err(e) => (h1, Err(FailureView::Run(e))),
        },
    }
}

/// As `capture_spec`, without the output.
pub open spec fn exec_spec(h: HostView, c: CmdView) -> (HostView, Result<(), FailureView>) {
    let (h1, r) = capture_spec(h, c);
    match r {
        Err(e) => (h1, Err(e)),
        Ok(_) => (h1, Ok(())),
    }
}

/// Running a program with arguments, its output passed on by the host; a
/// failure tells the program and its arguments as they are.
pub open spec fn stream_plain_spec(h: HostView, program: Seq<char>, args: Seq<Seq<char>>) -> (
    HostView,
    Result<(), FailureView>,
) {
    let c = command(program, args);
    let (h1, r) = h.stream(c);
    match r {
        Err(e) => (h1, Err(e)),
        Ok(code) => if code == Some(0i32) {
            (h1, Ok(()))
        } else {
            (
                h1,
                Err(
                    FailureView::Run(
                        RunErrorView { code, message: stream_failed_prefix() + c.plain_line() },
                    ),
                ),
            )
        },
    }
}

/// Runs a program with arguments on the host, which passes its output on
/// line by line as it comes. Fails where the program cannot be started or
/// ends with another status than success.
pub fn stream(program: &str, args: &Vec<String>, host: &mut Host) -> (r: Result<(), Failure>)
    ensures
        (final(host)@, outcome(r)) == stream_plain_spec(old(host)@, program@, views(args@)),
{
    let c = Cmd::new(program).args(args);
    assert(c@.args =~= views(args@));
    let code = host.stream(c.copy())?;
    let ok = match code {
        Some(c) => c == 0,
        None => false,
    };
    if ok {
        Ok(())
    } else {
        let mut words: Vec<String> = Vec::new();
        words.push(String::from_str(program));
        let mut i: usize = 0;
        let ghost all = Seq::new((args.len() + 1) as nat, |i: int| c@.word(i));
        assert(views(words@) == all.take(1));
        while i < args.len()
            invariant
                i <= args.len(),
                all == Seq::new((args.len() + 1) as nat, |i: int| c@.word(i)),
                c@.args == views(args@),
                views(words@) == all.take(i + 1),
            decreases args.len() - i,
        {
            let word = args[i].clone();
            assert(views(words@.push(word)) == views(words@).push(word@));
            assert(all.take(i + 2) == all.take(i + 1).push(all[i + 1]));
            words.push(word);
            i = i + 1;
        }
        assert(all.take(args.len() + 1) == all);
        let mut sep = String::new();
        sep.push(' ');
        assert(sep@ == seq![' ']);
        let mut message = String::from_str("Failed command: ");
        message.append(crate::text::join_with(&words, sep.as_str()).as_str());
        Err(Failure::Run(RunError { code, message }))
    }
}

/// Running a command whose output the host passes on.
pub open spec fn stream_spec(h: HostView, c: CmdView) -> (HostView, Result<(), FailureView>) {
    let (h1, r) = h.stream(c);
    match r {
        Err(e) => (h1, Err(e)),
        Ok(code) => if code == Some(0i32) {
            (h1, Ok(()))
        } else {
            (h1, Err(FailureView::Run(c.stream_failure(code))))
        },
    }
}

} // verus!
