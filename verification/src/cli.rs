//! What the commands of the program do.

use crate::cmd::{command, exec_spec, Cmd};
use crate::errors::{outcome, Failure, FailureView, InitError, JailError};
use crate::host::{Event, Host, HostView, Request, RequestView, What};
use crate::jail::{Jail, JailView};
use crate::maps::jail_entries;
use crate::settings::{jail_views, jails, Settings};
use crate::text::{glue, same, views};
use crate::zfs::{change, change_spec, create_spec, ds_exists_spec, get_spec, set_spec, DataSet};
use vstd::prelude::*;

verus! {

/// Whether a name is that of a command that works on jails.
pub open spec fn is_action(name: Seq<char>) -> bool {
    name == "apply"@ || name == "destroy"@ || name == "provision"@
}

/// What a command does to one jail.
#[verifier::opaque]
pub open spec fn jail_action_spec(action: Seq<char>, j: JailView, h: HostView) -> (
    HostView,
    Result<(), FailureView>,
) {
    if action == "apply"@ {
        j.apply(h)
    } else if action == "destroy"@ {
        j.destroy(h)
    } else {
        j.provision(h)
    }
}

/// Where in a row of jails the first of a given name stands, if there is one.
pub open spec fn place(jails: Seq<JailView>, name: Seq<char>) -> Option<int>
    decreases jails.len(),
{
    if jails.len() == 0 {
        None
    } else {
        match place(jails.drop_last(), name) {
            Some(i) => Some(i),
            None => if jails.last().name == name {
                Some(jails.len() - 1)
            } else {
                None
            },
        }
    }
}

/// What is reported where a jail is asked for that is not declared.
pub open spec fn undefined(name: Seq<char>) -> FailureView {
    FailureView::Jail("jail '"@ + name + "' is not defined"@)
}

/// The jails of the first `n` names, in the order of the names, or the
/// failure for the first name that no jail has.
pub open spec fn picked(jails: Seq<JailView>, names: Seq<Seq<char>>, n: nat) -> Result<
    Seq<JailView>,
    FailureView,
>
    decreases n,
{
    if n == 0 {
        Ok(Seq::empty())
    } else {
        match picked(jails, names, (n - 1) as nat) {
            Err(e) => Err(e),
            Ok(before) => match place(jails, names[n - 1]) {
                Some(i) => Ok(before.push(jails[i])),
                None => Err(undefined(names[n - 1])),
            },
        }
    }
}

/// The jails that a command works on, in the order in which it takes them:
/// all that are declared, in the order of the configuration, and in the
/// reverse order where they are destroyed; or those that are named, in the
/// order of the names.
pub open spec fn selected(jails: Seq<JailView>, sub_name: Seq<char>, all: bool, names: Seq<
    Seq<char>,
>) -> Result<Seq<JailView>, FailureView> {
    if all {
        if sub_name == "destroy"@ {
            Ok(jails.reverse())
        } else {
            Ok(jails)
        }
    } else {
        picked(jails, names, names.len())
    }
}

/// What a row of references to jails holds.
pub open spec fn chosen(refs: Seq<&Jail>) -> Seq<JailView> {
    Seq::new(refs.len(), |i: int| refs[i]@)
}

/// The names of a row of jails.
pub open spec fn names_of(jails: Seq<JailView>) -> Seq<Seq<char>> {
    Seq::new(jails.len(), |i: int| jails[i].name)
}

/// The command on the first `n` of the jails, one after the other, up to the
/// first failure.
pub open spec fn run_all_spec(action: Seq<char>, jails: Seq<JailView>, h: HostView, n: nat) -> (
    HostView,
    Result<(), FailureView>,
)
    decreases n,
{
    if n == 0 {
        (h, Ok(()))
    } else {
        let (h1, r) = run_all_spec(action, jails, h, (n - 1) as nat);
        match r {
            Err(e) => (h1, Err(e)),
            Ok(_) => jail_action_spec(action, jails[n - 1], h1),
        }
    }
}

/// Asking the user before jails are destroyed: only the answer `y` lets the
/// command go on.
pub open spec fn confirm_spec(h: HostView, names: Seq<Seq<char>>) -> (
    HostView,
    Result<(), FailureView>,
) {
    let (h1, r) = h.text(RequestView::Confirm(names));
    match r {
        Err(e) => (h1, Err(e)),
        Ok(answer) => if answer == "y"@ {
            (h1, Ok(()))
        } else {
            (h1, Err(FailureView::Aborted))
        },
    }
}

/// The command that reads or sets whether jails are switched on at boot.
pub open spec fn jail_enable(args: Seq<Seq<char>>) -> crate::cmd::CmdView {
    command("sysrc"@, args + seq!["jail_enable=YES"@])
}

/// What is found wrong on a host that is to hold jails: that the dataset for
/// jails is missing, that jails are not switched on; and, if anything is,
/// the way to mend it.
pub open spec fn findings(dataset: Seq<char>, present: bool, enabled: bool) -> Seq<Seq<char>> {
    let first = if present {
        Seq::empty()
    } else {
        seq!["jails dataset: "@ + dataset + " doesn't exist."@]
    };
    let second = if enabled {
        first
    } else {
        first.push("jails not enabled in rc.conf."@)
    };
    if second.len() > 0 {
        second.push("Run 'init' to fix"@)
    } else {
        second
    }
}

/// Checking that the host is prepared: whether the dataset for jails exists
/// and whether jails are switched on. The second check counts as failed
/// whatever keeps the command from succeeding.
pub open spec fn check_init_spec(s: Settings, h: HostView) -> (HostView, Result<(), FailureView>) {
    let (h1, r1) = ds_exists_spec(h, s.jails_dataset@);
    match r1 {
        Err(e) => (h1, Err(e)),
        Ok(present) => {
            let (h2, r2) = exec_spec(h1, jail_enable(seq!["-c"@]));
            match r2 {
                Err(FailureView::Suspended) => (h2, Err(FailureView::Suspended)),
                _ => {
                    let found = findings(s.jails_dataset@, present, r2 is Ok);
                    if found.len() > 0 {
                        (h2, Err(FailureView::Init(found)))
                    } else {
                        (h2, Ok(()))
                    }
                },
            }
        },
    }
}

/// Preparing the host: the dataset for jails is created unless it exists,
/// its mount point is set unless it is the declared one, and jails are
/// switched on.
pub open spec fn init_spec(s: Settings, h: HostView) -> (HostView, Result<(), FailureView>) {
    let (h0, r0) = h.note(What::Initializing, Seq::empty(), Seq::empty(), s.noop);
    match r0 {
        Err(e) => (h0, Err(e)),
        Ok(_) => {
            let (h1, r1) = create_spec(h0, s.jails_dataset@);
            match r1 {
                Err(e) => (h1, Err(e)),
                Ok(_) => {
                    let (h2, r2) = get_spec(h1, s.jails_dataset@, "mountpoint"@);
                    match r2 {
                        Err(e) => (h2, Err(e)),
                        Ok(at) => {
                            let (h3, r3) = if at == s.jails_mountpoint@ {
                                (h2, Ok(()))
                            } else {
                                set_spec(h2, s.jails_dataset@, "mountpoint"@, s.jails_mountpoint@)
                            };
                            match r3 {
                                Err(e) => (h3, Err(e)),
                                Ok(_) => {
                                    let (h4, r4) = h3.note(
                                        What::EnablingJails,
                                        Seq::empty(),
                                        Seq::empty(),
                                        s.noop,
                                    );
                                    match r4 {
                                        Err(e) => (h4, Err(e)),
                                        Ok(_) => change_spec(
                                            h4,
                                            jail_enable(Seq::empty()),
                                            Event::Changed(
                                                RequestView::Run(jail_enable(Seq::empty())),
                                            ),
                                        ),
                                    }
                                },
                            }
                        },
                    }
                },
            }
        },
    }
}

/// A command that works on jails: the host must be prepared; the jails are
/// those that the configuration declares; those to work on are selected;
/// before they are destroyed the user is asked, unless that is waived; then
/// the command is run on each.
pub open spec fn work_spec(
    s: Settings,
    sub_name: Seq<char>,
    all: bool,
    names: Seq<Seq<char>>,
    auto_approve: bool,
    h: HostView,
) -> (HostView, Result<(), FailureView>) {
    let (h1, r1) = check_init_spec(s, h);
    match r1 {
        Err(e) => (h1, Err(e)),
        Ok(_) => match jails(s, jail_entries(s.jail).len()) {
            Err(e) => (h1, Err(e)),
            Ok(declared) => match selected(declared, sub_name, all, names) {
                Err(e) => (h1, Err(e)),
                Ok(chosen) => {
                    let (h2, r2) = if sub_name == "destroy"@ && !auto_approve {
                        confirm_spec(h1, names_of(chosen))
                    } else {
                        (h1, Ok(()))
                    };
                    match r2 {
                        Err(e) => (h2, Err(e)),
                        Ok(_) => run_all_spec(sub_name, chosen, h2, chosen.len()),
                    }
                },
            },
        },
    }
}

/// A command of the program.
pub open spec fn subcommand_spec(
    s: Settings,
    sub_name: Seq<char>,
    all: bool,
    names: Seq<Seq<char>>,
    auto_approve: bool,
    h: HostView,
) -> (HostView, Result<(), FailureView>) {
    if sub_name == "init"@ {
        init_spec(s, h)
    } else {
        work_spec(s, sub_name, all, names, auto_approve, h)
    }
}

/// What a path that is given for the configuration must be: a file.
pub open spec fn is_valid_config_spec(h: HostView, path: Seq<char>) -> (
    HostView,
    Result<Result<(), Seq<char>>, FailureView>,
) {
    let (h1, r) = h.is_file(path);
    match r {
        Err(e) => (h1, Err(e)),
        Ok(true) => (h1, Ok(Ok(()))),
        Ok(false) => (h1, Ok(Err("file not found: "@ + path))),
    }
}

/// Destroying all jails takes them in the reverse of the order in which the
/// configuration declares them: the jail that `destroy` takes as its `i`-th
/// is the `i`-th from the end of the configuration. Every other command on
/// all jails takes them in the order of the configuration.
pub proof fn destroy_all_is_reversed(jails: Seq<JailView>, sub_name: Seq<char>, names: Seq<
    Seq<char>,
>)
    ensures
        selected(jails, sub_name, true, names) is Ok,
        selected(jails, sub_name, true, names)->Ok_0.len() == jails.len(),
        forall|i: int|
            0 <= i < jails.len() ==> #[trigger] selected(jails, sub_name, true, names)->Ok_0[i]
                == (if sub_name == "destroy"@ {
                jails[jails.len() - 1 - i]
            } else {
                jails[i]
            }),
{
}

proof fn lemma_place_stays(jails: Seq<JailView>, k: int, name: Seq<char>)
    requires
        0 <= k <= jails.len(),
        place(jails.take(k), name) is Some,
    ensures
        place(jails, name) == place(jails.take(k), name),
    decreases jails.len() - k,
{
    if k < jails.len() {
        assert(jails.take(k + 1).drop_last() == jails.take(k));
        lemma_place_stays(jails, k + 1, name);
    } else {
        assert(jails.take(k) == jails);
    }
}

proof fn lemma_picked_fails(jails: Seq<JailView>, names: Seq<Seq<char>>, k: nat, n: nat)
    requires
        k <= n,
        picked(jails, names, k) is Err,
    ensures
        picked(jails, names, n) == picked(jails, names, k),
    decreases n,
{
    if k < n {
        lemma_picked_fails(jails, names, k, (n - 1) as nat);
    }
}

proof fn lemma_run_fails(action: Seq<char>, jails: Seq<JailView>, h: HostView, k: nat, n: nat)
    requires
        k <= n,
        run_all_spec(action, jails, h, k).1 is Err,
    ensures
        run_all_spec(action, jails, h, n) == run_all_spec(action, jails, h, k),
    decreases n,
{
    if k < n {
        lemma_run_fails(action, jails, h, k, (n - 1) as nat);
    }
}

/// Runs a command on one jail. The command is `apply`, `destroy` or
/// `provision`.
pub fn jail_action(action: &str, jail: &Jail, host: &mut Host) -> (r: Result<(), Failure>)
    requires
        is_action(action@),
    ensures
        (final(host)@, outcome(r)) == jail_action_spec(action@, jail@, old(host)@),
{
    reveal(jail_action_spec);
    if same(action, "apply") {
        jail.apply(host)
    } else if same(action, "destroy") {
        jail.destroy(host)
    } else {
        jail.provision(host)
    }
}

/// Where in the row the first jail of the given name stands.
pub fn find_jail(jails: &Vec<Jail>, name: &str) -> (r: Option<usize>)
    ensures
        r matches Some(i) ==> place(jail_views(jails@), name@) == Some(i as int) && i
            < jails@.len(),
        r is None ==> place(jail_views(jails@), name@) is None,
{
    let mut i: usize = 0;
    while i < jails.len()
        invariant
            i <= jails.len(),
            place(jail_views(jails@).take(i as int), name@) is None,
        decreases jails.len() - i,
    {
        assert(jail_views(jails@).take(i + 1).drop_last() == jail_views(jails@).take(i as int));
        assert(jail_views(jails@).take(i + 1).last() == jails@[i as int]@);
        if same(jails[i].name().as_str(), name) {
            proof {
                assert(place(jail_views(jails@).take(i + 1), name@) == Some(i as int));
                lemma_place_stays(jail_views(jails@), i + 1, name@);
            }
            return Some(i);
        }
        i = i + 1;
    }
    assert(jail_views(jails@).take(jails.len() as int) == jail_views(jails@));
    None
}

/// The jails that a command works on, in the order in which it takes them.
pub fn select<'b, 'a>(jails: &'b Vec<Jail<'a>>, sub_name: &str, all: bool, names: &Vec<String>) -> (r:
    Result<Vec<&'b Jail<'a>>, Failure>)
    ensures
        r matches Ok(v) ==> selected(jail_views(jails@), sub_name@, all, views(names@)) == Ok::<
            Seq<JailView>,
            FailureView,
        >(chosen(v@)),
        r matches Err(e) ==> selected(jail_views(jails@), sub_name@, all, views(names@)) == Err::<
            Seq<JailView>,
            FailureView,
        >(e@),
{
    let mut out: Vec<&'b Jail<'a>> = Vec::new();
    if all {
        if same(sub_name, "destroy") {
            let mut i: usize = jails.len();
            while i > 0
                invariant
                    i <= jails.len(),
                    out@.len() == jails.len() - i,
                    forall|k: int|
                        0 <= k < out@.len() ==> out@[k]@ == jails@[jails.len() - 1 - k]@,
                decreases i,
            {
                i = i - 1;
                out.push(&jails[i]);
            }
            assert(chosen(out@) == jail_views(jails@).reverse());
        } else {
            let mut i: usize = 0;
            while i < jails.len()
                invariant
                    i <= jails.len(),
                    out@.len() == i,
                    forall|k: int| 0 <= k < out@.len() ==> out@[k]@ == jails@[k]@,
                decreases jails.len() - i,
            {
                out.push(&jails[i]);
                i = i + 1;
            }
            assert(chosen(out@) == jail_views(jails@));
        }
        Ok(out)
    } else {
        let mut i: usize = 0;
        assert(chosen(out@) == Seq::<JailView>::empty());
        while i < names.len()
            invariant
                i <= names.len(),
                !all,
                picked(jail_views(jails@), views(names@), i as nat) == Ok::<
                    Seq<JailView>,
                    FailureView,
                >(chosen(out@)),
            decreases names.len() - i,
        {
            match find_jail(jails, names[i].as_str()) {
                Some(at) => {
                    assert(chosen(out@.push(&jails@[at as int])) == chosen(out@).push(
                        jails@[at as int]@,
                    ));
                    out.push(&jails[at]);
                },
                None => {
                    proof {
                        lemma_picked_fails(
                            jail_views(jails@),
                            views(names@),
                            (i + 1) as nat,
                            names@.len(),
                        );
                    }
                    let mut message = String::from_str("jail '");
                    message.append(names[i].as_str());
                    message.append("' is not defined");
                    return Err(Failure::Jail(JailError(message)));
                },
            }
            i = i + 1;
        }
        Ok(out)
    }
}

/// Asks the user whether the jails may be destroyed.
pub fn confirm(host: &mut Host, selected: &Vec<&Jail>) -> (r: Result<(), Failure>)
    ensures
        (final(host)@, outcome(r)) == confirm_spec(old(host)@, names_of(chosen(selected@))),
{
    let mut names: Vec<String> = Vec::new();
    let mut i: usize = 0;
    while i < selected.len()
        invariant
            i <= selected.len(),
            views(names@) == names_of(chosen(selected@)).take(i as int),
        decreases selected.len() - i,
    {
        let name = selected[i].name().clone();
        assert(views(names@.push(name)) == views(names@).push(name@));
        names.push(name);
        i = i + 1;
    }
    assert(names_of(chosen(selected@)).take(selected.len() as int) == names_of(chosen(selected@)));
    let answer = host.text(Request::Confirm(names))?;
    if same(answer.as_str(), "y") {
        Ok(())
    } else {
        Err(Failure::Aborted)
    }
}

/// Runs a command on each of the jails, one after the other, and stops at
/// the first failure.
pub fn run_all(action: &str, selected: &Vec<&Jail>, host: &mut Host) -> (r: Result<(), Failure>)
    requires
        is_action(action@),
    ensures
        (final(host)@, outcome(r)) == run_all_spec(
            action@,
            chosen(selected@),
            old(host)@,
            selected@.len(),
        ),
{
    let mut i: usize = 0;
    while i < selected.len()
        invariant
            i <= selected.len(),
            is_action(action@),
            (host@, Ok::<(), FailureView>(())) == run_all_spec(
                action@,
                chosen(selected@),
                old(host)@,
                i as nat,
            ),
        decreases selected.len() - i,
    {
        match jail_action(action, selected[i], host) {
            Ok(_) => {},
            Err(e) => {
                proof {
                    lemma_run_fails(
                        action@,
                        chosen(selected@),
                        old(host)@,
                        (i + 1) as nat,
                        selected@.len(),
                    );
                }
                return Err(e);
            },
        }
        i = i + 1;
    }
    Ok(())
}

fn jail_enable_cmd(check: bool) -> (c: Cmd)
    ensures
        c@ == jail_enable(
            if check {
                seq!["-c"@]
            } else {
                Seq::empty()
            },
        ),
{
    if check {
        let c = Cmd::new("sysrc").arg("-c").arg("jail_enable=YES");
        assert(c@.args =~= seq!["-c"@] + seq!["jail_enable=YES"@]);
        c
    } else {
        let c = Cmd::new("sysrc").arg("jail_enable=YES");
        assert(c@.args =~= Seq::<Seq<char>>::empty() + seq!["jail_enable=YES"@]);
        c
    }
}

/// Checks that the host is prepared for jails.
pub fn check_init(settings: &Settings, host: &mut Host) -> (r: Result<(), Failure>)
    ensures
        (final(host)@, outcome(r)) == check_init_spec(*settings, old(host)@),
{
    let jails_ds = DataSet::new(settings.jails_dataset.as_str());
    let present = jails_ds.present(host)?;
    let enabled = match jail_enable_cmd(true).exec(host) {
        Ok(_) => true,
        Err(Failure::Suspended) => {
            return Err(Failure::Suspended);
        },
        Err(_) => false,
    };
    let mut found: Vec<String> = Vec::new();
    assert(views(found@) == Seq::<Seq<char>>::empty());
    if !present {
        let mut message = String::from_str("jails dataset: ");
        message.append(jails_ds.path().as_str());
        message.append(" doesn't exist.");
        assert(views(found@.push(message)) == views(found@).push(message@));
        found.push(message);
    }
    if !enabled {
        let message = String::from_str("jails not enabled in rc.conf.");
        assert(views(found@.push(message)) == views(found@).push(message@));
        found.push(message);
    }
    if found.len() > 0 {
        let message = String::from_str("Run 'init' to fix");
        assert(views(found@.push(message)) == views(found@).push(message@));
        found.push(message);
        assert(views(found@) == findings(settings.jails_dataset@, present, enabled));
        Err(Failure::Init(InitError(found)))
    } else {
        Ok(())
    }
}

/// Prepares the host for jails.
pub fn init(settings: &Settings, host: &mut Host) -> (r: Result<(), Failure>)
    ensures
        (final(host)@, outcome(r)) == init_spec(*settings, old(host)@),
{
    proof {
        reveal_strlit("");
        assert(""@ == Seq::<char>::empty());
    }
    host.note0(What::Initializing, "", settings.noop)?;
    let jails_ds = DataSet::new(settings.jails_dataset.as_str());
    jails_ds.create(host)?;
    let at = jails_ds.get(host, "mountpoint")?;
    if !same(at.as_str(), settings.jails_mountpoint.as_str()) {
        jails_ds.set(host, "mountpoint", settings.jails_mountpoint.as_str())?;
    }
    host.note0(What::EnablingJails, "", settings.noop)?;
    change(
        host,
        jail_enable_cmd(false),
        Ghost(Event::Changed(RequestView::Run(jail_enable(Seq::empty())))),
    )
}

/// Runs a command of the program: `init`, `apply`, `destroy` or
/// `provision`. The last three work on all declared jails or on those that
/// are named.
pub fn subcommand(
    sub_name: &str,
    all: bool,
    names: &Vec<String>,
    auto_approve: bool,
    settings: &Settings,
    host: &mut Host,
) -> (r: Result<(), Failure>)
    requires
        sub_name@ == "init"@ || is_action(sub_name@),
    ensures
        (final(host)@, outcome(r)) == subcommand_spec(
            *settings,
            sub_name@,
            all,
            views(names@),
            auto_approve,
            old(host)@,
        ),
{
    if same(sub_name, "init") {
        return init(settings, host);
    }
    check_init(settings, host)?;
    let jails = settings.to_jails()?;
    let selected = select(&jails, sub_name, all, names)?;
    if same(sub_name, "destroy") && !auto_approve {
        confirm(host, &selected)?;
    }
    run_all(sub_name, &selected, host)
}

/// Whether the path that is given for the configuration is a file; if not,
/// what to tell the user.
pub fn is_valid_config(s: &str, host: &mut Host) -> (r: Result<Result<(), String>, Failure>)
    ensures
        final(host)@ == is_valid_config_spec(old(host)@, s@).0,
        r matches Ok(Ok(_)) ==> is_valid_config_spec(old(host)@, s@).1 == Ok::<
            Result<(), Seq<char>>,
            FailureView,
        >(Ok(())),
        r matches Ok(Err(m)) ==> is_valid_config_spec(old(host)@, s@).1 == Ok::<
            Result<(), Seq<char>>,
            FailureView,
        >(Err(m@)),
        r matches Err(e) ==> is_valid_config_spec(old(host)@, s@).1 == Err::<
            Result<(), Seq<char>>,
            FailureView,
        >(e@),
{
    if host.is_file(s)? {
        Ok(Ok(()))
    } else {
        Ok(Err(glue("file not found: ", s)))
    }
}

} // verus!
