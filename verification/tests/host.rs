use indexmap::IndexMap;
use regex::Regex;
use rj::cli::{check_init, init, select, subcommand};
use rj::cmd::{Cmd, Output};
use rj::errors::Failure;
use rj::host::{Host, Reply, Request, What};
use rj::jail::Jail;
use rj::pkg::Pkg;
use rj::provisioner::exec::{Exec, ExecMode};
use rj::provisioner::file::ProvFile;
use rj::provisioner::puppet::{default_tmp_dir, default_version, Puppet};
use rj::provisioner::test::Test;
use rj::provisioner::Provisioner;
use rj::settings::{JailConfValue, JailSettings, Settings};
use rj::source::freebsd::FreeBSD;
use rj::source::zfs_clone::ZfsClone;
use rj::source::Source;
use rj::volume::Volume;
use rj::zfs::DataSet;

// A machine that exists only in memory: it answers the requests of the
// library as the real tools would.
struct World {
    pools: Vec<String>,
    datasets: Vec<String>,
    snapshots: Vec<(String, String, i64)>,
    props: Vec<(String, String, String)>,
    clock: i64,
    running: Vec<String>,
    enabled: Vec<String>,
    jails_on: bool,
    files: Vec<(String, String)>,
    dirs: Vec<String>,
    modes: Vec<(String, u32)>,
    owners: Vec<(String, String)>,
    packages: Vec<(String, String)>,
    notes: Vec<(What, String, Vec<String>, bool)>,
    lines: Vec<String>,
    answer: String,
}

fn ok(stdout: &str) -> Reply {
    Reply::Output(Output { code: Some(0), stdout: stdout.to_string(), stderr: String::new() })
}

fn fail(code: i32, stderr: &str) -> Reply {
    Reply::Output(Output { code: Some(code), stdout: String::new(), stderr: stderr.to_string() })
}

impl World {
    fn new() -> World {
        World {
            pools: vec!["zroot".to_string()],
            datasets: vec!["zroot".to_string()],
            snapshots: Vec::new(),
            props: Vec::new(),
            clock: 1_600_000_000,
            running: Vec::new(),
            enabled: Vec::new(),
            jails_on: false,
            files: vec![
                ("/etc/hosts".to_string(), "127.0.0.1 localhost\n".to_string()),
                ("testdata/provisioners/file.txt".to_string(), "hello\n".to_string()),
                ("testdata/provisioners/puppet/manifests/site.pp".to_string(), "site".to_string()),
                ("testdata/provisioners/puppet/hiera.yaml".to_string(), "hiera".to_string()),
                ("testdata/provisioners/puppet/Puppetfile".to_string(), "mod".to_string()),
                ("testdata/provisioners/puppet_simple/init.pp".to_string(), "simple".to_string()),
            ],
            dirs: vec![
                "testdata/provisioners/puppet".to_string(),
                "testdata/provisioners/puppet_simple".to_string(),
            ],
            modes: Vec::new(),
            owners: Vec::new(),
            packages: Vec::new(),
            notes: Vec::new(),
            lines: Vec::new(),
            answer: "y".to_string(),
        }
    }

    fn has_dataset(&self, path: &str) -> bool {
        self.datasets.iter().any(|d| d == path)
    }

    fn has_snapshot(&self, full: &str) -> bool {
        self.snapshots.iter().any(|(d, n, _)| format!("{}@{}", d, n) == full)
    }

    fn is_file(&self, path: &str) -> bool {
        self.files.iter().any(|(p, _)| p == path)
    }

    fn read(&self, path: &str) -> Option<String> {
        self.files.iter().find(|(p, _)| p == path).map(|(_, t)| t.clone())
    }

    fn write(&mut self, path: &str, text: &str) {
        self.files.retain(|(p, _)| p != path);
        self.files.push((path.to_string(), text.to_string()));
    }

    fn mode(&self, path: &str) -> Option<u32> {
        self.modes.iter().rev().find(|(p, _)| p == path).map(|(_, m)| *m)
    }

    fn owner(&self, path: &str) -> Option<String> {
        self.owners.iter().rev().find(|(p, _)| p == path).map(|(_, o)| o.clone())
    }

    fn zfs(&mut self, args: &[String]) -> Reply {
        let words: Vec<&str> = args.iter().map(|a| a.as_str()).collect();
        match words.as_slice() {
            ["list", "-H", "-o", "name", "-t", "snap"] => {
                let mut out = String::new();
                for (d, n, _) in &self.snapshots {
                    out.push_str(&format!("{}@{}\n", d, n));
                }
                ok(&out)
            }
            ["list", "-H", "-p", "-o", "name,creation", "-t", "snap"] => {
                let mut out = String::new();
                for (d, n, t) in &self.snapshots {
                    out.push_str(&format!("{}@{}\t{}\n", d, n, t));
                }
                ok(&out)
            }
            ["list", path] => {
                if self.has_dataset(path) || self.has_snapshot(path) {
                    ok(&format!("NAME USED AVAIL REFER MOUNTPOINT\n{} 96K 1G 96K /{}\n", path, path))
                } else {
                    fail(1, &format!("cannot open '{}': dataset does not exist\n", path))
                }
            }
            ["create", path] => {
                let parent = match path.rfind('/') {
                    Some(i) => &path[..i],
                    None => "",
                };
                if !self.has_dataset(parent) {
                    let pool = path.split('/').next().unwrap_or("");
                    if !self.pools.iter().any(|p| p == pool) {
                        return fail(1, &format!("cannot create '{}': no such pool '{}'\n", path, pool));
                    }
                    return fail(1, &format!("cannot create '{}': parent does not exist\n", path));
                }
                if self.has_dataset(path) {
                    return fail(1, &format!("cannot create '{}': dataset already exists\n", path));
                }
                self.datasets.push(path.to_string());
                ok("")
            }
            ["destroy", "-r", path] => {
                if !self.has_dataset(path) {
                    return fail(1, &format!("cannot open '{}': dataset does not exist\n", path));
                }
                let below = format!("{}/", path);
                self.datasets.retain(|d| d != path && !d.starts_with(&below));
                self.snapshots.retain(|(d, _, _)| d != path && !d.starts_with(&below));
                ok("")
            }
            ["destroy", path] => {
                if path.contains('@') {
                    if !self.has_snapshot(path) {
                        return fail(1, &format!("could not find any snapshots to destroy; check snapshot names.\n"));
                    }
                    self.snapshots.retain(|(d, n, _)| format!("{}@{}", d, n) != *path);
                    return ok("");
                }
                if !self.has_dataset(path) {
                    return fail(1, &format!("cannot open '{}': dataset does not exist\n", path));
                }
                if self.snapshots.iter().any(|(d, _, _)| d == path) {
                    return fail(1, &format!("cannot destroy '{}': filesystem has children\n", path));
                }
                self.datasets.retain(|d| d != path);
                ok("")
            }
            ["snapshot", full] => {
                let (ds, name) = match full.split_once('@') {
                    Some(parts) => parts,
                    None => return fail(2, "usage: zfs snapshot\n"),
                };
                if !self.has_dataset(ds) {
                    return fail(1, &format!("cannot open '{}': dataset does not exist\n", ds));
                }
                if !name.chars().all(|c| c.is_ascii_alphanumeric() || "-_.:".contains(c)) {
                    return fail(1, &format!("cannot create snapshot '{}': invalid character in name\n", full));
                }
                if self.has_snapshot(full) {
                    return fail(1, &format!("cannot create snapshot '{}': dataset already exists\n", full));
                }
                self.clock += 1;
                self.snapshots.push((ds.to_string(), name.to_string(), self.clock));
                ok("")
            }
            ["clone", full, dest] => {
                if !self.has_snapshot(full) {
                    return fail(1, &format!("cannot open '{}': dataset does not exist\n", full));
                }
                if self.has_dataset(dest) {
                    return fail(1, &format!("cannot create '{}': dataset already exists\n", dest));
                }
                self.datasets.push(dest.to_string());
                ok("")
            }
            ["set", assignment, path] => {
                let (prop, value) = assignment.split_once('=').unwrap_or((assignment, ""));
                if !["atime", "mountpoint", "compression"].contains(&prop) {
                    return fail(2, &format!("cannot set property for '{}': invalid property '{}'\n", path, prop));
                }
                if !self.has_dataset(path) {
                    return fail(1, &format!("cannot open '{}': dataset does not exist\n", path));
                }
                self.props.retain(|(d, p, _)| !(d == path && p == prop));
                self.props.push((path.to_string(), prop.to_string(), value.to_string()));
                ok("")
            }
            ["get", "-H", "-o", "value", prop, path] => {
                if !self.has_dataset(path) {
                    return fail(1, &format!("cannot open '{}': dataset does not exist\n", path));
                }
                let value = self
                    .props
                    .iter()
                    .find(|(d, p, _)| d == path && p == prop)
                    .map(|(_, _, v)| v.clone())
                    .unwrap_or_else(|| if *prop == "mountpoint" { format!("/{}", path) } else { "on".to_string() });
                ok(&format!("{}\n", value))
            }
            _ => fail(2, "usage: zfs command args ...\n"),
        }
    }

    fn in_jail(&mut self, root: &str, words: &[String]) -> Reply {
        let w: Vec<&str> = words.iter().map(|a| a.as_str()).collect();
        match w.as_slice() {
            ["touch", path] => {
                let full = format!("{}{}", root, path);
                self.write(&full, "");
                ok("")
            }
            ["chown", owner, path] => {
                let full = format!("{}{}", root, path);
                if !self.is_file(&full) {
                    return fail(1, &format!("chown: {}: No such file or directory\n", path));
                }
                self.owners.push((full, owner.to_string()));
                ok("")
            }
            [wrapper, "r10k", "puppetfile", "install"] => {
                if !self.is_file(&format!("{}{}", root, wrapper)) {
                    return fail(127, "wrapper not found\n");
                }
                self.write(&format!("{}/tmp/r10k_ran", root), "");
                ok("")
            }
            [wrapper, "puppet", "apply", rest @ ..] => {
                if !self.is_file(&format!("{}{}", root, wrapper)) {
                    return fail(127, "wrapper not found\n");
                }
                if rest.contains(&"--noop") {
                    return ok("");
                }
                match rest.last() {
                    Some(&"manifests/site.pp") => {
                        self.write(&format!("{}/tmp/puppet_testfile", root), "/root");
                        ok("")
                    }
                    Some(&"init.pp") => {
                        self.write(&format!("{}/tmp/puppet_simple_testfile", root), "simple");
                        ok("")
                    }
                    _ => fail(1, "Could not find manifest\n"),
                }
            }
            _ => fail(127, "command not found\n"),
        }
    }

    fn run(&mut self, c: &Cmd) -> Reply {
        let args: Vec<String> = c.arguments().clone();
        let mut line = c.program().clone();
        for a in &args {
            line.push(' ');
            line.push_str(a);
        }
        self.lines.push(line);
        match c.program().as_str() {
            "echo" => ok(&format!("{}\n", args.join(" "))),
            "cat" => match args.first().and_then(|p| self.read(p)) {
                Some(text) => ok(&text),
                None => fail(1, &format!("cat: {}: No such file or directory\n", args.join(" "))),
            },
            "printenv" => {
                let name = args.first().cloned().unwrap_or_default();
                match c.variables().iter().find(|(k, _)| *k == name) {
                    Some((_, v)) => ok(&format!("{}\n", v)),
                    None => fail(1, ""),
                }
            }
            "zfs" => self.zfs(&args),
            "mount" => {
                let mut out = String::new();
                for name in &self.running {
                    if let Some(table) = self.read(&format!("/etc/fstab.{}", name)) {
                        for l in table.lines() {
                            let f: Vec<&str> = l.split(' ').collect();
                            let kind = if f[3] == "ro" { "nullfs, local, read-only" } else { "nullfs, local" };
                            out.push_str(&format!("{} on {} ({})\n", f[0], f[1], kind));
                        }
                    }
                }
                ok(&out)
            }
            "service" => match (args.get(0).map(|s| s.as_str()), args.get(1).map(|s| s.as_str()), args.get(2)) {
                (Some("jail"), Some("start"), Some(name)) => {
                    if !self.is_file(&format!("/etc/jail.{}.conf", name)) {
                        return fail(1, "no configuration\n");
                    }
                    if !self.running.contains(name) {
                        self.running.push(name.clone());
                    }
                    ok("")
                }
                (Some("jail"), Some("stop"), Some(name)) => {
                    self.running.retain(|n| n != name);
                    ok("")
                }
                _ => fail(1, "usage\n"),
            },
            "jls" => match args.get(1) {
                Some(name) if self.running.contains(name) => ok("1\n"),
                _ => fail(1, "jls: jail not found\n"),
            },
            "sysrc" => {
                let w: Vec<&str> = args.iter().map(|a| a.as_str()).collect();
                match w.as_slice() {
                    ["-n", "jail_list"] => ok(&format!("{}\n", self.enabled.join(" "))),
                    ["-c", "jail_enable=YES"] => {
                        if self.jails_on {
                            ok("")
                        } else {
                            fail(1, "")
                        }
                    }
                    ["jail_enable=YES"] => {
                        self.jails_on = true;
                        ok("jail_enable: NO -> YES\n")
                    }
                    [word] if word.starts_with("jail_list+=") => {
                        let name = word["jail_list+=".len()..].to_string();
                        if !self.enabled.contains(&name) {
                            self.enabled.push(name);
                        }
                        ok("")
                    }
                    [word] if word.starts_with("jail_list-=") => {
                        let name = &word["jail_list-=".len()..];
                        self.enabled.retain(|n| n != name);
                        ok("")
                    }
                    _ => fail(1, "usage\n"),
                }
            }
            "jexec" => {
                let name = args[0].clone();
                if !self.running.contains(&name) {
                    return fail(1, &format!("jexec: jail \"{}\" not found\n", name));
                }
                let root = format!("/jails/{}", name);
                self.in_jail(&root, &args[1..])
            }
            "chroot" => {
                let root = args[0].clone();
                self.in_jail(&root, &args[1..])
            }
            "pkg" => {
                let w: Vec<&str> = args.iter().map(|a| a.as_str()).collect();
                let yes = c.variables().iter().any(|(k, v)| k == "ASSUME_ALWAYS_YES" && v == "yes");
                match w.as_slice() {
                    ["-c", root, "info", name] => {
                        if self.packages.iter().any(|(r, n)| r == root && n == name) {
                            ok("")
                        } else {
                            fail(70, &format!("pkg: No package(s) matching {}\n", name))
                        }
                    }
                    ["-c", root, "install", name] => {
                        if !yes {
                            return fail(1, "pkg: would ask\n");
                        }
                        self.packages.push((root.to_string(), name.to_string()));
                        ok("")
                    }
                    _ => fail(64, "usage\n"),
                }
            }
            "rsync" => {
                let src = args[2].clone();
                let dest = args[3].clone();
                let base = src.rsplit('/').next().unwrap_or("").to_string();
                let copies: Vec<(String, String)> = self
                    .files
                    .iter()
                    .filter(|(p, _)| p.starts_with(&format!("{}/", src)))
                    .map(|(p, t)| (format!("{}/{}{}", dest, base, &p[src.len()..]), t.clone()))
                    .collect();
                for (p, t) in copies {
                    self.write(&p, &t);
                }
                ok("")
            }
            _ => Reply::Failed(format!("{}: No such file or directory", c.program())),
        }
    }

    fn perform(&mut self, request: &Request) -> Reply {
        match request {
            Request::Run(c) => self.run(c),
            Request::Stream(c) => match self.run(c) {
                Reply::Output(o) => Reply::Exit(o.code),
                other => other,
            },
            Request::IsFile(p) => Reply::Flag(self.is_file(p)),
            Request::IsDir(p) => Reply::Flag(self.dirs.contains(p)),
            Request::ReadFile(p) => match self.read(p) {
                Some(t) => Reply::Text(t),
                None => Reply::Failed(format!("{}: No such file or directory", p)),
            },
            Request::WriteFile(p, t) => {
                self.write(p, t);
                Reply::Done
            }
            Request::RemoveFile(p) => {
                if self.is_file(p) {
                    self.files.retain(|(q, _)| q != p);
                    Reply::Done
                } else {
                    Reply::Failed(format!("{}: No such file or directory", p))
                }
            }
            Request::CopyFile(from, to) => match self.read(from) {
                Some(t) => {
                    self.write(to, &t);
                    Reply::Done
                }
                None => Reply::Failed(format!("{}: No such file or directory", from)),
            },
            Request::SetMode(p, m) => {
                self.modes.push((p.clone(), *m));
                Reply::Done
            }
            Request::CreateDirAll(p) => {
                if !self.dirs.contains(p) {
                    self.dirs.push(p.clone());
                }
                Reply::Done
            }
            Request::Fetch(url, dest) => {
                let name = url.rsplit('/').next().unwrap_or("").to_string();
                self.write(&format!("{}/.fetched.{}", dest, name), url);
                Reply::Done
            }
            Request::Note(n) => {
                self.notes.push((n.what, n.jail.clone(), n.details.clone(), n.noop));
                Reply::Done
            }
            Request::Confirm(_) => Reply::Text(self.answer.clone()),
            Request::Now | Request::Random(_) => Reply::Failed("not for the host".to_string()),
        }
    }

    // Runs an operation to its end: each request that it stops at is carried
    // out, and the operation is run again.
    fn drive<T>(&mut self, op: impl Fn(&mut Host) -> Result<T, Failure>) -> Result<T, Failure> {
        let mut host = Host::new();
        loop {
            host.rewind();
            match op(&mut host) {
                Err(Failure::Suspended) => {
                    if !host.answer_locally() {
                        let reply = match host.pending() {
                            Some(request) => self.perform(request),
                            None => panic!("suspended without a request"),
                        };
                        host.answer(reply);
                    }
                }
                other => return other,
            }
        }
    }

    fn changes(&self) -> (Vec<String>, Vec<(String, String, i64)>, Vec<String>, Vec<String>, Vec<(String, String)>) {
        (
            self.datasets.clone(),
            self.snapshots.clone(),
            self.running.clone(),
            self.enabled.clone(),
            self.files.clone(),
        )
    }
}

fn cmd(world: &mut World, program: &str, args: &[&str]) -> Result<(), Failure> {
    let words: Vec<String> = args.iter().map(|a| a.to_string()).collect();
    world.drive(|h| Cmd::new(program).args(&words).exec(h))
}

fn cmd_capture(world: &mut World, program: &str, args: &[&str]) -> Result<String, Failure> {
    let words: Vec<String> = args.iter().map(|a| a.to_string()).collect();
    world.drive(|h| Cmd::new(program).args(&words).capture(h))
}

fn cmd_stream(world: &mut World, program: &str, args: &[&str]) -> Result<(), Failure> {
    let words: Vec<String> = args.iter().map(|a| a.to_string()).collect();
    world.drive(|h| Cmd::new(program).args(&words).stream(h))
}

// The configuration that the tests work on.
fn config(noop: bool) -> Settings {
    let mut defaults = IndexMap::new();
    defaults.insert("exec_start".to_string(), JailConfValue::String("/bin/sh /etc/rc".to_string()));
    defaults.insert("exec_stop".to_string(), JailConfValue::String("/bin/sh /etc/rc.shutdown".to_string()));
    defaults.insert("exec_clean".to_string(), JailConfValue::Bool(true));
    defaults.insert("mount_devfs".to_string(), JailConfValue::Bool(true));

    let mut source = IndexMap::new();
    source.insert(
        "freebsd12".to_string(),
        Source::FreeBSD(FreeBSD {
            name: "freebsd12".to_string(),
            release: "12.0-RELEASE".to_string(),
            mirror: "ftp.uk.freebsd.org".to_string(),
            dists: vec!["base".to_string(), "lib32".to_string()],
        }),
    );
    source.insert("base".to_string(), Source::ZfsClone(ZfsClone { path: "zroot/jails/base".to_string() }));
    source.insert("clone".to_string(), Source::ZfsClone(ZfsClone { path: "zroot/rjtest_clone".to_string() }));

    let mut provisioner = IndexMap::new();
    provisioner.insert(
        "exec".to_string(),
        Provisioner::Exec(Exec {
            name: "exec".to_string(),
            cmd: "touch /tmp/exec_test".to_string(),
            mode: ExecMode::Jexec,
        }),
    );
    provisioner.insert(
        "exec_chroot".to_string(),
        Provisioner::Exec(Exec {
            name: "exec_chroot".to_string(),
            cmd: "touch /tmp/exec_chroot_test".to_string(),
            mode: ExecMode::Chroot,
        }),
    );
    provisioner.insert(
        "file".to_string(),
        Provisioner::File(ProvFile {
            name: "file".to_string(),
            source: "testdata/provisioners/file.txt".to_string(),
            dest: "/tmp/file.txt".to_string(),
            mode: "640".to_string(),
            owner: "nobody".to_string(),
            group: "nobody".to_string(),
        }),
    );
    provisioner.insert("test".to_string(), Provisioner::Test(Test { name: "test".to_string() }));
    provisioner.insert(
        "puppet".to_string(),
        Provisioner::Puppet(Puppet {
            name: "puppet".to_string(),
            path: "testdata/provisioners/puppet".to_string(),
            manifest_file: "manifests/site.pp".to_string(),
            modulepath: Some("site-modules:modules".to_string()),
            hiera_config: Some("hiera.yaml".to_string()),
            extra_args: vec![],
            tmp_dir: default_tmp_dir(),
            puppet_version: default_version(),
        }),
    );
    provisioner.insert(
        "puppet_simple".to_string(),
        Provisioner::Puppet(Puppet {
            name: "puppet_simple".to_string(),
            path: "testdata/provisioners/puppet_simple".to_string(),
            manifest_file: "init.pp".to_string(),
            modulepath: None,
            hiera_config: None,
            extra_args: vec![],
            tmp_dir: default_tmp_dir(),
            puppet_version: default_version(),
        }),
    );

    let mut volume = IndexMap::new();
    volume.insert(
        "examples_rw".to_string(),
        Volume {
            device: "/usr/local/share/examples".to_string(),
            mountpoint: "/mnt".to_string(),
            fs_type: "nullfs".to_string(),
            options: "rw".to_string(),
            dump: 0,
            pass: 0,
        },
    );
    volume.insert(
        "examples_ro".to_string(),
        Volume {
            device: "/usr/local/share/examples".to_string(),
            mountpoint: "/media".to_string(),
            fs_type: "nullfs".to_string(),
            options: "ro".to_string(),
            dump: 0,
            pass: 0,
        },
    );

    fn plain(source: &str, start: bool, enable: bool, provisioners: &[&str]) -> JailSettings {
        JailSettings {
            source: source.to_string(),
            start,
            enable,
            stop_after: false,
            conf: IndexMap::new(),
            provisioners: provisioners.iter().map(|p| p.to_string()).collect(),
            volumes: vec![],
        }
    }

    let mut jail = IndexMap::new();
    let mut base = plain("freebsd12", false, false, &[]);
    base.stop_after = true;
    jail.insert("base".to_string(), base);
    let mut test1 = plain("base", true, true, &[]);
    test1.volumes = vec!["examples_rw".to_string(), "examples_ro".to_string()];
    jail.insert("test1".to_string(), test1);
    let mut test2 = plain("base", true, true, &["test"]);
    test2.conf.insert("host_hostname".to_string(), JailConfValue::String("test2.jail".to_string()));
    test2.conf.insert("allow_set_hostname".to_string(), JailConfValue::Int(1));
    test2.conf.insert("allow_raw_sockets".to_string(), JailConfValue::Int(1));
    test2.conf.insert(
        "ip4_addr".to_string(),
        JailConfValue::Vec(vec!["lo0|10.11.11.2/32".to_string(), "lo0|10.23.23.2/32".to_string()]),
    );
    test2.conf.insert("allow_mount".to_string(), JailConfValue::Bool(true));
    jail.insert("test2".to_string(), test2);
    jail.insert("stopped".to_string(), plain("base", false, false, &[]));
    jail.insert("pkg_test".to_string(), plain("base", true, true, &[]));
    jail.insert("clone_test".to_string(), plain("clone", true, true, &[]));
    jail.insert("exec_test".to_string(), plain("base", true, true, &["exec"]));
    jail.insert("exec_chroot_test".to_string(), plain("base", true, true, &["exec_chroot"]));
    jail.insert("file_test".to_string(), plain("base", true, true, &["file"]));
    jail.insert("puppet_test".to_string(), plain("base", true, true, &["puppet"]));
    jail.insert("puppet_simple_test".to_string(), plain("base", true, true, &["puppet_simple"]));

    Settings {
        jails_dataset: "zroot/jails".to_string(),
        jails_mountpoint: "/jails".to_string(),
        jail_conf_defaults: defaults,
        jail,
        source,
        provisioner,
        volume,
        noop,
    }
}

fn find<'b, 'a>(jails: &'b Vec<Jail<'a>>, name: &str) -> &'b Jail<'a> {
    jails.iter().find(|j| j.name() == name).expect("no such jail")
}

// A host that is prepared for jails and has the jail `base` in place.
fn prepared(settings: &Settings) -> World {
    let mut world = World::new();
    world.drive(|h| init(settings, h)).unwrap();
    let jails = settings.to_jails().unwrap();
    world.drive(|h| find(&jails, "base").apply(h)).unwrap();
    world
}

// A host on which the jails `base`, `test1`, `test2` and `stopped` are applied.
fn setup_once(settings: &Settings) -> World {
    let mut world = prepared(settings);
    let jails = settings.to_jails().unwrap();
    for name in ["test1", "test2", "stopped"] {
        world.drive(|h| find(&jails, name).apply(h)).unwrap();
    }
    world
}

// A host that is ready for the test of a provisioner in the jail `name`.
fn setup(settings: &Settings, name: &str) -> World {
    let mut world = prepared(settings);
    let jails = settings.to_jails().unwrap();
    let jail = find(&jails, name);
    if world.drive(|h| jail.present(h)).unwrap() {
        world.drive(|h| jail.destroy(h)).unwrap();
    }
    world
}

// A dataset to try things on.
fn run_test(test: impl Fn(&mut World, &DataSet)) {
    let mut world = World::new();
    let ds = DataSet::new("zroot/rjtest-Ab3xZ");
    world.drive(|h| ds.create(h)).unwrap();
    test(&mut world, &ds);
    world.drive(|h| ds.destroy_r(h)).unwrap();
}

#[test]
fn cmd_run() {
    let mut world = World::new();
    cmd(&mut world, "echo", &["hello"]).unwrap();
    assert_eq!(world.lines, vec!["echo hello".to_string()]);
}

#[test]
fn cmd_run_noargs() {
    let mut world = World::new();
    cmd(&mut world, "echo", &[]).unwrap();
    assert_eq!(world.lines, vec!["echo".to_string()]);
}

#[test]
fn cmd_with_env() {
    let mut world = World::new();
    let env = vec![("TESTENV".to_string(), "testie".to_string())];
    let args = vec!["TESTENV".to_string()];
    let result = world.drive(|h| Cmd::new("printenv").args(&args).envs(&env).exec(h));
    assert_eq!(result, Ok(()));
    let missing = world.drive(|h| Cmd::new("printenv").args(&args).exec(h));
    assert!(missing.is_err());
}

#[test]
fn cmd_error() {
    let mut world = World::new();
    assert!(cmd(&mut world, "cat", &["nonexistent"]).is_err());
}

#[test]
fn cmd_error_tells_code_command_and_stderr() {
    let mut world = World::new();
    match cmd(&mut world, "cat", &["nonexistent"]) {
        Err(Failure::Run(e)) => {
            assert_eq!(e.code, Some(1));
            assert_eq!(
                e.message,
                "Failed command: '\"cat\" \"nonexistent\"', stderr: cat: nonexistent: No such file or directory\n"
            );
            assert_eq!(
                e.to_text(),
                "(1) Failed command: '\"cat\" \"nonexistent\"', stderr: cat: nonexistent: No such file or directory\n"
            );
        }
        other => panic!("unexpected: {:?}", other),
    }
}

#[test]
fn cmd_that_cannot_start() {
    let mut world = World::new();
    assert_eq!(
        cmd(&mut world, "nosuchtool", &[]),
        Err(Failure::Io("nosuchtool: No such file or directory".to_string()))
    );
}

#[test]
fn capture_output() {
    let mut world = World::new();
    let output = cmd_capture(&mut world, "echo", &["hello"]).unwrap();
    assert_eq!(output, "hello\n");
}

#[test]
fn capture_error() {
    let mut world = World::new();
    assert!(cmd_capture(&mut world, "cat", &["nonexistent"]).is_err());
}

#[test]
fn stream_error() {
    let mut world = World::new();
    assert!(cmd_stream(&mut world, "cat", &["nonexistent"]).is_err());
}

#[test]
fn stream_error_tells_code_and_command() {
    let mut world = World::new();
    match cmd_stream(&mut world, "cat", &["nonexistent"]) {
        Err(Failure::Run(e)) => {
            assert_eq!(e.code, Some(1));
            assert_eq!(e.message, "Failed command: \"cat\" \"nonexistent\"");
        }
        other => panic!("unexpected: {:?}", other),
    }
    assert_eq!(cmd_stream(&mut world, "echo", &["x"]), Ok(()));
}

#[test]
fn host_suspends_and_resumes() {
    let mut host = Host::new();
    let c = Cmd::new("echo").arg("hello");
    assert_eq!(c.capture(&mut host), Err(Failure::Suspended));
    assert_eq!(host.pending(), &Some(Request::Run(Cmd::new("echo").arg("hello"))));
    // once suspended, nothing more is asked
    assert_eq!(Cmd::new("other").exec(&mut host), Err(Failure::Suspended));
    assert_eq!(host.pending(), &Some(Request::Run(Cmd::new("echo").arg("hello"))));
    assert!(!host.answer_locally());
    host.answer(ok("hello\n"));
    assert_eq!(host.pending(), &None);
    assert_eq!(host.answered(), 1);
    assert_eq!(c.capture(&mut host), Ok("hello\n".to_string()));
    // an answer without a request is not recorded
    host.answer(Reply::Done);
    assert_eq!(host.answered(), 1);
    // an answer of the wrong kind
    host.rewind();
    assert_eq!(host.is_file("/x"), Err(Failure::Reply));
}

#[test]
fn host_answers_time_and_random_text_itself() {
    let mut host = Host::new();
    assert_eq!(host.text(Request::Random(8)), Err(Failure::Suspended));
    assert!(host.answer_locally());
    let a = host.text(Request::Random(8)).unwrap();
    assert_eq!(a.len(), 8);
    assert!(a.chars().all(|c| c.is_ascii_alphanumeric()));
    assert_eq!(host.text(Request::Now), Err(Failure::Suspended));
    assert!(host.answer_locally());
    host.text(Request::Random(8)).unwrap();
    let now = host.text(Request::Now).unwrap();
    let re = Regex::new(r"^\d{4}-\d{2}-\d{2}T\d{2}:\d{2}:\d{2}\.\d{3}$").unwrap();
    assert!(re.is_match(&now), "{}", now);
}

#[test]
fn mountpoint() {
    let s = config(false);
    let jails = s.to_jails().unwrap();
    assert_eq!(find(&jails, "base").mountpoint(), "/jails/base");
}

#[test]
fn name() {
    let s = config(false);
    let jails = s.to_jails().unwrap();
    assert_eq!(find(&jails, "base").name(), "base");
}

#[test]
fn jail_paths() {
    let s = config(false);
    let jails = s.to_jails().unwrap();
    let jail = find(&jails, "test1");
    assert_eq!(jail.zfs_ds().path(), "zroot/jails/test1");
    assert_eq!(jail.jail_conf_path(), "/etc/jail.test1.conf");
    assert_eq!(jail.fstab_path(), "/etc/fstab.test1");
    assert_eq!(*jail.noop(), false);
    assert_eq!(jail.noop_suffix(), "");
}

#[test]
fn apply_and_destroy() {
    let s = config(false);
    let mut world = setup_once(&s);
    let jails = s.to_jails().unwrap();
    let jail1 = find(&jails, "test1");
    let jail2 = find(&jails, "test2");

    assert!(world.drive(|h| jail1.present(h)).unwrap());

    // Check jail conf is created correctly
    let ok_jail_conf = "exec.start = \"/bin/sh /etc/rc\";\n\
exec.stop = \"/bin/sh /etc/rc.shutdown\";\n\
exec.clean = true;\n\
mount.devfs = true;\n\
\n\
test2 {\n    path = \"/jails/test2\";\n    host.hostname = \"test2.jail\";\n    allow.set_hostname = 1;\n    allow.raw_sockets = 1;\n    ip4.addr = \"lo0|10.11.11.2/32\";\n    ip4.addr += \"lo0|10.23.23.2/32\";\n    allow.mount = true;\n}\n";
    let jail1_conf_path = "/etc/jail.test1.conf";
    let jail2_conf_path = "/etc/jail.test2.conf";
    assert!(world.is_file(jail1_conf_path));
    assert!(world.is_file(jail2_conf_path));
    assert_eq!(ok_jail_conf, world.read(jail2_conf_path).unwrap());
    assert!(world.read(jail1_conf_path).unwrap().contains("    mount.fstab = \"/etc/fstab.test1\";\n"));

    // check volumes are set up correctly
    let ok_fstab = "/usr/local/share/examples /jails/test1/mnt nullfs rw 0 0\n\
/usr/local/share/examples /jails/test1/media nullfs ro 0 0\n";
    assert!(world.is_file(jail1.fstab_path()));
    assert_eq!(ok_fstab, world.read(jail1.fstab_path()).unwrap());

    // Check jail is enabled in rc.conf
    assert!(world.drive(|h| jail1.is_enabled(h)).unwrap());
    assert!(world.drive(|h| jail2.is_enabled(h)).unwrap());

    // Check that it's running
    assert!(world.drive(|h| jail1.is_running(h)).unwrap());
    assert!(world.drive(|h| jail2.is_running(h)).unwrap());

    // check the volumes are mounted
    let mounted_filesystems = cmd_capture(&mut world, "mount", &[]).unwrap();
    assert!(mounted_filesystems.contains("/usr/local/share/examples on /jails/test1/mnt (nullfs, local)"));
    assert!(mounted_filesystems
        .contains("/usr/local/share/examples on /jails/test1/media (nullfs, local, read-only)"));

    // Check that snapshots were created
    let re_preprov = Regex::new(r"^pre-provision_\d{4}-\d{2}-\d{2}T\d{2}:\d{2}:\d{2}.\d{3}$").unwrap();
    let re_ready = Regex::new(r"^ready_\d{4}-\d{2}-\d{2}T\d{2}:\d{2}:\d{2}.\d{3}$").unwrap();

    // jail1 doesn't have any provisioners configured so should not contain a pre-provision snapshot
    for snap in world.drive(|h| jail1.zfs_ds().list_snaps(h)).unwrap().iter() {
        assert_eq!(re_preprov.is_match(snap), false);
    }

    // jail2 should contain both snapshots in correct order
    let snaps = world.drive(|h| jail2.zfs_ds().list_snaps(h)).unwrap();
    let mut snaps_iter = snaps.iter();
    for re in &[re_preprov, re_ready] {
        assert!(re.is_match(snaps_iter.next().unwrap()));
    }

    // Test updating and correcting drift
    // Stopped
    world.drive(|h| jail2.stop(h)).unwrap();
    world.drive(|h| jail2.apply(h)).unwrap();
    assert!(world.drive(|h| jail2.is_running(h)).unwrap());
    // Disabled
    world.drive(|h| jail2.disable(h)).unwrap();
    world.drive(|h| jail2.apply(h)).unwrap();
    assert!(world.drive(|h| jail2.is_enabled(h)).unwrap());
    // Config changes
    world.write(jail2.jail_conf_path(), "local change");
    world.lines.clear();
    world.drive(|h| jail2.apply(h)).unwrap();
    assert_eq!(ok_jail_conf, world.read(jail2_conf_path).unwrap());
    // the running jail was stopped and started again
    let stop = world.lines.iter().position(|l| l == "service jail stop test2").unwrap();
    let start = world.lines.iter().position(|l| l == "service jail start test2").unwrap();
    assert!(stop < start);

    // make sure all resources are cleaned up after destroy
    world.drive(|h| jail1.destroy(h)).unwrap();
    // check the ds is gone
    assert_eq!(world.drive(|h| jail1.present(h)).unwrap(), false);
    // check config file is gone
    assert_eq!(world.is_file(jail1_conf_path), false);
    assert_eq!(world.is_file(jail1.fstab_path()), false);
    // check jail is disabled in rc.conf
    assert_eq!(world.drive(|h| jail1.is_enabled(h)).unwrap(), false);
    // check jail is dead
    assert_eq!(world.drive(|h| jail1.is_running(h)).unwrap(), false);
    assert!(world.snapshots.iter().all(|(d, _, _)| d != "zroot/jails/test1"));

    world.drive(|h| jail2.destroy(h)).unwrap();
    assert_eq!(world.drive(|h| jail2.present(h)).unwrap(), false);
    assert_eq!(world.is_file(jail2_conf_path), false);
    assert_eq!(world.drive(|h| jail2.is_enabled(h)).unwrap(), false);
    assert_eq!(world.drive(|h| jail2.is_running(h)).unwrap(), false);
}

#[test]
fn noop_apply_and_destroy() {
    // set up noop jail
    let s_noop = config(true);
    let jails_noop = s_noop.to_jails().unwrap();
    let jail_noop = find(&jails_noop, "test2");

    // set up same jail without noop (so we can create one for testing destroy)
    let s = config(false);
    let jails = s.to_jails().unwrap();
    let jail = find(&jails, "test2");
    let mut world = prepared(&s);

    // test noop apply
    let before = world.changes();
    world.drive(|h| jail_noop.apply(h)).unwrap();
    assert_eq!(world.drive(|h| jail_noop.present(h)).unwrap(), false);
    assert_eq!(world.is_file("/etc/jail.test2.conf"), false);
    assert_eq!(world.drive(|h| jail_noop.is_enabled(h)).unwrap(), false);
    assert_eq!(world.drive(|h| jail_noop.is_running(h)).unwrap(), false);
    assert_eq!(world.changes(), before);
    assert!(world.notes.iter().any(|n| n.0 == What::Cloning && n.1 == "test2" && n.3));
    assert!(world.notes.iter().any(|n| n.0 == What::Starting && n.1 == "test2" && n.3));

    // actually create it this time
    world.drive(|h| jail.apply(h)).unwrap();

    // the same end as without the dry run before
    let mut other = prepared(&s);
    other.drive(|h| jail.apply(h)).unwrap();
    assert_eq!(world.datasets, other.datasets);
    assert_eq!(world.running, other.running);
    assert_eq!(world.enabled, other.enabled);
    assert_eq!(world.files, other.files);
    assert_eq!(world.snapshots.len(), other.snapshots.len());

    // test noop destroy - should have no effect
    let before = world.changes();
    world.drive(|h| jail_noop.destroy(h)).unwrap();
    assert!(world.drive(|h| jail_noop.present(h)).unwrap());
    assert!(world.is_file("/etc/jail.test2.conf"));
    assert!(world.drive(|h| jail_noop.is_enabled(h)).unwrap());
    assert!(world.drive(|h| jail_noop.is_running(h)).unwrap());
    assert_eq!(world.changes(), before);

    // cleanup
    world.drive(|h| jail.destroy(h)).unwrap();
}

#[test]
fn stop_after() {
    let s = config(false);
    let mut world = setup_once(&s);
    let jails = s.to_jails().unwrap();
    let basejail = find(&jails, "base");
    assert_eq!(world.drive(|h| basejail.is_enabled(h)).unwrap(), false);
    assert_eq!(world.drive(|h| basejail.is_running(h)).unwrap(), false);
}

#[test]
fn stopped() {
    let s = config(false);
    let mut world = setup_once(&s);
    let jails = s.to_jails().unwrap();
    let jail = find(&jails, "stopped");
    // should be disabled and stopped
    assert_eq!(world.drive(|h| jail.is_enabled(h)).unwrap(), false);
    assert_eq!(world.drive(|h| jail.is_running(h)).unwrap(), false);

    // enable and start the jail
    world.drive(|h| jail.enable(h)).unwrap();
    world.drive(|h| jail.start(h)).unwrap();
    world.drive(|h| jail.apply(h)).unwrap();
    // the apply should disable and stop it
    assert_eq!(world.drive(|h| jail.is_enabled(h)).unwrap(), false);
    assert_eq!(world.drive(|h| jail.is_running(h)).unwrap(), false);
}

#[test]
fn make_noop_suffix() {
    assert_eq!(Jail::make_noop_suffix(&true), String::from(" (noop)"));
    assert_eq!(Jail::make_noop_suffix(&false), String::new());
}

#[test]
fn apply_twice_changes_nothing() {
    let s = config(false);
    let mut world = setup_once(&s);
    let jails = s.to_jails().unwrap();
    for name in ["test1", "test2", "stopped"] {
        let jail = find(&jails, name);
        let before = world.changes();
        world.lines.clear();
        assert_eq!(world.drive(|h| jail.apply(h)), Ok(()));
        assert_eq!(world.changes(), before);
        let reads: Vec<String> = vec![
            format!("zfs list zroot/jails/{}", name),
            "sysrc -n jail_list".to_string(),
            format!("jls -j {}", name),
            "zfs list -H -p -o name,creation -t snap".to_string(),
            format!("jls -j {}", name),
        ];
        assert_eq!(world.lines, reads);
    }
}

#[test]
fn enabled_is_told_by_whole_names() {
    let s = config(false);
    let mut world = setup_once(&s);
    let jails = s.to_jails().unwrap();
    // "test" is part of "test1" and "test2" but is not enabled itself
    world.enabled = vec!["test1".to_string(), "test2".to_string()];
    let no = JailSettings {
        source: "base".to_string(),
        start: true,
        enable: true,
        stop_after: false,
        conf: IndexMap::new(),
        provisioners: vec![],
        volumes: vec![],
    };
    let part = s.jail("test", &no).unwrap();
    assert_eq!(world.drive(|h| part.is_enabled(h)), Ok(false));
    assert_eq!(world.drive(|h| find(&jails, "test1").is_enabled(h)), Ok(true));
}

#[test]
fn provisioned_jail_is_not_provisioned_again() {
    let s = config(false);
    let mut world = setup(&s, "exec_test");
    let jails = s.to_jails().unwrap();
    let jail = find(&jails, "exec_test");
    world.drive(|h| jail.apply(h)).unwrap();
    let path = "/jails/exec_test/tmp/exec_test";
    assert!(world.is_file(path));
    world.files.retain(|(p, _)| p != path);
    let snapshots = world.snapshots.len();
    world.notes.clear();
    world.drive(|h| jail.apply(h)).unwrap();
    assert_eq!(world.is_file(path), false);
    assert_eq!(world.snapshots.len(), snapshots);
    assert!(world.notes.iter().all(|n| n.0 != What::RunningExec && n.0 != What::Provisioning));
    // the pipeline itself, asked for by name, runs them again
    world.drive(|h| jail.provision(h)).unwrap();
    assert!(world.is_file(path));
    assert_eq!(world.snapshots.len(), snapshots + 2);
}

#[test]
fn ready_mark_is_set_once_without_provisioners() {
    let s = config(false);
    let mut world = setup(&s, "test1");
    let jails = s.to_jails().unwrap();
    let jail = find(&jails, "test1");
    world.drive(|h| jail.apply(h)).unwrap();
    let marks = |w: &World| w.snapshots.iter().filter(|(d, _, _)| d == "zroot/jails/test1").count();
    assert_eq!(marks(&world), 1);
    world.drive(|h| jail.provision(h)).unwrap();
    world.drive(|h| jail.provision(h)).unwrap();
    assert_eq!(marks(&world), 1);
}

#[test]
fn pkg() {
    let s = config(false);
    let mut world = setup(&s, "pkg_test");
    let jails = s.to_jails().unwrap();
    let jail = find(&jails, "pkg_test");
    world.drive(|h| jail.apply(h)).unwrap();

    let pkg = Pkg::new("tokei", jail.mountpoint());
    assert_eq!(world.drive(|h| pkg.is_installed(h)).unwrap(), false);
    world.drive(|h| pkg.install(h)).unwrap();
    assert!(world.drive(|h| pkg.is_installed(h)).unwrap());
    assert!(world.lines.contains(&"pkg -c /jails/pkg_test install tokei".to_string()));

    world.drive(|h| jail.destroy(h)).unwrap();
}

#[test]
fn pkg_failure_stands() {
    let mut host = Host::new();
    let pkg = Pkg::new("tokei", "/jails/x");
    assert_eq!(pkg.is_installed(&mut host), Err(Failure::Suspended));
    host.answer(fail(69, ""));
    assert_eq!(pkg.is_installed(&mut host), Ok(false));
    let mut host = Host::new();
    assert_eq!(pkg.is_installed(&mut host), Err(Failure::Suspended));
    host.answer(fail(3, "broken"));
    assert!(matches!(pkg.is_installed(&mut host), Err(Failure::Run(_))));
}

#[test]
fn provisioner_provision() {
    let s = config(false);
    let mut world = prepared(&s);
    let jails = s.to_jails().unwrap();
    let jail = find(&jails, "test1");
    let p = Provisioner::Test(Test { name: "test".to_string() });
    assert_eq!(world.drive(|h| p.provision(jail, h)), Ok(()));
    assert!(world.notes.iter().any(|n| n.0 == What::RunningTest && n.1 == "test1"));
}

#[test]
fn provision_jexec() {
    let s = config(false);
    let mut world = setup(&s, "exec_test");
    let jails = s.to_jails().unwrap();
    let jail = find(&jails, "exec_test");

    world.drive(|h| jail.apply(h)).unwrap();

    assert!(world.is_file(&format!("{}/tmp/exec_test", jail.mountpoint())));
    assert!(world.lines.contains(&"jexec exec_test touch /tmp/exec_test".to_string()));

    world.drive(|h| jail.destroy(h)).unwrap();
}

#[test]
fn provision_jexec_noop() {
    let s = config(false);
    let mut world = setup(&s, "exec_test");
    let jails = s.to_jails().unwrap();
    let jail = find(&jails, "exec_test");

    // create the test jail
    world.drive(|h| jail.apply(h)).unwrap();
    // remove the created test file
    let path = format!("{}/tmp/exec_test", jail.mountpoint());
    world.files.retain(|(p, _)| *p != path);

    // make a noop jail
    let s_noop = config(true);
    let jails_noop = s_noop.to_jails().unwrap();
    let jail_noop = find(&jails_noop, "exec_test");

    // on provision it shoudn't re-create the file
    world.drive(|h| jail_noop.provision(h)).unwrap();
    assert_eq!(world.is_file(&path), false);

    world.drive(|h| jail.destroy(h)).unwrap();
}

#[test]
fn provision_chroot() {
    let s = config(false);
    let mut world = setup(&s, "exec_chroot_test");
    let jails = s.to_jails().unwrap();
    let jail = find(&jails, "exec_chroot_test");

    world.drive(|h| jail.apply(h)).unwrap();

    let path = format!("{}/tmp/exec_chroot_test", jail.mountpoint());
    assert!(world.is_file(&path));
    assert!(world
        .lines
        .contains(&"chroot /jails/exec_chroot_test touch /tmp/exec_chroot_test".to_string()));

    world.drive(|h| jail.destroy(h)).unwrap();
}

#[test]
fn provision_chroot_noop() {
    let s = config(false);
    let mut world = setup(&s, "exec_chroot_test");
    let jails = s.to_jails().unwrap();
    let jail = find(&jails, "exec_chroot_test");

    // create the test jail
    world.drive(|h| jail.apply(h)).unwrap();
    // remove created test file
    let path = format!("{}/tmp/exec_chroot_test", jail.mountpoint());
    world.files.retain(|(p, _)| *p != path);

    // make a noop jail
    let s_noop = config(true);
    let jails_noop = s_noop.to_jails().unwrap();
    let jail_noop = find(&jails_noop, "exec_chroot_test");

    // on provision it shoudn't re-create the file
    world.drive(|h| jail_noop.provision(h)).unwrap();
    assert_eq!(world.is_file(&path), false);

    world.drive(|h| jail.destroy(h)).unwrap();
}

#[test]
fn file_provision() {
    let s = config(false);
    let mut world = setup(&s, "file_test");
    let jails = s.to_jails().unwrap();
    let jail = find(&jails, "file_test");

    world.drive(|h| jail.apply(h)).unwrap();

    let path = format!("{}/tmp/file.txt", jail.mountpoint());
    assert!(world.is_file(&path));
    assert_eq!(world.read(&path).unwrap(), "hello\n");
    assert_eq!(world.mode(&path), Some(0o640));
    assert_eq!(world.owner(&path), Some("nobody:nobody".to_string()));
    assert!(world
        .lines
        .contains(&"chroot /jails/file_test chown nobody:nobody /tmp/file.txt".to_string()));

    world.drive(|h| jail.destroy(h)).unwrap();
}

#[test]
fn file_provision_noop() {
    let s = config(false);
    let mut world = setup(&s, "file_test");
    let jails = s.to_jails().unwrap();
    let jail = find(&jails, "file_test");

    world.drive(|h| jail.apply(h)).unwrap();
    // remove the copied test file
    let path = format!("{}/tmp/file.txt", jail.mountpoint());
    assert_eq!(world.is_file(&path), true);
    world.files.retain(|(p, _)| *p != path);

    // make a noop jail
    let s_noop = config(true);
    let jails_noop = s_noop.to_jails().unwrap();
    let jail_noop = find(&jails_noop, "file_test");

    // on provision it shoudn't re-create the file
    world.drive(|h| jail_noop.provision(h)).unwrap();
    assert_eq!(world.is_file(&path), false);

    world.drive(|h| jail.destroy(h)).unwrap();
}

#[test]
fn file_provision_failures() {
    let s = config(false);
    let mut world = setup(&s, "file_test");
    let jails = s.to_jails().unwrap();
    let jail = find(&jails, "file_test");
    world.drive(|h| jail.apply(h)).unwrap();
    let mut file = ProvFile {
        name: "test".to_owned(),
        source: "/etc/hosts".to_string(),
        dest: "tmp/desttest".to_string(),
        mode: "640".to_string(),
        owner: "root".to_string(),
        group: "wheel".to_string(),
    };
    assert_eq!(
        world.drive(|h| file.provision(jail, h)),
        Err(Failure::Prov(rj::errors::ProvError(
            "file provisioner test, dest path must be absolute: tmp/desttest".to_string()
        )))
    );
    file.dest = "/tmp/desttest".to_string();
    file.mode = "9".to_string();
    assert_eq!(
        world.drive(|h| file.provision(jail, h)),
        Err(Failure::Prov(rj::errors::ProvError(
            "file provisioner test, invalid file mode: 9".to_string()
        )))
    );
    file.mode = "0755".to_string();
    assert_eq!(world.drive(|h| file.provision(jail, h)), Ok(()));
    assert_eq!(world.mode("/jails/file_test/tmp/desttest"), Some(0o755));
}

#[test]
fn file_validate() {
    let mut world = World::new();
    let mut file = ProvFile {
        name: "test".to_owned(),
        source: "/tmp/whatever123".to_string(),
        dest: "/tmp/desttest".to_string(),
        mode: "640".to_string(),
        owner: "root".to_string(),
        group: "wheel".to_string(),
    };
    assert!(world.drive(|h| file.validate(h)).is_err());
    assert_eq!(
        world.drive(|h| file.validate(h)),
        Err(Failure::Prov(rj::errors::ProvError(
            "file provisioner test, invalid source: /tmp/whatever123".to_string()
        )))
    );
    file.source = "/etc/hosts".to_string();
    assert!(world.drive(|h| file.validate(h)).is_ok());
    file.dest = "tmp/desttest".to_string();
    assert!(world.drive(|h| file.validate(h)).is_err());
    assert_eq!(
        world.drive(|h| file.validate(h)),
        Err(Failure::Prov(rj::errors::ProvError(
            "file provisioner test, dest path must be absolute: tmp/desttest".to_string()
        )))
    );
    file.dest = "/tmp/desttest".to_string();
    file.mode = "999".to_string();
    assert!(world.drive(|h| file.validate(h)).is_err());
    assert_eq!(
        world.drive(|h| file.validate(h)),
        Err(Failure::Prov(rj::errors::ProvError(
            "file provisioner test, invalid file mode: 999".to_string()
        )))
    );
    file.mode = "3644".to_string();
    assert!(world.drive(|h| file.validate(h)).is_err());
    file.mode = "0644".to_string();
    assert!(world.drive(|h| file.validate(h)).is_ok());
    file.mode = "644\n".to_string();
    assert!(file.validate_mode().is_err());
    file.mode = "4755".to_string();
    assert_eq!(file.validate_mode(), Ok(()));
    assert_eq!(file.judge_mode(false, true), Err(Failure::Pattern));
    assert_eq!(file.judge_mode(true, true), Ok(()));
}

#[test]
fn puppet_provision() {
    let s = config(false);
    let mut world = setup(&s, "puppet_test");
    let jails = s.to_jails().unwrap();
    let jail = find(&jails, "puppet_test");

    world.drive(|h| jail.apply(h)).unwrap();

    let testfile_path = format!("{}/tmp/puppet_testfile", jail.mountpoint());
    let testfile_content = world.read(&testfile_path).unwrap();
    assert_eq!(&testfile_content, "/root");
    assert!(world.packages.contains(&("/jails/puppet_test".to_string(), "puppet6".to_string())));
    assert!(world.packages.contains(&("/jails/puppet_test".to_string(), "rubygem-r10k".to_string())));
    assert_eq!(
        world.read("/jails/puppet_test/var/rj/puppet/wrapper.sh").unwrap(),
        "#!/bin/sh\ncd /var/rj/puppet && $@\n"
    );
    assert_eq!(world.mode("/jails/puppet_test/var/rj/puppet/wrapper.sh"), Some(0o755));
    assert_eq!(world.mode("/jails/puppet_test/var/rj"), Some(0o700));
    assert!(world.lines.contains(
        &"rsync -r --delete testdata/provisioners/puppet /jails/puppet_test/var/rj".to_string()
    ));
    assert!(world.lines.contains(
        &"jexec puppet_test /var/rj/puppet/wrapper.sh r10k puppetfile install".to_string()
    ));
    assert!(world.lines.contains(
        &"jexec puppet_test /var/rj/puppet/wrapper.sh puppet apply --modulepath site-modules:modules --hiera_config hiera.yaml manifests/site.pp"
            .to_string()
    ));

    world.drive(|h| jail.destroy(h)).unwrap();
}

#[test]
fn puppet_provision_noop() {
    let s = config(false);
    let mut world = setup(&s, "puppet_test");
    let jails = s.to_jails().unwrap();
    let jail = find(&jails, "puppet_test");

    world.drive(|h| jail.apply(h)).unwrap();
    // remove the created test file
    let path = format!("{}/tmp/puppet_testfile", jail.mountpoint());
    world.files.retain(|(p, _)| *p != path);

    // make a noop jail
    let s_noop = config(true);
    let jails_noop = s_noop.to_jails().unwrap();
    let jail_noop = find(&jails_noop, "puppet_test");

    // on noop provision it shoudn't re-create the file
    world.drive(|h| jail_noop.provision(h)).unwrap();
    assert_eq!(world.is_file(&path), false);

    world.drive(|h| jail.destroy(h)).unwrap();
}

// Test the simplest case where only init.pp is defined.
#[test]
fn provision_simple() {
    let s = config(false);
    let mut world = setup(&s, "puppet_simple_test");
    let jails = s.to_jails().unwrap();
    let jail = find(&jails, "puppet_simple_test");

    world.drive(|h| jail.apply(h)).unwrap();

    let testfile_path = format!("{}/tmp/puppet_simple_testfile", jail.mountpoint());
    let testfile_content = world.read(&testfile_path).unwrap();
    assert_eq!(&testfile_content, "simple");
    assert!(world.lines.contains(
        &"jexec puppet_simple_test /var/rj/puppet_simple/wrapper.sh puppet apply init.pp".to_string()
    ));
    assert!(!world.lines.iter().any(|l| l.contains("r10k")));

    world.drive(|h| jail.destroy(h)).unwrap();
}

#[test]
fn puppet_validate() {
    let mut world = World::new();
    let mut puppet = Puppet {
        name: "test".to_owned(),
        path: "testdata/provisioners/puppet".to_string(),
        manifest_file: "manifests/site.pp".to_string(),
        modulepath: Some("site-modules:modules".to_string()),
        hiera_config: Some("hiera.yaml".to_string()),
        extra_args: vec![],
        tmp_dir: default_tmp_dir(),
        puppet_version: default_version(),
    };

    assert!(world.drive(|h| puppet.validate(h)).is_ok());
    puppet.path = "nonexistent".to_string();
    assert!(world.drive(|h| puppet.validate(h)).is_err());
    assert_eq!(
        world.drive(|h| puppet.validate(h)),
        Err(Failure::Prov(rj::errors::ProvError(
            "puppet provisioner, path: nonexistent doesn't exist or is not a directory".to_string()
        )))
    );
    puppet.path = "testdata/provisioners/puppet".to_string();
    puppet.manifest_file = "nonexistent".to_string();
    assert!(world.drive(|h| puppet.validate(h)).is_err());
    assert_eq!(
        world.drive(|h| puppet.validate(h)),
        Err(Failure::Prov(rj::errors::ProvError(
            "puppet provisioner, manifest file doesn't exist in: testdata/provisioners/puppet/nonexistent or is not a file"
                .to_string()
        )))
    );
    puppet.manifest_file = "manifests/site.pp".to_string();
    puppet.hiera_config = Some("nonexistent".to_string());
    assert!(world.drive(|h| puppet.validate(h)).is_err());
    assert_eq!(
        world.drive(|h| puppet.validate(h)),
        Err(Failure::Prov(rj::errors::ProvError(
            "puppet provisioner, hiera config file doesn't exist in: testdata/provisioners/puppet/nonexistent or is not a file"
                .to_string()
        )))
    );
    puppet.hiera_config = Some("hiera.yaml".to_string());
    puppet.puppet_version = "23".to_string();
    assert!(world.drive(|h| puppet.validate(h)).is_err());
    assert_eq!(
        world.drive(|h| puppet.validate(h)),
        Err(Failure::Prov(rj::errors::ProvError(
            "puppet provisioner, puppet version: 23 is not supported".to_string()
        )))
    );
    puppet.puppet_version = default_version();
    assert!(world.drive(|h| puppet.validate(h)).is_ok());
    puppet.puppet_version = "5".to_string();
    assert_eq!(puppet.validate_puppet_version(), Ok(()));
}

#[test]
fn puppet_apply_cmd_in_a_dry_run() {
    let s = config(true);
    let jails = s.to_jails().unwrap();
    let jail = find(&jails, "puppet_test");
    let puppet = Puppet {
        name: "p".to_owned(),
        path: "manifests/puppet".to_string(),
        manifest_file: "init.pp".to_string(),
        modulepath: None,
        hiera_config: Some("hiera.yaml".to_string()),
        extra_args: vec!["--debug".to_string(), "--verbose".to_string()],
        tmp_dir: "/tmp".to_string(),
        puppet_version: "5".to_string(),
    };
    let words: Vec<String> = [
        "puppet_test",
        "/tmp/puppet/wrapper.sh",
        "puppet",
        "apply",
        "--hiera_config",
        "hiera.yaml",
        "--debug",
        "--verbose",
        "--noop",
        "init.pp",
    ]
    .iter()
    .map(|w| w.to_string())
    .collect();
    assert_eq!(puppet.apply_cmd(jail), Cmd::new("jexec").args(&words));
    assert_eq!(puppet.inside(), "/tmp/puppet");
    assert_eq!(puppet.outside(jail), "/jails/puppet_test/tmp/puppet");
}

#[test]
fn settings_check_provisioners() {
    let mut world = World::new();
    let s = Settings::new(config(true), false, &mut Host::new());
    assert_eq!(s.err(), Some(Failure::Suspended));
    let mut loaded = config(false);
    assert_eq!(world.drive(|h| loaded.validate(h)), Ok(()));
    if let Some(Provisioner::File(f)) = loaded.provisioner.get_mut("file") {
        f.mode = "88".to_string();
    }
    assert_eq!(
        world.drive(|h| loaded.validate(h)),
        Err(Failure::Prov(rj::errors::ProvError(
            "file provisioner file, invalid file mode: 88".to_string()
        )))
    );
    for (_, source) in loaded.source.iter() {
        assert_eq!(source.validate(), Ok(()));
    }
}

#[test]
fn to_jail() {
    let s = config(false);
    let jails = s.to_jails().unwrap();
    assert_eq!(find(&jails, "base").name(), "base");
    assert_eq!(find(&jails, "test1").name(), "test1");
    assert_eq!(find(&jails, "test2").name(), "test2");
    let names: Vec<&String> = jails.iter().map(|j| j.name()).collect();
    assert_eq!(
        names,
        vec![
            "base",
            "test1",
            "test2",
            "stopped",
            "pkg_test",
            "clone_test",
            "exec_test",
            "exec_chroot_test",
            "file_test",
            "puppet_test",
            "puppet_simple_test"
        ]
    );
}

#[test]
fn unknown_source() {
    let mut s = config(false);
    s.jail["test1"].source = "nope".to_owned();

    let err = s.to_jails().unwrap_err();
    assert_eq!(
        err,
        Failure::Jail(rj::errors::JailError("test1: unknown source: nope".to_string()))
    );
    assert_eq!(
        match err {
            Failure::Jail(e) => e.to_text(),
            _ => String::new(),
        },
        "test1: unknown source: nope".to_string()
    )
}

#[test]
fn unknown_provisioner() {
    let mut s = config(false);
    s.jail["test1"].provisioners = vec!["nope".to_owned()];

    let err = s.to_jails().unwrap_err();
    assert_eq!(
        err,
        Failure::Jail(rj::errors::JailError("test1: unknown provisioner: nope".to_string()))
    );
}

#[test]
fn unknown_volume() {
    let mut s = config(false);
    s.jail["test2"].volumes = vec!["examples_rw".to_owned(), "gone".to_owned()];
    let err = s.to_jails().unwrap_err();
    assert_eq!(
        err,
        Failure::Jail(rj::errors::JailError("test2: unknown volume: gone".to_string()))
    );
}

#[test]
fn install() {
    let s = config(false);
    let mut world = prepared(&s);
    let jails = s.to_jails().unwrap();
    let jail = find(&jails, "clone_test");
    let source_ds = DataSet::new("zroot/rjtest_clone");

    let clone_source = ZfsClone { path: "zroot/rjtest_clone".to_string() };

    let err = world.drive(|h| clone_source.install(jail, h)).unwrap_err();
    assert_eq!(
        err,
        Failure::Source(rj::errors::SourceError(
            "clone_test: source dataset zroot/rjtest_clone doesn't exist".to_string()
        ))
    );

    world.drive(|h| source_ds.create(h)).unwrap();

    let err = world.drive(|h| clone_source.install(jail, h)).unwrap_err();
    assert_eq!(
        err,
        Failure::Source(rj::errors::SourceError(
            "clone_test: 'ready' snapshot not found for source dataset: zroot/rjtest_clone".to_string()
        ))
    );

    world.drive(|h| source_ds.snap(h, "ready")).unwrap();
    world.drive(|h| clone_source.install(jail, h)).unwrap();
    assert!(world.has_dataset("zroot/jails/clone_test"));
    assert!(world.lines.contains(&"zfs clone zroot/rjtest_clone@ready zroot/jails/clone_test".to_string()));

    world.drive(|h| jail.destroy(h)).unwrap();
    world.drive(|h| source_ds.destroy_r(h)).unwrap();
}

#[test]
fn install_from_release() {
    let s = config(false);
    let mut world = World::new();
    world.drive(|h| init(&s, h)).unwrap();
    let jails = s.to_jails().unwrap();
    let base = find(&jails, "base");
    world.drive(|h| base.install(h)).unwrap();
    assert!(world.has_dataset("zroot/jails/base"));
    assert!(world.has_snapshot("zroot/jails/base@base"));
    assert_eq!(
        world.read("/jails/base/.fetched.base.txz").unwrap(),
        "http://ftp.uk.freebsd.org/pub/FreeBSD/releases/amd64/amd64/12.0-RELEASE/base.txz"
    );
    assert_eq!(
        world.read("/jails/base/.fetched.lib32.txz").unwrap(),
        "http://ftp.uk.freebsd.org/pub/FreeBSD/releases/amd64/amd64/12.0-RELEASE/lib32.txz"
    );
    // a second time nothing is fetched: the snapshot `base` is there
    world.files.clear();
    world.drive(|h| base.install(h)).unwrap();
    assert!(world.files.is_empty());
}

#[test]
fn init_and_check_init() {
    let s = config(false);
    let mut world = World::new();
    assert_eq!(
        world.drive(|h| check_init(&s, h)),
        Err(Failure::Init(rj::errors::InitError(vec![
            "jails dataset: zroot/jails doesn't exist.".to_string(),
            "jails not enabled in rc.conf.".to_string(),
            "Run 'init' to fix".to_string(),
        ])))
    );
    assert_eq!(
        rj::errors::InitError(vec!["a".to_string(), "b".to_string()]).to_text(),
        "a b"
    );
    world.drive(|h| init(&s, h)).unwrap();
    assert_eq!(world.drive(|h| check_init(&s, h)), Ok(()));
    assert!(world.has_dataset("zroot/jails"));
    assert!(world.jails_on);
    assert!(world.props.contains(&("zroot/jails".to_string(), "mountpoint".to_string(), "/jails".to_string())));
    world.jails_on = false;
    assert_eq!(
        world.drive(|h| check_init(&s, h)),
        Err(Failure::Init(rj::errors::InitError(vec![
            "jails not enabled in rc.conf.".to_string(),
            "Run 'init' to fix".to_string(),
        ])))
    );
}

#[test]
fn destroy_all_takes_the_jails_in_reverse() {
    let s = config(false);
    let jails = s.to_jails().unwrap();
    let none: Vec<String> = vec![];
    let forward: Vec<&String> = select(&jails, "apply", true, &none).unwrap().iter().map(|j| j.name()).collect();
    let backward: Vec<&String> = select(&jails, "destroy", true, &none).unwrap().iter().map(|j| j.name()).collect();
    assert_eq!(forward[0], "base");
    assert_eq!(forward[1], "test1");
    let mut reversed = forward.clone();
    reversed.reverse();
    assert_eq!(backward, reversed);
    let two = vec!["test2".to_string(), "base".to_string()];
    let picked: Vec<&String> = select(&jails, "destroy", false, &two).unwrap().iter().map(|j| j.name()).collect();
    assert_eq!(picked, vec!["test2", "base"]);
    let bad = vec!["test2".to_string(), "nope".to_string()];
    assert_eq!(
        select(&jails, "apply", false, &bad).err(),
        Some(Failure::Jail(rj::errors::JailError("jail 'nope' is not defined".to_string())))
    );
}

#[test]
fn subcommand_runs_on_all() {
    let mut s = config(false);
    let keep = ["base", "test1", "stopped"];
    s.jail.retain(|k, _| keep.contains(&k.as_str()));
    let mut world = World::new();
    let none: Vec<String> = vec![];
    assert!(matches!(
        world.drive(|h| subcommand("apply", true, &none, false, &s, h)),
        Err(Failure::Init(_))
    ));
    world.drive(|h| subcommand("init", false, &none, false, &s, h)).unwrap();
    world.drive(|h| subcommand("apply", true, &none, false, &s, h)).unwrap();
    assert!(world.has_dataset("zroot/jails/test1"));
    assert!(world.has_dataset("zroot/jails/stopped"));
    world.answer = "n".to_string();
    assert_eq!(
        world.drive(|h| subcommand("destroy", true, &none, false, &s, h)),
        Err(Failure::Aborted)
    );
    assert!(world.has_dataset("zroot/jails/test1"));
    world.lines.clear();
    world.drive(|h| subcommand("destroy", true, &none, true, &s, h)).unwrap();
    assert!(!world.has_dataset("zroot/jails/test1"));
    assert!(!world.has_dataset("zroot/jails/base"));
    let order: Vec<&String> = world
        .lines
        .iter()
        .filter(|l| l.starts_with("zfs destroy zroot/jails/") && !l.contains('@'))
        .collect();
    assert_eq!(
        order,
        vec![
            "zfs destroy zroot/jails/stopped",
            "zfs destroy zroot/jails/test1",
            "zfs destroy zroot/jails/base"
        ]
    );
}

#[test]
fn ds_exists() {
    run_test(|world, ds| {
        assert_eq!(world.drive(|h| ds.present(h)), Ok(true));
        assert_eq!(world.drive(|h| DataSet::new("zroot/none").present(h)), Ok(false));
    })
}

#[test]
fn ds_exists_failure_stands() {
    let mut host = Host::new();
    let ds = DataSet::new("zroot/x");
    assert_eq!(ds.present(&mut host), Err(Failure::Suspended));
    host.answer(fail(1, "cannot open 'zroot/x': permission denied\n"));
    match ds.present(&mut host) {
        Err(Failure::Run(e)) => assert_eq!(e.code, Some(1)),
        other => panic!("unexpected: {:?}", other),
    }
}

#[test]
fn ds_double_destroy() {
    let mut world = World::new();
    let ds = DataSet::new("zroot/rjtest");
    assert!(world.drive(|h| ds.create(h)).is_ok());
    assert!(world.drive(|h| ds.destroy(h)).is_ok());
    assert!(world.drive(|h| ds.destroy(h)).is_err());
}

#[test]
fn ds_set() {
    run_test(|world, ds| {
        world.drive(|h| ds.set(h, "atime", "off")).unwrap();
        assert_eq!(world.drive(|h| ds.get(h, "atime")).unwrap(), "off");
        assert!(world.lines.contains(&"zfs set atime=off zroot/rjtest-Ab3xZ".to_string()));
        assert!(world.lines.contains(&"zfs get -H -o value atime zroot/rjtest-Ab3xZ".to_string()));
    })
}

#[test]
fn ds_invalid_set() {
    run_test(|world, ds| {
        assert!(world.drive(|h| ds.set(h, "noexist", "nope")).is_err());
    })
}

// Creating a DS that already exists shoudn't fail.  It becomes a representation
// of the existing DS.
#[test]
fn ds_already_exists() {
    run_test(|world, ds| {
        let result = world.drive(|h| ds.create(h));
        // should not error
        assert!(result.is_ok());
        // should return false if DS already exists
        assert!(!result.unwrap());
    })
}

#[test]
fn ds_invalid_path() {
    let mut world = World::new();
    let inv_ds = DataSet::new("noexist/rjtest");
    assert!(world.drive(|h| inv_ds.create(h)).is_err());
}

#[test]
fn ds_snap() {
    run_test(|world, ds| {
        assert!(world.drive(|h| ds.snap(h, "testsnap")).is_ok());
        assert!(world.drive(|h| ds.snap_exists(h, "testsnap")).unwrap());
        assert!(!world.drive(|h| ds.snap_exists(h, "other")).unwrap());
    })
}

#[test]
fn ds_snap_with_time() {
    run_test(|world, ds| {
        let re = Regex::new(r"^testsnaptime_\d{4}-\d{2}-\d{2}T\d{2}:\d{2}:\d{2}.\d{3}$").unwrap();
        world.drive(|h| ds.snap_with_time(h, "testsnaptime")).unwrap();
        let mut exists = false;
        for snap in world.drive(|h| ds.list_snaps(h)).unwrap().iter() {
            if re.is_match(snap) {
                exists = true;
                break;
            }
        }
        assert!(exists);
    })
}

#[test]
fn ds_snap_rand() {
    run_test(|world, ds| {
        world.drive(|h| ds.snap_with_rand(h, "testsnaprand")).unwrap();
        let re = Regex::new(r"^testsnaprand_[a-zA-Z0-9]{8}$").unwrap();
        let mut exists = false;
        for snap in world.drive(|h| ds.list_snaps(h)).unwrap().iter() {
            if re.is_match(snap) {
                exists = true;
                break;
            }
        }
        assert!(exists);
    })
}

#[test]
fn ds_snap_latest() {
    run_test(|world, ds| {
        // Check that last snap is returned by creation timestamp
        world.drive(|h| ds.snap_with_time(h, "testsnaplatest1")).unwrap();
        world.clock += 1;
        world.drive(|h| ds.snap(h, "testsnaplatest2")).unwrap();
        world.clock += 1;
        world.drive(|h| ds.snap(h, "testsnaplatest0")).unwrap();

        assert!(world
            .drive(|h| ds.last_snap(h, "testsnaplatest"))
            .unwrap()
            .unwrap()
            .contains("testsnaplatest0"));

        // Check that empty result is handled
        assert_eq!(world.drive(|h| ds.last_snap(h, "noexist")).unwrap(), None);
    })
}

#[test]
fn ds_snap_latest_goes_by_time_not_by_place() {
    let ds = DataSet::new("zroot/a");
    let listing = vec![
        "zroot/a@ready_new\t300".to_string(),
        "zroot/a@ready_old\t100".to_string(),
        "zroot/b@ready_other\t900".to_string(),
        "zroot/a@unmarked\t950".to_string(),
        "zroot/a@ready_same\t300".to_string(),
    ];
    assert_eq!(ds.newest_in(&listing, "ready"), Ok(Some(("ready_same".to_string(), 300))));
    assert_eq!(ds.newest_in(&listing[..2].to_vec(), "ready"), Ok(Some(("ready_new".to_string(), 300))));
    assert_eq!(ds.newest_in(&listing, "zzz"), Ok(None));
    assert_eq!(ds.entry_of("zroot/a@x\t12", "x"), Ok(Some(("x".to_string(), 12))));
    assert_eq!(ds.entry_of("zroot/b@x\t12", "x"), Ok(None));
    assert_eq!(
        ds.entry_of("zroot/a@x 12", "x"),
        Err(Failure::Parse("zroot/a@x 12".to_string()))
    );
    assert_eq!(
        ds.entry_of("zroot/a@x\t", "x"),
        Err(Failure::Parse("zroot/a@x\t".to_string()))
    );
    assert_eq!(
        ds.entry_of("zroot/a@x\t99999999999999999999", "x"),
        Err(Failure::Parse("zroot/a@x\t99999999999999999999".to_string()))
    );
    let groups = |g: &[Option<&str>]| -> Option<Vec<Option<String>>> {
        Some(g.iter().map(|x| x.map(|s| s.to_string())).collect())
    };
    assert_eq!(
        DataSet::entry_from("l", groups(&[Some("a@b\t7"), Some("a"), Some("b"), Some("7")]), "b"),
        Ok(Some(("b".to_string(), 7)))
    );
    assert_eq!(
        DataSet::entry_from("l", groups(&[Some("a@b\t7"), Some("a"), Some("b"), Some("7")]), "x"),
        Ok(None)
    );
    assert_eq!(DataSet::entry_from("l", None, "b"), Err(Failure::Parse("l".to_string())));
    assert_eq!(
        DataSet::entry_from("l", groups(&[Some("a@b"), Some("a"), Some("b")]), "b"),
        Err(Failure::Parse("l".to_string()))
    );
    assert_eq!(
        DataSet::entry_from("l", groups(&[Some("a@b\t7"), Some("a"), None, Some("7")]), ""),
        Err(Failure::Parse("l".to_string()))
    );
    assert_eq!(
        DataSet::entry_from("l", groups(&[Some("x"), Some("a"), Some("b"), Some("")]), "b"),
        Err(Failure::Parse("l".to_string()))
    );
    let bad = vec!["zroot/a@ready\t1".to_string(), "zroot/a@broken".to_string()];
    assert_eq!(ds.newest_in(&bad, "ready"), Err(Failure::Parse("zroot/a@broken".to_string())));
    let other = vec!["zroot/a@ready\t1".to_string(), "zroot/a-broken".to_string()];
    assert_eq!(ds.newest_in(&other, "ready"), Ok(Some(("ready".to_string(), 1))));
}

#[test]
fn ds_snap_already_exists() {
    run_test(|world, ds| {
        world.drive(|h| ds.snap(h, "testsnap")).unwrap();
        assert!(world.drive(|h| ds.snap(h, "testsnap")).is_err());
    })
}

#[test]
fn ds_snap_invalid_name() {
    run_test(|world, ds| {
        assert!(world.drive(|h| ds.snap(h, "test&snap")).is_err());
    })
}

#[test]
fn ds_clone() {
    run_test(|world, ds| {
        world.drive(|h| ds.snap(h, "test")).unwrap();
        let cloned = world.drive(|h| ds.clone(h, "test", "zroot/test")).unwrap();
        assert_eq!(cloned.path(), "zroot/test");
        assert!(world.drive(|h| cloned.present(h)).unwrap());
        world.drive(|h| cloned.destroy(h)).unwrap();
    })
}

#[test]
fn ds_invalid_clone() {
    run_test(|world, ds| {
        assert!(world.drive(|h| ds.clone(h, "noexist", "zroot/test")).is_err());
    })
}

#[test]
fn ds_list_snaps() {
    run_test(|world, ds| {
        world.drive(|h| ds.snap(h, "test1")).unwrap();
        world.drive(|h| ds.snap(h, "test2")).unwrap();
        let snaps = world.drive(|h| ds.list_snaps(h)).unwrap();
        assert_eq!(snaps.len(), 2);
        assert_eq!(snaps[0], "test1");
        assert_eq!(snaps[1], "test2");
    })
}

#[test]
fn ds_list_snaps_of_this_dataset_only() {
    let mut world = World::new();
    let short = DataSet::new("zroot/web");
    let long = DataSet::new("zroot/web2");
    world.drive(|h| short.create(h)).unwrap();
    world.drive(|h| long.create(h)).unwrap();
    world.drive(|h| long.snap(h, "ready_of_web2")).unwrap();
    assert_eq!(world.drive(|h| short.list_snaps(h)), Ok(vec![]));
    assert_eq!(world.drive(|h| short.last_snap(h, "ready")), Ok(None));
    assert_eq!(world.drive(|h| long.list_snaps(h)), Ok(vec!["ready_of_web2".to_string()]));
    assert_eq!(
        world.drive(|h| long.last_snap(h, "ready")),
        Ok(Some("ready_of_web2".to_string()))
    );
}

#[test]
fn time_is_laid_out_to_the_millisecond() {
    assert!(rj::host::stamped("2020-02-29T23:59:59.999"));
    assert!(!rj::host::stamped("2020-02-29 23:59:59.999"));
    assert!(!rj::host::stamped("2020-02-29T23:59:59.99"));
    assert!(!rj::host::stamped("2020-02-29T23:59:59.9999"));
    assert!(!rj::host::stamped("+2020-02-29T23:59:59.99"));
    assert!(!rj::host::stamped("2020-02-29T23:59:59,999"));
    assert!(!rj::host::stamped(""));
}

#[test]
fn ds_snap_destroy() {
    run_test(|world, ds| {
        world.drive(|h| ds.snap(h, "test1")).unwrap();
        world.drive(|h| ds.snap(h, "test2")).unwrap();
        world.drive(|h| ds.snap_destroy(h, "test1")).unwrap();
        world.drive(|h| ds.snap_destroy(h, "test2")).unwrap();
        assert!(world.drive(|h| ds.list_snaps(h)).unwrap().is_empty());
    })
}

fn release() -> Source {
    Source::FreeBSD(FreeBSD {
        name: "freebsd12".to_string(),
        release: "12.0-RELEASE".to_string(),
        mirror: "ftp.uk.freebsd.org".to_string(),
        dists: vec!["base".to_string(), "lib32".to_string()],
    })
}

fn plain_settings() -> JailSettings {
    JailSettings {
        source: "freebsd12".to_string(),
        start: false,
        enable: false,
        stop_after: false,
        conf: IndexMap::new(),
        provisioners: vec![],
        volumes: vec![],
    }
}

#[test]
fn test_jail_mountpoint() {
    let (source, settings, defaults) = (release(), plain_settings(), IndexMap::new());
    let basejail =
        Jail::new("basejail", "/jails", "zroot/jails", &source, &settings, &defaults, vec![], &false, vec![]);
    assert_eq!(basejail.mountpoint(), "/jails/basejail");
}

#[test]
fn test_jail_name() {
    let (source, settings, defaults) = (release(), plain_settings(), IndexMap::new());
    let basejail =
        Jail::new("basejail", "/jails", "zroot/jails", &source, &settings, &defaults, vec![], &false, vec![]);
    assert_eq!(basejail.name(), "basejail");
    assert_eq!(basejail.zfs_ds().path(), "zroot/jails/basejail");
}

#[test]
fn test_jail_thin_create_destroy() {
    let (source, settings, defaults) = (release(), plain_settings(), IndexMap::new());
    let basejail =
        Jail::new("basejail", "/jails", "zroot/jails", &source, &settings, &defaults, vec![], &false, vec![]);
    let mut world = World::new();
    world.drive(|h| DataSet::new("zroot/jails").create(h)).unwrap();
    world.drive(|h| basejail.apply(h)).unwrap();

    let thin = Source::ZfsClone(ZfsClone { path: basejail.zfs_ds().path().to_string() });
    let jail =
        Jail::new("thinjail", "/jails", "zroot/jails", &thin, &settings, &defaults, vec![], &false, vec![]);
    world.drive(|h| jail.apply(h)).unwrap();
    assert!(world.drive(|h| jail.present(h)).unwrap());
    world.drive(|h| jail.destroy(h)).unwrap();
    assert!(!world.drive(|h| jail.present(h)).unwrap());
}

#[test]
fn test_jail_create_existing() {
    let (source, settings, defaults) = (release(), plain_settings(), IndexMap::new());
    let basejail =
        Jail::new("basejail", "/jails", "zroot/jails", &source, &settings, &defaults, vec![], &false, vec![]);
    let mut world = World::new();
    world.drive(|h| DataSet::new("zroot/jails").create(h)).unwrap();
    world.drive(|h| basejail.apply(h)).unwrap();
    let result = world.drive(|h| basejail.apply(h));
    assert!(result.is_ok());
}

#[test]
fn destroy_of_a_missing_jail_does_nothing() {
    let s = config(false);
    let mut world = prepared(&s);
    let jails = s.to_jails().unwrap();
    let jail = find(&jails, "test1");
    world.write("/etc/jail.test1.conf", "left over");
    let before = world.changes();
    assert_eq!(world.drive(|h| jail.destroy(h)), Ok(()));
    assert_eq!(world.changes(), before);
    assert!(world.notes.iter().any(|n| n.0 == What::Missing && n.1 == "test1"));
}

#[test]
fn apply_stops_at_the_first_failure() {
    let s = config(false);
    let mut world = World::new();
    let jails = s.to_jails().unwrap();
    let jail = find(&jails, "test1");
    // the dataset to clone is missing: nothing is written, started or enabled
    let before = world.changes();
    assert_eq!(
        world.drive(|h| jail.apply(h)),
        Err(Failure::Source(rj::errors::SourceError(
            "test1: source dataset zroot/jails/base doesn't exist".to_string()
        )))
    );
    assert_eq!(world.changes(), before);
}

#[test]
fn settings_new_checks_and_sets_the_dry_run() {
    let mut world = World::new();
    let s = world.drive(|h| Settings::new(config(true), false, h)).unwrap();
    assert_eq!(s.noop, false);
    let s = world.drive(|h| Settings::new(config(false), true, h)).unwrap();
    assert_eq!(s.noop, true);
    assert_eq!(s.jails_dataset, "zroot/jails");
    world.files.retain(|(p, _)| p != "testdata/provisioners/file.txt");
    assert_eq!(
        world.drive(|h| Settings::new(config(false), true, h)).err(),
        Some(Failure::Prov(rj::errors::ProvError(
            "file provisioner file, invalid source: testdata/provisioners/file.txt".to_string()
        )))
    );
}

#[test]
fn stream_of_program_and_arguments() {
    let mut world = World::new();
    let args = vec!["a file".to_string(), "b".to_string()];
    match world.drive(|h| rj::cmd::stream("cat", &args, h)) {
        Err(Failure::Run(e)) => {
            assert_eq!(e.code, Some(1));
            assert_eq!(e.message, "Failed command: cat a file b");
        }
        other => panic!("unexpected: {:?}", other),
    }
    assert_eq!(world.drive(|h| rj::cmd::stream("echo", &args, h)), Ok(()));
    assert_eq!(world.lines.last().unwrap(), "echo a file b");
    let none: Vec<String> = vec![];
    match world.drive(|h| rj::cmd::stream("cat", &none, h)) {
        Err(Failure::Run(e)) => assert_eq!(e.message, "Failed command: cat"),
        other => panic!("unexpected: {:?}", other),
    }
}

#[test]
fn what_a_jail_computes() {
    let s = config(false);
    let jails = s.to_jails().unwrap();
    let test1 = find(&jails, "test1");
    let extra = test1.extra_conf();
    let keys: Vec<&String> = extra.keys().collect();
    assert_eq!(keys, vec!["path", "mount.fstab"]);
    assert_eq!(extra["path"], JailConfValue::Path("/jails/test1".to_string()));
    assert_eq!(extra["mount.fstab"], JailConfValue::Path("/etc/fstab.test1".to_string()));
    assert_eq!(
        test1.fstab_text().unwrap(),
        "/usr/local/share/examples /jails/test1/mnt nullfs rw 0 0\n/usr/local/share/examples /jails/test1/media nullfs ro 0 0\n"
    );
    let base = find(&jails, "base");
    assert_eq!(base.extra_conf().len(), 1);
    assert_eq!(base.fstab_text().unwrap(), "");
    assert_eq!(
        base.conf_text().unwrap(),
        "exec.start = \"/bin/sh /etc/rc\";\nexec.stop = \"/bin/sh /etc/rc.shutdown\";\nexec.clean = true;\nmount.devfs = true;\n\nbase {\n    path = \"/jails/base\";\n}\n"
    );
    if let Some(Provisioner::Exec(e)) = s.provisioner.get("exec_chroot") {
        let words: Vec<String> =
            ["/jails/test1", "touch", "/tmp/exec_chroot_test"].iter().map(|w| w.to_string()).collect();
        assert_eq!(e.carrier(test1), Cmd::new("chroot").args(&words));
    } else {
        panic!("no such provisioner");
    }
    if let Some(Source::FreeBSD(f)) = s.source.get("freebsd12") {
        assert_eq!(
            f.url("kernel"),
            "http://ftp.uk.freebsd.org/pub/FreeBSD/releases/amd64/amd64/12.0-RELEASE/kernel.txz"
        );
    } else {
        panic!("no such source");
    }
}

#[test]
fn file_is_written_only_where_it_differs() {
    let s = config(false);
    let mut world = setup_once(&s);
    let jails = s.to_jails().unwrap();
    let jail = find(&jails, "test2");
    assert_eq!(world.drive(|h| jail.configure(h)), Ok(rj::jail::Change::Unchanged));
    world.write("/etc/jail.test2.conf", "other");
    world.notes.clear();
    assert_eq!(world.drive(|h| jail.configure(h)), Ok(rj::jail::Change::Modified));
    let note = world.notes.iter().find(|n| n.0 == What::Updating).unwrap();
    assert_eq!(note.2[0], "/etc/jail.test2.conf");
    assert_eq!(note.2[1], "other");
    assert_eq!(note.2[2], jail.conf_text().unwrap());
    world.files.retain(|(p, _)| p != "/etc/jail.test2.conf");
    assert_eq!(world.drive(|h| jail.configure(h)), Ok(rj::jail::Change::Created));
    assert_eq!(world.read("/etc/jail.test2.conf").unwrap(), jail.conf_text().unwrap());
}
