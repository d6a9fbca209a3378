//! Starting and stopping a jail.
//!
//! Both are step machines: each step takes the report of the last command
//! (its exit status and output) and says which command comes next. The
//! caller runs the commands; every decision is taken here.
use vstd::prelude::*;

use crate::jails::{iface_target, iface_target_spec, JailOSEntry};
use crate::jdb::{IdxEntry, JailConfig, Nic};
use crate::text::{
    decimal, decimal_string, find_char, first_line, lemma_find_from_bounds,
    parse_first_line_u64, parse_u64_spec, trim_str, trimmed,
};

verus! {

/// The contents of a list of strings.
pub open spec fn strs(v: Seq<String>) -> Seq<Seq<char>> {
    v.map_values(|s: String| s@)
}

/// What a NIC descriptor holds.
pub struct NicView {
    pub interface: Seq<char>,
    pub ip: Seq<char>,
    pub netmask: Seq<char>,
    pub gateway: Seq<char>,
}

impl View for Nic {
    type V = NicView;

    open spec fn view(&self) -> NicView {
        NicView {
            interface: self.interface@,
            ip: self.ip@,
            netmask: self.netmask@,
            gateway: self.gateway@,
        }
    }
}

pub open spec fn nics_view(v: Seq<Nic>) -> Seq<NicView> {
    v.map_values(|n: Nic| n@)
}

/// A network interface of a starting jail: the epair it uses, its name in
/// the jail and the boot fragment that sets it up.
#[derive(Debug)]
pub struct IFace {
    /// epair name without the `a`/`b` suffix
    pub epair: String,
    /// interface name inside the jail
    pub iface: String,
    /// shell fragment that configures the interface at boot
    pub start_script: String,
}

pub struct IFaceView {
    pub epair: Seq<char>,
    pub iface: Seq<char>,
    pub start_script: Seq<char>,
}

impl View for IFace {
    type V = IFaceView;

    open spec fn view(&self) -> IFaceView {
        IFaceView { epair: self.epair@, iface: self.iface@, start_script: self.start_script@ }
    }
}

pub open spec fn ifaces_view(v: Seq<IFace>) -> Seq<IFaceView> {
    v.map_values(|f: IFace| f@)
}

/// The boot fragment of a NIC that uses epair `epair`: the jail-side half
/// takes the NIC's name and address, and the gateway, if any, becomes the
/// default route.
pub open spec fn start_script_spec(epair: Seq<char>, n: NicView) -> Seq<char> {
    "/sbin/ifconfig "@ + epair + "b name "@ + n.interface + "; /sbin/ifconfig "@ + n.interface
        + " inet "@ + n.ip + " netmask "@ + n.netmask + " up; "@ + if n.gateway.len() > 0 {
        "/sbin/route add default "@ + n.gateway + "; "@
    } else {
        Seq::<char>::empty()
    }
}

pub open spec fn iface_spec(epair: Seq<char>, n: NicView) -> IFaceView {
    IFaceView { epair, iface: n.interface, start_script: start_script_spec(epair, n) }
}

fn cat(a: &str, b: &str) -> (r: String)
    ensures
        r@ == a@ + b@,
{
    let mut r = a.to_owned();
    r.append(b);
    r
}

impl IFace {
    /// The interface of `nic` on epair `epair`.
    pub fn new(epair: &str, nic: &Nic) -> (r: IFace)
        ensures
            r@ == iface_spec(epair@, nic@),
    {
        let mut s = cat("/sbin/ifconfig ", epair);
        s.append("b name ");
        s.append(nic.interface.as_str());
        s.append("; /sbin/ifconfig ");
        s.append(nic.interface.as_str());
        s.append(" inet ");
        s.append(nic.ip.as_str());
        s.append(" netmask ");
        s.append(nic.netmask.as_str());
        s.append(" up; ");
        if nic.gateway.unicode_len() > 0 {
            s.append("/sbin/route add default ");
            s.append(nic.gateway.as_str());
            s.append("; ");
        }
        assert(s@ =~= start_script_spec(epair@, nic@));
        IFace { epair: epair.to_owned(), iface: nic.interface.clone(), start_script: s }
    }
}

/// The epair that an interface name of its `a` half denotes.
pub open spec fn epair_of_name_spec(t: Seq<char>) -> Option<Seq<char>> {
    if t.len() > 0 && t.last() == 'a' {
        Some(t.drop_last())
    } else {
        None
    }
}

/// The epair named by the first line of the output of `ifconfig epair
/// create`, around whitespace.
pub open spec fn epair_spec(out: Seq<char>) -> Option<Seq<char>> {
    epair_of_name_spec(trimmed(first_line(out)))
}

/// The epair whose `a` half is named `t`.
pub fn epair_of_name(t: &str) -> (r: Option<String>)
    ensures
        match epair_of_name_spec(t@) {
            Some(e) => r is Some && r->0@ == e,
            None => r is None,
        },
{
    let n = t.unicode_len();
    if n > 0 && t.get_char(n - 1) == 'a' {
        Some(t.substring_char(0, n - 1).to_owned())
    } else {
        None
    }
}

/// Reads the epair that `ifconfig epair create` reported.
pub fn parse_epair(out: &str) -> (r: Option<String>)
    ensures
        match epair_spec(out@) {
            Some(e) => r is Some && r->0@ == e,
            None => r is None,
        },
{
    let e = find_char(out, '\n', 0);
    proof { lemma_find_from_bounds(out@, '\n', 0); }
    let first = out.substring_char(0, e);
    epair_of_name(trim_str(first))
}

/// Resource limits of jail `uuid`: a memory cap in MB and a CPU cap in
/// percent, both denied beyond.
pub open spec fn rctl_limits_spec(uuid: Seq<char>, mem: u64, cpu: u64) -> Seq<Seq<char>> {
    seq![
        "-a"@,
        "jail:"@ + uuid + ":memoryuse:deny="@ + decimal(mem as nat) + "M"@,
        "jail:"@ + uuid + ":pcpu:deny="@ + decimal(cpu as nat),
    ]
}

/// The arguments that clear the resource limits of jail `uuid`.
pub open spec fn remove_rctl_spec(uuid: Seq<char>) -> Seq<Seq<char>> {
    seq!["-r"@, "jail:"@ + uuid]
}

impl JailConfig {
    /// The arguments of the resource-limit facility for this jail.
    pub fn rctl_limits(&self) -> (r: Vec<String>)
        ensures
            strs(r@) == rctl_limits_spec(self.uuid@, self.max_physical_memory, self.cpu_cap),
    {
        let mut mem = cat("jail:", self.uuid.as_str());
        mem.append(":memoryuse:deny=");
        mem.append(decimal_string(self.max_physical_memory).as_str());
        mem.append("M");
        let mut cpu = cat("jail:", self.uuid.as_str());
        cpu.append(":pcpu:deny=");
        cpu.append(decimal_string(self.cpu_cap).as_str());
        let mut r: Vec<String> = Vec::new();
        r.push(String::from_str("-a"));
        r.push(mem);
        r.push(cpu);
        assert(strs(r@) =~= rctl_limits_spec(
            self.uuid@,
            self.max_physical_memory,
            self.cpu_cap,
        ));
        r
    }
}

/// The arguments that clear the resource limits of jail `uuid`.
pub fn remove_rctl_args(uuid: &str) -> (r: Vec<String>)
    ensures
        strs(r@) == remove_rctl_spec(uuid@),
{
    let mut r: Vec<String> = Vec::new();
    r.push(String::from_str("-r"));
    r.push(cat("jail:", uuid));
    assert(strs(r@) =~= remove_rctl_spec(uuid@));
    r
}

/// The boot fragments of all interfaces, in order.
pub open spec fn scripts(ifs: Seq<IFaceView>) -> Seq<char>
    decreases ifs.len(),
{
    if ifs.len() == 0 {
        Seq::<char>::empty()
    } else {
        scripts(ifs.drop_last()) + ifs.last().start_script
    }
}

/// The boot command of a jail: the interfaces' fragments, the loopback
/// bring-up where there are interfaces, then the brand's fragment.
pub open spec fn exec_start_spec(ifs: Seq<IFaceView>, boot: Seq<char>) -> Seq<char> {
    "exec.start="@ + scripts(ifs) + if ifs.len() > 0 {
        "/sbin/ifconfig lo0 127.0.0.1 up; "@
    } else {
        Seq::<char>::empty()
    } + boot
}

pub open spec fn vnet_arg(f: IFaceView) -> Seq<char> {
    "vnet.interface="@ + f.epair + "b"@
}

/// The arguments of the jail facility that create jail `uuid`.
pub open spec fn create_args_spec(
    uuid: Seq<char>,
    root: Seq<char>,
    hostname: Seq<char>,
    devfs: u64,
    ifs: Seq<IFaceView>,
    boot: Seq<char>,
) -> Seq<Seq<char>> {
    seq![
        "-i"@,
        "-c"@,
        "persist"@,
        "name="@ + uuid,
        "path=/"@ + root + "/root"@,
        "host.hostuuid="@ + uuid,
        "host.hostname="@ + hostname,
        "devfs_ruleset="@ + decimal(devfs as nat),
        "securelevel=2"@,
        "sysvmsg=new"@,
        "sysvsem=new"@,
        "sysvshm=new"@,
        "allow.raw_sockets"@,
        "children.max=1"@,
        "vnet=new"@,
    ] + ifs.map_values(|f: IFaceView| vnet_arg(f)) + seq![exec_start_spec(ifs, boot)]
}

/// Builds the arguments that create jail `uuid`.
pub fn create_args(
    uuid: &str,
    root: &str,
    hostname: &str,
    devfs: u64,
    ifs: &Vec<IFace>,
    boot: &str,
) -> (r: Vec<String>)
    ensures
        strs(r@) == create_args_spec(uuid@, root@, hostname@, devfs, ifaces_view(ifs@), boot@),
{
    let mut path = cat("path=/", root);
    path.append("/root");
    let mut args: Vec<String> = Vec::new();
    args.push(String::from_str("-i"));
    args.push(String::from_str("-c"));
    args.push(String::from_str("persist"));
    args.push(cat("name=", uuid));
    args.push(path);
    args.push(cat("host.hostuuid=", uuid));
    args.push(cat("host.hostname=", hostname));
    args.push(cat("devfs_ruleset=", decimal_string(devfs).as_str()));
    args.push(String::from_str("securelevel=2"));
    args.push(String::from_str("sysvmsg=new"));
    args.push(String::from_str("sysvsem=new"));
    args.push(String::from_str("sysvshm=new"));
    args.push(String::from_str("allow.raw_sockets"));
    args.push(String::from_str("children.max=1"));
    args.push(String::from_str("vnet=new"));
    let ghost head = strs(args@);
    assert(head =~= seq![
        "-i"@,
        "-c"@,
        "persist"@,
        "name="@ + uuid@,
        "path=/"@ + root@ + "/root"@,
        "host.hostuuid="@ + uuid@,
        "host.hostname="@ + hostname@,
        "devfs_ruleset="@ + decimal(devfs as nat),
        "securelevel=2"@,
        "sysvmsg=new"@,
        "sysvsem=new"@,
        "sysvshm=new"@,
        "allow.raw_sockets"@,
        "children.max=1"@,
        "vnet=new"@,
    ]);
    let ghost fs = ifaces_view(ifs@);
    let mut exec_start = String::from_str("exec.start=");
    let n = ifs.len();
    let mut i: usize = 0;
    while i < n
        invariant
            n == ifs@.len(),
            fs == ifaces_view(ifs@),
            i <= n,
            strs(args@) == head + fs.take(i as int).map_values(|f: IFaceView| vnet_arg(f)),
            exec_start@ == "exec.start="@ + scripts(fs.take(i as int)),
        decreases n - i,
    {
        let f = &ifs[i];
        let mut v = cat("vnet.interface=", f.epair.as_str());
        v.append("b");
        let ghost prev = strs(args@);
        let ghost prev_exec = exec_start@;
        assert(f@ == fs[i as int]);
        assert(v@ == vnet_arg(fs[i as int]));
        args.push(v);
        exec_start.append(f.start_script.as_str());
        proof {
            let t = fs.take(i + 1);
            assert(t.drop_last() =~= fs.take(i as int));
            assert(t.last() == fs[i as int]);
            assert(strs(args@) =~= prev.push(vnet_arg(fs[i as int])));
            assert(t.map_values(|f: IFaceView| vnet_arg(f)) =~= fs.take(i as int).map_values(
                |f: IFaceView| vnet_arg(f),
            ).push(vnet_arg(fs[i as int])));
            assert(strs(args@) =~= head + t.map_values(|f: IFaceView| vnet_arg(f)));
            assert(exec_start@ =~= "exec.start="@ + scripts(t));
        }
        i += 1;
    }
    if n > 0 {
        exec_start.append("/sbin/ifconfig lo0 127.0.0.1 up; ");
    }
    exec_start.append(boot);
    assert(fs.take(n as int) =~= fs);
    assert(exec_start@ =~= exec_start_spec(fs, boot@));
    let ghost before = strs(args@);
    args.push(exec_start);
    assert(strs(args@) =~= before.push(exec_start_spec(fs, boot@)));
    assert(strs(args@) =~= create_args_spec(uuid@, root@, hostname@, devfs, fs, boot@));
    args
}

/// The arguments that rename the host half of `f` to its name for a jail
/// with OS id `id`.
pub open spec fn rename_args_spec(id: u64, f: IFaceView) -> Seq<Seq<char>> {
    seq![f.epair + "a"@, "name"@, iface_target_spec(id, f.iface)]
}

/// The arguments that destroy interface `iface` of the jail with OS id
/// `id`.
pub open spec fn destroy_args_spec(id: u64, iface: Seq<char>) -> Seq<Seq<char>> {
    seq![iface_target_spec(id, iface), "destroy"@]
}

pub fn rename_args(id: u64, f: &IFace) -> (r: Vec<String>)
    ensures
        strs(r@) == rename_args_spec(id, f@),
{
    let mut r: Vec<String> = Vec::new();
    r.push(cat(f.epair.as_str(), "a"));
    r.push(String::from_str("name"));
    r.push(iface_target(id, f.iface.as_str()));
    assert(strs(r@) =~= rename_args_spec(id, f@));
    r
}

pub fn destroy_args(id: u64, iface: &str) -> (r: Vec<String>)
    ensures
        strs(r@) == destroy_args_spec(id, iface@),
{
    let mut r: Vec<String> = Vec::new();
    r.push(iface_target(id, iface));
    r.push(String::from_str("destroy"));
    assert(strs(r@) =~= destroy_args_spec(id, iface@));
    r
}

/// A jail to start or stop: its index entry, its configuration and what
/// the OS reports of it.
pub struct Jail<'a> {
    /// Index reference
    pub idx: &'a IdxEntry,
    /// Jail configuration
    pub config: JailConfig,
    /// Record from the OS
    pub inner: Option<&'a JailOSEntry>,
    /// Record from the outer OS jail
    pub outer: Option<&'a JailOSEntry>,
}

/// What a command reported: whether it exited with success, and what it
/// printed.
#[derive(Debug)]
pub struct Report {
    pub success: bool,
    pub output: String,
}

/// Where a start stands.
#[derive(Debug, Clone, Copy, PartialEq, Eq, Structural)]
pub enum StartPhase {
    Limiting,
    Initialising,
    Allocating,
    Rendering,
    Creating,
    Renaming,
    Finished,
}

/// Why a start failed.
#[derive(Debug, Clone, Copy, PartialEq, Eq, Structural)]
pub enum StartError {
    /// The resource limits could not be set.
    Limits,
    /// The brand's init hook failed.
    BrandInit,
    /// No epair could be had for an interface.
    Epair,
    /// The brand's boot fragment could not be rendered.
    BrandBoot,
    /// The jail facility failed.
    Create,
    /// The jail facility did not report a numeric id.
    BadId,
    /// The start is over already.
    Finished,
}

/// The next command of a start.
#[derive(Debug)]
pub enum StartAction {
    /// Run the resource-limit facility with these arguments.
    SetLimits(Vec<String>),
    /// Run the brand's init hook.
    InitBrand,
    /// Create an epair for the NIC at this position; report its name.
    CreateEpair(usize),
    /// Render the brand's boot fragment; report it as output.
    RenderBoot,
    /// Run the jail facility with these arguments; report its output.
    CreateJail(Vec<String>),
    /// Run the interface facility with these arguments; a failure is
    /// only logged.
    RenameIface(Vec<String>),
    /// The jail runs under this OS id.
    Started(u64),
    /// The start failed.
    Failed(StartError),
}

fn copy_nics(v: &Vec<Nic>) -> (r: Vec<Nic>)
    ensures
        nics_view(r@) == nics_view(v@),
{
    let mut r: Vec<Nic> = Vec::new();
    let mut i: usize = 0;
    while i < v.len()
        invariant
            i <= v@.len(),
            nics_view(r@) == nics_view(v@).take(i as int),
        decreases v@.len() - i,
    {
        let n = Nic {
            interface: v[i].interface.clone(),
            ip: v[i].ip.clone(),
            netmask: v[i].netmask.clone(),
            gateway: v[i].gateway.clone(),
        };
        assert(n@ == v@[i as int]@);
        let ghost prev = nics_view(r@);
        r.push(n);
        assert(nics_view(r@) =~= prev.push(n@));
        i += 1;
        assert(nics_view(r@) =~= nics_view(v@).take(i as int));
    }
    assert(nics_view(v@).take(i as int) =~= nics_view(v@));
    r
}

/// A start in progress.
pub struct Starter {
    uuid: String,
    root: String,
    hostname: String,
    devfs: u64,
    nics: Vec<Nic>,
    ifs: Vec<IFace>,
    phase: StartPhase,
    id: u64,
    next: usize,
}

impl Starter {
    pub closed spec fn phase(&self) -> StartPhase {
        self.phase
    }

    /// The NICs of the jail.
    pub closed spec fn nics(&self) -> Seq<NicView> {
        nics_view(self.nics@)
    }

    /// The interfaces set up so far.
    pub closed spec fn ifs(&self) -> Seq<IFaceView> {
        ifaces_view(self.ifs@)
    }

    /// The NIC or interface the current step is about.
    pub closed spec fn cursor(&self) -> nat {
        self.next as nat
    }

    /// The OS id of the created jail.
    pub closed spec fn id(&self) -> u64 {
        self.id
    }

    pub closed spec fn uuid(&self) -> Seq<char> {
        self.uuid@
    }

    pub closed spec fn root(&self) -> Seq<char> {
        self.root@
    }

    pub closed spec fn hostname(&self) -> Seq<char> {
        self.hostname@
    }

    pub closed spec fn devfs(&self) -> u64 {
        self.devfs
    }

    pub closed spec fn wf(&self) -> bool {
        &&& self.next <= self.nics@.len()
        &&& (self.phase == StartPhase::Limiting || self.phase == StartPhase::Initialising)
            ==> self.ifs@.len() == 0
        &&& self.phase == StartPhase::Allocating ==> self.ifs@.len() == self.next
            < self.nics@.len()
        &&& (self.phase == StartPhase::Rendering || self.phase == StartPhase::Creating
            || self.phase == StartPhase::Renaming) ==> self.ifs@.len() == self.nics@.len()
        &&& self.phase == StartPhase::Renaming ==> self.next < self.ifs@.len()
    }

    /// The same jail is being started.
    pub open spec fn same_jail(&self, o: &Starter) -> bool {
        &&& self.nics() == o.nics()
        &&& self.uuid() == o.uuid()
        &&& self.root() == o.root()
        &&& self.hostname() == o.hostname()
        &&& self.devfs() == o.devfs()
    }

    /// Takes the report of the last command and gives the next one.
    /// Limits come first, then the brand's init hook, one epair per NIC,
    /// the brand's boot fragment, the jail itself, and one rename per
    /// interface. A failure before the jail exists ends the start; a
    /// failed rename does not.
    pub fn step(&mut self, rep: &Report) -> (r: StartAction)
        requires
            old(self).wf(),
        ensures
            final(self).wf(),
            final(self).same_jail(old(self)),
            old(self).phase() != StartPhase::Allocating ==> final(self).ifs() == old(self).ifs(),
            old(self).phase() == StartPhase::Limiting ==> if rep.success {
                final(self).phase() == StartPhase::Initialising && r == StartAction::InitBrand
            } else {
                final(self).phase() == StartPhase::Finished && r == StartAction::Failed(
                    StartError::Limits,
                )
            },
            old(self).phase() == StartPhase::Initialising ==> if !rep.success {
                final(self).phase() == StartPhase::Finished && r == StartAction::Failed(
                    StartError::BrandInit,
                )
            } else if old(self).nics().len() > 0 {
                final(self).phase() == StartPhase::Allocating && final(self).cursor() == 0
                    && r == StartAction::CreateEpair(0)
            } else {
                final(self).phase() == StartPhase::Rendering && r == StartAction::RenderBoot
            },
            old(self).phase() == StartPhase::Allocating ==> match (
                if rep.success {
                    epair_spec(rep.output@)
                } else {
                    None
                }
            ) {
                None => final(self).phase() == StartPhase::Finished && r == StartAction::Failed(
                    StartError::Epair,
                ),
                Some(b) => final(self).ifs() == old(self).ifs().push(
                    iface_spec(b, old(self).nics()[old(self).cursor() as int]),
                ) && if old(self).cursor() + 1 < old(self).nics().len() {
                    final(self).phase() == StartPhase::Allocating && final(self).cursor()
                        == old(self).cursor() + 1 && r == StartAction::CreateEpair(
                        (old(self).cursor() + 1) as usize,
                    )
                } else {
                    final(self).phase() == StartPhase::Rendering && r == StartAction::RenderBoot
                },
            },
            old(self).phase() == StartPhase::Rendering ==> if !rep.success {
                final(self).phase() == StartPhase::Finished && r == StartAction::Failed(
                    StartError::BrandBoot,
                )
            } else {
                final(self).phase() == StartPhase::Creating && r is CreateJail && strs(
                    r->CreateJail_0@,
                ) == create_args_spec(
                    old(self).uuid(),
                    old(self).root(),
                    old(self).hostname(),
                    old(self).devfs(),
                    old(self).ifs(),
                    rep.output@,
                )
            },
            old(self).phase() == StartPhase::Creating ==> if !rep.success {
                final(self).phase() == StartPhase::Finished && r == StartAction::Failed(
                    StartError::Create,
                )
            } else {
                match parse_u64_spec(trimmed(first_line(rep.output@))) {
                    None => final(self).phase() == StartPhase::Finished && r
                        == StartAction::Failed(StartError::BadId),
                    Some(id) => final(self).id() == id && if old(self).ifs().len() > 0 {
                        final(self).phase() == StartPhase::Renaming && final(self).cursor() == 0
                            && r is RenameIface && strs(r->RenameIface_0@) == rename_args_spec(
                            id,
                            old(self).ifs()[0],
                        )
                    } else {
                        final(self).phase() == StartPhase::Finished && r == StartAction::Started(
                            id,
                        )
                    },
                }
            },
            old(self).phase() == StartPhase::Renaming ==> if old(self).cursor() + 1 < old(
                self,
            ).ifs().len() {
                final(self).phase() == StartPhase::Renaming && final(self).cursor() == old(
                    self,
                ).cursor() + 1 && r is RenameIface && strs(r->RenameIface_0@) == rename_args_spec(
                    old(self).id(),
                    old(self).ifs()[old(self).cursor() + 1 as int],
                )
            } else {
                final(self).phase() == StartPhase::Finished && r == StartAction::Started(
                    old(self).id(),
                )
            },
            old(self).phase() == StartPhase::Finished ==> final(self).phase()
                == StartPhase::Finished && r == StartAction::Failed(StartError::Finished),
    {
        match self.phase {
            StartPhase::Limiting => {
                if rep.success {
                    self.phase = StartPhase::Initialising;
                    StartAction::InitBrand
                } else {
                    self.phase = StartPhase::Finished;
                    StartAction::Failed(StartError::Limits)
                }
            },
            StartPhase::Initialising => {
                if !rep.success {
                    self.phase = StartPhase::Finished;
                    StartAction::Failed(StartError::BrandInit)
                } else if self.nics.len() > 0 {
                    self.phase = StartPhase::Allocating;
                    self.next = 0;
                    StartAction::CreateEpair(0)
                } else {
                    self.phase = StartPhase::Rendering;
                    StartAction::RenderBoot
                }
            },
            StartPhase::Allocating => {
                let epair = if rep.success {
                    parse_epair(rep.output.as_str())
                } else {
                    None
                };
                match epair {
                    None => {
                        self.phase = StartPhase::Finished;
                        StartAction::Failed(StartError::Epair)
                    },
                    Some(b) => {
                        let f = IFace::new(b.as_str(), &self.nics[self.next]);
                        let ghost before = self.ifs();
                        self.ifs.push(f);
                        assert(self.ifs() =~= before.push(f@));
                        if self.next < self.nics.len() - 1 {
                            self.next = self.next + 1;
                            StartAction::CreateEpair(self.next)
                        } else {
                            self.phase = StartPhase::Rendering;
                            StartAction::RenderBoot
                        }
                    },
                }
            },
            StartPhase::Rendering => {
                if !rep.success {
                    self.phase = StartPhase::Finished;
                    StartAction::Failed(StartError::BrandBoot)
                } else {
                    let args = create_args(
                        self.uuid.as_str(),
                        self.root.as_str(),
                        self.hostname.as_str(),
                        self.devfs,
                        &self.ifs,
                        rep.output.as_str(),
                    );
                    self.phase = StartPhase::Creating;
                    StartAction::CreateJail(args)
                }
            },
            StartPhase::Creating => {
                if !rep.success {
                    self.phase = StartPhase::Finished;
                    StartAction::Failed(StartError::Create)
                } else {
                    match parse_first_line_u64(rep.output.as_str()) {
                        None => {
                            self.phase = StartPhase::Finished;
                            StartAction::Failed(StartError::BadId)
                        },
                        Some(id) => {
                            self.id = id;
                            if self.ifs.len() > 0 {
                                self.phase = StartPhase::Renaming;
                                self.next = 0;
                                StartAction::RenameIface(rename_args(id, &self.ifs[0]))
                            } else {
                                self.phase = StartPhase::Finished;
                                StartAction::Started(id)
                            }
                        },
                    }
                }
            },
            StartPhase::Renaming => {
                if self.next < self.ifs.len() - 1 {
                    self.next = self.next + 1;
                    StartAction::RenameIface(rename_args(self.id, &self.ifs[self.next]))
                } else {
                    self.phase = StartPhase::Finished;
                    StartAction::Started(self.id)
                }
            },
            StartPhase::Finished => StartAction::Failed(StartError::Finished),
        }
    }
}

/// Where a stop stands.
#[derive(Debug, Clone, Copy, PartialEq, Eq, Structural)]
pub enum StopPhase {
    Halting,
    Removing,
    Unlimiting,
    Destroying,
    Finished,
}

/// Why a stop failed.
#[derive(Debug, Clone, Copy, PartialEq, Eq, Structural)]
pub enum StopError {
    /// The brand's halt hook failed.
    BrandHalt,
    /// The jail facility could not remove the jail.
    Remove,
    /// The stop is over already.
    Finished,
}

/// The next command of a stop.
#[derive(Debug)]
pub enum StopAction {
    /// Run the brand's halt hook.
    HaltBrand,
    /// Run the jail facility with these arguments.
    RemoveJail(Vec<String>),
    /// Run the resource-limit facility with these arguments; a failure is
    /// only logged.
    RemoveLimits(Vec<String>),
    /// Run the interface facility with these arguments; a failure is only
    /// logged.
    DestroyIface(Vec<String>),
    /// The jail is stopped; `false` when its interfaces were left behind
    /// for want of its OS id.
    Stopped(bool),
    /// The stop failed.
    Failed(StopError),
}

/// The arguments that remove jail `uuid`.
pub open spec fn remove_jail_spec(uuid: Seq<char>) -> Seq<Seq<char>> {
    seq!["-r"@, uuid]
}

/// A stop in progress.
pub struct Stopper {
    uuid: String,
    ifaces: Vec<String>,
    outer: Option<u64>,
    phase: StopPhase,
    next: usize,
}

impl Stopper {
    pub closed spec fn phase(&self) -> StopPhase {
        self.phase
    }

    pub closed spec fn uuid(&self) -> Seq<char> {
        self.uuid@
    }

    /// The names of the jail's interfaces.
    pub closed spec fn ifaces(&self) -> Seq<Seq<char>> {
        strs(self.ifaces@)
    }

    /// The OS id of the jail, where it is known.
    pub closed spec fn outer(&self) -> Option<u64> {
        self.outer
    }

    /// The interface the current step is about.
    pub closed spec fn cursor(&self) -> nat {
        self.next as nat
    }

    pub closed spec fn wf(&self) -> bool {
        &&& self.phase == StopPhase::Destroying ==> self.next < self.ifaces@.len()
            && self.outer is Some
    }

    /// Takes the report of the last command and gives the next one: the
    /// brand's halt hook, the jail's removal, the removal of its limits,
    /// then, where its OS id is known, one destroy per interface. Only the
    /// hook and the removal can fail the stop.
    pub fn step(&mut self, rep: &Report) -> (r: StopAction)
        requires
            old(self).wf(),
        ensures
            final(self).wf(),
            final(self).uuid() == old(self).uuid(),
            final(self).ifaces() == old(self).ifaces(),
            final(self).outer() == old(self).outer(),
            old(self).phase() == StopPhase::Halting ==> if rep.success {
                final(self).phase() == StopPhase::Removing && r is RemoveJail && strs(
                    r->RemoveJail_0@,
                ) == remove_jail_spec(old(self).uuid())
            } else {
                final(self).phase() == StopPhase::Finished && r == StopAction::Failed(
                    StopError::BrandHalt,
                )
            },
            old(self).phase() == StopPhase::Removing ==> if rep.success {
                final(self).phase() == StopPhase::Unlimiting && r is RemoveLimits && strs(
                    r->RemoveLimits_0@,
                ) == remove_rctl_spec(old(self).uuid())
            } else {
                final(self).phase() == StopPhase::Finished && r == StopAction::Failed(
                    StopError::Remove,
                )
            },
            old(self).phase() == StopPhase::Unlimiting ==> match old(self).outer() {
                None => final(self).phase() == StopPhase::Finished && r == StopAction::Stopped(
                    false,
                ),
                Some(id) => if old(self).ifaces().len() > 0 {
                    final(self).phase() == StopPhase::Destroying && final(self).cursor() == 0
                        && r is DestroyIface && strs(r->DestroyIface_0@) == destroy_args_spec(
                        id,
                        old(self).ifaces()[0],
                    )
                } else {
                    final(self).phase() == StopPhase::Finished && r == StopAction::Stopped(true)
                },
            },
            old(self).phase() == StopPhase::Destroying ==> if old(self).cursor() + 1 < old(
                self,
            ).ifaces().len() {
                final(self).phase() == StopPhase::Destroying && final(self).cursor() == old(
                    self,
                ).cursor() + 1 && r is DestroyIface && strs(r->DestroyIface_0@)
                    == destroy_args_spec(
                    old(self).outer()->0,
                    old(self).ifaces()[old(self).cursor() + 1 as int],
                )
            } else {
                final(self).phase() == StopPhase::Finished && r == StopAction::Stopped(true)
            },
            old(self).phase() == StopPhase::Finished ==> final(self).phase()
                == StopPhase::Finished && r == StopAction::Failed(StopError::Finished),
    {
        match self.phase {
            StopPhase::Halting => {
                if rep.success {
                    let mut args: Vec<String> = Vec::new();
                    args.push(String::from_str("-r"));
                    args.push(self.uuid.clone());
                    assert(strs(args@) =~= remove_jail_spec(self.uuid@));
                    self.phase = StopPhase::Removing;
                    StopAction::RemoveJail(args)
                } else {
                    self.phase = StopPhase::Finished;
                    StopAction::Failed(StopError::BrandHalt)
                }
            },
            StopPhase::Removing => {
                if rep.success {
                    self.phase = StopPhase::Unlimiting;
                    StopAction::RemoveLimits(remove_rctl_args(self.uuid.as_str()))
                } else {
                    self.phase = StopPhase::Finished;
                    StopAction::Failed(StopError::Remove)
                }
            },
            StopPhase::Unlimiting => {
                match self.outer {
                    None => {
                        self.phase = StopPhase::Finished;
                        StopAction::Stopped(false)
                    },
                    Some(id) => {
                        if self.ifaces.len() > 0 {
                            self.phase = StopPhase::Destroying;
                            self.next = 0;
                            StopAction::DestroyIface(destroy_args(id, self.ifaces[0].as_str()))
                        } else {
                            self.phase = StopPhase::Finished;
                            StopAction::Stopped(true)
                        }
                    },
                }
            },
            StopPhase::Destroying => {
                if self.next < self.ifaces.len() - 1 {
                    self.next = self.next + 1;
                    let id = match self.outer {
                        Some(id) => id,
                        None => 0,
                    };
                    StopAction::DestroyIface(destroy_args(id, self.ifaces[self.next].as_str()))
                } else {
                    self.phase = StopPhase::Finished;
                    StopAction::Stopped(true)
                }
            },
            StopPhase::Finished => StopAction::Failed(StopError::Finished),
        }
    }
}

impl<'a> Jail<'a> {
    /// The name of the brand that boots the jail.
    pub fn brand(&self) -> (r: &str)
        ensures
            r@ == self.config.brand@,
    {
        self.config.brand.as_str()
    }

    /// Begins a start: the first command sets the resource limits.
    pub fn start(&self, devfs_ruleset: u64) -> (r: (Starter, StartAction))
        ensures
            r.0.wf(),
            r.0.phase() == StartPhase::Limiting,
            r.0.nics() == nics_view(self.config.nics@),
            r.0.ifs().len() == 0,
            r.0.uuid() == self.idx.uuid@,
            r.0.root() == self.idx.root@,
            r.0.hostname() == self.config.hostname@,
            r.0.devfs() == devfs_ruleset,
            r.1 is SetLimits,
            strs(r.1->SetLimits_0@) == rctl_limits_spec(
                self.config.uuid@,
                self.config.max_physical_memory,
                self.config.cpu_cap,
            ),
    {
        let s = Starter {
            uuid: self.idx.uuid.clone(),
            root: self.idx.root.clone(),
            hostname: self.config.hostname.clone(),
            devfs: devfs_ruleset,
            nics: copy_nics(&self.config.nics),
            ifs: Vec::new(),
            phase: StartPhase::Limiting,
            id: 0,
            next: 0,
        };
        assert(s.ifs() =~= Seq::<IFaceView>::empty());
        (s, StartAction::SetLimits(self.config.rctl_limits()))
    }

    /// Begins a stop: the first command runs the brand's halt hook.
    pub fn stop(&self) -> (r: (Stopper, StopAction))
        ensures
            r.0.wf(),
            r.0.phase() == StopPhase::Halting,
            r.0.uuid() == self.idx.uuid@,
            r.0.ifaces() == nics_view(self.config.nics@).map_values(|n: NicView| n.interface),
            r.0.outer() == match self.outer {
                Some(o) => Some(o.id),
                None => None::<u64>,
            },
            r.1 == StopAction::HaltBrand,
    {
        let mut ifaces: Vec<String> = Vec::new();
        let n = self.config.nics.len();
        let ghost want = nics_view(self.config.nics@).map_values(|n: NicView| n.interface);
        let mut i: usize = 0;
        while i < n
            invariant
                n == self.config.nics@.len(),
                want == nics_view(self.config.nics@).map_values(|n: NicView| n.interface),
                i <= n,
                strs(ifaces@) == want.take(i as int),
            decreases n - i,
        {
            let ghost prev = strs(ifaces@);
            let name = self.config.nics[i].interface.clone();
            assert(name@ == want[i as int]);
            ifaces.push(name);
            assert(strs(ifaces@) =~= prev.push(name@));
            i += 1;
            assert(strs(ifaces@) =~= want.take(i as int));
        }
        assert(want.take(n as int) =~= want);
        let outer = match self.outer {
            Some(o) => Some(o.id),
            None => None,
        };
        (
            Stopper { uuid: self.idx.uuid.clone(), ifaces, outer, phase: StopPhase::Halting, next: 0 },
            StopAction::HaltBrand,
        )
    }
}

} // verus!
