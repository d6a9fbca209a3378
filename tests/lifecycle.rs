use vmadm::jails::JailOSEntry;
use vmadm::jdb::{IdxEntry, JailConfig, Nic};
use vmadm::lifecycle::{
    create_args, parse_epair, remove_rctl_args, IFace, Jail, Report, StartAction, StartError,
    StopAction, StopError,
};

fn nic(name: &str, ip: &str, gw: &str) -> Nic {
    Nic {
        interface: String::from(name),
        ip: String::from(ip),
        netmask: String::from("255.255.255.0"),
        gateway: String::from(gw),
    }
}

fn config(nics: Vec<Nic>) -> JailConfig {
    JailConfig {
        uuid: String::from("u1"),
        image_uuid: String::from("img"),
        alias: String::from("web"),
        hostname: String::from("web.local"),
        max_physical_memory: 512,
        cpu_cap: 50,
        quota: 5,
        autostart: false,
        nics,
        brand: String::from("jail"),
    }
}

fn entry() -> IdxEntry {
    IdxEntry {
        version: 0,
        uuid: String::from("u1"),
        root: String::from("zroot/jails/u1"),
        state: String::from("installing"),
        jail_type: String::from("base"),
    }
}

fn ok(out: &str) -> Report {
    Report { success: true, output: String::from(out) }
}

fn failed() -> Report {
    Report { success: false, output: String::new() }
}

#[test]
fn start_with_two_nics() {
    let idx = entry();
    let jail = Jail {
        idx: &idx,
        config: config(vec![nic("net0", "10.0.0.2", "10.0.0.1"), nic("net1", "10.1.0.2", "")]),
        inner: None,
        outer: None,
    };
    let (mut s, first) = jail.start(4);
    match first {
        StartAction::SetLimits(a) => assert_eq!(
            a,
            vec!["-a", "jail:u1:memoryuse:deny=512M", "jail:u1:pcpu:deny=50"]
        ),
        other => panic!("{:?}", other),
    }
    assert!(matches!(s.step(&ok("")), StartAction::InitBrand));
    assert!(matches!(s.step(&ok("")), StartAction::CreateEpair(0)));
    assert!(matches!(s.step(&ok("epair3a\n")), StartAction::CreateEpair(1)));
    assert!(matches!(s.step(&ok("epair4a\n")), StartAction::RenderBoot));
    let args = match s.step(&ok("/bin/sh /etc/rc")) {
        StartAction::CreateJail(a) => a,
        other => panic!("{:?}", other),
    };
    let vnets: Vec<&String> = args.iter().filter(|a| a.starts_with("vnet.interface=")).collect();
    assert_eq!(vnets.len(), 2);
    assert_eq!(vnets[0], "vnet.interface=epair3b");
    assert_eq!(vnets[1], "vnet.interface=epair4b");
    assert!(vnets.iter().all(|a| a.ends_with('b')));
    let exec = args.last().unwrap();
    assert!(exec.starts_with("exec.start="));
    assert!(exec.ends_with("/sbin/ifconfig lo0 127.0.0.1 up; /bin/sh /etc/rc"));
    assert!(exec.contains("/sbin/ifconfig epair3b name net0; /sbin/ifconfig net0 inet 10.0.0.2 netmask 255.255.255.0 up; /sbin/route add default 10.0.0.1; "));
    assert!(exec.contains("/sbin/ifconfig epair4b name net1; /sbin/ifconfig net1 inet 10.1.0.2 netmask 255.255.255.0 up; /sbin/ifconfig lo0"));
    assert_eq!(&args[..7], &["-i", "-c", "persist", "name=u1", "path=/zroot/jails/u1/root", "host.hostuuid=u1", "host.hostname=web.local"]);
    assert!(args.contains(&String::from("devfs_ruleset=4")));
    assert!(args.contains(&String::from("securelevel=2")));
    assert!(args.contains(&String::from("vnet=new")));
    match s.step(&ok("42\nnoise that follows\n")) {
        StartAction::RenameIface(a) => assert_eq!(a, vec!["epair3a", "name", "j42:net0"]),
        other => panic!("{:?}", other),
    }
    match s.step(&failed()) {
        StartAction::RenameIface(a) => assert_eq!(a, vec!["epair4a", "name", "j42:net1"]),
        other => panic!("{:?}", other),
    }
    assert!(matches!(s.step(&ok("")), StartAction::Started(42)));
    assert!(matches!(s.step(&ok("")), StartAction::Failed(StartError::Finished)));
}

#[test]
fn start_without_nics_has_no_loopback() {
    let idx = entry();
    let jail = Jail { idx: &idx, config: config(Vec::new()), inner: None, outer: None };
    let (mut s, _) = jail.start(0);
    assert!(matches!(s.step(&ok("")), StartAction::InitBrand));
    assert!(matches!(s.step(&ok("")), StartAction::RenderBoot));
    let args = match s.step(&ok("boot")) {
        StartAction::CreateJail(a) => a,
        other => panic!("{:?}", other),
    };
    assert_eq!(args.last().unwrap(), "exec.start=boot");
    assert!(!args.iter().any(|a| a.starts_with("vnet.interface=")));
    assert!(matches!(s.step(&ok("5\n")), StartAction::Started(5)));
}

#[test]
fn failed_limits_never_create_the_jail() {
    let idx = entry();
    let jail = Jail { idx: &idx, config: config(vec![nic("net0", "10.0.0.2", "")]), inner: None, outer: None };
    let (mut s, _) = jail.start(4);
    assert!(matches!(s.step(&failed()), StartAction::Failed(StartError::Limits)));
    for _ in 0..5 {
        match s.step(&ok("1\n")) {
            StartAction::CreateJail(_) => panic!("jail created after failed limits"),
            StartAction::Failed(StartError::Finished) => {}
            other => panic!("{:?}", other),
        }
    }
}

#[test]
fn start_errors() {
    let idx = entry();
    let jail = Jail { idx: &idx, config: config(vec![nic("net0", "10.0.0.2", "")]), inner: None, outer: None };
    let (mut s, _) = jail.start(4);
    s.step(&ok(""));
    assert!(matches!(s.step(&failed()), StartAction::Failed(StartError::BrandInit)));

    let (mut s, _) = jail.start(4);
    s.step(&ok(""));
    s.step(&ok(""));
    assert!(matches!(s.step(&ok("bridge0\n")), StartAction::Failed(StartError::Epair)));

    let (mut s, _) = jail.start(4);
    s.step(&ok(""));
    s.step(&ok(""));
    s.step(&ok("epair0a"));
    assert!(matches!(s.step(&failed()), StartAction::Failed(StartError::BrandBoot)));

    let (mut s, _) = jail.start(4);
    s.step(&ok(""));
    s.step(&ok(""));
    s.step(&ok("epair0a"));
    s.step(&ok("boot"));
    assert!(matches!(s.step(&ok("jail: error\n")), StartAction::Failed(StartError::BadId)));

    let (mut s, _) = jail.start(4);
    s.step(&ok(""));
    s.step(&ok(""));
    s.step(&ok("epair0a"));
    s.step(&ok("boot"));
    assert!(matches!(s.step(&failed()), StartAction::Failed(StartError::Create)));
}

#[test]
fn stop_destroys_interfaces_by_outer_id() {
    let idx = entry();
    let os = JailOSEntry { uuid: String::from("u1"), id: 7 };
    let jail = Jail {
        idx: &idx,
        config: config(vec![nic("net0", "10.0.0.2", ""), nic("net1", "10.1.0.2", "")]),
        inner: None,
        outer: Some(&os),
    };
    let (mut s, first) = jail.stop();
    assert!(matches!(first, StopAction::HaltBrand));
    match s.step(&ok("")) {
        StopAction::RemoveJail(a) => assert_eq!(a, vec!["-r", "u1"]),
        other => panic!("{:?}", other),
    }
    match s.step(&ok("")) {
        StopAction::RemoveLimits(a) => assert_eq!(a, vec!["-r", "jail:u1"]),
        other => panic!("{:?}", other),
    }
    match s.step(&failed()) {
        StopAction::DestroyIface(a) => assert_eq!(a, vec!["j7:net0", "destroy"]),
        other => panic!("{:?}", other),
    }
    match s.step(&failed()) {
        StopAction::DestroyIface(a) => assert_eq!(a, vec!["j7:net1", "destroy"]),
        other => panic!("{:?}", other),
    }
    assert!(matches!(s.step(&ok("")), StopAction::Stopped(true)));
    assert!(matches!(s.step(&ok("")), StopAction::Failed(StopError::Finished)));
}

#[test]
fn stop_without_outer_id_skips_interfaces() {
    let idx = entry();
    let jail = Jail { idx: &idx, config: config(vec![nic("net0", "10.0.0.2", "")]), inner: None, outer: None };
    let (mut s, _) = jail.stop();
    s.step(&ok(""));
    s.step(&ok(""));
    assert!(matches!(s.step(&ok("")), StopAction::Stopped(false)));
}

#[test]
fn stop_errors() {
    let idx = entry();
    let jail = Jail { idx: &idx, config: config(Vec::new()), inner: None, outer: None };
    let (mut s, _) = jail.stop();
    assert!(matches!(s.step(&failed()), StopAction::Failed(StopError::BrandHalt)));
    let (mut s, _) = jail.stop();
    s.step(&ok(""));
    assert!(matches!(s.step(&failed()), StopAction::Failed(StopError::Remove)));
    assert_eq!(jail.brand(), "jail");
}

#[test]
fn epair_names() {
    assert_eq!(parse_epair("epair12a\n"), Some(String::from("epair12")));
    assert_eq!(parse_epair("  epair0a  \n"), Some(String::from("epair0")));
    assert_eq!(parse_epair("epair0b\n"), None);
    assert_eq!(parse_epair(""), None);
}

#[test]
fn argument_builders() {
    assert_eq!(remove_rctl_args("u9"), vec!["-r", "jail:u9"]);
    let f = IFace::new("epair1", &nic("net0", "1.2.3.4", ""));
    assert_eq!(f.iface, "net0");
    assert_eq!(f.start_script, "/sbin/ifconfig epair1b name net0; /sbin/ifconfig net0 inet 1.2.3.4 netmask 255.255.255.0 up; ");
    let args = create_args("u", "r", "h", 1, &vec![f], "B");
    assert_eq!(args.len(), 17);
    assert_eq!(args[15], "vnet.interface=epair1b");
    assert!(args[16].ends_with("up; /sbin/ifconfig lo0 127.0.0.1 up; B"));
}
