use io_engine::nvme_uri::NvmeError;
use io_engine::nvme_uri::UrlParts;
use io_engine::NvmeTarget;
use io_engine::NvmeTransportType;

#[test]
fn nvme_parse_uri() {
    let target =
        NvmeTarget::try_from("nvmf://1.2.3.4:1234/testnqn.what-ever.foo").unwrap();

    assert_eq!(target.trsvcid, 1234);
    assert_eq!(target.traddr, "1.2.3.4");
    assert_eq!(target.trtype, NvmeTransportType::Tcp);
    assert_eq!(target.subsysnqn, "testnqn.what-ever.foo");

    let target =
        NvmeTarget::try_from("nvmf+tcp://1.2.3.4:1234/testnqn.what-ever.foo").unwrap();

    assert_eq!(target.trsvcid, 1234);
    assert_eq!(target.traddr, "1.2.3.4");
    assert_eq!(target.trtype, NvmeTransportType::Tcp);
    assert_eq!(target.subsysnqn, "testnqn.what-ever.foo");
}

#[test]
fn nvme_parse_uri_default_port() {
    let target = NvmeTarget::try_from("nvmf://10.0.0.2/nqn.2019-05.io:node1").unwrap();
    assert_eq!(target.trsvcid, 4420);
    assert_eq!(target.traddr, "10.0.0.2");
    assert_eq!(target.subsysnqn, "nqn.2019-05.io:node1");
}

#[test]
fn nvme_parse_uri_rejects_unknown_scheme() {
    let r = NvmeTarget::try_from("http://1.2.3.4:1234/testnqn");
    assert_eq!(r.unwrap_err(), NvmeError::InvalidScheme);

    let r = NvmeTarget::try_from("iscsi://1.2.3.4/testnqn");
    assert_eq!(r.unwrap_err(), NvmeError::InvalidScheme);
}

#[test]
fn nvme_parse_uri_rejects_non_url() {
    let r = NvmeTarget::try_from("not a url at all");
    assert_eq!(r.unwrap_err(), NvmeError::UrlError);
}

#[test]
fn nvme_parse_uri_rejects_missing_subsystem() {
    let r = NvmeTarget::try_from("nvmf://1.2.3.4:1234/");
    assert_eq!(r.unwrap_err(), NvmeError::NoSubsystem);
}

#[test]
fn target_from_parts_maps_fields() {
    let t = NvmeTarget::from_parts(UrlParts {
        scheme: String::from("nvmf"),
        host: Some(String::from("9.8.7.6")),
        port: Some(4421),
        first_segment: Some(String::from("nqn.test")),
    })
    .unwrap();
    assert_eq!(t.traddr, "9.8.7.6");
    assert_eq!(t.trsvcid, 4421);
    assert_eq!(t.subsysnqn, "nqn.test");
    assert_eq!(t.trtype, NvmeTransportType::Tcp);

    let r = NvmeTarget::from_parts(UrlParts {
        scheme: String::from("nvmf"),
        host: None,
        port: None,
        first_segment: Some(String::from("nqn.test")),
    });
    assert_eq!(r.unwrap_err(), NvmeError::EmptyHost);

    let r = NvmeTarget::from_parts(UrlParts {
        scheme: String::from("nvmf+tcp"),
        host: Some(String::from("h")),
        port: None,
        first_segment: Some(String::from("")),
    });
    assert_eq!(r.unwrap_err(), NvmeError::NoSubsystem);
}

#[test]
fn device_paths_select_matching_subsystems() {
    let target = NvmeTarget::try_from("nvmf://1.2.3.4:1234/nqn.a").unwrap();
    let scanned = vec![
        io_engine::nvme_uri::ScannedSubsystem {
            nqn: String::from("nqn.a"),
            namespaces: vec![String::from("nvme0n1"), String::from("nvme0n2")],
        },
        io_engine::nvme_uri::ScannedSubsystem {
            nqn: String::from("nqn.other"),
            namespaces: vec![String::from("nvme1n1")],
        },
        io_engine::nvme_uri::ScannedSubsystem {
            nqn: String::from("nqn.a"),
            namespaces: vec![String::from("nvme2n1")],
        },
    ];
    let paths = target.device_paths(&scanned);
    assert_eq!(paths, vec!["/dev/nvme0n1", "/dev/nvme0n2", "/dev/nvme2n1"]);

    let other = NvmeTarget::try_from("nvmf://1.2.3.4/nqn.none").unwrap();
    assert!(other.device_paths(&scanned).is_empty());
}

#[test]
fn transport_type_string() {
    assert_eq!(NvmeTransportType::Tcp.to_str(), "tcp");
}
