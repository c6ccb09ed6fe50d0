//! Parsing of NVMe-oF target URIs such as
//! `nvmf://host:port/subsysnqn` into their connection parameters.

use vstd::prelude::*;
use vstd::string::StringExecFns;

verus! {

/// Errors from interpreting an NVMe-oF target URI.
#[derive(Clone, Copy, Debug, PartialEq, Eq, Structural)]
pub enum NvmeError {
    /// The string is not a parsable absolute URL.
    UrlError,
    /// The URL scheme is not an NVMe-oF scheme.
    InvalidScheme,
    /// The URL names no host.
    EmptyHost,
    /// The URL path names no subsystem.
    NoSubsystem,
}

/// Scheme, host, port and leading path segment of a parsed URL, held
/// as plain values.
pub struct UrlParts {
    /// Lower-cased scheme, without the `:` delimiter.
    pub scheme: String,
    /// Host, if the URL has one.
    pub host: Option<String>,
    /// Explicit port, if the URL names one.
    pub port: Option<u16>,
    /// First path segment, if the URL has a path; may be empty.
    pub first_segment: Option<String>,
}

/// Mathematical image of `UrlParts`.
pub ghost struct UrlPartsView {
    pub scheme: Seq<char>,
    pub host: Option<Seq<char>>,
    pub port: Option<u16>,
    pub first_segment: Option<Seq<char>>,
}

impl View for UrlParts {
    type V = UrlPartsView;

    open spec fn view(&self) -> UrlPartsView {
        UrlPartsView {
            scheme: self.scheme@,
            host: match self.host {
                Some(h) => Some(h@),
                None => None,
            },
            port: self.port,
            first_segment: match self.first_segment {
                Some(s) => Some(s@),
                None => None,
            },
        }
    }
}

/// What URL parsing yields for a string: `None` when the string is
/// not an absolute URL, otherwise the parsed URL's scheme, host, port
/// and first path segment. A function of the string alone.
pub uninterp spec fn url_parts_of(s: Seq<char>) -> Option<UrlPartsView>;

/// Relies on `url::Url::parse` and the accessors `scheme`,
/// `host_str`, `port` and `path_segments`: parsing either rejects the
/// string or yields the URL's parts, and the outcome depends on the
/// input string alone.
#[verifier::external_body]
fn parse_url(s: &str) -> (r: Option<UrlParts>)
    ensures
        match (r, url_parts_of(s@)) {
            (Some(p), Some(q)) => p@ == q,
            (None, None) => true,
            _ => false,
        },
{
    match url::Url::parse(s) {
        Ok(u) => Some(UrlParts {
            scheme: u.scheme().to_string(),
            host: u.host_str().map(|h| h.to_string()),
            port: u.port(),
            first_segment: u.path_segments().and_then(|mut it| it.next()).map(|t| t.to_string()),
        }),
        Err(_) => None,
    }
}

/// One subsystem seen while walking the fabric topology after a
/// connect: its subsystem name and the device names of its
/// namespaces, as plain values.
#[derive(Clone, Debug)]
pub struct ScannedSubsystem {
    /// The subsystem's NQN.
    pub nqn: String,
    /// Device names of the subsystem's namespaces.
    pub namespaces: Vec<String>,
}

/// The block device paths belonging to `nqn` among the scanned
/// subsystems: the namespaces of every subsystem with that name, each
/// prefixed with the device directory, in scan order.
pub open spec fn spec_device_paths(subs: Seq<ScannedSubsystem>, nqn: Seq<char>) -> Seq<Seq<char>>
    decreases subs.len(),
{
    if subs.len() == 0 {
        Seq::empty()
    } else {
        let head = if subs[0].nqn@ == nqn {
            subs[0].namespaces@.map(|i: int, ns: String| "/dev/"@ + ns@)
        } else {
            Seq::<Seq<char>>::empty()
        };
        head + spec_device_paths(subs.drop_first(), nqn)
    }
}

/// The namespace device names, each prefixed with the device
/// directory.
fn prefixed_paths(namespaces: &Vec<String>) -> (r: Vec<String>)
    ensures
        r@.map(|k: int, s: String| s@) == namespaces@.map(|i: int, ns: String| "/dev/"@ + ns@),
{
    let n = namespaces.len();
    let mut out: Vec<String> = Vec::new();
    let mut j: usize = 0;
    while j < n
        invariant
            n == namespaces@.len(),
            0 <= j <= n,
            out@.map(|k: int, s: String| s@) == namespaces@.take(j as int).map(
                |i: int, ns: String| "/dev/"@ + ns@,
            ),
        decreases n - j,
    {
        let path = String::from_str("/dev/").concat(namespaces[j].as_str());
        let ghost prev = out@;
        out.push(path);
        proof {
            assert(prev.map(|k: int, s: String| s@).len() == j as int);
            assert(prev.len() == j as int);
            assert(out@ == prev.push(path));
            let lhs = out@.map(|k: int, s: String| s@);
            let rhs = namespaces@.take(j as int + 1).map(|i: int, ns: String| "/dev/"@ + ns@);
            assert forall|k: int| 0 <= k < lhs.len() implies lhs[k] == rhs[k] by {
                if k < j as int {
                    assert(out@[k] == prev[k]);
                    assert(prev.map(|k: int, s: String| s@)[k] == namespaces@.take(j as int).map(
                        |i: int, ns: String| "/dev/"@ + ns@,
                    )[k]);
                    assert(namespaces@.take(j as int)[k] == namespaces@[k]);
                    assert(namespaces@.take(j as int + 1)[k] == namespaces@[k]);
                } else {
                    assert(out@[k] == path);
                    assert(namespaces@.take(j as int + 1)[k] == namespaces@[j as int]);
                }
            }
            assert(lhs =~= rhs);
        }
        j = j + 1;
    }
    proof {
        assert(namespaces@.take(n as int) =~= namespaces@);
    }
    out
}

/// The device paths for `nqn` among the subsystems from position `i`
/// on.
fn device_paths_from(subsystems: &Vec<ScannedSubsystem>, i: usize, nqn: &String) -> (r: Vec<
    String,
>)
    requires
        i <= subsystems@.len(),
    ensures
        r@.map(|k: int, s: String| s@) == spec_device_paths(subsystems@.skip(i as int), nqn@),
    decreases subsystems@.len() - i,
{
    if i == subsystems.len() {
        let out: Vec<String> = Vec::new();
        proof {
            assert(out@.map(|k: int, s: String| s@) =~= Seq::<Seq<char>>::empty());
            assert(subsystems@.skip(i as int) =~= Seq::<ScannedSubsystem>::empty());
        }
        out
    } else {
        let mut rest = device_paths_from(subsystems, i + 1, nqn);
        proof {
            assert(subsystems@.skip(i as int).drop_first() =~= subsystems@.skip(i as int + 1));
            assert(subsystems@.skip(i as int)[0] == subsystems@[i as int]);
        }
        if subsystems[i].nqn == *nqn {
            let mut here = prefixed_paths(&subsystems[i].namespaces);
            let ghost here_views = here@.map(|k: int, s: String| s@);
            let ghost rest_views = rest@.map(|k: int, s: String| s@);
            here.append(&mut rest);
            proof {
                assert(here@.map(|k: int, s: String| s@) =~= here_views + rest_views);
            }
            here
        } else {
            rest
        }
    }
}

impl NvmeTarget {
    /// The block device paths of the namespaces that belong to this
    /// target's subsystem, among the scanned subsystems. A caller
    /// walking the fabric topology after connecting hands the scanned
    /// subsystems in; the paths of every matching subsystem come back
    /// in scan order.
    pub fn device_paths(&self, subsystems: &Vec<ScannedSubsystem>) -> (r: Vec<String>)
        ensures
            r@.map(|k: int, s: String| s@) == spec_device_paths(subsystems@, self.subsysnqn@),
    {
        let r = device_paths_from(subsystems, 0, &self.subsysnqn);
        proof {
            assert(subsystems@.skip(0) =~= subsystems@);
        }
        r
    }
}

/// Transport type of an NVMe-oF target.
#[derive(Clone, Copy, Debug, PartialEq, Eq, Structural)]
pub enum NvmeTransportType {
    /// TCP/IP transport.
    Tcp,
}

impl NvmeTransportType {
    /// The transport string the fabric tooling expects.
    pub fn to_str(&self) -> (r: &'static str)
        ensures
            r@ == "tcp"@,
    {
        "tcp"
    }
}

/// Connection parameters of an NVMe-oF target.
#[derive(Clone, Debug)]
pub struct NvmeTarget {
    /// Network address.
    pub traddr: String,
    /// Transport service ID; for IP transports, a port number.
    pub trsvcid: u16,
    /// Name of the subsystem to connect to.
    pub subsysnqn: String,
    /// Transport type.
    pub trtype: NvmeTransportType,
}

/// Mathematical image of `NvmeTarget`.
pub ghost struct NvmeTargetView {
    pub traddr: Seq<char>,
    pub trsvcid: u16,
    pub subsysnqn: Seq<char>,
    pub trtype: NvmeTransportType,
}

impl View for NvmeTarget {
    type V = NvmeTargetView;

    open spec fn view(&self) -> NvmeTargetView {
        NvmeTargetView {
            traddr: self.traddr@,
            trsvcid: self.trsvcid,
            subsysnqn: self.subsysnqn@,
            trtype: self.trtype,
        }
    }
}

/// The target the parts of a URL denote: the scheme must be `nvmf` or
/// `nvmf+tcp`, a host must be present, the first path segment is the
/// subsystem name and must be non-empty, and a missing port defaults
/// to 4420.
pub open spec fn spec_target_from_parts(p: UrlPartsView) -> Result<NvmeTargetView, NvmeError> {
    if !(p.scheme == "nvmf"@ || p.scheme == "nvmf+tcp"@) {
        Err(NvmeError::InvalidScheme)
    } else if p.host is None {
        Err(NvmeError::EmptyHost)
    } else if p.first_segment is None || p.first_segment->Some_0.len() == 0 {
        Err(NvmeError::NoSubsystem)
    } else {
        Ok(
            NvmeTargetView {
                traddr: p.host->Some_0,
                trsvcid: match p.port {
                    Some(pt) => pt,
                    None => 4420,
                },
                subsysnqn: p.first_segment->Some_0,
                trtype: NvmeTransportType::Tcp,
            },
        )
    }
}

/// The target an NVMe-oF URI string denotes, or the error rejecting
/// it.
pub open spec fn spec_target_of(s: Seq<char>) -> Result<NvmeTargetView, NvmeError> {
    match url_parts_of(s) {
        None => Err(NvmeError::UrlError),
        Some(p) => spec_target_from_parts(p),
    }
}

impl NvmeTarget {
    /// Parse an NVMe-oF URI into the target's connection parameters.
    pub fn try_from(value: &str) -> (r: Result<NvmeTarget, NvmeError>)
        ensures
            match (r, spec_target_of(value@)) {
                (Ok(t), Ok(v)) => t@ == v,
                (Err(e), Err(f)) => e == f,
                _ => false,
            },
    {
        let parts = match parse_url(value) {
            Some(p) => p,
            None => {
                return Err(NvmeError::UrlError);
            },
        };
        Self::from_parts(parts)
    }

    /// The target the parts of a URL denote, exactly as
    /// `spec_target_from_parts` states it.
    pub fn from_parts(parts: UrlParts) -> (r: Result<NvmeTarget, NvmeError>)
        ensures
            match (r, spec_target_from_parts(parts@)) {
                (Ok(t), Ok(v)) => t@ == v,
                (Err(e), Err(f)) => e == f,
                _ => false,
            },
    {
        if !(parts.scheme == String::from_str("nvmf") || parts.scheme == String::from_str(
            "nvmf+tcp",
        )) {
            return Err(NvmeError::InvalidScheme);
        }
        let traddr = match parts.host {
            Some(h) => h,
            None => {
                return Err(NvmeError::EmptyHost);
            },
        };
        let subsysnqn = match parts.first_segment {
            Some(s) => {
                if s.as_str().is_empty() {
                    return Err(NvmeError::NoSubsystem);
                }
                s
            },
            None => {
                return Err(NvmeError::NoSubsystem);
            },
        };
        let trsvcid = match parts.port {
            Some(pt) => pt,
            None => 4420,
        };
        Ok(NvmeTarget { traddr, trsvcid, subsysnqn, trtype: NvmeTransportType::Tcp })
    }
}

} // verus!
