//! The worker's one setting, and the conventions it runs by.
use crate::error::WorkerError;
use crate::net::{dotted, dotted_text, SocketAddress};
use crate::text::{debug_text, decimal, decimal_text, quoted, text_eq};
use crate::url::{parse_url, parse_view, parsed_url, ParsedUrl};
use vstd::prelude::*;

verus! {

/// Where the shared home volume is mounted.
pub const CODEX_HOME_ROOT: &'static str = "/codex-home";

/// The port that the worker listens on.
pub const WORKER_PORT: u16 = 8080;

/// Seconds between two heartbeats.
pub const HEARTBEAT_INTERVAL_SECS: u64 = 10;

/// Seconds after which a request to the control plane is given up.
pub const CONTROL_PLANE_TIMEOUT_SECS: u64 = 5;

/// Seconds that the embedded app-server has to stop.
pub const SHUTDOWN_GRACE_SECS: u64 = 10;

/// How many heartbeats in a row may fail before the lease counts as lost.
pub const MAX_MISSED_HEARTBEATS: u32 = 3;

/// The longest shard id that is accepted.
pub const MAX_HOME_SHARD_ID_LEN: usize = 128;

/// The settings of the worker.
#[derive(Debug)]
pub struct Config {
    /// The base URL of the control plane.
    pub control_plane_url: String,
}

/// An ASCII letter or digit, `-` or `_`.
pub open spec fn is_shard_char(c: char) -> bool {
    ||| 'a' <= c <= 'z'
    ||| 'A' <= c <= 'Z'
    ||| '0' <= c <= '9'
    ||| c == '-'
    ||| c == '_'
}

/// A shard id: one to 128 characters, each an ASCII letter or digit, `-` or `_`.
pub open spec fn valid_home_shard_id(value: Seq<char>) -> bool {
    &&& 0 < value.len() <= MAX_HOME_SHARD_ID_LEN
    &&& forall|i: int| 0 <= i < value.len() ==> is_shard_char(#[trigger] value[i])
}

/// The home directory of a shard.
pub open spec fn home_path(home_shard_id: Seq<char>) -> Seq<char> {
    CODEX_HOME_ROOT@ + "/"@ + home_shard_id
}

/// Any IPv4 address, at the worker's port.
pub open spec fn is_bind_addr(addr: SocketAddress) -> bool {
    addr matches SocketAddress::V4 { octets, port } && octets@ == seq![0u8, 0u8, 0u8, 0u8] && port
        == WORKER_PORT
}

/// Where the worker listens, in writing.
pub open spec fn bind_text() -> Seq<char> {
    dotted(seq![0u8, 0u8, 0u8, 0u8]) + ":"@ + decimal(WORKER_PORT as nat)
}

/// An HTTP or HTTPS URL with a host.
pub open spec fn usable_url(url: (Seq<char>, Option<Seq<char>>, Option<u16>)) -> bool {
    (url.0 == "http"@ || url.0 == "https"@) && url.1 is Some
}

/// What is answered to a control-plane URL, given what parsing it returned.
pub open spec fn url_verdict(
    parsed: Result<(Seq<char>, Option<Seq<char>>, Option<u16>), Seq<char>>,
    r: Result<(), WorkerError>,
) -> bool {
    match parsed {
        Err(reason) => r matches Err(WorkerError::InvalidControlPlaneUrl { reason: told })
            && told@ == reason,
        Ok(url) => if usable_url(url) {
            r is Ok
        } else {
            r == Err::<(), WorkerError>(WorkerError::ControlPlaneUrlNotHttp)
        },
    }
}

/// What is answered to a shard id.
pub open spec fn shard_id_error(value: Seq<char>, error: WorkerError) -> bool {
    error matches WorkerError::InvalidHomeShardId { quoted } && quoted@ == debug_text(value)
}

/// Accepts an HTTP or HTTPS URL with a host, given what parsing it returned.
pub fn check_control_plane_url(parsed: &Result<ParsedUrl, String>) -> (r: Result<
    (),
    WorkerError,
>)
    ensures
        url_verdict(parse_view(*parsed), r),
{
    match parsed {
        Err(reason) => Err(WorkerError::InvalidControlPlaneUrl { reason: reason.clone() }),
        Ok(url) => {
            let http: bool = text_eq(url.scheme.as_str(), "http") || text_eq(
                url.scheme.as_str(),
                "https",
            );
            if !http || url.host.is_none() {
                Err(WorkerError::ControlPlaneUrlNotHttp)
            } else {
                Ok(())
            }
        },
    }
}

fn shard_byte(byte: u8) -> (r: bool)
    requires
        byte < 128,
    ensures
        r == is_shard_char(byte as char),
{
    (97 <= byte && byte <= 122) || (65 <= byte && byte <= 90) || (48 <= byte && byte <= 57) || byte
        == 45 || byte == 95
}

/// Accepts the shard ids that are safe as a directory name.
pub fn validate_home_shard_id(value: &str) -> (r: Result<(), WorkerError>)
    ensures
        match r {
            Ok(_) => valid_home_shard_id(value@),
            Err(error) => !valid_home_shard_id(value@) && shard_id_error(value@, error),
        },
{
    let mut valid: bool = value.is_ascii();
    proof {
        if !valid {
            let bad = choose|i: int|
                0 <= i < value@.len() && !('\0' <= #[trigger] value@[i] <= '\u{7f}');
            assert(!is_shard_char(value@[bad]));
        }
    }
    if valid {
        broadcast use vstd::string::is_ascii_spec_bytes;

        let bytes = value.as_bytes();
        let len: usize = bytes.len();
        proof {
            assert(bytes@ =~= Seq::new(value@.len(), |i: int| value@[i] as u8));
        }
        if len == 0 || len > MAX_HOME_SHARD_ID_LEN {
            valid = false;
        }
        let mut i: usize = 0;
        while valid && i < len
            invariant
                i <= len,
                len == value@.len(),
                bytes@ == Seq::new(value@.len(), |i: int| value@[i] as u8),
                vstd::string::is_ascii(value),
                valid ==> 0 < len <= MAX_HOME_SHARD_ID_LEN,
                valid ==> forall|j: int| 0 <= j < i ==> is_shard_char(#[trigger] value@[j]),
                !valid ==> !valid_home_shard_id(value@),
            decreases len - i,
        {
            let byte: u8 = bytes[i];
            proof {
                assert(byte == value@[i as int] as u8);
                assert(byte as char == value@[i as int]);
            }
            if !shard_byte(byte) {
                valid = false;
            }
            i = i + 1;
        }
    }
    if valid {
        Ok(())
    } else {
        Err(WorkerError::InvalidHomeShardId { quoted: quoted(value) })
    }
}

impl Clone for Config {
    fn clone(&self) -> (r: Self)
        ensures
            r == *self,
    {
        Config { control_plane_url: self.control_plane_url.clone() }
    }
}

impl Config {
    /// Accepts a control-plane URL that is an absolute HTTP or HTTPS URL.
    pub fn validate(&self) -> (r: Result<(), WorkerError>)
        ensures
            url_verdict(parsed_url(self.control_plane_url@), r),
    {
        let parsed = parse_url(self.control_plane_url.as_str());
        check_control_plane_url(&parsed)
    }

    /// The home directory of a shard, directly below the root of the home volume.
    pub fn codex_home(&self, home_shard_id: &str) -> (r: Result<String, WorkerError>)
        ensures
            match r {
                Ok(path) => valid_home_shard_id(home_shard_id@) && path@ == home_path(
                    home_shard_id@,
                ),
                Err(error) => !valid_home_shard_id(home_shard_id@) && shard_id_error(
                    home_shard_id@,
                    error,
                ),
            },
    {
        match validate_home_shard_id(home_shard_id) {
            Ok(_) => Ok(CODEX_HOME_ROOT.to_owned().concat("/").concat(home_shard_id)),
            Err(error) => Err(error),
        }
    }

    /// Where the worker listens: every interface.
    pub fn bind_addr(&self) -> (r: SocketAddress)
        ensures
            is_bind_addr(r),
    {
        let octets: [u8; 4] = [0, 0, 0, 0];
        proof {
            assert(octets@ =~= seq![0u8, 0u8, 0u8, 0u8]);
        }
        SocketAddress::V4 { octets, port: WORKER_PORT }
    }

    /// Where the worker listens, in writing.
    pub fn bind_addr_text(&self) -> (r: String)
        ensures
            r@ == bind_text(),
    {
        let octets: [u8; 4] = [0, 0, 0, 0];
        proof {
            assert(octets@ =~= seq![0u8, 0u8, 0u8, 0u8]);
        }
        dotted_text(&octets).concat(":").concat(decimal_text(WORKER_PORT as u64).as_str())
    }

    /// Seconds between two heartbeats.
    pub fn heartbeat_interval(&self) -> (r: u64)
        ensures
            r == HEARTBEAT_INTERVAL_SECS,
    {
        HEARTBEAT_INTERVAL_SECS
    }

    /// Seconds after which a request to the control plane is given up.
    pub fn control_plane_timeout(&self) -> (r: u64)
        ensures
            r == CONTROL_PLANE_TIMEOUT_SECS,
    {
        CONTROL_PLANE_TIMEOUT_SECS
    }

    /// Seconds that the embedded app-server has to stop.
    pub fn shutdown_grace(&self) -> (r: u64)
        ensures
            r == SHUTDOWN_GRACE_SECS,
    {
        SHUTDOWN_GRACE_SECS
    }
}

/// The home directory of a shard lies directly below the root of the home volume: the rest of its
/// path is one name, neither empty nor `.` nor `..`.
pub proof fn law_home_is_confined_to_the_root(home_shard_id: Seq<char>)
    requires
        valid_home_shard_id(home_shard_id),
    ensures
        (CODEX_HOME_ROOT@ + "/"@).is_prefix_of(home_path(home_shard_id)),
        home_path(home_shard_id).skip((CODEX_HOME_ROOT@ + "/"@).len() as int) == home_shard_id,
        home_shard_id.len() > 0,
        !home_shard_id.contains('/'),
        home_shard_id != "."@,
        home_shard_id != ".."@,
{
    let root = CODEX_HOME_ROOT@ + "/"@;
    assert(home_path(home_shard_id) == root + home_shard_id);
    assert(home_path(home_shard_id).skip(root.len() as int) =~= home_shard_id);
    assert forall|i: int| 0 <= i < home_shard_id.len() implies #[trigger] home_shard_id[i] != '/'
        && home_shard_id[i] != '.' by {
        assert(is_shard_char(home_shard_id[i]));
    }
    reveal_strlit(".");
    reveal_strlit("..");
    assert("."@[0] == '.' && ".."@[0] == '.');
    assert(home_shard_id[0] != '.');
}

/// Two shards never share a home directory.
pub proof fn law_homes_are_distinct(a: Seq<char>, b: Seq<char>)
    requires
        home_path(a) == home_path(b),
    ensures
        a == b,
{
    let root = CODEX_HOME_ROOT@ + "/"@;
    assert(home_path(a) == root + a && home_path(b) == root + b);
    assert((root + a).skip(root.len() as int) =~= a);
    assert((root + b).skip(root.len() as int) =~= b);
}

/// A shard id is accepted exactly where it has one to 128 characters, each of them an ASCII digit, an
/// ASCII letter, `-` or `_`, told by its code.
pub proof fn law_shard_id_is_told_by_its_characters(value: Seq<char>)
    ensures
        valid_home_shard_id(value) <==> 1 <= value.len() <= 128 && forall|i: int|
            0 <= i < value.len() ==> ({
                let code = #[trigger] value[i] as int;
                48 <= code <= 57 || 65 <= code <= 90 || 97 <= code <= 122 || code == 45 || code == 95
            }),
{
    if valid_home_shard_id(value) {
        assert forall|i: int| 0 <= i < value.len() implies ({
            let code = #[trigger] value[i] as int;
            48 <= code <= 57 || 65 <= code <= 90 || 97 <= code <= 122 || code == 45 || code == 95
        }) by {
            assert(is_shard_char(value[i]));
        }
    }
}

/// The home directory of a shard is the root of the home volume, one slash and the whole id: it is as
/// long as these together, and the id can be read back off it.
pub proof fn law_home_names_the_whole_shard(home_shard_id: Seq<char>)
    ensures
        home_path(home_shard_id).len() == "/codex-home/"@.len() + home_shard_id.len(),
        home_path(home_shard_id).take("/codex-home/"@.len() as int) == "/codex-home/"@,
        home_path(home_shard_id).skip("/codex-home/"@.len() as int) == home_shard_id,
{
    reveal_strlit("/codex-home");
    reveal_strlit("/");
    reveal_strlit("/codex-home/");
    assert("/codex-home"@ + "/"@ =~= "/codex-home/"@);
    let root = "/codex-home/"@;
    assert(home_path(home_shard_id) =~= root + home_shard_id);
    assert((root + home_shard_id).take(root.len() as int) =~= root);
    assert((root + home_shard_id).skip(root.len() as int) =~= home_shard_id);
}

/// A shard id that is refused is reported as it was, quoted; one and the same report never stands for
/// anything else.
pub proof fn law_refused_shard_id_is_reported(value: Seq<char>, error: WorkerError)
    ensures
        shard_id_error(value, error) <==> (error matches WorkerError::InvalidHomeShardId { quoted }
            && quoted@ == debug_text(value)),
{
}

/// A control-plane URL is accepted exactly where it parses, its scheme is `http` or `https`, and it
/// has a host, whatever its host and its port are. A text that does not parse is refused in the
/// parser's own words; any other refused URL for not being an HTTP URL.
pub proof fn law_http_urls_are_accepted(
    parsed: Result<(Seq<char>, Option<Seq<char>>, Option<u16>), Seq<char>>,
    r: Result<(), WorkerError>,
)
    requires
        url_verdict(parsed, r),
    ensures
        r is Ok <==> (parsed matches Ok(url) && (url.0 == "http"@ || url.0 == "https"@) && url.1
            is Some),
        parsed matches Err(words) ==> (r matches Err(WorkerError::InvalidControlPlaneUrl { reason })
            && reason@ == words),
        parsed is Ok && r is Err ==> r == Err::<(), WorkerError>(
            WorkerError::ControlPlaneUrlNotHttp,
        ),
{
}

/// The worker listens at port 8080 of every IPv4 interface, and says so.
pub proof fn law_worker_listens_on_every_interface(addr: SocketAddress)
    ensures
        is_bind_addr(addr) <==> (addr matches SocketAddress::V4 { octets, port } && port == 8080
            && octets@[0] == 0 && octets@[1] == 0 && octets@[2] == 0 && octets@[3] == 0),
        bind_text() == dotted(seq![0u8, 0u8, 0u8, 0u8]) + ":"@ + decimal(8080),
{
    if let SocketAddress::V4 { octets, port } = addr {
        if octets@[0] == 0 && octets@[1] == 0 && octets@[2] == 0 && octets@[3] == 0 {
            assert(octets@ =~= seq![0u8, 0u8, 0u8, 0u8]);
        }
    }
}

} // verus!
