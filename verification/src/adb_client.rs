//! The adb client: its configuration, the adb command lines of each verb, and
//! how their output is read.

use vstd::prelude::*;
use crate::text::{
    chars_eq, chars_of, copy_range, decimal, find, find_chars, owned, push_decimal,
    push_str, string_from_chars, trim, trim_bounds,
};

verus! {

/// APK versionCode expected by upstream gnirehtet v2.5.1 — do not change lightly.
pub const REQUIRED_APK_VERSION_CODE: &'static str = "9";

/// An IP address: IPv4 octets or IPv6 segments.
#[derive(Clone, Copy, Debug, PartialEq, Eq)]
pub enum IpAddress {
    V4([u8; 4]),
    V6([u16; 8]),
}

/// The address of the adb daemon: an IP address and a port.
#[derive(Clone, Copy, Debug, PartialEq, Eq)]
pub struct AdbdAddr {
    pub ip: IpAddress,
    pub port: u16,
}

/// Configuration for ADB path, APK path, and adbd address.
#[derive(Clone, Debug)]
pub struct AdbConfig {
    pub adb_path: String,
    pub apk_path: String,
    pub adbd_addr: AdbdAddr,
}

impl AdbConfig {
    /// A configuration with the given paths and the standard adbd address
    /// `127.0.0.1:5037`.
    pub fn with_paths(adb_path: String, apk_path: String) -> (c: AdbConfig)
        ensures
            c.adb_path@ == adb_path@,
            c.apk_path@ == apk_path@,
            c.adbd_addr == (AdbdAddr { ip: IpAddress::V4([127u8, 0u8, 0u8, 1u8]), port: 5037u16 }),
    {
        AdbConfig { adb_path, apk_path, adbd_addr: AdbdAddr { ip: IpAddress::V4([127u8, 0u8, 0u8, 1u8]), port: 5037 } }
    }
}

/// VPN / reverse-tether options passed to the Android client intent.
#[derive(Clone, Debug, Default)]
pub struct VpnOptions<'a> {
    pub dns_servers: Option<&'a str>,
    pub routes: Option<&'a str>,
    pub port: u16,
}

impl<'a> VpnOptions<'a> {
    pub fn new(port: u16) -> (o: VpnOptions<'a>)
        ensures
            o.dns_servers is None,
            o.routes is None,
            o.port == port,
    {
        VpnOptions { dns_servers: None, routes: None, port }
    }
}

/// Result of `ensure_adb` — path + version line from `adb version`.
#[derive(Clone, Debug, PartialEq, Eq)]
pub struct AdbStatus {
    pub path: String,
    pub version: String,
}

/// Setting override > discovered default: the APK path to use.
pub open spec fn apk_path_choice(setting: Option<Seq<char>>, default: Seq<char>) -> Seq<char> {
    match setting {
        Some(p) => if p.len() > 0 {
            p
        } else {
            default
        },
        None => default,
    }
}

/// Resolve the APK path: a non-empty `setting` wins; otherwise `default`,
/// the path found from `GNIREHTET_APK`, a bundled file or `gnirehtet.apk`.
pub fn resolve_apk_path(setting: Option<&str>, default: &str) -> (r: String)
    ensures
        r@ == apk_path_choice(
            match setting {
                Some(s) => Some(s@),
                None => None,
            },
            default@,
        ),
{
    if let Some(p) = setting {
        if p.unicode_len() > 0 {
            return owned(p);
        }
    }
    owned(default)
}

/// The adb program: the `ADB` environment value when set, else `adb`.
pub fn adb_path_from_env(env_adb: Option<&str>) -> (r: String)
    ensures
        r@ == (match env_adb {
            Some(v) => v@,
            None => "adb"@,
        }),
{
    match env_adb {
        Some(v) => owned(v),
        None => owned("adb"),
    }
}

/// `base` joined with the relative path `rel`, as `Path::join` does on Unix:
/// a `/` goes between them unless `base` is empty or already ends with one.
pub open spec fn join_path(base: Seq<char>, rel: Seq<char>) -> Seq<char> {
    if base.len() == 0 || base.last() == '/' {
        base + rel
    } else {
        base + "/"@ + rel
    }
}

/// `base` joined with the relative path `rel`.
pub fn join_path_str(base: &str, rel: &str) -> (r: String)
    ensures
        r@ == join_path(base@, rel@),
{
    let b = chars_of(base);
    let mut out: Vec<char> = Vec::new();
    push_str(&mut out, base);
    if b.len() > 0 && b[b.len() - 1] != '/' {
        push_str(&mut out, "/");
    }
    push_str(&mut out, rel);
    assert(out@ =~= join_path(base@, rel@));
    string_from_chars(out.as_slice())
}

/// Where a bundled APK may be, in order: `resources/gnirehtet.apk` and
/// `gnirehtet.apk` (relative); the same two under the working directory;
/// then `resources/gnirehtet.apk` under the executable's directory and under
/// each of its first four ancestors (`..`, `../..`, …).
pub open spec fn apk_candidates(cwd: Option<Seq<char>>, exe_dir: Option<Seq<char>>) -> Seq<Seq<char>> {
    let fixed = seq!["resources/gnirehtet.apk"@, "gnirehtet.apk"@];
    let from_cwd = match cwd {
        Some(d) => seq![join_path(d, "resources/gnirehtet.apk"@), join_path(d, "gnirehtet.apk"@)],
        None => seq![],
    };
    let from_exe = match exe_dir {
        Some(d) => seq![
            join_path(d, "resources/gnirehtet.apk"@),
            join_path(d, "../resources/gnirehtet.apk"@),
            join_path(d, "../../resources/gnirehtet.apk"@),
            join_path(d, "../../../resources/gnirehtet.apk"@),
            join_path(d, "../../../../resources/gnirehtet.apk"@),
        ],
        None => seq![],
    };
    fixed + from_cwd + from_exe
}

/// Candidates for bundled / workspace APK (no settings store yet), given the
/// working directory and the executable's directory when they are known.
pub fn apk_search_candidates(cwd: Option<&str>, exe_dir: Option<&str>) -> (r: Vec<String>)
    ensures
        strings_view(r@) == apk_candidates(opt_view(cwd), opt_view(exe_dir)),
{
    let mut out = strings_of(&["resources/gnirehtet.apk", "gnirehtet.apk"]);
    assert(strings_view(out@) =~= seq!["resources/gnirehtet.apk"@, "gnirehtet.apk"@]);
    let ghost fixed = strings_view(out@);
    if let Some(d) = cwd {
        let a = join_path_str(d, "resources/gnirehtet.apk");
        let b = join_path_str(d, "gnirehtet.apk");
        out.push(a);
        out.push(b);
        assert(strings_view(out@) =~= fixed + seq![a@, b@]);
    }
    let ghost with_cwd = strings_view(out@);
    if let Some(d) = exe_dir {
        let rels = ["resources/gnirehtet.apk", "../resources/gnirehtet.apk", "../../resources/gnirehtet.apk", "../../../resources/gnirehtet.apk", "../../../../resources/gnirehtet.apk"];
        let mut k: usize = 0;
        while k < 5
            invariant
                k <= 5,
                rels@ == seq!["resources/gnirehtet.apk", "../resources/gnirehtet.apk", "../../resources/gnirehtet.apk", "../../../resources/gnirehtet.apk", "../../../../resources/gnirehtet.apk"],
                strings_view(out@) == with_cwd + rels@.subrange(0, k as int).map_values(|r: &str| join_path(d@, r@)),
            decreases 5 - k,
        {
            let j = join_path_str(d, rels[k]);
            let ghost before = strings_view(out@);
            out.push(j);
            assert(strings_view(out@) =~= before.push(j@));
            k = k + 1;
            assert(rels@.subrange(0, k as int).map_values(|r: &str| join_path(d@, r@)) =~= rels@.subrange(0, k - 1).map_values(|r: &str| join_path(d@, r@)).push(join_path(d@, rels@[k - 1]@)));
        }
        assert(rels@.subrange(0, 5) =~= rels@);
    }
    assert(strings_view(out@) =~= apk_candidates(opt_view(cwd), opt_view(exe_dir)));
    out
}

/// The first candidate at or after `i` that is present.
pub open spec fn first_present(cands: Seq<Seq<char>>, present: Seq<bool>, i: int) -> Option<Seq<char>>
    decreases cands.len() - i,
{
    if i < 0 || i >= cands.len() {
        None
    } else if present[i] {
        Some(cands[i])
    } else {
        first_present(cands, present, i + 1)
    }
}

/// The default APK path: the `GNIREHTET_APK` value when set, else the first
/// bundled candidate that is a file, else `gnirehtet.apk` (upstream's
/// working-directory default).
pub open spec fn default_apk(env_apk: Option<Seq<char>>, cands: Seq<Seq<char>>, present: Seq<bool>) -> Seq<char> {
    match env_apk {
        Some(v) => v,
        None => match first_present(cands, present, 0) {
            Some(c) => c,
            None => "gnirehtet.apk"@,
        },
    }
}

/// The default APK path, given the `GNIREHTET_APK` value, the candidates and
/// which of them are files.
pub fn default_apk_path(env_apk: Option<&str>, candidates: &Vec<String>, present: &Vec<bool>) -> (r: String)
    requires
        candidates.len() == present.len(),
    ensures
        r@ == default_apk(opt_view(env_apk), strings_view(candidates@), present@),
{
    if let Some(v) = env_apk {
        return owned(v);
    }
    let ghost cands = strings_view(candidates@);
    let mut k: usize = 0;
    while k < candidates.len()
        invariant
            k <= candidates.len() == present.len(),
            cands == strings_view(candidates@),
            env_apk is None,
            first_present(cands, present@, 0) == first_present(cands, present@, k as int),
        decreases candidates.len() - k,
    {
        if present[k] {
            assert(cands[k as int] == candidates@[k as int]@);
            return candidates[k].clone();
        }
        k = k + 1;
    }
    owned("gnirehtet.apk")
}

/// The arguments `adb` is given: `-s <serial>` when a serial is named, then
/// `args`.
pub open spec fn adb_args(serial: Option<Seq<char>>, args: Seq<Seq<char>>) -> Seq<Seq<char>> {
    match serial {
        Some(s) => seq!["-s"@, s] + args,
        None => args,
    }
}

/// The characters of an optional string slice.
pub open spec fn opt_view(s: Option<&str>) -> Option<Seq<char>> {
    match s {
        Some(v) => Some(v@),
        None => None,
    }
}

/// The characters of each string.
pub open spec fn strings_view(v: Seq<String>) -> Seq<Seq<char>> {
    v.map_values(|s: String| s@)
}

/// The Android package of the gnirehtet client.
pub open spec fn client_package() -> Seq<char> {
    "com.genymobile.gnirehtet"@
}

/// The arguments that install the client APK at `apk`.
pub open spec fn install_args(apk: Seq<char>) -> Seq<Seq<char>> {
    seq!["install"@, "-r"@, apk]
}

/// The arguments that uninstall the client.
pub open spec fn uninstall_args() -> Seq<Seq<char>> {
    seq!["uninstall"@, "com.genymobile.gnirehtet"@]
}

/// The arguments that reverse-tunnel the device's `localabstract:gnirehtet`
/// socket to the relay port on the host.
pub open spec fn tunnel_args(port: u16) -> Seq<Seq<char>> {
    seq!["reverse"@, "localabstract:gnirehtet"@, "tcp:"@ + decimal(port as nat)]
}

/// The arguments that start the client's VPN activity, with the DNS servers
/// and routes passed as extras when given.
pub open spec fn start_args(dns: Option<Seq<char>>, routes: Option<Seq<char>>) -> Seq<Seq<char>> {
    let base = seq![
        "shell"@,
        "am"@,
        "start"@,
        "-a"@,
        "com.genymobile.gnirehtet.START"@,
        "-n"@,
        "com.genymobile.gnirehtet/.GnirehtetActivity"@,
    ];
    let with_dns = match dns {
        Some(d) => base + seq!["--esa"@, "dnsServers"@, d],
        None => base,
    };
    match routes {
        Some(r) => with_dns + seq!["--esa"@, "routes"@, r],
        None => with_dns,
    }
}

/// The arguments that stop the client's VPN activity.
pub open spec fn stop_args() -> Seq<Seq<char>> {
    seq![
        "shell"@,
        "am"@,
        "start"@,
        "-a"@,
        "com.genymobile.gnirehtet.STOP"@,
        "-n"@,
        "com.genymobile.gnirehtet/.GnirehtetActivity"@,
    ]
}

/// The arguments that dump the installed client package.
pub open spec fn dumpsys_args() -> Seq<Seq<char>> {
    seq!["shell"@, "dumpsys"@, "package"@, "com.genymobile.gnirehtet"@]
}

/// The marker that precedes the installed versionCode in `dumpsys` output.
pub open spec fn version_code_marker() -> Seq<char> {
    "    versionCode="@
}

/// The installed client's versionCode in `dumpsys package` output: the
/// characters after the first marker, up to the next space.
pub open spec fn installed_version_code(dumpsys: Seq<char>) -> Option<Seq<char>> {
    match find(dumpsys, version_code_marker()) {
        None => None,
        Some(i) => {
            let rest = dumpsys.subrange(i + version_code_marker().len(), dumpsys.len() as int);
            match find(rest, " "@) {
                None => None,
                Some(e) => Some(rest.subrange(0, e)),
            }
        },
    }
}

/// True when the client APK is missing or its versionCode differs from
/// [`REQUIRED_APK_VERSION_CODE`].
pub open spec fn client_needs_install(dumpsys: Seq<char>) -> bool {
    match installed_version_code(dumpsys) {
        Some(code) => code != "9"@,
        None => true,
    }
}

/// Whether the `dumpsys package` output shows that the client must be
/// (re)installed.
pub fn needs_install_from_dumpsys(dumpsys: &str) -> (r: bool)
    ensures
        r == client_needs_install(dumpsys@),
{
    let v = chars_of(dumpsys);
    let marker = chars_of("    versionCode=");
    match find_chars(&v, &marker) {
        None => true,
        Some(i) => {
            let rest = copy_range(&v, i + marker.len(), v.len());
            let space = chars_of(" ");
            match find_chars(&rest, &space) {
                None => true,
                Some(e) => {
                    let code = copy_range(&rest, 0, e);
                    let required = chars_of(REQUIRED_APK_VERSION_CODE);
                    !chars_eq(&code, &required)
                },
            }
        },
    }
}

/// The first line of `s` (everything before the first `'\n'`).
pub open spec fn first_line(s: Seq<char>) -> Seq<char> {
    match find(s, "\n"@) {
        Some(i) => s.subrange(0, i),
        None => s,
    }
}

/// The version that `adb version` output reports: its first line, trimmed;
/// `adb` when the output is empty.
pub open spec fn version_from_output(out: Seq<char>) -> Seq<char> {
    if out.len() == 0 {
        "adb"@
    } else {
        trim(first_line(out))
    }
}

/// The version line of `adb version` output.
pub fn version_line(stdout: &str) -> (r: String)
    ensures
        r@ == version_from_output(stdout@),
{
    let v = chars_of(stdout);
    if v.len() == 0 {
        return owned("adb");
    }
    let nl = chars_of("\n");
    let end = match find_chars(&v, &nl) {
        Some(i) => i,
        None => v.len(),
    };
    assert(v@.subrange(0, v.len() as int) =~= v@);
    let (lo, hi) = trim_bounds(&v, 0, end);
    string_from_chars(copy_range(&v, lo, hi).as_slice())
}

/// The strings of a list of literal pieces.
pub fn strings_of(pieces: &[&str]) -> (r: Vec<String>)
    ensures
        strings_view(r@) == pieces@.map_values(|s: &str| s@),
{
    let mut r: Vec<String> = Vec::new();
    let mut k: usize = 0;
    while k < pieces.len()
        invariant
            k <= pieces.len(),
            strings_view(r@) == pieces@.subrange(0, k as int).map_values(|s: &str| s@),
        decreases pieces.len() - k,
    {
        let ghost before = r@;
        r.push(owned(pieces[k]));
        assert(strings_view(r@) =~= strings_view(before).push(pieces@[k as int]@));
        k = k + 1;
        assert(pieces@.subrange(0, k as int).map_values(|s: &str| s@) =~= pieces@.subrange(
            0,
            k - 1,
        ).map_values(|s: &str| s@).push(pieces@[k - 1]@));
    }
    assert(pieces@.subrange(0, pieces.len() as int) =~= pieces@);
    r
}

/// The arguments of [`tunnel_args`].
pub fn tunnel_args_vec(port: u16) -> (r: Vec<String>)
    ensures
        strings_view(r@) == tunnel_args(port),
{
    let mut r = strings_of(&["reverse", "localabstract:gnirehtet"]);
    let mut tcp: Vec<char> = Vec::new();
    push_str(&mut tcp, "tcp:");
    push_decimal(port as u64, &mut tcp);
    let ghost before = r@;
    assert(strings_view(before) =~= seq!["reverse"@, "localabstract:gnirehtet"@]);
    let t = string_from_chars(tcp.as_slice());
    r.push(t);
    assert(strings_view(r@) =~= strings_view(before).push(t@));
    assert(strings_view(r@) =~= tunnel_args(port));
    r
}

/// The arguments of [`start_args`].
pub fn start_args_vec(dns: Option<&str>, routes: Option<&str>) -> (r: Vec<String>)
    ensures
        strings_view(r@) == start_args(opt_view(dns), opt_view(routes)),
{
    let mut r = strings_of(
        &[
            "shell",
            "am",
            "start",
            "-a",
            "com.genymobile.gnirehtet.START",
            "-n",
            "com.genymobile.gnirehtet/.GnirehtetActivity",
        ],
    );
    let ghost base = strings_view(r@);
    if let Some(d) = dns {
        r.push(owned("--esa"));
        r.push(owned("dnsServers"));
        r.push(owned(d));
    }
    let ghost with_dns = strings_view(r@);
    assert(with_dns =~= match opt_view(dns) {
        Some(d) => base + seq!["--esa"@, "dnsServers"@, d],
        None => base,
    });
    if let Some(rt) = routes {
        r.push(owned("--esa"));
        r.push(owned("routes"));
        r.push(owned(rt));
    }
    assert(strings_view(r@) =~= match opt_view(routes) {
        Some(x) => with_dns + seq!["--esa"@, "routes"@, x],
        None => with_dns,
    });
    r
}

/// The arguments of [`dumpsys_args`].
pub fn dumpsys_args_vec() -> (r: Vec<String>)
    ensures
        strings_view(r@) == dumpsys_args(),
{
    let r = strings_of(&["shell", "dumpsys", "package", "com.genymobile.gnirehtet"]);
    assert(strings_view(r@) =~= dumpsys_args());
    r
}

/// The arguments of [`stop_args`].
pub fn stop_args_vec() -> (r: Vec<String>)
    ensures
        strings_view(r@) == stop_args(),
{
    let r = strings_of(
        &[
            "shell",
            "am",
            "start",
            "-a",
            "com.genymobile.gnirehtet.STOP",
            "-n",
            "com.genymobile.gnirehtet/.GnirehtetActivity",
        ],
    );
    assert(strings_view(r@) =~= stop_args());
    r
}

/// Reusable ADB orchestration API (install / start / stop / tunnel / …).
#[derive(Clone, Debug)]
pub struct AdbClient {
    config: AdbConfig,
}

impl AdbClient {
    pub closed spec fn config_view(&self) -> AdbConfig {
        self.config
    }

    pub fn new(config: AdbConfig) -> (c: AdbClient)
        ensures
            c.config_view() == config,
    {
        AdbClient { config }
    }

    pub fn config(&self) -> (r: &AdbConfig)
        ensures
            *r == self.config_view(),
    {
        &self.config
    }

    pub fn adb_path(&self) -> (r: &str)
        ensures
            r@ == self.config_view().adb_path@,
    {
        self.config.adb_path.as_str()
    }

    pub fn apk_path(&self) -> (r: &str)
        ensures
            r@ == self.config_view().apk_path@,
    {
        self.config.apk_path.as_str()
    }

    /// `-s <serial>` (when a serial is named) followed by `args`.
    pub fn create_adb_args(&self, serial: Option<&str>, args: Vec<String>) -> (r: Vec<String>)
        ensures
            strings_view(r@) == adb_args(opt_view(serial), strings_view(args@)),
    {
        let mut command: Vec<String> = Vec::new();
        if let Some(s) = serial {
            command.push(owned("-s"));
            command.push(owned(s));
        }
        let ghost prefix = strings_view(command@);
        let mut k: usize = 0;
        while k < args.len()
            invariant
                k <= args.len(),
                strings_view(command@) == prefix + strings_view(args@.subrange(0, k as int)),
            decreases args.len() - k,
        {
            let ghost before = command@;
            command.push(args[k].clone());
            k = k + 1;
            assert(strings_view(args@.subrange(0, k as int)) =~= strings_view(
                args@.subrange(0, k - 1),
            ).push(args@[k - 1]@));
            assert(strings_view(command@) =~= strings_view(before).push(args@[k - 1]@));
        }
        assert(args@.subrange(0, args.len() as int) =~= args@);
        assert(strings_view(command@) =~= adb_args(opt_view(serial), strings_view(args@)));
        command
    }
}

} // verus!
