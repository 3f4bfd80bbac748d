use vstd::prelude::*;

use crate::text::{decimal, decimal_text, trim_text};

verus! {

/// The port that dsh's web server listens on, on 127.0.0.1.
pub const DSH_PORT: u16 = 3080;

/// The port that the LAN forwarder listens on.
pub const FORWARD_PORT: u16 = 8787;

/// Whether an IPv4 address lies in a private range: 10/8, 172.16/12 or 192.168/16.
pub open spec fn is_private_ipv4(o: [u8; 4]) -> bool {
    ||| o[0] == 10
    ||| (o[0] == 172 && 16 <= o[1] <= 31)
    ||| (o[0] == 192 && o[1] == 168)
}

/// Whether an IPv4 address lies in Tailscale's range 100.64/10.
pub open spec fn is_tailscale_ipv4(o: [u8; 4]) -> bool {
    o[0] == 100 && 64 <= o[1] <= 127
}

/// Whether an address is one that the phone on the same LAN can reach: private, and not a
/// Tailscale address.
pub open spec fn is_lan_ipv4(o: [u8; 4]) -> bool {
    is_private_ipv4(o) && !is_tailscale_ipv4(o)
}

/// The first LAN IPv4 address among the addresses of the network interfaces, in their order;
/// `None` stands for an interface address that is not IPv4.
pub open spec fn first_lan_ipv4(addrs: Seq<Option<[u8; 4]>>) -> Option<[u8; 4]>
    decreases addrs.len(),
{
    if addrs.len() == 0 {
        None
    } else if addrs[0] matches Some(o) && is_lan_ipv4(o) {
        addrs[0]
    } else {
        first_lan_ipv4(addrs.drop_first())
    }
}

/// Whether `o` is a LAN IPv4 address (private, not Tailscale).
pub fn is_lan_address(o: [u8; 4]) -> (r: bool)
    ensures
        r == is_lan_ipv4(o),
{
    let is_private = o[0] == 10 || (o[0] == 172 && 16 <= o[1] && o[1] <= 31) || (o[0] == 192
        && o[1] == 168);
    let is_tailscale = o[0] == 100 && 64 <= o[1] && o[1] <= 127;
    is_private && !is_tailscale
}

/// Picks the current LAN IPv4 address from the interfaces' addresses, in their order: the
/// first that is private and not in Tailscale's range.
pub fn lan_ipv4(addrs: &Vec<Option<[u8; 4]>>) -> (r: Option<[u8; 4]>)
    ensures
        r == first_lan_ipv4(addrs@),
{
    let mut i: usize = 0;
    assert(addrs@.subrange(0, addrs@.len() as int) =~= addrs@);
    while i < addrs.len()
        invariant
            i <= addrs@.len(),
            first_lan_ipv4(addrs@) == first_lan_ipv4(addrs@.subrange(i as int, addrs@.len() as int)),
        decreases addrs@.len() - i,
    {
        let ghost rest = addrs@.subrange(i as int, addrs@.len() as int);
        assert(rest.drop_first() =~= addrs@.subrange(i + 1, addrs@.len() as int));
        assert(rest[0] == addrs@[i as int]);
        if let Some(o) = addrs[i] {
            if is_lan_address(o) {
                return Some(o);
            }
        }
        i = i + 1;
    }
    None
}

/// The dotted decimal text of an IPv4 address, as `Ipv4Addr`'s `Display` writes it.
pub open spec fn ipv4_text(o: [u8; 4]) -> Seq<char> {
    decimal_text(o[0] as nat) + "."@ + decimal_text(o[1] as nat) + "."@ + decimal_text(
        o[2] as nat,
    ) + "."@ + decimal_text(o[3] as nat)
}

/// Writes an IPv4 address in dotted decimal.
pub fn ipv4_to_string(o: [u8; 4]) -> (r: String)
    ensures
        r@ == ipv4_text(o),
{
    decimal(o[0] as u64).concat(".").concat(decimal(o[1] as u64).as_str()).concat(".").concat(
        decimal(o[2] as u64).as_str(),
    ).concat(".").concat(decimal(o[3] as u64).as_str())
}

/// The address at which phones reach the LAN forwarder.
pub open spec fn forwarder_address_text(ip: [u8; 4], port: u16) -> Seq<char> {
    "https://"@ + ipv4_text(ip) + ":"@ + decimal_text(port as nat)
}


/// What starting dsh comes to.
#[derive(PartialEq, Eq, Structural, Clone, Copy, Debug)]
pub enum StartAction {
    /// A dsh process is already held: nothing to do.
    AlreadyRunning,
    /// No dsh process is held: spawn one and hand it to `attach_dsh`.
    SpawnDsh,
}

/// What switching the LAN forwarder comes to.
pub enum ForwarderAction<H> {
    /// The forwarder was switched off; the process it held, if any, is handed back to be
    /// killed.
    Stopped(Option<H>),
    /// The forwarder was switched on and already runs: nothing to do.
    AlreadyRunning,
    /// The forwarder was switched on and does not run: spawn it and hand it to
    /// `attach_forwarder`.
    SpawnForwarder,
}

/// Keeps the dsh web server process and the LAN forwarder process, each at most one, with
/// the paths they are started from. `H` is the handle of a running process.
pub struct DshManager<H> {
    dsh: Option<H>,
    forwarder: Option<H>,
    node: String,
    entry: String,
    log: String,
    cert_dir: String,
    forward_port: u16,
}

impl<H> DshManager<H> {
    /// The dsh process held, if any.
    pub closed spec fn dsh_process(&self) -> Option<H> {
        self.dsh
    }

    /// The forwarder process held, if any.
    pub closed spec fn forwarder_process(&self) -> Option<H> {
        self.forwarder
    }

    /// The node executable, dsh's entry script, the log file and the forwarder's certificate
    /// directory, in that order.
    pub closed spec fn paths(&self) -> (Seq<char>, Seq<char>, Seq<char>, Seq<char>) {
        (self.node@, self.entry@, self.log@, self.cert_dir@)
    }

    /// The port the forwarder listens on.
    pub closed spec fn port(&self) -> u16 {
        self.forward_port
    }

    /// The two processes, dsh first, those that are held.
    pub open spec fn held_processes(&self) -> Seq<H> {
        let d = match self.dsh_process() {
            Some(h) => seq![h],
            None => Seq::<H>::empty(),
        };
        let f = match self.forwarder_process() {
            Some(h) => seq![h],
            None => Seq::<H>::empty(),
        };
        d + f
    }

    /// What `start` decides in a state.
    pub open spec fn start_decision(&self) -> StartAction {
        if self.dsh_process() is Some {
            StartAction::AlreadyRunning
        } else {
            StartAction::SpawnDsh
        }
    }

    /// A manager that holds no process. `node` is the node executable, `entry` dsh's
    /// `bin.js`, `log` the file the processes log to, `cert_dir` the forwarder's certificate
    /// directory; the forwarder listens on port 8787.
    pub fn new(node: String, entry: String, log: String, cert_dir: String) -> (r: Self)
        ensures
            r.dsh_process() is None,
            r.forwarder_process() is None,
            r.paths() == (node@, entry@, log@, cert_dir@),
            r.port() == FORWARD_PORT,
    {
        DshManager { dsh: None, forwarder: None, node, entry, log, cert_dir, forward_port: 8787 }
    }

    /// Starts dsh (the forwarder is switched separately, off by default): spawns it unless a
    /// dsh process is already held.
    pub fn start(&self) -> (r: StartAction)
        ensures
            r == self.start_decision(),
    {
        if self.dsh.is_some() {
            StartAction::AlreadyRunning
        } else {
            StartAction::SpawnDsh
        }
    }

    /// Holds the dsh process that was just spawned.
    pub fn attach_dsh(&mut self, h: H)
        requires
            old(self).dsh_process() is None,
        ensures
            final(self).dsh_process() == Some(h),
            final(self).forwarder_process() == old(self).forwarder_process(),
            final(self).paths() == old(self).paths(),
            final(self).port() == old(self).port(),
    {
        self.dsh = Some(h);
    }

    /// Holds the forwarder process that was just spawned.
    pub fn attach_forwarder(&mut self, h: H)
        requires
            old(self).forwarder_process() is None,
        ensures
            final(self).forwarder_process() == Some(h),
            final(self).dsh_process() == old(self).dsh_process(),
            final(self).paths() == old(self).paths(),
            final(self).port() == old(self).port(),
    {
        self.forwarder = Some(h);
    }

    fn take_all(&mut self) -> (r: Vec<H>)
        ensures
            r@ == old(self).held_processes(),
            final(self).dsh_process() is None,
            final(self).forwarder_process() is None,
            final(self).paths() == old(self).paths(),
            final(self).port() == old(self).port(),
    {
        let mut r: Vec<H> = Vec::new();
        if let Some(h) = self.dsh.take() {
            r.push(h);
        }
        if let Some(h) = self.forwarder.take() {
            r.push(h);
        }
        proof {
            assert(r@ =~= old(self).held_processes());
        }
        r
    }

    /// Stops dsh and the forwarder (before the runtime is updated or replaced, to release its
    /// files): hands back the processes held, dsh first, to be killed with their trees, and
    /// holds none.
    pub fn stop(&mut self) -> (r: Vec<H>)
        ensures
            r@ == old(self).held_processes(),
            final(self).dsh_process() is None,
            final(self).forwarder_process() is None,
            final(self).paths() == old(self).paths(),
            final(self).port() == old(self).port(),
    {
        self.take_all()
    }

    /// Stops dsh and the forwarder without waiting for them (on quitting from the tray):
    /// hands back the processes held, dsh first, to be killed by a detached process, and
    /// holds none.
    pub fn stop_detached(&mut self) -> (r: Vec<H>)
        ensures
            r@ == old(self).held_processes(),
            final(self).dsh_process() is None,
            final(self).forwarder_process() is None,
            final(self).paths() == old(self).paths(),
            final(self).port() == old(self).port(),
    {
        self.take_all()
    }

    /// Restarts dsh (after an update, or for plugins to take effect): hands back the dsh
    /// process held, if any, to be killed with its tree before the port is waited free, after
    /// which a new dsh is always spawned. The forwarder is left as it is.
    pub fn restart(&mut self) -> (r: Option<H>)
        ensures
            r == old(self).dsh_process(),
            final(self).dsh_process() is None,
            final(self).start_decision() == StartAction::SpawnDsh,
            final(self).forwarder_process() == old(self).forwarder_process(),
            final(self).paths() == old(self).paths(),
            final(self).port() == old(self).port(),
    {
        self.dsh.take()
    }

    /// Whether the forwarder runs.
    pub fn forwarder_running(&self) -> (r: bool)
        ensures
            r == self.forwarder_process() is Some,
    {
        self.forwarder.is_some()
    }

    /// Switches the LAN forwarder: off hands back its process to be killed; on spawns it
    /// unless it already runs.
    pub fn set_forwarder(&mut self, enabled: bool) -> (r: ForwarderAction<H>)
        ensures
            !enabled ==> r == ForwarderAction::Stopped(old(self).forwarder_process()),
            !enabled ==> final(self).forwarder_process() is None,
            enabled && old(self).forwarder_process() is Some ==> r
                == ForwarderAction::<H>::AlreadyRunning,
            enabled && old(self).forwarder_process() is None ==> r
                == ForwarderAction::<H>::SpawnForwarder,
            enabled ==> final(self).forwarder_process() == old(self).forwarder_process(),
            final(self).dsh_process() == old(self).dsh_process(),
            final(self).paths() == old(self).paths(),
            final(self).port() == old(self).port(),
    {
        if !enabled {
            ForwarderAction::Stopped(self.forwarder.take())
        } else if self.forwarder.is_some() {
            ForwarderAction::AlreadyRunning
        } else {
            ForwarderAction::SpawnForwarder
        }
    }

    /// The connection details of a running forwarder: its address on the LAN address `ip`,
    /// and the access token.
    pub fn forwarder_link(&self, ip: [u8; 4], token: String) -> (r: (String, String))
        ensures
            r.0@ == forwarder_address_text(ip, self.port()),
            r.1@ == token@,
    {
        let base = String::from_str("https://").concat(ipv4_to_string(ip).as_str()).concat(
            ":",
        ).concat(decimal(self.forward_port as u64).as_str());
        (base, token)
    }

    /// The node executable.
    pub fn node(&self) -> (r: &String)
        ensures
            r@ == self.paths().0,
    {
        &self.node
    }

    /// dsh's entry script.
    pub fn entry(&self) -> (r: &String)
        ensures
            r@ == self.paths().1,
    {
        &self.entry
    }

    /// The log file of both processes.
    pub fn log(&self) -> (r: &String)
        ensures
            r@ == self.paths().2,
    {
        &self.log
    }

    /// The forwarder's certificate directory.
    pub fn cert_dir(&self) -> (r: &String)
        ensures
            r@ == self.paths().3,
    {
        &self.cert_dir
    }

    /// The arguments that node runs dsh's web server with: its entry script, `web`, and
    /// `--no-open`, so that dsh does not open the system browser (this shell's window shows
    /// the UI); dsh keeps its default 127.0.0.1 binding.
    pub fn dsh_args(&self) -> (r: Vec<String>)
        ensures
            r@.len() == 3,
            r@[0]@ == self.paths().1,
            r@[1]@ == "web"@,
            r@[2]@ == "--no-open"@,
    {
        let mut r: Vec<String> = Vec::new();
        r.push(self.entry.clone());
        r.push(String::from_str("web"));
        r.push(String::from_str("--no-open"));
        r
    }
}


/// The hexadecimal digits that an access token is made of.
pub open spec fn token_digits() -> Seq<char> {
    seq!['0', '1', '2', '3', '4', '5', '6', '7', '8', '9', 'a', 'b', 'c', 'd', 'e', 'f']
}

/// How many digits a new access token has.
pub const TOKEN_LEN: usize = 32;

/// Calls `rand::RngCore::try_fill_bytes` on `rand::rngs::OsRng` (the operating system's random
/// source) for `n` bytes. Claimed: where it succeeds, `n` bytes come back. Which bytes come is
/// left unsaid: they are random; and so is whether the source answers.
#[verifier::external_body]
fn random_bytes(n: usize) -> (r: Option<Vec<u8>>)
    ensures
        r matches Some(v) ==> v@.len() == n,
{
    let mut buf = vec![0u8; n];
    match rand::RngCore::try_fill_bytes(&mut rand::rngs::OsRng, &mut buf) {
        Ok(()) => Some(buf),
        Err(_) => None,
    }
}

/// The token whose digits are the low four bits of the given bytes, in hexadecimal.
pub fn token_from_bytes(bytes: &Vec<u8>) -> (r: String)
    ensures
        r@.len() == bytes@.len(),
        forall|i: int| 0 <= i < bytes@.len() ==> r@[i] == token_digits()[(bytes@[i] % 16) as int],
{
    let table = "0123456789abcdef";
    proof {
        reveal_strlit("0123456789abcdef");
    }
    assert(table@ =~= token_digits());
    let mut r = String::new();
    let mut k: usize = 0;
    while k < bytes.len()
        invariant
            k <= bytes@.len(),
            table@ == token_digits(),
            r@.len() == k,
            forall|i: int| 0 <= i < k ==> r@[i] == token_digits()[(bytes@[i] % 16) as int],
        decreases bytes@.len() - k,
    {
        let d = (bytes[k] % 16) as usize;
        let digit = table.substring_char(d, d + 1);
        r.append(digit);
        k = k + 1;
    }
    r
}

/// A new access token for the forwarder: 32 random lowercase hexadecimal digits, each drawn
/// from the operating system's random source; `None` where that source does not answer.
pub fn generate_token() -> (r: Option<String>)
    ensures
        r matches Some(t) ==> t@.len() == TOKEN_LEN && forall|i: int|
            0 <= i < t@.len() ==> token_digits().contains(#[trigger] t@[i]),
        r matches Some(t) ==> trim_text(t@) == t@,
{
    match random_bytes(TOKEN_LEN) {
        None => None,
        Some(bytes) => {
            let t = token_from_bytes(&bytes);
            assert forall|i: int| 0 <= i < t@.len() implies token_digits().contains(
                #[trigger] t@[i],
            ) by {
                assert(token_digits()[(bytes@[i] % 16) as int] == t@[i]);
            }
            proof {
                law_token_survives_storage(t@);
            }
            Some(t)
        },
    }
}

/// A token of hexadecimal digits is its own trimmed text, so that storing it and reading it
/// back with `stored_token` gives it again.
pub proof fn law_token_survives_storage(t: Seq<char>)
    requires
        t.len() > 0,
        forall|i: int| 0 <= i < t.len() ==> token_digits().contains(#[trigger] t[i]),
    ensures
        trim_text(t) == t,
        trim_text(t).len() > 0,
{
    assert(token_digits().contains(t[0]));
    assert(token_digits().contains(t[t.len() - 1]));
    assert(forall|c: char| token_digits().contains(c) ==> !crate::text::is_white_space(c)) by {
        assert forall|c: char| token_digits().contains(c) implies !crate::text::is_white_space(c) by {
            let k = choose|k: int| 0 <= k < token_digits().len() && token_digits()[k] == c;
            assert(0 <= k < 16);
        }
    }
}

/// The access token kept in the token file, where the file's trimmed text is not empty.
pub fn stored_token(text: &str) -> (r: Option<String>)
    ensures
        trim_text(text@).len() > 0 ==> (r matches Some(v) && v@ == trim_text(text@)),
        trim_text(text@).len() == 0 ==> r is None,
{
    crate::text::trimmed_nonempty(text)
}

/// The file in the certificate directory that holds the forwarder's access token.
pub const TOKEN_FILE: &'static str = "forwarder-token.txt";

/// The arguments of `taskkill` that kill the process `pid` with its whole tree, by force.
pub fn taskkill_args(pid: u32) -> (r: Vec<String>)
    ensures
        r@.len() == 4,
        r@[0]@ == "/PID"@,
        r@[1]@ == decimal_text(pid as nat),
        r@[2]@ == "/T"@,
        r@[3]@ == "/F"@,
{
    let mut r: Vec<String> = Vec::new();
    r.push(String::from_str("/PID"));
    r.push(decimal(pid as u64));
    r.push(String::from_str("/T"));
    r.push(String::from_str("/F"));
    r
}

/// A value of the user's environment as the registry holds it.
pub struct RegistryValue {
    /// The variable's name.
    pub name: String,
    /// Whether it is of type `REG_EXPAND_SZ`, whose `%VAR%` references are not expanded.
    pub expandable: bool,
    /// The value as text.
    pub text: String,
}

/// The variables, in order, that the user's registry environment adds to a child process:
/// those that are not of type `REG_EXPAND_SZ` (a literal `%USERPROFILE%` would break node's
/// temporary directory) and whose text is not empty.
pub open spec fn merged_env(values: Seq<RegistryValue>) -> Seq<(Seq<char>, Seq<char>)>
    decreases values.len(),
{
    if values.len() == 0 {
        Seq::empty()
    } else {
        let before = merged_env(values.drop_last());
        let v = values.last();
        if !v.expandable && v.text@.len() > 0 {
            before.push((v.name@, v.text@))
        } else {
            before
        }
    }
}

/// The text of each variable of `vars`.
pub open spec fn env_view(vars: Seq<(String, String)>) -> Seq<(Seq<char>, Seq<char>)> {
    vars.map_values(|p: (String, String)| (p.0@, p.1@))
}

/// Chooses the variables of the user's registry environment (HKCU\Environment) that a child
/// process gets, so that a change made with `setx` takes effect on the next restart of dsh.
pub fn user_env_entries(values: Vec<RegistryValue>) -> (r: Vec<(String, String)>)
    ensures
        env_view(r@) == merged_env(values@),
{
    let mut r: Vec<(String, String)> = Vec::new();
    let mut k: usize = 0;
    while k < values.len()
        invariant
            k <= values@.len(),
            env_view(r@) == merged_env(values@.subrange(0, k as int)),
        decreases values@.len() - k,
    {
        let v = &values[k];
        proof {
            assert(values@.subrange(0, k + 1).drop_last() =~= values@.subrange(0, k as int));
        }
        if !v.expandable && v.text.unicode_len() > 0 {
            let ghost before = r@;
            let name = v.name.clone();
            let text = v.text.clone();
            r.push((name, text));
            proof {
                assert(env_view(r@) =~= env_view(before).push((v.name@, v.text@))) by {
                    assert(r@ =~= before.push((name, text)));
                }
            }
        }
        k = k + 1;
    }
    assert(values@.subrange(0, values@.len() as int) =~= values@);
    r
}

/// What the log says of `GITHUB_TOKEN` in the user's registry environment.
pub fn github_token_note(found: bool) -> (r: &'static str)
    ensures
        found ==> r@ == "found-in-registry"@,
        !found ==> r@ == "not-found"@,
{
    if found {
        "found-in-registry"
    } else {
        "not-found"
    }
}

/// The environment of the LAN forwarder: its certificate file and password, and the access
/// token every device must bring. Without a certificate (no plain HTTP on the LAN) or without
/// a token, the forwarder does not start: `None`.
pub fn forwarder_env(cert: Option<(String, String)>, token: Option<String>) -> (r: Option<
    Vec<(String, String)>,
>)
    ensures
        cert is None || token is None ==> r is None,
        match (cert, token) {
            (Some((p, pw)), Some(t)) => (r matches Some(env) && env_view(env@) == seq![
                ("FORWARD_PFX"@, p@),
                ("FORWARD_PFX_PASS"@, pw@),
                ("FORWARD_TOKEN"@, t@),
            ]),
            _ => r is None,
        },
{
    let (p, pw) = match cert {
        Some(c) => c,
        None => return None,
    };
    let t = match token {
        Some(t) => t,
        None => return None,
    };
    let ghost (gp, gpw, gt) = (p@, pw@, t@);
    let mut env: Vec<(String, String)> = Vec::new();
    env.push((String::from_str("FORWARD_PFX"), p));
    env.push((String::from_str("FORWARD_PFX_PASS"), pw));
    env.push((String::from_str("FORWARD_TOKEN"), t));
    assert(env_view(env@) =~= seq![
        ("FORWARD_PFX"@, gp),
        ("FORWARD_PFX_PASS"@, gpw),
        ("FORWARD_TOKEN"@, gt),
    ]);
    Some(env)
}

/// Whether octets form a LAN address, written out: 10/8, 172.16/12 or 192.168/16, and not
/// Tailscale's 100.64/10.
pub open spec fn lan_octets(o: [u8; 4]) -> bool {
    &&& (o[0] == 10 || (o[0] == 172 && 16 <= o[1] && o[1] <= 31) || (o[0] == 192 && o[1] == 168))
    &&& !(o[0] == 100 && 64 <= o[1] && o[1] <= 127)
}

/// The LAN address picked is the one of least index among the interfaces' addresses: where it
/// is `Some(o)`, some element is `Some(o)` with `o` a LAN address and no earlier element holds
/// a LAN address; it is `None` exactly where no element holds one.
pub proof fn law_lan_ipv4_first(addrs: Seq<Option<[u8; 4]>>)
    ensures
        first_lan_ipv4(addrs) matches Some(o) ==> exists|i: int|
            0 <= i < addrs.len() && addrs[i] == Some(o) && lan_octets(o) && forall|j: int|
                0 <= j < i ==> !(#[trigger] addrs[j] matches Some(p) && lan_octets(p)),
        first_lan_ipv4(addrs) is None <==> forall|i: int|
            0 <= i < addrs.len() ==> !(#[trigger] addrs[i] matches Some(p) && lan_octets(p)),
        addrs.len() > 0 && (addrs[0] matches Some(o) && lan_octets(o)) ==> first_lan_ipv4(addrs)
            == addrs[0],
    decreases addrs.len(),
{
    if addrs.len() > 0 {
        let rest = addrs.drop_first();
        law_lan_ipv4_first(rest);
        if first_lan_ipv4(addrs) != addrs[0] || !(addrs[0] matches Some(o) && lan_octets(o)) {
            if let Some(o) = first_lan_ipv4(rest) {
                let i = choose|i: int|
                    0 <= i < rest.len() && rest[i] == Some(o) && lan_octets(o) && forall|j: int|
                        0 <= j < i ==> !(#[trigger] rest[j] matches Some(p) && lan_octets(p));
                assert(addrs[i + 1] == rest[i]);
                assert forall|j: int| 0 <= j < i + 1 implies !(#[trigger] addrs[j] matches Some(p)
                    && lan_octets(p)) by {
                    if j > 0 {
                        assert(addrs[j] == rest[j - 1]);
                    }
                }
            }
        }
        assert forall|i: int| 0 < i < addrs.len() implies addrs[i] == rest[i - 1] by {}
    }
}

} // verus!
