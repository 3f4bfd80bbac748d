use vstd::prelude::*;

use crate::text::{trim, trim_text};

verus! {

/// The file in the certificate directory that holds the forwarder's certificate.
pub const CERT_FILE: &'static str = "forwarder.pfx";

/// The file in the certificate directory that records the LAN address the certificate was
/// made for.
pub const CERT_IP_FILE: &'static str = "forwarder.ip.txt";

/// The password of the forwarder's certificate file.
pub const CERT_PASSWORD: &'static str = "dsh-fwd";

/// The PowerShell command that removes the forwarder's old self-signed certificates from the
/// user's certificate store.
pub const CERT_CLEANUP_SCRIPT: &'static str = "Get-ChildItem Cert:\\CurrentUser\\My | Where-Object { $_.FriendlyName -eq 'Dsh Forwarder' } | Remove-Item -Force";

/// Whether the existing certificate can be used again: its file exists and the address it
/// was made for, as recorded, is the current LAN address. Otherwise it is made anew, so that
/// a phone does not meet a certificate for an address the computer no longer has.
pub fn cert_reusable(cert_exists: bool, recorded_ip: &str, current_ip: &str) -> (r: bool)
    ensures
        r == (cert_exists && trim_text(recorded_ip@) == current_ip@),
{
    if !cert_exists {
        return false;
    }
    let recorded = trim(recorded_ip);
    recorded == String::from_str(current_ip)
}

/// The PowerShell command that makes a self-signed certificate for the LAN address `ip`
/// (its alternative names: `ip`, 127.0.0.1 and localhost), valid five years, and exports it
/// to `pfx` under `password`.
pub open spec fn cert_script_text(ip: Seq<char>, pfx: Seq<char>, password: Seq<char>) -> Seq<
    char,
> {
    "New-SelfSignedCertificate -Subject 'CN="@ + ip
        + "' -TextExtension @('2.5.29.17={text}ipaddress="@ + ip
        + "&ipaddress=127.0.0.1&dns=localhost') -CertStoreLocation Cert:\\CurrentUser\\My -FriendlyName 'Dsh Forwarder' -NotAfter (Get-Date).AddYears(5) | Export-PfxCertificate -FilePath '"@
        + pfx + "' -Password (ConvertTo-SecureString '"@ + password
        + "' -AsPlainText -Force) -Force"@
}

/// Writes the PowerShell command that makes the forwarder's certificate.
pub fn cert_script(ip: &str, pfx: &str, password: &str) -> (r: String)
    ensures
        r@ == cert_script_text(ip@, pfx@, password@),
{
    String::from_str("New-SelfSignedCertificate -Subject 'CN=").concat(ip).concat(
        "' -TextExtension @('2.5.29.17={text}ipaddress=",
    ).concat(ip).concat(
        "&ipaddress=127.0.0.1&dns=localhost') -CertStoreLocation Cert:\\CurrentUser\\My -FriendlyName 'Dsh Forwarder' -NotAfter (Get-Date).AddYears(5) | Export-PfxCertificate -FilePath '",
    ).concat(pfx).concat("' -Password (ConvertTo-SecureString '").concat(password).concat(
        "' -AsPlainText -Force) -Force",
    )
}


/// How far making sure of the forwarder's certificate has come: the step names the action
/// whose outcome is awaited.
#[derive(PartialEq, Eq, Structural, Clone, Copy, Debug)]
pub enum CertStep {
    Start,
    CertProbed,
    RecordedRead,
    OldDiscarded,
    DirCreated,
    ScriptRan,
    NewCertProbed,
    IpRecorded,
    /// Over: whether a certificate for the current address is ready.
    Finished(bool),
}

/// The next thing to do for the forwarder's certificate.
pub enum CertAction {
    /// Say whether the certificate file exists.
    ProbeCert,
    /// Read the file that records the address the certificate was made for (empty text where
    /// it cannot be read).
    ReadRecordedIp,
    /// Remove the certificate file and the address file, and the old certificates from the
    /// user's store with `CERT_CLEANUP_SCRIPT` (failures do not matter).
    DiscardOld,
    /// Create the certificate directory.
    CreateDir,
    /// Run this PowerShell command.
    RunScript(String),
    /// Record the address the certificate was made for (failure does not matter).
    RecordIp(String),
    /// Over: whether a certificate for the current address is ready.
    Finish(bool),
}

/// The next thing to do, as text.
pub enum CertActionView {
    ProbeCert,
    ReadRecordedIp,
    DiscardOld,
    CreateDir,
    RunScript(Seq<char>),
    RecordIp(Seq<char>),
    Finish(bool),
}

impl View for CertAction {
    type V = CertActionView;

    open spec fn view(&self) -> CertActionView {
        match self {
            CertAction::ProbeCert => CertActionView::ProbeCert,
            CertAction::ReadRecordedIp => CertActionView::ReadRecordedIp,
            CertAction::DiscardOld => CertActionView::DiscardOld,
            CertAction::CreateDir => CertActionView::CreateDir,
            CertAction::RunScript(s) => CertActionView::RunScript(s@),
            CertAction::RecordIp(s) => CertActionView::RecordIp(s@),
            CertAction::Finish(b) => CertActionView::Finish(*b),
        }
    }
}

/// How the last action went.
pub enum CertEvent {
    /// It was done (or attempted, where failure does not matter).
    Done,
    /// It failed (a command that could not run or did not succeed counts as failed).
    Failed,
    /// For a probe: whether the file exists.
    Found(bool),
    /// For a read: the text read.
    Text(String),
}

/// How the last action went, as text.
pub enum CertEventView {
    Done,
    Failed,
    Found(bool),
    Text(Seq<char>),
}

impl View for CertEvent {
    type V = CertEventView;

    open spec fn view(&self) -> CertEventView {
        match self {
            CertEvent::Done => CertEventView::Done,
            CertEvent::Failed => CertEventView::Failed,
            CertEvent::Found(b) => CertEventView::Found(*b),
            CertEvent::Text(t) => CertEventView::Text(t@),
        }
    }
}

/// The text that a read gave: empty where nothing could be read.
pub open spec fn recorded_text(e: CertEventView) -> Seq<char> {
    match e {
        CertEventView::Text(t) => t,
        _ => Seq::empty(),
    }
}

/// The command that makes the certificate for `ip`, exported to `pfx`.
pub open spec fn cert_command(ip: Seq<char>, pfx: Seq<char>) -> Seq<char> {
    cert_script_text(ip, pfx, CERT_PASSWORD@)
}

/// The address, or the empty text where there is none.
pub open spec fn address_text(ip: Option<Seq<char>>) -> Seq<char> {
    match ip {
        Some(a) => a,
        None => Seq::empty(),
    }
}

/// One step of making sure that the forwarder's certificate at `pfx` is one for the current
/// LAN address `ip`: from the step and the outcome of the action it awaited, the next step
/// and action. Without a LAN address nothing is touched and no certificate is ready. An
/// existing certificate is kept where the address it was recorded for,
/// trimmed, is `ip`; otherwise it is discarded and a new one made; a new one counts only where
/// the command succeeded and the file is then found.
pub open spec fn cert_next(step: CertStep, ip: Option<Seq<char>>, pfx: Seq<char>, e: CertEventView) -> (
    CertStep,
    CertActionView,
) {
    let found = e == CertEventView::Found(true);
    let failed = e == CertEventView::Failed;
    match step {
        CertStep::Start => if ip is None {
            (CertStep::Finished(false), CertActionView::Finish(false))
        } else {
            (CertStep::CertProbed, CertActionView::ProbeCert)
        },
        CertStep::CertProbed => if found {
            (CertStep::RecordedRead, CertActionView::ReadRecordedIp)
        } else {
            (CertStep::DirCreated, CertActionView::CreateDir)
        },
        CertStep::RecordedRead => {
            if ip == Some(trim_text(recorded_text(e))) {
                (CertStep::Finished(true), CertActionView::Finish(true))
            } else {
                (CertStep::OldDiscarded, CertActionView::DiscardOld)
            }
        },
        CertStep::OldDiscarded => (CertStep::DirCreated, CertActionView::CreateDir),
        CertStep::DirCreated => if failed {
            (CertStep::Finished(false), CertActionView::Finish(false))
        } else {
            (CertStep::ScriptRan, CertActionView::RunScript(cert_command(address_text(ip), pfx)))
        },
        CertStep::ScriptRan => if failed {
            (CertStep::Finished(false), CertActionView::Finish(false))
        } else {
            (CertStep::NewCertProbed, CertActionView::ProbeCert)
        },
        CertStep::NewCertProbed => if found {
            (CertStep::IpRecorded, CertActionView::RecordIp(address_text(ip)))
        } else {
            (CertStep::Finished(false), CertActionView::Finish(false))
        },
        CertStep::IpRecorded => (CertStep::Finished(true), CertActionView::Finish(true)),
        CertStep::Finished(ready) => (CertStep::Finished(ready), CertActionView::Finish(ready)),
    }
}

/// Makes sure that the forwarder's certificate is one for the current LAN address, as a series
/// of steps that the caller carries out. A certificate is made anew where none exists or the
/// address changed since it was made, so that a phone does not meet a certificate for an
/// address the computer no longer has.
pub struct CertSetup {
    step: CertStep,
    ip: Option<String>,
    pfx: String,
}

impl CertSetup {
    /// The step reached.
    pub closed spec fn step_reached(&self) -> CertStep {
        self.step
    }

    /// The current LAN address, as text (`None` where there is none).
    pub closed spec fn address(&self) -> Option<Seq<char>> {
        match self.ip {
            Some(a) => Some(a@),
            None => None,
        }
    }

    /// The certificate file, as text.
    pub closed spec fn cert_path(&self) -> Seq<char> {
        self.pfx@
    }

    /// A setup for the current LAN address `ip` (`None` where there is none) and the
    /// certificate file `pfx`, not started.
    pub fn new(ip: Option<String>, pfx: String) -> (r: Self)
        ensures
            r.step_reached() == CertStep::Start,
            r.address() == match ip {
                Some(a) => Some(a@),
                None => None::<Seq<char>>,
            },
            r.cert_path() == pfx@,
    {
        CertSetup { step: CertStep::Start, ip, pfx }
    }

    fn address_str(&self) -> (r: &str)
        ensures
            r@ == address_text(self.address()),
    {
        match &self.ip {
            Some(a) => a.as_str(),
            None => {
                proof {
                    reveal_strlit("");
                }
                assert(""@ =~= Seq::<char>::empty());
                ""
            },
        }
    }

    /// Takes the outcome of the last action (anything, for the first step) and gives the next
    /// action.
    pub fn step(&mut self, e: CertEvent) -> (r: CertAction)
        ensures
            (final(self).step_reached(), r@) == cert_next(
                old(self).step_reached(),
                old(self).address(),
                old(self).cert_path(),
                e@,
            ),
            final(self).address() == old(self).address(),
            final(self).cert_path() == old(self).cert_path(),
    {
        let found = match &e {
            CertEvent::Found(b) => *b,
            _ => false,
        };
        let failed = match &e {
            CertEvent::Failed => true,
            _ => false,
        };
        let (next, action) = match self.step {
            CertStep::Start => if self.ip.is_none() {
                (CertStep::Finished(false), CertAction::Finish(false))
            } else {
                (CertStep::CertProbed, CertAction::ProbeCert)
            },
            CertStep::CertProbed => if found {
                (CertStep::RecordedRead, CertAction::ReadRecordedIp)
            } else {
                (CertStep::DirCreated, CertAction::CreateDir)
            },
            CertStep::RecordedRead => {
                let reusable = match &self.ip {
                    None => false,
                    Some(a) => match &e {
                        CertEvent::Text(t) => cert_reusable(true, t.as_str(), a.as_str()),
                        _ => cert_reusable(true, "", a.as_str()),
                    },
                };
                proof {
                    reveal_strlit("");
                    assert(""@ =~= Seq::<char>::empty());
                }
                if reusable {
                    (CertStep::Finished(true), CertAction::Finish(true))
                } else {
                    (CertStep::OldDiscarded, CertAction::DiscardOld)
                }
            },
            CertStep::OldDiscarded => (CertStep::DirCreated, CertAction::CreateDir),
            CertStep::DirCreated => if failed {
                (CertStep::Finished(false), CertAction::Finish(false))
            } else {
                (
                    CertStep::ScriptRan,
                    CertAction::RunScript(
                        cert_script(self.address_str(), self.pfx.as_str(), CERT_PASSWORD),
                    ),
                )
            },
            CertStep::ScriptRan => if failed {
                (CertStep::Finished(false), CertAction::Finish(false))
            } else {
                (CertStep::NewCertProbed, CertAction::ProbeCert)
            },
            CertStep::NewCertProbed => if found {
                (CertStep::IpRecorded, CertAction::RecordIp(String::from_str(self.address_str())))
            } else {
                (CertStep::Finished(false), CertAction::Finish(false))
            },
            CertStep::IpRecorded => (CertStep::Finished(true), CertAction::Finish(true)),
            CertStep::Finished(ready) => (CertStep::Finished(ready), CertAction::Finish(ready)),
        };
        self.step = next;
        action
    }
}

/// How many steps at most are left before the setup is over.
pub open spec fn cert_steps_left(step: CertStep) -> nat {
    match step {
        CertStep::Start => 8,
        CertStep::CertProbed => 7,
        CertStep::RecordedRead => 6,
        CertStep::OldDiscarded => 5,
        CertStep::DirCreated => 4,
        CertStep::ScriptRan => 3,
        CertStep::NewCertProbed => 2,
        CertStep::IpRecorded => 1,
        CertStep::Finished(_) => 0,
    }
}

/// The setup always comes to an end: each step before the end brings it closer, whatever the
/// outcome; `Finish` comes exactly when it ends, and then keeps the same answer.
pub proof fn law_cert_setup_ends(step: CertStep, ip: Option<Seq<char>>, pfx: Seq<char>, e: CertEventView)
    ensures
        !(step is Finished) ==> cert_steps_left(cert_next(step, ip, pfx, e).0) < cert_steps_left(
            step,
        ),
        (cert_next(step, ip, pfx, e).1 is Finish) == (cert_next(step, ip, pfx, e).0 is Finished),
        step matches CertStep::Finished(ready) ==> cert_next(step, ip, pfx, e) == (
            step,
            CertActionView::Finish(ready),
        ),
{
}

/// The step after the outcomes `es` were fed in turn, from the start.
pub open spec fn cert_after(ip: Option<Seq<char>>, pfx: Seq<char>, es: Seq<CertEventView>) -> CertStep
    decreases es.len(),
{
    if es.len() == 0 {
        CertStep::Start
    } else {
        cert_next(cert_after(ip, pfx, es.drop_last()), ip, pfx, es.last()).0
    }
}

/// The action given at step `k`, where outcome `es[k]` is fed in.
pub open spec fn cert_action_at(ip: Option<Seq<char>>, pfx: Seq<char>, es: Seq<CertEventView>, k: int)
    -> CertActionView {
    cert_next(cert_after(ip, pfx, es.take(k)), ip, pfx, es[k]).1
}

/// Why a certificate may be reported ready at step `k`: at some step `j` before, either the
/// recorded address was read and, trimmed, is `ip` (nothing read counts as empty); or the
/// command that makes the certificate for `ip` ran without failing, and the certificate file
/// was then found.
pub open spec fn ready_justified(ip: Option<Seq<char>>, pfx: Seq<char>, es: Seq<CertEventView>, j: int, k: int)
    -> bool {
    ||| {
        &&& 0 <= j && j + 1 <= k
        &&& cert_action_at(ip, pfx, es, j) == CertActionView::ReadRecordedIp
        &&& ip == Some(trim_text(recorded_text(es[j + 1])))
    }
    ||| {
        &&& 0 <= j && j + 2 <= k
        &&& ip is Some
        &&& cert_action_at(ip, pfx, es, j) == CertActionView::RunScript(
            cert_command(address_text(ip), pfx),
        )
        &&& es[j + 1] != CertEventView::Failed
        &&& cert_action_at(ip, pfx, es, j + 1) == CertActionView::ProbeCert
        &&& es[j + 2] == CertEventView::Found(true)
    }
}

proof fn lemma_cert_after_take(ip: Option<Seq<char>>, pfx: Seq<char>, es: Seq<CertEventView>, k: int)
    requires
        0 <= k < es.len(),
    ensures
        cert_after(ip, pfx, es.take(k + 1)) == cert_next(cert_after(ip, pfx, es.take(k)), ip, pfx, es[k]).0,
{
    assert(es.take(k + 1).drop_last() =~= es.take(k));
    assert(es.take(k + 1).last() == es[k]);
}

proof fn lemma_cert_start(ip: Option<Seq<char>>, pfx: Seq<char>, es: Seq<CertEventView>)
    ensures
        cert_after(ip, pfx, es.take(0)) == CertStep::Start,
{
    assert(es.take(0) =~= Seq::<CertEventView>::empty());
}

proof fn lemma_no_address(ip: Option<Seq<char>>, pfx: Seq<char>, es: Seq<CertEventView>, k: int)
    requires
        0 <= k <= es.len(),
        ip is None,
    ensures
        cert_after(ip, pfx, es.take(k)) == CertStep::Start || cert_after(ip, pfx, es.take(k))
            == CertStep::Finished(false),
    decreases k,
{
    lemma_cert_start(ip, pfx, es);
    if k > 0 {
        lemma_cert_after_take(ip, pfx, es, k - 1);
        lemma_no_address(ip, pfx, es, k - 1);
    }
}

proof fn lemma_ready_justified(ip: Option<Seq<char>>, pfx: Seq<char>, es: Seq<CertEventView>, k: int) -> (j: int)
    requires
        0 <= k <= es.len(),
        cert_after(ip, pfx, es.take(k)) == CertStep::IpRecorded || cert_after(ip, pfx, es.take(k))
            == CertStep::Finished(true),
    ensures
        ready_justified(ip, pfx, es, j, k),
    decreases k,
{
    lemma_cert_start(ip, pfx, es);
    if ip is None {
        lemma_no_address(ip, pfx, es, k);
    }
    if k == 0 {
        0
    } else {
        lemma_cert_after_take(ip, pfx, es, k - 1);
        let prev = cert_after(ip, pfx, es.take(k - 1));
        if prev == CertStep::IpRecorded || prev == CertStep::Finished(true) {
            lemma_ready_justified(ip, pfx, es, k - 1)
        } else if prev == CertStep::RecordedRead {
            assert(k - 1 > 0);
            lemma_cert_after_take(ip, pfx, es, k - 2);
            k - 2
        } else {
            assert(prev == CertStep::NewCertProbed);
            assert(k - 1 > 0);
            lemma_cert_after_take(ip, pfx, es, k - 2);
            assert(cert_after(ip, pfx, es.take(k - 2)) == CertStep::ScriptRan);
            assert(k - 2 > 0);
            lemma_cert_after_take(ip, pfx, es, k - 3);
            k - 3
        }
    }
}

/// A certificate is reported ready only where it is one for the current address: whatever
/// the outcomes, an earlier step either read the recorded address and found it, trimmed, to
/// be `ip`, or ran the command that makes the certificate for `ip` without failure and then
/// found the certificate file.
pub proof fn law_ready_cert_is_current(ip: Option<Seq<char>>, pfx: Seq<char>, es: Seq<CertEventView>, k: int)
    requires
        0 <= k < es.len(),
        cert_action_at(ip, pfx, es, k) == CertActionView::Finish(true),
    ensures
        ip is Some,
        exists|j: int| ready_justified(ip, pfx, es, j, k),
{
    if ip is None {
        lemma_no_address(ip, pfx, es, k);
    }
    lemma_cert_start(ip, pfx, es);
    let s = cert_after(ip, pfx, es.take(k));
    if s == CertStep::RecordedRead {
        assert(k > 0);
        lemma_cert_after_take(ip, pfx, es, k - 1);
        assert(ready_justified(ip, pfx, es, k - 1, k));
    } else {
        let j = lemma_ready_justified(ip, pfx, es, k);
        assert(ready_justified(ip, pfx, es, j, k));
    }
}

/// Without a LAN address nothing is touched: whatever the outcomes, every step finishes with
/// no certificate ready.
pub proof fn law_no_address_no_cert(ip: Option<Seq<char>>, pfx: Seq<char>, es: Seq<CertEventView>, k: int)
    requires
        ip is None,
        0 <= k < es.len(),
    ensures
        cert_action_at(ip, pfx, es, k) == CertActionView::Finish(false),
{
    lemma_no_address(ip, pfx, es, k);
}

} // verus!
