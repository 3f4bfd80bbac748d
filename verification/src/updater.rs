use vstd::prelude::*;

use crate::text::{
    compare_text, lemma_text_order_reverse, text_order, trim_text, trimmed_nonempty, Order,
};

verus! {

/// The version of the runtime that the release offers: a small asset written when the
/// release's runtime archive is in place, so that its change means the new archive is ready.
pub const RUNTIME_VERSION_URL: &'static str =
    "https://github.com/fanqie132/dsh-desktop/releases/download/runtime/runtime-version.txt";

#[verifier::external_type_specification]
#[verifier::external_body]
pub struct ExSemverVersion(semver::Version);

/// Whether `semver::Version::parse` accepts `text`.
pub uninterp spec fn semver_accepts(text: Seq<char>) -> bool;

/// The order that `semver::Version`'s `Ord` puts between the versions parsed from two accepted
/// texts.
pub uninterp spec fn semver_order(a: Seq<char>, b: Seq<char>) -> Order;

/// A version that `semver` parsed, together with the text it was parsed from.
struct ParsedVersion {
    text: String,
    version: semver::Version,
}

impl View for ParsedVersion {
    type V = Seq<char>;

    /// The text the version was parsed from.
    closed spec fn view(&self) -> Seq<char> {
        self.text@
    }
}

/// Calls `semver::Version::parse`. Claimed: it succeeds exactly on the texts that
/// `semver_accepts` names, and the parsed version keeps the text it came from.
#[verifier::external_body]
fn parse_semver(s: &str) -> (r: Option<ParsedVersion>)
    ensures
        r is Some <==> semver_accepts(s@),
        r matches Some(v) ==> v@ == s@,
{
    match semver::Version::parse(s) {
        Ok(version) => Some(ParsedVersion { text: s.to_string(), version }),
        Err(_) => None,
    }
}

/// Calls `Ord::cmp` of `semver::Version` and names its outcome `semver_order`. Claimed, as
/// `Ord` promises of the derived total order: a version equals itself, and swapping the two
/// sides reverses the outcome.
#[verifier::external_body]
fn semver_compare(a: &ParsedVersion, b: &ParsedVersion) -> (r: Order)
    ensures
        r == semver_order(a@, b@),
        semver_order(b@, a@) == r.reversed(),
        a@ == b@ ==> r == Order::Equal,
{
    match a.version.cmp(&b.version) {
        core::cmp::Ordering::Less => Order::Less,
        core::cmp::Ordering::Equal => Order::Equal,
        core::cmp::Ordering::Greater => Order::Greater,
    }
}

/// How two version texts compare: by semantic versioning where both parse as such, otherwise
/// as plain text.
pub open spec fn version_order(a: Seq<char>, b: Seq<char>) -> Order {
    if semver_accepts(a) && semver_accepts(b) {
        semver_order(a, b)
    } else {
        text_order(a, b)
    }
}

/// Compares two version texts: semantically where both are semantic versions, otherwise as
/// text. A text equals itself, and swapping the two sides reverses the outcome.
pub fn compare_version(a: &str, b: &str) -> (r: Order)
    ensures
        r == version_order(a@, b@),
        version_order(b@, a@) == r.reversed(),
        a@ == b@ ==> r == Order::Equal,
{
    proof {
        lemma_text_order_reverse(a@, b@);
    }
    match (parse_semver(a), parse_semver(b)) {
        (Some(va), Some(vb)) => semver_compare(&va, &vb),
        _ => compare_text(a, b),
    }
}

/// Whether the published version `latest` is newer than the installed `current`, so that an
/// update is offered.
pub fn should_offer_update(latest: &str, current: &str) -> (r: bool)
    ensures
        r == (version_order(latest@, current@) == Order::Greater),
{
    compare_version(latest, current) == Order::Greater
}

/// What the version check on the published `runtime-version.txt` gives: its trimmed text,
/// or an error where that is empty.
pub fn latest_version_from_body(body: &str) -> (r: Result<String, String>)
    ensures
        trim_text(body@).len() > 0 ==> (r matches Ok(v) && v@ == trim_text(body@)),
        trim_text(body@).len() == 0 ==> (r matches Err(e) && e@ == "runtime-version.txt 内容为空"@),
{
    match trimmed_nonempty(body) {
        Some(v) => Ok(v),
        None => Err(String::from_str("runtime-version.txt 内容为空")),
    }
}

/// The text that stands for a version that could not be read.
pub open spec fn unknown_version() -> Seq<char> {
    "?"@
}

/// The message of an update whose installed version is older than the one it aimed at.
pub open spec fn stale_update_message(target: Seq<char>, actual: Seq<char>) -> Seq<char> {
    "更新自检失败：期望 v"@ + target + "，实际 v"@ + actual + "（下载到的资产已过期，请稍后重试）"@
}

/// What a successful replacement comes to, from the installed version read back (`None`
/// where it could not be read) and the target version: a failure where the installed version
/// is older than the target, else the installed version.
pub open spec fn checked_outcome(installed: Option<Seq<char>>, target: Option<Seq<char>>) -> Result<
    Seq<char>,
    Seq<char>,
> {
    let actual = match installed {
        Some(v) => v,
        None => unknown_version(),
    };
    match target {
        Some(t) => if version_order(actual, t) == Order::Less {
            Err(stale_update_message(t, actual))
        } else {
            Ok(actual)
        },
        None => Ok(actual),
    }
}

/// The text of an optional text.
pub open spec fn opt_view(v: Option<String>) -> Option<Seq<char>> {
    match v {
        Some(s) => Some(s@),
        None => None,
    }
}

/// The text of a result.
pub open spec fn outcome_view(r: Result<String, String>) -> Result<Seq<char>, Seq<char>> {
    match r {
        Ok(v) => Ok(v@),
        Err(e) => Err(e@),
    }
}

/// What an update comes to, from the result of replacing the runtime, the version read back
/// from the installed runtime (`None` where it could not be read) and the version the update
/// aimed at (`None` where none was known). A replacement that succeeded is checked: where the
/// installed version is older than the target, the update failed; where it is the target, it
/// passed.
pub fn update_outcome(
    replaced: Result<(), String>,
    installed: Option<String>,
    target: Option<String>,
) -> (r: Result<String, String>)
    ensures
        replaced matches Err(e) ==> r == Err::<String, String>(e),
        replaced is Ok ==> outcome_view(r) == checked_outcome(opt_view(installed), opt_view(target)),
        replaced is Ok && (installed matches Some(v) && target matches Some(t) && v@ == t@) ==> (
        r matches Ok(v) && v@ == target->0@),
{
    match replaced {
        Err(e) => Err(e),
        Ok(()) => {
            let actual = match installed {
                Some(v) => v,
                None => String::from_str("?"),
            };
            match target {
                Some(t) => {
                    if compare_version(actual.as_str(), t.as_str()) == Order::Less {
                        let m = String::from_str("更新自检失败：期望 v").concat(t.as_str()).concat(
                            "，实际 v",
                        ).concat(actual.as_str()).concat("（下载到的资产已过期，请稍后重试）");
                        Err(m)
                    } else {
                        Ok(actual)
                    }
                },
                None => Ok(actual),
            }
        },
    }
}

/// The message shown once an update from `before` to `actual` is done.
pub fn update_done_message(before: &str, actual: &str) -> (r: String)
    ensures
        r@ == "已从 v"@ + before@ + " 更新到 v"@ + actual@ + "，正在重启..."@,
{
    String::from_str("已从 v").concat(before).concat(" 更新到 v").concat(actual).concat(
        "，正在重启...",
    )
}

/// The page of the update window, with the two versions in its query.
pub fn updater_page_url(latest: &str, current: &str) -> (r: String)
    ensures
        r@ == "updater.html?latest="@ + latest@ + "&current="@ + current@,
{
    String::from_str("updater.html?latest=").concat(latest).concat("&current=").concat(current)
}

/// How many times an update tries to fetch and replace the runtime.
pub const UPDATE_ATTEMPTS: u32 = 2;

/// Whether an update tries again after attempt number `attempt` (counted from 1) failed.
pub fn retry_update_after(attempt: u32) -> (r: bool)
    ensures
        r == (attempt < UPDATE_ATTEMPTS),
{
    attempt < UPDATE_ATTEMPTS
}

/// How far an update has come: the stage names the action whose outcome is awaited.
#[derive(PartialEq, Eq, Structural, Clone, Copy, Debug)]
pub enum UpdateStage {
    Begin,
    Stopping,
    Settling,
    /// Replacing the runtime, attempt number (counted from 1).
    Replacing(u32),
    /// Pausing after failed attempt number.
    Pausing(u32),
    ReadingBack,
    Reporting,
    Starting,
    Finished,
}

/// How the last action of an update went.
pub enum UpdateEvent {
    /// It was done.
    Done,
    /// There was no server manager to stop.
    NoManager,
    /// The runtime was replaced, or not, with this message.
    Replaced(Result<(), String>),
    /// The version read back from the installed runtime (`None` where it could not be read).
    Installed(Option<String>),
}

/// How the last action of an update went, as text.
pub enum UpdateEventView {
    Done,
    NoManager,
    Replaced(Result<(), Seq<char>>),
    Installed(Option<Seq<char>>),
}

impl View for UpdateEvent {
    type V = UpdateEventView;

    open spec fn view(&self) -> UpdateEventView {
        match self {
            UpdateEvent::Done => UpdateEventView::Done,
            UpdateEvent::NoManager => UpdateEventView::NoManager,
            UpdateEvent::Replaced(Ok(())) => UpdateEventView::Replaced(Ok(())),
            UpdateEvent::Replaced(Err(e)) => UpdateEventView::Replaced(Err(e@)),
            UpdateEvent::Installed(v) => UpdateEventView::Installed(opt_view(*v)),
        }
    }
}

/// The next thing to do in an update.
pub enum UpdateAction {
    /// Stop dsh (and the forwarder), to release the runtime's files.
    StopDsh,
    /// Sleep this many seconds.
    Pause(u64),
    /// Download the runtime and swap it in.
    ReplaceRuntime,
    /// Read the version of the installed runtime.
    ReadInstalled,
    /// Log the outcome (the installed version, or the error) and, for an error, tell the
    /// windows of it.
    Report(Result<String, String>),
    /// Start dsh again.
    StartDsh,
    /// The update is over, with this outcome: for the installed version, tell the windows
    /// that it is done; for an error, show the main window again.
    Finish(Result<String, String>),
}

/// The next thing to do in an update, as text.
pub enum UpdateActionView {
    StopDsh,
    Pause(u64),
    ReplaceRuntime,
    ReadInstalled,
    Report(Result<Seq<char>, Seq<char>>),
    StartDsh,
    Finish(Result<Seq<char>, Seq<char>>),
}

impl View for UpdateAction {
    type V = UpdateActionView;

    open spec fn view(&self) -> UpdateActionView {
        match self {
            UpdateAction::StopDsh => UpdateActionView::StopDsh,
            UpdateAction::Pause(n) => UpdateActionView::Pause(*n),
            UpdateAction::ReplaceRuntime => UpdateActionView::ReplaceRuntime,
            UpdateAction::ReadInstalled => UpdateActionView::ReadInstalled,
            UpdateAction::StartDsh => UpdateActionView::StartDsh,
            UpdateAction::Report(r) => UpdateActionView::Report(outcome_view(*r)),
            UpdateAction::Finish(r) => UpdateActionView::Finish(outcome_view(*r)),
        }
    }
}

/// The state of an update: its stage, the target version, and the outcome once known (or,
/// while attempts remain, the last attempt's error).
pub struct UpdateState {
    pub stage: UpdateStage,
    pub target: Option<Seq<char>>,
    pub outcome: Result<Seq<char>, Seq<char>>,
}

/// A state that steps can come to: an update pauses only after an attempt that leaves
/// another.
pub open spec fn update_wf(s: UpdateState) -> bool {
    s.stage matches UpdateStage::Pausing(a) ==> a < UPDATE_ATTEMPTS
}

/// One step of an update: from the state and the outcome of the action it awaited, the next
/// state and action. dsh is stopped first (with three seconds for it to let go of its files
/// where a manager stopped it); the runtime is replaced, tried twice with two seconds between;
/// a replacement is checked against the target version; the outcome is reported, dsh is
/// started again whatever came of it, and the update finishes.
pub open spec fn update_next(s: UpdateState, e: UpdateEventView) -> (UpdateState, UpdateActionView) {
    match s.stage {
        UpdateStage::Begin => (UpdateState { stage: UpdateStage::Stopping, ..s }, UpdateActionView::StopDsh),
        UpdateStage::Stopping => if e == UpdateEventView::NoManager {
            (UpdateState { stage: UpdateStage::Replacing(1), ..s }, UpdateActionView::ReplaceRuntime)
        } else {
            (UpdateState { stage: UpdateStage::Settling, ..s }, UpdateActionView::Pause(3))
        },
        UpdateStage::Settling => (
            UpdateState { stage: UpdateStage::Replacing(1), ..s },
            UpdateActionView::ReplaceRuntime,
        ),
        UpdateStage::Replacing(a) => match e {
            UpdateEventView::Replaced(Err(m)) => if a < UPDATE_ATTEMPTS {
                (UpdateState { stage: UpdateStage::Pausing(a), outcome: Err(m), ..s }, UpdateActionView::Pause(2))
            } else {
                (
                    UpdateState { stage: UpdateStage::Reporting, outcome: Err(m), ..s },
                    UpdateActionView::Report(Err(m)),
                )
            },
            _ => (UpdateState { stage: UpdateStage::ReadingBack, ..s }, UpdateActionView::ReadInstalled),
        },
        UpdateStage::Pausing(a) => (
            UpdateState { stage: UpdateStage::Replacing((a + 1) as u32), ..s },
            UpdateActionView::ReplaceRuntime,
        ),
        UpdateStage::ReadingBack => {
            let installed = match e {
                UpdateEventView::Installed(v) => v,
                _ => None,
            };
            let outcome = checked_outcome(installed, s.target);
            (
                UpdateState { stage: UpdateStage::Reporting, outcome, ..s },
                UpdateActionView::Report(outcome),
            )
        },
        UpdateStage::Reporting => (
            UpdateState { stage: UpdateStage::Starting, ..s },
            UpdateActionView::StartDsh,
        ),
        UpdateStage::Starting => (
            UpdateState { stage: UpdateStage::Finished, ..s },
            UpdateActionView::Finish(s.outcome),
        ),
        UpdateStage::Finished => (s, UpdateActionView::Finish(s.outcome)),
    }
}

/// Updates dsh's runtime while the shell runs, as a series of steps that the caller carries
/// out: stop dsh, replace the runtime (twice at most), check the installed version, report the
/// outcome, start dsh again, and finish.
pub struct UpdateRun {
    stage: UpdateStage,
    target: Option<String>,
    outcome: Result<String, String>,
}

impl View for UpdateRun {
    type V = UpdateState;

    closed spec fn view(&self) -> UpdateState {
        UpdateState {
            stage: self.stage,
            target: opt_view(self.target),
            outcome: outcome_view(self.outcome),
        }
    }
}

fn clone_outcome(r: &Result<String, String>) -> (c: Result<String, String>)
    ensures
        outcome_view(c) == outcome_view(*r),
{
    match r {
        Ok(v) => Ok(v.clone()),
        Err(e) => Err(e.clone()),
    }
}

fn clone_target(t: &Option<String>) -> (c: Option<String>)
    ensures
        opt_view(c) == opt_view(*t),
{
    match t {
        Some(v) => Some(v.clone()),
        None => None,
    }
}

impl UpdateRun {
    /// What every update keeps: it pauses only after an attempt that leaves another.
    #[verifier::type_invariant]
    spec fn keeps_attempts(self) -> bool {
        update_wf(self@)
    }

    /// An update aiming at `target` (`None` where no target version is known), not started.
    pub fn new(target: Option<String>) -> (r: Self)
        ensures
            r@ == (UpdateState {
                stage: UpdateStage::Begin,
                target: opt_view(target),
                outcome: Ok(unknown_version()),
            }),
            update_wf(r@),
    {
        UpdateRun { stage: UpdateStage::Begin, target, outcome: Ok(String::from_str("?")) }
    }

    /// Takes the outcome of the last action (anything, for the first step) and gives the next
    /// action.
    pub fn step(&mut self, e: UpdateEvent) -> (r: UpdateAction)
        ensures
            (final(self)@, r@) == update_next(old(self)@, e@),
            update_wf(final(self)@),
    {
        proof {
            use_type_invariant(&*self);
            reveal_strlit("?");
        }
        match self.stage {
            UpdateStage::Begin => {
                self.stage = UpdateStage::Stopping;
                UpdateAction::StopDsh
            },
            UpdateStage::Stopping => match e {
                UpdateEvent::NoManager => {
                    self.stage = UpdateStage::Replacing(1);
                    UpdateAction::ReplaceRuntime
                },
                _ => {
                    self.stage = UpdateStage::Settling;
                    UpdateAction::Pause(3)
                },
            },
            UpdateStage::Settling => {
                self.stage = UpdateStage::Replacing(1);
                UpdateAction::ReplaceRuntime
            },
            UpdateStage::Replacing(a) => match e {
                UpdateEvent::Replaced(Err(m)) => {
                    self.outcome = Err(m);
                    if retry_update_after(a) {
                        self.stage = UpdateStage::Pausing(a);
                        UpdateAction::Pause(2)
                    } else {
                        self.stage = UpdateStage::Reporting;
                        UpdateAction::Report(clone_outcome(&self.outcome))
                    }
                },
                _ => {
                    self.stage = UpdateStage::ReadingBack;
                    UpdateAction::ReadInstalled
                },
            },
            UpdateStage::Pausing(a) => {
                self.stage = UpdateStage::Replacing(a + 1);
                UpdateAction::ReplaceRuntime
            },
            UpdateStage::ReadingBack => {
                let installed = match e {
                    UpdateEvent::Installed(v) => v,
                    _ => None,
                };
                let target = clone_target(&self.target);
                self.outcome = update_outcome(Ok(()), installed, target);
                self.stage = UpdateStage::Reporting;
                UpdateAction::Report(clone_outcome(&self.outcome))
            },
            UpdateStage::Reporting => {
                self.stage = UpdateStage::Starting;
                UpdateAction::StartDsh
            },
            UpdateStage::Starting => {
                self.stage = UpdateStage::Finished;
                UpdateAction::Finish(clone_outcome(&self.outcome))
            },
            UpdateStage::Finished => UpdateAction::Finish(clone_outcome(&self.outcome)),
        }
    }
}

/// How many steps at most are left before an update reports.
pub open spec fn update_steps_left(stage: UpdateStage) -> nat {
    match stage {
        UpdateStage::Begin => 13,
        UpdateStage::Stopping => 12,
        UpdateStage::Settling => 11,
        UpdateStage::Replacing(a) => if a >= 2 {
            5
        } else if a == 1 {
            7
        } else {
            9
        },
        UpdateStage::Pausing(a) => if a == 1 {
            6
        } else {
            8
        },
        UpdateStage::ReadingBack => 4,
        UpdateStage::Reporting => 3,
        UpdateStage::Starting => 1,
        UpdateStage::Finished => 0,
    }
}

/// An update always comes to an end: each step before the end brings it closer, whatever the
/// outcome; then it keeps finishing with the same outcome.
pub proof fn law_update_ends(s: UpdateState, e: UpdateEventView)
    requires
        update_wf(s),
    ensures
        s.stage != UpdateStage::Finished ==> update_steps_left(update_next(s, e).0.stage)
            < update_steps_left(s.stage),
        update_wf(update_next(s, e).0),
        s.stage == UpdateStage::Finished ==> update_next(s, e) == (s, UpdateActionView::Finish(s.outcome)),
{
}

/// The state of an update aiming at `target` after the outcomes `es` were fed in turn.
pub open spec fn update_after(target: Option<Seq<char>>, es: Seq<UpdateEventView>) -> UpdateState
    decreases es.len(),
{
    if es.len() == 0 {
        UpdateState { stage: UpdateStage::Begin, target, outcome: Ok(unknown_version()) }
    } else {
        update_next(update_after(target, es.drop_last()), es.last()).0
    }
}

/// The action given at step `k` of an update, where outcome `es[k]` is fed in.
pub open spec fn update_action_at(target: Option<Seq<char>>, es: Seq<UpdateEventView>, k: int)
    -> UpdateActionView {
    update_next(update_after(target, es.take(k)), es[k]).1
}

proof fn lemma_update_after_take(target: Option<Seq<char>>, es: Seq<UpdateEventView>, k: int)
    requires
        0 <= k < es.len(),
    ensures
        update_after(target, es.take(k + 1)) == update_next(update_after(target, es.take(k)), es[k]).0,
        update_after(target, es.take(0)).stage == UpdateStage::Begin,
{
    assert(es.take(k + 1).drop_last() =~= es.take(k));
    assert(es.take(k + 1).last() == es[k]);
    assert(es.take(0) =~= Seq::<UpdateEventView>::empty());
}

/// The runtime is replaced only once dsh was stopped: whatever the outcomes, the update's
/// first action is to stop dsh, and every replacement comes after it.
pub proof fn law_update_stops_dsh_first(target: Option<Seq<char>>, es: Seq<UpdateEventView>, k: int)
    requires
        0 <= k < es.len(),
        update_action_at(target, es, k) == UpdateActionView::ReplaceRuntime,
    ensures
        0 < k,
        update_action_at(target, es, 0) == UpdateActionView::StopDsh,
{
    lemma_update_after_take(target, es, 0);
}

proof fn lemma_started(target: Option<Seq<char>>, es: Seq<UpdateEventView>, k: int) -> (j: int)
    requires
        0 <= k <= es.len(),
        update_after(target, es.take(k)).stage == UpdateStage::Starting || update_after(
            target,
            es.take(k),
        ).stage == UpdateStage::Finished,
    ensures
        0 <= j < k,
        update_action_at(target, es, j) == UpdateActionView::StartDsh,
    decreases k,
{
    if k == 0 {
        assert(es.take(0) =~= Seq::<UpdateEventView>::empty());
        0
    } else {
        lemma_update_after_take(target, es, k - 1);
        let prev = update_after(target, es.take(k - 1)).stage;
        if prev == UpdateStage::Starting || prev == UpdateStage::Finished {
            lemma_started(target, es, k - 1)
        } else {
            k - 1
        }
    }
}

/// dsh is started again before an update finishes, whatever its outcome: a step before the
/// end gave the action to start dsh.
pub proof fn law_update_restarts_dsh(target: Option<Seq<char>>, es: Seq<UpdateEventView>, k: int)
    requires
        0 <= k < es.len(),
        update_action_at(target, es, k) is Finish,
    ensures
        exists|j: int| 0 <= j < k && update_action_at(target, es, j) == UpdateActionView::StartDsh,
{
    lemma_update_after_take(target, es, 0);
    let j = lemma_started(target, es, k);
    assert(update_action_at(target, es, j) == UpdateActionView::StartDsh);
}

proof fn lemma_stays_started(target: Option<Seq<char>>, es: Seq<UpdateEventView>, j: int, k: int)
    requires
        0 <= j < k <= es.len(),
        update_action_at(target, es, j) == UpdateActionView::StartDsh,
    ensures
        update_after(target, es.take(k)).stage == UpdateStage::Starting || update_after(
            target,
            es.take(k),
        ).stage == UpdateStage::Finished,
    decreases k,
{
    lemma_update_after_take(target, es, k - 1);
    if k > j + 1 {
        lemma_stays_started(target, es, j, k - 1);
    }
}

/// The runtime is never replaced once dsh was started again: no step after the one that
/// starts dsh replaces the runtime.
pub proof fn law_update_no_replacement_after_start(
    target: Option<Seq<char>>,
    es: Seq<UpdateEventView>,
    j: int,
    k: int,
)
    requires
        0 <= j < k < es.len(),
        update_action_at(target, es, j) == UpdateActionView::StartDsh,
    ensures
        update_action_at(target, es, k) != UpdateActionView::ReplaceRuntime,
{
    lemma_stays_started(target, es, j, k);
}

/// dsh is started again after the last replacement of the runtime, whatever came of it:
/// between any replacement and the end of the update, a step starts dsh.
pub proof fn law_update_restarts_after_replacing(
    target: Option<Seq<char>>,
    es: Seq<UpdateEventView>,
    k: int,
    f: int,
)
    requires
        0 <= k < f < es.len(),
        update_action_at(target, es, k) == UpdateActionView::ReplaceRuntime,
        update_action_at(target, es, f) is Finish,
    ensures
        exists|j: int| k < j < f && update_action_at(target, es, j) == UpdateActionView::StartDsh,
{
    lemma_update_after_take(target, es, 0);
    let j = lemma_started(target, es, f);
    if j < k {
        law_update_no_replacement_after_start(target, es, j, k);
    }
    assert(j != k);
    assert(update_action_at(target, es, j) == UpdateActionView::StartDsh);
}

/// The self-check orders the installed and the target version as semantic versions where both
/// are such: a successful replacement whose installed version `v` is, by semver, older than
/// the target `t` fails with the stale-update message; one whose installed version is not
/// older passes with it; without a target it passes; and a version that could not be read
/// counts as `?`.
pub proof fn law_self_check_orders_by_semver(v: Seq<char>, t: Seq<char>)
    ensures
        semver_accepts(v) && semver_accepts(t) && semver_order(v, t) == Order::Less ==> checked_outcome(
            Some(v),
            Some(t),
        ) == Err::<Seq<char>, Seq<char>>(
            "更新自检失败：期望 v"@ + t + "，实际 v"@ + v + "（下载到的资产已过期，请稍后重试）"@,
        ),
        semver_accepts(v) && semver_accepts(t) && semver_order(v, t) != Order::Less ==> checked_outcome(
            Some(v),
            Some(t),
        ) == Ok::<Seq<char>, Seq<char>>(v),
        !(semver_accepts(v) && semver_accepts(t)) && text_order(v, t) != Order::Less
            ==> checked_outcome(Some(v), Some(t)) == Ok::<Seq<char>, Seq<char>>(v),
        checked_outcome(Some(v), None) == Ok::<Seq<char>, Seq<char>>(v),
        checked_outcome(None, None) == Ok::<Seq<char>, Seq<char>>("?"@),
{
}

} // verus!
