use vstd::prelude::*;

verus! {

/// Where the runtime is fetched from: a fixed asset of the project's GitHub release, replaced
/// by the publisher on each update.
pub const RUNTIME_URL: &'static str =
    "https://github.com/fanqie132/dsh-desktop/releases/download/runtime/runtime.zip";

/// The places that installing the runtime works on, all beside the runtime directory.
#[derive(PartialEq, Eq, Structural, Clone, Copy, Debug)]
pub enum Place {
    /// The runtime directory itself.
    Runtime,
    /// The downloaded archive, `dsh-runtime-download.zip`.
    DownloadZip,
    /// The directory the archive is unpacked into, `dsh-runtime-staging`.
    Staging,
    /// dsh's entry script inside the unpacked runtime, `runtime/node_modules/@deepseek-ai/dsh/lib/bin.js`.
    StagedEntry,
    /// The unpacked runtime, `runtime` inside the staging directory.
    StagedRuntime,
    /// The old runtime, moved aside as `runtime-old`.
    Backup,
}

/// How the last action went.
pub enum Outcome {
    /// It was done (or, for an action whose failure does not matter, attempted).
    Done,
    /// It failed, with this message.
    Failed(String),
    /// For a probe: whether the place exists.
    Found(bool),
}

/// How the last action went, as text.
pub enum OutcomeView {
    Done,
    Failed(Seq<char>),
    Found(bool),
}

impl View for Outcome {
    type V = OutcomeView;

    open spec fn view(&self) -> OutcomeView {
        match self {
            Outcome::Done => OutcomeView::Done,
            Outcome::Failed(e) => OutcomeView::Failed(e@),
            Outcome::Found(b) => OutcomeView::Found(*b),
        }
    }
}

/// The next thing to do to install the runtime.
pub enum InstallAction {
    /// Tell the window that the download starts.
    ReportDownload,
    /// Download the runtime archive into `DownloadZip`.
    Download,
    /// Say whether the place exists.
    Probe(Place),
    /// Remove the directory with all it holds.
    RemoveDirAll(Place),
    /// Create the directory and its parents.
    CreateDirAll(Place),
    /// Unpack `DownloadZip` into `Staging`.
    Extract,
    /// Rename the first place to the second.
    Rename(Place, Place),
    /// Remove the file.
    RemoveFile(Place),
    /// Installing is over, with this result.
    Finish(Result<(), String>),
}

/// The next thing to do, as text.
pub enum ActionView {
    ReportDownload,
    Download,
    Probe(Place),
    RemoveDirAll(Place),
    CreateDirAll(Place),
    Extract,
    Rename(Place, Place),
    RemoveFile(Place),
    Finish(Result<(), Seq<char>>),
}

impl View for InstallAction {
    type V = ActionView;

    open spec fn view(&self) -> ActionView {
        match self {
            InstallAction::ReportDownload => ActionView::ReportDownload,
            InstallAction::Download => ActionView::Download,
            InstallAction::Probe(p) => ActionView::Probe(*p),
            InstallAction::RemoveDirAll(p) => ActionView::RemoveDirAll(*p),
            InstallAction::CreateDirAll(p) => ActionView::CreateDirAll(*p),
            InstallAction::Extract => ActionView::Extract,
            InstallAction::Rename(a, b) => ActionView::Rename(*a, *b),
            InstallAction::RemoveFile(p) => ActionView::RemoveFile(*p),
            InstallAction::Finish(Ok(())) => ActionView::Finish(Ok(())),
            InstallAction::Finish(Err(e)) => ActionView::Finish(Err(e@)),
        }
    }
}

/// How far installing has come: the stage names the action whose outcome is awaited.
enum Stage {
    Begin,
    Reported,
    Downloaded,
    StagingProbed,
    StagingCleared,
    StagingCreated,
    Extracted,
    EntryProbed,
    BackupProbed,
    BackupCleared,
    RuntimeProbed,
    RuntimeMovedAside,
    Replaced,
    RestoreProbed(String),
    Restored(String),
    LeftoverProbed,
    LeftoverRemoved,
    ZipRemoved,
    StagingRemoved,
    Finished(Result<(), String>),
}

/// How far installing has come, as text.
pub enum StageView {
    Begin,
    Reported,
    Downloaded,
    StagingProbed,
    StagingCleared,
    StagingCreated,
    Extracted,
    EntryProbed,
    BackupProbed,
    BackupCleared,
    RuntimeProbed,
    RuntimeMovedAside,
    Replaced,
    RestoreProbed(Seq<char>),
    Restored(Seq<char>),
    LeftoverProbed,
    LeftoverRemoved,
    ZipRemoved,
    StagingRemoved,
    Finished(Result<(), Seq<char>>),
}

impl View for Stage {
    type V = StageView;

    closed spec fn view(&self) -> StageView {
        match self {
            Stage::Begin => StageView::Begin,
            Stage::Reported => StageView::Reported,
            Stage::Downloaded => StageView::Downloaded,
            Stage::StagingProbed => StageView::StagingProbed,
            Stage::StagingCleared => StageView::StagingCleared,
            Stage::StagingCreated => StageView::StagingCreated,
            Stage::Extracted => StageView::Extracted,
            Stage::EntryProbed => StageView::EntryProbed,
            Stage::BackupProbed => StageView::BackupProbed,
            Stage::BackupCleared => StageView::BackupCleared,
            Stage::RuntimeProbed => StageView::RuntimeProbed,
            Stage::RuntimeMovedAside => StageView::RuntimeMovedAside,
            Stage::Replaced => StageView::Replaced,
            Stage::RestoreProbed(e) => StageView::RestoreProbed(e@),
            Stage::Restored(e) => StageView::Restored(e@),
            Stage::LeftoverProbed => StageView::LeftoverProbed,
            Stage::LeftoverRemoved => StageView::LeftoverRemoved,
            Stage::ZipRemoved => StageView::ZipRemoved,
            Stage::StagingRemoved => StageView::StagingRemoved,
            Stage::Finished(Ok(())) => StageView::Finished(Ok(())),
            Stage::Finished(Err(e)) => StageView::Finished(Err(e@)),
        }
    }
}

/// Installing ends with an error: the step's prefix followed by the failed action's message.
pub open spec fn failure(prefix: Seq<char>, e: Seq<char>) -> (StageView, ActionView) {
    finish(Err(prefix + e))
}

/// Installing ends with `result`, and keeps giving it.
pub open spec fn finish(result: Result<(), Seq<char>>) -> (StageView, ActionView) {
    (StageView::Finished(result), ActionView::Finish(result))
}

/// The message where the unpacked archive holds no dsh runtime.
pub open spec fn missing_runtime_message() -> Seq<char> {
    "下载内容缺少 dsh 运行时"@
}

/// The message prefix where the new runtime could not be moved into place.
pub open spec fn replace_failed_prefix() -> Seq<char> {
    "替换运行时失败："@
}

/// One step of installing the runtime: from the stage and the outcome of the action it
/// awaited, the next stage and the next action. A probe counts as finding the place only on
/// `Found(true)`; an action fails only on `Failed`. Failures of the clean-up at the end, and
/// of putting the old runtime back, are passed over.
///
/// The steps: report, download, clear and create the staging directory, unpack, check that
/// the unpacked runtime holds dsh, clear an old backup, move the current runtime aside, move
/// the new one into place (on failure, put the old one back and fail), then remove the
/// backup, the archive and the staging directory.
pub open spec fn install_next(s: StageView, o: OutcomeView) -> (StageView, ActionView) {
    let found = o == OutcomeView::Found(true);
    match s {
        StageView::Begin => (StageView::Reported, ActionView::ReportDownload),
        StageView::Reported => (StageView::Downloaded, ActionView::Download),
        StageView::Downloaded => match o {
            OutcomeView::Failed(e) => finish(Err(e)),
            _ => (StageView::StagingProbed, ActionView::Probe(Place::Staging)),
        },
        StageView::StagingProbed => if found {
            (StageView::StagingCleared, ActionView::RemoveDirAll(Place::Staging))
        } else {
            (StageView::StagingCreated, ActionView::CreateDirAll(Place::Staging))
        },
        StageView::StagingCleared => match o {
            OutcomeView::Failed(e) => failure("清理临时目录失败："@, e),
            _ => (StageView::StagingCreated, ActionView::CreateDirAll(Place::Staging)),
        },
        StageView::StagingCreated => match o {
            OutcomeView::Failed(e) => failure("创建临时目录失败："@, e),
            _ => (StageView::Extracted, ActionView::Extract),
        },
        StageView::Extracted => match o {
            OutcomeView::Failed(e) => finish(Err(e)),
            _ => (StageView::EntryProbed, ActionView::Probe(Place::StagedEntry)),
        },
        StageView::EntryProbed => if found {
            (StageView::BackupProbed, ActionView::Probe(Place::Backup))
        } else {
            finish(Err(missing_runtime_message()))
        },
        StageView::BackupProbed => if found {
            (StageView::BackupCleared, ActionView::RemoveDirAll(Place::Backup))
        } else {
            (StageView::RuntimeProbed, ActionView::Probe(Place::Runtime))
        },
        StageView::BackupCleared => match o {
            OutcomeView::Failed(e) => failure("清理备份失败："@, e),
            _ => (StageView::RuntimeProbed, ActionView::Probe(Place::Runtime)),
        },
        StageView::RuntimeProbed => if found {
            (StageView::RuntimeMovedAside, ActionView::Rename(Place::Runtime, Place::Backup))
        } else {
            (StageView::Replaced, ActionView::Rename(Place::StagedRuntime, Place::Runtime))
        },
        StageView::RuntimeMovedAside => match o {
            OutcomeView::Failed(e) => failure("备份旧运行时失败："@, e),
            _ => (StageView::Replaced, ActionView::Rename(Place::StagedRuntime, Place::Runtime)),
        },
        StageView::Replaced => match o {
            OutcomeView::Failed(e) => (StageView::RestoreProbed(e), ActionView::Probe(Place::Backup)),
            _ => (StageView::LeftoverProbed, ActionView::Probe(Place::Backup)),
        },
        StageView::RestoreProbed(e) => if found {
            (StageView::Restored(e), ActionView::Rename(Place::Backup, Place::Runtime))
        } else {
            failure(replace_failed_prefix(), e)
        },
        StageView::Restored(e) => failure(replace_failed_prefix(), e),
        StageView::LeftoverProbed => if found {
            (StageView::LeftoverRemoved, ActionView::RemoveDirAll(Place::Backup))
        } else {
            (StageView::ZipRemoved, ActionView::RemoveFile(Place::DownloadZip))
        },
        StageView::LeftoverRemoved => (StageView::ZipRemoved, ActionView::RemoveFile(Place::DownloadZip)),
        StageView::ZipRemoved => (StageView::StagingRemoved, ActionView::RemoveDirAll(Place::Staging)),
        StageView::StagingRemoved => finish(Ok(())),
        StageView::Finished(result) => finish(result),
    }
}

/// Downloads the latest runtime archive and swaps it in for the runtime directory, for the
/// first install and for updates alike, as a series of steps that the caller carries out.
/// No process may hold files of the runtime meanwhile.
pub struct RuntimeInstall {
    stage: Stage,
}

impl View for RuntimeInstall {
    type V = StageView;

    closed spec fn view(&self) -> StageView {
        self.stage@
    }
}

fn prefixed(prefix: &str, e: String) -> (r: String)
    ensures
        r@ == prefix@ + e@,
{
    String::from_str(prefix).concat(e.as_str())
}

/// The text of a result.
pub open spec fn result_view(result: Result<(), String>) -> Result<(), Seq<char>> {
    match result {
        Ok(()) => Ok(()),
        Err(e) => Err(e@),
    }
}

fn finished(result: Result<(), String>) -> (r: (Stage, InstallAction))
    ensures
        (r.0@, r.1@) == finish(result_view(result)),
{
    match result {
        Ok(()) => (Stage::Finished(Ok(())), InstallAction::Finish(Ok(()))),
        Err(e) => {
            let c = e.clone();
            (Stage::Finished(Err(e)), InstallAction::Finish(Err(c)))
        },
    }
}

impl RuntimeInstall {
    /// An installation that has not started.
    pub fn new() -> (r: Self)
        ensures
            r@ == StageView::Begin,
    {
        RuntimeInstall { stage: Stage::Begin }
    }

    /// Whether installing is over.
    pub fn is_finished(&self) -> (r: bool)
        ensures
            r == (self@ is Finished),
    {
        match self.stage {
            Stage::Finished(_) => true,
            _ => false,
        }
    }

    /// Takes the outcome of the last action (anything, for the first step) and gives the next
    /// action.
    pub fn step(&mut self, outcome: Outcome) -> (r: InstallAction)
        ensures
            (final(self)@, r@) == install_next(old(self)@, outcome@),
    {
        let found = match &outcome {
            Outcome::Found(b) => *b,
            _ => false,
        };
        let mut stage = Stage::Finished(Ok(()));
        std::mem::swap(&mut stage, &mut self.stage);
        let (next, action) = match stage {
            Stage::Begin => (Stage::Reported, InstallAction::ReportDownload),
            Stage::Reported => (Stage::Downloaded, InstallAction::Download),
            Stage::Downloaded => match outcome {
                Outcome::Failed(e) => finished(Err(e)),
                _ => (Stage::StagingProbed, InstallAction::Probe(Place::Staging)),
            },
            Stage::StagingProbed => if found {
                (Stage::StagingCleared, InstallAction::RemoveDirAll(Place::Staging))
            } else {
                (Stage::StagingCreated, InstallAction::CreateDirAll(Place::Staging))
            },
            Stage::StagingCleared => match outcome {
                Outcome::Failed(e) => finished(Err(prefixed("清理临时目录失败：", e))),
                _ => (Stage::StagingCreated, InstallAction::CreateDirAll(Place::Staging)),
            },
            Stage::StagingCreated => match outcome {
                Outcome::Failed(e) => finished(Err(prefixed("创建临时目录失败：", e))),
                _ => (Stage::Extracted, InstallAction::Extract),
            },
            Stage::Extracted => match outcome {
                Outcome::Failed(e) => finished(Err(e)),
                _ => (Stage::EntryProbed, InstallAction::Probe(Place::StagedEntry)),
            },
            Stage::EntryProbed => if found {
                (Stage::BackupProbed, InstallAction::Probe(Place::Backup))
            } else {
                finished(Err(String::from_str("下载内容缺少 dsh 运行时")))
            },
            Stage::BackupProbed => if found {
                (Stage::BackupCleared, InstallAction::RemoveDirAll(Place::Backup))
            } else {
                (Stage::RuntimeProbed, InstallAction::Probe(Place::Runtime))
            },
            Stage::BackupCleared => match outcome {
                Outcome::Failed(e) => finished(Err(prefixed("清理备份失败：", e))),
                _ => (Stage::RuntimeProbed, InstallAction::Probe(Place::Runtime)),
            },
            Stage::RuntimeProbed => if found {
                (Stage::RuntimeMovedAside, InstallAction::Rename(Place::Runtime, Place::Backup))
            } else {
                (Stage::Replaced, InstallAction::Rename(Place::StagedRuntime, Place::Runtime))
            },
            Stage::RuntimeMovedAside => match outcome {
                Outcome::Failed(e) => finished(Err(prefixed("备份旧运行时失败：", e))),
                _ => (Stage::Replaced, InstallAction::Rename(Place::StagedRuntime, Place::Runtime)),
            },
            Stage::Replaced => match outcome {
                Outcome::Failed(e) => (Stage::RestoreProbed(e), InstallAction::Probe(Place::Backup)),
                _ => (Stage::LeftoverProbed, InstallAction::Probe(Place::Backup)),
            },
            Stage::RestoreProbed(e) => if found {
                (Stage::Restored(e), InstallAction::Rename(Place::Backup, Place::Runtime))
            } else {
                finished(Err(prefixed("替换运行时失败：", e)))
            },
            Stage::Restored(e) => finished(Err(prefixed("替换运行时失败：", e))),
            Stage::LeftoverProbed => if found {
                (Stage::LeftoverRemoved, InstallAction::RemoveDirAll(Place::Backup))
            } else {
                (Stage::ZipRemoved, InstallAction::RemoveFile(Place::DownloadZip))
            },
            Stage::LeftoverRemoved => (Stage::ZipRemoved, InstallAction::RemoveFile(Place::DownloadZip)),
            Stage::ZipRemoved => (Stage::StagingRemoved, InstallAction::RemoveDirAll(Place::Staging)),
            Stage::StagingRemoved => finished(Ok(())),
            Stage::Finished(result) => finished(result),
        };
        self.stage = next;
        action
    }
}

/// How many steps at most are left before installing is over.
pub open spec fn steps_left(s: StageView) -> nat {
    match s {
        StageView::Begin => 19,
        StageView::Reported => 18,
        StageView::Downloaded => 17,
        StageView::StagingProbed => 16,
        StageView::StagingCleared => 15,
        StageView::StagingCreated => 14,
        StageView::Extracted => 13,
        StageView::EntryProbed => 12,
        StageView::BackupProbed => 11,
        StageView::BackupCleared => 10,
        StageView::RuntimeProbed => 9,
        StageView::RuntimeMovedAside => 8,
        StageView::Replaced => 7,
        StageView::RestoreProbed(_) => 6,
        StageView::Restored(_) => 5,
        StageView::LeftoverProbed => 4,
        StageView::LeftoverRemoved => 3,
        StageView::ZipRemoved => 2,
        StageView::StagingRemoved => 1,
        StageView::Finished(_) => 0,
    }
}

/// Installing always comes to an end: each step before the end brings it closer, whatever
/// the outcome; the action `Finish` comes exactly when it ends, and from then on the same
/// result is given again.
pub proof fn law_install_ends(s: StageView, o: OutcomeView)
    ensures
        !(s is Finished) ==> steps_left(install_next(s, o).0) < steps_left(s),
        (install_next(s, o).1 is Finish) == (install_next(s, o).0 is Finished),
        s matches StageView::Finished(result) ==> install_next(s, o) == finish(result),
{
}

/// Where moving the new runtime into place fails, the old runtime, if it was moved aside, is
/// put back, and installing fails with the reason.
pub proof fn law_failed_replacement_restores(e: Seq<char>, o: OutcomeView)
    ensures
        install_next(StageView::Replaced, OutcomeView::Failed(e)) == (
            StageView::RestoreProbed(e),
            ActionView::Probe(Place::Backup),
        ),
        install_next(StageView::RestoreProbed(e), OutcomeView::Found(true)) == (
            StageView::Restored(e),
            ActionView::Rename(Place::Backup, Place::Runtime),
        ),
        install_next(StageView::Restored(e), o) == failure(replace_failed_prefix(), e),
        install_next(StageView::RestoreProbed(e), OutcomeView::Found(false)) == failure(
            replace_failed_prefix(),
            e,
        ),
{
}

/// The stage after the outcomes `os` were fed in turn, from the start.
pub open spec fn install_after(os: Seq<OutcomeView>) -> StageView
    decreases os.len(),
{
    if os.len() == 0 {
        StageView::Begin
    } else {
        install_next(install_after(os.drop_last()), os.last()).0
    }
}

/// The action given at step `k`, where outcome `os[k]` is fed in.
pub open spec fn install_action_at(os: Seq<OutcomeView>, k: int) -> ActionView {
    install_next(install_after(os.take(k)), os[k]).1
}

/// Whether the entry check of the unpacked runtime lies behind: stages from there on to the
/// end of the clean-up.
pub open spec fn past_entry_check(s: StageView) -> bool {
    match s {
        StageView::BackupProbed | StageView::BackupCleared | StageView::RuntimeProbed
        | StageView::RuntimeMovedAside | StageView::Replaced | StageView::RestoreProbed(_)
        | StageView::Restored(_) | StageView::LeftoverProbed | StageView::LeftoverRemoved
        | StageView::ZipRemoved | StageView::StagingRemoved => true,
        StageView::Finished(Ok(())) => true,
        _ => false,
    }
}

/// Whether the new runtime was moved into place: stages of the clean-up, and success.
pub open spec fn past_replacement(s: StageView) -> bool {
    match s {
        StageView::LeftoverProbed | StageView::LeftoverRemoved | StageView::ZipRemoved
        | StageView::StagingRemoved => true,
        StageView::Finished(Ok(())) => true,
        _ => false,
    }
}

proof fn lemma_after_take(os: Seq<OutcomeView>, k: int)
    requires
        0 <= k < os.len(),
    ensures
        install_after(os.take(k + 1)) == install_next(install_after(os.take(k)), os[k]).0,
{
    assert(os.take(k + 1).drop_last() =~= os.take(k));
    assert(os.take(k + 1).last() == os[k]);
}

proof fn lemma_entry_checked(os: Seq<OutcomeView>, k: int) -> (j: int)
    requires
        0 <= k <= os.len(),
        past_entry_check(install_after(os.take(k))),
    ensures
        0 <= j,
        j + 1 < k,
        install_action_at(os, j) == ActionView::Probe(Place::StagedEntry),
        os[j + 1] == OutcomeView::Found(true),
    decreases k,
{
    if k == 0 {
        assert(os.take(0) =~= Seq::<OutcomeView>::empty());
        assert(false);
        0
    } else {
        lemma_after_take(os, k - 1);
        if past_entry_check(install_after(os.take(k - 1))) {
            lemma_entry_checked(os, k - 1)
        } else {
            let prev = install_after(os.take(k - 1));
            assert(prev == StageView::EntryProbed);
            if k - 1 == 0 {
                assert(os.take(0) =~= Seq::<OutcomeView>::empty());
                assert(false);
            }
            lemma_after_take(os, k - 2);
            k - 2
        }
    }
}

proof fn lemma_replaced(os: Seq<OutcomeView>, k: int) -> (j: int)
    requires
        0 <= k <= os.len(),
        past_replacement(install_after(os.take(k))),
    ensures
        0 <= j,
        j + 1 < k,
        install_action_at(os, j) == ActionView::Rename(Place::StagedRuntime, Place::Runtime),
        !(os[j + 1] is Failed),
    decreases k,
{
    if k == 0 {
        assert(os.take(0) =~= Seq::<OutcomeView>::empty());
        assert(false);
        0
    } else {
        lemma_after_take(os, k - 1);
        if past_replacement(install_after(os.take(k - 1))) {
            lemma_replaced(os, k - 1)
        } else {
            let prev = install_after(os.take(k - 1));
            assert(prev == StageView::Replaced);
            if k - 1 == 0 {
                assert(os.take(0) =~= Seq::<OutcomeView>::empty());
                assert(false);
            }
            lemma_after_take(os, k - 2);
            k - 2
        }
    }
}

/// The current runtime is touched, moved aside or replaced, only after the unpacked archive
/// was found to hold dsh's entry script: whatever the outcomes, an earlier step probed
/// `StagedEntry` and found it.
pub proof fn law_runtime_touched_only_after_check(os: Seq<OutcomeView>, k: int)
    requires
        0 <= k < os.len(),
        install_action_at(os, k) == ActionView::Rename(Place::Runtime, Place::Backup)
            || install_action_at(os, k) == ActionView::Rename(Place::StagedRuntime, Place::Runtime),
    ensures
        exists|j: int|
            0 <= j && j + 1 < k && install_action_at(os, j) == ActionView::Probe(Place::StagedEntry)
                && os[j + 1] == OutcomeView::Found(true),
{
    let j = lemma_entry_checked(os, k);
    assert(install_action_at(os, j) == ActionView::Probe(Place::StagedEntry));
}

/// Installing succeeds only after the new runtime was moved into place: whatever the
/// outcomes, an earlier step renamed the unpacked runtime to the runtime directory, and that
/// did not fail.
pub proof fn law_success_only_after_replacement(os: Seq<OutcomeView>, k: int)
    requires
        0 <= k < os.len(),
        install_action_at(os, k) == ActionView::Finish(Ok(())),
    ensures
        exists|j: int|
            0 <= j && j + 1 < k && install_action_at(os, j) == ActionView::Rename(
                Place::StagedRuntime,
                Place::Runtime,
            ) && !(os[j + 1] is Failed),
{
    let s = install_after(os.take(k));
    assert(s == StageView::StagingRemoved || s == StageView::Finished(Ok::<(), Seq<char>>(())));
    let j = lemma_replaced(os, k);
    assert(install_action_at(os, j) == ActionView::Rename(Place::StagedRuntime, Place::Runtime));
}

/// How many archive entries pass between two progress reports while unpacking.
pub const EXTRACT_REPORT_EVERY: usize = 200;

/// Whether unpacking reports its progress after entry `i` of `total`: after every 200th
/// entry, and after the last, so that the window is not flooded with events.
pub fn extract_progress_due(i: usize, total: usize) -> (r: bool)
    requires
        i < total,
    ensures
        r == (i % 200 == 199 || i + 1 == total),
{
    i % EXTRACT_REPORT_EVERY == EXTRACT_REPORT_EVERY - 1 || i + 1 == total
}

/// What an archive entry is unpacked as.
#[derive(PartialEq, Eq, Structural, Clone, Copy, Debug)]
pub enum EntryKind {
    /// A directory, created with its parents.
    Directory,
    /// A file, written after its parent directories are created.
    File,
}

/// The message where an archive entry's name would leave the target directory.
pub open spec fn unsafe_entry_message() -> Seq<char> {
    "压缩包内存在非法路径"@
}

/// How an archive entry is unpacked: an entry whose name would leave the target directory
/// (no enclosed name) stops unpacking with an error; otherwise a directory entry becomes a
/// directory and any other a file.
pub fn extract_entry_kind(enclosed: bool, is_dir: bool) -> (r: Result<EntryKind, String>)
    ensures
        !enclosed ==> (r matches Err(m) && m@ == unsafe_entry_message()),
        enclosed && is_dir ==> r == Ok::<EntryKind, String>(EntryKind::Directory),
        enclosed && !is_dir ==> r == Ok::<EntryKind, String>(EntryKind::File),
{
    if !enclosed {
        Err(String::from_str("压缩包内存在非法路径"))
    } else if is_dir {
        Ok(EntryKind::Directory)
    } else {
        Ok(EntryKind::File)
    }
}

/// Whether the download by the system's `curl` can be used: `curl` succeeded and left a file
/// of more than 1024 bytes (`size` is `None` where its size could not be read). Otherwise the
/// download is tried again without `curl`.
pub fn curl_download_usable(succeeded: bool, exists: bool, size: Option<u64>) -> (r: bool)
    ensures
        r == (succeeded && exists && (size matches Some(n) && n > 1024)),
{
    succeeded && exists && match size {
        Some(n) => n > 1024,
        None => false,
    }
}

/// Whether a runtime left at the place of older versions (inside the install directory) is
/// moved to the runtime directory: there is none at the runtime directory yet, there is one at
/// the old place, and the two places differ.
pub fn should_migrate_legacy(runtime_exists: bool, legacy_exists: bool, same_place: bool) -> (r: bool)
    ensures
        r == (!runtime_exists && legacy_exists && !same_place),
{
    !runtime_exists && legacy_exists && !same_place
}

proof fn lemma_stays_replaced(os: Seq<OutcomeView>, j: int, k: int)
    requires
        0 <= j,
        j + 1 < k <= os.len(),
        install_action_at(os, j) == ActionView::Rename(Place::StagedRuntime, Place::Runtime),
        !(os[j + 1] is Failed),
    ensures
        past_replacement(install_after(os.take(k))),
    decreases k,
{
    lemma_after_take(os, k - 1);
    if k > j + 2 {
        lemma_stays_replaced(os, j, k - 1);
    } else {
        lemma_after_take(os, j);
        let s = install_after(os.take(j));
        assert(s == StageView::RuntimeProbed || s == StageView::RuntimeMovedAside);
        assert(install_after(os.take(j + 1)) == StageView::Replaced);
    }
}

/// Once the unpacked runtime was moved into the runtime directory without failure,
/// installing succeeds whatever comes of the clean-up (removing the old runtime, the archive
/// and the staging directory): every later `Finish` carries success, never an error.
pub proof fn law_replaced_runtime_is_success(os: Seq<OutcomeView>, j: int, k: int)
    requires
        0 <= j,
        j + 1 < k < os.len(),
        install_action_at(os, j) == ActionView::Rename(Place::StagedRuntime, Place::Runtime),
        !(os[j + 1] is Failed),
        install_action_at(os, k) is Finish,
    ensures
        install_action_at(os, k) matches ActionView::Finish(r) && r is Ok,
{
    lemma_stays_replaced(os, j, k);
}

} // verus!
