//! Downloading and installing a new version: what the progress window is told
//! and how the shell carries on afterwards.
use vstd::prelude::*;

use crate::desktop::{
    Dialog, DialogButtons, DialogButtonsView, DialogView, PageWindow, PageWindowView, Platform,
    WindowFlag,
};
use crate::text::{joined, text_reply};

verus! {

/// Event under which progress is emitted.
pub const PROGRESS_EVENT: &'static str = "update:progress";

/// Bytes that arrive between two reports at least, so that small chunks do not
/// flood the progress window.
pub const REPORT_STEP: u64 = 262_144;

/// One report to the progress window.
pub struct UpdateProgress {
    /// Bytes received so far.
    pub downloaded: u64,
    /// Bytes in all, where the server announced them.
    pub total: Option<u64>,
    /// `start`, `downloading`, `installing`, `done` or `error`.
    pub status: String,
    /// What went wrong, with the status `error`.
    pub message: Option<String>,
}

/// The mathematical content of an `UpdateProgress`.
#[verifier::ext_equal]
pub struct ProgressView {
    pub downloaded: nat,
    pub total: Option<u64>,
    pub status: Seq<char>,
    pub message: Option<Seq<char>>,
}

impl View for UpdateProgress {
    type V = ProgressView;

    open spec fn view(&self) -> ProgressView {
        ProgressView {
            downloaded: self.downloaded as nat,
            total: self.total,
            status: self.status@,
            message: match self.message {
                Some(text) => Some(text@),
                None => None,
            },
        }
    }
}

/// A report that carries a status and nothing else.
pub open spec fn status_only(status: Seq<char>) -> ProgressView {
    ProgressView { downloaded: 0, total: None, status, message: None }
}

fn bare_progress(status: &str) -> (progress: UpdateProgress)
    ensures
        progress@ == status_only(status@),
{
    UpdateProgress { downloaded: 0, total: None, status: status.to_owned(), message: None }
}

/// The window that shows the progress.
pub fn progress_window() -> (window: PageWindow)
    ensures
        window@ == (PageWindowView {
            label: "update_progress"@,
            page: "update-progress.html"@,
            title: "正在更新"@,
            width: 460,
            height: 160,
            flags: seq![WindowFlag::Resizable(false), WindowFlag::Center],
        }),
{
    let mut flags: Vec<WindowFlag> = Vec::new();
    flags.push(WindowFlag::Resizable(false));
    flags.push(WindowFlag::Center);
    PageWindow {
        label: "update_progress".to_owned(),
        page: "update-progress.html".to_owned(),
        title: "正在更新".to_owned(),
        width: 460,
        height: 160,
        flags,
    }
}

/// The report that opens a download, where `window_built` says whether there is a
/// window to show it. Without one the download goes on unseen.
pub open spec fn opening_report(window_built: bool) -> ProgressView {
    status_only("start"@)
}

/// The report that opens a download. A window that could not be built does not
/// keep the download from starting.
#[allow(unused_variables)]
pub fn download_started(window_built: bool) -> (progress: UpdateProgress)
    ensures
        progress@ == opening_report(window_built),
{
    bare_progress("start")
}

/// The report once all bytes are there and the installer takes over.
pub open spec fn installing_report() -> ProgressView {
    status_only("installing"@)
}

/// The report once all bytes are there and the installer takes over.
pub fn download_finished() -> (progress: UpdateProgress)
    ensures
        progress@ == installing_report(),
{
    bare_progress("installing")
}

/// Counts the bytes of a download and remembers how many were last reported.
pub struct Download {
    received: u64,
    reported: u64,
}

/// The mathematical content of a `Download`.
#[verifier::ext_equal]
pub struct DownloadState {
    pub received: nat,
    pub reported: nat,
}

impl DownloadState {
    /// A download of which nothing has arrived.
    pub open spec fn initial() -> DownloadState {
        DownloadState { received: 0, reported: 0 }
    }

    /// The report never runs ahead of what arrived, and never falls a whole step
    /// behind it.
    pub open spec fn wf(self) -> bool {
        self.reported <= self.received < self.reported + REPORT_STEP
    }

    /// Whether a chunk of this size is due a report.
    pub open spec fn due(self, chunk: nat) -> bool {
        self.received + chunk >= self.reported + REPORT_STEP
    }

    /// The report on a chunk, where it is due one.
    pub open spec fn report(self, chunk: nat, total: Option<u64>) -> Option<ProgressView> {
        if self.due(chunk) {
            Some(
                ProgressView {
                    downloaded: self.received + chunk,
                    total,
                    status: "downloading"@,
                    message: None,
                },
            )
        } else {
            None
        }
    }

    /// The state after a chunk of this size.
    pub open spec fn after(self, chunk: nat) -> DownloadState {
        DownloadState {
            received: self.received + chunk,
            reported: if self.due(chunk) {
                self.received + chunk
            } else {
                self.reported
            },
        }
    }

    /// The state after chunks of these sizes.
    pub open spec fn after_all(self, chunks: Seq<nat>) -> DownloadState
        decreases chunks.len(),
    {
        if chunks.len() == 0 {
            self
        } else {
            self.after_all(chunks.drop_last()).after(chunks.last())
        }
    }

    /// The byte counts reported while chunks of these sizes arrive.
    pub open spec fn reports(self, chunks: Seq<nat>) -> Seq<nat>
        decreases chunks.len(),
    {
        if chunks.len() == 0 {
            Seq::empty()
        } else {
            let init = chunks.drop_last();
            if self.after_all(init).due(chunks.last()) {
                self.reports(init).push(self.after_all(chunks).received)
            } else {
                self.reports(init)
            }
        }
    }
}

impl View for Download {
    type V = DownloadState;

    closed spec fn view(&self) -> DownloadState {
        DownloadState { received: self.received as nat, reported: self.reported as nat }
    }
}

impl Download {
    /// A download of which nothing has arrived.
    pub fn new() -> (download: Download)
        ensures
            download@ == DownloadState::initial(),
            download@.wf(),
    {
        Download { received: 0, reported: 0 }
    }

    /// Bytes received so far.
    pub fn received(&self) -> (received: u64)
        ensures
            received == self@.received,
    {
        self.received
    }

    /// Counts a chunk and returns the report that it is due, if it is due one.
    pub fn on_chunk(&mut self, chunk: usize, total: Option<u64>) -> (report: Option<UpdateProgress>)
        requires
            old(self)@.wf(),
            old(self)@.received + chunk <= u64::MAX,
        ensures
            final(self)@ == old(self)@.after(chunk as nat),
            final(self)@.wf(),
            (match report {
                Some(progress) => Some(progress@),
                None => None,
            }) == old(self)@.report(chunk as nat, total),
    {
        self.received = self.received + chunk as u64;
        if self.received - self.reported >= REPORT_STEP {
            self.reported = self.received;
            Some(
                UpdateProgress {
                    downloaded: self.received,
                    total,
                    status: "downloading".to_owned(),
                    message: None,
                },
            )
        } else {
            None
        }
    }
}

/// How a download ended.
pub enum Completion {
    /// Report the end, start the new version where `relaunch` says so, and exit.
    Installed { progress: UpdateProgress, relaunch: bool },
    /// Report the failure and tell the user.
    Failed { progress: UpdateProgress, dialog: Dialog },
}

/// The mathematical content of a `Completion`.
pub enum CompletionView {
    Installed { progress: ProgressView, relaunch: bool },
    Failed { progress: ProgressView, dialog: DialogView },
}

impl View for Completion {
    type V = CompletionView;

    open spec fn view(&self) -> CompletionView {
        match self {
            Completion::Installed { progress, relaunch } => CompletionView::Installed {
                progress: progress@,
                relaunch: *relaunch,
            },
            Completion::Failed { progress, dialog } => CompletionView::Failed {
                progress: progress@,
                dialog: dialog@,
            },
        }
    }
}

/// What is said of a failure.
pub open spec fn failure_message(error: Seq<char>) -> Seq<char> {
    "下载/安装失败："@ + error
}

/// The report that closes a download.
pub open spec fn closing_report(result: Result<(), Seq<char>>) -> ProgressView {
    match result {
        Ok(_) => status_only("done"@),
        Err(error) => ProgressView {
            downloaded: 0,
            total: None,
            status: "error"@,
            message: Some(failure_message(error)),
        },
    }
}

/// How a download ends. On Windows the installer starts the new version itself.
pub open spec fn completion(platform: Platform, result: Result<(), Seq<char>>) -> CompletionView {
    match result {
        Ok(_) => CompletionView::Installed {
            progress: closing_report(result),
            relaunch: platform != Platform::Windows,
        },
        Err(error) => CompletionView::Failed {
            progress: closing_report(result),
            dialog: DialogView {
                title: "更新失败"@,
                message: failure_message(error),
                buttons: DialogButtonsView::Default,
            },
        },
    }
}

/// Carries on after the updater came back.
pub fn download_completed(platform: Platform, result: Result<(), String>) -> (end: Completion)
    ensures
        end@ == completion(platform, text_reply(result)),
{
    match result {
        Ok(_) => Completion::Installed {
            progress: bare_progress("done"),
            relaunch: platform != Platform::Windows,
        },
        Err(error) => {
            let message = joined("下载/安装失败：", error.as_str());
            Completion::Failed {
                progress: UpdateProgress {
                    downloaded: 0,
                    total: None,
                    status: "error".to_owned(),
                    message: Some(message.clone()),
                },
                dialog: Dialog {
                    title: "更新失败".to_owned(),
                    message,
                    buttons: DialogButtons::Default,
                },
            }
        },
    }
}

/// The bytes in a run of chunks.
pub open spec fn sum(chunks: Seq<nat>) -> nat
    decreases chunks.len(),
{
    if chunks.len() == 0 {
        0
    } else {
        sum(chunks.drop_last()) + chunks.last()
    }
}

/// Chunks are counted without loss, and the report stays less than a step behind
/// whatever the sizes of the chunks.
pub proof fn law_nothing_lost(state: DownloadState, chunks: Seq<nat>)
    requires
        state.wf(),
    ensures
        state.after_all(chunks).received == state.received + sum(chunks),
        state.after_all(chunks).wf(),
    decreases chunks.len(),
{
    if chunks.len() > 0 {
        law_nothing_lost(state, chunks.drop_last());
    }
}

/// Every report gives the bytes that had arrived by the end of some chunk.
pub proof fn law_reports_are_totals(state: DownloadState, chunks: Seq<nat>, i: int)
    requires
        state.wf(),
        0 <= i < state.reports(chunks).len(),
    ensures
        exists|k: int|
            0 < k <= chunks.len() && state.reports(chunks)[i] == state.received + sum(
                #[trigger] chunks.take(k),
            ),
    decreases chunks.len(),
{
    if chunks.len() > 0 {
        let init = chunks.drop_last();
        law_nothing_lost(state, chunks);
        if i < state.reports(init).len() {
            law_reports_are_totals(state, init, i);
            let k = choose|k: int|
                0 < k <= init.len() && state.reports(init)[i] == state.received + sum(
                    #[trigger] init.take(k),
                );
            assert(chunks.take(k) == init.take(k));
        } else {
            assert(chunks.take(chunks.len() as int) == chunks);
        }
    }
}

/// Two reports in a row are at least a step apart, and so is the first one from
/// the last report before it.
pub proof fn law_reports_spaced(state: DownloadState, chunks: Seq<nat>)
    requires
        state.wf(),
    ensures
        ({
            let reports = state.reports(chunks);
            &&& reports.len() > 0 ==> reports[0] >= state.reported + REPORT_STEP
            &&& forall|i: int|
                #![trigger reports[i]]
                0 < i < reports.len() ==> reports[i] >= reports[i - 1] + REPORT_STEP
            &&& state.after_all(chunks).reported == (if reports.len() > 0 {
                reports.last()
            } else {
                state.reported
            })
        }),
    decreases chunks.len(),
{
    if chunks.len() > 0 {
        let init = chunks.drop_last();
        law_reports_spaced(state, init);
        let before = state.reports(init);
        let reports = state.reports(chunks);
        assert forall|i: int| #![trigger reports[i]] 0 < i < reports.len() implies reports[i]
            >= reports[i - 1] + REPORT_STEP by {
            assert(reports[i - 1] == before[i - 1]);
            if i < before.len() {
                assert(reports[i] == before[i]);
            } else {
                assert(before.last() == before[i - 1]);
            }
        }
    }
}

/// A download makes at most one report for each full step of bytes.
pub proof fn law_reports_bounded(chunks: Seq<nat>)
    ensures
        DownloadState::initial().reports(chunks).len() * REPORT_STEP <= sum(chunks),
{
    lemma_reports_bounded(DownloadState::initial(), chunks);
}

proof fn lemma_reports_bounded(state: DownloadState, chunks: Seq<nat>)
    requires
        state.wf(),
    ensures
        state.reported + state.reports(chunks).len() * REPORT_STEP <= state.after_all(
            chunks,
        ).reported,
        state.after_all(chunks).reported <= state.received + sum(chunks),
    decreases chunks.len(),
{
    law_nothing_lost(state, chunks);
    if chunks.len() > 0 {
        lemma_reports_bounded(state, chunks.drop_last());
    }
}

/// A chunk as the updater announces it: its size, and the bytes in all where the
/// server gave them.
pub struct Chunk {
    pub size: nat,
    pub total: Option<u64>,
}

/// The sizes of chunks.
pub open spec fn sizes(chunks: Seq<Chunk>) -> Seq<nat> {
    chunks.map_values(|chunk: Chunk| chunk.size)
}

impl DownloadState {
    /// The reports made while these chunks arrive.
    pub open spec fn chunk_reports(self, chunks: Seq<Chunk>) -> Seq<ProgressView>
        decreases chunks.len(),
    {
        if chunks.len() == 0 {
            Seq::empty()
        } else {
            let init = chunks.drop_last();
            let last = chunks.last();
            match self.after_all(sizes(init)).report(last.size, last.total) {
                Some(progress) => self.chunk_reports(init).push(progress),
                None => self.chunk_reports(init),
            }
        }
    }
}

/// The reports on chunks give the byte counts of `DownloadState::reports`, each
/// with the status `downloading` and no message.
pub proof fn law_chunk_reports(state: DownloadState, chunks: Seq<Chunk>)
    ensures
        state.chunk_reports(chunks).len() == state.reports(sizes(chunks)).len(),
        forall|i: int|
            0 <= i < state.chunk_reports(chunks).len() ==> {
                let progress = #[trigger] state.chunk_reports(chunks)[i];
                &&& progress.downloaded == state.reports(sizes(chunks))[i]
                &&& progress.status == "downloading"@
                &&& progress.message is None
            },
    decreases chunks.len(),
{
    if chunks.len() > 0 {
        let init = chunks.drop_last();
        law_chunk_reports(state, init);
        assert(sizes(chunks).drop_last() == sizes(init));
        assert(sizes(chunks).last() == chunks.last().size);
        let before = state.chunk_reports(init);
        let after = state.chunk_reports(chunks);
        assert forall|i: int| 0 <= i < after.len() implies {
            let progress = #[trigger] after[i];
            &&& progress.downloaded == state.reports(sizes(chunks))[i]
            &&& progress.status == "downloading"@
            &&& progress.message is None
        } by {
            if i < before.len() {
                assert(after[i] == before[i]);
            }
        }
    }
}

/// One download from the click to its end: whether there was a window to show it,
/// the chunks that arrived, whether they were all there before the updater came
/// back, and what it came back with.
pub struct DownloadRun {
    pub window_built: bool,
    pub chunks: Seq<Chunk>,
    pub finished: bool,
    pub platform: Platform,
    pub result: Result<(), Seq<char>>,
}

impl DownloadRun {
    /// All reports of the download, in order.
    pub open spec fn reports(self) -> Seq<ProgressView> {
        let opening = seq![opening_report(self.window_built)];
        let during = DownloadState::initial().chunk_reports(self.chunks);
        let installing = if self.finished {
            seq![installing_report()]
        } else {
            Seq::empty()
        };
        opening + during + installing + seq![closing_report(self.result)]
    }

    /// How many of the reports are about chunks.
    pub open spec fn chunk_count(self) -> nat {
        DownloadState::initial().chunk_reports(self.chunks).len()
    }

    /// What the shell does in the end.
    pub open spec fn ending(self) -> CompletionView {
        completion(self.platform, self.result)
    }
}

/// The reports of a download come in order: `start` first, then any number of
/// `downloading`, then `installing` if and only if all bytes arrived, and in the
/// end `done` or `error`, as the updater came back.
pub proof fn law_report_order(run: DownloadRun)
    ensures
        ({
            let reports = run.reports();
            let n = run.chunk_count() as int;
            let last = reports.len() - 1;
            &&& last == 1 + n + if run.finished {
                1int
            } else {
                0int
            }
            &&& reports[0] == status_only("start"@)
            &&& forall|i: int|
                1 <= i <= n ==> (#[trigger] reports[i]).status == "downloading"@
            &&& run.finished ==> reports[n + 1] == status_only("installing"@)
            &&& forall|i: int|
                0 <= i < reports.len() ==> ((#[trigger] reports[i]).status == "installing"@
                    <==> run.finished && i == n + 1)
            &&& reports[last] == closing_report(run.result)
            &&& reports[last].status == "done"@ <==> run.result is Ok
            &&& reports[last].status == "error"@ <==> run.result is Err
        }),
{
    law_chunk_reports(DownloadState::initial(), run.chunks);
    lemma_statuses_differ();
    let during = DownloadState::initial().chunk_reports(run.chunks);
    let reports = run.reports();
    assert forall|i: int| 1 <= i <= during.len() implies (#[trigger] reports[i]).status
        == "downloading"@ by {
        assert(reports[i] == during[i - 1]);
    }
    assert forall|i: int| 0 <= i < reports.len() implies ((#[trigger] reports[i]).status
        == "installing"@ <==> run.finished && i == during.len() + 1) by {
        if 1 <= i <= during.len() {
            assert(reports[i] == during[i - 1]);
        }
    }
}

/// A report carries a message if and only if its status is `error`, and only the
/// last report of a failed download does.
pub proof fn law_message_only_on_error(run: DownloadRun, i: int)
    requires
        0 <= i < run.reports().len(),
    ensures
        run.reports()[i].message is Some <==> run.reports()[i].status == "error"@,
        run.reports()[i].status == "error"@ <==> i == run.reports().len() - 1 && run.result is Err,
{
    law_chunk_reports(DownloadState::initial(), run.chunks);
    lemma_statuses_differ();
    let during = DownloadState::initial().chunk_reports(run.chunks);
    if 1 <= i <= during.len() {
        assert(run.reports()[i] == during[i - 1]);
    }
}

/// A progress window that could not be built changes nothing but what the user
/// sees: the download makes the same reports and ends in the same way.
pub proof fn law_window_optional(a: DownloadRun, b: DownloadRun)
    requires
        a.chunks == b.chunks,
        a.finished == b.finished,
        a.platform == b.platform,
        a.result == b.result,
    ensures
        a.reports() == b.reports(),
        a.ending() == b.ending(),
{
}

proof fn lemma_statuses_differ()
    ensures
        "error"@ != "start"@,
        "error"@ != "downloading"@,
        "error"@ != "installing"@,
        "error"@ != "done"@,
        "installing"@ != "start"@,
        "installing"@ != "downloading"@,
        "installing"@ != "done"@,
{
    reveal_strlit("error");
    reveal_strlit("start");
    reveal_strlit("downloading");
    reveal_strlit("installing");
    reveal_strlit("done");
    assert("error"@[0] == 'e');
    assert("start"@[0] == 's');
    assert("downloading"@[0] == 'd');
    assert("installing"@[0] == 'i');
    assert("done"@[0] == 'd');
}

/// A chunk is reported if and only if it brings what arrived to 262144 bytes or
/// more above the last report. The report gives all that arrived and the total
/// that came with the chunk, unchanged, and the next step is counted from it; a
/// chunk without a report is counted all the same.
pub proof fn law_chunk_reported(state: DownloadState, chunk: nat, total: Option<u64>)
    ensures
        state.report(chunk, total) is Some <==> state.received + chunk - state.reported >= 262_144,
        state.after(chunk).received == state.received + chunk,
        match state.report(chunk, total) {
            Some(progress) => {
                &&& progress.downloaded == state.received + chunk
                &&& progress.total == total
                &&& progress.status == "downloading"@
                &&& progress.message is None
                &&& state.after(chunk).reported == progress.downloaded
            },
            None => state.after(chunk).reported == state.reported,
        },
{
}

/// A chunk makes at most one report, and that report carries the total that came
/// with the chunk, unchanged: where the report with number `i` is made by the
/// chunk with number `k`, it has the total of that chunk.
pub proof fn law_reports_carry_totals(state: DownloadState, chunks: Seq<Chunk>, k: int)
    requires
        0 <= k < chunks.len(),
    ensures
        ({
            let i = state.chunk_reports(chunks.take(k)).len() as int;
            let after = state.chunk_reports(chunks.take(k + 1)).len() as int;
            &&& after == i || after == i + 1
            &&& after == i + 1 ==> i < state.chunk_reports(chunks).len() && state.chunk_reports(
                chunks,
            )[i].total == chunks[k].total
        }),
    decreases chunks.len(),
{
    let init = chunks.drop_last();
    if k == chunks.len() - 1 {
        assert(chunks.take(k) == init);
        assert(chunks.take(k + 1) == chunks);
        assert(chunks[k] == chunks.last());
    } else {
        assert(init.take(k) == chunks.take(k));
        assert(init.take(k + 1) == chunks.take(k + 1));
        assert(init[k] == chunks[k]);
        law_reports_carry_totals(state, init, k);
    }
}

/// Every report on chunks is made by some chunk: it carries the total that came
/// with it.
pub proof fn law_reports_made_by_chunks(state: DownloadState, chunks: Seq<Chunk>, i: int)
    requires
        0 <= i < state.chunk_reports(chunks).len(),
    ensures
        exists|k: int|
            #![trigger chunks.take(k)]
            0 <= k < chunks.len() && state.chunk_reports(chunks.take(k)).len() == i
                && state.chunk_reports(chunks.take(k + 1)).len() == i + 1 && state.chunk_reports(
                chunks,
            )[i].total == chunks[k].total,
    decreases chunks.len(),
{
    let init = chunks.drop_last();
    let n = chunks.len() - 1;
    assert(chunks.take(n) == init);
    assert(chunks.take(n + 1) == chunks);
    if i < state.chunk_reports(init).len() {
        law_reports_made_by_chunks(state, init, i);
        let k = choose|k: int|
            #![trigger init.take(k)]
            0 <= k < init.len() && state.chunk_reports(init.take(k)).len() == i
                && state.chunk_reports(init.take(k + 1)).len() == i + 1 && state.chunk_reports(
                init,
            )[i].total == init[k].total;
        assert(init.take(k) == chunks.take(k));
        assert(init.take(k + 1) == chunks.take(k + 1));
        assert(init[k] == chunks[k]);
    } else {
        assert(chunks[n] == chunks.last());
    }
}

/// Bytes and totals stand in the reports on chunks alone: the reports at the start,
/// at the installation and at the end carry none.
pub proof fn law_status_reports_bare(window_built: bool, result: Result<(), Seq<char>>)
    ensures
        opening_report(window_built).downloaded == 0 && opening_report(window_built).total is None
            && opening_report(window_built).message is None,
        opening_report(window_built).status == "start"@,
        installing_report().downloaded == 0 && installing_report().total is None
            && installing_report().message is None,
        installing_report().status == "installing"@,
        closing_report(result).downloaded == 0 && closing_report(result).total is None,
{
}

/// A download that failed says why, whole and in the same words, in its last
/// report and in a dialog, and starts nothing. One that was installed says nothing
/// more, and starts the new version on every platform but Windows.
pub proof fn law_ending_tells(platform: Platform, result: Result<(), Seq<char>>)
    ensures
        result matches Err(error) ==> (completion(platform, result) matches CompletionView::Failed {
            progress,
            dialog,
        } && progress.status == "error"@ && progress.message == Some("下载/安装失败："@ + error)
            && progress.downloaded == 0 && progress.total is None && dialog.title == "更新失败"@
            && dialog.message == "下载/安装失败："@ + error && dialog.buttons is Default),
        result is Ok ==> (completion(platform, result) matches CompletionView::Installed {
            progress,
            relaunch,
        } && progress.status == "done"@ && progress.message is None && progress.downloaded == 0
            && progress.total is None && relaunch == !(platform is Windows)),
{
}

/// A download starts with nothing received and nothing reported.
pub proof fn law_new_download(download: Download, received: u64)
    requires
        Download::new.ensures((), download),
        Download::received.ensures((&download,), received),
    ensures
        download@.received == 0,
        download@.reported == 0,
        received == 0,
{
}

/// What was received can be asked for at any time.
pub proof fn law_received_known(download: Download, received: u64)
    requires
        Download::received.ensures((&download,), received),
    ensures
        received == download@.received,
{
}

/// Taking in a chunk counts its bytes, and reports them where they bring what
/// arrived to 262144 bytes or more above the last report. The report gives all
/// that arrived and passes the total of this chunk on as it came.
pub proof fn law_chunk_taken_in(
    download: &mut Download,
    chunk: usize,
    total: Option<u64>,
    report: Option<UpdateProgress>,
)
    requires
        call_ensures(Download::on_chunk, (download, chunk, total), report),
    ensures
        final(download)@.received == old(download)@.received + chunk,
        report is Some <==> old(download)@.received + chunk - old(download)@.reported >= 262_144,
        report matches Some(progress) ==> {
            &&& progress.downloaded == old(download)@.received + chunk
            &&& progress.total == total
            &&& progress.status@ == "downloading"@
            &&& progress.message is None
            &&& final(download)@.reported == progress.downloaded
        },
        report is None ==> final(download)@.reported == old(download)@.reported,
{
    law_chunk_reported(old(download)@, chunk as nat, total);
    if let Some(progress) = report {
        assert(Some(progress@) == old(download)@.report(chunk as nat, total));
        assert(progress@.downloaded == progress.downloaded);
        assert(progress@.message is None);
    }
}

/// The reports before and after the chunks carry their status and nothing else,
/// and the first one does not depend on the window.
pub proof fn law_bare_reports(window_built: bool, start: UpdateProgress, installing: UpdateProgress)
    requires
        download_started.ensures((window_built,), start),
        download_finished.ensures((), installing),
    ensures
        start.status@ == "start"@,
        start.downloaded == 0 && start.total is None && start.message is None,
        installing.status@ == "installing"@,
        installing.downloaded == 0 && installing.total is None && installing.message is None,
{
    law_status_reports_bare(window_built, Ok(()));
    assert(start@.downloaded == start.downloaded && start@.message is None);
    assert(installing@.downloaded == installing.downloaded && installing@.message is None);
}

/// An update that was installed is reported as done, and the new version is
/// started on every platform but Windows. One that failed is reported and shown
/// with its reason, whole, on every platform.
pub proof fn law_download_ends(platform: Platform, result: Result<(), String>, end: Completion)
    requires
        download_completed.ensures((platform, result), end),
    ensures
        result is Ok ==> (end matches Completion::Installed { progress, relaunch }
            && progress.status@ == "done"@ && progress.downloaded == 0 && progress.total is None
            && progress.message is None && relaunch == !(platform is Windows)),
        result matches Err(error) ==> (end matches Completion::Failed { progress, dialog }
            && progress.status@ == "error"@ && progress.downloaded == 0 && progress.total is None
            && (progress.message matches Some(text) && text@ == "下载/安装失败："@ + error@)
            && dialog.title@ == "更新失败"@ && dialog.message@ == "下载/安装失败："@ + error@
            && dialog.buttons is Default),
{
    law_ending_tells(platform, text_reply(result));
    match end {
        Completion::Installed { progress, relaunch } => {
            assert(progress@.downloaded == progress.downloaded);
            assert(progress@.message is Some <==> progress.message is Some);
        },
        Completion::Failed { progress, dialog } => {
            assert(progress@.downloaded == progress.downloaded);
            assert(progress@.message is Some <==> progress.message is Some);
        },
    }
}

/// The progress window shows the progress page, in the middle of the screen and at
/// a fixed size.
pub proof fn law_progress_window(window: PageWindow)
    requires
        progress_window.ensures((), window),
    ensures
        window.label@ == "update_progress"@,
        window.page@ == "update-progress.html"@,
        window.title@ == "正在更新"@,
        window.width == 460,
        window.height == 160,
        window.flags@ == seq![WindowFlag::Resizable(false), WindowFlag::Center],
{
    assert(window@.width == window.width);
    assert(window@.height == window.height);
}

} // verus!
