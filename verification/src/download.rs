//! The download of a video's audio with yt-dlp.
//!
//! A download creates its directory, asks yt-dlp for the identifier of the video and
//! for the file that it would write, lets it fetch the audio, and looks whether the
//! file is there. It ends with the path of the file, or with the first failure.

use vstd::prelude::*;

use crate::error::{new_yt_dlp_error, AppError, AppErrorView, IoCause, IoCauseView};
use crate::text::joined;
use crate::yt_dlp::{
    execute_yt_dlp_command, make_fetch_arguments, make_filename_arguments, make_id_arguments,
    make_output_template, read_answer, CommandOutcome, CommandOutcomeView, CommandOutput,
    CommandOutputView, GET_FILENAME, GET_ID,
};

verus! {

/// The directory of the downloads, within the directory of temporary files.
pub const DOWNLOAD_DIR: &'static str = "youtube_downloads";

/// What a command is run for.
enum Task {
    GetId,
    GetFilename,
    Fetch { expected: String },
}

/// A download that waits for its directory.
pub struct DirPending {
    url: String,
}

/// A download that waits for a command.
pub struct CommandPending {
    url: String,
    template: String,
    task: Task,
}

/// A download that waits to know whether its file is there.
pub struct FilePending {
    expected: String,
}

/// The next step of a download.
pub enum DownloadStep {
    /// The directory has to be created.
    CreateDir(DirPending),
    /// A command has to be run.
    Run(CommandPending),
    /// Somebody has to look whether the file is there.
    CheckFile(FilePending),
    /// The download has ended.
    Done(Result<String, AppError>),
}

/// The model of what a command is run for.
pub enum TaskView {
    GetId,
    GetFilename,
    Fetch { expected: Seq<char> },
}

/// The model of a command that has to be run.
pub struct CommandView {
    pub url: Seq<char>,
    pub template: Seq<char>,
    pub task: TaskView,
}

/// The model of a [`DownloadStep`].
pub enum DownloadView {
    CreateDir { url: Seq<char> },
    Run { command: CommandView },
    CheckFile { expected: Seq<char> },
    Done { result: Result<Seq<char>, AppErrorView> },
}

/// The model of an answer to a step of a download.
pub enum DownloadAnswer {
    /// Whether the directory could be created, and its path where that is text.
    DirCreated { created: Result<(), IoCauseView>, dir: Option<Seq<char>> },
    /// What came of the command.
    Ran { outcome: CommandOutcomeView },
    /// Whether the file is there.
    Checked { exists: bool },
}

impl View for Task {
    type V = TaskView;

    closed spec fn view(&self) -> TaskView {
        match self {
            Task::GetId => TaskView::GetId,
            Task::GetFilename => TaskView::GetFilename,
            Task::Fetch { expected } => TaskView::Fetch { expected: expected@ },
        }
    }
}

/// A download that waits for its directory is known by the URL of the video.
impl View for DirPending {
    type V = Seq<char>;

    closed spec fn view(&self) -> Seq<char> {
        self.url@
    }
}

impl View for CommandPending {
    type V = CommandView;

    closed spec fn view(&self) -> CommandView {
        CommandView { url: self.url@, template: self.template@, task: self.task@ }
    }
}

/// A download that waits for its file is known by the path of the file.
impl View for FilePending {
    type V = Seq<char>;

    closed spec fn view(&self) -> Seq<char> {
        self.expected@
    }
}

impl View for DownloadStep {
    type V = DownloadView;

    open spec fn view(&self) -> DownloadView {
        match self {
            DownloadStep::CreateDir(pending) => DownloadView::CreateDir { url: pending@ },
            DownloadStep::Run(pending) => DownloadView::Run { command: pending@ },
            DownloadStep::CheckFile(pending) => DownloadView::CheckFile { expected: pending@ },
            DownloadStep::Done(Ok(path)) => DownloadView::Done { result: Ok(path@) },
            DownloadStep::Done(Err(err)) => DownloadView::Done { result: Err(err@) },
        }
    }
}

/// The arguments of a command.
pub open spec fn command_arguments(command: CommandView) -> Seq<Seq<char>> {
    match command.task {
        TaskView::GetId => crate::yt_dlp::id_arguments(command.url),
        TaskView::GetFilename => crate::yt_dlp::filename_arguments(command.template, command.url),
        TaskView::Fetch { .. } => crate::yt_dlp::fetch_arguments(command.template, command.url),
    }
}

/// The failure of a download that wrote no file where one was expected: an I/O error of
/// the kind `NotFound`; `shown` is the expected path as it is shown to a developer.
pub open spec fn missing_file(shown: Seq<char>) -> AppErrorView {
    AppErrorView::Io(
        IoCauseView {
            kind: std::io::ErrorKind::NotFound,
            text: "Downloaded file not found at expected path: "@ + shown,
        },
    )
}

/// The failure of a download whose directory has no path in UTF-8.
pub open spec fn unusable_dir() -> AppErrorView {
    AppErrorView::YtDlp("Temporary directory path is not valid UTF-8"@)
}

/// The text that a path is formatted to with `{:?}`.
pub uninterp spec fn path_debug_text(path: Seq<char>) -> Seq<char>;

/// Formats a `std::path::Path` with `{:?}`. The contract only says that the text
/// depends on nothing but the path: how the path is quoted and escaped is not said.
#[verifier::external_body]
fn debug_path(path: &str) -> (text: String)
    ensures
        text@ == path_debug_text(path@),
{
    format!("{:?}", std::path::Path::new(path))
}

/// The step that follows `step` when it is answered with `answer`.
pub open spec fn download_next(step: DownloadView, answer: DownloadAnswer) -> DownloadView {
    match (step, answer) {
        (DownloadView::CreateDir { url }, DownloadAnswer::DirCreated { created, dir }) => {
            match (created, dir) {
                (Err(cause), _) => failed(AppErrorView::Io(cause)),
                (Ok(()), None) => failed(unusable_dir()),
                (Ok(()), Some(dir)) => DownloadView::Run {
                    command: CommandView {
                        url,
                        template: crate::yt_dlp::output_template(dir),
                        task: TaskView::GetId,
                    },
                },
            }
        },
        (DownloadView::Run { command }, DownloadAnswer::Ran { outcome }) => {
            match command.task {
                TaskView::GetId => match crate::yt_dlp::command_answer(GET_ID@, outcome) {
                    Err(err) => failed(err),
                    Ok(_) => DownloadView::Run {
                        command: CommandView { task: TaskView::GetFilename, ..command },
                    },
                },
                TaskView::GetFilename => {
                    match crate::yt_dlp::command_answer(GET_FILENAME@, outcome) {
                        Err(err) => failed(err),
                        Ok(path) => DownloadView::Run {
                            command: CommandView {
                                task: TaskView::Fetch { expected: path },
                                ..command
                            },
                        },
                    }
                },
                TaskView::Fetch { expected } => match crate::yt_dlp::command_output(outcome) {
                    Err(err) => failed(err),
                    Ok(_) => DownloadView::CheckFile { expected },
                },
            }
        },
        (DownloadView::CheckFile { expected }, DownloadAnswer::Checked { exists }) => {
            if exists {
                DownloadView::Done { result: Ok(expected) }
            } else {
                failed(missing_file(path_debug_text(expected)))
            }
        },
        _ => step,
    }
}

/// A download that ended with a failure.
pub open spec fn failed(err: AppErrorView) -> DownloadView {
    DownloadView::Done { result: Err(err) }
}

/// Starts the download of the audio of the video at `url`.
pub fn download_video(url: &str) -> (res: DownloadStep)
    ensures
        res@ == (DownloadView::CreateDir { url: url@ }),
{
    DownloadStep::CreateDir(DirPending { url: url.to_string() })
}

impl DirPending {
    /// The name of the directory, within the directory of temporary files.
    pub fn dir_name(&self) -> (res: String)
        ensures
            res@ == DOWNLOAD_DIR@,
    {
        DOWNLOAD_DIR.to_string()
    }

    /// Goes on when the directory was created, or could not be; `dir` is its path
    /// where that is text.
    pub fn answer(self, created: Result<(), IoCause>, dir: Option<&str>) -> (res: DownloadStep)
        ensures
            res@ == download_next(
                DownloadView::CreateDir { url: self@ },
                DownloadAnswer::DirCreated {
                    created: crate::error::io_view(created),
                    dir: match dir {
                        Some(path) => Some(path@),
                        None => None,
                    },
                },
            ),
    {
        match created {
            Err(cause) => DownloadStep::Done(Err(AppError::Io(cause))),
            Ok(()) => match dir {
                None => DownloadStep::Done(
                    Err(
                        new_yt_dlp_error("Temporary directory path is not valid UTF-8".to_string()),
                    ),
                ),
                Some(path) => DownloadStep::Run(
                    CommandPending {
                        url: self.url,
                        template: make_output_template(path),
                        task: Task::GetId,
                    },
                ),
            },
        }
    }
}

impl CommandPending {
    /// The arguments that yt-dlp has to be called with.
    pub fn arguments(&self) -> (res: Vec<String>)
        ensures
            res.deep_view() == command_arguments(self@),
    {
        match &self.task {
            Task::GetId => make_id_arguments(self.url.as_str()),
            Task::GetFilename => make_filename_arguments(self.template.as_str(), self.url.as_str()),
            Task::Fetch { .. } => make_fetch_arguments(self.template.as_str(), self.url.as_str()),
        }
    }

    /// Goes on when the command was run, or could not be.
    pub fn answer(self, outcome: CommandOutcome) -> (res: DownloadStep)
        ensures
            res@ == download_next(
                DownloadView::Run { command: self@ },
                DownloadAnswer::Ran { outcome: outcome@ },
            ),
    {
        match self.task {
            Task::GetId => match read_answer(GET_ID, outcome) {
                Err(err) => DownloadStep::Done(Err(err)),
                Ok(_) => DownloadStep::Run(
                    CommandPending {
                        url: self.url,
                        template: self.template,
                        task: Task::GetFilename,
                    },
                ),
            },
            Task::GetFilename => match read_answer(GET_FILENAME, outcome) {
                Err(err) => DownloadStep::Done(Err(err)),
                Ok(expected) => DownloadStep::Run(
                    CommandPending {
                        url: self.url,
                        template: self.template,
                        task: Task::Fetch { expected },
                    },
                ),
            },
            Task::Fetch { expected } => match execute_yt_dlp_command(outcome) {
                Err(err) => DownloadStep::Done(Err(err)),
                Ok(_) => DownloadStep::CheckFile(FilePending { expected }),
            },
        }
    }
}

/// Returns the failure of a download that wrote no file where one was expected.
pub fn file_not_found(shown: &str) -> (res: AppError)
    ensures
        res@ == missing_file(shown@),
{
    AppError::Io(
        IoCause {
            kind: std::io::ErrorKind::NotFound,
            text: joined("Downloaded file not found at expected path: ", shown),
        },
    )
}

impl FilePending {
    /// The path where the file is expected.
    pub fn path(&self) -> (res: &str)
        ensures
            res@ == self@,
    {
        self.expected.as_str()
    }

    /// Goes on when it is known whether the file is there.
    pub fn answer(self, exists: bool) -> (res: DownloadStep)
        ensures
            res@ == download_next(
                DownloadView::CheckFile { expected: self@ },
                DownloadAnswer::Checked { exists },
            ),
    {
        if exists {
            DownloadStep::Done(Ok(self.expected))
        } else {
            let shown = debug_path(self.expected.as_str());
            DownloadStep::Done(Err(file_not_found(shown.as_str())))
        }
    }
}

/// Everything that a download asks for from outside.
pub struct DownloadAnswers {
    pub created: Result<(), IoCauseView>,
    pub dir: Option<Seq<char>>,
    pub id: CommandOutcomeView,
    pub filename: CommandOutcomeView,
    pub fetch: CommandOutcomeView,
    pub exists: bool,
}

/// The answer to a step.
pub open spec fn answer_to(step: DownloadView, answers: DownloadAnswers) -> DownloadAnswer {
    match step {
        DownloadView::Run { command } => DownloadAnswer::Ran {
            outcome: match command.task {
                TaskView::GetId => answers.id,
                TaskView::GetFilename => answers.filename,
                TaskView::Fetch { .. } => answers.fetch,
            },
        },
        DownloadView::CheckFile { .. } => DownloadAnswer::Checked { exists: answers.exists },
        _ => DownloadAnswer::DirCreated { created: answers.created, dir: answers.dir },
    }
}

/// The step that is reached from `step` after `n` answers.
pub open spec fn download_after(
    step: DownloadView,
    answers: DownloadAnswers,
    n: nat,
) -> DownloadView
    decreases n,
{
    if n == 0 {
        step
    } else {
        let before = download_after(step, answers, (n - 1) as nat);
        download_next(before, answer_to(before, answers))
    }
}

/// What a download with the given answers comes to: the path that yt-dlp printed for
/// the file, where everything went well, and the first failure otherwise.
pub open spec fn download_result(answers: DownloadAnswers) -> Result<Seq<char>, AppErrorView> {
    let id = crate::yt_dlp::command_answer(GET_ID@, answers.id);
    let path = crate::yt_dlp::command_answer(GET_FILENAME@, answers.filename);
    let fetched = crate::yt_dlp::command_output(answers.fetch);
    if answers.created is Err {
        Err(AppErrorView::Io(answers.created->Err_0))
    } else if answers.dir is None {
        Err(unusable_dir())
    } else if id is Err {
        Err(id->Err_0)
    } else if path is Err {
        Err(path->Err_0)
    } else if fetched is Err {
        Err(fetched->Err_0)
    } else if !answers.exists {
        Err(missing_file(path_debug_text(path->Ok_0)))
    } else {
        Ok(path->Ok_0)
    }
}

/// A download ends after at most five answers, with the result of these answers.
pub proof fn law_download_ends(url: Seq<char>, answers: DownloadAnswers)
    ensures
        download_after(DownloadView::CreateDir { url }, answers, 5) == (DownloadView::Done {
            result: download_result(answers),
        }),
{
    reveal_with_fuel(download_after, 6);
}

/// The commands of a download are run in a fixed order, with the directory's template
/// and the URL of the request, each after the success of the one before it.
pub proof fn law_download_commands(url: Seq<char>, answers: DownloadAnswers, n: nat)
    ensures
        download_after(DownloadView::CreateDir { url }, answers, n) matches DownloadView::Run {
            command,
        } ==> {
            &&& answers.created is Ok
            &&& answers.dir matches Some(dir) && command.template
                == crate::yt_dlp::output_template(dir)
            &&& command.url == url
            &&& match command.task {
                TaskView::GetId => n == 1,
                TaskView::GetFilename => n == 2 && crate::yt_dlp::command_answer(
                    GET_ID@,
                    answers.id,
                ) is Ok,
                TaskView::Fetch { expected } => {
                    &&& n == 3
                    &&& crate::yt_dlp::command_answer(GET_ID@, answers.id) is Ok
                    &&& crate::yt_dlp::command_answer(GET_FILENAME@, answers.filename) == Ok::<
                        Seq<char>,
                        AppErrorView,
                    >(expected)
                },
            }
        },
{
    reveal_with_fuel(download_after, 6);
    if n >= 5 {
        law_download_ends(url, answers);
        lemma_done_stays(url, answers, n);
    }
}

proof fn lemma_done_stays(url: Seq<char>, answers: DownloadAnswers, n: nat)
    requires
        n >= 5,
    ensures
        download_after(DownloadView::CreateDir { url }, answers, n) is Done,
    decreases n,
{
    if n == 5 {
        law_download_ends(url, answers);
    } else {
        lemma_done_stays(url, answers, (n - 1) as nat);
    }
}

/// A download succeeds exactly where the directory is usable, all three commands
/// succeed, the first two print something, and the file is there afterwards. The path
/// is what the second command printed, is not empty and has no white space around it.
pub proof fn law_download_succeeds(answers: DownloadAnswers)
    ensures
        download_result(answers) is Ok <==> {
            &&& answers.created is Ok
            &&& answers.dir is Some
            &&& crate::yt_dlp::command_answer(GET_ID@, answers.id) is Ok
            &&& crate::yt_dlp::command_answer(GET_FILENAME@, answers.filename) is Ok
            &&& crate::yt_dlp::command_output(answers.fetch) is Ok
            &&& answers.exists
        },
        download_result(answers) matches Ok(path) ==> {
            &&& path.len() > 0
            &&& path == crate::text::trimmed(path)
            &&& crate::yt_dlp::command_output(answers.filename) matches Ok(output) && path
                == crate::text::trimmed(vstd::utf8::decode_utf8(output.stdout))
        },
{
    if download_result(answers) is Ok {
        let output = crate::yt_dlp::command_output(answers.filename)->Ok_0;
        crate::text::law_trim_idempotent(vstd::utf8::decode_utf8(output.stdout));
    }
}

/// Every command of a download of `url` into `dir` has the URL itself as its last
/// argument. The first one asks for the identifier; the second one asks for the file
/// that the third one writes, and both say that it is an MP3 file in `dir`.
pub proof fn law_download_arguments(
    url: Seq<char>,
    dir: Seq<char>,
    answers: DownloadAnswers,
    n: nat,
)
    requires
        answers.dir == Some(dir),
    ensures
        download_after(DownloadView::CreateDir { url }, answers, n) matches DownloadView::Run {
            command,
        } ==> {
            let args = command_arguments(command);
            &&& 1 <= n <= 3
            &&& args.len() == if n == 1 {
                2int
            } else if n == 2 {
                9int
            } else {
                8int
            }
            &&& args[args.len() - 1] == url
            &&& n == 1 ==> args[0] == "--get-id"@
            &&& n == 2 ==> args[0] == "--get-filename"@
            &&& n >= 2 ==> {
                &&& args[args.len() - 8] == "-f"@
                &&& args[args.len() - 7] == "bestaudio/best"@
                &&& args[args.len() - 6] == "--extract-audio"@
                &&& args[args.len() - 5] == "--audio-format"@
                &&& args[args.len() - 4] == "mp3"@
                &&& args[args.len() - 3] == "-o"@
                &&& crate::text::consists_of(args[args.len() - 2], dir, "/%(id)s.%(ext)s"@)
            }
        },
{
    law_download_commands(url, answers, n);
    crate::yt_dlp::law_arguments(dir, url);
}

/// Where the directory is there and all three commands succeed, the first two with
/// something to read, a download runs them one after the other, then looks for the file
/// that the second one printed, and ends with the path of that file, or with an error of
/// the kind `NotFound` that shows the path.
pub proof fn law_download_course(
    url: Seq<char>,
    dir: Seq<char>,
    id: CommandOutputView,
    filename: CommandOutputView,
    fetch: CommandOutputView,
    exists: bool,
)
    requires
        id.success && filename.success && fetch.success,
        vstd::utf8::valid_utf8(id.stdout),
        crate::yt_dlp::says_something(vstd::utf8::decode_utf8(id.stdout)),
        vstd::utf8::valid_utf8(filename.stdout),
        crate::yt_dlp::says_something(vstd::utf8::decode_utf8(filename.stdout)),
    ensures
        ({
            let start = DownloadView::CreateDir { url };
            let answers = DownloadAnswers {
                created: Ok(()),
                dir: Some(dir),
                id: CommandOutcomeView::Exited(id),
                filename: CommandOutcomeView::Exited(filename),
                fetch: CommandOutcomeView::Exited(fetch),
                exists,
            };
            let path = crate::text::trimmed(vstd::utf8::decode_utf8(filename.stdout));
            &&& download_after(start, answers, 1) is Run
            &&& download_after(start, answers, 2) is Run
            &&& download_after(start, answers, 3) is Run
            &&& download_after(start, answers, 4) == (DownloadView::CheckFile { expected: path })
            &&& exists ==> download_after(start, answers, 5) == (DownloadView::Done {
                result: Ok(path),
            })
            &&& !exists ==> {
                &&& download_after(start, answers, 5) matches DownloadView::Done {
                    result: Err(AppErrorView::Io(cause)),
                }
                &&& cause.kind == std::io::ErrorKind::NotFound
                &&& crate::text::consists_of(
                    cause.text,
                    "Downloaded file not found at expected path: "@,
                    path_debug_text(path),
                )
            }
        }),
{
    reveal_with_fuel(download_after, 6);
    crate::yt_dlp::law_command_answers(GET_ID@, CommandOutcomeView::Exited(id));
    crate::yt_dlp::law_command_answers(GET_FILENAME@, CommandOutcomeView::Exited(filename));
}

/// A download stops at its first failure, and what is wrong is handed on unchanged.
pub proof fn law_download_stops(url: Seq<char>, answers: DownloadAnswers)
    ensures
        ({
            let start = DownloadView::CreateDir { url };
            let id = crate::yt_dlp::command_answer("--get-id"@, answers.id);
            let path = crate::yt_dlp::command_answer("--get-filename"@, answers.filename);
            let fetched = crate::yt_dlp::command_output(answers.fetch);
            let usable = answers.created is Ok && answers.dir is Some;
            &&& answers.created matches Err(cause) ==> download_after(start, answers, 1) == (
            DownloadView::Done { result: Err(AppErrorView::Io(cause)) })
            &&& answers.created is Ok && answers.dir is None ==> download_after(start, answers, 1)
                == (DownloadView::Done {
                result: Err(AppErrorView::YtDlp("Temporary directory path is not valid UTF-8"@)),
            })
            &&& usable && id is Err ==> download_after(start, answers, 2) == (DownloadView::Done {
                result: Err(id->Err_0),
            })
            &&& usable && id is Ok && path is Err ==> download_after(start, answers, 3) == (
            DownloadView::Done { result: Err(path->Err_0) })
            &&& usable && id is Ok && path is Ok && fetched is Err ==> download_after(
                start,
                answers,
                4,
            ) == (DownloadView::Done { result: Err(fetched->Err_0) })
        }),
{
    reveal_with_fuel(download_after, 6);
}

/// The calls of a download whose commands succeed: the arguments that they are asked to
/// run with, the path that is looked for, and the result.
pub proof fn law_download_calls(
    url: &str,
    dir: &str,
    outputs: (CommandOutput, CommandOutput, CommandOutput),
    exists: bool,
    start: DownloadStep,
    steps: (DownloadStep, DownloadStep, DownloadStep, DownloadStep),
    arguments: (Vec<String>, Vec<String>, Vec<String>),
    path: &str,
    end: DownloadStep,
)
    requires
        outputs.0.success && outputs.1.success && outputs.2.success,
        vstd::utf8::valid_utf8(outputs.0.stdout@),
        crate::yt_dlp::says_something(vstd::utf8::decode_utf8(outputs.0.stdout@)),
        vstd::utf8::valid_utf8(outputs.1.stdout@),
        crate::yt_dlp::says_something(vstd::utf8::decode_utf8(outputs.1.stdout@)),
        call_ensures(download_video, (url,), start),
        call_ensures(
            DirPending::answer,
            (start->CreateDir_0, Ok::<(), IoCause>(()), Some(dir)),
            steps.0,
        ),
        call_ensures(CommandPending::arguments, (&steps.0->Run_0,), arguments.0),
        call_ensures(
            CommandPending::answer,
            (steps.0->Run_0, CommandOutcome::Exited(outputs.0)),
            steps.1,
        ),
        call_ensures(CommandPending::arguments, (&steps.1->Run_0,), arguments.1),
        call_ensures(
            CommandPending::answer,
            (steps.1->Run_0, CommandOutcome::Exited(outputs.1)),
            steps.2,
        ),
        call_ensures(CommandPending::arguments, (&steps.2->Run_0,), arguments.2),
        call_ensures(
            CommandPending::answer,
            (steps.2->Run_0, CommandOutcome::Exited(outputs.2)),
            steps.3,
        ),
        call_ensures(FilePending::path, (&steps.3->CheckFile_0,), path),
        call_ensures(FilePending::answer, (steps.3->CheckFile_0, exists), end),
    ensures
        start is CreateDir && steps.0 is Run && steps.1 is Run && steps.2 is Run,
        steps.3 is CheckFile,
        arguments.0@.len() == 2,
        arguments.0@[0]@ == "--get-id"@,
        arguments.0@[1]@ == url@,
        arguments.1@.len() == 9,
        arguments.1@[0]@ == "--get-filename"@,
        arguments.1@[1]@ == "-f"@,
        arguments.1@[2]@ == "bestaudio/best"@,
        arguments.1@[3]@ == "--extract-audio"@,
        arguments.1@[4]@ == "--audio-format"@,
        arguments.1@[5]@ == "mp3"@,
        arguments.1@[6]@ == "-o"@,
        crate::text::consists_of(arguments.1@[7]@, dir@, "/%(id)s.%(ext)s"@),
        arguments.1@[8]@ == url@,
        arguments.2@.len() == 8,
        forall|i: int|
            0 <= i < 8 ==> (#[trigger] arguments.2@[i])@ == arguments.1@[i + 1]@,
        path@ == crate::text::trimmed(vstd::utf8::decode_utf8(outputs.1.stdout@)),
        match end {
            DownloadStep::Done(Ok(found)) => exists && found@ == path@,
            DownloadStep::Done(Err(AppError::Io(cause))) => {
                &&& !exists
                &&& cause.kind == std::io::ErrorKind::NotFound
                &&& crate::text::consists_of(
                    cause.text@,
                    "Downloaded file not found at expected path: "@,
                    path_debug_text(path@),
                )
            },
            _ => false,
        },
{
    crate::yt_dlp::law_command_answers(GET_ID@, CommandOutcomeView::Exited(outputs.0@));
    crate::yt_dlp::law_command_answers(GET_FILENAME@, CommandOutcomeView::Exited(outputs.1@));
    crate::yt_dlp::law_arguments(dir@, url@);
    assert(arguments.0.deep_view().len() == 2);
    assert(arguments.0.deep_view()[0] == arguments.0@[0]@);
    assert(arguments.0.deep_view()[1] == arguments.0@[1]@);
    assert(arguments.1.deep_view().len() == 9);
    assert forall|i: int| 0 <= i < 9 implies arguments.1.deep_view()[i] == (
    #[trigger] arguments.1@[i])@ by {}
    assert(arguments.2.deep_view().len() == 8);
    assert forall|i: int| 0 <= i < 8 implies arguments.2.deep_view()[i] == (
    #[trigger] arguments.2@[i])@ by {}
}

/// The model of a step that ends a download leaves nothing out and changes nothing.
pub proof fn law_download_models(path: String, err: AppError)
    ensures
        DownloadStep::Done(Ok(path))@ == (DownloadView::Done { result: Ok(path@) }),
        DownloadStep::Done(Err(err))@ == (DownloadView::Done { result: Err(err@) }),
        DOWNLOAD_DIR@ == "youtube_downloads"@,
{
}

/// The calls of a download that fails: what is wrong is handed on unchanged.
pub proof fn law_download_failing_calls(
    pending: DirPending,
    name: String,
    cause: IoCause,
    dir: Option<&str>,
    refused: DownloadStep,
    unusable: DownloadStep,
)
    requires
        call_ensures(DirPending::dir_name, (&pending,), name),
        call_ensures(DirPending::answer, (pending, Err::<(), IoCause>(cause), dir), refused),
        call_ensures(
            DirPending::answer,
            (pending, Ok::<(), IoCause>(()), None::<&str>),
            unusable,
        ),
    ensures
        name@ == "youtube_downloads"@,
        refused matches DownloadStep::Done(Err(AppError::Io(why))) && why.kind == cause.kind
            && why.text@ == cause.text@,
        unusable matches DownloadStep::Done(Err(AppError::YtDlp(message))) && message@
            == "Temporary directory path is not valid UTF-8"@,
{
}

/// A command of a download that does not succeed ends the download with the failure that
/// `execute_yt_dlp_command` makes of it.
pub proof fn law_failing_command_ends_the_download(
    pending: CommandPending,
    outcome: CommandOutcome,
    step: DownloadStep,
)
    requires
        outcome is NotStarted || !outcome->Exited_0.success,
        call_ensures(CommandPending::answer, (pending, outcome), step),
    ensures
        step matches DownloadStep::Done(Err(err)) && err@ == crate::yt_dlp::command_output(
            outcome@,
        )->Err_0,
{
    crate::yt_dlp::law_missing_answer_tells_why(GET_ID@, outcome@);
    crate::yt_dlp::law_missing_answer_tells_why(GET_FILENAME@, outcome@);
}

/// The failure that `file_not_found` makes is of the kind `NotFound` and shows the whole
/// path.
pub proof fn law_file_not_found(shown: &str, err: AppError)
    requires
        call_ensures(file_not_found, (shown,), err),
    ensures
        err matches AppError::Io(cause) && cause.kind == std::io::ErrorKind::NotFound
            && crate::text::consists_of(
            cause.text@,
            "Downloaded file not found at expected path: "@,
            shown@,
        ),
{
}

} // verus!
