//! How yt-dlp is called, and what its answers mean.

use vstd::prelude::*;

use crate::error::{new_yt_dlp_error, AppError, AppErrorView, IoCause, IoCauseView};
use crate::text::{joined, trim};

verus! {

/// The program that is called.
pub const PROGRAM: &'static str = "yt-dlp";

/// The option that makes yt-dlp print the identifier of a video.
pub const GET_ID: &'static str = "--get-id";

/// The option that makes yt-dlp print the path that it would write to.
pub const GET_FILENAME: &'static str = "--get-filename";

/// What a command that ran to its end left: whether its exit status means success, the
/// text of that status, and what was written to its standard output and its standard
/// error.
#[derive(Debug)]
pub struct CommandOutput {
    pub success: bool,
    pub status: String,
    pub stdout: Vec<u8>,
    pub stderr: Vec<u8>,
}

/// The model of a [`CommandOutput`].
pub struct CommandOutputView {
    pub success: bool,
    pub status: Seq<char>,
    pub stdout: Seq<u8>,
    pub stderr: Seq<u8>,
}

impl View for CommandOutput {
    type V = CommandOutputView;

    open spec fn view(&self) -> CommandOutputView {
        CommandOutputView {
            success: self.success,
            status: self.status@,
            stdout: self.stdout@,
            stderr: self.stderr@,
        }
    }
}

/// What came of running a command.
#[derive(Debug)]
pub enum CommandOutcome {
    /// The command could not be run.
    NotStarted(IoCause),
    /// The command ran and ended.
    Exited(CommandOutput),
}

/// The model of a [`CommandOutcome`].
pub enum CommandOutcomeView {
    NotStarted(IoCauseView),
    Exited(CommandOutputView),
}

impl View for CommandOutcome {
    type V = CommandOutcomeView;

    open spec fn view(&self) -> CommandOutcomeView {
        match self {
            CommandOutcome::NotStarted(cause) => CommandOutcomeView::NotStarted(cause@),
            CommandOutcome::Exited(output) => CommandOutcomeView::Exited(output@),
        }
    }
}

/// The text that `String::from_utf8_lossy` makes of bytes.
pub uninterp spec fn lossy_text(bytes: Seq<u8>) -> Seq<char>;

/// Calls `String::from_utf8_lossy`: the text depends on the bytes alone, and is their
/// decoding where they are valid UTF-8. What stands in place of invalid bytes is not
/// said.
#[verifier::external_body]
fn from_utf8_lossy(bytes: &[u8]) -> (text: String)
    ensures
        text@ == lossy_text(bytes@),
        vstd::utf8::valid_utf8(bytes@) ==> text@ == vstd::utf8::decode_utf8(bytes@),
{
    String::from_utf8_lossy(bytes).into_owned()
}

/// The text of the error that `String::from_utf8` returns for bytes that are not
/// valid UTF-8.
pub uninterp spec fn utf8_error_text(bytes: Seq<u8>) -> Seq<char>;

/// Calls `String::from_utf8`, which decodes valid UTF-8 and fails on all other bytes;
/// what the error displays depends on the bytes alone.
#[verifier::external_body]
fn from_utf8(bytes: Vec<u8>) -> (res: Result<String, String>)
    ensures
        match res {
            Ok(text) => vstd::utf8::valid_utf8(bytes@) && text@ == vstd::utf8::decode_utf8(bytes@),
            Err(error) => !vstd::utf8::valid_utf8(bytes@) && error@ == utf8_error_text(bytes@),
        },
{
    String::from_utf8(bytes).map_err(|error| error.to_string())
}

/// The failure of a command that ended without success.
pub open spec fn command_failure(status: Seq<char>, stderr: Seq<char>) -> AppErrorView {
    AppErrorView::YtDlp("yt-dlp command failed with status "@ + status + ": "@ + stderr)
}

/// The text that bytes are shown as: what they decode to where they are valid UTF-8.
pub open spec fn shown_text(bytes: Seq<u8>) -> Seq<char> {
    if vstd::utf8::valid_utf8(bytes) {
        vstd::utf8::decode_utf8(bytes)
    } else {
        lossy_text(bytes)
    }
}

/// What a command that ended with success left, unchanged, or why it failed.
pub open spec fn command_output(outcome: CommandOutcomeView) -> Result<
    CommandOutputView,
    AppErrorView,
> {
    match outcome {
        CommandOutcomeView::NotStarted(cause) => Err(
            AppErrorView::YtDlp("Failed to execute yt-dlp command: "@ + cause.text),
        ),
        CommandOutcomeView::Exited(output) => if output.success {
            Ok(output)
        } else {
            Err(command_failure(output.status, shown_text(output.stderr)))
        },
    }
}

/// Returns the failure of a command that ended with `status` and wrote `stderr` to its
/// standard error.
pub fn command_failed(status: &str, stderr: &str) -> (res: AppError)
    ensures
        res@ == command_failure(status@, stderr@),
{
    new_yt_dlp_error(
        joined("yt-dlp command failed with status ", status).concat(": ").concat(stderr),
    )
}

/// Returns what a command that ended with success left, unchanged, or why it failed.
pub fn execute_yt_dlp_command(outcome: CommandOutcome) -> (res: Result<CommandOutput, AppError>)
    ensures
        match res {
            Ok(output) => {
                &&& outcome == CommandOutcome::Exited(output)
                &&& command_output(outcome@) == Ok::<CommandOutputView, AppErrorView>(output@)
            },
            Err(err) => command_output(outcome@) == Err::<CommandOutputView, AppErrorView>(err@),
        },
        outcome is NotStarted ==> res is Err,
        outcome matches CommandOutcome::Exited(output) ==> (res is Ok <==> output.success),
        outcome matches CommandOutcome::Exited(output) ==> (output.success ==> res == Ok::<
            CommandOutput,
            AppError,
        >(output)),
        outcome@ matches CommandOutcomeView::Exited(output) ==> (!output.success
            && vstd::utf8::valid_utf8(output.stderr) ==> (res matches Err(err) && err@
            == command_failure(output.status, vstd::utf8::decode_utf8(output.stderr)))),
{
    match outcome {
        CommandOutcome::NotStarted(cause) => Err(
            new_yt_dlp_error(joined("Failed to execute yt-dlp command: ", cause.text.as_str())),
        ),
        CommandOutcome::Exited(output) => if output.success {
            Ok(output)
        } else {
            let stderr_text = from_utf8_lossy(output.stderr.as_slice());
            Err(command_failed(output.status.as_str(), stderr_text.as_str()))
        },
    }
}

/// The text that bytes decode to, or what is wrong with them.
pub open spec fn decoded(bytes: Seq<u8>) -> Result<Seq<char>, Seq<char>> {
    if vstd::utf8::valid_utf8(bytes) {
        Ok(vstd::utf8::decode_utf8(bytes))
    } else {
        Err(utf8_error_text(bytes))
    }
}

/// The answer in what yt-dlp printed for `option`: the text without the white space
/// around it, which must not be empty.
pub open spec fn answer_in(option: Seq<char>, printed: Result<Seq<char>, Seq<char>>) -> Result<
    Seq<char>,
    AppErrorView,
> {
    match printed {
        Err(error) => Err(
            AppErrorView::YtDlp(
                "Failed to parse yt-dlp "@ + option + " output (not UTF-8): "@ + error,
            ),
        ),
        Ok(text) => if crate::text::trimmed(text).len() == 0 {
            Err(AppErrorView::YtDlp("yt-dlp "@ + option + " returned an empty string"@))
        } else {
            Ok(crate::text::trimmed(text))
        },
    }
}

/// The answer that a command with `option` gave.
pub open spec fn command_answer(option: Seq<char>, outcome: CommandOutcomeView) -> Result<
    Seq<char>,
    AppErrorView,
> {
    match command_output(outcome) {
        Err(err) => Err(err),
        Ok(output) => answer_in(option, decoded(output.stdout)),
    }
}

/// Returns the answer in what yt-dlp printed for `option`, given as the decoded text
/// or as the text of the decoding error.
pub fn parse_answer(option: &str, printed: Result<String, String>) -> (res: Result<
    String,
    AppError,
>)
    ensures
        ({
            let text = match printed {
                Ok(text) => Ok::<Seq<char>, Seq<char>>(text@),
                Err(error) => Err::<Seq<char>, Seq<char>>(error@),
            };
            match res {
                Ok(answer) => answer_in(option@, text) == Ok::<Seq<char>, AppErrorView>(answer@),
                Err(err) => answer_in(option@, text) == Err::<Seq<char>, AppErrorView>(err@),
            }
        }),
{
    match printed {
        Err(error) => Err(
            new_yt_dlp_error(
                joined("Failed to parse yt-dlp ", option).concat(
                    " output (not UTF-8): ",
                ).concat(error.as_str()),
            ),
        ),
        Ok(text) => {
            let answer = trim(text.as_str());
            if answer.as_str().is_empty() {
                Err(new_yt_dlp_error(joined("yt-dlp ", option).concat(" returned an empty string")))
            } else {
                Ok(answer)
            }
        },
    }
}

/// Returns the answer that a command with `option` gave.
pub fn read_answer(option: &str, outcome: CommandOutcome) -> (res: Result<String, AppError>)
    ensures
        match res {
            Ok(answer) => command_answer(option@, outcome@) == Ok::<Seq<char>, AppErrorView>(
                answer@,
            ),
            Err(err) => command_answer(option@, outcome@) == Err::<Seq<char>, AppErrorView>(err@),
        },
{
    match execute_yt_dlp_command(outcome) {
        Err(err) => Err(err),
        Ok(output) => parse_answer(option, from_utf8(output.stdout)),
    }
}

/// The template of the files that yt-dlp writes to the directory `dir`.
pub open spec fn output_template(dir: Seq<char>) -> Seq<char> {
    dir + "/%(id)s.%(ext)s"@
}

/// Returns the template of the files that yt-dlp writes to the directory `dir`.
pub(crate) fn make_output_template(dir: &str) -> (res: String)
    ensures
        res@ == output_template(dir@),
{
    joined(dir, "/%(id)s.%(ext)s")
}

/// The arguments that ask for the identifier of a video.
pub open spec fn id_arguments(url: Seq<char>) -> Seq<Seq<char>> {
    seq![GET_ID@, url]
}

/// The arguments that fetch the audio of a video as an MP3 file.
pub open spec fn fetch_arguments(template: Seq<char>, url: Seq<char>) -> Seq<Seq<char>> {
    seq![
        "-f"@,
        "bestaudio/best"@,
        "--extract-audio"@,
        "--audio-format"@,
        "mp3"@,
        "-o"@,
        template,
        url,
    ]
}

/// The arguments that ask which file a fetch would write.
pub open spec fn filename_arguments(template: Seq<char>, url: Seq<char>) -> Seq<Seq<char>> {
    seq![GET_FILENAME@] + fetch_arguments(template, url)
}

/// Returns the arguments that ask for the identifier of a video.
pub(crate) fn make_id_arguments(url: &str) -> (res: Vec<String>)
    ensures
        res.deep_view() == id_arguments(url@),
{
    let args: Vec<String> = vec![GET_ID.to_string(), url.to_string()];
    assert(args.deep_view() =~= id_arguments(url@));
    args
}

/// Returns the arguments that fetch the audio of a video as an MP3 file.
pub(crate) fn make_fetch_arguments(template: &str, url: &str) -> (res: Vec<String>)
    ensures
        res.deep_view() == fetch_arguments(template@, url@),
{
    let args: Vec<String> = vec![
        "-f".to_string(),
        "bestaudio/best".to_string(),
        "--extract-audio".to_string(),
        "--audio-format".to_string(),
        "mp3".to_string(),
        "-o".to_string(),
        template.to_string(),
        url.to_string(),
    ];
    assert(args.deep_view() =~= fetch_arguments(template@, url@));
    args
}

/// Returns the arguments that ask which file a fetch would write.
pub(crate) fn make_filename_arguments(template: &str, url: &str) -> (res: Vec<String>)
    ensures
        res.deep_view() == filename_arguments(template@, url@),
{
    let mut args = make_fetch_arguments(template, url);
    let ghost fetch = args@;
    args.insert(0, GET_FILENAME.to_string());
    assert(args.deep_view() =~= filename_arguments(template@, url@)) by {
        assert forall|i: int| 0 <= i < fetch.len() implies args@[i + 1] == fetch[i] by {}
    }
    args
}

/// A command succeeds exactly where it was started and its exit status means success,
/// whatever it wrote; all that it left is then handed on.
pub proof fn law_exit_status_decides(outcome: CommandOutcomeView)
    ensures
        command_output(outcome) is Ok <==> (outcome matches CommandOutcomeView::Exited(output)
            && output.success),
        command_output(outcome) matches Ok(left) ==> {
            &&& outcome matches CommandOutcomeView::Exited(output)
            &&& left.success == output.success
            &&& left.status == output.status
            &&& left.stdout == output.stdout
            &&& left.stderr == output.stderr
        },
{
}

/// The failure of a command tells why it could not be started, or with which status it
/// ended and all that it wrote to its standard error.
pub proof fn law_failure_tells_why(outcome: CommandOutcomeView)
    ensures
        outcome matches CommandOutcomeView::NotStarted(cause) ==> {
            &&& command_output(outcome) matches Err(AppErrorView::YtDlp(message))
            &&& crate::text::consists_of(
                message,
                "Failed to execute yt-dlp command: "@,
                cause.text,
            )
        },
        outcome matches CommandOutcomeView::Exited(output) ==> (!output.success ==> {
            &&& command_output(outcome) matches Err(AppErrorView::YtDlp(message))
            &&& crate::text::consists_of(
                message,
                "yt-dlp command failed with status "@ + output.status + ": "@,
                if vstd::utf8::valid_utf8(output.stderr) {
                    vstd::utf8::decode_utf8(output.stderr)
                } else {
                    lossy_text(output.stderr)
                },
            )
        }),
{
}

/// The same of a call of `execute_yt_dlp_command`, on the fields of the outcome.
pub proof fn law_executed_command(outcome: CommandOutcome, res: Result<CommandOutput, AppError>)
    requires
        call_ensures(execute_yt_dlp_command, (outcome,), res),
    ensures
        match outcome {
            CommandOutcome::NotStarted(cause) => {
                &&& res matches Err(AppError::YtDlp(message))
                &&& crate::text::consists_of(
                    message@,
                    "Failed to execute yt-dlp command: "@,
                    cause.text@,
                )
            },
            CommandOutcome::Exited(output) => if output.success {
                res == Ok::<CommandOutput, AppError>(output)
            } else {
                &&& res matches Err(AppError::YtDlp(message))
                &&& crate::text::consists_of(
                    message@,
                    "yt-dlp command failed with status "@ + output.status@ + ": "@,
                    if vstd::utf8::valid_utf8(output.stderr@) {
                        vstd::utf8::decode_utf8(output.stderr@)
                    } else {
                        lossy_text(output.stderr@)
                    },
                )
            },
        },
{
}

/// The failure that `command_failed` makes: the status and what was written to the
/// standard error, both whole.
pub proof fn law_command_failed(status: &str, stderr: &str, err: AppError)
    requires
        call_ensures(command_failed, (status, stderr), err),
    ensures
        err matches AppError::YtDlp(message) && crate::text::consists_of(
            message@,
            "yt-dlp command failed with status "@ + status@ + ": "@,
            stderr@,
        ),
{
}

/// Whether a text holds anything but white space.
pub open spec fn says_something(text: Seq<char>) -> bool {
    exists|i: int| 0 <= i < text.len() && !crate::text::white_space(#[trigger] text[i])
}

proof fn lemma_says_something(text: Seq<char>)
    ensures
        says_something(text) <==> crate::text::trimmed(text).len() > 0,
{
    crate::text::law_trimmed(text);
    let (from, to) = choose|from: int, to: int|
        #![trigger text.subrange(from, to)]
        {
            &&& 0 <= from <= to <= text.len()
            &&& crate::text::trimmed(text) == text.subrange(from, to)
            &&& forall|i: int|
                0 <= i < from || to <= i < text.len() ==> crate::text::white_space(
                    #[trigger] text[i],
                )
        };
    if crate::text::trimmed(text).len() > 0 {
        assert(crate::text::trimmed(text)[0] == text[from]);
    }
}

/// A command answers exactly where it succeeds and prints valid UTF-8 with something in
/// it besides white space. White space around the answer is left out and nothing else.
pub proof fn law_command_answers(option: Seq<char>, outcome: CommandOutcomeView)
    ensures
        command_answer(option, outcome) is Ok <==> {
            &&& outcome matches CommandOutcomeView::Exited(output)
            &&& output.success
            &&& vstd::utf8::valid_utf8(output.stdout)
            &&& says_something(vstd::utf8::decode_utf8(output.stdout))
        },
        command_answer(option, outcome) matches Ok(answer) ==> {
            let printed = vstd::utf8::decode_utf8(outcome->Exited_0.stdout);
            &&& exists|from: int, to: int|
                #![trigger printed.subrange(from, to)]
                {
                    &&& 0 <= from < to <= printed.len()
                    &&& answer == printed.subrange(from, to)
                    &&& forall|i: int|
                        0 <= i < from || to <= i < printed.len() ==> crate::text::white_space(
                            #[trigger] printed[i],
                        )
                }
            &&& !crate::text::white_space(answer[0])
            &&& !crate::text::white_space(answer.last())
        },
{
    if outcome is Exited {
        let printed = vstd::utf8::decode_utf8(outcome->Exited_0.stdout);
        lemma_says_something(printed);
        crate::text::law_trimmed(printed);
    }
}

/// The answer of a command that succeeds and prints a text with white space around it is
/// that text.
pub proof fn law_printed_text_is_the_answer(
    option: Seq<char>,
    output: CommandOutputView,
    left: Seq<char>,
    text: Seq<char>,
    right: Seq<char>,
)
    requires
        output.success,
        output.stdout == vstd::utf8::encode_utf8(left + text + right),
        text.len() > 0,
        !crate::text::white_space(text[0]),
        !crate::text::white_space(text.last()),
        forall|i: int| 0 <= i < left.len() ==> crate::text::white_space(#[trigger] left[i]),
        forall|i: int| 0 <= i < right.len() ==> crate::text::white_space(#[trigger] right[i]),
    ensures
        command_answer(option, CommandOutcomeView::Exited(output)) == Ok::<
            Seq<char>,
            AppErrorView,
        >(text),
{
    vstd::utf8::encode_utf8_valid_utf8(left + text + right);
    vstd::utf8::encode_utf8_decode_utf8(left + text + right);
    crate::text::law_trim_takes_padding_away(left, text, right);
}

/// Why a command gives no answer: it failed, and the failure is that of the command; it
/// printed what is not UTF-8; or it printed nothing but white space.
pub proof fn law_missing_answer_tells_why(option: Seq<char>, outcome: CommandOutcomeView)
    ensures
        outcome is NotStarted || !outcome->Exited_0.success ==> command_answer(option, outcome)
            == Err::<Seq<char>, AppErrorView>(command_output(outcome)->Err_0),
        outcome matches CommandOutcomeView::Exited(output) ==> (output.success
            && !vstd::utf8::valid_utf8(output.stdout) ==> {
            &&& command_answer(option, outcome) matches Err(AppErrorView::YtDlp(message))
            &&& crate::text::consists_of(
                message,
                "Failed to parse yt-dlp "@ + option,
                " output (not UTF-8): "@ + utf8_error_text(output.stdout),
            )
        }),
        outcome matches CommandOutcomeView::Exited(output) ==> (output.success
            && vstd::utf8::valid_utf8(output.stdout) && !says_something(
            vstd::utf8::decode_utf8(output.stdout),
        ) ==> {
            &&& command_answer(option, outcome) matches Err(AppErrorView::YtDlp(message))
            &&& crate::text::consists_of(
                message,
                "yt-dlp "@ + option,
                " returned an empty string"@,
            )
        }),
{
    if outcome is Exited {
        lemma_says_something(vstd::utf8::decode_utf8(outcome->Exited_0.stdout));
    }
}

/// A call of `read_answer` returns an answer exactly where the command succeeded and
/// printed something, and then the answer is what was printed but for white space.
pub proof fn law_read_answer(option: &str, output: CommandOutput, res: Result<String, AppError>)
    requires
        call_ensures(read_answer, (option, CommandOutcome::Exited(output)), res),
    ensures
        res is Ok <==> {
            &&& output.success
            &&& vstd::utf8::valid_utf8(output.stdout@)
            &&& says_something(vstd::utf8::decode_utf8(output.stdout@))
        },
        res matches Ok(answer) ==> answer@ == crate::text::trimmed(
            vstd::utf8::decode_utf8(output.stdout@),
        ),
{
    law_command_answers(option@, CommandOutcomeView::Exited(output@));
}

/// A call of `parse_answer` returns what was printed but for white space, and says what
/// is wrong where there is nothing else or where the output is not text.
pub proof fn law_parse_answer(
    option: &str,
    printed: Result<String, String>,
    res: Result<String, AppError>,
)
    requires
        call_ensures(parse_answer, (option, printed), res),
    ensures
        match printed {
            Ok(text) => if says_something(text@) {
                res matches Ok(answer) && answer@ == crate::text::trimmed(text@)
            } else {
                res matches Err(AppError::YtDlp(message)) && crate::text::consists_of(
                    message@,
                    "yt-dlp "@ + option@,
                    " returned an empty string"@,
                )
            },
            Err(error) => res matches Err(AppError::YtDlp(message)) && crate::text::consists_of(
                message@,
                "Failed to parse yt-dlp "@ + option@,
                " output (not UTF-8): "@ + error@,
            ),
        },
{
    if let Ok(text) = printed {
        lemma_says_something(text@);
    }
}

/// The arguments of the commands, one by one: the last one is always the URL, and where
/// files are written the directory's template stands behind `-o`.
pub proof fn law_arguments(dir: Seq<char>, url: Seq<char>)
    ensures
        crate::text::consists_of(output_template(dir), dir, "/%(id)s.%(ext)s"@),
        id_arguments(url).len() == 2,
        id_arguments(url)[0] == "--get-id"@,
        id_arguments(url)[1] == url,
        ({
            let args = fetch_arguments(output_template(dir), url);
            &&& args.len() == 8
            &&& args[0] == "-f"@
            &&& args[1] == "bestaudio/best"@
            &&& args[2] == "--extract-audio"@
            &&& args[3] == "--audio-format"@
            &&& args[4] == "mp3"@
            &&& args[5] == "-o"@
            &&& crate::text::consists_of(args[6], dir, "/%(id)s.%(ext)s"@)
            &&& args[7] == url
        }),
        ({
            let args = filename_arguments(output_template(dir), url);
            &&& args.len() == 9
            &&& args[0] == "--get-filename"@
            &&& args[1] == "-f"@
            &&& args[2] == "bestaudio/best"@
            &&& args[3] == "--extract-audio"@
            &&& args[4] == "--audio-format"@
            &&& args[5] == "mp3"@
            &&& args[6] == "-o"@
            &&& crate::text::consists_of(args[7], dir, "/%(id)s.%(ext)s"@)
            &&& args[8] == url
        }),
{
}

/// The words of the commands.
pub proof fn law_command_words()
    ensures
        PROGRAM@ == "yt-dlp"@,
        GET_ID@ == "--get-id"@,
        GET_FILENAME@ == "--get-filename"@,
{
}

/// The models of what a command left and of what came of it leave nothing out and change
/// nothing.
pub proof fn law_command_models(output: CommandOutput, outcome: CommandOutcome)
    ensures
        output@.success == output.success,
        output@.status == output.status@,
        output@.stdout == output.stdout@,
        output@.stderr == output.stderr@,
        match outcome {
            CommandOutcome::NotStarted(cause) => outcome@ == CommandOutcomeView::NotStarted(cause@),
            CommandOutcome::Exited(left) => outcome@ == CommandOutcomeView::Exited(left@),
        },
{
}

} // verus!
