//! The decisions of the download workflow: what is delivered once the fetch
//! and the reading of the cut instructions are back, what happens when a
//! cut or a compression fails, and in which order the workflow winds up.

use crate::bot_commands::BotCommand;
use crate::dispatch::Task;
use crate::language::worth_asking;
use crate::media::{search_query, search_source};
use crate::text::same_text;
use crate::util::Platform;
use vstd::prelude::*;
use vstd::string::*;

verus! {

/// The sizes, in megabytes, that govern compression: a video larger than
/// `soft` is compressed, and the compressed video may not exceed `hard`.
#[derive(Debug, Clone, Copy, PartialEq, Eq, Structural)]
pub struct SizeLimits {
    pub soft: u64,
    pub hard: u64,
}

/// The limits that a platform is served with unless configured otherwise.
pub fn default_limits(platform: Platform) -> (r: SizeLimits)
    ensures
        r == match platform {
            Platform::Telegram => (SizeLimits { soft: 50, hard: 50 }),
            Platform::Discord => (SizeLimits { soft: 8, hard: 8 }),
        },
{
    match platform {
        Platform::Telegram => SizeLimits { soft: 50, hard: 50 },
        Platform::Discord => SizeLimits { soft: 8, hard: 8 },
    }
}

/// What a download workflow sets out with.
#[derive(Debug)]
pub struct Job {
    /// What the downloader is pointed at.
    pub source: String,
    /// The text to read cut instructions from, if there is any worth
    /// reading.
    pub cut_text: Option<String>,
}

/// What the downloader is pointed at for a task: the link of a download,
/// the search that stands for the query of a search; nothing for any other
/// task.
pub open spec fn job_source(command: BotCommand, arguments: Seq<Seq<char>>) -> Option<
    Seq<char>,
> {
    match command {
        BotCommand::Download => Some(arguments[0]),
        BotCommand::Search => Some(search_query(arguments[0])),
        _ => None,
    }
}

/// The text that cut instructions are read from: what a download's link
/// left over, if that is more than three characters.
pub open spec fn job_cut_text(command: BotCommand, arguments: Seq<Seq<char>>) -> Option<
    Seq<char>,
> {
    if command == BotCommand::Download && arguments[1].len() > 3 {
        Some(arguments[1])
    } else {
        None
    }
}

/// The download that a task asks for, if it asks for one.
pub fn job_for(task: &Task) -> (r: Option<Job>)
    ensures
        r is Some <==> job_source(task.command(), task.arguments()) is Some,
        r matches Some(job) ==> Some(job.source@) == job_source(task.command(), task.arguments())
            && job.cut_text.deep_view() == job_cut_text(task.command(), task.arguments()),
{
    match task {
        Task::Download { url, leftovers } => {
            let cut_text = if worth_asking(leftovers.as_str()) {
                Some(leftovers.clone())
            } else {
                None
            };
            Some(Job { source: url.clone(), cut_text })
        },
        Task::Search { query } => Some(
            Job { source: search_source(query.as_str()), cut_text: None },
        ),
        _ => None,
    }
}

/// What to do once the fetch and the reading of the cut instructions are
/// both back. `S` is the cut that was read, which is handed on untouched.
#[derive(Debug)]
pub enum Route<S> {
    /// Nothing was fetched: say sorry.
    Regret,
    /// Deliver the video as it was fetched.
    Deliver { artifact: String },
    /// Cut the video first.
    Cut { artifact: String, cut: S },
}

/// A video that is ready to go out, with every file the workflow has made
/// on the way.
#[derive(Debug)]
pub struct Parcel {
    /// The file to send.
    pub send: String,
    /// The files to delete once it is sent, the sent one among them.
    pub discard: Vec<String>,
}

/// One step of winding up a workflow.
#[derive(Debug, Clone, Copy, PartialEq, Eq, Structural)]
pub enum Step {
    /// Post the video.
    SendVideo,
    /// Delete the message that asked for it.
    DeleteRequest,
    /// Delete the files that the workflow has made.
    DeleteFiles,
    /// Post the regret.
    Apologize,
    /// Tell the heartbeat to stop and wait until it has.
    StopHeartbeat,
}

/// The file that goes out, if any, given what the fetch brought, whether a
/// cut was asked for, and what the cut brought:
///
/// | fetched | cut asked for | cut    | goes out    |
/// |---------|---------------|--------|-------------|
/// | nothing | either        | n/a    | nothing     |
/// | a video | no            | n/a    | that video  |
/// | a video | yes           | a cut  | the cut     |
/// | a video | yes           | failed | that video  |
pub open spec fn chosen(
    fetched: Option<Seq<char>>,
    cut_asked: bool,
    cut: Option<Seq<char>>,
) -> Option<Seq<char>> {
    match fetched {
        None => None,
        Some(video) => if cut_asked && cut is Some {
            cut
        } else {
            Some(video)
        },
    }
}

/// The files that exist when the choice is made.
pub open spec fn made(
    fetched: Option<Seq<char>>,
    cut_asked: bool,
    cut: Option<Seq<char>>,
) -> Seq<Seq<char>> {
    match fetched {
        None => Seq::empty(),
        Some(video) => if cut_asked && cut is Some {
            seq![video, cut->0]
        } else {
            seq![video]
        },
    }
}

impl<S> Route<S> {
    /// The video that was fetched, if one was.
    pub open spec fn fetched(self) -> Option<Seq<char>> {
        match self {
            Route::Regret => None,
            Route::Deliver { artifact } => Some(artifact@),
            Route::Cut { artifact, .. } => Some(artifact@),
        }
    }

    /// The cut that is to be made, if one is.
    pub open spec fn cut(self) -> Option<S> {
        match self {
            Route::Cut { cut, .. } => Some(cut),
            _ => None,
        }
    }
}

impl Parcel {
    /// The file to send.
    pub open spec fn sent(self) -> Seq<char> {
        self.send@
    }

    /// The files to delete.
    pub open spec fn discarded(self) -> Seq<Seq<char>> {
        self.discard.deep_view()
    }
}

/// Decides what to do once the fetch and the reading of the cut
/// instructions are back. A task that broke down counts as one that
/// brought nothing.
pub fn route<S>(fetched: Option<String>, cut_args: Option<S>) -> (r: Route<S>)
    ensures
        r.fetched() == fetched.deep_view(),
        r is Regret <==> fetched is None,
        r.cut() == if fetched is Some {
            cut_args
        } else {
            None
        },
{
    match fetched {
        None => Route::Regret,
        Some(artifact) => match cut_args {
            None => Route::Deliver { artifact },
            Some(cut) => Route::Cut { artifact, cut },
        },
    }
}

/// Packs a video that goes out as it was fetched.
pub fn uncut(artifact: String) -> (r: Parcel)
    ensures
        Some(r.sent()) == chosen(Some(artifact@), false, None),
        r.discarded() == made(Some(artifact@), false, None),
{
    let mut discard: Vec<String> = Vec::new();
    discard.push(artifact.clone());
    Parcel { send: artifact, discard }
}

/// Packs what goes out after a cut: the cut if there is one, else the video
/// as it was fetched.
pub fn after_cut(artifact: String, cut: Option<String>) -> (r: Parcel)
    ensures
        Some(r.sent()) == chosen(Some(artifact@), true, cut.deep_view()),
        r.discarded() == made(Some(artifact@), true, cut.deep_view()),
{
    let mut discard: Vec<String> = Vec::new();
    match cut {
        Some(piece) => {
            discard.push(artifact);
            discard.push(piece.clone());
            Parcel { send: piece, discard }
        },
        None => {
            discard.push(artifact.clone());
            Parcel { send: artifact, discard }
        },
    }
}

/// What goes out after the compression of `parcel.send`, and the files to
/// delete: the compressed video where there is one, which joins the files
/// to delete if it is a new file. Where the transcoder could not be
/// started nothing goes out, and the files are deleted all the same.
pub open spec fn compressed(
    sent: Seq<char>,
    discarded: Seq<Seq<char>>,
    truncated: Option<Seq<char>>,
) -> (Option<Seq<char>>, Seq<Seq<char>>) {
    match truncated {
        None => (None, discarded),
        Some(small) => if small == sent {
            (Some(sent), discarded)
        } else {
            (Some(small), discarded.push(small))
        },
    }
}

/// Settles what goes out once the compression is back.
pub fn after_truncation(parcel: Parcel, truncated: Option<String>) -> (r: (Option<String>, Vec<
    String,
>))
    ensures
        (r.0.deep_view(), r.1.deep_view()) == compressed(
            parcel.sent(),
            parcel.discarded(),
            truncated.deep_view(),
        ),
{
    let Parcel { send, discard } = parcel;
    let mut discard = discard;
    match truncated {
        None => (None, discard),
        Some(small) => {
            if same_text(small.as_str(), send.as_str()) {
                (Some(send), discard)
            } else {
                discard.push(small.clone());
                (Some(small), discard)
            }
        },
    }
}

/// The steps that wind up a workflow, in order: with a video to send, post
/// it, delete the request, delete the files; without, delete the files and
/// say sorry. The heartbeat is stopped last in either case.
pub open spec fn closing(delivering: bool) -> Seq<Step> {
    if delivering {
        seq![Step::SendVideo, Step::DeleteRequest, Step::DeleteFiles, Step::StopHeartbeat]
    } else {
        seq![Step::DeleteFiles, Step::Apologize, Step::StopHeartbeat]
    }
}

/// The steps that wind up a workflow, in order.
pub fn closing_steps(delivering: bool) -> (r: Vec<Step>)
    ensures
        r@ == closing(delivering),
{
    let mut r: Vec<Step> = Vec::new();
    if delivering {
        r.push(Step::SendVideo);
        r.push(Step::DeleteRequest);
        r.push(Step::DeleteFiles);
    } else {
        r.push(Step::DeleteFiles);
        r.push(Step::Apologize);
    }
    r.push(Step::StopHeartbeat);
    r
}

/// The decision table, row by row: nothing goes out exactly when nothing
/// was fetched; a video goes out as it was fetched when no cut was asked
/// for and also when the cut failed; and the cut goes out when it
/// succeeded. Whatever goes out is among the files that are deleted
/// afterwards, and so is the video that was fetched.
pub proof fn lemma_decision_table(
    fetched: Option<Seq<char>>,
    cut_asked: bool,
    cut: Option<Seq<char>>,
)
    ensures
        chosen(fetched, cut_asked, cut) is None <==> fetched is None,
        fetched is Some && !cut_asked ==> chosen(fetched, cut_asked, cut) == fetched,
        fetched is Some && cut_asked && cut is None ==> chosen(fetched, cut_asked, cut) == fetched,
        fetched is Some && cut_asked && cut is Some ==> chosen(fetched, cut_asked, cut) == cut,
        fetched matches Some(video) ==> made(fetched, cut_asked, cut).contains(video),
        chosen(fetched, cut_asked, cut) matches Some(out) ==> made(
            fetched,
            cut_asked,
            cut,
        ).contains(out),
{
    if let Some(video) = fetched {
        let files = made(fetched, cut_asked, cut);
        assert(files[0] == video);
    }
}

/// No file is left behind: whatever the fetch, the cut and the compression
/// have made is among the files to delete, whether a video goes out or not.
pub proof fn lemma_nothing_leaks(
    video: Seq<char>,
    cut_asked: bool,
    cut: Option<Seq<char>>,
    truncated: Option<Seq<char>>,
)
    ensures
        ({
            let sent = chosen(Some(video), cut_asked, cut)->0;
            let files = compressed(sent, made(Some(video), cut_asked, cut), truncated).1;
            &&& files.contains(video)
            &&& cut_asked && cut is Some ==> files.contains(cut->0)
            &&& truncated matches Some(small) ==> files.contains(small)
            &&& compressed(sent, made(Some(video), cut_asked, cut), truncated).0 == truncated
        }),
{
    let before = made(Some(video), cut_asked, cut);
    let sent = chosen(Some(video), cut_asked, cut)->0;
    let files = compressed(sent, before, truncated).1;
    lemma_decision_table(Some(video), cut_asked, cut);
    assert(files[0] == video);
    if cut_asked && cut is Some {
        assert(files[1] == cut->0);
    }
    if let Some(small) = truncated {
        if small != sent {
            assert(files[before.len() as int] == small);
        }
    }
}

/// A workflow ends with exactly one answer to the user, a video or a
/// regret, and the heartbeat is stopped after it and after everything else.
pub proof fn lemma_one_answer_then_silence(delivering: bool)
    ensures
        closing(delivering).last() == Step::StopHeartbeat,
        closing(delivering).contains(Step::SendVideo) <==> delivering,
        closing(delivering).contains(Step::Apologize) <==> !delivering,
        closing(delivering).contains(Step::DeleteFiles),
        forall|i: int|
            0 <= i < closing(delivering).len() - 1 ==> #[trigger] closing(delivering)[i]
                != Step::StopHeartbeat,
{
}

} // verus!
