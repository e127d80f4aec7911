//! The media pipeline's share of thinking: where a video is stored, what the
//! downloader, the inspector and the transcoder are asked, and how their
//! answers are read. Running the programs is the caller's business.

use crate::text::{
    chars_of, decimal, field_ranges, fields, format_u64, parse_u32_range, parsed_u32, trim_range,
    trimmed,
};
use vstd::prelude::*;
use vstd::string::*;

verus! {

/// Bytes in a megabyte, as file sizes are counted here.
pub const BYTES_PER_MEGABYTE: u64 = 1048576;

/// Whole megabytes in `bytes`.
pub fn megabytes(bytes: u64) -> (r: u64)
    ensures
        r == bytes / BYTES_PER_MEGABYTE,
{
    bytes / 1024 / 1024
}

/// The path of the temporary video file named by `id`.
pub open spec fn video_path(id: Seq<char>) -> Seq<char> {
    "/tmp/"@ + id + ".mp4"@
}

/// The path of the temporary video file named by `id`.
pub fn temp_video_path(id: &str) -> (r: String)
    ensures
        r@ == video_path(id@),
{
    let mut r = "/tmp/".to_owned();
    r.append(id);
    r.append(".mp4");
    r
}

/// Length of an identifier in hyphenated hexadecimal notation.
pub const IDENTIFIER_LENGTH: usize = 36;

/// Draws `uuid::Uuid::new_v4` and writes it with its `Display`, which is the
/// hyphenated lower-case notation.
///
/// Trusted: the text has the length of that notation. Which identifier is
/// drawn is left open, and two calls may differ.
#[verifier::external_body]
fn fresh_identifier() -> (r: String)
    ensures
        r@.len() == IDENTIFIER_LENGTH,
{
    uuid::Uuid::new_v4().to_string()
}

/// A path for a new temporary video file, named by a freshly drawn
/// identifier.
pub fn fresh_video_path() -> (r: String)
    ensures
        exists|id: Seq<char>| id.len() == IDENTIFIER_LENGTH && r@ == #[trigger] video_path(id),
{
    let id = fresh_identifier();
    temp_video_path(id.as_str())
}

/// The proxies through which a download is attempted, in order: first none
/// at all, written as the empty text, then each entry of the
/// semicolon-separated list `configured`.
pub open spec fn proxies(configured: Seq<char>) -> Seq<Seq<char>> {
    seq![Seq::empty()] + fields(configured, ';')
}

/// The proxies through which a download is attempted, in order.
pub fn proxy_candidates(configured: &str) -> (r: Vec<String>)
    ensures
        r.deep_view() == proxies(configured@),
{
    let v = chars_of(configured);
    let ranges = field_ranges(&v, 0, v.len(), ';');
    let ghost parts = fields(configured@, ';');
    proof {
        assert(v@.subrange(0, v.len() as int) == configured@);
    }
    let mut r: Vec<String> = Vec::new();
    r.push(String::new());
    let mut k: usize = 0;
    while k < ranges.len()
        invariant
            v@ == configured@,
            parts == fields(configured@, ';'),
            ranges@.len() == parts.len(),
            forall|j: int|
                0 <= j < ranges@.len() ==> (#[trigger] ranges@[j]).0 <= ranges@[j].1 <= v.len()
                    && configured@.subrange(ranges@[j].0 as int, ranges@[j].1 as int) == parts[j],
            k <= ranges.len(),
            r.deep_view() == seq![Seq::<char>::empty()] + parts.take(k as int),
        decreases ranges.len() - k,
    {
        let (a, b) = ranges[k];
        let ghost before = r.deep_view();
        r.push(configured.substring_char(a, b).to_owned());
        proof {
            assert(r.deep_view() =~= before.push(parts[k as int]));
        }
        k += 1;
    }
    r
}

/// The downloader's format selection for a size budget: video of at most
/// 720 lines, within the budget where such a format exists, the smallest
/// otherwise, with the best audio; else a combined format chosen likewise.
pub open spec fn format_selection(size_budget: nat) -> Seq<char> {
    "((bv*[filesize<="@ + decimal(size_budget) + "]/bv*)[height<=720]/(wv*[filesize<="@ + decimal(
        size_budget,
    ) + "]/wv*)) + ba / (b[filesize<="@ + decimal(size_budget) + "]/b)[height<=720]/(w[filesize<="@
        + decimal(size_budget) + "]/w)"@
}

/// The downloader's format selection for a size budget.
pub fn format_selector(size_budget: u64) -> (r: String)
    ensures
        r@ == format_selection(size_budget as nat),
{
    let size = format_u64(size_budget);
    let mut r = "((bv*[filesize<=".to_owned();
    r.append(size.as_str());
    r.append("]/bv*)[height<=720]/(wv*[filesize<=");
    r.append(size.as_str());
    r.append("]/wv*)) + ba / (b[filesize<=");
    r.append(size.as_str());
    r.append("]/b)[height<=720]/(w[filesize<=");
    r.append(size.as_str());
    r.append("]/w)");
    r
}

/// What the downloader is started with to fetch `source` into `file_path`
/// through `proxy`: the format selection for the budget, a preference for
/// H.264, and output merged and recoded into one MP4 file.
pub open spec fn download_command(
    proxy: Seq<char>,
    size_budget: nat,
    file_path: Seq<char>,
    source: Seq<char>,
) -> Seq<Seq<char>> {
    seq![
        "--proxy"@,
        proxy,
        "-f"@,
        format_selection(size_budget),
        "-S"@,
        "codec:h264"@,
        "--merge-output-format"@,
        "mp4"@,
        "--recode"@,
        "mp4"@,
        "-o"@,
        file_path,
        source,
    ]
}

/// The arguments of one download attempt.
pub fn download_arguments(proxy: &str, size_budget: u64, file_path: &str, source: &str) -> (r:
    Vec<String>)
    ensures
        r.deep_view() == download_command(proxy@, size_budget as nat, file_path@, source@),
{
    let mut r: Vec<String> = Vec::new();
    r.push("--proxy".to_owned());
    r.push(proxy.to_owned());
    r.push("-f".to_owned());
    r.push(format_selector(size_budget));
    r.push("-S".to_owned());
    r.push("codec:h264".to_owned());
    r.push("--merge-output-format".to_owned());
    r.push("mp4".to_owned());
    r.push("--recode".to_owned());
    r.push("mp4".to_owned());
    r.push("-o".to_owned());
    r.push(file_path.to_owned());
    r.push(source.to_owned());
    r
}

/// The download attempts for `source`, in the order in which they are
/// made until one succeeds: one for each of `proxies`.
pub open spec fn download_plan(
    proxies: Seq<Seq<char>>,
    size_budget: nat,
    file_path: Seq<char>,
    source: Seq<char>,
) -> Seq<Seq<Seq<char>>> {
    Seq::new(proxies.len(), |i: int| download_command(proxies[i], size_budget, file_path, source))
}

/// The arguments of each download attempt for `source`, in the order in
/// which the attempts are made until one succeeds: first without a proxy,
/// then through each proxy of the semicolon-separated list `configured`.
pub fn fetch_attempts(configured: &str, size_budget: u64, file_path: &str, source: &str) -> (r:
    Vec<Vec<String>>)
    ensures
        r.deep_view() == download_plan(
            proxies(configured@),
            size_budget as nat,
            file_path@,
            source@,
        ),
{
    let candidates = proxy_candidates(configured);
    let ghost plan = download_plan(proxies(configured@), size_budget as nat, file_path@, source@);
    let mut r: Vec<Vec<String>> = Vec::new();
    let mut k: usize = 0;
    while k < candidates.len()
        invariant
            candidates.deep_view() == proxies(configured@),
            plan == download_plan(proxies(configured@), size_budget as nat, file_path@, source@),
            k <= candidates.len(),
            r.deep_view() == plan.take(k as int),
        decreases candidates.len() - k,
    {
        r.push(download_arguments(candidates[k].as_str(), size_budget, file_path, source));
        proof {
            assert(plan.take(k + 1) == plan.take(k as int).push(plan[k as int]));
        }
        k += 1;
    }
    r
}

/// What to do next about a download.
#[derive(Debug, Clone, Copy, PartialEq, Eq, Structural)]
pub enum FetchStep {
    /// Make the attempt with this position in the plan.
    Attempt(usize),
    /// Stop: the last attempt brought the video.
    Fetched,
    /// Stop: every attempt was made and none brought the video.
    Failed,
}

/// What to do about a download of which `made` of `planned` attempts were
/// made, the last of them with or without success: the attempts are made in
/// the order of the plan, until one succeeds or none is left.
pub open spec fn next_fetch(planned: nat, made: nat, succeeded: bool) -> FetchStep {
    if made > 0 && succeeded {
        FetchStep::Fetched
    } else if made < planned {
        FetchStep::Attempt(made as usize)
    } else {
        FetchStep::Failed
    }
}

/// How a download ends if its attempts, taken in the order of the plan,
/// would succeed as `exits` says: the number of attempts made, and whether
/// the video was fetched. `made` attempts are behind, the last of them with
/// the success `succeeded`.
pub open spec fn fetch_run(exits: Seq<bool>, made: nat, succeeded: bool) -> (nat, bool)
    decreases exits.len() - made,
{
    match next_fetch(exits.len(), made, succeeded) {
        FetchStep::Attempt(_) => fetch_run(exits, made + 1, exits[made as int]),
        FetchStep::Fetched => (made, true),
        FetchStep::Failed => (made, false),
    }
}

/// What to do next about a download.
pub fn fetch_step(planned: usize, made: usize, succeeded: bool) -> (r: FetchStep)
    ensures
        r == next_fetch(planned as nat, made as nat, succeeded),
{
    if made > 0 && succeeded {
        FetchStep::Fetched
    } else if made < planned {
        FetchStep::Attempt(made)
    } else {
        FetchStep::Failed
    }
}

/// A download that is under way ends with the first attempt that succeeds,
/// or with the last attempt if none does.
proof fn lemma_fetch_run(exits: Seq<bool>, made: nat, succeeded: bool)
    requires
        made <= exits.len(),
        made > 0 ==> succeeded == exits[made - 1],
        forall|j: int| 0 <= j < made - 1 ==> !#[trigger] exits[j],
    ensures
        ({
            let (total, fetched) = fetch_run(exits, made, succeeded);
            &&& made <= total <= exits.len()
            &&& fetched ==> total > 0 && exits[total - 1]
            &&& !fetched ==> total == exits.len()
            &&& forall|j: int| 0 <= j < total - 1 ==> !#[trigger] exits[j]
            &&& !fetched ==> forall|j: int| 0 <= j < total ==> !#[trigger] exits[j]
        }),
    decreases exits.len() - made,
{
    if !(made > 0 && succeeded) && made < exits.len() {
        lemma_fetch_run(exits, made + 1, exits[made as int]);
    }
}

/// A download makes its attempts in the order of the plan and stops at the
/// first that succeeds: it fetches the video exactly if some attempt would
/// succeed, makes no attempt after that one, and makes them all if none
/// does.
pub proof fn lemma_fetch_stops_at_first_success(exits: Seq<bool>)
    ensures
        ({
            let (total, fetched) = fetch_run(exits, 0, false);
            &&& total <= exits.len()
            &&& fetched <==> exists|i: int| 0 <= i < exits.len() && #[trigger] exits[i]
            &&& fetched ==> total > 0 && exits[total - 1]
            &&& !fetched ==> total == exits.len()
            &&& forall|j: int| 0 <= j < total - 1 ==> !#[trigger] exits[j]
        }),
{
    lemma_fetch_run(exits, 0, false);
}

/// The download source that stands for a site search for `query`.
pub open spec fn search_query(query: Seq<char>) -> Seq<char> {
    "ytsearch:\""@ + query + "\""@
}

/// The download source that stands for a site search for `query`.
pub fn search_source(query: &str) -> (r: String)
    ensures
        r@ == search_query(query@),
{
    let mut r = "ytsearch:\"".to_owned();
    r.append(query);
    r.append("\"");
    r
}

/// What the transcoder is started with to compress `path_in` into
/// `path_out`: an output of at most `hard_limit` megabytes, H.264 video at a
/// fast preset and a fixed quality, AAC audio.
pub open spec fn compress_command(path_in: Seq<char>, hard_limit: nat, path_out: Seq<char>) -> Seq<
    Seq<char>,
> {
    seq![
        "-i"@,
        path_in,
        "-fs"@,
        decimal(hard_limit) + "M"@,
        "-c:v"@,
        "libx264"@,
        "-preset"@,
        "veryfast"@,
        "-crf"@,
        "39"@,
        "-c:a"@,
        "aac"@,
        "-b:a"@,
        "128k"@,
        path_out,
    ]
}

/// What is to be done about the size of a video.
#[derive(Debug)]
pub enum Truncation {
    /// The video is small enough and is sent as it is.
    Unchanged,
    /// The transcoder is to be run with these arguments.
    Transcode(Vec<String>),
}

/// The truncation of a video of `size_bytes` bytes stored at `path_in`:
/// none while it has no more than `soft_limit` whole megabytes, a
/// compression into `path_out` bounded by `hard_limit` beyond that.
pub open spec fn truncation(
    path_in: Seq<char>,
    size_bytes: u64,
    soft_limit: u64,
    hard_limit: u64,
    path_out: Seq<char>,
) -> Option<Seq<Seq<char>>> {
    if size_bytes / BYTES_PER_MEGABYTE <= soft_limit {
        None
    } else {
        Some(compress_command(path_in, hard_limit as nat, path_out))
    }
}

impl Truncation {
    /// The transcoder's arguments, if it is to be run.
    pub open spec fn command(self) -> Option<Seq<Seq<char>>> {
        match self {
            Truncation::Unchanged => None,
            Truncation::Transcode(arguments) => Some(arguments.deep_view()),
        }
    }

    /// The video to go on with once the plan is carried out: the input where
    /// nothing was to be done, the output where the transcoder ran, and
    /// none where it could not be started.
    pub fn artifact(&self, path_in: &str, path_out: &str, transcoder_started: bool) -> (r: Option<
        String,
    >)
        ensures
            r.deep_view() == match self {
                Truncation::Unchanged => Some(path_in@),
                Truncation::Transcode(_) => if transcoder_started {
                    Some(path_out@)
                } else {
                    None
                },
            },
    {
        match self {
            Truncation::Unchanged => Some(path_in.to_owned()),
            Truncation::Transcode(_) => if transcoder_started {
                Some(path_out.to_owned())
            } else {
                None
            },
        }
    }
}

/// Decides whether a video must be compressed before it is sent, and how.
pub fn plan_truncation(
    path_in: &str,
    size_bytes: u64,
    soft_limit_m: u64,
    hard_limit_m: u64,
    path_out: &str,
) -> (r: Truncation)
    ensures
        r.command() == truncation(path_in@, size_bytes, soft_limit_m, hard_limit_m, path_out@),
{
    if megabytes(size_bytes) <= soft_limit_m {
        return Truncation::Unchanged;
    }
    let mut limit = format_u64(hard_limit_m);
    limit.append("M");
    let mut r: Vec<String> = Vec::new();
    r.push("-i".to_owned());
    r.push(path_in.to_owned());
    r.push("-fs".to_owned());
    r.push(limit);
    r.push("-c:v".to_owned());
    r.push("libx264".to_owned());
    r.push("-preset".to_owned());
    r.push("veryfast".to_owned());
    r.push("-crf".to_owned());
    r.push("39".to_owned());
    r.push("-c:a".to_owned());
    r.push("aac".to_owned());
    r.push("-b:a".to_owned());
    r.push("128k".to_owned());
    r.push(path_out.to_owned());
    Truncation::Transcode(r)
}

/// What the inspector is started with to report the length of the video at
/// `path` in seconds.
pub open spec fn duration_probe_command(path: Seq<char>) -> Seq<Seq<char>> {
    seq![
        "-v"@,
        "error"@,
        "-show_entries"@,
        "format=duration"@,
        "-of"@,
        "default=noprint_wrappers=1:nokey=1"@,
        path,
    ]
}

/// The arguments of a probe for the length of a video.
pub fn duration_probe_arguments(path: &str) -> (r: Vec<String>)
    ensures
        r.deep_view() == duration_probe_command(path@),
{
    let mut r: Vec<String> = Vec::new();
    r.push("-v".to_owned());
    r.push("error".to_owned());
    r.push("-show_entries".to_owned());
    r.push("format=duration".to_owned());
    r.push("-of".to_owned());
    r.push("default=noprint_wrappers=1:nokey=1".to_owned());
    r.push(path.to_owned());
    r
}

/// What the transcoder is started with to cut `path_in` into `path_out`:
/// the start offset, then the length of the cut if one is wanted; without
/// it the cut runs to the end of the video.
pub open spec fn cut_command(
    start: Seq<char>,
    duration: Option<Seq<char>>,
    path_in: Seq<char>,
    path_out: Seq<char>,
) -> Seq<Seq<char>> {
    let timing = match duration {
        Some(length) => seq!["-ss"@, start, "-t"@, length],
        None => seq!["-ss"@, start],
    };
    timing + seq!["-i"@, path_in, path_out]
}

/// The arguments of a cut. `start` and `duration` are numbers of seconds as
/// the transcoder reads them.
pub fn cut_arguments(start: &str, duration: Option<&str>, path_in: &str, path_out: &str) -> (r:
    Vec<String>)
    ensures
        r.deep_view() == cut_command(start@, duration.deep_view(), path_in@, path_out@),
{
    let mut r: Vec<String> = Vec::new();
    r.push("-ss".to_owned());
    r.push(start.to_owned());
    if let Some(length) = duration {
        r.push("-t".to_owned());
        r.push(length.to_owned());
    }
    r.push("-i".to_owned());
    r.push(path_in.to_owned());
    r.push(path_out.to_owned());
    r
}

/// What the inspector is started with to report width and height of the
/// video at `path` as `WIDTHxHEIGHT`.
pub open spec fn dimension_probe_command(path: Seq<char>) -> Seq<Seq<char>> {
    seq![
        "-v"@,
        "error"@,
        "-select_streams"@,
        "v"@,
        "-show_entries"@,
        "stream=width,height"@,
        "-of"@,
        "csv=p=0:s=x"@,
        path,
    ]
}

/// The arguments of a probe for the dimensions of a video.
pub fn dimension_probe_arguments(path: &str) -> (r: Vec<String>)
    ensures
        r.deep_view() == dimension_probe_command(path@),
{
    let mut r: Vec<String> = Vec::new();
    r.push("-v".to_owned());
    r.push("error".to_owned());
    r.push("-select_streams".to_owned());
    r.push("v".to_owned());
    r.push("-show_entries".to_owned());
    r.push("stream=width,height".to_owned());
    r.push("-of".to_owned());
    r.push("csv=p=0:s=x".to_owned());
    r.push(path.to_owned());
    r
}

/// Why the dimensions of a video are not known.
#[derive(Debug, Clone, Copy, PartialEq, Eq, Structural)]
pub enum DimensionError {
    /// The inspector ended with a failure.
    ProbeFailed,
    /// The inspector's output is not two fields around one `x`.
    Malformed,
    /// The first field is not a number.
    InvalidWidth,
    /// The second field is not a number.
    InvalidHeight,
}

impl DimensionError {
    /// The error in words.
    pub open spec fn description(self) -> Seq<char> {
        match self {
            DimensionError::ProbeFailed => "ffprobe failed"@,
            DimensionError::Malformed => "Invalid output from ffprobe"@,
            DimensionError::InvalidWidth => "Invalid width"@,
            DimensionError::InvalidHeight => "Invalid height"@,
        }
    }

    /// The error in words.
    pub fn message(&self) -> (r: String)
        ensures
            r@ == self.description(),
    {
        match self {
            DimensionError::ProbeFailed => "ffprobe failed".to_owned(),
            DimensionError::Malformed => "Invalid output from ffprobe".to_owned(),
            DimensionError::InvalidWidth => "Invalid width".to_owned(),
            DimensionError::InvalidHeight => "Invalid height".to_owned(),
        }
    }
}

/// The dimensions that `output` states: once trimmed it must be two fields
/// around one `x`, a width and a height, each an unsigned decimal number.
pub open spec fn dimensions(output: Seq<char>) -> Result<(u32, u32), DimensionError> {
    let parts = fields(trimmed(output), 'x');
    if parts.len() != 2 {
        Err(DimensionError::Malformed)
    } else {
        match (parsed_u32(parts[0]), parsed_u32(parts[1])) {
            (None, _) => Err(DimensionError::InvalidWidth),
            (Some(_), None) => Err(DimensionError::InvalidHeight),
            (Some(width), Some(height)) => Ok((width, height)),
        }
    }
}

/// Reads the inspector's output as width and height.
pub fn parse_dimensions(output: &str) -> (r: Result<(u32, u32), DimensionError>)
    ensures
        r == dimensions(output@),
{
    let v = chars_of(output);
    proof {
        assert(v@.subrange(0, v.len() as int) == output@);
    }
    let (a, b) = trim_range(&v, 0, v.len());
    let parts = field_ranges(&v, a, b, 'x');
    if parts.len() != 2 {
        return Err(DimensionError::Malformed);
    }
    let (wa, wb) = parts[0];
    let (ha, hb) = parts[1];
    match parse_u32_range(&v, wa, wb) {
        None => Err(DimensionError::InvalidWidth),
        Some(width) => match parse_u32_range(&v, ha, hb) {
            None => Err(DimensionError::InvalidHeight),
            Some(height) => Ok((width, height)),
        },
    }
}

/// What a finished probe says about the dimensions of a video: nothing if
/// the inspector failed, else what its output states.
pub fn read_dimensions(succeeded: bool, output: &str) -> (r: Result<(u32, u32), DimensionError>)
    ensures
        r == if succeeded {
            dimensions(output@)
        } else {
            Err(DimensionError::ProbeFailed)
        },
{
    if succeeded {
        parse_dimensions(output)
    } else {
        Err(DimensionError::ProbeFailed)
    }
}

/// The dimensions to announce with a video: those that were read, or zero
/// by zero, which stands for dimensions that are not known.
pub fn dimensions_or_unknown(probed: Result<(u32, u32), DimensionError>) -> (r: (u32, u32))
    ensures
        r == match probed {
            Ok(size) => size,
            Err(_) => (0u32, 0u32),
        },
{
    match probed {
        Ok(size) => size,
        Err(_) => (0, 0),
    }
}

} // verus!
