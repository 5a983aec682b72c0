//! What a download is made of: the settings chosen in the window, the
//! destination folder, the yt-dlp command line built for each URL, and the
//! quoting of paths handed to PowerShell.
use vstd::prelude::*;
use youtube_dl::YoutubeDl;
use crate::text::{
    chars_of, is_unicode_whitespace, push_char, replace_backslashes, string_views, trim, trim_end,
    trim_start, trimmed, with_forward_slashes,
};
use crate::ytdl::{
    add_extra_arg, set_executable_path, set_extract_audio, set_format, youtube_dl_new,
    youtube_dl_settings,
};

verus! {

/// The kind of file a download produces.
#[derive(Clone, Copy, Debug, PartialEq, Eq, Structural)]
pub enum MediaFormat {
    Mp4,
    Mp3,
}

/// The highest video resolution a download may pick.
#[derive(Debug, Clone, Copy, PartialEq, Eq, Structural)]
pub enum VideoResolution {
    Res1080,
    Res720,
    Res480,
    Res360,
}

/// Everything one batch of downloads needs.
pub struct DownloadConfig {
    pub urls: Vec<String>,
    pub destination_path: String,
    pub target_format: MediaFormat,
    pub target_resolution: VideoResolution,
    pub engine_path: String,
    pub ffmpeg_path: Option<String>,
}

/// The view of an optional string.
pub open spec fn option_view(o: Option<String>) -> Option<Seq<char>> {
    match o {
        Some(s) => Some(s@),
        None => None,
    }
}

/// The reason a download cannot start on Windows without ffmpeg.
pub const MISSING_FFMPEG_MESSAGE: &'static str =
    "ffmpeg engine not found. Restart the app while connected to the internet.";

/// The string made of `a` followed by `b`.
pub(crate) fn concat(a: &str, b: &str) -> (s: String)
    ensures
        s@ == a@ + b@,
{
    let mut s = String::from_str(a);
    s.append(b);
    s
}

/// `cause` introduced by `context` and a colon, the shape of every error
/// message this library reports for a failed outside step.
pub open spec fn failure_text(context: Seq<char>, cause: Seq<char>) -> Seq<char> {
    context + ": "@ + cause
}

/// `cause` introduced by `context` and a colon.
pub fn describe_failure(context: &str, cause: &str) -> (s: String)
    ensures
        s@ == failure_text(context@, cause@),
{
    let mut s = concat(context, ": ");
    s.append(cause);
    s
}

/// The directory the user typed, with a leading `~` standing for `home`.
pub open spec fn expanded_home(path: Seq<char>, home: Seq<char>) -> Seq<char> {
    if path.len() > 0 && path[0] == '~' {
        home + path.skip(1)
    } else {
        path
    }
}

/// Replaces a leading `~` of `path` with the home directory `home`.
pub fn expand_home(path: &str, home: &str) -> (expanded: String)
    ensures
        expanded@ == expanded_home(path@, home@),
{
    let v = chars_of(path);
    if v.len() > 0 && v[0] == '~' {
        let mut s = String::from_str(home);
        let mut i: usize = 1;
        while i < v.len()
            invariant
                1 <= i <= v.len(),
                v@ == path@,
                s@ == home@ + v@.subrange(1, i as int),
            decreases v.len() - i,
        {
            push_char(&mut s, v[i]);
            assert(v@.subrange(1, i + 1) == v@.subrange(1, i as int).push(v@[i as int]));
            i = i + 1;
        }
        assert(v@.subrange(1, v@.len() as int) == v@.skip(1));
        s
    } else {
        String::from_str(path)
    }
}

/// The home directory: on Windows `USERPROFILE`, else `HOMEPATH`; elsewhere
/// `HOME`; the empty string where the variable that applies is not set.
pub open spec fn chosen_home(
    is_windows: bool,
    userprofile: Option<Seq<char>>,
    homepath: Option<Seq<char>>,
    home: Option<Seq<char>>,
) -> Seq<char> {
    if is_windows {
        match userprofile {
            Some(p) => p,
            None => match homepath {
                Some(p) => p,
                None => Seq::empty(),
            },
        }
    } else {
        match home {
            Some(p) => p,
            None => Seq::empty(),
        }
    }
}

/// Picks the home directory from the environment variables that hold it.
pub fn home_directory(
    is_windows: bool,
    userprofile: Option<String>,
    homepath: Option<String>,
    home: Option<String>,
) -> (dir: String)
    ensures
        dir@ == chosen_home(
            is_windows,
            option_view(userprofile),
            option_view(homepath),
            option_view(home),
        ),
{
    if is_windows {
        match userprofile {
            Some(p) => p,
            None => match homepath {
                Some(p) => p,
                None => String::new(),
            },
        }
    } else {
        match home {
            Some(p) => p,
            None => String::new(),
        }
    }
}

/// The yt-dlp output template for files saved under `destination`.
pub open spec fn output_template_of(destination: Seq<char>) -> Seq<char> {
    with_forward_slashes(destination) + "/%(title)s.%(ext)s"@
}

/// The yt-dlp output template: the destination with forward slashes, then the
/// title and extension of each video.
pub fn output_template(destination: &str) -> (template: String)
    ensures
        template@ == output_template_of(destination@),
{
    let mut t = replace_backslashes(destination);
    t.append("/%(title)s.%(ext)s");
    t
}

/// The height limit of a resolution, as yt-dlp reads it.
pub open spec fn height_cap_of(res: VideoResolution) -> Seq<char> {
    match res {
        VideoResolution::Res1080 => "1080"@,
        VideoResolution::Res720 => "720"@,
        VideoResolution::Res480 => "480"@,
        VideoResolution::Res360 => "360"@,
    }
}

/// The height limit of a resolution.
pub fn height_cap(res: VideoResolution) -> (cap: &'static str)
    ensures
        cap@ == height_cap_of(res),
{
    match res {
        VideoResolution::Res1080 => "1080",
        VideoResolution::Res720 => "720",
        VideoResolution::Res480 => "480",
        VideoResolution::Res360 => "360",
    }
}

/// The yt-dlp format selection for MP4 downloads of at most the given
/// resolution: the best MP4 video with the best M4A audio, else the best MP4,
/// else the best of anything, each no higher than the cap.
pub open spec fn format_rule_of(res: VideoResolution) -> Seq<char> {
    let cap = height_cap_of(res);
    "bestvideo[ext=mp4][height<=?"@ + cap + "]+bestaudio[ext=m4a]/mp4[height<=?"@ + cap
        + "]/best[height<=?"@ + cap + "]"@
}

/// The yt-dlp format selection for MP4 downloads of at most `res`.
pub fn format_rule(res: VideoResolution) -> (rule: String)
    ensures
        rule@ == format_rule_of(res),
{
    let cap = height_cap(res);
    let mut rule = concat("bestvideo[ext=mp4][height<=?", cap);
    rule.append("]+bestaudio[ext=m4a]/mp4[height<=?");
    rule.append(cap);
    rule.append("]/best[height<=?");
    rule.append(cap);
    rule.append("]");
    rule
}

/// The extra yt-dlp arguments for one download, in the order they are given.
pub open spec fn planned_extra_args(
    format: MediaFormat,
    template: Seq<char>,
    ffmpeg: Option<Seq<char>>,
    is_windows: bool,
) -> Seq<Seq<char>> {
    seq!["--output"@, template] + (if is_windows {
        seq!["--ffmpeg-location"@, ffmpeg.unwrap()]
    } else {
        seq![]
    }) + (if is_windows {
        seq!["--restrict-filenames"@]
    } else {
        seq!["--trim-filenames"@, "200"@]
    }) + match format {
        MediaFormat::Mp3 => seq!["--audio-format"@, "mp3"@, "--audio-quality"@, "0"@],
        MediaFormat::Mp4 => seq!["--merge-output-format"@, "mp4"@, "--force-overwrites"@],
    }
}

/// The builder settings for downloading `url` into `destination`: the URL,
/// the yt-dlp executable, the format rule (MP4 only), audio extraction (MP3
/// only) and the extra arguments.
pub open spec fn planned_settings(
    config: DownloadConfig,
    url: Seq<char>,
    destination: Seq<char>,
    is_windows: bool,
) -> (Seq<char>, Option<Seq<char>>, Option<Seq<char>>, bool, Seq<Seq<char>>) {
    (
        url,
        Some(config.engine_path@),
        match config.target_format {
            MediaFormat::Mp4 => Some(format_rule_of(config.target_resolution)),
            MediaFormat::Mp3 => None,
        },
        config.target_format == MediaFormat::Mp3,
        planned_extra_args(
            config.target_format,
            output_template_of(destination),
            option_view(config.ffmpeg_path),
            is_windows,
        ),
    )
}

/// Whether a download cannot start: on Windows it needs ffmpeg.
pub open spec fn lacks_ffmpeg(config: DownloadConfig, is_windows: bool) -> bool {
    is_windows && config.ffmpeg_path is None
}

/// Sets up the yt-dlp command that downloads `url` into `destination`.
/// Fails, with the message that asks for a restart, exactly when it runs on
/// Windows and no ffmpeg is known.
pub fn prepare_downloader(
    config: &DownloadConfig,
    url: &str,
    destination: &str,
    is_windows: bool,
) -> (r: Result<YoutubeDl, String>)
    ensures
        match r {
            Ok(dl) => !lacks_ffmpeg(*config, is_windows) && youtube_dl_settings(dl)
                == planned_settings(*config, url@, destination@, is_windows),
            Err(e) => lacks_ffmpeg(*config, is_windows) && e@ == MISSING_FFMPEG_MESSAGE@,
        },
{
    let template = output_template(destination);
    let mut dl = youtube_dl_new(url);
    set_executable_path(&mut dl, config.engine_path.as_str());
    add_extra_arg(&mut dl, "--output");
    add_extra_arg(&mut dl, template.as_str());
    if is_windows {
        match &config.ffmpeg_path {
            Some(ffmpeg) => {
                add_extra_arg(&mut dl, "--ffmpeg-location");
                add_extra_arg(&mut dl, ffmpeg.as_str());
            },
            None => {
                return Err(String::from_str(MISSING_FFMPEG_MESSAGE));
            },
        }
    }
    if is_windows {
        add_extra_arg(&mut dl, "--restrict-filenames");
    } else {
        add_extra_arg(&mut dl, "--trim-filenames");
        add_extra_arg(&mut dl, "200");
    }
    match config.target_format {
        MediaFormat::Mp3 => {
            set_extract_audio(&mut dl, true);
            add_extra_arg(&mut dl, "--audio-format");
            add_extra_arg(&mut dl, "mp3");
            add_extra_arg(&mut dl, "--audio-quality");
            add_extra_arg(&mut dl, "0");
        },
        MediaFormat::Mp4 => {
            let rule = format_rule(config.target_resolution);
            set_format(&mut dl, rule.as_str());
            add_extra_arg(&mut dl, "--merge-output-format");
            add_extra_arg(&mut dl, "mp4");
            add_extra_arg(&mut dl, "--force-overwrites");
        },
    }
    proof {
        let s = youtube_dl_settings(dl);
        assert(s.4 =~= planned_extra_args(
            config.target_format,
            output_template_of(destination@),
            option_view(config.ffmpeg_path),
            is_windows,
        ));
    }
    Ok(dl)
}

/// The URLs that get downloaded: each line trimmed, blank ones left out, in order.
pub open spec fn targets_of(urls: Seq<Seq<char>>) -> Seq<Seq<char>>
    decreases urls.len(),
{
    if urls.len() == 0 {
        seq![]
    } else {
        let earlier = targets_of(urls.drop_last());
        if trimmed(urls.last()).len() > 0 {
            earlier.push(trimmed(urls.last()))
        } else {
            earlier
        }
    }
}

/// The URLs that get downloaded: each trimmed, blank ones left out, in order.
pub fn download_targets(urls: &Vec<String>) -> (targets: Vec<String>)
    ensures
        string_views(targets@) == targets_of(string_views(urls@)),
{
    let mut targets: Vec<String> = Vec::new();
    let mut i: usize = 0;
    while i < urls.len()
        invariant
            i <= urls.len(),
            string_views(targets@) == targets_of(string_views(urls@).take(i as int)),
        decreases urls.len() - i,
    {
        let t = trim(urls[i].as_str());
        assert(string_views(urls@).take(i + 1).drop_last() == string_views(urls@).take(i as int));
        if !t.as_str().is_empty() {
            let ghost before = targets@;
            targets.push(t);
            assert(string_views(targets@) == string_views(before).push(t@));
        }
        i = i + 1;
    }
    assert(string_views(urls@).take(urls@.len() as int) == string_views(urls@));
    targets
}


proof fn lemma_trim_start_edge(s: Seq<char>)
    ensures
        trim_start(s).len() > 0 ==> !is_unicode_whitespace(trim_start(s)[0]),
    decreases s.len(),
{
    if s.len() > 0 && is_unicode_whitespace(s[0]) {
        lemma_trim_start_edge(s.drop_first());
    }
}

proof fn lemma_trim_end_edges(t: Seq<char>)
    ensures
        trim_end(t).len() <= t.len(),
        trim_end(t) == t.take(trim_end(t).len() as int),
        trim_end(t).len() > 0 ==> !is_unicode_whitespace(trim_end(t).last()),
    decreases t.len(),
{
    if t.len() > 0 && is_unicode_whitespace(t.last()) {
        lemma_trim_end_edges(t.drop_last());
        let r = trim_end(t.drop_last());
        assert(t.drop_last().take(r.len() as int) == t.take(r.len() as int));
    } else {
        assert(t.take(t.len() as int) == t);
    }
}

/// What trimming leaves has no white space at either end, so trimming it
/// again changes nothing.
pub proof fn lemma_trimmed_edges(s: Seq<char>)
    ensures
        trimmed(s).len() > 0 ==> !is_unicode_whitespace(trimmed(s)[0])
            && !is_unicode_whitespace(trimmed(s).last()),
        trimmed(trimmed(s)) == trimmed(s),
{
    let t = trim_start(s);
    lemma_trim_start_edge(s);
    lemma_trim_end_edges(t);
    let r = trimmed(s);
    if r.len() > 0 {
        assert(r[0] == t[0]);
        assert(trim_start(r) == r);
        assert(trim_end(r) == r);
    } else {
        assert(trim_start(r) == r);
        assert(trim_end(r) == r);
    }
}

/// Every URL handed to yt-dlp is non-blank and has no white space at either
/// end; each is a trimmed line of the input.
pub proof fn law_targets_are_trimmed(urls: Seq<Seq<char>>)
    ensures
        forall|i: int|
            0 <= i < targets_of(urls).len() ==> {
                let t = #[trigger] targets_of(urls)[i];
                &&& t.len() > 0
                &&& !is_unicode_whitespace(t[0])
                &&& !is_unicode_whitespace(t.last())
                &&& trimmed(t) == t
            },
        targets_of(urls).len() <= urls.len(),
    decreases urls.len(),
{
    if urls.len() > 0 {
        law_targets_are_trimmed(urls.drop_last());
        lemma_trimmed_edges(urls.last());
    }
}


/// The height limit of each resolution, in pixels, as yt-dlp reads it: the
/// name of the resolution is its height.
pub proof fn law_height_caps()
    ensures
        height_cap_of(VideoResolution::Res1080) == seq!['1', '0', '8', '0'],
        height_cap_of(VideoResolution::Res720) == seq!['7', '2', '0'],
        height_cap_of(VideoResolution::Res480) == seq!['4', '8', '0'],
        height_cap_of(VideoResolution::Res360) == seq!['3', '6', '0'],
{
    reveal_strlit("1080");
    reveal_strlit("720");
    reveal_strlit("480");
    reveal_strlit("360");
}

/// Every resolution gets the same rule, with its own cap on each of the three
/// alternatives: the best MP4 video no higher than the cap with the best M4A
/// audio, else the best MP4 no higher than the cap, else the best of anything
/// no higher than the cap.
pub proof fn law_format_rule_caps_every_alternative(res: VideoResolution)
    ensures
        ({
            let cap_filter = "[height<=?"@ + height_cap_of(res) + "]"@;
            format_rule_of(res) == ("bestvideo[ext=mp4]"@ + cap_filter) + "+bestaudio[ext=m4a]/"@ + (
            "mp4"@ + cap_filter) + "/"@ + ("best"@ + cap_filter)
        }),
{
    reveal_strlit("bestvideo[ext=mp4][height<=?");
    reveal_strlit("]+bestaudio[ext=m4a]/mp4[height<=?");
    reveal_strlit("]/best[height<=?");
    reveal_strlit("]");
    reveal_strlit("[height<=?");
    reveal_strlit("bestvideo[ext=mp4]");
    reveal_strlit("+bestaudio[ext=m4a]/");
    reveal_strlit("mp4");
    reveal_strlit("/");
    reveal_strlit("best");
    let cap = height_cap_of(res);
    let f = "[height<=?"@ + cap + "]"@;
    assert(format_rule_of(res) =~= ("bestvideo[ext=mp4]"@ + f) + "+bestaudio[ext=m4a]/"@ + (
    "mp4"@ + f) + "/"@ + ("best"@ + f));
}

/// An audio-only batch extracts the audio and converts it to MP3 at the best
/// quality, on every platform, and picks no video format; a video batch
/// extracts nothing and picks the capped MP4 rule. Apart from the arguments
/// for the platform, the settings are the same everywhere.
pub proof fn law_audio_and_video_settings(
    config: DownloadConfig,
    url: Seq<char>,
    destination: Seq<char>,
    is_windows: bool,
)
    ensures
        ({
            let s = planned_settings(config, url, destination, is_windows);
            let args = s.4;
            let n = args.len();
            &&& s.0 == url
            &&& s.1 == Some(config.engine_path@)
            &&& args[0] == "--output"@
            &&& args[1] == output_template_of(destination)
            &&& config.target_format == MediaFormat::Mp3 ==> {
                &&& s.3
                &&& s.2 is None
                &&& n >= 4
                &&& args.subrange(n - 4, n as int) == seq![
                    "--audio-format"@,
                    "mp3"@,
                    "--audio-quality"@,
                    "0"@,
                ]
            }
            &&& config.target_format == MediaFormat::Mp4 ==> {
                &&& !s.3
                &&& s.2 == Some(format_rule_of(config.target_resolution))
                &&& n >= 3
                &&& args.subrange(n - 3, n as int) == seq![
                    "--merge-output-format"@,
                    "mp4"@,
                    "--force-overwrites"@,
                ]
            }
        }),
        planned_settings(config, url, destination, true).3 == planned_settings(
            config,
            url,
            destination,
            false,
        ).3,
        planned_settings(config, url, destination, true).2 == planned_settings(
            config,
            url,
            destination,
            false,
        ).2,
{
    let s = planned_settings(config, url, destination, is_windows);
    let args = s.4;
    let n = args.len();
    match config.target_format {
        MediaFormat::Mp3 => {
            assert(args.subrange(n - 4, n as int) =~= seq![
                "--audio-format"@,
                "mp3"@,
                "--audio-quality"@,
                "0"@,
            ]);
        },
        MediaFormat::Mp4 => {
            assert(args.subrange(n - 3, n as int) =~= seq![
                "--merge-output-format"@,
                "mp4"@,
                "--force-overwrites"@,
            ]);
        },
    }
}

/// Whether a trimmed line holds something.
pub open spec fn is_nonblank(t: Seq<char>) -> bool {
    t.len() > 0
}

/// The URLs of a batch are exactly its lines trimmed, blank ones left out,
/// in their order: none is dropped, none added, none reordered.
pub proof fn law_targets_are_nonblank_lines(urls: Seq<Seq<char>>)
    ensures
        targets_of(urls) == urls.map_values(|u: Seq<char>| trimmed(u)).filter(
            |t: Seq<char>| is_nonblank(t),
        ),
    decreases urls.len(),
{
    reveal_with_fuel(Seq::<_>::filter, 1);
    let lines = urls.map_values(|u: Seq<char>| trimmed(u));
    if urls.len() > 0 {
        law_targets_are_nonblank_lines(urls.drop_last());
        assert(lines.drop_last() =~= urls.drop_last().map_values(|u: Seq<char>| trimmed(u)));
    } else {
        assert(lines =~= Seq::<Seq<char>>::empty());
    }
}

/// `path` escaped for a single-quoted PowerShell string: each `'` doubled.
pub open spec fn single_quote_escaped(path: Seq<char>) -> Seq<char>
    decreases path.len(),
{
    if path.len() == 0 {
        seq![]
    } else {
        (if path[0] == '\'' {
            seq!['\'', '\'']
        } else {
            seq![path[0]]
        }) + single_quote_escaped(path.drop_first())
    }
}

/// `path` as a single-quoted PowerShell string literal.
pub open spec fn single_quoted(path: Seq<char>) -> Seq<char> {
    seq!['\''] + single_quote_escaped(path) + seq!['\'']
}

proof fn lemma_escape_push(path: Seq<char>, c: char)
    ensures
        single_quote_escaped(path.push(c)) == single_quote_escaped(path) + (if c == '\'' {
            seq!['\'', '\'']
        } else {
            seq![c]
        }),
    decreases path.len(),
{
    if path.len() == 0 {
        assert(path.push(c).drop_first() == Seq::<char>::empty());
        assert(single_quote_escaped(Seq::<char>::empty()) == Seq::<char>::empty());
    } else {
        let head = if path[0] == '\'' {
            seq!['\'', '\'']
        } else {
            seq![path[0]]
        };
        let tail = if c == '\'' {
            seq!['\'', '\'']
        } else {
            seq![c]
        };
        assert(path.push(c).drop_first() == path.drop_first().push(c));
        assert(path.push(c)[0] == path[0]);
        lemma_escape_push(path.drop_first(), c);
        assert(single_quote_escaped(path.push(c)) == head + (single_quote_escaped(
            path.drop_first(),
        ) + tail));
        assert(head + (single_quote_escaped(path.drop_first()) + tail) == (head
            + single_quote_escaped(path.drop_first())) + tail);
    }
}

/// `path` as a PowerShell single-quoted string, as handed to `Expand-Archive`.
pub fn powershell_single_quoted_path(path: &str) -> (quoted: String)
    ensures
        quoted@ == single_quoted(path@),
{
    let v = chars_of(path);
    let mut s = String::new();
    push_char(&mut s, '\'');
    let mut i: usize = 0;
    while i < v.len()
        invariant
            i <= v.len(),
            v@ == path@,
            s@ == seq!['\''] + single_quote_escaped(v@.take(i as int)),
        decreases v.len() - i,
    {
        let c = v[i];
        proof {
            assert(v@.take(i + 1) == v@.take(i as int).push(c));
            lemma_escape_push(v@.take(i as int), c);
        }
        if c == '\'' {
            push_char(&mut s, '\'');
            push_char(&mut s, '\'');
        } else {
            push_char(&mut s, c);
        }
        i = i + 1;
    }
    assert(v@.take(v@.len() as int) == v@);
    push_char(&mut s, '\'');
    s
}

/// Whether PowerShell takes `c` for a typographic single quote (U+2018 to
/// U+201B), which, besides `'`, also opens, closes and doubles in a
/// single-quoted string.
pub open spec fn is_typographic_single_quote(c: char) -> bool {
    '\u{2018}' <= c <= '\u{201B}'
}

/// Reads the body of a single-quoted PowerShell string made with `'`: `''`
/// stands for one `'`, a lone `'` closes the string, which must then end. A
/// body that holds a typographic single quote is beyond this reader (`None`).
pub open spec fn read_quoted_body(t: Seq<char>) -> Option<Seq<char>>
    decreases t.len(),
{
    if t.len() == 0 || is_typographic_single_quote(t[0]) {
        None
    } else if t[0] == '\'' {
        if t.len() == 1 {
            Some(seq![])
        } else if t[1] == '\'' {
            match read_quoted_body(t.skip(2)) {
                Some(rest) => Some(seq!['\''] + rest),
                None => None,
            }
        } else {
            None
        }
    } else {
        match read_quoted_body(t.skip(1)) {
            Some(rest) => Some(seq![t[0]] + rest),
            None => None,
        }
    }
}

/// The text PowerShell reads from a whole single-quoted string literal `t`
/// made with `'`, if `t` is exactly one such literal and holds no
/// typographic single quote.
pub open spec fn read_single_quoted(t: Seq<char>) -> Option<Seq<char>> {
    if t.len() > 0 && t[0] == '\'' {
        read_quoted_body(t.skip(1))
    } else {
        None
    }
}

proof fn lemma_read_escaped(path: Seq<char>)
    requires
        forall|i: int| 0 <= i < path.len() ==> !is_typographic_single_quote(#[trigger] path[i]),
    ensures
        read_quoted_body(single_quote_escaped(path) + seq!['\'']) == Some(path),
    decreases path.len(),
{
    let t = single_quote_escaped(path) + seq!['\''];
    if path.len() == 0 {
        assert(t == seq!['\'']);
    } else {
        let rest = single_quote_escaped(path.drop_first()) + seq!['\''];
        assert(forall|i: int|
            0 <= i < path.drop_first().len() ==> #[trigger] path.drop_first()[i] == path[i + 1]);
        lemma_read_escaped(path.drop_first());
        assert(!is_typographic_single_quote(path[0]));
        if path[0] == '\'' {
            assert(t == seq!['\'', '\''] + rest);
            assert(t.skip(2) == rest);
        } else {
            assert(t == seq![path[0]] + rest);
            assert(t.skip(1) == rest);
        }
        assert(seq![path[0]] + path.drop_first() == path);
    }
}

/// A quoted path with no typographic single quote reads back, in
/// PowerShell, as exactly the path: every character survives, and the
/// literal ends where the string ends. (Typographic single quotes, U+2018 to
/// U+201B, are left as they are by the quoting, so a path holding one is not
/// covered.)
pub proof fn law_quoted_path_reads_back(path: Seq<char>)
    requires
        forall|i: int| 0 <= i < path.len() ==> !is_typographic_single_quote(#[trigger] path[i]),
    ensures
        read_single_quoted(single_quoted(path)) == Some(path),
{
    lemma_read_escaped(path);
    assert(single_quoted(path).skip(1) == single_quote_escaped(path) + seq!['\'']);
}

/// The message for a download of `url` that failed with `cause`.
pub open spec fn download_failure_text(url: Seq<char>, cause: Seq<char>) -> Seq<char> {
    "Download failed for "@ + url + ": "@ + cause
}

/// The message for a download of `url` that failed with `cause`.
pub fn download_failure_message(url: &str, cause: &str) -> (s: String)
    ensures
        s@ == download_failure_text(url@, cause@),
{
    let mut s = concat("Download failed for ", url);
    s.append(": ");
    s.append(cause);
    s
}

} // verus!
