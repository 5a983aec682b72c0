//! The `youtube_dl` crate's command builder, as far as this library sets it up.
use vstd::prelude::*;
use youtube_dl::YoutubeDl;

verus! {

/// The builder type of the `youtube_dl` crate, held opaquely.
#[verifier::external_type_specification]
#[verifier::external_body]
pub struct ExYoutubeDl(YoutubeDl);

/// What a `YoutubeDl` builder holds of the settings this library sets: the
/// URL, the path of the yt-dlp executable, the `-f` format, the
/// `--extract-audio` flag and the extra arguments, in the order they were added.
pub uninterp spec fn youtube_dl_settings(dl: YoutubeDl) -> (
    Seq<char>,
    Option<Seq<char>>,
    Option<Seq<char>>,
    bool,
    Seq<Seq<char>>,
);

/// `YoutubeDl::new`: its source sets the URL and leaves the executable path and
/// the format unset, `--extract-audio` off and the extra arguments empty.
/// Nothing is said here of the builder's other settings, which this library
/// never touches (the source leaves them unset or off as well).
#[verifier::external_body]
pub(crate) fn youtube_dl_new(url: &str) -> (dl: YoutubeDl)
    ensures
        youtube_dl_settings(dl) == (url@, None::<Seq<char>>, None::<Seq<char>>, false, Seq::<
            Seq<char>,
        >::empty()),
{
    YoutubeDl::new(url)
}

/// `YoutubeDl::youtube_dl_path`: its source stores the given path as the
/// executable to run and changes nothing else.
#[verifier::external_body]
pub(crate) fn set_executable_path(dl: &mut YoutubeDl, path: &str)
    ensures
        youtube_dl_settings(*final(dl)) == ({
            let s = youtube_dl_settings(*old(dl));
            (s.0, Some(path@), s.2, s.3, s.4)
        }),
{
    dl.youtube_dl_path(path);
}

/// `YoutubeDl::format`: its source stores the given `-f` format and changes
/// nothing else.
#[verifier::external_body]
pub(crate) fn set_format(dl: &mut YoutubeDl, format: &str)
    ensures
        youtube_dl_settings(*final(dl)) == ({
            let s = youtube_dl_settings(*old(dl));
            (s.0, s.1, Some(format@), s.3, s.4)
        }),
{
    dl.format(format);
}

/// `YoutubeDl::extract_audio`: its source stores the flag and changes nothing else.
#[verifier::external_body]
pub(crate) fn set_extract_audio(dl: &mut YoutubeDl, on: bool)
    ensures
        youtube_dl_settings(*final(dl)) == ({
            let s = youtube_dl_settings(*old(dl));
            (s.0, s.1, s.2, on, s.4)
        }),
{
    dl.extract_audio(on);
}

/// `YoutubeDl::extra_arg`: its source pushes the argument at the end of the
/// extra arguments and changes nothing else.
#[verifier::external_body]
pub(crate) fn add_extra_arg(dl: &mut YoutubeDl, arg: &str)
    ensures
        youtube_dl_settings(*final(dl)) == ({
            let s = youtube_dl_settings(*old(dl));
            (s.0, s.1, s.2, s.3, s.4.push(arg@))
        }),
{
    dl.extra_arg(arg);
}

} // verus!
