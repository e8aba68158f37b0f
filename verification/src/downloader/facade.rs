//! The acquisition facade: where downloads go and in which order.

use crate::downloader::client::{first_present, is_video_id, url_captures, YoutubeClient};
use crate::downloader::filename::{
    filename_for, generate_filename, is_clean, lemma_filename_is_clean,
};
use crate::downloader::pattern::occurs_in;
use crate::downloader::media_downloader::{default_config, Downloader};
use crate::downloader::persona::{android_config, AndroidClient};
use crate::downloader::response::{formats_view, text_view, StreamFormat, StreamFormatView, VideoInfo};
use vstd::prelude::*;

verus! {

/// The application's directory below the home directory.
pub const APP_DIRECTORY: &'static str = ".audyo_plaier";

/// The application's directory where no home directory is known.
pub const FALLBACK_DIRECTORY: &'static str = "./audyo_plaier";

/// The directory for audio files below the application's directory.
pub const AUDIO_DIRECTORY: &'static str = "audio";

/// The extension of every downloaded file.
pub const AUDIO_EXTENSION: &'static str = "m4a";

/// The path of `name` below `base`: the two joined by one `/`, unless `base`
/// is empty or ends in one already.
pub open spec fn joined(base: Seq<char>, name: Seq<char>) -> Seq<char> {
    if base.len() == 0 {
        name
    } else if base.last() == '/' {
        base + name
    } else {
        base + seq!['/'] + name
    }
}

/// The directory for downloads, given the home directory if one is known.
pub open spec fn output_directory(home: Option<Seq<char>>) -> Seq<char> {
    match home {
        Some(home) => joined(joined(home, APP_DIRECTORY@), AUDIO_DIRECTORY@),
        None => joined(FALLBACK_DIRECTORY@, AUDIO_DIRECTORY@),
    }
}

/// `dirs::home_dir`: the user's home directory, if the system knows one. The
/// answer depends on the environment, so nothing is claimed of it.
#[verifier::external_body]
pub(crate) fn home_directory() -> Option<String> {
    match dirs::home_dir() {
        Some(path) => Some(path.to_string_lossy().into_owned()),
        None => None,
    }
}

fn ends_with_separator(text: &str) -> (r: bool)
    ensures
        r == (text@.len() > 0 && text@.last() == '/'),
{
    let mut last_is_separator = false;
    for c in it: text.chars()
        invariant
            it.seq() == text@,
            last_is_separator == (it.index() > 0 && it.seq()[it.index() - 1] == '/'),
    {
        last_is_separator = c == '/';
    }
    last_is_separator
}

/// Joins a directory and a name.
pub fn join(base: &str, name: &str) -> (r: String)
    ensures
        r@ == joined(base@, name@),
{
    let mut path = String::from_str(base);
    if !base.is_empty() && !ends_with_separator(base) {
        path.push('/');
    }
    path.append(name);
    path
}

/// One download of an acquisition.
#[derive(Debug, PartialEq, Eq)]
pub struct DownloadJob {
    pub format: StreamFormat,
    pub destination: String,
}

/// The mathematical value of a [`DownloadJob`].
pub struct DownloadJobView {
    pub format: StreamFormatView,
    pub destination: Seq<char>,
}

impl View for DownloadJob {
    type V = DownloadJobView;

    open spec fn view(&self) -> DownloadJobView {
        DownloadJobView { format: self.format@, destination: self.destination@ }
    }
}

/// The file to which a video with this title is downloaded.
pub open spec fn output_path(output_dir: Seq<char>, title: Seq<char>) -> Seq<char> {
    joined(output_dir, filename_for(title, AUDIO_EXTENSION@))
}

/// The name of a downloaded file holds none of the reserved characters and
/// no control character, whatever the title was.
pub proof fn lemma_audio_filename_is_clean(title: Seq<char>)
    ensures
        is_clean(filename_for(title, AUDIO_EXTENSION@)),
{
    reveal_strlit("m4a");
    lemma_filename_is_clean(title, AUDIO_EXTENSION@);
}

/// The downloads of an acquisition: one for every format, in the order of
/// the formats, all to the same file.
pub open spec fn planned(output_dir: Seq<char>, title: Seq<char>, formats: Seq<StreamFormatView>) -> Seq<
    DownloadJobView,
> {
    Seq::new(
        formats.len(),
        |i: int| DownloadJobView { format: formats[i], destination: output_path(output_dir, title) },
    )
}

/// The views of a list of jobs.
pub open spec fn jobs_view(jobs: Seq<DownloadJob>) -> Seq<DownloadJobView> {
    Seq::new(jobs.len(), |i: int| jobs[i]@)
}

/// Resolves videos and downloads their audio to one directory.
pub struct YoutubeFacade {
    client: YoutubeClient<AndroidClient>,
    downloader: Downloader,
    output_dir: String,
}

impl YoutubeFacade {
    /// A facade that downloads below the user's home directory or, where the
    /// system knows none, below the working directory.
    pub fn new() -> (r: YoutubeFacade)
        ensures
            exists|home: Option<Seq<char>>| r.directory() == output_directory(home),
            r.client_view().strategy()@ == android_config(),
            r.downloader_view()@ == default_config(),
    {
        let home = home_directory();
        let facade = Self::with_home(home);
        assert(facade.directory() == output_directory(text_view(home)));
        facade
    }

    /// A facade for the given home directory.
    pub fn with_home(home: Option<String>) -> (r: YoutubeFacade)
        ensures
            r.directory() == output_directory(text_view(home)),
            r.client_view().strategy()@ == android_config(),
            r.downloader_view()@ == default_config(),
    {
        let base = match home {
            Some(home) => join(home.as_str(), APP_DIRECTORY),
            None => String::from_str(FALLBACK_DIRECTORY),
        };
        proof {
            reveal_strlit("./audyo_plaier");
        }
        let output_dir = join(base.as_str(), AUDIO_DIRECTORY);
        YoutubeFacade {
            client: YoutubeClient::default_android(),
            downloader: Downloader::new(),
            output_dir,
        }
    }

    /// The directory for downloads.
    pub closed spec fn directory(&self) -> Seq<char> {
        self.output_dir@
    }

    pub closed spec fn client_view(&self) -> YoutubeClient<AndroidClient> {
        self.client
    }

    pub closed spec fn downloader_view(&self) -> Downloader {
        self.downloader
    }

    /// The directory for downloads.
    pub fn output_dir(&self) -> (r: &str)
        ensures
            r@ == self.directory(),
    {
        self.output_dir.as_str()
    }

    /// The protocol client.
    pub fn client(&self) -> (r: &YoutubeClient<AndroidClient>)
        ensures
            *r == self.client_view(),
    {
        &self.client
    }

    /// The downloader.
    pub fn downloader(&self) -> (r: &Downloader)
        ensures
            *r == self.downloader_view(),
    {
        &self.downloader
    }

    /// Plans the downloads for a resolved video: every format, in the order
    /// in which the response listed them, each to the file named after the
    /// video's title. A later download overwrites an earlier one.
    pub fn plan(&self, video_info: VideoInfo) -> (r: Vec<DownloadJob>)
        ensures
            jobs_view(r@) == planned(self.directory(), video_info@.title, video_info@.formats),
            r@.len() > 0,
    {
        let filename = generate_filename(video_info.title(), AUDIO_EXTENSION);
        let destination = join(self.output_dir.as_str(), filename.as_str());
        let ghost title = video_info@.title;
        let ghost listed = video_info@.formats;
        let formats = video_info.into_formats();
        let mut jobs: Vec<DownloadJob> = Vec::new();
        for format in it: formats
            invariant
                destination@ == output_path(self.output_dir@, title),
                formats_view(it.seq()) == listed,
                jobs_view(jobs@) == planned(self.output_dir@, title, listed.subrange(0, it.index())),
        {
            let ghost before = jobs@;
            jobs.push(DownloadJob { format, destination: destination.clone() });
            proof {
                let i = it.index();
                assert(listed[i] == it.seq()[i]@);
                assert(listed.subrange(0, i + 1) == listed.subrange(0, i).push(listed[i]));
                assert(jobs_view(jobs@) == jobs_view(before).push(jobs@[i]@));
                assert(jobs_view(jobs@) == planned(self.output_dir@, title, listed.subrange(0, i + 1)));
            }
        }
        jobs
    }

    /// The video identifier in a URL, if the URL has one of the known shapes.
    pub fn extract_video_id_from_url(&self, url: &str) -> (r: Option<String>)
        ensures
            text_view(r) == first_present(url_captures(url@)),
            r matches Some(id) ==> is_video_id(id@) && occurs_in(id@, url@),
    {
        YoutubeClient::<AndroidClient>::extract_video_id(url)
    }
}

} // verus!
