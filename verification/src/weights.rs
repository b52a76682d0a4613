use vstd::prelude::*;

verus! {

/// Where the weights of the image classifier are downloaded from.
pub const WEIGHTS_URL: &'static str = "https://download.pytorch.org/models/resnet50-0676ba61.pth";

/// The directory, under the working directory, that holds downloaded weights.
pub const MODELS_DIR: &'static str = "models";

/// The file name used where the URL has no path to take one from.
pub const FALLBACK_FILE_NAME: &'static str = "tmp.pth";

/// The path segments of a URL as the `url` crate parses it: `Err` where the
/// text is no URL, `Ok(None)` where the URL cannot be a base (it has no path
/// of segments), and the segments otherwise.
pub uninterp spec fn url_path_segments(input: Seq<char>) -> Result<Option<Seq<Seq<char>>>, ()>;

/// The texts of a list of strings.
pub open spec fn texts(v: Seq<String>) -> Seq<Seq<char>> {
    v.map_values(|s: String| s@)
}

/// The abstract value of what the URL parser returned.
pub open spec fn segments_view(r: Result<Option<Vec<String>>, ()>) -> Result<Option<Seq<Seq<char>>>, ()> {
    match r {
        Ok(Some(v)) => Ok(Some(texts(v@))),
        Ok(None) => Ok(None),
        Err(()) => Err(()),
    }
}

/// Calls `reqwest::Url::parse` on the text and `path_segments` on the URL it
/// returns, and collects the segments. The contract names the result.
#[verifier::external_body]
fn parse_path_segments(input: &str) -> (r: Result<Option<Vec<String>>, ()>)
    ensures
        segments_view(r) == url_path_segments(input@),
{
    match reqwest::Url::parse(input) {
        Ok(url) => Ok(url.path_segments().map(|segments| segments.map(|s| s.to_string()).collect())),
        Err(_) => Err(()),
    }
}

/// The name of the file that keeps what a URL points to: the last segment of
/// its path, or the fallback name where it has no path of segments.
pub open spec fn file_name_of(segments: Option<Seq<Seq<char>>>) -> Seq<char> {
    match segments {
        Some(s) => if s.len() > 0 { s.last() } else { FALLBACK_FILE_NAME@ },
        None => FALLBACK_FILE_NAME@,
    }
}

/// The name of the file that keeps what a URL with the given path segments
/// points to.
pub fn file_name_from_segments(segments: Option<Vec<String>>) -> (name: String)
    ensures
        name@ == file_name_of(match segments {
            Some(v) => Some(texts(v@)),
            None => None,
        }),
{
    match segments {
        Some(v) => {
            let n = v.len();
            if n > 0 {
                v[n - 1].clone()
            } else {
                String::from_str(FALLBACK_FILE_NAME)
            }
        },
        None => String::from_str(FALLBACK_FILE_NAME),
    }
}

/// The name of the file that keeps what `url` points to, or `None` where
/// `url` is no URL.
pub fn weights_file_name(url: &str) -> (name: Option<String>)
    ensures
        url_path_segments(url@) is Err <==> name is None,
        url_path_segments(url@) matches Ok(segments) ==> (name matches Some(n) && n@ == file_name_of(segments)),
        url_path_segments(url@) matches Ok(Some(segments)) ==> (segments.len() > 0
            ==> (name matches Some(n) && n@ == segments[segments.len() - 1])),
        url_path_segments(url@) matches Ok(Some(segments)) ==> (segments.len() == 0
            ==> (name matches Some(n) && n@ == FALLBACK_FILE_NAME@)),
        url_path_segments(url@) matches Ok(None) ==> (name matches Some(n) && n@ == FALLBACK_FILE_NAME@),
{
    match parse_path_segments(url) {
        Ok(segments) => Some(file_name_from_segments(segments)),
        Err(()) => None,
    }
}

/// The file is named after the last segment of the URL's path, whatever the
/// number of segments; only a URL with no segments gets the fallback name.
pub proof fn lemma_file_name_is_last_segment(segments: Option<Seq<Seq<char>>>)
    ensures
        segments matches Some(s) ==> (s.len() > 0 ==> file_name_of(segments) == s[s.len() - 1]),
        segments matches Some(s) ==> (s.len() == 0 ==> file_name_of(segments) == FALLBACK_FILE_NAME@),
        segments is None ==> file_name_of(segments) == FALLBACK_FILE_NAME@,
{
}

/// Appending a segment to a path makes it the file name.
pub proof fn lemma_file_name_follows_appended_segment(s: Seq<Seq<char>>, last: Seq<char>)
    ensures
        file_name_of(Some(s.push(last))) == last,
{
}

/// What to do to have the weights on disk.
#[derive(Debug, Clone, Copy, PartialEq, Eq, Structural)]
pub enum WeightsFileAction {
    /// Open the file that is already there.
    OpenExisting,
    /// Create the file and write the downloaded weights into it.
    Download,
}

/// The weights are downloaded only where their file is not there yet.
pub fn weights_file_action(file_exists: bool) -> (a: WeightsFileAction)
    ensures
        file_exists <==> a == WeightsFileAction::OpenExisting,
        !file_exists <==> a == WeightsFileAction::Download,
{
    if file_exists {
        WeightsFileAction::OpenExisting
    } else {
        WeightsFileAction::Download
    }
}

} // verus!
