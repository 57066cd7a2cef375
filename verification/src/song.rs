//! Songs and song requests: the data the orchestrator plays, and the string
//! assembly around fetching a requested song (search query, file paths, and
//! the record built from what the downloader reports).

use vstd::prelude::*;
use vstd::string::StringExecFns;

verus! {

/// A song asked for by a listener. `requested_at` is the Unix timestamp, in
/// whole seconds, of the moment the request was recorded.
pub struct SongRequest {
    pub artists: String,
    pub name: String,
    pub requested_at: i64,
    pub thumbnail_url: String,
    pub nsfw: bool,
}

/// A song known to the system and ready to broadcast. `duration` is in whole
/// seconds and is always positive; `path` points at the playable audio file.
pub struct Song {
    pub id: i32,
    pub name: String,
    pub path: String,
    pub duration: i32,
    pub thumbnail_url: String,
    pub artists: String,
    pub nsfw: bool,
}

/// A freshly downloaded song, not yet stored.
pub struct NewSong {
    pub name: String,
    pub path: String,
    pub duration: i32,
    pub thumbnail_url: String,
    pub artists: String,
    pub nsfw: bool,
}

/// What the downloader reports about a fetched song.
pub struct Info {
    pub duration: i32,
    pub thumbnail: String,
}

/// Identifies a stored song.
pub struct SongId {
    pub id: i32,
}

impl Song {
    /// A song is well formed when its declared duration is positive: the
    /// duration bounds the broadcast process's lifetime, so a run of zero
    /// seconds would never transmit anything.
    pub open spec fn wf(self) -> bool {
        self.duration > 0
    }

    pub fn new(
        id: i32,
        name: String,
        path: String,
        duration: i32,
        thumbnail_url: String,
        artists: String,
        nsfw: bool,
    ) -> (song: Song)
        requires
            duration > 0,
        ensures
            song.wf(),
            song.id == id,
            song.name == name,
            song.path == path,
            song.duration == duration,
            song.thumbnail_url == thumbnail_url,
            song.artists == artists,
            song.nsfw == nsfw,
    {
        Song { id, name, path, duration, thumbnail_url, artists, nsfw }
    }
}

/// The display form of a request: the song's name, a dash, the artists.
pub open spec fn spec_formatted_name(name: Seq<char>, artists: Seq<char>) -> Seq<char> {
    name + " - "@ + artists
}

/// Relies on chrono's `Utc::now` for the current wall-clock time; the result
/// depends on the moment of the call, so nothing is promised of it.
#[verifier::external_body]
fn unix_time_now() -> i64 {
    chrono::Utc::now().timestamp()
}

impl SongRequest {
    /// Records a request made now: every field comes from the caller except
    /// the timestamp, which is read from the clock.
    pub fn new(artists: String, name: String, thumbnail_url: String, nsfw: bool) -> (req:
        SongRequest)
        ensures
            req.artists == artists,
            req.name == name,
            req.thumbnail_url == thumbnail_url,
            req.nsfw == nsfw,
    {
        let requested_at = unix_time_now();
        SongRequest { artists, name, requested_at, thumbnail_url, nsfw }
    }

    /// {song's name} - {song's artists separated by ", "}
    pub fn get_formatted_name(&self) -> (r: String)
        ensures
            r@ == spec_formatted_name(self.name@, self.artists@),
    {
        let mut r = self.name.clone();
        r.append(" - ");
        r.append(self.artists.as_str());
        r
    }
}

/// The search query handed to the downloader: fetch the first hit for the
/// request's display name.
pub open spec fn spec_search_query(name: Seq<char>, artists: Seq<char>) -> Seq<char> {
    "ytsearch1:"@ + spec_formatted_name(name, artists)
}

/// Builds the downloader's search query for a request.
pub fn search_query(requested_song: &SongRequest) -> (r: String)
    ensures
        r@ == spec_search_query(requested_song.name@, requested_song.artists@),
{
    let mut r = String::from_str("ytsearch1:");
    let formatted = requested_song.get_formatted_name();
    r.append(formatted.as_str());
    r
}

/// The downloader's output template for a request: the display name followed
/// by a placeholder the downloader fills with the real extension.
pub open spec fn spec_output_template(name: Seq<char>, artists: Seq<char>) -> Seq<char> {
    spec_formatted_name(name, artists) + ".%(ext)s"@
}

/// Builds the downloader's output template for a request.
pub fn output_template(requested_song: &SongRequest) -> (r: String)
    ensures
        r@ == spec_output_template(requested_song.name@, requested_song.artists@),
{
    let mut r = requested_song.get_formatted_name();
    r.append(".%(ext)s");
    r
}

/// Get song's path inside the songs directory: the directory, a slash, the
/// song's file name.
pub fn get_song_path(songs_dir: &str, song_name: &str) -> (r: String)
    ensures
        r@ == songs_dir@ + "/"@ + song_name@,
{
    let mut r = String::from_str(songs_dir);
    r.append("/");
    r.append(song_name);
    r
}

/// Get path of the JSON file saved by the downloader beside a song, with
/// information about the download.
pub fn get_json_path(song_path: &str) -> (r: String)
    ensures
        r@ == song_path@ + ".info.json"@,
{
    let mut r = String::from_str(song_path);
    r.append(".info.json");
    r
}

/// Assembles the record for a downloaded song from the request and from what
/// the downloader reported. The thumbnail comes from the downloader exactly
/// when the request left it as the placeholder `"none"`; the stored path is
/// the song path with the audio extension appended.
pub fn build_new_song(requested_song: &SongRequest, info: Info, song_path: &str) -> (song: NewSong)
    requires
        info.duration > 0,
    ensures
        song.duration == info.duration,
        song.name == requested_song.name,
        song.artists == requested_song.artists,
        song.nsfw == requested_song.nsfw,
        song.path@ == song_path@ + ".wav"@,
        requested_song.thumbnail_url@ == "none"@ ==> song.thumbnail_url == info.thumbnail,
        requested_song.thumbnail_url@ != "none"@ ==> song.thumbnail_url
            == requested_song.thumbnail_url,
{
    let placeholder = String::from_str("none");
    let thumbnail_url = if requested_song.thumbnail_url == placeholder {
        info.thumbnail
    } else {
        requested_song.thumbnail_url.clone()
    };
    let mut path = String::from_str(song_path);
    path.append(".wav");
    NewSong {
        duration: info.duration,
        name: requested_song.name.clone(),
        artists: requested_song.artists.clone(),
        thumbnail_url,
        path,
        nsfw: requested_song.nsfw,
    }
}

} // verus!
