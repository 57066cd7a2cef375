use home_fm_server::digits::u32_decimal;
use home_fm_server::radio::format_frequency;
use home_fm_server::song::{
    build_new_song, get_json_path, get_song_path, output_template, search_query, Info, Song,
    SongRequest,
};
use home_fm_server::system::AppState;

fn request(name: &str, artists: &str, thumbnail_url: &str) -> SongRequest {
    SongRequest::new(
        artists.to_string(),
        name.to_string(),
        thumbnail_url.to_string(),
        false,
    )
}

#[test]
fn decimal_rendering() {
    assert_eq!(u32_decimal(0), "0");
    assert_eq!(u32_decimal(7), "7");
    assert_eq!(u32_decimal(10), "10");
    assert_eq!(u32_decimal(104), "104");
    assert_eq!(u32_decimal(3600), "3600");
    assert_eq!(u32_decimal(u32::MAX), "4294967295");
}

#[test]
fn frequency_rendering_uses_comma() {
    assert_eq!(format_frequency(1041), "104,1");
    assert_eq!(format_frequency(955), "95,5");
    assert_eq!(format_frequency(1000), "100");
    assert_eq!(format_frequency(1), "0,1");
    assert_eq!(format_frequency(0), "0");
}

#[test]
fn formatted_name_is_name_dash_artists() {
    let req = request("Blizny na rekach", "BIALAS, LANEK", "none");
    assert_eq!(req.get_formatted_name(), "Blizny na rekach - BIALAS, LANEK");
}

#[test]
fn request_records_its_fields() {
    let req = request("song", "artist", "http://thumb");
    assert_eq!(req.name, "song");
    assert_eq!(req.artists, "artist");
    assert_eq!(req.thumbnail_url, "http://thumb");
    assert!(!req.nsfw);
}

#[test]
fn search_query_asks_for_first_hit() {
    let req = request("song", "artist", "none");
    assert_eq!(search_query(&req), "ytsearch1:song - artist");
}

#[test]
fn output_template_keeps_extension_placeholder() {
    let req = request("song", "artist", "none");
    assert_eq!(output_template(&req), "song - artist.%(ext)s");
}

#[test]
fn song_path_joins_directory_and_name() {
    assert_eq!(
        get_song_path("/srv/static/songs", "song - artist"),
        "/srv/static/songs/song - artist"
    );
}

#[test]
fn json_path_appends_info_suffix() {
    assert_eq!(get_json_path("/srv/songs/a"), "/srv/songs/a.info.json");
}

#[test]
fn downloaded_song_takes_reported_thumbnail_when_unset() {
    let req = request("song", "artist", "none");
    let info = Info { duration: 212, thumbnail: "http://reported".to_string() };
    let new_song = build_new_song(&req, info, "/srv/songs/song - artist");
    assert_eq!(new_song.thumbnail_url, "http://reported");
    assert_eq!(new_song.duration, 212);
    assert_eq!(new_song.name, "song");
    assert_eq!(new_song.artists, "artist");
    assert_eq!(new_song.path, "/srv/songs/song - artist.wav");
    assert!(!new_song.nsfw);
}

#[test]
fn downloaded_song_keeps_requested_thumbnail() {
    let req = request("song", "artist", "http://mine");
    let info = Info { duration: 3, thumbnail: "http://reported".to_string() };
    let new_song = build_new_song(&req, info, "/srv/songs/song - artist");
    assert_eq!(new_song.thumbnail_url, "http://mine");
}

#[test]
fn song_constructor_keeps_fields() {
    let song = Song::new(
        7,
        "name".to_string(),
        "/p.wav".to_string(),
        120,
        "t".to_string(),
        "a".to_string(),
        true,
    );
    assert_eq!(song.id, 7);
    assert_eq!(song.name, "name");
    assert_eq!(song.path, "/p.wav");
    assert_eq!(song.duration, 120);
    assert!(song.nsfw);
}

#[test]
fn app_state_starts_with_no_song() {
    let state = AppState::new();
    assert_eq!(state.current_song, "");
}
