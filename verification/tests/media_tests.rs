use yoyopod::library::{
    compact_file_title, format_duration, parse_extinf, playlist_entry, playlist_track_lines,
    resolve_entry_path, track_entry, LocalMusicLibrary, PlaylistEntry, PlaylistTrackEntry,
};

fn playlist(uri: &str, tracks: usize) -> PlaylistEntry {
    PlaylistEntry {
        uri: uri.to_string(),
        name: "Mix".to_string(),
        track_count: tracks,
        tracks: (0..tracks)
            .map(|i| PlaylistTrackEntry {
                uri: format!("/music/{i}.mp3"),
                title: format!("T{i}"),
                subtitle: "--:--".to_string(),
            })
            .collect(),
    }
}

#[test]
fn catalog_exposes_track_counts_and_resolved_tracks() {
    let contents = "#EXTM3U\n#EXTINF:332,Chaconne\nOpen Classics/01 - Chaconne.mp3\nOpen Classics/02 - March.mp3\n";
    let lines = playlist_track_lines(contents);
    assert_eq!(lines.len(), 2);
    let root = "/music";
    let tracks: Vec<PlaylistTrackEntry> = lines
        .into_iter()
        .map(|line| track_entry(&resolve_entry_path(root, &line.path), line.extinf))
        .collect();
    let entry = playlist_entry("/music/Open Classics.m3u", tracks);
    let library = LocalMusicLibrary::open(root, vec![entry]);
    let playlists = library.list_playlists(true);
    assert_eq!(playlists.len(), 1);
    assert_eq!(playlists[0].track_count, 2);
    assert_eq!(playlists[0].name, "Open Classics");
    assert_eq!(playlists[0].tracks[0].title, "Chaconne");
    assert_eq!(playlists[0].tracks[0].subtitle, "5:32");
    assert_eq!(playlists[0].tracks[1].title, "March");
    assert_eq!(playlists[0].tracks[1].subtitle, "--:--");
    assert!(std::path::Path::new(&playlists[0].tracks[0].uri).starts_with(root));
}

#[test]
fn unknown_extinf_duration_stays_unknown_and_long_titles_use_the_filename() {
    let contents =
        "#EXTM3U\n#EXTINF:-1,Gustav Holst - First Suite in E-flat - I. Chaconne\n01 - Chaconne.mp3\n";
    let lines = playlist_track_lines(contents);
    let line = &lines[0];
    let track = track_entry(&resolve_entry_path("/music", &line.path), line.extinf.clone());
    assert_eq!(track.title, "Chaconne");
    assert_eq!(track.subtitle, "--:--");
}

#[test]
fn catalog_ignores_missing_and_outside_tracks() {
    let library = LocalMusicLibrary::open("/music", vec![playlist_entry("/music/Safe.m3u", Vec::new())]);
    let playlists = library.list_playlists(true);
    assert_eq!(playlists[0].track_count, 0);
    assert!(playlists[0].tracks.is_empty());
}

#[test]
fn extinf_lines_give_title_and_duration() {
    assert_eq!(parse_extinf("332,Chaconne"), Some(("Chaconne".to_string(), "5:32".to_string())));
    assert_eq!(parse_extinf(" 65 , Song "), Some(("Song".to_string(), "1:05".to_string())));
    assert_eq!(parse_extinf("+7,Song"), Some(("Song".to_string(), "0:07".to_string())));
    assert_eq!(parse_extinf("abc,Song"), Some(("Song".to_string(), "--:--".to_string())));
    assert_eq!(parse_extinf("0,Song"), Some(("Song".to_string(), "--:--".to_string())));
    assert_eq!(parse_extinf("332,  "), None);
    assert_eq!(parse_extinf("332"), None);
    assert_eq!(format_duration(3600), "60:00");
}

#[test]
fn file_titles_lose_their_track_numbers() {
    assert_eq!(compact_file_title("01 - Chaconne"), "Chaconne");
    assert_eq!(compact_file_title("Side A - Song"), "Side A - Song");
    assert_eq!(compact_file_title(" - Song"), " - Song");
    assert_eq!(compact_file_title("Song"), "Song");
}

#[test]
fn comments_and_blank_lines_are_skipped_and_extinf_applies_once() {
    let lines = playlist_track_lines("\u{feff}#EXTM3U\r\n\r\n#EXTINF:10,First\r\na.mp3\r\n# note\r\nb.mp3\r\n");
    assert_eq!(lines.len(), 2);
    assert_eq!(lines[0].path, "a.mp3");
    assert_eq!(lines[0].extinf, Some(("First".to_string(), "0:10".to_string())));
    assert_eq!(lines[1].path, "b.mp3");
    assert_eq!(lines[1].extinf, None);
}

#[test]
fn listing_without_counts_hides_tracks() {
    let library = LocalMusicLibrary::open("/music", vec![playlist("/music/a.m3u", 2), playlist("/music/b.m3u", 1)]);
    let playlists = library.list_playlists(false);
    assert_eq!(playlists.len(), 2);
    assert!(playlists.iter().all(|p| p.track_count == 0 && p.tracks.is_empty()));
    assert_eq!(library.playlist_count(), 2);
    assert_eq!(library.playlist("/music/b.m3u").map(|p| p.track_count), Some(1));
    assert!(library.playlist("/music/c.m3u").is_none());
}

#[test]
fn local_uris_are_recognised() {
    let library = LocalMusicLibrary::new("/music");
    assert!(library.is_local_track_uri("local:track:1"));
    assert!(library.is_local_track_uri("file:///x"));
    assert!(library.is_local_track_uri("/music/a/b.mp3"));
    assert!(!library.is_local_track_uri("/musicbox/a.mp3"));
    assert!(library.is_local_playlist_uri("m3u:mix"));
    assert!(library.is_local_playlist_uri("/music/Mix.M3U"));
    assert!(!library.is_local_playlist_uri("/music/Mix.txt"));
    assert!(!library.is_local_playlist_uri("/other/Mix.m3u"));
    let menu = library.menu_items();
    assert_eq!(menu.len(), 3);
    assert_eq!(menu[2].key, "shuffle");
}

#[test]
fn tracks_are_grouped_by_extension_in_walk_order() {
    let library = LocalMusicLibrary::new("/music");
    let files = vec![
        "/music/b.flac".to_string(),
        "/music/a.MP3".to_string(),
        "/music/notes.txt".to_string(),
        "/music/c.mp3".to_string(),
        "/music/d.opus".to_string(),
        "/music/noext".to_string(),
    ];
    let tracks = library.collect_local_track_uris(&files);
    assert_eq!(tracks, vec!["/music/a.MP3", "/music/c.mp3", "/music/b.flac", "/music/d.opus"]);
    let mut shuffled = library.shuffle_track_uris(&files);
    shuffled.sort();
    let mut sorted = tracks.clone();
    sorted.sort();
    assert_eq!(shuffled, sorted);
}
