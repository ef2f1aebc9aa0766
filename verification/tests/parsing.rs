use lm04_stats::api::spotify::SpotifyApi;
use lm04_stats::json::Json;

fn s(v: &str) -> Json {
    Json::Str(v.to_string())
}

fn obj(fields: Vec<(&str, Json)>) -> Json {
    Json::Obj(fields.into_iter().map(|(k, v)| (k.to_string(), v)).collect())
}

fn full_track_json() -> Json {
    obj(vec![
        ("id", s("t1")),
        ("name", s("Song")),
        (
            "album",
            obj(vec![
                ("id", s("al1")),
                ("name", s("Album One")),
                ("artists", Json::Arr(vec![obj(vec![("id", s("ar1")), ("name", s("Band"))])])),
                (
                    "images",
                    Json::Arr(vec![obj(vec![
                        ("url", s("https://img.example/1")),
                        ("height", Json::Int(640)),
                        ("width", Json::Int(640)),
                    ])]),
                ),
            ]),
        ),
        (
            "artists",
            Json::Arr(vec![
                obj(vec![("id", s("ar1")), ("name", s("Band"))]),
                obj(vec![("id", s("ar2")), ("name", s("Guest"))]),
            ]),
        ),
        ("explicit", Json::Bool(true)),
        ("preview_url", s("https://preview.example/1")),
        ("duration_ms", Json::Int(215000)),
        ("popularity", Json::Int(50)),
    ])
}

#[test]
fn parse_track_reads_every_field() {
    let track = SpotifyApi::parse_track_from_json(&full_track_json());
    assert_eq!(track.id, "t1");
    assert_eq!(track.name, "Song");
    assert_eq!(track.album.id, "al1");
    assert_eq!(track.album.name, "Album One");
    assert_eq!(track.album.artists.len(), 1);
    assert_eq!(track.album.artists[0].id, "ar1");
    assert_eq!(track.album.artists[0].name, "Band");
    assert_eq!(track.album.images.len(), 1);
    assert_eq!(track.album.images[0].url, "https://img.example/1");
    assert_eq!(track.album.images[0].height, Some(640));
    assert_eq!(track.album.images[0].width, Some(640));
    assert_eq!(track.artists.len(), 2);
    assert_eq!(track.artists[1].name, "Guest");
    assert!(track.explicit);
    assert_eq!(track.preview_url.as_deref(), Some("https://preview.example/1"));
    assert_eq!(track.duration_ms, 215000);
    assert_eq!(track.popularity, 50);
}

#[test]
fn parse_track_empty_object_defaults() {
    let track = SpotifyApi::parse_track_from_json(&obj(vec![]));
    assert_eq!(track.id, "");
    assert_eq!(track.name, "");
    assert_eq!(track.album.id, "");
    assert_eq!(track.album.name, "");
    assert!(track.album.artists.is_empty());
    assert!(track.album.images.is_empty());
    assert!(track.artists.is_empty());
    assert!(!track.explicit);
    assert_eq!(track.preview_url, None);
    assert_eq!(track.duration_ms, 0);
    assert_eq!(track.popularity, 0);
}

#[test]
fn parse_track_non_object_defaults() {
    let track = SpotifyApi::parse_track_from_json(&Json::Null);
    assert_eq!(track.id, "");
    assert_eq!(track.duration_ms, 0);
    assert!(track.artists.is_empty());
}

#[test]
fn parse_track_wrong_types_default_per_field() {
    let track = SpotifyApi::parse_track_from_json(&obj(vec![
        ("id", Json::Int(7)),
        ("name", Json::Bool(true)),
        ("album", s("not an album")),
        ("artists", obj(vec![("id", s("x"))])),
        ("explicit", s("yes")),
        ("preview_url", Json::Int(1)),
        ("duration_ms", s("215000")),
        ("popularity", Json::Null),
    ]));
    assert_eq!(track.id, "");
    assert_eq!(track.name, "");
    assert_eq!(track.album.id, "");
    assert!(track.artists.is_empty());
    assert!(!track.explicit);
    assert_eq!(track.preview_url, None);
    assert_eq!(track.duration_ms, 0);
    assert_eq!(track.popularity, 0);
}

#[test]
fn parse_track_negative_and_inexact_numbers_default() {
    let track = SpotifyApi::parse_track_from_json(&obj(vec![
        ("duration_ms", Json::Int(-5)),
        ("popularity", Json::Inexact),
    ]));
    assert_eq!(track.duration_ms, 0);
    assert_eq!(track.popularity, 0);
}

#[test]
fn parse_track_popularity_truncates_to_a_byte() {
    let track = SpotifyApi::parse_track_from_json(&obj(vec![("popularity", Json::Int(300))]));
    assert_eq!(track.popularity, 44);
}

#[test]
fn parse_track_keeps_large_durations() {
    let track = SpotifyApi::parse_track_from_json(&obj(vec![(
        "duration_ms",
        Json::BigInt(u64::MAX),
    )]));
    assert_eq!(track.duration_ms, u64::MAX);
}

#[test]
fn parse_artists_defaults_each_entry() {
    let artists = SpotifyApi::parse_artists_from_json(&Json::Arr(vec![
        obj(vec![("id", s("a")), ("name", s("A"))]),
        obj(vec![("id", s("b"))]),
        Json::Null,
    ]));
    assert_eq!(artists.len(), 3);
    assert_eq!(artists[0].id, "a");
    assert_eq!(artists[0].name, "A");
    assert_eq!(artists[1].id, "b");
    assert_eq!(artists[1].name, "");
    assert_eq!(artists[2].id, "");
    assert_eq!(artists[2].name, "");
}

#[test]
fn parse_artists_non_array_is_empty() {
    assert!(SpotifyApi::parse_artists_from_json(&obj(vec![("id", s("a"))])).is_empty());
    assert!(SpotifyApi::parse_artists_from_json(&Json::Null).is_empty());
}

#[test]
fn parse_album_images_defaults_dimensions() {
    let images = SpotifyApi::parse_album_images_from_json(&Json::Arr(vec![
        obj(vec![("url", s("u1")), ("height", Json::Int(300)), ("width", s("wide"))]),
        obj(vec![]),
    ]));
    assert_eq!(images.len(), 2);
    assert_eq!(images[0].url, "u1");
    assert_eq!(images[0].height, Some(300));
    assert_eq!(images[0].width, None);
    assert_eq!(images[1].url, "");
    assert_eq!(images[1].height, None);
    assert_eq!(images[1].width, None);
}

#[test]
fn parse_album_non_object_defaults() {
    let album = SpotifyApi::parse_album_from_json(&Json::Bool(false));
    assert_eq!(album.id, "");
    assert_eq!(album.name, "");
    assert!(album.artists.is_empty());
    assert!(album.images.is_empty());
}

#[test]
fn currently_playing_with_track_item() {
    let mut item_fields = match full_track_json() {
        Json::Obj(f) => f,
        _ => unreachable!(),
    };
    item_fields.push(("type".to_string(), s("track")));
    let details = SpotifyApi::parse_currently_playing_response(&obj(vec![
        ("is_playing", Json::Bool(true)),
        ("item", Json::Obj(item_fields)),
    ]));
    assert!(details.is_playing);
    assert_eq!(details.played_at, None);
    let track = details.item.expect("a track item");
    assert_eq!(track.id, "t1");
}

#[test]
fn currently_playing_episode_item_is_dropped() {
    let details = SpotifyApi::parse_currently_playing_response(&obj(vec![
        ("is_playing", Json::Bool(true)),
        ("item", obj(vec![("type", s("episode")), ("id", s("e1"))])),
    ]));
    assert!(details.is_playing);
    assert_eq!(details.item, None);
}

#[test]
fn currently_playing_item_without_type_is_dropped() {
    let details = SpotifyApi::parse_currently_playing_response(&obj(vec![
        ("is_playing", Json::Bool(false)),
        ("item", obj(vec![("id", s("t9"))])),
    ]));
    assert_eq!(details.item, None);
    assert!(!details.is_playing);
}

#[test]
fn currently_playing_non_object_item_is_dropped() {
    let details = SpotifyApi::parse_currently_playing_response(&obj(vec![
        ("is_playing", Json::Bool(true)),
        ("item", s("track")),
    ]));
    assert_eq!(details.item, None);
}

#[test]
fn currently_playing_missing_or_mistyped_flag_defaults_to_false() {
    let a = SpotifyApi::parse_currently_playing_response(&obj(vec![]));
    assert!(!a.is_playing);
    let b = SpotifyApi::parse_currently_playing_response(&obj(vec![(
        "is_playing",
        s("true"),
    )]));
    assert!(!b.is_playing);
}

#[test]
fn recently_played_empty_items_gives_empty_details() {
    let details =
        SpotifyApi::parse_recently_played_response(&obj(vec![("items", Json::Arr(vec![]))]));
    assert_eq!(details.item, None);
    assert!(!details.is_playing);
    assert_eq!(details.played_at, None);
}

#[test]
fn recently_played_missing_items_gives_empty_details() {
    let details = SpotifyApi::parse_recently_played_response(&obj(vec![]));
    assert_eq!(details.item, None);
    assert_eq!(details.played_at, None);
}

#[test]
fn recently_played_reads_first_entry() {
    let details = SpotifyApi::parse_recently_played_response(&obj(vec![(
        "items",
        Json::Arr(vec![
            obj(vec![("played_at", s("2024-01-01T00:00:00Z")), ("track", full_track_json())]),
            obj(vec![("played_at", s("2023-12-31T00:00:00Z"))]),
        ]),
    )]));
    assert!(!details.is_playing);
    assert_eq!(details.played_at.as_deref(), Some("2024-01-01T00:00:00Z"));
    assert_eq!(details.item.expect("a track").id, "t1");
}

#[test]
fn recently_played_non_object_track_is_dropped() {
    let details = SpotifyApi::parse_recently_played_response(&obj(vec![(
        "items",
        Json::Arr(vec![obj(vec![("played_at", s("2024-01-01T00:00:00Z")), ("track", s("x"))])]),
    )]));
    assert_eq!(details.item, None);
    assert_eq!(details.played_at.as_deref(), Some("2024-01-01T00:00:00Z"));
}
