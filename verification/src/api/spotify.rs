use vstd::prelude::*;

use crate::json::{
    as_arr_v, as_bool_v, as_str_v, as_u64_v, get_field, Json, JsonV,
};
use super::{ErrorResponse, ErrorResponseV};
use crate::models::spotify_token::{
    SpotifyToken, SpotifyTokenError, SpotifyTokenErrorV, SpotifyTokenV,
};

verus! {

// ---------------------------------------------------------------------------
// The stable track shape that the widget renders, with its mathematical view.
// ---------------------------------------------------------------------------

#[derive(Debug, PartialEq, Eq)]
pub struct TrackDetails {
    pub item: Option<Track>,
    pub is_playing: bool,
    pub played_at: Option<String>,
}

#[derive(Debug, PartialEq, Eq)]
pub struct Track {
    pub id: String,
    pub name: String,
    pub album: Album,
    pub artists: Vec<Artist>,
    pub explicit: bool,
    pub preview_url: Option<String>,
    pub duration_ms: u64,
    pub popularity: u8,
}

#[derive(Debug, PartialEq, Eq)]
pub struct Album {
    pub id: String,
    pub name: String,
    pub artists: Vec<Artist>,
    pub images: Vec<AlbumImage>,
}

#[derive(Debug, PartialEq, Eq)]
pub struct AlbumImage {
    pub url: String,
    pub height: Option<usize>,
    pub width: Option<usize>,
}

#[derive(Debug, PartialEq, Eq)]
pub struct Artist {
    pub id: String,
    pub name: String,
}

#[verifier::ext_equal]
pub struct ArtistV {
    pub id: Seq<char>,
    pub name: Seq<char>,
}

#[verifier::ext_equal]
pub struct AlbumImageV {
    pub url: Seq<char>,
    pub height: Option<usize>,
    pub width: Option<usize>,
}

#[verifier::ext_equal]
pub struct AlbumV {
    pub id: Seq<char>,
    pub name: Seq<char>,
    pub artists: Seq<ArtistV>,
    pub images: Seq<AlbumImageV>,
}

#[verifier::ext_equal]
pub struct TrackV {
    pub id: Seq<char>,
    pub name: Seq<char>,
    pub album: AlbumV,
    pub artists: Seq<ArtistV>,
    pub explicit: bool,
    pub preview_url: Option<Seq<char>>,
    pub duration_ms: u64,
    pub popularity: u8,
}

#[verifier::ext_equal]
pub struct TrackDetailsV {
    pub item: Option<TrackV>,
    pub is_playing: bool,
    pub played_at: Option<Seq<char>>,
}

pub open spec fn opt_str_view(o: Option<String>) -> Option<Seq<char>> {
    match o {
        Some(s) => Some(s@),
        None => None,
    }
}

pub open spec fn artists_view(s: Seq<Artist>) -> Seq<ArtistV> {
    s.map(|i: int, a: Artist| a@)
}

pub open spec fn images_view(s: Seq<AlbumImage>) -> Seq<AlbumImageV> {
    s.map(|i: int, im: AlbumImage| im@)
}

impl View for Artist {
    type V = ArtistV;

    open spec fn view(&self) -> ArtistV {
        ArtistV { id: self.id@, name: self.name@ }
    }
}

impl View for AlbumImage {
    type V = AlbumImageV;

    open spec fn view(&self) -> AlbumImageV {
        AlbumImageV { url: self.url@, height: self.height, width: self.width }
    }
}

impl View for Album {
    type V = AlbumV;

    open spec fn view(&self) -> AlbumV {
        AlbumV {
            id: self.id@,
            name: self.name@,
            artists: artists_view(self.artists@),
            images: images_view(self.images@),
        }
    }
}

impl View for Track {
    type V = TrackV;

    open spec fn view(&self) -> TrackV {
        TrackV {
            id: self.id@,
            name: self.name@,
            album: self.album@,
            artists: artists_view(self.artists@),
            explicit: self.explicit,
            preview_url: opt_str_view(self.preview_url),
            duration_ms: self.duration_ms,
            popularity: self.popularity,
        }
    }
}

impl View for TrackDetails {
    type V = TrackDetailsV;

    open spec fn view(&self) -> TrackDetailsV {
        TrackDetailsV {
            item: match self.item {
                Some(t) => Some(t@),
                None => None,
            },
            is_playing: self.is_playing,
            played_at: opt_str_view(self.played_at),
        }
    }
}

// ---------------------------------------------------------------------------
// What each parser returns, field by field: string fields default to the
// empty string, booleans to false, numbers to zero, whenever the field is
// absent or of the wrong JSON type. Parsing is total: no input fails.
// ---------------------------------------------------------------------------

pub open spec fn str_or_empty(j: JsonV) -> Seq<char> {
    match as_str_v(j) {
        Some(s) => s,
        None => Seq::empty(),
    }
}

pub open spec fn bool_or_false(j: JsonV) -> bool {
    match as_bool_v(j) {
        Some(b) => b,
        None => false,
    }
}

pub open spec fn u64_or_zero(j: JsonV) -> u64 {
    match as_u64_v(j) {
        Some(n) => n,
        None => 0,
    }
}

/// Truncation of a 64-bit count to `usize`, as a plain `as` cast performs it.
pub open spec fn truncate_to_usize(h: u64) -> usize {
    ((h as int) % (usize::MAX as int + 1)) as usize
}

pub open spec fn spec_artist(j: JsonV) -> ArtistV {
    ArtistV { id: str_or_empty(get_field(j, "id"@)), name: str_or_empty(get_field(j, "name"@)) }
}

pub open spec fn spec_artists(j: JsonV) -> Seq<ArtistV> {
    match as_arr_v(j) {
        Some(items) => items.map(|i: int, e: JsonV| spec_artist(e)),
        None => Seq::empty(),
    }
}

pub open spec fn spec_album_image(j: JsonV) -> AlbumImageV {
    AlbumImageV {
        url: str_or_empty(get_field(j, "url"@)),
        height: match as_u64_v(get_field(j, "height"@)) {
            Some(h) => Some(truncate_to_usize(h)),
            None => None,
        },
        width: match as_u64_v(get_field(j, "width"@)) {
            Some(w) => Some(truncate_to_usize(w)),
            None => None,
        },
    }
}

pub open spec fn spec_album_images(j: JsonV) -> Seq<AlbumImageV> {
    match as_arr_v(j) {
        Some(items) => items.map(|i: int, e: JsonV| spec_album_image(e)),
        None => Seq::empty(),
    }
}

pub open spec fn spec_album(j: JsonV) -> AlbumV {
    AlbumV {
        id: str_or_empty(get_field(j, "id"@)),
        name: str_or_empty(get_field(j, "name"@)),
        artists: spec_artists(get_field(j, "artists"@)),
        images: spec_album_images(get_field(j, "images"@)),
    }
}

pub open spec fn spec_track(j: JsonV) -> TrackV {
    TrackV {
        id: str_or_empty(get_field(j, "id"@)),
        name: str_or_empty(get_field(j, "name"@)),
        album: spec_album(get_field(j, "album"@)),
        artists: spec_artists(get_field(j, "artists"@)),
        explicit: bool_or_false(get_field(j, "explicit"@)),
        preview_url: as_str_v(get_field(j, "preview_url"@)),
        duration_ms: u64_or_zero(get_field(j, "duration_ms"@)),
        popularity: (u64_or_zero(get_field(j, "popularity"@)) % 256) as u8,
    }
}

/// Whether a currently-playing reply carries a usable track: its `item` must
/// be an object whose `type` field is the literal string `"track"`.
pub open spec fn spec_item_is_track(j: JsonV) -> bool {
    &&& get_field(j, "item"@) is Obj
    &&& as_str_v(get_field(get_field(j, "item"@), "type"@)) == Some("track"@)
}

pub open spec fn spec_currently_playing(j: JsonV) -> TrackDetailsV {
    TrackDetailsV {
        item: if spec_item_is_track(j) {
            Some(spec_track(get_field(j, "item"@)))
        } else {
            None
        },
        is_playing: bool_or_false(get_field(j, "is_playing"@)),
        played_at: None,
    }
}

pub open spec fn spec_empty_details() -> TrackDetailsV {
    TrackDetailsV { item: None, is_playing: false, played_at: None }
}

pub open spec fn spec_recently_played(j: JsonV) -> TrackDetailsV {
    let items = match as_arr_v(get_field(j, "items"@)) {
        Some(s) => s,
        None => Seq::empty(),
    };
    if items.len() == 0 {
        spec_empty_details()
    } else {
        TrackDetailsV {
            item: if get_field(items[0], "track"@) is Obj {
                Some(spec_track(get_field(items[0], "track"@)))
            } else {
                None
            },
            is_playing: false,
            played_at: as_str_v(get_field(items[0], "played_at"@)),
        }
    }
}

// ---------------------------------------------------------------------------
// Executable parsing. Every function is total and proved to return exactly
// the value its spec function describes.
// ---------------------------------------------------------------------------

fn str_field_or_empty(j: &Json, key: &str) -> (r: String)
    ensures
        r@ == str_or_empty(get_field(j@, key@)),
{
    match j.get(key) {
        Some(v) => match v.as_str() {
            Some(s) => s.clone(),
            None => String::new(),
        },
        None => String::new(),
    }
}

fn opt_str_field(j: &Json, key: &str) -> (r: Option<String>)
    ensures
        opt_str_view(r) == as_str_v(get_field(j@, key@)),
{
    match j.get(key) {
        Some(v) => match v.as_str() {
            Some(s) => Some(s.clone()),
            None => None,
        },
        None => None,
    }
}

fn bool_field_or_false(j: &Json, key: &str) -> (r: bool)
    ensures
        r == bool_or_false(get_field(j@, key@)),
{
    match j.get(key) {
        Some(v) => match v.as_bool() {
            Some(b) => b,
            None => false,
        },
        None => false,
    }
}

fn u64_field_or_zero(j: &Json, key: &str) -> (r: u64)
    ensures
        r == u64_or_zero(get_field(j@, key@)),
{
    match j.get(key) {
        Some(v) => match v.as_u64() {
            Some(n) => n,
            None => 0,
        },
        None => 0,
    }
}

fn u64_field_as_usize(j: &Json, key: &str) -> (r: Option<usize>)
    ensures
        r == match as_u64_v(get_field(j@, key@)) {
            Some(h) => Some(truncate_to_usize(h)),
            None => None::<usize>,
        },
{
    match j.get(key) {
        Some(v) => match v.as_u64() {
            Some(n) => Some(truncating_cast_to_usize(n)),
            None => None,
        },
        None => None,
    }
}

/// What a plain `as usize` cast of a `u64` computes, on either pointer width.
fn truncating_cast_to_usize(h: u64) -> (r: usize)
    ensures
        r == truncate_to_usize(h),
{
    if usize::MAX as u64 == u64::MAX {
        h as usize
    } else {
        (h % (usize::MAX as u64 + 1)) as usize
    }
}

fn parse_artist(artist: &Json) -> (r: Artist)
    ensures
        r@ == spec_artist(artist@),
{
    Artist {
        id: str_field_or_empty(artist, "id"),
        name: str_field_or_empty(artist, "name"),
    }
}

fn parse_album_image(image: &Json) -> (r: AlbumImage)
    ensures
        r@ == spec_album_image(image@),
{
    AlbumImage {
        url: str_field_or_empty(image, "url"),
        height: u64_field_as_usize(image, "height"),
        width: u64_field_as_usize(image, "width"),
    }
}

/// The single read-only endpoint's implementation: tolerant parsing of the
/// upstream player replies, and the request state machine that arranges the
/// two-tier fallback.
pub struct SpotifyApi;

impl SpotifyApi {
    pub fn parse_artists_from_json(artists_value: &Json) -> (r: Vec<Artist>)
        ensures
            artists_view(r@) == spec_artists(artists_value@),
    {
        let mut out: Vec<Artist> = Vec::new();
        match artists_value.as_array() {
            None => {
                proof {
                    assert(artists_view(out@) =~= spec_artists(artists_value@));
                }
                out
            },
            Some(items) => {
                let ghost s = as_arr_v(artists_value@)->0;
                let ghost m = spec_artists(artists_value@);
                let mut i: usize = 0;
                while i < items.len()
                    invariant
                        i <= items.len(),
                        as_arr_v(artists_value@) == Some(s),
                        m == spec_artists(artists_value@),
                        s.len() == items@.len(),
                        forall|k: int| 0 <= k < items@.len() ==> s[k] == #[trigger] items@[k]@,
                        out@.len() == i,
                        forall|k: int| 0 <= k < i ==> #[trigger] out@[k]@ == m[k],
                    decreases items.len() - i,
                {
                    let a = parse_artist(&items[i]);
                    out.push(a);
                    proof {
                        assert(m[i as int] == spec_artist(s[i as int]));
                    }
                    i = i + 1;
                }
                proof {
                    assert forall|k: int| 0 <= k < m.len() implies artists_view(out@)[k] == m[k] by {
                        assert(artists_view(out@)[k] == out@[k]@);
                    }
                    assert(artists_view(out@) =~= m);
                }
                out
            },
        }
    }

    pub fn parse_album_images_from_json(images_value: &Json) -> (r: Vec<AlbumImage>)
        ensures
            images_view(r@) == spec_album_images(images_value@),
    {
        let mut out: Vec<AlbumImage> = Vec::new();
        match images_value.as_array() {
            None => {
                proof {
                    assert(images_view(out@) =~= spec_album_images(images_value@));
                }
                out
            },
            Some(items) => {
                let ghost s = as_arr_v(images_value@)->0;
                let ghost m = spec_album_images(images_value@);
                let mut i: usize = 0;
                while i < items.len()
                    invariant
                        i <= items.len(),
                        as_arr_v(images_value@) == Some(s),
                        m == spec_album_images(images_value@),
                        s.len() == items@.len(),
                        forall|k: int| 0 <= k < items@.len() ==> s[k] == #[trigger] items@[k]@,
                        out@.len() == i,
                        forall|k: int| 0 <= k < i ==> #[trigger] out@[k]@ == m[k],
                    decreases items.len() - i,
                {
                    let im = parse_album_image(&items[i]);
                    out.push(im);
                    proof {
                        assert(m[i as int] == spec_album_image(s[i as int]));
                    }
                    i = i + 1;
                }
                proof {
                    assert forall|k: int| 0 <= k < m.len() implies images_view(out@)[k] == m[k] by {
                        assert(images_view(out@)[k] == out@[k]@);
                    }
                    assert(images_view(out@) =~= m);
                }
                out
            },
        }
    }

    pub fn parse_album_from_json(album_data: &Json) -> (r: Album)
        ensures
            r@ == spec_album(album_data@),
    {
        let artists = match album_data.get("artists") {
            Some(v) => Self::parse_artists_from_json(v),
            None => Vec::new(),
        };
        let images = match album_data.get("images") {
            Some(v) => Self::parse_album_images_from_json(v),
            None => Vec::new(),
        };
        proof {
            assert(artists_view(artists@) =~= spec_artists(get_field(album_data@, "artists"@)));
            assert(images_view(images@) =~= spec_album_images(get_field(album_data@, "images"@)));
        }
        Album {
            id: str_field_or_empty(album_data, "id"),
            name: str_field_or_empty(album_data, "name"),
            artists,
            images,
        }
    }

    pub fn parse_track_from_json(track_data: &Json) -> (r: Track)
        ensures
            r@ == spec_track(track_data@),
    {
        let album = match track_data.get("album") {
            Some(v) => Self::parse_album_from_json(v),
            None => Self::parse_album_from_json(&Json::Null),
        };
        let artists = match track_data.get("artists") {
            Some(v) => Self::parse_artists_from_json(v),
            None => Vec::new(),
        };
        proof {
            assert(artists_view(artists@) =~= spec_artists(get_field(track_data@, "artists"@)));
        }
        let pop_raw = u64_field_or_zero(track_data, "popularity");
        Track {
            id: str_field_or_empty(track_data, "id"),
            name: str_field_or_empty(track_data, "name"),
            album,
            artists,
            explicit: bool_field_or_false(track_data, "explicit"),
            preview_url: opt_str_field(track_data, "preview_url"),
            duration_ms: u64_field_or_zero(track_data, "duration_ms"),
            popularity: (pop_raw % 256) as u8,
        }
    }

    pub fn parse_currently_playing_response(json: &Json) -> (r: TrackDetails)
        ensures
            r@ == spec_currently_playing(json@),
    {
        let is_playing = bool_field_or_false(json, "is_playing");
        let item: Option<Track> = match json.get("item") {
            Some(item_json) => {
                if item_json.is_object() {
                    let type_matches: bool = match item_json.get("type") {
                        Some(t) => match t.as_str() {
                            Some(s) => {
                                let track_lit: String = "track".to_owned();
                                *s == track_lit
                            },
                            None => false,
                        },
                        None => false,
                    };
                    if type_matches {
                        Some(Self::parse_track_from_json(item_json))
                    } else {
                        None
                    }
                } else {
                    None
                }
            },
            None => None,
        };
        TrackDetails { item, is_playing, played_at: None }
    }

    pub fn parse_recently_played_response(json: &Json) -> (r: TrackDetails)
        ensures
            r@ == spec_recently_played(json@),
    {
        let items = match json.get("items") {
            Some(v) => v.as_array(),
            None => None,
        };
        match items {
            None => TrackDetails { item: None, is_playing: false, played_at: None },
            Some(arr) => {
                if arr.len() == 0 {
                    TrackDetails { item: None, is_playing: false, played_at: None }
                } else {
                    let first = &arr[0];
                    let played_at = opt_str_field(first, "played_at");
                    let item = match first.get("track") {
                        Some(track_json) => {
                            if track_json.is_object() {
                                Some(Self::parse_track_from_json(track_json))
                            } else {
                                None
                            }
                        },
                        None => None,
                    };
                    TrackDetails { item, is_playing: false, played_at }
                }
            },
        }
    }
}

// ---------------------------------------------------------------------------
// Laws of the tolerant parser.
// ---------------------------------------------------------------------------

/// The default table, spelled out: what `spec_track` yields when nothing
/// usable is present.
pub open spec fn spec_default_track() -> TrackV {
    TrackV {
        id: Seq::empty(),
        name: Seq::empty(),
        album: AlbumV {
            id: Seq::empty(),
            name: Seq::empty(),
            artists: Seq::empty(),
            images: Seq::empty(),
        },
        artists: Seq::empty(),
        explicit: false,
        preview_url: None,
        duration_ms: 0,
        popularity: 0,
    }
}

/// Tolerant parsing applies its defaults exactly: a document that is not an
/// object, or an object without a single field, parses to the fully
/// defaulted track — empty strings, false, zero, and empty lists throughout.
pub proof fn lemma_track_defaults(j: JsonV)
    requires
        !(j is Obj) || j == JsonV::Obj(Seq::<(Seq<char>, JsonV)>::empty()),
    ensures
        spec_track(j) == spec_default_track(),
{
    assert(spec_artists(JsonV::Null) =~= Seq::<ArtistV>::empty());
    assert(spec_album_images(JsonV::Null) =~= Seq::<AlbumImageV>::empty());
    assert(spec_track(j) =~= spec_default_track());
}

/// A currently-playing reply whose `item` is not a track — a podcast episode,
/// an ad, any unsupported content — yields no item, while `is_playing` is
/// still read from the top-level field.
pub proof fn lemma_non_track_item_dropped(j: JsonV)
    requires
        !spec_item_is_track(j),
    ensures
        spec_currently_playing(j).item is None,
        spec_currently_playing(j).is_playing == bool_or_false(get_field(j, "is_playing"@)),
{
}

// ---------------------------------------------------------------------------
// The request state machine: AuthAcquire, FetchCurrent, the fallback
// FetchRecent, and the terminal Respond. The surrounding process performs
// the store reads and the network calls and hands each outcome back as an
// event; every decision between them is taken — and proved — here.
// ---------------------------------------------------------------------------

#[derive(Debug, PartialEq, Eq)]
pub enum TrackWidgetResponse {
    /// A 200 with the track details.
    Success(TrackDetails),
    /// A 401: no usable credential.
    Unauthorized(ErrorResponse),
    /// A 500 from the primary path.
    InternalServerError(ErrorResponse),
}

#[verifier::ext_equal]
pub enum TrackWidgetResponseV {
    Success(TrackDetailsV),
    Unauthorized(ErrorResponseV),
    InternalServerError(ErrorResponseV),
}

impl View for TrackWidgetResponse {
    type V = TrackWidgetResponseV;

    open spec fn view(&self) -> TrackWidgetResponseV {
        match self {
            TrackWidgetResponse::Success(d) => TrackWidgetResponseV::Success(d@),
            TrackWidgetResponse::Unauthorized(e) => TrackWidgetResponseV::Unauthorized(e@),
            TrackWidgetResponse::InternalServerError(e) => TrackWidgetResponseV::InternalServerError(
                e@,
            ),
        }
    }
}

#[derive(Debug, PartialEq, Eq)]
pub enum WidgetState {
    /// Acquiring a valid credential.
    AuthAcquire,
    /// Asking the player what is playing right now.
    FetchCurrent { access_token: String },
    /// Falling back to the most recently played track.
    FetchRecent { access_token: String },
    /// Terminal: the response to send.
    Respond { response: TrackWidgetResponse },
}

#[verifier::ext_equal]
pub enum WidgetStateV {
    AuthAcquire,
    FetchCurrent { access_token: Seq<char> },
    FetchRecent { access_token: Seq<char> },
    Respond { response: TrackWidgetResponseV },
}

impl View for WidgetState {
    type V = WidgetStateV;

    open spec fn view(&self) -> WidgetStateV {
        match self {
            WidgetState::AuthAcquire => WidgetStateV::AuthAcquire,
            WidgetState::FetchCurrent { access_token } => WidgetStateV::FetchCurrent {
                access_token: access_token@,
            },
            WidgetState::FetchRecent { access_token } => WidgetStateV::FetchRecent {
                access_token: access_token@,
            },
            WidgetState::Respond { response } => WidgetStateV::Respond { response: response@ },
        }
    }
}

/// What one upstream fetch came back with.
#[derive(Debug, PartialEq, Eq)]
pub enum FetchOutcome {
    /// The request produced no HTTP reply at all.
    TransportError,
    /// An HTTP reply; `body` holds its JSON document, or `None` when the
    /// body did not parse as JSON.
    Reply { status: u16, body: Option<Json> },
}

#[verifier::ext_equal]
pub enum FetchOutcomeV {
    TransportError,
    Reply { status: u16, body: Option<JsonV> },
}

impl View for FetchOutcome {
    type V = FetchOutcomeV;

    open spec fn view(&self) -> FetchOutcomeV {
        match self {
            FetchOutcome::TransportError => FetchOutcomeV::TransportError,
            FetchOutcome::Reply { status, body } => FetchOutcomeV::Reply {
                status: *status,
                body: match body {
                    Some(j) => Some(j@),
                    None => None,
                },
            },
        }
    }
}

#[derive(Debug, PartialEq, Eq)]
#[allow(inconsistent_fields)]
pub enum WidgetEvent {
    /// The credential flow finished, with a valid token or a failure.
    AuthResolved { outcome: Result<SpotifyToken, SpotifyTokenError> },
    /// The currently-playing fetch finished.
    CurrentFetched { outcome: FetchOutcome },
    /// The recently-played fetch finished.
    RecentFetched { outcome: FetchOutcome },
}

#[verifier::ext_equal]
#[allow(inconsistent_fields)]
pub enum WidgetEventV {
    AuthResolved { outcome: Result<SpotifyTokenV, SpotifyTokenErrorV> },
    CurrentFetched { outcome: FetchOutcomeV },
    RecentFetched { outcome: FetchOutcomeV },
}

impl View for WidgetEvent {
    type V = WidgetEventV;

    open spec fn view(&self) -> WidgetEventV {
        match self {
            WidgetEvent::AuthResolved { outcome } => WidgetEventV::AuthResolved {
                outcome: match outcome {
                    Ok(t) => Ok(t@),
                    Err(e) => Err(e@),
                },
            },
            WidgetEvent::CurrentFetched { outcome } => WidgetEventV::CurrentFetched {
                outcome: outcome@,
            },
            WidgetEvent::RecentFetched { outcome } => WidgetEventV::RecentFetched {
                outcome: outcome@,
            },
        }
    }
}

pub open spec fn spec_auth_failed_error() -> ErrorResponseV {
    ErrorResponseV {
        code: "SPOTIFY_AUTH_FAILED"@,
        message: "Failed to authenticate with Spotify"@,
        details: None,
    }
}

pub open spec fn spec_api_error() -> ErrorResponseV {
    ErrorResponseV {
        code: "SPOTIFY_API_ERROR"@,
        message: "Failed to connect to Spotify API"@,
        details: None,
    }
}

pub open spec fn spec_parse_failure_error() -> ErrorResponseV {
    ErrorResponseV {
        code: "SPOTIFY_RESPONSE_PARSE_FAILURE"@,
        message: "Failed to parse Spotify response"@,
        details: None,
    }
}

pub open spec fn spec_unexpected_response_error() -> ErrorResponseV {
    ErrorResponseV {
        code: "SPOTIFY_UNEXPECTED_RESPONSE"@,
        message: "Unexpected response from Spotify API"@,
        details: None,
    }
}

fn auth_failed_error() -> (r: ErrorResponse)
    ensures
        r@ == spec_auth_failed_error(),
{
    ErrorResponse {
        code: "SPOTIFY_AUTH_FAILED".to_owned(),
        message: "Failed to authenticate with Spotify".to_owned(),
        details: None,
    }
}

fn api_error() -> (r: ErrorResponse)
    ensures
        r@ == spec_api_error(),
{
    ErrorResponse {
        code: "SPOTIFY_API_ERROR".to_owned(),
        message: "Failed to connect to Spotify API".to_owned(),
        details: None,
    }
}

fn parse_failure_error() -> (r: ErrorResponse)
    ensures
        r@ == spec_parse_failure_error(),
{
    ErrorResponse {
        code: "SPOTIFY_RESPONSE_PARSE_FAILURE".to_owned(),
        message: "Failed to parse Spotify response".to_owned(),
        details: None,
    }
}

fn unexpected_response_error() -> (r: ErrorResponse)
    ensures
        r@ == spec_unexpected_response_error(),
{
    ErrorResponse {
        code: "SPOTIFY_UNEXPECTED_RESPONSE".to_owned(),
        message: "Unexpected response from Spotify API".to_owned(),
        details: None,
    }
}

fn empty_details() -> (r: TrackDetails)
    ensures
        r@ == spec_empty_details(),
{
    TrackDetails { item: None, is_playing: false, played_at: None }
}

/// One transition of the request state machine. An event that does not
/// belong to the state leaves the state unchanged.
pub open spec fn spec_widget_step(state: WidgetStateV, event: WidgetEventV) -> WidgetStateV {
    match (state, event) {
        (WidgetStateV::AuthAcquire, WidgetEventV::AuthResolved { outcome }) => match outcome {
            Ok(token) => WidgetStateV::FetchCurrent { access_token: token.access_token },
            Err(_) => WidgetStateV::Respond {
                response: TrackWidgetResponseV::Unauthorized(spec_auth_failed_error()),
            },
        },
        (
            WidgetStateV::FetchCurrent { access_token },
            WidgetEventV::CurrentFetched { outcome },
        ) => match outcome {
            FetchOutcomeV::TransportError => WidgetStateV::Respond {
                response: TrackWidgetResponseV::InternalServerError(spec_api_error()),
            },
            FetchOutcomeV::Reply { status, body } => if status == 200 {
                match body {
                    Some(j) => if spec_currently_playing(j).item is Some {
                        WidgetStateV::Respond {
                            response: TrackWidgetResponseV::Success(spec_currently_playing(j)),
                        }
                    } else {
                        WidgetStateV::FetchRecent { access_token }
                    },
                    None => WidgetStateV::Respond {
                        response: TrackWidgetResponseV::InternalServerError(
                            spec_parse_failure_error(),
                        ),
                    },
                }
            } else if status == 204 {
                WidgetStateV::FetchRecent { access_token }
            } else {
                WidgetStateV::Respond {
                    response: TrackWidgetResponseV::InternalServerError(
                        spec_unexpected_response_error(),
                    ),
                }
            },
        },
        (WidgetStateV::FetchRecent { access_token }, WidgetEventV::RecentFetched { outcome }) => match outcome {
            FetchOutcomeV::TransportError => WidgetStateV::Respond {
                response: TrackWidgetResponseV::Success(spec_empty_details()),
            },
            FetchOutcomeV::Reply { status, body } => if status == 200 {
                match body {
                    Some(j) => WidgetStateV::Respond {
                        response: TrackWidgetResponseV::Success(spec_recently_played(j)),
                    },
                    None => WidgetStateV::Respond {
                        response: TrackWidgetResponseV::Success(spec_empty_details()),
                    },
                }
            } else {
                WidgetStateV::Respond {
                    response: TrackWidgetResponseV::Success(spec_empty_details()),
                }
            },
        },
        (s, _) => s,
    }
}

impl SpotifyApi {
    /// Drive the request state machine by one event.
    pub fn widget_step(state: WidgetState, event: WidgetEvent) -> (r: WidgetState)
        ensures
            r@ == spec_widget_step(state@, event@),
    {
        match (state, event) {
            (WidgetState::AuthAcquire, WidgetEvent::AuthResolved { outcome }) => match outcome {
                Ok(token) => WidgetState::FetchCurrent { access_token: token.access_token },
                Err(_) => WidgetState::Respond {
                    response: TrackWidgetResponse::Unauthorized(auth_failed_error()),
                },
            },
            (
                WidgetState::FetchCurrent { access_token },
                WidgetEvent::CurrentFetched { outcome },
            ) => match outcome {
                FetchOutcome::TransportError => WidgetState::Respond {
                    response: TrackWidgetResponse::InternalServerError(api_error()),
                },
                FetchOutcome::Reply { status, body } => {
                    if status == 200 {
                        match body {
                            Some(j) => {
                                let details = Self::parse_currently_playing_response(&j);
                                if details.item.is_some() {
                                    WidgetState::Respond {
                                        response: TrackWidgetResponse::Success(details),
                                    }
                                } else {
                                    WidgetState::FetchRecent { access_token }
                                }
                            },
                            None => WidgetState::Respond {
                                response: TrackWidgetResponse::InternalServerError(
                                    parse_failure_error(),
                                ),
                            },
                        }
                    } else if status == 204 {
                        WidgetState::FetchRecent { access_token }
                    } else {
                        WidgetState::Respond {
                            response: TrackWidgetResponse::InternalServerError(
                                unexpected_response_error(),
                            ),
                        }
                    }
                },
            },
            (
                WidgetState::FetchRecent { access_token: _ },
                WidgetEvent::RecentFetched { outcome },
            ) => match outcome {
                FetchOutcome::TransportError => WidgetState::Respond {
                    response: TrackWidgetResponse::Success(empty_details()),
                },
                FetchOutcome::Reply { status, body } => {
                    if status == 200 {
                        match body {
                            Some(j) => WidgetState::Respond {
                                response: TrackWidgetResponse::Success(
                                    Self::parse_recently_played_response(&j),
                                ),
                            },
                            None => WidgetState::Respond {
                                response: TrackWidgetResponse::Success(empty_details()),
                            },
                        }
                    } else {
                        WidgetState::Respond {
                            response: TrackWidgetResponse::Success(empty_details()),
                        }
                    }
                },
            },
            (s, _) => s,
        }
    }
}

/// On the primary path each failure surfaces under its own code: a transport
/// failure as an API error, a 200 whose body is not JSON as a parse failure,
/// and any status other than 200 and 204 as an unexpected response.
pub proof fn lemma_primary_path_error_codes(access_token: Seq<char>, outcome: FetchOutcomeV)
    ensures
        spec_widget_step(
            WidgetStateV::FetchCurrent { access_token },
            WidgetEventV::CurrentFetched { outcome: FetchOutcomeV::TransportError },
        ) == (WidgetStateV::Respond {
            response: TrackWidgetResponseV::InternalServerError(spec_api_error()),
        }),
        outcome matches FetchOutcomeV::Reply { status, body } && status == 200 && body is None
            ==> spec_widget_step(
            WidgetStateV::FetchCurrent { access_token },
            WidgetEventV::CurrentFetched { outcome },
        ) == (WidgetStateV::Respond {
            response: TrackWidgetResponseV::InternalServerError(spec_parse_failure_error()),
        }),
        outcome matches FetchOutcomeV::Reply { status, body } && status != 200 && status != 204
            ==> spec_widget_step(
            WidgetStateV::FetchCurrent { access_token },
            WidgetEventV::CurrentFetched { outcome },
        ) == (WidgetStateV::Respond {
            response: TrackWidgetResponseV::InternalServerError(
                spec_unexpected_response_error(),
            ),
        }),
{
}

/// The fallback path never surfaces an error: whatever the recently-played
/// fetch came back with — a transport failure, a non-200 status, an
/// unreadable body, or a proper reply — the machine answers the widget with
/// a success payload.
pub proof fn lemma_fallback_never_errors(access_token: Seq<char>, outcome: FetchOutcomeV)
    ensures
        spec_widget_step(
            WidgetStateV::FetchRecent { access_token },
            WidgetEventV::RecentFetched { outcome },
        ) matches WidgetStateV::Respond { response } && response is Success,
{
}

} // verus!
