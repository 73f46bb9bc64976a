//! Application configuration: servers, the default server, the client id,
//! pinned libraries and user settings, and the rules for changing them.
use vstd::prelude::*;
use crate::models::{ServerConfig, ServerConfigView};
use crate::text::{
    concat, decimal, decimal_string, opt_view, owned, spec_starts_with, starts_with_str, str_eq,
    views,
};
use crate::web::{parse_url, url_parse, ParsedUrl, UrlParts};
use crate::deep_links::origin_of;

verus! {

broadcast use vstd::string::group_string_axioms;

#[verifier::external_type_specification]
#[verifier::external_body]
pub struct ExJsonValue(::serde_json::Value);

/// Why a configuration operation failed.
#[derive(Debug, PartialEq)]
pub enum ConfigError {
    Io(String),
    Serialization(String),
    Validation(String),
    NotFound(String),
    RateLimited(String),
}

/// Why a configuration operation failed, as a value.
pub enum ConfigFailure {
    Io(Seq<char>),
    Serialization(Seq<char>),
    Validation(Seq<char>),
    NotFound(Seq<char>),
    RateLimited(Seq<char>),
}

impl View for ConfigError {
    type V = ConfigFailure;

    open spec fn view(&self) -> ConfigFailure {
        match self {
            ConfigError::Io(m) => ConfigFailure::Io(m@),
            ConfigError::Serialization(m) => ConfigFailure::Serialization(m@),
            ConfigError::Validation(m) => ConfigFailure::Validation(m@),
            ConfigError::NotFound(m) => ConfigFailure::NotFound(m@),
            ConfigError::RateLimited(m) => ConfigFailure::RateLimited(m@),
        }
    }
}

/// A `Result` by the view of its error.
pub open spec fn unit_result_view(r: Result<(), ConfigError>) -> Result<(), ConfigFailure> {
    match r {
        Ok(()) => Ok(()),
        Err(e) => Err(e@),
    }
}

/// A string `Result` by its views.
pub open spec fn string_result_view(r: Result<String, ConfigError>) -> Result<Seq<char>, ConfigFailure> {
    match r {
        Ok(s) => Ok(s@),
        Err(e) => Err(e@),
    }
}

// ---------------------------------------------------------------------------
// User settings
// ---------------------------------------------------------------------------

/// The bitrate cap for streaming.
#[derive(Debug, Clone, Copy, PartialEq, Eq, Structural)]
pub enum StreamQuality {
    Original,
    Maximum(u32),
}

impl Default for StreamQuality {
    fn default() -> (q: Self)
        ensures
            q == StreamQuality::Original,
    {
        StreamQuality::Original
    }
}

/// The label shown for a quality setting.
pub open spec fn quality_label(q: StreamQuality) -> Seq<char> {
    match q {
        StreamQuality::Original => "Original"@,
        StreamQuality::Maximum(k) => {
            if k == 20000 {
                "20 Mbps (4K)"@
            } else if k == 12000 {
                "12 Mbps (1080p)"@
            } else if k == 8000 {
                "8 Mbps (1080p)"@
            } else if k == 4000 {
                "4 Mbps (720p)"@
            } else if k == 2000 {
                "2 Mbps (480p)"@
            } else {
                decimal(k as nat) + " kbps"@
            }
        },
    }
}

/// The preset bitrate (kbps) at position `i`, highest first.
pub open spec fn preset_kbps(i: int) -> u32 {
    if i == 0 {
        20000
    } else if i == 1 {
        12000
    } else if i == 2 {
        8000
    } else if i == 3 {
        4000
    } else {
        2000
    }
}

/// The number of preset bitrates.
pub const PRESET_COUNT: usize = 5;

impl StreamQuality {
    /// The preset bitrates (kbps) with their labels, highest first.
    pub fn presets() -> (p: Vec<(u32, &'static str)>)
        ensures
            p@.len() == 5,
            forall|i: int| 0 <= i < 5 ==> #[trigger] p@[i].0 == preset_kbps(i),
            forall|i: int| 0 <= i < 5 ==> #[trigger] p@[i].1@ == quality_label(StreamQuality::Maximum(p@[i].0)),
    {
        let mut p: Vec<(u32, &'static str)> = Vec::new();
        p.push((20000, "20 Mbps (4K)"));
        p.push((12000, "12 Mbps (1080p)"));
        p.push((8000, "8 Mbps (1080p)"));
        p.push((4000, "4 Mbps (720p)"));
        p.push((2000, "2 Mbps (480p)"));
        p
    }

    /// The label shown for this setting: a preset's name, or `N kbps`.
    pub fn label(&self) -> (s: String)
        ensures
            s@ == quality_label(*self),
    {
        match self {
            StreamQuality::Original => owned("Original"),
            StreamQuality::Maximum(kbps) => {
                let k = *kbps;
                if k == 20000 {
                    owned("20 Mbps (4K)")
                } else if k == 12000 {
                    owned("12 Mbps (1080p)")
                } else if k == 8000 {
                    owned("8 Mbps (1080p)")
                } else if k == 4000 {
                    owned("4 Mbps (720p)")
                } else if k == 2000 {
                    owned("2 Mbps (480p)")
                } else {
                    let mut s = decimal_string(k as u64);
                    s.append(" kbps");
                    s
                }
            },
        }
    }
}

/// What to do when playback switches to an audio language the user did not ask for.
#[derive(Debug, Clone, Copy, PartialEq, Eq, Structural)]
pub enum MismatchAction {
    Pause,
    WarnDialog,
    Ignore,
}

impl Default for MismatchAction {
    fn default() -> (a: Self)
        ensures
            a == MismatchAction::WarnDialog,
    {
        MismatchAction::WarnDialog
    }
}

/// When subtitles are switched on by themselves.
#[derive(Debug, Clone, Copy, PartialEq, Eq, Structural)]
pub enum SubtitleAutoEnable {
    Always,
    OnMismatch,
    Never,
}

impl Default for SubtitleAutoEnable {
    fn default() -> (a: Self)
        ensures
            a == SubtitleAutoEnable::OnMismatch,
    {
        SubtitleAutoEnable::OnMismatch
    }
}

/// The bit pattern of the double `1.0`.
pub const ONE_F64_BITS: u64 = 0x3FF0_0000_0000_0000;

/// Playback preferences. The volume and speed are doubles kept by their
/// IEEE-754 bit pattern, which the library carries and never reads.
#[derive(Debug, Clone)]
pub struct PlaybackSettings {
    pub quality: StreamQuality,
    pub auto_adjust_quality: bool,
    pub preferred_codec: Option<String>,
    pub remember_volume: bool,
    pub last_volume_bits: u64,
    pub playback_speed_bits: u64,
}

impl Default for PlaybackSettings {
    fn default() -> (s: Self)
        ensures
            s.quality == StreamQuality::Original,
            !s.auto_adjust_quality,
            s.preferred_codec is None,
            s.remember_volume,
            s.last_volume_bits == ONE_F64_BITS,
            s.playback_speed_bits == ONE_F64_BITS,
    {
        PlaybackSettings {
            quality: StreamQuality::Original,
            auto_adjust_quality: false,
            preferred_codec: None,
            remember_volume: true,
            last_volume_bits: ONE_F64_BITS,
            playback_speed_bits: ONE_F64_BITS,
        }
    }
}

/// The audio languages preferred when nothing else is configured.
pub open spec fn default_audio_languages() -> Seq<Seq<char>> {
    seq!["eng"@, "en"@]
}

/// Audio preferences.
#[derive(Debug, Clone)]
pub struct AudioSettings {
    pub preferred_languages: Vec<String>,
    pub language_mismatch_action: MismatchAction,
}

/// `["eng", "en"]`.
pub fn default_audio_language_list() -> (v: Vec<String>)
    ensures
        views(v@) == default_audio_languages(),
{
    let mut v: Vec<String> = Vec::new();
    v.push(owned("eng"));
    v.push(owned("en"));
    assert(views(v@) == default_audio_languages());
    v
}

impl Default for AudioSettings {
    fn default() -> (s: Self)
        ensures
            views(s.preferred_languages@) == default_audio_languages(),
            s.language_mismatch_action == MismatchAction::WarnDialog,
    {
        AudioSettings {
            preferred_languages: default_audio_language_list(),
            language_mismatch_action: MismatchAction::WarnDialog,
        }
    }
}

/// Subtitle preferences.
#[derive(Debug, Clone)]
pub struct SubtitleSettings {
    pub preferred_languages: Vec<String>,
    pub auto_enable: SubtitleAutoEnable,
    pub prefer_forced: bool,
}

impl Default for SubtitleSettings {
    fn default() -> (s: Self)
        ensures
            s.preferred_languages@.len() == 0,
            s.auto_enable == SubtitleAutoEnable::OnMismatch,
            !s.prefer_forced,
    {
        SubtitleSettings {
            preferred_languages: Vec::new(),
            auto_enable: SubtitleAutoEnable::OnMismatch,
            prefer_forced: false,
        }
    }
}

/// All user preferences.
#[derive(Debug, Clone)]
pub struct UserSettings {
    pub playback: PlaybackSettings,
    pub audio: AudioSettings,
    pub subtitles: SubtitleSettings,
}

impl Default for UserSettings {
    fn default() -> (s: Self)
        ensures
            s.playback.quality == StreamQuality::Original,
            s.playback.remember_volume,
            !s.playback.auto_adjust_quality,
            s.playback.preferred_codec is None,
            views(s.audio.preferred_languages@) == default_audio_languages(),
            s.audio.language_mismatch_action == MismatchAction::WarnDialog,
            s.subtitles.preferred_languages@.len() == 0,
            s.subtitles.auto_enable == SubtitleAutoEnable::OnMismatch,
            !s.subtitles.prefer_forced,
    {
        UserSettings {
            playback: PlaybackSettings::default(),
            audio: AudioSettings::default(),
            subtitles: SubtitleSettings::default(),
        }
    }
}

// ---------------------------------------------------------------------------
// AppConfig
// ---------------------------------------------------------------------------

/// The persisted configuration.
#[derive(Debug)]
pub struct AppConfig {
    pub servers: Vec<ServerConfig>,
    pub default_server_id: Option<String>,
    /// Legacy field, read when migrating the token to the keychain; never written back.
    pub auth_token: Option<String>,
    pub client_id: Option<String>,
    pub session_stats: Option<::serde_json::Value>,
    /// Legacy field, kept for reading old files only.
    pub device_settings: Option<::serde_json::Value>,
    pub pinned_library_keys: Vec<String>,
    pub user_settings: UserSettings,
}

/// The servers of a configuration, by their views.
pub open spec fn server_views(v: Seq<ServerConfig>) -> Seq<ServerConfigView> {
    v.map_values(|s: ServerConfig| s@)
}

/// Two configurations agree on everything but the servers and the default server.
pub open spec fn same_apart_from_servers(a: AppConfig, b: AppConfig) -> bool {
    &&& a.auth_token == b.auth_token
    &&& a.client_id == b.client_id
    &&& a.session_stats == b.session_stats
    &&& a.device_settings == b.device_settings
    &&& a.pinned_library_keys == b.pinned_library_keys
    &&& a.user_settings == b.user_settings
}

/// `key` is among the pinned library keys.
pub open spec fn is_pinned(keys: Seq<Seq<char>>, key: Seq<char>) -> bool {
    keys.contains(key)
}

/// The keys without any copy of `key`, in order.
pub open spec fn without_key(keys: Seq<Seq<char>>, key: Seq<char>) -> Seq<Seq<char>>
    decreases keys.len(),
{
    if keys.len() == 0 {
        seq![]
    } else {
        let prev = without_key(keys.drop_last(), key);
        if keys.last() == key {
            prev
        } else {
            prev.push(keys.last())
        }
    }
}

impl Default for AppConfig {
    fn default() -> (c: Self)
        ensures
            c.servers@.len() == 0,
            c.default_server_id is None,
            c.auth_token is None,
            c.client_id is None,
            c.session_stats is None,
            c.device_settings is None,
            c.pinned_library_keys@.len() == 0,
            views(c.user_settings.audio.preferred_languages@) == default_audio_languages(),
    {
        AppConfig {
            servers: Vec::new(),
            default_server_id: None,
            auth_token: None,
            client_id: None,
            session_stats: None,
            device_settings: None,
            pinned_library_keys: Vec::new(),
            user_settings: UserSettings::default(),
        }
    }
}

fn contains_key(keys: &Vec<String>, key: &str) -> (b: bool)
    ensures
        b == views(keys@).contains(key@),
{
    let mut i: usize = 0;
    while i < keys.len()
        invariant
            i <= keys.len(),
            forall|j: int| 0 <= j < i ==> keys@[j]@ != key@,
        decreases keys.len() - i,
    {
        if str_eq(keys[i].as_str(), key) {
            assert(views(keys@)[i as int] == key@);
            return true;
        }
        i += 1;
    }
    assert forall|j: int| 0 <= j < views(keys@).len() implies views(keys@)[j] != key@ by {
        assert(views(keys@)[j] == keys@[j]@);
    }
    false
}

impl AppConfig {
    /// Pins a library; a key already pinned is not added again.
    pub fn pin_library(&mut self, key: &str)
        ensures
            views(final(self).pinned_library_keys@) == if is_pinned(
                views(old(self).pinned_library_keys@),
                key@,
            ) {
                views(old(self).pinned_library_keys@)
            } else {
                views(old(self).pinned_library_keys@).push(key@)
            },
            *final(self) == (AppConfig { pinned_library_keys: final(self).pinned_library_keys, ..*old(self) }),
    {
        if !contains_key(&self.pinned_library_keys, key) {
            let ghost before = self.pinned_library_keys@;
            let k = owned(key);
            self.pinned_library_keys.push(k);
            assert(views(self.pinned_library_keys@) == views(before).push(key@));
        }
    }

    /// Unpins a library: every copy of `key` leaves the list, the rest keep their order.
    pub fn unpin_library(&mut self, key: &str)
        ensures
            views(final(self).pinned_library_keys@) == without_key(views(old(self).pinned_library_keys@), key@),
            *final(self) == (AppConfig { pinned_library_keys: final(self).pinned_library_keys, ..*old(self) }),
    {
        let mut kept: Vec<String> = Vec::new();
        let ghost old_keys = views(self.pinned_library_keys@);
        let mut i: usize = 0;
        while i < self.pinned_library_keys.len()
            invariant
                old_keys == views(self.pinned_library_keys@),
                i <= self.pinned_library_keys.len(),
                views(kept@) == without_key(old_keys.take(i as int), key@),
            decreases self.pinned_library_keys.len() - i,
        {
            assert(old_keys.take(i + 1).drop_last() == old_keys.take(i as int));
            if !str_eq(self.pinned_library_keys[i].as_str(), key) {
                let ghost before = kept@;
                let k = self.pinned_library_keys[i].clone();
                kept.push(k);
                assert(views(kept@) == views(before).push(k@));
            }
            i += 1;
        }
        assert(old_keys.take(old_keys.len() as int) == old_keys);
        self.pinned_library_keys = kept;
    }

    /// Whether a library is pinned.
    pub fn is_library_pinned(&self, key: &str) -> (b: bool)
        ensures
            b == is_pinned(views(self.pinned_library_keys@), key@),
    {
        contains_key(&self.pinned_library_keys, key)
    }
}

// ---------------------------------------------------------------------------
// URL validation
// ---------------------------------------------------------------------------

/// What `validate_server_url` answers.
pub open spec fn spec_validate_server_url(url: Seq<char>) -> Result<(), ConfigFailure> {
    if url_parse(url) is None {
        Err(ConfigFailure::Validation("Invalid URL format"@))
    } else if !spec_starts_with(url, "http://"@) && !spec_starts_with(url, "https://"@) {
        Err(ConfigFailure::Validation("URL must start with http:// or https://"@))
    } else {
        Ok(())
    }
}

/// Checks that a server URL parses and uses http or https.
pub fn validate_server_url(url: &str) -> (r: Result<(), ConfigError>)
    ensures
        unit_result_view(r) == spec_validate_server_url(url@),
{
    if parse_url(url).is_err() {
        return Err(ConfigError::Validation(owned("Invalid URL format")));
    }
    if !starts_with_str(url, "http://") && !starts_with_str(url, "https://") {
        return Err(ConfigError::Validation(owned("URL must start with http:// or https://")));
    }
    Ok(())
}

/// The origin of a parsed web URL: only http and https URLs with a host have one.
pub open spec fn parsed_origin(u: UrlParts) -> Result<Seq<char>, ConfigFailure> {
    if u.scheme != "http"@ && u.scheme != "https"@ {
        Err(ConfigFailure::Validation("URL must use http:// or https:// scheme"@))
    } else if u.host is None {
        Err(ConfigFailure::Validation("Missing host in URL"@))
    } else {
        Ok(origin_of(u))
    }
}

/// What `normalize_url_to_origin` answers.
pub open spec fn spec_normalize_url_to_origin(url: Seq<char>) -> Result<Seq<char>, ConfigFailure> {
    match url_parse(url) {
        None => Err(ConfigFailure::Validation("Invalid URL format"@)),
        Some(u) => parsed_origin(u),
    }
}

/// The origin (scheme + host + port) of a parsed web URL.
pub fn origin_from_parsed_url(u: &ParsedUrl) -> (r: Result<String, ConfigError>)
    ensures
        string_result_view(r) == parsed_origin(u@),
{
    if !str_eq(u.scheme.as_str(), "http") && !str_eq(u.scheme.as_str(), "https") {
        return Err(ConfigError::Validation(owned("URL must use http:// or https:// scheme")));
    }
    let host = match &u.host {
        Some(h) => h,
        None => return Err(ConfigError::Validation(owned("Missing host in URL"))),
    };
    let mut r = concat(u.scheme.as_str(), "://");
    r.append(host.as_str());
    match u.port {
        Some(p) => {
            r.append(":");
            let ps = decimal_string(p as u64);
            r.append(ps.as_str());
        },
        None => {},
    }
    Ok(r)
}

/// Normalizes a URL to its origin (scheme + host + port).
pub fn normalize_url_to_origin(url: &str) -> (r: Result<String, ConfigError>)
    ensures
        string_result_view(r) == spec_normalize_url_to_origin(url@),
{
    match parse_url(url) {
        Ok(u) => origin_from_parsed_url(&u),
        Err(_) => Err(ConfigError::Validation(owned("Invalid URL format"))),
    }
}

/// The message for a deep-link base URL that matches no server.
pub open spec fn unmatched_base_url_message(base_url: Seq<char>) -> Seq<char> {
    "Deep link baseUrl '"@ + base_url + "' does not match any configured server"@
}

/// What `validate_deep_link_base_url_against_origins` answers.
pub open spec fn spec_validate_against_origins(base_url: Seq<char>, origins: Seq<Seq<char>>) -> Result<(), ConfigFailure> {
    match spec_normalize_url_to_origin(base_url) {
        Err(e) => Err(e),
        Ok(o) => if origins.contains(o) {
            Ok(())
        } else {
            Err(ConfigFailure::Validation(unmatched_base_url_message(base_url)))
        },
    }
}

/// Validates that a deep link baseUrl matches one of the allowed server origins.
pub fn validate_deep_link_base_url_against_origins(base_url: &str, allowed_origins: &[String]) -> (r: Result<(), ConfigError>)
    ensures
        unit_result_view(r) == spec_validate_against_origins(base_url@, views(allowed_origins@)),
{
    let norm = normalize_url_to_origin(base_url);
    let origin = match norm {
        Ok(o) => o,
        Err(e) => return Err(e),
    };
    assert(spec_normalize_url_to_origin(base_url@) == Ok::<Seq<char>, ConfigFailure>(origin@));
    let mut i: usize = 0;
    while i < allowed_origins.len()
        invariant
            i <= allowed_origins.len(),
            spec_normalize_url_to_origin(base_url@) == Ok::<Seq<char>, ConfigFailure>(origin@),
            forall|j: int| 0 <= j < i ==> allowed_origins@[j]@ != origin@,
        decreases allowed_origins.len() - i,
    {
        if str_eq(allowed_origins[i].as_str(), origin.as_str()) {
            assert(views(allowed_origins@)[i as int] == origin@);
            assert(views(allowed_origins@).contains(origin@));
            return Ok(());
        }
        i += 1;
    }
    assert forall|j: int| 0 <= j < views(allowed_origins@).len() implies views(allowed_origins@)[j] != origin@ by {
        assert(views(allowed_origins@)[j] == allowed_origins@[j]@);
    }
    let mut m = concat("Deep link baseUrl '", base_url);
    m.append("' does not match any configured server");
    Err(ConfigError::Validation(m))
}

/// The origins of the configured servers whose URL normalizes, in order.
pub open spec fn server_origins(servers: Seq<ServerConfigView>) -> Seq<Seq<char>>
    decreases servers.len(),
{
    if servers.len() == 0 {
        seq![]
    } else {
        let prev = server_origins(servers.drop_last());
        match spec_normalize_url_to_origin(servers.last().base_url) {
            Ok(o) => prev.push(o),
            Err(_) => prev,
        }
    }
}

/// Validates that a deep link baseUrl matches a server of `config`.
pub fn validate_deep_link_base_url(config: &AppConfig, base_url: &str) -> (r: Result<(), ConfigError>)
    ensures
        unit_result_view(r) == spec_validate_against_origins(base_url@, server_origins(server_views(config.servers@))),
{
    let ghost sv = server_views(config.servers@);
    let mut origins: Vec<String> = Vec::new();
    let mut i: usize = 0;
    while i < config.servers.len()
        invariant
            sv == server_views(config.servers@),
            i <= config.servers.len(),
            views(origins@) == server_origins(sv.take(i as int)),
        decreases config.servers.len() - i,
    {
        assert(sv.take(i + 1).drop_last() == sv.take(i as int));
        match normalize_url_to_origin(config.servers[i].base_url.as_str()) {
            Ok(o) => {
                let ghost before = origins@;
                origins.push(o);
                assert(views(origins@) == views(before).push(o@));
            },
            Err(_) => {},
        }
        i += 1;
    }
    assert(sv.take(sv.len() as int) == sv);
    validate_deep_link_base_url_against_origins(base_url, origins.as_slice())
}

// ---------------------------------------------------------------------------
// Servers
// ---------------------------------------------------------------------------

/// The servers of a configuration and its default server, as values.
pub struct ServersModel {
    pub servers: Seq<ServerConfigView>,
    pub default_id: Option<Seq<char>>,
}

/// The server part of a configuration.
pub open spec fn servers_model(c: AppConfig) -> ServersModel {
    ServersModel { servers: server_views(c.servers@), default_id: opt_view(c.default_server_id) }
}

/// Some server has this base URL.
pub open spec fn has_base_url(servers: Seq<ServerConfigView>, u: Seq<char>) -> bool {
    exists|i: int| 0 <= i < servers.len() && #[trigger] servers[i].base_url == u
}

/// The id given to the server added to a list of `n` servers.
pub open spec fn server_id_for(n: nat) -> Seq<char> {
    "server-"@ + decimal(n + 1)
}

/// The id of the first server, if any.
pub open spec fn first_id(servers: Seq<ServerConfigView>) -> Option<Seq<char>> {
    if servers.len() > 0 {
        Some(servers[0].id)
    } else {
        None
    }
}

/// The index of the first server at or after `k` with id `id`.
pub open spec fn index_of_id_from(servers: Seq<ServerConfigView>, id: Seq<char>, k: int) -> Option<int>
    decreases servers.len() - k,
{
    if k < 0 || k >= servers.len() {
        None
    } else if servers[k].id == id {
        Some(k)
    } else {
        index_of_id_from(servers, id, k + 1)
    }
}

/// The index of the first server with id `id`.
pub open spec fn index_of_id(servers: Seq<ServerConfigView>, id: Seq<char>) -> Option<int> {
    index_of_id_from(servers, id, 0)
}

/// The index of the first server at or after `k` with machine identifier `mid`.
pub open spec fn index_of_machine_from(servers: Seq<ServerConfigView>, mid: Seq<char>, k: int) -> Option<int>
    decreases servers.len() - k,
{
    if k < 0 || k >= servers.len() {
        None
    } else if servers[k].machine_identifier == Some(mid) {
        Some(k)
    } else {
        index_of_machine_from(servers, mid, k + 1)
    }
}

/// What `add_server` makes of the servers.
pub open spec fn spec_add_server(m: ServersModel, name: Seq<char>, base_url: Seq<char>, is_remote: bool) -> Result<ServersModel, ConfigFailure> {
    match spec_validate_server_url(base_url) {
        Err(e) => Err(e),
        Ok(()) => if has_base_url(m.servers, base_url) {
            Err(ConfigFailure::Validation("Server with this URL already exists"@))
        } else {
            let servers = m.servers.push(
                ServerConfigView {
                    id: server_id_for(m.servers.len()),
                    name,
                    base_url,
                    is_remote,
                    machine_identifier: None,
                },
            );
            Ok(
                ServersModel {
                    servers,
                    default_id: if m.default_id is None {
                        first_id(servers)
                    } else {
                        m.default_id
                    },
                },
            )
        },
    }
}

/// What `update_server` makes of the servers.
pub open spec fn spec_update_server(m: ServersModel, id: Seq<char>, name: Option<Seq<char>>, base_url: Option<Seq<char>>) -> Result<ServersModel, ConfigFailure> {
    match index_of_id(m.servers, id) {
        None => Err(ConfigFailure::NotFound("Server not found"@)),
        Some(i) => {
            let check = match base_url {
                Some(u) => spec_validate_server_url(u),
                None => Ok(()),
            };
            match check {
                Err(e) => Err(e),
                Ok(()) => {
                    let s = m.servers[i];
                    let renamed = match name {
                        Some(n) => ServerConfigView { name: n, ..s },
                        None => s,
                    };
                    let moved = match base_url {
                        Some(u) => ServerConfigView { base_url: u, ..renamed },
                        None => renamed,
                    };
                    Ok(ServersModel { servers: m.servers.update(i, moved), default_id: m.default_id })
                },
            }
        },
    }
}

/// What `remove_server` makes of the servers.
pub open spec fn spec_remove_server(m: ServersModel, id: Seq<char>) -> Result<ServersModel, ConfigFailure> {
    match index_of_id(m.servers, id) {
        None => Err(ConfigFailure::NotFound("Server not found"@)),
        Some(i) => {
            let servers = m.servers.remove(i);
            Ok(
                ServersModel {
                    servers,
                    default_id: if m.default_id == Some(id) {
                        first_id(servers)
                    } else {
                        m.default_id
                    },
                },
            )
        },
    }
}

/// What `set_default_server` makes of the servers.
pub open spec fn spec_set_default_server(m: ServersModel, id: Seq<char>) -> Result<ServersModel, ConfigFailure> {
    if index_of_id(m.servers, id) is None {
        Err(ConfigFailure::NotFound("Server not found"@))
    } else {
        Ok(ServersModel { servers: m.servers, default_id: Some(id) })
    }
}

/// What `get_default_server` answers.
pub open spec fn spec_default_server(m: ServersModel) -> Result<Option<ServerConfigView>, ConfigFailure> {
    match m.default_id {
        None => Ok(None),
        Some(d) => match index_of_id(m.servers, d) {
            Some(i) => Ok(Some(m.servers[i])),
            None => Err(ConfigFailure::NotFound("Default server not found"@)),
        },
    }
}

/// What `resolve_server_url` answers.
pub open spec fn spec_resolve_server_url(m: ServersModel, base_url: Option<Seq<char>>, server_id: Option<Seq<char>>) -> Result<Seq<char>, ConfigFailure> {
    if let Some(u) = base_url {
        match spec_validate_server_url(u) {
            Err(e) => Err(e),
            Ok(()) => Ok(u),
        }
    } else if server_id is Some && index_of_machine_from(m.servers, server_id->0, 0) is Some {
        Ok(m.servers[index_of_machine_from(m.servers, server_id->0, 0)->0].base_url)
    } else if m.default_id is Some && index_of_id(m.servers, m.default_id->0) is Some {
        Ok(m.servers[index_of_id(m.servers, m.default_id->0)->0].base_url)
    } else if m.servers.len() > 0 {
        Ok(m.servers[0].base_url)
    } else {
        Err(ConfigFailure::NotFound("No server configured. Please add a server in settings."@))
    }
}

proof fn lemma_index_of_machine_least(servers: Seq<ServerConfigView>, mid: Seq<char>, k: int, i: int)
    requires
        0 <= k <= i < servers.len(),
        servers[i].machine_identifier == Some(mid),
        forall|j: int| k <= j < i ==> servers[j].machine_identifier != Some(mid),
    ensures
        index_of_machine_from(servers, mid, k) == Some(i),
    decreases i - k,
{
    if k < i {
        lemma_index_of_machine_least(servers, mid, k + 1, i);
    }
}

/// Without an explicit base URL, a server id picks the first configured
/// server with that machine identifier, whatever the default server is.
pub proof fn law_resolve_by_machine_identifier(m: ServersModel, server_id: Seq<char>, i: int)
    requires
        0 <= i < m.servers.len(),
        m.servers[i].machine_identifier == Some(server_id),
        forall|j: int| 0 <= j < i ==> m.servers[j].machine_identifier != Some(server_id),
    ensures
        spec_resolve_server_url(m, None, Some(server_id)) == Ok::<Seq<char>, ConfigFailure>(m.servers[i].base_url),
{
    lemma_index_of_machine_least(m.servers, server_id, 0, i);
}

proof fn lemma_index_of_id_least(servers: Seq<ServerConfigView>, id: Seq<char>, k: int, i: int)
    requires
        0 <= k <= i < servers.len(),
        servers[i].id == id,
        forall|j: int| k <= j < i ==> servers[j].id != id,
    ensures
        index_of_id_from(servers, id, k) == Some(i),
    decreases i - k,
{
    if k < i {
        lemma_index_of_id_least(servers, id, k + 1, i);
    }
}

proof fn lemma_index_of_machine_none(servers: Seq<ServerConfigView>, mid: Seq<char>, k: int)
    requires
        0 <= k,
        forall|j: int| k <= j < servers.len() ==> servers[j].machine_identifier != Some(mid),
    ensures
        index_of_machine_from(servers, mid, k) is None,
    decreases servers.len() - k,
{
    if k < servers.len() {
        lemma_index_of_machine_none(servers, mid, k + 1);
    }
}

proof fn lemma_index_of_id_none(servers: Seq<ServerConfigView>, id: Seq<char>, k: int)
    requires
        0 <= k,
        forall|j: int| k <= j < servers.len() ==> servers[j].id != id,
    ensures
        index_of_id_from(servers, id, k) is None,
    decreases servers.len() - k,
{
    if k < servers.len() {
        lemma_index_of_id_none(servers, id, k + 1);
    }
}

/// Whether no configured server has machine identifier `server_id` (or no
/// server id was given).
pub open spec fn no_machine_match(m: ServersModel, server_id: Option<Seq<char>>) -> bool {
    forall|j: int| 0 <= j < m.servers.len() ==> !(server_id is Some && m.servers[j].machine_identifier == Some(server_id->0))
}

/// Without a base URL and without a server matching the server id, the
/// default server is used: the first server whose id is the default id.
pub proof fn law_resolve_default_server(m: ServersModel, server_id: Option<Seq<char>>, i: int)
    requires
        no_machine_match(m, server_id),
        m.default_id is Some,
        0 <= i < m.servers.len(),
        m.servers[i].id == m.default_id->0,
        forall|j: int| 0 <= j < i ==> m.servers[j].id != m.default_id->0,
    ensures
        spec_resolve_server_url(m, None, server_id) == Ok::<Seq<char>, ConfigFailure>(m.servers[i].base_url),
{
    if server_id is Some {
        lemma_index_of_machine_none(m.servers, server_id->0, 0);
    }
    lemma_index_of_id_least(m.servers, m.default_id->0, 0, i);
}

/// Without a base URL, a matching server or a default server that exists,
/// the first configured server is used; with no server at all, the answer is
/// that none is configured.
pub proof fn law_resolve_fallback(m: ServersModel, server_id: Option<Seq<char>>)
    requires
        no_machine_match(m, server_id),
        forall|j: int| 0 <= j < m.servers.len() ==> !(m.default_id is Some && m.servers[j].id == m.default_id->0),
    ensures
        spec_resolve_server_url(m, None, server_id) == if m.servers.len() > 0 {
            Ok::<Seq<char>, ConfigFailure>(m.servers[0].base_url)
        } else {
            Err(ConfigFailure::NotFound("No server configured. Please add a server in settings."@))
        },
{
    if server_id is Some {
        lemma_index_of_machine_none(m.servers, server_id->0, 0);
    }
    if m.default_id is Some {
        lemma_index_of_id_none(m.servers, m.default_id->0, 0);
    }
}

/// An explicit base URL wins over any server id: it is taken as given once
/// it is a valid server URL.
pub proof fn law_resolve_explicit_base_url(m: ServersModel, base_url: Seq<char>, server_id: Option<Seq<char>>)
    requires
        spec_validate_server_url(base_url) is Ok,
    ensures
        spec_resolve_server_url(m, Some(base_url), server_id) == Ok::<Seq<char>, ConfigFailure>(base_url),
{
}

/// An explicit base URL that is no valid server URL is refused with the
/// validation error, whatever servers are configured.
pub proof fn law_resolve_invalid_base_url(m: ServersModel, base_url: Seq<char>, server_id: Option<Seq<char>>)
    requires
        spec_validate_server_url(base_url) is Err,
    ensures
        spec_resolve_server_url(m, Some(base_url), server_id) == Err::<Seq<char>, ConfigFailure>(
            spec_validate_server_url(base_url)->Err_0,
        ),
{
}

/// A server-model `Result` relation: the operation's outcome and the new state.
pub open spec fn applied(
    outcome: Result<ServersModel, ConfigFailure>,
    r: Result<(), ConfigError>,
    before: ServersModel,
    after: ServersModel,
) -> bool {
    match outcome {
        Ok(m) => r is Ok && after == m,
        Err(e) => r matches Err(x) && x@ == e && after == before,
    }
}

proof fn lemma_index_of_id_bounds(servers: Seq<ServerConfigView>, id: Seq<char>, k: int)
    ensures
        index_of_id_from(servers, id, k) matches Some(i) ==> k <= i < servers.len() && servers[i].id == id,
        k >= 0 && index_of_id_from(servers, id, k) is None ==> forall|j: int| k <= j < servers.len() ==> servers[j].id != id,
    decreases servers.len() - k,
{
    if k < 0 || k >= servers.len() {
    } else if servers[k].id == id {
    } else {
        lemma_index_of_id_bounds(servers, id, k + 1);
    }
}

proof fn lemma_index_of_machine_bounds(servers: Seq<ServerConfigView>, mid: Seq<char>, k: int)
    ensures
        index_of_machine_from(servers, mid, k) matches Some(i) ==> k <= i < servers.len(),
    decreases servers.len() - k,
{
    if k < 0 || k >= servers.len() {
    } else if servers[k].machine_identifier == Some(mid) {
    } else {
        lemma_index_of_machine_bounds(servers, mid, k + 1);
    }
}

fn find_server_index(servers: &Vec<ServerConfig>, id: &str) -> (r: Option<usize>)
    ensures
        match r {
            Some(i) => index_of_id(server_views(servers@), id@) == Some(i as int) && i < servers.len(),
            None => index_of_id(server_views(servers@), id@) is None,
        },
{
    let ghost sv = server_views(servers@);
    let mut i: usize = 0;
    while i < servers.len()
        invariant
            sv == server_views(servers@),
            i <= servers.len(),
            index_of_id(sv, id@) == index_of_id_from(sv, id@, i as int),
        decreases servers.len() - i,
    {
        if str_eq(servers[i].id.as_str(), id) {
            return Some(i);
        }
        i += 1;
    }
    None
}

fn find_server_by_machine(servers: &Vec<ServerConfig>, mid: &str) -> (r: Option<usize>)
    ensures
        match r {
            Some(i) => index_of_machine_from(server_views(servers@), mid@, 0) == Some(i as int) && i < servers.len(),
            None => index_of_machine_from(server_views(servers@), mid@, 0) is None,
        },
{
    let ghost sv = server_views(servers@);
    let mut i: usize = 0;
    while i < servers.len()
        invariant
            sv == server_views(servers@),
            i <= servers.len(),
            index_of_machine_from(sv, mid@, 0) == index_of_machine_from(sv, mid@, i as int),
        decreases servers.len() - i,
    {
        let matches = match &servers[i].machine_identifier {
            Some(m) => str_eq(m.as_str(), mid),
            None => false,
        };
        if matches {
            return Some(i);
        }
        i += 1;
    }
    None
}

fn has_base_url_exec(servers: &Vec<ServerConfig>, u: &str) -> (b: bool)
    ensures
        b == has_base_url(server_views(servers@), u@),
{
    let ghost sv = server_views(servers@);
    let mut i: usize = 0;
    while i < servers.len()
        invariant
            sv == server_views(servers@),
            i <= servers.len(),
            forall|j: int| 0 <= j < i ==> sv[j].base_url != u@,
        decreases servers.len() - i,
    {
        if str_eq(servers[i].base_url.as_str(), u) {
            assert(sv[i as int].base_url == u@);
            return true;
        }
        i += 1;
    }
    false
}

fn first_server_id(servers: &Vec<ServerConfig>) -> (r: Option<String>)
    ensures
        opt_view(r) == first_id(server_views(servers@)),
{
    if servers.len() > 0 {
        Some(servers[0].id.clone())
    } else {
        None
    }
}

/// A copy of the configured servers.
pub fn copy_servers(servers: &Vec<ServerConfig>) -> (r: Vec<ServerConfig>)
    ensures
        server_views(r@) == server_views(servers@),
{
    let mut out: Vec<ServerConfig> = Vec::new();
    let mut i: usize = 0;
    while i < servers.len()
        invariant
            i <= servers.len(),
            server_views(out@) == server_views(servers@).take(i as int),
        decreases servers.len() - i,
    {
        let ghost before = out@;
        out.push(servers[i].duplicate());
        assert(server_views(out@) == server_views(before).push(servers@[i as int]@));
        assert(server_views(servers@).take(i + 1) == server_views(servers@).take(i as int).push(servers@[i as int]@));
        i += 1;
    }
    assert(server_views(servers@).take(servers.len() as int) == server_views(servers@));
    out
}

/// The configured servers.
pub fn get_servers(config: &AppConfig) -> (r: Result<Vec<ServerConfig>, ConfigError>)
    ensures
        r matches Ok(v) && server_views(v@) == server_views(config.servers@),
{
    Ok(copy_servers(&config.servers))
}

/// Adds a server: its URL must be valid and new; it gets the id
/// `server-N` (N the new number of servers) and becomes the default when
/// there is none.
pub fn add_server(config: &mut AppConfig, name: String, base_url: String, is_remote: bool) -> (r: Result<(), ConfigError>)
    requires
        old(config).servers.len() < usize::MAX,
    ensures
        applied(
            spec_add_server(servers_model(*old(config)), name@, base_url@, is_remote),
            r,
            servers_model(*old(config)),
            servers_model(*final(config)),
        ),
        same_apart_from_servers(*final(config), *old(config)),
{
    match validate_server_url(base_url.as_str()) {
        Err(e) => return Err(e),
        Ok(()) => {},
    }
    if has_base_url_exec(&config.servers, base_url.as_str()) {
        return Err(ConfigError::Validation(owned("Server with this URL already exists")));
    }
    let n = config.servers.len();
    let mut id = owned("server-");
    let num = decimal_string((n as u64) + 1);
    id.append(num.as_str());
    let server = ServerConfig { id, name, base_url, is_remote, machine_identifier: None };
    let ghost before = config.servers@;
    config.servers.push(server);
    assert(server_views(config.servers@) == server_views(before).push(server@));
    if config.default_server_id.is_none() {
        config.default_server_id = first_server_id(&config.servers);
    }
    Ok(())
}

/// Renames and/or moves the server with id `id`.
pub fn update_server(config: &mut AppConfig, id: String, name: Option<String>, base_url: Option<String>) -> (r: Result<(), ConfigError>)
    ensures
        applied(
            spec_update_server(servers_model(*old(config)), id@, opt_view(name), opt_view(base_url)),
            r,
            servers_model(*old(config)),
            servers_model(*final(config)),
        ),
        same_apart_from_servers(*final(config), *old(config)),
{
    let i = match find_server_index(&config.servers, id.as_str()) {
        Some(i) => i,
        None => return Err(ConfigError::NotFound(owned("Server not found"))),
    };
    match &base_url {
        Some(u) => match validate_server_url(u.as_str()) {
            Err(e) => return Err(e),
            Ok(()) => {},
        },
        None => {},
    }
    let mut s = config.servers[i].duplicate();
    match name {
        Some(n) => s.name = n,
        None => {},
    }
    match base_url {
        Some(u) => s.base_url = u,
        None => {},
    }
    let ghost before = config.servers@;
    config.servers.set(i, s);
    assert(server_views(config.servers@) == server_views(before).update(i as int, s@));
    Ok(())
}

/// Removes the server with id `id`; when it was the default, the first
/// remaining server (if any) becomes the default.
pub fn remove_server(config: &mut AppConfig, id: String) -> (r: Result<(), ConfigError>)
    ensures
        applied(
            spec_remove_server(servers_model(*old(config)), id@),
            r,
            servers_model(*old(config)),
            servers_model(*final(config)),
        ),
        same_apart_from_servers(*final(config), *old(config)),
{
    let i = match find_server_index(&config.servers, id.as_str()) {
        Some(i) => i,
        None => return Err(ConfigError::NotFound(owned("Server not found"))),
    };
    let ghost before = config.servers@;
    config.servers.remove(i);
    assert(server_views(config.servers@) == server_views(before).remove(i as int));
    let was_default = match &config.default_server_id {
        Some(d) => str_eq(d.as_str(), id.as_str()),
        None => false,
    };
    if was_default {
        config.default_server_id = first_server_id(&config.servers);
    }
    Ok(())
}

/// Makes the server with id `id` the default.
pub fn set_default_server(config: &mut AppConfig, id: String) -> (r: Result<(), ConfigError>)
    ensures
        applied(
            spec_set_default_server(servers_model(*old(config)), id@),
            r,
            servers_model(*old(config)),
            servers_model(*final(config)),
        ),
        same_apart_from_servers(*final(config), *old(config)),
        final(config).servers == old(config).servers,
{
    if find_server_index(&config.servers, id.as_str()).is_none() {
        return Err(ConfigError::NotFound(owned("Server not found")));
    }
    config.default_server_id = Some(id);
    Ok(())
}

/// The default server, if one is set.
pub fn get_default_server(config: &AppConfig) -> (r: Result<Option<ServerConfig>, ConfigError>)
    ensures
        match spec_default_server(servers_model(*config)) {
            Ok(Some(s)) => r matches Ok(Some(x)) && x@ == s,
            Ok(None) => r matches Ok(None),
            Err(e) => r matches Err(x) && x@ == e,
        },
{
    match &config.default_server_id {
        None => Ok(None),
        Some(d) => match find_server_index(&config.servers, d.as_str()) {
            Some(i) => {
                proof {
                    lemma_index_of_id_bounds(server_views(config.servers@), d@, 0);
                }
                Ok(Some(config.servers[i].duplicate()))
            },
            None => Err(ConfigError::NotFound(owned("Default server not found"))),
        },
    }
}

/// The URL of the server to talk to: an explicit base URL (validated), else
/// the server with the given machine identifier, else the default server,
/// else the first server.
pub fn resolve_server_url(config: &AppConfig, base_url: Option<&str>, server_id: Option<&str>) -> (r: Result<String, ConfigError>)
    ensures
        string_result_view(r) == spec_resolve_server_url(
            servers_model(*config),
            crate::player_state::opt_str_view(base_url),
            crate::player_state::opt_str_view(server_id),
        ),
{
    if let Some(url) = base_url {
        match validate_server_url(url) {
            Err(e) => return Err(e),
            Ok(()) => return Ok(owned(url)),
        }
    }
    let ghost sv = server_views(config.servers@);
    if let Some(id) = server_id {
        if let Some(i) = find_server_by_machine(&config.servers, id) {
            return Ok(config.servers[i].base_url.clone());
        }
    }
    if let Some(d) = &config.default_server_id {
        if let Some(i) = find_server_index(&config.servers, d.as_str()) {
            return Ok(config.servers[i].base_url.clone());
        }
    }
    if config.servers.len() > 0 {
        return Ok(config.servers[0].base_url.clone());
    }
    Err(ConfigError::NotFound(owned("No server configured. Please add a server in settings.")))
}

/// The client identifier, if one was stored.
pub fn get_client_id(config: &AppConfig) -> (r: Result<Option<String>, ConfigError>)
    ensures
        r matches Ok(c) && opt_view(c) == opt_view(config.client_id),
{
    match &config.client_id {
        Some(c) => Ok(Some(c.clone())),
        None => Ok(None),
    }
}

/// Stores the client identifier.
pub fn set_client_id(config: &mut AppConfig, client_id: String) -> (r: Result<(), ConfigError>)
    ensures
        r is Ok,
        *final(config) == (AppConfig { client_id: Some(client_id), ..*old(config) }),
{
    config.client_id = Some(client_id);
    Ok(())
}

/// Stores session statistics.
pub fn set_session_stats(config: &mut AppConfig, stats: ::serde_json::Value) -> (r: Result<(), ConfigError>)
    ensures
        r is Ok,
        *final(config) == (AppConfig { session_stats: Some(stats), ..*old(config) }),
{
    config.session_stats = Some(stats);
    Ok(())
}

/// Stores legacy device settings.
pub fn set_device_settings(config: &mut AppConfig, settings: ::serde_json::Value) -> (r: Result<(), ConfigError>)
    ensures
        r is Ok,
        *final(config) == (AppConfig { device_settings: Some(settings), ..*old(config) }),
{
    config.device_settings = Some(settings);
    Ok(())
}

/// Constructs a fully-qualified web-UI URL from base URL, optional server ID, key, and extra query.
pub fn construct_plex_url(
    base_url: &str,
    server_id: Option<&str>,
    key: Option<&str>,
    extra_query: Option<&str>,
) -> (r: String)
    ensures
        r@ == crate::deep_links::spec_plex_url(
            base_url@,
            crate::player_state::opt_str_view(server_id),
            crate::player_state::opt_str_view(key),
            crate::player_state::opt_str_view(extra_query),
        ),
{
    crate::deep_links::construct_plex_url(base_url, server_id, key, extra_query)
}

// ---------------------------------------------------------------------------
// Laws
// ---------------------------------------------------------------------------

/// A server URL that was added once cannot be added again.
pub proof fn law_add_server_twice_refused(
    m: ServersModel,
    name: Seq<char>,
    base_url: Seq<char>,
    is_remote: bool,
    name2: Seq<char>,
    is_remote2: bool,
)
    requires
        spec_add_server(m, name, base_url, is_remote) is Ok,
    ensures
        spec_add_server(spec_add_server(m, name, base_url, is_remote)->Ok_0, name2, base_url, is_remote2)
            == Err::<ServersModel, ConfigFailure>(ConfigFailure::Validation("Server with this URL already exists"@)),
{
    let m2 = spec_add_server(m, name, base_url, is_remote)->Ok_0;
    let last = m2.servers.len() - 1;
    assert(m2.servers[last].base_url == base_url);
    assert(has_base_url(m2.servers, base_url));
}

/// Adding a server to a configuration without a default server makes the
/// first server the default; with one, the default stays.
pub proof fn law_add_server_keeps_default(m: ServersModel, name: Seq<char>, base_url: Seq<char>, is_remote: bool)
    requires
        spec_add_server(m, name, base_url, is_remote) is Ok,
    ensures
        m.default_id is Some ==> spec_add_server(m, name, base_url, is_remote)->Ok_0.default_id == m.default_id,
        m.default_id is None ==> spec_add_server(m, name, base_url, is_remote)->Ok_0.default_id is Some,
{
}

proof fn lemma_index_after_push(servers: Seq<ServerConfigView>, s: ServerConfigView, k: int)
    requires
        0 <= k <= servers.len(),
        forall|j: int| 0 <= j < servers.len() ==> servers[j].id != s.id,
    ensures
        index_of_id_from(servers.push(s), s.id, k) == Some(servers.len() as int),
    decreases servers.len() - k,
{
    if k < servers.len() {
        lemma_index_after_push(servers, s, k + 1);
    }
}

/// Removing the server just added, when its id was new, gives back the
/// servers as they were.
pub proof fn law_add_then_remove_restores_servers(m: ServersModel, name: Seq<char>, base_url: Seq<char>, is_remote: bool)
    requires
        spec_add_server(m, name, base_url, is_remote) is Ok,
        forall|j: int| 0 <= j < m.servers.len() ==> m.servers[j].id != server_id_for(m.servers.len()),
    ensures
        spec_remove_server(spec_add_server(m, name, base_url, is_remote)->Ok_0, server_id_for(m.servers.len())) is Ok,
        spec_remove_server(spec_add_server(m, name, base_url, is_remote)->Ok_0, server_id_for(m.servers.len()))->Ok_0.servers
            == m.servers,
{
    let m2 = spec_add_server(m, name, base_url, is_remote)->Ok_0;
    let s = m2.servers.last();
    assert(m2.servers == m.servers.push(s));
    lemma_index_after_push(m.servers, s, 0);
    assert(m.servers.push(s).remove(m.servers.len() as int) == m.servers);
}

/// After making a server the default, the default server is that server.
pub proof fn law_set_then_get_default(m: ServersModel, id: Seq<char>)
    requires
        spec_set_default_server(m, id) is Ok,
    ensures
        spec_default_server(spec_set_default_server(m, id)->Ok_0) == Ok::<Option<ServerConfigView>, ConfigFailure>(
            Some(m.servers[index_of_id(m.servers, id)->0]),
        ),
{
}

/// An explicit base URL wins over everything else when it is valid.
pub proof fn law_resolve_prefers_explicit_url(m: ServersModel, u: Seq<char>, server_id: Option<Seq<char>>)
    requires
        spec_validate_server_url(u) is Ok,
    ensures
        spec_resolve_server_url(m, Some(u), server_id) == Ok::<Seq<char>, ConfigFailure>(u),
{
}

proof fn lemma_without_key_drops(keys: Seq<Seq<char>>, key: Seq<char>)
    ensures
        !without_key(keys, key).contains(key),
        forall|k: Seq<char>| k != key && keys.contains(k) ==> without_key(keys, key).contains(k),
    decreases keys.len(),
{
    if keys.len() > 0 {
        lemma_without_key_drops(keys.drop_last(), key);
        let prev = without_key(keys.drop_last(), key);
        assert forall|k: Seq<char>| k != key && keys.contains(k) implies without_key(keys, key).contains(k) by {
            let i = choose|i: int| 0 <= i < keys.len() && keys[i] == k;
            if i < keys.len() - 1 {
                assert(keys.drop_last()[i] == k);
                assert(keys.drop_last().contains(k));
                let j = choose|j: int| 0 <= j < prev.len() && prev[j] == k;
                if keys.last() != key {
                    assert(prev.push(keys.last())[j] == k);
                }
            } else {
                assert(prev.push(keys.last())[prev.len() as int] == k);
            }
        }
        if keys.last() != key {
            assert forall|j: int| 0 <= j < prev.push(keys.last()).len() implies prev.push(keys.last())[j] != key by {
                if j < prev.len() {
                    assert(prev[j] != key);
                }
            }
        }
    }
}

/// Unpinning a library leaves it unpinned and every other pinned library pinned.
pub proof fn law_unpin_removes_only_that_key(keys: Seq<Seq<char>>, key: Seq<char>, other: Seq<char>)
    ensures
        !is_pinned(without_key(keys, key), key),
        other != key && is_pinned(keys, other) ==> is_pinned(without_key(keys, key), other),
{
    lemma_without_key_drops(keys, key);
}

/// Pinning twice is pinning once, and a pinned library is pinned.
pub proof fn law_pin_idempotent(keys: Seq<Seq<char>>, key: Seq<char>)
    ensures
        is_pinned(if is_pinned(keys, key) { keys } else { keys.push(key) }, key),
        is_pinned(keys, key) ==> (if is_pinned(keys, key) { keys } else { keys.push(key) }) == keys,
{
    if !is_pinned(keys, key) {
        assert(keys.push(key)[keys.len() as int] == key);
    }
}

// ---------------------------------------------------------------------------
// Rate limiting
// ---------------------------------------------------------------------------

/// The length of the rate-limit window, in milliseconds.
pub const RATE_LIMIT_WINDOW_MS: u64 = 60000;

/// The most requests a source may make within one window.
pub const RATE_LIMIT_MAX_REQUESTS: usize = 10;

/// Recent request times (milliseconds on a monotonic clock), per source.
pub struct RateLimiter {
    pub entries: Vec<(String, Vec<u64>)>,
}

/// The limiter's entries as values.
pub open spec fn limiter_entries(l: RateLimiter) -> Seq<(Seq<char>, Seq<u64>)> {
    l.entries@.map_values(|e: (String, Vec<u64>)| (e.0@, e.1@))
}

/// The recorded request times of `source` (the last entry for it).
pub open spec fn history(es: Seq<(Seq<char>, Seq<u64>)>, source: Seq<char>) -> Seq<u64>
    decreases es.len(),
{
    if es.len() == 0 {
        seq![]
    } else if es.last().0 == source {
        es.last().1
    } else {
        history(es.drop_last(), source)
    }
}

/// The times still inside the window that ends at `now`, in order.
pub open spec fn recent(ts: Seq<u64>, now: u64) -> Seq<u64>
    decreases ts.len(),
{
    if ts.len() == 0 {
        seq![]
    } else {
        let prev = recent(ts.drop_last(), now);
        if now < ts.last() + RATE_LIMIT_WINDOW_MS {
            prev.push(ts.last())
        } else {
            prev
        }
    }
}

/// The message of a refused request.
pub open spec fn rate_limited_message() -> Seq<char> {
    "Rate limit exceeded: maximum 10 requests per 60 seconds"@
}

/// Each source has at most one entry.
pub open spec fn sources_unique(es: Seq<(Seq<char>, Seq<u64>)>) -> bool {
    forall|i: int, j: int| 0 <= i < j < es.len() ==> #[trigger] es[i].0 != #[trigger] es[j].0
}

/// What one request does to a source's recorded times `ts` at `now`: times
/// that left the window are forgotten; the request is accepted (and
/// recorded) when fewer than the maximum remain, refused (and not
/// recorded) otherwise.
pub open spec fn spec_rate_step(ts: Seq<u64>, now: u64) -> (bool, Seq<u64>) {
    let kept = recent(ts, now);
    if kept.len() < RATE_LIMIT_MAX_REQUESTS {
        (true, kept.push(now))
    } else {
        (false, kept)
    }
}

impl RateLimiter {
    /// A limiter that has seen no requests.
    pub fn new() -> (l: Self)
        ensures
            forall|s: Seq<char>| #[trigger] history(limiter_entries(l), s) == Seq::<u64>::empty(),
            sources_unique(limiter_entries(l)),
    {
        let l = RateLimiter { entries: Vec::new() };
        assert(limiter_entries(l) == Seq::<(Seq<char>, Seq<u64>)>::empty());
        l
    }
}

proof fn lemma_history_update(es: Seq<(Seq<char>, Seq<u64>)>, idx: int, s: Seq<char>, v: Seq<u64>, t: Seq<char>)
    requires
        0 <= idx < es.len(),
        es[idx].0 == s,
        forall|j: int| idx < j < es.len() ==> es[j].0 != s,
    ensures
        history(es.update(idx, (s, v)), t) == if t == s { v } else { history(es, t) },
    decreases es.len(),
{
    let u = es.update(idx, (s, v));
    if idx == es.len() - 1 {
        assert(u.drop_last() == es.drop_last());
    } else {
        assert(u.drop_last() == es.drop_last().update(idx, (s, v)));
        lemma_history_update(es.drop_last(), idx, s, v, t);
    }
}

proof fn lemma_history_absent(es: Seq<(Seq<char>, Seq<u64>)>, s: Seq<char>)
    requires
        forall|j: int| 0 <= j < es.len() ==> es[j].0 != s,
    ensures
        history(es, s) == Seq::<u64>::empty(),
    decreases es.len(),
{
    if es.len() > 0 {
        lemma_history_absent(es.drop_last(), s);
    }
}

proof fn lemma_recent_len(ts: Seq<u64>, now: u64)
    ensures
        recent(ts, now).len() <= ts.len(),
    decreases ts.len(),
{
    if ts.len() > 0 {
        lemma_recent_len(ts.drop_last(), now);
    }
}

fn recent_exec(ts: &Vec<u64>, now: u64) -> (r: Vec<u64>)
    ensures
        r@ == recent(ts@, now),
{
    let mut out: Vec<u64> = Vec::new();
    let mut i: usize = 0;
    while i < ts.len()
        invariant
            i <= ts.len(),
            out@ == recent(ts@.take(i as int), now),
        decreases ts.len() - i,
    {
        assert(ts@.take(i + 1).drop_last() == ts@.take(i as int));
        let t = ts[i];
        if t > now || now - t < RATE_LIMIT_WINDOW_MS {
            out.push(t);
        }
        i += 1;
    }
    assert(ts@.take(ts.len() as int) == ts@);
    out
}

/// Records a request from `source` at time `now_ms` when fewer than the
/// maximum number of its requests fall within the last window; refuses it
/// otherwise. Times that left the window are forgotten either way.
pub fn check_rate_limit(limiter: &mut RateLimiter, source: &str, now_ms: u64) -> (r: Result<(), ConfigError>)
    ensures
        ({
            let kept = recent(history(limiter_entries(*old(limiter)), source@), now_ms);
            &&& (r is Ok <==> kept.len() < RATE_LIMIT_MAX_REQUESTS)
            &&& r is Ok ==> history(limiter_entries(*final(limiter)), source@) == kept.push(now_ms)
            &&& r is Err ==> history(limiter_entries(*final(limiter)), source@) == kept
            &&& r matches Err(e) ==> e@ == ConfigFailure::RateLimited(rate_limited_message())
        }),
        (r is Ok, history(limiter_entries(*final(limiter)), source@)) == spec_rate_step(
            history(limiter_entries(*old(limiter)), source@),
            now_ms,
        ),
        sources_unique(limiter_entries(*old(limiter))) ==> sources_unique(limiter_entries(*final(limiter))),
        forall|t: Seq<char>|
            t != source@ ==> #[trigger] history(limiter_entries(*final(limiter)), t) == history(
                limiter_entries(*old(limiter)),
                t,
            ),
{
    let ghost es = limiter_entries(*limiter);
    let mut idx: Option<usize> = None;
    let mut i = limiter.entries.len();
    assert(es.take(i as int) == es);
    while i > 0 && idx.is_none()
        invariant
            es == limiter_entries(*limiter),
            es.len() == limiter.entries.len(),
            i <= limiter.entries.len(),
            idx is None ==> (forall|j: int| i <= j < es.len() ==> es[j].0 != source@),
            idx is None ==> history(es, source@) == history(es.take(i as int), source@),
            idx matches Some(k) ==> k < es.len() && es[k as int].0 == source@
                && (forall|j: int| k < j < es.len() ==> es[j].0 != source@)
                && history(es, source@) == history(es.take(k + 1), source@),
        decreases i + if idx is None { 1int } else { 0int },
    {
        assert(es.take(i as int).drop_last() == es.take(i - 1));
        if str_eq(limiter.entries[i - 1].0.as_str(), source) {
            idx = Some(i - 1);
        } else {
            i -= 1;
        }
    }
    let old_times = match idx {
        Some(k) => limiter.entries[k].1.clone(),
        None => Vec::new(),
    };
    proof {
        match idx {
            Some(k) => {
                assert(es.take(k + 1).last() == es[k as int]);
                assert(old_times@ == es[k as int].1);
            },
            None => {
                assert(es.take(0) == Seq::<(Seq<char>, Seq<u64>)>::empty());
                assert(history(es, source@) == Seq::<u64>::empty());
            },
        }
        assert(old_times@ == history(es, source@));
    }
    let mut kept = recent_exec(&old_times, now_ms);
    let refused = kept.len() >= RATE_LIMIT_MAX_REQUESTS;
    if !refused {
        kept.push(now_ms);
    }
    let ghost new_times = kept@;
    match idx {
        Some(k) => {
            let key = limiter.entries[k].0.clone();
            limiter.entries.set(k, (key, kept));
            proof {
                assert(limiter_entries(*limiter) == es.update(k as int, (source@, new_times)));
                assert forall|t: Seq<char>| #[trigger] history(limiter_entries(*limiter), t) == if t == source@ {
                    new_times
                } else {
                    history(es, t)
                } by {
                    lemma_history_update(es, k as int, source@, new_times, t);
                }
                let u = limiter_entries(*limiter);
                assert forall|a: int, b: int| 0 <= a < b < u.len() && sources_unique(es) implies #[trigger] u[a].0 != #[trigger] u[b].0 by {
                    assert(u[a].0 == es[a].0 && u[b].0 == es[b].0);
                }
            }
        },
        None => {
            limiter.entries.push((owned(source), kept));
            proof {
                assert(limiter_entries(*limiter) == es.push((source@, new_times)));
                assert(limiter_entries(*limiter).drop_last() == es);
                let u = limiter_entries(*limiter);
                assert forall|a: int, b: int| 0 <= a < b < u.len() && sources_unique(es) implies #[trigger] u[a].0 != #[trigger] u[b].0 by {
                    assert(u[a].0 == es[a].0);
                    if b < es.len() {
                        assert(u[b].0 == es[b].0);
                    } else {
                        assert(u[b].0 == source@);
                    }
                }
            }
        },
    }
    if refused {
        Err(ConfigError::RateLimited(owned("Rate limit exceeded: maximum 10 requests per 60 seconds")))
    } else {
        Ok(())
    }
}

/// Once a server is added, its URL (when it has an origin) is accepted as
/// the base URL of a deep link.
pub proof fn law_added_server_accepted_as_deep_link_base(m: ServersModel, name: Seq<char>, base_url: Seq<char>, is_remote: bool)
    requires
        spec_add_server(m, name, base_url, is_remote) is Ok,
        spec_normalize_url_to_origin(base_url) is Ok,
    ensures
        spec_validate_against_origins(
            base_url,
            server_origins(spec_add_server(m, name, base_url, is_remote)->Ok_0.servers),
        ) is Ok,
{
    let servers = spec_add_server(m, name, base_url, is_remote)->Ok_0.servers;
    assert(servers.drop_last() == m.servers);
    assert(servers.last().base_url == base_url);
    let o = spec_normalize_url_to_origin(base_url)->Ok_0;
    assert(server_origins(servers) == server_origins(m.servers).push(o));
    assert(server_origins(servers)[server_origins(servers).len() - 1] == o);
}

/// No source ever has more than the maximum number of request times on
/// record: a limiter that starts within the bound stays within it.
pub proof fn law_rate_limit_history_bounded(before: Seq<u64>, now: u64)
    requires
        before.len() <= RATE_LIMIT_MAX_REQUESTS,
    ensures
        recent(before, now).len() < RATE_LIMIT_MAX_REQUESTS ==> recent(before, now).push(now).len() <= RATE_LIMIT_MAX_REQUESTS,
        recent(before, now).len() <= RATE_LIMIT_MAX_REQUESTS,
{
    lemma_recent_len(before, now);
}

/// Requests from different sources never limit each other: a source with
/// fewer than the maximum number of recent requests is accepted whatever the
/// others did.
pub proof fn law_rate_limit_sources_independent(es: Seq<(Seq<char>, Seq<u64>)>, source: Seq<char>, now: u64)
    requires
        forall|j: int| 0 <= j < es.len() ==> es[j].0 != source,
    ensures
        recent(history(es, source), now).len() < RATE_LIMIT_MAX_REQUESTS,
{
    lemma_history_absent(es, source);
}

/// The answers to requests at `times`, in order, from recorded times `ts`.
pub open spec fn rate_results(ts: Seq<u64>, times: Seq<u64>) -> Seq<bool>
    decreases times.len(),
{
    if times.len() == 0 {
        Seq::empty()
    } else {
        let (ok, next) = spec_rate_step(ts, times[0]);
        seq![ok] + rate_results(next, times.drop_first())
    }
}

proof fn lemma_recent_all(ts: Seq<u64>, now: u64)
    requires
        forall|i: int| 0 <= i < ts.len() ==> now < #[trigger] ts[i] + RATE_LIMIT_WINDOW_MS,
    ensures
        recent(ts, now) == ts,
    decreases ts.len(),
{
    if ts.len() > 0 {
        lemma_recent_all(ts.drop_last(), now);
        assert(now < ts[ts.len() - 1] + RATE_LIMIT_WINDOW_MS);
        assert(ts.drop_last().push(ts.last()) == ts);
    }
}

proof fn lemma_rate_run(ts: Seq<u64>, times: Seq<u64>)
    requires
        forall|i: int, j: int| 0 <= i < ts.len() && 0 <= j < times.len() ==> #[trigger] times[j] < #[trigger] ts[i] + RATE_LIMIT_WINDOW_MS,
        forall|i: int, j: int| 0 <= i < j < times.len() ==> #[trigger] times[j] < #[trigger] times[i] + RATE_LIMIT_WINDOW_MS,
    ensures
        rate_results(ts, times).len() == times.len(),
        forall|k: int| 0 <= k < times.len() ==> #[trigger] rate_results(ts, times)[k] == (ts.len() + k < RATE_LIMIT_MAX_REQUESTS),
    decreases times.len(),
{
    if times.len() > 0 {
        let now = times[0];
        assert forall|i: int| 0 <= i < ts.len() implies now < #[trigger] ts[i] + RATE_LIMIT_WINDOW_MS by {
            assert(times[0] < ts[i] + RATE_LIMIT_WINDOW_MS);
        }
        lemma_recent_all(ts, now);
        let (ok, next) = spec_rate_step(ts, now);
        let rest = times.drop_first();
        assert forall|i: int, j: int| 0 <= i < next.len() && 0 <= j < rest.len() implies #[trigger] rest[j] < #[trigger] next[i] + RATE_LIMIT_WINDOW_MS by {
            assert(rest[j] == times[j + 1]);
            if i < ts.len() {
                assert(next[i] == ts[i]);
            } else {
                assert(next[i] == now);
            }
        }
        assert forall|i: int, j: int| 0 <= i < j < rest.len() implies #[trigger] rest[j] < #[trigger] rest[i] + RATE_LIMIT_WINDOW_MS by {
            assert(rest[j] == times[j + 1] && rest[i] == times[i + 1]);
        }
        lemma_rate_run(next, rest);
        let r = rate_results(ts, times);
        assert(r == seq![ok] + rate_results(next, rest));
        assert forall|k: int| 0 <= k < times.len() implies #[trigger] r[k] == (ts.len() + k < RATE_LIMIT_MAX_REQUESTS) by {
            if k > 0 {
                assert(r[k] == rate_results(next, rest)[k - 1]);
            }
        }
    }
}

/// Within one window a source's first ten requests are accepted and the
/// eleventh is refused: for eleven request times, each within the window
/// that starts at every earlier one, from a source with no requests on
/// record.
pub proof fn law_rate_limit_window(times: Seq<u64>)
    requires
        times.len() == RATE_LIMIT_MAX_REQUESTS + 1,
        forall|i: int, j: int| 0 <= i < j < times.len() ==> #[trigger] times[j] < #[trigger] times[i] + RATE_LIMIT_WINDOW_MS,
    ensures
        rate_results(Seq::empty(), times) == seq![true, true, true, true, true, true, true, true, true, true, false],
{
    lemma_rate_run(Seq::empty(), times);
    assert(rate_results(Seq::empty(), times) =~= seq![true, true, true, true, true, true, true, true, true, true, false]);
}

proof fn lemma_recent_drops(ts: Seq<u64>, now: u64, i: int)
    requires
        0 <= i < ts.len(),
        now >= ts[i] + RATE_LIMIT_WINDOW_MS,
    ensures
        recent(ts, now).len() < ts.len(),
    decreases ts.len(),
{
    lemma_recent_len(ts.drop_last(), now);
    if i < ts.len() - 1 {
        lemma_recent_drops(ts.drop_last(), now, i);
    }
}

/// A source that is at the limit is accepted again once one of its recorded
/// requests is a full window old; a refused request records nothing.
pub proof fn law_rate_limit_recovers(ts: Seq<u64>, now: u64, i: int)
    requires
        ts.len() <= RATE_LIMIT_MAX_REQUESTS,
        0 <= i < ts.len(),
        now >= ts[i] + RATE_LIMIT_WINDOW_MS,
    ensures
        spec_rate_step(ts, now).0,
        !spec_rate_step(ts, now).0 ==> spec_rate_step(ts, now).1 == recent(ts, now),
{
    lemma_recent_drops(ts, now, i);
}

/// The recorded times of every source after one request from `s` at `now`.
pub open spec fn call_step(h: spec_fn(Seq<char>) -> Seq<u64>, s: Seq<char>, now: u64) -> spec_fn(Seq<char>) -> Seq<u64> {
    |t: Seq<char>| if t == s { spec_rate_step(h(s), now).1 } else { h(t) }
}

/// The answers to the requests of source `a` among `calls` (source and
/// time, in order), from recorded times `h`.
pub open spec fn results_for(h: spec_fn(Seq<char>) -> Seq<u64>, calls: Seq<(Seq<char>, u64)>, a: Seq<char>) -> Seq<bool>
    decreases calls.len(),
{
    if calls.len() == 0 {
        Seq::empty()
    } else {
        let c = calls[0];
        (if c.0 == a { seq![spec_rate_step(h(c.0), c.1).0] } else { Seq::empty() })
            + results_for(call_step(h, c.0, c.1), calls.drop_first(), a)
    }
}

/// The times of the requests of source `a` among `calls`, in order.
pub open spec fn times_for(calls: Seq<(Seq<char>, u64)>, a: Seq<char>) -> Seq<u64>
    decreases calls.len(),
{
    if calls.len() == 0 {
        Seq::empty()
    } else {
        (if calls[0].0 == a { seq![calls[0].1] } else { Seq::empty() }) + times_for(calls.drop_first(), a)
    }
}

/// However requests from different sources interleave, a source gets the
/// answers it would get if it were the only one: the other sources' requests
/// never change its results.
pub proof fn law_rate_limit_interleaving(h: spec_fn(Seq<char>) -> Seq<u64>, calls: Seq<(Seq<char>, u64)>, a: Seq<char>)
    ensures
        results_for(h, calls, a) == rate_results(h(a), times_for(calls, a)),
    decreases calls.len(),
{
    if calls.len() > 0 {
        let c = calls[0];
        let h2 = call_step(h, c.0, c.1);
        law_rate_limit_interleaving(h2, calls.drop_first(), a);
        let rest = times_for(calls.drop_first(), a);
        if c.0 == a {
            assert(h2(a) == spec_rate_step(h(a), c.1).1);
            let all = seq![c.1] + rest;
            assert(times_for(calls, a) == all);
            assert(all[0] == c.1);
            assert(all.drop_first() == rest);
            assert(results_for(h, calls, a) == seq![spec_rate_step(h(a), c.1).0] + results_for(h2, calls.drop_first(), a));
        } else {
            assert(h2(a) == h(a));
            assert(times_for(calls, a) == Seq::<u64>::empty() + rest);
            assert(Seq::<u64>::empty() + rest == rest);
            assert(results_for(h, calls, a) == Seq::<bool>::empty() + results_for(h2, calls.drop_first(), a));
            assert(Seq::<bool>::empty() + results_for(h2, calls.drop_first(), a) == results_for(h2, calls.drop_first(), a));
        }
    }
}

/// Different quality settings are shown with different labels, and a
/// bitrate that is no preset is shown as `<kbps> kbps`.
pub proof fn law_quality_labels_distinct(q1: StreamQuality, q2: StreamQuality)
    requires
        q1 != q2,
    ensures
        quality_label(q1) != quality_label(q2),
{
    reveal_strlit("Original");
    reveal_strlit("20 Mbps (4K)");
    reveal_strlit("12 Mbps (1080p)");
    reveal_strlit("8 Mbps (1080p)");
    reveal_strlit("4 Mbps (720p)");
    reveal_strlit("2 Mbps (480p)");
    reveal_strlit(" kbps");
    let a = quality_label(q1);
    let b = quality_label(q2);
    if a == b {
        assert(a.len() == b.len() && a[0] == b[0] && a[1] == b[1] && a.last() == b.last());
        match (q1, q2) {
            (StreamQuality::Maximum(k1), StreamQuality::Maximum(k2)) => {
                let p1 = k1 == 20000 || k1 == 12000 || k1 == 8000 || k1 == 4000 || k1 == 2000;
                let p2 = k2 == 20000 || k2 == 12000 || k2 == 8000 || k2 == 4000 || k2 == 2000;
                if !p1 && !p2 {
                    let d1 = decimal(k1 as nat);
                    let d2 = decimal(k2 as nat);
                    assert(a == d1 + " kbps"@ && b == d2 + " kbps"@);
                    assert(d1.len() == d2.len());
                    assert(d1 == a.take(d1.len() as int));
                    assert(d2 == b.take(d2.len() as int));
                    crate::instance::lemma_decimal_digits(k1 as nat);
                    crate::instance::lemma_decimal_digits(k2 as nat);
                    assert(false);
                } else if p1 && !p2 {
                    assert(b.last() == 's');
                    assert(a.last() == ')');
                } else if !p1 && p2 {
                    assert(a.last() == 's');
                    assert(b.last() == ')');
                }
            },
            (StreamQuality::Original, StreamQuality::Maximum(k2)) => {
                assert(a.last() == 'l');
            },
            (StreamQuality::Maximum(k1), StreamQuality::Original) => {
                assert(b.last() == 'l');
            },
            _ => {},
        }
    }
}

/// A server that was added is the last one listed, with the id
/// `server-<number of servers>`, the given name, address and kind, and no
/// machine identifier; the servers before it are unchanged.
pub proof fn law_added_server_is_last(m: ServersModel, name: Seq<char>, base_url: Seq<char>, is_remote: bool)
    requires
        spec_add_server(m, name, base_url, is_remote) is Ok,
    ensures
        ({
            let servers = spec_add_server(m, name, base_url, is_remote)->Ok_0.servers;
            &&& servers.len() == m.servers.len() + 1
            &&& servers.drop_last() == m.servers
            &&& servers.last() == (ServerConfigView {
                id: "server-"@ + decimal(servers.len()),
                name,
                base_url,
                is_remote,
                machine_identifier: None,
            })
        }),
{
    let servers = spec_add_server(m, name, base_url, is_remote)->Ok_0.servers;
    assert(servers.drop_last() == m.servers);
}

} // verus!
