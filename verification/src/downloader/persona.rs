//! Client personas: how one kind of client words its requests.
//!
//! The playback endpoint answers differently to different client families. A
//! persona bundles what identifies one of them: the request body it sends and
//! the headers it sends along.

use crate::downloader::headers::{
    check_header_text, header_value_of, header_view, is_header_text, is_visible_ascii, lowercase,
    new_headers, set_header, static_header_value,
};
use crate::downloader::json;
use crate::downloader::json::{json_view, JsonNumber, JsonView};
use reqwest::header::HeaderMap;
use serde_json::Value;
use vstd::prelude::*;

verus! {

/// The data of a persona.
#[derive(Debug)]
pub struct ClientConfig {
    pub client_name: String,
    pub client_version: String,
    pub user_agent: String,
    pub language: String,
    pub country: String,
    /// Platform fields, a JSON object.
    pub extra_config: Value,
}

/// The mathematical value of a [`ClientConfig`].
pub struct ClientConfigView {
    pub client_name: Seq<char>,
    pub client_version: Seq<char>,
    pub user_agent: Seq<char>,
    pub language: Seq<char>,
    pub country: Seq<char>,
    pub extra_config: JsonView,
}

impl View for ClientConfig {
    type V = ClientConfigView;

    open spec fn view(&self) -> ClientConfigView {
        ClientConfigView {
            client_name: self.client_name@,
            client_version: self.client_version@,
            user_agent: self.user_agent@,
            language: self.language@,
            country: self.country@,
            extra_config: json_view(self.extra_config),
        }
    }
}

/// What a persona can do. The spec functions say what its requests hold;
/// the executable ones build them.
pub trait ClientStrategy {
    /// The request body for `video_id`.
    spec fn payload(&self, video_id: Seq<char>) -> JsonView;

    /// The request headers, by lower-case name, when `origin` is the site's root.
    spec fn headers(&self, origin: Seq<char>) -> Map<Seq<char>, Seq<char>>;

    /// The persona's name.
    spec fn name(&self) -> Seq<char>;

    /// The number under which the endpoint knows the client family.
    spec fn number(&self) -> u32;

    fn config(&self) -> &ClientConfig;

    fn build_payload(&self, video_id: &str) -> (r: Value)
        ensures
            json_view(r) == self.payload(video_id@),
    ;

    fn build_headers(&self, base_url: &'static str) -> (r: HeaderMap)
        requires
            is_visible_ascii(base_url@),
        ensures
            header_view(r) == self.headers(base_url@),
    ;

    fn client_name(&self) -> (r: &str)
        ensures
            r@ == self.name(),
    ;

    fn client_number(&self) -> (r: u32)
        ensures
            r == self.number(),
    ;
}

/// The platform fields of the mobile persona.
pub open spec fn android_platform() -> JsonView {
    JsonView::Object(
        map![
            "androidSdkVersion"@ => JsonView::Number(JsonNumber::Unsigned(33)),
            "osName"@ => JsonView::Text("Android"@),
            "osVersion"@ => JsonView::Text("13"@),
            "platform"@ => JsonView::Text("MOBILE"@),
            "deviceMake"@ => JsonView::Text("Google"@),
            "deviceModel"@ => JsonView::Text("Pixel 7"@),
        ],
    )
}

/// The data of the mobile persona.
pub open spec fn android_config() -> ClientConfigView {
    ClientConfigView {
        client_name: "ANDROID"@,
        client_version: "19.01.34"@,
        user_agent: "com.google.android.youtube/19.01.34 (Linux; Android 13)"@,
        language: "en"@,
        country: "US"@,
        extra_config: android_platform(),
    }
}

/// The member `key` of `fields`, or `null` where there is none.
pub open spec fn field_or_null(fields: JsonView, key: Seq<char>) -> JsonView {
    match fields.get(key) {
        Some(value) => value,
        None => JsonView::Null,
    }
}

/// The client block of the mobile persona's request body: the persona's
/// own data, and each platform field under its own key with its own value.
pub open spec fn android_client_block(config: ClientConfigView) -> JsonView {
    JsonView::Object(
        map![
            "hl"@ => JsonView::Text(config.language),
            "gl"@ => JsonView::Text(config.country),
            "clientName"@ => JsonView::Text(config.client_name),
            "clientVersion"@ => JsonView::Text(config.client_version),
            "androidSdkVersion"@ => field_or_null(config.extra_config, "androidSdkVersion"@),
            "osName"@ => field_or_null(config.extra_config, "osName"@),
            "osVersion"@ => field_or_null(config.extra_config, "osVersion"@),
            "platform"@ => field_or_null(config.extra_config, "platform"@),
            "deviceMake"@ => field_or_null(config.extra_config, "deviceMake"@),
            "deviceModel"@ => field_or_null(config.extra_config, "deviceModel"@),
            "userAgent"@ => JsonView::Text(config.user_agent),
        ],
    )
}

/// The keys of the platform fields that the client block embeds.
pub open spec fn platform_keys() -> Seq<Seq<char>> {
    seq![
        "androidSdkVersion"@,
        "osName"@,
        "osVersion"@,
        "platform"@,
        "deviceMake"@,
        "deviceModel"@,
    ]
}

/// The keys of the client block are different texts.
proof fn lemma_client_keys_differ()
    ensures
        "androidSdkVersion"@.len() == 17,
        "osName"@.len() == 6,
        "osVersion"@.len() == 9 && "osVersion"@[0] == 'o',
        "platform"@.len() == 8,
        "deviceMake"@.len() == 10,
        "deviceModel"@.len() == 11,
        "userAgent"@.len() == 9 && "userAgent"@[0] == 'u',
{
    reveal_strlit("androidSdkVersion");
    reveal_strlit("osName");
    reveal_strlit("osVersion");
    reveal_strlit("platform");
    reveal_strlit("deviceMake");
    reveal_strlit("deviceModel");
    reveal_strlit("userAgent");
}

/// Every platform field stands in the client block under its own key with
/// the value that the persona holds for it, and with `null` where the
/// persona holds none.
pub proof fn lemma_platform_fields_are_embedded(config: ClientConfigView)
    ensures
        forall|i: int|
            0 <= i < platform_keys().len() ==> android_client_block(config).get(
                #[trigger] platform_keys()[i],
            ) == Some(field_or_null(config.extra_config, platform_keys()[i])),
{
    lemma_client_keys_differ();
    let block = android_client_block(config);
    assert(block.get("androidSdkVersion"@) == Some(field_or_null(config.extra_config, "androidSdkVersion"@)));
    assert(block.get("osName"@) == Some(field_or_null(config.extra_config, "osName"@)));
    assert(block.get("osVersion"@) == Some(field_or_null(config.extra_config, "osVersion"@)));
    assert(block.get("platform"@) == Some(field_or_null(config.extra_config, "platform"@)));
    assert(block.get("deviceMake"@) == Some(field_or_null(config.extra_config, "deviceMake"@)));
    assert(block.get("deviceModel"@) == Some(field_or_null(config.extra_config, "deviceModel"@)));
}

/// The mobile persona with its fixed data sends its device make and its
/// device model as they are.
pub proof fn lemma_android_device_is_sent()
    ensures
        android_client_block(android_config()).get("deviceMake"@) == Some(JsonView::Text("Google"@)),
        android_client_block(android_config()).get("deviceModel"@) == Some(
            JsonView::Text("Pixel 7"@),
        ),
{
    lemma_client_keys_differ();
    lemma_platform_fields_are_embedded(android_config());
    assert(platform_keys()[4] == "deviceMake"@);
    assert(platform_keys()[5] == "deviceModel"@);
    assert(android_platform().get("deviceMake"@) == Some(JsonView::Text("Google"@)));
    assert(android_platform().get("deviceModel"@) == Some(JsonView::Text("Pixel 7"@)));
}

/// The signature timestamp that the mobile persona claims.
pub const SIGNATURE_TIMESTAMP: u64 = 20438;

/// The request body of the mobile persona.
pub open spec fn android_payload(config: ClientConfigView, video_id: Seq<char>) -> JsonView {
    JsonView::Object(
        map![
            "videoId"@ => JsonView::Text(video_id),
            "context"@ => JsonView::Object(
                map![
                    "client"@ => android_client_block(config),
                    "user"@ => JsonView::Object(map!["lockedSafetyMode"@ => JsonView::Bool(false)]),
                    "request"@ => JsonView::Object(map!["useSsl"@ => JsonView::Bool(true)]),
                ],
            ),
            "playbackContext"@ => JsonView::Object(
                map![
                    "contentPlaybackContext"@ => JsonView::Object(
                        map![
                            "signatureTimestamp"@ => JsonView::Number(
                                JsonNumber::Unsigned(SIGNATURE_TIMESTAMP),
                            ),
                        ],
                    ),
                ],
            ),
        ],
    )
}

/// The request headers of the mobile persona, by lower-case name.
pub open spec fn android_headers(config: ClientConfigView, origin: Seq<char>) -> Map<
    Seq<char>,
    Seq<char>,
> {
    map![
        "user-agent"@ => config.user_agent,
        "accept"@ => "*/*"@,
        "content-type"@ => "application/json"@,
        "x-youtube-client-name"@ => "3"@,
        "x-youtube-client-version"@ => config.client_version,
        "origin"@ => origin,
        "referer"@ => "https://www.youtube.com/"@,
    ]
}

/// The persona of the mobile application.
#[derive(Debug)]
pub struct AndroidClient {
    client_config: ClientConfig,
}

impl View for AndroidClient {
    type V = ClientConfigView;

    closed spec fn view(&self) -> ClientConfigView {
        self.client_config@
    }
}

fn field_or_null_value(fields: &Value, key: &str) -> (r: Value)
    ensures
        json_view(r) == field_or_null(json_view(*fields), key@),
{
    match json::get(fields, key) {
        Some(value) => json::duplicate(value),
        None => json::null(),
    }
}

fn single_member(key: &str, value: Value) -> (r: Value)
    ensures
        json_view(r) == JsonView::Object(map![key@ => json_view(value)]),
{
    let mut members = json::new_members();
    json::insert(&mut members, key, value);
    json::object(members)
}

impl AndroidClient {
    #[verifier::type_invariant]
    spec fn header_safe(self) -> bool {
        &&& is_header_text(self.client_config.user_agent@)
        &&& is_header_text(self.client_config.client_version@)
    }

    /// A persona of the mobile family with other data than the fixed ones,
    /// if its user agent and its version can stand in a header.
    pub fn with_config(client_config: ClientConfig) -> (r: Option<AndroidClient>)
        ensures
            r is Some <==> is_header_text(client_config.user_agent@) && is_header_text(
                client_config.client_version@,
            ),
            r matches Some(persona) ==> persona@ == client_config@,
    {
        if check_header_text(client_config.user_agent.as_str()) && check_header_text(
            client_config.client_version.as_str(),
        ) {
            Some(AndroidClient { client_config })
        } else {
            None
        }
    }

    /// The mobile persona with its fixed data.
    pub fn new() -> (r: AndroidClient)
        ensures
            r@ == android_config(),
    {
        let mut extra = json::new_members();
        json::insert(&mut extra, "androidSdkVersion", json::unsigned(33));
        json::insert(&mut extra, "osName", json::text("Android"));
        json::insert(&mut extra, "osVersion", json::text("13"));
        json::insert(&mut extra, "platform", json::text("MOBILE"));
        json::insert(&mut extra, "deviceMake", json::text("Google"));
        json::insert(&mut extra, "deviceModel", json::text("Pixel 7"));
        let client_config = ClientConfig {
            client_name: "ANDROID".to_string(),
            client_version: "19.01.34".to_string(),
            user_agent: "com.google.android.youtube/19.01.34 (Linux; Android 13)".to_string(),
            language: "en".to_string(),
            country: "US".to_string(),
            extra_config: json::object(extra),
        };
        proof {
            reveal_strlit("19.01.34");
            reveal_strlit("com.google.android.youtube/19.01.34 (Linux; Android 13)");
        }
        AndroidClient { client_config }
    }
}

impl Default for AndroidClient {
    /// The mobile persona with its fixed data.
    fn default() -> (r: AndroidClient)
        ensures
            r@ == android_config(),
    {
        AndroidClient::new()
    }
}

impl ClientStrategy for AndroidClient {
    open spec fn payload(&self, video_id: Seq<char>) -> JsonView {
        android_payload(self@, video_id)
    }

    open spec fn headers(&self, origin: Seq<char>) -> Map<Seq<char>, Seq<char>> {
        android_headers(self@, origin)
    }

    open spec fn name(&self) -> Seq<char> {
        "ANDROID"@
    }

    open spec fn number(&self) -> u32 {
        3
    }

    fn config(&self) -> (r: &ClientConfig)
        ensures
            r@ == self@,
    {
        &self.client_config
    }

    fn build_payload(&self, video_id: &str) -> (r: Value) {
        let config = &self.client_config;
        let extra = &config.extra_config;
        let mut client = json::new_members();
        json::insert(&mut client, "hl", json::text(config.language.as_str()));
        json::insert(&mut client, "gl", json::text(config.country.as_str()));
        json::insert(&mut client, "clientName", json::text(config.client_name.as_str()));
        json::insert(&mut client, "clientVersion", json::text(config.client_version.as_str()));
        json::insert(&mut client, "androidSdkVersion", field_or_null_value(extra, "androidSdkVersion"));
        json::insert(&mut client, "osName", field_or_null_value(extra, "osName"));
        json::insert(&mut client, "osVersion", field_or_null_value(extra, "osVersion"));
        json::insert(&mut client, "platform", field_or_null_value(extra, "platform"));
        json::insert(&mut client, "deviceMake", field_or_null_value(extra, "deviceMake"));
        json::insert(&mut client, "deviceModel", field_or_null_value(extra, "deviceModel"));
        json::insert(&mut client, "userAgent", json::text(config.user_agent.as_str()));

        let mut context = json::new_members();
        json::insert(&mut context, "client", json::object(client));
        json::insert(&mut context, "user", single_member("lockedSafetyMode", json::boolean(false)));
        json::insert(&mut context, "request", single_member("useSsl", json::boolean(true)));

        let playback = single_member(
            "contentPlaybackContext",
            single_member("signatureTimestamp", json::unsigned(SIGNATURE_TIMESTAMP)),
        );

        let mut body = json::new_members();
        json::insert(&mut body, "videoId", json::text(video_id));
        json::insert(&mut body, "context", json::object(context));
        json::insert(&mut body, "playbackContext", playback);
        json::object(body)
    }

    fn build_headers(&self, base_url: &'static str) -> (r: HeaderMap) {
        proof {
            use_type_invariant(self);
            reveal_strlit("User-Agent");
            reveal_strlit("user-agent");
            reveal_strlit("Accept");
            reveal_strlit("accept");
            reveal_strlit("*/*");
            reveal_strlit("Content-Type");
            reveal_strlit("content-type");
            reveal_strlit("application/json");
            reveal_strlit("X-Youtube-Client-Name");
            reveal_strlit("x-youtube-client-name");
            reveal_strlit("3");
            reveal_strlit("X-Youtube-Client-Version");
            reveal_strlit("x-youtube-client-version");
            reveal_strlit("Origin");
            reveal_strlit("origin");
            reveal_strlit("Referer");
            reveal_strlit("referer");
            reveal_strlit("https://www.youtube.com/");
            assert(lowercase("User-Agent"@) == "user-agent"@);
            assert(lowercase("Accept"@) == "accept"@);
            assert(lowercase("Content-Type"@) == "content-type"@);
            assert(lowercase("X-Youtube-Client-Name"@) == "x-youtube-client-name"@);
            assert(lowercase("X-Youtube-Client-Version"@) == "x-youtube-client-version"@);
            assert(lowercase("Origin"@) == "origin"@);
            assert(lowercase("Referer"@) == "referer"@);
        }
        let config = &self.client_config;
        let mut headers = new_headers();
        set_header(&mut headers, "User-Agent", header_value_of(config.user_agent.as_str()));
        set_header(&mut headers, "Accept", static_header_value("*/*"));
        set_header(&mut headers, "Content-Type", static_header_value("application/json"));
        set_header(&mut headers, "X-Youtube-Client-Name", static_header_value("3"));
        set_header(&mut headers, "X-Youtube-Client-Version", header_value_of(config.client_version.as_str()));
        set_header(&mut headers, "Origin", static_header_value(base_url));
        set_header(&mut headers, "Referer", static_header_value("https://www.youtube.com/"));
        headers
    }

    fn client_name(&self) -> (r: &str) {
        "ANDROID"
    }

    fn client_number(&self) -> (r: u32) {
        3
    }
}

} // verus!
