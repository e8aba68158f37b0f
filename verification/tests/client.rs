use audyo::downloader::client::{
    check_video_id, first_match, YoutubeClient, API_YOUTUBE_URL, YOUTUBE_URL,
};
use audyo::downloader::error::{check_status, YtdlError};
use audyo::downloader::headers::check_header_text;
use audyo::downloader::persona::{AndroidClient, ClientConfig, ClientStrategy};
use audyo::downloader::response::{
    read_details, read_format, read_formats, PlayerResponse, StreamFormat, StreamingData,
    VideoDetails,
};
use serde_json::Value;

fn client() -> YoutubeClient<AndroidClient> {
    YoutubeClient::default_android()
}

fn extract(url: &str) -> Option<String> {
    YoutubeClient::<AndroidClient>::extract_video_id(url)
}

fn json(text: &str) -> Value {
    serde_json::from_str(text).unwrap()
}

fn details() -> VideoDetails {
    VideoDetails {
        video_id: "dQw4w9WgXcQ".to_string(),
        author: "Rick".to_string(),
        length_seconds: "212".to_string(),
        title: "Never".to_string(),
    }
}

fn bare_format(itag: u32, url: Option<&str>) -> StreamFormat {
    StreamFormat {
        itag,
        url: url.map(|u| u.to_string()),
        approx_duration_ms: None,
        audio_channels: None,
        audio_quality: None,
        audio_sample_rate: None,
        average_bitrate: None,
        bitrate: None,
        mime_type: None,
        quality: None,
    }
}

#[test]
fn extract_video_id_from_short_link() {
    assert_eq!(extract("https://youtu.be/dQw4w9WgXcQ"), Some("dQw4w9WgXcQ".to_string()));
}

#[test]
fn extract_video_id_from_watch_link_with_more_parameters() {
    assert_eq!(
        extract("https://www.youtube.com/watch?v=dQw4w9WgXcQ&t=30"),
        Some("dQw4w9WgXcQ".to_string())
    );
    assert_eq!(
        extract("https://www.youtube.com/watch?list=PL1&v=dQw4w9WgXcQ"),
        Some("dQw4w9WgXcQ".to_string())
    );
}

#[test]
fn extract_video_id_from_other_shapes() {
    assert_eq!(extract("https://www.youtube.com/embed/abcDEF_-123"), Some("abcDEF_-123".to_string()));
    assert_eq!(extract("https://www.youtube.com/v/abcDEF_-123?x=1"), Some("abcDEF_-123".to_string()));
    assert_eq!(extract("https://youtube.com/shorts/abcDEF_-123"), Some("abcDEF_-123".to_string()));
}

#[test]
fn extract_video_id_finds_nothing_elsewhere() {
    assert_eq!(extract("https://example.com/video"), None);
    assert_eq!(extract(""), None);
    assert_eq!(extract("https://youtu.be/tooShort"), None);
    assert_eq!(extract("https://www.youtube.com/watch?v=short"), None);
}

#[test]
fn extracted_video_id_is_a_piece_of_the_url() {
    let urls = [
        "https://youtu.be/dQw4w9WgXcQ",
        "https://www.youtube.com/watch?v=dQw4w9WgXcQ&t=30",
        "see https://youtube.com/shorts/abcDEF_-123 and https://youtu.be/AAAAAAAAAAA",
        "https://www.youtube.com/embed/abcDEF_-123?rel=0",
    ];
    for url in urls {
        let id = extract(url).unwrap();
        assert!(url.contains(&id), "url {:?}, id {:?}", url, id);
        assert_eq!(id.chars().count(), 11);
    }
}

#[test]
fn extract_video_id_takes_eleven_characters() {
    assert_eq!(extract("https://youtu.be/dQw4w9WgXcQextra"), Some("dQw4w9WgXcQ".to_string()));
}

#[test]
fn extract_video_id_prefers_the_earlier_shape() {
    let url = "https://youtu.be/AAAAAAAAAAA https://www.youtube.com/watch?v=BBBBBBBBBBB";
    assert_eq!(extract(url), Some("BBBBBBBBBBB".to_string()));
}

#[test]
fn first_match_takes_the_first_candidate_that_is_there() {
    assert_eq!(first_match(vec![]), None);
    assert_eq!(first_match(vec![None, None]), None);
    assert_eq!(
        first_match(vec![None, Some("b".to_string()), Some("c".to_string())]),
        Some("b".to_string())
    );
    assert_eq!(first_match(vec![Some("a".to_string()), None]), Some("a".to_string()));
}

#[test]
fn check_status_accepts_exactly_the_successes() {
    for status in [200u16, 204, 299] {
        assert_eq!(check_status(status), Ok(()));
    }
    for (status, text) in [(199u16, "199"), (300, "300"), (404, "404"), (500, "500"), (0, "0")] {
        assert_eq!(
            check_status(status),
            Err(YtdlError::Request(format!("unexpected HTTP status {}", text)))
        );
    }
}

#[test]
fn non_success_status_fails_whatever_the_body_is() {
    let good = br#"{"videoDetails":{"videoId":"a","author":"b","lengthSeconds":"1","title":"t"},"streamingData":{"formats":[{"itag":18,"url":"u"}]}}"#;
    for body in [&good[..], &b"not json"[..], &b""[..]] {
        assert_eq!(
            client().get_video_info("a", 403, body),
            Err(YtdlError::Request("unexpected HTTP status 403".to_string()))
        );
    }
}

#[test]
fn body_that_is_no_json_is_a_json_failure() {
    for body in [&b"not json"[..], &b""[..], &b"{\"videoDetails\":"[..], &b"{} trailing"[..]] {
        match client().get_video_info("a", 200, body) {
            Err(YtdlError::Json(message)) => assert!(!message.is_empty()),
            other => panic!("unexpected outcome {:?}", other),
        }
    }
}

#[test]
fn resolves_a_complete_response() {
    let body = br#"{
        "videoDetails": {"videoId": "dQw4w9WgXcQ", "author": "Rick", "lengthSeconds": "212", "title": "Never", "extra": 1},
        "streamingData": {"expiresInSeconds": "21540", "formats": [
            {"itag": 18, "url": "https://cdn/a", "approxDurationMs": "212000", "audioChannels": 2,
             "audioQuality": "AUDIO_QUALITY_LOW", "audioSampleRate": "44100", "averageBitrate": 96000,
             "bitrate": 128000, "mimeType": "video/mp4", "quality": "medium"},
            {"itag": 22},
            {"itag": 140, "url": null, "bitrate": 0}
        ]}
    }"#;
    let info = client().get_video_info("dQw4w9WgXcQ", 200, body).unwrap();
    assert_eq!(info.video_id(), "dQw4w9WgXcQ");
    assert_eq!(info.title(), "Never");
    assert_eq!(info.author(), "Rick");
    assert_eq!(info.length_seconds(), 212);
    let formats = info.formats();
    assert_eq!(formats.len(), 3);
    assert_eq!(
        formats[0],
        StreamFormat {
            itag: 18,
            url: Some("https://cdn/a".to_string()),
            approx_duration_ms: Some("212000".to_string()),
            audio_channels: Some(2),
            audio_quality: Some("AUDIO_QUALITY_LOW".to_string()),
            audio_sample_rate: Some("44100".to_string()),
            average_bitrate: Some(96000),
            bitrate: Some(128000),
            mime_type: Some("video/mp4".to_string()),
            quality: Some("medium".to_string()),
        }
    );
    assert_eq!(formats[1], bare_format(22, None));
    assert_eq!(formats[2], StreamFormat { bitrate: Some(0), ..bare_format(140, None) });
}

#[test]
fn formats_keep_the_order_of_the_response() {
    let body = br#"{"videoDetails":{"videoId":"a","author":"b","lengthSeconds":"1","title":"t"},
        "streamingData":{"formats":[{"itag":3,"url":"c"},{"itag":1,"url":"a"},{"itag":2},{"itag":1,"url":"a"}]}}"#;
    let info = client().get_video_info("a", 200, body).unwrap();
    let tags: Vec<u32> = info.formats().iter().map(|f| f.itag).collect();
    assert_eq!(tags, vec![3, 1, 2, 1]);
}

#[test]
fn missing_details_is_an_unknown_video() {
    let bodies: [&[u8]; 7] = [
        b"{}",
        br#"{"videoDetails": null}"#,
        br#"{"videoDetails": null, "streamingData": null}"#,
        br#"{"streamingData": {"formats": [{"itag": 18, "url": "u"}]}}"#,
        br#"{"streamingData": {"formats": [{"url": "entry without tag"}]}}"#,
        br#"{"streamingData": {"formats": []}, "playabilityStatus": {"status": "ERROR"}}"#,
        br#"{"playabilityStatus": {"status": "LOGIN_REQUIRED"}, "streamingData": {}}"#,
    ];
    for body in bodies {
        assert_eq!(
            client().get_video_info("gone4w9WgXc", 200, body),
            Err(YtdlError::VideoNotFound("gone4w9WgXc".to_string()))
        );
    }
}

#[test]
fn missing_or_empty_format_list_is_no_suitable_format() {
    let bodies: [&[u8]; 5] = [
        br#"{"videoDetails":{"videoId":"a","author":"b","lengthSeconds":"1","title":"t"}}"#,
        br#"{"videoDetails":{"videoId":"a","author":"b","lengthSeconds":"1","title":"t"},"streamingData":null}"#,
        br#"{"videoDetails":{"videoId":"a","author":"b","lengthSeconds":"1","title":"t"},"streamingData":{}}"#,
        br#"{"videoDetails":{"videoId":"a","author":"b","lengthSeconds":"1","title":"t"},"streamingData":{"formats":null}}"#,
        br#"{"videoDetails":{"videoId":"a","author":"b","lengthSeconds":"1","title":"t"},"streamingData":{"formats":[]}}"#,
    ];
    for body in bodies {
        assert_eq!(client().get_video_info("a", 200, body), Err(YtdlError::NoSuitableFormat));
    }
}

#[test]
fn members_of_the_wrong_kind_are_parse_errors() {
    let cases: [(&[u8], &str); 8] = [
        (br#"{"videoDetails":{"videoId":"a","author":"b","lengthSeconds":"1","title":"t"},"streamingData":{"formats":{}}}"#, "formats"),
        (br#"{"videoDetails":{"author":"b","lengthSeconds":"1","title":"t"},"streamingData":{"formats":[{"itag":1}]}}"#, "videoId"),
        (br#"{"videoDetails":{"videoId":"a","author":"b","lengthSeconds":1,"title":"t"},"streamingData":{"formats":[{"itag":1}]}}"#, "lengthSeconds"),
        (br#"{"videoDetails":7,"streamingData":{"formats":[{"itag":1}]}}"#, "videoDetails"),
        (br#"{"videoDetails":{"videoId":"a","author":"b","lengthSeconds":"1","title":"t"},"streamingData":{"formats":[{"url":"u"}]}}"#, "itag"),
        (br#"{"videoDetails":{"videoId":"a","author":"b","lengthSeconds":"1","title":"t"},"streamingData":{"formats":[{"itag":1},{"itag":-1}]}}"#, "itag"),
        (br#"{"videoDetails":{"videoId":"a","author":"b","lengthSeconds":"1","title":"t"},"streamingData":{"formats":[{"itag":1,"audioChannels":256}]}}"#, "audioChannels"),
        (br#"{"videoDetails":{"videoId":"a","author":"b","lengthSeconds":"1","title":"t"},"streamingData":{"formats":[{"itag":1,"url":5,"quality":6}]}}"#, "url"),
    ];
    for (body, member) in cases {
        assert_eq!(
            client().get_video_info("a", 200, body),
            Err(YtdlError::ParseError(member.to_string())),
            "body {}",
            String::from_utf8_lossy(body)
        );
    }
}

#[test]
fn documents_of_another_shape_are_parse_errors() {
    let cases: [(&[u8], &str); 14] = [
        (b"null", "document"),
        (b"[]", "document"),
        (b"5", "document"),
        (br#""text""#, "document"),
        (br#"[{"videoDetails": {}}]"#, "document"),
        (br#"{"videoDetails": 5}"#, "videoDetails"),
        (br#"{"videoDetails": []}"#, "videoDetails"),
        (br#"{"videoDetails": {}}"#, "videoId"),
        (br#"{"videoDetails": {"videoId": "v"}, "streamingData": 5}"#, "author"),
        (br#"{"videoDetails": {"title": 7}, "streamingData": {"formats": []}}"#, "videoId"),
        (br#"{"videoDetails": {"videoId":"a","author":"b","lengthSeconds":"1","title":7}}"#, "title"),
        (br#"{"videoDetails":{"videoId":"a","author":"b","lengthSeconds":"1","title":"t"},"streamingData":5}"#, "streamingData"),
        (br#"{"streamingData": [1]}"#, "streamingData"),
        (br#"{"streamingData": {"formats": "broken"}}"#, "formats"),
    ];
    for (body, member) in cases {
        assert_eq!(
            client().get_video_info("a", 200, body),
            Err(YtdlError::ParseError(member.to_string())),
            "body {}",
            String::from_utf8_lossy(body)
        );
    }
    for body in [&b"<html>"[..], &b"{\"videoDetails\": 5"[..]] {
        assert!(matches!(client().get_video_info("a", 200, body), Err(YtdlError::Json(_))));
    }
}

#[test]
fn default_persona_is_the_mobile_persona() {
    let persona = AndroidClient::default();
    assert_eq!(persona.config().client_name, "ANDROID");
    assert_eq!(persona.config().extra_config, AndroidClient::new().config().extra_config);
    assert_eq!(persona.build_payload("v"), AndroidClient::new().build_payload("v"));
}

#[test]
fn duration_defaults_to_zero_on_malformed_text() {
    for (text, expected) in [("212", 212u32), ("", 0), ("abc", 0), ("-5", 0), ("4294967296", 0), ("+7", 7), ("1.5", 0)] {
        let body = format!(
            r#"{{"videoDetails":{{"videoId":"a","author":"b","lengthSeconds":"{}","title":"t"}},"streamingData":{{"formats":[{{"itag":1}}]}}}}"#,
            text
        );
        let info = client().get_video_info("a", 200, body.as_bytes()).unwrap();
        assert_eq!(info.length_seconds(), expected, "text {:?}", text);
    }
}

#[test]
fn parse_player_payload_follows_the_sections() {
    let c = client();
    assert_eq!(
        c.parse_player_payload(PlayerResponse { video_details: None, streaming_data: None }, "vid"),
        Err(YtdlError::VideoNotFound("vid".to_string()))
    );
    assert_eq!(
        c.parse_player_payload(
            PlayerResponse {
                video_details: None,
                streaming_data: Some(StreamingData { formats: Some(vec![bare_format(18, Some("u"))]) }),
            },
            "vid"
        ),
        Err(YtdlError::VideoNotFound("vid".to_string()))
    );
    assert_eq!(
        c.parse_player_payload(PlayerResponse { video_details: Some(details()), streaming_data: None }, "vid"),
        Err(YtdlError::NoSuitableFormat)
    );
    assert_eq!(
        c.parse_player_payload(
            PlayerResponse { video_details: Some(details()), streaming_data: Some(StreamingData { formats: None }) },
            "vid"
        ),
        Err(YtdlError::NoSuitableFormat)
    );
    assert_eq!(
        c.parse_player_payload(
            PlayerResponse {
                video_details: Some(details()),
                streaming_data: Some(StreamingData { formats: Some(vec![]) }),
            },
            "vid"
        ),
        Err(YtdlError::NoSuitableFormat)
    );
    let info = c
        .parse_player_payload(
            PlayerResponse {
                video_details: Some(details()),
                streaming_data: Some(StreamingData {
                    formats: Some(vec![bare_format(18, Some("u")), bare_format(22, None)]),
                }),
            },
            "vid",
        )
        .unwrap();
    assert_eq!(info.video_id(), "dQw4w9WgXcQ");
    assert_eq!(info.title(), "Never");
    assert_eq!(info.author(), "Rick");
    assert_eq!(info.length_seconds(), 212);
    assert_eq!(info.formats(), &vec![bare_format(18, Some("u")), bare_format(22, None)]);
}

#[test]
fn readers_of_sections_report_the_first_fault() {
    assert_eq!(read_format(&json(r#"{"itag": 5}"#)), Ok(bare_format(5, None)));
    assert_eq!(read_format(&json(r#"{"itag": 4294967296}"#)), Err(YtdlError::ParseError("itag".to_string())));
    assert_eq!(read_format(&json(r#"{"itag": 1.0}"#)), Err(YtdlError::ParseError("itag".to_string())));
    assert_eq!(read_format(&json(r#"{"itag": "18"}"#)), Err(YtdlError::ParseError("itag".to_string())));
    assert_eq!(
        read_format(&json(r#"{"itag": 1, "quality": 2, "mimeType": 3}"#)),
        Err(YtdlError::ParseError("mimeType".to_string()))
    );
    assert_eq!(
        read_formats(&vec![json(r#"{"itag": 1}"#), json(r#"{"itag": 2, "bitrate": "x"}"#), json("{}")]),
        Err(YtdlError::ParseError("bitrate".to_string()))
    );
    assert_eq!(read_formats(&vec![]), Ok(vec![]));
    assert_eq!(
        read_details(&json(r#"{"videoId":"a","author":"b","lengthSeconds":"1","title":"t"}"#)),
        Ok(VideoDetails {
            video_id: "a".to_string(),
            author: "b".to_string(),
            length_seconds: "1".to_string(),
            title: "t".to_string(),
        })
    );
    assert_eq!(
        read_details(&json(r#"{"videoId":"a","author":null,"lengthSeconds":"1"}"#)),
        Err(YtdlError::ParseError("author".to_string()))
    );
}

#[test]
fn player_request_is_worded_by_the_persona() {
    let request = client().player_request("dQw4w9WgXcQ");
    assert_eq!(request.url, "https://www.youtube.com/youtubei/v1/player");
    assert_eq!(request.url, API_YOUTUBE_URL);
    assert_eq!(request.query, vec![("prettyPrint".to_string(), "false".to_string())]);
    let expected = json(
        r#"{
        "videoId": "dQw4w9WgXcQ",
        "context": {
            "client": {
                "hl": "en",
                "gl": "US",
                "clientName": "ANDROID",
                "clientVersion": "19.01.34",
                "androidSdkVersion": 33,
                "osName": "Android",
                "osVersion": "13",
                "platform": "MOBILE",
                "deviceMake": "Google",
                "deviceModel": "Pixel 7",
                "userAgent": "com.google.android.youtube/19.01.34 (Linux; Android 13)"
            },
            "user": {"lockedSafetyMode": false},
            "request": {"useSsl": true}
        },
        "playbackContext": {"contentPlaybackContext": {"signatureTimestamp": 20438}}
    }"#,
    );
    assert_eq!(request.body, expected);

    let headers = &request.headers;
    assert_eq!(headers.len(), 7);
    assert_eq!(headers.get("User-Agent").unwrap(), "com.google.android.youtube/19.01.34 (Linux; Android 13)");
    assert_eq!(headers.get("accept").unwrap(), "*/*");
    assert_eq!(headers.get("content-type").unwrap(), "application/json");
    assert_eq!(headers.get("x-youtube-client-name").unwrap(), "3");
    assert_eq!(headers.get("x-youtube-client-version").unwrap(), "19.01.34");
    assert_eq!(headers.get("origin").unwrap(), YOUTUBE_URL);
    assert_eq!(headers.get("origin").unwrap(), "https://www.youtube.com");
    assert_eq!(headers.get("referer").unwrap(), "https://www.youtube.com/");
}

#[test]
fn platform_fields_are_sent_under_their_own_keys() {
    let block = &AndroidClient::new().build_payload("dQw4w9WgXcQ")["context"]["client"];
    assert_eq!(block["androidSdkVersion"], 33);
    assert_eq!(block["osName"], "Android");
    assert_eq!(block["osVersion"], "13");
    assert_eq!(block["platform"], "MOBILE");
    assert_eq!(block["deviceMake"], "Google");
    assert_eq!(block["deviceModel"], "Pixel 7");

    let only_make = AndroidClient::with_config(config("a", "b", r#"{"deviceMake": "Make"}"#)).unwrap();
    let block = &only_make.build_payload("v")["context"]["client"];
    assert_eq!(block["deviceMake"], "Make");
    assert_eq!(block["deviceModel"], Value::Null);
}

#[test]
fn android_persona_has_its_fixed_data() {
    let persona = AndroidClient::new();
    assert_eq!(persona.client_name(), "ANDROID");
    assert_eq!(persona.client_number(), 3);
    let config = persona.config();
    assert_eq!(config.client_name, "ANDROID");
    assert_eq!(config.client_version, "19.01.34");
    assert_eq!(config.user_agent, "com.google.android.youtube/19.01.34 (Linux; Android 13)");
    assert_eq!(config.language, "en");
    assert_eq!(config.country, "US");
    assert_eq!(
        config.extra_config,
        json(
            r#"{"androidSdkVersion": 33, "osName": "Android", "osVersion": "13", "platform": "MOBILE",
                "deviceMake": "Google", "deviceModel": "Pixel 7"}"#
        )
    );
}

fn config(user_agent: &str, version: &str, extra: &str) -> ClientConfig {
    ClientConfig {
        client_name: "ANDROID_TEST".to_string(),
        client_version: version.to_string(),
        user_agent: user_agent.to_string(),
        language: "de".to_string(),
        country: "AT".to_string(),
        extra_config: json(extra),
    }
}

#[test]
fn persona_with_other_data_words_its_requests_with_them() {
    let persona =
        AndroidClient::with_config(config("agent/2 (é)", "20.1", r#"{"osName": "X", "deviceMake": 7, "deviceModel": "M"}"#)).unwrap();
    let payload = persona.build_payload("vid");
    assert_eq!(
        payload,
        json(
            r#"{
            "videoId": "vid",
            "context": {
                "client": {
                    "hl": "de", "gl": "AT", "clientName": "ANDROID_TEST", "clientVersion": "20.1",
                    "androidSdkVersion": null, "osName": "X", "osVersion": null, "platform": null,
                    "deviceMake": 7, "deviceModel": "M", "userAgent": "agent/2 (é)"
                },
                "user": {"lockedSafetyMode": false},
                "request": {"useSsl": true}
            },
            "playbackContext": {"contentPlaybackContext": {"signatureTimestamp": 20438}}
        }"#
        )
    );
    let headers = persona.build_headers("https://example.org");
    assert_eq!(headers.get("user-agent").unwrap().as_bytes(), "agent/2 (é)".as_bytes());
    assert_eq!(headers.get("x-youtube-client-version").unwrap(), "20.1");
    assert_eq!(headers.get("origin").unwrap(), "https://example.org");
    assert_eq!(headers.len(), 7);

    let plain = AndroidClient::with_config(config("a", "b", "[1, 2]")).unwrap();
    assert_eq!(plain.build_payload("v")["context"]["client"]["osName"], Value::Null);
}

#[test]
fn persona_whose_texts_cannot_stand_in_a_header_is_refused() {
    assert!(AndroidClient::with_config(config("agent\n", "1", "{}")).is_none());
    assert!(AndroidClient::with_config(config("agent", "1\u{7f}", "{}")).is_none());
    assert!(AndroidClient::with_config(config("agent\u{0}", "1", "{}")).is_none());
    assert!(AndroidClient::with_config(config("tab\tis fine", "", "{}")).is_some());
}

#[test]
fn persona_can_be_replaced() {
    let mut c = client();
    c.set_strategy(AndroidClient::with_config(config("agent/3", "3", "{}")).unwrap());
    let request = c.player_request("x");
    assert_eq!(request.body["videoId"], "x");
    assert_eq!(request.body["context"]["client"]["clientName"], "ANDROID_TEST");
    assert_eq!(request.headers.get("user-agent").unwrap(), "agent/3");
    let other = YoutubeClient::new(AndroidClient::new());
    assert_eq!(other.player_request("y").body["context"]["client"]["clientName"], "ANDROID");
}

#[test]
fn error_messages_read_as_sentences() {
    let cases = [
        (YtdlError::Request("boom".to_string()), "HTTP request failed: boom"),
        (YtdlError::Json("eof".to_string()), "JSON parsing failed: eof"),
        (YtdlError::Io("denied".to_string()), "IO error: denied"),
        (YtdlError::VideoNotFound("abc".to_string()), "Video not found: abc"),
        (YtdlError::FormatNotAvailable(18), "Format not available: itag=18"),
        (YtdlError::FormatNotAvailable(0), "Format not available: itag=0"),
        (YtdlError::NoSuitableFormat, "No suitable format found"),
        (
            YtdlError::PlayabilityError { status: "ERROR".to_string(), reason: "gone".to_string() },
            "Playability error: ERROR - gone",
        ),
        (YtdlError::SignatureRequired, "Signature decryption required (not implemented)"),
        (YtdlError::RateLimited, "Rate limited by YouTube"),
        (YtdlError::InvalidVideoId("x".to_string()), "Invalid video ID: x"),
        (YtdlError::DownloadFailed("y".to_string()), "Download failed: y"),
        (YtdlError::ParseError("itag".to_string()), "Parse error: itag"),
    ];
    for (error, expected) in cases {
        assert_eq!(error.message(), expected);
    }
}

#[test]
fn header_text_has_no_control_character_but_the_tab() {
    for code in 0u32..=0x2000 {
        if let Some(c) = char::from_u32(code) {
            let text = format!("a{}b", c);
            let expected = reqwest::header::HeaderValue::from_str(&text).is_ok();
            assert_eq!(check_header_text(&text), expected, "code point {:#x}", code);
        }
    }
    assert!(check_header_text(""));
}

#[test]
fn video_ids_are_eleven_characters_of_the_alphabet() {
    let shape = regex_lite::Regex::new("^[a-zA-Z0-9_-]{11}$").unwrap();
    let samples = [
        "dQw4w9WgXcQ", "abcDEF_-123", "", "short", "dQw4w9WgXcQ1", "dQw4w9WgXc", "dQw4w9WgXc!",
        "dQw4w9WgXc ", "-----------", "___________", "00000000000", "dQw4w9WgXcé", "dQw4w/WgXcQ",
        "dQw4w9WgXc\n", "ＡＢＣＤＥＦＧＨＩＪＫ",
    ];
    for sample in samples {
        assert_eq!(check_video_id(sample), shape.is_match(sample), "sample {:?}", sample);
    }
    for code in 0u32..=0x250 {
        if let Some(c) = char::from_u32(code) {
            let sample = format!("dQw4w{}WgXcQ", c);
            assert_eq!(check_video_id(&sample), shape.is_match(&sample), "code point {:#x}", code);
        }
    }
}
