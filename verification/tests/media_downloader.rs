use audyo::downloader::error::YtdlError;
use audyo::downloader::media_downloader::{
    Download, DownloadAction, DownloadBuilder, DownloadEvent, DownloadPhase, Downloader,
    DownloaderConfig, DEFAULT_USER_AGENT,
};
use audyo::downloader::response::StreamFormat;

fn format_at(url: Option<&str>) -> StreamFormat {
    StreamFormat {
        itag: 140,
        url: url.map(|u| u.to_string()),
        approx_duration_ms: None,
        audio_channels: None,
        audio_quality: None,
        audio_sample_rate: None,
        average_bitrate: None,
        bitrate: None,
        mime_type: None,
        quality: None,
    }
}

fn started() -> Download {
    let (download, action) = Downloader::new().download(&format_at(Some("https://cdn/a")), "out/a.m4a");
    match action {
        DownloadAction::EnsureParentDirectory { destination } => assert_eq!(destination, "out/a.m4a"),
        other => panic!("unexpected action {:?}", other),
    }
    download
}

fn finished_with(action: DownloadAction) -> Result<String, YtdlError> {
    match action {
        DownloadAction::Finish(outcome) => outcome,
        other => panic!("unexpected action {:?}", other),
    }
}

#[test]
fn default_policy_has_its_fixed_values() {
    let config = DownloaderConfig::default();
    assert_eq!(config.chunked_size, 1024);
    assert_eq!(config.user_agent, "Mozilla/5.0 (Windows NT 10.0; Win64; x64) AppleWebKit/537.36");
    assert_eq!(config.max_retries, 3);
    let downloader = Downloader::new();
    assert_eq!(downloader.config().chunked_size, 1024);
    assert_eq!(downloader.config().user_agent, DEFAULT_USER_AGENT);
    assert_eq!(downloader.config().max_retries, 3);
}

#[test]
fn builder_sets_one_value_at_a_time() {
    let config = DownloadBuilder::new().config();
    assert_eq!((config.chunked_size, config.user_agent.as_str(), config.max_retries), (1024, DEFAULT_USER_AGENT, 3));
    let config = DownloadBuilder::new().chunk_size(4096).config();
    assert_eq!((config.chunked_size, config.user_agent.as_str(), config.max_retries), (4096, DEFAULT_USER_AGENT, 3));
    let config = DownloadBuilder::new().max_retries(9).config();
    assert_eq!((config.chunked_size, config.user_agent.as_str(), config.max_retries), (1024, DEFAULT_USER_AGENT, 9));
    let config = DownloadBuilder::new().user_agent("agent/1".to_string()).chunk_size(1).max_retries(0).config();
    assert_eq!((config.chunked_size, config.user_agent.as_str(), config.max_retries), (1, "agent/1", 0));
}

#[test]
fn format_without_url_is_not_available_and_nothing_is_created() {
    let (mut download, action) = Downloader::new().download(&format_at(None), "out/a.m4a");
    assert_eq!(finished_with(action), Err(YtdlError::FormatNotAvailable(18)));
    assert_eq!(download.phase(), DownloadPhase::Finished);
    for event in [
        DownloadEvent::Completed,
        DownloadEvent::Answered(200),
        DownloadEvent::ChunkReceived(vec![1]),
        DownloadEvent::StreamEnded,
    ] {
        match download.step(event) {
            DownloadAction::Finish(Err(YtdlError::DownloadFailed(_))) => {}
            other => panic!("unexpected action {:?}", other),
        }
        assert_eq!(download.phase(), DownloadPhase::Finished);
    }
}

#[test]
fn download_goes_through_its_steps_in_order() {
    let mut download = started();
    assert_eq!(download.phase(), DownloadPhase::PreparingDirectory);
    assert_eq!(download.destination(), "out/a.m4a");

    match download.step(DownloadEvent::Completed) {
        DownloadAction::SendRequest { url, headers } => {
            assert_eq!(url, "https://cdn/a");
            assert_eq!(headers.len(), 2);
            assert_eq!(
                headers.get("user-agent").unwrap(),
                "Mozilla/5.0 (Windows NT 10.0; Win64; x64) AppleWebKit/537.36"
            );
            assert_eq!(headers.get("referer").unwrap(), "https://www.youtube.com");
        }
        other => panic!("unexpected action {:?}", other),
    }
    assert_eq!(download.phase(), DownloadPhase::AwaitingResponse);

    match download.step(DownloadEvent::Answered(200)) {
        DownloadAction::CreateFile { destination } => assert_eq!(destination, "out/a.m4a"),
        other => panic!("unexpected action {:?}", other),
    }
    assert_eq!(download.phase(), DownloadPhase::CreatingFile);

    assert!(matches!(download.step(DownloadEvent::Completed), DownloadAction::ReceiveChunk));
    assert_eq!(download.phase(), DownloadPhase::Receiving);
    for chunk in [vec![1u8, 2, 3], vec![], vec![0xff]] {
        match download.step(DownloadEvent::ChunkReceived(chunk.clone())) {
            DownloadAction::WriteChunk(bytes) => assert_eq!(bytes, chunk),
            other => panic!("unexpected action {:?}", other),
        }
        assert_eq!(download.phase(), DownloadPhase::Writing);
        assert!(matches!(download.step(DownloadEvent::Completed), DownloadAction::ReceiveChunk));
        assert_eq!(download.phase(), DownloadPhase::Receiving);
    }
    assert!(matches!(download.step(DownloadEvent::StreamEnded), DownloadAction::Flush));
    assert_eq!(download.phase(), DownloadPhase::Flushing);
    assert_eq!(finished_with(download.step(DownloadEvent::Completed)), Ok("out/a.m4a".to_string()));
    assert_eq!(download.phase(), DownloadPhase::Finished);
}

#[test]
fn status_outside_success_fails_before_the_file_is_created() {
    for (status, text) in [(404u16, "404"), (500, "500"), (302, "302"), (199, "199")] {
        let mut download = started();
        download.step(DownloadEvent::Completed);
        assert_eq!(
            finished_with(download.step(DownloadEvent::Answered(status))),
            Err(YtdlError::Request(format!("unexpected HTTP status {}", text)))
        );
        assert_eq!(download.phase(), DownloadPhase::Finished);
    }
}

#[test]
fn reported_failures_end_the_download_in_every_phase() {
    let paths: [&[DownloadEvent]; 6] = [
        &[],
        &[DownloadEvent::Completed],
        &[DownloadEvent::Completed, DownloadEvent::Answered(200)],
        &[DownloadEvent::Completed, DownloadEvent::Answered(200), DownloadEvent::Completed],
        &[
            DownloadEvent::Completed,
            DownloadEvent::Answered(200),
            DownloadEvent::Completed,
            DownloadEvent::ChunkReceived(vec![7, 8]),
        ],
        &[
            DownloadEvent::Completed,
            DownloadEvent::Answered(200),
            DownloadEvent::Completed,
            DownloadEvent::StreamEnded,
        ],
    ];
    for path in paths {
        for io in [true, false] {
            let mut download = started();
            for event in path {
                let replay = match event {
                    DownloadEvent::Completed => DownloadEvent::Completed,
                    DownloadEvent::Answered(s) => DownloadEvent::Answered(*s),
                    DownloadEvent::ChunkReceived(chunk) => DownloadEvent::ChunkReceived(chunk.clone()),
                    DownloadEvent::StreamEnded => DownloadEvent::StreamEnded,
                    _ => unreachable!(),
                };
                download.step(replay);
            }
            let (event, expected) = if io {
                (DownloadEvent::IoFailed("disk full".to_string()), YtdlError::Io("disk full".to_string()))
            } else {
                (DownloadEvent::TransportFailed("reset".to_string()), YtdlError::Request("reset".to_string()))
            };
            assert_eq!(finished_with(download.step(event)), Err(expected));
            assert_eq!(download.phase(), DownloadPhase::Finished);
        }
    }
}

#[test]
fn report_out_of_turn_ends_the_download() {
    let mut download = started();
    assert_eq!(
        finished_with(download.step(DownloadEvent::Answered(200))),
        Err(YtdlError::DownloadFailed("report does not fit the step that was asked for".to_string()))
    );
    assert_eq!(download.phase(), DownloadPhase::Finished);

    let mut download = started();
    download.step(DownloadEvent::Completed);
    assert!(matches!(
        download.step(DownloadEvent::ChunkReceived(vec![1])),
        DownloadAction::Finish(Err(YtdlError::DownloadFailed(_)))
    ));
}

#[test]
fn downloader_with_another_policy_sends_its_user_agent() {
    let config = DownloadBuilder::new().user_agent("agent/1".to_string()).config();
    let downloader = Downloader::with_config(config).unwrap();
    assert_eq!(downloader.config().user_agent, "agent/1");
    let (mut download, _) = downloader.download(&format_at(Some("https://cdn/a")), "a.m4a");
    match download.step(DownloadEvent::Completed) {
        DownloadAction::SendRequest { headers, .. } => {
            assert_eq!(headers.get("user-agent").unwrap(), "agent/1");
        }
        other => panic!("unexpected action {:?}", other),
    }
    let broken = DownloadBuilder::new().user_agent("agent\r\n".to_string()).config();
    assert!(Downloader::with_config(broken).is_none());
}
