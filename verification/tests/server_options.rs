use std::time::Duration;
use sync_serve::server::{Address, EngineOption, Server, MIN_HTTP1_MAX_BUF_SIZE, OPTION_COUNT};

fn loopback() -> Address {
    Address::V4 { octets: [127, 0, 0, 1], port: 8080 }
}

#[test]
fn nothing_set_overrides_nothing() {
    let server = Server::default();
    assert!(server.overrides().is_empty());
    assert!(server.engine_ready());
    assert!(server.addr().is_none());
    for i in 0..OPTION_COUNT {
        assert_eq!(server.slot_at(i), None);
    }
    let bound = Server::bind(vec![loopback()]);
    assert!(bound.overrides().is_empty());
}

#[test]
fn bind_keeps_the_addresses() {
    let other = Address::V6 { segments: [0, 0, 0, 0, 0, 0, 0, 1], port: 443, flowinfo: 0, scope_id: 0 };
    let server = Server::bind(vec![loopback(), other]);
    assert_eq!(server.addr(), &Some(vec![loopback(), other]));
}

#[test]
fn overrides_come_in_table_order() {
    let server = Server::bind(vec![loopback()])
        .http2_max_send_buf_size(65_536)
        .http2_only(true)
        .http1_keepalive(false)
        .http1_max_buf_size(16_384)
        .http2_max_frame_size(Some(32_768));
    assert_eq!(
        server.overrides(),
        vec![
            EngineOption::Http1Keepalive(false),
            EngineOption::Http1MaxBufSize(16_384),
            EngineOption::Http2Only(true),
            EngineOption::Http2MaxFrameSize(32_768),
            EngineOption::Http2MaxSendBufSize(65_536),
        ]
    );
    assert_eq!(server.slot_at(0), Some(EngineOption::Http1Keepalive(false)));
    assert_eq!(server.slot_at(1), None);
    assert_eq!(server.slot_at(OPTION_COUNT), None);
}

#[test]
fn every_option_has_its_entry() {
    let server = Server::default()
        .http1_keepalive(true)
        .http1_half_close(true)
        .http1_max_buf_size(8192)
        .http1_pipeline_flush(false)
        .http1_writev(true)
        .http1_title_case_headers(true)
        .http1_preserve_header_case(false)
        .http1_only(false)
        .http2_only(true)
        .http2_initial_stream_window_size(Some(1))
        .http2_initial_connection_window_size(Some(2))
        .http2_adaptive_window(true)
        .http2_max_frame_size(Some(3))
        .http2_max_concurrent_streams(Some(4))
        .http2_max_send_buf_size(5);
    assert_eq!(
        server.overrides(),
        vec![
            EngineOption::Http1Keepalive(true),
            EngineOption::Http1HalfClose(true),
            EngineOption::Http1MaxBufSize(8192),
            EngineOption::Http1PipelineFlush(false),
            EngineOption::Http1Writev(true),
            EngineOption::Http1TitleCaseHeaders(true),
            EngineOption::Http1PreserveHeaderCase(false),
            EngineOption::Http1Only(false),
            EngineOption::Http2Only(true),
            EngineOption::Http2InitialStreamWindowSize(1),
            EngineOption::Http2InitialConnectionWindowSize(2),
            EngineOption::Http2AdaptiveWindow(true),
            EngineOption::Http2MaxFrameSize(3),
            EngineOption::Http2MaxConcurrentStreams(4),
            EngineOption::Http2MaxSendBufSize(5),
        ]
    );
    assert_eq!(server.overrides().len(), OPTION_COUNT);
}

#[test]
fn later_value_replaces_earlier_and_none_unsets() {
    let server = Server::default()
        .http1_only(true)
        .http1_only(false)
        .http2_max_concurrent_streams(Some(100))
        .http2_max_concurrent_streams(None);
    assert_eq!(server.overrides(), vec![EngineOption::Http1Only(false)]);
}

#[test]
fn pool_settings_are_no_engine_options() {
    let server = Server::default().max_workers(8).worker_keep_alive(Duration::from_millis(50));
    assert!(server.overrides().is_empty());
    let pool = server.pool(4);
    assert_eq!(pool.max_workers(), 8);
    assert_eq!(pool.keep_alive_nanos(), 50_000_000);
    let pool = Server::default().pool(3);
    assert_eq!(pool.max_workers(), 30);
    assert_eq!(pool.keep_alive_nanos(), 6_000_000_000);
}

#[test]
fn engine_limits_are_checked() {
    assert!(Server::default().http1_max_buf_size(MIN_HTTP1_MAX_BUF_SIZE).engine_ready());
    assert!(!Server::default().http1_max_buf_size(MIN_HTTP1_MAX_BUF_SIZE - 1).engine_ready());
    assert!(Server::default().http2_max_send_buf_size(u32::MAX as usize).engine_ready());
    assert!(EngineOption::Http1MaxBufSize(8192).is_acceptable());
    assert!(!EngineOption::Http1MaxBufSize(8191).is_acceptable());
    assert!(EngineOption::Http2MaxSendBufSize(0).is_acceptable());
    assert!(EngineOption::Http1Only(true).is_acceptable());
    if usize::BITS > 32 {
        let beyond = (u32::MAX as usize).wrapping_add(1);
        assert!(!Server::default().http2_max_send_buf_size(beyond).engine_ready());
        assert!(!EngineOption::Http2MaxSendBufSize(beyond).is_acceptable());
    }
}

#[test]
fn unset_configuration_leaves_the_engine_as_it_was() {
    let plain = format!("{:?}", hyper::Server::builder(()));
    let configured = Server::default().max_workers(3).configure(hyper::Server::builder(()));
    assert_eq!(format!("{:?}", configured), plain);
}

#[test]
fn set_options_reach_the_engine() {
    let plain = format!("{:?}", hyper::Server::builder(()));
    let server = Server::default().http1_keepalive(false);
    assert!(server.engine_ready());
    let configured = server.configure(hyper::Server::builder(()));
    assert_ne!(format!("{:?}", configured), plain);
    let by_hand = hyper::Server::builder(()).http1_keepalive(false);
    assert_eq!(format!("{:?}", configured), format!("{:?}", by_hand));
}

#[test]
fn each_option_reaches_its_own_setter() {
    let server = Server::default()
        .http1_half_close(true)
        .http1_max_buf_size(10_000)
        .http1_only(true)
        .http2_initial_stream_window_size(Some(70_000))
        .http2_max_send_buf_size(9_000);
    let configured = server.configure(hyper::Server::builder(()));
    let by_hand = hyper::Server::builder(())
        .http1_half_close(true)
        .http1_max_buf_size(10_000)
        .http1_only(true)
        .http2_initial_stream_window_size(70_000)
        .http2_max_send_buf_size(9_000);
    assert_eq!(format!("{:?}", configured), format!("{:?}", by_hand));
}
