//! The server's configuration: where to listen, how to size the worker
//! pool, and a sparse set of engine options. Only the options that were set
//! are handed to the engine, in a fixed order; the rest keep the engine's
//! defaults.

use crate::pool::WorkerPool;
use hyper::server::Builder;
use std::time::Duration;
use vstd::prelude::*;

verus! {

/// `hyper::server::Builder`, the engine's configuration in the making. It is
/// carried through unread.
#[verifier::external_type_specification]
#[verifier::external_body]
#[verifier::reject_recursive_types(I)]
#[verifier::reject_recursive_types(E)]
pub struct ExBuilder<I, E>(Builder<I, E>);

/// The smallest HTTP/1 buffer limit that the engine takes.
pub const MIN_HTTP1_MAX_BUF_SIZE: usize = 8192;

/// Number of engine options that a server can override.
pub const OPTION_COUNT: usize = 15;

/// A socket address to listen on, as plain numbers.
#[derive(Clone, Copy, Debug, PartialEq, Eq)]
pub enum Address {
    V4 { octets: [u8; 4], port: u16 },
    V6 { segments: [u16; 8], port: u16, flowinfo: u32, scope_id: u32 },
}

/// One engine option together with the value to set it to.
#[derive(Clone, Copy, Debug, PartialEq, Eq, Structural)]
pub enum EngineOption {
    Http1Keepalive(bool),
    Http1HalfClose(bool),
    Http1MaxBufSize(usize),
    Http1PipelineFlush(bool),
    Http1Writev(bool),
    Http1TitleCaseHeaders(bool),
    Http1PreserveHeaderCase(bool),
    Http1Only(bool),
    Http2Only(bool),
    Http2InitialStreamWindowSize(u32),
    Http2InitialConnectionWindowSize(u32),
    Http2AdaptiveWindow(bool),
    Http2MaxFrameSize(u32),
    Http2MaxConcurrentStreams(u32),
    Http2MaxSendBufSize(usize),
}

impl EngineOption {
    /// Whether the engine takes the value: it refuses an HTTP/1 buffer limit
    /// under its minimum and an HTTP/2 send buffer beyond 32 bits.
    pub open spec fn acceptable(self) -> bool {
        match self {
            EngineOption::Http1MaxBufSize(v) => v >= MIN_HTTP1_MAX_BUF_SIZE,
            EngineOption::Http2MaxSendBufSize(v) => v <= u32::MAX,
            _ => true,
        }
    }

    pub fn is_acceptable(&self) -> (ok: bool)
        ensures
            ok == self.acceptable(),
    {
        match self {
            EngineOption::Http1MaxBufSize(v) => *v >= MIN_HTTP1_MAX_BUF_SIZE,
            EngineOption::Http2MaxSendBufSize(v) => *v <= u32::MAX as usize,
            _ => true,
        }
    }
}

/// `Builder::http1_keepalive`: sets whether HTTP/1 connections are kept alive and hands the builder back.
/// Nothing is claimed of the builder that comes back.
#[verifier::external_body]
fn engine_http1_keepalive<I, E>(builder: Builder<I, E>, val: bool) -> (configured: Builder<I, E>)
{
    builder.http1_keepalive(val)
}

/// `Builder::http1_half_close`: sets whether HTTP/1 connections support half-closure and hands the builder back.
/// Nothing is claimed of the builder that comes back.
#[verifier::external_body]
fn engine_http1_half_close<I, E>(builder: Builder<I, E>, val: bool) -> (configured: Builder<I, E>)
{
    builder.http1_half_close(val)
}

/// `Builder::http1_max_buf_size`: sets the maximum HTTP/1 buffer size and hands the builder back.
/// Nothing is claimed of the builder that comes back. It panics on a value under 8192, which the precondition leaves out.
#[verifier::external_body]
fn engine_http1_max_buf_size<I, E>(builder: Builder<I, E>, val: usize) -> (configured: Builder<I, E>)
    requires
        val >= MIN_HTTP1_MAX_BUF_SIZE,
{
    builder.http1_max_buf_size(val)
}

/// `Builder::http1_pipeline_flush`: sets whether HTTP/1 writes are bunched up until the read buffer is empty and hands the builder back.
/// Nothing is claimed of the builder that comes back.
#[verifier::external_body]
fn engine_http1_pipeline_flush<I, E>(builder: Builder<I, E>, val: bool) -> (configured: Builder<I, E>)
{
    builder.http1_pipeline_flush(val)
}

/// `Builder::http1_writev`: sets whether HTTP/1 connections use vectored writes and hands the builder back.
/// Nothing is claimed of the builder that comes back.
#[verifier::external_body]
fn engine_http1_writev<I, E>(builder: Builder<I, E>, val: bool) -> (configured: Builder<I, E>)
{
    builder.http1_writev(val)
}

/// `Builder::http1_title_case_headers`: sets whether HTTP/1 header names are written in title case and hands the builder back.
/// Nothing is claimed of the builder that comes back.
#[verifier::external_body]
fn engine_http1_title_case_headers<I, E>(builder: Builder<I, E>, val: bool) -> (configured: Builder<I, E>)
{
    builder.http1_title_case_headers(val)
}

/// `Builder::http1_preserve_header_case`: sets whether the case of HTTP/1 header names is preserved and hands the builder back.
/// Nothing is claimed of the builder that comes back.
#[verifier::external_body]
fn engine_http1_preserve_header_case<I, E>(builder: Builder<I, E>, val: bool) -> (configured: Builder<I, E>)
{
    builder.http1_preserve_header_case(val)
}

/// `Builder::http1_only`: sets whether HTTP/1 is required and hands the builder back.
/// Nothing is claimed of the builder that comes back.
#[verifier::external_body]
fn engine_http1_only<I, E>(builder: Builder<I, E>, val: bool) -> (configured: Builder<I, E>)
{
    builder.http1_only(val)
}

/// `Builder::http2_only`: sets whether HTTP/2 is required and hands the builder back.
/// Nothing is claimed of the builder that comes back.
#[verifier::external_body]
fn engine_http2_only<I, E>(builder: Builder<I, E>, val: bool) -> (configured: Builder<I, E>)
{
    builder.http2_only(val)
}

/// `Builder::http2_initial_stream_window_size`: sets the initial HTTP/2 stream window size and hands the builder back.
/// Nothing is claimed of the builder that comes back.
#[verifier::external_body]
fn engine_http2_initial_stream_window_size<I, E>(builder: Builder<I, E>, val: u32) -> (configured: Builder<I, E>)
{
    builder.http2_initial_stream_window_size(val)
}

/// `Builder::http2_initial_connection_window_size`: sets the initial HTTP/2 connection window size and hands the builder back.
/// Nothing is claimed of the builder that comes back.
#[verifier::external_body]
fn engine_http2_initial_connection_window_size<I, E>(builder: Builder<I, E>, val: u32) -> (configured: Builder<I, E>)
{
    builder.http2_initial_connection_window_size(val)
}

/// `Builder::http2_adaptive_window`: sets whether HTTP/2 flow control adapts its windows and hands the builder back.
/// Nothing is claimed of the builder that comes back.
#[verifier::external_body]
fn engine_http2_adaptive_window<I, E>(builder: Builder<I, E>, val: bool) -> (configured: Builder<I, E>)
{
    builder.http2_adaptive_window(val)
}

/// `Builder::http2_max_frame_size`: sets the maximum HTTP/2 frame size and hands the builder back.
/// Nothing is claimed of the builder that comes back.
#[verifier::external_body]
fn engine_http2_max_frame_size<I, E>(builder: Builder<I, E>, val: u32) -> (configured: Builder<I, E>)
{
    builder.http2_max_frame_size(val)
}

/// `Builder::http2_max_concurrent_streams`: sets the maximum number of concurrent HTTP/2 streams and hands the builder back.
/// Nothing is claimed of the builder that comes back.
#[verifier::external_body]
fn engine_http2_max_concurrent_streams<I, E>(builder: Builder<I, E>, val: u32) -> (configured: Builder<I, E>)
{
    builder.http2_max_concurrent_streams(val)
}

/// `Builder::http2_max_send_buf_size`: sets the maximum write buffer size of an HTTP/2 stream and hands the builder back.
/// Nothing is claimed of the builder that comes back. It panics on a value over `u32::MAX`, which the precondition leaves out.
#[verifier::external_body]
fn engine_http2_max_send_buf_size<I, E>(builder: Builder<I, E>, val: usize) -> (configured: Builder<I, E>)
    requires
        val <= u32::MAX,
{
    builder.http2_max_send_buf_size(val)
}

/// Hands one option to the engine: calls the setter that belongs to it, with
/// its value, on the builder given, and returns what the setter returned.
fn apply<I, E>(builder: Builder<I, E>, option: EngineOption) -> (configured: Builder<I, E>)
    requires
        option.acceptable(),
    ensures
        set_by(builder, option, configured),
{
    match option {
        EngineOption::Http1Keepalive(val) => invoke(engine_http1_keepalive::<I, E>, builder, val),
        EngineOption::Http1HalfClose(val) => invoke(engine_http1_half_close::<I, E>, builder, val),
        EngineOption::Http1MaxBufSize(val) => invoke(engine_http1_max_buf_size::<I, E>, builder, val),
        EngineOption::Http1PipelineFlush(val) => invoke(engine_http1_pipeline_flush::<I, E>, builder, val),
        EngineOption::Http1Writev(val) => invoke(engine_http1_writev::<I, E>, builder, val),
        EngineOption::Http1TitleCaseHeaders(val) => invoke(engine_http1_title_case_headers::<I, E>, builder, val),
        EngineOption::Http1PreserveHeaderCase(val) => invoke(engine_http1_preserve_header_case::<I, E>, builder, val),
        EngineOption::Http1Only(val) => invoke(engine_http1_only::<I, E>, builder, val),
        EngineOption::Http2Only(val) => invoke(engine_http2_only::<I, E>, builder, val),
        EngineOption::Http2InitialStreamWindowSize(val) => invoke(engine_http2_initial_stream_window_size::<I, E>, builder, val),
        EngineOption::Http2InitialConnectionWindowSize(val) => invoke(engine_http2_initial_connection_window_size::<I, E>, builder, val),
        EngineOption::Http2AdaptiveWindow(val) => invoke(engine_http2_adaptive_window::<I, E>, builder, val),
        EngineOption::Http2MaxFrameSize(val) => invoke(engine_http2_max_frame_size::<I, E>, builder, val),
        EngineOption::Http2MaxConcurrentStreams(val) => invoke(engine_http2_max_concurrent_streams::<I, E>, builder, val),
        EngineOption::Http2MaxSendBufSize(val) => invoke(engine_http2_max_send_buf_size::<I, E>, builder, val),
    }
}

/// Calls a setter on a builder and a value, and returns what it returned.
fn invoke<B, V, F: FnOnce(B, V) -> B>(setter: F, builder: B, val: V) -> (configured: B)
    requires
        setter.requires((builder, val)),
    ensures
        setter.ensures((builder, val), configured),
{
    setter(builder, val)
}

/// Whether `after` is a builder that the engine's setter for `option` returns
/// when it is called on `before` with the option's value.
pub closed spec fn set_by<I, E>(
    before: Builder<I, E>,
    option: EngineOption,
    after: Builder<I, E>,
) -> bool {
    match option {
        EngineOption::Http1Keepalive(val) => call_ensures(engine_http1_keepalive::<I, E>, (before, val), after),
        EngineOption::Http1HalfClose(val) => call_ensures(engine_http1_half_close::<I, E>, (before, val), after),
        EngineOption::Http1MaxBufSize(val) => call_ensures(engine_http1_max_buf_size::<I, E>, (before, val), after),
        EngineOption::Http1PipelineFlush(val) => call_ensures(engine_http1_pipeline_flush::<I, E>, (before, val), after),
        EngineOption::Http1Writev(val) => call_ensures(engine_http1_writev::<I, E>, (before, val), after),
        EngineOption::Http1TitleCaseHeaders(val) => call_ensures(engine_http1_title_case_headers::<I, E>, (before, val), after),
        EngineOption::Http1PreserveHeaderCase(val) => call_ensures(engine_http1_preserve_header_case::<I, E>, (before, val), after),
        EngineOption::Http1Only(val) => call_ensures(engine_http1_only::<I, E>, (before, val), after),
        EngineOption::Http2Only(val) => call_ensures(engine_http2_only::<I, E>, (before, val), after),
        EngineOption::Http2InitialStreamWindowSize(val) => call_ensures(engine_http2_initial_stream_window_size::<I, E>, (before, val), after),
        EngineOption::Http2InitialConnectionWindowSize(val) => call_ensures(engine_http2_initial_connection_window_size::<I, E>, (before, val), after),
        EngineOption::Http2AdaptiveWindow(val) => call_ensures(engine_http2_adaptive_window::<I, E>, (before, val), after),
        EngineOption::Http2MaxFrameSize(val) => call_ensures(engine_http2_max_frame_size::<I, E>, (before, val), after),
        EngineOption::Http2MaxConcurrentStreams(val) => call_ensures(engine_http2_max_concurrent_streams::<I, E>, (before, val), after),
        EngineOption::Http2MaxSendBufSize(val) => call_ensures(engine_http2_max_send_buf_size::<I, E>, (before, val), after),
    }
}

/// Whether `after` is reached from `before` by calling the engine's setters
/// for `options`, one on the result of the other, first to last.
pub open spec fn configured_by<I, E>(
    before: Builder<I, E>,
    options: Seq<EngineOption>,
    after: Builder<I, E>,
) -> bool
    decreases options.len(),
{
    if options.len() == 0 {
        after == before
    } else {
        exists|mid: Builder<I, E>|
            #![trigger set_by(mid, options.last(), after)]
            configured_by(before, options.drop_last(), mid) && set_by(mid, options.last(), after)
    }
}

/// A server's configuration as a mathematical value.
pub struct ServerView {
    pub addr: Option<Seq<Address>>,
    pub http1_keepalive: Option<bool>,
    pub http1_half_close: Option<bool>,
    pub http1_max_buf_size: Option<usize>,
    pub http1_pipeline_flush: Option<bool>,
    pub http1_writev: Option<bool>,
    pub http1_title_case_headers: Option<bool>,
    pub http1_preserve_header_case: Option<bool>,
    pub http1_only: Option<bool>,
    pub http2_only: Option<bool>,
    pub http2_initial_stream_window_size: Option<u32>,
    pub http2_initial_connection_window_size: Option<u32>,
    pub http2_adaptive_window: Option<bool>,
    pub http2_max_frame_size: Option<u32>,
    pub http2_max_concurrent_streams: Option<u32>,
    pub http2_max_send_buf_size: Option<usize>,
    pub worker_keep_alive: Option<Duration>,
    pub max_workers: Option<usize>,
}

impl ServerView {
    /// The configuration in which nothing is set.
    pub open spec fn unset() -> ServerView {
        ServerView {
            addr: None,
            http1_keepalive: None,
            http1_half_close: None,
            http1_max_buf_size: None,
            http1_pipeline_flush: None,
            http1_writev: None,
            http1_title_case_headers: None,
            http1_preserve_header_case: None,
            http1_only: None,
            http2_only: None,
            http2_initial_stream_window_size: None,
            http2_initial_connection_window_size: None,
            http2_adaptive_window: None,
            http2_max_frame_size: None,
            http2_max_concurrent_streams: None,
            http2_max_send_buf_size: None,
            worker_keep_alive: None,
            max_workers: None,
        }
    }

    /// The `i`-th entry of the option table: the option and its value if it
    /// was set, `None` if it was not.
    pub open spec fn slot(self, i: int) -> Option<EngineOption> {
        if i == 0 {
            match self.http1_keepalive {
                Some(v) => Some(EngineOption::Http1Keepalive(v)),
                None => None,
            }
        } else if i == 1 {
            match self.http1_half_close {
                Some(v) => Some(EngineOption::Http1HalfClose(v)),
                None => None,
            }
        } else if i == 2 {
            match self.http1_max_buf_size {
                Some(v) => Some(EngineOption::Http1MaxBufSize(v)),
                None => None,
            }
        } else if i == 3 {
            match self.http1_pipeline_flush {
                Some(v) => Some(EngineOption::Http1PipelineFlush(v)),
                None => None,
            }
        } else if i == 4 {
            match self.http1_writev {
                Some(v) => Some(EngineOption::Http1Writev(v)),
                None => None,
            }
        } else if i == 5 {
            match self.http1_title_case_headers {
                Some(v) => Some(EngineOption::Http1TitleCaseHeaders(v)),
                None => None,
            }
        } else if i == 6 {
            match self.http1_preserve_header_case {
                Some(v) => Some(EngineOption::Http1PreserveHeaderCase(v)),
                None => None,
            }
        } else if i == 7 {
            match self.http1_only {
                Some(v) => Some(EngineOption::Http1Only(v)),
                None => None,
            }
        } else if i == 8 {
            match self.http2_only {
                Some(v) => Some(EngineOption::Http2Only(v)),
                None => None,
            }
        } else if i == 9 {
            match self.http2_initial_stream_window_size {
                Some(v) => Some(EngineOption::Http2InitialStreamWindowSize(v)),
                None => None,
            }
        } else if i == 10 {
            match self.http2_initial_connection_window_size {
                Some(v) => Some(EngineOption::Http2InitialConnectionWindowSize(v)),
                None => None,
            }
        } else if i == 11 {
            match self.http2_adaptive_window {
                Some(v) => Some(EngineOption::Http2AdaptiveWindow(v)),
                None => None,
            }
        } else if i == 12 {
            match self.http2_max_frame_size {
                Some(v) => Some(EngineOption::Http2MaxFrameSize(v)),
                None => None,
            }
        } else if i == 13 {
            match self.http2_max_concurrent_streams {
                Some(v) => Some(EngineOption::Http2MaxConcurrentStreams(v)),
                None => None,
            }
        } else if i == 14 {
            match self.http2_max_send_buf_size {
                Some(v) => Some(EngineOption::Http2MaxSendBufSize(v)),
                None => None,
            }
        } else {
            None
        }
    }

    /// The options set among the first `n` entries of the table, in the
    /// table's order.
    pub open spec fn overrides_upto(self, n: int) -> Seq<EngineOption>
        decreases n,
    {
        if n <= 0 {
            Seq::empty()
        } else {
            match self.slot(n - 1) {
                Some(option) => self.overrides_upto(n - 1).push(option),
                None => self.overrides_upto(n - 1),
            }
        }
    }

    /// Every option that was set, in the table's order.
    pub open spec fn overrides(self) -> Seq<EngineOption> {
        self.overrides_upto(OPTION_COUNT as int)
    }

    /// Whether no engine option is set.
    pub open spec fn nothing_set(self) -> bool {
        forall|i: int| 0 <= i < OPTION_COUNT ==> (#[trigger] self.slot(i)).is_none()
    }

    /// Whether the engine takes every value that was set.
    pub open spec fn engine_accepts(self) -> bool {
        &&& self.http1_max_buf_size matches Some(v) ==> v >= MIN_HTTP1_MAX_BUF_SIZE
        &&& self.http2_max_send_buf_size matches Some(v) ==> v <= u32::MAX
    }
}

/// The server's configuration.
pub struct Server {
    addr: Option<Vec<Address>>,
    http1_keepalive: Option<bool>,
    http1_half_close: Option<bool>,
    http1_max_buf_size: Option<usize>,
    http1_pipeline_flush: Option<bool>,
    http1_writev: Option<bool>,
    http1_title_case_headers: Option<bool>,
    http1_preserve_header_case: Option<bool>,
    http1_only: Option<bool>,
    http2_only: Option<bool>,
    http2_initial_stream_window_size: Option<u32>,
    http2_initial_connection_window_size: Option<u32>,
    http2_adaptive_window: Option<bool>,
    http2_max_frame_size: Option<u32>,
    http2_max_concurrent_streams: Option<u32>,
    http2_max_send_buf_size: Option<usize>,
    worker_keep_alive: Option<Duration>,
    max_workers: Option<usize>,
}

impl View for Server {
    type V = ServerView;

    closed spec fn view(&self) -> ServerView {
        ServerView {
            addr: match self.addr {
                Some(list) => Some(list@),
                None => None,
            },
            http1_keepalive: self.http1_keepalive,
            http1_half_close: self.http1_half_close,
            http1_max_buf_size: self.http1_max_buf_size,
            http1_pipeline_flush: self.http1_pipeline_flush,
            http1_writev: self.http1_writev,
            http1_title_case_headers: self.http1_title_case_headers,
            http1_preserve_header_case: self.http1_preserve_header_case,
            http1_only: self.http1_only,
            http2_only: self.http2_only,
            http2_initial_stream_window_size: self.http2_initial_stream_window_size,
            http2_initial_connection_window_size: self.http2_initial_connection_window_size,
            http2_adaptive_window: self.http2_adaptive_window,
            http2_max_frame_size: self.http2_max_frame_size,
            http2_max_concurrent_streams: self.http2_max_concurrent_streams,
            http2_max_send_buf_size: self.http2_max_send_buf_size,
            worker_keep_alive: self.worker_keep_alive,
            max_workers: self.max_workers,
        }
    }
}

impl Default for Server {
    /// A configuration with no address and nothing set.
    fn default() -> (server: Server)
        ensures
            server@ == ServerView::unset(),
    {
        Server {
            addr: None,
            http1_keepalive: None,
            http1_half_close: None,
            http1_max_buf_size: None,
            http1_pipeline_flush: None,
            http1_writev: None,
            http1_title_case_headers: None,
            http1_preserve_header_case: None,
            http1_only: None,
            http2_only: None,
            http2_initial_stream_window_size: None,
            http2_initial_connection_window_size: None,
            http2_adaptive_window: None,
            http2_max_frame_size: None,
            http2_max_concurrent_streams: None,
            http2_max_send_buf_size: None,
            worker_keep_alive: None,
            max_workers: None,
        }
    }
}

impl Server {
    /// A configuration that listens on the given addresses, with nothing
    /// else set.
    pub fn bind(addr: Vec<Address>) -> (server: Server)
        ensures
            server@ == (ServerView { addr: Some(addr@), ..ServerView::unset() }),
    {
        Server {
            addr: Some(addr),
            http1_keepalive: None,
            http1_half_close: None,
            http1_max_buf_size: None,
            http1_pipeline_flush: None,
            http1_writev: None,
            http1_title_case_headers: None,
            http1_preserve_header_case: None,
            http1_only: None,
            http2_only: None,
            http2_initial_stream_window_size: None,
            http2_initial_connection_window_size: None,
            http2_adaptive_window: None,
            http2_max_frame_size: None,
            http2_max_concurrent_streams: None,
            http2_max_send_buf_size: None,
            worker_keep_alive: None,
            max_workers: None,
        }
    }

    /// The addresses to listen on, if any were given.
    pub fn addr(&self) -> (addr: &Option<Vec<Address>>)
        ensures
            match *addr {
                Some(list) => self@.addr == Some(list@),
                None => self@.addr.is_none(),
            },
    {
        &self.addr
    }

    /// Sets the maximum number of threads in the pool. Unset, the pool
    /// allows ten for each unit of detected parallelism.
    pub fn max_workers(self, val: usize) -> (server: Server)
        ensures
            server@ == (ServerView { max_workers: Some(val), ..self@ }),
    {
        Server { max_workers: Some(val), ..self }
    }

    /// Sets how long an idle thread is kept in the pool. Unset, it is kept
    /// for six seconds.
    pub fn worker_keep_alive(self, val: Duration) -> (server: Server)
        ensures
            server@ == (ServerView { worker_keep_alive: Some(val), ..self@ }),
    {
        Server { worker_keep_alive: Some(val), ..self }
    }

    /// Sets whether HTTP/1 connections are kept alive.
    pub fn http1_keepalive(self, val: bool) -> (server: Server)
        ensures
            server@ == (ServerView { http1_keepalive: Some(val), ..self@ }),
    {
        Server { http1_keepalive: Some(val), ..self }
    }

    /// Sets whether HTTP/1 connections support half-closure.
    pub fn http1_half_close(self, val: bool) -> (server: Server)
        ensures
            server@ == (ServerView { http1_half_close: Some(val), ..self@ }),
    {
        Server { http1_half_close: Some(val), ..self }
    }

    /// Sets the maximum HTTP/1 buffer size. The engine takes no value
    /// under 8192.
    pub fn http1_max_buf_size(self, val: usize) -> (server: Server)
        ensures
            server@ == (ServerView { http1_max_buf_size: Some(val), ..self@ }),
    {
        Server { http1_max_buf_size: Some(val), ..self }
    }

    /// Sets whether HTTP/1 writes are bunched up until the read buffer is empty.
    pub fn http1_pipeline_flush(self, val: bool) -> (server: Server)
        ensures
            server@ == (ServerView { http1_pipeline_flush: Some(val), ..self@ }),
    {
        Server { http1_pipeline_flush: Some(val), ..self }
    }

    /// Sets whether HTTP/1 connections use vectored writes.
    pub fn http1_writev(self, val: bool) -> (server: Server)
        ensures
            server@ == (ServerView { http1_writev: Some(val), ..self@ }),
    {
        Server { http1_writev: Some(val), ..self }
    }

    /// Sets whether HTTP/1 header names are written in title case.
    pub fn http1_title_case_headers(self, val: bool) -> (server: Server)
        ensures
            server@ == (ServerView { http1_title_case_headers: Some(val), ..self@ }),
    {
        Server { http1_title_case_headers: Some(val), ..self }
    }

    /// Sets whether the case of HTTP/1 header names is preserved.
    pub fn http1_preserve_header_case(self, val: bool) -> (server: Server)
        ensures
            server@ == (ServerView { http1_preserve_header_case: Some(val), ..self@ }),
    {
        Server { http1_preserve_header_case: Some(val), ..self }
    }

    /// Sets whether HTTP/1 is required.
    pub fn http1_only(self, val: bool) -> (server: Server)
        ensures
            server@ == (ServerView { http1_only: Some(val), ..self@ }),
    {
        Server { http1_only: Some(val), ..self }
    }

    /// Sets whether HTTP/2 is required.
    pub fn http2_only(self, val: bool) -> (server: Server)
        ensures
            server@ == (ServerView { http2_only: Some(val), ..self@ }),
    {
        Server { http2_only: Some(val), ..self }
    }

    /// Sets the initial HTTP/2 stream window size. Passing `None` leaves the engine's default.
    pub fn http2_initial_stream_window_size(self, val: Option<u32>) -> (server: Server)
        ensures
            server@ == (ServerView { http2_initial_stream_window_size: val, ..self@ }),
    {
        Server { http2_initial_stream_window_size: val, ..self }
    }

    /// Sets the initial HTTP/2 connection window size. Passing `None` leaves the engine's default.
    pub fn http2_initial_connection_window_size(self, val: Option<u32>) -> (server: Server)
        ensures
            server@ == (ServerView { http2_initial_connection_window_size: val, ..self@ }),
    {
        Server { http2_initial_connection_window_size: val, ..self }
    }

    /// Sets whether HTTP/2 flow control adapts its windows.
    pub fn http2_adaptive_window(self, val: bool) -> (server: Server)
        ensures
            server@ == (ServerView { http2_adaptive_window: Some(val), ..self@ }),
    {
        Server { http2_adaptive_window: Some(val), ..self }
    }

    /// Sets the maximum HTTP/2 frame size. Passing `None` leaves the engine's default.
    pub fn http2_max_frame_size(self, val: Option<u32>) -> (server: Server)
        ensures
            server@ == (ServerView { http2_max_frame_size: val, ..self@ }),
    {
        Server { http2_max_frame_size: val, ..self }
    }

    /// Sets the maximum number of concurrent HTTP/2 streams. Passing `None` leaves the engine's default.
    pub fn http2_max_concurrent_streams(self, val: Option<u32>) -> (server: Server)
        ensures
            server@ == (ServerView { http2_max_concurrent_streams: val, ..self@ }),
    {
        Server { http2_max_concurrent_streams: val, ..self }
    }

    /// Sets the maximum write buffer size of an HTTP/2 stream. The engine takes no
    /// value over `u32::MAX`.
    pub fn http2_max_send_buf_size(self, val: usize) -> (server: Server)
        ensures
            server@ == (ServerView { http2_max_send_buf_size: Some(val), ..self@ }),
    {
        Server { http2_max_send_buf_size: Some(val), ..self }
    }

    /// The bookkeeping of a worker pool sized as configured. `parallelism`
    /// is the detected number of processors.
    pub fn pool(&self, parallelism: usize) -> (pool: WorkerPool)
        ensures
            pool.wf(),
            pool@ == crate::pool::PoolModel::fresh(
                crate::pool::resolved_max_workers(self@.max_workers, parallelism),
                crate::pool::resolved_keep_alive(self@.worker_keep_alive),
            ),
    {
        WorkerPool::new(self.max_workers, self.worker_keep_alive, parallelism)
    }

    /// The `i`-th entry of the option table.
    pub fn slot_at(&self, i: usize) -> (entry: Option<EngineOption>)
        ensures
            entry == self@.slot(i as int),
    {
        if i == 0 {
            match self.http1_keepalive {
                Some(v) => Some(EngineOption::Http1Keepalive(v)),
                None => None,
            }
        } else if i == 1 {
            match self.http1_half_close {
                Some(v) => Some(EngineOption::Http1HalfClose(v)),
                None => None,
            }
        } else if i == 2 {
            match self.http1_max_buf_size {
                Some(v) => Some(EngineOption::Http1MaxBufSize(v)),
                None => None,
            }
        } else if i == 3 {
            match self.http1_pipeline_flush {
                Some(v) => Some(EngineOption::Http1PipelineFlush(v)),
                None => None,
            }
        } else if i == 4 {
            match self.http1_writev {
                Some(v) => Some(EngineOption::Http1Writev(v)),
                None => None,
            }
        } else if i == 5 {
            match self.http1_title_case_headers {
                Some(v) => Some(EngineOption::Http1TitleCaseHeaders(v)),
                None => None,
            }
        } else if i == 6 {
            match self.http1_preserve_header_case {
                Some(v) => Some(EngineOption::Http1PreserveHeaderCase(v)),
                None => None,
            }
        } else if i == 7 {
            match self.http1_only {
                Some(v) => Some(EngineOption::Http1Only(v)),
                None => None,
            }
        } else if i == 8 {
            match self.http2_only {
                Some(v) => Some(EngineOption::Http2Only(v)),
                None => None,
            }
        } else if i == 9 {
            match self.http2_initial_stream_window_size {
                Some(v) => Some(EngineOption::Http2InitialStreamWindowSize(v)),
                None => None,
            }
        } else if i == 10 {
            match self.http2_initial_connection_window_size {
                Some(v) => Some(EngineOption::Http2InitialConnectionWindowSize(v)),
                None => None,
            }
        } else if i == 11 {
            match self.http2_adaptive_window {
                Some(v) => Some(EngineOption::Http2AdaptiveWindow(v)),
                None => None,
            }
        } else if i == 12 {
            match self.http2_max_frame_size {
                Some(v) => Some(EngineOption::Http2MaxFrameSize(v)),
                None => None,
            }
        } else if i == 13 {
            match self.http2_max_concurrent_streams {
                Some(v) => Some(EngineOption::Http2MaxConcurrentStreams(v)),
                None => None,
            }
        } else if i == 14 {
            match self.http2_max_send_buf_size {
                Some(v) => Some(EngineOption::Http2MaxSendBufSize(v)),
                None => None,
            }
        } else {
            None
        }
    }

    /// The options that were set, each with its value, in the table's
    /// order. An option that was not set does not occur.
    pub fn overrides(&self) -> (list: Vec<EngineOption>)
        ensures
            list@ == self@.overrides(),
    {
        let mut list: Vec<EngineOption> = Vec::new();
        let mut i: usize = 0;
        while i < OPTION_COUNT
            invariant
                i <= OPTION_COUNT,
                list@ == self@.overrides_upto(i as int),
            decreases OPTION_COUNT - i,
        {
            match self.slot_at(i) {
                Some(option) => list.push(option),
                None => {},
            }
            i = i + 1;
        }
        list
    }

    /// Whether the engine takes every value that was set, so that
    /// `configure` may be called.
    pub fn engine_ready(&self) -> (ready: bool)
        ensures
            ready == self@.engine_accepts(),
    {
        let small = match self.http1_max_buf_size {
            Some(v) => v < MIN_HTTP1_MAX_BUF_SIZE,
            None => false,
        };
        let large = match self.http2_max_send_buf_size {
            Some(v) => v > u32::MAX as usize,
            None => false,
        };
        !small && !large
    }

    /// Lays the configuration over the engine's: calls the engine's setter
    /// for each option that was set, in the table's order, each on what the
    /// one before returned, and no other. With nothing set the builder comes
    /// back as it was given.
    pub fn configure<I, E>(&self, builder: Builder<I, E>) -> (configured: Builder<I, E>)
        requires
            self@.engine_accepts(),
        ensures
            configured_by(builder, self@.overrides(), configured),
            self@.nothing_set() ==> configured == builder,
    {
        let list = self.overrides();
        proof {
            lemma_overrides_come_from_slots(self@, OPTION_COUNT as int);
            law_unset_options_apply_nothing(self@);
        }
        let mut current = builder;
        let mut k: usize = 0;
        while k < list.len()
            invariant
                k <= list@.len(),
                forall|j: int| 0 <= j < list@.len() ==> (#[trigger] list@[j]).acceptable(),
                configured_by(builder, list@.take(k as int), current),
            decreases list@.len() - k,
        {
            let ghost before = current;
            current = apply(current, list[k]);
            proof {
                let upto = list@.take(k as int + 1);
                assert(upto.drop_last() =~= list@.take(k as int));
                assert(upto.last() == list@[k as int]);
                assert(upto.len() == k + 1);
                assert(configured_by(builder, upto.drop_last(), before) && set_by(
                    before,
                    upto.last(),
                    current,
                ));
                assert(configured_by(builder, upto, current));
            }
            k = k + 1;
        }
        proof {
            assert(list@.take(k as int) =~= list@);
        }
        current
    }
}

/// The options listed are exactly those that the table holds as set.
pub proof fn lemma_overrides_come_from_slots(server: ServerView, n: int)
    requires
        0 <= n <= OPTION_COUNT,
    ensures
        forall|option: EngineOption|
            server.overrides_upto(n).contains(option) <==> exists|i: int|
                0 <= i < n && #[trigger] server.slot(i) == Some(option),
        server.engine_accepts() ==> forall|j: int|
            0 <= j < server.overrides_upto(n).len() ==> (#[trigger] server.overrides_upto(
                n,
            )[j]).acceptable(),
    decreases n,
{
    if n > 0 {
        lemma_overrides_come_from_slots(server, n - 1);
        let before = server.overrides_upto(n - 1);
        let now = server.overrides_upto(n);
        assert forall|option: EngineOption| now.contains(option) <==> exists|i: int|
            0 <= i < n && #[trigger] server.slot(i) == Some(option) by {
            if now.contains(option) {
                let j = choose|j: int| 0 <= j < now.len() && now[j] == option;
                if j < before.len() {
                    assert(before[j] == option);
                    assert(before.contains(option));
                    let i = choose|i: int| 0 <= i < n - 1 && #[trigger] server.slot(i) == Some(option);
                    assert(0 <= i < n && server.slot(i) == Some(option));
                } else {
                    assert(server.slot(n - 1) == Some(option));
                }
            }
            if exists|i: int| 0 <= i < n && #[trigger] server.slot(i) == Some(option) {
                let i = choose|i: int| 0 <= i < n && #[trigger] server.slot(i) == Some(option);
                if i < n - 1 {
                    assert(before.contains(option));
                    let j = choose|j: int| 0 <= j < before.len() && before[j] == option;
                    assert(now[j] == option);
                } else {
                    assert(now[now.len() - 1] == option);
                }
            }
        }
    }
}

/// With no option set, no engine setter is called: the list of overrides is
/// empty, so the engine keeps its own defaults.
pub proof fn law_unset_options_apply_nothing(server: ServerView)
    ensures
        server.nothing_set() <==> server.overrides().len() == 0,
{
    lemma_overrides_come_from_slots(server, OPTION_COUNT as int);
    let list = server.overrides();
    if server.nothing_set() && list.len() > 0 {
        assert(list.contains(list[0]));
    }
    if !server.nothing_set() {
        let i = choose|i: int| 0 <= i < OPTION_COUNT && !(#[trigger] server.slot(i)).is_none();
        assert(server.slot(i) == Some(server.slot(i).unwrap()));
        assert(list.contains(server.slot(i).unwrap()));
    }
}

/// An option is handed to the engine exactly when it was set, with the value
/// it was set to.
pub proof fn law_overrides_hold_exactly_what_was_set(server: ServerView, option: EngineOption)
    ensures
        server.overrides().contains(option) <==> exists|i: int|
            0 <= i < OPTION_COUNT && #[trigger] server.slot(i) == Some(option),
{
    lemma_overrides_come_from_slots(server, OPTION_COUNT as int);
}

} // verus!
