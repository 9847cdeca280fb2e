//! Request dispatch and upstream URI composition for a small HTTP edge
//! server: paths under an API prefix are forwarded to one upstream, every
//! other path is served from a static directory.

mod config;
mod dispatch;
mod failure;
mod laws;
mod log;
mod path;
mod uri;

pub use config::{
    check_upstream_base, decimal_value, digit_value, is_api_prefix, is_digit, is_port_text,
    is_upstream_base, parse_port, scheme_len, ConfigError, ServerConfig, MAX_PORT,
};
pub use dispatch::{
    compose_target, dispatch, proxy_target, relay, relayed, request_target, route_of, target_uri,
    text_of, Route, RouteView,
};
pub use laws::{
    law_escaping_paths_are_never_served,
    law_other_paths_are_never_forwarded, law_parent_segments_are_never_served,
    law_prefixed_paths_are_forwarded_verbatim, law_upstream_failure_is_a_gateway_error,
    law_upstream_response_is_relayed_unchanged,
};
pub use failure::{failure_status, is_gateway_failure, Failure};
pub use log::{log_line, LogLine};
pub use path::{
    contains_parent_segment, escapes_root, has_parent_segment, lemma_escape_needs_parent_segment,
    segment_step, walk, is_parent_segment_at, is_prefix_of,
    is_separator, starts_with,
};
pub use uri::uri_accepted;
