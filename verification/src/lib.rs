//! Client library for the Warp 10 time-series platform: the line-protocol
//! encoding of data points, endpoint resolution, header attachment, request
//! construction for ingestion and script execution, and the classification of
//! HTTP replies into a typed error taxonomy.
mod client;
mod data;
mod error;
mod http_handler;
mod reader;
mod response;
mod token;
mod writer;

pub use crate::data::{
    Data, GeoValue, Label, Timestamp, Value, Warp10Serializable, i64_to_dec_string,
    lemma_idec_round_trip, lemma_join_push, lemma_udec_round_trip,
    lemma_pct_encode_bytes_invertible, lemma_value_fragment_round_trip, spec_all_ascii,
    spec_ascii_bytes, spec_char_digit_val, spec_data_eq, spec_data_line, spec_digit_char,
    spec_geo_eq, spec_geo_fragment, spec_hex_digit, spec_hex_digit_val, spec_idec,
    spec_is_alnum_byte, spec_join, spec_label_eq, spec_label_fragment, spec_labels_join,
    spec_parse_idec, spec_parse_udec, spec_pct_byte, spec_pct_decode_bytes, spec_pct_encode_byte,
    spec_pct_encode_bytes, spec_udec, spec_url_encode, spec_value_eq, spec_value_fragment,
    u64_to_dec_string, utf8_bytes_of,
};
pub use crate::client::{
    spec_exec_uri, spec_host_and_maybe_port, spec_update_uri, uri_parts, Client,
};
pub use crate::error::{spec_api_error_message, Error};
pub use crate::http_handler::{
    extract_header_err, handle_response, header_entries_of, header_slots_of,
    spec_all_ascii_bytes, spec_bytes_as_chars, spec_error_header_key, spec_extract_header_err,
    spec_handle_response, spec_lower_header_name, spec_lower_header_name_char,
    spec_no_header_entries, spec_valid_header_value, spec_valid_header_value_char, str_bytes_of,
    utf8_decoded, Warp10Request,
};
pub use crate::reader::{
    lemma_substitution_removes_marker, spec_has_token_marker, spec_plain_credential,
    spec_starts_with, spec_substitute_token, spec_token_marker, substitute_token, Reader,
};
pub use crate::response::Warp10Response;
pub use crate::token::{spec_set_headers, Token};
pub use crate::writer::{batch_body, lemma_two_point_batch, spec_batch_body, Writer};
