//! Checks a single HTTP response for a redirect offer.
//!
//! The library owns the logic of a redirection detector: given the status
//! code and the headers of one HTTP response, it decides whether the server
//! offered a redirect target, and it renders the human-readable (optionally
//! ANSI-colored) report line. Issuing the request itself is left to the
//! binary around the library, which hands the response in as plain values.

mod checker;
mod laws;
mod outcome;
mod render;
mod response;
mod text;

pub use checker::ascii_lower;
pub use checker::check_response;
pub use checker::eq_ignore_ascii_case;
pub use checker::find_location;
pub use checker::is_location_name;
pub use checker::outcome_of_attempt;
pub use checker::spec_ascii_lower;
pub use checker::spec_eq_ignore_ascii_case;
pub use checker::spec_is_location_name;
pub use checker::spec_location_name;
pub use checker::spec_location_value;
pub use checker::spec_redirect_target;
pub use laws::lemma_eq_ignore_case_substitutes;
pub use laws::lemma_lookup_case_insensitive;
pub use laws::lemma_no_redirect_outside_class;
pub use laws::lemma_no_redirect_without_location;
pub use laws::lemma_redirect_offered;
pub use outcome::Outcome;
pub use render::color_code;
pub use render::colored_line;
pub use render::colored_report;
pub use render::decimal_string;
pub use render::render_line;
pub use render::spec_color_code;
pub use render::spec_colored_line;
pub use render::spec_decimal;
pub use render::spec_digit;
pub use render::spec_render_line;
pub use response::Header;
pub use response::HttpResponse;
pub use response::is_redirection;
pub use response::spec_is_redirection;
pub use text::is_text;
pub use text::spec_decode_text;
pub use text::spec_is_text;
pub use text::spec_is_visible_ascii;
