//! Display helpers that need no display: image responses, clock times, and
//! the sizes of the cards.
use vstd::prelude::*;
use crate::text::{decimal, decimal_pad2, decimal_pad2_string, decimal_string, spec_starts_with, starts_with_str};

verus! {

broadcast use vstd::string::group_string_axioms;

/// Whether a `Content-Type` value is an image type.
pub fn is_image_content_type(content_type: &str) -> (b: bool)
    ensures
        b == spec_starts_with(content_type@, "image/"@),
{
    starts_with_str(content_type, "image/")
}

/// A duration in whole seconds as `H:MM:SS`, or `M:SS` under an hour.
pub open spec fn spec_format_time(total: u64) -> Seq<char> {
    let h = total / 3600;
    let m = (total % 3600) / 60;
    let s = total % 60;
    if h > 0 {
        decimal(h as nat) + ":"@ + decimal_pad2(m as nat) + ":"@ + decimal_pad2(s as nat)
    } else {
        decimal(m as nat) + ":"@ + decimal_pad2(s as nat)
    }
}

/// A duration in whole seconds as `H:MM:SS`, or `M:SS` under an hour.
pub fn format_time_secs(total: u64) -> (r: String)
    ensures
        r@ == spec_format_time(total),
{
    let h = total / 3600;
    let m = (total % 3600) / 60;
    let s = total % 60;
    if h > 0 {
        let mut r = decimal_string(h);
        r.append(":");
        let mm = decimal_pad2_string(m);
        r.append(mm.as_str());
        r.append(":");
        let ss = decimal_pad2_string(s);
        r.append(ss.as_str());
        r
    } else {
        let mut r = decimal_string(m);
        r.append(":");
        let ss = decimal_pad2_string(s);
        r.append(ss.as_str());
        r
    }
}

/// The width of a poster card.
pub const CARD_WIDTH: i32 = 180;

/// The height of a poster card (2:3 to its width).
pub const POSTER_HEIGHT: i32 = 270;

/// The side of a square card.
pub const SQUARE_CARD_SIZE: i32 = 180;

/// The width of a landscape card.
pub const LANDSCAPE_CARD_WIDTH: i32 = 240;

/// The height of a landscape card (16:9 to its width).
pub const LANDSCAPE_CARD_HEIGHT: i32 = 135;

/// How far beyond the visible area, in pixels, images are loaded ahead.
pub const VIEWPORT_MARGIN: i32 = 400;

/// The shape of a card.
#[derive(Debug, Clone, Copy, PartialEq, Eq, Structural)]
pub enum MediaCardStyle {
    Poster,
    Square,
    Landscape,
}

/// The width and height of a card of a style.
pub open spec fn spec_card_dimensions(style: MediaCardStyle) -> (i32, i32) {
    match style {
        MediaCardStyle::Poster => (CARD_WIDTH, POSTER_HEIGHT),
        MediaCardStyle::Square => (SQUARE_CARD_SIZE, SQUARE_CARD_SIZE),
        MediaCardStyle::Landscape => (LANDSCAPE_CARD_WIDTH, LANDSCAPE_CARD_HEIGHT),
    }
}

impl MediaCardStyle {
    /// The width and height of a card of this style.
    pub fn dimensions(self) -> (r: (i32, i32))
        ensures
            r == spec_card_dimensions(self),
    {
        match self {
            MediaCardStyle::Poster => (CARD_WIDTH, POSTER_HEIGHT),
            MediaCardStyle::Square => (SQUARE_CARD_SIZE, SQUARE_CARD_SIZE),
            MediaCardStyle::Landscape => (LANDSCAPE_CARD_WIDTH, LANDSCAPE_CARD_HEIGHT),
        }
    }
}

/// A downloaded thumbnail is shown only from a successful response that
/// says it is an image and has a body.
pub fn thumbnail_accepted(status_success: bool, content_type: &str, body_len: usize) -> (b: bool)
    ensures
        b == (status_success && spec_starts_with(content_type@, "image/"@) && body_len > 0),
{
    status_success && is_image_content_type(content_type) && body_len > 0
}

/// Posters are two wide for three high, and landscape cards sixteen wide
/// for nine high.
pub proof fn law_card_proportions()
    ensures
        CARD_WIDTH * 3 == POSTER_HEIGHT * 2,
        LANDSCAPE_CARD_WIDTH * 9 == LANDSCAPE_CARD_HEIGHT * 16,
        SQUARE_CARD_SIZE == CARD_WIDTH,
{
}

} // verus!
