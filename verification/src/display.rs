//! Labels shown around the player and on the detail pages.
use vstd::prelude::*;
use crate::library::MetadataItem;
use crate::text::{
    chars_of, decimal, decimal_pad2, decimal_pad2_string, decimal_string, owned, string_of,
    to_uppercase, uppercase,
};

verus! {

broadcast use vstd::string::group_string_axioms;

/// A running time as `<h>h <m>m`, or `<m>m` under an hour (seconds dropped).
pub open spec fn spec_format_duration(ms: u64) -> Seq<char> {
    let total = ms / 1000;
    let h = total / 3600;
    let m = (total % 3600) / 60;
    if h > 0 {
        decimal(h as nat) + "h "@ + decimal(m as nat) + "m"@
    } else {
        decimal(m as nat) + "m"@
    }
}

/// A running time as `<h>h <m>m`, or `<m>m` under an hour.
pub fn format_duration(ms: u64) -> (r: String)
    ensures
        r@ == spec_format_duration(ms),
{
    let total = ms / 1000;
    let h = total / 3600;
    let m = (total % 3600) / 60;
    if h > 0 {
        let mut r = decimal_string(h);
        r.append("h ");
        let mm = decimal_string(m);
        r.append(mm.as_str());
        r.append("m");
        r
    } else {
        let mut r = decimal_string(m);
        r.append("m");
        r
    }
}

/// A track's length as `<m>:<ss>`.
pub open spec fn spec_format_track_duration(ms: u64) -> Seq<char> {
    let total = ms / 1000;
    decimal((total / 60) as nat) + ":"@ + decimal_pad2((total % 60) as nat)
}

/// A track's length as `<m>:<ss>`.
pub fn format_track_duration(ms: u64) -> (r: String)
    ensures
        r@ == spec_format_track_duration(ms),
{
    let total = ms / 1000;
    let mut r = decimal_string(total / 60);
    r.append(":");
    let ss = decimal_pad2_string(total % 60);
    r.append(ss.as_str());
    r
}

/// The text with its first character in uppercase.
pub open spec fn spec_capitalize(s: Seq<char>) -> Seq<char> {
    if s.len() == 0 {
        Seq::empty()
    } else {
        uppercase(seq![s[0]]) + s.drop_first()
    }
}

/// The text with its first character in uppercase.
pub fn capitalize(s: &str) -> (r: String)
    ensures
        r@ == spec_capitalize(s@),
{
    let cs = chars_of(s);
    if cs.len() == 0 {
        return String::new();
    }
    let first = string_of(&cs[0..1]);
    assert(cs@.subrange(0, 1) == seq![s@[0]]);
    let mut r = to_uppercase(first.as_str());
    let rest = string_of(&cs[1..cs.len()]);
    assert(cs@.subrange(1, cs@.len() as int) == s@.drop_first());
    r.append(rest.as_str());
    r
}

/// The text cut to `max_chars` characters, with `...` when it was longer.
pub open spec fn spec_truncate_text(text: Seq<char>, max_chars: usize) -> Seq<char> {
    if text.len() <= max_chars {
        text
    } else {
        text.take(max_chars as int) + "..."@
    }
}

/// The text cut to `max_chars` characters, with `...` when it was longer.
pub fn truncate_text(text: &str, max_chars: usize) -> (r: String)
    ensures
        r@ == spec_truncate_text(text@, max_chars),
{
    let cs = chars_of(text);
    if cs.len() <= max_chars {
        return owned(text);
    }
    let mut r = string_of(&cs[0..max_chars]);
    r.append("...");
    r
}

/// The label of a track in the track menus: the language in capitals and
/// the title, either alone, or `Track <n>` counting from one.
pub open spec fn spec_track_label(index: i32, language: Option<Seq<char>>, title: Option<Seq<char>>) -> Seq<char> {
    match (language, title) {
        (Some(l), Some(t)) => uppercase(l) + " \u{2014} "@ + t,
        (Some(l), None) => uppercase(l),
        (None, Some(t)) => t,
        (None, None) => "Track "@ + (if index + 1 < 0 { "-"@ + decimal((-(index + 1)) as nat) } else { decimal((index + 1) as nat) }),
    }
}

fn int_string(n: i64) -> (r: String)
    requires
        n > i64::MIN,
    ensures
        r@ == if n < 0 { "-"@ + decimal((-n) as nat) } else { decimal(n as nat) },
{
    if n < 0 {
        let mut r = owned("-");
        let d = decimal_string((0 - n) as u64);
        r.append(d.as_str());
        r
    } else {
        decimal_string(n as u64)
    }
}

/// The label of a track in the track menus.
pub fn track_label(index: i32, language: Option<&str>, title: Option<&str>) -> (r: String)
    ensures
        r@ == spec_track_label(
            index,
            match language { Some(l) => Some(l@), None => None },
            match title { Some(t) => Some(t@), None => None },
        ),
{
    match (language, title) {
        (Some(lang), Some(t)) => {
            let mut r = to_uppercase(lang);
            r.append(" \u{2014} ");
            r.append(t);
            r
        },
        (Some(lang), None) => to_uppercase(lang),
        (None, Some(t)) => owned(t),
        (None, None) => {
            let mut r = owned("Track ");
            let n = int_string(index as i64 + 1);
            r.append(n.as_str());
            r
        },
    }
}

/// The label of an audio track: as a track label, with the codec in
/// brackets when neither language nor title is known.
pub open spec fn spec_audio_track_label(index: i32, language: Option<Seq<char>>, title: Option<Seq<char>>, codec: Option<Seq<char>>) -> Seq<char> {
    let base = spec_track_label(index, language, title);
    match codec {
        Some(c) => if language is None && title is None {
            base + " ("@ + c + ")"@
        } else {
            base
        },
        None => base,
    }
}

/// The label of an audio track.
pub fn audio_track_label(index: i32, language: Option<&str>, title: Option<&str>, codec: Option<&str>) -> (r: String)
    ensures
        r@ == spec_audio_track_label(
            index,
            match language { Some(l) => Some(l@), None => None },
            match title { Some(t) => Some(t@), None => None },
            match codec { Some(c) => Some(c@), None => None },
        ),
{
    let mut base = track_label(index, language, title);
    match codec {
        Some(c) => {
            if language.is_none() && title.is_none() {
                base.append(" (");
                base.append(c);
                base.append(")");
            }
            base
        },
        None => base,
    }
}

/// The line under a track in the mini player: `<artist> - <album>`, or the
/// one that is known and not empty, or nothing.
pub open spec fn spec_track_subtitle(item: MetadataItem) -> Option<Seq<char>> {
    let artist = match item.grandparent_title { Some(a) => a@, None => Seq::empty() };
    let album = match item.parent_title { Some(a) => a@, None => Seq::empty() };
    if artist.len() > 0 && album.len() > 0 {
        Some(artist + " - "@ + album)
    } else if artist.len() > 0 {
        Some(artist)
    } else if album.len() > 0 {
        Some(album)
    } else {
        None
    }
}

/// The line under a track in the mini player.
pub fn track_subtitle(item: &MetadataItem) -> (r: Option<String>)
    ensures
        match spec_track_subtitle(*item) {
            Some(s) => r matches Some(x) && x@ == s,
            None => r is None,
        },
{
    let artist = match &item.grandparent_title { Some(a) => a.as_str(), None => "" };
    let album = match &item.parent_title { Some(a) => a.as_str(), None => "" };
    proof {
        reveal_strlit("");
    }
    let artist_empty = artist.unicode_len() == 0;
    let album_empty = album.unicode_len() == 0;
    if !artist_empty && !album_empty {
        let mut r = owned(artist);
        r.append(" - ");
        r.append(album);
        Some(r)
    } else if !artist_empty {
        Some(owned(artist))
    } else if !album_empty {
        Some(owned(album))
    } else {
        None
    }
}

/// The lowercase hexadecimal digit of `d < 16`.
pub open spec fn hex_lower_digit(d: nat) -> char {
    if d < 10 { ((48 + d) as u8) as char } else { ((87 + d) as u8) as char }
}

/// Bytes as lowercase hexadecimal, two digits each.
pub open spec fn spec_hex_lower(bytes: Seq<u8>) -> Seq<char>
    decreases bytes.len(),
{
    if bytes.len() == 0 {
        Seq::empty()
    } else {
        spec_hex_lower(bytes.drop_last()) + seq![hex_lower_digit((bytes.last() / 16) as nat), hex_lower_digit((bytes.last() % 16) as nat)]
    }
}

fn hex_digit_exec(d: u8) -> (c: char)
    requires
        d < 16,
    ensures
        c == hex_lower_digit(d as nat),
{
    if d < 10 { (48 + d) as char } else { (87 + d) as char }
}

/// Bytes as lowercase hexadecimal, two digits each (a session id is 16
/// random bytes written this way).
pub fn hex_lower(bytes: &[u8]) -> (r: String)
    ensures
        r@ == spec_hex_lower(bytes@),
{
    let mut r = String::new();
    let mut i: usize = 0;
    while i < bytes.len()
        invariant
            i <= bytes.len(),
            r@ == spec_hex_lower(bytes@.take(i as int)),
        decreases bytes.len() - i,
    {
        assert(bytes@.take(i + 1).drop_last() == bytes@.take(i as int));
        let b = bytes[i];
        crate::text::push_char(&mut r, hex_digit_exec(b / 16));
        crate::text::push_char(&mut r, hex_digit_exec(b % 16));
        i += 1;
    }
    assert(bytes@.take(bytes.len() as int) == bytes@);
    r
}

} // verus!
