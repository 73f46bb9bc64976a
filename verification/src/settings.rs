//! The settings page as values: which entry of each list is selected for a
//! setting and which setting an entry selects, how the language entries
//! are read and written, and the rows of the server list.
use vstd::prelude::*;
use crate::config::{preset_kbps, AppConfig, MismatchAction, StreamQuality, SubtitleAutoEnable, PRESET_COUNT};
use crate::instance::{is_white_space, spec_trim, trim};
use crate::query::{free_of_from, lemma_find_char_concat, lemma_find_char_none, lemma_find_from_in_bounds, split_char, split_on};
use crate::text::{find_from, join, occurs_at, owned, seq_join, str_eq, views};

verus! {

broadcast use vstd::string::group_string_axioms;

/// The entry of the quality list for a setting: `Original` first, then the
/// presets, highest first; a bitrate that is no preset shows as `Original`.
pub open spec fn spec_quality_index(q: StreamQuality) -> u32 {
    match q {
        StreamQuality::Original => 0,
        StreamQuality::Maximum(k) => if k == preset_kbps(0) {
            1
        } else if k == preset_kbps(1) {
            2
        } else if k == preset_kbps(2) {
            3
        } else if k == preset_kbps(3) {
            4
        } else if k == preset_kbps(4) {
            5
        } else {
            0
        },
    }
}

/// The entry of the quality list for a setting.
pub fn quality_index(q: StreamQuality) -> (r: u32)
    ensures
        r == spec_quality_index(q),
{
    match q {
        StreamQuality::Original => 0,
        StreamQuality::Maximum(k) => {
            let presets = StreamQuality::presets();
            let mut i: usize = 0;
            while i < presets.len()
                invariant
                    q == StreamQuality::Maximum(k),
                    presets@.len() == 5,
                    forall|j: int| 0 <= j < 5 ==> #[trigger] presets@[j].0 == preset_kbps(j),
                    i <= 5,
                    forall|j: int| 0 <= j < i ==> k != #[trigger] preset_kbps(j),
                decreases presets.len() - i,
            {
                if presets[i].0 == k {
                    proof {
                        assert(k == preset_kbps(i as int));
                        assert(i == 0 || i == 1 || i == 2 || i == 3 || i == 4);
                        if i >= 1 { assert(k != preset_kbps(0)); }
                        if i >= 2 { assert(k != preset_kbps(1)); }
                        if i >= 3 { assert(k != preset_kbps(2)); }
                        if i >= 4 { assert(k != preset_kbps(3)); }
                        if i == 0 {
                            assert(spec_quality_index(q) == 1);
                        } else if i == 1 {
                            assert(spec_quality_index(q) == 2);
                        } else if i == 2 {
                            assert(spec_quality_index(q) == 3);
                        } else if i == 3 {
                            assert(spec_quality_index(q) == 4);
                        } else {
                            assert(spec_quality_index(q) == 5);
                        }
                    }
                    return (i + 1) as u32;
                }
                i += 1;
            }
            proof {
                assert(k != preset_kbps(0) && k != preset_kbps(1) && k != preset_kbps(2));
                assert(k != preset_kbps(3) && k != preset_kbps(4));
            }
            0
        },
    }
}

/// The setting an entry of the quality list selects.
pub open spec fn spec_quality_from_index(idx: u32) -> StreamQuality {
    if idx == 0 {
        StreamQuality::Original
    } else {
        StreamQuality::Maximum(preset_kbps(idx - 1))
    }
}

/// The setting an entry of the quality list selects; the list has one
/// entry more than there are presets.
pub fn quality_from_index(idx: u32) -> (r: StreamQuality)
    requires
        idx <= PRESET_COUNT,
    ensures
        r == spec_quality_from_index(idx),
{
    if idx == 0 {
        StreamQuality::Original
    } else {
        let presets = StreamQuality::presets();
        StreamQuality::Maximum(presets[(idx - 1) as usize].0)
    }
}

/// Selecting an entry of the quality list and opening the page again shows
/// the same entry; a setting that is `Original` or a preset comes back from
/// its entry unchanged.
pub proof fn law_quality_entry_roundtrip(idx: u32, q: StreamQuality)
    requires
        idx <= PRESET_COUNT,
    ensures
        spec_quality_index(spec_quality_from_index(idx)) == idx,
        spec_quality_index(q) != 0 || q == StreamQuality::Original
            ==> spec_quality_from_index(spec_quality_index(q)) == q,
{
}

/// The entry of the mismatch list: warn, pause, ignore.
pub open spec fn spec_mismatch_index(a: MismatchAction) -> u32 {
    match a {
        MismatchAction::WarnDialog => 0,
        MismatchAction::Pause => 1,
        MismatchAction::Ignore => 2,
    }
}

/// The entry of the mismatch list for a setting.
pub fn mismatch_index(a: MismatchAction) -> (r: u32)
    ensures
        r == spec_mismatch_index(a),
{
    match a {
        MismatchAction::WarnDialog => 0,
        MismatchAction::Pause => 1,
        MismatchAction::Ignore => 2,
    }
}

/// The setting an entry of the mismatch list selects (any later entry ignores).
pub open spec fn spec_mismatch_from_index(idx: u32) -> MismatchAction {
    if idx == 0 {
        MismatchAction::WarnDialog
    } else if idx == 1 {
        MismatchAction::Pause
    } else {
        MismatchAction::Ignore
    }
}

/// The setting an entry of the mismatch list selects.
pub fn mismatch_from_index(idx: u32) -> (r: MismatchAction)
    ensures
        r == spec_mismatch_from_index(idx),
{
    if idx == 0 {
        MismatchAction::WarnDialog
    } else if idx == 1 {
        MismatchAction::Pause
    } else {
        MismatchAction::Ignore
    }
}

/// The entry of the subtitle list: always, on mismatch, never.
pub open spec fn spec_auto_enable_index(a: SubtitleAutoEnable) -> u32 {
    match a {
        SubtitleAutoEnable::Always => 0,
        SubtitleAutoEnable::OnMismatch => 1,
        SubtitleAutoEnable::Never => 2,
    }
}

/// The entry of the subtitle list for a setting.
pub fn auto_enable_index(a: SubtitleAutoEnable) -> (r: u32)
    ensures
        r == spec_auto_enable_index(a),
{
    match a {
        SubtitleAutoEnable::Always => 0,
        SubtitleAutoEnable::OnMismatch => 1,
        SubtitleAutoEnable::Never => 2,
    }
}

/// The setting an entry of the subtitle list selects (any later entry is never).
pub open spec fn spec_auto_enable_from_index(idx: u32) -> SubtitleAutoEnable {
    if idx == 0 {
        SubtitleAutoEnable::Always
    } else if idx == 1 {
        SubtitleAutoEnable::OnMismatch
    } else {
        SubtitleAutoEnable::Never
    }
}

/// The setting an entry of the subtitle list selects.
pub fn auto_enable_from_index(idx: u32) -> (r: SubtitleAutoEnable)
    ensures
        r == spec_auto_enable_from_index(idx),
{
    if idx == 0 {
        SubtitleAutoEnable::Always
    } else if idx == 1 {
        SubtitleAutoEnable::OnMismatch
    } else {
        SubtitleAutoEnable::Never
    }
}

/// Each setting of the two lists is shown at the entry that selects it.
pub proof fn law_choice_entries_roundtrip(a: MismatchAction, b: SubtitleAutoEnable)
    ensures
        spec_mismatch_from_index(spec_mismatch_index(a)) == a,
        spec_auto_enable_from_index(spec_auto_enable_index(b)) == b,
{
}

/// The codec entry's text as a setting: none when empty.
pub open spec fn spec_codec_setting(text: Seq<char>) -> Option<Seq<char>> {
    if text.len() == 0 {
        None
    } else {
        Some(text)
    }
}

/// The codec entry's text as a setting.
pub fn codec_setting(text: &str) -> (r: Option<String>)
    ensures
        match spec_codec_setting(text@) {
            Some(t) => r matches Some(x) && x@ == t,
            None => r is None,
        },
{
    if text.unicode_len() == 0 {
        None
    } else {
        Some(owned(text))
    }
}

/// Whether a piece of text is not empty.
pub open spec fn non_empty() -> spec_fn(Seq<char>) -> bool {
    |p: Seq<char>| p.len() > 0
}

/// The pieces of text, each without surrounding white space.
pub open spec fn trimmed(pieces: Seq<Seq<char>>) -> Seq<Seq<char>> {
    pieces.map_values(|p: Seq<char>| spec_trim(p))
}

/// The languages written in an entry: the comma-separated pieces, trimmed,
/// empty ones dropped.
pub open spec fn spec_language_list(text: Seq<char>) -> Seq<Seq<char>> {
    trimmed(split_on(text, ',')).filter(non_empty())
}

/// The languages written in an entry.
pub fn language_list(text: &str) -> (r: Vec<String>)
    ensures
        views(r@) == spec_language_list(text@),
{
    let pieces = split_char(text, ',');
    let ghost all = trimmed(views(pieces@));
    let mut out: Vec<String> = Vec::new();
    let mut i: usize = 0;
    proof {
        reveal(Seq::filter);
        assert(all.take(0) == Seq::<Seq<char>>::empty());
    }
    while i < pieces.len()
        invariant
            all == trimmed(views(pieces@)),
            i <= pieces.len(),
            views(out@) == all.take(i as int).filter(non_empty()),
        decreases pieces.len() - i,
    {
        let t = trim(pieces[i].as_str());
        let ghost before = views(out@);
        proof {
            assert(all[i as int] == t@);
            assert(all.take(i + 1).drop_last() == all.take(i as int));
            assert(all.take(i + 1).last() == t@);
            reveal(Seq::filter);
        }
        if t.unicode_len() > 0 {
            out.push(t);
            assert(views(out@) == before.push(out@.last()@));
        }
        i += 1;
    }
    assert(all.take(pieces.len() as int) == all);
    out
}

/// The text of a language entry: the languages joined by `, `.
pub fn language_list_text(langs: &Vec<String>) -> (r: String)
    ensures
        r@ == seq_join(views(langs@), ", "@),
{
    join(langs, ", ")
}

proof fn lemma_split_concat(a: Seq<char>, b: Seq<char>, c: char)
    ensures
        split_on(a + seq![c] + b, c) == split_on(a, c) + split_on(b, c),
    decreases a.len(),
{
    let s = a + seq![c] + b;
    assert(s == a + (seq![c] + b));
    lemma_find_char_concat(a, seq![c] + b, c, 0);
    lemma_find_from_in_bounds(a, seq![c], 0);
    match find_from(a, seq![c], 0) {
        Some(i) => {
            assert(s.take(i) == a.take(i));
            assert(s.skip(i + 1) == a.skip(i + 1) + seq![c] + b);
            lemma_split_concat(a.skip(i + 1), b, c);
        },
        None => {
            let n = a.len() as int;
            assert(s.subrange(n, n + 1) == seq![c]);
            assert(occurs_at(s, seq![c], n));
            assert(s.take(n) == a);
            assert(s.skip(n + 1) == b);
        },
    }
}

/// The pieces a joined list splits into: the first entry, then each later
/// one behind the space of the separator.
pub open spec fn joined_pieces(langs: Seq<Seq<char>>) -> Seq<Seq<char>> {
    Seq::new(langs.len(), |i: int| if i == 0 { langs[0] } else { " "@ + langs[i] })
}

/// An entry the language list reads back as itself: not empty, no white
/// space around it, no comma in it.
pub open spec fn plain_language(l: Seq<char>) -> bool {
    l.len() > 0 && spec_trim(l) == l && free_of_from(l, ',', 0)
}

proof fn lemma_split_joined(langs: Seq<Seq<char>>)
    requires
        langs.len() > 0,
        forall|i: int| 0 <= i < langs.len() ==> #[trigger] plain_language(langs[i]),
    ensures
        split_on(seq_join(langs, ", "@), ',') == joined_pieces(langs),
    decreases langs.len(),
{
    reveal_strlit(", ");
    reveal_strlit(" ");
    if langs.len() == 1 {
        assert(plain_language(langs[0]));
        lemma_find_char_none(langs[0], ',', 0);
        assert(split_on(langs[0], ',') == seq![langs[0]]);
        assert(joined_pieces(langs) =~= seq![langs[0]]);
    } else {
        let init = langs.drop_last();
        let last = langs.last();
        assert(plain_language(langs[langs.len() - 1]));
        assert forall|i: int| 0 <= i < init.len() implies #[trigger] plain_language(init[i]) by {
            assert(plain_language(langs[i]));
        }
        lemma_split_joined(init);
        let tail = " "@ + last;
        assert(", "@ + last == seq![','] + tail);
        assert(seq_join(langs, ", "@) == seq_join(init, ", "@) + seq![','] + tail);
        lemma_split_concat(seq_join(init, ", "@), tail, ',');
        assert(free_of_from(tail, ',', 0)) by {
            assert forall|j: int| 0 <= j < tail.len() implies tail[j] != ',' by {
                if j > 0 {
                    assert(tail[j] == last[j - 1]);
                }
            }
        }
        lemma_find_char_none(tail, ',', 0);
        assert(split_on(tail, ',') == seq![tail]);
        assert(joined_pieces(langs) =~= joined_pieces(init) + seq![tail]);
    }
}

proof fn lemma_trim_after_space(l: Seq<char>)
    ensures
        spec_trim(" "@ + l) == spec_trim(l),
{
    reveal_strlit(" ");
    let s = " "@ + l;
    assert(s.len() > 0 && is_white_space(s[0]));
    assert(s.drop_first() == l);
}

/// The languages written by the page read back as the same list, for
/// entries that are not empty, have no white space around them and no comma.
pub proof fn law_language_entry_roundtrip(langs: Seq<Seq<char>>)
    requires
        forall|i: int| 0 <= i < langs.len() ==> #[trigger] plain_language(langs[i]),
    ensures
        spec_language_list(seq_join(langs, ", "@)) == langs,
{
    if langs.len() == 0 {
        assert(split_on(Seq::<char>::empty(), ',') == seq![Seq::<char>::empty()]) by {
            assert(find_from(Seq::<char>::empty(), seq![','], 0) is None);
        }
        let e = Seq::<char>::empty();
        let x = trimmed(seq![e]);
        assert(spec_trim(e) == e);
        assert(x =~= seq![e]);
        reveal(Seq::filter);
        assert(x.drop_last() =~= Seq::<Seq<char>>::empty());
        assert(x.last() == e);
        assert(!non_empty()(e));
        assert(x.filter(non_empty()) == x.drop_last().filter(non_empty()));
        assert(Seq::<Seq<char>>::empty().filter(non_empty()) =~= Seq::<Seq<char>>::empty());
        assert(x.filter(non_empty()) =~= langs);
    } else {
        lemma_split_joined(langs);
        let t = trimmed(joined_pieces(langs));
        assert forall|i: int| 0 <= i < langs.len() implies t[i] == langs[i] by {
            assert(plain_language(langs[i]));
            if i > 0 {
                lemma_trim_after_space(langs[i]);
            }
        }
        assert(t =~= langs);
        lemma_filter_keeps_all(langs);
    }
}

proof fn lemma_filter_keeps_all(s: Seq<Seq<char>>)
    requires
        forall|i: int| 0 <= i < s.len() ==> #[trigger] plain_language(s[i]),
    ensures
        s.filter(non_empty()) == s,
    decreases s.len(),
{
    reveal(Seq::filter);
    if s.len() > 0 {
        assert forall|i: int| 0 <= i < s.drop_last().len() implies #[trigger] plain_language(s.drop_last()[i]) by {
            assert(plain_language(s[i]));
        }
        lemma_filter_keeps_all(s.drop_last());
        assert(plain_language(s[s.len() - 1]));
        assert(s.drop_last().push(s.last()) == s);
    }
}

/// A row of the server list.
pub struct ServerRow {
    pub name: String,
    pub base_url: String,
    pub is_default: bool,
}

/// A server row as plain values.
pub open spec fn server_row_view(r: ServerRow) -> (Seq<char>, Seq<char>, bool) {
    (r.name@, r.base_url@, r.is_default)
}

/// The rows of the server list: each server's name and address, marked
/// when it is the default one.
pub open spec fn spec_server_rows(config: AppConfig) -> Seq<(Seq<char>, Seq<char>, bool)> {
    config.servers@.map_values(|s: crate::models::ServerConfig| (s.name@, s.base_url@, config.default_server_id matches Some(d) && d@ == s.id@))
}

/// The rows of the server list.
pub fn server_rows(config: &AppConfig) -> (r: Vec<ServerRow>)
    ensures
        r@.map_values(|x: ServerRow| server_row_view(x)) == spec_server_rows(*config),
{
    let mut rows: Vec<ServerRow> = Vec::new();
    let mut i: usize = 0;
    while i < config.servers.len()
        invariant
            i <= config.servers@.len(),
            rows@.map_values(|x: ServerRow| server_row_view(x)) == spec_server_rows(*config).take(i as int),
        decreases config.servers.len() - i,
    {
        let s = &config.servers[i];
        let is_default = match &config.default_server_id {
            Some(d) => str_eq(d.as_str(), s.id.as_str()),
            None => false,
        };
        let ghost before = rows@;
        rows.push(ServerRow { name: s.name.clone(), base_url: s.base_url.clone(), is_default });
        assert(rows@.map_values(|x: ServerRow| server_row_view(x)) == spec_server_rows(*config).take(i + 1)) by {
            assert(rows@ == before.push(rows@.last()));
            assert(spec_server_rows(*config).take(i + 1) == spec_server_rows(*config).take(i as int).push(spec_server_rows(*config)[i as int]));
        }
        i += 1;
    }
    assert(spec_server_rows(*config).take(config.servers@.len() as int) == spec_server_rows(*config));
    rows
}

} // verus!
