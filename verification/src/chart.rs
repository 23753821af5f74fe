//! Ranked records: aligning the selected title and artist fragments into an
//! ordered chart.

use vstd::prelude::*;
use vstd::pervasive::unreached;
use crate::text::{normalize, trim_spec};
use crate::select::{select_text, selected_text, selector_is_valid, selector_ok};

verus! {

/// One row of the chart: a 1-based rank with the normalized artist and song
/// titles that stood at that position.
#[derive(Debug, PartialEq, Eq)]
pub struct Song {
    pub rank: usize,
    pub artist: String,
    pub song: String,
}

/// A ranked record as the contracts speak of it: the fields of one output
/// row, over mathematical values.
pub struct SongModel {
    pub rank: int,
    pub artist: Seq<char>,
    pub song: Seq<char>,
}

/// The length of the aligned output: the shorter of the two selections.
pub open spec fn aligned_len(m: nat, n: nat) -> nat {
    if m <= n {
        m
    } else {
        n
    }
}

/// The contents of a sequence of strings.
pub open spec fn views_of(ss: Seq<String>) -> Seq<Seq<char>> {
    ss.map_values(|s: String| s@)
}

/// Every fragment of `ss`, trimmed.
pub open spec fn trimmed(ss: Seq<Seq<char>>) -> Seq<Seq<char>> {
    ss.map_values(|s: Seq<char>| trim_spec(s))
}

/// The positional alignment of two fragment sequences: record `i` pairs the
/// `i`-th title with the `i`-th artist under rank `i + 1`, and the longer
/// sequence's surplus is dropped.
pub open spec fn ranked(titles: Seq<Seq<char>>, artists: Seq<Seq<char>>) -> Seq<SongModel> {
    Seq::new(
        aligned_len(titles.len(), artists.len()),
        |i: int| SongModel { rank: i + 1, artist: artists[i], song: titles[i] },
    )
}

/// Whether the produced rows carry exactly the modeled records.
pub open spec fn matches_records(songs: Seq<Song>, recs: Seq<SongModel>) -> bool {
    &&& songs.len() == recs.len()
    &&& forall|i: int|
        0 <= i < songs.len() ==> songs[i].rank as int == recs[i].rank && songs[i].artist@
            == recs[i].artist && songs[i].song@ == recs[i].song
}

/// The records that a document yields under a pair of selectors: select both
/// fragment sequences, trim each fragment, and align positionally.
pub open spec fn records_of(doc: Seq<char>, title_sel: Seq<char>, artist_sel: Seq<char>) -> Seq<
    SongModel,
> {
    ranked(trimmed(selected_text(doc, title_sel)), trimmed(selected_text(doc, artist_sel)))
}

/// Alignment truncation: with `m` titles and `n` artists the output holds
/// exactly `min(m, n)` records, ranked `1..=min(m, n)`, built from the first
/// `min(m, n)` elements of each sequence in their original order.
pub proof fn lemma_alignment_truncation(titles: Seq<Seq<char>>, artists: Seq<Seq<char>>)
    ensures
        ranked(titles, artists).len() == aligned_len(titles.len(), artists.len()),
        forall|i: int|
            0 <= i < ranked(titles, artists).len() ==> ranked(titles, artists)[i] == (SongModel {
                rank: i + 1,
                artist: artists[i],
                song: titles[i],
            }),
{
}

/// Rank follows document order alone: the record at position `i` is made
/// from the `i`-th matched title and artist and nothing else, so permuting
/// the matches permutes the records identically.
pub proof fn lemma_order_preservation(
    t1: Seq<Seq<char>>,
    a1: Seq<Seq<char>>,
    t2: Seq<Seq<char>>,
    a2: Seq<Seq<char>>,
    p: Seq<int>,
)
    requires
        t2.len() == t1.len(),
        a2.len() == a1.len(),
        p.len() == aligned_len(t1.len(), a1.len()),
        forall|i: int| 0 <= i < p.len() ==> 0 <= #[trigger] p[i] < p.len(),
        forall|i: int| 0 <= i < p.len() ==> t2[i] == t1[#[trigger] p[i]] && a2[i] == a1[p[i]],
    ensures
        ranked(t2, a2).len() == ranked(t1, a1).len(),
        forall|i: int|
            0 <= i < p.len() ==> #[trigger] ranked(t2, a2)[i].song == ranked(t1, a1)[p[i]].song
                && ranked(t2, a2)[i].artist == ranked(t1, a1)[p[i]].artist && ranked(t2, a2)[i].rank
                == i + 1,
{
}

/// A selection with zero matches on either side aligns to the empty record
/// sequence: an empty chart is a successful outcome, not an error.
pub proof fn lemma_empty_selection(doc: Seq<char>, title_sel: Seq<char>, artist_sel: Seq<char>)
    requires
        selected_text(doc, title_sel).len() == 0 || selected_text(doc, artist_sel).len() == 0,
    ensures
        records_of(doc, title_sel, artist_sel).len() == 0,
{
}

/// Zips the two fragment sequences positionally into ranked rows, dropping
/// the longer sequence's surplus.
pub fn align(titles: &Vec<String>, artists: &Vec<String>) -> (songs: Vec<Song>)
    ensures
        matches_records(songs@, ranked(views_of(titles@), views_of(artists@))),
{
    let n = if titles.len() <= artists.len() {
        titles.len()
    } else {
        artists.len()
    };
    let mut songs: Vec<Song> = Vec::new();
    let mut i: usize = 0;
    while i < n
        invariant
            n == aligned_len(titles@.len(), artists@.len()),
            n <= titles@.len(),
            n <= artists@.len(),
            i <= n,
            songs@.len() == i,
            forall|j: int|
                0 <= j < i ==> #[trigger] songs@[j].rank == j + 1 && songs@[j].song@ == titles@[j]@
                    && songs@[j].artist@ == artists@[j]@,
        decreases n - i,
    {
        let song = titles[i].clone();
        let artist = artists[i].clone();
        songs.push(Song { rank: i + 1, artist, song });
        i = i + 1;
    }
    proof {
        let recs = ranked(views_of(titles@), views_of(artists@));
        assert forall|j: int| 0 <= j < songs@.len() implies songs@[j].rank as int == recs[j].rank
            && songs@[j].artist@ == recs[j].artist && songs@[j].song@ == recs[j].song by {
            assert(songs@[j].rank == j + 1);
            assert(views_of(titles@)[j] == titles@[j]@);
            assert(views_of(artists@)[j] == artists@[j]@);
        }
    }
    songs
}

/// Why a selector pair was rejected at construction.
#[derive(Clone, Copy, PartialEq, Eq, Structural, Debug)]
pub enum SelectorError {
    InvalidTitleSelector,
    InvalidArtistSelector,
}

/// The two structural selectors of one extraction: one for titles, one for
/// artist labels. A value of this type only exists with both validated.
pub struct SelectorConfig {
    pub title: String,
    pub artist: String,
}

impl SelectorConfig {
    /// Both selectors parse.
    pub open spec fn wf(&self) -> bool {
        selector_ok(self.title@) && selector_ok(self.artist@)
    }

    /// Validates the two selectors once, at construction: an invalid
    /// selector is a configuration defect and is rejected before any request
    /// runs.
    pub fn new(title: String, artist: String) -> (r: Result<SelectorConfig, SelectorError>)
        ensures
            r matches Ok(c) ==> c.wf() && c.title@ == title@ && c.artist@ == artist@,
            r is Ok <==> selector_ok(title@) && selector_ok(artist@),
            r == Err::<SelectorConfig, SelectorError>(SelectorError::InvalidTitleSelector)
                <==> !selector_ok(title@),
            r == Err::<SelectorConfig, SelectorError>(SelectorError::InvalidArtistSelector)
                <==> selector_ok(title@) && !selector_ok(artist@),
    {
        if !selector_is_valid(title.as_str()) {
            Err(SelectorError::InvalidTitleSelector)
        } else if !selector_is_valid(artist.as_str()) {
            Err(SelectorError::InvalidArtistSelector)
        } else {
            Ok(SelectorConfig { title, artist })
        }
    }
}

/// Applies the fragment normalization to every selected fragment.
fn normalize_all(v: &Vec<String>) -> (r: Vec<String>)
    ensures
        views_of(r@) == trimmed(views_of(v@)),
{
    let mut r: Vec<String> = Vec::new();
    let mut i: usize = 0;
    while i < v.len()
        invariant
            i <= v.len(),
            r@.len() == i,
            forall|j: int| 0 <= j < i ==> #[trigger] r@[j]@ == trim_spec(v@[j]@),
        decreases v.len() - i,
    {
        let s = normalize(v[i].as_str());
        r.push(s);
        i = i + 1;
    }
    proof {
        assert(views_of(r@) =~= trimmed(views_of(v@)));
    }
    r
}

/// One extraction pass: selects the title and artist fragments of `html`,
/// normalizes each, and aligns them into ranked records.
pub fn extract(cfg: &SelectorConfig, html: &str) -> (songs: Vec<Song>)
    requires
        cfg.wf(),
    ensures
        matches_records(songs@, records_of(html@, cfg.title@, cfg.artist@)),
{
    let titles_raw = match select_text(html, cfg.title.as_str()) {
        Some(v) => v,
        None => unreached(),
    };
    let artists_raw = match select_text(html, cfg.artist.as_str()) {
        Some(v) => v,
        None => unreached(),
    };
    let titles = normalize_all(&titles_raw);
    let artists = normalize_all(&artists_raw);
    align(&titles, &artists)
}

/// One extraction with the selectors validated on the way in: an invalid
/// selector is reported instead of being a precondition.
pub fn extract_songs(title_sel: &str, artist_sel: &str, html: &str) -> (r: Result<
    Vec<Song>,
    SelectorError,
>)
    ensures
        r matches Ok(songs) ==> matches_records(songs@, records_of(html@, title_sel@, artist_sel@)),
        r is Ok <==> selector_ok(title_sel@) && selector_ok(artist_sel@),
        r == Err::<Vec<Song>, SelectorError>(SelectorError::InvalidTitleSelector) <==> !selector_ok(
            title_sel@,
        ),
        r == Err::<Vec<Song>, SelectorError>(SelectorError::InvalidArtistSelector) <==> selector_ok(
            title_sel@,
        ) && !selector_ok(artist_sel@),
{
    match SelectorConfig::new(title_sel.to_owned(), artist_sel.to_owned()) {
        Ok(cfg) => Ok(extract(&cfg, html)),
        Err(e) => Err(e),
    }
}

} // verus!
