//! The answer of a fingerprint lookup, and the choice of one song from it.
//!
//! A lookup is asked with a form that carries the fingerprint and the playing
//! time. It returns scored candidates, each with recordings whose fields may
//! be missing. The song is taken from the best-scored candidate that has a
//! recording with a title and a named first artist; among candidates of equal
//! score the one that the service returned first wins.

use vstd::prelude::*;
use vstd::string::*;

use crate::song::IdentifyError;
use crate::{decimal, decimal_text, AcoustId};

verus! {

/// An artist of a recording.
#[derive(Debug, Clone)]
pub struct Artist {
    pub name: Option<String>,
    pub id: String,
}

/// One recording that a candidate stands for.
#[derive(Debug, Clone)]
pub struct Recordings {
    pub duration: Option<u64>,
    pub id: String,
    pub title: Option<String>,
    pub artists: Option<Vec<Artist>>,
}

/// The service's identifier of a candidate.
#[derive(Debug, Clone)]
pub struct TrackId(pub String);

/// One scored candidate of a lookup.
///
/// The service gives a candidate's confidence as a number from 0 to 1 in
/// double precision. `score` holds the bits of that number: among numbers
/// that are not negative, the greater one has the greater bits, so comparing
/// `score`s compares confidences.
#[derive(Debug, Clone)]
pub struct SongMatch {
    pub id: TrackId,
    pub score: u64,
    pub recordings: Vec<Recordings>,
}

/// The title and artist that a lookup was resolved to.
#[derive(Debug, Clone)]
pub struct SongData {
    pub title: String,
    pub artist: String,
}

/// A form field has the given name and value.
pub open spec fn is_field(field: (String, String), name: Seq<char>, value: Seq<char>) -> bool {
    field.0@ == name && field.1@ == value
}

/// The form of a lookup: it asks for an answer in JSON with the recordings of
/// each candidate, and carries the client's key, the playing time in seconds
/// and the fingerprint.
pub open spec fn is_lookup_form(
    form: Seq<(String, String)>,
    client: Seq<char>,
    duration: u64,
    fingerprint: Seq<char>,
) -> bool {
    &&& form.len() == 5
    &&& is_field(form[0], "format"@, "json"@)
    &&& is_field(form[1], "client"@, client)
    &&& is_field(form[2], "duration"@, decimal(duration as nat))
    &&& is_field(form[3], "fingerprint"@, fingerprint)
    &&& is_field(form[4], "meta"@, "recordings"@)
}

/// The fields of the form that asks the service for the candidates of a
/// fingerprint. The client's key is passed on as it is.
pub fn lookup_form(client: &str, duration: u64, fingerprint: &AcoustId) -> (form: Vec<
    (String, String),
>)
    ensures
        is_lookup_form(form@, client@, duration, fingerprint@),
{
    let mut form: Vec<(String, String)> = Vec::new();
    form.push((String::from_str("format"), String::from_str("json")));
    form.push((String::from_str("client"), String::from_str(client)));
    form.push((String::from_str("duration"), decimal_text(duration)));
    form.push((String::from_str("fingerprint"), fingerprint.to_string()));
    form.push((String::from_str("meta"), String::from_str("recordings")));
    form
}

/// A text is there and is not empty.
pub open spec fn filled(text: Option<String>) -> bool {
    text is Some && text->0@.len() > 0
}

/// A recording can name a song: it has a title that is not empty, and at
/// least one artist, the first of which has a name that is not empty.
pub open spec fn usable(r: Recordings) -> bool {
    &&& filled(r.title)
    &&& r.artists is Some
    &&& r.artists->0@.len() > 0
    &&& filled(r.artists->0@[0].name)
}

/// A recording names no artist: it has no artists, or the first of them has
/// no name or an empty one.
pub open spec fn lacks_artist_name(r: Recordings) -> bool {
    r.artists is None || r.artists->0@.len() == 0 || !filled(r.artists->0@[0].name)
}

/// `k` is the first usable recording of `rs`.
pub open spec fn is_first_usable(rs: Seq<Recordings>, k: int) -> bool {
    &&& 0 <= k < rs.len()
    &&& usable(rs[k])
    &&& forall|m: int| 0 <= m < k ==> !usable(#[trigger] rs[m])
}

/// A candidate has a usable recording.
pub open spec fn has_usable(c: SongMatch) -> bool {
    exists|k: int| 0 <= k < c.recordings@.len() && usable(#[trigger] c.recordings@[k])
}

/// Candidate `i` is preferred to candidate `j`: it has the greater score, or
/// the same score and the earlier place.
pub open spec fn outranks(cs: Seq<SongMatch>, i: int, j: int) -> bool {
    cs[i].score > cs[j].score || (cs[i].score == cs[j].score && i < j)
}

/// Candidate `i` is the one to resolve to: it has a usable recording and is
/// preferred to every other candidate that has one.
pub open spec fn is_best(cs: Seq<SongMatch>, i: int) -> bool {
    &&& 0 <= i < cs.len()
    &&& has_usable(cs[i])
    &&& forall|j: int|
        0 <= j < cs.len() && j != i && has_usable(#[trigger] cs[j]) ==> outranks(cs, i, j)
}

/// `song` holds the title and the first artist's name of the usable recording `r`.
pub open spec fn names(r: Recordings, song: SongData) -> bool {
    &&& usable(r)
    &&& song.title@ == r.title->0@
    &&& song.artist@ == r.artists->0@[0].name->0@
}

/// `song` is what the candidates resolve to: the song that the first usable
/// recording of the best candidate names.
pub open spec fn resolves_to(cs: Seq<SongMatch>, song: SongData) -> bool {
    exists|i: int, k: int|
        #![trigger cs[i].recordings@[k]]
        is_best(cs, i) && is_first_usable(cs[i].recordings@, k) && names(
            cs[i].recordings@[k],
            song,
        )
}

/// No candidate has a usable recording.
pub open spec fn none_usable(cs: Seq<SongMatch>) -> bool {
    forall|i: int| 0 <= i < cs.len() ==> !has_usable(#[trigger] cs[i])
}

/// Whether a text is there and is not empty.
pub fn is_filled(text: &Option<String>) -> (b: bool)
    ensures
        b == filled(*text),
{
    match text {
        Some(text) => !text.as_str().is_empty(),
        None => false,
    }
}

/// Whether a recording can name a song.
pub fn is_usable(r: &Recordings) -> (b: bool)
    ensures
        b == usable(*r),
{
    if !is_filled(&r.title) {
        return false;
    }
    match &r.artists {
        None => false,
        Some(artists) => artists.len() > 0 && is_filled(&artists[0].name),
    }
}

/// The place of the first usable recording, if there is one.
pub fn first_usable(rs: &Vec<Recordings>) -> (res: Option<usize>)
    ensures
        res matches Some(k) ==> is_first_usable(rs@, k as int),
        res is None ==> forall|m: int| 0 <= m < rs@.len() ==> !usable(#[trigger] rs@[m]),
{
    let mut k: usize = 0;
    while k < rs.len()
        invariant
            k <= rs@.len(),
            forall|m: int| 0 <= m < k ==> !usable(#[trigger] rs@[m]),
        decreases rs@.len() - k,
    {
        if is_usable(&rs[k]) {
            return Some(k);
        }
        k += 1;
    }
    None
}

/// The song that a usable recording names.
pub fn song_of(r: &Recordings) -> (res: Option<SongData>)
    ensures
        usable(*r) <==> res is Some,
        res matches Some(song) ==> names(*r, song),
{
    if !is_usable(r) {
        return None;
    }
    match (&r.title, &r.artists) {
        (Some(title), Some(artists)) => match &artists[0].name {
            Some(name) => Some(SongData { title: title.clone(), artist: name.clone() }),
            None => None,
        },
        _ => None,
    }
}

/// Place `j` is listed in `order`.
pub open spec fn lists(order: Seq<usize>, j: int) -> bool {
    exists|k: int| 0 <= k < order.len() && (#[trigger] order[k]) == j
}

/// `order` lists the places of the first `n` candidates, each of them once,
/// and every place in it comes before the places that it outranks.
pub open spec fn ranks_first(cs: Seq<SongMatch>, order: Seq<usize>, n: int) -> bool {
    &&& order.len() == n
    &&& forall|k: int| 0 <= k < order.len() ==> (#[trigger] order[k]) < n
    &&& forall|j: int| 0 <= j < n ==> #[trigger] lists(order, j)
    &&& forall|a: int, b: int|
        0 <= a < b < order.len() ==> outranks(cs, (#[trigger] order[a]) as int, (
        #[trigger] order[b]) as int)
}

/// `order` lists the places of all candidates, sorted by score, the greatest
/// first, and candidates of equal score in the order in which they came.
pub open spec fn is_ranking(cs: Seq<SongMatch>, order: Seq<usize>) -> bool {
    ranks_first(cs, order, cs.len() as int)
}

/// Sorts the candidates by score, the greatest first. The sort is stable:
/// candidates of equal score keep the order in which the service returned
/// them. The result lists the candidates' places in sorted order.
pub fn rank_by_score(candidates: &Vec<SongMatch>) -> (order: Vec<usize>)
    ensures
        is_ranking(candidates@, order@),
{
    let mut order: Vec<usize> = Vec::new();
    let mut i: usize = 0;
    while i < candidates.len()
        invariant
            i <= candidates@.len(),
            ranks_first(candidates@, order@, i as int),
        decreases candidates@.len() - i,
    {
        let mut p: usize = 0;
        while p < order.len() && candidates[order[p]].score >= candidates[i].score
            invariant
                i < candidates@.len(),
                p <= order@.len(),
                ranks_first(candidates@, order@, i as int),
                forall|q: int|
                    0 <= q < p ==> candidates@[(#[trigger] order@[q]) as int].score
                        >= candidates@[i as int].score,
            decreases order@.len() - p,
        {
            p += 1;
        }
        let ghost before = order@;
        order.insert(p, i);
        proof {
            let cs = candidates@;
            let after = order@;
            assert forall|q: int| p <= q < before.len() implies cs[(#[trigger] before[q]) as int].score
                < cs[i as int].score by {
                if q > p {
                    assert(outranks(cs, before[p as int] as int, before[q] as int));
                }
            }
            assert forall|j: int| 0 <= j < i + 1 implies #[trigger] lists(after, j) by {
                if j == i {
                    assert(after[p as int] == j);
                } else {
                    assert(lists(before, j));
                    let k = choose|k: int| 0 <= k < before.len() && (#[trigger] before[k]) == j;
                    if k < p {
                        assert(after[k] == j);
                    } else {
                        assert(after[k + 1] == j);
                    }
                }
            }
            assert forall|a: int, b: int| 0 <= a < b < after.len() implies outranks(
                cs,
                (#[trigger] after[a]) as int,
                (#[trigger] after[b]) as int,
            ) by {
                let a0 = if a < p { a } else { a - 1 };
                let b0 = if b < p { b } else { b - 1 };
                if a == p {
                    assert(after[b] == before[b0]);
                } else if b == p {
                    assert(after[a] == before[a0]);
                } else {
                    assert(after[a] == before[a0]);
                    assert(after[b] == before[b0]);
                    assert(outranks(cs, before[a0] as int, before[b0] as int));
                }
            }
        }
        i += 1;
    }
    order
}

/// Resolves the candidates of a fingerprint lookup to one song.
///
/// The candidates are taken in the order in which the service returned them
/// and sorted by score, the greatest first, candidates of equal score staying
/// in the order in which they came. The result is the song named by the first
/// usable recording of the first candidate in that order that has one.
/// Without such a candidate the lookup has no confident match.
pub fn lookup_by_fingerprint(candidates: &Vec<SongMatch>) -> (res: Result<SongData, IdentifyError>)
    ensures
        res is Err <==> none_usable(candidates@),
        res matches Err(e) ==> e == IdentifyError::NoConfidentMatch,
        res matches Ok(song) ==> resolves_to(candidates@, song),
        candidates@.len() == 0 ==> res is Err,
{
    let order = rank_by_score(candidates);
    let mut k: usize = 0;
    while k < order.len()
        invariant
            k <= order@.len(),
            is_ranking(candidates@, order@),
            forall|q: int| 0 <= q < k ==> !has_usable(candidates@[(#[trigger] order@[q]) as int]),
        decreases order@.len() - k,
    {
        let i = order[k];
        if let Some(r) = first_usable(&candidates[i].recordings) {
            if let Some(song) = song_of(&candidates[i].recordings[r]) {
                proof {
                    lemma_first_usable_in_ranking_is_best(candidates@, order@, k as int);
                }
                return Ok(song);
            }
        }
        k += 1;
    }
    proof {
        let cs = candidates@;
        assert forall|j: int| 0 <= j < cs.len() implies !has_usable(#[trigger] cs[j]) by {
            assert(lists(order@, j));
            let q = choose|q: int| 0 <= q < order@.len() && (#[trigger] order@[q]) == j;
            assert(!has_usable(cs[order@[q] as int]));
        }
    }
    Err(IdentifyError::NoConfidentMatch)
}

/// The first candidate of a ranking that has a usable recording is the one
/// to resolve to.
pub proof fn lemma_first_usable_in_ranking_is_best(cs: Seq<SongMatch>, order: Seq<usize>, k: int)
    requires
        is_ranking(cs, order),
        0 <= k < order.len(),
        has_usable(cs[order[k] as int]),
        forall|q: int| 0 <= q < k ==> !has_usable(cs[(#[trigger] order[q]) as int]),
    ensures
        is_best(cs, order[k] as int),
{
    let i = order[k] as int;
    assert forall|j: int| 0 <= j < cs.len() && j != i && has_usable(#[trigger] cs[j]) implies outranks(
        cs,
        i,
        j,
    ) by {
        assert(lists(order, j));
        let q = choose|q: int| 0 <= q < order.len() && (#[trigger] order[q]) == j;
        if q < k {
            assert(!has_usable(cs[order[q] as int]));
        } else {
            assert(outranks(cs, order[k] as int, order[q] as int));
        }
    }
}

/// Of two candidates with equal scores that both have a usable recording, the
/// later one is never chosen.
pub proof fn lemma_tie_goes_to_the_earlier(cs: Seq<SongMatch>, i: int, j: int)
    requires
        0 <= i < j < cs.len(),
        cs[i].score == cs[j].score,
        has_usable(cs[i]),
        has_usable(cs[j]),
    ensures
        !is_best(cs, j),
{
}

/// A candidate without a usable recording is never chosen, whatever its
/// score; one whose only recording lacks the artist's name is such a candidate.
pub proof fn lemma_unusable_candidate_is_skipped(cs: Seq<SongMatch>, i: int)
    requires
        0 <= i < cs.len(),
    ensures
        !has_usable(cs[i]) ==> !is_best(cs, i),
        cs[i].recordings@.len() == 1 && lacks_artist_name(cs[i].recordings@[0]) ==> !is_best(
            cs,
            i,
        ),
{
}

/// A candidate is chosen whenever some candidate has a usable recording, so an
/// unusable candidate of the greatest score does not hide the others.
pub proof fn lemma_some_candidate_is_best(cs: Seq<SongMatch>)
    requires
        !none_usable(cs),
    ensures
        exists|i: int| is_best(cs, i),
{
    let n = cs.len() as int;
    lemma_best_of_prefix(cs, n);
    let b = choose|b: int| #[trigger] is_best_below(cs, b, n);
    assert(is_best(cs, b));
}

/// Among the first `n` candidates, if one has a usable recording then one is
/// preferred to all the others of them that have one.
proof fn lemma_best_of_prefix(cs: Seq<SongMatch>, n: int)
    requires
        0 <= n <= cs.len(),
    ensures
        (forall|j: int| 0 <= j < n ==> !has_usable(#[trigger] cs[j])) || exists|b: int|
            is_best_below(cs, b, n),
    decreases n,
{
    if n > 0 {
        let m = n - 1;
        lemma_best_of_prefix(cs, m);
        if forall|j: int| 0 <= j < m ==> !has_usable(#[trigger] cs[j]) {
            if has_usable(cs[m]) {
                assert(is_best_below(cs, m, n));
            }
        } else {
            let b = choose|b: int| #[trigger] is_best_below(cs, b, m);
            if has_usable(cs[m]) && cs[m].score > cs[b].score {
                assert(is_best_below(cs, m, n));
            } else {
                assert(is_best_below(cs, b, n));
            }
        }
    }
}

/// Candidate `b` is preferred to every other usable candidate before place `n`.
pub open spec fn is_best_below(cs: Seq<SongMatch>, b: int, n: int) -> bool {
    &&& 0 <= b < n
    &&& has_usable(cs[b])
    &&& forall|j: int| 0 <= j < n && j != b && has_usable(#[trigger] cs[j]) ==> outranks(cs, b, j)
}

} // verus!
