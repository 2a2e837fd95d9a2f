//! Schedule extraction: resolving an address lookup's response to a
//! schedule page, and turning a page's markup into pickup records.
//!
//! Extraction is tolerant by design: an entry whose date line cannot be
//! read, whose date is not a real calendar date, whose category token is
//! unrecognized, or whose local timestamp is ambiguous or non-existent is
//! skipped silently; every other entry yields a record, in document order.

use vstd::prelude::*;
use vstd::string::StrSliceExecFns;
use vstd::string::StringSliceAdditionalSpecFns;
use vstd::string::StringExecFns;
use crate::errors::RunError;
use crate::pickup::Pickup;
use crate::pickup::PickupType;
use crate::pickup::LocalDateTime;
use crate::pickup::spec_valid_date;
use crate::pickup::spec_kind_label;
use crate::pickup::spec_category_of;
use crate::scan::RawEntry;
use crate::scan::spec_find;
use crate::scan::spec_schedule_entries;
use crate::scan::spec_entries_view;
use crate::scan::lemma_find_props;
use crate::scan::find;
use crate::scan::scan_document;
use vstd::slice::slice_subrange;

verus! {

/// The schedule source's month names, by month number.
pub open spec fn spec_month_name(m: int) -> Seq<u8> {
    if m == 1 {
        seq![('j' as u8), ('a' as u8), ('n' as u8), ('u' as u8), ('a' as u8), ('r' as u8)]
    }
    else if m == 2 {
        seq![('f' as u8), ('e' as u8), ('b' as u8), ('r' as u8), ('u' as u8), ('a' as u8), ('r' as u8)]
    }
    else if m == 3 {
        seq![('m' as u8), ('a' as u8), ('r' as u8), ('s' as u8)]
    }
    else if m == 4 {
        seq![('a' as u8), ('p' as u8), ('r' as u8), ('i' as u8), ('l' as u8)]
    }
    else if m == 5 {
        seq![('m' as u8), ('a' as u8), ('i' as u8)]
    }
    else if m == 6 {
        seq![('j' as u8), ('u' as u8), ('n' as u8), ('i' as u8)]
    }
    else if m == 7 {
        seq![('j' as u8), ('u' as u8), ('l' as u8), ('i' as u8)]
    }
    else if m == 8 {
        seq![('a' as u8), ('u' as u8), ('g' as u8), ('u' as u8), ('s' as u8), ('t' as u8)]
    }
    else if m == 9 {
        seq![('s' as u8), ('e' as u8), ('p' as u8), ('t' as u8), ('e' as u8), ('m' as u8), ('b' as u8), ('e' as u8), ('r' as u8)]
    }
    else if m == 10 {
        seq![('o' as u8), ('k' as u8), ('t' as u8), ('o' as u8), ('b' as u8), ('e' as u8), ('r' as u8)]
    }
    else if m == 11 {
        seq![('n' as u8), ('o' as u8), ('v' as u8), ('e' as u8), ('m' as u8), ('b' as u8), ('e' as u8), ('r' as u8)]
    }
    else if m == 12 {
        seq![('d' as u8), ('e' as u8), ('s' as u8), ('e' as u8), ('m' as u8), ('b' as u8), ('e' as u8), ('r' as u8)]
    }
    else {
        Seq::empty()
    }
}

/// Month-name recognition: an exact lookup against the fixed table;
/// anything else is no month.
pub open spec fn spec_month_number(s: Seq<u8>) -> Option<u8> {
    if s == spec_month_name(1) {
        Some(1u8)
    }
    else if s == spec_month_name(2) {
        Some(2u8)
    }
    else if s == spec_month_name(3) {
        Some(3u8)
    }
    else if s == spec_month_name(4) {
        Some(4u8)
    }
    else if s == spec_month_name(5) {
        Some(5u8)
    }
    else if s == spec_month_name(6) {
        Some(6u8)
    }
    else if s == spec_month_name(7) {
        Some(7u8)
    }
    else if s == spec_month_name(8) {
        Some(8u8)
    }
    else if s == spec_month_name(9) {
        Some(9u8)
    }
    else if s == spec_month_name(10) {
        Some(10u8)
    }
    else if s == spec_month_name(11) {
        Some(11u8)
    }
    else if s == spec_month_name(12) {
        Some(12u8)
    }
    else {
        None
    }
}

/// Maps a month-name token to its month number; recognition is exact.
pub fn month_number(s: &[u8]) -> (r: Option<u8>)
    ensures
        r == spec_month_number(s@),
{
    let m01: [u8; 6] = [('j' as u8), ('a' as u8), ('n' as u8), ('u' as u8), ('a' as u8), ('r' as u8)];
    let m02: [u8; 7] = [('f' as u8), ('e' as u8), ('b' as u8), ('r' as u8), ('u' as u8), ('a' as u8), ('r' as u8)];
    let m03: [u8; 4] = [('m' as u8), ('a' as u8), ('r' as u8), ('s' as u8)];
    let m04: [u8; 5] = [('a' as u8), ('p' as u8), ('r' as u8), ('i' as u8), ('l' as u8)];
    let m05: [u8; 3] = [('m' as u8), ('a' as u8), ('i' as u8)];
    let m06: [u8; 4] = [('j' as u8), ('u' as u8), ('n' as u8), ('i' as u8)];
    let m07: [u8; 4] = [('j' as u8), ('u' as u8), ('l' as u8), ('i' as u8)];
    let m08: [u8; 6] = [('a' as u8), ('u' as u8), ('g' as u8), ('u' as u8), ('s' as u8), ('t' as u8)];
    let m09: [u8; 9] = [('s' as u8), ('e' as u8), ('p' as u8), ('t' as u8), ('e' as u8), ('m' as u8), ('b' as u8), ('e' as u8), ('r' as u8)];
    let m10: [u8; 7] = [('o' as u8), ('k' as u8), ('t' as u8), ('o' as u8), ('b' as u8), ('e' as u8), ('r' as u8)];
    let m11: [u8; 8] = [('n' as u8), ('o' as u8), ('v' as u8), ('e' as u8), ('m' as u8), ('b' as u8), ('e' as u8), ('r' as u8)];
    let m12: [u8; 8] = [('d' as u8), ('e' as u8), ('s' as u8), ('e' as u8), ('m' as u8), ('b' as u8), ('e' as u8), ('r' as u8)];
    proof {
        assert(m01@ =~= spec_month_name(1));
        assert(m02@ =~= spec_month_name(2));
        assert(m03@ =~= spec_month_name(3));
        assert(m04@ =~= spec_month_name(4));
        assert(m05@ =~= spec_month_name(5));
        assert(m06@ =~= spec_month_name(6));
        assert(m07@ =~= spec_month_name(7));
        assert(m08@ =~= spec_month_name(8));
        assert(m09@ =~= spec_month_name(9));
        assert(m10@ =~= spec_month_name(10));
        assert(m11@ =~= spec_month_name(11));
        assert(m12@ =~= spec_month_name(12));
    }
    if crate::pickup::bytes_eq(s, m01.as_slice()) {
        Some(1)
    } else if crate::pickup::bytes_eq(s, m02.as_slice()) {
        Some(2)
    } else if crate::pickup::bytes_eq(s, m03.as_slice()) {
        Some(3)
    } else if crate::pickup::bytes_eq(s, m04.as_slice()) {
        Some(4)
    } else if crate::pickup::bytes_eq(s, m05.as_slice()) {
        Some(5)
    } else if crate::pickup::bytes_eq(s, m06.as_slice()) {
        Some(6)
    } else if crate::pickup::bytes_eq(s, m07.as_slice()) {
        Some(7)
    } else if crate::pickup::bytes_eq(s, m08.as_slice()) {
        Some(8)
    } else if crate::pickup::bytes_eq(s, m09.as_slice()) {
        Some(9)
    } else if crate::pickup::bytes_eq(s, m10.as_slice()) {
        Some(10)
    } else if crate::pickup::bytes_eq(s, m11.as_slice()) {
        Some(11)
    } else if crate::pickup::bytes_eq(s, m12.as_slice()) {
        Some(12)
    } else {
        None
    }
}

/// A single space, the field separator of a heading's date line.
pub open spec fn spec_space() -> Seq<u8> {
    seq![(' ' as u8)]
}

pub open spec fn spec_is_digit(b: u8) -> bool {
    ('0' as u8) <= b <= ('9' as u8)
}

pub open spec fn spec_digit_val(b: u8) -> int {
    b - ('0' as u8)
}

/// Reads a heading's date line "weekday day. month": the second
/// space-separated field must open with two digits (the day), and the third
/// field, up to the next space or the end, must be a known month name.
/// Anything else is no date.
pub open spec fn spec_heading_date(t: Seq<u8>) -> Option<(u8, u8)> {
    match spec_find(t, spec_space(), 0) {
        None => None,
        Some(s1) => match spec_find(t, spec_space(), s1 + 1) {
            None => None,
            Some(s2) => {
                let p2 = t.subrange(s1 + 1, s2);
                if p2.len() >= 2 && spec_is_digit(p2[0]) && spec_is_digit(p2[1]) {
                    let day = (spec_digit_val(p2[0]) * 10 + spec_digit_val(p2[1])) as u8;
                    let p3end = match spec_find(t, spec_space(), s2 + 1) {
                        None => t.len() as int,
                        Some(s3) => s3,
                    };
                    match spec_month_number(t.subrange(s2 + 1, p3end)) {
                        None => None,
                        Some(m) => Some((day, m)),
                    }
                } else {
                    None
                }
            },
        },
    }
}

pub fn heading_date(t: &[u8]) -> (r: Option<(u8, u8)>)
    ensures
        r == spec_heading_date(t@),
{
    let tlen: usize = t.len();
    let space: [u8; 1] = [(' ' as u8)];
    proof {
        assert(space@ =~= spec_space());
    }
    let s1 = match find(t, space.as_slice(), 0) {
        None => {
            return None;
        },
        Some(x) => x,
    };
    proof {
        lemma_find_props(t@, spec_space(), 0);
        assert(s1 < tlen);
    }
    let s2 = match find(t, space.as_slice(), s1 + 1) {
        None => {
            return None;
        },
        Some(x) => x,
    };
    proof {
        lemma_find_props(t@, spec_space(), s1 + 1);
        assert(s1 + 1 <= s2 < tlen);
    }
    if s2 - (s1 + 1) < 2 {
        return None;
    }
    let d0 = t[s1 + 1];
    let d1 = t[s1 + 2];
    proof {
        assert(t@.subrange(s1 + 1, s2 as int)[0] == t@[s1 + 1]);
        assert(t@.subrange(s1 + 1, s2 as int)[1] == t@[s1 + 2]);
    }
    if d0 < ('0' as u8) || d0 > ('9' as u8) || d1 < ('0' as u8) || d1 > ('9' as u8) {
        return None;
    }
    let day: u8 = (d0 - ('0' as u8)) * 10 + (d1 - ('0' as u8));
    let p3end: usize = match find(t, space.as_slice(), s2 + 1) {
        None => t.len(),
        Some(s3) => {
            proof {
                lemma_find_props(t@, spec_space(), s2 + 1);
            }
            s3
        },
    };
    let p3 = slice_subrange(t, s2 + 1, p3end);
    match month_number(p3) {
        None => None,
        Some(m) => Some((day, m)),
    }
}

/// The month lookup for a text token; a caller must hand it a known month
/// name.
pub fn map_month(month: &str) -> (m: i32)
    requires
        spec_month_number(month.spec_bytes()) is Some,
    ensures
        Some((m as u8)) == spec_month_number(month.spec_bytes()),
        1 <= m <= 12,
{
    let bytes = month.as_bytes_vec();
    match month_number(bytes.as_slice()) {
        Some(m) => m as i32,
        None => {
            proof {
                assert(false);
            }
            0
        },
    }
}

/// One well-formed schedule entry: a real calendar date in the given year
/// and a recognized category.
#[derive(Clone, Copy, Debug, PartialEq, Eq, Structural)]
pub struct Candidate {
    pub year: u16,
    pub month: u8,
    pub day: u8,
    pub kind: PickupType,
}

impl Candidate {
    pub open spec fn wf(self) -> bool {
        spec_valid_date(self.year as int, self.month as int, self.day as int)
    }
}

/// What one raw (date line, token) pair contributes: one candidate when the
/// date line parses, the date is real, and the token is recognized; nothing
/// otherwise.
pub open spec fn spec_candidate_one(p: (Seq<u8>, Seq<u8>), year: int) -> Seq<Candidate> {
    match spec_heading_date(p.0) {
        None => Seq::empty(),
        Some(dm) => {
            if spec_valid_date(year, dm.1 as int, dm.0 as int) {
                match spec_category_of(p.1) {
                    None => Seq::empty(),
                    Some(k) => seq![
                        (Candidate { year: year as u16, month: dm.1, day: dm.0, kind: k }),
                    ],
                }
            } else {
                Seq::empty()
            }
        },
    }
}

/// The candidates of a pair sequence, in source order, malformed pairs
/// skipped.
pub open spec fn spec_candidates(ps: Seq<(Seq<u8>, Seq<u8>)>, year: int) -> Seq<Candidate>
    decreases ps.len(),
{
    if ps.len() == 0 {
        Seq::empty()
    } else {
        spec_candidates(ps.drop_last(), year) + spec_candidate_one(ps.last(), year)
    }
}

/// Filters raw scanner entries down to well-formed candidates.
pub fn candidates_of(entries: &Vec<RawEntry>, year: i32) -> (r: Vec<Candidate>)
    ensures
        r@ == spec_candidates(spec_entries_view(entries@), year as int),
        forall|i: int| #![trigger r@[i]] 0 <= i < r@.len() ==> r@[i].wf(),
{
    let ghost ps = spec_entries_view(entries@);
    let mut out: Vec<Candidate> = Vec::new();
    let n: usize = entries.len();
    let mut i: usize = 0;
    while i < n
        invariant
            n == entries@.len(),
            0 <= i <= n,
            ps == spec_entries_view(entries@),
            out@ == spec_candidates(ps.subrange(0, i as int), year as int),
            forall|j: int| #![trigger out@[j]] 0 <= j < out@.len() ==> out@[j].wf(),
        decreases n - i,
    {
        let ghost pre = out@;
        let entry = &entries[i];
        match heading_date(entry.text.as_slice()) {
            None => {},
            Some(dm) => {
                let (day, month) = dm;
                if crate::pickup::valid_date(year, month, day) {
                    match PickupType::from_token(entry.token.as_slice()) {
                        None => {},
                        Some(kind) => {
                            out.push(Candidate { year: year as u16, month, day, kind });
                        },
                    }
                }
            },
        }
        proof {
            assert(ps[i as int] == (entries@[i as int].text@, entries@[i as int].token@));
            assert(ps.subrange(0, i + 1).drop_last() =~= ps.subrange(0, i as int));
            assert(ps.subrange(0, i + 1).last() == ps[i as int]);
            assert(out@ =~= pre + spec_candidate_one(ps[i as int], year as int));
        }
        i = i + 1;
    }
    proof {
        assert(ps.subrange(0, n as int) =~= ps);
    }
    out
}

/// The candidates kept by a sequence of localization outcomes: those whose
/// outcome is an offset, each paired with it, in order.
pub open spec fn spec_kept(cs: Seq<Candidate>, offs: Seq<Option<i32>>) -> Seq<(Candidate, i32)>
    decreases cs.len(),
{
    if cs.len() == 0 || offs.len() == 0 {
        Seq::empty()
    } else {
        let init = spec_kept(cs.drop_last(), offs.drop_last());
        match offs.last() {
            None => init,
            Some(o) => init + seq![(cs.last(), o)],
        }
    }
}

/// When every entry localizes, nothing is dropped at assembly: the kept
/// sequence is the candidates themselves, in order, each with its offset.
/// With the scanner's and the filter's exact contracts this pins the
/// extraction of a page with well-formed and malformed entries to exactly
/// the well-formed ones, in document order.
pub proof fn lemma_kept_when_all_localize(cs: Seq<Candidate>, offs: Seq<Option<i32>>)
    requires
        offs.len() == cs.len(),
        forall|i: int| #![trigger offs[i]] 0 <= i < offs.len() ==> offs[i] is Some,
    ensures
        spec_kept(cs, offs).len() == cs.len(),
        forall|i: int|
            #![trigger spec_kept(cs, offs)[i]]
            0 <= i < cs.len() ==> spec_kept(cs, offs)[i].0 == cs[i] && Some(
                spec_kept(cs, offs)[i].1,
            ) == offs[i],
    decreases cs.len(),
{
    if cs.len() == 0 {
    } else {
        lemma_kept_when_all_localize(cs.drop_last(), offs.drop_last());
        let init = spec_kept(cs.drop_last(), offs.drop_last());
        assert(offs.last() is Some);
        assert forall|i: int| 0 <= i < cs.len() implies spec_kept(cs, offs)[i].0 == cs[i] && Some(
            spec_kept(cs, offs)[i].1,
        ) == offs[i] by {
            if i < cs.len() - 1 {
                assert(spec_kept(cs, offs)[i] == init[i]);
                assert(cs.drop_last()[i] == cs[i]);
                assert(offs.drop_last()[i] == offs[i]);
            }
        }
    }
}

/// A pickup built from a kept candidate: the category's label, and the
/// candidate's date at the collection time of day, in the zone offset the
/// localization returned.
pub open spec fn spec_pickup_of(p: Pickup, c: Candidate, off: i32, hour: u8, minute: u8) -> bool {
    &&& p.kind == c.kind
    &&& p.label@ == spec_kind_label(c.kind)
    &&& p.date == (LocalDateTime {
        year: c.year,
        month: c.month,
        day: c.day,
        hour,
        minute,
        second: 0,
        offset_seconds: off,
    })
}

/// The pickups correspond one to one, in order, to the kept candidates.
pub open spec fn spec_pickups_match(
    r: Seq<Pickup>,
    kept: Seq<(Candidate, i32)>,
    hour: u8,
    minute: u8,
) -> bool {
    &&& r.len() == kept.len()
    &&& forall|i: int|
        #![trigger r[i]]
        0 <= i < r.len() ==> spec_pickup_of(r[i], kept[i].0, kept[i].1, hour, minute)
}

/// Every localization outcome that is an offset is a legal zone offset.
pub open spec fn spec_offsets_ok(offs: Seq<Option<i32>>) -> bool {
    forall|i: int|
        #![trigger offs[i]]
        0 <= i < offs.len() ==> (offs[i] matches Some(o) ==> -86400 < o < 86400)
}

/// The records are exactly what the page's well-formed entries yield for
/// the given year under the given localization outcomes.
pub open spec fn spec_extraction_ok(
    r: Seq<Pickup>,
    markup: Seq<u8>,
    year: int,
    offs: Seq<Option<i32>>,
    hour: u8,
    minute: u8,
) -> bool {
    let cs = spec_candidates(spec_schedule_entries(markup), year);
    &&& offs.len() == cs.len()
    &&& spec_offsets_ok(offs)
    &&& spec_pickups_match(r, spec_kept(cs, offs), hour, minute)
}

/// Builds the pickup records for the candidates whose localization
/// succeeded, dropping the others; order is preserved.
pub fn assemble_with_offsets(
    cands: &Vec<Candidate>,
    offs: &Vec<Option<i32>>,
    hour: u8,
    minute: u8,
) -> (r: Vec<Pickup>)
    requires
        offs@.len() == cands@.len(),
        hour < 24,
        minute < 60,
        spec_offsets_ok(offs@),
        forall|i: int| #![trigger cands@[i]] 0 <= i < cands@.len() ==> cands@[i].wf(),
    ensures
        spec_pickups_match(r@, spec_kept(cands@, offs@), hour, minute),
        forall|i: int| #![trigger r@[i]] 0 <= i < r@.len() ==> r@[i].wf(),
{
    let n: usize = cands.len();
    let mut out: Vec<Pickup> = Vec::new();
    let mut i: usize = 0;
    while i < n
        invariant
            n == cands@.len(),
            offs@.len() == n,
            hour < 24,
            minute < 60,
            spec_offsets_ok(offs@),
            forall|j: int| #![trigger cands@[j]] 0 <= j < n ==> cands@[j].wf(),
            0 <= i <= n,
            spec_pickups_match(
                out@,
                spec_kept(cands@.subrange(0, i as int), offs@.subrange(0, i as int)),
                hour,
                minute,
            ),
            forall|j: int| #![trigger out@[j]] 0 <= j < out@.len() ==> out@[j].wf(),
        decreases n - i,
    {
        let ghost pre = out@;
        let ghost kept_pre = spec_kept(cands@.subrange(0, i as int), offs@.subrange(0, i as int));
        match offs[i] {
            None => {},
            Some(off) => {
                let c = cands[i];
                let date = LocalDateTime {
                    year: c.year,
                    month: c.month,
                    day: c.day,
                    hour,
                    minute,
                    second: 0,
                    offset_seconds: off,
                };
                let label = String::from_str(c.kind.label_str());
                out.push(Pickup::new(date, label, c.kind));
            },
        }
        proof {
            assert(cands@.subrange(0, i + 1).drop_last() =~= cands@.subrange(0, i as int));
            assert(offs@.subrange(0, i + 1).drop_last() =~= offs@.subrange(0, i as int));
            assert(cands@.subrange(0, i + 1).last() == cands@[i as int]);
            assert(offs@.subrange(0, i + 1).last() == offs@[i as int]);
            let kept_now = spec_kept(
                cands@.subrange(0, i + 1),
                offs@.subrange(0, i + 1),
            );
            match offs@[i as int] {
                None => {
                    assert(kept_now == kept_pre);
                },
                Some(o) => {
                    assert(kept_now == kept_pre + seq![(cands@[i as int], o)]);
                },
            }
        }
        i = i + 1;
    }
    proof {
        assert(cands@.subrange(0, n as int) =~= cands@);
        assert(offs@.subrange(0, n as int) =~= offs@);
    }
    out
}

/// Relies on chrono: builds the naive timestamp for the given date and
/// time of day and localizes it in the system's local zone with
/// Local.from_local_datetime(..).single(); the result is the zone's offset
/// from UTC in seconds when that local time exists and is unambiguous, and
/// nothing otherwise. A chrono FixedOffset is strictly less than one day in
/// magnitude.
#[verifier::external_body]
fn local_offset_seconds(year: u16, month: u8, day: u8, hour: u8, minute: u8) -> (r: Option<i32>)
    ensures
        r matches Some(o) ==> -86400 < o < 86400,
{
    let date = chrono::NaiveDate::from_ymd_opt(year as i32, month as u32, day as u32)?;
    let time = chrono::NaiveTime::from_hms_opt(hour as u32, minute as u32, 0)?;
    let naive = date.and_time(time);
    let localized = chrono::TimeZone::from_local_datetime(&chrono::Local, &naive).single()?;
    Some(chrono::Offset::fix(localized.offset()).local_minus_utc())
}

/// Relies on chrono's Local::now: the current local date's year.
#[verifier::external_body]
fn current_year() -> (r: i32) {
    chrono::Datelike::year(&chrono::Local::now())
}

/// Extracts the pickup records a schedule page's markup yields for the
/// given year, with the fixed collection time of day. The result is exactly
/// the well-formed entries whose local timestamp exists and is unambiguous,
/// in document order; every malformed entry is skipped silently.
pub fn extract_pickups(markup: &[u8], year: i32, hour: u8, minute: u8) -> (r: Vec<Pickup>)
    requires
        hour < 24,
        minute < 60,
    ensures
        exists|offs: Seq<Option<i32>>|
            spec_extraction_ok(r@, markup@, year as int, offs, hour, minute),
        forall|i: int| #![trigger r@[i]] 0 <= i < r@.len() ==> r@[i].wf(),
{
    let entries = scan_document(markup);
    proof {
        assert(spec_entries_view(entries@) == spec_schedule_entries(markup@));
    }
    let cands = candidates_of(&entries, year);
    let n: usize = cands.len();
    let mut offs: Vec<Option<i32>> = Vec::new();
    let mut i: usize = 0;
    while i < n
        invariant
            n == cands@.len(),
            0 <= i <= n,
            offs@.len() == i,
            spec_offsets_ok(offs@),
        decreases n - i,
    {
        let c = cands[i];
        let o = local_offset_seconds(c.year, c.month, c.day, hour, minute);
        offs.push(o);
        i = i + 1;
    }
    let r = assemble_with_offsets(&cands, &offs, hour, minute);
    proof {
        assert(spec_extraction_ok(r@, markup@, year as int, offs@, hour, minute));
    }
    r
}

/// Extracts the pickups for the current year, as the schedule page shows
/// dates without one.
pub fn get_next_pickups(markup: &[u8], hour: u8, minute: u8) -> (r: Vec<Pickup>)
    requires
        hour < 24,
        minute < 60,
    ensures
        exists|year: int, offs: Seq<Option<i32>>|
            spec_extraction_ok(r@, markup@, year, offs, hour, minute),
        forall|i: int| #![trigger r@[i]] 0 <= i < r@.len() ==> r@[i].wf(),
{
    let year = current_year();
    let r = extract_pickups(markup, year, hour, minute);
    proof {
        let offs = choose|offs: Seq<Option<i32>>|
            spec_extraction_ok(r@, markup@, year as int, offs, hour, minute);
        assert(spec_extraction_ok(r@, markup@, year as int, offs, hour, minute));
    }
    r
}

/// One candidate of the address lookup's response: its display value and
/// the location of its schedule page.
#[derive(Clone, Debug)]
pub struct AddressResponse {
    pub value: String,
    pub href: String,
}

/// Resolves an address lookup's response, given as its candidates in
/// response order: the first candidate is authoritative; an empty response
/// means the address is unknown.
pub fn get_address_page(entries: Vec<AddressResponse>) -> (r: Result<AddressResponse, RunError>)
    ensures
        entries@.len() == 0 ==> r == Err::<AddressResponse, RunError>(RunError::AddressNotFound),
        entries@.len() > 0 ==> (r matches Ok(a) && a == entries@[0]),
{
    let mut entries = entries;
    if entries.len() == 0 {
        Err(RunError::AddressNotFound)
    } else {
        Ok(entries.remove(0))
    }
}

} // verus!
