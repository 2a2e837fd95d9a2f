//! The markup grammar of the schedule page, as this library reads it.
//!
//! A schedule page carries a pickup-days region; inside it, each heading
//! element holds a date line ("weekday day. month"), and the fragment that
//! follows a heading, up to the next heading, carries one waste-icon class
//! per pickup, whose suffix after the double dash names the category token.
//! The scanner works on the raw bytes of the page and returns, in document
//! order, one (date line, category token) pair per icon.

use vstd::prelude::*;
use vstd::slice::slice_subrange;
use vstd::slice::slice_to_vec;

verus! {

/// The marker that opens the pickup-days region.
pub open spec fn spec_region_marker() -> Seq<u8> {
    seq![
        ('p' as u8), ('i' as u8), ('c' as u8), ('k' as u8), ('u' as u8), ('p' as u8),
        ('-' as u8), ('d' as u8), ('a' as u8), ('y' as u8), ('s' as u8), ('-' as u8),
        ('s' as u8), ('m' as u8), ('a' as u8), ('l' as u8), ('l' as u8),
    ]
}

/// The opening tag of a date heading.
pub open spec fn spec_heading_open() -> Seq<u8> {
    seq![('<' as u8), ('h' as u8), ('3' as u8), ('>' as u8)]
}

/// The closing tag of a date heading.
pub open spec fn spec_heading_close() -> Seq<u8> {
    seq![('<' as u8), ('/' as u8), ('h' as u8), ('3' as u8), ('>' as u8)]
}

/// The class prefix whose suffix names a category token.
pub open spec fn spec_icon_marker() -> Seq<u8> {
    seq![
        ('w' as u8), ('a' as u8), ('s' as u8), ('t' as u8), ('e' as u8), ('-' as u8),
        ('i' as u8), ('c' as u8), ('o' as u8), ('n' as u8), ('-' as u8), ('-' as u8),
    ]
}

/// The pattern stands in the text at position `i`.
pub open spec fn spec_match_at(h: Seq<u8>, pat: Seq<u8>, i: int) -> bool {
    &&& 0 <= i
    &&& i + pat.len() <= h.len()
    &&& h.subrange(i, i + pat.len()) == pat
}

/// The first position at or after `from` where the pattern stands.
pub open spec fn spec_find(h: Seq<u8>, pat: Seq<u8>, from: int) -> Option<int>
    decreases h.len() - from,
    when 0 <= from && 1 <= pat.len()
{
    if from + pat.len() > h.len() {
        None
    } else if spec_match_at(h, pat, from) {
        Some(from)
    } else {
        spec_find(h, pat, from + 1)
    }
}

/// A found position is a match and lies between `from` and the end.
pub proof fn lemma_find_props(h: Seq<u8>, pat: Seq<u8>, from: int)
    requires
        0 <= from,
        1 <= pat.len(),
    ensures
        spec_find(h, pat, from) matches Some(o) ==> from <= o && o + pat.len() <= h.len()
            && spec_match_at(h, pat, o),
    decreases h.len() - from,
{
    if from + pat.len() > h.len() {
    } else if spec_match_at(h, pat, from) {
    } else {
        lemma_find_props(h, pat, from + 1);
    }
}

pub fn match_at(h: &[u8], pat: &[u8], i: usize) -> (r: bool)
    requires
        i + pat.len() <= h.len(),
    ensures
        r == spec_match_at(h@, pat@, i as int),
{
    let n: usize = h.len();
    let m: usize = pat.len();
    let mut j: usize = 0;
    while j < m
        invariant
            n == h@.len(),
            m == pat@.len(),
            i + m <= n,
            0 <= j <= m,
            forall|k: int| 0 <= k < j ==> h@[i + k] == pat@[k],
        decreases m - j,
    {
        if h[i + j] != pat[j] {
            proof {
                assert(h@.subrange(i as int, i + m)[j as int] == h@[i + j]);
            }
            return false;
        }
        j = j + 1;
    }
    proof {
        assert(h@.subrange(i as int, i + m) =~= pat@);
    }
    true
}

pub fn find(h: &[u8], pat: &[u8], from: usize) -> (r: Option<usize>)
    requires
        1 <= pat.len(),
    ensures
        match r {
            Some(i) => spec_find(h@, pat@, from as int) == Some(i as int),
            None => spec_find(h@, pat@, from as int) is None,
        },
{
    let n: usize = h.len();
    let m: usize = pat.len();
    if m > n || from > n - m {
        return None;
    }
    let last: usize = n - m;
    let mut i: usize = from;
    while i <= last
        invariant
            n == h@.len(),
            m == pat@.len(),
            1 <= m,
            m <= n,
            last == n - m,
            from <= i <= last + 1,
            spec_find(h@, pat@, from as int) == spec_find(h@, pat@, i as int),
        decreases last + 1 - i,
    {
        if match_at(h, pat, i) {
            return Some(i);
        }
        proof {
            assert(spec_find(h@, pat@, i as int) == spec_find(h@, pat@, i + 1));
        }
        i = i + 1;
    }
    None
}

pub open spec fn spec_is_lower(b: u8) -> bool {
    ('a' as u8) <= b <= ('z' as u8)
}

/// The length of the run of lower-case letters starting at `i`.
pub open spec fn spec_run_len(h: Seq<u8>, i: int) -> int
    decreases h.len() - i,
    when 0 <= i <= h.len()
{
    if i < h.len() && spec_is_lower(h[i]) {
        1 + spec_run_len(h, i + 1)
    } else {
        0
    }
}

pub fn run_len(h: &[u8], i: usize) -> (r: usize)
    requires
        i <= h.len(),
    ensures
        r as int == spec_run_len(h@, i as int),
        i + r <= h@.len(),
{
    let n: usize = h.len();
    let mut j: usize = i;
    while j < n && ('a' as u8) <= h[j] && h[j] <= ('z' as u8)
        invariant
            n == h@.len(),
            i <= j <= n,
            spec_run_len(h@, i as int) == (j - i) + spec_run_len(h@, j as int),
        decreases n - j,
    {
        j = j + 1;
    }
    j - i
}

/// The category token standing right after an icon marker: the maximal run
/// of lower-case letters.
pub open spec fn spec_token_at(h: Seq<u8>, p: int) -> Seq<u8> {
    h.subrange(p, p + spec_run_len(h, p))
}

/// The category tokens of the icons between `from` and `end`, in order.
pub open spec fn spec_icons(h: Seq<u8>, from: int, end: int) -> Seq<Seq<u8>>
    decreases h.len() - from,
    when 0 <= from <= h.len()
    via spec_icons_dec
{
    match spec_find(h, spec_icon_marker(), from) {
        None => Seq::empty(),
        Some(o) => {
            if o < end {
                seq![spec_token_at(h, o + 12)] + spec_icons(h, o + 12, end)
            } else {
                Seq::empty()
            }
        },
    }
}

#[via_fn]
proof fn spec_icons_dec(h: Seq<u8>, from: int, end: int) {
    lemma_find_props(h, spec_icon_marker(), from);
}

/// One raw scanner hit: the heading's date line and one icon's token.
pub struct RawEntry {
    pub text: Vec<u8>,
    pub token: Vec<u8>,
}

/// The raw entries carry exactly the given tokens, in order, each paired
/// with the given date line.
pub open spec fn spec_tokens_match(r: Seq<RawEntry>, text: Seq<u8>, toks: Seq<Seq<u8>>) -> bool {
    &&& r.len() == toks.len()
    &&& forall|i: int| #![trigger r[i]] 0 <= i < r.len() ==> r[i].text@ == text && r[i].token@ == toks[i]
}

/// The (date line, token) pairs of the document from `pos` on, in document
/// order: each heading's date line paired with every icon token of the
/// fragment between that heading and the next.
pub open spec fn spec_entries(h: Seq<u8>, pos: int) -> Seq<(Seq<u8>, Seq<u8>)>
    decreases h.len() - pos,
    when 0 <= pos <= h.len()
    via spec_entries_dec
{
    match spec_find(h, spec_heading_open(), pos) {
        None => Seq::empty(),
        Some(o) => {
            match spec_find(h, spec_heading_close(), o + 4) {
                None => Seq::empty(),
                Some(c) => {
                    let text = h.subrange(o + 4, c);
                    let seg_end = match spec_find(h, spec_heading_open(), c + 5) {
                        None => h.len() as int,
                        Some(nx) => nx,
                    };
                    spec_icons(h, c + 5, seg_end).map_values(|t: Seq<u8>| (text, t))
                        + spec_entries(h, seg_end)
                },
            }
        },
    }
}

#[via_fn]
proof fn spec_entries_dec(h: Seq<u8>, pos: int) {
    lemma_find_props(h, spec_heading_open(), pos);
    match spec_find(h, spec_heading_open(), pos) {
        None => {},
        Some(o) => {
            lemma_find_props(h, spec_heading_close(), o + 4);
            match spec_find(h, spec_heading_close(), o + 4) {
                None => {},
                Some(c) => {
                    lemma_find_props(h, spec_heading_open(), c + 5);
                },
            }
        },
    }
}

/// The pairs of the whole document: empty when no pickup-days region
/// stands in it, else the pairs from the region marker on.
pub open spec fn spec_schedule_entries(h: Seq<u8>) -> Seq<(Seq<u8>, Seq<u8>)> {
    match spec_find(h, spec_region_marker(), 0) {
        None => Seq::empty(),
        Some(p) => spec_entries(h, p),
    }
}

/// The pairs a sequence of raw entries carries.
pub open spec fn spec_entries_view(v: Seq<RawEntry>) -> Seq<(Seq<u8>, Seq<u8>)> {
    Seq::new(v.len(), |i: int| (v[i].text@, v[i].token@))
}

fn icon_marker_bytes() -> (r: [u8; 12])
    ensures
        r@ == spec_icon_marker(),
{
    let r: [u8; 12] = [
        ('w' as u8), ('a' as u8), ('s' as u8), ('t' as u8), ('e' as u8), ('-' as u8),
        ('i' as u8), ('c' as u8), ('o' as u8), ('n' as u8), ('-' as u8), ('-' as u8),
    ];
    proof {
        assert(r@ =~= spec_icon_marker());
    }
    r
}

fn heading_open_bytes() -> (r: [u8; 4])
    ensures
        r@ == spec_heading_open(),
{
    let r: [u8; 4] = [('<' as u8), ('h' as u8), ('3' as u8), ('>' as u8)];
    proof {
        assert(r@ =~= spec_heading_open());
    }
    r
}

fn heading_close_bytes() -> (r: [u8; 5])
    ensures
        r@ == spec_heading_close(),
{
    let r: [u8; 5] = [('<' as u8), ('/' as u8), ('h' as u8), ('3' as u8), ('>' as u8)];
    proof {
        assert(r@ =~= spec_heading_close());
    }
    r
}

fn region_marker_bytes() -> (r: [u8; 17])
    ensures
        r@ == spec_region_marker(),
{
    let r: [u8; 17] = [
        ('p' as u8), ('i' as u8), ('c' as u8), ('k' as u8), ('u' as u8), ('p' as u8),
        ('-' as u8), ('d' as u8), ('a' as u8), ('y' as u8), ('s' as u8), ('-' as u8),
        ('s' as u8), ('m' as u8), ('a' as u8), ('l' as u8), ('l' as u8),
    ];
    proof {
        assert(r@ =~= spec_region_marker());
    }
    r
}

/// Collects the icon tokens between `from` and `end`, each paired with a
/// copy of the heading's date line.
fn icon_entries(h: &[u8], text: &[u8], from: usize, end: usize) -> (r: Vec<RawEntry>)
    requires
        from <= h.len(),
    ensures
        spec_tokens_match(r@, text@, spec_icons(h@, from as int, end as int)),
    decreases h.len() - from,
{
    let marker = icon_marker_bytes();
    let found = find(h, marker.as_slice(), from);
    proof {
        lemma_find_props(h@, spec_icon_marker(), from as int);
    }
    match found {
        None => Vec::new(),
        Some(o) => {
            if o < end {
                let rl = run_len(h, o + 12);
                let token = slice_to_vec(slice_subrange(h, o + 12, o + 12 + rl));
                let head = RawEntry { text: slice_to_vec(text), token };
                let mut out: Vec<RawEntry> = Vec::new();
                out.push(head);
                let mut rest = icon_entries(h, text, o + 12, end);
                let ghost rest_snap = rest@;
                out.append(&mut rest);
                proof {
                    let icons = spec_icons(h@, from as int, end as int);
                    assert(icons == seq![spec_token_at(h@, o + 12)] + spec_icons(
                        h@,
                        o + 12,
                        end as int,
                    ));
                    assert(out@.len() == icons.len());
                    assert forall|i: int| #![trigger out@[i]] 0 <= i < out@.len() implies out@[
                        i
                    ].text@ == text@ && out@[i].token@ == icons[i] by {
                        if i >= 1 {
                            assert(out@[i] == rest_snap[i - 1]);
                            assert(icons[i] == spec_icons(h@, o + 12, end as int)[i - 1]);
                        }
                    }
                    assert(spec_tokens_match(out@, text@, icons));
                }
                out
            } else {
                Vec::new()
            }
        },
    }
}

/// Collects the (date line, token) pairs from `pos` on.
fn scan_from(h: &[u8], pos: usize) -> (r: Vec<RawEntry>)
    requires
        pos <= h.len(),
    ensures
        r@.len() == spec_entries(h@, pos as int).len(),
        forall|i: int|
            0 <= i < r@.len() ==> r@[i].text@ == spec_entries(h@, pos as int)[i].0
                && r@[i].token@ == spec_entries(h@, pos as int)[i].1,
    decreases h.len() - pos,
{
    let open_tag = heading_open_bytes();
    let close_tag = heading_close_bytes();
    let found_open = find(h, open_tag.as_slice(), pos);
    proof {
        lemma_find_props(h@, spec_heading_open(), pos as int);
    }
    match found_open {
        None => Vec::new(),
        Some(o) => {
            let found_close = find(h, close_tag.as_slice(), o + 4);
            proof {
                lemma_find_props(h@, spec_heading_close(), o + 4);
            }
            match found_close {
                None => Vec::new(),
                Some(c) => {
                    let text = slice_subrange(h, o + 4, c);
                    let found_next = find(h, open_tag.as_slice(), c + 5);
                    proof {
                        lemma_find_props(h@, spec_heading_open(), c + 5);
                    }
                    let seg_end: usize = match found_next {
                        None => h.len(),
                        Some(nx) => nx,
                    };
                    let mut out = icon_entries(h, text, c + 5, seg_end);
                    let ghost head_snap = out@;
                    let mut rest = scan_from(h, seg_end);
                    let ghost rest_snap = rest@;
                    out.append(&mut rest);
                    proof {
                        let icons = spec_icons(h@, c + 5, seg_end as int);
                        let mapped = icons.map_values(|t: Seq<u8>| (text@, t));
                        let entries = spec_entries(h@, pos as int);
                        assert(entries == mapped + spec_entries(h@, seg_end as int));
                        assert(forall|i: int|
                            0 <= i < head_snap.len() ==> out@[i] == head_snap[i] && entries[i]
                                == (#[trigger] mapped[i]) && mapped[i] == (text@, icons[i]));
                        assert(forall|i: int|
                            head_snap.len() <= i < out@.len() ==> out@[i] == rest_snap[i
                                - head_snap.len()] && entries[i] == spec_entries(
                                h@,
                                seg_end as int,
                            )[i - head_snap.len()]);
                    }
                    out
                },
            }
        },
    }
}

/// Scans a whole document for its (date line, category token) pairs.
pub fn scan_document(h: &[u8]) -> (r: Vec<RawEntry>)
    ensures
        spec_entries_view(r@) =~= spec_schedule_entries(h@),
{
    let marker = region_marker_bytes();
    let found = find(h, marker.as_slice(), 0);
    proof {
        lemma_find_props(h@, spec_region_marker(), 0);
    }
    match found {
        None => Vec::new(),
        Some(p) => scan_from(h, p),
    }
}

} // verus!
