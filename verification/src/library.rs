//! The local music catalog: which URIs belong to the music directory, the
//! menu, the playlists read from `.m3u` files and their tracks' titles, and
//! the tracks offered for shuffling.
use vstd::prelude::*;
use crate::ipv4::{digits_value, is_digit, split_chars, split_on};
use crate::text::{
    ascii_case_eq, chars_of, decimal, decimal2, eq_ignore_ascii_case, has_prefix, lower_chars, owned,
    push_decimal, push_decimal2, push_str, str_eq, str_starts_with, string_of, to_ascii_lower, trim,
    trim_chars,
};

verus! {

// ---------------------------------------------------------------------------
// Paths, through std
// ---------------------------------------------------------------------------

/// What `Path::starts_with` answers: whether `base`'s components begin
/// `path`'s.
pub uninterp spec fn path_under(path: Seq<char>, base: Seq<char>) -> bool;

/// `Path::new(path).starts_with(base)`. Stated: the answer is `path_under`.
#[verifier::external_body]
pub(crate) fn path_starts_with(path: &str, base: &str) -> (r: bool)
    ensures
        r == path_under(path@, base@),
{
    std::path::Path::new(path).starts_with(base)
}

/// What `Path::extension` gives: the text after the final component's last
/// dot, if it has one that does not start the name.
pub uninterp spec fn extension_of(path: Seq<char>) -> Option<Seq<char>>;

/// `Path::new(path).extension()` as text. Stated: the result is
/// `extension_of`.
#[verifier::external_body]
pub(crate) fn path_extension(path: &str) -> (r: Option<String>)
    ensures
        match r {
            Some(e) => extension_of(path@) == Some(e@),
            None => extension_of(path@) is None,
        },
{
    std::path::Path::new(path).extension().and_then(|value| value.to_str()).map(|value| value.to_string())
}

/// What `Path::file_stem` gives: the final component without its extension.
pub uninterp spec fn stem_of(path: Seq<char>) -> Option<Seq<char>>;

/// `Path::new(path).file_stem()` as text. Stated: the result is `stem_of`.
#[verifier::external_body]
pub(crate) fn path_file_stem(path: &str) -> (r: Option<String>)
    ensures
        match r {
            Some(e) => stem_of(path@) == Some(e@),
            None => stem_of(path@) is None,
        },
{
    std::path::Path::new(path).file_stem().and_then(|value| value.to_str()).map(|value| value.to_string())
}

/// `SliceRandom::shuffle` with the thread's random generator. Stated: the
/// result holds the same URIs. Their order is random.
#[verifier::external_body]
fn shuffle_strings(v: &mut Vec<String>)
    ensures
        final(v)@.to_multiset() == old(v)@.to_multiset(),
{
    rand::seq::SliceRandom::shuffle(v.as_mut_slice(), &mut rand::thread_rng());
}

/// A text without its leading sign, if it has one.
pub open spec fn sign_stripped(s: Seq<char>) -> Seq<char> {
    if s.len() > 0 && (s[0] == '-' || s[0] == '+') {
        s.drop_first()
    } else {
        s
    }
}

/// The value `str::parse::<i64>` reads: an optional sign, then one or more
/// decimal digits, within the range of `i64`.
pub open spec fn i64_text(s: Seq<char>) -> Option<i64> {
    let negative = s.len() > 0 && s[0] == '-';
    let digits = sign_stripped(s);
    let magnitude = digits_value(digits) as int;
    let value = if negative {
        -magnitude
    } else {
        magnitude
    };
    if digits.len() > 0 && (forall|i: int| 0 <= i < digits.len() ==> #[trigger] is_digit(digits[i]))
        && i64::MIN <= value <= i64::MAX {
        Some(value as i64)
    } else {
        None
    }
}

proof fn lemma_prefix_value_bounded(ds: Seq<char>, k: int)
    requires
        0 <= k <= ds.len(),
    ensures
        digits_value(ds.take(k)) <= digits_value(ds),
    decreases ds.len(),
{
    if k < ds.len() {
        assert(ds.drop_last().take(k) =~= ds.take(k));
        lemma_prefix_value_bounded(ds.drop_last(), k);
    } else {
        assert(ds.take(k) =~= ds);
    }
}

/// Reads a decimal `i64` the way `str::parse::<i64>` does: an optional sign,
/// then one or more decimal digits, within the range of `i64`.
fn parse_i64(s: &str) -> (r: Option<i64>)
    ensures
        r == i64_text(s@),
{
    let cs = chars_of(s);
    let n = cs.len();
    let negative = n > 0 && cs[0] == '-';
    let signed = n > 0 && (cs[0] == '-' || cs[0] == '+');
    let start: usize = if signed {
        1
    } else {
        0
    };
    let ghost digits = if signed {
        s@.drop_first()
    } else {
        s@
    };
    proof {
        assert(digits =~= cs@.skip(start as int));
    }
    if start >= n {
        return None;
    }
    let mut acc: u64 = 0;
    let mut i: usize = start;
    proof {
        assert(cs@.subrange(start as int, start as int) =~= Seq::<char>::empty());
    }
    while i < n
        invariant
            start <= i <= n,
            n == cs@.len(),
            cs@ == s@,
            digits == cs@.skip(start as int),
            digits == sign_stripped(s@),
            forall|k: int| start <= k < i ==> #[trigger] is_digit(cs@[k]),
            acc == digits_value(cs@.subrange(start as int, i as int)),
            acc <= 9_223_372_036_854_775_808u64,
        decreases n - i,
    {
        let c = cs[i];
        if !('0' <= c && c <= '9') {
            proof {
                assert(digits[i - start] == c);
                assert(!is_digit(digits[i - start]));
            }
            return None;
        }
        let d: u64 = ((c as u32) - ('0' as u32)) as u64;
        let next: u128 = (acc as u128) * 10 + (d as u128);
        proof {
            assert(cs@.subrange(start as int, i + 1).drop_last() =~= cs@.subrange(start as int, i as int));
            assert(digits_value(cs@.subrange(start as int, i + 1)) == next);
        }
        if next > 9_223_372_036_854_775_808u128 {
            proof {
                assert(digits.take(i + 1 - start) =~= cs@.subrange(start as int, i + 1));
                lemma_prefix_value_bounded(digits, i + 1 - start);
            }
            return None;
        }
        acc = next as u64;
        i = i + 1;
    }
    proof {
        assert(cs@.subrange(start as int, n as int) =~= digits);
        assert forall|k: int| 0 <= k < digits.len() implies #[trigger] is_digit(digits[k]) by {
            assert(digits[k] == cs@[k + start]);
        }
    }
    let v: i128 = if negative {
        -(acc as i128)
    } else {
        acc as i128
    };
    if v > 9_223_372_036_854_775_807i128 {
        None
    } else {
        Some(v as i64)
    }
}

// ---------------------------------------------------------------------------
// The catalog
// ---------------------------------------------------------------------------

/// The audio files the catalog offers, in the order they are grouped.
pub open spec fn audio_extensions() -> Seq<Seq<char>> {
    seq![".mp3"@, ".flac"@, ".ogg"@, ".wav"@, ".m4a"@, ".opus"@]
}

#[derive(Debug, PartialEq, Eq)]
pub struct LocalLibraryItem {
    pub key: String,
    pub title: String,
    pub subtitle: String,
}

#[derive(Debug, PartialEq, Eq)]
pub struct PlaylistTrackEntry {
    pub uri: String,
    pub title: String,
    pub subtitle: String,
}

impl Clone for PlaylistTrackEntry {
    fn clone(&self) -> (r: Self)
        ensures
            r == *self,
    {
        PlaylistTrackEntry { uri: self.uri.clone(), title: self.title.clone(), subtitle: self.subtitle.clone() }
    }
}

#[derive(Debug, PartialEq, Eq)]
pub struct PlaylistEntry {
    pub uri: String,
    pub name: String,
    pub track_count: usize,
    pub tracks: Vec<PlaylistTrackEntry>,
}

pub open spec fn playlist_view(p: PlaylistEntry) -> (Seq<char>, Seq<char>, usize, Seq<PlaylistTrackEntry>) {
    (p.uri@, p.name@, p.track_count, p.tracks@)
}

pub open spec fn playlists_view(v: Seq<PlaylistEntry>) -> Seq<(Seq<char>, Seq<char>, usize, Seq<PlaylistTrackEntry>)> {
    v.map_values(|p: PlaylistEntry| playlist_view(p))
}

fn clone_tracks(v: &Vec<PlaylistTrackEntry>) -> (r: Vec<PlaylistTrackEntry>)
    ensures
        r@ == v@,
{
    let mut r: Vec<PlaylistTrackEntry> = Vec::new();
    let mut i: usize = 0;
    while i < v.len()
        invariant
            i <= v@.len(),
            r@ == v@.subrange(0, i as int),
        decreases v.len() - i,
    {
        r.push(v[i].clone());
        assert(v@.subrange(0, i + 1) =~= v@.subrange(0, i as int).push(v@[i as int]));
        i = i + 1;
    }
    assert(v@.subrange(0, v@.len() as int) =~= v@);
    r
}

impl Clone for PlaylistEntry {
    fn clone(&self) -> (r: Self)
        ensures
            playlist_view(r) == playlist_view(*self),
    {
        PlaylistEntry {
            uri: self.uri.clone(),
            name: self.name.clone(),
            track_count: self.track_count,
            tracks: clone_tracks(&self.tracks),
        }
    }
}

/// The catalog of the music directory: the playlists found under it.
#[derive(Debug)]
pub struct LocalMusicLibrary {
    pub music_dir: String,
    pub playlists: Vec<PlaylistEntry>,
}

/// A playlist as listed: with its tracks, or without them (and a count of 0)
/// when counts are not asked for.
pub open spec fn listed(p: PlaylistEntry, fetch_track_counts: bool) -> (
    Seq<char>,
    Seq<char>,
    usize,
    Seq<PlaylistTrackEntry>,
) {
    if fetch_track_counts {
        playlist_view(p)
    } else {
        (p.uri@, p.name@, 0, Seq::empty())
    }
}

/// A track URI the catalog owns: a legacy `local:` or `file:` URI, or a path
/// under the music directory.
pub open spec fn local_track_spec(music_dir: Seq<char>, uri: Seq<char>) -> bool {
    has_prefix(uri, "local:"@) || has_prefix(uri, "file:"@) || path_under(uri, music_dir)
}

/// A playlist URI the catalog owns: a legacy `m3u:` URI, or an `.m3u` file
/// (any case) under the music directory.
pub open spec fn local_playlist_spec(music_dir: Seq<char>, uri: Seq<char>) -> bool {
    has_prefix(uri, "m3u:"@) || (match extension_of(uri) {
        Some(e) => ascii_case_eq(e, "m3u"@),
        None => false,
    } && path_under(uri, music_dir))
}

/// The first playlist at position `i` with this URI.
pub open spec fn first_playlist(ps: Seq<PlaylistEntry>, uri: Seq<char>, i: int) -> bool {
    0 <= i < ps.len() && ps[i].uri@ == uri && forall|k: int| 0 <= k < i ==> (#[trigger] ps[k]).uri@ != uri
}

impl LocalMusicLibrary {
    /// An empty catalog of `music_dir`.
    pub fn new(music_dir: &str) -> (l: Self)
        ensures
            l.music_dir@ == music_dir@,
            l.playlists@.len() == 0,
    {
        LocalMusicLibrary { music_dir: owned(music_dir), playlists: Vec::new() }
    }

    /// The catalog of `music_dir` with the playlists scanned there.
    pub fn open(music_dir: &str, playlists: Vec<PlaylistEntry>) -> (l: Self)
        ensures
            l.music_dir@ == music_dir@,
            l.playlists == playlists,
    {
        LocalMusicLibrary { music_dir: owned(music_dir), playlists }
    }

    /// Replaces the playlists with a fresh scan.
    pub fn refresh(&mut self, playlists: Vec<PlaylistEntry>)
        ensures
            final(self).music_dir == old(self).music_dir,
            final(self).playlists == playlists,
    {
        self.playlists = playlists;
    }

    pub fn is_local_track_uri(&self, uri: &str) -> (r: bool)
        ensures
            r == local_track_spec(self.music_dir@, uri@),
    {
        str_starts_with(uri, "local:") || str_starts_with(uri, "file:") || path_starts_with(
            uri,
            self.music_dir.as_str(),
        )
    }

    pub fn is_local_playlist_uri(&self, uri: &str) -> (r: bool)
        ensures
            r == local_playlist_spec(self.music_dir@, uri@),
    {
        if str_starts_with(uri, "m3u:") {
            return true;
        }
        let m3u = match path_extension(uri) {
            Some(e) => eq_ignore_ascii_case(e.as_str(), "m3u"),
            None => false,
        };
        m3u && path_starts_with(uri, self.music_dir.as_str())
    }

    /// The library menu: playlists, recent, shuffle.
    pub fn menu_items(&self) -> (items: Vec<LocalLibraryItem>)
        ensures
            items@.map_values(|i: LocalLibraryItem| (i.key@, i.title@, i.subtitle@)) == seq![
                ("playlists"@, "Playlists"@, "Saved mixes"@),
                ("recent"@, "Recent"@, "Played lately"@),
                ("shuffle"@, "Shuffle"@, "Start something fun"@),
            ],
    {
        let items = vec![
            LocalLibraryItem {
                key: owned("playlists"),
                title: owned("Playlists"),
                subtitle: owned("Saved mixes"),
            },
            LocalLibraryItem { key: owned("recent"), title: owned("Recent"), subtitle: owned("Played lately") },
            LocalLibraryItem {
                key: owned("shuffle"),
                title: owned("Shuffle"),
                subtitle: owned("Start something fun"),
            },
        ];
        assert(items@.map_values(|i: LocalLibraryItem| (i.key@, i.title@, i.subtitle@)) =~= seq![
            ("playlists"@, "Playlists"@, "Saved mixes"@),
            ("recent"@, "Recent"@, "Played lately"@),
            ("shuffle"@, "Shuffle"@, "Start something fun"@),
        ]);
        items
    }

    /// The playlists, with their tracks or, when counts are not asked for,
    /// without them.
    pub fn list_playlists(&self, fetch_track_counts: bool) -> (r: Vec<PlaylistEntry>)
        ensures
            r@.len() == self.playlists@.len(),
            forall|i: int|
                0 <= i < r@.len() ==> playlist_view(#[trigger] r@[i]) == listed(
                    self.playlists@[i],
                    fetch_track_counts,
                ),
    {
        let mut r: Vec<PlaylistEntry> = Vec::new();
        let mut i: usize = 0;
        while i < self.playlists.len()
            invariant
                i <= self.playlists@.len(),
                r@.len() == i,
                forall|k: int|
                    0 <= k < i ==> playlist_view(#[trigger] r@[k]) == listed(self.playlists@[k], fetch_track_counts),
            decreases self.playlists.len() - i,
        {
            let mut p = self.playlists[i].clone();
            if !fetch_track_counts {
                p.track_count = 0;
                p.tracks = Vec::new();
            }
            r.push(p);
            i = i + 1;
        }
        r
    }

    pub fn playlist_count(&self) -> (n: usize)
        ensures
            n == self.playlists@.len(),
    {
        self.playlists.len()
    }

    /// The first playlist with this URI.
    pub fn playlist(&self, uri: &str) -> (r: Option<&PlaylistEntry>)
        ensures
            match r {
                Some(p) => exists|i: int| first_playlist(self.playlists@, uri@, i) && *p == self.playlists@[i],
                None => forall|k: int| 0 <= k < self.playlists@.len() ==> (#[trigger] self.playlists@[k]).uri@ != uri@,
            },
    {
        let mut i: usize = 0;
        while i < self.playlists.len()
            invariant
                i <= self.playlists@.len(),
                forall|k: int| 0 <= k < i ==> (#[trigger] self.playlists@[k]).uri@ != uri@,
            decreases self.playlists.len() - i,
        {
            if str_eq(self.playlists[i].uri.as_str(), uri) {
                assert(first_playlist(self.playlists@, uri@, i as int));
                return Some(&self.playlists[i]);
            }
            i = i + 1;
        }
        None
    }

    /// The audio files among `files` (the music directory's files, in the
    /// order it is walked): grouped by extension, in the order of
    /// `audio_extensions`, each group in walk order.
    pub fn collect_local_track_uris(&self, files: &Vec<String>) -> (r: Vec<String>)
        ensures
            crate::text::views(r@) == grouped_tracks(crate::text::views(files@)),
    {
        collect_tracks(files)
    }

    /// The audio files among `files`, in a random order.
    pub fn shuffle_track_uris(&self, files: &Vec<String>) -> (r: Vec<String>)
        ensures
            exists|grouped: Seq<String>|
                #[trigger] crate::text::views(grouped) == grouped_tracks(crate::text::views(files@))
                    && r@.to_multiset() == grouped.to_multiset(),
    {
        let mut tracks = collect_tracks(files);
        let ghost grouped = tracks@;
        shuffle_strings(&mut tracks);
        tracks
    }
}

/// The audio group a file belongs to: `.` and its extension in lower case.
pub open spec fn audio_key(path: Seq<char>) -> Option<Seq<char>> {
    match extension_of(path) {
        Some(e) => Some("."@ + to_ascii_lower(e)),
        None => None,
    }
}

/// The files of one group, in order.
pub open spec fn group_of(files: Seq<Seq<char>>, ext: Seq<char>) -> Seq<Seq<char>>
    decreases files.len(),
{
    if files.len() == 0 {
        Seq::empty()
    } else if audio_key(files.last()) == Some(ext) {
        group_of(files.drop_last(), ext).push(files.last())
    } else {
        group_of(files.drop_last(), ext)
    }
}

pub open spec fn groups_from(files: Seq<Seq<char>>, exts: Seq<Seq<char>>) -> Seq<Seq<char>>
    decreases exts.len(),
{
    if exts.len() == 0 {
        Seq::empty()
    } else {
        groups_from(files, exts.drop_last()) + group_of(files, exts.last())
    }
}

pub open spec fn grouped_tracks(files: Seq<Seq<char>>) -> Seq<Seq<char>> {
    groups_from(files, audio_extensions())
}

fn audio_key_of(path: &str) -> (r: Option<String>)
    ensures
        match r {
            Some(k) => audio_key(path@) == Some(k@),
            None => audio_key(path@) is None,
        },
{
    match path_extension(path) {
        Some(e) => {
            let mut out: Vec<char> = Vec::new();
            out.push('.');
            let lower = lower_chars(&chars_of(e.as_str()));
            let mut i: usize = 0;
            let ghost start = out@;
            while i < lower.len()
                invariant
                    i <= lower@.len(),
                    out@ == start + lower@.subrange(0, i as int),
                decreases lower.len() - i,
            {
                out.push(lower[i]);
                assert(lower@.subrange(0, i + 1) =~= lower@.subrange(0, i as int).push(lower@[i as int]));
                i = i + 1;
            }
            assert(lower@.subrange(0, lower@.len() as int) =~= lower@);
            assert(start =~= "."@) by {
                reveal_strlit(".");
            }
            Some(string_of(&out))
        },
        None => None,
    }
}

fn collect_group(files: &Vec<String>, ext: &str) -> (r: Vec<String>)
    ensures
        crate::text::views(r@) == group_of(crate::text::views(files@), ext@),
{
    let mut r: Vec<String> = Vec::new();
    let mut i: usize = 0;
    while i < files.len()
        invariant
            i <= files@.len(),
            crate::text::views(r@) == group_of(crate::text::views(files@.subrange(0, i as int)), ext@),
        decreases files.len() - i,
    {
        let ghost prev = r@;
        assert(crate::text::views(files@.subrange(0, i + 1)).drop_last() =~= crate::text::views(
            files@.subrange(0, i as int),
        ));
        let matches = match audio_key_of(files[i].as_str()) {
            Some(k) => str_eq(k.as_str(), ext),
            None => false,
        };
        if matches {
            r.push(files[i].clone());
            assert(crate::text::views(r@) =~= crate::text::views(prev).push(files@[i as int]@));
        }
        i = i + 1;
    }
    assert(files@.subrange(0, files@.len() as int) =~= files@);
    r
}

fn collect_tracks(files: &Vec<String>) -> (r: Vec<String>)
    ensures
        crate::text::views(r@) == grouped_tracks(crate::text::views(files@)),
{
    let exts = vec![".mp3", ".flac", ".ogg", ".wav", ".m4a", ".opus"];
    assert(exts@.map_values(|s: &'static str| s@) =~= audio_extensions());
    let ghost fs = crate::text::views(files@);
    let mut r: Vec<String> = Vec::new();
    let mut i: usize = 0;
    while i < exts.len()
        invariant
            i <= exts@.len(),
            exts@.map_values(|s: &'static str| s@) == audio_extensions(),
            fs == crate::text::views(files@),
            crate::text::views(r@) == groups_from(fs, audio_extensions().subrange(0, i as int)),
        decreases exts.len() - i,
    {
        assert(audio_extensions().subrange(0, i + 1).drop_last() =~= audio_extensions().subrange(0, i as int));
        assert(exts@[i as int]@ == audio_extensions()[i as int]);
        let group = collect_group(files, exts[i]);
        let mut k: usize = 0;
        let ghost start = r@;
        while k < group.len()
            invariant
                k <= group@.len(),
                r@ == start + group@.subrange(0, k as int),
            decreases group.len() - k,
        {
            r.push(group[k].clone());
            assert(group@.subrange(0, k + 1) =~= group@.subrange(0, k as int).push(group@[k as int]));
            k = k + 1;
        }
        assert(group@.subrange(0, group@.len() as int) =~= group@);
        assert(crate::text::views(r@) =~= crate::text::views(start) + crate::text::views(group@));
        i = i + 1;
    }
    assert(audio_extensions().subrange(0, 6) =~= audio_extensions());
    r
}

// ---------------------------------------------------------------------------
// Reading playlists
// ---------------------------------------------------------------------------

/// The text before the first `c` (all of it when there is none).
pub open spec fn before_char(s: Seq<char>, c: char) -> Seq<char>
    decreases s.len(),
{
    if s.len() == 0 || s[0] == c {
        Seq::empty()
    } else {
        seq![s[0]] + before_char(s.drop_first(), c)
    }
}

proof fn lemma_before_char(s: Seq<char>, c: char, n: int)
    requires
        0 <= n <= s.len(),
        forall|k: int| 0 <= k < n ==> s[k] != c,
        n == s.len() || s[n] == c,
    ensures
        before_char(s, c) == s.subrange(0, n),
    decreases n,
{
    if n == 0 {
        assert(s.subrange(0, 0) =~= Seq::<char>::empty());
    } else {
        lemma_before_char(s.drop_first(), c, n - 1);
        assert(s.subrange(0, n) =~= seq![s[0]] + s.drop_first().subrange(0, n - 1));
    }
}

/// Where `c` first occurs in `s`, if it does.
fn find_char(s: &Vec<char>, c: char) -> (r: Option<usize>)
    ensures
        match r {
            Some(n) => n < s@.len() && s@[n as int] == c && before_char(s@, c) == s@.subrange(0, n as int),
            None => before_char(s@, c) == s@ && forall|k: int| 0 <= k < s@.len() ==> s@[k] != c,
        },
{
    let mut n: usize = 0;
    while n < s.len()
        invariant
            n <= s@.len(),
            forall|k: int| 0 <= k < n ==> s@[k] != c,
        decreases s.len() - n,
    {
        if s[n] == c {
            proof {
                lemma_before_char(s@, c, n as int);
            }
            return Some(n);
        }
        n = n + 1;
    }
    proof {
        lemma_before_char(s@, c, s@.len() as int);
        assert(s@.subrange(0, s@.len() as int) =~= s@);
    }
    None
}

fn slice_chars(s: &Vec<char>, from: usize, to: usize) -> (t: Vec<char>)
    requires
        from <= to <= s@.len(),
    ensures
        t@ == s@.subrange(from as int, to as int),
{
    let mut t: Vec<char> = Vec::new();
    let mut i: usize = from;
    while i < to
        invariant
            from <= i <= to <= s@.len(),
            t@ == s@.subrange(from as int, i as int),
        decreases to - i,
    {
        t.push(s[i]);
        assert(s@.subrange(from as int, i + 1) =~= s@.subrange(from as int, i as int).push(s@[i as int]));
        i = i + 1;
    }
    t
}

/// A positive duration as `minutes:seconds`, seconds in two digits.
pub open spec fn duration_text(seconds: int) -> Seq<char> {
    decimal((seconds / 60) as nat) + ":"@ + decimal2((seconds % 60) as nat)
}

/// Formats a duration given in whole seconds.
pub fn format_duration(seconds: i64) -> (t: String)
    requires
        seconds >= 0,
    ensures
        t@ == duration_text(seconds as int),
{
    let mut out: Vec<char> = Vec::new();
    push_decimal(&mut out, (seconds / 60) as u64);
    push_str(&mut out, ":");
    push_decimal2(&mut out, (seconds % 60) as u64);
    string_of(&out)
}

/// The title and subtitle an `#EXTINF:` line gives the next track: the title
/// after the first comma (trimmed, not empty), and the duration before it
/// when it is a positive number of seconds (else `--:--`).
pub open spec fn extinf_spec(value: Seq<char>) -> Option<(Seq<char>, Seq<char>)> {
    let seconds_text = before_char(value, ',');
    if seconds_text.len() == value.len() {
        None
    } else {
        let title = trim(value.skip(seconds_text.len() as int + 1));
        let seconds: int = match i64_text(trim(seconds_text)) {
            Some(v) => v as int,
            None => -1,
        };
        if title.len() == 0 {
            None
        } else {
            Some((title, if seconds > 0 {
                duration_text(seconds)
            } else {
                "--:--"@
            }))
        }
    }
}

/// An `#EXTINF:` value needs a comma; its title is everything after the
/// first comma, later commas included, with surrounding whitespace trimmed,
/// and the value is refused when that title is blank. Its duration is the
/// whole number of seconds before the comma, shown as minutes and seconds
/// when positive, else `--:--`.
pub proof fn extinf_title_is_all_after_the_first_comma(value: Seq<char>, k: int)
    ensures
        (forall|j: int| 0 <= j < value.len() ==> value[j] != ',') ==> extinf_spec(value) is None,
        (0 <= k < value.len() && value[k] == ',' && forall|j: int| 0 <= j < k ==> value[j] != ',') ==> {
            &&& (extinf_spec(value) is Some <==> trim(value.skip(k + 1)).len() > 0)
            &&& (extinf_spec(value) matches Some(p) ==> p.0 == trim(value.skip(k + 1)))
            &&& (extinf_spec(value) matches Some(p) ==> p.1 == (match i64_text(trim(value.take(k))) {
                Some(n) => if n > 0 {
                    duration_text(n as int)
                } else {
                    "--:--"@
                },
                None => "--:--"@,
            }))
        },
{
    if forall|j: int| 0 <= j < value.len() ==> value[j] != ',' {
        lemma_before_char(value, ',', value.len() as int);
    }
    if 0 <= k < value.len() && value[k] == ',' && forall|j: int| 0 <= j < k ==> value[j] != ',' {
        lemma_before_char(value, ',', k);
        assert(value.subrange(0, k) =~= value.take(k));
    }
}

pub fn parse_extinf(value: &str) -> (r: Option<(String, String)>)
    ensures
        match r {
            Some((t, s)) => extinf_spec(value@) == Some((t@, s@)),
            None => extinf_spec(value@) is None,
        },
{
    let cs = chars_of(value);
    let comma = match find_char(&cs, ',') {
        Some(n) => n,
        None => {
            return None;
        },
    };
    let seconds_text = slice_chars(&cs, 0, comma);
    assert(comma < cs.len());
    let rest = slice_chars(&cs, comma + 1, cs.len());
    assert(rest@ =~= value@.skip(comma + 1));
    let title = trim_chars(&rest);
    if title.len() == 0 {
        return None;
    }
    let seconds_str = string_of(&trim_chars(&seconds_text));
    let seconds: i64 = match parse_i64(seconds_str.as_str()) {
        Some(v) => v,
        None => -1,
    };
    let subtitle = if seconds > 0 {
        format_duration(seconds)
    } else {
        owned("--:--")
    };
    Some((string_of(&title), subtitle))
}

/// Where `p` first occurs in `s` at or after `i`, or -1.
pub open spec fn find_from(s: Seq<char>, p: Seq<char>, i: int) -> int
    decreases s.len() - i,
{
    if i < 0 || i + p.len() > s.len() {
        -1
    } else if s.subrange(i, i + p.len()) == p {
        i
    } else if i >= s.len() {
        -1
    } else {
        find_from(s, p, i + 1)
    }
}

/// A file name's title: `NN - Title` loses its track number.
pub open spec fn compact_title_spec(title: Seq<char>) -> Seq<char> {
    let k = find_from(title, " - "@, 0);
    if k > 0 && (forall|i: int| 0 <= i < k ==> #[trigger] is_digit(title[i])) {
        title.skip(k + 3)
    } else {
        title
    }
}

fn find_sep(s: &Vec<char>) -> (k: Option<usize>)
    ensures
        match k {
            Some(n) => n == find_from(s@, " - "@, 0),
            None => find_from(s@, " - "@, 0) == -1,
        },
{
    proof {
        reveal_strlit(" - ");
    }
    let mut i: usize = 0;
    while i < s.len() && s.len() - i >= 3
        invariant
            " - "@ == seq![' ', '-', ' '],
            i <= s@.len(),
            find_from(s@, " - "@, 0) == find_from(s@, " - "@, i as int),
        decreases s.len() - i,
    {
        if s[i] == ' ' && s[i + 1] == '-' && s[i + 2] == ' ' {
            assert(s@.subrange(i as int, i + 3) =~= " - "@);
            return Some(i);
        }
        assert(s@.subrange(i as int, i + 3) != " - "@) by {
            if s@.subrange(i as int, i + 3) == " - "@ {
                assert(s@.subrange(i as int, i + 3)[0] == s@[i as int]);
                assert(s@.subrange(i as int, i + 3)[1] == s@[i + 1]);
                assert(s@.subrange(i as int, i + 3)[2] == s@[i + 2]);
            }
        }
        i = i + 1;
    }
    None
}

pub fn compact_file_title(title: &str) -> (r: String)
    ensures
        r@ == compact_title_spec(title@),
{
    let cs = chars_of(title);
    let k = match find_sep(&cs) {
        Some(k) => k,
        None => {
            return owned(title);
        },
    };
    if k == 0 {
        return owned(title);
    }
    proof {
        lemma_find_from_bounds(title@, " - "@, 0);
        reveal_strlit(" - ");
    }
    let mut i: usize = 0;
    while i < k
        invariant
            0 < k <= cs@.len(),
            k == find_from(title@, " - "@, 0),
            k + 3 <= cs@.len(),
            cs@ == title@,
            i <= k,
            forall|j: int| 0 <= j < i ==> #[trigger] is_digit(cs@[j]),
        decreases k - i,
    {
        if !(cs[i] >= '0' && cs[i] <= '9') {
            assert(!is_digit(title@[i as int]));
            return owned(title);
        }
        i = i + 1;
    }
    assert(k + 3 <= cs.len());
    let rest = slice_chars(&cs, k + 3, cs.len());
    assert(rest@ =~= title@.skip(k + 3));
    string_of(&rest)
}

proof fn lemma_find_from_bounds(s: Seq<char>, p: Seq<char>, i: int)
    ensures
        find_from(s, p, i) == -1 || (0 <= find_from(s, p, i) && find_from(s, p, i) + p.len() <= s.len()),
    decreases s.len() - i,
{
    if i >= 0 && i + p.len() <= s.len() && s.subrange(i, i + p.len()) != p && i < s.len() {
        lemma_find_from_bounds(s, p, i + 1);
    }
}

/// All leading byte-order marks dropped.
pub open spec fn strip_boms(s: Seq<char>) -> Seq<char>
    decreases s.len(),
{
    if s.len() > 0 && s[0] == '\u{feff}' {
        strip_boms(s.drop_first())
    } else {
        s
    }
}

/// A playlist line as read: trimmed, without leading byte-order marks.
pub open spec fn clean_line(line: Seq<char>) -> Seq<char> {
    strip_boms(trim(line))
}

/// The tracks a playlist names: each path line with the `#EXTINF:` details
/// read since the path line before it; other comments and blank lines are
/// skipped.
pub open spec fn scan_lines(
    lines: Seq<Seq<char>>,
    pending: Option<(Seq<char>, Seq<char>)>,
) -> Seq<(Seq<char>, Option<(Seq<char>, Seq<char>)>)>
    decreases lines.len(),
{
    if lines.len() == 0 {
        Seq::empty()
    } else {
        let l = clean_line(lines[0]);
        let rest = lines.drop_first();
        if l.len() == 0 {
            scan_lines(rest, pending)
        } else if has_prefix(l, "#EXTINF:"@) {
            scan_lines(rest, extinf_spec(l.skip(8)))
        } else if l[0] == '#' {
            scan_lines(rest, pending)
        } else {
            seq![(l, pending)] + scan_lines(rest, None)
        }
    }
}

/// A path line of a playlist, with the details read for it.
#[derive(Debug)]
pub struct TrackLine {
    pub path: String,
    pub extinf: Option<(String, String)>,
}

pub open spec fn opt_pair(p: Option<(String, String)>) -> Option<(Seq<char>, Seq<char>)> {
    match p {
        Some((a, b)) => Some((a@, b@)),
        None => None,
    }
}

pub open spec fn track_line_view(t: TrackLine) -> (Seq<char>, Option<(Seq<char>, Seq<char>)>) {
    (t.path@, opt_pair(t.extinf))
}

fn clean(line: &Vec<char>) -> (r: Vec<char>)
    ensures
        r@ == clean_line(line@),
{
    let t = trim_chars(line);
    let mut i: usize = 0;
    assert(t@.skip(0) =~= t@);
    while i < t.len() && t[i] == '\u{feff}'
        invariant
            i <= t@.len(),
            strip_boms(t@) == strip_boms(t@.skip(i as int)),
        decreases t.len() - i,
    {
        assert(t@.skip(i as int).drop_first() =~= t@.skip(i + 1));
        i = i + 1;
    }
    let r = slice_chars(&t, i, t.len());
    assert(r@ =~= t@.skip(i as int));
    r
}

/// Reads the tracks a playlist's text names.
pub fn playlist_track_lines(contents: &str) -> (tracks: Vec<TrackLine>)
    ensures
        tracks@.map_values(|t: TrackLine| track_line_view(t)) == scan_lines(split_on(contents@, '\n'), None),
{
    let cs = chars_of(contents);
    let lines = split_chars(&cs, '\n');
    let ghost all = split_on(contents@, '\n');
    let mut tracks: Vec<TrackLine> = Vec::new();
    let mut pending: Option<(String, String)> = None;
    let mut i: usize = 0;
    proof {
        assert(all.skip(0) =~= all);
    }
    while i < lines.len()
        invariant
            i <= lines@.len(),
            lines@.len() == all.len(),
            forall|k: int| 0 <= k < lines@.len() ==> #[trigger] lines@[k]@ == all[k],
            all == split_on(contents@, '\n'),
            tracks@.map_values(|t: TrackLine| track_line_view(t)) + scan_lines(all.skip(i as int), opt_pair(pending))
                == scan_lines(all, None),
        decreases lines.len() - i,
    {
        let ghost rest = all.skip(i as int);
        assert(rest[0] == all[i as int]);
        assert(rest.drop_first() =~= all.skip(i + 1));
        let l = clean(&lines[i]);
        let ghost before = tracks@.map_values(|t: TrackLine| track_line_view(t));
        if l.len() == 0 {
        } else if crate::text::chars_start_with(&l, &chars_of("#EXTINF:")) {
            proof {
                reveal_strlit("#EXTINF:");
            }
            let value = slice_chars(&l, 8, l.len());
            assert(value@ =~= l@.skip(8));
            pending = parse_extinf(string_of(&value).as_str());
        } else if l[0] == '#' {
        } else {
            let extinf = pending;
            pending = None;
            tracks.push(TrackLine { path: string_of(&l), extinf });
            assert(tracks@.map_values(|t: TrackLine| track_line_view(t)) =~= before.push(
                (l@, opt_pair(extinf)),
            ));
            assert(seq![(l@, opt_pair(extinf))] + scan_lines(all.skip(i + 1), None) =~= scan_lines(
                rest,
                opt_pair(extinf),
            ));
        }
        i = i + 1;
    }
    assert(all.skip(lines@.len() as int) =~= Seq::<Seq<char>>::empty());
    assert(tracks@.map_values(|t: TrackLine| track_line_view(t)) =~= tracks@.map_values(
        |t: TrackLine| track_line_view(t),
    ) + scan_lines(Seq::<Seq<char>>::empty(), opt_pair(pending)));
    tracks
}

/// Where a playlist's path line points: itself when absolute, else under the
/// playlist's directory.
pub fn resolve_entry_path(playlist_dir: &str, entry: &str) -> (r: String)
    ensures
        r@ == crate::checks::path_join_spec(playlist_dir@, entry@),
{
    crate::checks::path_join(playlist_dir, entry)
}

/// A track's entry: its `#EXTINF:` title when it fits in 28 characters, else
/// the file name's title; its `#EXTINF:` duration, else `--:--`.
pub open spec fn track_spec(uri: Seq<char>, extinf: Option<(Seq<char>, Seq<char>)>) -> (Seq<char>, Seq<char>, Seq<char>) {
    let fallback = compact_title_spec(
        match stem_of(uri) {
            Some(s) => s,
            None => "Unknown Track"@,
        },
    );
    let (title, subtitle) = match extinf {
        Some(p) => p,
        None => (fallback, "--:--"@),
    };
    (uri, if title.len() <= 28 {
        title
    } else {
        fallback
    }, subtitle)
}

/// The entry of a track that resolved to `uri` inside the music directory.
pub fn track_entry(uri: &str, extinf: Option<(String, String)>) -> (t: PlaylistTrackEntry)
    ensures
        (t.uri@, t.title@, t.subtitle@) == track_spec(uri@, opt_pair(extinf)),
{
    let stem = match path_file_stem(uri) {
        Some(s) => s,
        None => owned("Unknown Track"),
    };
    let fallback = compact_file_title(stem.as_str());
    let (title, subtitle) = match extinf {
        Some(p) => p,
        None => (fallback.clone(), owned("--:--")),
    };
    let title = if chars_of(title.as_str()).len() <= 28 {
        title
    } else {
        fallback
    };
    PlaylistTrackEntry { uri: owned(uri), title, subtitle }
}

/// The entry of the playlist file at `path` with the tracks it resolved to:
/// named by the file's stem.
pub fn playlist_entry(path: &str, tracks: Vec<PlaylistTrackEntry>) -> (p: PlaylistEntry)
    ensures
        p.uri@ == path@,
        p.name@ == (match stem_of(path@) {
            Some(s) => s,
            None => Seq::<char>::empty(),
        }),
        p.track_count == tracks@.len(),
        p.tracks == tracks,
{
    let name = match path_file_stem(path) {
        Some(s) => s,
        None => String::new(),
    };
    let n = tracks.len();
    PlaylistEntry { uri: owned(path), name, track_count: n, tracks }
}


/// What the file system said of one resolved path line: its canonical path
/// and whether that is a regular file, or nothing when it could not be
/// resolved.
pub open spec fn found_view(f: Option<(String, bool)>) -> Option<(Seq<char>, bool)> {
    match f {
        Some((c, is_file)) => Some((c@, is_file)),
        None => None,
    }
}

pub open spec fn track_entry_view(t: PlaylistTrackEntry) -> (Seq<char>, Seq<char>, Seq<char>) {
    (t.uri@, t.title@, t.subtitle@)
}

/// The tracks a playlist keeps: each path line whose target resolved to a
/// file inside the music directory, named by its canonical path, with the
/// details read for it.
pub open spec fn kept_tracks(
    lines: Seq<(Seq<char>, Option<(Seq<char>, Seq<char>)>)>,
    found: Seq<Option<(Seq<char>, bool)>>,
    music_root: Seq<char>,
) -> Seq<(Seq<char>, Seq<char>, Seq<char>)>
    decreases lines.len(),
{
    if lines.len() == 0 || found.len() == 0 {
        Seq::empty()
    } else {
        let rest = kept_tracks(lines.drop_first(), found.drop_first(), music_root);
        match found[0] {
            Some((c, is_file)) => if is_file && path_under(c, music_root) {
                seq![track_spec(c, lines[0].1)] + rest
            } else {
                rest
            },
            None => rest,
        }
    }
}

fn clone_extinf(e: &Option<(String, String)>) -> (r: Option<(String, String)>)
    ensures
        opt_pair(r) == opt_pair(*e),
{
    match e {
        Some((a, b)) => Some((a.clone(), b.clone())),
        None => None,
    }
}

/// The paths a playlist's lines point at, in order: each path line joined
/// to the playlist's directory unless it is absolute. These are what the
/// file system is asked to resolve.
pub fn playlist_entry_targets(playlist_dir: &str, contents: &str) -> (targets: Vec<String>)
    ensures
        targets@.len() == scan_lines(split_on(contents@, '\n'), None).len(),
        forall|i: int|
            0 <= i < targets@.len() ==> #[trigger] targets@[i]@ == crate::checks::path_join_spec(
                playlist_dir@,
                scan_lines(split_on(contents@, '\n'), None)[i].0,
            ),
{
    let lines = playlist_track_lines(contents);
    let ghost all = scan_lines(split_on(contents@, '\n'), None);
    let mut targets: Vec<String> = Vec::new();
    let mut i: usize = 0;
    while i < lines.len()
        invariant
            i <= lines@.len(),
            targets@.len() == i,
            lines@.map_values(|t: TrackLine| track_line_view(t)) == all,
            forall|k: int|
                0 <= k < i ==> #[trigger] targets@[k]@ == crate::checks::path_join_spec(
                    playlist_dir@,
                    all[k].0,
                ),
        decreases lines.len() - i,
    {
        assert(track_line_view(lines@[i as int]) == all[i as int]);
        let t = resolve_entry_path(playlist_dir, lines[i].path.as_str());
        targets.push(t);
        i = i + 1;
    }
    targets
}

/// Reads a playlist's tracks from its text, given what the file system said
/// of each path line's target (`found`, one for each path line, in order):
/// lines whose target is missing, is no file or lies outside `music_root`
/// are dropped, and the details read before them with them.
pub fn playlist_tracks(contents: &str, music_root: &str, found: &Vec<Option<(String, bool)>>) -> (tracks: Vec<
    PlaylistTrackEntry,
>)
    requires
        found@.len() == scan_lines(split_on(contents@, '\n'), None).len(),
    ensures
        tracks@.map_values(|t: PlaylistTrackEntry| track_entry_view(t)) == kept_tracks(
            scan_lines(split_on(contents@, '\n'), None),
            found@.map_values(|f: Option<(String, bool)>| found_view(f)),
            music_root@,
        ),
{
    let lines = playlist_track_lines(contents);
    let ghost all = scan_lines(split_on(contents@, '\n'), None);
    let ghost fv = found@.map_values(|f: Option<(String, bool)>| found_view(f));
    let mut tracks: Vec<PlaylistTrackEntry> = Vec::new();
    let mut i: usize = 0;
    proof {
        assert(all.skip(0) =~= all);
        assert(fv.skip(0) =~= fv);
        assert(tracks@.map_values(|t: PlaylistTrackEntry| track_entry_view(t)) =~= Seq::empty());
    }
    while i < lines.len()
        invariant
            i <= lines@.len(),
            lines@.map_values(|t: TrackLine| track_line_view(t)) == all,
            found@.len() == all.len(),
            fv == found@.map_values(|f: Option<(String, bool)>| found_view(f)),
            tracks@.map_values(|t: PlaylistTrackEntry| track_entry_view(t)) + kept_tracks(
                all.skip(i as int),
                fv.skip(i as int),
                music_root@,
            ) == kept_tracks(all, fv, music_root@),
        decreases lines.len() - i,
    {
        let ghost before = tracks@.map_values(|t: PlaylistTrackEntry| track_entry_view(t));
        proof {
            assert(track_line_view(lines@[i as int]) == all[i as int]);
            assert(all.skip(i as int)[0] == all[i as int]);
            assert(fv.skip(i as int)[0] == fv[i as int]);
            assert(all.skip(i as int).drop_first() =~= all.skip(i + 1));
            assert(fv.skip(i as int).drop_first() =~= fv.skip(i + 1));
        }
        match &found[i] {
            Some((c, is_file)) => {
                if *is_file && path_starts_with(c.as_str(), music_root) {
                    let extinf = clone_extinf(&lines[i].extinf);
                    let t = track_entry(c.as_str(), extinf);
                    tracks.push(t);
                    proof {
                        assert(tracks@.map_values(|t: PlaylistTrackEntry| track_entry_view(t)) =~= before.push(
                            track_spec(c@, all[i as int].1),
                        ));
                    }
                }
            },
            None => {},
        }
        i = i + 1;
    }
    proof {
        assert(all.skip(i as int).len() == 0);
        assert(tracks@.map_values(|t: PlaylistTrackEntry| track_entry_view(t)) =~= tracks@.map_values(
            |t: PlaylistTrackEntry| track_entry_view(t),
        ) + kept_tracks(all.skip(i as int), fv.skip(i as int), music_root@));
    }
    tracks
}

/// The playlist at `path` read from its text: named by the file's stem, with
/// the tracks `playlist_tracks` keeps.
pub fn playlist_from_text(
    path: &str,
    contents: &str,
    music_root: &str,
    found: &Vec<Option<(String, bool)>>,
) -> (p: PlaylistEntry)
    requires
        found@.len() == scan_lines(split_on(contents@, '\n'), None).len(),
    ensures
        p.uri@ == path@,
        p.name@ == (match stem_of(path@) {
            Some(s) => s,
            None => Seq::<char>::empty(),
        }),
        p.track_count == p.tracks@.len(),
        p.tracks@.map_values(|t: PlaylistTrackEntry| track_entry_view(t)) == kept_tracks(
            scan_lines(split_on(contents@, '\n'), None),
            found@.map_values(|f: Option<(String, bool)>| found_view(f)),
            music_root@,
        ),
{
    let tracks = playlist_tracks(contents, music_root, found);
    playlist_entry(path, tracks)
}

/// Whether a file is a playlist: its extension is `m3u`, in any ASCII case.
pub fn is_playlist_file(path: &str) -> (r: bool)
    ensures
        r == (extension_of(path@) matches Some(e) && crate::text::ascii_case_eq(e, "m3u"@)),
{
    match path_extension(path) {
        Some(e) => crate::text::eq_ignore_ascii_case(e.as_str(), "m3u"),
        None => false,
    }
}

} // verus!
