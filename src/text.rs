//! Paths and display names as character sequences.
use vstd::prelude::*;
use vstd::string::*;

verus! {

/// Index in `p` at which the last component starts: just after the last
/// `'/'`, or 0 when `p` holds no `'/'`.
pub open spec fn name_start(p: Seq<char>) -> nat
    decreases p.len(),
{
    if p.len() == 0 {
        0
    } else if p.last() == '/' {
        p.len()
    } else {
        name_start(p.drop_last())
    }
}

/// The last component of a path: what follows its last `'/'`.
pub open spec fn file_name(p: Seq<char>) -> Seq<char> {
    p.subrange(name_start(p) as int, p.len() as int)
}

proof fn lemma_name_start_bound(p: Seq<char>)
    ensures
        name_start(p) <= p.len(),
        name_start(p) > 0 ==> p[name_start(p) - 1] == '/',
        forall|j: int| name_start(p) <= j < p.len() ==> p[j] != '/',
    decreases p.len(),
{
    if p.len() > 0 && p.last() != '/' {
        let q = p.drop_last();
        lemma_name_start_bound(q);
        assert forall|j: int| name_start(p) <= j < p.len() implies p[j] != '/' by {
            if j < q.len() {
                assert(p[j] == q[j]);
            }
        }
    }
}

/// The characters of `s`, one by one.
pub fn chars_of(s: &str) -> (r: Vec<char>)
    ensures
        r@ == s@,
{
    let n = s.unicode_len();
    let mut r: Vec<char> = Vec::new();
    let mut i: usize = 0;
    while i < n
        invariant
            n == s@.len(),
            i <= n,
            r@ == s@.subrange(0, i as int),
        decreases n - i,
    {
        r.push(s.get_char(i));
        i += 1;
    }
    assert(r@ =~= s@);
    r
}

/// Position at which the last component of `s` starts.
fn name_start_of(s: &str) -> (r: usize)
    ensures
        r == name_start(s@),
{
    let n = s.unicode_len();
    let mut i: usize = n;
    assert(s@.subrange(0, n as int) =~= s@);
    while i > 0 && s.get_char(i - 1) != '/'
        invariant
            n == s@.len(),
            i <= n,
            name_start(s@) == name_start(s@.subrange(0, i as int)),
        decreases i,
    {
        assert(s@.subrange(0, i as int).drop_last() =~= s@.subrange(0, i - 1));
        i -= 1;
    }
    i
}

/// The last component of the path `s`.
pub fn last_component(s: &str) -> (r: String)
    ensures
        r@ == file_name(s@),
{
    let start = name_start_of(s);
    proof {
        lemma_name_start_bound(s@);
    }
    s.substring_char(start, s.unicode_len()).to_owned()
}

/// The path up to, and without, its last `'/'`.
pub open spec fn parent(p: Seq<char>) -> Seq<char> {
    p.subrange(0, name_start(p) - 1)
}

/// `p` names a file inside a directory that is itself inside one.
pub open spec fn has_grandparent(p: Seq<char>) -> bool {
    name_start(p) > 0 && name_start(parent(p)) > 0
}

pub open spec fn cover_suffix() -> Seq<char> {
    seq!['/', 'c', 'o', 'v', 'e', 'r', '.', 'j', 'p', 'g']
}

/// The three lines that describe a track that is playing: its file name,
/// the name of the directory two levels up (the artist), and the cover
/// image that sits beside the track.
pub open spec fn status_lines(p: Seq<char>) -> Seq<char> {
    file_name(p) + seq!['\n'] + file_name(parent(parent(p))) + seq!['\n'] + parent(p)
        + cover_suffix() + seq!['\n']
}

/// The path `s` without its last component and the `'/'` before it.
fn parent_of(s: &str) -> (r: String)
    requires
        name_start(s@) > 0,
    ensures
        r@ == parent(s@),
{
    let start = name_start_of(s);
    proof {
        lemma_name_start_bound(s@);
    }
    s.substring_char(0, start - 1).to_owned()
}

/// The text of the status note for the track at path `track`: `None` when
/// the path is too short to name an album and an artist directory.
pub fn status_text(track: &str) -> (r: Option<String>)
    ensures
        r is None <==> !has_grandparent(track@),
        r matches Some(t) ==> t@ == status_lines(track@),
{
    if name_start_of(track) == 0 {
        return None;
    }
    let album = parent_of(track);
    if name_start_of(album.as_str()) == 0 {
        return None;
    }
    let artist_dir = parent_of(album.as_str());
    let song = last_component(track);
    let artist = last_component(artist_dir.as_str());
    let out = song.concat("\n").concat(artist.as_str()).concat("\n").concat(album.as_str()).concat(
        "/cover.jpg\n",
    );
    proof {
        reveal_strlit("\n");
        reveal_strlit("/cover.jpg\n");
        assert(out@ =~= status_lines(track@));
    }
    Some(out)
}

/// Lexicographic order on character sequences, by code point; a prefix
/// comes first. On UTF-8 text this is the order of the bytes.
pub open spec fn lex_le(a: Seq<char>, b: Seq<char>) -> bool
    decreases a.len(),
{
    if a.len() == 0 {
        true
    } else if b.len() == 0 {
        false
    } else if a[0] as u32 != b[0] as u32 {
        (a[0] as u32) < (b[0] as u32)
    } else {
        lex_le(a.drop_first(), b.drop_first())
    }
}

/// Any two sequences are ordered one way or the other.
pub proof fn lemma_lex_total(a: Seq<char>, b: Seq<char>)
    ensures
        lex_le(a, b) || lex_le(b, a),
    decreases a.len(),
{
    if a.len() > 0 && b.len() > 0 && a[0] as u32 == b[0] as u32 {
        lemma_lex_total(a.drop_first(), b.drop_first());
    }
}

pub proof fn lemma_lex_trans(a: Seq<char>, b: Seq<char>, c: Seq<char>)
    requires
        lex_le(a, b),
        lex_le(b, c),
    ensures
        lex_le(a, c),
    decreases a.len(),
{
    if a.len() > 0 && b.len() > 0 && c.len() > 0 && a[0] as u32 == b[0] as u32 && b[0] as u32
        == c[0] as u32 {
        lemma_lex_trans(a.drop_first(), b.drop_first(), c.drop_first());
    }
}

/// Whether `a` comes no later than `b` in lexicographic order.
pub fn lex_le_str(a: &str, b: &str) -> (r: bool)
    ensures
        r == lex_le(a@, b@),
{
    let n = a.unicode_len();
    let m = b.unicode_len();
    let mut i: usize = 0;
    assert(a@.skip(0) =~= a@);
    assert(b@.skip(0) =~= b@);
    while i < n && i < m && a.get_char(i) as u32 == b.get_char(i) as u32
        invariant
            n == a@.len(),
            m == b@.len(),
            i <= n,
            i <= m,
            lex_le(a@, b@) == lex_le(a@.skip(i as int), b@.skip(i as int)),
        decreases n - i,
    {
        assert(a@.skip(i as int).drop_first() =~= a@.skip(i + 1));
        assert(b@.skip(i as int).drop_first() =~= b@.skip(i + 1));
        i += 1;
    }
    if i == n {
        true
    } else if i == m {
        false
    } else {
        let x = a.get_char(i);
        let y = b.get_char(i);
        (x as u32) < (y as u32)
    }
}

/// `needle` occurs in `hay` starting at position `k`.
pub open spec fn occurs_at(hay: Seq<char>, needle: Seq<char>, k: int) -> bool {
    0 <= k && k + needle.len() <= hay.len() && hay.subrange(k, k + needle.len()) == needle
}

/// `needle` occurs somewhere in `hay`.
pub open spec fn contains_seq(hay: Seq<char>, needle: Seq<char>) -> bool {
    exists|k: int| occurs_at(hay, needle, k)
}

/// Whether `needle` occurs in `hay`, both given as characters.
fn contains_chars(hay: &Vec<char>, needle: &Vec<char>) -> (r: bool)
    ensures
        r == contains_seq(hay@, needle@),
{
    let n = hay.len();
    let m = needle.len();
    if m > n {
        assert(forall|k: int| !occurs_at(hay@, needle@, k));
        return false;
    }
    let mut k: usize = 0;
    while k <= n - m
        invariant
            n == hay@.len(),
            m == needle@.len(),
            m <= n,
            k <= n - m + 1,
            forall|j: int| 0 <= j < k ==> !occurs_at(hay@, needle@, j),
        decreases n - m + 1 - k,
    {
        let mut i: usize = 0;
        while i < m && hay[k + i] == needle[i]
            invariant
                n == hay@.len(),
                m == needle@.len(),
                k + m <= n,
                i <= m,
                forall|t: int| 0 <= t < i ==> hay@[k + t] == needle@[t],
            decreases m - i,
        {
            i += 1;
        }
        if i == m {
            assert(hay@.subrange(k as int, k + m) =~= needle@);
            assert(occurs_at(hay@, needle@, k as int));
            return true;
        }
        assert(hay@.subrange(k as int, k + m)[i as int] != needle@[i as int]);
        k += 1;
    }
    assert forall|j: int| !occurs_at(hay@, needle@, j) by {
        if 0 <= j && j + m <= n {
            assert(j < k);
        }
    }
    false
}

/// Whether `needle` occurs in `hay`. Case folding, where wanted, is done
/// beforehand: this compares characters as they are.
pub fn matches_folded(hay: &str, needle: &str) -> (r: bool)
    ensures
        r == contains_seq(hay@, needle@),
{
    let h = chars_of(hay);
    let n = chars_of(needle);
    contains_chars(&h, &n)
}

/// What `str::to_lowercase` makes of a text.
pub uninterp spec fn lower_of(s: Seq<char>) -> Seq<char>;

/// Relies on `str::to_lowercase`: Unicode lower-case mapping, which depends
/// on the characters alone; an empty text stays empty.
#[verifier::external_body]
fn lowercase(s: &str) -> (r: String)
    ensures
        r@ == lower_of(s@),
        s@.len() == 0 ==> r@.len() == 0,
{
    s.to_lowercase()
}

/// `needle` occurs in `hay` once both are lower-cased.
pub open spec fn matches_ignoring_case(hay: Seq<char>, needle: Seq<char>) -> bool {
    contains_seq(lower_of(hay), lower_of(needle))
}

/// Whether `needle` occurs in `hay`, ignoring case.
pub fn matches_ignoring_case_str(hay: &str, needle: &str) -> (r: bool)
    ensures
        r == matches_ignoring_case(hay@, needle@),
{
    let h = lowercase(hay);
    let n = lowercase(needle);
    matches_folded(h.as_str(), n.as_str())
}

/// The file name ends in `'.'` followed by `ext`, with something before
/// the dot: what `Path::extension` reports as the extension `ext`.
pub open spec fn has_extension(name: Seq<char>, ext: Seq<char>) -> bool {
    name.len() > ext.len() + 1 && name.subrange(name.len() - ext.len() - 1, name.len() as int)
        == seq!['.'] + ext
}

/// A file whose name marks it as a song: `wav`, `flac` or `mp3`, exactly.
pub open spec fn is_song_name(name: Seq<char>) -> bool {
    has_extension(name, seq!['w', 'a', 'v']) || has_extension(name, seq!['f', 'l', 'a', 'c'])
        || has_extension(name, seq!['m', 'p', '3'])
}

fn has_extension_str(name: &Vec<char>, ext: &str) -> (r: bool)
    ensures
        r == has_extension(name@, ext@),
{
    let e = chars_of(ext);
    let n = name.len();
    let m = e.len();
    if m >= n || n - m <= 1 {
        return false;
    }
    let start = n - m - 1;
    let ghost want = seq!['.'] + e@;
    if name[start] != '.' {
        assert(name@.subrange(start as int, n as int)[0] != want[0]);
        return false;
    }
    let mut i: usize = 0;
    while i < m
        invariant
            n == name@.len(),
            m == e@.len(),
            start == n - m - 1,
            i <= m,
            want == seq!['.'] + e@,
            e@ == ext@,
            forall|t: int| 0 <= t < i ==> name@[start + 1 + t] == e@[t],
        decreases m - i,
    {
        if name[start + 1 + i] != e[i] {
            assert(name@.subrange(start as int, n as int)[i + 1] == name@[start + 1 + i]);
            assert(want[i + 1] == e@[i as int]);
            assert(name@.subrange(start as int, n as int) != want);
            return false;
        }
        i += 1;
    }
    assert(name@.subrange(start as int, n as int) =~= want);
    true
}

/// Whether the last component of `path` names a song file.
pub fn is_song(path: &str) -> (r: bool)
    ensures
        r == is_song_name(file_name(path@)),
{
    let name = last_component(path);
    let c = chars_of(name.as_str());
    proof {
        reveal_strlit("wav");
        reveal_strlit("flac");
        reveal_strlit("mp3");
        assert("wav"@ =~= seq!['w', 'a', 'v']);
        assert("flac"@ =~= seq!['f', 'l', 'a', 'c']);
        assert("mp3"@ =~= seq!['m', 'p', '3']);
    }
    has_extension_str(&c, "wav") || has_extension_str(&c, "flac") || has_extension_str(&c, "mp3")
}

} // verus!
