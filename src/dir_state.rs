//! One directory's entries, filtered and sorted, with a cyclic cursor.
use vstd::prelude::*;

use crate::text::{
    file_name, is_song, is_song_name, last_component, lemma_lex_total, lemma_lex_trans, lex_le,
    lex_le_str, matches_ignoring_case, matches_ignoring_case_str,
};

verus! {

broadcast use vstd::seq_lib::group_to_multiset_ensures;

/// An entry as read from a directory: its full path, and whether it is
/// itself a directory.
pub struct DirEntry {
    pub path: String,
    pub is_dir: bool,
}

/// Which entries a listing keeps.
#[derive(Clone, Copy, Debug, PartialEq, Eq, Structural)]
pub enum Filter {
    /// Sub-directories: artists or albums.
    Dirs,
    /// Files whose extension is `wav`, `flac` or `mp3`.
    Songs,
}

pub open spec fn keeps(f: Filter, e: DirEntry) -> bool {
    match f {
        Filter::Dirs => e.is_dir,
        Filter::Songs => is_song_name(file_name(e.path@)),
    }
}

/// The paths of the entries that `f` keeps, in the order given.
pub open spec fn kept_paths(es: Seq<DirEntry>, f: Filter) -> Seq<Seq<char>>
    decreases es.len(),
{
    if es.len() == 0 {
        Seq::empty()
    } else {
        let rest = kept_paths(es.drop_last(), f);
        if keeps(f, es.last()) {
            rest.push(es.last().path@)
        } else {
            rest
        }
    }
}

/// The texts of a vector of strings.
pub open spec fn paths(v: Seq<String>) -> Seq<Seq<char>> {
    v.map_values(|s: String| s@)
}

pub open spec fn sorted(s: Seq<Seq<char>>) -> bool {
    forall|i: int, j: int| 0 <= i < j < s.len() ==> lex_le(#[trigger] s[i], #[trigger] s[j])
}

/// A directory listing: entries in lexicographic order of their paths and
/// the index of the selected one.
pub struct DirState {
    index: usize,
    dir: Vec<String>,
}

pub struct ListingView {
    pub entries: Seq<Seq<char>>,
    pub index: nat,
}

impl ListingView {
    /// The cursor lies on an entry, or at 0 when there is none.
    pub open spec fn wf(self) -> bool {
        if self.entries.len() == 0 {
            self.index == 0
        } else {
            self.index < self.entries.len()
        }
    }

    pub open spec fn with_index(self, i: nat) -> ListingView {
        ListingView { entries: self.entries, index: i }
    }

    /// One step forward, from the last entry back to the first.
    pub open spec fn next(self) -> ListingView {
        self.with_index(if self.index + 1 == self.entries.len() { 0 } else { self.index + 1 })
    }

    /// One step back, from the first entry round to the last.
    pub open spec fn previous(self) -> ListingView {
        self.with_index(
            if self.index == 0 { (self.entries.len() - 1) as nat } else { (self.index - 1) as nat },
        )
    }

    /// The display name of entry `i` contains `needle`, ignoring case.
    pub open spec fn is_match(self, needle: Seq<char>, i: int) -> bool {
        matches_ignoring_case(file_name(self.entries[i]), needle)
    }

    /// Entry `i` is the first whose display name contains `needle`.
    pub open spec fn is_first_match(self, needle: Seq<char>, i: int) -> bool {
        &&& 0 <= i < self.entries.len()
        &&& self.is_match(needle, i)
        &&& forall|j: int| 0 <= j < i ==> !self.is_match(needle, j)
    }

    pub open spec fn has_match(self, needle: Seq<char>) -> bool {
        exists|i: int| 0 <= i < self.entries.len() && self.is_match(needle, i)
    }
}

/// `l` is what loading `es` under `f` gives: the kept paths, sorted, with
/// the first selected.
pub open spec fn is_listing_of(l: ListingView, es: Seq<DirEntry>, f: Filter) -> bool {
    &&& l.wf()
    &&& l.index == 0
    &&& sorted(l.entries)
    &&& l.entries.to_multiset() == kept_paths(es, f).to_multiset()
}

impl View for DirState {
    type V = ListingView;

    closed spec fn view(&self) -> ListingView {
        ListingView { entries: paths(self.dir@), index: self.index as nat }
    }
}

proof fn lemma_insert_multiset(s: Seq<Seq<char>>, k: int, x: Seq<char>)
    requires
        0 <= k <= s.len(),
    ensures
        s.insert(k, x).to_multiset() =~= s.to_multiset().insert(x),
{
    let t = s.insert(k, x);
    assert(t.remove(k) =~= s);
    assert(t.contains(x)) by {
        assert(t[k] == x);
    }
    assert(t.to_multiset().count(x) > 0);
}

/// Puts `x` into the sorted vector `v`, after the entries that do not
/// come later than it.
fn insert_sorted(v: &mut Vec<String>, x: String)
    requires
        sorted(paths(old(v)@)),
    ensures
        sorted(paths(final(v)@)),
        paths(final(v)@).to_multiset() =~= paths(old(v)@).to_multiset().insert(x@),
{
    let ghost s = paths(v@);
    let n = v.len();
    let mut k: usize = 0;
    while k < n && lex_le_str(v[k].as_str(), x.as_str())
        invariant
            n == v@.len(),
            s == paths(v@),
            k <= n,
            forall|t: int| 0 <= t < k ==> lex_le(#[trigger] s[t], x@),
        decreases n - k,
    {
        k += 1;
    }
    proof {
        if k < n {
            lemma_lex_total(s[k as int], x@);
            assert forall|t: int| k <= t < n implies lex_le(x@, #[trigger] s[t]) by {
                if t > k {
                    lemma_lex_trans(x@, s[k as int], s[t]);
                }
            }
        }
    }
    v.insert(k, x);
    proof {
        let r = paths(v@);
        assert(r =~= s.insert(k as int, x@));
        lemma_insert_multiset(s, k as int, x@);
        assert forall|i: int, j: int| 0 <= i < j < r.len() implies lex_le(
            #[trigger] r[i],
            #[trigger] r[j],
        ) by {
            if j < k {
            } else if j == k {
            } else if i < k {
                lemma_lex_trans(s[i], x@, s[j - 1]);
            } else if i == k {
            } else {
            }
        }
    }
}

/// A copy of a vector of paths.
pub fn clone_paths(v: &Vec<String>) -> (r: Vec<String>)
    ensures
        paths(r@) == paths(v@),
{
    let mut r: Vec<String> = Vec::new();
    let n = v.len();
    let mut i: usize = 0;
    while i < n
        invariant
            n == v@.len(),
            i <= n,
            paths(r@) =~= paths(v@).subrange(0, i as int),
        decreases n - i,
    {
        let c = v[i].clone();
        let ghost before = r@;
        r.push(c);
        assert(paths(r@) =~= paths(before).push(v@[i as int]@));
        i += 1;
    }
    r
}

impl Default for DirState {
    /// A listing with no entries.
    fn default() -> (r: DirState)
        ensures
            r@.entries.len() == 0,
            r@.index == 0,
    {
        DirState { index: 0, dir: Vec::new() }
    }
}

impl DirState {
    /// Builds a listing from the entries read from a directory: keeps those
    /// that `filter` admits, sorts their paths and selects the first.
    pub fn read_dir(entries: Vec<DirEntry>, filter: Filter) -> (r: DirState)
        ensures
            is_listing_of(r@, entries@, filter),
    {
        let mut dir: Vec<String> = Vec::new();
        let n = entries.len();
        let mut i: usize = 0;
        while i < n
            invariant
                n == entries@.len(),
                i <= n,
                sorted(paths(dir@)),
                paths(dir@).to_multiset() == kept_paths(entries@.subrange(0, i as int), filter).to_multiset(),
            decreases n - i,
        {
            let e = &entries[i];
            let keep = match filter {
                Filter::Dirs => e.is_dir,
                Filter::Songs => is_song(e.path.as_str()),
            };
            proof {
                let pre = entries@.subrange(0, i + 1);
                assert(pre.drop_last() =~= entries@.subrange(0, i as int));
                assert(pre.last() == entries@[i as int]);
            }
            if keep {
                insert_sorted(&mut dir, e.path.clone());
            }
            i += 1;
        }
        assert(entries@.subrange(0, n as int) =~= entries@);
        DirState { index: 0, dir }
    }

    /// The display names of the entries, in listing order.
    pub fn entry_strings(&self) -> (r: Vec<String>)
        ensures
            r@.len() == self@.entries.len(),
            forall|i: int| 0 <= i < r@.len() ==> #[trigger] r@[i]@ == file_name(self@.entries[i]),
    {
        let mut r: Vec<String> = Vec::new();
        let n = self.dir.len();
        let mut i: usize = 0;
        while i < n
            invariant
                n == self@.entries.len(),
                i <= n,
                r@.len() == i,
                forall|t: int| 0 <= t < i ==> #[trigger] r@[t]@ == file_name(self@.entries[t]),
            decreases n - i,
        {
            r.push(last_component(self.dir[i].as_str()));
            i += 1;
        }
        r
    }

    /// The full paths of the entries.
    pub fn dir(&self) -> (r: &Vec<String>)
        ensures
            paths(r@) == self@.entries,
    {
        &self.dir
    }

    /// How many entries there are.
    pub fn entries(&self) -> (r: usize)
        ensures
            r == self@.entries.len(),
    {
        self.dir.len()
    }

    /// Moves the cursor one entry forward, from the last round to the first.
    pub fn select_next(&mut self) -> (r: usize)
        requires
            old(self)@.wf(),
            old(self)@.entries.len() > 0,
        ensures
            final(self)@ == old(self)@.next(),
            final(self)@.wf(),
            r == final(self)@.index,
    {
        if self.index == self.dir.len() - 1 {
            self.index = 0;
        } else {
            self.index += 1;
        }
        self.index
    }

    /// Moves the cursor one entry back, from the first round to the last.
    pub fn select_previous(&mut self) -> (r: usize)
        requires
            old(self)@.wf(),
            old(self)@.entries.len() > 0,
        ensures
            final(self)@ == old(self)@.previous(),
            final(self)@.wf(),
            r == final(self)@.index,
    {
        if self.index == 0 {
            self.index = self.dir.len() - 1;
        } else {
            self.index -= 1;
        }
        self.index
    }

    /// Puts the cursor on entry `i`; an index past the end changes nothing.
    pub fn select(&mut self, i: usize) -> (r: Option<usize>)
        requires
            old(self)@.wf(),
        ensures
            final(self)@.wf(),
            i < old(self)@.entries.len() ==> r == Some(i) && final(self)@ == old(self)@.with_index(
                i as nat,
            ),
            i >= old(self)@.entries.len() ==> r is None && final(self)@ == old(self)@,
    {
        if i >= self.dir.len() {
            None
        } else {
            self.index = i;
            Some(i)
        }
    }

    /// The path of the selected entry.
    pub fn selected(&self) -> (r: &String)
        requires
            self@.wf(),
            self@.entries.len() > 0,
        ensures
            r@ == self@.entries[self@.index as int],
    {
        &self.dir[self.index]
    }

    /// The display name of the selected entry; `None` when the listing is
    /// empty.
    pub fn selected_name(&self) -> (r: Option<String>)
        requires
            self@.wf(),
        ensures
            self@.entries.len() == 0 ==> r is None,
            self@.entries.len() > 0 ==> (r matches Some(s) && s@ == file_name(
                self@.entries[self@.index as int],
            )),
    {
        if self.dir.len() == 0 {
            None
        } else {
            Some(last_component(self.dir[self.index].as_str()))
        }
    }

    /// Where the cursor is.
    pub fn index(&self) -> (r: usize)
        ensures
            r == self@.index,
    {
        self.index
    }

    /// The first entry whose display name contains `name`, ignoring case.
    pub fn find(&self, name: &str) -> (r: Option<usize>)
        ensures
            r matches Some(i) ==> self@.is_first_match(name@, i as int),
            r is None <==> !self@.has_match(name@),
    {
        let n = self.dir.len();
        let mut i: usize = 0;
        while i < n
            invariant
                n == self@.entries.len(),
                i <= n,
                forall|j: int| 0 <= j < i ==> !self@.is_match(name@, j),
            decreases n - i,
        {
            let shown = last_component(self.dir[i].as_str());
            if matches_ignoring_case_str(shown.as_str(), name) {
                assert(self@.is_match(name@, i as int));
                return Some(i);
            }
            i += 1;
        }
        None
    }
}

/// The listing after `k` steps forward.
pub open spec fn next_n(v: ListingView, k: nat) -> ListingView
    decreases k,
{
    if k == 0 {
        v
    } else {
        next_n(v.next(), (k - 1) as nat)
    }
}

/// The listing after `k` steps back.
pub open spec fn previous_n(v: ListingView, k: nat) -> ListingView
    decreases k,
{
    if k == 0 {
        v
    } else {
        previous_n(v.previous(), (k - 1) as nat)
    }
}

proof fn lemma_next_n(v: ListingView, k: nat)
    requires
        v.wf(),
        v.entries.len() > 0,
        k <= v.entries.len(),
    ensures
        next_n(v, k).entries == v.entries,
        next_n(v, k).index as int == if v.index + k < v.entries.len() {
            (v.index + k) as int
        } else {
            v.index + k - v.entries.len() as int
        },
    decreases k,
{
    if k > 0 {
        lemma_next_n(v.next(), (k - 1) as nat);
    }
}

proof fn lemma_previous_n(v: ListingView, k: nat)
    requires
        v.wf(),
        v.entries.len() > 0,
        k <= v.entries.len(),
    ensures
        previous_n(v, k).entries == v.entries,
        previous_n(v, k).index as int == if v.index >= k {
            v.index - k as int
        } else {
            v.index + v.entries.len() - k as int
        },
    decreases k,
{
    if k > 0 {
        lemma_previous_n(v.previous(), (k - 1) as nat);
    }
}

/// In a listing of `n` entries, `n` steps forward bring the cursor back to
/// where it started, and so do `n` steps back.
pub proof fn lemma_cursor_cycles(v: ListingView)
    requires
        v.wf(),
        v.entries.len() > 0,
    ensures
        next_n(v, v.entries.len()) == v,
        previous_n(v, v.entries.len()) == v,
{
    lemma_next_n(v, v.entries.len());
    lemma_previous_n(v, v.entries.len());
}

} // verus!
