//! A single line of text, edited by grapheme-cluster offsets.

use unicode_segmentation::UnicodeSegmentation;
use vstd::prelude::*;
use vstd::seq_lib::lemma_flatten_concat;
use vstd::string::*;
use vstd::utf8::encode_utf8;

verus! {

/// The extended grapheme clusters of a text, in order.
pub uninterp spec fn graphemes_of(s: Seq<char>) -> Seq<Seq<char>>;

/// Splits `s` into its extended grapheme clusters.
///
/// Relies on `UnicodeSegmentation::graphemes(s, true)`: its iterator hands out
/// consecutive, non-empty slices of `s` from the start to the end, so the
/// clusters are non-empty and concatenate back to `s`.
#[verifier::external_body]
fn graphemes(s: &str) -> (r: Vec<String>)
    ensures
        views(r@) == graphemes_of(s@),
        views(r@).flatten() == s@,
        forall|i: int| 0 <= i < r@.len() ==> (#[trigger] r@[i])@.len() > 0,
{
    s.graphemes(true).map(|g| g.to_string()).collect()
}

/// Appends one character to a string.
///
/// Relies on `String::push`.
#[verifier::external_body]
fn push_char(s: &mut String, c: char)
    ensures
        final(s)@ == old(s)@.push(c),
{
    s.push(c)
}

/// The character sequences of a sequence of strings.
pub open spec fn views(v: Seq<String>) -> Seq<Seq<char>> {
    v.map_values(|g: String| g@)
}

/// Number of grapheme clusters in `s`.
pub open spec fn grapheme_count(s: Seq<char>) -> nat {
    graphemes_of(s).len()
}

/// An offset clamped to the number of clusters of `s`.
pub open spec fn clamp(s: Seq<char>, at: int) -> int {
    if at < grapheme_count(s) {
        at
    } else {
        grapheme_count(s) as int
    }
}

/// The text of the first `at` clusters of `s` (all of them when `at` is past the end).
pub open spec fn head(s: Seq<char>, at: int) -> Seq<char> {
    graphemes_of(s).take(clamp(s, at)).flatten()
}

/// The text of the clusters of `s` from offset `at` on (none when `at` is past the end).
pub open spec fn tail(s: Seq<char>, at: int) -> Seq<char> {
    graphemes_of(s).skip(clamp(s, at)).flatten()
}

/// How one cluster is displayed: a tab becomes a single space.
pub open spec fn display_cluster(g: Seq<char>) -> Seq<char> {
    if g == seq!['\t'] {
        seq![' ']
    } else {
        g
    }
}

/// The displayed text of the clusters `cs[start..end]`, where `end` is clamped
/// to the number of clusters and `start` to `end`.
pub open spec fn rendered_clusters(cs: Seq<Seq<char>>, start: int, end: int) -> Seq<char> {
    let e = if end < cs.len() {
        end
    } else {
        cs.len() as int
    };
    let b = if start < e {
        start
    } else {
        e
    };
    cs.subrange(b, e).map_values(|g: Seq<char>| display_cluster(g)).flatten()
}

/// The displayed text of the clusters of `s` in `[start, end)`, where `end` is
/// clamped to the cluster count and `start` to `end`.
pub open spec fn rendered(s: Seq<char>, start: int, end: int) -> Seq<char> {
    rendered_clusters(graphemes_of(s), start, end)
}

/// The text after inserting `c` so that it starts the cluster at offset `at`;
/// at or past the end it is appended.
pub open spec fn inserted(s: Seq<char>, at: int, c: char) -> Seq<char> {
    if at >= grapheme_count(s) {
        s.push(c)
    } else {
        head(s, at) + seq![c] + tail(s, at)
    }
}

/// The text after removing the cluster at offset `at`; unchanged at or past the end.
pub open spec fn deleted(s: Seq<char>, at: int) -> Seq<char> {
    if at >= grapheme_count(s) {
        s
    } else {
        head(s, at) + tail(s, at + 1)
    }
}

/// The clusters of `s` are non-empty and concatenate back to `s`; this holds
/// of the text of every row.
pub open spec fn segmented(s: Seq<char>) -> bool {
    &&& graphemes_of(s).flatten() == s
    &&& forall|i: int| 0 <= i < graphemes_of(s).len() ==> (#[trigger] graphemes_of(s)[i]).len() > 0
}

/// The concatenation of the clusters `gs[from..to]`.
pub fn join_clusters(gs: &Vec<String>, from: usize, to: usize) -> (r: String)
    requires
        from <= to <= gs@.len(),
    ensures
        r@ == views(gs@).subrange(from as int, to as int).flatten(),
{
    let mut r = String::new();
    let mut i: usize = from;
    while i < to
        invariant
            from <= i <= to <= gs@.len(),
            r@ == views(gs@).subrange(from as int, i as int).flatten(),
        decreases to - i,
    {
        proof {
            let v = views(gs@);
            assert(v.subrange(from as int, i + 1) =~= v.subrange(from as int, i as int).push(
                v[i as int],
            ));
            v.subrange(from as int, i as int).lemma_flatten_push(v[i as int]);
        }
        r.append(gs[i].as_str());
        i = i + 1;
    }
    r
}

/// The displayed text of the clusters `gs[start..end]`: `end` is clamped to
/// the number of clusters, `start` to `end`, and each tab shows as a space.
pub fn render_clusters(gs: &Vec<String>, start: usize, end: usize) -> (r: String)
    ensures
        r@ == rendered_clusters(views(gs@), start as int, end as int),
{
    let e = if end < gs.len() {
        end
    } else {
        gs.len()
    };
    let b = if start < e {
        start
    } else {
        e
    };
    let tab = String::from_str("\t");
    let space = " ";
    proof {
        reveal_strlit("\t");
        reveal_strlit(" ");
    }
    let ghost v = views(gs@);
    let ghost f = |g: Seq<char>| display_cluster(g);
    let mut result = String::new();
    let mut i: usize = b;
    while i < e
        invariant
            b <= i <= e <= gs@.len(),
            v == views(gs@),
            f == (|g: Seq<char>| display_cluster(g)),
            tab@ == seq!['\t'],
            space@ == seq![' '],
            result@ == v.subrange(b as int, i as int).map_values(f).flatten(),
        decreases e - i,
    {
        proof {
            let part = v.subrange(b as int, i as int);
            assert(v.subrange(b as int, i + 1) =~= part.push(v[i as int]));
            assert(part.push(v[i as int]).map_values(f) =~= part.map_values(f).push(
                f(v[i as int]),
            ));
            part.map_values(f).lemma_flatten_push(f(v[i as int]));
            assert(v[i as int] == gs@[i as int]@);
        }
        if gs[i] == tab {
            result.append(space);
        } else {
            result.append(gs[i].as_str());
        }
        i = i + 1;
    }
    result
}

/// One line of text together with its cached cluster count.
#[derive(Debug)]
pub struct Row {
    string: String,
    len: usize,
}

impl View for Row {
    type V = Seq<char>;

    closed spec fn view(&self) -> Seq<char> {
        self.string@
    }
}

impl Row {
    /// The cached count is the number of clusters, and the clusters are a
    /// segmentation of the text.
    #[verifier::type_invariant]
    spec fn inv(self) -> bool {
        &&& self.len == grapheme_count(self.string@)
        &&& segmented(self.string@)
    }

    /// Builds a row around `string`, counting its clusters.
    fn from_string(string: String) -> (r: Row)
        ensures
            r@ == string@,
            segmented(r@),
    {
        let gs = graphemes(string.as_str());
        Row { string, len: gs.len() }
    }

    /// A row holding `slice`.
    pub fn from(slice: &str) -> (r: Row)
        ensures
            r@ == slice@,
            segmented(r@),
    {
        Row::from_string(String::from_str(slice))
    }

    /// Inserts `ch` so that it starts the cluster at offset `at`; at or past
    /// the end it is appended.
    pub fn insert(&mut self, at: usize, ch: char)
        ensures
            final(self)@ == inserted(old(self)@, at as int, ch),
            segmented(final(self)@),
    {
        proof {
            use_type_invariant(&*self);
        }
        if at >= self.len {
            let mut s = self.string.clone();
            push_char(&mut s, ch);
            *self = Row::from_string(s);
            return;
        }
        let gs = graphemes(self.string.as_str());
        let mut result = join_clusters(&gs, 0, at);
        push_char(&mut result, ch);
        let remainder = join_clusters(&gs, at, gs.len());
        result.append(remainder.as_str());
        proof {
            let v = views(gs@);
            assert(v.take(at as int) == v.subrange(0, at as int));
            assert(v.skip(at as int) == v.subrange(at as int, v.len() as int));
        }
        *self = Row::from_string(result);
    }

    /// Removes the cluster at offset `at`; at or past the end the row is left
    /// as it is.
    pub fn delete(&mut self, at: usize)
        ensures
            final(self)@ == deleted(old(self)@, at as int),
            segmented(final(self)@),
    {
        proof {
            use_type_invariant(&*self);
        }
        if at >= self.len {
            return;
        }
        let gs = graphemes(self.string.as_str());
        let mut result = join_clusters(&gs, 0, at);
        let remainder = join_clusters(&gs, at + 1, gs.len());
        result.append(remainder.as_str());
        proof {
            let v = views(gs@);
            assert(v.take(at as int) == v.subrange(0, at as int));
            assert(v.skip(at + 1) == v.subrange(at + 1, v.len() as int));
        }
        *self = Row::from_string(result);
    }

    /// Keeps the first `at` clusters in this row and returns the rest as a
    /// new row; past the end the new row is empty.
    pub fn split(&mut self, at: usize) -> (r: Row)
        ensures
            final(self)@ == head(old(self)@, at as int),
            r@ == tail(old(self)@, at as int),
            segmented(final(self)@),
            segmented(r@),
    {
        let gs = graphemes(self.string.as_str());
        let k = if at < gs.len() {
            at
        } else {
            gs.len()
        };
        let beginning = join_clusters(&gs, 0, k);
        let remainder = join_clusters(&gs, k, gs.len());
        proof {
            let v = views(gs@);
            assert(v.take(k as int) == v.subrange(0, k as int));
            assert(v.skip(k as int) == v.subrange(k as int, v.len() as int));
        }
        *self = Row::from_string(beginning);
        Row::from_string(remainder)
    }

    /// Appends the text of `new` to this row; `new` is left as it is.
    pub fn append(&mut self, new: &Row)
        ensures
            final(self)@ == old(self)@ + new@,
            segmented(final(self)@),
    {
        let mut s = self.string.clone();
        s.append(new.string.as_str());
        *self = Row::from_string(s);
    }

    /// The displayed text of the clusters in `[start, end)`: `end` is clamped
    /// to the cluster count, `start` to `end`, and each tab shows as a space.
    pub fn to_string(&self, start: usize, end: usize) -> (r: String)
        ensures
            r@ == rendered(self@, start as int, end as int),
    {
        render_clusters(&graphemes(self.string.as_str()), start, end)
    }

    /// The number of grapheme clusters in the row.
    pub fn len(&self) -> (r: usize)
        ensures
            r == grapheme_count(self@),
            segmented(self@),
    {
        proof {
            use_type_invariant(self);
        }
        self.len
    }

    /// The row's text encoded as UTF-8.
    pub fn as_bytes(&self) -> (r: &[u8])
        ensures
            r@ == encode_utf8(self@),
    {
        self.string.as_str().as_bytes()
    }
}

impl<'a> From<&'a str> for Row {
    /// A row holding `slice`.
    fn from(slice: &'a str) -> (r: Row)
        ensures
            r@ == slice@,
            segmented(r@),
    {
        Row::from(slice)
    }
}

/// A row's text is a `String`, which spec code cannot build, so no spec-level
/// value is given for the conversion; what `from` returns is stated by its own
/// `ensures`.
impl<'a> vstd::std_specs::convert::FromSpecImpl<&'a str> for Row {
    open spec fn obeys_from_spec() -> bool {
        false
    }

    open spec fn from_spec(v: &'a str) -> Row {
        vstd::pervasive::arbitrary()
    }
}

impl Default for Row {
    /// An empty row.
    fn default() -> (r: Row)
        ensures
            r@ == Seq::<char>::empty(),
            segmented(r@),
    {
        Row::from_string(String::new())
    }
}

/// Inserting a character that forms a cluster of its own at the insertion
/// point (it joins neither neighbour) adds exactly one cluster.
pub proof fn law_insert_adds_one_cluster(s: Seq<char>, at: int, c: char)
    requires
        0 <= at,
        graphemes_of(inserted(s, at, c)) == graphemes_of(s).insert(clamp(s, at), seq![c]),
    ensures
        grapheme_count(inserted(s, at, c)) == grapheme_count(s) + 1,
{
}

/// Deleting at or past the end leaves the text, and so the cluster count,
/// unchanged.
pub proof fn law_delete_past_end_is_identity(s: Seq<char>, at: int)
    requires
        at >= grapheme_count(s),
    ensures
        deleted(s, at) == s,
        grapheme_count(deleted(s, at)) == grapheme_count(s),
{
}

/// Splitting a row at any offset and appending the remainder to the kept
/// part gives back the original text, and so the same rendering.
pub proof fn law_split_then_append_restores(s: Seq<char>, at: int, start: int, end: int)
    requires
        segmented(s),
        0 <= at,
    ensures
        head(s, at) + tail(s, at) == s,
        rendered(head(s, at) + tail(s, at), start, end) == rendered(s, start, end),
{
    let g = graphemes_of(s);
    let k = clamp(s, at);
    assert(g =~= g.take(k) + g.skip(k));
    lemma_flatten_concat(g.take(k), g.skip(k));
}

/// Edits act on whole clusters: deleting at an offset inside the row removes
/// exactly the cluster there, and inserting places the character between two
/// clusters, never inside one.
pub proof fn law_edits_keep_clusters_whole(s: Seq<char>, at: int, c: char)
    requires
        segmented(s),
        0 <= at < grapheme_count(s),
    ensures
        deleted(s, at) == graphemes_of(s).remove(at).flatten(),
        inserted(s, at, c) == graphemes_of(s).insert(at, seq![c]).flatten(),
{
    let g = graphemes_of(s);
    assert(g.remove(at) =~= g.take(at) + g.skip(at + 1));
    lemma_flatten_concat(g.take(at), g.skip(at + 1));
    let one = seq![seq![c]];
    assert(g.insert(at, seq![c]) =~= g.take(at) + one + g.skip(at));
    lemma_flatten_concat(g.take(at) + one, g.skip(at));
    lemma_flatten_concat(g.take(at), one);
    one.lemma_flatten_one_element();
}

/// Rendering with an end past the cluster count is the same as rendering up to
/// the cluster count.
pub proof fn law_render_end_is_clamped(s: Seq<char>, start: int, end: int)
    requires
        end >= grapheme_count(s),
    ensures
        rendered(s, start, end) == rendered(s, start, grapheme_count(s) as int),
{
}

} // verus!
