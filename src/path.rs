//! A relative path seen as breadcrumbs: each ancestor segment paired with the
//! path up to and including it.
use vstd::prelude::*;
use vstd::string::*;

use crate::render::{pieces_model, Piece};

verus! {

/// A relative path, stored without a leading separator.
pub struct Ancestors(pub String);

/// One breadcrumb: a segment's name and the path up to and including it.
pub struct Segment {
    pub name: String,
    pub full: String,
}

/// The model of a breadcrumb: its name and its full path.
pub open spec fn segment_model(g: Segment) -> (Seq<char>, Seq<char>) {
    (g.name@, g.full@)
}

pub open spec fn segments_model(gs: Seq<Segment>) -> Seq<(Seq<char>, Seq<char>)> {
    gs.map_values(|g: Segment| segment_model(g))
}

/// The breadcrumbs closed by the separators from position `i` on, where the
/// current segment started at `start`; `seps[k]` tells whether the character
/// at `k` is a separator.
pub open spec fn scan_segments(s: Seq<char>, seps: Seq<bool>, start: int, i: int) -> Seq<
    (Seq<char>, Seq<char>),
>
    decreases s.len() - i,
{
    if i < 0 || i >= s.len() {
        seq![]
    } else if seps[i] {
        seq![(s.subrange(start, i), s.subrange(0, i))] + scan_segments(s, seps, i + 1, i + 1)
    } else {
        scan_segments(s, seps, start, i + 1)
    }
}

pub open spec fn has_separator(s: Seq<char>, seps: Seq<bool>) -> bool {
    exists|k: int| 0 <= k < s.len() && seps[k]
}

/// The breadcrumbs of a path: none for the empty path; the whole path once
/// where it holds no separator; else one for each separator, named by the
/// text since the previous one, and nothing after the last.
pub open spec fn breadcrumbs(s: Seq<char>, seps: Seq<bool>) -> Seq<(Seq<char>, Seq<char>)> {
    if s.len() == 0 {
        seq![]
    } else if !has_separator(s, seps) {
        seq![(s, s)]
    } else {
        scan_segments(s, seps, 0, 0)
    }
}

/// What a path renders to directly: a separator and then the path, or
/// nothing for the empty path.
pub open spec fn path_pieces(s: Seq<char>, escape: bool) -> Seq<(Seq<char>, bool)> {
    if s.len() == 0 {
        seq![]
    } else {
        seq![(seq!['/'], false), (s, escape)]
    }
}

/// The separators of `s` marked in `seps`: every `/` is one, and only `/`
/// or `\\` may be one.
pub open spec fn marks_separators(s: Seq<char>, seps: Seq<bool>) -> bool {
    &&& seps.len() == s.len()
    &&& forall|k: int| 0 <= k < s.len() && s[k] == '/' ==> seps[k]
    &&& forall|k: int| 0 <= k < s.len() && seps[k] ==> s[k] == '/' || s[k] == '\\'
}

/// Relies on `std::path::is_separator`: `/` separates paths on every
/// platform, and no character but `/` and `\\` does on any.
#[verifier::external_body]
fn is_separator(c: char) -> (r: bool)
    ensures
        c == '/' ==> r,
        r ==> c == '/' || c == '\\',
{
    std::path::is_separator(c)
}

fn separator_piece() -> (r: Piece)
    ensures
        r.text@ == seq!['/'],
        !r.escape,
{
    let slash = "/";
    proof {
        reveal_strlit("/");
    }
    Piece { text: String::from_str(slash), escape: false }
}

impl Ancestors {
    pub open spec fn view(&self) -> Seq<char> {
        self.0@
    }

    /// The path text.
    pub fn as_str(&self) -> (r: &str)
        ensures
            r@ == self@,
    {
        self.0.as_str()
    }

    /// Whether a section over the path is entered: the path is not empty.
    pub fn is_truthy(&self) -> (r: bool)
        ensures
            r == (self@.len() > 0),
    {
        self.0.as_str().unicode_len() != 0
    }

    /// A separator, then the path escaped; nothing for the empty path.
    pub fn render_escaped(&self) -> (r: Vec<Piece>)
        ensures
            pieces_model(r@) == path_pieces(self@, true),
    {
        self.pieces(true)
    }

    /// A separator, then the path as it is; nothing for the empty path.
    pub fn render_unescaped(&self) -> (r: Vec<Piece>)
        ensures
            pieces_model(r@) == path_pieces(self@, false),
    {
        self.pieces(false)
    }

    fn pieces(&self, escape: bool) -> (r: Vec<Piece>)
        ensures
            pieces_model(r@) == path_pieces(self@, escape),
    {
        let mut out: Vec<Piece> = Vec::new();
        if self.0.as_str().unicode_len() != 0 {
            out.push(separator_piece());
            out.push(Piece { text: self.0.clone(), escape });
        }
        proof {
            assert(pieces_model(out@) =~= path_pieces(self@, escape));
        }
        out
    }

    /// The breadcrumbs of the path, where `seps` marks which of its
    /// characters separate segments.
    pub fn segments_with(&self, seps: &Vec<bool>) -> (r: Vec<Segment>)
        requires
            seps@.len() == self@.len(),
        ensures
            segments_model(r@) == breadcrumbs(self@, seps@),
    {
        let s = self.0.as_str();
        let n = s.unicode_len();
        let mut out: Vec<Segment> = Vec::new();
        if n == 0 {
            proof {
                assert(segments_model(out@) =~= breadcrumbs(self@, seps@));
            }
            return out;
        }
        let mut start: usize = 0;
        let mut i: usize = 0;
        let mut found = false;
        while i < n
            invariant
                n == self@.len(),
                s@ == self@,
                seps@.len() == n,
                start <= i <= n,
                segments_model(out@) + scan_segments(self@, seps@, start as int, i as int)
                    == scan_segments(self@, seps@, 0, 0),
                found <==> exists|k: int| 0 <= k < i && seps@[k],
            decreases n - i,
        {
            if seps[i] {
                let g = Segment {
                    name: String::from_str(s.substring_char(start, i)),
                    full: String::from_str(s.substring_char(0, i)),
                };
                proof {
                    let x = (self@.subrange(start as int, i as int), self@.subrange(0, i as int));
                    let rest = scan_segments(self@, seps@, i + 1, i + 1);
                    assert(segment_model(g) == x);
                    assert(segments_model(out@.push(g)) =~= segments_model(out@).push(x));
                    assert(segments_model(out@).push(x) + rest =~= segments_model(out@) + (seq![x]
                        + rest));
                }
                out.push(g);
                start = i + 1;
                found = true;
            }
            i = i + 1;
        }
        proof {
            assert(scan_segments(self@, seps@, start as int, i as int) =~= seq![]);
            assert(segments_model(out@) + seq![] =~= segments_model(out@));
        }
        if !found {
            proof {
                assert(out@.len() == 0) by {
                    assert(segments_model(out@).len() == out@.len());
                    lemma_no_separator_no_segments(self@, seps@, 0, 0);
                }
            }
            out.push(Segment { name: self.0.clone(), full: self.0.clone() });
            proof {
                assert(segments_model(out@) =~= breadcrumbs(self@, seps@));
            }
        }
        out
    }

    /// The breadcrumbs of the path, split at the platform's separators.
    pub fn render_section(&self) -> (r: Vec<Segment>)
        ensures
            exists|seps: Seq<bool>|
                marks_separators(self@, seps) && segments_model(r@) == breadcrumbs(self@, seps),
    {
        let s = self.0.as_str();
        let n = s.unicode_len();
        let mut seps: Vec<bool> = Vec::new();
        let mut i: usize = 0;
        while i < n
            invariant
                n == self@.len(),
                s@ == self@,
                i <= n,
                seps@.len() == i,
                forall|k: int| 0 <= k < i && self@[k] == '/' ==> seps@[k],
                forall|k: int| 0 <= k < i && seps@[k] ==> self@[k] == '/' || self@[k] == '\\',
            decreases n - i,
        {
            seps.push(is_separator(s.get_char(i)));
            i = i + 1;
        }
        let r = self.segments_with(&seps);
        assert(marks_separators(self@, seps@));
        r
    }
}

proof fn lemma_no_separator_no_segments(s: Seq<char>, seps: Seq<bool>, start: int, i: int)
    requires
        0 <= i,
        forall|k: int| i <= k < s.len() ==> !seps[k],
    ensures
        scan_segments(s, seps, start, i) == Seq::<(Seq<char>, Seq<char>)>::empty(),
    decreases s.len() - i,
{
    if i < s.len() {
        lemma_no_separator_no_segments(s, seps, start, i + 1);
    }
}

impl Default for Ancestors {
    fn default() -> (r: Ancestors)
        ensures
            r@.len() == 0,
    {
        Ancestors(String::new())
    }
}

impl From<String> for Ancestors {
    fn from(s: String) -> (r: Ancestors) {
        Ancestors(s)
    }
}

impl vstd::std_specs::convert::FromSpecImpl<String> for Ancestors {
    open spec fn obeys_from_spec() -> bool {
        true
    }

    open spec fn from_spec(s: String) -> Ancestors {
        Ancestors(s)
    }
}

} // verus!
