//! The value read from a page's data file, of any shape, and how it behaves
//! when a template refers to it.
use vstd::prelude::*;
use vstd::string::*;

use crate::date::DateTime;
use crate::render::{pieces_model, Piece, SectionContext};

verus! {

/// A value of a data file: a number, a text, a date-time, a list, or a map
/// from names to values.
pub enum Any {
    /// A number, held as the decimal text it renders to.
    Number(String),
    String(String),
    DateTime(DateTime),
    List(Vec<Any>),
    /// Named values in the order they were read; each name occurs once.
    Table(Vec<(String, Any)>),
}

/// The first position at or after `i` whose entry is named `name`, or the
/// number of entries where none is.
pub open spec fn key_index_from(entries: Seq<(String, Any)>, name: Seq<char>, i: int) -> int
    decreases entries.len() - i,
{
    if i < 0 || i >= entries.len() {
        entries.len() as int
    } else if entries[i].0@ == name {
        i
    } else {
        key_index_from(entries, name, i + 1)
    }
}

/// The position of the entry named `name`, or the number of entries where
/// none is.
pub open spec fn key_index(entries: Seq<(String, Any)>, name: Seq<char>) -> int {
    key_index_from(entries, name, 0)
}

/// No two entries share a name.
pub open spec fn keys_unique(entries: Seq<(String, Any)>) -> bool {
    forall|i: int, j: int| 0 <= i < j < entries.len() ==> entries[i].0@ != entries[j].0@
}

/// What a value renders to when referred to directly: a number's text as it
/// is, a text escaped or not as asked, nothing for any other value.
pub open spec fn value_pieces(v: Any, escape: bool) -> Seq<(Seq<char>, bool)> {
    match v {
        Any::Number(t) => seq![(t@, false)],
        Any::String(s) => seq![(s@, escape)],
        _ => seq![],
    }
}

/// The contexts in which a section over a value is rendered: each element of
/// a list in turn, a non-empty map once as itself, an empty map never, and any
/// other value once in the unchanged context.
pub open spec fn value_sections(v: Any) -> Seq<SectionContext> {
    match v {
        Any::List(xs) => Seq::new(xs@.len(), |i: int| SectionContext::Element(i as usize)),
        Any::Table(es) => if es.len() > 0 {
            seq![SectionContext::Itself]
        } else {
            seq![]
        },
        _ => seq![SectionContext::Unchanged],
    }
}

/// Whether a section over a value is entered: only a non-empty list or map.
pub open spec fn value_truthy(v: Any) -> bool {
    match v {
        Any::List(xs) => xs.len() > 0,
        Any::Table(es) => es.len() > 0,
        _ => false,
    }
}

/// The value named `name` in a map; `None` for any other value or a missing name.
pub open spec fn value_field(v: Any, name: Seq<char>) -> Option<Any> {
    match v {
        Any::Table(es) => {
            let i = key_index(es@, name);
            if i < es@.len() {
                Some(es@[i].1)
            } else {
                None
            }
        },
        _ => None,
    }
}

impl Any {
    /// A map's names occur once each.
    pub open spec fn wf(&self) -> bool {
        match self {
            Any::Table(es) => keys_unique(es@),
            _ => true,
        }
    }

    /// A map of the given entries, kept in their order; `None` where two
    /// entries share a name.
    pub fn table(entries: Vec<(String, Any)>) -> (r: Option<Any>)
        ensures
            r is Some <==> keys_unique(entries@),
            r matches Some(v) ==> v == Any::Table(entries) && v.wf(),
    {
        let n = entries.len();
        let mut i: usize = 0;
        while i < n
            invariant
                n == entries@.len(),
                i <= n,
                forall|a: int, b: int| 0 <= a < b < entries@.len() && a < i ==> entries@[a].0@
                    != entries@[b].0@,
            decreases n - i,
        {
            let mut j: usize = i + 1;
            while j < n
                invariant
                    n == entries@.len(),
                    i < n,
                    i + 1 <= j <= n,
                    forall|a: int, b: int| 0 <= a < b < entries@.len() && a < i ==> entries@[a].0@
                        != entries@[b].0@,
                    forall|b: int| i < b < j ==> entries@[i as int].0@ != entries@[b].0@,
                decreases n - j,
            {
                if entries[i].0 == entries[j].0 {
                    return None;
                }
                j = j + 1;
            }
            i = i + 1;
        }
        Some(Any::Table(entries))
    }

    /// Whether a section over the value is entered: only a non-empty list or
    /// map; a number, text or date never.
    pub fn is_truthy(&self) -> (r: bool)
        ensures
            r == value_truthy(*self),
    {
        match self {
            Any::List(xs) => xs.len() != 0,
            Any::Table(es) => es.len() != 0,
            _ => false,
        }
    }

    fn pieces(&self, escape: bool) -> (r: Vec<Piece>)
        ensures
            pieces_model(r@) == value_pieces(*self, escape),
    {
        let mut out: Vec<Piece> = Vec::new();
        match self {
            Any::Number(t) => out.push(Piece { text: t.clone(), escape: false }),
            Any::String(s) => out.push(Piece { text: s.clone(), escape }),
            _ => {},
        }
        proof {
            assert(pieces_model(out@) =~= value_pieces(*self, escape));
        }
        out
    }

    /// What the value renders to when referred to directly, escaped.
    pub fn render_escaped(&self) -> (r: Vec<Piece>)
        ensures
            pieces_model(r@) == value_pieces(*self, true),
    {
        self.pieces(true)
    }

    /// What the value renders to when referred to directly, not escaped.
    pub fn render_unescaped(&self) -> (r: Vec<Piece>)
        ensures
            pieces_model(r@) == value_pieces(*self, false),
    {
        self.pieces(false)
    }

    /// The contexts in which a section over the value is rendered, in order.
    pub fn render_section(&self) -> (r: Vec<SectionContext>)
        ensures
            r@ == value_sections(*self),
    {
        let mut out: Vec<SectionContext> = Vec::new();
        match self {
            Any::List(xs) => {
                let n = xs.len();
                let mut i: usize = 0;
                while i < n
                    invariant
                        n == xs@.len(),
                        i <= n,
                        out@ == Seq::new(i as nat, |k: int| SectionContext::Element(k as usize)),
                    decreases n - i,
                {
                    out.push(SectionContext::Element(i));
                    proof {
                        assert(out@ =~= Seq::new(
                            (i + 1) as nat,
                            |k: int| SectionContext::Element(k as usize),
                        ));
                    }
                    i = i + 1;
                }
            },
            Any::Table(es) => {
                if es.len() != 0 {
                    out.push(SectionContext::Itself);
                }
            },
            _ => out.push(SectionContext::Unchanged),
        }
        proof {
            assert(out@ =~= value_sections(*self));
        }
        out
    }

    /// The contexts in which an inverted section over the value is rendered:
    /// once, unchanged, where the value is not truthy; else never.
    pub fn render_inverse(&self) -> (r: Vec<SectionContext>)
        ensures
            r@ == (if value_truthy(*self) {
                Seq::<SectionContext>::empty()
            } else {
                seq![SectionContext::Unchanged]
            }),
    {
        let mut out: Vec<SectionContext> = Vec::new();
        if !self.is_truthy() {
            out.push(SectionContext::Unchanged);
        }
        proof {
            assert(out@ =~= (if value_truthy(*self) {
                Seq::<SectionContext>::empty()
            } else {
                seq![SectionContext::Unchanged]
            }));
        }
        out
    }

    /// The value named `name`, where `self` is a map that has it; else `None`,
    /// and the engine goes on to the enclosing contexts.
    pub fn field(&self, name: &str) -> (r: Option<&Any>)
        ensures
            r matches Some(v) ==> value_field(*self, name@) == Some(*v),
            r is None ==> value_field(*self, name@) is None,
    {
        match self {
            Any::Table(es) => {
                let key = String::from_str(name);
                let n = es.len();
                let mut i: usize = 0;
                while i < n
                    invariant
                        n == es@.len(),
                        *self == Any::Table(*es),
                        i <= n,
                        key@ == name@,
                        key_index(es@, name@) == key_index_from(es@, name@, i as int),
                    decreases n - i,
                {
                    let entry = &es[i];
                    if entry.0 == key {
                        proof {
                            assert(*entry == es@[i as int]);
                            assert(key_index_from(es@, name@, i as int) == i);
                        }
                        return Some(&entry.1);
                    }
                    i = i + 1;
                }
                None
            },
            _ => None,
        }
    }

    /// Renders the field `name`, escaped: `None` where there is no such field.
    pub fn render_field_escaped(&self, name: &str) -> (r: Option<Vec<Piece>>)
        ensures
            r is Some <==> value_field(*self, name@) is Some,
            r matches Some(ps) ==> pieces_model(ps@) == value_pieces(
                value_field(*self, name@)->0,
                true,
            ),
    {
        match self.field(name) {
            Some(v) => Some(v.render_escaped()),
            None => None,
        }
    }

    /// Renders the field `name`, not escaped: `None` where there is no such field.
    pub fn render_field_unescaped(&self, name: &str) -> (r: Option<Vec<Piece>>)
        ensures
            r is Some <==> value_field(*self, name@) is Some,
            r matches Some(ps) ==> pieces_model(ps@) == value_pieces(
                value_field(*self, name@)->0,
                false,
            ),
    {
        match self.field(name) {
            Some(v) => Some(v.render_unescaped()),
            None => None,
        }
    }
}

} // verus!
