//! Entries produced by a walk, and the chain of predicates that selects them.
use crate::pattern::{regex_accepts, regex_finds, NamePattern, PatternError};
use vstd::prelude::*;

verus! {

/// What a directory entry is, fixed when the entry is found. A symbolic link
/// is a `Link`, whatever it points at.
#[derive(Clone, Copy, Debug, PartialEq, Eq, Structural)]
pub enum EntryKind {
    Dir,
    File,
    Link,
    Other,
}

/// A type predicate: the kind of entry it selects.
#[derive(Clone, Copy, Debug, PartialEq, Eq, Structural)]
pub enum EntryType {
    Dir,
    File,
    Link,
}

/// One entry found by a walk: its display path, its base name and its kind.
pub struct Entry {
    pub path: String,
    pub name: String,
    pub kind: EntryKind,
}

pub struct EntryView {
    pub path: Seq<char>,
    pub name: Seq<char>,
    pub kind: EntryKind,
}

impl View for Entry {
    type V = EntryView;

    open spec fn view(&self) -> EntryView {
        EntryView { path: self.path@, name: self.name@, kind: self.kind }
    }
}

/// Type predicates and name predicates, combined as "any type and any name".
pub struct FilterChain {
    pub types: Vec<EntryType>,
    pub names: Vec<NamePattern>,
}

pub struct ChainView {
    pub types: Seq<EntryType>,
    pub names: Seq<Seq<char>>,
}

impl View for FilterChain {
    type V = ChainView;

    open spec fn view(&self) -> ChainView {
        ChainView { types: self.types@, names: self.names@.map_values(|p: NamePattern| p@) }
    }
}

pub open spec fn type_selects(t: EntryType, k: EntryKind) -> bool {
    match t {
        EntryType::Dir => k == EntryKind::Dir,
        EntryType::File => k == EntryKind::File,
        EntryType::Link => k == EntryKind::Link,
    }
}

/// No type predicate at all, or one that selects kind `k`.
pub open spec fn types_select(ts: Seq<EntryType>, k: EntryKind) -> bool {
    ts.len() == 0 || exists|i: int| 0 <= i < ts.len() && #[trigger] type_selects(ts[i], k)
}

/// No name predicate at all, or one whose pattern is found in `name`.
pub open spec fn names_select(ps: Seq<Seq<char>>, name: Seq<char>) -> bool {
    ps.len() == 0 || exists|i: int| 0 <= i < ps.len() && #[trigger] regex_finds(ps[i], name)
}

/// Whether the chain selects the entry.
pub open spec fn chain_selects(c: ChainView, e: EntryView) -> bool {
    types_select(c.types, e.kind) && names_select(c.names, e.name)
}

/// Index of the first pattern that the regex engine refuses, or the length if none.
pub open spec fn first_refused(ps: Seq<Seq<char>>) -> int
    decreases ps.len(),
{
    if ps.len() == 0 {
        0
    } else if !regex_accepts(ps[0]) {
        0
    } else {
        1 + first_refused(ps.drop_first())
    }
}

proof fn lemma_first_refused(ps: Seq<Seq<char>>)
    ensures
        0 <= first_refused(ps) <= ps.len(),
        forall|j: int| 0 <= j < first_refused(ps) ==> regex_accepts(#[trigger] ps[j]),
        first_refused(ps) < ps.len() ==> !regex_accepts(ps[first_refused(ps)]),
    decreases ps.len(),
{
    if ps.len() > 0 && regex_accepts(ps[0]) {
        lemma_first_refused(ps.drop_first());
        assert forall|j: int| 0 <= j < first_refused(ps) implies regex_accepts(#[trigger] ps[j]) by {
            if j > 0 {
                assert(ps[j] == ps.drop_first()[j - 1]);
            }
        }
    }
}

pub open spec fn string_views(v: Seq<String>) -> Seq<Seq<char>> {
    v.map_values(|s: String| s@)
}

impl EntryType {
    /// The type named by a one-letter tag: `d`, `f` or `l`.
    pub fn from_tag(tag: &str) -> (r: Option<EntryType>)
        ensures
            tag@ == seq!['d'] ==> r == Some(EntryType::Dir),
            tag@ == seq!['f'] ==> r == Some(EntryType::File),
            tag@ == seq!['l'] ==> r == Some(EntryType::Link),
            tag@ != seq!['d'] && tag@ != seq!['f'] && tag@ != seq!['l'] ==> r is None,
    {
        let mut n: usize = 0;
        let mut first: char = ' ';
        for c in it: tag.chars()
            invariant
                n == if it.index() < 2 { it.index() } else { 2 },
                it.seq() == tag@,
                n > 0 ==> first == tag@[0],
        {
            if n == 0 {
                first = c;
            }
            if n < 2 {
                n = n + 1;
            }
        }
        if n != 1 {
            return None;
        }
        assert(tag@ == seq![first]);
        if first == 'd' {
            Some(EntryType::Dir)
        } else if first == 'f' {
            Some(EntryType::File)
        } else if first == 'l' {
            Some(EntryType::Link)
        } else {
            None
        }
    }

    /// Whether this predicate selects entries of kind `k`.
    pub fn selects(&self, k: EntryKind) -> (r: bool)
        ensures
            r == type_selects(*self, k),
    {
        match self {
            EntryType::Dir => k == EntryKind::Dir,
            EntryType::File => k == EntryKind::File,
            EntryType::Link => k == EntryKind::Link,
        }
    }
}

impl FilterChain {
    /// Builds a chain, compiling every name pattern first. Fails on the first
    /// pattern the regex engine refuses, before any entry is looked at.
    pub fn new(types: Vec<EntryType>, patterns: &Vec<String>) -> (r: Result<FilterChain, PatternError>)
        ensures
            r is Ok <==> (forall|i: int| 0 <= i < patterns@.len() ==> regex_accepts(#[trigger] patterns@[i]@)),
            r matches Ok(c) ==> c@.types == types@ && c@.names == string_views(patterns@),
            r matches Err(e) ==> first_refused(string_views(patterns@)) < patterns@.len()
                && e.pattern@ == patterns@[first_refused(string_views(patterns@))]@,
    {
        let ghost ps = string_views(patterns@);
        proof {
            lemma_first_refused(ps);
        }
        let mut names: Vec<NamePattern> = Vec::new();
        let mut i: usize = 0;
        while i < patterns.len()
            invariant
                i <= patterns@.len(),
                ps == string_views(patterns@),
                names@.len() == i,
                forall|j: int| 0 <= j < i ==> (#[trigger] names@[j])@ == patterns@[j]@,
                forall|j: int| 0 <= j < i ==> regex_accepts(#[trigger] patterns@[j]@),
                0 <= first_refused(ps) <= ps.len(),
                forall|j: int| 0 <= j < first_refused(ps) ==> regex_accepts(#[trigger] ps[j]),
                first_refused(ps) < ps.len() ==> !regex_accepts(ps[first_refused(ps)]),
            decreases patterns@.len() - i,
        {
            match NamePattern::new(patterns[i].as_str()) {
                Ok(p) => {
                    names.push(p);
                },
                Err(e) => {
                    assert(ps[i as int] == patterns@[i as int]@);
                    assert(first_refused(ps) == i) by {
                        if first_refused(ps) < i {
                            assert(ps[first_refused(ps)] == patterns@[first_refused(ps)]@);
                        }
                    }
                    return Err(e);
                },
            }
            i = i + 1;
        }
        let c = FilterChain { types, names };
        assert(c@.names =~= ps);
        Ok(c)
    }

    /// Whether the entry is selected: its kind passes the type predicates
    /// (or there are none) and its base name passes the name predicates (or
    /// there are none).
    pub fn matches(&self, entry: &Entry) -> (r: bool)
        ensures
            r == chain_selects(self@, entry@),
    {
        let mut type_ok = self.types.len() == 0;
        let mut i: usize = 0;
        while i < self.types.len() && !type_ok
            invariant
                i <= self.types@.len(),
                type_ok ==> types_select(self@.types, entry.kind),
                !type_ok ==> self.types@.len() > 0
                    && forall|j: int| 0 <= j < i ==> !type_selects(#[trigger] self.types@[j], entry.kind),
            decreases self.types@.len() - i,
        {
            if self.types[i].selects(entry.kind) {
                type_ok = true;
            }
            i = i + 1;
        }
        if !type_ok {
            return false;
        }
        let mut name_ok = self.names.len() == 0;
        let mut i: usize = 0;
        while i < self.names.len() && !name_ok
            invariant
                i <= self.names@.len(),
                name_ok ==> names_select(self@.names, entry.name@),
                !name_ok ==> self.names@.len() > 0
                    && forall|j: int| 0 <= j < i ==> !regex_finds(#[trigger] self@.names[j], entry.name@),
            decreases self.names@.len() - i,
        {
            if self.names[i].is_match(entry.name.as_str()) {
                assert(self@.names[i as int] == self.names@[i as int]@);
                name_ok = true;
            }
            i = i + 1;
        }
        name_ok
    }
}

/// A chain with no type predicates and no name predicates selects every entry.
pub proof fn lemma_empty_chain_selects_all(c: ChainView, e: EntryView)
    requires
        c.types.len() == 0,
        c.names.len() == 0,
    ensures
        chain_selects(c, e),
{
}

/// Selection is a function of the chain and of the entry's kind and base name
/// alone: the same chain gives the same answer for entries that agree on both,
/// however often and in whatever order it is asked.
pub proof fn lemma_selection_is_pure(c1: ChainView, c2: ChainView, e1: EntryView, e2: EntryView)
    requires
        c1 == c2,
        e1.kind == e2.kind,
        e1.name == e2.name,
    ensures
        chain_selects(c1, e1) == chain_selects(c2, e2),
{
}

/// The predicates of a chain form two sets: listing them in another order,
/// or repeating one, selects the same entries.
pub proof fn lemma_selection_ignores_order(c1: ChainView, c2: ChainView, e: EntryView)
    requires
        c1.types.to_set() == c2.types.to_set(),
        c1.names.to_set() == c2.names.to_set(),
    ensures
        chain_selects(c1, e) == chain_selects(c2, e),
{
    lemma_types_by_set(c1.types, c2.types, e.kind);
    lemma_types_by_set(c2.types, c1.types, e.kind);
    lemma_names_by_set(c1.names, c2.names, e.name);
    lemma_names_by_set(c2.names, c1.names, e.name);
}

proof fn lemma_types_by_set(a: Seq<EntryType>, b: Seq<EntryType>, k: EntryKind)
    requires
        a.to_set() == b.to_set(),
    ensures
        types_select(a, k) ==> types_select(b, k),
{
    if b.len() > 0 {
        assert(b.to_set().contains(b[0]));
        assert(a.len() > 0);
    }
    if a.len() > 0 && types_select(a, k) {
        let i = choose|i: int| 0 <= i < a.len() && #[trigger] type_selects(a[i], k);
        assert(a.to_set().contains(a[i]));
        let j = choose|j: int| 0 <= j < b.len() && b[j] == a[i];
        assert(type_selects(b[j], k));
    }
}

proof fn lemma_names_by_set(a: Seq<Seq<char>>, b: Seq<Seq<char>>, name: Seq<char>)
    requires
        a.to_set() == b.to_set(),
    ensures
        names_select(a, name) ==> names_select(b, name),
{
    if b.len() > 0 {
        assert(b.to_set().contains(b[0]));
        assert(a.len() > 0);
    }
    if a.len() > 0 && names_select(a, name) {
        let i = choose|i: int| 0 <= i < a.len() && #[trigger] regex_finds(a[i], name);
        assert(a.to_set().contains(a[i]));
        let j = choose|j: int| 0 <= j < b.len() && b[j] == a[i];
        assert(regex_finds(b[j], name));
    }
}

} // verus!
