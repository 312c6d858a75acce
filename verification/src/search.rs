//! The named searches of a decoder: what each one decodes with, and the
//! table that holds them.

use crate::cursor::{first, rest};
use crate::error::{Error, ErrorKind};
use vstd::prelude::*;
use vstd::slice::slice_subrange;

verus! {

/// What a search decodes with.
#[derive(Clone, Copy, Debug, PartialEq, Eq, Structural)]
pub enum SearchKind {
    /// A statistical language model read from a file.
    LanguageModel,
    /// A grammar read from a file.
    GrammarFile,
    /// A grammar given as text.
    GrammarString,
    /// A list of keywords read from a file.
    KeywordList,
    /// A single key phrase given as text.
    KeyPhrase,
    /// A phone loop read from a file.
    PhoneLoop,
    /// A search that the engine set up by itself from its options.
    Preset,
}

/// One named search.
pub struct SearchModel {
    pub name: Seq<char>,
    pub kind: SearchKind,
}

/// What each entry of `items` stands for, in the same order.
pub open spec fn search_models(items: Seq<SearchEntry>) -> Seq<SearchModel> {
    Seq::new(items.len(), |i: int| items[i]@)
}

/// The names of `searches`, in the same order.
pub open spec fn search_names(searches: Seq<SearchModel>) -> Seq<Seq<char>> {
    Seq::new(searches.len(), |i: int| searches[i].name)
}

/// Some search of `searches` is called `name`.
pub open spec fn has_search(searches: Seq<SearchModel>, name: Seq<char>) -> bool {
    exists|i: int| 0 <= i < searches.len() && searches[i].name == name
}

/// No two searches of `searches` share a name.
pub open spec fn search_names_distinct(searches: Seq<SearchModel>) -> bool {
    forall|i: int, j: int| 0 <= i < j < searches.len() ==> searches[i].name != searches[j].name
}

/// A place at which `searches` holds the name `name`, where it holds it.
pub open spec fn position(searches: Seq<SearchModel>, name: Seq<char>) -> int {
    choose|i: int| 0 <= i < searches.len() && searches[i].name == name
}

/// The table after a search `name` of kind `kind` was installed: a search
/// of that name is replaced where it stands, a new one goes to the end.
pub open spec fn installed(searches: Seq<SearchModel>, name: Seq<char>, kind: SearchKind) -> Seq<
    SearchModel,
> {
    if has_search(searches, name) {
        searches.update(position(searches, name), SearchModel { name, kind })
    } else {
        searches.push(SearchModel { name, kind })
    }
}

/// The table after the search `name` was taken out, the others in the
/// order they had.
pub open spec fn removed(searches: Seq<SearchModel>, name: Seq<char>) -> Seq<SearchModel> {
    if has_search(searches, name) {
        searches.remove(position(searches, name))
    } else {
        searches
    }
}

/// What the engine's answer to a change of its searches means: a negative
/// code is a configuration failure, any other code is success.
pub fn check_res(res: i32) -> (checked: Result<(), Error>)
    ensures
        checked is Ok <==> res >= 0,
        checked matches Err(e) ==> e.kind == ErrorKind::ConfigurationFailure,
{
    if res < 0 {
        Err(Error::new(ErrorKind::ConfigurationFailure))
    } else {
        Ok(())
    }
}

/// One row of the table of searches.
#[derive(Clone, Debug)]
pub struct SearchEntry {
    name: String,
    kind: SearchKind,
}

impl View for SearchEntry {
    type V = SearchModel;

    closed spec fn view(&self) -> SearchModel {
        SearchModel { name: self.name@, kind: self.kind }
    }
}

impl SearchEntry {
    pub fn new(name: String, kind: SearchKind) -> (entry: SearchEntry)
        ensures
            entry@ == (SearchModel { name: name@, kind }),
    {
        SearchEntry { name, kind }
    }

    pub fn name(&self) -> (name: &str)
        ensures
            name@ == self@.name,
    {
        self.name.as_str()
    }

    pub fn kind(&self) -> (kind: SearchKind)
        ensures
            kind == self@.kind,
    {
        self.kind
    }
}

/// A cursor over the names of the searches of a decoder.
#[derive(Clone, Debug)]
pub struct Searches<'a> {
    rest: &'a [SearchEntry],
}

impl<'a> View for Searches<'a> {
    type V = Seq<Seq<char>>;

    /// The names that have not been handed out yet.
    closed spec fn view(&self) -> Seq<Seq<char>> {
        search_names(search_models(self.rest@))
    }
}

impl<'a> Searches<'a> {
    pub fn new(entries: &'a [SearchEntry]) -> (cursor: Searches<'a>)
        ensures
            cursor@ == search_names(search_models(entries@)),
    {
        Searches { rest: entries }
    }

    /// Hands out the next name, if one is left.
    pub fn next(&mut self) -> (name: Option<&'a str>)
        ensures
            match name {
                Some(handed) => first(old(self)@) == Some(handed@),
                None => first(old(self)@) is None,
            },
            final(self)@ == rest(old(self)@),
    {
        let rest: &'a [SearchEntry] = self.rest;
        if rest.len() == 0 {
            return None;
        }
        let entry: &'a SearchEntry = &rest[0];
        self.rest = slice_subrange(rest, 1, rest.len());
        assert(self@ =~= old(self)@.drop_first());
        Some(entry.name.as_str())
    }
}

/// The table of searches of a decoder, and the name of the one in use.
pub struct TableModel {
    pub searches: Seq<SearchModel>,
    pub active: Option<Seq<char>>,
}

/// The characters of a name that may be absent.
pub open spec fn name_of(name: Option<String>) -> Option<Seq<char>> {
    match name {
        Some(text) => Some(text@),
        None => None,
    }
}

/// The searches of one decoder, each under a name of its own, and the name
/// of the search that is in use, which is always one of them.
#[derive(Debug)]
pub struct SearchTable {
    entries: Vec<SearchEntry>,
    active: Option<String>,
}

impl View for SearchTable {
    type V = TableModel;

    closed spec fn view(&self) -> TableModel {
        TableModel { searches: search_models(self.entries@), active: name_of(self.active) }
    }
}

/// In a table of distinct names, the place of a name is the one place that
/// holds it.
pub proof fn lemma_position_is_unique(searches: Seq<SearchModel>, name: Seq<char>, at: int)
    requires
        search_names_distinct(searches),
        0 <= at < searches.len(),
        searches[at].name == name,
    ensures
        has_search(searches, name),
        position(searches, name) == at,
{
    let chosen = position(searches, name);
    assert(0 <= chosen < searches.len() && searches[chosen].name == name);
    if chosen < at {
        assert(searches[chosen].name != searches[at].name);
    }
    if at < chosen {
        assert(searches[at].name != searches[chosen].name);
    }
}

impl SearchTable {
    #[verifier::type_invariant]
    spec fn well_formed(&self) -> bool {
        &&& search_names_distinct(search_models(self.entries@))
        &&& self.active matches Some(name) ==> has_search(search_models(self.entries@), name@)
    }

    /// A table without searches.
    pub fn new() -> (table: SearchTable)
        ensures
            table@ == (TableModel { searches: Seq::<SearchModel>::empty(), active: None }),
    {
        let table = SearchTable { entries: Vec::new(), active: None };
        assert(table@.searches =~= Seq::<SearchModel>::empty());
        table
    }

    /// The number of searches.
    pub fn len(&self) -> (count: usize)
        ensures
            count == self@.searches.len(),
    {
        self.entries.len()
    }

    /// The place of the search called `name`, if the table holds one.
    fn find(&self, name: &str) -> (at: Option<usize>)
        ensures
            at is Some <==> has_search(self@.searches, name@),
            at matches Some(i) ==> i < self@.searches.len() && self@.searches[i as int].name
                == name@ && position(self@.searches, name@) == i,
            search_names_distinct(self@.searches),
    {
        proof {
            use_type_invariant(self);
        }
        let wanted = name.to_owned();
        let mut i: usize = 0;
        while i < self.entries.len()
            invariant
                i <= self.entries.len(),
                wanted@ == name@,
                search_names_distinct(self@.searches),
                forall|j: int| 0 <= j < i ==> self@.searches[j].name != name@,
            decreases self.entries.len() - i,
        {
            if self.entries[i].name == wanted {
                proof {
                    lemma_position_is_unique(self@.searches, name@, i as int);
                }
                return Some(i);
            }
            i += 1;
        }
        None
    }

    /// Whether the table holds a search called `name`.
    pub fn contains(&self, name: &str) -> (held: bool)
        ensures
            held == has_search(self@.searches, name@),
    {
        self.find(name).is_some()
    }

    /// What the search called `name` decodes with, if the table holds it.
    pub fn kind_of(&self, name: &str) -> (kind: Option<SearchKind>)
        ensures
            kind is Some <==> has_search(self@.searches, name@),
            kind matches Some(k) ==> k == self@.searches[position(self@.searches, name@)].kind,
    {
        match self.find(name) {
            Some(i) => Some(self.entries[i].kind),
            None => None,
        }
    }

    /// The name of the search in use, if one is. It is the name of a search
    /// of the table.
    pub fn active(&self) -> (name: Option<&str>)
        ensures
            name is Some <==> self@.active is Some,
            name matches Some(text) ==> self@.active == Some(text@) && has_search(
                self@.searches,
                text@,
            ),
    {
        proof {
            use_type_invariant(self);
        }
        match &self.active {
            Some(text) => Some(text.as_str()),
            None => None,
        }
    }

    /// Puts the search `name` of kind `kind` into the table, in place of a
    /// search of that name if there is one. The search in use stays in use.
    pub fn install(&mut self, name: &str, kind: SearchKind)
        ensures
            final(self)@ == (TableModel {
                searches: installed(old(self)@.searches, name@, kind),
                active: old(self)@.active,
            }),
    {
        proof {
            use_type_invariant(&*self);
        }
        let entry = SearchEntry::new(name.to_owned(), kind);
        let found = self.find(name);
        let mut taken = SearchTable::new();
        core::mem::swap(self, &mut taken);
        let SearchTable { entries, active } = taken;
        let mut entries = entries;
        match found {
            Some(i) => {
                entries.set(i, entry);
                assert(search_models(entries@) =~= old(self)@.searches.update(i as int, entry@));
            },
            None => {
                entries.push(entry);
                assert(search_models(entries@) =~= old(self)@.searches.push(entry@));
            },
        }
        proof {
            if let Some(text) = name_of(active) {
                let at = position(old(self)@.searches, text);
                assert(search_models(entries@)[at].name == text);
            }
        }
        *self = SearchTable { entries, active };
    }

    /// Makes the search `name` the one in use. A name that the table does
    /// not hold yet is taken in as a search that the engine set up itself.
    pub fn activate(&mut self, name: &str)
        ensures
            final(self)@ == (TableModel {
                searches: if has_search(old(self)@.searches, name@) {
                    old(self)@.searches
                } else {
                    installed(old(self)@.searches, name@, SearchKind::Preset)
                },
                active: Some(name@),
            }),
    {
        if !self.contains(name) {
            self.install(name, SearchKind::Preset);
        }
        assert(has_search(self@.searches, name@)) by {
            if has_search(old(self)@.searches, name@) {
            } else {
                let last = self@.searches.len() - 1;
                assert(self@.searches[last].name == name@);
            }
        }
        let mut taken = SearchTable::new();
        core::mem::swap(self, &mut taken);
        proof {
            use_type_invariant(&taken);
        }
        let SearchTable { entries, active: _ } = taken;
        *self = SearchTable { entries, active: Some(name.to_owned()) };
    }

    /// Takes the search `name` out of the table, and says whether the
    /// table held it. If it was the search in use, none is in use after.
    pub fn remove(&mut self, name: &str) -> (held: bool)
        ensures
            held == has_search(old(self)@.searches, name@),
            final(self)@ == (TableModel {
                searches: removed(old(self)@.searches, name@),
                active: if old(self)@.active == Some(name@) {
                    None
                } else {
                    old(self)@.active
                },
            }),
    {
        proof {
            use_type_invariant(&*self);
        }
        match self.find(name) {
            Some(i) => {
                let wanted = name.to_owned();
                let mut taken = SearchTable::new();
                core::mem::swap(self, &mut taken);
                let SearchTable { entries, active } = taken;
                let mut entries = entries;
                entries.remove(i);
                let kept: Option<String> = match active {
                    Some(text) => if text == wanted {
                        None
                    } else {
                        Some(text)
                    },
                    None => None,
                };
                proof {
                    let before = old(self)@.searches;
                    let after = search_models(entries@);
                    assert(after =~= before.remove(i as int));
                    assert forall|a: int, b: int| 0 <= a < b < after.len() implies after[a].name
                        != after[b].name by {
                        let a0 = if a < i { a } else { a + 1 };
                        let b0 = if b < i { b } else { b + 1 };
                        assert(after[a] == before[a0]);
                        assert(after[b] == before[b0]);
                    }
                    if let Some(text) = name_of(kept) {
                        let at = position(before, text);
                        assert(at != i);
                        let moved = if at < i { at } else { at - 1 };
                        assert(after[moved].name == text);
                    }
                }
                *self = SearchTable { entries, active: kept };
                true
            },
            None => {
                assert(old(self)@.active != Some(name@));
                false
            },
        }
    }

    /// A fresh cursor over the names of all searches. No name comes twice.
    pub fn iter(&self) -> (cursor: Searches<'_>)
        ensures
            cursor@ == search_names(self@.searches),
            search_names_distinct(self@.searches),
    {
        proof {
            use_type_invariant(self);
        }
        Searches::new(self.entries.as_slice())
    }
}

} // verus!
