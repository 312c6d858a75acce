//! A parsed grammar: named rules, each a choice between sequences of
//! tagged atoms, and the read-only cursors that walk them.

use crate::cursor::{first, rest};
use crate::error::{Error, ErrorKind};
use crate::text::{c_bytes, c_string, nul_free, terminated};
use vstd::prelude::*;
use vstd::slice::slice_subrange;
use vstd::string::StringSliceAdditionalSpecFns;

verus! {

/// One token of an alternative and the tags attached to it, in order.
pub struct AtomModel {
    pub name: Seq<char>,
    pub tags: Seq<Seq<char>>,
}

/// One rule: its name, whether it is an entry point, and its alternatives
/// in the order in which the grammar lists them.
pub struct RuleModel {
    pub name: Seq<char>,
    pub public: bool,
    pub rhs: Seq<Seq<AtomModel>>,
}

/// A grammar: its name and its rules.
pub struct GrammarModel {
    pub name: Seq<char>,
    pub rules: Seq<RuleModel>,
}

/// No two rules of `rules` share a name.
pub open spec fn names_distinct(rules: Seq<RuleModel>) -> bool {
    forall|i: int, j: int| 0 <= i < j < rules.len() ==> rules[i].name != rules[j].name
}

/// Some rule of `rules` is public.
pub open spec fn has_public(rules: Seq<RuleModel>) -> bool {
    exists|i: int| 0 <= i < rules.len() && rules[i].public
}

/// Rule `i` is the entry point of `rules`: the first public one.
pub open spec fn is_entry(rules: Seq<RuleModel>, i: int) -> bool {
    &&& 0 <= i < rules.len()
    &&& rules[i].public
    &&& forall|j: int| 0 <= j < i ==> !rules[j].public
}

/// Some rule of `rules` is called `name`.
pub open spec fn has_rule(rules: Seq<RuleModel>, name: Seq<char>) -> bool {
    exists|i: int| 0 <= i < rules.len() && rules[i].name == name
}

/// The characters of each string of `items`, in the same order.
pub open spec fn texts(items: Seq<String>) -> Seq<Seq<char>> {
    Seq::new(items.len(), |i: int| items[i]@)
}

/// What each atom of `items` stands for, in the same order.
pub open spec fn atom_models(items: Seq<Atom>) -> Seq<AtomModel> {
    Seq::new(items.len(), |i: int| items[i]@)
}

/// What each alternative of `items` stands for, in the same order.
pub open spec fn rhs_models(items: Seq<Vec<Atom>>) -> Seq<Seq<AtomModel>> {
    Seq::new(items.len(), |i: int| atom_models(items[i]@))
}

/// What each rule of `items` stands for, in the same order.
pub open spec fn rule_models(items: Seq<Rule>) -> Seq<RuleModel> {
    Seq::new(items.len(), |i: int| items[i]@)
}

/// A cursor over the tags of one atom.
#[derive(Clone, Debug)]
pub struct Tags<'a> {
    rest: &'a [String],
}

impl<'a> View for Tags<'a> {
    type V = Seq<Seq<char>>;

    /// The tags that have not been handed out yet.
    closed spec fn view(&self) -> Seq<Seq<char>> {
        texts(self.rest@)
    }
}

impl<'a> Tags<'a> {
    pub fn new(tags: &'a [String]) -> (cursor: Tags<'a>)
        ensures
            cursor@ == texts(tags@),
    {
        Tags { rest: tags }
    }

    /// Hands out the next tag, if one is left.
    pub fn next(&mut self) -> (tag: Option<&'a str>)
        ensures
            match tag {
                Some(handed) => first(old(self)@) == Some(handed@),
                None => first(old(self)@) is None,
            },
            final(self)@ == rest(old(self)@),
    {
        let rest: &'a [String] = self.rest;
        if rest.len() == 0 {
            return None;
        }
        let tag: &'a String = &rest[0];
        self.rest = slice_subrange(rest, 1, rest.len());
        assert(self@ =~= old(self)@.drop_first());
        Some(tag.as_str())
    }
}

/// One token of an alternative with its tags.
#[derive(Clone, Debug)]
pub struct Atom {
    name: String,
    tags: Vec<String>,
}

impl View for Atom {
    type V = AtomModel;

    closed spec fn view(&self) -> AtomModel {
        AtomModel { name: self.name@, tags: texts(self.tags@) }
    }
}

impl Atom {
    pub fn new(name: String, tags: Vec<String>) -> (atom: Atom)
        ensures
            atom@ == (AtomModel { name: name@, tags: texts(tags@) }),
    {
        Atom { name, tags }
    }

    pub fn name(&self) -> (name: &str)
        ensures
            name@ == self@.name,
    {
        self.name.as_str()
    }

    /// A fresh cursor over all tags of the atom.
    pub fn tags(&self) -> (cursor: Tags<'_>)
        ensures
            cursor@ == self@.tags,
    {
        Tags::new(self.tags.as_slice())
    }
}

/// A cursor over the atoms of one alternative.
#[derive(Clone, Debug)]
pub struct Atoms<'a> {
    rest: &'a [Atom],
}

impl<'a> View for Atoms<'a> {
    type V = Seq<AtomModel>;

    /// The atoms that have not been handed out yet.
    closed spec fn view(&self) -> Seq<AtomModel> {
        atom_models(self.rest@)
    }
}

impl<'a> Atoms<'a> {
    pub fn new(atoms: &'a [Atom]) -> (cursor: Atoms<'a>)
        ensures
            cursor@ == atom_models(atoms@),
    {
        Atoms { rest: atoms }
    }

    /// Hands out the next atom, if one is left.
    pub fn next(&mut self) -> (atom: Option<&'a Atom>)
        ensures
            match atom {
                Some(handed) => first(old(self)@) == Some(handed@),
                None => first(old(self)@) is None,
            },
            final(self)@ == rest(old(self)@),
    {
        let rest: &'a [Atom] = self.rest;
        if rest.len() == 0 {
            return None;
        }
        let atom: &'a Atom = &rest[0];
        self.rest = slice_subrange(rest, 1, rest.len());
        assert(self@ =~= old(self)@.drop_first());
        Some(atom)
    }
}

/// A cursor over the alternatives of one rule.
#[derive(Clone, Debug)]
pub struct Alternatives<'a> {
    rest: &'a [Vec<Atom>],
}

impl<'a> View for Alternatives<'a> {
    type V = Seq<Seq<AtomModel>>;

    /// The alternatives that have not been handed out yet.
    closed spec fn view(&self) -> Seq<Seq<AtomModel>> {
        rhs_models(self.rest@)
    }
}

impl<'a> Alternatives<'a> {
    pub fn new(rhs: &'a [Vec<Atom>]) -> (cursor: Alternatives<'a>)
        ensures
            cursor@ == rhs_models(rhs@),
    {
        Alternatives { rest: rhs }
    }

    /// Hands out a cursor over the next alternative, if one is left.
    pub fn next(&mut self) -> (atoms: Option<Atoms<'a>>)
        ensures
            match atoms {
                Some(handed) => first(old(self)@) == Some(handed@),
                None => first(old(self)@) is None,
            },
            final(self)@ == rest(old(self)@),
    {
        let rest: &'a [Vec<Atom>] = self.rest;
        if rest.len() == 0 {
            return None;
        }
        let alternative: &'a Vec<Atom> = &rest[0];
        self.rest = slice_subrange(rest, 1, rest.len());
        assert(self@ =~= old(self)@.drop_first());
        Some(Atoms::new(alternative.as_slice()))
    }
}

/// One rule of a grammar.
#[derive(Clone, Debug)]
pub struct Rule {
    name: String,
    public: bool,
    rhs: Vec<Vec<Atom>>,
}

impl View for Rule {
    type V = RuleModel;

    closed spec fn view(&self) -> RuleModel {
        RuleModel { name: self.name@, public: self.public, rhs: rhs_models(self.rhs@) }
    }
}

impl Rule {
    pub fn new(name: String, public: bool, rhs: Vec<Vec<Atom>>) -> (rule: Rule)
        ensures
            rule@ == (RuleModel { name: name@, public, rhs: rhs_models(rhs@) }),
    {
        Rule { name, public, rhs }
    }

    pub fn name(&self) -> (name: &str)
        ensures
            name@ == self@.name,
    {
        self.name.as_str()
    }

    pub fn is_public(&self) -> (public: bool)
        ensures
            public == self@.public,
    {
        self.public
    }

    /// The right-hand side of the rule, for walking its structure.
    pub fn internal(&self) -> (data: RuleData<'_>)
        ensures
            data@ == self@,
    {
        RuleData::new(self)
    }
}

/// The structure of one rule, as opposed to its name and visibility.
#[derive(Clone, Debug)]
pub struct RuleData<'a> {
    rule: &'a Rule,
}

impl<'a> View for RuleData<'a> {
    type V = RuleModel;

    closed spec fn view(&self) -> RuleModel {
        self.rule@
    }
}

impl<'a> RuleData<'a> {
    pub fn new(rule: &'a Rule) -> (data: RuleData<'a>)
        ensures
            data@ == rule@,
    {
        RuleData { rule }
    }

    /// A fresh cursor over all alternatives of the rule.
    pub fn alternatives(&self) -> (cursor: Alternatives<'a>)
        ensures
            cursor@ == self@.rhs,
    {
        let rule: &'a Rule = self.rule;
        Alternatives::new(rule.rhs.as_slice())
    }
}

/// A cursor over the rules of a grammar.
#[derive(Clone, Debug)]
pub struct Rules<'a> {
    rest: &'a [Rule],
}

impl<'a> View for Rules<'a> {
    type V = Seq<RuleModel>;

    /// The rules that have not been handed out yet.
    closed spec fn view(&self) -> Seq<RuleModel> {
        rule_models(self.rest@)
    }
}

impl<'a> Rules<'a> {
    pub fn new(rules: &'a [Rule]) -> (cursor: Rules<'a>)
        ensures
            cursor@ == rule_models(rules@),
    {
        Rules { rest: rules }
    }

    /// Hands out the next rule, if one is left.
    pub fn next(&mut self) -> (rule: Option<&'a Rule>)
        ensures
            match rule {
                Some(handed) => first(old(self)@) == Some(handed@),
                None => first(old(self)@) is None,
            },
            final(self)@ == rest(old(self)@),
    {
        let rest: &'a [Rule] = self.rest;
        if rest.len() == 0 {
            return None;
        }
        let rule: &'a Rule = &rest[0];
        self.rest = slice_subrange(rest, 1, rest.len());
        assert(self@ =~= old(self)@.drop_first());
        Some(rule)
    }
}

/// The bytes that the parser is handed for the grammar `s`: its UTF-8 form
/// and a closing NUL. A grammar that holds a NUL is a syntax error: the
/// parser would read no further.
pub fn grammar_text(s: &str) -> (out: Result<Vec<u8>, Error>)
    ensures
        out is Ok <==> nul_free(s.spec_bytes()),
        out matches Ok(b) ==> b@ == terminated(s.spec_bytes()),
        out matches Err(e) ==> e.kind == ErrorKind::GrammarSyntaxError,
{
    match c_string(s) {
        Some(bytes) => Ok(bytes),
        None => Err(Error::new(ErrorKind::GrammarSyntaxError)),
    }
}

/// The bytes that the parser is handed for the file name `name`: the name
/// and a closing NUL. A name that holds a NUL names no file that the
/// parser could read, which is a syntax error too.
pub fn grammar_file_name(name: &[u8]) -> (out: Result<Vec<u8>, Error>)
    ensures
        out is Ok <==> nul_free(name@),
        out matches Ok(b) ==> b@ == terminated(name@),
        out matches Err(e) ==> e.kind == ErrorKind::GrammarSyntaxError,
{
    match c_bytes(name) {
        Some(bytes) => Ok(bytes),
        None => Err(Error::new(ErrorKind::GrammarSyntaxError)),
    }
}

/// A parsed grammar. Its rule names are distinct and it has an entry
/// point.
#[derive(Debug)]
pub struct Jsgf {
    name: String,
    rules: Vec<Rule>,
    entry: usize,
}

impl View for Jsgf {
    type V = GrammarModel;

    closed spec fn view(&self) -> GrammarModel {
        GrammarModel { name: self.name@, rules: rule_models(self.rules@) }
    }
}

/// Whether two rules of `rules` share a name.
fn has_duplicate(rules: &Vec<Rule>) -> (found: bool)
    ensures
        found == !names_distinct(rule_models(rules@)),
{
    let ghost models = rule_models(rules@);
    let mut j: usize = 0;
    while j < rules.len()
        invariant
            j <= rules.len(),
            models == rule_models(rules@),
            forall|a: int, b: int| 0 <= a < b < j ==> models[a].name != models[b].name,
        decreases rules.len() - j,
    {
        let mut i: usize = 0;
        while i < j
            invariant
                i <= j < rules.len(),
                models == rule_models(rules@),
                forall|a: int| 0 <= a < i ==> models[a].name != models[j as int].name,
            decreases j - i,
        {
            if rules[i].name == rules[j].name {
                assert(models[i as int].name == models[j as int].name);
                return true;
            }
            i += 1;
        }
        j += 1;
    }
    false
}

/// The place of the first public rule of `rules`, if there is one.
fn find_entry(rules: &Vec<Rule>) -> (entry: Option<usize>)
    ensures
        entry is Some <==> has_public(rule_models(rules@)),
        entry is Some ==> is_entry(rule_models(rules@), entry.unwrap() as int),
{
    let ghost models = rule_models(rules@);
    let mut i: usize = 0;
    while i < rules.len()
        invariant
            i <= rules.len(),
            models == rule_models(rules@),
            forall|j: int| 0 <= j < i ==> !models[j].public,
        decreases rules.len() - i,
    {
        if rules[i].public {
            assert(models[i as int].public);
            return Some(i);
        }
        i += 1;
    }
    None
}

impl Jsgf {
    #[verifier::type_invariant]
    spec fn well_formed(&self) -> bool {
        &&& names_distinct(rule_models(self.rules@))
        &&& is_entry(rule_models(self.rules@), self.entry as int)
    }

    /// A grammar out of what the parser produced. Rule names that repeat
    /// are a syntax error; a grammar without a public rule cannot be used.
    pub fn new(name: String, rules: Vec<Rule>) -> (made: Result<Jsgf, Error>)
        ensures
            made is Ok <==> names_distinct(rule_models(rules@)) && has_public(
                rule_models(rules@),
            ),
            made is Ok ==> made.unwrap()@ == (GrammarModel {
                name: name@,
                rules: rule_models(rules@),
            }),
            made matches Err(e) ==> e.kind == if names_distinct(rule_models(rules@)) {
                ErrorKind::ConfigurationFailure
            } else {
                ErrorKind::GrammarSyntaxError
            },
    {
        if has_duplicate(&rules) {
            return Err(Error::new(ErrorKind::GrammarSyntaxError));
        }
        match find_entry(&rules) {
            Some(entry) => Ok(Jsgf { name, rules, entry }),
            None => Err(Error::new(ErrorKind::ConfigurationFailure)),
        }
    }

    /// A grammar out of the parser's answer, which is nothing when the
    /// parser rejected its input.
    pub fn from_parsed(parsed: Option<(String, Vec<Rule>)>) -> (made: Result<Jsgf, Error>)
        ensures
            made is Ok <==> parsed is Some && names_distinct(rule_models(parsed.unwrap().1@))
                && has_public(rule_models(parsed.unwrap().1@)),
            made is Ok ==> made.unwrap()@ == (GrammarModel {
                name: parsed.unwrap().0@,
                rules: rule_models(parsed.unwrap().1@),
            }),
            made matches Err(e) ==> e.kind == if parsed is Some && names_distinct(
                rule_models(parsed.unwrap().1@),
            ) {
                ErrorKind::ConfigurationFailure
            } else {
                ErrorKind::GrammarSyntaxError
            },
    {
        match parsed {
            Some((name, rules)) => Jsgf::new(name, rules),
            None => Err(Error::new(ErrorKind::GrammarSyntaxError)),
        }
    }

    pub fn name(&self) -> (name: &str)
        ensures
            name@ == self@.name,
    {
        self.name.as_str()
    }

    /// A fresh cursor over all rules of the grammar. No two of them share
    /// a name, and one of them is public.
    pub fn rules(&self) -> (cursor: Rules<'_>)
        ensures
            cursor@ == self@.rules,
            names_distinct(self@.rules),
            has_public(self@.rules),
    {
        proof {
            use_type_invariant(self);
            assert(self@.rules[self.entry as int].public);
        }
        Rules::new(self.rules.as_slice())
    }

    /// The entry point of the grammar: its first public rule.
    pub fn public_rule(&self) -> (rule: &Rule)
        ensures
            exists|i: int| is_entry(self@.rules, i) && rule@ == self@.rules[i],
    {
        proof {
            use_type_invariant(self);
        }
        let rule = &self.rules[self.entry];
        assert(is_entry(self@.rules, self.entry as int) && rule@ == self@.rules[self.entry as int]);
        rule
    }

    /// The rule called `name`, if the grammar has one.
    pub fn rule(&self, name: &str) -> (found: Option<&Rule>)
        ensures
            found is Some <==> has_rule(self@.rules, name@),
            found is Some ==> found.unwrap()@.name == name@ && self@.rules.contains(
                found.unwrap()@,
            ),
    {
        let wanted = name.to_owned();
        let mut i: usize = 0;
        while i < self.rules.len()
            invariant
                i <= self.rules.len(),
                wanted@ == name@,
                forall|j: int| 0 <= j < i ==> self@.rules[j].name != name@,
            decreases self.rules.len() - i,
        {
            if self.rules[i].name == wanted {
                assert(self@.rules[i as int] == self.rules[i as int]@);
                return Some(&self.rules[i]);
            }
            i += 1;
        }
        None
    }
}

} // verus!
