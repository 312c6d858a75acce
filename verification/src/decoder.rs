//! The decoding session: which operation is allowed when, what the
//! engine's answer to it means, and which searches the session has.
//!
//! The engine itself is driven from outside. Before an operation the caller
//! asks the session whether it is allowed; after it the caller hands the
//! engine's answer to the session, which returns what the operation yields
//! and moves to its next state.

use crate::cmd_ln::{CmdLn, ConfigModel};
use crate::error::{Error, ErrorKind};
use crate::search::{
    check_res,
    has_search,
    installed,
    position,
    removed,
    search_names,
    search_names_distinct,
    SearchKind,
    SearchModel,
    SearchTable,
    Searches,
};
use vstd::prelude::*;

verus! {

/// Where a session stands between the utterances it decodes.
#[derive(Clone, Copy, Debug, PartialEq, Eq, Structural)]
pub enum UttState {
    /// No utterance is open. The results of the last one can be read.
    Idle,
    /// An utterance was started and takes audio.
    InUtterance,
}

/// What a session is made of.
pub struct SessionModel {
    pub config: ConfigModel,
    pub state: UttState,
    pub searches: Seq<SearchModel>,
    pub active: Option<Seq<char>>,
}

/// A decoding session. It owns the options it was created from, since the
/// engine keeps reading them.
#[derive(Debug)]
pub struct PsDecoder {
    config: CmdLn,
    state: UttState,
    table: SearchTable,
}

impl View for PsDecoder {
    type V = SessionModel;

    closed spec fn view(&self) -> SessionModel {
        SessionModel {
            config: self.config@,
            state: self.state,
            searches: self.table@.searches,
            active: self.table@.active,
        }
    }
}

/// The session `s` in state `state`, all else as it was.
pub open spec fn in_state(s: SessionModel, state: UttState) -> SessionModel {
    SessionModel { state, ..s }
}

/// The session `s` with the searches `searches` and `active` in use, all
/// else as it was.
pub open spec fn with_searches(
    s: SessionModel,
    searches: Seq<SearchModel>,
    active: Option<Seq<char>>,
) -> SessionModel {
    SessionModel { searches, active, ..s }
}

impl PsDecoder {
    /// A session for `config`: idle, without searches.
    pub fn init(config: CmdLn) -> (decoder: PsDecoder)
        ensures
            decoder@ == (SessionModel {
                config: config@,
                state: UttState::Idle,
                searches: Seq::<SearchModel>::empty(),
                active: None,
            }),
    {
        PsDecoder { config, state: UttState::Idle, table: SearchTable::new() }
    }

    /// The options the session was created from.
    pub fn config(&self) -> (config: &CmdLn)
        ensures
            config@ == self@.config,
    {
        &self.config
    }

    pub fn state(&self) -> (state: UttState)
        ensures
            state == self@.state,
    {
        self.state
    }

    /// Allows what may only happen between utterances: to start one, or to
    /// change the search in use.
    pub fn check_idle(&self) -> (allowed: Result<(), Error>)
        ensures
            allowed is Ok <==> self@.state == UttState::Idle,
            allowed matches Err(e) ==> e.kind == ErrorKind::Lifecycle,
    {
        match self.state {
            UttState::Idle => Ok(()),
            UttState::InUtterance => Err(Error::new(ErrorKind::Lifecycle)),
        }
    }

    /// Allows what may only happen inside an utterance: to feed audio, or
    /// to end it.
    pub fn check_in_utterance(&self) -> (allowed: Result<(), Error>)
        ensures
            allowed is Ok <==> self@.state == UttState::InUtterance,
            allowed matches Err(e) ==> e.kind == ErrorKind::Lifecycle,
    {
        match self.state {
            UttState::InUtterance => Ok(()),
            UttState::Idle => Err(Error::new(ErrorKind::Lifecycle)),
        }
    }

    /// Starts an utterance, given the engine's answer `code` to the start.
    /// Inside an utterance this is a lifecycle error; a negative answer is
    /// an engine failure. Either way the session stays as it was.
    pub fn start_utt(&mut self, code: i32) -> (started: Result<(), Error>)
        ensures
            started is Ok <==> old(self)@.state == UttState::Idle && code >= 0,
            started matches Err(e) ==> e.kind == if old(self)@.state == UttState::InUtterance {
                ErrorKind::Lifecycle
            } else {
                ErrorKind::EngineFailure
            },
            final(self)@ == if started is Ok {
                in_state(old(self)@, UttState::InUtterance)
            } else {
                old(self)@
            },
    {
        match self.state {
            UttState::InUtterance => Err(Error::new(ErrorKind::Lifecycle)),
            UttState::Idle => {
                if code < 0 {
                    Err(Error::new(ErrorKind::EngineFailure))
                } else {
                    self.state = UttState::InUtterance;
                    Ok(())
                }
            },
        }
    }

    /// Accounts for audio fed to the engine, given its answer `frames`: the
    /// number of frames it took, or a negative code. Outside an utterance
    /// this is a lifecycle error and nothing changes. A negative answer is
    /// an engine failure, and the utterance is given up: the session is
    /// idle after it.
    pub fn process_raw(&mut self, frames: i32) -> (fed: Result<i32, Error>)
        ensures
            fed is Ok <==> old(self)@.state == UttState::InUtterance && frames >= 0,
            fed matches Ok(n) ==> n == frames,
            fed matches Err(e) ==> e.kind == if old(self)@.state == UttState::Idle {
                ErrorKind::Lifecycle
            } else {
                ErrorKind::EngineFailure
            },
            final(self)@ == if fed is Ok {
                old(self)@
            } else {
                in_state(old(self)@, UttState::Idle)
            },
    {
        match self.state {
            UttState::Idle => Err(Error::new(ErrorKind::Lifecycle)),
            UttState::InUtterance => {
                if frames < 0 {
                    self.state = UttState::Idle;
                    Err(Error::new(ErrorKind::EngineFailure))
                } else {
                    Ok(frames)
                }
            },
        }
    }

    /// Ends the utterance, given the engine's answer `code` to the end.
    /// Outside an utterance this is a lifecycle error; a negative answer
    /// is an engine failure. The session is idle after it in every case.
    pub fn end_utt(&mut self, code: i32) -> (ended: Result<(), Error>)
        ensures
            ended is Ok <==> old(self)@.state == UttState::InUtterance && code >= 0,
            ended matches Err(e) ==> e.kind == if old(self)@.state == UttState::Idle {
                ErrorKind::Lifecycle
            } else {
                ErrorKind::EngineFailure
            },
            final(self)@ == in_state(old(self)@, UttState::Idle),
    {
        match self.state {
            UttState::Idle => Err(Error::new(ErrorKind::Lifecycle)),
            UttState::InUtterance => {
                self.state = UttState::Idle;
                if code < 0 {
                    Err(Error::new(ErrorKind::EngineFailure))
                } else {
                    Ok(())
                }
            },
        }
    }

    /// The best hypothesis, given what the engine reports: a text, the
    /// utterance's identifier if it has one, and a score. There is a result
    /// exactly when a word was recognized, which is when the engine reports
    /// a text that is not empty; without one the other two values mean
    /// nothing.
    pub fn get_hyp(&self, hyp: Option<String>, utt_id: Option<String>, score: i32) -> (found:
        Option<(String, Option<String>, i32)>)
        ensures
            found is None <==> (hyp is None || hyp.unwrap()@.len() == 0),
            found matches Some(r) ==> hyp == Some(r.0) && r.1 == utt_id && r.2 == score,
    {
        match hyp {
            Some(text) => {
                if text.as_str().is_empty() {
                    None
                } else {
                    Some((text, utt_id, score))
                }
            },
            None => None,
        }
    }

    /// Whether the engine's voice activity flag `flag` says that the last
    /// audio held speech.
    pub fn get_in_speech(&self, flag: u8) -> (speech: bool)
        ensures
            speech == (flag == 1),
    {
        flag == 1
    }

    /// A fresh cursor over the names of the session's searches, in the
    /// order in which they were first installed. No name comes twice.
    pub fn searches(&self) -> (cursor: Searches<'_>)
        ensures
            cursor@ == search_names(self@.searches),
            search_names_distinct(self@.searches),
    {
        self.table.iter()
    }

    /// What the search called `name` decodes with, if the session has it.
    pub fn search_kind(&self, name: &str) -> (kind: Option<SearchKind>)
        ensures
            kind is Some <==> has_search(self@.searches, name@),
            kind matches Some(k) ==> k == self@.searches[position(self@.searches, name@)].kind,
    {
        self.table.kind_of(name)
    }

    /// Takes in a search `name` of kind `kind`, given the engine's answer
    /// `code` to its installation. A negative answer is a configuration
    /// failure and changes nothing. Otherwise the search replaces one of
    /// the same name, or is added; the search in use stays in use.
    pub fn install(&mut self, name: &str, kind: SearchKind, code: i32) -> (done: Result<(), Error>)
        ensures
            done is Ok <==> code >= 0,
            done matches Err(e) ==> e.kind == ErrorKind::ConfigurationFailure,
            final(self)@ == if code >= 0 {
                with_searches(
                    old(self)@,
                    installed(old(self)@.searches, name@, kind),
                    old(self)@.active,
                )
            } else {
                old(self)@
            },
    {
        match check_res(code) {
            Ok(()) => {
                self.table.install(name, kind);
                Ok(())
            },
            Err(refused) => Err(refused),
        }
    }
}

/// The session after the search `name` was made the one in use: a name
/// that the session does not know is taken in as one of the engine's own.
pub open spec fn activated(s: SessionModel, name: Seq<char>) -> SessionModel {
    with_searches(
        s,
        if has_search(s.searches, name) {
            s.searches
        } else {
            installed(s.searches, name, SearchKind::Preset)
        },
        Some(name),
    )
}

/// The session after the search `name` was taken out: if it was the one in
/// use, none is in use.
pub open spec fn deactivated(s: SessionModel, name: Seq<char>) -> SessionModel {
    with_searches(
        s,
        removed(s.searches, name),
        if s.active == Some(name) {
            None
        } else {
            s.active
        },
    )
}

/// The management of a session's named searches. Every operation that
/// changes something takes the engine's answer `code` to that change; a
/// negative answer is a configuration failure and leaves the session as
/// it was.
pub trait PsDecoderSearchExt {
    /// Makes the search `name` the one in use.
    fn set_search(&mut self, name: &str, code: i32) -> Result<(), Error>;

    /// The name of the search in use.
    fn get_search(&self) -> Option<&str>;

    /// Takes the search `name` out of the session.
    fn unset_search(&mut self, name: &str, code: i32) -> Result<(), Error>;

    /// Takes in a search with a language model read from a file.
    fn set_lm_file(&mut self, name: &str, code: i32) -> Result<(), Error>;

    /// Takes in a search with a grammar read from a file.
    fn set_jsgf_file(&mut self, name: &str, code: i32) -> Result<(), Error>;

    /// Takes in a search with a grammar given as text.
    fn set_jsgf_string(&mut self, name: &str, code: i32) -> Result<(), Error>;

    /// Takes in a search for the keywords listed in a file.
    fn ps_set_kws(&mut self, name: &str, code: i32) -> Result<(), Error>;

    /// Takes in a search for one key phrase.
    fn set_keyphrase(&mut self, name: &str, code: i32) -> Result<(), Error>;

    /// Takes in a phone loop search read from a file.
    fn set_allphone_file(&mut self, name: &str, code: i32) -> Result<(), Error>;
}

impl PsDecoderSearchExt for PsDecoder {
    /// Inside an utterance this is a lifecycle error.
    fn set_search(&mut self, name: &str, code: i32) -> (done: Result<(), Error>)
        ensures
            done is Ok <==> old(self)@.state == UttState::Idle && code >= 0,
            done matches Err(e) ==> e.kind == if old(self)@.state == UttState::InUtterance {
                ErrorKind::Lifecycle
            } else {
                ErrorKind::ConfigurationFailure
            },
            final(self)@ == if done is Ok {
                activated(old(self)@, name@)
            } else {
                old(self)@
            },
    {
        match self.state {
            UttState::InUtterance => Err(Error::new(ErrorKind::Lifecycle)),
            UttState::Idle => match check_res(code) {
                Ok(()) => {
                    self.table.activate(name);
                    Ok(())
                },
                Err(refused) => Err(refused),
            },
        }
    }

    /// When a search is in use, it is one of the session's searches.
    fn get_search(&self) -> (name: Option<&str>)
        ensures
            name is Some <==> self@.active is Some,
            name matches Some(text) ==> self@.active == Some(text@) && has_search(
                self@.searches,
                text@,
            ),
    {
        self.table.active()
    }

    /// Inside an utterance this is a lifecycle error.
    fn unset_search(&mut self, name: &str, code: i32) -> (done: Result<(), Error>)
        ensures
            done is Ok <==> old(self)@.state == UttState::Idle && code >= 0,
            done matches Err(e) ==> e.kind == if old(self)@.state == UttState::InUtterance {
                ErrorKind::Lifecycle
            } else {
                ErrorKind::ConfigurationFailure
            },
            final(self)@ == if done is Ok {
                deactivated(old(self)@, name@)
            } else {
                old(self)@
            },
    {
        match self.state {
            UttState::InUtterance => Err(Error::new(ErrorKind::Lifecycle)),
            UttState::Idle => match check_res(code) {
                Ok(()) => {
                    self.table.remove(name);
                    Ok(())
                },
                Err(refused) => Err(refused),
            },
        }
    }

    fn set_lm_file(&mut self, name: &str, code: i32) -> (done: Result<(), Error>)
        ensures
            done is Ok <==> code >= 0,
            done matches Err(e) ==> e.kind == ErrorKind::ConfigurationFailure,
            final(self)@ == if code >= 0 {
                with_searches(
                    old(self)@,
                    installed(old(self)@.searches, name@, SearchKind::LanguageModel),
                    old(self)@.active,
                )
            } else {
                old(self)@
            },
    {
        self.install(name, SearchKind::LanguageModel, code)
    }

    fn set_jsgf_file(&mut self, name: &str, code: i32) -> (done: Result<(), Error>)
        ensures
            done is Ok <==> code >= 0,
            done matches Err(e) ==> e.kind == ErrorKind::ConfigurationFailure,
            final(self)@ == if code >= 0 {
                with_searches(
                    old(self)@,
                    installed(old(self)@.searches, name@, SearchKind::GrammarFile),
                    old(self)@.active,
                )
            } else {
                old(self)@
            },
    {
        self.install(name, SearchKind::GrammarFile, code)
    }

    fn set_jsgf_string(&mut self, name: &str, code: i32) -> (done: Result<(), Error>)
        ensures
            done is Ok <==> code >= 0,
            done matches Err(e) ==> e.kind == ErrorKind::ConfigurationFailure,
            final(self)@ == if code >= 0 {
                with_searches(
                    old(self)@,
                    installed(old(self)@.searches, name@, SearchKind::GrammarString),
                    old(self)@.active,
                )
            } else {
                old(self)@
            },
    {
        self.install(name, SearchKind::GrammarString, code)
    }

    fn ps_set_kws(&mut self, name: &str, code: i32) -> (done: Result<(), Error>)
        ensures
            done is Ok <==> code >= 0,
            done matches Err(e) ==> e.kind == ErrorKind::ConfigurationFailure,
            final(self)@ == if code >= 0 {
                with_searches(
                    old(self)@,
                    installed(old(self)@.searches, name@, SearchKind::KeywordList),
                    old(self)@.active,
                )
            } else {
                old(self)@
            },
    {
        self.install(name, SearchKind::KeywordList, code)
    }

    fn set_keyphrase(&mut self, name: &str, code: i32) -> (done: Result<(), Error>)
        ensures
            done is Ok <==> code >= 0,
            done matches Err(e) ==> e.kind == ErrorKind::ConfigurationFailure,
            final(self)@ == if code >= 0 {
                with_searches(
                    old(self)@,
                    installed(old(self)@.searches, name@, SearchKind::KeyPhrase),
                    old(self)@.active,
                )
            } else {
                old(self)@
            },
    {
        self.install(name, SearchKind::KeyPhrase, code)
    }

    fn set_allphone_file(&mut self, name: &str, code: i32) -> (done: Result<(), Error>)
        ensures
            done is Ok <==> code >= 0,
            done matches Err(e) ==> e.kind == ErrorKind::ConfigurationFailure,
            final(self)@ == if code >= 0 {
                with_searches(
                    old(self)@,
                    installed(old(self)@.searches, name@, SearchKind::PhoneLoop),
                    old(self)@.active,
                )
            } else {
                old(self)@
            },
    {
        self.install(name, SearchKind::PhoneLoop, code)
    }
}

} // verus!
