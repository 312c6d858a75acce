//! The options a decoder is created from, kept in the form in which the
//! engine reads them.

use crate::error::{Error, ErrorKind};
use crate::text::{c_string, nul_free, terminated};
use vstd::prelude::*;
use vstd::string::StringSliceAdditionalSpecFns;

verus! {

/// What a set of options holds: the strictness flag and, for each argument,
/// the NUL-terminated bytes that the engine is handed.
pub struct ConfigModel {
    pub strict: bool,
    pub args: Seq<Seq<u8>>,
}

/// The arguments can be handed to the engine: each is free of NUL and
/// their number fits the engine's counter.
pub open spec fn acceptable(args: Seq<&str>) -> bool {
    &&& args.len() <= i32::MAX
    &&& forall|i: int| 0 <= i < args.len() ==> nul_free(#[trigger] args[i].spec_bytes())
}

/// The NUL-terminated bytes of each argument, in the order given.
pub open spec fn encoded(args: Seq<&str>) -> Seq<Seq<u8>> {
    Seq::new(args.len(), |i: int| terminated(args[i].spec_bytes()))
}

/// Options for a decoder. The engine keeps pointers into the argument
/// strings instead of copying them, so this value owns them and has to
/// live as long as anything created from it.
#[derive(Debug)]
pub struct CmdLn {
    strict: bool,
    args: Vec<Vec<u8>>,
}

impl View for CmdLn {
    type V = ConfigModel;

    closed spec fn view(&self) -> ConfigModel {
        ConfigModel { strict: self.strict, args: Seq::new(self.args@.len(), |i: int| self.args@[i]@) }
    }
}

impl CmdLn {
    #[verifier::type_invariant]
    spec fn well_formed(&self) -> bool {
        self.args@.len() <= i32::MAX
    }

    /// Copies `args` into storage of its own. An argument that holds a NUL,
    /// or more arguments than the engine can count, is a configuration
    /// failure.
    pub fn init(strict: bool, args: &[&str]) -> (made: Result<CmdLn, Error>)
        ensures
            made is Ok <==> acceptable(args@),
            made is Ok ==> made.unwrap()@ == (ConfigModel { strict, args: encoded(args@) }),
            made matches Err(e) ==> e.kind == ErrorKind::ConfigurationFailure,
    {
        if args.len() > i32::MAX as usize {
            return Err(Error::new(ErrorKind::ConfigurationFailure));
        }
        let mut copies: Vec<Vec<u8>> = Vec::new();
        let mut i: usize = 0;
        while i < args.len()
            invariant
                i <= args.len() <= i32::MAX,
                copies@.len() == i,
                forall|j: int| 0 <= j < i ==> nul_free(#[trigger] args@[j].spec_bytes()),
                forall|j: int| 0 <= j < i ==> (#[trigger] copies@[j])@ == terminated(args@[j].spec_bytes()),
            decreases args.len() - i,
        {
            match c_string(args[i]) {
                Some(copy) => {
                    copies.push(copy);
                },
                None => {
                    assert(!nul_free(args@[i as int].spec_bytes()));
                    return Err(Error::new(ErrorKind::ConfigurationFailure));
                },
            }
            i += 1;
        }
        let made = CmdLn { strict, args: copies };
        assert(made@.args =~= encoded(args@));
        Ok(made)
    }

    /// Whether unknown options are to be refused by the engine.
    pub fn strict(&self) -> (strict: bool)
        ensures
            strict == self@.strict,
    {
        self.strict
    }

    /// The number of arguments, as the engine counts them.
    pub fn argc(&self) -> (count: i32)
        ensures
            count == self@.args.len(),
    {
        proof {
            use_type_invariant(self);
        }
        self.args.len() as i32
    }

    /// The stored bytes of argument `index`, or nothing past the last one.
    pub fn arg(&self, index: usize) -> (bytes: Option<&[u8]>)
        ensures
            bytes is Some <==> index < self@.args.len(),
            bytes is Some ==> bytes.unwrap()@ == self@.args[index as int],
    {
        if index < self.args.len() {
            Some(self.args[index].as_slice())
        } else {
            None
        }
    }
}

} // verus!
