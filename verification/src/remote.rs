//! What comes back from the two remote calls of a delegation, and how the
//! pair is read.

use vstd::prelude::*;
use crate::errors::EscrowError;

verus! {

/// How one remote call ended.
#[derive(Clone, Debug, PartialEq, Eq)]
pub enum RemoteResult {
    /// The call ran and returned these bytes.
    Successful(Vec<u8>),
    /// The call did not run to its end.
    Failed,
}

/// The bytes of the word `true`.
pub open spec fn true_word() -> Seq<u8> {
    seq![116u8, 114u8, 117u8, 101u8]
}

/// The bytes of the word `false`.
pub open spec fn false_word() -> Seq<u8> {
    seq![102u8, 97u8, 108u8, 115u8, 101u8]
}

/// The flag that a payload carries: the word `true` or the word `false`,
/// nothing before and nothing after.
pub open spec fn flag_of(payload: Seq<u8>) -> Option<bool> {
    if payload == true_word() {
        Some(true)
    } else if payload == false_word() {
        Some(false)
    } else {
        None
    }
}

/// What a pair of remote results amounts to: the flag of the governance
/// service and the flag of the token service, or the reason why the pair
/// cannot be read. The first result is judged before the second.
pub open spec fn flags_of(results: Seq<RemoteResult>) -> Result<(bool, bool), EscrowError> {
    if results.len() != 2 {
        Err(EscrowError::CallbackMethod)
    } else {
        match results[0] {
            RemoteResult::Failed => Err(EscrowError::CreateDaoUnsuccessful),
            RemoteResult::Successful(first) => match flag_of(first@) {
                None => Err(EscrowError::MalformedResult),
                Some(dao) => match results[1] {
                    RemoteResult::Failed => Err(EscrowError::CreateFtUnsuccessful),
                    RemoteResult::Successful(second) => match flag_of(second@) {
                        None => Err(EscrowError::MalformedResult),
                        Some(ft) => Ok((dao, ft)),
                    },
                },
            },
        }
    }
}

/// Reads the flag of a payload.
pub fn read_flag(payload: &Vec<u8>) -> (flag: Option<bool>)
    ensures
        flag == flag_of(payload@),
{
    if payload.len() == 4 {
        if payload[0] == 116 && payload[1] == 114 && payload[2] == 117 && payload[3] == 101 {
            assert(payload@ =~= true_word());
            Some(true)
        } else {
            assert(true_word()[0] == 116 && true_word()[1] == 114 && true_word()[2] == 117
                && true_word()[3] == 101);
            assert(false_word().len() == 5);
            None
        }
    } else if payload.len() == 5 {
        if payload[0] == 102 && payload[1] == 97 && payload[2] == 108 && payload[3] == 115
            && payload[4] == 101 {
            assert(payload@ =~= false_word());
            Some(false)
        } else {
            assert(false_word()[0] == 102 && false_word()[1] == 97 && false_word()[2] == 108
                && false_word()[3] == 115 && false_word()[4] == 101);
            assert(true_word().len() == 4);
            None
        }
    } else {
        assert(true_word().len() == 4);
        assert(false_word().len() == 5);
        None
    }
}

/// Reads a pair of remote results.
pub fn read_flags(results: &Vec<RemoteResult>) -> (flags: Result<(bool, bool), EscrowError>)
    ensures
        flags == flags_of(results@),
{
    if results.len() != 2 {
        return Err(EscrowError::CallbackMethod);
    }
    let dao = match &results[0] {
        RemoteResult::Failed => {
            return Err(EscrowError::CreateDaoUnsuccessful);
        },
        RemoteResult::Successful(payload) => match read_flag(payload) {
            None => {
                return Err(EscrowError::MalformedResult);
            },
            Some(flag) => flag,
        },
    };
    let ft = match &results[1] {
        RemoteResult::Failed => {
            return Err(EscrowError::CreateFtUnsuccessful);
        },
        RemoteResult::Successful(payload) => match read_flag(payload) {
            None => {
                return Err(EscrowError::MalformedResult);
            },
            Some(flag) => flag,
        },
    };
    Ok((dao, ft))
}

} // verus!
