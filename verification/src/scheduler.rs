//! The kinds of stream scheduler a connection can use.

use vstd::prelude::*;

use crate::error::Error;
use crate::text::str_is;

verus! {

/// The stream scheduler.
#[derive(Clone, Copy, Debug, PartialEq, Eq, Structural)]
pub enum SchedulerType {
    /// First in, first out.
    Basic,
    /// Deadline-aware scheduling.
    DTP,
    /// A scheduler supplied as C code.
    C,
    /// Chooses among the others while running.
    Dynamic,
}

/// The scheduler that a name stands for: "Basic" or "basic"; "DTP", "Dtp"
/// or "dtp"; "C" or "c"; "Dynamic", "dynamic", "dyn" or "Dyn".
pub open spec fn scheduler_named(name: Seq<char>) -> Option<SchedulerType> {
    if name == seq!['B', 'a', 's', 'i', 'c'] || name == seq!['b', 'a', 's', 'i', 'c'] {
        Some(SchedulerType::Basic)
    } else if name == seq!['D', 'T', 'P'] || name == seq!['D', 't', 'p'] || name == seq![
        'd',
        't',
        'p',
    ] {
        Some(SchedulerType::DTP)
    } else if name == seq!['C'] || name == seq!['c'] {
        Some(SchedulerType::C)
    } else if name == seq!['D', 'y', 'n', 'a', 'm', 'i', 'c'] || name == seq![
        'd',
        'y',
        'n',
        'a',
        'm',
        'i',
        'c',
    ] || name == seq!['d', 'y', 'n'] || name == seq!['D', 'y', 'n'] {
        Some(SchedulerType::Dynamic)
    } else {
        None
    }
}

/// The scheduler names: "Basic" and "basic" name the basic scheduler;
/// "DTP", "Dtp" and "dtp" the DTP one; "C" and "c" the C one; "Dynamic",
/// "dynamic", "dyn" and "Dyn" the dynamic one; the empty name and any name
/// longer than seven characters name none.
pub proof fn lemma_scheduler_names(name: Seq<char>)
    ensures
        name == seq!['B', 'a', 's', 'i', 'c'] ==> scheduler_named(name) == Some(SchedulerType::Basic),
        name == seq!['b', 'a', 's', 'i', 'c'] ==> scheduler_named(name) == Some(SchedulerType::Basic),
        name == seq!['D', 'T', 'P'] ==> scheduler_named(name) == Some(SchedulerType::DTP),
        name == seq!['D', 't', 'p'] ==> scheduler_named(name) == Some(SchedulerType::DTP),
        name == seq!['d', 't', 'p'] ==> scheduler_named(name) == Some(SchedulerType::DTP),
        name == seq!['C'] ==> scheduler_named(name) == Some(SchedulerType::C),
        name == seq!['c'] ==> scheduler_named(name) == Some(SchedulerType::C),
        name == seq!['D', 'y', 'n', 'a', 'm', 'i', 'c'] ==> scheduler_named(name) == Some(
            SchedulerType::Dynamic,
        ),
        name == seq!['d', 'y', 'n', 'a', 'm', 'i', 'c'] ==> scheduler_named(name) == Some(
            SchedulerType::Dynamic,
        ),
        name == seq!['d', 'y', 'n'] ==> scheduler_named(name) == Some(SchedulerType::Dynamic),
        name == seq!['D', 'y', 'n'] ==> scheduler_named(name) == Some(SchedulerType::Dynamic),
        name.len() == 0 || name.len() > 7 ==> scheduler_named(name) is None,
{
}

impl SchedulerType {
    /// The scheduler with the given name, or `Error::SchedulerType` for a
    /// name that is none of those `scheduler_named` lists.
    pub fn from_name(name: &str) -> (r: Result<SchedulerType, Error>)
        ensures
            r == (match scheduler_named(name@) {
                Some(t) => Ok(t),
                None => Err(Error::SchedulerType),
            }),
    {
        let basic: [char; 5] = ['B', 'a', 's', 'i', 'c'];
        let basic_lc: [char; 5] = ['b', 'a', 's', 'i', 'c'];
        let dtp: [char; 3] = ['D', 'T', 'P'];
        let dtp_cap: [char; 3] = ['D', 't', 'p'];
        let dtp_lc: [char; 3] = ['d', 't', 'p'];
        let c: [char; 1] = ['C'];
        let c_lc: [char; 1] = ['c'];
        let dynamic: [char; 7] = ['D', 'y', 'n', 'a', 'm', 'i', 'c'];
        let dynamic_lc: [char; 7] = ['d', 'y', 'n', 'a', 'm', 'i', 'c'];
        let dyn_lc: [char; 3] = ['d', 'y', 'n'];
        let dyn_cap: [char; 3] = ['D', 'y', 'n'];
        assert(basic@ =~= seq!['B', 'a', 's', 'i', 'c']);
        assert(basic_lc@ =~= seq!['b', 'a', 's', 'i', 'c']);
        assert(dtp@ =~= seq!['D', 'T', 'P']);
        assert(dtp_cap@ =~= seq!['D', 't', 'p']);
        assert(dtp_lc@ =~= seq!['d', 't', 'p']);
        assert(c@ =~= seq!['C']);
        assert(c_lc@ =~= seq!['c']);
        assert(dynamic@ =~= seq!['D', 'y', 'n', 'a', 'm', 'i', 'c']);
        assert(dynamic_lc@ =~= seq!['d', 'y', 'n', 'a', 'm', 'i', 'c']);
        assert(dyn_lc@ =~= seq!['d', 'y', 'n']);
        assert(dyn_cap@ =~= seq!['D', 'y', 'n']);
        if str_is(name, &basic) || str_is(name, &basic_lc) {
            Ok(SchedulerType::Basic)
        } else if str_is(name, &dtp) || str_is(name, &dtp_cap) || str_is(name, &dtp_lc) {
            Ok(SchedulerType::DTP)
        } else if str_is(name, &c) || str_is(name, &c_lc) {
            Ok(SchedulerType::C)
        } else if str_is(name, &dynamic) || str_is(name, &dynamic_lc) || str_is(name, &dyn_lc)
            || str_is(name, &dyn_cap) {
            Ok(SchedulerType::Dynamic)
        } else {
            Err(Error::SchedulerType)
        }
    }
}

} // verus!
