//! Compile-time generator for dependency-injection target wrappers.
//!
//! Given the front-end's parsed description of an annotated state type
//! (or of a bare unit marker), the library resolves a generation plan
//! and renders the source text of a companion wrapper type together
//! with its family of ownership-preserving cast functions and, in
//! stateful mode, its conversion API.

pub mod decl;
pub mod target;
pub mod utils;
pub mod wrapper;

use vstd::prelude::*;
use crate::decl::{
    designated, target_count, valid_target_args, AnnotatedDeclaration, ConfigError, ItemState,
    ItemUnitStruct,
};
use crate::target::{plan_of, stateful_target, stateless_target, unit_text, Plan};

verus! {

/// The stateful plan as a function of the input declaration alone,
/// meaningful once the declaration carries exactly one designated-target
/// annotation.
pub open spec fn stateful_plan(input: AnnotatedDeclaration) -> Plan {
    Plan {
        ident: designated(input.annotations@).args@[0]@,
        vis: input.vis@,
        state: Some(input.ident@),
        generics: input.generics@,
        where_clause: match input.where_clause {
            Some(w) => Some(w@),
            None => None,
        },
    }
}

/// The marker-mode plan as a function of the input declaration alone.
pub open spec fn marker_plan_of(input: AnnotatedDeclaration) -> Plan {
    Plan {
        ident: input.ident@,
        vis: input.vis@,
        state: None,
        generics: Seq::empty(),
        where_clause: None,
    }
}

/// Stateful mode, whole pass: read the annotated state declaration,
/// resolve the plan, and render the generated unit. Exactly one
/// designated-target annotation carrying a single identifier must be
/// present; each failure is reported as its own configuration error.
pub fn dep_inj(input: AnnotatedDeclaration) -> (r: Result<String, ConfigError>)
    ensures
        (r is Ok) <==> (target_count(input.annotations@) == 1 && valid_target_args(
            designated(input.annotations@),
        )),
        r matches Ok(code) ==> code@ == unit_text(stateful_plan(input)),
        (r == Err::<String, ConfigError>(ConfigError::MissingAnnotation)) <==> target_count(
            input.annotations@,
        ) == 0,
        (r == Err::<String, ConfigError>(ConfigError::DuplicateAnnotation)) <==> target_count(
            input.annotations@,
        ) >= 2,
        (r == Err::<String, ConfigError>(ConfigError::ShapeMismatch)) <==> (target_count(
            input.annotations@,
        ) == 1 && !valid_target_args(designated(input.annotations@))),
{
    match ItemState::parse(input) {
        Ok(st) => {
            proof {
                assert(plan_of(st) == stateful_plan(input));
            }
            Ok(stateful_target(st))
        },
        Err(e) => Err(e),
    }
}

/// Marker mode, whole pass: the annotated declaration must be
/// unit-style and is consumed directly as the designated target; its
/// generated unit carries no state marker and no conversion API.
pub fn target(input: AnnotatedDeclaration) -> (r: Result<String, ConfigError>)
    ensures
        (r is Ok) <==> (input.fields is Unit),
        r matches Ok(code) ==> code@ == unit_text(marker_plan_of(input)),
        !(input.fields is Unit) ==> r == Err::<String, ConfigError>(ConfigError::ShapeMismatch),
{
    match ItemUnitStruct::parse(input) {
        Ok(u) => {
            proof {
                assert(crate::target::marker_plan(u) == marker_plan_of(input));
            }
            Ok(stateless_target(u))
        },
        Err(e) => Err(e),
    }
}

} // verus!
