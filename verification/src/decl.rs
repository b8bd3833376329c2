//! The declaration reader: consumes the front-end's parsed view of the
//! annotated source declaration and resolves it into a validated
//! generation request, or reports a configuration failure.

use vstd::prelude::*;
use crate::utils::GenericParam;

verus! {

/// One annotation on the input declaration, recognized or not: its name
/// and its raw argument tokens, in source order.
#[derive(Debug)]
pub struct Annotation {
    pub name: String,
    pub args: Vec<String>,
}

/// The shape of the declaration's field list.
#[derive(Clone, Copy, PartialEq, Eq, Structural, Debug)]
pub enum FieldsShape {
    Unit,
    Tuple(usize),
    Named(usize),
}

/// The front-end's parsed view of the user's source declaration: its
/// identifier, visibility text, ordered generic parameters, optional
/// where-clause text, annotations in source order, and field shape.
#[derive(Debug)]
pub struct AnnotatedDeclaration {
    pub ident: String,
    pub vis: String,
    pub generics: Vec<GenericParam>,
    pub where_clause: Option<String>,
    pub annotations: Vec<Annotation>,
    pub fields: FieldsShape,
}

/// A configuration failure, detected while reading the declaration and
/// never deferred to a later phase.
#[derive(Clone, Copy, PartialEq, Eq, Structural, Debug)]
pub enum ConfigError {
    /// Stateful mode invoked with no designated-target annotation.
    MissingAnnotation,
    /// Stateful mode invoked with more than one designated-target annotation.
    DuplicateAnnotation,
    /// A matching annotation whose argument is not a single identifier,
    /// or marker mode invoked on a non-unit declaration.
    ShapeMismatch,
}

pub open spec fn is_ident_start_char(c: char) -> bool {
    ('a' as u32 <= c as u32 && c as u32 <= 'z' as u32)
    || ('A' as u32 <= c as u32 && c as u32 <= 'Z' as u32)
    || c == '_'
}

pub open spec fn is_ident_char(c: char) -> bool {
    is_ident_start_char(c) || ('0' as u32 <= c as u32 && c as u32 <= '9' as u32)
}

/// A plain identifier: non-empty, an identifier-start character first,
/// identifier characters throughout.
pub open spec fn is_identifier(s: Seq<char>) -> bool {
    s.len() > 0 && is_ident_start_char(s[0]) && (forall|i: int|
        1 <= i < s.len() ==> is_ident_char(#[trigger] s[i]))
}

fn ident_start_char(c: char) -> (r: bool)
    ensures
        r == is_ident_start_char(c),
{
    let v: u32 = c as u32;
    (97 <= v && v <= 122) || (65 <= v && v <= 90) || c == '_'
}

fn ident_char(c: char) -> (r: bool)
    ensures
        r == is_ident_char(c),
{
    let v: u32 = c as u32;
    ident_start_char(c) || (48 <= v && v <= 57)
}

/// Decides whether one argument token is a plain identifier.
pub fn check_identifier(s: &str) -> (r: bool)
    ensures
        r == is_identifier(s@),
{
    let n: usize = s.unicode_len();
    if n == 0 {
        return false;
    }
    if !ident_start_char(s.get_char(0)) {
        return false;
    }
    let mut i: usize = 1;
    while i < n
        invariant
            1 <= i <= n,
            n == s@.len(),
            is_ident_start_char(s@[0]),
            forall|j: int| 1 <= j < i ==> is_ident_char(#[trigger] s@[j]),
        decreases n - i,
    {
        if !ident_char(s.get_char(i)) {
            return false;
        }
        i = i + 1;
    }
    true
}

/// Whether one annotation is the recognized designated-target annotation.
pub open spec fn is_target_annotation(a: Annotation) -> bool {
    a.name@ == "target"@
}

/// How many designated-target annotations the list carries.
pub open spec fn target_count(anns: Seq<Annotation>) -> nat
    decreases anns.len(),
{
    if anns.len() == 0 {
        0
    } else {
        target_count(anns.drop_last()) + if is_target_annotation(anns.last()) {
            1nat
        } else {
            0nat
        }
    }
}

/// The index of the first designated-target annotation, or -1 when none
/// is present.
pub open spec fn first_target_index(anns: Seq<Annotation>) -> int
    decreases anns.len(),
{
    if anns.len() == 0 {
        -1
    } else if first_target_index(anns.drop_last()) >= 0 {
        first_target_index(anns.drop_last())
    } else if is_target_annotation(anns.last()) {
        anns.len() - 1
    } else {
        -1
    }
}

/// The designated-target annotation itself; meaningful once at least one
/// is present.
pub open spec fn designated(anns: Seq<Annotation>) -> Annotation {
    anns[first_target_index(anns)]
}

/// Whether the designated annotation carries exactly one argument, a
/// plain identifier.
pub open spec fn valid_target_args(a: Annotation) -> bool {
    a.args@.len() == 1 && is_identifier(a.args@[0]@)
}

/// A list holds a designated-target annotation exactly when the first
/// index of one is in range, and that entry is then such an annotation.
pub proof fn lemma_first_target(anns: Seq<Annotation>)
    ensures
        -1 <= first_target_index(anns) < anns.len(),
        (target_count(anns) > 0) <==> (0 <= first_target_index(anns)),
        target_count(anns) > 0 ==> is_target_annotation(anns[first_target_index(anns)]),
    decreases anns.len(),
{
    if anns.len() > 0 {
        let rest = anns.drop_last();
        lemma_first_target(rest);
        if first_target_index(rest) >= 0 {
            assert(first_target_index(anns) == first_target_index(rest));
            assert(anns[first_target_index(anns)] == rest[first_target_index(rest)]);
        } else if is_target_annotation(anns.last()) {
            assert(anns[first_target_index(anns)] == anns.last());
        }
    }
}

fn is_target_ann(a: &Annotation) -> (r: bool)
    ensures
        r == is_target_annotation(*a),
{
    let recognized: String = String::from_str("target");
    a.name == recognized
}

/// The validated stateful generation request: the source declaration
/// and the designated target identifier taken from its one matching
/// annotation.
#[derive(Debug)]
pub struct ItemState {
    pub item: AnnotatedDeclaration,
    pub target: String,
}

impl ItemState {
    /// Reads a stateful-mode declaration. Exactly one designated-target
    /// annotation must be present and must carry a single identifier
    /// argument; zero matches, several matches, and a malformed argument
    /// are each reported as their own configuration error.
    pub fn parse(input: AnnotatedDeclaration) -> (r: Result<ItemState, ConfigError>)
        ensures
            (r is Ok) <==> (target_count(input.annotations@) == 1 && valid_target_args(
                designated(input.annotations@),
            )),
            r matches Ok(st) ==> st.item == input && st.target@ == designated(
                input.annotations@,
            ).args@[0]@,
            (r == Err::<ItemState, ConfigError>(ConfigError::MissingAnnotation)) <==> target_count(
                input.annotations@,
            ) == 0,
            (r == Err::<ItemState, ConfigError>(ConfigError::DuplicateAnnotation)) <==> target_count(
                input.annotations@,
            ) >= 2,
            (r == Err::<ItemState, ConfigError>(ConfigError::ShapeMismatch)) <==> (target_count(
                input.annotations@,
            ) == 1 && !valid_target_args(designated(input.annotations@))),
    {
        let n: usize = input.annotations.len();
        let mut count: usize = 0;
        let mut first: usize = 0;
        let mut have: bool = false;
        let mut k: usize = 0;
        while k < n
            invariant
                k <= n,
                n == input.annotations@.len(),
                count == target_count(input.annotations@.take(k as int)),
                count <= k,
                have == (first_target_index(input.annotations@.take(k as int)) >= 0),
                have ==> first < k && first as int == first_target_index(
                    input.annotations@.take(k as int),
                ),
            decreases n - k,
        {
            let hit: bool = is_target_ann(&input.annotations[k]);
            if hit {
                if !have {
                    first = k;
                    have = true;
                }
                count = count + 1;
            }
            proof {
                let s = input.annotations@;
                assert(s.take(k as int + 1).drop_last() =~= s.take(k as int));
                assert(s.take(k as int + 1).last() == s[k as int]);
            }
            k = k + 1;
        }
        proof {
            assert(input.annotations@.take(n as int) =~= input.annotations@);
            lemma_first_target(input.annotations@);
        }
        if count == 0 {
            Err(ConfigError::MissingAnnotation)
        } else if count >= 2 {
            Err(ConfigError::DuplicateAnnotation)
        } else {
            let arg_ok: bool = input.annotations[first].args.len() == 1 && check_identifier(
                input.annotations[first].args[0].as_str(),
            );
            if arg_ok {
                let target: String = input.annotations[first].args[0].clone();
                Ok(ItemState { item: input, target })
            } else {
                Err(ConfigError::ShapeMismatch)
            }
        }
    }
}

/// The validated marker-mode request: the declaration itself, known to
/// be unit-style.
#[derive(Debug)]
pub struct ItemUnitStruct(pub AnnotatedDeclaration);

impl ItemUnitStruct {
    /// Reads a marker-mode declaration, which must be unit-style; any
    /// field present is a shape mismatch.
    pub fn parse(input: AnnotatedDeclaration) -> (r: Result<ItemUnitStruct, ConfigError>)
        ensures
            (r is Ok) <==> (input.fields is Unit),
            r matches Ok(u) ==> u.0 == input,
            !(input.fields is Unit) ==> r == Err::<ItemUnitStruct, ConfigError>(
                ConfigError::ShapeMismatch,
            ),
    {
        match input.fields {
            FieldsShape::Unit => Ok(ItemUnitStruct(input)),
            _ => Err(ConfigError::ShapeMismatch),
        }
    }
}

} // verus!
