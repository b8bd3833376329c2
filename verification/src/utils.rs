//! The generic-parameter partitioner: two renderings of one ordered
//! parameter list, a declaration form and a usage form, kept structurally
//! consistent so either can have one further parameter appended.

use vstd::prelude::*;

verus! {

/// The kind of one generic parameter: lifetime, type, or const.
#[derive(Clone, Copy, PartialEq, Eq, Structural, Debug)]
pub enum ParamKind {
    Lifetime,
    Type,
    Const,
}

/// One generic parameter of a state type, as the front-end reports it:
/// its kind, its bare name (a lifetime's name carries no leading quote),
/// and its full declaration text, bounds included.
#[derive(Debug)]
pub struct GenericParam {
    pub kind: ParamKind,
    pub name: String,
    pub decl: String,
}

/// The minimal reference to one parameter, as it appears in usage
/// position: a lifetime as its tag, a type or const as its bare name.
pub open spec fn use_ref(p: GenericParam) -> Seq<char> {
    match p.kind {
        ParamKind::Lifetime => "'"@ + p.name@,
        ParamKind::Type => p.name@,
        ParamKind::Const => p.name@,
    }
}

/// Declaration-form rendering: every parameter's full declaration text,
/// each followed by a separator, so a caller can append one more
/// parameter directly.
pub open spec fn decl_form(ps: Seq<GenericParam>) -> Seq<char>
    decreases ps.len(),
{
    if ps.len() == 0 {
        Seq::empty()
    } else {
        decl_form(ps.drop_last()) + ps.last().decl@ + ", "@
    }
}

/// Usage-form rendering: every parameter reduced to its minimal
/// reference, each followed by a separator.
pub open spec fn use_form(ps: Seq<GenericParam>) -> Seq<char>
    decreases ps.len(),
{
    if ps.len() == 0 {
        Seq::empty()
    } else {
        use_form(ps.drop_last()) + use_ref(ps.last()) + ", "@
    }
}

/// Both renderings of one source list, handed out together so they stay
/// structurally consistent.
pub struct PartialGenerics<'a>(pub &'a Vec<GenericParam>);

/// The declaration-form half of a partitioned parameter list.
pub struct PartialImplGenerics<'a>(pub &'a Vec<GenericParam>);

/// The usage-form half of a partitioned parameter list.
pub struct PartialTypeGenerics<'a>(pub &'a Vec<GenericParam>);

impl<'a> PartialGenerics<'a> {
    /// Splits one parameter list into its two renderings; both halves
    /// refer to the same source list.
    pub fn split_for_impl(&self) -> (r: (PartialImplGenerics<'a>, PartialTypeGenerics<'a>))
        ensures
            r.0.0 == self.0,
            r.1.0 == self.0,
    {
        (PartialImplGenerics(self.0), PartialTypeGenerics(self.0))
    }
}

impl PartialImplGenerics<'_> {
    /// Appends the declaration-form rendering of the list to `tokens`.
    pub fn to_tokens(&self, tokens: &mut String)
        ensures
            final(tokens)@ == old(tokens)@ + decl_form(self.0@),
    {
        let ps: &Vec<GenericParam> = self.0;
        let n: usize = ps.len();
        let mut i: usize = 0;
        while i < n
            invariant
                i <= n,
                n == ps@.len(),
                tokens@ == old(tokens)@ + decl_form(ps@.take(i as int)),
            decreases n - i,
        {
            tokens.append(ps[i].decl.as_str());
            tokens.append(", ");
            proof {
                let s = ps@;
                assert(s.take(i as int + 1).drop_last() =~= s.take(i as int));
                assert(s.take(i as int + 1).last() == s[i as int]);
                assert(tokens@ =~= old(tokens)@ + decl_form(s.take(i as int + 1)));
            }
            i = i + 1;
        }
        proof {
            assert(ps@.take(n as int) =~= ps@);
        }
    }
}

impl PartialTypeGenerics<'_> {
    /// Appends the usage-form rendering of the list to `tokens`.
    pub fn to_tokens(&self, tokens: &mut String)
        ensures
            final(tokens)@ == old(tokens)@ + use_form(self.0@),
    {
        let ps: &Vec<GenericParam> = self.0;
        let n: usize = ps.len();
        let mut i: usize = 0;
        while i < n
            invariant
                i <= n,
                n == ps@.len(),
                tokens@ == old(tokens)@ + use_form(ps@.take(i as int)),
            decreases n - i,
        {
            match ps[i].kind {
                ParamKind::Lifetime => {
                    tokens.append("'");
                    tokens.append(ps[i].name.as_str());
                },
                ParamKind::Type => {
                    tokens.append(ps[i].name.as_str());
                },
                ParamKind::Const => {
                    tokens.append(ps[i].name.as_str());
                },
            }
            tokens.append(", ");
            proof {
                let s = ps@;
                assert(s.take(i as int + 1).drop_last() =~= s.take(i as int));
                assert(s.take(i as int + 1).last() == s[i as int]);
                assert(tokens@ =~= old(tokens)@ + use_form(s.take(i as int + 1)));
            }
            i = i + 1;
        }
        proof {
            assert(ps@.take(n as int) =~= ps@);
        }
    }
}

/// The usage-form rendering as a list of entries, one per source
/// parameter, in source order.
pub open spec fn use_entries(ps: Seq<GenericParam>) -> Seq<Seq<char>> {
    ps.map_values(|p: GenericParam| use_ref(p))
}

/// Concatenation of a list of entries, each followed by a separator.
pub open spec fn join_terminated(es: Seq<Seq<char>>) -> Seq<char>
    decreases es.len(),
{
    if es.len() == 0 {
        Seq::empty()
    } else {
        join_terminated(es.drop_last()) + es.last() + ", "@
    }
}

/// Generics fidelity: the usage-form rendering of a parameter list is the
/// separator-terminated concatenation of exactly one entry per source
/// parameter, in source order, each entry the minimal reference determined
/// by that parameter's kind and name.
pub proof fn lemma_generics_fidelity(ps: Seq<GenericParam>)
    ensures
        use_entries(ps).len() == ps.len(),
        forall|i: int| 0 <= i < ps.len() ==> #[trigger] use_entries(ps)[i] == use_ref(ps[i]),
        use_form(ps) == join_terminated(use_entries(ps)),
    decreases ps.len(),
{
    if ps.len() == 0 {
        assert(use_entries(ps) =~= Seq::<Seq<char>>::empty());
    } else {
        lemma_generics_fidelity(ps.drop_last());
        assert(use_entries(ps.drop_last()) =~= use_entries(ps).drop_last());
        assert(use_entries(ps).last() == use_ref(ps.last()));
    }
}

/// The declaration-form rendering as a list of entries, one per source
/// parameter, in source order.
pub open spec fn decl_entries(ps: Seq<GenericParam>) -> Seq<Seq<char>> {
    ps.map_values(|p: GenericParam| p.decl@)
}

/// Partition consistency: the two renderings of one source list carry
/// one entry per parameter each, in the same order; only the per-entry
/// rendering differs, full declaration text against minimal reference.
pub proof fn lemma_partition_consistent(ps: Seq<GenericParam>)
    ensures
        decl_entries(ps).len() == ps.len(),
        forall|i: int| 0 <= i < ps.len() ==> #[trigger] decl_entries(ps)[i] == ps[i].decl@,
        decl_form(ps) == join_terminated(decl_entries(ps)),
        use_entries(ps).len() == decl_entries(ps).len(),
    decreases ps.len(),
{
    lemma_generics_fidelity(ps);
    if ps.len() == 0 {
        assert(decl_entries(ps) =~= Seq::<Seq<char>>::empty());
    } else {
        lemma_partition_consistent(ps.drop_last());
        assert(decl_entries(ps.drop_last()) =~= decl_entries(ps).drop_last());
        assert(decl_entries(ps).last() == ps.last().decl@);
    }
}

} // verus!
