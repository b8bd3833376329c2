//! The generation plan and the emitters: from a validated request to the
//! full source text of the wrapper type, its cast API and, in stateful
//! mode, its conversion API.

use vstd::prelude::*;
use crate::decl::{ItemState, ItemUnitStruct};
use crate::utils::{decl_form, use_form, GenericParam, PartialGenerics};

verus! {

/// The generation plan: target identifier, visibility, the originating
/// state type when in stateful mode, and the state type's generics and
/// where clause.
#[derive(Debug)]
pub struct Target {
    pub ident: String,
    pub vis: String,
    pub state: Option<String>,
    pub generics: Vec<GenericParam>,
    pub where_clause: Option<String>,
}

/// The mathematical view of a generation plan: every text the emitters
/// produce is a function of this value alone.
pub struct Plan {
    pub ident: Seq<char>,
    pub vis: Seq<char>,
    pub state: Option<Seq<char>>,
    pub generics: Seq<GenericParam>,
    pub where_clause: Option<Seq<char>>,
}

impl View for Target {
    type V = Plan;

    open spec fn view(&self) -> Plan {
        Plan {
            ident: self.ident@,
            vis: self.vis@,
            state: match self.state {
                Some(s) => Some(s@),
                None => None,
            },
            generics: self.generics@,
            where_clause: match self.where_clause {
                Some(w) => Some(w@),
                None => None,
            },
        }
    }
}

/// The visibility, followed by one space when it is not inherited.
pub open spec fn vis_prefix(p: Plan) -> Seq<char> {
    if p.vis.len() == 0 {
        Seq::empty()
    } else {
        p.vis + " "@
    }
}

/// The usage-form generic arguments of the state type, in angle
/// brackets; empty when the state type has no generics.
pub open spec fn ty_args(p: Plan) -> Seq<char> {
    if p.generics.len() == 0 {
        Seq::empty()
    } else {
        "<"@ + use_form(p.generics) + ">"@
    }
}

/// The state type instantiated with its own generics; empty in
/// stateless mode.
pub open spec fn state_ty(p: Plan) -> Seq<char> {
    match p.state {
        Some(s) => s + ty_args(p),
        None => Seq::empty(),
    }
}

/// The where clause, preceded by one space; empty when absent.
pub open spec fn where_text(p: Plan) -> Seq<char> {
    match p.where_clause {
        Some(w) => " "@ + w,
        None => Seq::empty(),
    }
}

/// The fixed head of every emitted definition: the structural derives
/// and the transparent-representation attribute.
pub open spec fn define_header() -> Seq<char> {
    "#[derive(Debug, PartialEq, Eq, PartialOrd, Ord, Hash, Clone, Copy)]\n#[repr(transparent)]\n"@
}

/// The wrapper type's structural definition: a single-field wrapper over
/// the generator-introduced container parameter, carrying a
/// compile-time-only marker of the state type in stateful mode and no
/// marker at all in stateless mode.
pub open spec fn define_text(p: Plan) -> Seq<char> {
    if p.state is Some {
        define_header() + vis_prefix(p) + "struct "@ + p.ident + "<"@ + decl_form(p.generics)
            + "__Deps__: ?Sized>"@ + where_text(p)
            + " {\n    _marker: ::core::marker::PhantomData<"@ + state_ty(p)
            + ">,\n    deps: __Deps__,\n}\n"@
    } else {
        define_header() + vis_prefix(p) + "struct "@ + p.ident + "<"@ + decl_form(p.generics)
            + "__Deps__: ?Sized>"@ + where_text(p) + " {\n    deps: __Deps__,\n}\n"@
    }
}

/// The forward cast of the owned-value modality: move the container into
/// the wrapper, writing the marker in stateful mode.
pub open spec fn inj_text(p: Plan) -> Seq<char> {
    match p.state {
        Some(_) => "    #[inline]\n    pub fn inj(deps: __Deps__) -> Self {\n        Self {\n            _marker: ::core::marker::PhantomData::<"@
            + state_ty(p) + ">,\n            deps,\n        }\n    }\n"@,
        None => "    #[inline]\n    pub fn inj(deps: __Deps__) -> Self {\n        Self { deps }\n    }\n"@,
    }
}

/// The owned-value cast pair: `inj` moves the container in, `prj` moves
/// it back out.
pub open spec fn cast_text(p: Plan) -> Seq<char> {
    "impl<"@ + decl_form(p.generics) + "__Deps__> "@ + p.ident + "<"@ + use_form(p.generics)
        + "__Deps__>"@ + where_text(p) + " {\n"@ + inj_text(p)
        + "\n    #[inline]\n    pub fn prj(self) -> __Deps__ {\n        self.deps\n    }\n}\n"@
}

/// The paired reinterpretation casts for every reference and pointer
/// modality, pinned forms included. Their bodies are fixed text: each is
/// a representation-preserving reinterpretation whose soundness rests on
/// the layout identity that the emitted definition establishes.
pub open spec fn ref_cast_methods() -> Seq<char> {
    "    #[inline]
    pub fn inj_ref(deps: &__Deps__) -> &Self {
        unsafe { &*(deps as *const __Deps__ as *const Self) }
    }

    #[inline]
    pub fn prj_ref(&self) -> &__Deps__ {
        unsafe { &*(self as *const Self as *const __Deps__) }
    }

    #[inline]
    pub fn inj_ref_mut(deps: &mut __Deps__) -> &mut Self {
        unsafe { &mut *(deps as *mut __Deps__ as *mut Self) }
    }

    #[inline]
    pub fn prj_ref_mut(&mut self) -> &mut __Deps__ {
        unsafe { &mut *(self as *mut Self as *mut __Deps__) }
    }

    #[inline]
    pub fn inj_box(deps: Box<__Deps__>) -> Box<Self> {
        unsafe { Box::from_raw(Box::into_raw(deps) as *mut Self) }
    }

    #[inline]
    pub fn prj_box(self: Box<Self>) -> Box<__Deps__> {
        unsafe { Box::from_raw(Box::into_raw(self) as *mut __Deps__) }
    }

    #[inline]
    pub fn inj_rc(deps: ::std::rc::Rc<__Deps__>) -> ::std::rc::Rc<Self> {
        unsafe { ::std::rc::Rc::from_raw(::std::rc::Rc::into_raw(deps) as *const Self) }
    }

    #[inline]
    pub fn prj_rc(self: ::std::rc::Rc<Self>) -> ::std::rc::Rc<__Deps__> {
        unsafe { ::std::rc::Rc::from_raw(::std::rc::Rc::into_raw(self) as *const __Deps__) }
    }

    #[inline]
    pub fn inj_arc(deps: ::std::sync::Arc<__Deps__>) -> ::std::sync::Arc<Self> {
        unsafe { ::std::sync::Arc::from_raw(::std::sync::Arc::into_raw(deps) as *const Self) }
    }

    #[inline]
    pub fn prj_arc(self: ::std::sync::Arc<Self>) -> ::std::sync::Arc<__Deps__> {
        unsafe { ::std::sync::Arc::from_raw(::std::sync::Arc::into_raw(self) as *const __Deps__) }
    }

    #[inline]
    pub fn inj_pin_ref(deps: ::core::pin::Pin<&__Deps__>) -> ::core::pin::Pin<&Self> {
        unsafe {
            ::core::pin::Pin::new_unchecked(
                &*(::core::pin::Pin::into_inner_unchecked(deps) as *const __Deps__ as *const Self),
            )
        }
    }

    #[inline]
    pub fn prj_pin_ref(self: ::core::pin::Pin<&Self>) -> ::core::pin::Pin<&__Deps__> {
        unsafe {
            ::core::pin::Pin::new_unchecked(
                &*(::core::pin::Pin::into_inner_unchecked(self) as *const Self as *const __Deps__),
            )
        }
    }

    #[inline]
    pub fn inj_pin_ref_mut(deps: ::core::pin::Pin<&mut __Deps__>) -> ::core::pin::Pin<&mut Self> {
        unsafe {
            ::core::pin::Pin::new_unchecked(
                &mut *(::core::pin::Pin::into_inner_unchecked(deps) as *mut __Deps__ as *mut Self),
            )
        }
    }

    #[inline]
    pub fn prj_pin_ref_mut(self: ::core::pin::Pin<&mut Self>) -> ::core::pin::Pin<&mut __Deps__> {
        unsafe {
            ::core::pin::Pin::new_unchecked(
                &mut *(::core::pin::Pin::into_inner_unchecked(self) as *mut Self as *mut __Deps__),
            )
        }
    }

    #[inline]
    pub fn inj_pin_box(deps: ::core::pin::Pin<Box<__Deps__>>) -> ::core::pin::Pin<Box<Self>> {
        unsafe {
            ::core::pin::Pin::new_unchecked(
                Box::from_raw(Box::into_raw(::core::pin::Pin::into_inner_unchecked(deps)) as *mut Self),
            )
        }
    }

    #[inline]
    pub fn prj_pin_box(self: ::core::pin::Pin<Box<Self>>) -> ::core::pin::Pin<Box<__Deps__>> {
        unsafe {
            ::core::pin::Pin::new_unchecked(
                Box::from_raw(Box::into_raw(::core::pin::Pin::into_inner_unchecked(self)) as *mut __Deps__),
            )
        }
    }

    #[inline]
    pub fn inj_pin_rc(deps: ::core::pin::Pin<::std::rc::Rc<__Deps__>>) -> ::core::pin::Pin<::std::rc::Rc<Self>> {
        unsafe {
            ::core::pin::Pin::new_unchecked(
                ::std::rc::Rc::from_raw(::std::rc::Rc::into_raw(::core::pin::Pin::into_inner_unchecked(deps)) as *const Self),
            )
        }
    }

    #[inline]
    pub fn prj_pin_rc(self: ::core::pin::Pin<::std::rc::Rc<Self>>) -> ::core::pin::Pin<::std::rc::Rc<__Deps__>> {
        unsafe {
            ::core::pin::Pin::new_unchecked(
                ::std::rc::Rc::from_raw(::std::rc::Rc::into_raw(::core::pin::Pin::into_inner_unchecked(self)) as *const __Deps__),
            )
        }
    }

    #[inline]
    pub fn inj_pin_arc(deps: ::core::pin::Pin<::std::sync::Arc<__Deps__>>) -> ::core::pin::Pin<::std::sync::Arc<Self>> {
        unsafe {
            ::core::pin::Pin::new_unchecked(
                ::std::sync::Arc::from_raw(::std::sync::Arc::into_raw(::core::pin::Pin::into_inner_unchecked(deps)) as *const Self),
            )
        }
    }

    #[inline]
    pub fn prj_pin_arc(self: ::core::pin::Pin<::std::sync::Arc<Self>>) -> ::core::pin::Pin<::std::sync::Arc<__Deps__>> {
        unsafe {
            ::core::pin::Pin::new_unchecked(
                ::std::sync::Arc::from_raw(::std::sync::Arc::into_raw(::core::pin::Pin::into_inner_unchecked(self)) as *const __Deps__),
            )
        }
    }
"@
}

/// The reference- and pointer-modality cast impl: the fixed method family
/// under the wrapper's own generics, container unsized.
pub open spec fn ref_cast_text(p: Plan) -> Seq<char> {
    "impl<"@ + decl_form(p.generics) + "__Deps__: ?Sized> "@ + p.ident + "<"@ + use_form(
        p.generics,
    ) + "__Deps__>"@ + where_text(p) + " {\n"@ + ref_cast_methods() + "}\n"@
}

/// The read indirection from the wrapper to the state type, gated on the
/// container exposing a reference to that exact state type.
pub open spec fn deref_text(p: Plan) -> Seq<char> {
    "impl<"@ + decl_form(p.generics) + "__Deps__> ::std::ops::Deref for "@ + p.ident + "<"@
        + use_form(p.generics) + "__Deps__>\nwhere\n    __Deps__: AsRef<"@ + state_ty(p)
        + "> + ?Sized,\n{\n    type Target = "@ + state_ty(p)
        + ";\n\n    #[inline]\n    fn deref(&self) -> &Self::Target {\n        self.deps.as_ref()\n    }\n}\n"@
}

/// The write indirection, gated on the container also exposing a mutable
/// reference to the state type.
pub open spec fn deref_mut_text(p: Plan) -> Seq<char> {
    "impl<"@ + decl_form(p.generics) + "__Deps__> ::std::ops::DerefMut for "@ + p.ident + "<"@
        + use_form(p.generics) + "__Deps__>\nwhere\n    __Deps__: AsRef<"@ + state_ty(p)
        + "> + AsMut<"@ + state_ty(p)
        + "> + ?Sized,\n{\n    #[inline]\n    fn deref_mut(&mut self) -> &mut Self::Target {\n        self.deps.as_mut()\n    }\n}\n"@
}

/// The consuming conversion from the wrapper into the bare state type,
/// gated on the container being consumable into it.
pub open spec fn from_text(p: Plan) -> Seq<char> {
    "impl<"@ + decl_form(p.generics) + "__Deps__> From<"@ + p.ident + "<"@ + use_form(p.generics)
        + "__Deps__>> for "@ + state_ty(p) + "\nwhere\n    __Deps__: Into<"@ + state_ty(p)
        + ">,\n{\n    #[inline]\n    fn from(target: "@ + p.ident + "<"@ + use_form(p.generics)
        + "__Deps__>) -> Self {\n        target.prj().into()\n    }\n}\n"@
}

/// The whole conversion API of stateful mode.
pub open spec fn convert_text(p: Plan) -> Seq<char> {
    deref_text(p) + deref_mut_text(p) + from_text(p)
}

/// The full generated unit: definition, cast API, and, in stateful mode
/// only, the conversion API.
pub open spec fn unit_text(p: Plan) -> Seq<char> {
    define_text(p) + cast_text(p) + ref_cast_text(p) + if p.state is Some {
        convert_text(p)
    } else {
        Seq::empty()
    }
}

/// The stateful plan resolved from a validated request.
pub open spec fn plan_of(st: ItemState) -> Plan {
    Plan {
        ident: st.target@,
        vis: st.item.vis@,
        state: Some(st.item.ident@),
        generics: st.item.generics@,
        where_clause: match st.item.where_clause {
            Some(w) => Some(w@),
            None => None,
        },
    }
}

/// The marker-mode plan: identifier and visibility only, no state type,
/// no generics, no where clause.
pub open spec fn marker_plan(item: ItemUnitStruct) -> Plan {
    Plan {
        ident: item.0.ident@,
        vis: item.0.vis@,
        state: None,
        generics: Seq::empty(),
        where_clause: None,
    }
}

impl Target {
    /// The marker-mode plan, carrying only an identifier and visibility.
    pub fn stateless(ident: String, vis: String) -> (t: Target)
        ensures
            t@ == (Plan {
                ident: ident@,
                vis: vis@,
                state: None,
                generics: Seq::<GenericParam>::empty(),
                where_clause: None,
            }),
    {
        let t = Target { ident, vis, state: None, generics: Vec::new(), where_clause: None };
        proof {
            assert(t@.generics =~= Seq::<GenericParam>::empty());
        }
        t
    }

    fn append_where(&self, out: &mut String)
        ensures
            final(out)@ == old(out)@ + where_text(self@),
    {
        match &self.where_clause {
            Some(w) => {
                out.append(" ");
                out.append(w.as_str());
                proof {
                    assert(out@ =~= old(out)@ + where_text(self@));
                }
            },
            None => {
                proof {
                    assert(out@ =~= old(out)@ + where_text(self@));
                }
            },
        }
    }

    fn append_ty_args(&self, out: &mut String)
        ensures
            final(out)@ == old(out)@ + ty_args(self@),
    {
        if self.generics.len() == 0 {
            proof {
                assert(out@ =~= old(out)@ + ty_args(self@));
            }
        } else {
            out.append("<");
            let (_ig, tg) = PartialGenerics(&self.generics).split_for_impl();
            tg.to_tokens(out);
            out.append(">");
            proof {
                assert(out@ =~= old(out)@ + ty_args(self@));
            }
        }
    }

    fn append_state_ty(&self, out: &mut String)
        ensures
            final(out)@ == old(out)@ + state_ty(self@),
    {
        match &self.state {
            Some(s) => {
                out.append(s.as_str());
                self.append_ty_args(out);
                proof {
                    assert(out@ =~= old(out)@ + state_ty(self@));
                }
            },
            None => {
                proof {
                    assert(out@ =~= old(out)@ + state_ty(self@));
                }
            },
        }
    }

    fn append_decl_gn(&self, out: &mut String)
        ensures
            final(out)@ == old(out)@ + decl_form(self@.generics),
    {
        let (ig, _tg) = PartialGenerics(&self.generics).split_for_impl();
        ig.to_tokens(out);
    }

    fn append_use_gn(&self, out: &mut String)
        ensures
            final(out)@ == old(out)@ + use_form(self@.generics),
    {
        let (_ig, tg) = PartialGenerics(&self.generics).split_for_impl();
        tg.to_tokens(out);
    }

    /// Emits the wrapper type's structural definition.
    pub fn define(&self) -> (r: String)
        ensures
            r@ == define_text(self@),
    {
        let mut out: String = String::from_str(
            "#[derive(Debug, PartialEq, Eq, PartialOrd, Ord, Hash, Clone, Copy)]\n#[repr(transparent)]\n",
        );
        if !self.vis.as_str().is_empty() {
            out.append(self.vis.as_str());
            out.append(" ");
        }
        proof {
            assert(out@ =~= define_header() + vis_prefix(self@));
        }
        out.append("struct ");
        out.append(self.ident.as_str());
        out.append("<");
        self.append_decl_gn(&mut out);
        out.append("__Deps__: ?Sized>");
        self.append_where(&mut out);
        match &self.state {
            Some(_) => {
                out.append(" {\n    _marker: ::core::marker::PhantomData<");
                self.append_state_ty(&mut out);
                out.append(">,\n    deps: __Deps__,\n}\n");
            },
            None => {
                out.append(" {\n    deps: __Deps__,\n}\n");
            },
        }
        proof {
            assert(out@ =~= define_text(self@));
        }
        out
    }

    /// Emits the owned-value cast pair.
    pub fn impl_cast(&self) -> (r: String)
        ensures
            r@ == cast_text(self@),
    {
        let mut out: String = String::from_str("impl<");
        self.append_decl_gn(&mut out);
        out.append("__Deps__> ");
        out.append(self.ident.as_str());
        out.append("<");
        self.append_use_gn(&mut out);
        out.append("__Deps__>");
        self.append_where(&mut out);
        out.append(" {\n");
        match &self.state {
            Some(_) => {
                out.append(
                    "    #[inline]\n    pub fn inj(deps: __Deps__) -> Self {\n        Self {\n            _marker: ::core::marker::PhantomData::<",
                );
                self.append_state_ty(&mut out);
                out.append(">,\n            deps,\n        }\n    }\n");
            },
            None => {
                out.append(
                    "    #[inline]\n    pub fn inj(deps: __Deps__) -> Self {\n        Self { deps }\n    }\n",
                );
            },
        }
        proof {
            assert(out@ =~= "impl<"@ + decl_form(self@.generics) + "__Deps__> "@ + self@.ident
                + "<"@ + use_form(self@.generics) + "__Deps__>"@ + where_text(self@) + " {\n"@
                + inj_text(self@));
        }
        out.append("\n    #[inline]\n    pub fn prj(self) -> __Deps__ {\n        self.deps\n    }\n}\n");
        proof {
            assert(out@ =~= cast_text(self@));
        }
        out
    }

    /// Emits the reference- and pointer-modality casts.
    pub fn impl_ref_cast(&self) -> (r: String)
        ensures
            r@ == ref_cast_text(self@),
    {
        let mut out: String = String::from_str("impl<");
        self.append_decl_gn(&mut out);
        out.append("__Deps__: ?Sized> ");
        out.append(self.ident.as_str());
        out.append("<");
        self.append_use_gn(&mut out);
        out.append("__Deps__>");
        self.append_where(&mut out);
        out.append(" {\n");
        out.append(
            "    #[inline]
    pub fn inj_ref(deps: &__Deps__) -> &Self {
        unsafe { &*(deps as *const __Deps__ as *const Self) }
    }

    #[inline]
    pub fn prj_ref(&self) -> &__Deps__ {
        unsafe { &*(self as *const Self as *const __Deps__) }
    }

    #[inline]
    pub fn inj_ref_mut(deps: &mut __Deps__) -> &mut Self {
        unsafe { &mut *(deps as *mut __Deps__ as *mut Self) }
    }

    #[inline]
    pub fn prj_ref_mut(&mut self) -> &mut __Deps__ {
        unsafe { &mut *(self as *mut Self as *mut __Deps__) }
    }

    #[inline]
    pub fn inj_box(deps: Box<__Deps__>) -> Box<Self> {
        unsafe { Box::from_raw(Box::into_raw(deps) as *mut Self) }
    }

    #[inline]
    pub fn prj_box(self: Box<Self>) -> Box<__Deps__> {
        unsafe { Box::from_raw(Box::into_raw(self) as *mut __Deps__) }
    }

    #[inline]
    pub fn inj_rc(deps: ::std::rc::Rc<__Deps__>) -> ::std::rc::Rc<Self> {
        unsafe { ::std::rc::Rc::from_raw(::std::rc::Rc::into_raw(deps) as *const Self) }
    }

    #[inline]
    pub fn prj_rc(self: ::std::rc::Rc<Self>) -> ::std::rc::Rc<__Deps__> {
        unsafe { ::std::rc::Rc::from_raw(::std::rc::Rc::into_raw(self) as *const __Deps__) }
    }

    #[inline]
    pub fn inj_arc(deps: ::std::sync::Arc<__Deps__>) -> ::std::sync::Arc<Self> {
        unsafe { ::std::sync::Arc::from_raw(::std::sync::Arc::into_raw(deps) as *const Self) }
    }

    #[inline]
    pub fn prj_arc(self: ::std::sync::Arc<Self>) -> ::std::sync::Arc<__Deps__> {
        unsafe { ::std::sync::Arc::from_raw(::std::sync::Arc::into_raw(self) as *const __Deps__) }
    }

    #[inline]
    pub fn inj_pin_ref(deps: ::core::pin::Pin<&__Deps__>) -> ::core::pin::Pin<&Self> {
        unsafe {
            ::core::pin::Pin::new_unchecked(
                &*(::core::pin::Pin::into_inner_unchecked(deps) as *const __Deps__ as *const Self),
            )
        }
    }

    #[inline]
    pub fn prj_pin_ref(self: ::core::pin::Pin<&Self>) -> ::core::pin::Pin<&__Deps__> {
        unsafe {
            ::core::pin::Pin::new_unchecked(
                &*(::core::pin::Pin::into_inner_unchecked(self) as *const Self as *const __Deps__),
            )
        }
    }

    #[inline]
    pub fn inj_pin_ref_mut(deps: ::core::pin::Pin<&mut __Deps__>) -> ::core::pin::Pin<&mut Self> {
        unsafe {
            ::core::pin::Pin::new_unchecked(
                &mut *(::core::pin::Pin::into_inner_unchecked(deps) as *mut __Deps__ as *mut Self),
            )
        }
    }

    #[inline]
    pub fn prj_pin_ref_mut(self: ::core::pin::Pin<&mut Self>) -> ::core::pin::Pin<&mut __Deps__> {
        unsafe {
            ::core::pin::Pin::new_unchecked(
                &mut *(::core::pin::Pin::into_inner_unchecked(self) as *mut Self as *mut __Deps__),
            )
        }
    }

    #[inline]
    pub fn inj_pin_box(deps: ::core::pin::Pin<Box<__Deps__>>) -> ::core::pin::Pin<Box<Self>> {
        unsafe {
            ::core::pin::Pin::new_unchecked(
                Box::from_raw(Box::into_raw(::core::pin::Pin::into_inner_unchecked(deps)) as *mut Self),
            )
        }
    }

    #[inline]
    pub fn prj_pin_box(self: ::core::pin::Pin<Box<Self>>) -> ::core::pin::Pin<Box<__Deps__>> {
        unsafe {
            ::core::pin::Pin::new_unchecked(
                Box::from_raw(Box::into_raw(::core::pin::Pin::into_inner_unchecked(self)) as *mut __Deps__),
            )
        }
    }

    #[inline]
    pub fn inj_pin_rc(deps: ::core::pin::Pin<::std::rc::Rc<__Deps__>>) -> ::core::pin::Pin<::std::rc::Rc<Self>> {
        unsafe {
            ::core::pin::Pin::new_unchecked(
                ::std::rc::Rc::from_raw(::std::rc::Rc::into_raw(::core::pin::Pin::into_inner_unchecked(deps)) as *const Self),
            )
        }
    }

    #[inline]
    pub fn prj_pin_rc(self: ::core::pin::Pin<::std::rc::Rc<Self>>) -> ::core::pin::Pin<::std::rc::Rc<__Deps__>> {
        unsafe {
            ::core::pin::Pin::new_unchecked(
                ::std::rc::Rc::from_raw(::std::rc::Rc::into_raw(::core::pin::Pin::into_inner_unchecked(self)) as *const __Deps__),
            )
        }
    }

    #[inline]
    pub fn inj_pin_arc(deps: ::core::pin::Pin<::std::sync::Arc<__Deps__>>) -> ::core::pin::Pin<::std::sync::Arc<Self>> {
        unsafe {
            ::core::pin::Pin::new_unchecked(
                ::std::sync::Arc::from_raw(::std::sync::Arc::into_raw(::core::pin::Pin::into_inner_unchecked(deps)) as *const Self),
            )
        }
    }

    #[inline]
    pub fn prj_pin_arc(self: ::core::pin::Pin<::std::sync::Arc<Self>>) -> ::core::pin::Pin<::std::sync::Arc<__Deps__>> {
        unsafe {
            ::core::pin::Pin::new_unchecked(
                ::std::sync::Arc::from_raw(::std::sync::Arc::into_raw(::core::pin::Pin::into_inner_unchecked(self)) as *const __Deps__),
            )
        }
    }
",
        );
        out.append("}\n");
        proof {
            assert(out@ =~= ref_cast_text(self@));
        }
        out
    }

    /// Emits the conversion API of stateful mode: the read and write
    /// indirections and the consuming conversion.
    pub fn impls_convert(&self) -> (r: String)
        ensures
            r@ == convert_text(self@),
    {
        let mut out: String = String::from_str("impl<");
        self.append_decl_gn(&mut out);
        out.append("__Deps__> ::std::ops::Deref for ");
        out.append(self.ident.as_str());
        out.append("<");
        self.append_use_gn(&mut out);
        out.append("__Deps__>\nwhere\n    __Deps__: AsRef<");
        self.append_state_ty(&mut out);
        out.append("> + ?Sized,\n{\n    type Target = ");
        self.append_state_ty(&mut out);
        out.append(
            ";\n\n    #[inline]\n    fn deref(&self) -> &Self::Target {\n        self.deps.as_ref()\n    }\n}\n",
        );
        proof {
            assert(out@ =~= deref_text(self@));
        }
        out.append("impl<");
        self.append_decl_gn(&mut out);
        out.append("__Deps__> ::std::ops::DerefMut for ");
        out.append(self.ident.as_str());
        out.append("<");
        self.append_use_gn(&mut out);
        out.append("__Deps__>\nwhere\n    __Deps__: AsRef<");
        self.append_state_ty(&mut out);
        out.append("> + AsMut<");
        self.append_state_ty(&mut out);
        out.append(
            "> + ?Sized,\n{\n    #[inline]\n    fn deref_mut(&mut self) -> &mut Self::Target {\n        self.deps.as_mut()\n    }\n}\n",
        );
        proof {
            assert(out@ =~= deref_text(self@) + deref_mut_text(self@));
        }
        out.append("impl<");
        self.append_decl_gn(&mut out);
        out.append("__Deps__> From<");
        out.append(self.ident.as_str());
        out.append("<");
        self.append_use_gn(&mut out);
        out.append("__Deps__>> for ");
        self.append_state_ty(&mut out);
        out.append("\nwhere\n    __Deps__: Into<");
        self.append_state_ty(&mut out);
        out.append(
            ">,\n{\n    #[inline]\n    fn from(target: ",
        );
        out.append(self.ident.as_str());
        out.append("<");
        self.append_use_gn(&mut out);
        out.append("__Deps__>) -> Self {\n        target.prj().into()\n    }\n}\n");
        proof {
            assert(out@ =~= convert_text(self@));
        }
        out
    }

    /// Appends the whole generated unit: the definition, the cast API,
    /// and, in stateful mode only, the conversion API.
    pub fn to_tokens(&self, tokens: &mut String)
        ensures
            final(tokens)@ == old(tokens)@ + unit_text(self@),
    {
        let d = self.define();
        tokens.append(d.as_str());
        let c = self.impl_cast();
        tokens.append(c.as_str());
        let rc = self.impl_ref_cast();
        tokens.append(rc.as_str());
        match &self.state {
            Some(_) => {
                let cv = self.impls_convert();
                tokens.append(cv.as_str());
            },
            None => {},
        }
        proof {
            assert(tokens@ =~= old(tokens)@ + unit_text(self@));
        }
    }
}

impl From<ItemState> for Target {
    fn from(st: ItemState) -> (t: Target) {
        Target {
            ident: st.target,
            vis: st.item.vis,
            state: Some(st.item.ident),
            generics: st.item.generics,
            where_clause: st.item.where_clause,
        }
    }
}

impl vstd::std_specs::convert::FromSpecImpl<ItemState> for Target {
    open spec fn obeys_from_spec() -> bool {
        true
    }

    open spec fn from_spec(st: ItemState) -> Target {
        Target {
            ident: st.target,
            vis: st.item.vis,
            state: Some(st.item.ident),
            generics: st.item.generics,
            where_clause: st.item.where_clause,
        }
    }
}

/// Stateful mode: resolve the validated request into a plan and render
/// the full generated unit.
pub fn stateful_target(state: ItemState) -> (r: String)
    ensures
        r@ == unit_text(plan_of(state)),
{
    let target = Target::from(state);
    proof {
        assert(target@ == plan_of(state));
    }
    let mut out = String::new();
    target.to_tokens(&mut out);
    proof {
        assert(out@ =~= unit_text(plan_of(state)));
    }
    out
}

/// Marker mode: render the generated unit for a unit-style declaration
/// consumed directly as the target.
pub fn stateless_target(item: ItemUnitStruct) -> (r: String)
    ensures
        r@ == unit_text(marker_plan(item)),
{
    let ghost p = marker_plan(item);
    let target = Target::stateless(item.0.ident, item.0.vis);
    proof {
        assert(target@ == p);
    }
    let mut out = String::new();
    target.to_tokens(&mut out);
    proof {
        assert(out@ =~= unit_text(p));
    }
    out
}

/// Layout identity, as far as the emitted text carries it: whatever the
/// plan, the definition opens with the structural derives and the
/// transparent-representation attribute, and declares the container as
/// the wrapper's only runtime field; the resulting identity of size and
/// field offsets is then the host compiler's guarantee, outside this
/// library.
pub proof fn lemma_layout_header(p: Plan)
    ensures
        define_text(p).len() >= define_header().len(),
        define_text(p).subrange(0, define_header().len() as int) == define_header(),
{
    assert(define_text(p).subrange(0, define_header().len() as int) =~= define_header());
}

/// Accessor gating, and the stateless shape of the generated unit: the
/// conversion API is part of the unit exactly in stateful mode, and a
/// marker-mode unit ends with the cast API. That each conversion only
/// compiles when the container satisfies the corresponding extraction
/// capability is enforced by the bounds the conversion text carries,
/// checked by the host compiler at the call site.
pub proof fn lemma_accessor_gating(p: Plan)
    ensures
        p.state is Some ==> unit_text(p) == define_text(p) + cast_text(p) + ref_cast_text(p)
            + convert_text(p),
        p.state is None ==> unit_text(p) == define_text(p) + cast_text(p) + ref_cast_text(p),
{
    if p.state is None {
        assert(unit_text(p) =~= define_text(p) + cast_text(p) + ref_cast_text(p));
    }
}

} // verus!
