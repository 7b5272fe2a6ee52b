//! The typed syntax tree that the transformer builds.

use vstd::prelude::*;

verus! {

/// The shape of a type, once reference, `impl` marker and `as` target have
/// been set aside.
#[derive(Debug, PartialEq, Eq)]
pub enum Type {
    /// An element list on its way into a [`Type::Tuple`] or a
    /// [`Type::GenericType`]. It never stays in a finished tree.
    List(Vec<TypeExpr>),
    /// A bare name, such as `String`.
    SimpleType(String),
    /// A parenthesized list of type expressions; empty for the unit type.
    Tuple(Vec<TypeExpr>),
    /// A qualified path `<Source as Trait<Args>>::Target`: `name` and
    /// `type_args` describe the trait, `target` the item projected from it.
    AsType { name: String, type_args: Vec<TypeExpr>, target: Box<TypeExpr> },
    /// A name with type arguments, such as `Vec<String>`.
    GenericType { name: String, type_args: Vec<TypeExpr> },
    /// A closure or function-pointer type, such as `Fn(u8) -> bool`: the
    /// name in front of the parameters, the parameter types, and the return
    /// type if one is written.
    Closure { name: String, params: Vec<TypeExpr>, ret: Option<Box<TypeExpr>> },
}

/// One occurrence of a type, with the syntax that surrounds it.
#[derive(Debug, PartialEq, Eq)]
pub struct TypeExpr {
    /// The source text of the whole expression, verbatim.
    pub original: String,
    /// The leading borrow marker, if there is one.
    pub reference: Option<String>,
    /// The `impl` marker in front of the type, if there is one.
    pub impl_marker: Option<String>,
    /// The type proper.
    pub ty: Type,
    /// The type named by a trailing `as`, if there is one.
    pub as_target: Option<Box<Type>>,
}

/// What a [`Type`] is to specifications.
pub ghost enum TypeView {
    List(Seq<TypeExprView>),
    SimpleType(Seq<char>),
    Tuple(Seq<TypeExprView>),
    AsType { name: Seq<char>, type_args: Seq<TypeExprView>, target: Box<TypeExprView> },
    GenericType { name: Seq<char>, type_args: Seq<TypeExprView> },
    Closure { name: Seq<char>, params: Seq<TypeExprView>, ret: Option<Box<TypeExprView>> },
}

/// What a [`TypeExpr`] is to specifications.
pub ghost struct TypeExprView {
    pub original: Seq<char>,
    pub reference: Option<Seq<char>>,
    pub impl_marker: Option<Seq<char>>,
    pub ty: TypeView,
    pub as_target: Option<TypeView>,
}

/// The text of an optional string.
pub open spec fn text_of(s: Option<String>) -> Option<Seq<char>> {
    match s {
        Some(s) => Some(s@),
        None => None,
    }
}

/// The views of a sequence of type expressions, element by element.
pub open spec fn type_exprs_view(v: Seq<TypeExpr>) -> Seq<TypeExprView>
    decreases v,
{
    Seq::new(
        v.len(),
        |i: int|
            if 0 <= i < v.len() {
                type_expr_view(v[i])
            } else {
                arbitrary()
            },
    )
}

/// The view of a type expression.
pub open spec fn type_expr_view(e: TypeExpr) -> TypeExprView
    decreases e,
{
    TypeExprView {
        original: e.original@,
        reference: text_of(e.reference),
        impl_marker: text_of(e.impl_marker),
        ty: type_view(e.ty),
        as_target: match e.as_target {
            Some(t) => Some(type_view(*t)),
            None => None,
        },
    }
}

/// The view of a type.
pub open spec fn type_view(t: Type) -> TypeView
    decreases t,
{
    match t {
        Type::List(v) => TypeView::List(type_exprs_view(v@)),
        Type::SimpleType(name) => TypeView::SimpleType(name@),
        Type::Tuple(v) => TypeView::Tuple(type_exprs_view(v@)),
        Type::AsType { name, type_args, target } => TypeView::AsType {
            name: name@,
            type_args: type_exprs_view(type_args@),
            target: Box::new(type_expr_view(*target)),
        },
        Type::GenericType { name, type_args } => TypeView::GenericType {
            name: name@,
            type_args: type_exprs_view(type_args@),
        },
        Type::Closure { name, params, ret } => TypeView::Closure {
            name: name@,
            params: type_exprs_view(params@),
            ret: match ret {
                Some(r) => Some(Box::new(type_expr_view(*r))),
                None => None,
            },
        },
    }
}

impl View for Type {
    type V = TypeView;

    open spec fn view(&self) -> TypeView {
        type_view(*self)
    }
}

impl View for TypeExpr {
    type V = TypeExprView;

    open spec fn view(&self) -> TypeExprView {
        type_expr_view(*self)
    }
}

impl TypeView {
    /// No element list is left at this type or anywhere below it.
    pub open spec fn list_free(self) -> bool
        decreases self,
    {
        match self {
            TypeView::List(_) => false,
            TypeView::SimpleType(_) => true,
            TypeView::Tuple(v) => forall|i: int| 0 <= i < v.len() ==> (#[trigger] v[i]).list_free(),
            TypeView::AsType { name, type_args, target } => {
                &&& forall|i: int|
                    0 <= i < type_args.len() ==> (#[trigger] type_args[i]).list_free()
                &&& target.list_free()
            },
            TypeView::GenericType { name, type_args } => forall|i: int|
                0 <= i < type_args.len() ==> (#[trigger] type_args[i]).list_free(),
            TypeView::Closure { name, params, ret } => {
                &&& forall|i: int| 0 <= i < params.len() ==> (#[trigger] params[i]).list_free()
                &&& match ret {
                    Some(r) => r.list_free(),
                    None => true,
                }
            },
        }
    }
}

impl TypeExprView {
    /// No element list is left anywhere in this expression: the shape that
    /// every finished tree has.
    pub open spec fn list_free(self) -> bool
        decreases self,
    {
        &&& self.ty.list_free()
        &&& match self.as_target {
            Some(t) => t.list_free(),
            None => true,
        }
    }

    /// The expression that holds nothing but a type.
    pub open spec fn bare(original: Seq<char>, ty: TypeView) -> TypeExprView {
        TypeExprView { original, reference: None, impl_marker: None, ty, as_target: None }
    }
}

impl Default for Type {
    /// The type with the empty name.
    fn default() -> (res: Type)
        ensures
            res@ == TypeView::SimpleType(Seq::<char>::empty()),
    {
        Type::SimpleType(String::new())
    }
}

impl Default for TypeExpr {
    /// The empty expression: no text, no markers, the default type.
    fn default() -> (res: TypeExpr)
        ensures
            res@ == TypeExprView::bare(
                Seq::<char>::empty(),
                TypeView::SimpleType(Seq::<char>::empty()),
            ),
    {
        TypeExpr {
            original: String::new(),
            reference: None,
            impl_marker: None,
            ty: Type::default(),
            as_target: None,
        }
    }
}

} // verus!
