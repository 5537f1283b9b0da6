//! Parameters of Rust functions called from JavaScript: how many arguments a
//! parameter list requires, and how arguments are handed out to parameters.

use vstd::prelude::*;
use crate::context::JSContext;
use crate::engine::{JSValueConversion, JSValueImpl};
use crate::error::{is_invalid_arg_count, JSResult, RongJSError};
use crate::value::{conversion_can_give, FromJSValue, JSValue};

verus! {

/// The arguments of a call from JavaScript, handed out front to back.
pub struct ParamsAccessor<'a, V: JSValueImpl> {
    ctx: &'a JSContext<V::Context>,
    this: V,
    args: Vec<V>,
    is_last_param: bool,
}

impl<'a, V: JSValueImpl> ParamsAccessor<'a, V> {
    /// The arguments not yet handed out.
    pub closed spec fn remaining(&self) -> Seq<V> {
        self.args@
    }

    /// The `this` value of the call.
    pub closed spec fn spec_this(&self) -> V {
        self.this
    }

    /// Whether the parameter being read is the last of the list.
    pub closed spec fn spec_is_last(&self) -> bool {
        self.is_last_param
    }

    /// The context of the call.
    pub closed spec fn spec_ctx(&self) -> JSContext<V::Context> {
        *self.ctx
    }

    pub fn new(ctx: &'a JSContext<V::Context>, this: V, args: Vec<V>) -> (r: Self)
        ensures
            r.remaining() == args@,
            r.spec_this() == this,
            !r.spec_is_last(),
            r.spec_ctx() == *ctx,
    {
        ParamsAccessor { ctx, this, args, is_last_param: false }
    }

    pub(crate) fn set_last_param(&mut self, is_last: bool)
        ensures
            final(self).remaining() == old(self).remaining(),
            final(self).spec_this() == old(self).spec_this(),
            final(self).spec_is_last() == is_last,
            final(self).spec_ctx() == old(self).spec_ctx(),
    {
        self.is_last_param = is_last;
    }

    /// The next argument, removed from the front; `None` when none is left.
    pub(crate) fn next_arg(&mut self) -> (r: Option<V>)
        ensures
            old(self).remaining().len() == 0 ==> r is None && final(self).remaining() == old(self).remaining(),
            old(self).remaining().len() > 0 ==> r == Some(old(self).remaining()[0])
                && final(self).remaining() == old(self).remaining().drop_first(),
            final(self).spec_this() == old(self).spec_this(),
            final(self).spec_is_last() == old(self).spec_is_last(),
            final(self).spec_ctx() == old(self).spec_ctx(),
    {
        if self.args.len() > 0 {
            Some(self.args.remove(0))
        } else {
            None
        }
    }

    /// The `this` value.
    pub(crate) fn get_this(&self) -> (r: V)
        ensures
            cloned::<V>(self.spec_this(), r),
    {
        self.this.clone()
    }

    pub(crate) fn context(&self) -> (r: &JSContext<V::Context>)
        ensures
            *r == self.spec_ctx(),
    {
        self.ctx
    }

    /// The number of arguments not yet handed out.
    pub(crate) fn args_len(&self) -> (r: usize)
        ensures
            r == self.remaining().len(),
    {
        self.args.len()
    }
}

/// The `this` value of a call, conversion_can_give.
pub struct This<T>(pub T);

/// An optional parameter: `None` when no argument is left for it.
pub struct Optional<T>(pub Option<T>);

/// The rest of the arguments, conversion_can_give; filled only as the last parameter.
pub struct Rest<T>(pub Vec<T>);

/// How many arguments a parameter list requires, and whether it takes no more.
pub struct ParamRequirement {
    required_count: usize,
    exhaustive: bool,
}

impl ParamRequirement {
    pub closed spec fn spec_required(&self) -> nat {
        self.required_count as nat
    }

    pub closed spec fn spec_exhaustive(&self) -> bool {
        self.exhaustive
    }

    /// The number of arguments the list requires.
    pub fn required_count(&self) -> (r: usize)
        ensures
            r == self.spec_required(),
    {
        self.required_count
    }

    /// Whether the list takes no arguments beyond the required ones.
    pub fn is_exhaustive(&self) -> (r: bool)
        ensures
            r == self.spec_exhaustive(),
    {
        self.exhaustive
    }

    /// An empty list: nothing required, nothing more taken.
    pub fn none() -> (r: Self)
        ensures
            r.spec_required() == 0,
            r.spec_exhaustive(),
    {
        ParamRequirement { required_count: 0, exhaustive: true }
    }

    /// A plain parameter: one argument required.
    pub fn single() -> (r: Self)
        ensures
            r.spec_required() == 1,
            r.spec_exhaustive(),
    {
        ParamRequirement { required_count: 1, exhaustive: true }
    }

    /// An optional parameter: nothing required.
    pub fn optional() -> (r: Self)
        ensures
            r.spec_required() == 0,
            !r.spec_exhaustive(),
    {
        ParamRequirement { required_count: 0, exhaustive: false }
    }

    /// A parameter that takes any number of arguments, or none.
    pub fn any() -> (r: Self)
        ensures
            r.spec_required() == 0,
            !r.spec_exhaustive(),
    {
        ParamRequirement { required_count: 0, exhaustive: false }
    }

    /// The requirement of a list followed by one more parameter: the counts
    /// add up, and the list is exhaustive only when both parts are.
    pub fn then(self, next: ParamRequirement) -> (r: Self)
        requires
            self.spec_required() + next.spec_required() <= usize::MAX,
        ensures
            r.spec_required() == self.spec_required() + next.spec_required(),
            r.spec_exhaustive() == (self.spec_exhaustive() && next.spec_exhaustive()),
    {
        ParamRequirement {
            required_count: self.required_count + next.required_count,
            exhaustive: self.exhaustive && next.exhaustive,
        }
    }
}

/// The kind of a parameter, which fixes its requirement.
pub trait ParameterKind {
    fn param_requirement() -> ParamRequirement;
}

/// A plain parameter.
pub struct Regular;

/// The `this` parameter.
pub struct ThisKind;

/// An optional parameter.
pub struct OptionalKind;

/// A rest parameter.
pub struct RestKind;

/// The context parameter.
pub struct ContextKind;

impl ParameterKind for Regular {
    fn param_requirement() -> (r: ParamRequirement)
        ensures
            r.spec_required() == 1 && r.spec_exhaustive(),
    {
        ParamRequirement::single()
    }
}

impl ParameterKind for ThisKind {
    fn param_requirement() -> (r: ParamRequirement)
        ensures
            r.spec_required() == 0 && !r.spec_exhaustive(),
    {
        ParamRequirement::any()
    }
}

impl ParameterKind for OptionalKind {
    fn param_requirement() -> (r: ParamRequirement)
        ensures
            r.spec_required() == 0 && !r.spec_exhaustive(),
    {
        ParamRequirement::optional()
    }
}

impl ParameterKind for RestKind {
    fn param_requirement() -> (r: ParamRequirement)
        ensures
            r.spec_required() == 0 && !r.spec_exhaustive(),
    {
        ParamRequirement::any()
    }
}

impl ParameterKind for ContextKind {
    fn param_requirement() -> (r: ParamRequirement)
        ensures
            r.spec_required() == 0 && !r.spec_exhaustive(),
    {
        ParamRequirement::any()
    }
}

/// Marker of the Rust types that can be plain parameters and arguments.
pub trait JSParameterType {}

impl JSParameterType for () {}
impl JSParameterType for i8 {}
impl JSParameterType for u8 {}
impl JSParameterType for i16 {}
impl JSParameterType for u16 {}
impl JSParameterType for i32 {}
impl JSParameterType for u32 {}
impl JSParameterType for i64 {}
impl JSParameterType for u64 {}
impl JSParameterType for bool {}
impl JSParameterType for String {}
impl JSParameterType for isize {}
impl JSParameterType for usize {}
impl<'a> JSParameterType for &'a str {}

/// Reads one parameter from the arguments.
pub trait GetParam<V: JSValueImpl>: Sized {
    /// The requirement of this parameter: the number of arguments it needs,
    /// and whether it takes no more than those.
    spec fn spec_requirement() -> (nat, bool);

    /// The requirement of this parameter.
    fn requirement() -> (r: ParamRequirement)
        ensures
            (r.spec_required(), r.spec_exhaustive()) == Self::spec_requirement();

    /// Whether reading this parameter, as the last of the list or not, from
    /// the arguments `before` can leave the arguments `after` and give `r`.
    spec fn spec_takes(is_last: bool, before: Seq<V>, after: Seq<V>, r: JSResult<Self>) -> bool;

    fn get_param(accessor: &mut ParamsAccessor<V>) -> (r: JSResult<Self>)
        ensures
            Self::spec_takes(old(accessor).spec_is_last(), old(accessor).remaining(), final(accessor).remaining(),
                r),
            final(accessor).spec_is_last() == old(accessor).spec_is_last();
}

/// Reads a whole parameter list from the arguments.
pub trait FromParams<V: JSValueImpl>: Sized {
    /// Whether reading the whole list from the arguments `before` can leave
    /// the arguments `after` and give `r`.
    spec fn spec_fills(before: Seq<V>, after: Seq<V>, r: JSResult<Self>) -> bool;

    fn from_params(accessor: &mut ParamsAccessor<V>) -> (r: JSResult<Self>)
        ensures
            Self::spec_fills(old(accessor).remaining(), final(accessor).remaining(), r);

    fn param_requirements() -> ParamRequirement;
}

/// A plain parameter takes the next argument; a call that reaches it with no
/// argument left fails with the argument-count error.
pub fn read_regular<V: JSValueImpl, T: FromJSValue<V>>(accessor: &mut ParamsAccessor<V>) -> (r: JSResult<T>)
    ensures
        old(accessor).remaining().len() > 0 ==> final(accessor).remaining() == old(accessor).remaining().drop_first(),
        old(accessor).remaining().len() == 0 ==> (r matches Err(e) && e.host() matches Some(h)
            && is_invalid_arg_count(h, 1, 0)),
        final(accessor).spec_is_last() == old(accessor).spec_is_last(),
        old(accessor).remaining().len() > 0 ==> conversion_can_give::<V, T>(r),
{
    match accessor.next_arg() {
        Some(v) => {
            let ctx = accessor.context().clone();
            let value = JSValue::from_raw(&ctx, v);
            let ghost given = value;
            let r = T::from_js_value(&ctx, value);
            assert(call_ensures(T::from_js_value, (&ctx, given), r));
            r
        },
        None => Err(RongJSError::InvalidParameter(1, 0)),
    }
}

impl<V: JSValueImpl, T: FromJSValue<V> + JSParameterType> GetParam<V> for T {
    open spec fn spec_requirement() -> (nat, bool) {
        (1, true)
    }

    /// The next argument is taken and converted; with none left the read
    /// fails.
    open spec fn spec_takes(is_last: bool, before: Seq<V>, after: Seq<V>, r: JSResult<Self>) -> bool {
        &&& before.len() > 0 ==> after == before.drop_first() && conversion_can_give::<V, T>(r)
        &&& before.len() == 0 ==> r is Err
    }

    fn requirement() -> (r: ParamRequirement) {
        Regular::param_requirement()
    }

    fn get_param(accessor: &mut ParamsAccessor<V>) -> JSResult<Self> {
        read_regular(accessor)
    }
}

impl<V: JSValueImpl, T: FromJSValue<V>> GetParam<V> for Optional<T> {
    open spec fn spec_requirement() -> (nat, bool) {
        (0, false)
    }

    /// The next argument is taken if there is one; with none left the
    /// parameter is `None`.
    open spec fn spec_takes(is_last: bool, before: Seq<V>, after: Seq<V>, r: JSResult<Self>) -> bool {
        &&& before.len() > 0 ==> after == before.drop_first()
        &&& before.len() == 0 ==> after == before && (r matches Ok(o) && o.0 is None)
    }

    fn requirement() -> (r: ParamRequirement) {
        OptionalKind::param_requirement()
    }

    fn get_param(accessor: &mut ParamsAccessor<V>) -> (r: JSResult<Self>)
        ensures
            old(accessor).remaining().len() == 0 ==> (r matches Ok(o) && o.0 is None),
            old(accessor).remaining().len() > 0 ==> final(accessor).remaining() == old(accessor).remaining().drop_first(),
    {
        match accessor.next_arg() {
            Some(v) => {
                let ctx = accessor.context().clone();
                match T::from_js_value(&ctx, JSValue::from_raw(&ctx, v)) {
                    Ok(t) => Ok(Optional(Some(t))),
                    Err(e) => Err(e),
                }
            },
            None => Ok(Optional(None)),
        }
    }
}

impl<V: JSValueImpl, T: FromJSValue<V>> GetParam<V> for Rest<T> {
    open spec fn spec_requirement() -> (nat, bool) {
        (0, false)
    }

    /// As the last parameter every argument left is taken, one item each;
    /// elsewhere none is taken and the rest is empty.
    open spec fn spec_takes(is_last: bool, before: Seq<V>, after: Seq<V>, r: JSResult<Self>) -> bool {
        &&& !is_last ==> after == before && (r matches Ok(rest) && rest.0@.len() == 0)
        &&& is_last && r is Ok ==> after.len() == 0 && (r matches Ok(rest) && rest.0@.len() == before.len())
    }

    fn requirement() -> (r: ParamRequirement) {
        RestKind::param_requirement()
    }

    /// As the last parameter, takes every argument left; elsewhere, none.
    fn get_param(accessor: &mut ParamsAccessor<V>) -> (r: JSResult<Self>)
        ensures
            !old(accessor).spec_is_last() ==> r is Ok && final(accessor).remaining() == old(accessor).remaining(),
            !old(accessor).spec_is_last() ==> (r matches Ok(rest) && rest.0@.len() == 0),
            old(accessor).spec_is_last() && r is Ok ==> final(accessor).remaining().len() == 0
                && (r matches Ok(rest) && rest.0@.len() == old(accessor).remaining().len()),
    {
        let mut values: Vec<T> = Vec::new();
        if accessor.is_last_param {
            let ctx = accessor.context().clone();
            let ghost n = accessor.remaining().len();
            while accessor.args.len() > 0
                invariant
                    values@.len() + accessor.remaining().len() == n,
                    n == old(accessor).remaining().len(),
                    accessor.spec_is_last(),
                    old(accessor).spec_is_last(),
                decreases accessor.remaining().len(),
            {
                let v = accessor.args.remove(0);
                match T::from_js_value(&ctx, JSValue::from_raw(&ctx, v)) {
                    Ok(t) => values.push(t),
                    Err(e) => { return Err(e); },
                }
            }
        }
        Ok(Rest(values))
    }
}

impl<V: JSValueImpl, T: FromJSValue<V>> GetParam<V> for This<T> {
    open spec fn spec_requirement() -> (nat, bool) {
        (0, false)
    }

    /// No argument is taken.
    open spec fn spec_takes(is_last: bool, before: Seq<V>, after: Seq<V>, r: JSResult<Self>) -> bool {
        after == before
    }

    fn requirement() -> (r: ParamRequirement) {
        ThisKind::param_requirement()
    }

    /// Converts the `this` value; no argument is used.
    fn get_param(accessor: &mut ParamsAccessor<V>) -> (r: JSResult<Self>)
        ensures
            final(accessor).remaining() == old(accessor).remaining(),
    {
        let ctx = accessor.context().clone();
        let this = accessor.get_this();
        match T::from_js_value(&ctx, JSValue::from_raw(&ctx, this)) {
            Ok(t) => Ok(This(t)),
            Err(e) => Err(e),
        }
    }
}

impl<V: JSValueImpl> GetParam<V> for JSContext<V::Context> {
    open spec fn spec_requirement() -> (nat, bool) {
        (0, false)
    }

    /// No argument is taken.
    open spec fn spec_takes(is_last: bool, before: Seq<V>, after: Seq<V>, r: JSResult<Self>) -> bool {
        after == before
    }

    fn requirement() -> (r: ParamRequirement) {
        ContextKind::param_requirement()
    }

    /// The context of the call; no argument is used.
    fn get_param(accessor: &mut ParamsAccessor<V>) -> (r: JSResult<Self>)
        ensures
            final(accessor).remaining() == old(accessor).remaining(),
            r == Ok::<JSContext<V::Context>, RongJSError>(old(accessor).spec_ctx()),
    {
        Ok(accessor.context().clone())
    }
}

impl<V: JSValueImpl> FromParams<V> for () {
    /// No argument is taken.
    open spec fn spec_fills(before: Seq<V>, after: Seq<V>, r: JSResult<Self>) -> bool {
        after == before && r is Ok
    }

    fn from_params(_accessor: &mut ParamsAccessor<V>) -> (r: JSResult<Self>)
        ensures
            r is Ok,
    {
        Ok(())
    }

    fn param_requirements() -> ParamRequirement {
        ParamRequirement::none()
    }
}

impl<V: JSValueImpl, A: GetParam<V>> FromParams<V> for (A,) {
    /// The one parameter is read as the last of the list; its failure is the
    /// failure of the list.
    open spec fn spec_fills(before: Seq<V>, after: Seq<V>, r: JSResult<Self>) -> bool {
        &&& r is Ok ==> A::spec_takes(true, before, after, Ok(r->Ok_0.0))
        &&& r is Err ==> {
            ||| (A::spec_takes(true, before, after, Err(r->Err_0)))
        }
    }

    fn from_params(accessor: &mut ParamsAccessor<V>) -> JSResult<Self> {
        accessor.set_last_param(true);
        let ghost m0 = accessor.remaining();
        match A::get_param(accessor) {
            Ok(a) => Ok((a,)),
            Err(e) => {
                let ghost failed = Err::<(A,), RongJSError>(e);
                assert(failed->Err_0 == e);
                assert(A::spec_takes(true, m0, accessor.remaining(), Err(failed->Err_0)));
                Err(e)
            },
        }
    }

    fn param_requirements() -> (r: ParamRequirement)
        ensures
            (r.spec_required(), r.spec_exhaustive()) == A::spec_requirement(),
            (r.spec_required(), r.spec_exhaustive()) == fold_requirements(seq![A::spec_requirement()]),
    {
        let r = combine_requirements(ParamRequirement::none(), A::requirement());
        proof {
            lemma_fold_push(Seq::<(nat, bool)>::empty(), A::spec_requirement());
            assert(seq![A::spec_requirement()] =~= Seq::<(nat, bool)>::empty().push(A::spec_requirement()));
            assert(fold_requirements(Seq::<(nat, bool)>::empty()) == (0nat, true));
        }
        r
    }
}

impl<V: JSValueImpl, A: GetParam<V>, B: GetParam<V>> FromParams<V> for (A, B) {
    /// Each parameter reads from what the ones before it left, the last of
    /// the list read as the last; a failure is that of the first parameter
    /// that fails, after the ones before it were read.
    open spec fn spec_fills(before: Seq<V>, after: Seq<V>, r: JSResult<Self>) -> bool {
        &&& r is Ok ==> exists|m1: Seq<V>|
            A::spec_takes(false, before, m1, Ok(r->Ok_0.0))
            && B::spec_takes(true, m1, after, Ok(r->Ok_0.1))
        &&& r is Err ==> {
            ||| (exists|m1: Seq<V>|
                A::spec_takes(false, before, m1, Err(r->Err_0)))
            ||| (exists|m1: Seq<V>, y0: A|
                A::spec_takes(false, before, m1, Ok(y0))
                && B::spec_takes(true, m1, after, Err(r->Err_0)))
        }
    }

    fn from_params(accessor: &mut ParamsAccessor<V>) -> JSResult<Self> {
        accessor.set_last_param(false);
        let ghost m0 = accessor.remaining();
        let x0 = match A::get_param(accessor) {
            Ok(v) => v,
            Err(e) => {
                let ghost failed = Err::<(A, B), RongJSError>(e);
                assert(failed->Err_0 == e);
                assert(A::spec_takes(false, m0, accessor.remaining(), Err(failed->Err_0)));
                return Err(e);
            },
        };
        let ghost m1 = accessor.remaining();
        accessor.set_last_param(true);
        match B::get_param(accessor) {
            Ok(v) => {
                let ghost filled = Ok::<(A, B), RongJSError>((x0, v));
                assert(filled->Ok_0.0 == x0 && filled->Ok_0.1 == v);
                assert(A::spec_takes(false, m0, m1, Ok(filled->Ok_0.0))
                    && B::spec_takes(true, m1, accessor.remaining(), Ok(filled->Ok_0.1)));
                Ok((x0, v))
            },
            Err(e) => {
                let ghost failed = Err::<(A, B), RongJSError>(e);
                assert(failed->Err_0 == e);
                assert(A::spec_takes(false, m0, m1, Ok(x0))
                    && B::spec_takes(true, m1, accessor.remaining(), Err(failed->Err_0)));
                Err(e)
            },
        }
    }

    fn param_requirements() -> (r: ParamRequirement)
        ensures
            (r.spec_required(), r.spec_exhaustive()) == combined_saturating(A::spec_requirement(),
                B::spec_requirement()),
            (r.spec_required(), r.spec_exhaustive()) ==
                fold_requirements(seq![A::spec_requirement(), B::spec_requirement()]),
    {
        let r = combine_requirements(A::requirement(), B::requirement());
        proof {
            lemma_fold_push(Seq::<(nat, bool)>::empty(), A::spec_requirement());
            assert(seq![A::spec_requirement()] =~= Seq::<(nat, bool)>::empty().push(A::spec_requirement()));
            assert(fold_requirements(Seq::<(nat, bool)>::empty()) == (0nat, true));
            assert(seq![A::spec_requirement(), B::spec_requirement()] =~=
                seq![A::spec_requirement()].push(B::spec_requirement()));
            lemma_fold_push(seq![A::spec_requirement()], B::spec_requirement());
        }
        r
    }
}

impl<V: JSValueImpl, A: GetParam<V>, B: GetParam<V>, C: GetParam<V>> FromParams<V> for (A, B, C) {
    /// Each parameter reads from what the ones before it left, the last of
    /// the list read as the last; a failure is that of the first parameter
    /// that fails, after the ones before it were read.
    open spec fn spec_fills(before: Seq<V>, after: Seq<V>, r: JSResult<Self>) -> bool {
        &&& r is Ok ==> exists|m1: Seq<V>, m2: Seq<V>|
            A::spec_takes(false, before, m1, Ok(r->Ok_0.0))
            && B::spec_takes(false, m1, m2, Ok(r->Ok_0.1))
            && C::spec_takes(true, m2, after, Ok(r->Ok_0.2))
        &&& r is Err ==> {
            ||| (exists|m1: Seq<V>|
                A::spec_takes(false, before, m1, Err(r->Err_0)))
            ||| (exists|m1: Seq<V>, m2: Seq<V>, y0: A|
                A::spec_takes(false, before, m1, Ok(y0))
                && B::spec_takes(false, m1, m2, Err(r->Err_0)))
            ||| (exists|m1: Seq<V>, m2: Seq<V>, y0: A, y1: B|
                A::spec_takes(false, before, m1, Ok(y0))
                && B::spec_takes(false, m1, m2, Ok(y1))
                && C::spec_takes(true, m2, after, Err(r->Err_0)))
        }
    }

    fn from_params(accessor: &mut ParamsAccessor<V>) -> JSResult<Self> {
        accessor.set_last_param(false);
        let ghost m0 = accessor.remaining();
        let x0 = match A::get_param(accessor) {
            Ok(v) => v,
            Err(e) => {
                let ghost failed = Err::<(A, B, C), RongJSError>(e);
                assert(failed->Err_0 == e);
                assert(A::spec_takes(false, m0, accessor.remaining(), Err(failed->Err_0)));
                return Err(e);
            },
        };
        let ghost m1 = accessor.remaining();
        let x1 = match B::get_param(accessor) {
            Ok(v) => v,
            Err(e) => {
                let ghost failed = Err::<(A, B, C), RongJSError>(e);
                assert(failed->Err_0 == e);
                assert(A::spec_takes(false, m0, m1, Ok(x0))
                    && B::spec_takes(false, m1, accessor.remaining(), Err(failed->Err_0)));
                return Err(e);
            },
        };
        let ghost m2 = accessor.remaining();
        accessor.set_last_param(true);
        match C::get_param(accessor) {
            Ok(v) => {
                let ghost filled = Ok::<(A, B, C), RongJSError>((x0, x1, v));
                assert(filled->Ok_0.0 == x0 && filled->Ok_0.1 == x1 && filled->Ok_0.2 == v);
                assert(A::spec_takes(false, m0, m1, Ok(filled->Ok_0.0))
                    && B::spec_takes(false, m1, m2, Ok(filled->Ok_0.1))
                    && C::spec_takes(true, m2, accessor.remaining(), Ok(filled->Ok_0.2)));
                Ok((x0, x1, v))
            },
            Err(e) => {
                let ghost failed = Err::<(A, B, C), RongJSError>(e);
                assert(failed->Err_0 == e);
                assert(A::spec_takes(false, m0, m1, Ok(x0))
                    && B::spec_takes(false, m1, m2, Ok(x1))
                    && C::spec_takes(true, m2, accessor.remaining(), Err(failed->Err_0)));
                Err(e)
            },
        }
    }

    fn param_requirements() -> (r: ParamRequirement)
        ensures
            (r.spec_required(), r.spec_exhaustive()) == combined_saturating(combined_saturating(
                A::spec_requirement(), B::spec_requirement()), C::spec_requirement()),
            (r.spec_required(), r.spec_exhaustive()) ==
                fold_requirements(seq![A::spec_requirement(), B::spec_requirement(), C::spec_requirement()]),
    {
        let r = combine_requirements(combine_requirements(A::requirement(), B::requirement()), C::requirement());
        proof {
            lemma_fold_push(Seq::<(nat, bool)>::empty(), A::spec_requirement());
            assert(seq![A::spec_requirement()] =~= Seq::<(nat, bool)>::empty().push(A::spec_requirement()));
            assert(fold_requirements(Seq::<(nat, bool)>::empty()) == (0nat, true));
            assert(seq![A::spec_requirement(), B::spec_requirement()] =~=
                seq![A::spec_requirement()].push(B::spec_requirement()));
            lemma_fold_push(seq![A::spec_requirement()], B::spec_requirement());
            assert(seq![A::spec_requirement(), B::spec_requirement(), C::spec_requirement()] =~=
                seq![A::spec_requirement(), B::spec_requirement()].push(C::spec_requirement()));
            lemma_fold_push(seq![A::spec_requirement(), B::spec_requirement()], C::spec_requirement());
        }
        r
    }
}

impl<V: JSValueImpl, A: GetParam<V>, B: GetParam<V>, C: GetParam<V>, D: GetParam<V>> FromParams<V> for (A, B, C, D) {
    /// Each parameter reads from what the ones before it left, the last of
    /// the list read as the last; a failure is that of the first parameter
    /// that fails, after the ones before it were read.
    open spec fn spec_fills(before: Seq<V>, after: Seq<V>, r: JSResult<Self>) -> bool {
        &&& r is Ok ==> exists|m1: Seq<V>, m2: Seq<V>, m3: Seq<V>|
            A::spec_takes(false, before, m1, Ok(r->Ok_0.0))
            && B::spec_takes(false, m1, m2, Ok(r->Ok_0.1))
            && C::spec_takes(false, m2, m3, Ok(r->Ok_0.2))
            && D::spec_takes(true, m3, after, Ok(r->Ok_0.3))
        &&& r is Err ==> {
            ||| (exists|m1: Seq<V>|
                A::spec_takes(false, before, m1, Err(r->Err_0)))
            ||| (exists|m1: Seq<V>, m2: Seq<V>, y0: A|
                A::spec_takes(false, before, m1, Ok(y0))
                && B::spec_takes(false, m1, m2, Err(r->Err_0)))
            ||| (exists|m1: Seq<V>, m2: Seq<V>, m3: Seq<V>, y0: A, y1: B|
                A::spec_takes(false, before, m1, Ok(y0))
                && B::spec_takes(false, m1, m2, Ok(y1))
                && C::spec_takes(false, m2, m3, Err(r->Err_0)))
            ||| (exists|m1: Seq<V>, m2: Seq<V>, m3: Seq<V>, y0: A, y1: B, y2: C|
                A::spec_takes(false, before, m1, Ok(y0))
                && B::spec_takes(false, m1, m2, Ok(y1))
                && C::spec_takes(false, m2, m3, Ok(y2))
                && D::spec_takes(true, m3, after, Err(r->Err_0)))
        }
    }

    fn from_params(accessor: &mut ParamsAccessor<V>) -> JSResult<Self> {
        accessor.set_last_param(false);
        let ghost m0 = accessor.remaining();
        let x0 = match A::get_param(accessor) {
            Ok(v) => v,
            Err(e) => {
                let ghost failed = Err::<(A, B, C, D), RongJSError>(e);
                assert(failed->Err_0 == e);
                assert(A::spec_takes(false, m0, accessor.remaining(), Err(failed->Err_0)));
                return Err(e);
            },
        };
        let ghost m1 = accessor.remaining();
        let x1 = match B::get_param(accessor) {
            Ok(v) => v,
            Err(e) => {
                let ghost failed = Err::<(A, B, C, D), RongJSError>(e);
                assert(failed->Err_0 == e);
                assert(A::spec_takes(false, m0, m1, Ok(x0))
                    && B::spec_takes(false, m1, accessor.remaining(), Err(failed->Err_0)));
                return Err(e);
            },
        };
        let ghost m2 = accessor.remaining();
        let x2 = match C::get_param(accessor) {
            Ok(v) => v,
            Err(e) => {
                let ghost failed = Err::<(A, B, C, D), RongJSError>(e);
                assert(failed->Err_0 == e);
                assert(A::spec_takes(false, m0, m1, Ok(x0))
                    && B::spec_takes(false, m1, m2, Ok(x1))
                    && C::spec_takes(false, m2, accessor.remaining(), Err(failed->Err_0)));
                return Err(e);
            },
        };
        let ghost m3 = accessor.remaining();
        accessor.set_last_param(true);
        match D::get_param(accessor) {
            Ok(v) => {
                let ghost filled = Ok::<(A, B, C, D), RongJSError>((x0, x1, x2, v));
                assert(filled->Ok_0.0 == x0 && filled->Ok_0.1 == x1 && filled->Ok_0.2 == x2 && filled->Ok_0.3 == v);
                assert(A::spec_takes(false, m0, m1, Ok(filled->Ok_0.0))
                    && B::spec_takes(false, m1, m2, Ok(filled->Ok_0.1))
                    && C::spec_takes(false, m2, m3, Ok(filled->Ok_0.2))
                    && D::spec_takes(true, m3, accessor.remaining(), Ok(filled->Ok_0.3)));
                Ok((x0, x1, x2, v))
            },
            Err(e) => {
                let ghost failed = Err::<(A, B, C, D), RongJSError>(e);
                assert(failed->Err_0 == e);
                assert(A::spec_takes(false, m0, m1, Ok(x0))
                    && B::spec_takes(false, m1, m2, Ok(x1))
                    && C::spec_takes(false, m2, m3, Ok(x2))
                    && D::spec_takes(true, m3, accessor.remaining(), Err(failed->Err_0)));
                Err(e)
            },
        }
    }

    fn param_requirements() -> (r: ParamRequirement)
        ensures
            (r.spec_required(), r.spec_exhaustive()) ==
                fold_requirements(seq![A::spec_requirement(), B::spec_requirement(), C::spec_requirement(), D::spec_requirement()]),
    {
        let r = combine_requirements(combine_requirements(combine_requirements(A::requirement(), B::requirement()), C::requirement()), D::requirement());
        proof {
            lemma_fold_push(Seq::<(nat, bool)>::empty(), A::spec_requirement());
            assert(seq![A::spec_requirement()] =~= Seq::<(nat, bool)>::empty().push(A::spec_requirement()));
            assert(fold_requirements(Seq::<(nat, bool)>::empty()) == (0nat, true));
            assert(seq![A::spec_requirement(), B::spec_requirement()] =~=
                seq![A::spec_requirement()].push(B::spec_requirement()));
            lemma_fold_push(seq![A::spec_requirement()], B::spec_requirement());
            assert(seq![A::spec_requirement(), B::spec_requirement(), C::spec_requirement()] =~=
                seq![A::spec_requirement(), B::spec_requirement()].push(C::spec_requirement()));
            lemma_fold_push(seq![A::spec_requirement(), B::spec_requirement()], C::spec_requirement());
            assert(seq![A::spec_requirement(), B::spec_requirement(), C::spec_requirement(), D::spec_requirement()] =~=
                seq![A::spec_requirement(), B::spec_requirement(), C::spec_requirement()].push(D::spec_requirement()));
            lemma_fold_push(seq![A::spec_requirement(), B::spec_requirement(), C::spec_requirement()], D::spec_requirement());
        }
        r
    }
}

impl<V: JSValueImpl, A: GetParam<V>, B: GetParam<V>, C: GetParam<V>, D: GetParam<V>, E: GetParam<V>> FromParams<V> for (A, B, C, D, E) {
    /// Each parameter reads from what the ones before it left, the last of
    /// the list read as the last; a failure is that of the first parameter
    /// that fails, after the ones before it were read.
    open spec fn spec_fills(before: Seq<V>, after: Seq<V>, r: JSResult<Self>) -> bool {
        &&& r is Ok ==> exists|m1: Seq<V>, m2: Seq<V>, m3: Seq<V>, m4: Seq<V>|
            A::spec_takes(false, before, m1, Ok(r->Ok_0.0))
            && B::spec_takes(false, m1, m2, Ok(r->Ok_0.1))
            && C::spec_takes(false, m2, m3, Ok(r->Ok_0.2))
            && D::spec_takes(false, m3, m4, Ok(r->Ok_0.3))
            && E::spec_takes(true, m4, after, Ok(r->Ok_0.4))
        &&& r is Err ==> {
            ||| (exists|m1: Seq<V>|
                A::spec_takes(false, before, m1, Err(r->Err_0)))
            ||| (exists|m1: Seq<V>, m2: Seq<V>, y0: A|
                A::spec_takes(false, before, m1, Ok(y0))
                && B::spec_takes(false, m1, m2, Err(r->Err_0)))
            ||| (exists|m1: Seq<V>, m2: Seq<V>, m3: Seq<V>, y0: A, y1: B|
                A::spec_takes(false, before, m1, Ok(y0))
                && B::spec_takes(false, m1, m2, Ok(y1))
                && C::spec_takes(false, m2, m3, Err(r->Err_0)))
            ||| (exists|m1: Seq<V>, m2: Seq<V>, m3: Seq<V>, m4: Seq<V>, y0: A, y1: B, y2: C|
                A::spec_takes(false, before, m1, Ok(y0))
                && B::spec_takes(false, m1, m2, Ok(y1))
                && C::spec_takes(false, m2, m3, Ok(y2))
                && D::spec_takes(false, m3, m4, Err(r->Err_0)))
            ||| (exists|m1: Seq<V>, m2: Seq<V>, m3: Seq<V>, m4: Seq<V>, y0: A, y1: B, y2: C, y3: D|
                A::spec_takes(false, before, m1, Ok(y0))
                && B::spec_takes(false, m1, m2, Ok(y1))
                && C::spec_takes(false, m2, m3, Ok(y2))
                && D::spec_takes(false, m3, m4, Ok(y3))
                && E::spec_takes(true, m4, after, Err(r->Err_0)))
        }
    }

    fn from_params(accessor: &mut ParamsAccessor<V>) -> JSResult<Self> {
        accessor.set_last_param(false);
        let ghost m0 = accessor.remaining();
        let x0 = match A::get_param(accessor) {
            Ok(v) => v,
            Err(e) => {
                let ghost failed = Err::<(A, B, C, D, E), RongJSError>(e);
                assert(failed->Err_0 == e);
                assert(A::spec_takes(false, m0, accessor.remaining(), Err(failed->Err_0)));
                return Err(e);
            },
        };
        let ghost m1 = accessor.remaining();
        let x1 = match B::get_param(accessor) {
            Ok(v) => v,
            Err(e) => {
                let ghost failed = Err::<(A, B, C, D, E), RongJSError>(e);
                assert(failed->Err_0 == e);
                assert(A::spec_takes(false, m0, m1, Ok(x0))
                    && B::spec_takes(false, m1, accessor.remaining(), Err(failed->Err_0)));
                return Err(e);
            },
        };
        let ghost m2 = accessor.remaining();
        let x2 = match C::get_param(accessor) {
            Ok(v) => v,
            Err(e) => {
                let ghost failed = Err::<(A, B, C, D, E), RongJSError>(e);
                assert(failed->Err_0 == e);
                assert(A::spec_takes(false, m0, m1, Ok(x0))
                    && B::spec_takes(false, m1, m2, Ok(x1))
                    && C::spec_takes(false, m2, accessor.remaining(), Err(failed->Err_0)));
                return Err(e);
            },
        };
        let ghost m3 = accessor.remaining();
        let x3 = match D::get_param(accessor) {
            Ok(v) => v,
            Err(e) => {
                let ghost failed = Err::<(A, B, C, D, E), RongJSError>(e);
                assert(failed->Err_0 == e);
                assert(A::spec_takes(false, m0, m1, Ok(x0))
                    && B::spec_takes(false, m1, m2, Ok(x1))
                    && C::spec_takes(false, m2, m3, Ok(x2))
                    && D::spec_takes(false, m3, accessor.remaining(), Err(failed->Err_0)));
                return Err(e);
            },
        };
        let ghost m4 = accessor.remaining();
        accessor.set_last_param(true);
        match E::get_param(accessor) {
            Ok(v) => {
                let ghost filled = Ok::<(A, B, C, D, E), RongJSError>((x0, x1, x2, x3, v));
                assert(filled->Ok_0.0 == x0 && filled->Ok_0.1 == x1 && filled->Ok_0.2 == x2 && filled->Ok_0.3 == x3 && filled->Ok_0.4 == v);
                assert(A::spec_takes(false, m0, m1, Ok(filled->Ok_0.0))
                    && B::spec_takes(false, m1, m2, Ok(filled->Ok_0.1))
                    && C::spec_takes(false, m2, m3, Ok(filled->Ok_0.2))
                    && D::spec_takes(false, m3, m4, Ok(filled->Ok_0.3))
                    && E::spec_takes(true, m4, accessor.remaining(), Ok(filled->Ok_0.4)));
                Ok((x0, x1, x2, x3, v))
            },
            Err(e) => {
                let ghost failed = Err::<(A, B, C, D, E), RongJSError>(e);
                assert(failed->Err_0 == e);
                assert(A::spec_takes(false, m0, m1, Ok(x0))
                    && B::spec_takes(false, m1, m2, Ok(x1))
                    && C::spec_takes(false, m2, m3, Ok(x2))
                    && D::spec_takes(false, m3, m4, Ok(x3))
                    && E::spec_takes(true, m4, accessor.remaining(), Err(failed->Err_0)));
                Err(e)
            },
        }
    }

    fn param_requirements() -> (r: ParamRequirement)
        ensures
            (r.spec_required(), r.spec_exhaustive()) ==
                fold_requirements(seq![A::spec_requirement(), B::spec_requirement(), C::spec_requirement(), D::spec_requirement(), E::spec_requirement()]),
    {
        let r = combine_requirements(combine_requirements(combine_requirements(combine_requirements(A::requirement(), B::requirement()), C::requirement()), D::requirement()), E::requirement());
        proof {
            lemma_fold_push(Seq::<(nat, bool)>::empty(), A::spec_requirement());
            assert(seq![A::spec_requirement()] =~= Seq::<(nat, bool)>::empty().push(A::spec_requirement()));
            assert(fold_requirements(Seq::<(nat, bool)>::empty()) == (0nat, true));
            assert(seq![A::spec_requirement(), B::spec_requirement()] =~=
                seq![A::spec_requirement()].push(B::spec_requirement()));
            lemma_fold_push(seq![A::spec_requirement()], B::spec_requirement());
            assert(seq![A::spec_requirement(), B::spec_requirement(), C::spec_requirement()] =~=
                seq![A::spec_requirement(), B::spec_requirement()].push(C::spec_requirement()));
            lemma_fold_push(seq![A::spec_requirement(), B::spec_requirement()], C::spec_requirement());
            assert(seq![A::spec_requirement(), B::spec_requirement(), C::spec_requirement(), D::spec_requirement()] =~=
                seq![A::spec_requirement(), B::spec_requirement(), C::spec_requirement()].push(D::spec_requirement()));
            lemma_fold_push(seq![A::spec_requirement(), B::spec_requirement(), C::spec_requirement()], D::spec_requirement());
            assert(seq![A::spec_requirement(), B::spec_requirement(), C::spec_requirement(), D::spec_requirement(), E::spec_requirement()] =~=
                seq![A::spec_requirement(), B::spec_requirement(), C::spec_requirement(), D::spec_requirement()].push(E::spec_requirement()));
            lemma_fold_push(seq![A::spec_requirement(), B::spec_requirement(), C::spec_requirement(), D::spec_requirement()], E::spec_requirement());
        }
        r
    }
}

impl<V: JSValueImpl, A: GetParam<V>, B: GetParam<V>, C: GetParam<V>, D: GetParam<V>, E: GetParam<V>, F: GetParam<V>> FromParams<V> for (A, B, C, D, E, F) {
    /// Each parameter reads from what the ones before it left, the last of
    /// the list read as the last; a failure is that of the first parameter
    /// that fails, after the ones before it were read.
    open spec fn spec_fills(before: Seq<V>, after: Seq<V>, r: JSResult<Self>) -> bool {
        &&& r is Ok ==> exists|m1: Seq<V>, m2: Seq<V>, m3: Seq<V>, m4: Seq<V>, m5: Seq<V>|
            A::spec_takes(false, before, m1, Ok(r->Ok_0.0))
            && B::spec_takes(false, m1, m2, Ok(r->Ok_0.1))
            && C::spec_takes(false, m2, m3, Ok(r->Ok_0.2))
            && D::spec_takes(false, m3, m4, Ok(r->Ok_0.3))
            && E::spec_takes(false, m4, m5, Ok(r->Ok_0.4))
            && F::spec_takes(true, m5, after, Ok(r->Ok_0.5))
        &&& r is Err ==> {
            ||| (exists|m1: Seq<V>|
                A::spec_takes(false, before, m1, Err(r->Err_0)))
            ||| (exists|m1: Seq<V>, m2: Seq<V>, y0: A|
                A::spec_takes(false, before, m1, Ok(y0))
                && B::spec_takes(false, m1, m2, Err(r->Err_0)))
            ||| (exists|m1: Seq<V>, m2: Seq<V>, m3: Seq<V>, y0: A, y1: B|
                A::spec_takes(false, before, m1, Ok(y0))
                && B::spec_takes(false, m1, m2, Ok(y1))
                && C::spec_takes(false, m2, m3, Err(r->Err_0)))
            ||| (exists|m1: Seq<V>, m2: Seq<V>, m3: Seq<V>, m4: Seq<V>, y0: A, y1: B, y2: C|
                A::spec_takes(false, before, m1, Ok(y0))
                && B::spec_takes(false, m1, m2, Ok(y1))
                && C::spec_takes(false, m2, m3, Ok(y2))
                && D::spec_takes(false, m3, m4, Err(r->Err_0)))
            ||| (exists|m1: Seq<V>, m2: Seq<V>, m3: Seq<V>, m4: Seq<V>, m5: Seq<V>, y0: A, y1: B, y2: C, y3: D|
                A::spec_takes(false, before, m1, Ok(y0))
                && B::spec_takes(false, m1, m2, Ok(y1))
                && C::spec_takes(false, m2, m3, Ok(y2))
                && D::spec_takes(false, m3, m4, Ok(y3))
                && E::spec_takes(false, m4, m5, Err(r->Err_0)))
            ||| (exists|m1: Seq<V>, m2: Seq<V>, m3: Seq<V>, m4: Seq<V>, m5: Seq<V>, y0: A, y1: B, y2: C, y3: D, y4: E|
                A::spec_takes(false, before, m1, Ok(y0))
                && B::spec_takes(false, m1, m2, Ok(y1))
                && C::spec_takes(false, m2, m3, Ok(y2))
                && D::spec_takes(false, m3, m4, Ok(y3))
                && E::spec_takes(false, m4, m5, Ok(y4))
                && F::spec_takes(true, m5, after, Err(r->Err_0)))
        }
    }

    fn from_params(accessor: &mut ParamsAccessor<V>) -> JSResult<Self> {
        accessor.set_last_param(false);
        let ghost m0 = accessor.remaining();
        let x0 = match A::get_param(accessor) {
            Ok(v) => v,
            Err(e) => {
                let ghost failed = Err::<(A, B, C, D, E, F), RongJSError>(e);
                assert(failed->Err_0 == e);
                assert(A::spec_takes(false, m0, accessor.remaining(), Err(failed->Err_0)));
                return Err(e);
            },
        };
        let ghost m1 = accessor.remaining();
        let x1 = match B::get_param(accessor) {
            Ok(v) => v,
            Err(e) => {
                let ghost failed = Err::<(A, B, C, D, E, F), RongJSError>(e);
                assert(failed->Err_0 == e);
                assert(A::spec_takes(false, m0, m1, Ok(x0))
                    && B::spec_takes(false, m1, accessor.remaining(), Err(failed->Err_0)));
                return Err(e);
            },
        };
        let ghost m2 = accessor.remaining();
        let x2 = match C::get_param(accessor) {
            Ok(v) => v,
            Err(e) => {
                let ghost failed = Err::<(A, B, C, D, E, F), RongJSError>(e);
                assert(failed->Err_0 == e);
                assert(A::spec_takes(false, m0, m1, Ok(x0))
                    && B::spec_takes(false, m1, m2, Ok(x1))
                    && C::spec_takes(false, m2, accessor.remaining(), Err(failed->Err_0)));
                return Err(e);
            },
        };
        let ghost m3 = accessor.remaining();
        let x3 = match D::get_param(accessor) {
            Ok(v) => v,
            Err(e) => {
                let ghost failed = Err::<(A, B, C, D, E, F), RongJSError>(e);
                assert(failed->Err_0 == e);
                assert(A::spec_takes(false, m0, m1, Ok(x0))
                    && B::spec_takes(false, m1, m2, Ok(x1))
                    && C::spec_takes(false, m2, m3, Ok(x2))
                    && D::spec_takes(false, m3, accessor.remaining(), Err(failed->Err_0)));
                return Err(e);
            },
        };
        let ghost m4 = accessor.remaining();
        let x4 = match E::get_param(accessor) {
            Ok(v) => v,
            Err(e) => {
                let ghost failed = Err::<(A, B, C, D, E, F), RongJSError>(e);
                assert(failed->Err_0 == e);
                assert(A::spec_takes(false, m0, m1, Ok(x0))
                    && B::spec_takes(false, m1, m2, Ok(x1))
                    && C::spec_takes(false, m2, m3, Ok(x2))
                    && D::spec_takes(false, m3, m4, Ok(x3))
                    && E::spec_takes(false, m4, accessor.remaining(), Err(failed->Err_0)));
                return Err(e);
            },
        };
        let ghost m5 = accessor.remaining();
        accessor.set_last_param(true);
        match F::get_param(accessor) {
            Ok(v) => {
                let ghost filled = Ok::<(A, B, C, D, E, F), RongJSError>((x0, x1, x2, x3, x4, v));
                assert(filled->Ok_0.0 == x0 && filled->Ok_0.1 == x1 && filled->Ok_0.2 == x2 && filled->Ok_0.3 == x3 && filled->Ok_0.4 == x4 && filled->Ok_0.5 == v);
                assert(A::spec_takes(false, m0, m1, Ok(filled->Ok_0.0))
                    && B::spec_takes(false, m1, m2, Ok(filled->Ok_0.1))
                    && C::spec_takes(false, m2, m3, Ok(filled->Ok_0.2))
                    && D::spec_takes(false, m3, m4, Ok(filled->Ok_0.3))
                    && E::spec_takes(false, m4, m5, Ok(filled->Ok_0.4))
                    && F::spec_takes(true, m5, accessor.remaining(), Ok(filled->Ok_0.5)));
                Ok((x0, x1, x2, x3, x4, v))
            },
            Err(e) => {
                let ghost failed = Err::<(A, B, C, D, E, F), RongJSError>(e);
                assert(failed->Err_0 == e);
                assert(A::spec_takes(false, m0, m1, Ok(x0))
                    && B::spec_takes(false, m1, m2, Ok(x1))
                    && C::spec_takes(false, m2, m3, Ok(x2))
                    && D::spec_takes(false, m3, m4, Ok(x3))
                    && E::spec_takes(false, m4, m5, Ok(x4))
                    && F::spec_takes(true, m5, accessor.remaining(), Err(failed->Err_0)));
                Err(e)
            },
        }
    }

    fn param_requirements() -> (r: ParamRequirement)
        ensures
            (r.spec_required(), r.spec_exhaustive()) ==
                fold_requirements(seq![A::spec_requirement(), B::spec_requirement(), C::spec_requirement(), D::spec_requirement(), E::spec_requirement(), F::spec_requirement()]),
    {
        let r = combine_requirements(combine_requirements(combine_requirements(combine_requirements(combine_requirements(A::requirement(), B::requirement()), C::requirement()), D::requirement()), E::requirement()), F::requirement());
        proof {
            lemma_fold_push(Seq::<(nat, bool)>::empty(), A::spec_requirement());
            assert(seq![A::spec_requirement()] =~= Seq::<(nat, bool)>::empty().push(A::spec_requirement()));
            assert(fold_requirements(Seq::<(nat, bool)>::empty()) == (0nat, true));
            assert(seq![A::spec_requirement(), B::spec_requirement()] =~=
                seq![A::spec_requirement()].push(B::spec_requirement()));
            lemma_fold_push(seq![A::spec_requirement()], B::spec_requirement());
            assert(seq![A::spec_requirement(), B::spec_requirement(), C::spec_requirement()] =~=
                seq![A::spec_requirement(), B::spec_requirement()].push(C::spec_requirement()));
            lemma_fold_push(seq![A::spec_requirement(), B::spec_requirement()], C::spec_requirement());
            assert(seq![A::spec_requirement(), B::spec_requirement(), C::spec_requirement(), D::spec_requirement()] =~=
                seq![A::spec_requirement(), B::spec_requirement(), C::spec_requirement()].push(D::spec_requirement()));
            lemma_fold_push(seq![A::spec_requirement(), B::spec_requirement(), C::spec_requirement()], D::spec_requirement());
            assert(seq![A::spec_requirement(), B::spec_requirement(), C::spec_requirement(), D::spec_requirement(), E::spec_requirement()] =~=
                seq![A::spec_requirement(), B::spec_requirement(), C::spec_requirement(), D::spec_requirement()].push(E::spec_requirement()));
            lemma_fold_push(seq![A::spec_requirement(), B::spec_requirement(), C::spec_requirement(), D::spec_requirement()], E::spec_requirement());
            assert(seq![A::spec_requirement(), B::spec_requirement(), C::spec_requirement(), D::spec_requirement(), E::spec_requirement(), F::spec_requirement()] =~=
                seq![A::spec_requirement(), B::spec_requirement(), C::spec_requirement(), D::spec_requirement(), E::spec_requirement()].push(F::spec_requirement()));
            lemma_fold_push(seq![A::spec_requirement(), B::spec_requirement(), C::spec_requirement(), D::spec_requirement(), E::spec_requirement()], F::spec_requirement());
        }
        r
    }
}

impl<V: JSValueImpl, A: GetParam<V>, B: GetParam<V>, C: GetParam<V>, D: GetParam<V>, E: GetParam<V>, F: GetParam<V>, G: GetParam<V>> FromParams<V> for (A, B, C, D, E, F, G) {
    /// Each parameter reads from what the ones before it left, the last of
    /// the list read as the last; a failure is that of the first parameter
    /// that fails, after the ones before it were read.
    open spec fn spec_fills(before: Seq<V>, after: Seq<V>, r: JSResult<Self>) -> bool {
        &&& r is Ok ==> exists|m1: Seq<V>, m2: Seq<V>, m3: Seq<V>, m4: Seq<V>, m5: Seq<V>, m6: Seq<V>|
            A::spec_takes(false, before, m1, Ok(r->Ok_0.0))
            && B::spec_takes(false, m1, m2, Ok(r->Ok_0.1))
            && C::spec_takes(false, m2, m3, Ok(r->Ok_0.2))
            && D::spec_takes(false, m3, m4, Ok(r->Ok_0.3))
            && E::spec_takes(false, m4, m5, Ok(r->Ok_0.4))
            && F::spec_takes(false, m5, m6, Ok(r->Ok_0.5))
            && G::spec_takes(true, m6, after, Ok(r->Ok_0.6))
        &&& r is Err ==> {
            ||| (exists|m1: Seq<V>|
                A::spec_takes(false, before, m1, Err(r->Err_0)))
            ||| (exists|m1: Seq<V>, m2: Seq<V>, y0: A|
                A::spec_takes(false, before, m1, Ok(y0))
                && B::spec_takes(false, m1, m2, Err(r->Err_0)))
            ||| (exists|m1: Seq<V>, m2: Seq<V>, m3: Seq<V>, y0: A, y1: B|
                A::spec_takes(false, before, m1, Ok(y0))
                && B::spec_takes(false, m1, m2, Ok(y1))
                && C::spec_takes(false, m2, m3, Err(r->Err_0)))
            ||| (exists|m1: Seq<V>, m2: Seq<V>, m3: Seq<V>, m4: Seq<V>, y0: A, y1: B, y2: C|
                A::spec_takes(false, before, m1, Ok(y0))
                && B::spec_takes(false, m1, m2, Ok(y1))
                && C::spec_takes(false, m2, m3, Ok(y2))
                && D::spec_takes(false, m3, m4, Err(r->Err_0)))
            ||| (exists|m1: Seq<V>, m2: Seq<V>, m3: Seq<V>, m4: Seq<V>, m5: Seq<V>, y0: A, y1: B, y2: C, y3: D|
                A::spec_takes(false, before, m1, Ok(y0))
                && B::spec_takes(false, m1, m2, Ok(y1))
                && C::spec_takes(false, m2, m3, Ok(y2))
                && D::spec_takes(false, m3, m4, Ok(y3))
                && E::spec_takes(false, m4, m5, Err(r->Err_0)))
            ||| (exists|m1: Seq<V>, m2: Seq<V>, m3: Seq<V>, m4: Seq<V>, m5: Seq<V>, m6: Seq<V>, y0: A, y1: B, y2: C, y3: D, y4: E|
                A::spec_takes(false, before, m1, Ok(y0))
                && B::spec_takes(false, m1, m2, Ok(y1))
                && C::spec_takes(false, m2, m3, Ok(y2))
                && D::spec_takes(false, m3, m4, Ok(y3))
                && E::spec_takes(false, m4, m5, Ok(y4))
                && F::spec_takes(false, m5, m6, Err(r->Err_0)))
            ||| (exists|m1: Seq<V>, m2: Seq<V>, m3: Seq<V>, m4: Seq<V>, m5: Seq<V>, m6: Seq<V>, y0: A, y1: B, y2: C, y3: D, y4: E, y5: F|
                A::spec_takes(false, before, m1, Ok(y0))
                && B::spec_takes(false, m1, m2, Ok(y1))
                && C::spec_takes(false, m2, m3, Ok(y2))
                && D::spec_takes(false, m3, m4, Ok(y3))
                && E::spec_takes(false, m4, m5, Ok(y4))
                && F::spec_takes(false, m5, m6, Ok(y5))
                && G::spec_takes(true, m6, after, Err(r->Err_0)))
        }
    }

    fn from_params(accessor: &mut ParamsAccessor<V>) -> JSResult<Self> {
        accessor.set_last_param(false);
        let ghost m0 = accessor.remaining();
        let x0 = match A::get_param(accessor) {
            Ok(v) => v,
            Err(e) => {
                let ghost failed = Err::<(A, B, C, D, E, F, G), RongJSError>(e);
                assert(failed->Err_0 == e);
                assert(A::spec_takes(false, m0, accessor.remaining(), Err(failed->Err_0)));
                return Err(e);
            },
        };
        let ghost m1 = accessor.remaining();
        let x1 = match B::get_param(accessor) {
            Ok(v) => v,
            Err(e) => {
                let ghost failed = Err::<(A, B, C, D, E, F, G), RongJSError>(e);
                assert(failed->Err_0 == e);
                assert(A::spec_takes(false, m0, m1, Ok(x0))
                    && B::spec_takes(false, m1, accessor.remaining(), Err(failed->Err_0)));
                return Err(e);
            },
        };
        let ghost m2 = accessor.remaining();
        let x2 = match C::get_param(accessor) {
            Ok(v) => v,
            Err(e) => {
                let ghost failed = Err::<(A, B, C, D, E, F, G), RongJSError>(e);
                assert(failed->Err_0 == e);
                assert(A::spec_takes(false, m0, m1, Ok(x0))
                    && B::spec_takes(false, m1, m2, Ok(x1))
                    && C::spec_takes(false, m2, accessor.remaining(), Err(failed->Err_0)));
                return Err(e);
            },
        };
        let ghost m3 = accessor.remaining();
        let x3 = match D::get_param(accessor) {
            Ok(v) => v,
            Err(e) => {
                let ghost failed = Err::<(A, B, C, D, E, F, G), RongJSError>(e);
                assert(failed->Err_0 == e);
                assert(A::spec_takes(false, m0, m1, Ok(x0))
                    && B::spec_takes(false, m1, m2, Ok(x1))
                    && C::spec_takes(false, m2, m3, Ok(x2))
                    && D::spec_takes(false, m3, accessor.remaining(), Err(failed->Err_0)));
                return Err(e);
            },
        };
        let ghost m4 = accessor.remaining();
        let x4 = match E::get_param(accessor) {
            Ok(v) => v,
            Err(e) => {
                let ghost failed = Err::<(A, B, C, D, E, F, G), RongJSError>(e);
                assert(failed->Err_0 == e);
                assert(A::spec_takes(false, m0, m1, Ok(x0))
                    && B::spec_takes(false, m1, m2, Ok(x1))
                    && C::spec_takes(false, m2, m3, Ok(x2))
                    && D::spec_takes(false, m3, m4, Ok(x3))
                    && E::spec_takes(false, m4, accessor.remaining(), Err(failed->Err_0)));
                return Err(e);
            },
        };
        let ghost m5 = accessor.remaining();
        let x5 = match F::get_param(accessor) {
            Ok(v) => v,
            Err(e) => {
                let ghost failed = Err::<(A, B, C, D, E, F, G), RongJSError>(e);
                assert(failed->Err_0 == e);
                assert(A::spec_takes(false, m0, m1, Ok(x0))
                    && B::spec_takes(false, m1, m2, Ok(x1))
                    && C::spec_takes(false, m2, m3, Ok(x2))
                    && D::spec_takes(false, m3, m4, Ok(x3))
                    && E::spec_takes(false, m4, m5, Ok(x4))
                    && F::spec_takes(false, m5, accessor.remaining(), Err(failed->Err_0)));
                return Err(e);
            },
        };
        let ghost m6 = accessor.remaining();
        accessor.set_last_param(true);
        match G::get_param(accessor) {
            Ok(v) => {
                let ghost filled = Ok::<(A, B, C, D, E, F, G), RongJSError>((x0, x1, x2, x3, x4, x5, v));
                assert(filled->Ok_0.0 == x0 && filled->Ok_0.1 == x1 && filled->Ok_0.2 == x2 && filled->Ok_0.3 == x3 && filled->Ok_0.4 == x4 && filled->Ok_0.5 == x5 && filled->Ok_0.6 == v);
                assert(A::spec_takes(false, m0, m1, Ok(filled->Ok_0.0))
                    && B::spec_takes(false, m1, m2, Ok(filled->Ok_0.1))
                    && C::spec_takes(false, m2, m3, Ok(filled->Ok_0.2))
                    && D::spec_takes(false, m3, m4, Ok(filled->Ok_0.3))
                    && E::spec_takes(false, m4, m5, Ok(filled->Ok_0.4))
                    && F::spec_takes(false, m5, m6, Ok(filled->Ok_0.5))
                    && G::spec_takes(true, m6, accessor.remaining(), Ok(filled->Ok_0.6)));
                Ok((x0, x1, x2, x3, x4, x5, v))
            },
            Err(e) => {
                let ghost failed = Err::<(A, B, C, D, E, F, G), RongJSError>(e);
                assert(failed->Err_0 == e);
                assert(A::spec_takes(false, m0, m1, Ok(x0))
                    && B::spec_takes(false, m1, m2, Ok(x1))
                    && C::spec_takes(false, m2, m3, Ok(x2))
                    && D::spec_takes(false, m3, m4, Ok(x3))
                    && E::spec_takes(false, m4, m5, Ok(x4))
                    && F::spec_takes(false, m5, m6, Ok(x5))
                    && G::spec_takes(true, m6, accessor.remaining(), Err(failed->Err_0)));
                Err(e)
            },
        }
    }

    fn param_requirements() -> (r: ParamRequirement)
        ensures
            (r.spec_required(), r.spec_exhaustive()) ==
                fold_requirements(seq![A::spec_requirement(), B::spec_requirement(), C::spec_requirement(), D::spec_requirement(), E::spec_requirement(), F::spec_requirement(), G::spec_requirement()]),
    {
        let r = combine_requirements(combine_requirements(combine_requirements(combine_requirements(combine_requirements(combine_requirements(A::requirement(), B::requirement()), C::requirement()), D::requirement()), E::requirement()), F::requirement()), G::requirement());
        proof {
            lemma_fold_push(Seq::<(nat, bool)>::empty(), A::spec_requirement());
            assert(seq![A::spec_requirement()] =~= Seq::<(nat, bool)>::empty().push(A::spec_requirement()));
            assert(fold_requirements(Seq::<(nat, bool)>::empty()) == (0nat, true));
            assert(seq![A::spec_requirement(), B::spec_requirement()] =~=
                seq![A::spec_requirement()].push(B::spec_requirement()));
            lemma_fold_push(seq![A::spec_requirement()], B::spec_requirement());
            assert(seq![A::spec_requirement(), B::spec_requirement(), C::spec_requirement()] =~=
                seq![A::spec_requirement(), B::spec_requirement()].push(C::spec_requirement()));
            lemma_fold_push(seq![A::spec_requirement(), B::spec_requirement()], C::spec_requirement());
            assert(seq![A::spec_requirement(), B::spec_requirement(), C::spec_requirement(), D::spec_requirement()] =~=
                seq![A::spec_requirement(), B::spec_requirement(), C::spec_requirement()].push(D::spec_requirement()));
            lemma_fold_push(seq![A::spec_requirement(), B::spec_requirement(), C::spec_requirement()], D::spec_requirement());
            assert(seq![A::spec_requirement(), B::spec_requirement(), C::spec_requirement(), D::spec_requirement(), E::spec_requirement()] =~=
                seq![A::spec_requirement(), B::spec_requirement(), C::spec_requirement(), D::spec_requirement()].push(E::spec_requirement()));
            lemma_fold_push(seq![A::spec_requirement(), B::spec_requirement(), C::spec_requirement(), D::spec_requirement()], E::spec_requirement());
            assert(seq![A::spec_requirement(), B::spec_requirement(), C::spec_requirement(), D::spec_requirement(), E::spec_requirement(), F::spec_requirement()] =~=
                seq![A::spec_requirement(), B::spec_requirement(), C::spec_requirement(), D::spec_requirement(), E::spec_requirement()].push(F::spec_requirement()));
            lemma_fold_push(seq![A::spec_requirement(), B::spec_requirement(), C::spec_requirement(), D::spec_requirement(), E::spec_requirement()], F::spec_requirement());
            assert(seq![A::spec_requirement(), B::spec_requirement(), C::spec_requirement(), D::spec_requirement(), E::spec_requirement(), F::spec_requirement(), G::spec_requirement()] =~=
                seq![A::spec_requirement(), B::spec_requirement(), C::spec_requirement(), D::spec_requirement(), E::spec_requirement(), F::spec_requirement()].push(G::spec_requirement()));
            lemma_fold_push(seq![A::spec_requirement(), B::spec_requirement(), C::spec_requirement(), D::spec_requirement(), E::spec_requirement(), F::spec_requirement()], G::spec_requirement());
        }
        r
    }
}

impl<V: JSValueImpl, A: GetParam<V>, B: GetParam<V>, C: GetParam<V>, D: GetParam<V>, E: GetParam<V>, F: GetParam<V>, G: GetParam<V>, H: GetParam<V>> FromParams<V> for (A, B, C, D, E, F, G, H) {
    /// Each parameter reads from what the ones before it left, the last of
    /// the list read as the last; a failure is that of the first parameter
    /// that fails, after the ones before it were read.
    open spec fn spec_fills(before: Seq<V>, after: Seq<V>, r: JSResult<Self>) -> bool {
        &&& r is Ok ==> exists|m1: Seq<V>, m2: Seq<V>, m3: Seq<V>, m4: Seq<V>, m5: Seq<V>, m6: Seq<V>, m7: Seq<V>|
            A::spec_takes(false, before, m1, Ok(r->Ok_0.0))
            && B::spec_takes(false, m1, m2, Ok(r->Ok_0.1))
            && C::spec_takes(false, m2, m3, Ok(r->Ok_0.2))
            && D::spec_takes(false, m3, m4, Ok(r->Ok_0.3))
            && E::spec_takes(false, m4, m5, Ok(r->Ok_0.4))
            && F::spec_takes(false, m5, m6, Ok(r->Ok_0.5))
            && G::spec_takes(false, m6, m7, Ok(r->Ok_0.6))
            && H::spec_takes(true, m7, after, Ok(r->Ok_0.7))
        &&& r is Err ==> {
            ||| (exists|m1: Seq<V>|
                A::spec_takes(false, before, m1, Err(r->Err_0)))
            ||| (exists|m1: Seq<V>, m2: Seq<V>, y0: A|
                A::spec_takes(false, before, m1, Ok(y0))
                && B::spec_takes(false, m1, m2, Err(r->Err_0)))
            ||| (exists|m1: Seq<V>, m2: Seq<V>, m3: Seq<V>, y0: A, y1: B|
                A::spec_takes(false, before, m1, Ok(y0))
                && B::spec_takes(false, m1, m2, Ok(y1))
                && C::spec_takes(false, m2, m3, Err(r->Err_0)))
            ||| (exists|m1: Seq<V>, m2: Seq<V>, m3: Seq<V>, m4: Seq<V>, y0: A, y1: B, y2: C|
                A::spec_takes(false, before, m1, Ok(y0))
                && B::spec_takes(false, m1, m2, Ok(y1))
                && C::spec_takes(false, m2, m3, Ok(y2))
                && D::spec_takes(false, m3, m4, Err(r->Err_0)))
            ||| (exists|m1: Seq<V>, m2: Seq<V>, m3: Seq<V>, m4: Seq<V>, m5: Seq<V>, y0: A, y1: B, y2: C, y3: D|
                A::spec_takes(false, before, m1, Ok(y0))
                && B::spec_takes(false, m1, m2, Ok(y1))
                && C::spec_takes(false, m2, m3, Ok(y2))
                && D::spec_takes(false, m3, m4, Ok(y3))
                && E::spec_takes(false, m4, m5, Err(r->Err_0)))
            ||| (exists|m1: Seq<V>, m2: Seq<V>, m3: Seq<V>, m4: Seq<V>, m5: Seq<V>, m6: Seq<V>, y0: A, y1: B, y2: C, y3: D, y4: E|
                A::spec_takes(false, before, m1, Ok(y0))
                && B::spec_takes(false, m1, m2, Ok(y1))
                && C::spec_takes(false, m2, m3, Ok(y2))
                && D::spec_takes(false, m3, m4, Ok(y3))
                && E::spec_takes(false, m4, m5, Ok(y4))
                && F::spec_takes(false, m5, m6, Err(r->Err_0)))
            ||| (exists|m1: Seq<V>, m2: Seq<V>, m3: Seq<V>, m4: Seq<V>, m5: Seq<V>, m6: Seq<V>, m7: Seq<V>, y0: A, y1: B, y2: C, y3: D, y4: E, y5: F|
                A::spec_takes(false, before, m1, Ok(y0))
                && B::spec_takes(false, m1, m2, Ok(y1))
                && C::spec_takes(false, m2, m3, Ok(y2))
                && D::spec_takes(false, m3, m4, Ok(y3))
                && E::spec_takes(false, m4, m5, Ok(y4))
                && F::spec_takes(false, m5, m6, Ok(y5))
                && G::spec_takes(false, m6, m7, Err(r->Err_0)))
            ||| (exists|m1: Seq<V>, m2: Seq<V>, m3: Seq<V>, m4: Seq<V>, m5: Seq<V>, m6: Seq<V>, m7: Seq<V>, y0: A, y1: B, y2: C, y3: D, y4: E, y5: F, y6: G|
                A::spec_takes(false, before, m1, Ok(y0))
                && B::spec_takes(false, m1, m2, Ok(y1))
                && C::spec_takes(false, m2, m3, Ok(y2))
                && D::spec_takes(false, m3, m4, Ok(y3))
                && E::spec_takes(false, m4, m5, Ok(y4))
                && F::spec_takes(false, m5, m6, Ok(y5))
                && G::spec_takes(false, m6, m7, Ok(y6))
                && H::spec_takes(true, m7, after, Err(r->Err_0)))
        }
    }

    fn from_params(accessor: &mut ParamsAccessor<V>) -> JSResult<Self> {
        accessor.set_last_param(false);
        let ghost m0 = accessor.remaining();
        let x0 = match A::get_param(accessor) {
            Ok(v) => v,
            Err(e) => {
                let ghost failed = Err::<(A, B, C, D, E, F, G, H), RongJSError>(e);
                assert(failed->Err_0 == e);
                assert(A::spec_takes(false, m0, accessor.remaining(), Err(failed->Err_0)));
                return Err(e);
            },
        };
        let ghost m1 = accessor.remaining();
        let x1 = match B::get_param(accessor) {
            Ok(v) => v,
            Err(e) => {
                let ghost failed = Err::<(A, B, C, D, E, F, G, H), RongJSError>(e);
                assert(failed->Err_0 == e);
                assert(A::spec_takes(false, m0, m1, Ok(x0))
                    && B::spec_takes(false, m1, accessor.remaining(), Err(failed->Err_0)));
                return Err(e);
            },
        };
        let ghost m2 = accessor.remaining();
        let x2 = match C::get_param(accessor) {
            Ok(v) => v,
            Err(e) => {
                let ghost failed = Err::<(A, B, C, D, E, F, G, H), RongJSError>(e);
                assert(failed->Err_0 == e);
                assert(A::spec_takes(false, m0, m1, Ok(x0))
                    && B::spec_takes(false, m1, m2, Ok(x1))
                    && C::spec_takes(false, m2, accessor.remaining(), Err(failed->Err_0)));
                return Err(e);
            },
        };
        let ghost m3 = accessor.remaining();
        let x3 = match D::get_param(accessor) {
            Ok(v) => v,
            Err(e) => {
                let ghost failed = Err::<(A, B, C, D, E, F, G, H), RongJSError>(e);
                assert(failed->Err_0 == e);
                assert(A::spec_takes(false, m0, m1, Ok(x0))
                    && B::spec_takes(false, m1, m2, Ok(x1))
                    && C::spec_takes(false, m2, m3, Ok(x2))
                    && D::spec_takes(false, m3, accessor.remaining(), Err(failed->Err_0)));
                return Err(e);
            },
        };
        let ghost m4 = accessor.remaining();
        let x4 = match E::get_param(accessor) {
            Ok(v) => v,
            Err(e) => {
                let ghost failed = Err::<(A, B, C, D, E, F, G, H), RongJSError>(e);
                assert(failed->Err_0 == e);
                assert(A::spec_takes(false, m0, m1, Ok(x0))
                    && B::spec_takes(false, m1, m2, Ok(x1))
                    && C::spec_takes(false, m2, m3, Ok(x2))
                    && D::spec_takes(false, m3, m4, Ok(x3))
                    && E::spec_takes(false, m4, accessor.remaining(), Err(failed->Err_0)));
                return Err(e);
            },
        };
        let ghost m5 = accessor.remaining();
        let x5 = match F::get_param(accessor) {
            Ok(v) => v,
            Err(e) => {
                let ghost failed = Err::<(A, B, C, D, E, F, G, H), RongJSError>(e);
                assert(failed->Err_0 == e);
                assert(A::spec_takes(false, m0, m1, Ok(x0))
                    && B::spec_takes(false, m1, m2, Ok(x1))
                    && C::spec_takes(false, m2, m3, Ok(x2))
                    && D::spec_takes(false, m3, m4, Ok(x3))
                    && E::spec_takes(false, m4, m5, Ok(x4))
                    && F::spec_takes(false, m5, accessor.remaining(), Err(failed->Err_0)));
                return Err(e);
            },
        };
        let ghost m6 = accessor.remaining();
        let x6 = match G::get_param(accessor) {
            Ok(v) => v,
            Err(e) => {
                let ghost failed = Err::<(A, B, C, D, E, F, G, H), RongJSError>(e);
                assert(failed->Err_0 == e);
                assert(A::spec_takes(false, m0, m1, Ok(x0))
                    && B::spec_takes(false, m1, m2, Ok(x1))
                    && C::spec_takes(false, m2, m3, Ok(x2))
                    && D::spec_takes(false, m3, m4, Ok(x3))
                    && E::spec_takes(false, m4, m5, Ok(x4))
                    && F::spec_takes(false, m5, m6, Ok(x5))
                    && G::spec_takes(false, m6, accessor.remaining(), Err(failed->Err_0)));
                return Err(e);
            },
        };
        let ghost m7 = accessor.remaining();
        accessor.set_last_param(true);
        match H::get_param(accessor) {
            Ok(v) => {
                let ghost filled = Ok::<(A, B, C, D, E, F, G, H), RongJSError>((x0, x1, x2, x3, x4, x5, x6, v));
                assert(filled->Ok_0.0 == x0 && filled->Ok_0.1 == x1 && filled->Ok_0.2 == x2 && filled->Ok_0.3 == x3 && filled->Ok_0.4 == x4 && filled->Ok_0.5 == x5 && filled->Ok_0.6 == x6 && filled->Ok_0.7 == v);
                assert(A::spec_takes(false, m0, m1, Ok(filled->Ok_0.0))
                    && B::spec_takes(false, m1, m2, Ok(filled->Ok_0.1))
                    && C::spec_takes(false, m2, m3, Ok(filled->Ok_0.2))
                    && D::spec_takes(false, m3, m4, Ok(filled->Ok_0.3))
                    && E::spec_takes(false, m4, m5, Ok(filled->Ok_0.4))
                    && F::spec_takes(false, m5, m6, Ok(filled->Ok_0.5))
                    && G::spec_takes(false, m6, m7, Ok(filled->Ok_0.6))
                    && H::spec_takes(true, m7, accessor.remaining(), Ok(filled->Ok_0.7)));
                Ok((x0, x1, x2, x3, x4, x5, x6, v))
            },
            Err(e) => {
                let ghost failed = Err::<(A, B, C, D, E, F, G, H), RongJSError>(e);
                assert(failed->Err_0 == e);
                assert(A::spec_takes(false, m0, m1, Ok(x0))
                    && B::spec_takes(false, m1, m2, Ok(x1))
                    && C::spec_takes(false, m2, m3, Ok(x2))
                    && D::spec_takes(false, m3, m4, Ok(x3))
                    && E::spec_takes(false, m4, m5, Ok(x4))
                    && F::spec_takes(false, m5, m6, Ok(x5))
                    && G::spec_takes(false, m6, m7, Ok(x6))
                    && H::spec_takes(true, m7, accessor.remaining(), Err(failed->Err_0)));
                Err(e)
            },
        }
    }

    fn param_requirements() -> (r: ParamRequirement)
        ensures
            (r.spec_required(), r.spec_exhaustive()) ==
                fold_requirements(seq![A::spec_requirement(), B::spec_requirement(), C::spec_requirement(), D::spec_requirement(), E::spec_requirement(), F::spec_requirement(), G::spec_requirement(), H::spec_requirement()]),
    {
        let r = combine_requirements(combine_requirements(combine_requirements(combine_requirements(combine_requirements(combine_requirements(combine_requirements(A::requirement(), B::requirement()), C::requirement()), D::requirement()), E::requirement()), F::requirement()), G::requirement()), H::requirement());
        proof {
            lemma_fold_push(Seq::<(nat, bool)>::empty(), A::spec_requirement());
            assert(seq![A::spec_requirement()] =~= Seq::<(nat, bool)>::empty().push(A::spec_requirement()));
            assert(fold_requirements(Seq::<(nat, bool)>::empty()) == (0nat, true));
            assert(seq![A::spec_requirement(), B::spec_requirement()] =~=
                seq![A::spec_requirement()].push(B::spec_requirement()));
            lemma_fold_push(seq![A::spec_requirement()], B::spec_requirement());
            assert(seq![A::spec_requirement(), B::spec_requirement(), C::spec_requirement()] =~=
                seq![A::spec_requirement(), B::spec_requirement()].push(C::spec_requirement()));
            lemma_fold_push(seq![A::spec_requirement(), B::spec_requirement()], C::spec_requirement());
            assert(seq![A::spec_requirement(), B::spec_requirement(), C::spec_requirement(), D::spec_requirement()] =~=
                seq![A::spec_requirement(), B::spec_requirement(), C::spec_requirement()].push(D::spec_requirement()));
            lemma_fold_push(seq![A::spec_requirement(), B::spec_requirement(), C::spec_requirement()], D::spec_requirement());
            assert(seq![A::spec_requirement(), B::spec_requirement(), C::spec_requirement(), D::spec_requirement(), E::spec_requirement()] =~=
                seq![A::spec_requirement(), B::spec_requirement(), C::spec_requirement(), D::spec_requirement()].push(E::spec_requirement()));
            lemma_fold_push(seq![A::spec_requirement(), B::spec_requirement(), C::spec_requirement(), D::spec_requirement()], E::spec_requirement());
            assert(seq![A::spec_requirement(), B::spec_requirement(), C::spec_requirement(), D::spec_requirement(), E::spec_requirement(), F::spec_requirement()] =~=
                seq![A::spec_requirement(), B::spec_requirement(), C::spec_requirement(), D::spec_requirement(), E::spec_requirement()].push(F::spec_requirement()));
            lemma_fold_push(seq![A::spec_requirement(), B::spec_requirement(), C::spec_requirement(), D::spec_requirement(), E::spec_requirement()], F::spec_requirement());
            assert(seq![A::spec_requirement(), B::spec_requirement(), C::spec_requirement(), D::spec_requirement(), E::spec_requirement(), F::spec_requirement(), G::spec_requirement()] =~=
                seq![A::spec_requirement(), B::spec_requirement(), C::spec_requirement(), D::spec_requirement(), E::spec_requirement(), F::spec_requirement()].push(G::spec_requirement()));
            lemma_fold_push(seq![A::spec_requirement(), B::spec_requirement(), C::spec_requirement(), D::spec_requirement(), E::spec_requirement(), F::spec_requirement()], G::spec_requirement());
            assert(seq![A::spec_requirement(), B::spec_requirement(), C::spec_requirement(), D::spec_requirement(), E::spec_requirement(), F::spec_requirement(), G::spec_requirement(), H::spec_requirement()] =~=
                seq![A::spec_requirement(), B::spec_requirement(), C::spec_requirement(), D::spec_requirement(), E::spec_requirement(), F::spec_requirement(), G::spec_requirement()].push(H::spec_requirement()));
            lemma_fold_push(seq![A::spec_requirement(), B::spec_requirement(), C::spec_requirement(), D::spec_requirement(), E::spec_requirement(), F::spec_requirement(), G::spec_requirement()], H::spec_requirement());
        }
        r
    }
}

/// The requirement of a parameter list, from the requirements of its
/// parameters in order.
pub open spec fn fold_requirements(s: Seq<(nat, bool)>) -> (nat, bool)
    decreases s.len(),
{
    if s.len() == 0 {
        (0, true)
    } else {
        combined_saturating(fold_requirements(s.drop_last()), s.last())
    }
}

/// One more parameter combines its requirement with the list's.
pub proof fn lemma_fold_push(s: Seq<(nat, bool)>, p: (nat, bool))
    ensures
        fold_requirements(s.push(p)) == combined_saturating(fold_requirements(s), p),
{
    assert(s.push(p).drop_last() =~= s);
}

/// The number of plain parameters in a list.
pub open spec fn count_regular(s: Seq<(nat, bool)>) -> nat
    decreases s.len(),
{
    if s.len() == 0 {
        0
    } else {
        count_regular(s.drop_last()) + if s.last() == (1nat, true) { 1nat } else { 0nat }
    }
}

/// A list requires exactly as many arguments as it has plain parameters,
/// where a plain parameter requires one and every other kind (`This`,
/// `Optional`, `Rest`, the context) none; it takes no more arguments only when
/// all its parameters are plain.
pub proof fn law_required_count_is_plain_count(s: Seq<(nat, bool)>)
    requires
        forall|i: int| 0 <= i < s.len() ==> #[trigger] s[i] == (1nat, true) || s[i] == (0nat, false),
        s.len() <= usize::MAX,
    ensures
        fold_requirements(s).0 == count_regular(s),
        fold_requirements(s).1 == (forall|i: int| 0 <= i < s.len() ==> #[trigger] s[i] == (1nat, true)),
        count_regular(s) <= s.len(),
    decreases s.len(),
{
    if s.len() > 0 {
        let t = s.drop_last();
        assert forall|i: int| 0 <= i < t.len() implies #[trigger] t[i] == (1nat, true) || t[i] == (0nat, false) by {
            assert(t[i] == s[i]);
        }
        law_required_count_is_plain_count(t);
        assert(s.last() == s[s.len() - 1]);
        if fold_requirements(s).1 {
            assert forall|i: int| 0 <= i < s.len() implies #[trigger] s[i] == (1nat, true) by {
                if i < s.len() - 1 {
                    assert(t[i] == s[i]);
                }
            }
        } else {
            if s.last() == (1nat, true) {
                let j = choose|j: int| 0 <= j < t.len() && !(#[trigger] t[j] == (1nat, true));
                assert(t[j] == s[j]);
            }
        }
    }
}

/// Two requirements in a row, with the count saturating at the largest
/// machine count.
pub open spec fn combined_saturating(a: (nat, bool), b: (nat, bool)) -> (nat, bool) {
    (if a.0 + b.0 <= usize::MAX { (a.0 + b.0) as nat } else { usize::MAX as nat }, a.1 && b.1)
}

/// The requirement of two parameter lists in a row. Counts add up, saturating
/// at the largest count.
pub fn combine_requirements(a: ParamRequirement, b: ParamRequirement) -> (r: ParamRequirement)
    ensures
        a.spec_required() + b.spec_required() <= usize::MAX ==> r.spec_required() == a.spec_required()
            + b.spec_required(),
        a.spec_required() + b.spec_required() > usize::MAX ==> r.spec_required() == usize::MAX,
        r.spec_exhaustive() == (a.spec_exhaustive() && b.spec_exhaustive()),
        a.spec_required() + b.spec_required() <= usize::MAX ==> (r.spec_required(), r.spec_exhaustive()) == combined(
            (a.spec_required(), a.spec_exhaustive()), (b.spec_required(), b.spec_exhaustive())),
{
    let exhaustive = a.exhaustive && b.exhaustive;
    let required_count = a.required_count.saturating_add(b.required_count);
    ParamRequirement { required_count, exhaustive }
}

/// Whether a call with `got` arguments may go ahead: `Ok` when at least
/// `required` are given, else the argument-count error naming both.
pub fn check_arg_count(required: u32, got: u32) -> (r: JSResult<()>)
    ensures
        got >= required <==> r is Ok,
        got < required ==> (r matches Err(e) && e.host() matches Some(h) && is_invalid_arg_count(h, required, got)),
{
    if got < required {
        Err(RongJSError::InvalidParameter(required, got))
    } else {
        Ok(())
    }
}

/// The requirement of a parameter list: the counts add up, and the list is
/// exhaustive when every parameter is.
pub open spec fn combined(a: (nat, bool), b: (nat, bool)) -> (nat, bool) {
    (a.0 + b.0, a.1 && b.1)
}

/// Combining requirements does not depend on how the list is grouped, and
/// the empty list changes nothing.
pub proof fn law_requirements_compose(a: (nat, bool), b: (nat, bool), c: (nat, bool))
    ensures
        combined(combined(a, b), c) == combined(a, combined(b, c)),
        combined((0, true), a) == a,
        combined(a, (0, true)) == a,
{
}

/// A trailing rest parameter receives every argument that the parameters
/// before it left: after a plain parameter takes the first argument, the
/// rest holds one item for each argument after it and none is left over.
pub proof fn law_trailing_rest_takes_all<V: JSValueConversion>(before: Seq<V>, after: Seq<V>,
    r: JSResult<(i32, Rest<i32>)>)
    requires
        <(i32, Rest<i32>) as FromParams<V>>::spec_fills(before, after, r),
        r is Ok,
        before.len() >= 1,
    ensures
        after.len() == 0,
        r->Ok_0.1.0@.len() == before.len() - 1,
{
    let m1 = choose|m1: Seq<V>| <i32 as GetParam<V>>::spec_takes(false, before, m1, Ok(r->Ok_0.0))
        && <Rest<i32> as GetParam<V>>::spec_takes(true, m1, after, Ok(r->Ok_0.1));
    assert(m1 == before.drop_first());
}

/// The parameters of a list read the arguments in order, each from what the
/// ones before it left: two plain parameters take the first two arguments and
/// leave the rest.
pub proof fn law_plain_parameters_take_in_order<V: JSValueConversion>(before: Seq<V>, after: Seq<V>,
    r: JSResult<(i32, i32)>)
    requires
        <(i32, i32) as FromParams<V>>::spec_fills(before, after, r),
        r is Ok,
    ensures
        before.len() >= 2,
        after == before.skip(2),
{
    let m1 = choose|m1: Seq<V>| <i32 as GetParam<V>>::spec_takes(false, before, m1, Ok(r->Ok_0.0))
        && <i32 as GetParam<V>>::spec_takes(true, m1, after, Ok(r->Ok_0.1));
    assert(after =~= before.skip(2));
}

} // verus!
