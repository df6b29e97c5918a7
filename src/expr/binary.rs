//! The binary evaluator: a plain two-argument function lifted to two erased columns.
use crate::array::{Array, ArrayBuilder, ArrayImpl, TypedArray, WellFormed};
use crate::scalar::{opt_view, Scalar};
use crate::{EvalError, TypeMismatch};
use core::marker::PhantomData;
use vstd::prelude::*;

verus! {

/// One output slot of a binary evaluation: null where either input is null, and
/// otherwise a value that `f` may return on the two inputs.
pub open spec fn binary_row<
    I1: Array,
    I2: Array,
    O: Array,
    F: Fn(I1::RefItem<'_>, I2::RefItem<'_>) -> O::OwnedItem,
>(
    f: F,
    x: Option<<I1::OwnedItem as View>::V>,
    y: Option<<I2::OwnedItem as View>::V>,
    z: Option<<O::OwnedItem as View>::V>,
) -> bool {
    match (x, y) {
        (Some(x), Some(y)) => exists|a: I1::RefItem<'_>, b: I2::RefItem<'_>, o: O::OwnedItem|
            #[trigger] f.ensures((a, b), o) && a@ == x && b@ == y && z == Some(o@),
        _ => z is None,
    }
}

/// The output column of a binary evaluation, slot by slot.
pub open spec fn binary_output<
    I1: Array,
    I2: Array,
    O: Array,
    F: Fn(I1::RefItem<'_>, I2::RefItem<'_>) -> O::OwnedItem,
>(
    f: F,
    xs: Seq<Option<<I1::OwnedItem as View>::V>>,
    ys: Seq<Option<<I2::OwnedItem as View>::V>>,
    zs: Seq<Option<<O::OwnedItem as View>::V>>,
) -> bool {
    &&& zs.len() == xs.len()
    &&& forall|k: int| 0 <= k < zs.len() ==> binary_row::<I1, I2, O, F>(f, xs[k], ys[k], #[trigger] zs[k])
}

/// `f` accepts the two values of every row where both inputs are present, once they
/// are of their required types; nothing is asked where either input is of another
/// type.
pub open spec fn binary_accepts<
    I1: TypedArray,
    I2: TypedArray,
    O: TypedArray,
    F: Fn(I1::RefItem<'_>, I2::RefItem<'_>) -> O::OwnedItem,
>(f: F, i1: ArrayImpl, i2: ArrayImpl) -> bool {
    match (I1::spec_narrow(i1), I2::spec_narrow(i2)) {
        (Some(a1), Some(a2)) => forall|k: int, a: I1::RefItem<'_>, b: I2::RefItem<'_>|
            #![trigger f.requires((a, b)), a1@[k]]
            0 <= k < a1@.len() && k < a2@.len() && a1@[k] == Some(a@) && a2@[k] == Some(b@)
                ==> f.requires((a, b)),
        _ => true,
    }
}

/// The result of evaluating `f` over two erased columns: a type mismatch where either
/// input is not of its required type, a length mismatch where the two lengths differ,
/// and otherwise a well-formed column of the output type, slot by slot.
pub open spec fn binary_result<
    I1: TypedArray,
    I2: TypedArray,
    O: TypedArray,
    F: Fn(I1::RefItem<'_>, I2::RefItem<'_>) -> O::OwnedItem,
>(f: F, i1: ArrayImpl, i2: ArrayImpl, r: Result<ArrayImpl, EvalError>) -> bool {
    match (I1::spec_narrow(i1), I2::spec_narrow(i2)) {
        (Some(a1), Some(a2)) => if a1@.len() == a2@.len() {
            &&& r matches Ok(out)
            &&& out.well_formed()
            &&& O::spec_narrow(out) matches Some(o)
            &&& binary_output::<I1, I2, O, F>(f, a1@, a2@, o@)
        } else {
            r == Err::<ArrayImpl, EvalError>(EvalError::LengthMismatch)
        },
        _ => r == Err::<ArrayImpl, EvalError>(EvalError::TypeMismatch(TypeMismatch)),
    }
}

/// Where either input slot is null, the output slot of an evaluation is null.
pub proof fn lemma_null_propagation<
    I1: TypedArray,
    I2: TypedArray,
    O: TypedArray,
    F: Fn(I1::RefItem<'_>, I2::RefItem<'_>) -> O::OwnedItem,
>(f: F, i1: ArrayImpl, i2: ArrayImpl, r: Result<ArrayImpl, EvalError>, k: int)
    requires
        binary_result::<I1, I2, O, F>(f, i1, i2, r),
        r is Ok,
        0 <= k < i1@.len(),
        i1@[k] is None || i2@[k] is None,
    ensures
        r->Ok_0@[k] is None,
{
    I1::lemma_narrow(i1);
    I2::lemma_narrow(i2);
    let a1 = I1::spec_narrow(i1)->Some_0;
    let a2 = I2::spec_narrow(i2)->Some_0;
    I1::lemma_wrap(a1);
    I2::lemma_wrap(a2);
    let out = r->Ok_0;
    O::lemma_narrow(out);
    let o = O::spec_narrow(out)->Some_0;
    O::lemma_wrap(o);
    assert(binary_row::<I1, I2, O, F>(f, a1@[k], a2@[k], o@[k]));
}

/// Applies `f` row by row to two erased columns of types `I1` and `I2`, and wraps
/// the column of type `O` that results. `f` is called only on rows where both
/// inputs are present.
pub fn eval_binary<
    I1: TypedArray,
    I2: TypedArray,
    O: TypedArray,
    F: Fn(I1::RefItem<'_>, I2::RefItem<'_>) -> O::OwnedItem,
>(i1: &ArrayImpl, i2: &ArrayImpl, f: &F) -> (r: Result<ArrayImpl, EvalError>)
    requires
        i1.well_formed(),
        i2.well_formed(),
        binary_accepts::<I1, I2, O, F>(*f, *i1, *i2),
    ensures
        binary_result::<I1, I2, O, F>(*f, *i1, *i2, r),
{
    proof {
        I1::lemma_narrow(*i1);
        I2::lemma_narrow(*i2);
    }
    let a1 = match I1::try_from_array_impl_ref(i1) {
        Ok(a) => a,
        Err(e) => {
            return Err(EvalError::TypeMismatch(e));
        },
    };
    let a2 = match I2::try_from_array_impl_ref(i2) {
        Ok(a) => a,
        Err(e) => {
            return Err(EvalError::TypeMismatch(e));
        },
    };
    proof {
        I1::lemma_wrap(*a1);
        I2::lemma_wrap(*a2);
        a1.lemma_len_bound();
    }
    let n = a1.len();
    if n != a2.len() {
        return Err(EvalError::LengthMismatch);
    }
    let mut builder = O::Builder::with_capacity(n);
    let mut i: usize = 0;
    while i < n
        invariant
            a1.well_formed(),
            a2.well_formed(),
            n == a1@.len(),
            n == a2@.len(),
            n <= crate::bitmap::MAX_BITS,
            i <= n,
            builder.well_formed(),
            builder.contents().len() == i,
            forall|k: int|
                0 <= k < i ==> binary_row::<I1, I2, O, F>(
                    *f,
                    a1@[k],
                    a2@[k],
                    #[trigger] builder.contents()[k],
                ),
            forall|k: int, a: I1::RefItem<'_>, b: I2::RefItem<'_>|
                #![trigger f.requires((a, b)), a1@[k]]
                0 <= k < n && a1@[k] == Some(a@) && a2@[k] == Some(b@) ==> f.requires((a, b)),
        decreases n - i,
    {
        let ghost before = builder.contents();
        let x = a1.get(i);
        let y = a2.get(i);
        match (x, y) {
            (Some(a), Some(b)) => {
                let o = f(a, b);
                builder.push(Some(o.as_scalar_ref()));
                assert(binary_row::<I1, I2, O, F>(*f, a1@[i as int], a2@[i as int], builder.contents()[i as int]));
            },
            _ => {
                builder.push(None);
            },
        }
        assert forall|k: int| 0 <= k < i + 1 implies binary_row::<I1, I2, O, F>(
            *f,
            a1@[k],
            a2@[k],
            #[trigger] builder.contents()[k],
        ) by {
            if k < i {
                assert(builder.contents()[k] == before[k]);
            }
        }
        i = i + 1;
    }
    let out = builder.finish();
    proof {
        O::lemma_wrap(out);
    }
    Ok(out.into_array_impl())
}

/// An expression that applies a plain two-argument function to two columns of types
/// `I1` and `I2`, giving a column of type `O`.
pub struct BinaryExpression<I1, I2, O, F> {
    func: F,
    _phantom: PhantomData<(I1, I2, O)>,
}

impl<I1: Array, I2: Array, O: Array, F> BinaryExpression<I1, I2, O, F> {
    /// The function that this expression applies.
    pub closed spec fn func(&self) -> F {
        self.func
    }

    /// Binds `func` into an expression.
    pub fn new(func: F) -> (r: Self)
        ensures
            r.func() == func,
    {
        BinaryExpression { func, _phantom: PhantomData }
    }
}

impl<
    I1: TypedArray,
    I2: TypedArray,
    O: TypedArray,
    F: Fn(I1::RefItem<'_>, I2::RefItem<'_>) -> O::OwnedItem,
> BinaryExpression<I1, I2, O, F> {
    /// Evaluates the expression on two erased columns.
    pub fn eval(&self, i1: &ArrayImpl, i2: &ArrayImpl) -> (r: Result<ArrayImpl, EvalError>)
        requires
            i1.well_formed(),
            i2.well_formed(),
            binary_accepts::<I1, I2, O, F>(self.func(), *i1, *i2),
        ensures
            binary_result::<I1, I2, O, F>(self.func(), *i1, *i2, r),
    {
        eval_binary::<I1, I2, O, F>(i1, i2, &self.func)
    }
}

} // verus!
