//! Differentiable function expressions.
//!
//! An expression is a value built from the node types of this module. Every
//! node evaluates at a point ([`Function`]) and hands out the node of its
//! derivative ([`Differentiable`]), built by the rules of calculus from the
//! nodes it is made of. No derivative is approximated numerically.
use super::{Exp as ExpTrait, Number, Real, Trigo};
use vstd::prelude::*;
use vstd::std_specs::ops::{AddSpecImpl, DivSpecImpl, MulSpecImpl, NegSpecImpl, SubSpecImpl};

verus! {

/// Something that can be evaluated at a point of type `I`.
pub trait Function<I> {
    type Output;

    /// The value at `x`.
    spec fn get_spec(&self, x: I) -> Self::Output;

    #[verifier::when_used_as_spec(get_spec)]
    fn get(&self, x: I) -> (y: Self::Output)
        ensures
            y == self.get_spec(x),
    ;
}

/// Something that knows its own derivative, as another expression.
pub trait Differentiable<I> {
    type Derivative;

    /// The derivative, as an expression.
    spec fn derivative_spec(&self) -> Func<Self::Derivative>;

    #[verifier::when_used_as_spec(derivative_spec)]
    fn derivative(&self) -> (d: Func<Self::Derivative>)
        ensures
            d == self.derivative_spec(),
    ;
}

/// An expression: a node, wrapped so that it takes the arithmetic operators
/// and the combinators below.
#[derive(Debug, Copy, Clone)]
pub struct Func<T>(pub T);

impl<F> Func<F> {
    pub open spec fn get_spec<I>(&self, x: I) -> F::Output where F: Function<I> {
        self.0.get(x)
    }

    /// The value of the expression at `x`.
    #[verifier::when_used_as_spec(get_spec)]
    pub fn get<I>(&self, x: I) -> (y: F::Output) where F: Function<I>
        ensures
            y == self.0.get(x),
    {
        self.0.get(x)
    }

    pub open spec fn derivative_spec<I>(&self) -> Func<F::Derivative> where F: Differentiable<I> {
        self.0.derivative()
    }

    /// The derivative of the expression.
    #[verifier::when_used_as_spec(derivative_spec)]
    pub fn derivative<I>(&self) -> (d: Func<F::Derivative>) where F: Differentiable<I>
        ensures
            d == self.0.derivative(),
    {
        self.0.derivative()
    }

    /// The expression that `f` builds from the identity.
    pub fn make<G: FnOnce(Func<Identity>) -> Func<F>>(f: G) -> (r: Self)
        requires
            f.requires((Func(Identity),)),
        ensures
            f.ensures((Func(Identity),), r),
    {
        f(Func(Identity))
    }

    /// The sum of `self` and `other`.
    pub fn add<R: IntoFunc>(self, other: R) -> (r: Func<Sum<F, R::Type>>)
        ensures
            r == Func(Sum(self.0, other.into_func().0)),
    {
        Func(Sum(self.0, other.into_func().0))
    }

    /// The difference of `self` and `other`.
    pub fn sub<R: IntoFunc>(self, other: R) -> (r: Func<Difference<F, R::Type>>)
        ensures
            r == Func(Difference(self.0, other.into_func().0)),
    {
        Func(Difference(self.0, other.into_func().0))
    }

    /// The product of `self` and `other`.
    pub fn mul<R: IntoFunc>(self, other: R) -> (r: Func<Product<F, R::Type>>)
        ensures
            r == Func(Product(self.0, other.into_func().0)),
    {
        Func(Product(self.0, other.into_func().0))
    }

    /// The quotient of `self` by `other`.
    pub fn div<R: IntoFunc>(self, other: R) -> (r: Func<Division<F, R::Type>>)
        ensures
            r == Func(Division(self.0, other.into_func().0)),
    {
        Func(Division(self.0, other.into_func().0))
    }

    /// The opposite of `self`.
    pub fn neg(self) -> (r: Func<Negative<F>>)
        ensures
            r == Func(Negative(self.0)),
    {
        Func(Negative(self.0))
    }

    /// `self` after `other`: the expression `x -> self(other(x))`.
    pub fn compose<R>(self, other: Func<R>) -> (r: Func<Composition<F, R>>)
        ensures
            r == Func(Composition(self.0, other.0)),
    {
        Func(Composition(self.0, other.0))
    }

    pub fn exp(self) -> (r: Func<Composition<Exp, F>>)
        ensures
            r == Func(Composition(Exp, self.0)),
    {
        Func(Exp).compose(self)
    }

    pub fn ln(self) -> (r: Func<Composition<Ln, F>>)
        ensures
            r == Func(Composition(Ln, self.0)),
    {
        Func(Ln).compose(self)
    }

    /// The logarithm of `self` in the base `base`: `ln(self) / ln(base)`.
    pub fn log<B>(self, base: Func<B>) -> (r: Func<
        Division<Composition<Ln, F>, Composition<Ln, B>>,
    >)
        ensures
            r == Func(Division(Composition(Ln, self.0), Composition(Ln, base.0))),
    {
        self.ln().div(base.ln())
    }

    pub fn squared(self) -> (r: Func<Composition<Squared, F>>)
        ensures
            r == Func(Composition(Squared, self.0)),
    {
        Func(Squared).compose(self)
    }

    pub fn sqrt(self) -> (r: Func<Composition<Sqrt, F>>)
        ensures
            r == Func(Composition(Sqrt, self.0)),
    {
        Func(Sqrt).compose(self)
    }

    /// `self` raised to the fixed power `exponent`.
    pub fn pow_const<E>(self, exponent: E) -> (r: Func<Composition<PowConst<E>, F>>)
        ensures
            r == Func(Composition(PowConst(exponent), self.0)),
    {
        Func(PowConst(exponent)).compose(self)
    }

    /// `self` raised to the power `other`, itself an expression.
    pub fn pow<R>(self, other: Func<R>) -> (r: Func<Power<F, R>>)
        ensures
            r == Func(Power(self.0, other.0)),
    {
        Func(Power(self.0, other.0))
    }

    /// The reciprocal of `self`.
    pub fn inv(self) -> (r: Func<Inverse<F>>)
        ensures
            r == Func(Inverse(self.0)),
    {
        Func(Inverse(self.0))
    }

    pub fn sin(self) -> (r: Func<Composition<Sin, F>>)
        ensures
            r == Func(Composition(Sin, self.0)),
    {
        Func(Sin).compose(self)
    }

    pub fn cos(self) -> (r: Func<Composition<Cos, F>>)
        ensures
            r == Func(Composition(Cos, self.0)),
    {
        Func(Cos).compose(self)
    }

    pub fn tan(self) -> (r: Func<Composition<Tan, F>>)
        ensures
            r == Func(Composition(Tan, self.0)),
    {
        Func(Tan).compose(self)
    }
}

/// What can stand as the second operand of `+`, `-`, `*` and `/`, and of the
/// methods of the same meaning.
pub trait IntoFunc {
    type Type;

    spec fn into_func_spec(self) -> Func<Self::Type>;

    #[verifier::when_used_as_spec(into_func_spec)]
    fn into_func(self) -> (f: Func<Self::Type>)
        ensures
            f == self.into_func_spec(),
    ;
}

impl<T> IntoFunc for Func<T> {
    type Type = T;

    open spec fn into_func_spec(self) -> Func<T> {
        self
    }

    fn into_func(self) -> (f: Func<T>) {
        self
    }
}

/// `self + other`, as an expression.
impl<L, R: IntoFunc> core::ops::Add<R> for Func<L> {
    type Output = Func<Sum<L, R::Type>>;

    fn add(self, other: R) -> (r: Func<Sum<L, R::Type>>) {
        Func(Sum(self.0, other.into_func().0))
    }
}

impl<L, R: IntoFunc> AddSpecImpl<R> for Func<L> {
    open spec fn obeys_add_spec() -> bool {
        true
    }

    open spec fn add_req(self, other: R) -> bool {
        true
    }

    open spec fn add_spec(self, other: R) -> Func<Sum<L, R::Type>> {
        Func(Sum(self.0, other.into_func_spec().0))
    }
}

/// `self - other`, as an expression.
impl<L, R: IntoFunc> core::ops::Sub<R> for Func<L> {
    type Output = Func<Difference<L, R::Type>>;

    fn sub(self, other: R) -> (r: Func<Difference<L, R::Type>>) {
        Func(Difference(self.0, other.into_func().0))
    }
}

impl<L, R: IntoFunc> SubSpecImpl<R> for Func<L> {
    open spec fn obeys_sub_spec() -> bool {
        true
    }

    open spec fn sub_req(self, other: R) -> bool {
        true
    }

    open spec fn sub_spec(self, other: R) -> Func<Difference<L, R::Type>> {
        Func(Difference(self.0, other.into_func_spec().0))
    }
}

/// `self * other`, as an expression.
impl<L, R: IntoFunc> core::ops::Mul<R> for Func<L> {
    type Output = Func<Product<L, R::Type>>;

    fn mul(self, other: R) -> (r: Func<Product<L, R::Type>>) {
        Func(Product(self.0, other.into_func().0))
    }
}

impl<L, R: IntoFunc> MulSpecImpl<R> for Func<L> {
    open spec fn obeys_mul_spec() -> bool {
        true
    }

    open spec fn mul_req(self, other: R) -> bool {
        true
    }

    open spec fn mul_spec(self, other: R) -> Func<Product<L, R::Type>> {
        Func(Product(self.0, other.into_func_spec().0))
    }
}

/// `self / other`, as an expression.
impl<L, R: IntoFunc> core::ops::Div<R> for Func<L> {
    type Output = Func<Division<L, R::Type>>;

    fn div(self, other: R) -> (r: Func<Division<L, R::Type>>) {
        Func(Division(self.0, other.into_func().0))
    }
}

impl<L, R: IntoFunc> DivSpecImpl<R> for Func<L> {
    open spec fn obeys_div_spec() -> bool {
        true
    }

    open spec fn div_req(self, other: R) -> bool {
        true
    }

    open spec fn div_spec(self, other: R) -> Func<Division<L, R::Type>> {
        Func(Division(self.0, other.into_func_spec().0))
    }
}

/// `-self`, as an expression.
impl<F> core::ops::Neg for Func<F> {
    type Output = Func<Negative<F>>;

    fn neg(self) -> (r: Func<Negative<F>>) {
        Func(Negative(self.0))
    }
}

impl<F> NegSpecImpl for Func<F> {
    open spec fn obeys_neg_spec() -> bool {
        true
    }

    open spec fn neg_req(self) -> bool {
        true
    }

    open spec fn neg_spec(self) -> Func<Negative<F>> {
        Func(Negative(self.0))
    }
}

/// The expression with the same value everywhere.
#[derive(Debug, Copy, Clone)]
pub struct Constant<T>(pub T);

impl<T> Func<Constant<T>> {
    pub fn constant(value: T) -> (r: Self)
        ensures
            r == Func(Constant(value)),
    {
        Func(Constant(value))
    }
}

impl<I, O: Copy> Function<I> for Constant<O> {
    type Output = O;

    open spec fn get_spec(&self, x: I) -> O {
        self.0
    }

    fn get(&self, x: I) -> (y: O) {
        self.0
    }
}

impl<I, O: Number> Differentiable<I> for Constant<O> {
    type Derivative = Constant<O>;

    /// The constant zero.
    open spec fn derivative_spec(&self) -> Func<Constant<O>> {
        Func(Constant(O::zero()))
    }

    fn derivative(&self) -> (d: Func<Constant<O>>) {
        Func::constant(O::zero())
    }
}

/// The expression `x -> x`.
#[derive(Debug, Copy, Clone)]
pub struct Identity;

impl Default for Func<Identity> {
    fn default() -> (r: Self)
        ensures
            r == Func(Identity),
    {
        Func(Identity)
    }
}

impl<T> Function<T> for Identity {
    type Output = T;

    open spec fn get_spec(&self, x: T) -> T {
        x
    }

    fn get(&self, x: T) -> (y: T) {
        x
    }
}

impl<T: Number> Differentiable<T> for Identity {
    type Derivative = Constant<T>;

    /// The constant one.
    open spec fn derivative_spec(&self) -> Func<Constant<T>> {
        Func(Constant(T::one()))
    }

    fn derivative(&self) -> (d: Func<Constant<T>>) {
        Func::constant(T::one())
    }
}

/// The sum of two expressions.
#[derive(Debug, Copy, Clone)]
pub struct Sum<A, B>(pub A, pub B);

impl<I: Copy, A, B> Function<I> for Sum<A, B> where
    A: Function<I>,
    B: Function<I, Output = A::Output>,
    A::Output: Number,
 {
    type Output = A::Output;

    open spec fn get_spec(&self, x: I) -> A::Output {
        self.0.get(x).add(self.1.get(x))
    }

    fn get(&self, x: I) -> (y: A::Output) {
        self.0.get(x).add(self.1.get(x))
    }
}

impl<I, A, B> Differentiable<I> for Sum<A, B> where A: Differentiable<I>, B: Differentiable<I> {
    type Derivative = Sum<A::Derivative, B::Derivative>;

    /// `(a + b)' = a' + b'`.
    open spec fn derivative_spec(&self) -> Func<Self::Derivative> {
        Func(Sum(self.0.derivative().0, self.1.derivative().0))
    }

    fn derivative(&self) -> (d: Func<Self::Derivative>) {
        self.0.derivative().add(self.1.derivative())
    }
}

/// The difference of two expressions.
#[derive(Debug, Copy, Clone)]
pub struct Difference<A, B>(pub A, pub B);

impl<I: Copy, A, B> Function<I> for Difference<A, B> where
    A: Function<I>,
    B: Function<I, Output = A::Output>,
    A::Output: Number,
 {
    type Output = A::Output;

    open spec fn get_spec(&self, x: I) -> A::Output {
        self.0.get(x).sub(self.1.get(x))
    }

    fn get(&self, x: I) -> (y: A::Output) {
        self.0.get(x).sub(self.1.get(x))
    }
}

impl<I, A, B> Differentiable<I> for Difference<A, B> where
    A: Differentiable<I>,
    B: Differentiable<I>,
 {
    type Derivative = Difference<A::Derivative, B::Derivative>;

    /// `(a - b)' = a' - b'`.
    open spec fn derivative_spec(&self) -> Func<Self::Derivative> {
        Func(Difference(self.0.derivative().0, self.1.derivative().0))
    }

    fn derivative(&self) -> (d: Func<Self::Derivative>) {
        self.0.derivative().sub(self.1.derivative())
    }
}

/// The opposite of an expression.
#[derive(Debug, Copy, Clone)]
pub struct Negative<T>(pub T);

impl<I, T> Function<I> for Negative<T> where T: Function<I>, T::Output: Number {
    type Output = T::Output;

    open spec fn get_spec(&self, x: I) -> T::Output {
        self.0.get(x).neg()
    }

    fn get(&self, x: I) -> (y: T::Output) {
        self.0.get(x).neg()
    }
}

impl<I, T: Differentiable<I>> Differentiable<I> for Negative<T> {
    type Derivative = Negative<T::Derivative>;

    /// `(-a)' = -a'`.
    open spec fn derivative_spec(&self) -> Func<Self::Derivative> {
        Func(Negative(self.0.derivative().0))
    }

    fn derivative(&self) -> (d: Func<Self::Derivative>) {
        self.0.derivative().neg()
    }
}

/// The product of two expressions.
#[derive(Debug, Copy, Clone)]
pub struct Product<A, B>(pub A, pub B);

impl<I: Copy, A, B> Function<I> for Product<A, B> where
    A: Function<I>,
    B: Function<I, Output = A::Output>,
    A::Output: Number,
 {
    type Output = A::Output;

    open spec fn get_spec(&self, x: I) -> A::Output {
        self.0.get(x).mul(self.1.get(x))
    }

    fn get(&self, x: I) -> (y: A::Output) {
        self.0.get(x).mul(self.1.get(x))
    }
}

impl<I, A, B> Differentiable<I> for Product<A, B> where
    A: Differentiable<I> + Copy,
    B: Differentiable<I> + Copy,
 {
    type Derivative = Sum<Product<A::Derivative, B>, Product<A, B::Derivative>>;

    /// `(a * b)' = a' * b + a * b'`.
    open spec fn derivative_spec(&self) -> Func<Self::Derivative> {
        Func(Sum(Product(self.0.derivative().0, self.1), Product(self.0, self.1.derivative().0)))
    }

    fn derivative(&self) -> (d: Func<Self::Derivative>) {
        self.0.derivative().mul(Func(self.1)).add(Func(self.0).mul(self.1.derivative()))
    }
}

/// The quotient of two expressions.
#[derive(Debug, Copy, Clone)]
pub struct Division<A, B>(pub A, pub B);

impl<I: Copy, A, B> Function<I> for Division<A, B> where
    A: Function<I>,
    B: Function<I, Output = A::Output>,
    A::Output: Number,
 {
    type Output = A::Output;

    open spec fn get_spec(&self, x: I) -> A::Output {
        self.0.get(x).div(self.1.get(x))
    }

    fn get(&self, x: I) -> (y: A::Output) {
        self.0.get(x).div(self.1.get(x))
    }
}

impl<I, A, B> Differentiable<I> for Division<A, B> where
    A: Differentiable<I> + Copy,
    B: Differentiable<I> + Copy,
 {
    type Derivative = Division<
        Difference<Product<A::Derivative, B>, Product<A, B::Derivative>>,
        Product<B, B>,
    >;

    /// `(a / b)' = (a' * b - a * b') / (b * b)`.
    open spec fn derivative_spec(&self) -> Func<Self::Derivative> {
        Func(
            Division(
                Difference(
                    Product(self.0.derivative().0, self.1),
                    Product(self.0, self.1.derivative().0),
                ),
                Product(self.1, self.1),
            ),
        )
    }

    fn derivative(&self) -> (d: Func<Self::Derivative>) {
        let numerator = self.0.derivative().mul(Func(self.1)).sub(
            Func(self.0).mul(self.1.derivative()),
        );
        numerator.div(Func(self.1).mul(Func(self.1)))
    }
}

/// The reciprocal of an expression.
#[derive(Debug, Copy, Clone)]
pub struct Inverse<T>(pub T);

impl<I, T> Function<I> for Inverse<T> where T: Function<I>, T::Output: Number {
    type Output = T::Output;

    open spec fn get_spec(&self, x: I) -> T::Output {
        self.0.get(x).inv()
    }

    fn get(&self, x: I) -> (y: T::Output) {
        self.0.get(x).inv()
    }
}

impl<I, T> Differentiable<I> for Inverse<T> where T: Differentiable<I> + Copy {
    type Derivative = Negative<Division<T::Derivative, Product<T, T>>>;

    /// `(1 / a)' = -(a' / (a * a))`.
    open spec fn derivative_spec(&self) -> Func<Self::Derivative> {
        Func(Negative(Division(self.0.derivative().0, Product(self.0, self.0))))
    }

    fn derivative(&self) -> (d: Func<Self::Derivative>) {
        self.0.derivative().div(Func(self.0).mul(Func(self.0))).neg()
    }
}

/// The first expression after the second: `x -> a(b(x))`.
#[derive(Debug, Copy, Clone)]
pub struct Composition<A, B>(pub A, pub B);

impl<I, A, B> Function<I> for Composition<A, B> where B: Function<I>, A: Function<B::Output> {
    type Output = A::Output;

    open spec fn get_spec(&self, x: I) -> A::Output {
        self.0.get(self.1.get(x))
    }

    fn get(&self, x: I) -> (y: A::Output) {
        self.0.get(self.1.get(x))
    }
}

impl<I, A, B> Differentiable<I> for Composition<A, B> where
    B: Function<I> + Differentiable<I> + Copy,
    A: Differentiable<B::Output>,
 {
    type Derivative = Product<B::Derivative, Composition<A::Derivative, B>>;

    /// The chain rule: `(a after b)' = b' * (a' after b)`.
    open spec fn derivative_spec(&self) -> Func<Self::Derivative> {
        Func(Product(self.1.derivative().0, Composition(self.0.derivative().0, self.1)))
    }

    fn derivative(&self) -> (d: Func<Self::Derivative>) {
        self.1.derivative().mul(self.0.derivative().compose(Func(self.1)))
    }
}

/// The exponential function.
#[derive(Debug, Copy, Clone)]
pub struct Exp;

impl<I: ExpTrait> Function<I> for Exp {
    type Output = I;

    open spec fn get_spec(&self, x: I) -> I {
        x.exp()
    }

    fn get(&self, x: I) -> (y: I) {
        x.exp()
    }
}

impl<I> Differentiable<I> for Exp {
    type Derivative = Exp;

    /// `exp' = exp`.
    open spec fn derivative_spec(&self) -> Func<Exp> {
        Func(Exp)
    }

    fn derivative(&self) -> (d: Func<Exp>) {
        Func(Exp)
    }
}

/// The natural logarithm.
#[derive(Debug, Copy, Clone)]
pub struct Ln;

impl<I: ExpTrait> Function<I> for Ln {
    type Output = I;

    open spec fn get_spec(&self, x: I) -> I {
        x.ln()
    }

    fn get(&self, x: I) -> (y: I) {
        x.ln()
    }
}

impl<I> Differentiable<I> for Ln {
    type Derivative = Inverse<Identity>;

    /// `ln' = 1 / x`.
    open spec fn derivative_spec(&self) -> Func<Inverse<Identity>> {
        Func(Inverse(Identity))
    }

    fn derivative(&self) -> (d: Func<Inverse<Identity>>) {
        Func(Identity).inv()
    }
}

/// The square.
#[derive(Debug, Copy, Clone)]
pub struct Squared;

impl<I: ExpTrait> Function<I> for Squared {
    type Output = I;

    open spec fn get_spec(&self, x: I) -> I {
        x.squared()
    }

    fn get(&self, x: I) -> (y: I) {
        x.squared()
    }
}

impl<I: Number> Differentiable<I> for Squared {
    type Derivative = Product<Constant<I>, Identity>;

    /// `(x * x)' = 2 * x`.
    open spec fn derivative_spec(&self) -> Func<Self::Derivative> {
        Func(Product(Constant(I::from_decimal(2, 0)), Identity))
    }

    fn derivative(&self) -> (d: Func<Self::Derivative>) {
        Func::constant(I::from_decimal(2, 0)).mul(Func(Identity))
    }
}

/// The square root.
#[derive(Debug, Copy, Clone)]
pub struct Sqrt;

impl<I: ExpTrait> Function<I> for Sqrt {
    type Output = I;

    open spec fn get_spec(&self, x: I) -> I {
        x.sqrt()
    }

    fn get(&self, x: I) -> (y: I) {
        x.sqrt()
    }
}

impl<I: Number> Differentiable<I> for Sqrt {
    type Derivative = Division<Constant<I>, Sqrt>;

    /// `sqrt' = 0.5 / sqrt`.
    open spec fn derivative_spec(&self) -> Func<Self::Derivative> {
        Func(Division(Constant(I::from_decimal(5, -1i32)), Sqrt))
    }

    fn derivative(&self) -> (d: Func<Self::Derivative>) {
        Func::constant(I::from_decimal(5, -1)).div(Func(Sqrt))
    }
}

/// The power with a fixed exponent, `x -> x^e`.
#[derive(Debug, Copy, Clone)]
pub struct PowConst<E>(pub E);

impl<E: ExpTrait + Copy> Function<E> for PowConst<E> {
    type Output = E;

    open spec fn get_spec(&self, x: E) -> E {
        x.pow(self.0)
    }

    fn get(&self, x: E) -> (y: E) {
        x.pow(self.0)
    }
}

impl<E: Number> Differentiable<E> for PowConst<E> {
    type Derivative = Product<Constant<E>, PowConst<E>>;

    /// `(x^e)' = e * x^(e - 1)`.
    open spec fn derivative_spec(&self) -> Func<Self::Derivative> {
        Func(Product(Constant(self.0), PowConst(self.0.sub(E::one()))))
    }

    fn derivative(&self) -> (d: Func<Self::Derivative>) {
        Func::constant(self.0).mul(Func(PowConst(self.0.sub(E::one()))))
    }
}

/// One expression raised to the power of another.
#[derive(Debug, Copy, Clone)]
pub struct Power<B, E>(pub B, pub E);

impl<I: Copy, B, E> Function<I> for Power<B, E> where
    B: Function<I>,
    E: Function<I, Output = B::Output>,
    B::Output: ExpTrait,
 {
    type Output = B::Output;

    open spec fn get_spec(&self, x: I) -> B::Output {
        self.0.get(x).pow(self.1.get(x))
    }

    fn get(&self, x: I) -> (y: B::Output) {
        self.0.get(x).pow(self.1.get(x))
    }
}

impl<I, B, E> Differentiable<I> for Power<B, E> where
    B: Differentiable<I> + Copy,
    E: Differentiable<I> + Copy,
 {
    type Derivative = Product<
        Power<B, E>,
        Sum<Product<E::Derivative, Composition<Ln, B>>, Product<E, Division<B::Derivative, B>>>,
    >;

    /// By logarithmic differentiation:
    /// `(b^e)' = b^e * (e' * ln(b) + e * (b' / b))`.
    open spec fn derivative_spec(&self) -> Func<Self::Derivative> {
        Func(
            Product(
                *self,
                Sum(
                    Product(self.1.derivative().0, Composition(Ln, self.0)),
                    Product(self.1, Division(self.0.derivative().0, self.0)),
                ),
            ),
        )
    }

    fn derivative(&self) -> (d: Func<Self::Derivative>) {
        let growth = self.1.derivative().mul(Func(self.0).ln()).add(
            Func(self.1).mul(self.0.derivative().div(Func(self.0))),
        );
        Func(*self).mul(growth)
    }
}

/// The sine.
#[derive(Debug, Copy, Clone)]
pub struct Sin;

impl<I: Trigo> Function<I> for Sin {
    type Output = I;

    open spec fn get_spec(&self, x: I) -> I {
        x.sin()
    }

    fn get(&self, x: I) -> (y: I) {
        x.sin()
    }
}

impl<I> Differentiable<I> for Sin {
    type Derivative = Cos;

    /// `sin' = cos`.
    open spec fn derivative_spec(&self) -> Func<Cos> {
        Func(Cos)
    }

    fn derivative(&self) -> (d: Func<Cos>) {
        Func(Cos)
    }
}

/// The cosine.
#[derive(Debug, Copy, Clone)]
pub struct Cos;

impl<I: Trigo> Function<I> for Cos {
    type Output = I;

    open spec fn get_spec(&self, x: I) -> I {
        x.cos()
    }

    fn get(&self, x: I) -> (y: I) {
        x.cos()
    }
}

impl<I> Differentiable<I> for Cos {
    type Derivative = Negative<Sin>;

    /// `cos' = -sin`.
    open spec fn derivative_spec(&self) -> Func<Negative<Sin>> {
        Func(Negative(Sin))
    }

    fn derivative(&self) -> (d: Func<Negative<Sin>>) {
        Func(Sin).neg()
    }
}

/// The tangent, of a real number.
#[derive(Debug, Copy, Clone)]
pub struct Tan;

impl<I: Real> Function<I> for Tan {
    type Output = I;

    open spec fn get_spec(&self, x: I) -> I {
        x.tan()
    }

    fn get(&self, x: I) -> (y: I) {
        x.tan()
    }
}

impl<I> Differentiable<I> for Tan {
    type Derivative = Inverse<Product<Cos, Cos>>;

    /// `tan' = 1 / (cos * cos)`.
    open spec fn derivative_spec(&self) -> Func<Self::Derivative> {
        Func(Inverse(Product(Cos, Cos)))
    }

    fn derivative(&self) -> (d: Func<Self::Derivative>) {
        Func(Cos).mul(Func(Cos)).inv()
    }
}

/// The sum rule: the derivative of a sum, evaluated, is the sum of the
/// derivatives, evaluated.
pub proof fn lemma_sum_rule<I: Copy, A, B>(a: A, b: B, x: I) where
    A: Function<I> + Differentiable<I>,
    B: Function<I, Output = A::Output> + Differentiable<I>,
    A::Output: Number,
    A::Derivative: Function<I, Output = A::Output>,
    B::Derivative: Function<I, Output = A::Output>,

    ensures
        Sum(a, b).derivative().0.get(x) == a.derivative().0.get(x).add(b.derivative().0.get(x)),
        Difference(a, b).derivative().0.get(x) == a.derivative().0.get(x).sub(
            b.derivative().0.get(x),
        ),
{
}

/// The product rule: `(a * b)'(x) = a'(x) * b(x) + a(x) * b'(x)`.
pub proof fn lemma_product_rule<I: Copy, A, B>(a: A, b: B, x: I) where
    A: Function<I> + Differentiable<I> + Copy,
    B: Function<I, Output = A::Output> + Differentiable<I> + Copy,
    A::Output: Number,
    A::Derivative: Function<I, Output = A::Output>,
    B::Derivative: Function<I, Output = A::Output>,

    ensures
        Product(a, b).derivative().0.get(x) == a.derivative().0.get(x).mul(b.get(x)).add(
            a.get(x).mul(b.derivative().0.get(x)),
        ),
{
}

/// The quotient rule:
/// `(a / b)'(x) = (a'(x) * b(x) - a(x) * b'(x)) / (b(x) * b(x))`.
pub proof fn lemma_quotient_rule<I: Copy, A, B>(a: A, b: B, x: I) where
    A: Function<I> + Differentiable<I> + Copy,
    B: Function<I, Output = A::Output> + Differentiable<I> + Copy,
    A::Output: Number,
    A::Derivative: Function<I, Output = A::Output>,
    B::Derivative: Function<I, Output = A::Output>,

    ensures
        Division(a, b).derivative().0.get(x) == a.derivative().0.get(x).mul(b.get(x)).sub(
            a.get(x).mul(b.derivative().0.get(x)),
        ).div(b.get(x).mul(b.get(x))),
        Inverse(a).derivative().0.get(x) == a.derivative().0.get(x).div(
            a.get(x).mul(a.get(x)),
        ).neg(),
{
}

/// The chain rule: `(a after b)'(x) = b'(x) * a'(b(x))`.
pub proof fn lemma_chain_rule<I: Copy, A, B>(a: A, b: B, x: I) where
    B: Function<I> + Differentiable<I> + Copy,
    A: Function<B::Output, Output = B::Output> + Differentiable<B::Output>,
    B::Output: Number,
    A::Derivative: Function<B::Output, Output = B::Output>,
    B::Derivative: Function<I, Output = B::Output>,

    ensures
        Composition(a, b).derivative().0.get(x) == b.derivative().0.get(x).mul(
            a.derivative().0.get(b.get(x)),
        ),
{
}

/// The derivatives of the elementary functions, evaluated: of the
/// exponential, the logarithm, the square, the sine and the cosine.
pub proof fn lemma_elementary_derivatives<I: Number + ExpTrait + Trigo>(x: I)
    ensures
        Differentiable::<I>::derivative(&Exp).0.get(x) == x.exp(),
        Differentiable::<I>::derivative(&Ln).0.get(x) == x.inv(),
        Differentiable::<I>::derivative(&Squared).0.get(x) == I::from_decimal(2, 0).mul(x),
        Differentiable::<I>::derivative(&Sin).0.get(x) == x.cos(),
        Differentiable::<I>::derivative(&Cos).0.get(x) == x.sin().neg(),
        Differentiable::<I>::derivative(&Identity).0.get(x) == I::one(),
        Differentiable::<I>::derivative(&Constant(x)).0.get(x) == I::zero(),
{
}

} // verus!
