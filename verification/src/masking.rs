//! Secret masking: a pluggable formatting policy for sensitive values, used
//! whenever a value must be rendered for diagnostics. A sensitive value is
//! wrapped in [`Secret`], whose only formatting path goes through a
//! [`Strategy`], so that authentication material and cardholder data can
//! never reach a log through an ordinary rendering.

use vstd::prelude::*;
use vstd::string::StringExecFns;

verus! {

/// A type that can report its own declared name, so that a masked rendering
/// may reveal the type of a hidden value without revealing its content.
pub trait TypeName {
    /// The declared name, as a sequence of characters.
    spec fn declared_name_spec() -> Seq<char>;

    /// The declared name of the type.
    fn declared_name() -> (r: String)
        ensures
            r@ == Self::declared_name_spec(),
    ;
}

/// A value whose ordinary display form is proven safe to emit unmasked:
/// identifiers and other non-secret values, never credentials.
pub trait SafeDisplay {
    /// The natural display form, as a sequence of characters.
    spec fn display_spec(&self) -> Seq<char>;

    /// The natural display form.
    fn display_string(&self) -> (r: String)
        ensures
            r@ == self.display_spec(),
    ;
}

impl TypeName for String {
    open spec fn declared_name_spec() -> Seq<char> {
        "String"@
    }

    fn declared_name() -> (r: String) {
        String::from_str("String")
    }
}

impl SafeDisplay for String {
    open spec fn display_spec(&self) -> Seq<char> {
        self@
    }

    fn display_string(&self) -> (r: String) {
        self.clone()
    }
}

/// A formatting policy for values rendered for diagnostics.
pub trait Strategy<T> {
    /// What the policy renders for a given value.
    spec fn rendered(value: &T) -> Seq<char>;

    /// Render the value under this policy.
    fn fmt(value: &T) -> (r: String)
        ensures
            r@ == Self::rendered(value),
    ;
}

/// Masks the content but reveals the declared type of the value:
/// `*** <type-name> ***`.
pub struct WithType;

/// Masks everything, the type included: `*** ***`.
pub struct WithoutType;

/// Renders the ordinary display form; permitted only for values whose type
/// is proven non-sensitive through [`SafeDisplay`].
pub struct NoMasking;

impl<T: TypeName> Strategy<T> for WithType {
    open spec fn rendered(value: &T) -> Seq<char> {
        "*** "@ + T::declared_name_spec() + " ***"@
    }

    fn fmt(value: &T) -> (r: String) {
        let mut s = String::from_str("*** ");
        let name = T::declared_name();
        s.append(name.as_str());
        s.append(" ***");
        s
    }
}

impl<T> Strategy<T> for WithoutType {
    open spec fn rendered(value: &T) -> Seq<char> {
        "*** ***"@
    }

    fn fmt(value: &T) -> (r: String) {
        String::from_str("*** ***")
    }
}

impl<T: SafeDisplay> Strategy<T> for NoMasking {
    open spec fn rendered(value: &T) -> Seq<char> {
        value.display_spec()
    }

    fn fmt(value: &T) -> (r: String) {
        value.display_string()
    }
}

/// A strategy that never lets the value's content through: the only kind a
/// [`Secret`] can be rendered with.
pub trait MaskedStrategy<T>: Strategy<T> {
}

impl<T: TypeName> MaskedStrategy<T> for WithType {
}

impl<T> MaskedStrategy<T> for WithoutType {
}

/// A sensitive value. The inner value can be used by the code that needs it
/// (through [`Secret::peek`]), but the only formatting path is
/// [`Secret::render`], which admits masking strategies alone: no caller can
/// render a `Secret` unmasked.
pub struct Secret<T> {
    inner: T,
}

impl<T> Secret<T> {
    /// The wrapped value.
    pub closed spec fn spec_inner(&self) -> T {
        self.inner
    }

    /// Wrap a sensitive value.
    pub fn new(value: T) -> (s: Self)
        ensures
            s.spec_inner() == value,
    {
        Self { inner: value }
    }

    /// Hand the wrapped value to code that is entitled to use it.
    pub fn peek(&self) -> (r: &T)
        ensures
            *r == self.spec_inner(),
    {
        &self.inner
    }

    /// Render the wrapped value for diagnostics under a masking strategy.
    pub fn render<S: MaskedStrategy<T>>(&self) -> (r: String)
        ensures
            r@ == S::rendered(&self.spec_inner()),
    {
        S::fmt(&self.inner)
    }
}

impl<T: Clone> Clone for Secret<T> {
    fn clone(&self) -> (r: Self) {
        Self { inner: self.inner.clone() }
    }
}

/// What a masking strategy renders never depends on the hidden value: under
/// `WithType` the rendering is a fixed string of the type alone, and under
/// `WithoutType` it is the fixed string `*** ***`. Under `NoMasking` the
/// rendering of a proven-safe value is exactly its natural display form.
pub proof fn lemma_masked_rendering_ignores_value<T: TypeName + SafeDisplay>(a: &T, b: &T)
    ensures
        <WithType as Strategy<T>>::rendered(a) == <WithType as Strategy<T>>::rendered(b),
        <WithoutType as Strategy<T>>::rendered(a) == <WithoutType as Strategy<T>>::rendered(b),
        <WithoutType as Strategy<T>>::rendered(a) == "*** ***"@,
        <NoMasking as Strategy<T>>::rendered(a) == a.display_spec(),
{
}

} // verus!
