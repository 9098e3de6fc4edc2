//! Input fields: typed, self-contained widgets usable standalone or inside a
//! form.
//!
//! Every field exposes the same capability set: a user-visible name, a
//! one-key-press input step, a one-or-more-line rendering, and access to the
//! value entered so far. Each field carries a ghost model, and its behaviour
//! is pinned by spec functions on that model. The concrete fields are peers
//! composed structurally; a form dispatches to whichever one holds the focus.

use vstd::prelude::*;
use crate::key::KeyEvent;
use crate::text::SpanView;
use crate::text::Text;

verus! {

/// What a field did with one key press. Forms move focus on `Up`/`Down` only
/// when the focused field reports `Ignored`, so a field that uses those keys
/// itself answers `Consumed` instead.
#[derive(Clone, Copy, Debug, Hash, PartialEq, Eq, Structural)]
pub enum InputResult {
    /// The key meant nothing to the field.
    Ignored,
    /// The key was used, but the value did not change (internal focus moved).
    Consumed,
    /// The key changed the field's value.
    Updated,
}

/// The capability set of an input field.
pub trait Field: Sized {
    /// The type of value the user enters.
    type Value;

    /// The builder the field is constructed through.
    type Builder;

    /// The ghost model of the field.
    type Model;

    /// The ghost model of the entered value.
    type ValueModel;

    /// The model of this field value.
    spec fn model(&self) -> Self::Model;

    /// The model of an entered value.
    spec fn value_model(v: Self::Value) -> Self::ValueModel;

    /// The field's name, read off the model.
    spec fn spec_name(m: Self::Model) -> Seq<char>;

    /// The model of [`Field::input`]: the updated field and what the key did.
    spec fn spec_input(m: Self::Model, key: KeyEvent) -> (Self::Model, InputResult);

    /// The model of [`Field::format`].
    spec fn spec_format(m: Self::Model, focused: bool) -> Seq<Seq<SpanView>>;

    /// The entered value, read off the model.
    spec fn spec_value(m: Self::Model) -> Self::ValueModel;

    /// The user-visible name displayed beside the field.
    fn name(&self) -> (r: &String)
        ensures
            r@ == Self::spec_name(self.model()),
    ;

    /// Consumes one key press.
    fn input(&mut self, key: KeyEvent) -> (r: InputResult)
        ensures
            (final(self).model(), r) == Self::spec_input(old(self).model(), key),
    ;

    /// Renders the field's current value, marking it focused or not.
    fn format(&self, focused: bool) -> (t: Text)
        ensures
            t@ == Self::spec_format(self.model(), focused),
    ;

    /// Borrows the value entered so far.
    fn value(&self) -> (r: &Self::Value)
        ensures
            Self::value_model(*r) == Self::spec_value(self.model()),
    ;

    /// Consumes the field, handing out the entered value.
    fn into_value(self) -> (r: Self::Value)
        ensures
            Self::value_model(r) == Self::spec_value(self.model()),
    ;

    /// Constructs the field's builder, with nothing set.
    fn builder() -> Self::Builder;
}

/// A builder that has everything it needs to produce its field.
pub trait Build: Sized {
    /// The field being built.
    type Output: Field;

    /// The model of the field this builder produces.
    spec fn spec_build(self) -> <Self::Output as Field>::Model;

    /// Consumes the builder and returns the field.
    fn build(self) -> (r: Self::Output)
        ensures
            r.model() == self.spec_build(),
    ;
}

} // verus!
