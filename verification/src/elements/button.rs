//! The single-child button and its click-handler slot.

use vstd::prelude::*;
use crate::fragment::Fragment;
use crate::view::ItemView;
use crate::view::ViewNode;

verus! {

/// An installed click handler: a zero-argument callable owned by the button
/// and run at most once, by the external event dispatcher. The callable
/// itself is opaque to this crate.
#[verifier::external_body]
pub struct Handler {
    callable: Box<dyn FnOnce() + 'static>,
}

impl Handler {
    /// Relies on `Box::new` from std: the handler owns exactly the callable
    /// handed in, and `invoke` later runs it. The callable must be callable
    /// with no arguments.
    #[verifier::external_body]
    pub fn new<F: FnOnce() + 'static>(f: F) -> (h: Handler)
        requires
            call_requires(f, ()),
    {
        Handler { callable: Box::new(f) }
    }

    /// Relies on `FnOnce::call_once` from std: consumes the slot, so the
    /// callable runs exactly once per installation.
    #[verifier::external_body]
    pub fn invoke(self) {
        (self.callable)()
    }
}

/// A single-child container with an optional click handler. The most recent
/// `set_item` child and the most recent `onclick` handler win.
pub struct Button {
    pub frag: Fragment,
    pub handler: Option<Handler>,
}

impl Button {
    /// Whether a click handler is installed.
    pub open spec fn handler_installed(&self) -> bool {
        self.handler is Some
    }

    /// A button with the default style, no child and no handler.
    pub fn new() -> (b: Button)
        ensures
            b.frag_spec().style == crate::style::Style::default_spec(),
            b.frag_spec().items@ == Seq::<crate::elements::Element>::empty(),
            b.frag_spec().id@ == Seq::<char>::empty(),
            !b.handler_installed(),
    {
        Button { frag: Fragment::default(), handler: None }
    }

    /// Installs `f` as the click handler, overwriting any previous one.
    pub fn onclick<F: FnOnce() + 'static>(self, f: F) -> (r: Button)
        requires
            call_requires(f, ()),
        ensures
            r.frag_spec() == self.frag_spec(),
            r.handler_installed(),
    {
        Button { handler: Some(Handler::new(f)), ..self }
    }

    /// Replaces the unique child, keeping the handler slot; a shorter
    /// spelling of `set_item`.
    pub fn item(self, item: crate::elements::Element) -> (r: Button)
        ensures
            r.frag_spec().items@ == seq![item],
            r.frag_spec().style == self.frag_spec().style,
            r.frag_spec().id == self.frag_spec().id,
            r.handler_installed() == self.handler_installed(),
    {
        self.set_item(item)
    }

    /// Hands the installed handler, if any, to the event dispatcher,
    /// consuming the button.
    pub fn into_handler(self) -> (h: Option<Handler>)
        ensures
            h == self.handler,
            h is Some <==> self.handler_installed(),
    {
        self.handler
    }
}

impl Default for Button {
    /// The default button: default style, no child, no handler.
    fn default() -> (b: Button)
        ensures
            b.frag_spec().style == crate::style::Style::default_spec(),
            b.frag_spec().items@ == Seq::<crate::elements::Element>::empty(),
            b.frag_spec().id@ == Seq::<char>::empty(),
            !b.handler_installed(),
    {
        Button::new()
    }
}

impl ViewNode for Button {
    open spec fn frag_spec(&self) -> Fragment {
        self.frag
    }

    open spec fn with_frag(&self, f: Fragment) -> Button {
        Button { frag: f, handler: self.handler }
    }

    fn frag(&self) -> (f: &Fragment) {
        &self.frag
    }

    fn frag_mut(&mut self) -> (f: &mut Fragment) {
        &mut self.frag
    }
}

impl ItemView for Button {

}

} // verus!
