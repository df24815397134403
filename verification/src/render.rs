//! Values that have a text form.
use vstd::prelude::*;
use vstd::string::*;
use crate::decimal::signed_decimal_text;
use crate::integral::Integral;

verus! {

/// A value that can be written out as text: a string as it stands, an integer
/// in decimal.
pub trait Renderable {
    /// The text of the value.
    spec fn text(&self) -> Seq<char>;

    /// Appends the text of the value to `buf`.
    fn render_into(&self, buf: &mut String)
        ensures
            final(buf)@ == old(buf)@ + self.text(),
    ;
}

impl Renderable for &str {
    open spec fn text(&self) -> Seq<char> {
        (*self)@
    }

    fn render_into(&self, buf: &mut String) {
        buf.append(*self);
    }
}

impl Renderable for String {
    open spec fn text(&self) -> Seq<char> {
        self@
    }

    fn render_into(&self, buf: &mut String) {
        buf.append(self.as_str());
    }
}

impl<T: Integral> Renderable for T {
    open spec fn text(&self) -> Seq<char> {
        signed_decimal_text(self.value())
    }

    fn render_into(&self, buf: &mut String) {
        self.push_text(buf);
    }
}

} // verus!
