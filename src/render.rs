//! Values that have a textual rendering, and can therefore be styled.
use vstd::prelude::*;

use crate::decimal::{decimal, push_decimal, push_signed_decimal, signed_decimal};

verus! {

/// A value with a textual rendering.
pub trait Render {
    /// The text of the value.
    spec fn text(&self) -> Seq<char>;

    /// Appends the text of the value to `out`.
    fn render_into(&self, out: &mut String)
        ensures
            final(out)@ == old(out)@ + self.text(),
    ;
}

impl Render for str {
    open spec fn text(&self) -> Seq<char> {
        self@
    }

    fn render_into(&self, out: &mut String) {
        out.append(self);
    }
}

impl Render for String {
    open spec fn text(&self) -> Seq<char> {
        self@
    }

    fn render_into(&self, out: &mut String) {
        out.append(self.as_str());
    }
}

impl<'a, T: Render + ?Sized> Render for &'a T {
    open spec fn text(&self) -> Seq<char> {
        (**self).text()
    }

    fn render_into(&self, out: &mut String) {
        (**self).render_into(out);
    }
}

impl Render for bool {
    open spec fn text(&self) -> Seq<char> {
        if *self {
            "true"@
        } else {
            "false"@
        }
    }

    fn render_into(&self, out: &mut String) {
        if *self {
            out.append("true");
        } else {
            out.append("false");
        }
    }
}

impl Render for u8 {
    open spec fn text(&self) -> Seq<char> {
        decimal(*self as nat)
    }

    fn render_into(&self, out: &mut String) {
        push_decimal(out, *self as u64);
    }
}

impl Render for u16 {
    open spec fn text(&self) -> Seq<char> {
        decimal(*self as nat)
    }

    fn render_into(&self, out: &mut String) {
        push_decimal(out, *self as u64);
    }
}

impl Render for u32 {
    open spec fn text(&self) -> Seq<char> {
        decimal(*self as nat)
    }

    fn render_into(&self, out: &mut String) {
        push_decimal(out, *self as u64);
    }
}

impl Render for u64 {
    open spec fn text(&self) -> Seq<char> {
        decimal(*self as nat)
    }

    fn render_into(&self, out: &mut String) {
        push_decimal(out, *self);
    }
}

impl Render for usize {
    open spec fn text(&self) -> Seq<char> {
        decimal(*self as nat)
    }

    fn render_into(&self, out: &mut String) {
        push_decimal(out, *self as u64);
    }
}

impl Render for i32 {
    open spec fn text(&self) -> Seq<char> {
        signed_decimal(*self as int)
    }

    fn render_into(&self, out: &mut String) {
        push_signed_decimal(out, *self as i64);
    }
}

impl Render for i64 {
    open spec fn text(&self) -> Seq<char> {
        signed_decimal(*self as int)
    }

    fn render_into(&self, out: &mut String) {
        push_signed_decimal(out, *self);
    }
}

} // verus!
