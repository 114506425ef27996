use vstd::prelude::*;
use crate::components::widget::Widget;

verus! {

/// A widget that shows a text which can be replaced.
pub trait TextWidget<W, H>: Widget<W, H> {
    /// The text shown.
    spec fn text(&self) -> Seq<char>;

    /// Whether `next` is the state in which a widget in this state is left
    /// when it is given another text, `text`, to show.
    spec fn shows(&self, next: &Self, text: Seq<char>) -> bool;

    /// Set the text to be displayed.
    ///
    /// The text will be drawn on the next draw call. Returns `true` if the
    /// new text was different from the previous one; if it was not, nothing
    /// changes.
    fn set_text(&mut self, text: &str) -> (changed: bool)
        requires
            old(self).wf(),
        ensures
            final(self).wf(),
            changed == (old(self).text() != text@),
            final(self).text() == text@,
            !changed ==> *final(self) == *old(self),
            changed ==> old(self).shows(final(self), text@),
    ;
}

} // verus!
