use vstd::prelude::*;

verus! {

/// A comment found while parsing, with the byte span of its token.
#[derive(Debug, Clone, Copy, PartialEq, Eq, PartialOrd, Ord, Hash)]
pub struct Comment<'s> {
    pub start: usize,
    pub end: usize,
    pub value: &'s str,
}

/// What a [`Comment`] holds, with its text as a sequence of characters.
pub struct CommentView {
    pub start: usize,
    pub end: usize,
    pub value: Seq<char>,
}

impl<'s> View for Comment<'s> {
    type V = CommentView;

    open spec fn view(&self) -> CommentView {
        CommentView { start: self.start, end: self.end, value: self.value@ }
    }
}

impl<'s> Comment<'s> {
    pub fn new(value: &'s str, start: usize, end: usize) -> (r: Self)
        ensures
            r@ == (CommentView { start, end, value: value@ }),
    {
        Self { value, start, end }
    }

    /// The text of the comment.
    pub fn text(&self) -> (r: &'s str)
        ensures
            r@ == self@.value,
    {
        self.value
    }
}

} // verus!
