use vstd::prelude::*;

verus! {

/// Relies on `String::push`: the character is appended at the end.
#[verifier::external_body]
pub(crate) fn push_char(s: &mut String, c: char)
    ensures
        final(s)@ == old(s)@.push(c),
{
    s.push(c)
}

/// The paint buffer: everything that one screen refresh writes, gathered
/// so that it can be handed to the terminal in a single write.
pub struct EditorContent {
    content: String,
}

impl View for EditorContent {
    type V = Seq<char>;

    closed spec fn view(&self) -> Seq<char> {
        self.content@
    }
}

impl EditorContent {
    pub fn new() -> (r: EditorContent)
        ensures
            r@ == Seq::<char>::empty(),
    {
        EditorContent { content: String::new() }
    }

    pub fn push(&mut self, c: char)
        ensures
            final(self)@ == old(self)@.push(c),
    {
        push_char(&mut self.content, c)
    }

    pub fn push_str(&mut self, string: &str)
        ensures
            final(self)@ == old(self)@ + string@,
    {
        self.content.append(string)
    }

    /// The text gathered so far.
    pub fn as_str(&self) -> (r: &str)
        ensures
            r@ == self@,
    {
        self.content.as_str()
    }

    /// Empties the buffer, once its text has been written out.
    pub fn clear(&mut self)
        ensures
            final(self)@ == Seq::<char>::empty(),
    {
        self.content = String::new();
    }
}

} // verus!
