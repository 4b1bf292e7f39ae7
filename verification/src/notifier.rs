//! A message for the desktop.

use vstd::prelude::*;

verus! {

#[derive(Debug)]
pub struct Notification {
    title: String,
    body: String,
    icon: String,
}

impl View for Notification {
    type V = (Seq<char>, Seq<char>, Seq<char>);

    /// Title, body and icon.
    closed spec fn view(&self) -> (Seq<char>, Seq<char>, Seq<char>) {
        (self.title@, self.body@, self.icon@)
    }
}

impl Notification {
    pub fn new(title: String, body: String, icon: String) -> (out: Self)
        ensures
            out@ == (title@, body@, icon@),
    {
        Self { title, body, icon }
    }

    /// Hands the message over. Nothing can go wrong here.
    pub fn push(&self) -> (r: Result<(), ()>)
        ensures
            r is Ok,
    {
        Ok(())
    }
}

} // verus!
