//! The remote procedure's message pair: a request carrying an id and a
//! message, and a response carrying a text.  On the wire these travel in a
//! binary encoding; the harness's logic reads only the fields modelled here.

use vstd::prelude::*;

verus! {

/// The request of the remote unary procedure.
#[derive(Debug)]
pub struct HelloRequest {
    pub id: String,
    pub message: String,
}

impl HelloRequest {
    /// A fresh request with both fields empty.
    pub fn new() -> (r: Self)
        ensures
            r.id@ == Seq::<char>::empty(),
            r.message@ == Seq::<char>::empty(),
    {
        HelloRequest { id: String::new(), message: String::new() }
    }

    pub fn set_id(&mut self, v: String)
        ensures
            final(self).id == v,
            final(self).message == old(self).message,
    {
        self.id = v;
    }

    pub fn set_message(&mut self, v: String)
        ensures
            final(self).message == v,
            final(self).id == old(self).id,
    {
        self.message = v;
    }

    pub fn get_id(&self) -> (s: &str)
        ensures
            s@ == self.id@,
    {
        self.id.as_str()
    }

    pub fn get_message(&self) -> (s: &str)
        ensures
            s@ == self.message@,
    {
        self.message.as_str()
    }
}

/// The response of the remote unary procedure.
#[derive(Debug)]
pub struct HelloResponse {
    pub text: String,
}

impl HelloResponse {
    /// A fresh response with an empty text.
    pub fn new() -> (r: Self)
        ensures
            r.text@ == Seq::<char>::empty(),
    {
        HelloResponse { text: String::new() }
    }

    pub fn set_text(&mut self, v: String)
        ensures
            final(self).text == v,
    {
        self.text = v;
    }

    pub fn get_text(&self) -> (s: &str)
        ensures
            s@ == self.text@,
    {
        self.text.as_str()
    }
}

} // verus!
