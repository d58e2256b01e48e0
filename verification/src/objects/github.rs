//! GitHub objects.
use vstd::prelude::*;

use crate::output::{field_line, line, output_field_wrapped, spec_output_field_wrapped, Layout, Render};
use crate::text::{concat, owned, push_char};

verus! {

/// A GitHub issue.
#[derive(Debug)]
pub struct Issue {
    pub id: String,
    pub title: Option<String>,
}

impl Issue {
    /// Text of the issue in search results: its ID.
    pub fn search_display(&self) -> (r: String)
        ensures
            r@ == self.id@,
    {
        self.id.clone()
    }

    /// Display text of the issue: its ID on a line.
    pub fn display(&self) -> (r: String)
        ensures
            r@ == line("ID: "@ + self.id@),
    {
        let mut t = concat("ID: ", self.id.as_str());
        push_char(&mut t, '\n');
        t
    }
}

impl Render for Issue {
    open spec fn renderable(&self) -> bool {
        true
    }

    open spec fn spec_render(&self, out: Layout) -> Seq<char> {
        spec_output_field_wrapped("Title"@, match self.title {
            Some(t) => Some(t@),
            None => None,
        }, out.width as nat) + line(field_line("ID"@, self.id@))
    }

    fn render(&self, out: Layout) -> (s: String) {
        let title = match &self.title {
            Some(t) => Some(t.as_str()),
            None => None,
        };
        let mut t = output_field_wrapped("Title", title, out.width);
        let idl = crate::output::field_text("ID", self.id.as_str());
        t.append(idl.as_str());
        push_char(&mut t, '\n');
        t
    }
}

} // verus!
