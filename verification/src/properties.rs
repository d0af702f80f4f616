//! CSS properties.
//!
//! A `Property` is one declaration: a property name and the text of its
//! value, rendered once when the property is made. The submodules hold one
//! constructor per CSS property; each fixes the property's name and says how
//! its value is composed.
use crate::text::Render;
use vstd::prelude::*;

pub mod align_content;
pub mod align_items;
pub mod background_color;
pub mod border;
pub mod border_bottom;
pub mod border_left;
pub mod border_right;
pub mod border_top;
pub mod color;
pub mod display;
pub mod flex;
pub mod font;
pub mod grid;
pub mod layout;
pub mod position;
pub mod size;
pub mod size_ext;
pub mod transition;

verus! {

/// The mathematical content of a declaration: a property name and a value,
/// both as characters.
pub struct Declaration {
    pub name: Seq<char>,
    pub value: Seq<char>,
}

impl Declaration {
    /// The declaration as it is written in CSS: the name, a colon and one
    /// space, the value, and a semicolon.
    pub open spec fn text(self) -> Seq<char> {
        self.name + seq![':', ' '] + self.value + seq![';']
    }
}

/// The declaration of `value` for the property `name`.
pub open spec fn declared(name: Seq<char>, value: Seq<char>) -> Declaration {
    Declaration { name, value }
}

/// Every declaration is written as its name, then `: `, then its value, and
/// ends with a semicolon that nothing follows.
pub proof fn lemma_declaration_shape(d: Declaration)
    ensures
        d.text().len() == d.name.len() + d.value.len() + 3,
        d.text().take(d.name.len() as int + 2) == d.name + seq![':', ' '],
        d.text().subrange(d.name.len() as int + 2, d.text().len() as int - 1) == d.value,
        d.text().last() == ';',
{
    let t = d.text();
    assert(t.take(d.name.len() as int + 2) =~= d.name + seq![':', ' ']);
    assert(t.subrange(d.name.len() as int + 2, t.len() as int - 1) =~= d.value);
}

/// A CSS property: a name and the text of its value.
#[derive(Debug, Clone)]
pub struct Property {
    name: String,
    value: String,
}

impl View for Property {
    type V = Declaration;

    closed spec fn view(&self) -> Declaration {
        Declaration { name: self.name@, value: self.value@ }
    }
}

impl Property {
    /// The property `name` with the text of `value` as its value. The value
    /// is rendered here, once.
    pub fn new<T: Render>(name: &str, value: T) -> (p: Property)
        ensures
            p@ == declared(name@, value.text()),
    {
        Property { name: String::from_str(name), value: value.render() }
    }
}

impl Render for Property {
    open spec fn text(&self) -> Seq<char> {
        self@.text()
    }

    fn render(&self) -> (out: String) {
        let mut out = self.name.clone();
        out.append(": ");
        out.append(self.value.as_str());
        out.append(";");
        proof {
            reveal_strlit(": ");
            reveal_strlit(";");
            assert(out@ =~= self@.text());
        }
        out
    }
}

} // verus!
