//! References to CSS custom properties.
//!
//! A `CssVar` names a custom property. The name is stored in normal form,
//! with surrounding white space removed and a leading `--`, and the reference
//! is written `var(--name)` wherever a value is expected.
use crate::text::{is_trimmed, lemma_trimmed_fixpoint, lemma_trimmed_is_trimmed, trim, trimmed, Render};
use vstd::prelude::*;

verus! {

/// Whether `s` begins with two hyphens.
pub open spec fn has_dashes(s: Seq<char>) -> bool {
    s.len() >= 2 && s[0] == '-' && s[1] == '-'
}

/// The normal form of a custom property name: the trimmed name, with `--` put
/// in front unless it is already there.
pub open spec fn normalized(name: Seq<char>) -> Seq<char> {
    let t = trimmed(name);
    if has_dashes(t) {
        t
    } else {
        seq!['-', '-'] + t
    }
}

/// The text of a reference to the custom property called `name`.
pub open spec fn reference_text(name: Seq<char>) -> Seq<char> {
    seq!['v', 'a', 'r', '('] + name + seq![')']
}

/// A normal form begins with `--` and has no white space at its ends.
pub proof fn lemma_normalized_shape(name: Seq<char>)
    ensures
        has_dashes(normalized(name)),
        is_trimmed(normalized(name)),
{
    let t = trimmed(name);
    lemma_trimmed_is_trimmed(name);
    if !has_dashes(t) {
        let n = seq!['-', '-'] + t;
        assert(n[0] == '-' && n[1] == '-');
        if t.len() > 0 {
            assert(n.last() == t.last());
        } else {
            assert(n.last() == '-');
        }
    }
}

/// Normalizing is idempotent: the normal form of a normal form is that same
/// name, so a second `--` is never put in front.
pub proof fn lemma_normalized_idempotent(name: Seq<char>)
    ensures
        normalized(normalized(name)) == normalized(name),
{
    lemma_normalized_shape(name);
    lemma_trimmed_fixpoint(normalized(name));
}

/// Whether `s` begins with two hyphens.
pub fn starts_with_dashes(s: &str) -> (b: bool)
    ensures
        b == has_dashes(s@),
{
    s.unicode_len() >= 2 && s.get_char(0) == '-' && s.get_char(1) == '-'
}

/// The normal form of a custom property name.
pub fn normalize(name: &str) -> (out: String)
    ensures
        out@ == normalized(name@),
{
    let t = trim(name);
    if starts_with_dashes(t) {
        String::from_str(t)
    } else {
        let mut out = String::from_str("--");
        out.append(t);
        proof {
            reveal_strlit("--");
            assert(out@ =~= seq!['-', '-'] + t@);
        }
        out
    }
}

/// A reference to a CSS custom property.
#[derive(Debug, PartialEq)]
pub struct CssVar(String);

impl Clone for CssVar {
    fn clone(&self) -> (copy: CssVar)
        ensures
            copy == *self,
    {
        proof {
            use_type_invariant(self);
        }
        CssVar(self.0.clone())
    }
}

impl CssVar {
    /// The stored name of the custom property.
    pub closed spec fn name(&self) -> Seq<char> {
        self.0@
    }

    #[verifier::type_invariant]
    spec fn stored_in_normal_form(&self) -> bool {
        has_dashes(self.0@) && is_trimmed(self.0@)
    }

    /// A reference to the custom property called `name`, given with or
    /// without its leading `--`.
    pub fn new(name: &str) -> (v: CssVar)
        ensures
            v.name() == normalized(name@),
    {
        proof {
            lemma_normalized_shape(name@);
        }
        CssVar(normalize(name))
    }

    /// The stored name, which always begins with `--`.
    pub fn raw_name(&self) -> (s: &str)
        ensures
            s@ == self.name(),
            has_dashes(s@),
            normalized(s@) == s@,
    {
        proof {
            use_type_invariant(self);
            lemma_trimmed_fixpoint(self.0@);
        }
        self.0.as_str()
    }
}

impl Render for CssVar {
    open spec fn text(&self) -> Seq<char> {
        reference_text(self.name())
    }

    fn render(&self) -> (out: String) {
        let mut out = String::from_str("var(");
        out.append(self.0.as_str());
        out.append(")");
        proof {
            reveal_strlit("var(");
            reveal_strlit(")");
            assert(out@ =~= reference_text(self.name()));
        }
        out
    }
}

/// A reference to the custom property called `name`.
pub fn var(name: &str) -> (v: CssVar)
    ensures
        v.name() == normalized(name@),
{
    CssVar::new(name)
}

} // verus!
